use bookstore_testbed::harness::{TestHarnessReceiver, TestMessage};

#[test]
fn fresh_listener_cleans_up() {
    let listener = TestHarnessReceiver::new();
    assert!(listener.clean());
}

#[test]
fn failure_signal_retains_database() {
    let mut listener = TestHarnessReceiver::new();
    listener.on_message(TestMessage::MarkFailed);
    assert!(!listener.clean());
}

#[test]
fn repeated_failure_signals_are_harmless() {
    let mut once = TestHarnessReceiver::new();
    once.on_message(TestMessage::MarkFailed);
    let mut twice = TestHarnessReceiver::new();
    twice.on_message(TestMessage::MarkFailed);
    twice.on_message(TestMessage::MarkFailed);
    assert_eq!(once.clean(), twice.clean());
}

#[test]
fn listen_without_signals_cleans_up() {
    let mut listener = TestHarnessReceiver::new();
    listener.listen(&Vec::new());
    assert!(listener.clean());
}

#[test]
fn listen_with_signals_retains() {
    let mut listener = TestHarnessReceiver::new();
    listener.listen(&vec![TestMessage::MarkFailed, TestMessage::MarkFailed]);
    assert!(!listener.clean());
}
