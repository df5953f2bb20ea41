//! The per-test cleanup protocol: a test's harness signals failure over a
//! channel; the companion listener folds the signals it received into a
//! single retention decision once the channel closes. The listener keeps
//! cleaning by default and switches to retention on the first failure
//! signal; repeated signals are harmless.
use vstd::prelude::*;

verus! {

/// Capacity of the per-test signal channel: generously above the
/// worst-case number of concurrent signals, so a send never blocks.
pub const SIGNAL_CHANNEL_CAPACITY: usize = 100;

/// Messages a test harness may send to its cleanup listener.
#[derive(Clone, Copy, PartialEq, Eq, Structural, Debug)]
pub enum TestMessage {
    MarkFailed,
}

/// Whether a sequence of received messages carries a failure signal.
pub open spec fn contains_failure(msgs: Seq<TestMessage>) -> bool {
    msgs.contains(TestMessage::MarkFailed)
}

/// One step of the listener: a failure signal clears the cleanup flag,
/// anything else leaves it as it is.
pub open spec fn listener_step(should_clean: bool, msg: TestMessage) -> bool {
    should_clean && !(msg is MarkFailed)
}

/// The cleanup flag after the listener has consumed a whole message
/// sequence, starting from `init`.
pub open spec fn listener_state_after(init: bool, msgs: Seq<TestMessage>) -> bool
    decreases msgs.len(),
{
    if msgs.len() == 0 {
        init
    } else {
        listener_step(listener_state_after(init, msgs.drop_last()), msgs.last())
    }
}

/// The listener half of a harness/listener pair: it consumes the messages
/// of its channel and, once the channel has closed, decides whether the
/// test's ephemeral database is released or retained for inspection.
pub struct TestHarnessReceiver {
    pub should_clean: bool,
}

impl TestHarnessReceiver {
    /// A fresh listener cleans up unless told otherwise.
    pub fn new() -> (r: Self)
        ensures
            r.should_clean,
    {
        TestHarnessReceiver { should_clean: true }
    }

    /// Consume one received message.
    pub fn on_message(&mut self, msg: TestMessage)
        ensures
            final(self).should_clean == listener_step(old(self).should_clean, msg),
    {
        match msg {
            TestMessage::MarkFailed => {
                self.should_clean = false;
            },
        }
    }

    /// Consume a whole sequence of received messages, as the receive loop
    /// does until the channel closes.
    pub fn listen(&mut self, msgs: &Vec<TestMessage>)
        ensures
            final(self).should_clean == listener_state_after(old(self).should_clean, msgs@),
    {
        let n: usize = msgs.len();
        let mut i: usize = 0;
        while i < n
            invariant
                n == msgs@.len(),
                i <= n,
                self.should_clean == listener_state_after(old(self).should_clean, msgs@.take(i as int)),
            decreases n - i,
        {
            self.on_message(msgs[i]);
            proof {
                assert(msgs@.take(i + 1 as int).drop_last() =~= msgs@.take(i as int));
                assert(msgs@.take(i + 1 as int).last() == msgs@[i as int]);
            }
            i = i + 1;
        }
        proof {
            assert(msgs@.take(n as int) =~= msgs@);
        }
    }

    /// The listener's final decision once its channel has closed: true
    /// means the database is released, false that it is retained.
    pub fn clean(self) -> (r: bool)
        ensures
            r == self.should_clean,
    {
        self.should_clean
    }
}

/// The decision is the absence of a failure signal: after consuming any
/// message sequence, a listener that started clean keeps `should_clean`
/// exactly when no failure signal was among the messages.
pub proof fn lemma_decision_is_no_failure(init: bool, msgs: Seq<TestMessage>)
    ensures
        listener_state_after(init, msgs) == (init && !contains_failure(msgs)),
    decreases msgs.len(),
{
    if msgs.len() == 0 {
        assert(!contains_failure(msgs));
    } else {
        lemma_decision_is_no_failure(init, msgs.drop_last());
        if contains_failure(msgs.drop_last()) || msgs.last() is MarkFailed {
            if contains_failure(msgs.drop_last()) {
                let i = choose|i: int|
                    0 <= i < msgs.drop_last().len() && msgs.drop_last()[i]
                        == TestMessage::MarkFailed;
                assert(msgs[i] == TestMessage::MarkFailed);
            } else {
                assert(msgs[msgs.len() - 1] == TestMessage::MarkFailed);
            }
            assert(contains_failure(msgs));
        } else {
            assert forall|i: int| 0 <= i < msgs.len() implies msgs[i] != TestMessage::MarkFailed
                by {
                if i < msgs.len() - 1 {
                    assert(msgs.drop_last()[i] == msgs[i]);
                } else {
                    assert(msgs.last() == msgs[i]);
                }
            }
            assert(!contains_failure(msgs));
        }
    }
}

/// Retention on failure: a listener that received at least one failure
/// signal does not release its database.
pub proof fn lemma_failure_retains(msgs: Seq<TestMessage>)
    requires
        contains_failure(msgs),
    ensures
        !listener_state_after(true, msgs),
{
    lemma_decision_is_no_failure(true, msgs);
}

/// Cleanup on success: a listener that never received a failure signal
/// releases its database when the channel closes.
pub proof fn lemma_success_cleans(msgs: Seq<TestMessage>)
    requires
        !contains_failure(msgs),
    ensures
        listener_state_after(true, msgs),
{
    lemma_decision_is_no_failure(true, msgs);
}

/// Repeated failure signals are harmless: signalling failure twice leaves
/// the listener in the same state as signalling it once.
pub proof fn lemma_mark_failed_idempotent(init: bool, msgs: Seq<TestMessage>)
    ensures
        listener_state_after(init, msgs.push(TestMessage::MarkFailed).push(TestMessage::MarkFailed))
            == listener_state_after(init, msgs.push(TestMessage::MarkFailed)),
{
    let once = msgs.push(TestMessage::MarkFailed);
    let twice = once.push(TestMessage::MarkFailed);
    assert(twice.drop_last() =~= once);
}

} // verus!
