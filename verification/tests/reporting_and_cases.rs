use bookstore_testbed::bookstore_cases::{
    book_registering_fixture, book_registering_verdict, registering_conflict_verdict, STATUS_CONFLICT,
    STATUS_OK,
};
use bookstore_testbed::reporting::{frame_is_kept, reporting_frames, specific_envfilter};

#[test]
fn reporting_frames_hold_module_and_bracketed_module() {
    let frames = reporting_frames("integration");
    assert_eq!(frames, vec!["integration".to_string(), "<integration".to_string()]);
}

#[test]
fn unnamed_frame_is_kept() {
    let keep = vec!["integration".to_string()];
    assert!(frame_is_kept(&None, &keep));
}

#[test]
fn frame_matching_a_prefix_is_kept() {
    let keep = reporting_frames("integration");
    assert!(frame_is_kept(
        &Some("integration::testharness::run".to_string()),
        &keep
    ));
    assert!(frame_is_kept(&Some("<integration as Runner>::go".to_string()), &keep));
}

#[test]
fn frame_matching_no_prefix_is_dropped() {
    let keep = reporting_frames("integration");
    assert!(!frame_is_kept(&Some("tokio::runtime::park".to_string()), &keep));
}

#[test]
fn requested_directive_wins_over_default() {
    assert_eq!(
        specific_envfilter(Some("trace".to_string()), "debug"),
        "trace"
    );
}

#[test]
fn default_directive_applies_when_none_requested() {
    assert_eq!(specific_envfilter(None, "debug"), "debug");
}

#[test]
fn fixture_is_the_ship_of_theseus() {
    let fixture = book_registering_fixture();
    assert_eq!(fixture.name, "Ship of Theseus");
    assert_eq!(
        fixture.description,
        "Elaborate book about two people tracking down a mysterious author"
    );
}

#[test]
fn registering_verdict_needs_ok_and_echoed_name() {
    assert!(book_registering_verdict(STATUS_OK, "Ship of Theseus"));
    assert!(!book_registering_verdict(STATUS_OK, "Another Book"));
    assert!(!book_registering_verdict(STATUS_CONFLICT, "Ship of Theseus"));
    assert!(!book_registering_verdict(500, "Ship of Theseus"));
}

#[test]
fn conflict_verdict_needs_conflict_status() {
    assert!(registering_conflict_verdict(STATUS_CONFLICT));
    assert!(!registering_conflict_verdict(STATUS_OK));
    assert!(!registering_conflict_verdict(500));
}
