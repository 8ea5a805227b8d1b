use localserve::serve::{accept_transition, may_reuse_connection, AcceptEvent, AcceptStep};

#[test]
fn a_connection_is_served_and_listening_goes_on() {
    assert_eq!(accept_transition(&AcceptEvent::Connection), AcceptStep::Serve);
}

#[test]
fn a_transient_accept_error_does_not_end_the_loop() {
    assert_eq!(accept_transition(&AcceptEvent::TransientError), AcceptStep::Continue);
}

#[test]
fn a_closed_listener_ends_the_loop() {
    assert_eq!(accept_transition(&AcceptEvent::Closed), AcceptStep::Exit);
}

#[test]
fn connections_are_reused_only_before_shutdown() {
    assert!(may_reuse_connection(false));
    assert!(!may_reuse_connection(true));
}
