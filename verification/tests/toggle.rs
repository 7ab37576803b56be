use gamepad_control::toggle::{
    PendingToggleRequest, Resolution, TargetPolicy, ToggleRequestCoordinator,
};

fn coordinator() -> ToggleRequestCoordinator {
    ToggleRequestCoordinator::new(3, 200, TargetPolicy::Negate, false)
}

#[test]
fn a_new_coordinator_is_idle_everywhere() {
    let c = coordinator();
    assert_eq!(c.axle_count(), 3);
    assert_eq!(c.pending_request(), None);
    for axle in 0..3 {
        assert!(!c.confirmed_state(axle));
        assert!(!c.request_in_flight(axle));
    }
    assert_eq!(c.remaining_wait(0), None);
}

#[test]
fn a_rising_edge_while_idle_requests_the_opposite_state() {
    let mut c = coordinator();
    let r = c.request_toggle(0, 1_000);
    assert_eq!(r, Some(PendingToggleRequest { axle: 0, target: true, created_at: 1_000 }));
    assert!(c.request_in_flight(0));
    assert!(!c.request_in_flight(1));
    assert!(!c.request_in_flight(2));
    assert!(!c.confirmed_state(0));
    assert_eq!(c.pending_request(), r);
}

#[test]
fn an_accepting_response_confirms_the_target() {
    let mut c = coordinator();
    let request = c.request_toggle(0, 1_000).unwrap();
    let r = c.on_response(true, &vec![true, false, false]);
    assert_eq!(r, Resolution::Accepted(request));
    assert!(c.confirmed_state(0));
    assert!(!c.confirmed_state(1));
    assert!(!c.confirmed_state(2));
    assert!(!c.request_in_flight(0));
    assert_eq!(c.pending_request(), None);
}

#[test]
fn a_refusing_response_changes_no_state() {
    let mut c = coordinator();
    let request = c.request_toggle(1, 5).unwrap();
    let r = c.on_response(false, &vec![true, true, true]);
    assert_eq!(r, Resolution::Rejected(request));
    for axle in 0..3 {
        assert!(!c.confirmed_state(axle));
        assert!(!c.request_in_flight(axle));
    }
    assert_eq!(c.pending_request(), None);
}

#[test]
fn a_second_toggle_goes_back() {
    let mut c = coordinator();
    c.request_toggle(2, 0);
    c.on_response(true, &vec![false, false, true]);
    assert!(c.confirmed_state(2));
    let r = c.request_toggle(2, 300);
    assert_eq!(r, Some(PendingToggleRequest { axle: 2, target: false, created_at: 300 }));
    c.on_response(true, &vec![false, false, false]);
    assert!(!c.confirmed_state(2));
}

#[test]
fn a_second_edge_while_awaiting_requests_nothing() {
    let mut c = coordinator();
    let first = c.request_toggle(0, 10);
    assert_eq!(c.request_toggle(0, 20), None);
    assert_eq!(c.request_toggle(1, 30), None);
    assert_eq!(c.pending_request(), first);
    assert!(c.request_in_flight(0));
    assert!(!c.request_in_flight(1));
}

#[test]
fn at_most_one_channel_is_in_flight() {
    let mut c = coordinator();
    for step in 0u64..12 {
        let axle = (step % 3) as usize;
        c.request_toggle(axle, step);
        let marked = (0..3).filter(|a| c.request_in_flight(*a)).count();
        assert!(marked <= 1);
        assert_eq!(marked == 1, c.pending_request().is_some());
        if step % 4 == 3 {
            c.on_response(step % 8 == 3, &vec![false, false, false]);
            assert_eq!((0..3).filter(|a| c.request_in_flight(*a)).count(), 0);
        }
    }
}

#[test]
fn no_response_before_the_deadline_keeps_waiting() {
    let mut c = coordinator();
    let request = c.request_toggle(0, 1_000);
    assert_eq!(c.remaining_wait(1_000), Some(200));
    assert_eq!(c.remaining_wait(1_150), Some(50));
    assert_eq!(c.on_no_response(1_150), Resolution::StillWaiting(50));
    assert_eq!(c.on_no_response(1_199), Resolution::StillWaiting(1));
    assert_eq!(c.pending_request(), request);
    assert!(c.request_in_flight(0));
}

#[test]
fn no_response_within_the_deadline_gives_up() {
    let mut c = coordinator();
    let request = c.request_toggle(0, 1_000).unwrap();
    assert_eq!(c.remaining_wait(1_200), Some(0));
    assert_eq!(c.on_no_response(1_200), Resolution::GaveUp(request));
    assert!(!c.confirmed_state(0));
    assert!(!c.request_in_flight(0));
    assert_eq!(c.pending_request(), None);
    // a later edge may issue again
    let again = c.request_toggle(0, 2_000);
    assert_eq!(again, Some(PendingToggleRequest { axle: 0, target: true, created_at: 2_000 }));
}

#[test]
fn giving_up_keeps_a_confirmed_state() {
    let mut c = coordinator();
    c.request_toggle(1, 0);
    c.on_response(true, &vec![false, true, false]);
    let request = c.request_toggle(1, 500).unwrap();
    assert_eq!(request.target, false);
    assert_eq!(c.on_no_response(9_999), Resolution::GaveUp(request));
    assert!(c.confirmed_state(1));
    assert!(!c.request_in_flight(1));
}

#[test]
fn a_clock_that_reads_earlier_counts_as_no_time_gone() {
    let mut c = coordinator();
    c.request_toggle(0, 1_000);
    assert_eq!(c.remaining_wait(900), Some(200));
    assert_eq!(c.on_no_response(900), Resolution::StillWaiting(200));
}

#[test]
fn a_zero_deadline_gives_up_at_once() {
    let mut c = ToggleRequestCoordinator::new(1, 0, TargetPolicy::Negate, false);
    let request = c.request_toggle(0, 7).unwrap();
    assert_eq!(c.on_no_response(7), Resolution::GaveUp(request));
}

#[test]
fn events_without_a_request_are_ignored() {
    let mut c = coordinator();
    assert_eq!(c.on_response(true, &vec![true, true, true]), Resolution::NoRequest);
    assert_eq!(c.on_no_response(5_000), Resolution::NoRequest);
    for axle in 0..3 {
        assert!(!c.confirmed_state(axle));
        assert!(!c.request_in_flight(axle));
    }
}

#[test]
fn a_transport_failure_is_fatal_and_frees_the_handle() {
    let mut c = coordinator();
    c.request_toggle(2, 0);
    assert_eq!(c.on_transport_error(), Resolution::Fatal);
    assert_eq!(c.pending_request(), None);
    for axle in 0..3 {
        assert!(!c.confirmed_state(axle));
        assert!(!c.request_in_flight(axle));
    }
}

#[test]
fn a_transport_failure_without_a_request_is_fatal_too() {
    let mut c = coordinator();
    assert_eq!(c.on_transport_error(), Resolution::Fatal);
    assert_eq!(c.pending_request(), None);
}

#[test]
fn a_fixed_target_is_requested_whatever_the_state() {
    let mut c = ToggleRequestCoordinator::new(2, 200, TargetPolicy::Fixed(true), false);
    let first = c.request_toggle(1, 0).unwrap();
    assert!(first.target);
    c.on_response(true, &vec![false, true]);
    assert!(c.confirmed_state(1));
    let second = c.request_toggle(1, 1).unwrap();
    assert!(second.target);
    c.on_response(true, &vec![false, true]);
    assert!(c.confirmed_state(1));
    let mut off = ToggleRequestCoordinator::new(2, 200, TargetPolicy::Fixed(false), false);
    assert!(!off.request_toggle(0, 0).unwrap().target);
}

#[test]
fn the_reported_vector_is_ignored_unless_asked_for() {
    let mut c = coordinator();
    c.request_toggle(0, 0);
    c.on_response(true, &vec![false, true, true]);
    assert!(c.confirmed_state(0));
    assert!(!c.confirmed_state(1));
    assert!(!c.confirmed_state(2));
}

#[test]
fn the_reported_vector_reconciles_the_other_channels() {
    let mut c = ToggleRequestCoordinator::new(3, 200, TargetPolicy::Negate, true);
    c.request_toggle(0, 0);
    c.on_response(true, &vec![false, true, true]);
    // the requested channel takes the target, the others what was reported
    assert!(c.confirmed_state(0));
    assert!(c.confirmed_state(1));
    assert!(c.confirmed_state(2));
}

#[test]
fn a_refusal_reconciles_nothing() {
    let mut c = ToggleRequestCoordinator::new(3, 200, TargetPolicy::Negate, true);
    c.request_toggle(0, 0);
    c.on_response(false, &vec![true, true, true]);
    for axle in 0..3 {
        assert!(!c.confirmed_state(axle));
    }
}

#[test]
fn a_vector_of_another_length_reconciles_nothing() {
    let mut c = ToggleRequestCoordinator::new(3, 200, TargetPolicy::Negate, true);
    c.request_toggle(1, 0);
    c.on_response(true, &vec![true, true]);
    assert!(!c.confirmed_state(0));
    assert!(c.confirmed_state(1));
    assert!(!c.confirmed_state(2));
}
