use gamepad_control::arbiter::{
    magnitude, ActuatorArbiter, Command, Direction, PriorityToken, SourceInput,
};

fn input(latch: bool, held: bool, analog: i32) -> SourceInput {
    SourceInput { latch, held, analog }
}

fn forward(m: u64) -> Option<Command> {
    Some(Command::Drive { direction: Direction::Forward, magnitude: m })
}

fn backward(m: u64) -> Option<Command> {
    Some(Command::Drive { direction: Direction::Backward, magnitude: m })
}

#[test]
fn a_fully_released_trigger_gives_magnitude_zero() {
    assert_eq!(magnitude(1000, 500), 0);
}

#[test]
fn a_fully_pressed_trigger_gives_twice_the_scale() {
    assert_eq!(magnitude(-1000, 500), 1000);
}

#[test]
fn magnitude_is_linear_in_the_depth() {
    assert_eq!(magnitude(0, 500), 500);
    assert_eq!(magnitude(500, 500), 250);
    assert_eq!(magnitude(-500, 500), 750);
    assert_eq!(magnitude(0, 0), 0);
    assert_eq!(magnitude(-1000, 1), 2);
}

#[test]
fn magnitude_rounds_to_the_nearest_integer() {
    // depth 1/1000 of scale 500 is 0.5 and rounds up
    assert_eq!(magnitude(999, 500), 1);
    // depth 1/1000 of scale 499 is 0.499 and rounds down
    assert_eq!(magnitude(999, 499), 0);
    // depth 0.499 rounds down, 0.5 and 0.501 round up
    assert_eq!(magnitude(501, 1), 0);
    assert_eq!(magnitude(500, 1), 1);
    assert_eq!(magnitude(499, 1), 1);
    // depth 1.499 and 1.5
    assert_eq!(magnitude(-499, 1), 1);
    assert_eq!(magnitude(-500, 1), 2);
}

#[test]
fn magnitude_holds_the_largest_scale() {
    assert_eq!(magnitude(-1000, u32::MAX), 2 * (u32::MAX as u64));
    assert_eq!(magnitude(0, u32::MAX), u32::MAX as u64);
}

#[test]
fn forward_source_at_rest_position_drives_with_magnitude_zero() {
    let mut a = ActuatorArbiter::new(500);
    let out = a.step(input(false, true, 1000), input(false, false, 1000));
    assert_eq!(out, forward(0));
    assert_eq!(a.holder(), PriorityToken::Forward);
}

#[test]
fn forward_source_fully_pressed_drives_with_magnitude_1000() {
    let mut a = ActuatorArbiter::new(500);
    let out = a.step(input(false, true, -1000), input(false, false, 1000));
    assert_eq!(out, forward(1000));
}

#[test]
fn nothing_is_sent_while_nothing_was_ever_held() {
    let mut a = ActuatorArbiter::new(500);
    assert_eq!(a.holder(), PriorityToken::Unheld);
    for _ in 0..3 {
        assert_eq!(a.step(input(false, false, 1000), input(false, false, 1000)), None);
        assert_eq!(a.holder(), PriorityToken::Unheld);
    }
}

#[test]
fn a_held_source_sends_its_command_every_cycle() {
    let mut a = ActuatorArbiter::new(500);
    assert_eq!(a.step(input(false, true, 0), input(false, false, 1000)), forward(500));
    assert_eq!(a.step(input(true, true, -200), input(false, false, 1000)), forward(600));
    assert_eq!(a.step(input(true, true, -200), input(false, false, 1000)), forward(600));
    assert_eq!(a.holder(), PriorityToken::Forward);
}

#[test]
fn the_backward_source_drives_backward() {
    let mut a = ActuatorArbiter::new(500);
    assert_eq!(a.step(input(false, false, 1000), input(false, true, -1000)), backward(1000));
    assert_eq!(a.holder(), PriorityToken::Backward);
}

#[test]
fn release_sends_exactly_one_zero_command() {
    let mut a = ActuatorArbiter::new(500);
    a.step(input(false, true, 0), input(false, false, 1000));
    assert_eq!(a.step(input(true, false, 1000), input(false, false, 1000)), Some(Command::Rest));
    assert_eq!(a.holder(), PriorityToken::Unheld);
    assert_eq!(a.step(input(false, false, 1000), input(false, false, 1000)), None);
    assert_eq!(a.step(input(false, false, 1000), input(false, false, 1000)), None);
    // the next command comes with a source held again
    assert_eq!(a.step(input(false, false, 1000), input(false, true, 0)), backward(500));
}

#[test]
fn the_source_pressed_last_takes_control() {
    let mut a = ActuatorArbiter::new(500);
    assert_eq!(a.step(input(false, true, 0), input(false, false, 1000)), forward(500));
    // backward rises while forward stays held
    assert_eq!(a.step(input(true, true, 0), input(false, true, -1000)), backward(1000));
    assert_eq!(a.holder(), PriorityToken::Backward);
    assert_eq!(a.step(input(true, true, 0), input(true, true, -1000)), backward(1000));
}

#[test]
fn control_returns_without_a_zero_command() {
    let mut a = ActuatorArbiter::new(500);
    a.step(input(false, true, 0), input(false, false, 1000));
    a.step(input(true, true, 0), input(false, true, -1000));
    // backward falls while forward was held all along
    assert_eq!(a.step(input(true, true, 200), input(true, false, 1000)), forward(400));
    assert_eq!(a.holder(), PriorityToken::Forward);
}

#[test]
fn control_does_not_return_to_a_released_source() {
    let mut a = ActuatorArbiter::new(500);
    a.step(input(false, true, 0), input(false, false, 1000));
    a.step(input(true, true, 0), input(false, true, -1000));
    // forward is released while backward drives
    assert_eq!(a.step(input(true, false, 1000), input(true, true, -1000)), backward(1000));
    assert_eq!(a.step(input(false, false, 1000), input(true, true, -1000)), backward(1000));
    // backward falls: zero first
    assert_eq!(a.step(input(false, false, 1000), input(true, false, 1000)), Some(Command::Rest));
    assert_eq!(a.holder(), PriorityToken::Unheld);
}

#[test]
fn forward_wrests_control_from_backward() {
    let mut a = ActuatorArbiter::new(100);
    assert_eq!(a.step(input(false, false, 1000), input(false, true, 0)), backward(100));
    assert_eq!(a.step(input(false, true, -1000), input(true, true, 0)), forward(200));
    assert_eq!(a.holder(), PriorityToken::Forward);
    // forward falls while backward is still held: backward resumes in the same cycle
    assert_eq!(a.step(input(true, false, 1000), input(true, true, 0)), backward(100));
    assert_eq!(a.holder(), PriorityToken::Backward);
}

#[test]
fn forward_wins_when_both_rise_in_one_cycle() {
    let mut a = ActuatorArbiter::new(500);
    assert_eq!(a.step(input(false, true, 0), input(false, true, -1000)), forward(500));
    assert_eq!(a.holder(), PriorityToken::Forward);
}

#[test]
fn both_falling_in_one_cycle_rests_once() {
    let mut a = ActuatorArbiter::new(500);
    a.step(input(false, true, 0), input(false, true, 0));
    assert_eq!(a.step(input(true, false, 1000), input(true, false, 1000)), Some(Command::Rest));
    assert_eq!(a.step(input(false, false, 1000), input(false, false, 1000)), None);
}

#[test]
fn a_fall_with_a_rise_of_the_other_source_hands_over() {
    let mut a = ActuatorArbiter::new(500);
    a.step(input(false, true, 0), input(false, false, 1000));
    assert_eq!(a.step(input(true, false, 1000), input(false, true, 0)), backward(500));
    assert_eq!(a.holder(), PriorityToken::Backward);
}

#[test]
fn a_fall_of_the_source_without_the_token_changes_nothing() {
    let mut a = ActuatorArbiter::new(500);
    a.step(input(false, true, 0), input(false, false, 1000));
    a.step(input(true, true, 0), input(false, true, 0));
    a.step(input(false, true, 0), input(true, true, 0));
    assert_eq!(a.holder(), PriorityToken::Forward);
    assert_eq!(a.step(input(true, true, 0), input(true, false, 1000)), forward(500));
    assert_eq!(a.holder(), PriorityToken::Forward);
}

#[test]
fn never_both_directions_and_never_a_drive_without_a_held_source() {
    let frames = [
        (false, false),
        (true, false),
        (true, true),
        (false, true),
        (true, true),
        (false, false),
        (false, false),
        (false, true),
        (true, false),
        (false, false),
    ];
    let mut a = ActuatorArbiter::new(500);
    let mut latch = (false, false);
    let mut active = false;
    for &(f, b) in frames.iter() {
        let out = a.step(input(latch.0, f, -1000), input(latch.1, b, -1000));
        match out {
            Some(Command::Drive { direction, magnitude }) => {
                assert!(f || b);
                assert_eq!(magnitude, 1000);
                match direction {
                    Direction::Forward => assert!(f && a.holder() == PriorityToken::Forward),
                    Direction::Backward => assert!(b && a.holder() == PriorityToken::Backward),
                }
                active = true;
            }
            Some(Command::Rest) => {
                assert!(!f && !b && active);
                active = false;
            }
            None => assert!(!f && !b && !active),
        }
        latch = (f, b);
    }
}

#[test]
fn a_source_pressed_again_takes_control_back() {
    let mut a = ActuatorArbiter::new(500);
    a.step(input(false, true, 0), input(false, false, 1000));
    a.step(input(true, true, 0), input(false, true, -1000));
    // forward is released and pressed again while backward stays held
    assert_eq!(a.step(input(true, false, 1000), input(true, true, -1000)), backward(1000));
    assert_eq!(a.step(input(false, true, 0), input(true, true, -1000)), forward(500));
    assert_eq!(a.holder(), PriorityToken::Forward);
    // backward falls: forward goes on, no zero command
    assert_eq!(a.step(input(true, true, 0), input(true, false, 1000)), forward(500));
}
