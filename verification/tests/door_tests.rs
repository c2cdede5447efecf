use autonomous_game::door::{Door, DoorState};
use autonomous_game::geometry::Vec2i;

fn new_door() -> Door {
    Door::new(Vec2i::new(784_000, 560_000), 6)
}

#[test]
fn new_door_is_closed_on_frame_zero() {
    let d = new_door();
    assert_eq!(d.state, DoorState::Closed);
    assert_eq!(d.frame, 0);
    assert_eq!(d.frames_count, 6);
    assert_eq!(d.animation_timer, 0);
    assert_eq!(d.frame_time, 100);
    assert!(!d.is_animating());
}

#[test]
fn toggle_starts_opening_and_closing() {
    let mut d = new_door();
    d.toggle();
    assert_eq!(d.state, DoorState::Opening);
    assert!(d.is_animating());
    // Walk it fully open, then toggle again.
    for _ in 0..6 {
        d.update(100);
    }
    assert_eq!(d.state, DoorState::Open);
    d.toggle();
    assert_eq!(d.state, DoorState::Closing);
    assert!(d.is_animating());
}

#[test]
fn toggle_mid_transition_is_ignored() {
    let mut d = new_door();
    d.toggle();
    d.update(100);
    assert_eq!(d.state, DoorState::Opening);
    assert_eq!(d.frame, 1);
    // A toggle during the transition changes neither state nor frame.
    d.toggle();
    assert_eq!(d.state, DoorState::Opening);
    assert_eq!(d.frame, 1);
    // Same while closing.
    for _ in 0..5 {
        d.update(100);
    }
    assert_eq!(d.state, DoorState::Open);
    d.toggle();
    d.update(100);
    assert_eq!(d.state, DoorState::Closing);
    let frame = d.frame;
    d.toggle();
    assert_eq!(d.state, DoorState::Closing);
    assert_eq!(d.frame, frame);
}

#[test]
fn full_opening_ends_open_on_last_frame() {
    let mut d = new_door();
    d.toggle();
    // Six frame-length ticks: five frame steps, then the transition
    // completes into Open with the frame pinned to the last one.
    for _ in 0..6 {
        d.update(100);
    }
    assert_eq!(d.state, DoorState::Open);
    assert_eq!(d.frame, 5);
    assert!(!d.is_animating());
    // Further updates change nothing but the timer.
    d.update(100);
    assert_eq!(d.state, DoorState::Open);
    assert_eq!(d.frame, 5);
}

#[test]
fn full_closing_ends_closed_on_frame_zero() {
    let mut d = new_door();
    d.toggle();
    for _ in 0..6 {
        d.update(100);
    }
    d.toggle();
    for _ in 0..6 {
        d.update(100);
    }
    assert_eq!(d.state, DoorState::Closed);
    assert_eq!(d.frame, 0);
    assert!(!d.is_animating());
}

#[test]
fn short_ticks_accumulate_before_a_frame_step() {
    let mut d = new_door();
    d.toggle();
    d.update(40);
    assert_eq!(d.frame, 0);
    assert_eq!(d.animation_timer, 40);
    d.update(40);
    assert_eq!(d.frame, 0);
    assert_eq!(d.animation_timer, 80);
    d.update(40);
    assert_eq!(d.frame, 1);
    assert_eq!(d.animation_timer, 0);
}

#[test]
fn timer_resets_even_in_terminal_states() {
    let mut d = new_door();
    d.update(250);
    assert_eq!(d.state, DoorState::Closed);
    assert_eq!(d.animation_timer, 0);
    d.update(40);
    assert_eq!(d.animation_timer, 40);
}

#[test]
fn single_frame_door_opens_in_one_tick() {
    let mut d = Door::new(Vec2i::new(0, 0), 1);
    d.toggle();
    assert_eq!(d.state, DoorState::Opening);
    d.update(100);
    assert_eq!(d.state, DoorState::Open);
    assert_eq!(d.frame, 0);
    d.toggle();
    d.update(100);
    assert_eq!(d.state, DoorState::Closed);
    assert_eq!(d.frame, 0);
}
