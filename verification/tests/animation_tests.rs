use autonomous_game::animation::AnimatedBackground;

#[test]
fn new_background_starts_on_frame_zero() {
    let b = AnimatedBackground::new(64);
    assert_eq!(b.current_frame(), 0);
    assert_eq!(b.frames_count, 64);
    assert_eq!(b.frame_time, 100);
    assert_eq!(b.elapsed, 0);
}

#[test]
fn frame_advances_after_frame_time() {
    let mut b = AnimatedBackground::new(3);
    b.update(40);
    assert_eq!(b.current_frame(), 0);
    assert_eq!(b.elapsed, 40);
    b.update(60);
    assert_eq!(b.current_frame(), 1);
    assert_eq!(b.elapsed, 0);
}

#[test]
fn cycle_returns_to_start_after_length_updates() {
    // Sequence length three: three frame-duration updates come back to the
    // starting frame.
    let mut b = AnimatedBackground::new(3);
    b.update(100);
    let start = b.current_frame();
    for _ in 0..3 {
        b.update(100);
    }
    assert_eq!(b.current_frame(), start);
}

#[test]
fn wrap_is_modulo_sequence_length() {
    let mut b = AnimatedBackground::new(3);
    let mut seen: Vec<usize> = Vec::new();
    for _ in 0..7 {
        b.update(100);
        seen.push(b.current_frame());
    }
    assert_eq!(seen, vec![1, 2, 0, 1, 2, 0, 1]);
}

#[test]
fn single_frame_sequence_stays_put() {
    let mut b = AnimatedBackground::new(1);
    b.update(100);
    b.update(100);
    assert_eq!(b.current_frame(), 0);
}

#[test]
fn current_frame_is_a_pure_read() {
    let b = AnimatedBackground::new(5);
    assert_eq!(b.current_frame(), 0);
    assert_eq!(b.current_frame(), 0);
    assert_eq!(b.elapsed, 0);
}
