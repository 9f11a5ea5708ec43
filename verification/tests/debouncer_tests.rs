use button_core::debouncer::Active;
use button_core::debouncer::Debouncer;

#[test]
fn starts_released_active_high() {
    let d = Debouncer::new(Active::High, 100, 100);
    assert!(!d.is_pressed());
}

#[test]
fn starts_released_active_low() {
    let d = Debouncer::new(Active::Low, 100, 100);
    assert!(!d.is_pressed());
}

#[test]
fn flips_after_full_window_active_high() {
    // 100 ms at 100 Hz: ten consistent samples are needed.
    let mut d = Debouncer::new(Active::High, 100, 100);
    for _ in 0..9 {
        d.update(false);
        assert!(!d.is_pressed());
    }
    d.update(false);
    assert!(d.is_pressed());
}

#[test]
fn flips_after_full_window_active_low() {
    let mut d = Debouncer::new(Active::Low, 100, 100);
    for _ in 0..9 {
        d.update(true);
        assert!(!d.is_pressed());
    }
    d.update(true);
    assert!(d.is_pressed());
}

#[test]
fn window_rounds_to_nearest_sample_count() {
    // 25 ms at 100 Hz is 2.5 samples, rounded to 3: two samples are not
    // enough, the third one flips.
    let mut d = Debouncer::new(Active::High, 25, 100);
    d.update(false);
    d.update(false);
    assert!(!d.is_pressed());
    d.update(false);
    assert!(d.is_pressed());
}

#[test]
fn window_rounds_down_below_half() {
    // 14 ms at 100 Hz is 1.4 samples, rounded to 1: one sample flips.
    let mut d = Debouncer::new(Active::High, 14, 100);
    d.update(false);
    assert!(d.is_pressed());
}

#[test]
fn zero_window_is_clamped_to_one_sample() {
    let mut d = Debouncer::new(Active::High, 0, 100);
    assert!(!d.is_pressed());
    d.update(false);
    assert!(d.is_pressed());
}

#[test]
fn single_glitch_does_not_flip_toward_active() {
    // Threshold 10: nine active samples with one opposite sample embedded
    // never reach the threshold.
    let mut d = Debouncer::new(Active::High, 100, 100);
    for _ in 0..4 {
        d.update(false);
    }
    d.update(true);
    for _ in 0..5 {
        d.update(false);
        assert!(!d.is_pressed());
    }
}

#[test]
fn single_glitch_does_not_flip_toward_inactive() {
    let mut d = Debouncer::new(Active::High, 100, 100);
    for _ in 0..10 {
        d.update(false);
    }
    assert!(d.is_pressed());
    // Nine inactive samples with one active sample embedded: still pressed.
    for _ in 0..4 {
        d.update(true);
    }
    d.update(false);
    for _ in 0..5 {
        d.update(true);
        assert!(d.is_pressed());
    }
}

#[test]
fn settled_output_is_stable_under_constant_input() {
    let mut d = Debouncer::new(Active::High, 100, 100);
    for _ in 0..10 {
        d.update(false);
    }
    assert!(d.is_pressed());
    for _ in 0..50 {
        d.update(false);
        assert!(d.is_pressed());
    }
    for _ in 0..10 {
        d.update(true);
    }
    assert!(!d.is_pressed());
    for _ in 0..50 {
        d.update(true);
        assert!(!d.is_pressed());
    }
}

#[test]
fn poll_matches_update() {
    let mut via_update = Debouncer::new(Active::Low, 30, 3000);
    let mut via_poll = Debouncer::new(Active::Low, 30, 3000);
    let samples = [true, true, false, true, true, true, false, false, true];
    for &raw_is_low in samples.iter() {
        via_update.update(raw_is_low);
        via_poll.poll(raw_is_low);
        assert_eq!(via_update.is_pressed(), via_poll.is_pressed());
    }
}
