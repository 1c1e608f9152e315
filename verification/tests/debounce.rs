use keypad_core::button::Button;
use keypad_core::debouncer::Debouncer;
use keypad_core::key_config::KeyConfig;

#[test]
fn new_debouncer_starts_released() {
    let d = Debouncer::new(25_000);
    assert!(!d.current_state);
    assert!(!d.stabilised_state);
}

#[test]
fn raw_transition_is_recorded_but_not_trusted_at_once() {
    let mut d = Debouncer::new(25_000);
    d.update(1_000, true);
    assert!(d.current_state);
    assert!(!d.stabilised_state);
}

#[test]
fn level_is_trusted_after_the_window() {
    let mut d = Debouncer::new(25_000);
    d.update(0, true);
    d.update(24_999, true);
    assert!(!d.stabilised_state);
    d.update(25_000, true);
    assert!(d.stabilised_state);
}

/// A 2 ms bounce inside a 25 ms window never reaches the trusted level; the
/// press is reported once, 25 ms after the final transition, and only once.
#[test]
fn bounce_shorter_than_window_is_ignored() {
    let mut d = Debouncer::new(25_000);
    // Switch goes down (asserted).
    d.update(0, true);
    assert!(!d.stabilised_state);
    // Bounces up for 2 ms.
    d.update(1_000, false);
    assert!(!d.stabilised_state);
    // Down again, and stays down for 30 ms.
    d.update(3_000, true);
    assert!(!d.stabilised_state);
    d.update(10_000, true);
    assert!(!d.stabilised_state);
    d.update(27_999, true);
    assert!(!d.stabilised_state);
    // 25 ms after the final transition the press is trusted.
    d.update(28_000, true);
    assert!(d.stabilised_state);
    // And it changes no further while the run continues.
    d.update(33_000, true);
    assert!(d.stabilised_state);
    d.update(60_000, true);
    assert!(d.stabilised_state);
}

#[test]
fn irregular_sampling_still_debounces() {
    let mut d = Debouncer::new(25_000);
    d.update(7, true);
    d.update(12, true);
    d.update(1_000_000, true);
    assert!(d.stabilised_state);
}

#[test]
fn button_mirrors_filter_after_debounce() {
    let mut b = Button::new(KeyConfig::One);
    b.debounce(0, true);
    assert!(!b.is_pressed);
    b.debounce(25_000, true);
    assert!(b.is_pressed);
}

#[test]
fn reset_forces_released_reading() {
    let mut b = Button::new(KeyConfig::One);
    b.debounce(0, true);
    b.debounce(25_000, true);
    assert!(b.is_pressed);
    b.reset();
    assert!(!b.is_pressed);
    assert!(b.is_released());
}

#[test]
fn is_released_needs_both_readings_low() {
    let mut b = Button::new(KeyConfig::One);
    assert!(b.is_released());
    b.debounce(0, true);
    // Raw reading is high again: not released.
    assert!(!b.is_released());
    b.debounce(25_000, true);
    assert!(!b.is_released());
}
