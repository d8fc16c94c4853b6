use tinygui::buttons::{Button, ButtonLevels, ButtonSet};

fn levels(a: bool, b: bool, c: bool, up: bool, down: bool, left: bool, right: bool) -> ButtonLevels {
    ButtonLevels { a, b, c, up, down, left, right }
}

#[test]
fn short_press_gives_one_activation_and_no_hold() {
    // Pressed for 100 ms, then released: exactly one consumed activation,
    // never held.
    let mut b = Button::new();
    let mut activations = 0;
    let mut held_ever = false;
    b.poll(true, 0);
    held_ever |= b.is_held();
    if b.was_pressed() {
        activations += 1;
    }
    b.poll(true, 50);
    held_ever |= b.is_held();
    if b.was_pressed() {
        activations += 1;
    }
    b.poll(false, 100);
    held_ever |= b.is_held();
    if b.was_pressed() {
        activations += 1;
    }
    b.poll(false, 150);
    held_ever |= b.is_held();
    if b.was_pressed() {
        activations += 1;
    }
    assert_eq!(activations, 1);
    assert!(!held_ever);
}

#[test]
fn long_hold_fires_on_threshold_and_repeats() {
    // Held for 1200 ms, polled every 50 ms: held from the frame crossing
    // 500 ms; activations at 0 (the press), 500 (hold onset), 800 and 1100
    // (300 ms cadence).
    let mut b = Button::new();
    let mut activation_times = Vec::new();
    let mut first_held_at = None;
    let mut t: u64 = 0;
    while t <= 1200 {
        b.poll(true, t);
        if b.is_held() && first_held_at.is_none() {
            first_held_at = Some(t);
        }
        if b.was_pressed() {
            activation_times.push(t);
        }
        t += 50;
    }
    assert_eq!(first_held_at, Some(500));
    assert_eq!(activation_times, vec![0, 500, 800, 1100]);
}

#[test]
fn activation_is_consumed_at_most_once() {
    let mut b = Button::new();
    b.poll(true, 0);
    assert!(b.was_pressed());
    assert!(!b.was_pressed());
    b.poll(true, 50);
    assert!(!b.was_pressed());
}

#[test]
fn release_keeps_unconsumed_activation() {
    // Releasing does not clear an activation nobody consumed yet.
    let mut b = Button::new();
    b.poll(true, 0);
    b.poll(false, 30);
    assert!(b.was_pressed());
    assert!(!b.was_pressed());
}

#[test]
fn release_clears_hold() {
    let mut b = Button::new();
    b.poll(true, 0);
    b.poll(true, 600);
    assert!(b.is_held());
    b.poll(false, 650);
    assert!(!b.is_held());
}

#[test]
fn second_press_starts_a_fresh_hold_window() {
    let mut b = Button::new();
    b.poll(true, 0);
    b.poll(false, 100);
    b.was_pressed();
    b.poll(true, 200);
    // Only 400 ms since the second press started.
    b.poll(true, 600);
    assert!(!b.is_held());
    b.poll(true, 700);
    assert!(b.is_held());
}

#[test]
fn hold_exactly_at_threshold() {
    let mut b = Button::new();
    b.poll(true, 0);
    b.was_pressed();
    b.poll(true, 499);
    assert!(!b.is_held());
    assert!(!b.was_pressed());
    b.poll(true, 500);
    assert!(b.is_held());
    assert!(b.was_pressed());
}

#[test]
fn repeat_spacing_is_at_least_tick_duration() {
    let mut b = Button::new();
    b.poll(true, 0);
    b.was_pressed();
    b.poll(true, 500);
    assert!(b.was_pressed());
    b.poll(true, 799);
    assert!(!b.was_pressed());
    b.poll(true, 800);
    assert!(b.was_pressed());
}

#[test]
fn poll_all_polls_every_button() {
    let mut set = ButtonSet::new();
    set.poll_all(levels(true, false, true, false, false, false, true), 0);
    assert!(set.a.was_pressed());
    assert!(!set.b.was_pressed());
    assert!(set.c.was_pressed());
    assert!(!set.up.was_pressed());
    assert!(set.right.was_pressed());
}

#[test]
fn flush_discards_every_pending_activation() {
    let mut set = ButtonSet::new();
    set.poll_all(levels(true, true, true, true, true, true, true), 0);
    set.flush();
    assert!(!set.a.was_pressed());
    assert!(!set.b.was_pressed());
    assert!(!set.c.was_pressed());
    assert!(!set.up.was_pressed());
    assert!(!set.down.was_pressed());
    assert!(!set.left.was_pressed());
    assert!(!set.right.was_pressed());
}

#[test]
fn flush_keeps_hold_state() {
    let mut set = ButtonSet::new();
    set.poll_all(levels(true, false, false, false, false, false, false), 0);
    set.poll_all(levels(true, false, false, false, false, false, false), 600);
    set.flush();
    assert!(set.a.is_held());
}
