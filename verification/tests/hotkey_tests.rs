use screenshot_core::hotkey::{HotkeyTracker, KeyChord, PressedKeySet};

const SUPER: u32 = 125;
const SHIFT: u32 = 42;
const S: u32 = 31;

fn chord() -> KeyChord {
    KeyChord { codes: vec![SUPER, SHIFT, S] }
}

#[test]
fn new_set_holds_nothing() {
    let set = PressedKeySet::new();
    assert_eq!(set.len(), 0);
    assert!(set.keys().is_empty());
    assert!(!set.contains(SUPER));
}

#[test]
fn press_appends_in_press_order() {
    let mut set = PressedKeySet::new();
    assert!(set.on_key_event(SHIFT, true));
    assert!(set.on_key_event(SUPER, true));
    assert!(set.on_key_event(S, true));
    assert_eq!(set.keys(), &[SHIFT, SUPER, S]);
}

#[test]
fn repeated_press_changes_nothing() {
    let mut set = PressedKeySet::new();
    assert!(set.on_key_event(SUPER, true));
    assert!(!set.on_key_event(SUPER, true));
    assert!(!set.on_key_event(SUPER, true));
    assert_eq!(set.keys(), &[SUPER]);
    assert_eq!(set.len(), 1);
}

#[test]
fn release_of_key_not_held_changes_nothing() {
    let mut set = PressedKeySet::new();
    assert!(!set.on_key_event(S, false));
    set.on_key_event(SUPER, true);
    assert!(!set.on_key_event(S, false));
    assert_eq!(set.keys(), &[SUPER]);
}

#[test]
fn release_out_of_order_keeps_the_others_in_order() {
    let mut set = PressedKeySet::new();
    for code in [1u32, 2, 3, 4, 5] {
        set.on_key_event(code, true);
    }
    assert!(set.on_key_event(3, false));
    assert_eq!(set.keys(), &[1, 2, 4, 5]);
    assert!(set.on_key_event(1, false));
    assert_eq!(set.keys(), &[2, 4, 5]);
    assert!(set.on_key_event(5, false));
    assert_eq!(set.keys(), &[2, 4]);
    assert!(set.on_key_event(3, true));
    assert_eq!(set.keys(), &[2, 4, 3]);
    assert!(set.contains(4));
    assert!(!set.contains(1));
}

#[test]
fn set_holds_exactly_the_keys_that_are_down() {
    let events: [(u32, bool); 12] = [
        (7, true),
        (9, true),
        (7, true),
        (3, false),
        (9, false),
        (9, false),
        (3, true),
        (7, false),
        (7, true),
        (11, true),
        (3, false),
        (9, true),
    ];
    let mut set = PressedKeySet::new();
    let mut down: Vec<u32> = Vec::new();
    for (code, pressed) in events {
        set.on_key_event(code, pressed);
        if pressed {
            if !down.contains(&code) {
                down.push(code);
            }
        } else {
            down.retain(|k| *k != code);
        }
        assert_eq!(set.keys(), down.as_slice());
    }
    assert_eq!(set.keys(), &[7, 11, 9]);
}

#[test]
fn chord_is_active_when_pressed_in_order() {
    let mut set = PressedKeySet::new();
    set.on_key_event(SUPER, true);
    assert!(!set.is_chord_active(&chord()));
    set.on_key_event(SHIFT, true);
    assert!(!set.is_chord_active(&chord()));
    set.on_key_event(S, true);
    assert!(set.is_chord_active(&chord()));
}

#[test]
fn chord_is_a_prefix_so_later_keys_do_not_end_it() {
    let mut set = PressedKeySet::new();
    for code in [SUPER, SHIFT, S, 99] {
        set.on_key_event(code, true);
    }
    assert!(set.is_chord_active(&chord()));
}

#[test]
fn chord_pressed_in_another_order_is_not_active() {
    let mut set = PressedKeySet::new();
    for code in [SHIFT, SUPER, S] {
        set.on_key_event(code, true);
    }
    assert!(!set.is_chord_active(&chord()));
}

#[test]
fn chord_with_a_key_before_it_is_not_active() {
    let mut set = PressedKeySet::new();
    for code in [99, SUPER, SHIFT, S] {
        set.on_key_event(code, true);
    }
    assert!(!set.is_chord_active(&chord()));
    set.on_key_event(99, false);
    assert!(set.is_chord_active(&chord()));
}

#[test]
fn chord_with_a_key_released_is_not_active() {
    let mut set = PressedKeySet::new();
    for code in [SUPER, SHIFT, S] {
        set.on_key_event(code, true);
    }
    set.on_key_event(SHIFT, false);
    assert!(!set.is_chord_active(&chord()));
    set.on_key_event(SHIFT, true);
    assert_eq!(set.keys(), &[SUPER, S, SHIFT]);
    assert!(!set.is_chord_active(&chord()));
}

#[test]
fn empty_chord_is_always_active() {
    let empty = KeyChord { codes: Vec::new() };
    let mut set = PressedKeySet::new();
    assert!(set.is_chord_active(&empty));
    set.on_key_event(5, true);
    assert!(set.is_chord_active(&empty));
}

#[test]
fn tracker_fires_once_per_rising_edge() {
    let mut tracker = HotkeyTracker::new(chord());
    assert!(!tracker.is_chord_active());
    assert!(!tracker.on_key_event(SUPER, true));
    assert!(!tracker.on_key_event(SHIFT, true));
    assert!(tracker.on_key_event(S, true));
    assert!(tracker.is_chord_active());
    // key repeat and unrelated keys while the chord stays held
    assert!(!tracker.on_key_event(S, true));
    assert!(!tracker.on_key_event(77, true));
    assert!(!tracker.on_key_event(77, false));
    assert!(tracker.is_chord_active());
    // falling edge, then a second rising edge
    assert!(!tracker.on_key_event(S, false));
    assert!(!tracker.is_chord_active());
    assert!(tracker.on_key_event(S, true));
}

#[test]
fn tracker_does_not_fire_out_of_order() {
    let mut tracker = HotkeyTracker::new(chord());
    assert!(!tracker.on_key_event(S, true));
    assert!(!tracker.on_key_event(SHIFT, true));
    assert!(!tracker.on_key_event(SUPER, true));
    assert!(!tracker.is_chord_active());
}

#[test]
fn a_key_that_goes_down_comes_last_and_the_others_keep_their_order() {
    let mut set = PressedKeySet::new();
    for code in [8u32, 3, 5, 1] {
        set.on_key_event(code, true);
    }
    set.on_key_event(3, false);
    assert_eq!(set.keys(), &[8, 5, 1]);
    set.on_key_event(9, true);
    assert_eq!(set.keys(), &[8, 5, 1, 9]);
    set.on_key_event(8, false);
    set.on_key_event(8, true);
    assert_eq!(set.keys(), &[5, 1, 9, 8]);
}
