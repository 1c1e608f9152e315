use keypad_core::button::Button;
use keypad_core::hid_util::HIDUtil;
use keypad_core::key_config::KeyConfig;
use keypad_core::key_config::KeyMode;
use keypad_core::reports::gen_keyboard_report;
use keypad_core::reports::gen_media_report;
use keypad_core::reports::gen_mouse_report;
use keypad_core::reports::Report;
use keypad_core::scan::handle_button;
use keypad_core::scan::message_len;
use keypad_core::scan::timer_tick;

fn keycodes_of(r: Report) -> [u8; 6] {
    match r {
        Report::Keyboard(k) => k.keycodes,
        Report::Media(_) => panic!("expected a keyboard report"),
    }
}

/// Six keys bound to 0x69..0x6E; pressing key 3 alone renders a report whose
/// keycode slots hold 0x6B and nothing else; releasing it renders all-zero.
#[test]
fn press_and_release_key_three() {
    let mut buttons = [
        Button::new(KeyConfig::One),
        Button::new(KeyConfig::Two),
        Button::new(KeyConfig::Three),
        Button::new(KeyConfig::Four),
        Button::new(KeyConfig::Five),
        Button::new(KeyConfig::Six),
    ];
    let mut hid = HIDUtil::new();

    // Edge interrupt: key 3 goes down; all other lines stay released.
    let mut t = 0u32;
    for (i, b) in buttons.iter_mut().enumerate() {
        assert!(handle_button(b, &mut hid, t, i == 2).is_none());
    }
    // Re-scan once the line has been stable for the debounce window.
    t += 26_000;
    let mut press_report = None;
    for (i, b) in buttons.iter_mut().enumerate() {
        let r = handle_button(b, &mut hid, t, i == 2);
        if i == 2 {
            press_report = r;
        } else {
            assert!(r.is_none());
        }
    }
    let report = press_report.expect("the press must be reported");
    match report {
        Report::Keyboard(k) => {
            assert_eq!(k.modifier, 0);
            assert_eq!(k.reserved, 0);
            assert_eq!(k.leds, 0);
            assert_eq!(k.keycodes, [0x6B, 0, 0, 0, 0, 0]);
        }
        Report::Media(_) => panic!("keyboard mode must emit keyboard reports"),
    }

    // Key 3 comes back up: the next scan confirms the release.
    t += 26_000;
    let mut release_report = None;
    for (i, b) in buttons.iter_mut().enumerate() {
        let r = handle_button(b, &mut hid, t, false);
        if i == 2 {
            release_report = r;
        } else {
            assert!(r.is_none());
        }
    }
    let report = release_report.expect("the release must be reported");
    assert_eq!(keycodes_of(report), [0, 0, 0, 0, 0, 0]);
    assert!(hid.active_codes().is_empty());
}

/// After a press is consumed, holding the key (even long enough to re-enter
/// the stable pressed reading) reports no second press until the release has
/// been confirmed and a fresh stable press occurs.
#[test]
fn no_duplicate_press_per_actuation() {
    let mut b = Button::new(KeyConfig::Three);
    let mut hid = HIDUtil::new();

    assert!(handle_button(&mut b, &mut hid, 0, true).is_none());
    let first = handle_button(&mut b, &mut hid, 26_000, true);
    assert!(first.is_some());

    // The key stays held well past the window: still no second press.
    assert!(handle_button(&mut b, &mut hid, 60_000, true).is_none());
    assert!(handle_button(&mut b, &mut hid, 100_000, true).is_none());

    // The key is let go; the released level must itself hold for the
    // window before the release is confirmed, once.
    assert!(handle_button(&mut b, &mut hid, 130_000, false).is_none());
    let release = handle_button(&mut b, &mut hid, 156_000, false);
    assert!(release.is_some());
    assert!(handle_button(&mut b, &mut hid, 160_000, false).is_none());

    // A fresh actuation presses again.
    assert!(handle_button(&mut b, &mut hid, 200_000, true).is_none());
    let second = handle_button(&mut b, &mut hid, 230_000, true);
    assert_eq!(keycodes_of(second.expect("fresh press")), [0x6B, 0, 0, 0, 0, 0]);
}

/// The mode-switch chord through the full scan path: both gesture keys held
/// together flip the mode once and leave no code asserted.
#[test]
fn gesture_through_scan_path() {
    let mut b1 = Button::new(KeyConfig::One);
    let mut b2 = Button::new(KeyConfig::Two);
    let mut hid = HIDUtil::new();

    assert!(handle_button(&mut b1, &mut hid, 0, true).is_none());
    assert!(handle_button(&mut b2, &mut hid, 0, true).is_none());
    let r1 = handle_button(&mut b1, &mut hid, 26_000, true);
    assert_eq!(keycodes_of(r1.expect("first key reports")), [0x69, 0, 0, 0, 0, 0]);
    let r2 = handle_button(&mut b2, &mut hid, 26_000, true);
    // The chord completes: the outgoing mode gets the all-clear report.
    assert_eq!(keycodes_of(r2.expect("gesture reports")), [0, 0, 0, 0, 0, 0]);
    assert_eq!(hid.current_mode(), KeyMode::Media);
    assert!(hid.active_codes().is_empty());
}

#[test]
fn keyboard_report_builder_places_single_code() {
    let r = gen_keyboard_report(0x6B);
    assert_eq!(r.keycodes, [0x6B, 0, 0, 0, 0, 0]);
    assert_eq!((r.modifier, r.reserved, r.leds), (0, 0, 0));
    let idle = gen_keyboard_report(0);
    assert_eq!(idle.keycodes, [0; 6]);
}

#[test]
fn media_report_builder_carries_usage() {
    assert_eq!(gen_media_report(0xE9).usage_id, 0xE9);
    assert_eq!(gen_media_report(0).usage_id, 0);
}

#[test]
fn mouse_report_builder_zeroes_wheel_and_pan() {
    let r = gen_mouse_report(-3, 7, 0b101);
    assert_eq!((r.x, r.y, r.buttons, r.wheel, r.pan), (-3, 7, 0b101, 0, 0));
}

#[test]
fn timer_tick_blinks_when_enabled() {
    let (level, phase) = timer_tick(true, true);
    assert_eq!(level, Some(false));
    assert!(!phase);
    let (level2, phase2) = timer_tick(phase, true);
    assert_eq!(level2, Some(true));
    assert!(phase2);
}

#[test]
fn timer_tick_leaves_led_alone_when_disabled() {
    let (level, phase) = timer_tick(false, false);
    assert_eq!(level, None);
    assert!(phase);
}

#[test]
fn message_len_stops_at_first_nul() {
    assert_eq!(message_len(b"abc\0def"), 3);
    assert_eq!(message_len(b"abc"), 3);
    assert_eq!(message_len(b"\0abc"), 0);
    assert_eq!(message_len(b""), 0);
}

#[test]
fn binding_table_matches_the_fixed_layout() {
    let table = KeyConfig::new();
    assert_eq!(table.len(), 6);
    assert_eq!(table[0], [0x69, 0xCD]);
    assert_eq!(table[1], [0x6A, 0x00]);
    assert_eq!(table[2], [0x6B, 0xE9]);
    assert_eq!(table[3], [0x6C, 0xEA]);
    assert_eq!(table[4], [0x6D, 0xB6]);
    assert_eq!(table[5], [0x6E, 0xB5]);
    for (id, pair) in [
        KeyConfig::One,
        KeyConfig::Two,
        KeyConfig::Three,
        KeyConfig::Four,
        KeyConfig::Five,
        KeyConfig::Six,
    ]
    .into_iter()
    .zip(table)
    {
        assert_eq!(id.keyboard_code(), pair[0]);
        assert_eq!(id.media_code(), pair[1]);
        assert_eq!(id.code_for(KeyMode::Keyboard), pair[0]);
        assert_eq!(id.code_for(KeyMode::Media), pair[1]);
    }
}
