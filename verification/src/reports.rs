//! Fixed-layout HID report payloads and their builders.
//!
//! The layouts are fixed by the HID classes in use: a boot-keyboard input
//! report (modifier, reserved and LED bytes, then six keycode slots) and a
//! two-byte media usage report.  Unused keyboard slots and an idle media
//! report use the all-zero sentinel.

use vstd::prelude::*;

verus! {

/// Boot-keyboard input report payload.
#[derive(Clone, Copy, Debug)]
pub struct KeyboardReport {
    pub modifier: u8,
    pub reserved: u8,
    pub leds: u8,
    pub keycodes: [u8; 6],
}

/// Media (consumer-control) report payload.
#[derive(Clone, Copy, Debug)]
pub struct MediaKeyboardReport {
    pub usage_id: u16,
}

/// Mouse input report payload.
#[derive(Clone, Copy, Debug)]
pub struct MouseReport {
    pub buttons: u8,
    pub x: i8,
    pub y: i8,
    pub wheel: i8,
    pub pan: i8,
}

/// A rendered report, tagged with the endpoint it belongs to.
#[derive(Clone, Copy, Debug)]
pub enum Report {
    Keyboard(KeyboardReport),
    Media(MediaKeyboardReport),
}

/// The six keycode slots for a sequence of active codes: the first six codes
/// in order, right-padded with the no-key sentinel; excess codes are
/// truncated.
pub open spec fn spec_render_keycodes(codes: Seq<u8>) -> Seq<u8> {
    Seq::new(6, |i: int| if i < codes.len() { codes[i] } else { 0u8 })
}

/// Whether `r` is the keyboard report that renders `codes`: zero modifier,
/// reserved and LED bytes, and the slots of [`spec_render_keycodes`].
pub open spec fn keyboard_report_matches(r: KeyboardReport, codes: Seq<u8>) -> bool {
    &&& r.modifier == 0
    &&& r.reserved == 0
    &&& r.leds == 0
    &&& r.keycodes@ == spec_render_keycodes(codes)
}

/// Keycode slots holding a single usage code: `usage_id` in the first slot
/// (or nothing at all when it is the sentinel) and the sentinel elsewhere.
pub open spec fn spec_single_keycode(usage_id: u8) -> Seq<u8> {
    Seq::new(6, |i: int| if i == 0 { usage_id } else { 0u8 })
}

/// Keyboard report holding `usage_id` alone; the zero usage yields the
/// all-clear report.
pub fn gen_keyboard_report(usage_id: u8) -> (r: KeyboardReport)
    ensures
        r.modifier == 0,
        r.reserved == 0,
        r.leds == 0,
        r.keycodes@ == spec_single_keycode(usage_id),
{
    let r = match usage_id {
        0 => KeyboardReport { modifier: 0, reserved: 0, leds: 0, keycodes: [0; 6] },
        _ => KeyboardReport {
            modifier: 0,
            reserved: 0,
            leds: 0,
            keycodes: [usage_id, 0, 0, 0, 0, 0],
        },
    };
    proof {
        assert(r.keycodes@ =~= spec_single_keycode(usage_id));
    }
    r
}

/// Round-trip rendering: for at most six asserted codes, none of them the
/// no-key sentinel, a code stands in the rendered slots exactly when it is
/// asserted, so inspecting the non-sentinel slots recovers the asserted set.
pub proof fn lemma_render_round_trip(codes: Seq<u8>)
    requires
        codes.len() <= 6,
        !codes.contains(0),
    ensures
        forall|c: u8|
            c != 0 ==> (spec_render_keycodes(codes).contains(c) <==> codes.contains(c)),
{
    let slots = spec_render_keycodes(codes);
    assert forall|c: u8| c != 0 implies (slots.contains(c) <==> codes.contains(c)) by {
        if codes.contains(c) {
            let i = choose|i: int| 0 <= i < codes.len() && codes[i] == c;
            assert(slots[i] == c);
        }
        if slots.contains(c) {
            let i = choose|i: int| 0 <= i < slots.len() && slots[i] == c;
            assert(codes[i] == c);
        }
    }
}

/// Keyboard report built straight from six keycode slots.
pub fn gen_keyboard_report_array(keycodes: [u8; 6]) -> (r: KeyboardReport)
    ensures
        r.modifier == 0,
        r.reserved == 0,
        r.leds == 0,
        r.keycodes == keycodes,
{
    KeyboardReport { modifier: 0, reserved: 0, leds: 0, keycodes }
}

/// Media report carrying `usage_id`; zero is the idle report.
pub fn gen_media_report(usage_id: u16) -> (r: MediaKeyboardReport)
    ensures
        r.usage_id == usage_id,
{
    MediaKeyboardReport { usage_id }
}

/// Mouse report for a relative movement with the given button states; wheel
/// and pan are never used.
pub fn gen_mouse_report(x: i8, y: i8, buttons: u8) -> (r: MouseReport)
    ensures
        r == (MouseReport { buttons, x, y, wheel: 0, pan: 0 }),
{
    MouseReport { buttons, x, y, wheel: 0, pan: 0 }
}

} // verus!
