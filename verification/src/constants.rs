//! Fixed codes and sizes of the keypad.

use vstd::prelude::*;

verus! {

/// Number of physical switches the device tracks.
pub const BUTTON_COUNT: usize = 6;

/// Capacity of the aggregator's code table; must be a power of two.
pub const INDEX_MAP_SIZE: usize = 8;

/// Debounce window, in microseconds: a raw level must hold this long before
/// it is trusted.
pub const DEBOUNCE_STABILITY_PERIOD: u32 = 25_000;

pub const KEYCODE_1: u8 = 0x69;

pub const KEYCODE_2: u8 = 0x6A;

pub const KEYCODE_3: u8 = 0x6B;

pub const KEYCODE_4: u8 = 0x6C;

pub const KEYCODE_5: u8 = 0x6D;

pub const KEYCODE_6: u8 = 0x6E;

pub const MEDIAKEY_PLAYPAUSE: u8 = 0xCD;

pub const MEDIAKEY_VOLUP: u8 = 0xE9;

pub const MEDIAKEY_VOLDOWN: u8 = 0xEA;

pub const MEDIAKEY_MUTE: u8 = 0xB2;

pub const MEDIAKEY_PREVTRACK: u8 = 0xB6;

pub const MEDIAKEY_NEXTTRACK: u8 = 0xB5;

pub const MEDIAKEY_NONE: u8 = 0x00;

/// Whether `c` belongs to the keyboard-mode half of the mode-switch gesture.
pub open spec fn spec_keyboard_gesture_code(c: u8) -> bool {
    c == KEYCODE_1 || c == KEYCODE_2
}

/// Whether `c` belongs to the media-mode half of the mode-switch gesture.
pub open spec fn spec_media_gesture_code(c: u8) -> bool {
    c == MEDIAKEY_PLAYPAUSE || c == MEDIAKEY_NONE
}

/// Whether `c` participates in the mode-switch gesture at all: the union of
/// both designated subsets, so the gesture works from either mode.
pub open spec fn spec_gesture_code(c: u8) -> bool {
    spec_keyboard_gesture_code(c) || spec_media_gesture_code(c)
}

/// Runtime check for membership in the gesture-code union.
pub fn is_gesture_code(c: u8) -> (r: bool)
    ensures
        r == spec_gesture_code(c),
{
    c == KEYCODE_1 || c == KEYCODE_2 || c == MEDIAKEY_PLAYPAUSE || c == MEDIAKEY_NONE
}

} // verus!
