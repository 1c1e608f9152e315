//! Key identities, output modes, and the static binding table from a key to
//! its keyboard scan code and its media usage code.

use vstd::prelude::*;

use crate::constants::KEYCODE_1;
use crate::constants::KEYCODE_2;
use crate::constants::KEYCODE_3;
use crate::constants::KEYCODE_4;
use crate::constants::KEYCODE_5;
use crate::constants::KEYCODE_6;
use crate::constants::MEDIAKEY_NEXTTRACK;
use crate::constants::MEDIAKEY_NONE;
use crate::constants::MEDIAKEY_PLAYPAUSE;
use crate::constants::MEDIAKEY_PREVTRACK;
use crate::constants::MEDIAKEY_VOLDOWN;
use crate::constants::MEDIAKEY_VOLUP;

verus! {

/// The two output report types the device can produce.
#[derive(Clone, Copy, PartialEq, Eq, Structural, Debug)]
pub enum KeyMode {
    Keyboard,
    Media,
}

/// Identity of one of the six physical switches.
#[derive(Clone, Copy, PartialEq, Eq, Structural, Debug)]
pub enum KeyConfig {
    One,
    Two,
    Three,
    Four,
    Five,
    Six,
}

/// Keyboard scan code bound to a key.
pub open spec fn spec_keyboard_code(id: KeyConfig) -> u8 {
    match id {
        KeyConfig::One => KEYCODE_1,
        KeyConfig::Two => KEYCODE_2,
        KeyConfig::Three => KEYCODE_3,
        KeyConfig::Four => KEYCODE_4,
        KeyConfig::Five => KEYCODE_5,
        KeyConfig::Six => KEYCODE_6,
    }
}

/// Media usage code bound to a key.
pub open spec fn spec_media_code(id: KeyConfig) -> u8 {
    match id {
        KeyConfig::One => MEDIAKEY_PLAYPAUSE,
        KeyConfig::Two => MEDIAKEY_NONE,
        KeyConfig::Three => MEDIAKEY_VOLUP,
        KeyConfig::Four => MEDIAKEY_VOLDOWN,
        KeyConfig::Five => MEDIAKEY_PREVTRACK,
        KeyConfig::Six => MEDIAKEY_NEXTTRACK,
    }
}

/// Output code of a key under the given mode.
pub open spec fn spec_code_for(id: KeyConfig, mode: KeyMode) -> u8 {
    match mode {
        KeyMode::Keyboard => spec_keyboard_code(id),
        KeyMode::Media => spec_media_code(id),
    }
}

/// Position of a key in the fixed scan order.
pub open spec fn spec_key_index(id: KeyConfig) -> int {
    match id {
        KeyConfig::One => 0,
        KeyConfig::Two => 1,
        KeyConfig::Three => 2,
        KeyConfig::Four => 3,
        KeyConfig::Five => 4,
        KeyConfig::Six => 5,
    }
}

impl KeyConfig {
    /// The full binding table, one `[keyboard_code, media_code]` pair per key
    /// in scan order.
    pub fn new() -> (table: Vec<[u8; 2]>)
        ensures
            table@.len() == 6,
            forall|id: KeyConfig|
                table@[spec_key_index(id)]@ == seq![
                    spec_keyboard_code(id),
                    spec_media_code(id),
                ],
    {
        let mut table: Vec<[u8; 2]> = Vec::new();
        table.push([KEYCODE_1, MEDIAKEY_PLAYPAUSE]);
        table.push([KEYCODE_2, MEDIAKEY_NONE]);
        table.push([KEYCODE_3, MEDIAKEY_VOLUP]);
        table.push([KEYCODE_4, MEDIAKEY_VOLDOWN]);
        table.push([KEYCODE_5, MEDIAKEY_PREVTRACK]);
        table.push([KEYCODE_6, MEDIAKEY_NEXTTRACK]);
        proof {
            assert forall|id: KeyConfig|
                table@[spec_key_index(id)]@ == seq![
                    spec_keyboard_code(id),
                    spec_media_code(id),
                ] by {
                assert(table@[spec_key_index(id)]@ =~= seq![
                    spec_keyboard_code(id),
                    spec_media_code(id),
                ]);
            }
        }
        table
    }

    /// Keyboard scan code bound to this key.
    pub fn keyboard_code(self) -> (c: u8)
        ensures
            c == spec_keyboard_code(self),
    {
        match self {
            KeyConfig::One => KEYCODE_1,
            KeyConfig::Two => KEYCODE_2,
            KeyConfig::Three => KEYCODE_3,
            KeyConfig::Four => KEYCODE_4,
            KeyConfig::Five => KEYCODE_5,
            KeyConfig::Six => KEYCODE_6,
        }
    }

    /// Media usage code bound to this key.
    pub fn media_code(self) -> (c: u8)
        ensures
            c == spec_media_code(self),
    {
        match self {
            KeyConfig::One => MEDIAKEY_PLAYPAUSE,
            KeyConfig::Two => MEDIAKEY_NONE,
            KeyConfig::Three => MEDIAKEY_VOLUP,
            KeyConfig::Four => MEDIAKEY_VOLDOWN,
            KeyConfig::Five => MEDIAKEY_PREVTRACK,
            KeyConfig::Six => MEDIAKEY_NEXTTRACK,
        }
    }

    /// Output code of this key under the given mode.
    pub fn code_for(self, mode: KeyMode) -> (c: u8)
        ensures
            c == spec_code_for(self, mode),
    {
        match mode {
            KeyMode::Keyboard => self.keyboard_code(),
            KeyMode::Media => self.media_code(),
        }
    }
}

} // verus!
