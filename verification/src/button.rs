//! Press/release bookkeeping for one physical switch: a debounce filter
//! plus the flags the scan task branches on.

use vstd::prelude::*;

use crate::constants::DEBOUNCE_STABILITY_PERIOD;
use crate::debouncer::Debouncer;
use crate::debouncer::spec_update;
use crate::key_config::KeyConfig;

verus! {

/// State of one physical switch.
#[derive(Clone, Copy, PartialEq, Eq, Structural, Debug)]
pub struct Button {
    /// Which of the six keys this is.
    pub identity: KeyConfig,
    /// Debounce filter for the switch's raw line.
    pub debouncer: Debouncer,
    /// Debounced press state, mirroring the filter after every update.
    pub is_pressed: bool,
    /// Raised when a press has been consumed and its release is still owed.
    pub to_be_released: bool,
}

/// One debounce step of the whole button: the filter advances and
/// `is_pressed` mirrors its trusted level.
pub open spec fn spec_debounce(b: Button, current_time: u32, raw_state: bool) -> Button {
    let d = spec_update(b.debouncer, current_time, raw_state);
    Button { debouncer: d, is_pressed: d.stabilised_state, ..b }
}

/// The button state a consumed press leaves behind: the filter is forced
/// back to the released reading and the release of the key is now owed, so
/// that only a fresh stable press can fire again.
pub open spec fn spec_consume_press(b: Button) -> Button {
    Button {
        debouncer: Debouncer { current_state: false, stabilised_state: false, ..b.debouncer },
        is_pressed: false,
        to_be_released: true,
        ..b
    }
}

impl Button {
    pub fn new(identity: KeyConfig) -> (b: Button)
        ensures
            b == (Button {
                identity,
                debouncer: Debouncer {
                    current_state: false,
                    stabilised_state: false,
                    last_transition_time: 0,
                    stability_period: DEBOUNCE_STABILITY_PERIOD,
                },
                is_pressed: false,
                to_be_released: false,
            }),
    {
        Button {
            identity,
            debouncer: Debouncer::new(DEBOUNCE_STABILITY_PERIOD),
            is_pressed: false,
            to_be_released: false,
        }
    }

    /// Feed one raw sample through the filter and mirror its trusted level.
    pub fn debounce(&mut self, current_time: u32, current_state: bool)
        requires
            old(self).debouncer.last_transition_time <= current_time,
        ensures
            *final(self) == spec_debounce(*old(self), current_time, current_state),
            final(self).debouncer.last_transition_time <= current_time,
    {
        self.debouncer.update(current_time, current_state);
        self.is_pressed = self.debouncer.stabilised_state;
    }

    /// Force both the raw and the trusted reading back to released, so the
    /// same physical actuation cannot fire a second logical press.
    pub fn reset(&mut self)
        ensures
            final(self).debouncer == (Debouncer {
                current_state: false,
                stabilised_state: false,
                ..old(self).debouncer
            }),
            final(self).is_pressed == false,
            final(self).identity == old(self).identity,
            final(self).to_be_released == old(self).to_be_released,
    {
        self.debouncer.current_state = false;
        self.debouncer.stabilised_state = false;
        self.is_pressed = false;
    }

    /// A release is confirmed only when the trusted and the raw reading are
    /// both low.
    pub fn is_released(&self) -> (r: bool)
        ensures
            r == (!self.debouncer.stabilised_state && !self.debouncer.current_state),
    {
        if !self.debouncer.stabilised_state && !self.debouncer.current_state {
            return true;
        }
        false
    }
}

} // verus!
