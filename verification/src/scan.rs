//! Scan/dispatch decisions.
//!
//! The interrupt-driven scan task calls [`handle_button`] once per key per
//! scan opportunity with the raw line level and the current time; it gets
//! back the report to push, if any.  The timer-driven heartbeat task calls
//! [`timer_tick`]; the serial writer sizes its payload with
//! [`message_len`].  Reading lines, waiting, and pushing bytes stay with the
//! caller.

use vstd::prelude::*;

use crate::button::Button;
use crate::button::spec_consume_press;
use crate::button::spec_debounce;
use crate::hid_util::HIDUtil;
use crate::hid_util::push_report_matches;
use crate::hid_util::release_report_matches;
use crate::hid_util::spec_push;
use crate::hid_util::spec_release;
use crate::reports::Report;

verus! {

/// Whether, after a debounce step left the button in state `b`, the scan
/// consumes a fresh press: the key is stably pressed and no release is owed.
pub open spec fn press_fires(b: Button) -> bool {
    b.is_pressed && !b.to_be_released
}

/// Whether, after a debounce step left the button in state `b`, the scan
/// confirms an owed release: a release is owed and both the trusted and the
/// raw reading are low.
pub open spec fn release_fires(b: Button) -> bool {
    &&& !b.is_pressed
    &&& b.to_be_released
    &&& !b.debouncer.stabilised_state
    &&& !b.debouncer.current_state
}

/// Button state after one whole scan step: debounce, then consume a press,
/// confirm a release, or leave the flags alone.
pub open spec fn spec_button_step(b: Button, current_time: u32, raw_state: bool) -> Button {
    let db = spec_debounce(b, current_time, raw_state);
    if release_fires(db) {
        Button { to_be_released: false, ..db }
    } else if press_fires(db) {
        spec_consume_press(db)
    } else {
        db
    }
}

/// Button state after a whole sequence of scan steps, one per entry of
/// `times` and `raws`.
pub open spec fn spec_button_run(b: Button, times: Seq<u32>, raws: Seq<bool>) -> Button
    recommends
        times.len() == raws.len(),
    decreases times.len(),
{
    if times.len() == 0 {
        b
    } else {
        spec_button_step(
            spec_button_run(b, times.drop_last(), raws.drop_last()),
            times.last(),
            raws.last(),
        )
    }
}

/// Scan one key: sample already in hand, debounce it, then either consume a
/// fresh press (aggregating it, or switching mode, and resetting the filter
/// so the same actuation cannot fire twice), confirm an owed release
/// (withdrawing the code), or do nothing.  Returns the report to push, if
/// any.
pub fn handle_button(
    button: &mut Button,
    hid: &mut HIDUtil,
    current_time: u32,
    raw_state: bool,
) -> (r: Option<Report>)
    requires
        old(button).debouncer.last_transition_time <= current_time,
        old(hid).wf(),
    ensures
        final(hid).wf(),
        *final(button) == spec_button_step(*old(button), current_time, raw_state),
        final(button).debouncer.last_transition_time <= current_time,
        ({
            let db = spec_debounce(*old(button), current_time, raw_state);
            if release_fires(db) {
                &&& final(hid)@ == spec_release(old(hid)@, db.identity)
                &&& release_report_matches(old(hid)@, db.identity, r)
            } else if press_fires(db) {
                &&& final(hid)@ == spec_push(old(hid)@, db.identity)
                &&& match r {
                    Some(rep) => push_report_matches(old(hid)@, db.identity, rep),
                    None => false,
                }
            } else {
                &&& final(hid)@ == old(hid)@
                &&& r is None
            }
        }),
{
    button.debounce(current_time, raw_state);
    if !button.is_pressed && button.to_be_released && button.is_released() {
        button.to_be_released = false;
        hid.release_input(button.identity)
    } else if button.is_pressed && !button.to_be_released {
        let rep = hid.push_input(button.identity);
        button.reset();
        button.to_be_released = true;
        Some(rep)
    } else {
        None
    }
}

/// While no release is confirmed, the owed release stays owed: scan steps
/// never drop the flag on their own.
proof fn lemma_pending_until_release(b: Button, times: Seq<u32>, raws: Seq<bool>, k: int)
    requires
        b.to_be_released,
        times.len() == raws.len(),
        0 <= k <= times.len(),
        forall|j: int|
            0 <= j < k ==> !release_fires(
                spec_debounce(spec_button_run(b, times.take(j), raws.take(j)), times[j], raws[j]),
            ),
    ensures
        spec_button_run(b, times.take(k), raws.take(k)).to_be_released,
    decreases k,
{
    if k > 0 {
        lemma_pending_until_release(b, times, raws, k - 1);
        assert(times.take(k).drop_last() =~= times.take(k - 1));
        assert(raws.take(k).drop_last() =~= raws.take(k - 1));
        let s = spec_button_run(b, times.take(k - 1), raws.take(k - 1));
        let db = spec_debounce(s, times[k - 1], raws[k - 1]);
        assert(!release_fires(db));
        assert(!press_fires(db));
    }
}

/// No duplicate press per physical actuation: once a press has been
/// consumed (the release of the key is owed), no later scan step reports a
/// press until some earlier step has confirmed the release.
pub proof fn lemma_no_duplicate_press(b: Button, times: Seq<u32>, raws: Seq<bool>, i: int)
    requires
        b.to_be_released,
        times.len() == raws.len(),
        0 <= i < times.len(),
        press_fires(
            spec_debounce(spec_button_run(b, times.take(i), raws.take(i)), times[i], raws[i]),
        ),
    ensures
        exists|j: int|
            0 <= j < i && release_fires(
                spec_debounce(spec_button_run(b, times.take(j), raws.take(j)), times[j], raws[j]),
            ),
{
    if exists|j: int|
        0 <= j < i && release_fires(
            spec_debounce(spec_button_run(b, times.take(j), raws.take(j)), times[j], raws[j]),
        ) {
    } else {
        assert(forall|j: int|
            0 <= j < i ==> !release_fires(
                spec_debounce(spec_button_run(b, times.take(j), raws.take(j)), times[j], raws[j]),
            ));
        lemma_pending_until_release(b, times, raws, i);
        assert(false);
    }
}

/// One step of the low-priority heartbeat task: the status-indicator level
/// to set for this tick (none while blinking is disabled) and the advanced
/// blink phase.
pub fn timer_tick(tog: bool, led_blink_enable: bool) -> (r: (Option<bool>, bool))
    ensures
        r.0 == (if led_blink_enable {
            Some(!tog)
        } else {
            None::<bool>
        }),
        r.1 == !tog,
{
    if led_blink_enable {
        (Some(!tog), !tog)
    } else {
        (None, !tog)
    }
}

/// Length of the portion of a debug buffer the serial writer sends: the
/// bytes before the first zero byte, or the whole buffer if none occurs.
pub fn message_len(buf: &[u8]) -> (n: usize)
    ensures
        n <= buf@.len(),
        forall|i: int| 0 <= i < n ==> buf@[i] != 0,
        n < buf@.len() ==> buf@[n as int] == 0,
{
    let mut index: usize = 0;
    while index < buf.len() && buf[index] != 0
        invariant
            0 <= index <= buf@.len(),
            forall|i: int| 0 <= i < index ==> buf@[i] != 0,
        decreases buf@.len() - index,
    {
        index += 1;
    }
    index
}

} // verus!
