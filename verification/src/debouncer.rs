//! Debounce filter for one noisy boolean input line.
//!
//! The filter records the instant at which the raw sample last changed and
//! trusts the raw value only once it has held for a full stability window.
//! Sampling may be irregular; the only demand is that time never runs
//! backwards.

use vstd::prelude::*;

verus! {

/// Debounce filter state for a single input line.
#[derive(Clone, Copy, PartialEq, Eq, Structural, Debug)]
pub struct Debouncer {
    /// Raw level as last recorded.
    pub current_state: bool,
    /// Debounced, trusted level.
    pub stabilised_state: bool,
    /// Time at which `current_state` last changed.
    pub last_transition_time: u32,
    /// How long a raw level must hold before it is trusted.
    pub stability_period: u32,
}

/// One debounce step: record a raw transition if the sample differs from the
/// recorded level, then trust the recorded level once it has held for the
/// full stability window.
pub open spec fn spec_update(d: Debouncer, current_time: u32, raw_state: bool) -> Debouncer {
    let mid = if d.current_state != raw_state {
        Debouncer { current_state: raw_state, last_transition_time: current_time, ..d }
    } else {
        d
    };
    if current_time - mid.last_transition_time >= mid.stability_period {
        Debouncer { stabilised_state: mid.current_state, ..mid }
    } else {
        mid
    }
}

/// State after feeding a whole run of identical raw samples, one step per
/// entry of `times`.
pub open spec fn spec_run(d: Debouncer, times: Seq<u32>, raw_state: bool) -> Debouncer
    decreases times.len(),
{
    if times.len() == 0 {
        d
    } else {
        spec_update(spec_run(d, times.drop_last(), raw_state), times.last(), raw_state)
    }
}

impl Debouncer {
    pub fn new(stability_period: u32) -> (d: Debouncer)
        ensures
            d == (Debouncer {
                current_state: false,
                stabilised_state: false,
                last_transition_time: 0,
                stability_period,
            }),
    {
        Debouncer {
            current_state: false,
            stabilised_state: false,
            last_transition_time: 0,
            stability_period,
        }
    }

    pub fn update(&mut self, current_time: u32, raw_state: bool)
        requires
            old(self).last_transition_time <= current_time,
        ensures
            *final(self) == spec_update(*old(self), current_time, raw_state),
            final(self).last_transition_time <= current_time,
            final(self).stability_period == old(self).stability_period,
    {
        if self.current_state != raw_state {
            self.current_state = raw_state;
            self.last_transition_time = current_time;
        }
        if current_time - self.last_transition_time >= self.stability_period {
            self.stabilised_state = self.current_state;
        }
    }
}

/// During a run of samples that all equal the recorded raw level, the
/// recorded level and its transition timestamp stand still, and the trusted
/// level either keeps its entry reading or has switched to the run's value:
/// a single run can change the trusted level at most once.
pub proof fn lemma_run_changes_at_most_once(d: Debouncer, times: Seq<u32>, raw_state: bool)
    requires
        d.current_state == raw_state,
    ensures
        spec_run(d, times, raw_state).current_state == raw_state,
        spec_run(d, times, raw_state).last_transition_time == d.last_transition_time,
        spec_run(d, times, raw_state).stability_period == d.stability_period,
        spec_run(d, times, raw_state).stabilised_state == d.stabilised_state
            || spec_run(d, times, raw_state).stabilised_state == raw_state,
    decreases times.len(),
{
    if times.len() > 0 {
        lemma_run_changes_at_most_once(d, times.drop_last(), raw_state);
    }
}

/// Once the trusted level equals the run's value, further samples of the same
/// run leave it there: the single change a run may make is final.
pub proof fn lemma_run_change_is_final(d: Debouncer, times: Seq<u32>, raw_state: bool)
    requires
        d.current_state == raw_state,
        d.stabilised_state == raw_state,
    ensures
        spec_run(d, times, raw_state).stabilised_state == raw_state,
    decreases times.len(),
{
    if times.len() > 0 {
        lemma_run_change_is_final(d, times.drop_last(), raw_state);
    }
}

/// A run every sample of which falls short of the stability window, measured
/// from the recorded transition, never changes the trusted level.
pub proof fn lemma_short_run_never_changes(d: Debouncer, times: Seq<u32>, raw_state: bool)
    requires
        d.current_state == raw_state,
        forall|i: int|
            0 <= i < times.len() ==> times[i] - d.last_transition_time < d.stability_period,
    ensures
        spec_run(d, times, raw_state).stabilised_state == d.stabilised_state,
    decreases times.len(),
{
    if times.len() > 0 {
        lemma_short_run_never_changes(d, times.drop_last(), raw_state);
        lemma_run_changes_at_most_once(d, times.drop_last(), raw_state);
    }
}

/// A whole bounce — a raw transition at `t0` followed by samples of the new
/// level that all fall short of the stability window — never changes the
/// trusted level.
pub proof fn lemma_bounce_is_ignored(d: Debouncer, t0: u32, times: Seq<u32>, raw_state: bool)
    requires
        d.stability_period > 0,
        d.current_state != raw_state,
        forall|i: int| 0 <= i < times.len() ==> times[i] - t0 < d.stability_period,
    ensures
        spec_run(spec_update(d, t0, raw_state), times, raw_state).stabilised_state
            == d.stabilised_state,
{
    let d1 = spec_update(d, t0, raw_state);
    lemma_short_run_never_changes(d1, times, raw_state);
}

} // verus!
