//! When a new sample is worth a UPower change signal, and the monitor
//! loop's bookkeeping of the last state that was signalled.
use vstd::prelude::*;

use crate::battery::BatteryState;

verus! {

/// Absolute value of an integer.
pub open spec fn abs_int(x: int) -> int {
    if x < 0 {
        -x
    } else {
        x
    }
}

/// The state of charge moved by more than 0.5 % (128 steps of 1/256 %).
pub open spec fn soc_moved(new: BatteryState, last: BatteryState) -> bool {
    abs_int(new.soc - last.soc) * 2 > 256
}

/// `voltage × |current|` in gauge units; one unit is
/// 305e-6 × 52.4 / 327680 W.
pub open spec fn power_units(s: BatteryState) -> int {
    s.voltage * abs_int(s.current as int)
}

/// The power moved by more than 0.05 W:
/// `|Δunits| × 305e-6 × 52.4 / 327680 > 0.05`, cleared of fractions.
pub open spec fn power_moved(new: BatteryState, last: BatteryState) -> bool {
    abs_int(power_units(new) - power_units(last)) * (305 * 524 * 100) > 5 * 10000000 * 327680
}

/// A new state differs from the last signalled one enough to signal it:
/// the charge state, the AC flag or the lid changed, the state of charge
/// moved by more than 0.5 %, or the power by more than 0.05 W.
pub open spec fn significant_change(new: BatteryState, last: BatteryState) -> bool {
    ||| new.state != last.state
    ||| new.ac_present != last.ac_present
    ||| new.lid_closed != last.lid_closed
    ||| soc_moved(new, last)
    ||| power_moved(new, last)
}

/// `voltage × |current|` of a state, in gauge units.
pub fn power_of(s: &BatteryState) -> (p: u64)
    ensures
        p == power_units(*s),
        p <= 65535 * 32768,
{
    let c: i64 = s.current as i64;
    let mag: u64 = if c < 0 { (-c) as u64 } else { c as u64 };
    assert(mag <= 32768);
    assert((s.voltage as u64) * mag <= 65535 * 32768) by (nonlinear_arith)
        requires
            mag <= 32768,
    ;
    (s.voltage as u64) * mag
}

/// Whether `new` must be signalled, given the last signalled state.
pub fn should_broadcast(new: &BatteryState, last: &BatteryState) -> (b: bool)
    ensures
        b == significant_change(*new, *last),
        new.state != last.state ==> b,
        new.ac_present != last.ac_present ==> b,
        new.lid_closed != last.lid_closed ==> b,
        new.soc > last.soc + 128 || last.soc > new.soc + 128 ==> b,
{
    let soc_delta: u16 = if new.soc >= last.soc { new.soc - last.soc } else { last.soc - new.soc };
    let p_new = power_of(new);
    let p_last = power_of(last);
    let p_delta: u64 = if p_new >= p_last { p_new - p_last } else { p_last - p_new };
    assert(p_delta * (305 * 524 * 100) <= 65535 * 32768 * (305 * 524 * 100)) by (nonlinear_arith)
        requires
            p_delta <= 65535 * 32768,
    ;
    new.state != last.state || new.ac_present != last.ac_present || new.lid_closed != last.lid_closed
        || (soc_delta as u32) * 2 > 256 || p_delta * (305 * 524 * 100) > 5 * 10000000 * 327680
}

/// What the monitor loop does after a sampling attempt.
#[derive(Clone, Copy, Debug, PartialEq, Eq, Structural)]
pub enum LoopAction {
    /// The gauge was silent: run the activation sequence again.
    Reinitialize,
    /// Publish the new state without a change signal.
    Store,
    /// Publish the new state and emit the UPower change signals.
    StoreAndSignal,
}

/// The last battery state for which change signals were emitted.
pub struct BroadcastTracker {
    last: BatteryState,
}

impl BroadcastTracker {
    /// The state last signalled.
    pub closed spec fn last(self) -> BatteryState {
        self.last
    }

    /// Starts from the state published when the gauge first synchronised.
    pub fn new(initial: BatteryState) -> (t: BroadcastTracker)
        ensures
            t.last() == initial,
    {
        BroadcastTracker { last: initial }
    }

    /// The state last signalled.
    pub fn last_broadcast(&self) -> (s: BatteryState)
        ensures
            s == self.last(),
    {
        self.last
    }

    /// Decides on one sampling attempt: `None` asks for re-activation; a
    /// state is stored, and signalled (becoming the new reference) when it
    /// differs significantly from the last signalled one.
    pub fn on_reading(&mut self, reading: Option<BatteryState>) -> (a: LoopAction)
        ensures
            match reading {
                None => a == LoopAction::Reinitialize && final(self).last() == old(self).last(),
                Some(s) => if significant_change(s, old(self).last()) {
                    a == LoopAction::StoreAndSignal && final(self).last() == s
                } else {
                    a == LoopAction::Store && final(self).last() == old(self).last()
                },
            },
    {
        match reading {
            None => LoopAction::Reinitialize,
            Some(s) => {
                if should_broadcast(&s, &self.last) {
                    self.last = s;
                    LoopAction::StoreAndSignal
                } else {
                    LoopAction::Store
                }
            },
        }
    }
}

/// A change of the charge-state code (for example Charging to Full) is
/// always signalled.
pub proof fn lemma_state_change_signalled(new: BatteryState, last: BatteryState)
    requires
        new.state != last.state,
    ensures
        significant_change(new, last),
{
}

/// Plugging in or pulling the AC adapter is always signalled.
pub proof fn lemma_ac_change_signalled(new: BatteryState, last: BatteryState)
    requires
        new.ac_present != last.ac_present,
    ensures
        significant_change(new, last),
{
}

/// Opening or closing the lid is always signalled, on battery or on AC.
pub proof fn lemma_lid_change_signalled(new: BatteryState, last: BatteryState)
    requires
        new.lid_closed != last.lid_closed,
    ensures
        significant_change(new, last),
{
}

/// A state of charge that moved by more than 128 steps (0.5 %) in either
/// direction is always signalled, whatever the other fields.
pub proof fn lemma_soc_move_signalled(new: BatteryState, last: BatteryState)
    requires
        new.soc > last.soc + 128 || last.soc > new.soc + 128,
    ensures
        significant_change(new, last),
{
}

/// A power (`voltage × |current|`) that moved by at least 1025154 gauge
/// units, just over 0.05 W, is always signalled.
pub proof fn lemma_power_move_signalled(new: BatteryState, last: BatteryState)
    requires
        new.voltage * abs_int(new.current as int) >= last.voltage * abs_int(last.current as int) + 1025154
            || last.voltage * abs_int(last.current as int) >= new.voltage * abs_int(new.current as int)
            + 1025154,
    ensures
        significant_change(new, last),
{
    let d = abs_int(power_units(new) - power_units(last));
    assert(power_units(new) == new.voltage * abs_int(new.current as int));
    assert(power_units(last) == last.voltage * abs_int(last.current as int));
    assert(d >= 1025154);
    assert(d * (305 * 524 * 100) >= 1025154 * (305 * 524 * 100)) by (nonlinear_arith)
        requires
            d >= 1025154,
    ;
}

/// With the same charge state, AC flag and lid, a state of charge within
/// 128 steps (0.5 %) and a power within 1025153 units (under 0.05 W) of
/// the last signalled state, nothing is signalled.
pub proof fn lemma_small_moves_quiet(new: BatteryState, last: BatteryState)
    requires
        new.state == last.state,
        new.ac_present == last.ac_present,
        new.lid_closed == last.lid_closed,
        last.soc <= new.soc + 128 && new.soc <= last.soc + 128,
        new.voltage * abs_int(new.current as int) <= last.voltage * abs_int(last.current as int) + 1025153,
        last.voltage * abs_int(last.current as int) <= new.voltage * abs_int(new.current as int) + 1025153,
    ensures
        !significant_change(new, last),
{
    let d = abs_int(power_units(new) - power_units(last));
    assert(power_units(new) == new.voltage * abs_int(new.current as int));
    assert(power_units(last) == last.voltage * abs_int(last.current as int));
    assert(0 <= d <= 1025153);
    assert(d * (305 * 524 * 100) <= 1025153 * (305 * 524 * 100)) by (nonlinear_arith)
        requires
            0 <= d <= 1025153,
    ;
    assert(abs_int(new.soc - last.soc) <= 128);
}

/// A state never differs significantly from itself, so a reading equal to
/// the last signalled state is stored without a signal.
pub proof fn lemma_no_change_is_quiet(s: BatteryState)
    ensures
        !significant_change(s, s),
{
    assert(abs_int(power_units(s) - power_units(s)) == 0);
    assert(abs_int(s.soc - s.soc) == 0);
}

/// Whether two states differ significantly does not depend on which one
/// was signalled last.
pub proof fn lemma_change_is_symmetric(a: BatteryState, b: BatteryState)
    ensures
        significant_change(a, b) == significant_change(b, a),
{
    assert(abs_int(power_units(a) - power_units(b)) == abs_int(power_units(b) - power_units(a)));
    assert(abs_int(a.soc - b.soc) == abs_int(b.soc - a.soc));
}

} // verus!
