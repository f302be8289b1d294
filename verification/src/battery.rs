//! Decoding of one fuel-gauge sample into a battery state, with the AC
//! debounce window that spans samples.
use std::collections::VecDeque;
use vstd::prelude::*;

use crate::registers::{combine_bytes, combine_signed, signed_word, word};

verus! {

/// UPower state code: the battery is charging.
pub const STATE_CHARGING: u32 = 1;
/// UPower state code: the battery is discharging.
pub const STATE_DISCHARGING: u32 = 2;
/// UPower state code: the battery is full.
pub const STATE_FULL: u32 = 4;

/// Highest state of charge reported, in 1/256 percent (100 %).
pub const SOC_MAX: u16 = 25600;

/// The bytes read from the gauge's measurement registers in one sample.
#[derive(Clone, Copy, Debug, PartialEq, Eq, Structural)]
pub struct GaugeRegisters {
    pub v_raw_h: u8,
    pub v_raw_l: u8,
    pub soc_raw_high: u8,
    pub soc_raw_low: u8,
    pub temp_h: u8,
    pub temp_l: u8,
    pub current_raw_high: u8,
    pub current_raw_low: u8,
}

/// One battery sample in the gauge's own units.
///
/// * `soc`: state of charge in 1/256 percent, at most 100 %;
/// * `voltage`: cell voltage in steps of 305 µV;
/// * `current`: signed current in steps of 52.4 / (32768 × 10) A, positive when charging;
/// * `temperature`: tenths of a degree above −40 °C;
/// * `state`: UPower state code (1 charging, 2 discharging, 4 full).
#[derive(Clone, Copy, Debug, PartialEq, Eq, Structural)]
pub struct BatteryState {
    pub soc: u16,
    pub voltage: u16,
    pub current: i16,
    pub temperature: u16,
    pub state: u32,
    pub ac_present: bool,
    pub lid_closed: bool,
}

/// The gauge answered nothing usable: both the voltage high byte and the
/// state-of-charge high byte are 0 or 255.
pub open spec fn gauge_silent(regs: GaugeRegisters) -> bool {
    (regs.v_raw_h == 255 || regs.v_raw_h == 0) && (regs.soc_raw_high == 255 || regs.soc_raw_high == 0)
}

/// State of charge in 1/256 percent, clamped to 100 %.
pub open spec fn soc_reading(high: u8, low: u8) -> int {
    if word(high, low) > SOC_MAX {
        SOC_MAX as int
    } else {
        word(high, low)
    }
}

/// The current flows into the battery (more than 0 A).
pub open spec fn charging_current(current: int) -> bool {
    current > 0
}

/// The state of charge is at least 98 %.
pub open spec fn nearly_full(soc: int) -> bool {
    soc >= 98 * 256
}

/// UPower state code for an AC flag and a state of charge: discharging
/// without AC; with AC, full from 98 % on and charging below.
pub open spec fn charge_state(ac_present: bool, soc: int) -> u32 {
    if !ac_present {
        STATE_DISCHARGING
    } else if nearly_full(soc) {
        STATE_FULL
    } else {
        STATE_CHARGING
    }
}

/// Number of `true` entries of a sequence.
pub open spec fn count_true(s: Seq<bool>) -> nat
    decreases s.len(),
{
    if s.len() == 0 {
        0
    } else {
        count_true(s.drop_last()) + if s.last() { 1nat } else { 0nat }
    }
}

/// The debounce window after a new raw reading: the reading is appended and
/// the window keeps its last three entries.
pub open spec fn debounce_window(history: Seq<bool>, reading: bool) -> Seq<bool> {
    let pushed = history.push(reading);
    if pushed.len() > 3 {
        pushed.drop_first()
    } else {
        pushed
    }
}

/// AC counts as present when at least two readings of the window saw
/// charging current.
pub open spec fn ac_majority(window: Seq<bool>) -> bool {
    count_true(window) >= 2
}

/// The battery state that a sample decodes to, given the debounce window
/// that includes the sample.
pub open spec fn decoded_state(regs: GaugeRegisters, window: Seq<bool>, lid_is_low: bool) -> BatteryState {
    let soc = soc_reading(regs.soc_raw_high, regs.soc_raw_low);
    let current = signed_word(regs.current_raw_high, regs.current_raw_low);
    let ac = ac_majority(window);
    BatteryState {
        soc: soc as u16,
        voltage: word(regs.v_raw_h, regs.v_raw_l) as u16,
        current: current as i16,
        temperature: word(regs.temp_h, regs.temp_l) as u16,
        state: charge_state(ac, soc),
        ac_present: ac,
        lid_closed: lid_is_low,
    }
}

/// State of charge of a register pair, in 1/256 percent, clamped to 100 %.
pub fn soc_from_registers(high: u8, low: u8) -> (soc: u16)
    ensures
        soc == soc_reading(high, low),
        soc <= SOC_MAX,
{
    let raw = combine_bytes(high, low);
    if raw > SOC_MAX {
        SOC_MAX
    } else {
        raw
    }
}

/// UPower state code of a sample (1 charging, 2 discharging, 4 full).
pub fn classify_state(ac_present: bool, soc: u16) -> (code: u32)
    ensures
        code == charge_state(ac_present, soc as int),
{
    if !ac_present {
        STATE_DISCHARGING
    } else if soc >= 98 * 256 {
        STATE_FULL
    } else {
        STATE_CHARGING
    }
}

/// Name of a UPower state code as the daemon logs it.
pub open spec fn state_label(code: u32) -> Seq<char> {
    if code == STATE_CHARGING {
        "Charging"@
    } else if code == STATE_DISCHARGING {
        "Discharging"@
    } else if code == STATE_FULL {
        "Full"@
    } else {
        "Unknown"@
    }
}

/// Name of a UPower state code as the daemon logs it.
pub fn state_name(code: u32) -> (name: &'static str)
    ensures
        name@ == state_label(code),
{
    match code {
        1 => "Charging",
        2 => "Discharging",
        4 => "Full",
        _ => "Unknown",
    }
}

/// Whether both the voltage and the state-of-charge high bytes are 0 or 255.
pub fn is_gauge_silent(regs: &GaugeRegisters) -> (silent: bool)
    ensures
        silent == gauge_silent(*regs),
{
    (regs.v_raw_h == 255 || regs.v_raw_h == 0) && (regs.soc_raw_high == 255 || regs.soc_raw_high == 0)
}

impl BatteryState {
    /// UPower `OnBattery`: no AC adapter is present.
    pub fn on_battery(&self) -> (b: bool)
        ensures
            b == !self.ac_present,
    {
        !self.ac_present
    }

    /// UPower `LidIsClosed`.
    pub fn lid_is_closed(&self) -> (b: bool)
        ensures
            b == self.lid_closed,
    {
        self.lid_closed
    }

    /// UPower device `State` code.
    pub fn state(&self) -> (code: u32)
        ensures
            code == self.state,
    {
        self.state
    }
}

/// The sampling logic of the gauge: the AC debounce window across samples.
pub struct HardwareManager {
    ac_history: VecDeque<bool>,
}

impl HardwareManager {
    #[verifier::type_invariant]
    spec fn window_bounded(self) -> bool {
        self.ac_history@.len() <= 3
    }

    /// The raw AC readings of the last (up to three) decoded samples, oldest first.
    pub closed spec fn history(self) -> Seq<bool> {
        self.ac_history@
    }

    /// A manager that has seen no sample yet.
    pub fn new() -> (hw: HardwareManager)
        ensures
            hw.history() == Seq::<bool>::empty(),
    {
        HardwareManager { ac_history: VecDeque::new() }
    }

    /// Decodes one sample. A silent gauge gives `None` and leaves the window
    /// as it was; otherwise the sample's AC reading (current above 0 A)
    /// enters the window and the decoded state is returned.
    pub fn update_status(&mut self, regs: &GaugeRegisters, lid_is_low: bool) -> (res: Option<BatteryState>)
        ensures
            old(self).history().len() <= 3,
            final(self).history().len() <= 3,
            gauge_silent(*regs) ==> res is None && final(self).history() == old(self).history(),
            !gauge_silent(*regs) ==> {
                let window = debounce_window(
                    old(self).history(),
                    charging_current(signed_word(regs.current_raw_high, regs.current_raw_low)),
                );
                &&& final(self).history() == window
                &&& res == Some(decoded_state(*regs, window, lid_is_low))
            },
            res matches Some(st) ==> {
                &&& st.soc <= SOC_MAX
                &&& st.state == STATE_CHARGING || st.state == STATE_DISCHARGING || st.state == STATE_FULL
                &&& (st.state == STATE_DISCHARGING <==> !st.ac_present)
                &&& st.ac_present ==> (st.state == STATE_FULL <==> st.soc >= 98 * 256)
                &&& st.lid_closed == lid_is_low
            },
            res matches Some(st) ==> final(self).history().len() >= 1 && final(self).history().last() == (
            st.current > 0),
            res matches Some(st) ==> (st.ac_present <==> exists|i: int, j: int|
                0 <= i < j < final(self).history().len() && #[trigger] final(self).history()[i]
                    && #[trigger] final(self).history()[j]),
    {
        proof {
            use_type_invariant(&*self);
        }
        if is_gauge_silent(regs) {
            return None;
        }
        let voltage = combine_bytes(regs.v_raw_h, regs.v_raw_l);
        let soc = soc_from_registers(regs.soc_raw_high, regs.soc_raw_low);
        let current = combine_signed(regs.current_raw_high, regs.current_raw_low);
        let temperature = combine_bytes(regs.temp_h, regs.temp_l);
        let raw_ac = current > 0;

        let mut window: VecDeque<bool> = VecDeque::new();
        std::mem::swap(&mut window, &mut self.ac_history);
        let ghost before = window@;
        window.push_back(raw_ac);
        if window.len() > 3 {
            window.pop_front();
        }
        assert(window@ =~= debounce_window(before, raw_ac));
        let ac_present = count_set(&window) >= 2;
        self.ac_history = window;

        proof {
            lemma_majority_is_two_charging_readings(window@);
        }
        let state = classify_state(ac_present, soc);
        Some(BatteryState {
            soc,
            voltage,
            current,
            temperature,
            state,
            ac_present,
            lid_closed: lid_is_low,
        })
    }
}

/// The debounce window never holds more than three readings.
pub proof fn lemma_window_bounded(history: Seq<bool>, reading: bool)
    requires
        history.len() <= 3,
    ensures
        debounce_window(history, reading).len() <= 3,
        debounce_window(history, reading).last() == reading,
{
}

/// Two agreeing raw readings in a row decide the reported AC state, whatever
/// came before them.
pub proof fn lemma_two_agreeing_readings_decide(history: Seq<bool>, reading: bool)
    requires
        history.len() <= 3,
    ensures
        ac_majority(debounce_window(debounce_window(history, reading), reading)) == reading,
{
    let w1 = debounce_window(history, reading);
    let w = debounce_window(w1, reading);
    assert(w.len() >= 2 && w.len() <= 3);
    assert(w[w.len() - 1] == reading && w[w.len() - 2] == reading);
    reveal_with_fuel(count_true, 4);
    if w.len() == 2 {
        assert(w =~= seq![reading, reading]);
    } else {
        assert(w =~= seq![w[0], reading, reading]);
    }
}

/// A single deviating raw reading right after two agreeing ones does not
/// change the reported AC state.
pub proof fn lemma_single_glitch_ignored(history: Seq<bool>, settled: bool, glitch: bool)
    requires
        history.len() <= 3,
    ensures
        ac_majority(
            debounce_window(debounce_window(debounce_window(history, settled), settled), glitch),
        ) == settled,
{
    let w1 = debounce_window(history, settled);
    let w2 = debounce_window(w1, settled);
    let w = debounce_window(w2, glitch);
    assert(w2.len() >= 2 && w2[w2.len() - 1] == settled && w2[w2.len() - 2] == settled);
    assert(w =~= seq![settled, settled, glitch]);
    reveal_with_fuel(count_true, 4);
}

/// AC is reported present exactly when two distinct readings of the window
/// saw charging current, wherever they stand in it.
pub proof fn lemma_majority_is_two_charging_readings(window: Seq<bool>)
    requires
        window.len() <= 3,
    ensures
        ac_majority(window) <==> exists|i: int, j: int|
            0 <= i < j < window.len() && #[trigger] window[i] && #[trigger] window[j],
{
    reveal_with_fuel(count_true, 4);
    if window.len() == 0 {
        assert(window =~= Seq::<bool>::empty());
    } else if window.len() == 1 {
        assert(window =~= seq![window[0]]);
    } else if window.len() == 2 {
        assert(window =~= seq![window[0], window[1]]);
        if window[0] && window[1] {
            assert(window[0] && window[1]);
        }
    } else {
        assert(window =~= seq![window[0], window[1], window[2]]);
        assert(window.drop_last() =~= seq![window[0], window[1]]);
        assert(window.drop_last().drop_last() =~= seq![window[0]]);
        if window[0] && window[1] {
            assert(window[0] && window[1]);
        } else if window[0] && window[2] {
            assert(window[0] && window[2]);
        } else if window[1] && window[2] {
            assert(window[1] && window[2]);
        }
    }
    if exists|i: int, j: int| 0 <= i < j < window.len() && #[trigger] window[i] && #[trigger] window[j] {
        let (i, j) = choose|i: int, j: int|
            0 <= i < j < window.len() && #[trigger] window[i] && #[trigger] window[j];
        if window.len() == 2 {
            assert(i == 0 && j == 1);
        } else {
            assert(window.len() == 3);
            if i == 0 && j == 1 {
            } else if i == 0 && j == 2 {
            } else {
                assert(i == 1 && j == 2);
            }
        }
    }
}

/// Number of `true` entries of a deque.
fn count_set(window: &VecDeque<bool>) -> (n: usize)
    ensures
        n == count_true(window@),
{
    let mut n: usize = 0;
    let mut i: usize = 0;
    while i < window.len()
        invariant
            i <= window@.len(),
            n == count_true(window@.subrange(0, i as int)),
            n <= i,
        decreases window@.len() - i,
    {
        assert(window@.subrange(0, i + 1).drop_last() =~= window@.subrange(0, i as int));
        if window[i] {
            n = n + 1;
        }
        i = i + 1;
    }
    assert(window@.subrange(0, i as int) =~= window@);
    n
}

} // verus!
