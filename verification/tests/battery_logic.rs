use argon_one_up_daemon::battery::{
    classify_state, is_gauge_silent, state_name, soc_from_registers, BatteryState, GaugeRegisters, HardwareManager,
    SOC_MAX, STATE_CHARGING, STATE_DISCHARGING, STATE_FULL,
};
use argon_one_up_daemon::registers::{combine_bytes, combine_signed};

fn regs(v: u16, soc: u16, temp: u16, current: i16) -> GaugeRegisters {
    let c = current as u16;
    GaugeRegisters {
        v_raw_h: (v >> 8) as u8,
        v_raw_l: (v & 0xff) as u8,
        soc_raw_high: (soc >> 8) as u8,
        soc_raw_low: (soc & 0xff) as u8,
        temp_h: (temp >> 8) as u8,
        temp_l: (temp & 0xff) as u8,
        current_raw_high: (c >> 8) as u8,
        current_raw_low: (c & 0xff) as u8,
    }
}

#[test]
fn words_are_big_endian() {
    assert_eq!(combine_bytes(0x12, 0x34), 0x1234);
    assert_eq!(combine_bytes(0xff, 0xff), 0xffff);
    assert_eq!(combine_bytes(0, 0), 0);
}

#[test]
fn current_is_twos_complement() {
    assert_eq!(combine_signed(0xff, 0xff), -1);
    assert_eq!(combine_signed(0x80, 0x00), -32768);
    assert_eq!(combine_signed(0x7f, 0xff), 32767);
    assert_eq!(combine_signed(0x01, 0x39), 313);
}

#[test]
fn soc_is_clamped_to_hundred_percent() {
    assert_eq!(soc_from_registers(98, 128), 98 * 256 + 128);
    assert_eq!(soc_from_registers(100, 0), SOC_MAX);
    assert_eq!(soc_from_registers(100, 1), SOC_MAX);
    assert_eq!(soc_from_registers(255, 255), SOC_MAX);
    assert_eq!(soc_from_registers(0, 7), 7);
}

#[test]
fn charge_state_codes() {
    assert_eq!(classify_state(false, 100), STATE_DISCHARGING);
    assert_eq!(classify_state(false, SOC_MAX), STATE_DISCHARGING);
    assert_eq!(classify_state(true, 98 * 256), STATE_FULL);
    assert_eq!(classify_state(true, SOC_MAX), STATE_FULL);
    assert_eq!(classify_state(true, 98 * 256 - 1), STATE_CHARGING);
    assert_eq!(classify_state(true, 0), STATE_CHARGING);
    assert_eq!(classify_state(true, 50 * 256), STATE_CHARGING);
}

#[test]
fn full_threshold_matches_percentage() {
    for soc in 0u16..=SOC_MAX {
        let percent = soc as f64 / 256.0;
        let expected = if percent >= 98.0 { STATE_FULL } else { STATE_CHARGING };
        assert_eq!(classify_state(true, soc), expected);
        assert_eq!(classify_state(false, soc), STATE_DISCHARGING);
    }
}

#[test]
fn plugged_in_and_full_even_while_charging() {
    let mut hw = HardwareManager::new();
    let r = regs(0x3000, SOC_MAX, 700, 4096);
    hw.update_status(&r, false);
    let s = hw.update_status(&r, false).unwrap();
    assert!(s.ac_present);
    assert_eq!(s.state, STATE_FULL);
    let r = regs(0x3000, 97 * 256, 700, 4096);
    let s = hw.update_status(&r, false).unwrap();
    assert_eq!(s.state, STATE_CHARGING);
}

#[test]
fn state_names() {
    assert_eq!(state_name(1), "Charging");
    assert_eq!(state_name(2), "Discharging");
    assert_eq!(state_name(4), "Full");
    assert_eq!(state_name(3), "Unknown");
}

#[test]
fn silent_gauge() {
    let mut r = regs(0x3000, 0x5000, 700, 100);
    assert!(!is_gauge_silent(&r));
    for (v, s) in [(0u8, 0u8), (0, 255), (255, 0), (255, 255)] {
        r.v_raw_h = v;
        r.soc_raw_high = s;
        assert!(is_gauge_silent(&r));
    }
    r.v_raw_h = 0;
    r.soc_raw_high = 50;
    assert!(!is_gauge_silent(&r));
    r.v_raw_h = 40;
    r.soc_raw_high = 0;
    assert!(!is_gauge_silent(&r));
}

#[test]
fn silent_sample_gives_none_and_keeps_window() {
    let mut hw = HardwareManager::new();
    assert!(hw.update_status(&regs(0x3000, 50 * 256, 700, 500), false).is_some());
    let silent = regs(0x00ff, 0xff00, 700, 500);
    assert_eq!(hw.update_status(&silent, false), None);
    // the silent sample did not count as a charging reading
    let s = hw.update_status(&regs(0x3000, 50 * 256, 700, -500), false).unwrap();
    assert!(!s.ac_present);
}

#[test]
fn decoded_sample_fields() {
    let mut hw = HardwareManager::new();
    let s = hw.update_status(&regs(0x3456, 87 * 256 + 64, 0x0271, -1234), true).unwrap();
    assert_eq!(
        s,
        BatteryState {
            soc: 87 * 256 + 64,
            voltage: 0x3456,
            current: -1234,
            temperature: 0x0271,
            state: STATE_DISCHARGING,
            ac_present: false,
            lid_closed: true,
        }
    );
    assert!(s.on_battery());
    assert!(s.lid_is_closed());
    assert_eq!(s.state(), 2);
}

#[test]
fn ac_needs_two_of_three_readings() {
    let mut hw = HardwareManager::new();
    let plus = regs(0x3000, 50 * 256, 700, 800);
    let minus = regs(0x3000, 50 * 256, 700, -800);
    let zero = regs(0x3000, 50 * 256, 700, 0);
    let ac = |hw: &mut HardwareManager, r: &GaugeRegisters| hw.update_status(r, false).unwrap().ac_present;
    assert!(!ac(&mut hw, &plus)); // [+]
    assert!(ac(&mut hw, &plus)); // [+,+]
    assert!(ac(&mut hw, &minus)); // [+,+,-]
    assert!(!ac(&mut hw, &minus)); // [+,-,-]
    assert!(!ac(&mut hw, &plus)); // [-,-,+]
    assert!(ac(&mut hw, &plus)); // [-,+,+]
    assert!(ac(&mut hw, &zero)); // [+,+,0]
    assert!(!ac(&mut hw, &zero)); // [+,0,0]
}
