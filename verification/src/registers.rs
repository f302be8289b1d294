//! Register map of the CellWise CW2217B fuel gauge and the decoding of the
//! raw register bytes into integer readings.
use vstd::prelude::*;

verus! {

/// 7-bit I2C address of the CW2217B on bus 1.
pub const ADDR_BATTERY: u8 = 0x64;
/// Control register: writing 0x30 then 0x00 wakes the gauge.
pub const REG_CONTROL: u8 = 0x01;
/// IC state register, polled during activation.
pub const REG_ICSTATE: u8 = 0xA0;
/// Cell voltage, high and low byte.
pub const VCELL_H: u8 = 0x02;
pub const VCELL_L: u8 = 0x03;
/// State of charge, whole percent and 1/256 percent.
pub const SOC_H: u8 = 0x04;
pub const SOC_L: u8 = 0x05;
/// Temperature, high and low byte.
pub const TEMP_H: u8 = 0x06;
pub const TEMP_L: u8 = 0x07;
/// Signed current, high and low byte.
pub const CURRENT_H: u8 = 0x0E;
pub const CURRENT_L: u8 = 0x0F;
/// Value written to the control register to wake the gauge.
pub const CONTROL_WAKE: u8 = 0x30;
/// Value written to the control register after the wake pulse.
pub const CONTROL_RUN: u8 = 0x00;
/// What a failed register read yields.
pub const READ_FAILED: u8 = 255;
/// GPIO line of the lid sensor (low = closed).
pub const PIN_LID: u8 = 27;
/// GPIO line of the power button (low = pressed).
pub const PIN_SHUTDOWN: u8 = 4;

/// The unsigned 16-bit value of a big-endian register pair.
pub open spec fn word(high: u8, low: u8) -> int {
    high * 256 + low
}

/// The two's-complement value of a big-endian register pair.
pub open spec fn signed_word(high: u8, low: u8) -> int {
    if high < 128 {
        word(high, low)
    } else {
        word(high, low) - 65536
    }
}

/// Joins a big-endian register pair into one unsigned word.
pub fn combine_bytes(high: u8, low: u8) -> (w: u16)
    ensures
        w == word(high, low),
{
    let w = ((high as u16) << 8) | (low as u16);
    assert(((high as u16) << 8) | (low as u16) == (high as u16) * 256 + (low as u16)) by (bit_vector);
    w
}

/// Joins a big-endian register pair into one two's-complement word.
pub fn combine_signed(high: u8, low: u8) -> (w: i16)
    ensures
        w == signed_word(high, low),
{
    let u = combine_bytes(high, low);
    let w = u as i16;
    assert(u < 32768 ==> (u as i16) == u) by (bit_vector);
    assert(u >= 32768 ==> (u as i16) == u - 65536) by (bit_vector);
    assert(u < 32768 <==> high < 128);
    w
}

} // verus!
