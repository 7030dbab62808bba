use vstd::prelude::*;

verus! {

/// Package energy status register.
pub const MSR_PKG_ENERGY_STATUS: u32 = 0x611;
/// Power, energy and time units register.
pub const MSR_POWER_UNIT: u32 = 0x606;
/// Performance status register, whose upper half holds the core voltage.
pub const MSR_VOLTAGE: u32 = 0x198;
/// How many samples per second the power measurement is scaled to.
pub const TIME_MUL: i32 = 5;

/// The core voltage field of the performance status register: its upper
/// 32 bits (in units of 1/8192 V).
pub fn voltage_field(raw: u64) -> (res: u64)
    ensures
        res == raw / 0x1_0000_0000,
{
    assert(raw >> 32u64 == raw / 0x1_0000_0000) by (bit_vector);
    raw >> 32
}

/// The energy status unit of the power unit register: bits 8 to 12. Energy
/// counts are in units of 1/2^this joules.
pub fn energy_unit_exponent(raw: u64) -> (res: u64)
    ensures
        res == (raw / 256) % 32,
{
    assert((raw >> 8u64) & 0x1fu64 == (raw / 256) % 32) by (bit_vector);
    (raw >> 8) & 0x1f
}

/// The pause between two samples, in milliseconds, for `time_mul` samples
/// per second.
pub fn sampling_interval_ms(time_mul: i32) -> (res: u64)
    requires
        time_mul != 0,
    ensures
        res == 1000u64 / (time_mul as u64),
{
    assert(time_mul != 0 ==> time_mul as u64 != 0) by (bit_vector);
    1000 / (time_mul as u64)
}

} // verus!
