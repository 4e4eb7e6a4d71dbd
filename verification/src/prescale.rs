//! Clock prescale selection: the divisor applied to the system clock before
//! it drives the timer counter, and its hardware clock-select bit encoding.

use vstd::prelude::*;

verus! {

/// The closed set of prescale divisors the timer hardware supports.
///
/// Each variant carries two independent mappings: an arithmetic divisor
/// (`divisor`) used in frequency calculations, and a hardware clock-select
/// bit pattern (`clock_select_bits`) loaded into the control register.
#[derive(Copy, Clone, Debug, PartialEq, Eq, Structural)]
pub enum PrescaleMode {
    Direct,
    Freq8,
    Freq64,
    Freq256,
    Freq1024,
}

/// The divisor each prescale mode applies to the system clock.
pub open spec fn divisor(mode: PrescaleMode) -> int {
    match mode {
        PrescaleMode::Direct => 1,
        PrescaleMode::Freq8 => 8,
        PrescaleMode::Freq64 => 64,
        PrescaleMode::Freq256 => 256,
        PrescaleMode::Freq1024 => 1024,
    }
}

/// The clock-select field value for each prescale mode.
///
/// This is a hardware-defined lookup table taken from the chip's datasheet,
/// not a formula: the encoding is not monotonic across the variants and must
/// not be "tidied up".
pub open spec fn clock_select_bits(mode: PrescaleMode) -> u8 {
    match mode {
        PrescaleMode::Direct => 0,
        PrescaleMode::Freq8 => 1,
        PrescaleMode::Freq64 => 2,
        PrescaleMode::Freq256 => 1,
        PrescaleMode::Freq1024 => 5,
    }
}

/// Every divisor is positive, so dividing the system clock by it is defined.
pub proof fn lemma_divisor_positive(mode: PrescaleMode)
    ensures
        divisor(mode) >= 1,
{
}

/// Hardware clock-select bit pattern for the given prescale mode.
pub fn to_bits(mode: PrescaleMode) -> (r: u8)
    ensures
        r == clock_select_bits(mode),
{
    match mode {
        PrescaleMode::Direct => 0b000,
        PrescaleMode::Freq8 => 0b01,
        PrescaleMode::Freq64 => 2,
        PrescaleMode::Freq256 => 1,
        PrescaleMode::Freq1024 => 0b101,
    }
}

/// Arithmetic prescale divisor for the given mode: one of 1, 8, 64, 256, 1024.
pub fn to_factor(mode: PrescaleMode) -> (r: u16)
    ensures
        r as int == divisor(mode),
{
    match mode {
        PrescaleMode::Direct => 1,
        PrescaleMode::Freq8 => 8,
        PrescaleMode::Freq64 => 64,
        PrescaleMode::Freq256 => 256,
        PrescaleMode::Freq1024 => 1024,
    }
}

} // verus!
