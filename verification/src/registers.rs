//! The timer's control and compare registers, modeled as plain values, and
//! the partial-register updates the driver performs on them.
//!
//! The two 8-bit control registers are shared across unrelated timer
//! features, so every update here touches only the fields it means to change
//! and provably preserves every other bit.

use vstd::prelude::*;

use crate::prescale::{clock_select_bits, to_bits, PrescaleMode};

verus! {

/// The register state of the 16-bit timer.
///
/// `tccr1a` and `tccr1b` are the control registers; `ocr1a` holds TOP (the
/// counter value at which the timer resets, defining the PWM period) and
/// `ocr1b` the secondary compare value that makes the duty cycle visible.
#[derive(Copy, Clone, Debug, PartialEq, Eq, Structural)]
pub struct TimerRegisters {
    pub tccr1a: u8,
    pub tccr1b: u8,
    pub ocr1a: u16,
    pub ocr1b: u16,
}

/// Low half of the waveform-generation mode: bits 1:0 of control register A.
pub open spec fn wgm_bits_a(r: u8) -> u8 {
    r & 0x03
}

/// Compare-output mode for channel A: bits 7:6 of control register A.
pub open spec fn com1a_bits(r: u8) -> u8 {
    (r >> 6) & 0x03
}

/// Compare-output mode for channel B: bits 5:4 of control register A.
pub open spec fn com1b_bits(r: u8) -> u8 {
    (r >> 4) & 0x03
}

/// Bits 3:2 of control register A, which this driver never owns.
pub open spec fn reserved_bits_a(r: u8) -> u8 {
    (r >> 2) & 0x03
}

/// High half of the waveform-generation mode: bits 4:3 of control register B.
pub open spec fn wgm_bits_b(r: u8) -> u8 {
    (r >> 3) & 0x03
}

/// Clock-select field: bits 2:0 of control register B.
pub open spec fn cs_bits(r: u8) -> u8 {
    r & 0x07
}

/// Bits 7:5 of control register B, which this driver never owns.
pub open spec fn upper_bits_b(r: u8) -> u8 {
    (r >> 5) & 0x07
}

/// Select waveform-generation mode 15: fast PWM with TOP held in the primary
/// compare register. Sets both waveform-mode fields to 0b11 and preserves
/// every other bit of both control registers.
pub fn set_wgm_15(t: &mut TimerRegisters)
    ensures
        wgm_bits_a(final(t).tccr1a) == 0x03,
        com1a_bits(final(t).tccr1a) == com1a_bits(old(t).tccr1a),
        com1b_bits(final(t).tccr1a) == com1b_bits(old(t).tccr1a),
        reserved_bits_a(final(t).tccr1a) == reserved_bits_a(old(t).tccr1a),
        wgm_bits_b(final(t).tccr1b) == 0x03,
        cs_bits(final(t).tccr1b) == cs_bits(old(t).tccr1b),
        upper_bits_b(final(t).tccr1b) == upper_bits_b(old(t).tccr1b),
        final(t).ocr1a == old(t).ocr1a,
        final(t).ocr1b == old(t).ocr1b,
{
    let a: u8 = t.tccr1a;
    let b: u8 = t.tccr1b;
    t.tccr1a = a | 0x03;
    t.tccr1b = b | 0x18;
    proof {
        assert((a | 0x03) & 0x03 == 0x03 && ((a | 0x03) >> 6) & 0x03 == (a >> 6) & 0x03
            && ((a | 0x03) >> 4) & 0x03 == (a >> 4) & 0x03 && ((a | 0x03) >> 2) & 0x03 == (a >> 2)
            & 0x03) by (bit_vector);
        assert(((b | 0x18) >> 3) & 0x03 == 0x03 && (b | 0x18) & 0x07 == b & 0x07 && ((b | 0x18)
            >> 5) & 0x07 == (b >> 5) & 0x07) by (bit_vector);
    }
}

/// Select compare-output mode 3 on both channels: the output pin is set on
/// compare match and cleared at bottom (inverting polarity). Preserves the
/// waveform-mode field and every other bit of control register A.
pub fn set_com_3(t: &mut TimerRegisters)
    ensures
        com1a_bits(final(t).tccr1a) == 0x03,
        com1b_bits(final(t).tccr1a) == 0x03,
        wgm_bits_a(final(t).tccr1a) == wgm_bits_a(old(t).tccr1a),
        reserved_bits_a(final(t).tccr1a) == reserved_bits_a(old(t).tccr1a),
        final(t).tccr1b == old(t).tccr1b,
        final(t).ocr1a == old(t).ocr1a,
        final(t).ocr1b == old(t).ocr1b,
{
    let a: u8 = t.tccr1a;
    t.tccr1a = a | 0xF0;
    proof {
        assert(((a | 0xF0) >> 6) & 0x03 == 0x03 && ((a | 0xF0) >> 4) & 0x03 == 0x03 && (a | 0xF0)
            & 0x03 == a & 0x03 && ((a | 0xF0) >> 2) & 0x03 == (a >> 2) & 0x03) by (bit_vector);
    }
}

/// Load the clock-select field with the given mode's bit pattern. Preserves
/// the waveform-mode field and every other bit of control register B.
pub fn set_prescaler(t: &mut TimerRegisters, mode: PrescaleMode)
    ensures
        cs_bits(final(t).tccr1b) == clock_select_bits(mode),
        wgm_bits_b(final(t).tccr1b) == wgm_bits_b(old(t).tccr1b),
        upper_bits_b(final(t).tccr1b) == upper_bits_b(old(t).tccr1b),
        final(t).tccr1a == old(t).tccr1a,
        final(t).ocr1a == old(t).ocr1a,
        final(t).ocr1b == old(t).ocr1b,
{
    let selected: u8 = to_bits(mode);
    let b: u8 = t.tccr1b;
    t.tccr1b = (b & 0xF8) | selected;
    proof {
        assert(((b & 0xF8) | selected) & 0x07 == selected && (((b & 0xF8) | selected) >> 3) & 0x03
            == (b >> 3) & 0x03 && (((b & 0xF8) | selected) >> 5) & 0x07 == (b >> 5)
            & 0x07) by (bit_vector)
            requires
                selected < 8,
        ;
    }
}

/// Register state after a write of `top` to the primary compare register
/// alone: the next period boundary moves, everything else stays.
pub open spec fn set_top_spec(r: TimerRegisters, top: u16) -> TimerRegisters {
    TimerRegisters { ocr1a: top, ..r }
}

/// Overwrite TOP, the primary compare register. The secondary (duty)
/// register and both control registers are untouched. No bounds check is
/// made: the hardware register accepts any 16-bit value, and an out-of-range
/// TOP merely yields an out-of-range frequency.
pub fn write_top(t: &mut TimerRegisters, top: u16)
    ensures
        *final(t) == set_top_spec(*old(t), top),
{
    t.ocr1a = top;
}

/// Overwrite the secondary compare register, which sets the visible duty
/// cycle. Everything else is untouched.
pub fn write_duty(t: &mut TimerRegisters, duty: u16)
    ensures
        final(t).ocr1b == duty,
        final(t).ocr1a == old(t).ocr1a,
        final(t).tccr1a == old(t).tccr1a,
        final(t).tccr1b == old(t).tccr1b,
{
    t.ocr1b = duty;
}

/// Writing the same TOP twice leaves exactly the state one write leaves.
pub proof fn lemma_set_top_idempotent(r: TimerRegisters, top: u16)
    ensures
        set_top_spec(set_top_spec(r, top), top) == set_top_spec(r, top),
{
}

} // verus!
