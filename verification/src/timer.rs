//! The configured timer: one-time configuration into fast-PWM mode, and the
//! TOP/duty setters that remain available afterwards.

use vstd::prelude::*;

use crate::prescale::{clock_select_bits, PrescaleMode};
use crate::registers::{
    com1a_bits, com1b_bits, cs_bits, reserved_bits_a, set_com_3, set_prescaler, set_top_spec,
    set_wgm_15, upper_bits_b, wgm_bits_a, wgm_bits_b, write_duty, write_top, TimerRegisters,
};

verus! {

/// The drive state of the timer's output pin.
#[derive(Copy, Clone, Debug, PartialEq, Eq, Structural)]
pub enum PinMode {
    /// Undriven, high-impedance input: the reset state of the pin.
    FloatingInput,
    /// Driven output: the timer's waveform reaches the pin.
    DrivenOutput,
}

/// The timer's output pin.
#[derive(Copy, Clone, Debug, PartialEq, Eq, Structural)]
pub struct Pin {
    pub mode: PinMode,
}

impl Pin {
    /// A pin in its reset state, before any configuration.
    pub fn new_floating() -> (r: Pin)
        ensures
            r.mode == PinMode::FloatingInput,
    {
        Pin { mode: PinMode::FloatingInput }
    }

    /// Switch the pin into driven-output mode. Configuration makes this
    /// transition once, and it is one-way for the lifetime of the
    /// configuration: nothing here switches a pin back.
    pub fn into_output(self) -> (r: Pin)
        ensures
            r.mode == PinMode::DrivenOutput,
    {
        Pin { mode: PinMode::DrivenOutput }
    }
}

/// A timer that has been brought into its PWM-generating state. Only
/// `configure` creates one, so holding a `ConfiguredTimer` is the evidence
/// that configuration ran before any TOP write.
#[derive(Copy, Clone, Debug, PartialEq, Eq, Structural)]
pub struct ConfiguredTimer {
    /// The register state being maintained.
    pub regs: TimerRegisters,
    /// The output pin, driven for the lifetime of the configuration.
    pub pin: Pin,
    /// The prescale mode chosen at configuration time, immutable thereafter.
    pub mode: PrescaleMode,
}

impl ConfiguredTimer {
    /// The configured state every operation preserves: waveform-generation
    /// mode 15 (fast PWM, TOP in the primary compare register),
    /// compare-output mode 3 (inverting) on both channels, the clock-select
    /// field loaded with the chosen mode's pattern, and the pin driven.
    pub open spec fn wf(self) -> bool {
        &&& wgm_bits_a(self.regs.tccr1a) == 0x03
        &&& wgm_bits_b(self.regs.tccr1b) == 0x03
        &&& com1a_bits(self.regs.tccr1a) == 0x03
        &&& com1b_bits(self.regs.tccr1a) == 0x03
        &&& cs_bits(self.regs.tccr1b) == clock_select_bits(self.mode)
        &&& self.pin.mode == PinMode::DrivenOutput
    }

    /// Overwrite TOP alone. The secondary (duty) compare register, the
    /// control registers, the pin and the prescale mode are all untouched;
    /// in particular the duty register changes only when the configuration
    /// step or the duty-specific setter writes it. No bounds check is made:
    /// the hardware accepts any 16-bit TOP.
    pub fn set_top(&mut self, top: u16)
        ensures
            final(self).regs == set_top_spec(old(self).regs, top),
            final(self).pin == old(self).pin,
            final(self).mode == old(self).mode,
            old(self).wf() ==> final(self).wf(),
    {
        write_top(&mut self.regs, top);
    }

    /// Overwrite TOP and set the secondary compare register to `top / 2`
    /// (integer division), a 50% visible duty cycle: the variant of the TOP
    /// write that duty-cycle sweeps use.
    pub fn set_top_with_duty(&mut self, top: u16)
        ensures
            final(self).regs.ocr1a == top,
            final(self).regs.ocr1b == top / 2,
            final(self).regs.tccr1a == old(self).regs.tccr1a,
            final(self).regs.tccr1b == old(self).regs.tccr1b,
            final(self).pin == old(self).pin,
            final(self).mode == old(self).mode,
            old(self).wf() ==> final(self).wf(),
    {
        write_top(&mut self.regs, top);
        write_duty(&mut self.regs, top / 2);
    }
}

/// Bring the timer into its known PWM-generating state: waveform-generation
/// mode 15, compare-output mode 3, the given prescale mode, TOP at
/// `initial_top` with a 50% duty compare value, and the pin driven. Each
/// control-register update preserves the bits it does not own, so the two
/// preservation clauses below carry the caller's unrelated configuration
/// through unchanged.
pub fn configure(regs: TimerRegisters, pin: Pin, mode: PrescaleMode, initial_top: u16) -> (r:
    ConfiguredTimer)
    requires
        pin.mode == PinMode::FloatingInput,
    ensures
        r.wf(),
        r.mode == mode,
        r.regs.ocr1a == initial_top,
        r.regs.ocr1b == initial_top / 2,
        reserved_bits_a(r.regs.tccr1a) == reserved_bits_a(regs.tccr1a),
        upper_bits_b(r.regs.tccr1b) == upper_bits_b(regs.tccr1b),
{
    let mut t = regs;
    set_wgm_15(&mut t);
    set_com_3(&mut t);
    set_prescaler(&mut t, mode);
    write_top(&mut t, initial_top);
    write_duty(&mut t, initial_top / 2);
    let driven = pin.into_output();
    ConfiguredTimer { regs: t, pin: driven, mode }
}

} // verus!
