//! The frequency translator: from a target output frequency and the active
//! prescale mode to the TOP value the timer must be loaded with.

use vstd::prelude::*;

use vstd::arithmetic::div_mod::{
    lemma_div_by_self, lemma_div_is_ordered, lemma_div_is_ordered_by_denominator,
    lemma_div_pos_is_pos,
};

use crate::prescale::{divisor, lemma_divisor_positive, to_factor, PrescaleMode};
use crate::registers::set_top_spec;
use crate::timer::ConfiguredTimer;

verus! {

/// The system clock frequency of the target board, in hertz.
pub const SYSTEM_CLOCK_HZ: u32 = 16_000_000;

/// The rate at which the prescaled timer counter ticks: the system clock
/// divided by the mode's divisor (integer division).
pub open spec fn spec_timer_clock(system_clock_hz: u32, mode: PrescaleMode) -> int {
    system_clock_hz as int / divisor(mode)
}

/// The TOP value whose period matches the target frequency:
/// `timer_clock / target - 1`. The `-1` corrects for the counter running
/// from 0 through TOP inclusive, TOP + 1 states per cycle.
pub open spec fn spec_top(
    target_frequency_hz: u32,
    mode: PrescaleMode,
    system_clock_hz: u32,
) -> int
    recommends
        target_frequency_hz > 0,
{
    spec_timer_clock(system_clock_hz, mode) / target_frequency_hz as int - 1
}

/// Why a target frequency has no representable TOP value.
#[derive(Copy, Clone, Debug, PartialEq, Eq, Structural)]
pub enum FrequencyError {
    /// A target of zero hertz has no finite period.
    ZeroFrequency,
    /// The target exceeds the prescaled timer clock, so even TOP = 0 (one
    /// tick per cycle) would be too slow; the subtraction would underflow.
    FrequencyTooHigh,
    /// The target is so low that its TOP would not fit in the 16-bit
    /// register.
    FrequencyTooLow,
}

/// Compute the TOP value that makes the timer oscillate at the target
/// frequency, or say exactly why none exists. Pure: no register is touched.
pub fn top_for_frequency(
    target_frequency_hz: u32,
    prescale_mode: PrescaleMode,
    system_clock_hz: u32,
) -> (r: Result<u16, FrequencyError>)
    ensures
        r is Ok <==> 1 <= target_frequency_hz as int <= spec_timer_clock(
            system_clock_hz,
            prescale_mode,
        ) && spec_top(target_frequency_hz, prescale_mode, system_clock_hz) <= 65535,
        r is Ok ==> r->Ok_0 as int == spec_top(target_frequency_hz, prescale_mode, system_clock_hz),
        r == Err::<u16, FrequencyError>(FrequencyError::ZeroFrequency) <==> target_frequency_hz
            == 0,
        r == Err::<u16, FrequencyError>(FrequencyError::FrequencyTooHigh)
            <==> target_frequency_hz as int > spec_timer_clock(system_clock_hz, prescale_mode),
        r == Err::<u16, FrequencyError>(FrequencyError::FrequencyTooLow) <==> 1
            <= target_frequency_hz as int <= spec_timer_clock(system_clock_hz, prescale_mode)
            && spec_top(target_frequency_hz, prescale_mode, system_clock_hz) > 65535,
{
    proof {
        lemma_divisor_positive(prescale_mode);
        lemma_div_pos_is_pos(system_clock_hz as int, divisor(prescale_mode));
    }
    let factor: u16 = to_factor(prescale_mode);
    let timer_clock: u32 = system_clock_hz / (factor as u32);
    if target_frequency_hz == 0 {
        return Err(FrequencyError::ZeroFrequency);
    }
    if target_frequency_hz > timer_clock {
        return Err(FrequencyError::FrequencyTooHigh);
    }
    proof {
        lemma_div_by_self(target_frequency_hz as int);
        lemma_div_is_ordered(
            target_frequency_hz as int,
            timer_clock as int,
            target_frequency_hz as int,
        );
    }
    let ticks: u32 = timer_clock / target_frequency_hz;
    let top_wide: u32 = ticks - 1;
    if top_wide > 65535 {
        return Err(FrequencyError::FrequencyTooLow);
    }
    Ok(top_wide as u16)
}

/// Load the timer with the TOP value for the target frequency. On a
/// rejected frequency nothing is written and the timer is unchanged; the
/// error says which bound was violated, exactly as `top_for_frequency`
/// reports it.
pub fn play_note(target_frequency_hz: u32, timer: &mut ConfiguredTimer, system_clock_hz: u32) -> (r:
    Result<(), FrequencyError>)
    ensures
        r is Ok <==> 1 <= target_frequency_hz as int <= spec_timer_clock(
            system_clock_hz,
            old(timer).mode,
        ) && spec_top(target_frequency_hz, old(timer).mode, system_clock_hz) <= 65535,
        r is Ok ==> final(timer).regs == set_top_spec(
            old(timer).regs,
            spec_top(target_frequency_hz, old(timer).mode, system_clock_hz) as u16,
        ),
        r is Err ==> *final(timer) == *old(timer),
        r == Err::<(), FrequencyError>(FrequencyError::ZeroFrequency) <==> target_frequency_hz
            == 0,
        r == Err::<(), FrequencyError>(FrequencyError::FrequencyTooHigh)
            <==> target_frequency_hz as int > spec_timer_clock(system_clock_hz, old(timer).mode),
        r == Err::<(), FrequencyError>(FrequencyError::FrequencyTooLow) <==> 1
            <= target_frequency_hz as int <= spec_timer_clock(system_clock_hz, old(timer).mode)
            && spec_top(target_frequency_hz, old(timer).mode, system_clock_hz) > 65535,
        final(timer).pin == old(timer).pin,
        final(timer).mode == old(timer).mode,
        old(timer).wf() ==> final(timer).wf(),
{
    let mode = timer.mode;
    match top_for_frequency(target_frequency_hz, mode, system_clock_hz) {
        Ok(top) => {
            timer.set_top(top);
            Ok(())
        },
        Err(e) => Err(e),
    }
}

/// For a fixed prescale mode and system clock, the TOP value is
/// monotonically non-increasing in the target frequency: a higher pitch
/// never yields a larger TOP.
pub proof fn lemma_top_monotonic_in_frequency(
    f_low: u32,
    f_high: u32,
    mode: PrescaleMode,
    system_clock_hz: u32,
)
    requires
        0 < f_low <= f_high,
    ensures
        spec_top(f_high, mode, system_clock_hz) <= spec_top(f_low, mode, system_clock_hz),
{
    lemma_divisor_positive(mode);
    lemma_div_pos_is_pos(system_clock_hz as int, divisor(mode));
    lemma_div_is_ordered_by_denominator(
        spec_timer_clock(system_clock_hz, mode),
        f_low as int,
        f_high as int,
    );
}

/// A target frequency exactly equal to the prescaled timer clock yields the
/// minimum TOP of zero: one counter tick per output cycle.
pub proof fn lemma_top_at_timer_clock(mode: PrescaleMode, system_clock_hz: u32)
    requires
        spec_timer_clock(system_clock_hz, mode) >= 1,
    ensures
        spec_top(spec_timer_clock(system_clock_hz, mode) as u32, mode, system_clock_hz) == 0,
{
    lemma_divisor_positive(mode);
    lemma_div_is_ordered_by_denominator(system_clock_hz as int, 1, divisor(mode));
    assert(system_clock_hz as int / 1 == system_clock_hz as int);
    lemma_div_by_self(spec_timer_clock(system_clock_hz, mode));
}

} // verus!
