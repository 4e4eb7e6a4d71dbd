use pwm_timer::frequency::{play_note, top_for_frequency, FrequencyError, SYSTEM_CLOCK_HZ};
use pwm_timer::prescale::{to_bits, to_factor, PrescaleMode};
use pwm_timer::registers::TimerRegisters;
use pwm_timer::timer::{configure, Pin, PinMode};

fn zeroed_registers() -> TimerRegisters {
    TimerRegisters { tccr1a: 0, tccr1b: 0, ocr1a: 0, ocr1b: 0 }
}

#[test]
fn divisor_table_is_total() {
    assert_eq!(to_factor(PrescaleMode::Direct), 1);
    assert_eq!(to_factor(PrescaleMode::Freq8), 8);
    assert_eq!(to_factor(PrescaleMode::Freq64), 64);
    assert_eq!(to_factor(PrescaleMode::Freq256), 256);
    assert_eq!(to_factor(PrescaleMode::Freq1024), 1024);
}

#[test]
fn clock_select_table_is_not_monotonic() {
    assert_eq!(to_bits(PrescaleMode::Direct), 0b000);
    assert_eq!(to_bits(PrescaleMode::Freq8), 0b001);
    assert_eq!(to_bits(PrescaleMode::Freq64), 0b010);
    assert_eq!(to_bits(PrescaleMode::Freq256), 0b001);
    assert_eq!(to_bits(PrescaleMode::Freq1024), 0b101);
}

#[test]
fn top_for_concert_pitch() {
    // 16_000_000 / 1024 = 15625; 15625 / 440 = 35; 35 - 1 = 34.
    assert_eq!(
        top_for_frequency(440, PrescaleMode::Freq1024, 16_000_000),
        Ok(34)
    );
}

#[test]
fn top_non_increasing_in_frequency() {
    let mut previous: u16 = u16::MAX;
    for hz in [100u32, 220, 440, 441, 880, 1760, 15625] {
        let top: u16 = top_for_frequency(hz, PrescaleMode::Freq1024, 16_000_000).unwrap();
        assert!(top <= previous);
        previous = top;
    }
}

#[test]
fn top_at_timer_clock_is_zero() {
    // The prescaled timer clock is 16_000_000 / 1024 = 15625 Hz.
    assert_eq!(
        top_for_frequency(15625, PrescaleMode::Freq1024, 16_000_000),
        Ok(0)
    );
}

#[test]
fn frequency_above_timer_clock_is_rejected() {
    assert_eq!(
        top_for_frequency(15626, PrescaleMode::Freq1024, 16_000_000),
        Err(FrequencyError::FrequencyTooHigh)
    );
}

#[test]
fn zero_frequency_is_rejected() {
    assert_eq!(
        top_for_frequency(0, PrescaleMode::Freq1024, 16_000_000),
        Err(FrequencyError::ZeroFrequency)
    );
}

#[test]
fn frequency_below_register_range_is_rejected() {
    // Direct prescale: 16_000_000 / 100 - 1 = 159_999, beyond 16 bits.
    assert_eq!(
        top_for_frequency(100, PrescaleMode::Direct, 16_000_000),
        Err(FrequencyError::FrequencyTooLow)
    );
}

#[test]
fn configure_sets_mode_and_compare_registers() {
    let timer = configure(
        zeroed_registers(),
        Pin::new_floating(),
        PrescaleMode::Freq1024,
        255,
    );
    // Waveform mode 15 and compare-output mode 3 on zeroed control
    // registers, with clock-select pattern 0b101:
    // tccr1a = 0b1111_0011, tccr1b = 0b0001_1101.
    assert_eq!(timer.regs.tccr1a, 0xF3);
    assert_eq!(timer.regs.tccr1b, 0x1D);
    assert_eq!(timer.regs.ocr1a, 255);
    assert_eq!(timer.regs.ocr1b, 127);
    assert_eq!(timer.pin.mode, PinMode::DrivenOutput);
}

#[test]
fn configure_preserves_unrelated_control_bits() {
    let dirty = TimerRegisters { tccr1a: 0b0000_1100, tccr1b: 0b1110_0000, ocr1a: 7, ocr1b: 9 };
    let timer = configure(dirty, Pin::new_floating(), PrescaleMode::Freq1024, 255);
    // Bits 3:2 of tccr1a and bits 7:5 of tccr1b belong to other timer
    // features and must survive configuration untouched.
    assert_eq!(timer.regs.tccr1a, 0xFF);
    assert_eq!(timer.regs.tccr1b, 0xFD);
}

#[test]
fn set_top_leaves_duty_register_alone() {
    let mut timer = configure(
        zeroed_registers(),
        Pin::new_floating(),
        PrescaleMode::Freq1024,
        200,
    );
    assert_eq!(timer.regs.ocr1b, 100);
    timer.set_top(34);
    assert_eq!(timer.regs.ocr1a, 34);
    // The duty register still holds the value the configuration step wrote.
    assert_eq!(timer.regs.ocr1b, 100);
}

#[test]
fn set_top_is_idempotent() {
    let mut once = configure(
        zeroed_registers(),
        Pin::new_floating(),
        PrescaleMode::Freq64,
        255,
    );
    let mut twice = once;
    once.set_top(1234);
    twice.set_top(1234);
    twice.set_top(1234);
    assert_eq!(once, twice);
}

#[test]
fn set_top_accepts_any_sixteen_bit_value() {
    let mut timer = configure(
        zeroed_registers(),
        Pin::new_floating(),
        PrescaleMode::Direct,
        0,
    );
    timer.set_top(u16::MAX);
    assert_eq!(timer.regs.ocr1a, 65535);
}

#[test]
fn set_top_with_duty_halves_top() {
    let mut timer = configure(
        zeroed_registers(),
        Pin::new_floating(),
        PrescaleMode::Freq1024,
        0,
    );
    timer.set_top_with_duty(125);
    assert_eq!(timer.regs.ocr1a, 125);
    assert_eq!(timer.regs.ocr1b, 62);
}

#[test]
fn duty_sweep_writes_every_step() {
    let mut timer = configure(
        zeroed_registers(),
        Pin::new_floating(),
        PrescaleMode::Freq1024,
        255,
    );
    let mut writes: u32 = 0;
    for top in 0u16..126u16 {
        // The pin was driven by configuration and stays driven through
        // every write of the sweep.
        assert_eq!(timer.pin.mode, PinMode::DrivenOutput);
        timer.set_top_with_duty(top);
        writes += 1;
        assert_eq!(timer.regs.ocr1a, top);
        assert_eq!(timer.regs.ocr1b, top / 2);
    }
    assert_eq!(writes, 126);
}

#[test]
fn play_note_loads_top_for_the_note() {
    let mut timer = configure(
        zeroed_registers(),
        Pin::new_floating(),
        PrescaleMode::Freq1024,
        255,
    );
    let a4: u32 = 440;
    assert_eq!(play_note(a4, &mut timer, SYSTEM_CLOCK_HZ), Ok(()));
    assert_eq!(timer.regs.ocr1a, 34);
    // Tone generation writes TOP alone; the duty register keeps the value
    // configuration gave it.
    assert_eq!(timer.regs.ocr1b, 127);
}

#[test]
fn play_note_rejects_and_leaves_timer_unchanged() {
    let mut timer = configure(
        zeroed_registers(),
        Pin::new_floating(),
        PrescaleMode::Freq1024,
        255,
    );
    let before = timer;
    assert_eq!(
        play_note(20_000, &mut timer, SYSTEM_CLOCK_HZ),
        Err(FrequencyError::FrequencyTooHigh)
    );
    assert_eq!(timer, before);
}

#[test]
fn pin_transition_is_to_driven_output() {
    let pin = Pin::new_floating();
    assert_eq!(pin.mode, PinMode::FloatingInput);
    let driven = pin.into_output();
    assert_eq!(driven.mode, PinMode::DrivenOutput);
}
