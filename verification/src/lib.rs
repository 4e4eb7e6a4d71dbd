//! Driver logic for a 16-bit fast-PWM hardware timer.
//!
//! The timer generates a variable-duty-cycle square wave on one output pin.
//! Its behaviour is determined by a waveform-generation mode, a clock
//! prescaler, and a 16-bit TOP compare value. This crate holds the
//! configuration and frequency arithmetic: choosing register field values,
//! preserving unrelated register bits on partial writes, and translating a
//! target output frequency into the TOP value the counter must be loaded
//! with. The actual register writes to the memory-mapped peripheral are the
//! caller's concern; this crate computes and tracks the register state.

pub mod frequency;
pub mod prescale;
pub mod registers;
pub mod timer;
