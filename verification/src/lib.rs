//! Hardware-abstraction layer for the GPIO subsystem of a small RISC-V
//! microcontroller.
//!
//! The crate turns the raw, memory-mapped GPIO register blocks into typed,
//! ownership-checked pin handles: a pin's mode (input / output / serial
//! function) is part of the handle's type, so calling a mode-gated operation
//! on a pin in the wrong mode is a compile error rather than a runtime check.
//!
//! Every operation is specified and verified against an explicit model of the
//! port's register block ([`gpio::registers::PortRegisters`]): the handle
//! computes the register accesses, and the contracts pin down exactly which
//! bits each operation reads and writes.

pub mod gpio;
pub mod peripherals;
pub mod serial;
