//! General purpose input / output.
//!
//! The central type is [`Pin`], a zero-sized handle for one physical pin,
//! whose type carries the port identifier `P`, the pin number `N` and the
//! current mode. All register arithmetic done on behalf of a pin is verified
//! against the register model in [`registers`].

use vstd::prelude::*;
use core::marker::PhantomData;
use crate::gpio::registers::{
    same_but_output_and_trace, spec_state_word, ClockControl, PortRegisters, RegWrite,
};

pub mod convert;
pub mod gpio16_0;
pub mod gpio8_2;
pub mod partially_erased;
pub mod registers;

pub use partially_erased::{PEPin, PartiallyErasedPin};

verus! {

/// Logic level of a pin: a value read from or written to the port registers,
/// never stored in a handle.
#[derive(Debug, PartialEq, Eq, Clone, Copy, Structural)]
pub enum PinState {
    /// Low pin state
    Low,
    /// High pin state
    High,
}

/// The port identifiers this device exposes: two 16-pin ports and one 8-pin
/// port.
pub open spec fn valid_port(p: u8) -> bool {
    p == 0 || p == 1 || p == 2
}

/// Number of pins of a port (meaningful only for valid ports).
pub open spec fn spec_port_width(p: u8) -> u8 {
    if p == 2 {
        8
    } else {
        16
    }
}

/// A pin number is legal when its port exists and the number lies below the
/// port's width.
pub open spec fn pin_ok(p: u8, n: u8) -> bool {
    valid_port(p) && n < spec_port_width(p)
}

/// The single bit a pin owns inside the word-sized level and direction
/// registers.
pub open spec fn pin_mask(n: u8) -> u32 {
    1u32 << (n as u32)
}

/// True when bit `n` of the register word `w` is set.
pub open spec fn bit_set(w: u32, n: u8) -> bool {
    w & pin_mask(n) != 0
}

/// The logic level encoded by bit `n` of a level register word.
pub open spec fn pin_level(w: u32, n: u8) -> PinState {
    if bit_set(w, n) {
        PinState::High
    } else {
        PinState::Low
    }
}

/// The 2-bit pad-configuration field of pin `n`, packed at bit `2 * n` of a
/// port-wide pad register word.
pub open spec fn get_pad_field(w: u32, n: u8) -> u32 {
    (w >> (2 * n as u32)) & 3u32
}

/// The pad register word after pin `n`'s 2-bit field is rewritten to `code`,
/// every other bit kept as it was.
pub open spec fn set_pad_field(w: u32, n: u8, code: u32) -> u32 {
    (w & !(3u32 << (2 * n as u32))) | (code << (2 * n as u32))
}

/// Pull-selection code: no pull resistor.
pub const PUPD_FLOATING: u32 = 0b00;

/// Pull-selection code: pull-up resistor.
pub const PUPD_PULL_UP: u32 = 0b01;

/// Pull-selection code: pull-down resistor.
pub const PUPD_PULL_DOWN: u32 = 0b10;

/// Pad-function code: the pin is handed to the serial peripheral.
pub const CFG_SERIAL: u32 = 0b01;

/// Extension trait to split a GPIO peripheral into independent pins.
pub trait GpioExt {
    /// The parts to split the GPIO into
    type Parts;

    /// Splits the GPIO block into independent pins, enabling the port's
    /// peripheral-bus clock gate on the way.
    fn split(self, pm: &mut ClockControl) -> Self::Parts;
}

/// Identity accessors shared by every kind of pin handle.
pub trait PinExt {
    /// The pin's current mode tag.
    type Mode;

    /// Return pin number
    fn pin_id(&self) -> u8;

    /// Return port number
    fn port_id(&self) -> u8;
}

/// Input mode (type state)
pub struct Input<MODE> {
    _mode: PhantomData<MODE>,
}

/// Floating input (type state)
pub struct Floating;

/// Pulled down input (type state)
pub struct PullDown;

/// Pulled up input (type state)
pub struct PullUp;

/// Output mode (type state)
pub struct Output;

/// Serial-function mode (type state): the pad is handed to a serial
/// peripheral.
pub struct SerialMode;

/// Generic pin type.
///
/// - `P` is the port identifier.
/// - `N` is the pin number within the port, below the port's width.
/// - `MODE` is one of the mode tags ([`Input`], [`Output`], [`SerialMode`]).
///
/// The handle is zero-sized: port, pin number and mode all live in the type,
/// so a collection of pins with different numbers needs
/// [`partially_erased::PartiallyErasedPin`] instead.
pub struct Pin<const P: u8, const N: u8, MODE = Input<Floating>> {
    _mode: PhantomData<MODE>,
}

impl<const P: u8, const N: u8, MODE> Pin<P, N, MODE> {
    /// The pin number carried by the handle's type.
    pub open spec fn spec_pin_id(self) -> u8 {
        N
    }

    /// The port identifier carried by the handle's type.
    pub open spec fn spec_port_id(self) -> u8 {
        P
    }

    pub(crate) fn new() -> (r: Self) {
        Pin { _mode: PhantomData }
    }

    /// Set the output of the pin regardless of its mode.
    /// Primarily used to set the output value of the pin
    /// before changing its mode to an output to avoid
    /// a short spike of an incorrect value
    fn _set_state(&mut self, regs: &mut PortRegisters, state: PinState)
        requires
            pin_ok(P, N),
            old(regs).port == P,
        ensures
            final(regs).output == (if state == PinState::High {
                old(regs).output | pin_mask(N)
            } else {
                old(regs).output & !pin_mask(N)
            }),
            final(regs).trace@ == old(regs).trace@.push(if state == PinState::High {
                RegWrite::LevelSet(pin_mask(N))
            } else {
                RegWrite::LevelClear(pin_mask(N))
            }),
            same_but_output_and_trace(*old(regs), *final(regs)),
    {
        match state {
            PinState::High => self._set_high(regs),
            PinState::Low => self._set_low(regs),
        }
    }

    fn _set_high(&mut self, regs: &mut PortRegisters)
        requires
            pin_ok(P, N),
            old(regs).port == P,
        ensures
            final(regs).output == old(regs).output | pin_mask(N),
            final(regs).trace@ == old(regs).trace@.push(RegWrite::LevelSet(pin_mask(N))),
            same_but_output_and_trace(*old(regs), *final(regs)),
    {
        regs.write_set(1u32 << (N as u32));
    }

    fn _set_low(&mut self, regs: &mut PortRegisters)
        requires
            pin_ok(P, N),
            old(regs).port == P,
        ensures
            final(regs).output == old(regs).output & !pin_mask(N),
            final(regs).trace@ == old(regs).trace@.push(RegWrite::LevelClear(pin_mask(N))),
            same_but_output_and_trace(*old(regs), *final(regs)),
    {
        regs.write_clear(1u32 << (N as u32));
    }

    fn _is_low(&self, regs: &PortRegisters) -> (r: bool)
        requires
            pin_ok(P, N),
            regs.port == P,
        ensures
            r == !bit_set(regs.output, N),
    {
        regs.read_output() & (1u32 << (N as u32)) == 0
    }
}

impl<const P: u8, const N: u8, MODE> PinExt for Pin<P, N, MODE> {
    type Mode = MODE;

    fn pin_id(&self) -> (r: u8)
        ensures
            r == self.spec_pin_id(),
    {
        N
    }

    fn port_id(&self) -> (r: u8)
        ensures
            r == self.spec_port_id(),
    {
        P
    }
}

impl<const P: u8, const N: u8> Pin<P, N, Output> {
    /// Force the pin's latched output level high with a single write to the
    /// `SET` register.
    pub fn set_high(&mut self, regs: &mut PortRegisters)
        requires
            pin_ok(P, N),
            old(regs).port == P,
        ensures
            final(regs).output == old(regs).output | pin_mask(N),
            final(regs).trace@ == old(regs).trace@.push(RegWrite::LevelSet(pin_mask(N))),
            same_but_output_and_trace(*old(regs), *final(regs)),
    {
        self._set_high(regs)
    }

    /// Force the pin's latched output level low with a single write to the
    /// `CLEAR` register.
    pub fn set_low(&mut self, regs: &mut PortRegisters)
        requires
            pin_ok(P, N),
            old(regs).port == P,
        ensures
            final(regs).output == old(regs).output & !pin_mask(N),
            final(regs).trace@ == old(regs).trace@.push(RegWrite::LevelClear(pin_mask(N))),
            same_but_output_and_trace(*old(regs), *final(regs)),
    {
        self._set_low(regs)
    }

    /// The level the pin's latched output register currently holds.
    pub fn get_state(&self, regs: &PortRegisters) -> (r: PinState)
        requires
            pin_ok(P, N),
            regs.port == P,
        ensures
            r == pin_level(regs.output, N),
    {
        if self.is_set_low(regs) {
            PinState::Low
        } else {
            PinState::High
        }
    }

    /// Force the latched output level to `state`.
    pub fn set_state(&mut self, regs: &mut PortRegisters, state: PinState)
        requires
            pin_ok(P, N),
            old(regs).port == P,
        ensures
            final(regs).output == (if state == PinState::High {
                old(regs).output | pin_mask(N)
            } else {
                old(regs).output & !pin_mask(N)
            }),
            final(regs).trace@ == old(regs).trace@.push(if state == PinState::High {
                RegWrite::LevelSet(pin_mask(N))
            } else {
                RegWrite::LevelClear(pin_mask(N))
            }),
            same_but_output_and_trace(*old(regs), *final(regs)),
            pin_level(final(regs).output, N) == state,
    {
        proof {
            lemma_level_write_readback(old(regs).output, N);
        }
        match state {
            PinState::Low => self.set_low(regs),
            PinState::High => self.set_high(regs),
        }
    }

    /// True when the latched output level is high.
    pub fn is_set_high(&self, regs: &PortRegisters) -> (r: bool)
        requires
            pin_ok(P, N),
            regs.port == P,
        ensures
            r == bit_set(regs.output, N),
    {
        !self.is_set_low(regs)
    }

    /// True when the latched output level is low.
    pub fn is_set_low(&self, regs: &PortRegisters) -> (r: bool)
        requires
            pin_ok(P, N),
            regs.port == P,
        ensures
            r == !bit_set(regs.output, N),
    {
        self._is_low(regs)
    }

    /// Read the latched output level and write back its opposite: the pin's
    /// output bit is inverted and every other bit is preserved.
    pub fn toggle(&mut self, regs: &mut PortRegisters)
        requires
            pin_ok(P, N),
            old(regs).port == P,
        ensures
            final(regs).output == old(regs).output ^ pin_mask(N),
            final(regs).trace@ == old(regs).trace@.push(if bit_set(old(regs).output, N) {
                RegWrite::LevelClear(pin_mask(N))
            } else {
                RegWrite::LevelSet(pin_mask(N))
            }),
            same_but_output_and_trace(*old(regs), *final(regs)),
    {
        let ghost w = regs.output;
        let ghost n: u8 = N;
        let ghost m = pin_mask(n);
        if self.is_set_low(regs) {
            self.set_high(regs);
            proof {
                assert((w | m) == (w ^ m)) by (bit_vector)
                    requires
                        w & m == 0u32,
                ;
            }
        } else {
            self.set_low(regs);
            proof {
                assert((w & !m) == (w ^ m)) by (bit_vector)
                    requires
                        w & m != 0u32 && m == 1u32 << (n as u32),
                ;
            }
        }
    }
}

impl<const P: u8, const N: u8, MODE> Pin<P, N, Input<MODE>> {
    /// True when the level on the pad is high.
    pub fn is_high(&self, regs: &PortRegisters) -> (r: bool)
        requires
            pin_ok(P, N),
            regs.port == P,
        ensures
            r == bit_set(spec_state_word(*regs), N),
    {
        !self.is_low(regs)
    }

    /// True when the level on the pad is low.
    pub fn is_low(&self, regs: &PortRegisters) -> (r: bool)
        requires
            pin_ok(P, N),
            regs.port == P,
        ensures
            r == !bit_set(spec_state_word(*regs), N),
    {
        regs.read_state() & (1u32 << (N as u32)) == 0
    }
}

/// Forcing a pin's bit high in a level word reads back as high, and forcing
/// it low reads back as low, whatever the word held before.
pub proof fn lemma_level_write_readback(w: u32, n: u8)
    requires
        n < 32,
    ensures
        pin_level(w | pin_mask(n), n) == PinState::High,
        pin_level(w & !pin_mask(n), n) == PinState::Low,
{
    assert((w | (1u32 << (n as u32))) & (1u32 << (n as u32)) != 0) by (bit_vector)
        requires
            n < 32,
    ;
    assert((w & !(1u32 << (n as u32))) & (1u32 << (n as u32)) == 0) by (bit_vector)
        requires
            n < 32,
    ;
}

/// For every port and pin: a pin just configured as an output reads back
/// low, forcing it high makes it read back high, and forcing it low again
/// makes it read back low — whatever the level word held before.
pub proof fn lemma_output_set_get_round(w: u32, n: u8)
    requires
        n < 32,
    ensures
        pin_level(w & !pin_mask(n), n) == PinState::Low,
        pin_level((w & !pin_mask(n)) | pin_mask(n), n) == PinState::High,
        pin_level(((w & !pin_mask(n)) | pin_mask(n)) & !pin_mask(n), n) == PinState::Low,
{
    lemma_level_write_readback(w, n);
    lemma_level_write_readback(w & !pin_mask(n), n);
    lemma_level_write_readback((w & !pin_mask(n)) | pin_mask(n), n);
}

/// Toggling has period two: inverting a pin's output bit twice restores the
/// whole level word, and with it the level the pin reads back.
pub proof fn lemma_toggle_involution(w: u32, n: u8)
    requires
        n < 32,
    ensures
        (w ^ pin_mask(n)) ^ pin_mask(n) == w,
        pin_level((w ^ pin_mask(n)) ^ pin_mask(n), n) == pin_level(w, n),
{
    assert((w ^ (1u32 << (n as u32))) ^ (1u32 << (n as u32)) == w) by (bit_vector);
}

/// The register-addressing scheme: maps a port identifier to the physical
/// base address of that port's register block.
pub struct Gpio<const P: u8>;

impl<const P: u8> Gpio<P> {
    /// Base address of port `P`'s register block. Defined for the statically
    /// known ports only: an unrecognized identifier is rejected at the call
    /// site instead of being aliased onto another port's registers.
    pub fn ptr() -> (r: usize)
        requires
            valid_port(P),
        ensures
            r == spec_port_base(P),
    {
        if P == 0 {
            0x0008_4000
        } else if P == 1 {
            0x0008_4400
        } else {
            0x0008_4800
        }
    }
}

/// The fixed port table: base address of each port's register block.
pub open spec fn spec_port_base(p: u8) -> usize
    recommends
        valid_port(p),
{
    if p == 0 {
        0x0008_4000
    } else if p == 1 {
        0x0008_4400
    } else {
        0x0008_4800
    }
}

} // verus!
