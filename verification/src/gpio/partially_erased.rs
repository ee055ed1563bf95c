//! Partially erased pin.
//!
//! Same operation set and mode gating as [`Pin`], but the pin number is an
//! ordinary field fixed when the handle is constructed instead of a type
//! parameter, so same-mode pins of one port can live in a homogeneous
//! collection.

use vstd::prelude::*;
use core::marker::PhantomData;
use crate::gpio::registers::{
    same_but_output_and_trace, spec_state_word, PortRegisters, RegWrite,
};
use crate::gpio::{
    bit_set, pin_level, pin_mask, pin_ok, Input, Output, Pin, PinExt, PinState,
};

verus! {

/// Short alias kept for callers that prefer the abbreviated name.
pub type PEPin<const P: u8, MODE> = PartiallyErasedPin<P, MODE>;

/// Partially erased pin.
///
/// - `P` is the port identifier.
/// - `MODE` is one of the mode tags, exactly as on [`Pin`].
///
/// The pin number is validated once, at construction, against the port's
/// width; the operations then rely on it without revalidating, which the
/// well-formedness predicate [`PartiallyErasedPin::wf`] records.
pub struct PartiallyErasedPin<const P: u8, MODE> {
    i: u8,
    _mode: PhantomData<MODE>,
}

impl<const P: u8, MODE> PartiallyErasedPin<P, MODE> {
    /// The pin number fixed at construction.
    pub closed spec fn spec_pin_id(self) -> u8 {
        self.i
    }

    /// The port identifier carried by the handle's type.
    pub open spec fn spec_port_id(self) -> u8 {
        P
    }

    /// A handle is well formed when its port exists and its pin number lies
    /// below the port's width; every constructor establishes this.
    pub open spec fn wf(self) -> bool {
        pin_ok(P, self.spec_pin_id())
    }

    /// The one place the pin number is checked: a handle comes back only for
    /// a pin number below the port's width, and carries that number ever
    /// after.
    pub fn new(i: u8) -> (r: Option<Self>)
        ensures
            r is Some <==> pin_ok(P, i),
            r matches Some(pe) ==> pe.spec_pin_id() == i && pe.wf(),
    {
        if (P == 0 || P == 1 || P == 2) && i < (if P == 2 { 8 } else { 16 }) {
            Some(PartiallyErasedPin { i, _mode: PhantomData })
        } else {
            None
        }
    }
}

impl<const P: u8, const N: u8, MODE> Pin<P, N, MODE> {
    /// Erases the pin number from the type: the returned handle stands for
    /// the same physical pin, in the same mode, with the pin number stored
    /// as a field.
    pub fn erase(self) -> (r: PartiallyErasedPin<P, MODE>)
        requires
            pin_ok(P, N),
        ensures
            r.spec_pin_id() == N,
            r.wf(),
    {
        PartiallyErasedPin { i: N, _mode: PhantomData }
    }
}

/// A typed pin and a partially erased pin that stand for the same physical
/// pin agree on both identity accessors: `pin_id` and `port_id` return the
/// same values through either handle.
pub proof fn lemma_erased_identity<const P: u8, const N: u8, MODE>(
    pin: Pin<P, N, MODE>,
    pe: PartiallyErasedPin<P, MODE>,
)
    requires
        pe.spec_pin_id() == N,
    ensures
        pe.spec_pin_id() == pin.spec_pin_id(),
        pe.spec_port_id() == pin.spec_port_id(),
{
}

impl<const P: u8, MODE> PinExt for PartiallyErasedPin<P, MODE> {
    type Mode = MODE;

    fn pin_id(&self) -> (r: u8)
        ensures
            r == self.spec_pin_id(),
    {
        self.i
    }

    fn port_id(&self) -> (r: u8)
        ensures
            r == self.spec_port_id(),
    {
        P
    }
}

impl<const P: u8> PartiallyErasedPin<P, Output> {
    /// Force the pin's latched output level high with a single write to the
    /// `SET` register.
    pub fn set_high(&mut self, regs: &mut PortRegisters)
        requires
            old(self).wf(),
            old(regs).port == P,
        ensures
            *final(self) == *old(self),
            final(regs).output == old(regs).output | pin_mask(old(self).spec_pin_id()),
            final(regs).trace@ == old(regs).trace@.push(
                RegWrite::LevelSet(pin_mask(old(self).spec_pin_id())),
            ),
            same_but_output_and_trace(*old(regs), *final(regs)),
    {
        regs.write_set(1u32 << (self.i as u32));
    }

    /// Force the pin's latched output level low with a single write to the
    /// `CLEAR` register.
    pub fn set_low(&mut self, regs: &mut PortRegisters)
        requires
            old(self).wf(),
            old(regs).port == P,
        ensures
            *final(self) == *old(self),
            final(regs).output == old(regs).output & !pin_mask(old(self).spec_pin_id()),
            final(regs).trace@ == old(regs).trace@.push(
                RegWrite::LevelClear(pin_mask(old(self).spec_pin_id())),
            ),
            same_but_output_and_trace(*old(regs), *final(regs)),
    {
        regs.write_clear(1u32 << (self.i as u32));
    }

    /// The level the pin currently drives, read through the `STATE`
    /// register; for a pin in output direction that is its latched output
    /// level.
    pub fn get_state(&self, regs: &PortRegisters) -> (r: PinState)
        requires
            self.wf(),
            regs.port == P,
        ensures
            r == pin_level(spec_state_word(*regs), self.spec_pin_id()),
    {
        if self.is_set_low(regs) {
            PinState::Low
        } else {
            PinState::High
        }
    }

    /// Force the latched output level to `state`.
    pub fn set_state(&mut self, regs: &mut PortRegisters, state: PinState)
        requires
            old(self).wf(),
            old(regs).port == P,
        ensures
            *final(self) == *old(self),
            final(regs).output == (if state == PinState::High {
                old(regs).output | pin_mask(old(self).spec_pin_id())
            } else {
                old(regs).output & !pin_mask(old(self).spec_pin_id())
            }),
            final(regs).trace@ == old(regs).trace@.push(if state == PinState::High {
                RegWrite::LevelSet(pin_mask(old(self).spec_pin_id()))
            } else {
                RegWrite::LevelClear(pin_mask(old(self).spec_pin_id()))
            }),
            same_but_output_and_trace(*old(regs), *final(regs)),
    {
        match state {
            PinState::Low => self.set_low(regs),
            PinState::High => self.set_high(regs),
        }
    }

    /// True when the level read through the `STATE` register is high.
    pub fn is_set_high(&self, regs: &PortRegisters) -> (r: bool)
        requires
            self.wf(),
            regs.port == P,
        ensures
            r == bit_set(spec_state_word(*regs), self.spec_pin_id()),
    {
        !self.is_set_low(regs)
    }

    /// True when the level read through the `STATE` register is low.
    pub fn is_set_low(&self, regs: &PortRegisters) -> (r: bool)
        requires
            self.wf(),
            regs.port == P,
        ensures
            r == !bit_set(spec_state_word(*regs), self.spec_pin_id()),
    {
        regs.read_state() & (1u32 << (self.i as u32)) == 0
    }

    /// Read the pin's level and write back its opposite; meaningful for a
    /// pin in output direction, whose read returns the latched output level.
    pub fn toggle(&mut self, regs: &mut PortRegisters)
        requires
            old(self).wf(),
            old(regs).port == P,
            bit_set(old(regs).direction, old(self).spec_pin_id()),
        ensures
            *final(self) == *old(self),
            final(regs).output == old(regs).output ^ pin_mask(old(self).spec_pin_id()),
            final(regs).trace@ == old(regs).trace@.push(if bit_set(
                old(regs).output,
                old(self).spec_pin_id(),
            ) {
                RegWrite::LevelClear(pin_mask(old(self).spec_pin_id()))
            } else {
                RegWrite::LevelSet(pin_mask(old(self).spec_pin_id()))
            }),
            same_but_output_and_trace(*old(regs), *final(regs)),
    {
        let ghost w = regs.output;
        let ghost d = regs.direction;
        let ghost e = regs.external;
        let ghost i = self.i;
        let ghost m = pin_mask(i);
        proof {
            // With the direction bit set, the `STATE` read returns the
            // latched output bit, so the branch below keys off `w`.
            assert(((d & w) | (!d & e)) & (1u32 << (i as u32)) == w & (1u32 << (i as u32)))
                by (bit_vector)
                requires
                    d & (1u32 << (i as u32)) != 0,
            ;
        }
        if self.is_set_low(regs) {
            self.set_high(regs);
            proof {
                assert((w | m) == (w ^ m)) by (bit_vector)
                    requires
                        w & m == 0u32,
                ;
            }
        } else {
            self.set_low(regs);
            proof {
                assert((w & !m) == (w ^ m)) by (bit_vector)
                    requires
                        w & m != 0u32 && m == 1u32 << (i as u32),
                ;
            }
        }
    }
}

impl<const P: u8, MODE> PartiallyErasedPin<P, Input<MODE>> {
    /// True when the level on the pad is high.
    pub fn is_high(&self, regs: &PortRegisters) -> (r: bool)
        requires
            self.wf(),
            regs.port == P,
        ensures
            r == bit_set(spec_state_word(*regs), self.spec_pin_id()),
    {
        !self.is_low(regs)
    }

    /// True when the level on the pad is low.
    pub fn is_low(&self, regs: &PortRegisters) -> (r: bool)
        requires
            self.wf(),
            regs.port == P,
        ensures
            r == !bit_set(spec_state_word(*regs), self.spec_pin_id()),
    {
        regs.read_state() & (1u32 << (self.i as u32)) == 0
    }
}

} // verus!
