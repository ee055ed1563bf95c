//! Mode transitions.
//!
//! Each `into_*` operation consumes the handle and returns a new one whose
//! type carries the pin's new mode, so two live handles can never disagree
//! about the mode of one physical pin. Any mode can be reached from any
//! other in a single transition.

use vstd::prelude::*;
use crate::gpio::registers::{PortRegisters, RegWrite};
use crate::gpio::{
    get_pad_field, pin_mask, pin_ok, set_pad_field, Floating, Input, Output, Pin, PullDown,
    PullUp, SerialMode, CFG_SERIAL, PUPD_FLOATING, PUPD_PULL_DOWN, PUPD_PULL_UP,
};

verus! {

impl<const P: u8, const N: u8, MODE> Pin<P, N, MODE> {
    /// Configures the pin to operate as a push-pull output pin.
    /// Initial state will be low: the level-setting write to the `CLEAR`
    /// register is issued strictly before the direction-setting write, so
    /// the pin can never glitch to a stale high level left in the output
    /// register.
    pub fn into_output(self, regs: &mut PortRegisters) -> (r: Pin<P, N, Output>)
        requires
            pin_ok(P, N),
            old(regs).port == P,
        ensures
            final(regs).output == old(regs).output & !pin_mask(N),
            final(regs).direction == old(regs).direction | pin_mask(N),
            final(regs).trace@ == old(regs).trace@.push(RegWrite::LevelClear(pin_mask(N))).push(
                RegWrite::DirectionOut(pin_mask(N)),
            ),
            final(regs).port == old(regs).port,
            final(regs).external == old(regs).external,
            final(regs).pad_pupd == old(regs).pad_pupd,
            final(regs).pad_cfg == old(regs).pad_cfg,
    {
        regs.write_clear(1u32 << (N as u32));
        regs.write_direction_out(1u32 << (N as u32));
        Pin::new()
    }

    /// Configures the pin to operate as a floating input pin: direction set
    /// to input, then the pin's own 2-bit pull field rewritten to the
    /// floating code with every other pin's field preserved bit-for-bit.
    pub fn into_floating_input(self, regs: &mut PortRegisters) -> (r: Pin<P, N, Input<Floating>>)
        requires
            pin_ok(P, N),
            old(regs).port == P,
        ensures
            final(regs).direction == old(regs).direction & !pin_mask(N),
            final(regs).pad_pupd == set_pad_field(old(regs).pad_pupd, N, PUPD_FLOATING),
            final(regs).trace@ == old(regs).trace@.push(RegWrite::DirectionIn(pin_mask(N))).push(
                RegWrite::PadPupd(set_pad_field(old(regs).pad_pupd, N, PUPD_FLOATING)),
            ),
            final(regs).port == old(regs).port,
            final(regs).output == old(regs).output,
            final(regs).external == old(regs).external,
            final(regs).pad_cfg == old(regs).pad_cfg,
    {
        self.set_pull_field(regs, PUPD_FLOATING);
        Pin::new()
    }

    /// Configures the pin to operate as a pulled-down input pin; the
    /// read-modify-write touches only this pin's 2-bit pull field.
    pub fn into_pull_down_input(self, regs: &mut PortRegisters) -> (r: Pin<P, N, Input<PullDown>>)
        requires
            pin_ok(P, N),
            old(regs).port == P,
        ensures
            final(regs).direction == old(regs).direction & !pin_mask(N),
            final(regs).pad_pupd == set_pad_field(old(regs).pad_pupd, N, PUPD_PULL_DOWN),
            final(regs).trace@ == old(regs).trace@.push(RegWrite::DirectionIn(pin_mask(N))).push(
                RegWrite::PadPupd(set_pad_field(old(regs).pad_pupd, N, PUPD_PULL_DOWN)),
            ),
            final(regs).port == old(regs).port,
            final(regs).output == old(regs).output,
            final(regs).external == old(regs).external,
            final(regs).pad_cfg == old(regs).pad_cfg,
    {
        self.set_pull_field(regs, PUPD_PULL_DOWN);
        Pin::new()
    }

    /// Configures the pin to operate as a pulled-up input pin; the
    /// read-modify-write touches only this pin's 2-bit pull field.
    pub fn into_pull_up_input(self, regs: &mut PortRegisters) -> (r: Pin<P, N, Input<PullUp>>)
        requires
            pin_ok(P, N),
            old(regs).port == P,
        ensures
            final(regs).direction == old(regs).direction & !pin_mask(N),
            final(regs).pad_pupd == set_pad_field(old(regs).pad_pupd, N, PUPD_PULL_UP),
            final(regs).trace@ == old(regs).trace@.push(RegWrite::DirectionIn(pin_mask(N))).push(
                RegWrite::PadPupd(set_pad_field(old(regs).pad_pupd, N, PUPD_PULL_UP)),
            ),
            final(regs).port == old(regs).port,
            final(regs).output == old(regs).output,
            final(regs).external == old(regs).external,
            final(regs).pad_cfg == old(regs).pad_cfg,
    {
        self.set_pull_field(regs, PUPD_PULL_UP);
        Pin::new()
    }

    /// Configures the pin to work for the serial port: direction set to
    /// input and the pin's 2-bit field of the pad-function register
    /// rewritten to the serial code, every other pin's field preserved.
    pub fn into_serial_port(self, regs: &mut PortRegisters) -> (r: Pin<P, N, SerialMode>)
        requires
            pin_ok(P, N),
            old(regs).port == P,
        ensures
            final(regs).direction == old(regs).direction & !pin_mask(N),
            final(regs).pad_cfg == set_pad_field(old(regs).pad_cfg, N, CFG_SERIAL),
            final(regs).trace@ == old(regs).trace@.push(RegWrite::DirectionIn(pin_mask(N))).push(
                RegWrite::PadCfg(set_pad_field(old(regs).pad_cfg, N, CFG_SERIAL)),
            ),
            final(regs).port == old(regs).port,
            final(regs).output == old(regs).output,
            final(regs).external == old(regs).external,
            final(regs).pad_pupd == old(regs).pad_pupd,
    {
        regs.write_direction_in(1u32 << (N as u32));
        let r = regs.read_pad_cfg();
        let mask: u32 = 0b11u32 << (2 * (N as u32));
        let value: u32 = CFG_SERIAL << (2 * (N as u32));
        regs.write_pad_cfg((r & !mask) | value);
        Pin::new()
    }

    /// Common part of the three input transitions: direction to input, then
    /// the read-modify-write of this pin's pull field to `code`.
    fn set_pull_field(&self, regs: &mut PortRegisters, code: u32)
        requires
            pin_ok(P, N),
            old(regs).port == P,
        ensures
            final(regs).direction == old(regs).direction & !pin_mask(N),
            final(regs).pad_pupd == set_pad_field(old(regs).pad_pupd, N, code),
            final(regs).trace@ == old(regs).trace@.push(RegWrite::DirectionIn(pin_mask(N))).push(
                RegWrite::PadPupd(set_pad_field(old(regs).pad_pupd, N, code)),
            ),
            final(regs).port == old(regs).port,
            final(regs).output == old(regs).output,
            final(regs).external == old(regs).external,
            final(regs).pad_cfg == old(regs).pad_cfg,
    {
        regs.write_direction_in(1u32 << (N as u32));
        let r = regs.read_pad_pupd();
        let mask: u32 = 0b11u32 << (2 * (N as u32));
        let value: u32 = code << (2 * (N as u32));
        regs.write_pad_pupd((r & !mask) | value);
    }
}

/// Pad-configuration writes are field-isolated: rewriting pin `n`'s 2-bit
/// field leaves the 2-bit field of every other pin `m` of the port
/// unchanged, and (for an in-range code) sets pin `n`'s field to exactly
/// that code.
pub proof fn lemma_pad_field_isolation(w: u32, n: u8, m: u8, code: u32)
    requires
        n < 16,
        m < 16,
        m != n,
        code < 4,
    ensures
        get_pad_field(set_pad_field(w, n, code), m) == get_pad_field(w, m),
        get_pad_field(set_pad_field(w, n, code), n) == code,
{
    assert(((w & !(3u32 << (2 * n as u32))) | (code << (2 * n as u32))) >> (2 * m as u32) & 3u32
        == (w >> (2 * m as u32)) & 3u32) by (bit_vector)
        requires
            n < 16 && m < 16 && m != n && code < 4,
    ;
    assert(((w & !(3u32 << (2 * n as u32))) | (code << (2 * n as u32))) >> (2 * n as u32) & 3u32
        == code) by (bit_vector)
        requires
            n < 16 && code < 4,
    ;
}

/// Rewriting the same pin's pad field twice forgets the intermediate code:
/// the word is exactly what a single write of the last code gives. In
/// particular, reconfiguring a floating pin to pull-up and back to floating
/// restores the pad register bit pattern that held before the round trip.
pub proof fn lemma_pad_field_overwrite(w: u32, n: u8, mid: u32, code: u32)
    requires
        n < 16,
        mid < 4,
    ensures
        set_pad_field(set_pad_field(w, n, mid), n, code) == set_pad_field(w, n, code),
{
    assert((((w & !(3u32 << (2 * n as u32))) | (mid << (2 * n as u32))) & !(3u32 << (2 * n
        as u32))) | (code << (2 * n as u32)) == (w & !(3u32 << (2 * n as u32))) | (code << (2 * n
        as u32))) by (bit_vector)
        requires
            n < 16 && mid < 4,
    ;
}

} // verus!
