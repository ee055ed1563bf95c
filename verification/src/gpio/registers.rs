//! Model of one GPIO port's register block.
//!
//! The hardware exposes, per port: a `SET` register (writing a 1 bit forces
//! that pin's latched output level high), a `CLEAR` register (forces it low),
//! a `DIRECTION_OUT` / `DIRECTION_IN` register pair (writing a 1 bit marks
//! the pin as output / input), a read-only `STATE` register (the current
//! logic level on the pad), and two port-wide pad-configuration registers
//! packing one 2-bit field per pin: the pull selection and the pad-function
//! selection.
//!
//! [`PortRegisters`] holds the latched value of each of these words together
//! with the externally driven input levels, and records every write in a
//! trace, so that callers and tests can observe both the final register
//! contents and the exact order of the writes that produced them.

use vstd::prelude::*;
use crate::gpio::valid_port;

verus! {

/// The word a read of the `STATE` register returns: pins in output
/// direction read back their latched output level, all other pins the level
/// driven from outside.
pub open spec fn spec_state_word(regs: PortRegisters) -> u32 {
    (regs.direction & regs.output) | (!regs.direction & regs.external)
}

/// One write accepted by the port's register bus, with the word that was
/// written.
#[derive(Debug, PartialEq, Eq, Clone, Copy, Structural)]
pub enum RegWrite {
    /// Write to the `SET` register: each 1 bit forces that pin high.
    LevelSet(u32),
    /// Write to the `CLEAR` register: each 1 bit forces that pin low.
    LevelClear(u32),
    /// Write to the `DIRECTION_OUT` register: each 1 bit marks that pin as
    /// an output.
    DirectionOut(u32),
    /// Write to the `DIRECTION_IN` register: each 1 bit marks that pin as an
    /// input.
    DirectionIn(u32),
    /// Whole-word write to the pull-selection pad-configuration register.
    PadPupd(u32),
    /// Whole-word write to the function-selection pad-configuration register.
    PadCfg(u32),
}

/// The register block of one GPIO port, as the driver sees it.
///
/// `output` is the latched output level of every pin, `direction` holds a 1
/// bit for every pin driven as an output, and `external` is the level the
/// outside world drives onto pins that are not outputs. `pad_pupd` and
/// `pad_cfg` pack one 2-bit field per pin. `trace` records every write in
/// order.
pub struct PortRegisters {
    /// Identifier of the port this block belongs to.
    pub port: u8,
    /// Latched output level, one bit per pin.
    pub output: u32,
    /// Direction word: bit set means the pin drives its latched output.
    pub direction: u32,
    /// Levels driven from outside the chip, seen by pins in input direction.
    pub external: u32,
    /// Pull selection, one 2-bit field per pin.
    pub pad_pupd: u32,
    /// Pad-function selection, one 2-bit field per pin.
    pub pad_cfg: u32,
    /// Every write this block has accepted, oldest first.
    pub trace: Vec<RegWrite>,
}

impl PortRegisters {
    /// A port register block in its reset state: every pin an input with a
    /// low latched level, floating pull, default function, nothing written
    /// yet.
    pub fn new(port: u8) -> (r: PortRegisters)
        requires
            valid_port(port),
        ensures
            r.port == port,
            r.output == 0u32,
            r.direction == 0u32,
            r.external == 0u32,
            r.pad_pupd == 0u32,
            r.pad_cfg == 0u32,
            r.trace@ =~= Seq::<RegWrite>::empty(),
    {
        PortRegisters {
            port,
            output: 0,
            direction: 0,
            external: 0,
            pad_pupd: 0,
            pad_cfg: 0,
            trace: Vec::new(),
        }
    }

    /// Write to the `SET` register: every 1 bit of `bits` forces that pin's
    /// latched output high; 0 bits leave their pins alone.
    pub fn write_set(&mut self, bits: u32)
        ensures
            final(self).output == old(self).output | bits,
            final(self).trace@ == old(self).trace@.push(RegWrite::LevelSet(bits)),
            same_but_output_and_trace(*old(self), *final(self)),
    {
        self.output = self.output | bits;
        self.trace.push(RegWrite::LevelSet(bits));
    }

    /// Write to the `CLEAR` register: every 1 bit of `bits` forces that
    /// pin's latched output low; 0 bits leave their pins alone.
    pub fn write_clear(&mut self, bits: u32)
        ensures
            final(self).output == old(self).output & !bits,
            final(self).trace@ == old(self).trace@.push(RegWrite::LevelClear(bits)),
            same_but_output_and_trace(*old(self), *final(self)),
    {
        self.output = self.output & !bits;
        self.trace.push(RegWrite::LevelClear(bits));
    }

    /// Write to the `DIRECTION_OUT` register: every 1 bit of `bits` switches
    /// that pin to output direction; 0 bits leave their pins alone.
    pub fn write_direction_out(&mut self, bits: u32)
        ensures
            final(self).direction == old(self).direction | bits,
            final(self).trace@ == old(self).trace@.push(RegWrite::DirectionOut(bits)),
            same_but_direction_and_trace(*old(self), *final(self)),
    {
        self.direction = self.direction | bits;
        self.trace.push(RegWrite::DirectionOut(bits));
    }

    /// Write to the `DIRECTION_IN` register: every 1 bit of `bits` switches
    /// that pin to input direction; 0 bits leave their pins alone.
    pub fn write_direction_in(&mut self, bits: u32)
        ensures
            final(self).direction == old(self).direction & !bits,
            final(self).trace@ == old(self).trace@.push(RegWrite::DirectionIn(bits)),
            same_but_direction_and_trace(*old(self), *final(self)),
    {
        self.direction = self.direction & !bits;
        self.trace.push(RegWrite::DirectionIn(bits));
    }

    /// Whole-word write to the pull-selection pad-configuration register.
    pub fn write_pad_pupd(&mut self, word: u32)
        ensures
            final(self).pad_pupd == word,
            final(self).trace@ == old(self).trace@.push(RegWrite::PadPupd(word)),
            same_but_pad_pupd_and_trace(*old(self), *final(self)),
    {
        self.pad_pupd = word;
        self.trace.push(RegWrite::PadPupd(word));
    }

    /// Whole-word write to the function-selection pad-configuration
    /// register.
    pub fn write_pad_cfg(&mut self, word: u32)
        ensures
            final(self).pad_cfg == word,
            final(self).trace@ == old(self).trace@.push(RegWrite::PadCfg(word)),
            same_but_pad_cfg_and_trace(*old(self), *final(self)),
    {
        self.pad_cfg = word;
        self.trace.push(RegWrite::PadCfg(word));
    }

    /// Read of the latched output register.
    pub fn read_output(&self) -> (r: u32)
        ensures
            r == self.output,
    {
        self.output
    }

    /// Read of the `STATE` register: pins in output direction read back
    /// their latched level, the others the externally driven one.
    pub fn read_state(&self) -> (r: u32)
        ensures
            r == spec_state_word(*self),
    {
        (self.direction & self.output) | (!self.direction & self.external)
    }

    /// Read of the pull-selection pad-configuration register.
    pub fn read_pad_pupd(&self) -> (r: u32)
        ensures
            r == self.pad_pupd,
    {
        self.pad_pupd
    }

    /// Read of the function-selection pad-configuration register.
    pub fn read_pad_cfg(&self) -> (r: u32)
        ensures
            r == self.pad_cfg,
    {
        self.pad_cfg
    }
}

/// Clock-gate bit of the first 16-pin GPIO port in the power manager's
/// peripheral-clock register.
pub const CLK_GPIO_0: u32 = 0x1000;

/// Clock-gate bit of the second 16-pin GPIO port.
pub const CLK_GPIO_1: u32 = 0x2000;

/// Clock-gate bit of the 8-pin GPIO port.
pub const CLK_GPIO_2: u32 = 0x4000;

/// Model of the power manager's peripheral-bus clock-gate register: one
/// enable bit per peripheral; a peripheral's registers respond only while
/// its bit is set.
pub struct ClockControl {
    /// Enable bits of the peripherals on the peripheral bus.
    pub clk_apb_p: u32,
}

impl ClockControl {
    /// The clock-gate register in its reset state: every gate closed.
    pub fn new() -> (r: ClockControl)
        ensures
            r.clk_apb_p == 0u32,
    {
        ClockControl { clk_apb_p: 0 }
    }

    /// Open the clock gates named by the 1 bits of `bits`; gates already
    /// open stay open.
    pub fn enable(&mut self, bits: u32)
        ensures
            final(self).clk_apb_p == old(self).clk_apb_p | bits,
    {
        self.clk_apb_p = self.clk_apb_p | bits;
    }
}

/// Everything except the latched output word and the trace is unchanged.
pub open spec fn same_but_output_and_trace(pre: PortRegisters, post: PortRegisters) -> bool {
    &&& post.port == pre.port
    &&& post.direction == pre.direction
    &&& post.external == pre.external
    &&& post.pad_pupd == pre.pad_pupd
    &&& post.pad_cfg == pre.pad_cfg
}

/// Everything except the direction word and the trace is unchanged.
pub open spec fn same_but_direction_and_trace(pre: PortRegisters, post: PortRegisters) -> bool {
    &&& post.port == pre.port
    &&& post.output == pre.output
    &&& post.external == pre.external
    &&& post.pad_pupd == pre.pad_pupd
    &&& post.pad_cfg == pre.pad_cfg
}

/// Everything except the pull-selection word and the trace is unchanged.
pub open spec fn same_but_pad_pupd_and_trace(pre: PortRegisters, post: PortRegisters) -> bool {
    &&& post.port == pre.port
    &&& post.output == pre.output
    &&& post.direction == pre.direction
    &&& post.external == pre.external
    &&& post.pad_cfg == pre.pad_cfg
}

/// Everything except the function-selection word and the trace is unchanged.
pub open spec fn same_but_pad_cfg_and_trace(pre: PortRegisters, post: PortRegisters) -> bool {
    &&& post.port == pre.port
    &&& post.output == pre.output
    &&& post.direction == pre.direction
    &&& post.external == pre.external
    &&& post.pad_pupd == pre.pad_pupd
}

} // verus!
