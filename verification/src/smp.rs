//! What the bus asks of the processor core.
//!
//! The core holds no reference to the bus. It is handed the bus for the
//! length of each `run`, reaches memory through `read_u8` and `write_u8`, and
//! reports the cycles of each instruction through `cpu_cycles_callback`.

use vstd::prelude::*;
use crate::apu::Apu;
use crate::dsp::master_cycles;
use crate::dsp::Dsp;

verus! {

/// The registers of the core.
#[derive(Debug, Clone, Copy, PartialEq, Eq, Structural)]
pub struct SmpRegisters {
    pub pc: u16,
    pub a: u8,
    pub x: u8,
    pub y: u8,
    pub psw: u8,
    pub sp: u8,
}

pub trait Smp: Sized {
    /// What every method needs and keeps.
    spec fn inv(&self) -> bool;

    spec fn registers(&self) -> SmpRegisters;

    fn set_reg_pc(&mut self, value: u16)
        requires
            old(self).inv(),
        ensures
            final(self).inv(),
            final(self).registers() == (SmpRegisters { pc: value, ..old(self).registers() }),
    ;

    fn set_reg_a(&mut self, value: u8)
        requires
            old(self).inv(),
        ensures
            final(self).inv(),
            final(self).registers() == (SmpRegisters { a: value, ..old(self).registers() }),
    ;

    fn set_reg_x(&mut self, value: u8)
        requires
            old(self).inv(),
        ensures
            final(self).inv(),
            final(self).registers() == (SmpRegisters { x: value, ..old(self).registers() }),
    ;

    fn set_reg_y(&mut self, value: u8)
        requires
            old(self).inv(),
        ensures
            final(self).inv(),
            final(self).registers() == (SmpRegisters { y: value, ..old(self).registers() }),
    ;

    fn set_psw(&mut self, value: u8)
        requires
            old(self).inv(),
        ensures
            final(self).inv(),
            final(self).registers() == (SmpRegisters { psw: value, ..old(self).registers() }),
    ;

    fn set_reg_sp(&mut self, value: u8)
        requires
            old(self).inv(),
        ensures
            final(self).inv(),
            final(self).registers() == (SmpRegisters { sp: value, ..old(self).registers() }),
    ;

    /// Executes instructions until at least `cycle_budget` master cycles
    /// have been reported to the bus. Whatever the program does, it does
    /// through the bus: no sample leaves the queue, and those on it keep
    /// their order.
    fn run<D: Dsp>(&mut self, apu: &mut Apu<D>, cycle_budget: usize)
        requires
            old(self).inv(),
            old(apu).wf(),
        ensures
            final(self).inv(),
            final(apu).wf(),
            old(apu).dsp().stream().is_prefix_of(final(apu).dsp().stream()),
            final(apu).dsp().consumed() == old(apu).dsp().consumed(),
            master_cycles(final(apu).dsp()) >= master_cycles(old(apu).dsp()) + cycle_budget,
    ;
}

} // verus!
