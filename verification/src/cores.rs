//! Two small cores to put on the bus: a signal processor that keeps its
//! register file and renders a ramp, and a processor that sleeps.
//!
//! They meet the contracts of `Dsp` and `Smp` with the least machinery, so
//! that the bus can run without a mixer or an instruction decoder behind it,
//! and what it renders can be told sample from sample.

use vstd::prelude::*;
use std::collections::VecDeque;
use crate::apu::Apu;
use crate::dsp::Dsp;
use crate::dsp::CYCLES_PER_SAMPLE;
use crate::smp::Smp;
use crate::smp::SmpRegisters;
use crate::spc::Spc;
use crate::spc::RAM_LEN;
use crate::spc::REG_LEN;

verus! {

/// The register that holds the high byte of the echo buffer's address.
pub const ECHO_START_REGISTER: u8 = 0x6d;

/// The register whose low four bits hold the echo delay, in units of 2 KiB
/// of echo buffer.
pub const ECHO_DELAY_REGISTER: u8 = 0x7d;

/// A signal processor that renders a ramp: each sample is one step above
/// the one before it on both channels, wrapping from the top of the range
/// to its bottom.
pub struct RampDsp {
    registers: [u8; REG_LEN],
    output_buffer: VecDeque<(i16, i16)>,
    cycles: usize,
    level: i16,
    stream: Ghost<Seq<(i16, i16)>>,
    consumed: Ghost<nat>,
}

/// The `count` samples of a ramp that starts at `level`.
pub open spec fn ramp(level: i16, count: nat) -> Seq<(i16, i16)>
    decreases count,
{
    if count == 0 {
        Seq::empty()
    } else {
        ramp(level, (count - 1) as nat).push(
            (wrapped_level(level + count - 1), wrapped_level(level + count - 1)),
        )
    }
}

/// A ramp is as long as the number of samples asked for.
pub proof fn lemma_ramp_len(level: i16, count: nat)
    ensures
        ramp(level, count).len() == count,
    decreases count,
{
    if count > 0 {
        lemma_ramp_len(level, (count - 1) as nat);
    }
}

/// `level` brought into the range of a sample.
pub open spec fn wrapped_level(level: int) -> i16 {
    ((level + 0x8000) % 0x10000 - 0x8000) as i16
}

impl RampDsp {
    /// A signal processor with cleared registers, an empty queue, and the
    /// ramp at zero.
    pub fn new() -> (dsp: RampDsp)
        ensures
            dsp.inv(),
            dsp.registers() == Seq::new(REG_LEN as nat, |i: int| 0u8),
            dsp.stream() == Seq::<(i16, i16)>::empty(),
            dsp.consumed() == 0,
            dsp.pending_cycles() == 0,
            dsp.level() == 0,
    {
        let dsp = RampDsp {
            registers: [0u8; REG_LEN],
            output_buffer: VecDeque::new(),
            cycles: 0,
            level: 0,
            stream: Ghost(Seq::empty()),
            consumed: Ghost(0),
        };
        proof {
            assert(dsp.registers@ =~= Seq::new(REG_LEN as nat, |i: int| 0u8));
            assert(dsp.output_buffer@ =~= dsp.stream@.skip(0));
        }
        dsp
    }

    /// The level of the next sample.
    pub closed spec fn level(&self) -> i16 {
        self.level
    }

    /// Queues the next sample of the ramp.
    fn emit(&mut self)
        requires
            old(self).queue_matches(),
        ensures
            final(self).queue_matches(),
            final(self).stream() == old(self).stream().push((old(self).level(), old(self).level())),
            final(self).consumed() == old(self).consumed(),
            final(self).level() == wrapped_level(old(self).level() + 1),
            final(self).registers() == old(self).registers(),
            final(self).cycles == old(self).cycles,
    {
        self.output_buffer.push_back((self.level, self.level));
        proof {
            self.stream@ = self.stream@.push((self.level, self.level));
            assert(self.output_buffer@ =~= self.stream@.skip(self.consumed@ as int));
        }
        self.level = self.level.wrapping_add(1);
    }

    /// The queue holds the part of the stream that has not been consumed.
    spec fn queue_matches(&self) -> bool {
        &&& self.consumed@ <= self.stream@.len()
        &&& self.output_buffer@ == self.stream@.skip(self.consumed@ as int)
    }
}

impl Dsp for RampDsp {
    closed spec fn inv(&self) -> bool {
        &&& self.cycles < CYCLES_PER_SAMPLE
        &&& self.queue_matches()
    }

    closed spec fn registers(&self) -> Seq<u8> {
        self.registers@
    }

    closed spec fn stream(&self) -> Seq<(i16, i16)> {
        self.stream@
    }

    closed spec fn consumed(&self) -> nat {
        self.consumed@
    }

    closed spec fn pending_cycles(&self) -> nat {
        self.cycles as nat
    }

    /// The register file is the register region of the snapshot.
    open spec fn holds_state_of(&self, spc: &Spc) -> bool {
        self.registers() == spc@.regs
    }

    open spec fn echo_start_address(&self) -> u16 {
        (self.registers()[ECHO_START_REGISTER as int] * 0x100) as u16
    }

    open spec fn echo_length(&self) -> i32 {
        ((self.registers()[ECHO_DELAY_REGISTER as int] % 16) * 0x800) as i32
    }

    proof fn lemma_inv(&self) {
    }

    /// Addresses from 128 on read the register 128 below.
    fn get_register(&self, address: u8) -> (value: u8)
        ensures
            value == self.registers()[(address % 128) as int],
    {
        assert(address & 0x7f == address % 128) by (bit_vector);
        self.registers[(address & 0x7f) as usize]
    }

    /// Writes to addresses from 128 on are ignored.
    fn set_register(&mut self, address: u8, value: u8)
        ensures
            final(self).level() == old(self).level(),
            address >= 128 ==> final(self).registers() == old(self).registers(),
    {
        if address < 128 {
            self.registers[address as usize] = value;
        }
    }

    /// Takes the register region of the snapshot as the register file. The
    /// queue and the ramp stay as they are.
    fn set_state(&mut self, spc: &Spc)
        ensures
            final(self).stream() == old(self).stream(),
            final(self).consumed() == old(self).consumed(),
            final(self).pending_cycles() == old(self).pending_cycles(),
            final(self).level() == old(self).level(),
    {
        self.registers = spc.regs;
    }

    /// Queues one sample for every 64 cycles received.
    fn cycles_callback(&mut self, ram: &[u8; RAM_LEN], num_cycles: usize)
        ensures
            final(self).registers() == old(self).registers(),
            final(self).pending_cycles() == (old(self).pending_cycles() + num_cycles)
                % CYCLES_PER_SAMPLE as int,
            final(self).stream() == old(self).stream() + ramp(
                old(self).level(),
                ((old(self).pending_cycles() + num_cycles) / CYCLES_PER_SAMPLE as int) as nat,
            ),
            final(self).level() == wrapped_level(
                old(self).level() + (old(self).pending_cycles() + num_cycles)
                    / CYCLES_PER_SAMPLE as int,
            ),
    {
        let whole: usize = num_cycles / CYCLES_PER_SAMPLE;
        let rest: usize = num_cycles % CYCLES_PER_SAMPLE;
        let mut made: usize = 0;
        while made < whole
            invariant
                made <= whole,
                self.cycles == old(self).cycles,
                self.registers == old(self).registers,
                self.queue_matches(),
                self.consumed() == old(self).consumed(),
                self.stream() == old(self).stream() + ramp(old(self).level(), made as nat),
                self.level() == wrapped_level(old(self).level() + made),
            decreases whole - made,
        {
            self.emit();
            made += 1;
            proof {
                assert(self.stream() =~= old(self).stream() + ramp(old(self).level(), made as nat));
            }
        }
        self.cycles += rest;
        if self.cycles >= CYCLES_PER_SAMPLE {
            self.cycles -= CYCLES_PER_SAMPLE;
            self.emit();
            proof {
                assert(self.stream() =~= old(self).stream() + ramp(
                    old(self).level(),
                    (whole + 1) as nat,
                ));
            }
        }
        proof {
            let count = ((old(self).pending_cycles() + num_cycles) / 64) as nat;
            assert(num_cycles == 64 * whole + rest);
            lemma_ramp_len(old(self).level(), count);
        }
    }

    /// Nothing is left to do: less than one sample's worth of cycles is ever
    /// pending.
    fn flush(&mut self, ram: &[u8; RAM_LEN])
        ensures
            *final(self) == *old(self),
    {
    }

    fn output_len(&self) -> (len: usize) {
        self.output_buffer.len()
    }

    fn pop_output(&mut self) -> (sample: (i16, i16))
        ensures
            final(self).level() == old(self).level(),
    {
        let popped: Option<(i16, i16)> = self.output_buffer.pop_front();
        proof {
            self.consumed@ = self.consumed@ + 1;
            assert(self.output_buffer@ =~= self.stream@.skip(self.consumed@ as int));
        }
        match popped {
            Some(sample) => sample,
            None => (0, 0),
        }
    }

    fn get_echo_start_address(&self) -> (address: u16) {
        let high: u16 = self.registers[ECHO_START_REGISTER as usize] as u16;
        high * 0x100
    }

    fn calculate_echo_length(&self) -> (length: i32) {
        let delay: u8 = self.registers[ECHO_DELAY_REGISTER as usize];
        assert(delay & 0x0f == delay % 16) by (bit_vector);
        (delay & 0x0f) as i32 * 0x800
    }
}

/// A processor that sleeps: it executes nothing, touches no memory, and lets
/// the clock run.
pub struct SleepingSmp {
    pub regs: SmpRegisters,
}

impl SleepingSmp {
    /// A sleeping processor with cleared registers.
    pub fn new() -> (smp: SleepingSmp)
        ensures
            smp.inv(),
            smp.registers() == (SmpRegisters { pc: 0, a: 0, x: 0, y: 0, psw: 0, sp: 0 }),
    {
        SleepingSmp { regs: SmpRegisters { pc: 0, a: 0, x: 0, y: 0, psw: 0, sp: 0 } }
    }
}

impl Smp for SleepingSmp {
    open spec fn inv(&self) -> bool {
        true
    }

    open spec fn registers(&self) -> SmpRegisters {
        self.regs
    }

    fn set_reg_pc(&mut self, value: u16) {
        self.regs.pc = value;
    }

    fn set_reg_a(&mut self, value: u8) {
        self.regs.a = value;
    }

    fn set_reg_x(&mut self, value: u8) {
        self.regs.x = value;
    }

    fn set_reg_y(&mut self, value: u8) {
        self.regs.y = value;
    }

    fn set_psw(&mut self, value: u8) {
        self.regs.psw = value;
    }

    fn set_reg_sp(&mut self, value: u8) {
        self.regs.sp = value;
    }

    /// Reports the whole budget to the bus in one step.
    fn run<D: Dsp>(&mut self, apu: &mut Apu<D>, cycle_budget: usize)
        ensures
            *final(self) == *old(self),
            final(apu)@ == old(apu)@.after_cycles(cycle_budget as nat),
    {
        apu.cpu_cycles_callback(cycle_budget);
    }
}

} // verus!
