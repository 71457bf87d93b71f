//! The bus of the audio unit: 64 KiB of RAM, the boot ROM that shadows its
//! top 64 bytes, the register window into the signal processor, and the
//! three timers, all behind one 16-bit address space.

use vstd::prelude::*;
use crate::dsp::master_cycles;
use crate::dsp::queued;
use crate::dsp::Dsp;
use crate::dsp::CYCLES_PER_SAMPLE;
use crate::smp::Smp;
use crate::smp::SmpRegisters;
use crate::spc::Spc;
use crate::spc::SpcImage;
use crate::spc::RAM_LEN;
use crate::spc::IPL_ROM_LEN;
use crate::timer::Timer;
use crate::timer::TimerState;

verus! {

/// The boot program that a cold reset maps at the top of the address space.
pub const DEFAULT_IPL_ROM: [u8; IPL_ROM_LEN] = [
    0xcd, 0xef, 0xbd, 0xe8, 0x00, 0xc6, 0x1d, 0xd0, 0xfc, 0x8f, 0xaa, 0xf4, 0x8f, 0xbb, 0xf5, 0x78,
    0xcc, 0xf4, 0xd0, 0xfb, 0x2f, 0x19, 0xeb, 0xf4, 0xd0, 0xfc, 0x7e, 0xf4, 0xd0, 0x0b, 0xe4, 0xf5,
    0xcb, 0xf4, 0xd7, 0x00, 0xfc, 0xd0, 0xf3, 0xab, 0x01, 0x10, 0xef, 0x7e, 0xf4, 0x10, 0xeb, 0xba,
    0xf6, 0xda, 0x00, 0xba, 0xf4, 0xc4, 0xf4, 0xdd, 0x5d, 0xd0, 0xdb, 0x1f, 0x00, 0x00, 0xc0, 0xff,
];

/// The state of the bus, without the signal processor behind it.
pub struct ApuState {
    pub ram: Seq<u8>,
    pub ipl_rom: Seq<u8>,
    pub timers: Seq<TimerState>,
    pub ipl_rom_enabled: bool,
    pub dsp_reg_address: u8,
}

impl ApuState {
    pub open spec fn wf(self) -> bool {
        &&& self.ram.len() == RAM_LEN
        &&& self.ipl_rom.len() == IPL_ROM_LEN
        &&& self.timers.len() == 3
        &&& self.timers[0].wf()
        &&& self.timers[1].wf()
        &&& self.timers[2].wf()
    }

    /// The state after a cold reset.
    pub open spec fn reset() -> ApuState {
        ApuState {
            ram: Seq::new(RAM_LEN as nat, |i: int| 0u8),
            ipl_rom: DEFAULT_IPL_ROM@,
            timers: seq![TimerState::fresh(256), TimerState::fresh(256), TimerState::fresh(32)],
            ipl_rom_enabled: true,
            dsp_reg_address: 0,
        }
    }

    /// What a read of `address` returns, where `dsp_registers` is the
    /// register file of the signal processor.
    pub open spec fn read_value(self, address: u16, dsp_registers: Seq<u8>) -> u8 {
        if address == 0xf0 || address == 0xf1 {
            0
        } else if address == 0xf2 {
            self.dsp_reg_address
        } else if address == 0xf3 {
            dsp_registers[self.dsp_reg_address as int]
        } else if 0xfa <= address <= 0xfc {
            0
        } else if 0xfd <= address <= 0xff {
            self.timers[address - 0xfd].output() as u8
        } else if address >= 0xffc0 && self.ipl_rom_enabled {
            self.ipl_rom[address - 0xffc0]
        } else {
            self.ram[address as int]
        }
    }

    /// The state that a read of `address` leaves behind: reading a timer's
    /// counter clears it, and no other read changes anything.
    pub open spec fn after_read(self, address: u16) -> ApuState {
        if 0xfd <= address <= 0xff {
            let i = address - 0xfd;
            ApuState { timers: self.timers.update(i, self.timers[i].after_read()), ..self }
        } else {
            self
        }
    }

    /// The state after `value` is written to the control register.
    pub open spec fn after_control(self, value: u8) -> ApuState {
        let ram = if value & 0x20 != 0 {
            self.ram.update(0xf6, 0).update(0xf7, 0)
        } else {
            self.ram
        };
        let ram = if value & 0x10 != 0 {
            ram.update(0xf4, 0).update(0xf5, 0)
        } else {
            ram
        };
        ApuState {
            ram,
            ipl_rom_enabled: value & 0x80 != 0,
            timers: seq![
                self.timers[0].set_running(value & 0x01 != 0),
                self.timers[1].set_running(value & 0x02 != 0),
                self.timers[2].set_running(value & 0x04 != 0),
            ],
            ..self
        }
    }

    /// The state after `value` is written to `address`. A write to the
    /// register window goes to the signal processor and leaves the bus as it
    /// was.
    pub open spec fn after_write(self, address: u16, value: u8) -> ApuState {
        if address == 0xf0 || address == 0xf3 {
            self
        } else if address == 0xf1 {
            self.after_control(value)
        } else if address == 0xf2 {
            ApuState { dsp_reg_address: value, ..self }
        } else if 0xfa <= address <= 0xfc {
            let i = address - 0xfa;
            ApuState { timers: self.timers.update(i, self.timers[i].set_target(value)), ..self }
        } else if 0xfd <= address <= 0xff {
            self
        } else {
            ApuState { ram: self.ram.update(address as int, value), ..self }
        }
    }

    /// The state after the echo buffer, `length` bytes from `start` on and
    /// as far as RAM reaches, is filled with 0xff.
    pub open spec fn after_echo_clear(self, start: u16, length: i32) -> ApuState {
        ApuState {
            ram: Seq::new(
                RAM_LEN as nat,
                |i: int|
                    if start <= i < start + length {
                        0xffu8
                    } else {
                        self.ram[i]
                    },
            ),
            ..self
        }
    }

    /// The state that a snapshot restores: its RAM and boot ROM, the timer
    /// targets that its RAM holds at 0xfa to 0xfc, the effect of writing the
    /// byte at 0xf1 to the control register, and the byte at 0xf2 as the
    /// register address of the signal processor.
    pub open spec fn restored(image: SpcImage) -> ApuState {
        let loaded = ApuState { ram: image.ram, ipl_rom: image.ipl_rom, ..ApuState::reset() };
        let controlled = loaded.after_write(0xfa, image.ram[0xfa]).after_write(
            0xfb,
            image.ram[0xfb],
        ).after_write(0xfc, image.ram[0xfc]).after_control(image.ram[0xf1]);
        ApuState { dsp_reg_address: controlled.ram[0xf2], ..controlled }
    }

    /// The state after `n` master cycles.
    pub open spec fn after_cycles(self, n: nat) -> ApuState {
        ApuState {
            timers: seq![
                self.timers[0].advance(n),
                self.timers[1].advance(n),
                self.timers[2].advance(n),
            ],
            ..self
        }
    }
}

/// A byte written to RAM is read back: after a write to an address outside
/// the register page 0xf0 to 0xff, and outside the top 64 bytes while the
/// boot ROM is mapped there, a read of that address returns what was written.
pub proof fn lemma_write_then_read(s: ApuState, address: u16, value: u8, dsp_registers: Seq<u8>)
    requires
        s.wf(),
        !(0xf0 <= address <= 0xff),
        !(address >= 0xffc0 && s.ipl_rom_enabled),
    ensures
        s.after_write(address, value).read_value(address, dsp_registers) == value,
{
}

/// The test and control registers read as zero in every state, whatever was
/// written to them.
pub proof fn lemma_test_and_control_read_zero(s: ApuState, dsp_registers: Seq<u8>)
    ensures
        s.read_value(0xf0, dsp_registers) == 0,
        s.read_value(0xf1, dsp_registers) == 0,
{
}

/// The register address of the signal processor reads back as written.
pub proof fn lemma_dsp_address_reads_back(s: ApuState, value: u8, dsp_registers: Seq<u8>)
    ensures
        s.after_write(0xf2, value).read_value(0xf2, dsp_registers) == value,
{
}

/// A register of the signal processor written through the window at 0xf3
/// reads back through it: once `value` has replaced entry `address` of the
/// register file, that entry holds `value`.
pub proof fn lemma_dsp_window_reads_back<D: Dsp>(before: &D, after: &D, address: u8, value: u8)
    requires
        before.inv(),
        address < 128,
        after.registers() == before.registers().update(address as int, value),
    ensures
        after.registers()[address as int] == value,
{
    before.lemma_inv();
}

/// The counter of timer `i` is read at 0xfd + `i`. A write there changes
/// nothing. A read returns the low four bits of the high counter, which are
/// zero for a counter below 16 only when the counter is zero, and clears the
/// counter, so that a second read returns zero.
pub proof fn lemma_counter_reads(s: ApuState, i: int, value: u8, dsp_registers: Seq<u8>)
    requires
        s.wf(),
        0 <= i < 3,
    ensures
        ({
            let address = (0xfd + i) as u16;
            &&& s.after_write(address, value) == s
            &&& s.read_value(address, dsp_registers) == s.timers[i].counter_high % 16
            &&& s.timers[i].counter_high < 16 ==> (s.read_value(address, dsp_registers) == 0
                <==> s.timers[i].counter_high == 0)
            &&& s.after_read(address).read_value(address, dsp_registers) == 0
            &&& s.after_read(address).timers[i].counter_high == 0
        }),
{
}

/// Only a read of its own counter clears the high counter of timer `i`: no
/// write and no read of another address changes it.
pub proof fn lemma_counter_high_kept(s: ApuState, i: int, address: u16, value: u8)
    requires
        s.wf(),
        0 <= i < 3,
    ensures
        s.after_write(address, value).timers[i].counter_high == s.timers[i].counter_high,
        address != 0xfd + i ==> s.after_read(address).timers[i].counter_high
            == s.timers[i].counter_high,
        s.after_control(value).timers[i].counter_high == s.timers[i].counter_high,
{
}

/// A write to the control register with bit 7 clear unmaps the boot ROM: the
/// top 64 bytes then read from RAM, which the write has not changed there.
pub proof fn lemma_unmapped_rom_reads_ram(
    s: ApuState,
    value: u8,
    address: u16,
    dsp_registers: Seq<u8>,
)
    requires
        s.wf(),
        address >= 0xffc0,
    ensures
        ({
            let after = s.after_write(0xf1, value & !0x80u8);
            &&& !after.ipl_rom_enabled
            &&& after.read_value(address, dsp_registers) == after.ram[address as int]
            &&& after.ram[address as int] == s.ram[address as int]
        }),
{
    assert((value & !0x80u8) & 0x80 == 0) by (bit_vector);
}

/// For how many master cycles the processor runs at a time to render
/// `samples` samples: 64 for each, or as many as `usize` can count where that
/// is less.
pub open spec fn render_budget(samples: nat) -> nat {
    if samples * CYCLES_PER_SAMPLE <= usize::MAX {
        samples * CYCLES_PER_SAMPLE as nat
    } else {
        usize::MAX as nat
    }
}

/// The bus, with the signal processor `D` behind it. The processor core is
/// no part of it: it is handed the bus for as long as it runs.
pub struct Apu<D: Dsp> {
    ram: Box<[u8; RAM_LEN]>,
    ipl_rom: [u8; IPL_ROM_LEN],
    dsp: D,
    timers: [Timer; 3],
    is_ipl_rom_enabled: bool,
    dsp_reg_address: u8,
}

impl<D: Dsp> View for Apu<D> {
    type V = ApuState;

    closed spec fn view(&self) -> ApuState {
        ApuState {
            ram: self.ram@,
            ipl_rom: self.ipl_rom@,
            timers: seq![self.timers[0]@, self.timers[1]@, self.timers[2]@],
            ipl_rom_enabled: self.is_ipl_rom_enabled,
            dsp_reg_address: self.dsp_reg_address,
        }
    }
}

impl<D: Dsp> Apu<D> {
    /// The signal processor behind the bus.
    pub closed spec fn spec_dsp(&self) -> &D {
        &self.dsp
    }

    /// The signal processor behind the bus.
    #[verifier::when_used_as_spec(spec_dsp)]
    pub fn dsp(&self) -> (dsp: &D)
        ensures
            dsp == self.spec_dsp(),
    {
        &self.dsp
    }

    /// What every method needs and keeps.
    pub open spec fn wf(&self) -> bool {
        &&& self@.wf()
        &&& self.dsp().inv()
    }

    /// A bus in its cold-reset state, in front of `dsp`.
    pub fn new(dsp: D) -> (apu: Apu<D>)
        requires
            dsp.inv(),
        ensures
            apu.wf(),
            apu@ == ApuState::reset(),
            *apu.dsp() == dsp,
    {
        let apu = Apu {
            ram: Box::new([0u8; RAM_LEN]),
            ipl_rom: DEFAULT_IPL_ROM,
            dsp,
            timers: [Timer::new(256), Timer::new(256), Timer::new(32)],
            is_ipl_rom_enabled: true,
            dsp_reg_address: 0,
        };
        proof {
            assert(apu@.ram =~= ApuState::reset().ram);
            assert(apu@.timers =~= ApuState::reset().timers);
        }
        apu
    }

    /// A bus in the state that `spc` holds, in front of `dsp`, with the
    /// registers of `smp` set to those of the snapshot.
    pub fn from_spc<S: Smp>(spc: &Spc, smp: &mut S, dsp: D) -> (apu: Apu<D>)
        requires
            old(smp).inv(),
            dsp.inv(),
        ensures
            apu.wf(),
            final(smp).inv(),
            apu@ == ApuState::restored(spc@),
            apu.dsp().holds_state_of(spc),
            final(smp).registers() == (SmpRegisters {
                pc: spc.pc,
                a: spc.a,
                x: spc.x,
                y: spc.y,
                psw: spc.psw,
                sp: spc.sp,
            }),
    {
        let mut ret = Apu::new(dsp);

        ret.ram = Box::new(spc.ram);
        ret.ipl_rom = spc.ipl_rom;

        smp.set_reg_pc(spc.pc);
        smp.set_reg_a(spc.a);
        smp.set_reg_x(spc.x);
        smp.set_reg_y(spc.y);
        smp.set_psw(spc.psw);
        smp.set_reg_sp(spc.sp);

        ret.dsp.set_state(spc);

        let ghost loaded = ApuState {
            ram: spc@.ram,
            ipl_rom: spc@.ipl_rom,
            ..ApuState::reset()
        };
        let mut i: usize = 0;
        while i < 3
            invariant
                i <= 3,
                ret.dsp.inv(),
                ret.dsp.holds_state_of(spc),
                ret@ == (ApuState { timers: ret@.timers, ..loaded }),
                loaded.ram == spc@.ram,
                loaded.ram.len() == RAM_LEN,
                loaded.timers == ApuState::reset().timers,
                ret@.timers.len() == 3,
                forall|j: int|
                    0 <= j < 3 ==> #[trigger] ret@.timers[j] == if j < i {
                        loaded.timers[j].set_target(loaded.ram[0xfa + j])
                    } else {
                        loaded.timers[j]
                    },
            decreases 3 - i,
        {
            let target: u8 = ret.ram[0xfa + i];
            ret.timers[i].set_target(target);
            i += 1;
        }
        proof {
            assert(ret@.timers =~= loaded.after_write(0xfa, loaded.ram[0xfa]).after_write(
                0xfb,
                loaded.ram[0xfb],
            ).after_write(0xfc, loaded.ram[0xfc]).timers);
        }
        let control_reg: u8 = ret.ram[0xf1];
        ret.set_control_reg(control_reg);

        ret.dsp_reg_address = ret.ram[0xf2];

        ret
    }

    /// Fills `buffer` with the next samples of the signal processor. While
    /// fewer samples are queued than `buffer` holds, `smp` runs for
    /// `render_budget` master cycles and the signal processor is flushed.
    /// Then the oldest queued samples move to `buffer`, and the rest stay
    /// queued.
    pub fn render<S: Smp>(&mut self, smp: &mut S, buffer: &mut [(i16, i16)])
        requires
            old(self).wf(),
            old(smp).inv(),
        ensures
            final(self).wf(),
            final(smp).inv(),
            old(self).dsp().stream().is_prefix_of(final(self).dsp().stream()),
            final(self).dsp().consumed() == old(self).dsp().consumed() + old(buffer)@.len(),
            final(buffer)@ == final(self).dsp().stream().subrange(
                old(self).dsp().consumed() as int,
                (old(self).dsp().consumed() + old(buffer)@.len()) as int,
            ),
            queued(old(self).dsp()).len() >= old(buffer)@.len() ==> {
                &&& *final(smp) == *old(smp)
                &&& final(self)@ == old(self)@
                &&& final(self).dsp().stream() == old(self).dsp().stream()
                &&& final(self).dsp().pending_cycles() == old(self).dsp().pending_cycles()
                &&& final(self).dsp().registers() == old(self).dsp().registers()
            },
            queued(old(self).dsp()).len() < old(buffer)@.len() ==> master_cycles(
                final(self).dsp(),
            ) >= master_cycles(old(self).dsp()) + render_budget(old(buffer)@.len()),
    {
        let wanted: usize = buffer.len();
        let budget: usize = match wanted.checked_mul(CYCLES_PER_SAMPLE) {
            Some(cycles) => cycles,
            None => usize::MAX,
        };
        let ghost mut ran = false;
        proof {
            self.dsp().lemma_inv();
        }
        while self.dsp.output_len() < wanted
            invariant
                self.wf(),
                smp.inv(),
                wanted == buffer@.len(),
                budget == render_budget(wanted as nat),
                old(self).dsp().stream().is_prefix_of(self.dsp().stream()),
                self.dsp().consumed() == old(self).dsp().consumed(),
                self.dsp().consumed() <= self.dsp().stream().len(),
                !ran ==> {
                    &&& *smp == *old(smp)
                    &&& *self == *old(self)
                },
                ran ==> {
                    &&& queued(old(self).dsp()).len() < wanted
                    &&& master_cycles(self.dsp()) >= master_cycles(old(self).dsp()) + budget
                },
            decreases
                    (if queued(self.dsp()).len() < wanted {
                        wanted - queued(self.dsp()).len()
                    } else {
                        0
                    }),
        {
            let ghost streamed = self.dsp().stream().len();
            let ghost cycles = master_cycles(self.dsp());
            smp.run(self, budget);
            self.dsp.flush(&self.ram);
            proof {
                self.dsp().lemma_inv();
                assert(master_cycles(self.dsp()) >= cycles + budget);
                assert(master_cycles(self.dsp()) >= 64 * streamed + budget);
                assert(self.dsp().stream().len() > streamed);
                ran = true;
            }
        }
        self.drain_output(buffer);
    }

    /// Moves the oldest queued samples to `buffer`, as many as it holds.
    pub fn drain_output(&mut self, buffer: &mut [(i16, i16)])
        requires
            old(self).wf(),
            queued(old(self).dsp()).len() >= old(buffer)@.len(),
        ensures
            final(self).wf(),
            final(self)@ == old(self)@,
            final(buffer)@ == queued(old(self).dsp()).take(old(buffer)@.len() as int),
            final(self).dsp().stream() == old(self).dsp().stream(),
            final(self).dsp().consumed() == old(self).dsp().consumed() + old(buffer)@.len(),
            final(self).dsp().pending_cycles() == old(self).dsp().pending_cycles(),
            final(self).dsp().registers() == old(self).dsp().registers(),
    {
        let wanted: usize = buffer.len();
        let mut i: usize = 0;
        proof {
            self.dsp().lemma_inv();
        }
        while i < wanted
            invariant
                i <= wanted,
                wanted == buffer@.len(),
                old(self).dsp().consumed() + wanted <= old(self).dsp().stream().len(),
                self.dsp.inv(),
                self@ == old(self)@,
                self.dsp().stream() == old(self).dsp().stream(),
                self.dsp().consumed() == old(self).dsp().consumed() + i,
                self.dsp().pending_cycles() == old(self).dsp().pending_cycles(),
                self.dsp().registers() == old(self).dsp().registers(),
                forall|j: int|
                    0 <= j < i ==> buffer@[j] == old(self).dsp().stream()[old(self).dsp().consumed()
                        + j],
            decreases wanted - i,
        {
            let sample: (i16, i16) = self.dsp.pop_output();
            buffer[i] = sample;
            i += 1;
        }
        proof {
            assert(buffer@ =~= queued(old(self).dsp()).take(wanted as int));
        }
    }

    /// Reads the byte at `address`. The register page answers for itself:
    /// the test and control registers and the timer targets read as zero,
    /// 0xf2 as the register address of the signal processor, 0xf3 as the
    /// register at that address, and 0xfd to 0xff as the timer counters,
    /// which the read clears. The top 64 bytes read from the boot ROM while
    /// it is mapped. Every other address reads from RAM.
    pub fn read_u8(&mut self, address: u16) -> (value: u8)
        requires
            old(self).wf(),
        ensures
            final(self).wf(),
            final(self)@ == old(self)@.after_read(address),
            final(self).dsp() == old(self).dsp(),
            address != 0xf3 || old(self)@.dsp_reg_address < 128 ==> value == old(self)@.read_value(
                address,
                old(self).dsp().registers(),
            ),
    {
        let value: u8 = match address {
            0xf0 | 0xf1 => 0,
            0xf2 => self.dsp_reg_address,
            0xf3 => self.dsp.get_register(self.dsp_reg_address),
            0xfa..=0xfc => 0,
            0xfd => self.timers[0].read_counter(),
            0xfe => self.timers[1].read_counter(),
            0xff => self.timers[2].read_counter(),
            addr if addr >= 0xffc0 && self.is_ipl_rom_enabled => self.ipl_rom[(addr - 0xffc0) as usize],
            _ => self.ram[address as usize],
        };
        proof {
            assert(self@.timers =~= old(self)@.after_read(address).timers);
        }
        value
    }

    /// Writes `value` to `address`. In the register page, 0xf1 is the
    /// control register, 0xf2 the register address of the signal processor,
    /// 0xf3 the register at that address, and 0xfa to 0xfc the timer
    /// targets; writes to the test register and to the timer counters are
    /// ignored. Every other address is RAM, also under the boot ROM.
    pub fn write_u8(&mut self, address: u16, value: u8)
        requires
            old(self).wf(),
        ensures
            final(self).wf(),
            final(self)@ == old(self)@.after_write(address, value),
            address != 0xf3 ==> final(self).dsp() == old(self).dsp(),
            final(self).dsp().stream() == old(self).dsp().stream(),
            final(self).dsp().consumed() == old(self).dsp().consumed(),
            final(self).dsp().pending_cycles() == old(self).dsp().pending_cycles(),
            address == 0xf3 && old(self)@.dsp_reg_address < 128 ==> final(self).dsp().registers()
                == old(self).dsp().registers().update(old(self)@.dsp_reg_address as int, value),
        decreases
                (if address == 0xf1 {
                    2nat
                } else {
                    0nat
                }),
    {
        match address {
            0xf0 => {
                self.set_test_reg(value);
            },
            0xf1 => {
                self.set_control_reg(value);
            },
            0xf2 => {
                self.dsp_reg_address = value;
            },
            0xf3 => {
                self.dsp.set_register(self.dsp_reg_address, value);
            },
            0xfa => {
                self.timers[0].set_target(value);
            },
            0xfb => {
                self.timers[1].set_target(value);
            },
            0xfc => {
                self.timers[2].set_target(value);
            },
            0xfd..=0xff => (),
            _ => {
                self.ram[address as usize] = value;
            },
        }
        proof {
            assert(self@.timers =~= old(self)@.after_write(address, value).timers);
            assert(self@.ram =~= old(self)@.after_write(address, value).ram);
        }
    }

    /// Forwards `num_cycles` master cycles to the signal processor, then to
    /// each timer.
    pub fn cpu_cycles_callback(&mut self, num_cycles: usize)
        requires
            old(self).wf(),
        ensures
            final(self).wf(),
            final(self)@ == old(self)@.after_cycles(num_cycles as nat),
            old(self).dsp().stream().is_prefix_of(final(self).dsp().stream()),
            final(self).dsp().consumed() == old(self).dsp().consumed(),
            master_cycles(final(self).dsp()) >= master_cycles(old(self).dsp()) + num_cycles,
    {
        self.dsp.cycles_callback(&self.ram, num_cycles);
        self.timers[0].cpu_cycles_callback(num_cycles);
        self.timers[1].cpu_cycles_callback(num_cycles);
        self.timers[2].cpu_cycles_callback(num_cycles);
        proof {
            assert(self@.timers =~= old(self)@.after_cycles(num_cycles as nat).timers);
        }
    }

    /// Overwrites the echo buffer of the signal processor with 0xff, as far
    /// as it lies in RAM.
    pub fn clear_echo_buffer(&mut self)
        requires
            old(self).wf(),
        ensures
            final(self).wf(),
            final(self).dsp() == old(self).dsp(),
            final(self)@ == old(self)@.after_echo_clear(
                old(self).dsp().echo_start_address(),
                old(self).dsp().echo_length(),
            ),
    {
        let length: i32 = self.dsp.calculate_echo_length();
        let start: u16 = self.dsp.get_echo_start_address();
        let mut end: i64 = start as i64 + length as i64;
        if end > RAM_LEN as i64 {
            end = RAM_LEN as i64;
        }
        let mut i: i64 = start as i64;
        while i < end
            invariant
                start <= i,
                end == if start + length > RAM_LEN {
                    RAM_LEN as int
                } else {
                    start + length
                },
                i <= end || i == start,
                self.dsp == old(self).dsp,
                self@ == (ApuState { ram: self@.ram, ..old(self)@ }),
                self@.ram.len() == RAM_LEN,
                forall|j: int|
                    0 <= j < RAM_LEN ==> self@.ram[j] == if start <= j < i {
                        0xffu8
                    } else {
                        old(self)@.ram[j]
                    },
            decreases end - i,
        {
            self.ram[i as usize] = 0xff;
            i += 1;
        }
        proof {
            assert(self@.ram =~= old(self)@.after_echo_clear(start, length).ram);
        }
    }

    /// A write to the test register. The register is not modelled: the write
    /// changes nothing.
    pub fn set_test_reg(&self, _value: u8) {
    }

    /// A write to the control register: bit 7 maps the boot ROM, bits 5 and
    /// 4 clear the two pairs of input ports, bits 2 to 0 start and stop the
    /// timers.
    pub fn set_control_reg(&mut self, value: u8)
        requires
            old(self).wf(),
        ensures
            final(self).wf(),
            final(self)@ == old(self)@.after_control(value),
            final(self).dsp() == old(self).dsp(),
        decreases 1nat,
    {
        self.is_ipl_rom_enabled = (value & 0x80) != 0;
        if (value & 0x20) != 0 {
            self.write_u8(0xf6, 0x00);
            self.write_u8(0xf7, 0x00);
        }
        if (value & 0x10) != 0 {
            self.write_u8(0xf4, 0x00);
            self.write_u8(0xf5, 0x00);
        }
        self.timers[0].set_start_stop_bit((value & 0x01) != 0);
        self.timers[1].set_start_stop_bit((value & 0x02) != 0);
        self.timers[2].set_start_stop_bit((value & 0x04) != 0);
        proof {
            assert(self@.timers =~= old(self)@.after_control(value).timers);
            assert(self@.ram =~= old(self)@.after_control(value).ram);
        }
    }
}

} // verus!
