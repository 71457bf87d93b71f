//! What the bus asks of the signal processor.
//!
//! The signal processor is a collaborator of the bus, not a part of it: the
//! bus forwards register accesses and master cycles to it and takes finished
//! samples off its queue. This file states what the bus relies on, and no
//! more: a register file of 128 bytes, a queue of finished samples, and the
//! rate of one sample for every 64 master cycles.
//!
//! The queue is described by its history. `stream` is every sample that was
//! ever queued, oldest first, and `consumed` counts those that have been
//! taken off again: the queue itself is the rest of the stream.

use vstd::prelude::*;
use crate::spc::Spc;
use crate::spc::RAM_LEN;

verus! {

/// Master cycles per stereo sample.
pub const CYCLES_PER_SAMPLE: usize = 64;

pub trait Dsp: Sized {
    /// What every method needs and keeps.
    spec fn inv(&self) -> bool;

    /// The register file.
    spec fn registers(&self) -> Seq<u8>;

    /// Every sample queued so far, oldest first.
    spec fn stream(&self) -> Seq<(i16, i16)>;

    /// How many samples of the stream have been taken off the queue.
    spec fn consumed(&self) -> nat;

    /// The master cycles received that no sample of the stream accounts for
    /// yet.
    spec fn pending_cycles(&self) -> nat;

    /// Whether the state is the one that the snapshot `spc` holds.
    spec fn holds_state_of(&self, spc: &Spc) -> bool;

    /// Where in RAM the echo buffer starts.
    spec fn echo_start_address(&self) -> u16;

    /// How many bytes the echo buffer is long.
    spec fn echo_length(&self) -> i32;

    /// The register file has 128 entries, and no more samples have been
    /// taken off the queue than were put on it.
    proof fn lemma_inv(&self)
        requires
            self.inv(),
        ensures
            self.registers().len() == 128,
            self.consumed() <= self.stream().len(),
    ;

    fn get_register(&self, address: u8) -> (value: u8)
        requires
            self.inv(),
        ensures
            address < 128 ==> value == self.registers()[address as int],
    ;

    fn set_register(&mut self, address: u8, value: u8)
        requires
            old(self).inv(),
        ensures
            final(self).inv(),
            final(self).stream() == old(self).stream(),
            final(self).consumed() == old(self).consumed(),
            final(self).pending_cycles() == old(self).pending_cycles(),
            address < 128 ==> final(self).registers() == old(self).registers().update(
                address as int,
                value,
            ),
    ;

    /// Restores the state that a snapshot holds.
    fn set_state(&mut self, spc: &Spc)
        requires
            old(self).inv(),
        ensures
            final(self).inv(),
            final(self).holds_state_of(spc),
    ;

    /// Advances the mixer by `num_cycles` master cycles. Samples that become
    /// complete join the end of the queue.
    fn cycles_callback(&mut self, ram: &[u8; RAM_LEN], num_cycles: usize)
        requires
            old(self).inv(),
        ensures
            final(self).inv(),
            old(self).stream().is_prefix_of(final(self).stream()),
            final(self).consumed() == old(self).consumed(),
            final(self).pending_cycles() + CYCLES_PER_SAMPLE * final(self).stream().len() >= old(
                self,
            ).pending_cycles() + CYCLES_PER_SAMPLE * old(self).stream().len() + num_cycles,
    ;

    /// Turns the cycles received so far into samples, until less than one
    /// sample's worth of them is pending.
    fn flush(&mut self, ram: &[u8; RAM_LEN])
        requires
            old(self).inv(),
        ensures
            final(self).inv(),
            old(self).stream().is_prefix_of(final(self).stream()),
            final(self).consumed() == old(self).consumed(),
            final(self).pending_cycles() + CYCLES_PER_SAMPLE * final(self).stream().len() >= old(
                self,
            ).pending_cycles() + CYCLES_PER_SAMPLE * old(self).stream().len(),
            final(self).pending_cycles() < CYCLES_PER_SAMPLE,
    ;

    /// The number of samples on the queue.
    fn output_len(&self) -> (len: usize)
        requires
            self.inv(),
        ensures
            len == self.stream().len() - self.consumed(),
    ;

    /// Takes the oldest sample off the queue.
    fn pop_output(&mut self) -> (sample: (i16, i16))
        requires
            old(self).inv(),
            old(self).consumed() < old(self).stream().len(),
        ensures
            final(self).inv(),
            sample == old(self).stream()[old(self).consumed() as int],
            final(self).stream() == old(self).stream(),
            final(self).consumed() == old(self).consumed() + 1,
            final(self).pending_cycles() == old(self).pending_cycles(),
            final(self).registers() == old(self).registers(),
    ;

    fn get_echo_start_address(&self) -> (address: u16)
        requires
            self.inv(),
        ensures
            address == self.echo_start_address(),
    ;

    fn calculate_echo_length(&self) -> (length: i32)
        requires
            self.inv(),
        ensures
            length == self.echo_length(),
    ;
}

/// The samples on the queue of `dsp`, oldest first.
pub open spec fn queued<D: Dsp>(dsp: &D) -> Seq<(i16, i16)> {
    dsp.stream().skip(dsp.consumed() as int)
}

/// The master cycles that `dsp` has accounted for: those that its stream
/// stands for, and those still pending.
pub open spec fn master_cycles<D: Dsp>(dsp: &D) -> nat {
    dsp.pending_cycles() + CYCLES_PER_SAMPLE as nat * dsp.stream().len()
}

} // verus!
