//! The bus and orchestration layer of a 16-bit console's audio coprocessor:
//! its memory map, its three timers, snapshot loading and the render loop,
//! with the processor core and the signal processor behind two traits.

pub mod apu;
pub mod cores;
pub mod dsp;
pub mod reader;
pub mod smp;
pub mod spc;
pub mod timer;
