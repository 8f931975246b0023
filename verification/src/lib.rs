//! A MOS 6502 CPU emulator whose instruction semantics, memory model and
//! cycle accounting are specified and proved with Verus.
//!
//! - [`mem`]: the flat 64 KiB address space.
//! - [`flags`]: the processor status register and its packed byte.
//! - [`isa`]: mnemonics, addressing modes and the opcode table.
//! - [`model`]: the mathematical model every executable function is proved against.
//! - [`cpu`]: the registers, the fetch-decode-execute loop and program loading.
//! - [`laws`]: properties of the emulator that span several operations.

mod bits;
pub mod cpu;
pub mod flags;
pub mod isa;
pub mod laws;
pub mod mem;
pub mod model;

pub use cpu::{Cpu, ExecError};
pub use flags::StatusFlags;
pub use mem::Mem;
