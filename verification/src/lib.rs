//! An instruction-level emulator for a small part of the 6502 instruction set.
//!
//! The emulator is a fetch-decode-execute loop over a flat 64 KiB memory
//! image. Every executable function carries a contract stated over a
//! mathematical model of the machine: the memory is a sequence of bytes, the
//! processor a record of registers and flags, and one instruction is a
//! function from machine to machine.

pub mod cpu;
pub mod flags;
pub mod memory;
pub mod model;
pub mod opcode;

pub use cpu::CPU;
pub use flags::CpuFlags;
pub use memory::Mem;
pub use memory::MemError;
pub use opcode::InvalidOpcode;
pub use opcode::Opcode;
