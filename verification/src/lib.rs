//! A Zilog Z80 core: registers, flags, a 64 KiB memory, the instruction
//! decoder and the executor, each with a contract that Verus proves.

pub mod bits;
pub mod cpu;
pub mod cpu_status;
pub mod instruction;
pub mod machine;
pub mod mmu;

pub use machine::Z80;
