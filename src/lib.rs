//! Verified calling-convention adapters for driving native guest functions
//! inside an instruction-level emulator.
//!
//! The library decides everything about a call: how the stack and heap arenas
//! grow, where each argument goes, how the return linkage is rigged, whether
//! the emulator stopped where it should and how results are decoded. The
//! emulator itself is driven by the embedding program, which performs the
//! steps that the library plans and hands back what it observed.
pub mod error;
pub mod arena;
pub mod value;
pub mod abi;
pub mod call;
pub mod decode;
pub mod laws;
pub mod cstr;
pub mod strlen;
pub mod strcat;
pub mod memory;
