//! A cycle-counting emulator of the 6502 processor.
//!
//! `opcodes` decodes a byte; `machine` states what an instruction, an
//! interrupt and a clock pulse do to the processor's state; `cpu` is the
//! engine, verified against `machine`; `laws` proves properties of the
//! instruction set from it.
pub mod cpu;
pub mod flags;
pub mod laws;
pub mod machine;
pub mod opcodes;
pub mod ram;
