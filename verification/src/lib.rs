//! An instruction-level interpreter for the MOS 6502 microprocessor.
//!
//! The interpreter executes a program image placed in a flat 64 KiB address
//! space, one fetch-decode-execute step at a time, until a BRK instruction
//! halts it.  Every instruction's effect on the registers, the status flags
//! and memory is specified by a mathematical model of the machine and proved
//! against that model.

pub mod cpu;
