//! The addressing modes of the 6502.
//!
//! Each opcode carries one of these tags; it determines how the bytes
//! following the opcode are turned into the effective address of the operand.

use vstd::prelude::*;

verus! {

/// How an instruction finds its operand.
///
/// `Indirect` is used only by JMP, and `NoneAddressing` only by implied and
/// accumulator instructions; the general address resolver accepts neither.
#[derive(Debug, PartialEq, Eq, Structural, Clone, Copy)]
pub enum AddressingMode {
    Immediate,
    ZeroPage,
    Absolute,
    ZeroPageX,
    ZeroPageY,
    AbsoluteX,
    AbsoluteY,
    Indirect,
    IndirectX,
    IndirectY,
    NoneAddressing,
}

} // verus!
