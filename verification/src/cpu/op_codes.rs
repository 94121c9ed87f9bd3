//! The opcode table: the 151 documented instructions of the 6502.
//!
//! [`opcode_entry`] is the table as a mathematical function from opcode byte
//! to descriptor; [`opcode_lookup`] is its executable counterpart, proved
//! equal to it arm by arm.  Any byte without an entry is an unknown opcode
//! and makes the interpreter stop with an error.

use vstd::prelude::*;

use crate::cpu::addressing_mode::AddressingMode;

verus! {

/// ADC - Add with Carry
pub const ADC_IMMEDIATE: u8 = 0x69;
pub const ADC_ZERO_PAGE: u8 = 0x65;
pub const ADC_ZERO_PAGE_X: u8 = 0x75;
pub const ADC_ABSOLUTE: u8 = 0x6D;
pub const ADC_ABSOLUTE_X: u8 = 0x7D;
pub const ADC_ABSOLUTE_Y: u8 = 0x79;
pub const ADC_INDIRECT_X: u8 = 0x61;
pub const ADC_INDIRECT_Y: u8 = 0x71;
/// AND - Logical AND
pub const AND_IMMEDIATE: u8 = 0x29;
pub const AND_ZERO_PAGE: u8 = 0x25;
pub const AND_ZERO_PAGE_X: u8 = 0x35;
pub const AND_ABSOLUTE: u8 = 0x2D;
pub const AND_ABSOLUTE_X: u8 = 0x3D;
pub const AND_ABSOLUTE_Y: u8 = 0x39;
pub const AND_INDIRECT_X: u8 = 0x21;
pub const AND_INDIRECT_Y: u8 = 0x31;
/// ASL - Arithmetic Shift Left
pub const ASL_ACCUMULATOR: u8 = 0x0A;
pub const ASL_ZERO_PAGE: u8 = 0x06;
pub const ASL_ZERO_PAGE_X: u8 = 0x16;
pub const ASL_ABSOLUTE: u8 = 0x0E;
pub const ASL_ABSOLUTE_X: u8 = 0x1E;
/// BCC - Branch if Carry Clear
pub const BCC: u8 = 0x90;
/// BCS - Branch if Carry Set
pub const BCS: u8 = 0xB0;
/// BEQ - Branch if Equal
pub const BEQ: u8 = 0xF0;
/// BIT - Bit Test
pub const BIT_ZERO_PAGE: u8 = 0x24;
pub const BIT_ABSOLUTE: u8 = 0x2C;
/// BMI - Branch if Minus
pub const BMI: u8 = 0x30;
/// BNE - Branch if Not Equal
pub const BNE: u8 = 0xD0;
/// BPL - Branch if Positive
pub const BPL: u8 = 0x10;
/// BRK - Force Interrupt
pub const BRK: u8 = 0x00;
/// BVC - Branch if Overflow Clear
pub const BVC: u8 = 0x50;
/// BVS - Branch if Overflow Set
pub const BVS: u8 = 0x70;
/// CLC - Clear Carry Flag
pub const CLC: u8 = 0x18;
/// CLD - Clear Decimal Mode
pub const CLD: u8 = 0xD8;
/// CLI - Clear Interrupt Disable
pub const CLI: u8 = 0x58;
/// CLV - Clear Overflow Flag
pub const CLV: u8 = 0xB8;
/// CMP - Compare
pub const CMP_IMMEDIATE: u8 = 0xC9;
pub const CMP_ZERO_PAGE: u8 = 0xC5;
pub const CMP_ZERO_PAGE_X: u8 = 0xD5;
pub const CMP_ABSOLUTE: u8 = 0xCD;
pub const CMP_ABSOLUTE_X: u8 = 0xDD;
pub const CMP_ABSOLUTE_Y: u8 = 0xD9;
pub const CMP_INDIRECT_X: u8 = 0xC1;
pub const CMP_INDIRECT_Y: u8 = 0xD1;
/// CPX - Compare X Register
pub const CPX_IMMEDIATE: u8 = 0xE0;
pub const CPX_ZERO_PAGE: u8 = 0xE4;
pub const CPX_ABSOLUTE: u8 = 0xEC;
/// CPY - Compare Y Register
pub const CPY_IMMEDIATE: u8 = 0xC0;
pub const CPY_ZERO_PAGE: u8 = 0xC4;
pub const CPY_ABSOLUTE: u8 = 0xCC;
/// DEC - Decrement Memory
pub const DEC_ZERO_PAGE: u8 = 0xC6;
pub const DEC_ZERO_PAGE_X: u8 = 0xD6;
pub const DEC_ABSOLUTE: u8 = 0xCE;
pub const DEC_ABSOLUTE_X: u8 = 0xDE;
/// DEX - Decrement X Register
pub const DEX: u8 = 0xCA;
/// DEY - Decrement Y Register
pub const DEY: u8 = 0x88;
/// EOR - Exclusive OR
pub const EOR_IMMEDIATE: u8 = 0x49;
pub const EOR_ZERO_PAGE: u8 = 0x45;
pub const EOR_ZERO_PAGE_X: u8 = 0x55;
pub const EOR_ABSOLUTE: u8 = 0x4D;
pub const EOR_ABSOLUTE_X: u8 = 0x5D;
pub const EOR_ABSOLUTE_Y: u8 = 0x59;
pub const EOR_INDIRECT_X: u8 = 0x41;
pub const EOR_INDIRECT_Y: u8 = 0x51;
/// INC - Increment Memory
pub const INC_ZERO_PAGE: u8 = 0xE6;
pub const INC_ZERO_PAGE_X: u8 = 0xF6;
pub const INC_ABSOLUTE: u8 = 0xEE;
pub const INC_ABSOLUTE_X: u8 = 0xFE;
/// INX - Increment X
pub const INX: u8 = 0xE8;
/// INY - Increment Y
pub const INY: u8 = 0xC8;
/// JMP - Jump
pub const JMP_ABSOLUTE: u8 = 0x4C;
pub const JMP_INDIRECT: u8 = 0x6C;
/// JSR - Jump to Subroutine
pub const JSR: u8 = 0x20;
/// LDA - Load Accumulator
pub const LDA_IMMEDIATE: u8 = 0xA9;
pub const LDA_ZERO_PAGE: u8 = 0xA5;
pub const LDA_ZERO_PAGE_X: u8 = 0xB5;
pub const LDA_ABSOLUTE: u8 = 0xAD;
pub const LDA_ABSOLUTE_X: u8 = 0xBD;
pub const LDA_ABSOLUTE_Y: u8 = 0xB9;
pub const LDA_INDIRECT_X: u8 = 0xA1;
pub const LDA_INDIRECT_Y: u8 = 0xB1;
/// LDX - Load X Register
pub const LDX_IMMEDIATE: u8 = 0xA2;
pub const LDX_ZERO_PAGE: u8 = 0xA6;
pub const LDX_ZERO_PAGE_Y: u8 = 0xB6;
pub const LDX_ABSOLUTE: u8 = 0xAE;
pub const LDX_ABSOLUTE_Y: u8 = 0xBE;
/// LDY - Load Y Register
pub const LDY_IMMEDIATE: u8 = 0xA0;
pub const LDY_ZERO_PAGE: u8 = 0xA4;
pub const LDY_ZERO_PAGE_X: u8 = 0xB4;
pub const LDY_ABSOLUTE: u8 = 0xAC;
pub const LDY_ABSOLUTE_X: u8 = 0xBC;
/// LSR - Logical Shift Right
pub const LSR_ACCUMULATOR: u8 = 0x4A;
pub const LSR_ZERO_PAGE: u8 = 0x46;
pub const LSR_ZERO_PAGE_X: u8 = 0x56;
pub const LSR_ABSOLUTE: u8 = 0x4E;
pub const LSR_ABSOLUTE_X: u8 = 0x5E;
/// NOP - No Operation
pub const NOP: u8 = 0xEA;
/// ORA - Logical Inclusive OR
pub const ORA_IMMEDIATE: u8 = 0x09;
pub const ORA_ZERO_PAGE: u8 = 0x05;
pub const ORA_ZERO_PAGE_X: u8 = 0x15;
pub const ORA_ABSOLUTE: u8 = 0x0D;
pub const ORA_ABSOLUTE_X: u8 = 0x1D;
pub const ORA_ABSOLUTE_Y: u8 = 0x19;
pub const ORA_INDIRECT_X: u8 = 0x01;
pub const ORA_INDIRECT_Y: u8 = 0x11;
/// PHA - Push Accumulator
pub const PHA: u8 = 0x48;
/// PHP - Push Processor Status
pub const PHP: u8 = 0x08;
/// PLA - Pull Accumulator
pub const PLA: u8 = 0x68;
/// PLP - Pull Processor Status
pub const PLP: u8 = 0x28;
/// ROL - Rotate Left
pub const ROL_ACCUMULATOR: u8 = 0x2A;
pub const ROL_ZERO_PAGE: u8 = 0x26;
pub const ROL_ZERO_PAGE_X: u8 = 0x36;
pub const ROL_ABSOLUTE: u8 = 0x2E;
pub const ROL_ABSOLUTE_X: u8 = 0x3E;
/// ROR - Rotate Right
pub const ROR_ACCUMULATOR: u8 = 0x6A;
pub const ROR_ZERO_PAGE: u8 = 0x66;
pub const ROR_ZERO_PAGE_X: u8 = 0x76;
pub const ROR_ABSOLUTE: u8 = 0x6E;
pub const ROR_ABSOLUTE_X: u8 = 0x7E;
/// RTI - Return from Interrupt
pub const RTI: u8 = 0x40;
/// RTS - Return from Subroutine
pub const RTS: u8 = 0x60;
/// SBC - Subtract with Carry
pub const SBC_IMMEDIATE: u8 = 0xE9;
pub const SBC_ZERO_PAGE: u8 = 0xE5;
pub const SBC_ZERO_PAGE_X: u8 = 0xF5;
pub const SBC_ABSOLUTE: u8 = 0xED;
pub const SBC_ABSOLUTE_X: u8 = 0xFD;
pub const SBC_ABSOLUTE_Y: u8 = 0xF9;
pub const SBC_INDIRECT_X: u8 = 0xE1;
pub const SBC_INDIRECT_Y: u8 = 0xF1;
/// SEC - Set Carry Flag
pub const SEC: u8 = 0x38;
/// SED - Set Decimal Flag
pub const SED: u8 = 0xF8;
/// SEI - Set Interrupt Disable
pub const SEI: u8 = 0x78;
/// STA - Store Accumulator
pub const STA_ZERO_PAGE: u8 = 0x85;
pub const STA_ZERO_PAGE_X: u8 = 0x95;
pub const STA_ABSOLUTE: u8 = 0x8D;
pub const STA_ABSOLUTE_X: u8 = 0x9D;
pub const STA_ABSOLUTE_Y: u8 = 0x99;
pub const STA_INDIRECT_X: u8 = 0x81;
pub const STA_INDIRECT_Y: u8 = 0x91;
/// STX - Store X Register
pub const STX_ZERO_PAGE: u8 = 0x86;
pub const STX_ZERO_PAGE_Y: u8 = 0x96;
pub const STX_ABSOLUTE: u8 = 0x8E;
/// STY - Store Y Register
pub const STY_ZERO_PAGE: u8 = 0x84;
pub const STY_ZERO_PAGE_X: u8 = 0x94;
pub const STY_ABSOLUTE: u8 = 0x8C;
/// TAX - Transfer Accumulator to X
pub const TAX: u8 = 0xAA;
/// TAY - Transfer Accumulator to Y
pub const TAY: u8 = 0xA8;
/// TSX - Transfer Stack Pointer to X
pub const TSX: u8 = 0xBA;
/// TXA - Transfer X to Accumulator
pub const TXA: u8 = 0x8A;
/// TXS - Transfer X to Stack Pointer
pub const TXS: u8 = 0x9A;
/// TYA - Transfer Y to Accumulator
pub const TYA: u8 = 0x98;

/// The 56 instruction mnemonics of the documented 6502 instruction set.
#[derive(Debug, PartialEq, Eq, Structural, Clone, Copy)]
pub enum Mnemonic {
    ADC,
    AND,
    ASL,
    BCC,
    BCS,
    BEQ,
    BIT,
    BMI,
    BNE,
    BPL,
    BRK,
    BVC,
    BVS,
    CLC,
    CLD,
    CLI,
    CLV,
    CMP,
    CPX,
    CPY,
    DEC,
    DEX,
    DEY,
    EOR,
    INC,
    INX,
    INY,
    JMP,
    JSR,
    LDA,
    LDX,
    LDY,
    LSR,
    NOP,
    ORA,
    PHA,
    PHP,
    PLA,
    PLP,
    ROL,
    ROR,
    RTI,
    RTS,
    SBC,
    SEC,
    SED,
    SEI,
    STA,
    STX,
    STY,
    TAX,
    TAY,
    TSX,
    TXA,
    TXS,
    TYA,
}

/// A decoded opcode: the opcode byte itself, its mnemonic, the instruction
/// size in bytes (opcode plus operands), the base cycle count and the
/// addressing mode.
#[derive(Debug, Clone, Copy)]
pub struct OpCode {
    pub code: u8,
    pub name: Mnemonic,
    pub size: u16,
    pub cycles: u8,
    pub addr_mode: AddressingMode,
}

impl OpCode {
    pub fn new(code: u8, name: Mnemonic, size: u16, cycles: u8, addr_mode: AddressingMode) -> (op: OpCode)
        ensures
            op == (OpCode { code, name, size, cycles, addr_mode }),
    {
        OpCode { code, name, size, cycles, addr_mode }
    }
}

/// Shorthand used by the table below.
pub open spec fn some_op(code: u8, name: Mnemonic, size: u16, cycles: u8, addr_mode: AddressingMode) -> Option<OpCode> {
    Some(OpCode { code, name, size, cycles, addr_mode })
}

/// A mode the general address resolver accepts.
pub open spec fn mode_resolvable(mode: AddressingMode) -> bool {
    mode != AddressingMode::Indirect && mode != AddressingMode::NoneAddressing
}

/// Structural facts that hold of every table entry: the size is between 1 and
/// 3 bytes, and the addressing mode fits the mnemonic's handler.
pub open spec fn opcode_wf(r: Option<OpCode>) -> bool {
    match r {
        None => true,
        Some(op) => 1 <= op.size <= 3 && match op.name {
            Mnemonic::ADC | Mnemonic::AND | Mnemonic::BIT | Mnemonic::CMP | Mnemonic::CPX
            | Mnemonic::CPY | Mnemonic::DEC | Mnemonic::EOR | Mnemonic::INC | Mnemonic::LDA
            | Mnemonic::LDX | Mnemonic::LDY | Mnemonic::ORA | Mnemonic::SBC | Mnemonic::STA
            | Mnemonic::STX | Mnemonic::STY => mode_resolvable(op.addr_mode),
            Mnemonic::ASL | Mnemonic::LSR | Mnemonic::ROL | Mnemonic::ROR => op.addr_mode
                != AddressingMode::Indirect,
            Mnemonic::JMP => op.addr_mode == AddressingMode::Absolute || op.addr_mode
                == AddressingMode::Indirect,
            _ => true,
        },
    }
}

/// The opcode table as a function: the descriptor for an opcode byte, or
/// `None` for the roughly 105 unassigned bytes.
///
/// Opaque so that callers reason through [`opcode_lookup`]'s contract instead
/// of unfolding the 256-way match; `reveal(opcode_entry)` opens it.
#[verifier::opaque]
pub open spec fn opcode_entry(code: u8) -> Option<OpCode> {
    match code {
        // ADC
        0x69 => some_op(0x69, Mnemonic::ADC, 2, 2, AddressingMode::Immediate),
        0x65 => some_op(0x65, Mnemonic::ADC, 2, 3, AddressingMode::ZeroPage),
        0x75 => some_op(0x75, Mnemonic::ADC, 2, 4, AddressingMode::ZeroPageX),
        0x6D => some_op(0x6D, Mnemonic::ADC, 3, 4, AddressingMode::Absolute),
        0x7D => some_op(0x7D, Mnemonic::ADC, 3, 4, AddressingMode::AbsoluteX),
        0x79 => some_op(0x79, Mnemonic::ADC, 3, 4, AddressingMode::AbsoluteY),
        0x61 => some_op(0x61, Mnemonic::ADC, 2, 6, AddressingMode::IndirectX),
        0x71 => some_op(0x71, Mnemonic::ADC, 2, 5, AddressingMode::IndirectY),
        // AND
        0x29 => some_op(0x29, Mnemonic::AND, 2, 2, AddressingMode::Immediate),
        0x25 => some_op(0x25, Mnemonic::AND, 2, 3, AddressingMode::ZeroPage),
        0x35 => some_op(0x35, Mnemonic::AND, 2, 4, AddressingMode::ZeroPageX),
        0x2D => some_op(0x2D, Mnemonic::AND, 3, 4, AddressingMode::Absolute),
        0x3D => some_op(0x3D, Mnemonic::AND, 3, 4, AddressingMode::AbsoluteX),
        0x39 => some_op(0x39, Mnemonic::AND, 3, 4, AddressingMode::AbsoluteY),
        0x21 => some_op(0x21, Mnemonic::AND, 2, 6, AddressingMode::IndirectX),
        0x31 => some_op(0x31, Mnemonic::AND, 2, 5, AddressingMode::IndirectY),
        // ASL
        0x0A => some_op(0x0A, Mnemonic::ASL, 1, 2, AddressingMode::NoneAddressing),
        0x06 => some_op(0x06, Mnemonic::ASL, 2, 5, AddressingMode::ZeroPage),
        0x16 => some_op(0x16, Mnemonic::ASL, 2, 6, AddressingMode::ZeroPageX),
        0x0E => some_op(0x0E, Mnemonic::ASL, 3, 6, AddressingMode::Absolute),
        0x1E => some_op(0x1E, Mnemonic::ASL, 3, 7, AddressingMode::AbsoluteX),
        // BCC
        0x90 => some_op(0x90, Mnemonic::BCC, 2, 2, AddressingMode::NoneAddressing),
        // BCS
        0xB0 => some_op(0xB0, Mnemonic::BCS, 2, 2, AddressingMode::NoneAddressing),
        // BEQ
        0xF0 => some_op(0xF0, Mnemonic::BEQ, 2, 2, AddressingMode::NoneAddressing),
        // BIT
        0x24 => some_op(0x24, Mnemonic::BIT, 2, 3, AddressingMode::ZeroPage),
        0x2C => some_op(0x2C, Mnemonic::BIT, 3, 4, AddressingMode::Absolute),
        // BMI
        0x30 => some_op(0x30, Mnemonic::BMI, 2, 2, AddressingMode::NoneAddressing),
        // BNE
        0xD0 => some_op(0xD0, Mnemonic::BNE, 2, 2, AddressingMode::NoneAddressing),
        // BPL
        0x10 => some_op(0x10, Mnemonic::BPL, 2, 2, AddressingMode::NoneAddressing),
        // BRK
        0x00 => some_op(0x00, Mnemonic::BRK, 1, 7, AddressingMode::NoneAddressing),
        // BVC
        0x50 => some_op(0x50, Mnemonic::BVC, 2, 2, AddressingMode::NoneAddressing),
        // BVS
        0x70 => some_op(0x70, Mnemonic::BVS, 2, 2, AddressingMode::NoneAddressing),
        // CLC
        0x18 => some_op(0x18, Mnemonic::CLC, 1, 2, AddressingMode::NoneAddressing),
        // CLD
        0xD8 => some_op(0xD8, Mnemonic::CLD, 1, 2, AddressingMode::NoneAddressing),
        // CLI
        0x58 => some_op(0x58, Mnemonic::CLI, 1, 2, AddressingMode::NoneAddressing),
        // CLV
        0xB8 => some_op(0xB8, Mnemonic::CLV, 1, 2, AddressingMode::NoneAddressing),
        // CMP
        0xC9 => some_op(0xC9, Mnemonic::CMP, 2, 2, AddressingMode::Immediate),
        0xC5 => some_op(0xC5, Mnemonic::CMP, 2, 3, AddressingMode::ZeroPage),
        0xD5 => some_op(0xD5, Mnemonic::CMP, 2, 4, AddressingMode::ZeroPageX),
        0xCD => some_op(0xCD, Mnemonic::CMP, 3, 4, AddressingMode::Absolute),
        0xDD => some_op(0xDD, Mnemonic::CMP, 3, 4, AddressingMode::AbsoluteX),
        0xD9 => some_op(0xD9, Mnemonic::CMP, 3, 4, AddressingMode::AbsoluteY),
        0xC1 => some_op(0xC1, Mnemonic::CMP, 2, 6, AddressingMode::IndirectX),
        0xD1 => some_op(0xD1, Mnemonic::CMP, 2, 5, AddressingMode::IndirectY),
        // CPX
        0xE0 => some_op(0xE0, Mnemonic::CPX, 2, 2, AddressingMode::Immediate),
        0xE4 => some_op(0xE4, Mnemonic::CPX, 2, 3, AddressingMode::ZeroPage),
        0xEC => some_op(0xEC, Mnemonic::CPX, 3, 4, AddressingMode::Absolute),
        // CPY
        0xC0 => some_op(0xC0, Mnemonic::CPY, 2, 2, AddressingMode::Immediate),
        0xC4 => some_op(0xC4, Mnemonic::CPY, 2, 3, AddressingMode::ZeroPage),
        0xCC => some_op(0xCC, Mnemonic::CPY, 3, 4, AddressingMode::Absolute),
        // DEC
        0xC6 => some_op(0xC6, Mnemonic::DEC, 2, 5, AddressingMode::ZeroPage),
        0xD6 => some_op(0xD6, Mnemonic::DEC, 2, 6, AddressingMode::ZeroPageX),
        0xCE => some_op(0xCE, Mnemonic::DEC, 3, 6, AddressingMode::Absolute),
        0xDE => some_op(0xDE, Mnemonic::DEC, 3, 7, AddressingMode::AbsoluteX),
        // DEX
        0xCA => some_op(0xCA, Mnemonic::DEX, 1, 2, AddressingMode::NoneAddressing),
        // DEY
        0x88 => some_op(0x88, Mnemonic::DEY, 1, 2, AddressingMode::NoneAddressing),
        // EOR
        0x49 => some_op(0x49, Mnemonic::EOR, 2, 2, AddressingMode::Immediate),
        0x45 => some_op(0x45, Mnemonic::EOR, 2, 3, AddressingMode::ZeroPage),
        0x55 => some_op(0x55, Mnemonic::EOR, 2, 4, AddressingMode::ZeroPageX),
        0x4D => some_op(0x4D, Mnemonic::EOR, 3, 4, AddressingMode::Absolute),
        0x5D => some_op(0x5D, Mnemonic::EOR, 3, 4, AddressingMode::AbsoluteX),
        0x59 => some_op(0x59, Mnemonic::EOR, 3, 4, AddressingMode::AbsoluteY),
        0x41 => some_op(0x41, Mnemonic::EOR, 2, 6, AddressingMode::IndirectX),
        0x51 => some_op(0x51, Mnemonic::EOR, 2, 5, AddressingMode::IndirectY),
        // INC
        0xE6 => some_op(0xE6, Mnemonic::INC, 2, 5, AddressingMode::ZeroPage),
        0xF6 => some_op(0xF6, Mnemonic::INC, 2, 6, AddressingMode::ZeroPageX),
        0xEE => some_op(0xEE, Mnemonic::INC, 3, 6, AddressingMode::Absolute),
        0xFE => some_op(0xFE, Mnemonic::INC, 3, 7, AddressingMode::AbsoluteX),
        // INX
        0xE8 => some_op(0xE8, Mnemonic::INX, 1, 2, AddressingMode::NoneAddressing),
        // INY
        0xC8 => some_op(0xC8, Mnemonic::INY, 1, 2, AddressingMode::NoneAddressing),
        // JMP
        0x4C => some_op(0x4C, Mnemonic::JMP, 3, 3, AddressingMode::Absolute),
        0x6C => some_op(0x6C, Mnemonic::JMP, 3, 5, AddressingMode::Indirect),
        // JSR
        0x20 => some_op(0x20, Mnemonic::JSR, 3, 6, AddressingMode::Absolute),
        // LDA
        0xA9 => some_op(0xA9, Mnemonic::LDA, 2, 2, AddressingMode::Immediate),
        0xA5 => some_op(0xA5, Mnemonic::LDA, 2, 3, AddressingMode::ZeroPage),
        0xB5 => some_op(0xB5, Mnemonic::LDA, 2, 4, AddressingMode::ZeroPageX),
        0xAD => some_op(0xAD, Mnemonic::LDA, 3, 4, AddressingMode::Absolute),
        0xBD => some_op(0xBD, Mnemonic::LDA, 3, 4, AddressingMode::AbsoluteX),
        0xB9 => some_op(0xB9, Mnemonic::LDA, 3, 4, AddressingMode::AbsoluteY),
        0xA1 => some_op(0xA1, Mnemonic::LDA, 2, 6, AddressingMode::IndirectX),
        0xB1 => some_op(0xB1, Mnemonic::LDA, 2, 5, AddressingMode::IndirectY),
        // LDX
        0xA2 => some_op(0xA2, Mnemonic::LDX, 2, 2, AddressingMode::Immediate),
        0xA6 => some_op(0xA6, Mnemonic::LDX, 2, 3, AddressingMode::ZeroPage),
        0xB6 => some_op(0xB6, Mnemonic::LDX, 2, 4, AddressingMode::ZeroPageY),
        0xAE => some_op(0xAE, Mnemonic::LDX, 3, 4, AddressingMode::Absolute),
        0xBE => some_op(0xBE, Mnemonic::LDX, 3, 4, AddressingMode::AbsoluteY),
        // LDY
        0xA0 => some_op(0xA0, Mnemonic::LDY, 2, 2, AddressingMode::Immediate),
        0xA4 => some_op(0xA4, Mnemonic::LDY, 2, 3, AddressingMode::ZeroPage),
        0xB4 => some_op(0xB4, Mnemonic::LDY, 2, 4, AddressingMode::ZeroPageX),
        0xAC => some_op(0xAC, Mnemonic::LDY, 3, 4, AddressingMode::Absolute),
        0xBC => some_op(0xBC, Mnemonic::LDY, 3, 4, AddressingMode::AbsoluteX),
        // LSR
        0x4A => some_op(0x4A, Mnemonic::LSR, 1, 2, AddressingMode::NoneAddressing),
        0x46 => some_op(0x46, Mnemonic::LSR, 2, 5, AddressingMode::ZeroPage),
        0x56 => some_op(0x56, Mnemonic::LSR, 2, 6, AddressingMode::ZeroPageX),
        0x4E => some_op(0x4E, Mnemonic::LSR, 3, 6, AddressingMode::Absolute),
        0x5E => some_op(0x5E, Mnemonic::LSR, 3, 7, AddressingMode::AbsoluteX),
        // NOP
        0xEA => some_op(0xEA, Mnemonic::NOP, 1, 2, AddressingMode::NoneAddressing),
        // ORA
        0x09 => some_op(0x09, Mnemonic::ORA, 2, 2, AddressingMode::Immediate),
        0x05 => some_op(0x05, Mnemonic::ORA, 2, 3, AddressingMode::ZeroPage),
        0x15 => some_op(0x15, Mnemonic::ORA, 2, 4, AddressingMode::ZeroPageX),
        0x0D => some_op(0x0D, Mnemonic::ORA, 3, 4, AddressingMode::Absolute),
        0x1D => some_op(0x1D, Mnemonic::ORA, 3, 4, AddressingMode::AbsoluteX),
        0x19 => some_op(0x19, Mnemonic::ORA, 3, 4, AddressingMode::AbsoluteY),
        0x01 => some_op(0x01, Mnemonic::ORA, 2, 6, AddressingMode::IndirectX),
        0x11 => some_op(0x11, Mnemonic::ORA, 2, 5, AddressingMode::IndirectY),
        // PHA
        0x48 => some_op(0x48, Mnemonic::PHA, 1, 3, AddressingMode::NoneAddressing),
        // PHP
        0x08 => some_op(0x08, Mnemonic::PHP, 1, 3, AddressingMode::NoneAddressing),
        // PLA
        0x68 => some_op(0x68, Mnemonic::PLA, 1, 4, AddressingMode::NoneAddressing),
        // PLP
        0x28 => some_op(0x28, Mnemonic::PLP, 1, 4, AddressingMode::NoneAddressing),
        // ROL
        0x2A => some_op(0x2A, Mnemonic::ROL, 1, 2, AddressingMode::NoneAddressing),
        0x26 => some_op(0x26, Mnemonic::ROL, 2, 5, AddressingMode::ZeroPage),
        0x36 => some_op(0x36, Mnemonic::ROL, 2, 6, AddressingMode::ZeroPageX),
        0x2E => some_op(0x2E, Mnemonic::ROL, 3, 6, AddressingMode::Absolute),
        0x3E => some_op(0x3E, Mnemonic::ROL, 3, 7, AddressingMode::AbsoluteX),
        // ROR
        0x6A => some_op(0x6A, Mnemonic::ROR, 1, 2, AddressingMode::NoneAddressing),
        0x66 => some_op(0x66, Mnemonic::ROR, 2, 5, AddressingMode::ZeroPage),
        0x76 => some_op(0x76, Mnemonic::ROR, 2, 6, AddressingMode::ZeroPageX),
        0x6E => some_op(0x6E, Mnemonic::ROR, 3, 6, AddressingMode::Absolute),
        0x7E => some_op(0x7E, Mnemonic::ROR, 3, 7, AddressingMode::AbsoluteX),
        // RTI
        0x40 => some_op(0x40, Mnemonic::RTI, 1, 6, AddressingMode::NoneAddressing),
        // RTS
        0x60 => some_op(0x60, Mnemonic::RTS, 1, 6, AddressingMode::NoneAddressing),
        // SBC
        0xE9 => some_op(0xE9, Mnemonic::SBC, 2, 2, AddressingMode::Immediate),
        0xE5 => some_op(0xE5, Mnemonic::SBC, 2, 3, AddressingMode::ZeroPage),
        0xF5 => some_op(0xF5, Mnemonic::SBC, 2, 4, AddressingMode::ZeroPageX),
        0xED => some_op(0xED, Mnemonic::SBC, 3, 4, AddressingMode::Absolute),
        0xFD => some_op(0xFD, Mnemonic::SBC, 3, 4, AddressingMode::AbsoluteX),
        0xF9 => some_op(0xF9, Mnemonic::SBC, 3, 4, AddressingMode::AbsoluteY),
        0xE1 => some_op(0xE1, Mnemonic::SBC, 2, 6, AddressingMode::IndirectX),
        0xF1 => some_op(0xF1, Mnemonic::SBC, 2, 5, AddressingMode::IndirectY),
        // SEC
        0x38 => some_op(0x38, Mnemonic::SEC, 1, 2, AddressingMode::NoneAddressing),
        // SED
        0xF8 => some_op(0xF8, Mnemonic::SED, 1, 2, AddressingMode::NoneAddressing),
        // SEI
        0x78 => some_op(0x78, Mnemonic::SEI, 1, 2, AddressingMode::NoneAddressing),
        // STA
        0x85 => some_op(0x85, Mnemonic::STA, 2, 3, AddressingMode::ZeroPage),
        0x95 => some_op(0x95, Mnemonic::STA, 2, 4, AddressingMode::ZeroPageX),
        0x8D => some_op(0x8D, Mnemonic::STA, 3, 4, AddressingMode::Absolute),
        0x9D => some_op(0x9D, Mnemonic::STA, 3, 5, AddressingMode::AbsoluteX),
        0x99 => some_op(0x99, Mnemonic::STA, 3, 5, AddressingMode::AbsoluteY),
        0x81 => some_op(0x81, Mnemonic::STA, 2, 6, AddressingMode::IndirectX),
        0x91 => some_op(0x91, Mnemonic::STA, 2, 6, AddressingMode::IndirectY),
        // STX
        0x86 => some_op(0x86, Mnemonic::STX, 2, 3, AddressingMode::ZeroPage),
        0x96 => some_op(0x96, Mnemonic::STX, 2, 4, AddressingMode::ZeroPageY),
        0x8E => some_op(0x8E, Mnemonic::STX, 3, 4, AddressingMode::Absolute),
        // STY
        0x84 => some_op(0x84, Mnemonic::STY, 2, 3, AddressingMode::ZeroPage),
        0x94 => some_op(0x94, Mnemonic::STY, 2, 4, AddressingMode::ZeroPageX),
        0x8C => some_op(0x8C, Mnemonic::STY, 3, 4, AddressingMode::Absolute),
        // TAX
        0xAA => some_op(0xAA, Mnemonic::TAX, 1, 2, AddressingMode::NoneAddressing),
        // TAY
        0xA8 => some_op(0xA8, Mnemonic::TAY, 1, 2, AddressingMode::NoneAddressing),
        // TSX
        0xBA => some_op(0xBA, Mnemonic::TSX, 1, 2, AddressingMode::NoneAddressing),
        // TXA
        0x8A => some_op(0x8A, Mnemonic::TXA, 1, 2, AddressingMode::NoneAddressing),
        // TXS
        0x9A => some_op(0x9A, Mnemonic::TXS, 1, 2, AddressingMode::NoneAddressing),
        // TYA
        0x98 => some_op(0x98, Mnemonic::TYA, 1, 2, AddressingMode::NoneAddressing),
        _ => None,
    }
}

/// Executable lookup in the opcode table, proved equal to [`opcode_entry`].
pub fn opcode_lookup(code: u8) -> (r: Option<OpCode>)
    ensures
        r == opcode_entry(code),
        opcode_wf(r),
{
    proof {
        reveal(opcode_entry);
    }
    match code {
            // ADC
            0x69 => Some(OpCode::new(0x69, Mnemonic::ADC, 2, 2, AddressingMode::Immediate)),
            0x65 => Some(OpCode::new(0x65, Mnemonic::ADC, 2, 3, AddressingMode::ZeroPage)),
            0x75 => Some(OpCode::new(0x75, Mnemonic::ADC, 2, 4, AddressingMode::ZeroPageX)),
            0x6D => Some(OpCode::new(0x6D, Mnemonic::ADC, 3, 4, AddressingMode::Absolute)),
            0x7D => Some(OpCode::new(0x7D, Mnemonic::ADC, 3, 4, AddressingMode::AbsoluteX)),
            0x79 => Some(OpCode::new(0x79, Mnemonic::ADC, 3, 4, AddressingMode::AbsoluteY)),
            0x61 => Some(OpCode::new(0x61, Mnemonic::ADC, 2, 6, AddressingMode::IndirectX)),
            0x71 => Some(OpCode::new(0x71, Mnemonic::ADC, 2, 5, AddressingMode::IndirectY)),
            // AND
            0x29 => Some(OpCode::new(0x29, Mnemonic::AND, 2, 2, AddressingMode::Immediate)),
            0x25 => Some(OpCode::new(0x25, Mnemonic::AND, 2, 3, AddressingMode::ZeroPage)),
            0x35 => Some(OpCode::new(0x35, Mnemonic::AND, 2, 4, AddressingMode::ZeroPageX)),
            0x2D => Some(OpCode::new(0x2D, Mnemonic::AND, 3, 4, AddressingMode::Absolute)),
            0x3D => Some(OpCode::new(0x3D, Mnemonic::AND, 3, 4, AddressingMode::AbsoluteX)),
            0x39 => Some(OpCode::new(0x39, Mnemonic::AND, 3, 4, AddressingMode::AbsoluteY)),
            0x21 => Some(OpCode::new(0x21, Mnemonic::AND, 2, 6, AddressingMode::IndirectX)),
            0x31 => Some(OpCode::new(0x31, Mnemonic::AND, 2, 5, AddressingMode::IndirectY)),
            // ASL
            0x0A => Some(OpCode::new(0x0A, Mnemonic::ASL, 1, 2, AddressingMode::NoneAddressing)),
            0x06 => Some(OpCode::new(0x06, Mnemonic::ASL, 2, 5, AddressingMode::ZeroPage)),
            0x16 => Some(OpCode::new(0x16, Mnemonic::ASL, 2, 6, AddressingMode::ZeroPageX)),
            0x0E => Some(OpCode::new(0x0E, Mnemonic::ASL, 3, 6, AddressingMode::Absolute)),
            0x1E => Some(OpCode::new(0x1E, Mnemonic::ASL, 3, 7, AddressingMode::AbsoluteX)),
            // BCC
            0x90 => Some(OpCode::new(0x90, Mnemonic::BCC, 2, 2, AddressingMode::NoneAddressing)),
            // BCS
            0xB0 => Some(OpCode::new(0xB0, Mnemonic::BCS, 2, 2, AddressingMode::NoneAddressing)),
            // BEQ
            0xF0 => Some(OpCode::new(0xF0, Mnemonic::BEQ, 2, 2, AddressingMode::NoneAddressing)),
            // BIT
            0x24 => Some(OpCode::new(0x24, Mnemonic::BIT, 2, 3, AddressingMode::ZeroPage)),
            0x2C => Some(OpCode::new(0x2C, Mnemonic::BIT, 3, 4, AddressingMode::Absolute)),
            // BMI
            0x30 => Some(OpCode::new(0x30, Mnemonic::BMI, 2, 2, AddressingMode::NoneAddressing)),
            // BNE
            0xD0 => Some(OpCode::new(0xD0, Mnemonic::BNE, 2, 2, AddressingMode::NoneAddressing)),
            // BPL
            0x10 => Some(OpCode::new(0x10, Mnemonic::BPL, 2, 2, AddressingMode::NoneAddressing)),
            // BRK
            0x00 => Some(OpCode::new(0x00, Mnemonic::BRK, 1, 7, AddressingMode::NoneAddressing)),
            // BVC
            0x50 => Some(OpCode::new(0x50, Mnemonic::BVC, 2, 2, AddressingMode::NoneAddressing)),
            // BVS
            0x70 => Some(OpCode::new(0x70, Mnemonic::BVS, 2, 2, AddressingMode::NoneAddressing)),
            // CLC
            0x18 => Some(OpCode::new(0x18, Mnemonic::CLC, 1, 2, AddressingMode::NoneAddressing)),
            // CLD
            0xD8 => Some(OpCode::new(0xD8, Mnemonic::CLD, 1, 2, AddressingMode::NoneAddressing)),
            // CLI
            0x58 => Some(OpCode::new(0x58, Mnemonic::CLI, 1, 2, AddressingMode::NoneAddressing)),
            // CLV
            0xB8 => Some(OpCode::new(0xB8, Mnemonic::CLV, 1, 2, AddressingMode::NoneAddressing)),
            // CMP
            0xC9 => Some(OpCode::new(0xC9, Mnemonic::CMP, 2, 2, AddressingMode::Immediate)),
            0xC5 => Some(OpCode::new(0xC5, Mnemonic::CMP, 2, 3, AddressingMode::ZeroPage)),
            0xD5 => Some(OpCode::new(0xD5, Mnemonic::CMP, 2, 4, AddressingMode::ZeroPageX)),
            0xCD => Some(OpCode::new(0xCD, Mnemonic::CMP, 3, 4, AddressingMode::Absolute)),
            0xDD => Some(OpCode::new(0xDD, Mnemonic::CMP, 3, 4, AddressingMode::AbsoluteX)),
            0xD9 => Some(OpCode::new(0xD9, Mnemonic::CMP, 3, 4, AddressingMode::AbsoluteY)),
            0xC1 => Some(OpCode::new(0xC1, Mnemonic::CMP, 2, 6, AddressingMode::IndirectX)),
            0xD1 => Some(OpCode::new(0xD1, Mnemonic::CMP, 2, 5, AddressingMode::IndirectY)),
            // CPX
            0xE0 => Some(OpCode::new(0xE0, Mnemonic::CPX, 2, 2, AddressingMode::Immediate)),
            0xE4 => Some(OpCode::new(0xE4, Mnemonic::CPX, 2, 3, AddressingMode::ZeroPage)),
            0xEC => Some(OpCode::new(0xEC, Mnemonic::CPX, 3, 4, AddressingMode::Absolute)),
            // CPY
            0xC0 => Some(OpCode::new(0xC0, Mnemonic::CPY, 2, 2, AddressingMode::Immediate)),
            0xC4 => Some(OpCode::new(0xC4, Mnemonic::CPY, 2, 3, AddressingMode::ZeroPage)),
            0xCC => Some(OpCode::new(0xCC, Mnemonic::CPY, 3, 4, AddressingMode::Absolute)),
            // DEC
            0xC6 => Some(OpCode::new(0xC6, Mnemonic::DEC, 2, 5, AddressingMode::ZeroPage)),
            0xD6 => Some(OpCode::new(0xD6, Mnemonic::DEC, 2, 6, AddressingMode::ZeroPageX)),
            0xCE => Some(OpCode::new(0xCE, Mnemonic::DEC, 3, 6, AddressingMode::Absolute)),
            0xDE => Some(OpCode::new(0xDE, Mnemonic::DEC, 3, 7, AddressingMode::AbsoluteX)),
            // DEX
            0xCA => Some(OpCode::new(0xCA, Mnemonic::DEX, 1, 2, AddressingMode::NoneAddressing)),
            // DEY
            0x88 => Some(OpCode::new(0x88, Mnemonic::DEY, 1, 2, AddressingMode::NoneAddressing)),
            // EOR
            0x49 => Some(OpCode::new(0x49, Mnemonic::EOR, 2, 2, AddressingMode::Immediate)),
            0x45 => Some(OpCode::new(0x45, Mnemonic::EOR, 2, 3, AddressingMode::ZeroPage)),
            0x55 => Some(OpCode::new(0x55, Mnemonic::EOR, 2, 4, AddressingMode::ZeroPageX)),
            0x4D => Some(OpCode::new(0x4D, Mnemonic::EOR, 3, 4, AddressingMode::Absolute)),
            0x5D => Some(OpCode::new(0x5D, Mnemonic::EOR, 3, 4, AddressingMode::AbsoluteX)),
            0x59 => Some(OpCode::new(0x59, Mnemonic::EOR, 3, 4, AddressingMode::AbsoluteY)),
            0x41 => Some(OpCode::new(0x41, Mnemonic::EOR, 2, 6, AddressingMode::IndirectX)),
            0x51 => Some(OpCode::new(0x51, Mnemonic::EOR, 2, 5, AddressingMode::IndirectY)),
            // INC
            0xE6 => Some(OpCode::new(0xE6, Mnemonic::INC, 2, 5, AddressingMode::ZeroPage)),
            0xF6 => Some(OpCode::new(0xF6, Mnemonic::INC, 2, 6, AddressingMode::ZeroPageX)),
            0xEE => Some(OpCode::new(0xEE, Mnemonic::INC, 3, 6, AddressingMode::Absolute)),
            0xFE => Some(OpCode::new(0xFE, Mnemonic::INC, 3, 7, AddressingMode::AbsoluteX)),
            // INX
            0xE8 => Some(OpCode::new(0xE8, Mnemonic::INX, 1, 2, AddressingMode::NoneAddressing)),
            // INY
            0xC8 => Some(OpCode::new(0xC8, Mnemonic::INY, 1, 2, AddressingMode::NoneAddressing)),
            // JMP
            0x4C => Some(OpCode::new(0x4C, Mnemonic::JMP, 3, 3, AddressingMode::Absolute)),
            0x6C => Some(OpCode::new(0x6C, Mnemonic::JMP, 3, 5, AddressingMode::Indirect)),
            // JSR
            0x20 => Some(OpCode::new(0x20, Mnemonic::JSR, 3, 6, AddressingMode::Absolute)),
            // LDA
            0xA9 => Some(OpCode::new(0xA9, Mnemonic::LDA, 2, 2, AddressingMode::Immediate)),
            0xA5 => Some(OpCode::new(0xA5, Mnemonic::LDA, 2, 3, AddressingMode::ZeroPage)),
            0xB5 => Some(OpCode::new(0xB5, Mnemonic::LDA, 2, 4, AddressingMode::ZeroPageX)),
            0xAD => Some(OpCode::new(0xAD, Mnemonic::LDA, 3, 4, AddressingMode::Absolute)),
            0xBD => Some(OpCode::new(0xBD, Mnemonic::LDA, 3, 4, AddressingMode::AbsoluteX)),
            0xB9 => Some(OpCode::new(0xB9, Mnemonic::LDA, 3, 4, AddressingMode::AbsoluteY)),
            0xA1 => Some(OpCode::new(0xA1, Mnemonic::LDA, 2, 6, AddressingMode::IndirectX)),
            0xB1 => Some(OpCode::new(0xB1, Mnemonic::LDA, 2, 5, AddressingMode::IndirectY)),
            // LDX
            0xA2 => Some(OpCode::new(0xA2, Mnemonic::LDX, 2, 2, AddressingMode::Immediate)),
            0xA6 => Some(OpCode::new(0xA6, Mnemonic::LDX, 2, 3, AddressingMode::ZeroPage)),
            0xB6 => Some(OpCode::new(0xB6, Mnemonic::LDX, 2, 4, AddressingMode::ZeroPageY)),
            0xAE => Some(OpCode::new(0xAE, Mnemonic::LDX, 3, 4, AddressingMode::Absolute)),
            0xBE => Some(OpCode::new(0xBE, Mnemonic::LDX, 3, 4, AddressingMode::AbsoluteY)),
            // LDY
            0xA0 => Some(OpCode::new(0xA0, Mnemonic::LDY, 2, 2, AddressingMode::Immediate)),
            0xA4 => Some(OpCode::new(0xA4, Mnemonic::LDY, 2, 3, AddressingMode::ZeroPage)),
            0xB4 => Some(OpCode::new(0xB4, Mnemonic::LDY, 2, 4, AddressingMode::ZeroPageX)),
            0xAC => Some(OpCode::new(0xAC, Mnemonic::LDY, 3, 4, AddressingMode::Absolute)),
            0xBC => Some(OpCode::new(0xBC, Mnemonic::LDY, 3, 4, AddressingMode::AbsoluteX)),
            // LSR
            0x4A => Some(OpCode::new(0x4A, Mnemonic::LSR, 1, 2, AddressingMode::NoneAddressing)),
            0x46 => Some(OpCode::new(0x46, Mnemonic::LSR, 2, 5, AddressingMode::ZeroPage)),
            0x56 => Some(OpCode::new(0x56, Mnemonic::LSR, 2, 6, AddressingMode::ZeroPageX)),
            0x4E => Some(OpCode::new(0x4E, Mnemonic::LSR, 3, 6, AddressingMode::Absolute)),
            0x5E => Some(OpCode::new(0x5E, Mnemonic::LSR, 3, 7, AddressingMode::AbsoluteX)),
            // NOP
            0xEA => Some(OpCode::new(0xEA, Mnemonic::NOP, 1, 2, AddressingMode::NoneAddressing)),
            // ORA
            0x09 => Some(OpCode::new(0x09, Mnemonic::ORA, 2, 2, AddressingMode::Immediate)),
            0x05 => Some(OpCode::new(0x05, Mnemonic::ORA, 2, 3, AddressingMode::ZeroPage)),
            0x15 => Some(OpCode::new(0x15, Mnemonic::ORA, 2, 4, AddressingMode::ZeroPageX)),
            0x0D => Some(OpCode::new(0x0D, Mnemonic::ORA, 3, 4, AddressingMode::Absolute)),
            0x1D => Some(OpCode::new(0x1D, Mnemonic::ORA, 3, 4, AddressingMode::AbsoluteX)),
            0x19 => Some(OpCode::new(0x19, Mnemonic::ORA, 3, 4, AddressingMode::AbsoluteY)),
            0x01 => Some(OpCode::new(0x01, Mnemonic::ORA, 2, 6, AddressingMode::IndirectX)),
            0x11 => Some(OpCode::new(0x11, Mnemonic::ORA, 2, 5, AddressingMode::IndirectY)),
            // PHA
            0x48 => Some(OpCode::new(0x48, Mnemonic::PHA, 1, 3, AddressingMode::NoneAddressing)),
            // PHP
            0x08 => Some(OpCode::new(0x08, Mnemonic::PHP, 1, 3, AddressingMode::NoneAddressing)),
            // PLA
            0x68 => Some(OpCode::new(0x68, Mnemonic::PLA, 1, 4, AddressingMode::NoneAddressing)),
            // PLP
            0x28 => Some(OpCode::new(0x28, Mnemonic::PLP, 1, 4, AddressingMode::NoneAddressing)),
            // ROL
            0x2A => Some(OpCode::new(0x2A, Mnemonic::ROL, 1, 2, AddressingMode::NoneAddressing)),
            0x26 => Some(OpCode::new(0x26, Mnemonic::ROL, 2, 5, AddressingMode::ZeroPage)),
            0x36 => Some(OpCode::new(0x36, Mnemonic::ROL, 2, 6, AddressingMode::ZeroPageX)),
            0x2E => Some(OpCode::new(0x2E, Mnemonic::ROL, 3, 6, AddressingMode::Absolute)),
            0x3E => Some(OpCode::new(0x3E, Mnemonic::ROL, 3, 7, AddressingMode::AbsoluteX)),
            // ROR
            0x6A => Some(OpCode::new(0x6A, Mnemonic::ROR, 1, 2, AddressingMode::NoneAddressing)),
            0x66 => Some(OpCode::new(0x66, Mnemonic::ROR, 2, 5, AddressingMode::ZeroPage)),
            0x76 => Some(OpCode::new(0x76, Mnemonic::ROR, 2, 6, AddressingMode::ZeroPageX)),
            0x6E => Some(OpCode::new(0x6E, Mnemonic::ROR, 3, 6, AddressingMode::Absolute)),
            0x7E => Some(OpCode::new(0x7E, Mnemonic::ROR, 3, 7, AddressingMode::AbsoluteX)),
            // RTI
            0x40 => Some(OpCode::new(0x40, Mnemonic::RTI, 1, 6, AddressingMode::NoneAddressing)),
            // RTS
            0x60 => Some(OpCode::new(0x60, Mnemonic::RTS, 1, 6, AddressingMode::NoneAddressing)),
            // SBC
            0xE9 => Some(OpCode::new(0xE9, Mnemonic::SBC, 2, 2, AddressingMode::Immediate)),
            0xE5 => Some(OpCode::new(0xE5, Mnemonic::SBC, 2, 3, AddressingMode::ZeroPage)),
            0xF5 => Some(OpCode::new(0xF5, Mnemonic::SBC, 2, 4, AddressingMode::ZeroPageX)),
            0xED => Some(OpCode::new(0xED, Mnemonic::SBC, 3, 4, AddressingMode::Absolute)),
            0xFD => Some(OpCode::new(0xFD, Mnemonic::SBC, 3, 4, AddressingMode::AbsoluteX)),
            0xF9 => Some(OpCode::new(0xF9, Mnemonic::SBC, 3, 4, AddressingMode::AbsoluteY)),
            0xE1 => Some(OpCode::new(0xE1, Mnemonic::SBC, 2, 6, AddressingMode::IndirectX)),
            0xF1 => Some(OpCode::new(0xF1, Mnemonic::SBC, 2, 5, AddressingMode::IndirectY)),
            // SEC
            0x38 => Some(OpCode::new(0x38, Mnemonic::SEC, 1, 2, AddressingMode::NoneAddressing)),
            // SED
            0xF8 => Some(OpCode::new(0xF8, Mnemonic::SED, 1, 2, AddressingMode::NoneAddressing)),
            // SEI
            0x78 => Some(OpCode::new(0x78, Mnemonic::SEI, 1, 2, AddressingMode::NoneAddressing)),
            // STA
            0x85 => Some(OpCode::new(0x85, Mnemonic::STA, 2, 3, AddressingMode::ZeroPage)),
            0x95 => Some(OpCode::new(0x95, Mnemonic::STA, 2, 4, AddressingMode::ZeroPageX)),
            0x8D => Some(OpCode::new(0x8D, Mnemonic::STA, 3, 4, AddressingMode::Absolute)),
            0x9D => Some(OpCode::new(0x9D, Mnemonic::STA, 3, 5, AddressingMode::AbsoluteX)),
            0x99 => Some(OpCode::new(0x99, Mnemonic::STA, 3, 5, AddressingMode::AbsoluteY)),
            0x81 => Some(OpCode::new(0x81, Mnemonic::STA, 2, 6, AddressingMode::IndirectX)),
            0x91 => Some(OpCode::new(0x91, Mnemonic::STA, 2, 6, AddressingMode::IndirectY)),
            // STX
            0x86 => Some(OpCode::new(0x86, Mnemonic::STX, 2, 3, AddressingMode::ZeroPage)),
            0x96 => Some(OpCode::new(0x96, Mnemonic::STX, 2, 4, AddressingMode::ZeroPageY)),
            0x8E => Some(OpCode::new(0x8E, Mnemonic::STX, 3, 4, AddressingMode::Absolute)),
            // STY
            0x84 => Some(OpCode::new(0x84, Mnemonic::STY, 2, 3, AddressingMode::ZeroPage)),
            0x94 => Some(OpCode::new(0x94, Mnemonic::STY, 2, 4, AddressingMode::ZeroPageX)),
            0x8C => Some(OpCode::new(0x8C, Mnemonic::STY, 3, 4, AddressingMode::Absolute)),
            // TAX
            0xAA => Some(OpCode::new(0xAA, Mnemonic::TAX, 1, 2, AddressingMode::NoneAddressing)),
            // TAY
            0xA8 => Some(OpCode::new(0xA8, Mnemonic::TAY, 1, 2, AddressingMode::NoneAddressing)),
            // TSX
            0xBA => Some(OpCode::new(0xBA, Mnemonic::TSX, 1, 2, AddressingMode::NoneAddressing)),
            // TXA
            0x8A => Some(OpCode::new(0x8A, Mnemonic::TXA, 1, 2, AddressingMode::NoneAddressing)),
            // TXS
            0x9A => Some(OpCode::new(0x9A, Mnemonic::TXS, 1, 2, AddressingMode::NoneAddressing)),
            // TYA
            0x98 => Some(OpCode::new(0x98, Mnemonic::TYA, 1, 2, AddressingMode::NoneAddressing)),
        _ => None,
    }
}

/// The table in the 256-slot array form: slot `b` holds the entry for opcode
/// byte `b`.
pub fn generate_op_codes() -> (table: Vec<Option<OpCode>>)
    ensures
        table@.len() == 256,
        forall|b: int| 0 <= b < 256 ==> table@[b] == opcode_entry(b as u8),
{
    let mut table: Vec<Option<OpCode>> = Vec::new();
    let mut i: usize = 0;
    while i < 256
        invariant
            i <= 256,
            table@.len() == i,
            forall|b: int| 0 <= b < i ==> table@[b] == opcode_entry(b as u8),
        decreases 256 - i,
    {
        table.push(opcode_lookup(i as u8));
        i = i + 1;
    }
    table
}

} // verus!
