//! The mathematical model of the 6502.
//!
//! `CpuState` is the abstract machine state: the three user registers, the
//! packed status byte, the program counter, the stack pointer and the 64 KiB
//! memory as a sequence of bytes.  The spec functions in this module define
//! the effect of every addressing mode and instruction on that state; the
//! executable interpreter in [`crate::cpu`] is proved to follow them.

use vstd::prelude::*;

use crate::cpu::addressing_mode::AddressingMode;
use crate::cpu::op_codes::Mnemonic;
use crate::cpu::op_codes::OpCode;
use crate::cpu::op_codes::opcode_entry;

verus! {

/// Number of addressable bytes: the full 16-bit address space.
pub const MEMORY_SIZE: usize = 0x10000;

/// Base address of the processor stack (page 1).
pub const STACK_BASE: u16 = 0x0100;

/// Value of the stack pointer in a freshly created CPU.
pub const STACK_RESET: u8 = 0xFD;

/// Default load base for program images.
pub const LOAD_BASE: u16 = 0x8000;

/// Address of the reset vector, read by `reset` to initialise the PC.
pub const RESET_VECTOR: u16 = 0xFFFC;

pub const FLAG_CARRY: u8 = 0b0000_0001;
pub const FLAG_ZERO: u8 = 0b0000_0010;
pub const FLAG_INTERRUPT_DISABLE: u8 = 0b0000_0100;
pub const FLAG_DECIMAL_MODE: u8 = 0b0000_1000;
pub const FLAG_BREAK: u8 = 0b0001_0000;
pub const FLAG_OVERFLOW: u8 = 0b0100_0000;
pub const FLAG_NEGATIVE: u8 = 0b1000_0000;

/// Reduce an integer to a byte, with 8-bit wrap-around.
pub open spec fn wrap8(n: int) -> u8 {
    (n % 0x100) as u8
}

/// Reduce an integer to a 16-bit word, with 16-bit wrap-around.
pub open spec fn wrap16(n: int) -> u16 {
    (n % 0x10000) as u16
}

/// The 16-bit word with the given high and low bytes.
pub open spec fn combine16(hi: u8, lo: u8) -> u16 {
    (hi * 0x100 + lo) as u16
}

/// Low byte of a 16-bit word.
pub open spec fn lo8(v: u16) -> u8 {
    (v % 0x100) as u8
}

/// High byte of a 16-bit word.
pub open spec fn hi8(v: u16) -> u8 {
    (v / 0x100) as u8
}

/// Whether a flag bit is set in a status byte.
pub open spec fn has_flag(status: u8, flag: u8) -> bool {
    status & flag != 0
}

/// The status byte with one flag bit switched on or off.
pub open spec fn with_flag(status: u8, flag: u8, on: bool) -> u8 {
    if on {
        status | flag
    } else {
        status & !flag
    }
}

/// The status byte after the ZERO and NEGATIVE flags have been updated for a
/// freshly produced value: ZERO tracks `v == 0`, NEGATIVE tracks bit 7 of `v`.
pub open spec fn set_zn(status: u8, v: u8) -> u8 {
    with_flag(with_flag(status, FLAG_ZERO, v == 0), FLAG_NEGATIVE, v & 0x80 != 0)
}

/// The abstract state of the processor.
pub struct CpuState {
    pub a: u8,
    pub x: u8,
    pub y: u8,
    pub status: u8,
    pub pc: u16,
    pub sp: u8,
    pub mem: Seq<u8>,
}

impl CpuState {
    /// The memory covers the whole 16-bit address space.
    pub open spec fn wf(self) -> bool {
        self.mem.len() == MEMORY_SIZE
    }

    /// The byte in memory at a 16-bit address.
    pub open spec fn byte_at(self, addr: u16) -> u8 {
        self.mem[addr as int]
    }

    /// The little-endian 16-bit word at `addr`; the high byte comes from
    /// `addr + 1` with 16-bit wrap-around.
    pub open spec fn word_at(self, addr: u16) -> u16 {
        combine16(self.byte_at(wrap16(addr + 1)), self.byte_at(addr))
    }

    /// The carry flag as the 0-or-1 summand it contributes to ADC/SBC.
    pub open spec fn carry_in(self) -> int {
        if has_flag(self.status, FLAG_CARRY) {
            1
        } else {
            0
        }
    }

    pub open spec fn with_a(self, a: u8) -> CpuState {
        CpuState { a, x: self.x, y: self.y, status: self.status, pc: self.pc, sp: self.sp, mem: self.mem }
    }

    pub open spec fn with_x(self, x: u8) -> CpuState {
        CpuState { a: self.a, x, y: self.y, status: self.status, pc: self.pc, sp: self.sp, mem: self.mem }
    }

    pub open spec fn with_y(self, y: u8) -> CpuState {
        CpuState { a: self.a, x: self.x, y, status: self.status, pc: self.pc, sp: self.sp, mem: self.mem }
    }

    pub open spec fn with_status(self, status: u8) -> CpuState {
        CpuState { a: self.a, x: self.x, y: self.y, status, pc: self.pc, sp: self.sp, mem: self.mem }
    }

    pub open spec fn with_pc(self, pc: u16) -> CpuState {
        CpuState { a: self.a, x: self.x, y: self.y, status: self.status, pc, sp: self.sp, mem: self.mem }
    }

    pub open spec fn with_sp(self, sp: u8) -> CpuState {
        CpuState { a: self.a, x: self.x, y: self.y, status: self.status, pc: self.pc, sp, mem: self.mem }
    }

    pub open spec fn with_mem(self, mem: Seq<u8>) -> CpuState {
        CpuState { a: self.a, x: self.x, y: self.y, status: self.status, pc: self.pc, sp: self.sp, mem }
    }
}

/// The effective operand address for an addressing mode, with the PC already
/// pointing at the first operand byte.  `Indirect` and `NoneAddressing` have
/// no effective address and are never passed to the resolver.
pub open spec fn operand_addr(s: CpuState, mode: AddressingMode) -> u16 {
    match mode {
        AddressingMode::Immediate => s.pc,
        AddressingMode::ZeroPage => s.byte_at(s.pc) as u16,
        AddressingMode::Absolute => s.word_at(s.pc),
        AddressingMode::ZeroPageX => wrap8(s.byte_at(s.pc) + s.x) as u16,
        AddressingMode::ZeroPageY => wrap8(s.byte_at(s.pc) + s.y) as u16,
        AddressingMode::AbsoluteX => wrap16(s.word_at(s.pc) + s.x),
        AddressingMode::AbsoluteY => wrap16(s.word_at(s.pc) + s.y),
        AddressingMode::IndirectX => {
            let ptr = wrap8(s.byte_at(s.pc) + s.x);
            combine16(s.byte_at(wrap8(ptr + 1) as u16), s.byte_at(ptr as u16))
        },
        AddressingMode::IndirectY => {
            let base = s.byte_at(s.pc);
            wrap16(combine16(s.byte_at(wrap8(base + 1) as u16), s.byte_at(base as u16)) + s.y)
        },
        AddressingMode::Indirect => 0,
        AddressingMode::NoneAddressing => 0,
    }
}

/// The operand byte read through an addressing mode.
pub open spec fn read_op(s: CpuState, mode: AddressingMode) -> u8 {
    s.byte_at(operand_addr(s, mode))
}

/// The absolute address of the stack slot at a stack-pointer offset.
pub open spec fn stack_slot(sp: u8) -> u16 {
    (STACK_BASE + sp) as u16
}

/// Push one byte: write at the current slot, then decrement SP with 8-bit
/// wrap-around.
pub open spec fn push_byte_spec(s: CpuState, v: u8) -> CpuState {
    s.with_mem(s.mem.update(stack_slot(s.sp) as int, v)).with_sp(wrap8(s.sp - 1))
}

/// Pull one byte: increment SP with 8-bit wrap-around, then read the slot it
/// points at.  Returns the new state and the byte read.
pub open spec fn pull_byte_spec(s: CpuState) -> (CpuState, u8) {
    let sp = wrap8(s.sp + 1);
    (s.with_sp(sp), s.byte_at(stack_slot(sp)))
}

/// Push a 16-bit value, high byte first.
pub open spec fn push_u16_spec(s: CpuState, v: u16) -> CpuState {
    push_byte_spec(push_byte_spec(s, hi8(v)), lo8(v))
}

/// Pull a 16-bit value: low byte first, then high.
pub open spec fn pull_u16_spec(s: CpuState) -> (CpuState, u16) {
    let (s1, lo) = pull_byte_spec(s);
    let (s2, hi) = pull_byte_spec(s1);
    (s2, combine16(hi, lo))
}

/// The ADC core, shared by ADC and SBC: `A + m + CARRY` with 8-bit wrap,
/// setting CARRY from the carry out of bit 7 and OVERFLOW from signed
/// overflow.  ZERO and NEGATIVE are updated separately by the callers.
pub open spec fn add_a_spec(s: CpuState, m: u8) -> CpuState {
    let sum = s.a + m + s.carry_in();
    let result = wrap8(sum);
    let carry = sum > 0xFF;
    let overflow = (m ^ result) & (result ^ s.a) & 0x80 != 0;
    s.with_a(result).with_status(
        with_flag(with_flag(s.status, FLAG_CARRY, carry), FLAG_OVERFLOW, overflow),
    )
}

/// ADC of a given operand byte: the add core followed by the ZERO/NEGATIVE
/// update on the sum.
pub open spec fn adc_value_spec(s: CpuState, m: u8) -> CpuState {
    let s1 = add_a_spec(s, m);
    s1.with_status(set_zn(s1.status, s1.a))
}

pub open spec fn adc_spec(s: CpuState, mode: AddressingMode) -> CpuState {
    adc_value_spec(s, read_op(s, mode))
}

/// SBC is ADC of the one's complement of the operand.
pub open spec fn sbc_spec(s: CpuState, mode: AddressingMode) -> CpuState {
    adc_value_spec(s, read_op(s, mode) ^ 0xFF)
}

pub open spec fn and_spec(s: CpuState, mode: AddressingMode) -> CpuState {
    let v = read_op(s, mode) & s.a;
    s.with_a(v).with_status(set_zn(s.status, v))
}

pub open spec fn ora_spec(s: CpuState, mode: AddressingMode) -> CpuState {
    let v = read_op(s, mode) | s.a;
    s.with_a(v).with_status(set_zn(s.status, v))
}

pub open spec fn eor_spec(s: CpuState, mode: AddressingMode) -> CpuState {
    let v = read_op(s, mode) ^ s.a;
    s.with_a(v).with_status(set_zn(s.status, v))
}

/// BIT: ZERO from `A & m`, OVERFLOW and NEGATIVE copied from operand bits 6
/// and 7.
pub open spec fn bit_spec(s: CpuState, mode: AddressingMode) -> CpuState {
    let v = read_op(s, mode);
    s.with_status(
        with_flag(
            with_flag(with_flag(s.status, FLAG_ZERO, s.a & v == 0), FLAG_OVERFLOW, v & 0x40 != 0),
            FLAG_NEGATIVE,
            v & 0x80 != 0,
        ),
    )
}

/// CMP/CPX/CPY against register value `r`: CARRY tracks `r >= m`, ZERO and
/// NEGATIVE are set from `r - m` with 8-bit wrap.  The register is unchanged.
pub open spec fn compare_spec(s: CpuState, mode: AddressingMode, r: u8) -> CpuState {
    let m = read_op(s, mode);
    s.with_status(set_zn(with_flag(s.status, FLAG_CARRY, m <= r), wrap8(r - m)))
}

pub open spec fn lda_spec(s: CpuState, mode: AddressingMode) -> CpuState {
    let v = read_op(s, mode);
    s.with_a(v).with_status(set_zn(s.status, v))
}

pub open spec fn ldx_spec(s: CpuState, mode: AddressingMode) -> CpuState {
    let v = read_op(s, mode);
    s.with_x(v).with_status(set_zn(s.status, v))
}

pub open spec fn ldy_spec(s: CpuState, mode: AddressingMode) -> CpuState {
    let v = read_op(s, mode);
    s.with_y(v).with_status(set_zn(s.status, v))
}

pub open spec fn sta_spec(s: CpuState, mode: AddressingMode) -> CpuState {
    s.with_mem(s.mem.update(operand_addr(s, mode) as int, s.a))
}

pub open spec fn stx_spec(s: CpuState, mode: AddressingMode) -> CpuState {
    s.with_mem(s.mem.update(operand_addr(s, mode) as int, s.x))
}

pub open spec fn sty_spec(s: CpuState, mode: AddressingMode) -> CpuState {
    s.with_mem(s.mem.update(operand_addr(s, mode) as int, s.y))
}

pub open spec fn tax_spec(s: CpuState) -> CpuState {
    s.with_x(s.a).with_status(set_zn(s.status, s.a))
}

pub open spec fn tay_spec(s: CpuState) -> CpuState {
    s.with_y(s.a).with_status(set_zn(s.status, s.a))
}

pub open spec fn tsx_spec(s: CpuState) -> CpuState {
    s.with_x(s.sp).with_status(set_zn(s.status, s.sp))
}

pub open spec fn txa_spec(s: CpuState) -> CpuState {
    s.with_a(s.x).with_status(set_zn(s.status, s.x))
}

/// TXS copies X to the stack pointer and, alone among the transfers, leaves
/// the flags untouched.
pub open spec fn txs_spec(s: CpuState) -> CpuState {
    s.with_sp(s.x)
}

pub open spec fn tya_spec(s: CpuState) -> CpuState {
    s.with_a(s.y).with_status(set_zn(s.status, s.y))
}

pub open spec fn inx_spec(s: CpuState) -> CpuState {
    let v = wrap8(s.x + 1);
    s.with_x(v).with_status(set_zn(s.status, v))
}

pub open spec fn iny_spec(s: CpuState) -> CpuState {
    let v = wrap8(s.y + 1);
    s.with_y(v).with_status(set_zn(s.status, v))
}

pub open spec fn dex_spec(s: CpuState) -> CpuState {
    let v = wrap8(s.x - 1);
    s.with_x(v).with_status(set_zn(s.status, v))
}

pub open spec fn dey_spec(s: CpuState) -> CpuState {
    let v = wrap8(s.y - 1);
    s.with_y(v).with_status(set_zn(s.status, v))
}

pub open spec fn inc_spec(s: CpuState, mode: AddressingMode) -> CpuState {
    let addr = operand_addr(s, mode);
    let v = wrap8(s.byte_at(addr) + 1);
    s.with_mem(s.mem.update(addr as int, v)).with_status(set_zn(s.status, v))
}

pub open spec fn dec_spec(s: CpuState, mode: AddressingMode) -> CpuState {
    let addr = operand_addr(s, mode);
    let v = wrap8(s.byte_at(addr) - 1);
    s.with_mem(s.mem.update(addr as int, v)).with_status(set_zn(s.status, v))
}

/// ASL on a value: CARRY takes the bit shifted out at the top.
pub open spec fn asl_acc_spec(s: CpuState) -> CpuState {
    let v = s.a;
    let r = v << 1;
    s.with_a(r).with_status(set_zn(with_flag(s.status, FLAG_CARRY, v & 0x80 != 0), r))
}

pub open spec fn asl_mem_spec(s: CpuState, mode: AddressingMode) -> CpuState {
    let addr = operand_addr(s, mode);
    let v = s.byte_at(addr);
    let r = v << 1;
    s.with_mem(s.mem.update(addr as int, r)).with_status(
        set_zn(with_flag(s.status, FLAG_CARRY, v & 0x80 != 0), r),
    )
}

/// LSR on a value: CARRY takes the bit shifted out at the bottom.
pub open spec fn lsr_acc_spec(s: CpuState) -> CpuState {
    let v = s.a;
    let r = v >> 1;
    s.with_a(r).with_status(set_zn(with_flag(s.status, FLAG_CARRY, v & 0x01 != 0), r))
}

pub open spec fn lsr_mem_spec(s: CpuState, mode: AddressingMode) -> CpuState {
    let addr = operand_addr(s, mode);
    let v = s.byte_at(addr);
    let r = v >> 1;
    s.with_mem(s.mem.update(addr as int, r)).with_status(
        set_zn(with_flag(s.status, FLAG_CARRY, v & 0x01 != 0), r),
    )
}

/// The byte produced by ROL: shift left, with the old carry entering at
/// bit 0.
pub open spec fn rol_val(v: u8, carry: bool) -> u8 {
    if carry {
        (v << 1) | 0x01
    } else {
        v << 1
    }
}

/// The byte produced by ROR: shift right, with the old carry entering at
/// bit 7.
pub open spec fn ror_val(v: u8, carry: bool) -> u8 {
    if carry {
        (v >> 1) | 0x80
    } else {
        v >> 1
    }
}

pub open spec fn rol_acc_spec(s: CpuState) -> CpuState {
    let v = s.a;
    let r = rol_val(v, has_flag(s.status, FLAG_CARRY));
    s.with_a(r).with_status(set_zn(with_flag(s.status, FLAG_CARRY, v & 0x80 != 0), r))
}

pub open spec fn rol_mem_spec(s: CpuState, mode: AddressingMode) -> CpuState {
    let addr = operand_addr(s, mode);
    let v = s.byte_at(addr);
    let r = rol_val(v, has_flag(s.status, FLAG_CARRY));
    s.with_mem(s.mem.update(addr as int, r)).with_status(
        set_zn(with_flag(s.status, FLAG_CARRY, v & 0x80 != 0), r),
    )
}

pub open spec fn ror_acc_spec(s: CpuState) -> CpuState {
    let v = s.a;
    let r = ror_val(v, has_flag(s.status, FLAG_CARRY));
    s.with_a(r).with_status(set_zn(with_flag(s.status, FLAG_CARRY, v & 0x01 != 0), r))
}

pub open spec fn ror_mem_spec(s: CpuState, mode: AddressingMode) -> CpuState {
    let addr = operand_addr(s, mode);
    let v = s.byte_at(addr);
    let r = ror_val(v, has_flag(s.status, FLAG_CARRY));
    s.with_mem(s.mem.update(addr as int, r)).with_status(
        set_zn(with_flag(s.status, FLAG_CARRY, v & 0x01 != 0), r),
    )
}

/// The branch operand as a signed displacement.
pub open spec fn sign8(off: u8) -> int {
    if off < 0x80 {
        off as int
    } else {
        off - 0x100
    }
}

/// A taken branch lands at `PC + offset + 1`: the `+ 1` consumes the operand
/// byte, the offset is signed.
pub open spec fn branch_target(pc: u16, off: u8) -> u16 {
    wrap16(pc + sign8(off) + 1)
}

pub open spec fn branch_spec(s: CpuState, cond: bool) -> CpuState {
    if cond {
        s.with_pc(branch_target(s.pc, s.byte_at(s.pc)))
    } else {
        s
    }
}

/// The target of an indirect JMP through pointer `p`, with the hardware
/// page-boundary bug: when `p` sits at the end of a page, the high byte of
/// the target comes from the start of that same page, not from the next one.
pub open spec fn indirect_target(s: CpuState, p: u16) -> u16 {
    if p & 0x00FF == 0x00FF {
        combine16(s.byte_at(p & 0xFF00), s.byte_at(p))
    } else {
        s.word_at(p)
    }
}

pub open spec fn jmp_spec(s: CpuState, mode: AddressingMode) -> CpuState {
    let p = s.word_at(s.pc);
    if mode == AddressingMode::Indirect {
        s.with_pc(indirect_target(s, p))
    } else {
        s.with_pc(p)
    }
}

/// JSR pushes the address of its own last operand byte (`PC + 1`), then
/// jumps.  The jump target is read after the push, so a program that points
/// the stack at its own JSR operand sees the pushed bytes.
pub open spec fn jsr_spec(s: CpuState) -> CpuState {
    let s1 = push_u16_spec(s, wrap16(s.pc + 1));
    s1.with_pc(s1.word_at(s.pc))
}

/// RTS pulls the return address and resumes one byte past it.
pub open spec fn rts_spec(s: CpuState) -> CpuState {
    let (s1, v) = pull_u16_spec(s);
    s1.with_pc(wrap16(v + 1))
}

/// RTI pulls the status byte, then the PC (without the RTS `+ 1`).
pub open spec fn rti_spec(s: CpuState) -> CpuState {
    let (s1, st) = pull_byte_spec(s);
    let (s2, p) = pull_u16_spec(s1);
    s2.with_status(st).with_pc(p)
}

pub open spec fn pha_spec(s: CpuState) -> CpuState {
    push_byte_spec(s, s.a)
}

pub open spec fn php_spec(s: CpuState) -> CpuState {
    push_byte_spec(s, s.status)
}

pub open spec fn pla_spec(s: CpuState) -> CpuState {
    let (s1, v) = pull_byte_spec(s);
    s1.with_a(v).with_status(set_zn(s1.status, v))
}

/// PLP restores the whole status byte; together with PHP it round-trips the
/// raw status word.
pub open spec fn plp_spec(s: CpuState) -> CpuState {
    let (s1, v) = pull_byte_spec(s);
    s1.with_status(v)
}

/// The effect of one decoded instruction other than BRK, with the PC already
/// past the opcode byte.
pub open spec fn instr_spec(s: CpuState, op: OpCode) -> CpuState {
    match op.name {
        Mnemonic::ADC => adc_spec(s, op.addr_mode),
        Mnemonic::AND => and_spec(s, op.addr_mode),
        Mnemonic::ASL => if op.addr_mode == AddressingMode::NoneAddressing {
            asl_acc_spec(s)
        } else {
            asl_mem_spec(s, op.addr_mode)
        },
        Mnemonic::BCC => branch_spec(s, !has_flag(s.status, FLAG_CARRY)),
        Mnemonic::BCS => branch_spec(s, has_flag(s.status, FLAG_CARRY)),
        Mnemonic::BEQ => branch_spec(s, has_flag(s.status, FLAG_ZERO)),
        Mnemonic::BIT => bit_spec(s, op.addr_mode),
        Mnemonic::BMI => branch_spec(s, has_flag(s.status, FLAG_NEGATIVE)),
        Mnemonic::BNE => branch_spec(s, !has_flag(s.status, FLAG_ZERO)),
        Mnemonic::BPL => branch_spec(s, !has_flag(s.status, FLAG_NEGATIVE)),
        Mnemonic::BRK => s,
        Mnemonic::BVC => branch_spec(s, !has_flag(s.status, FLAG_OVERFLOW)),
        Mnemonic::BVS => branch_spec(s, has_flag(s.status, FLAG_OVERFLOW)),
        Mnemonic::CLC => s.with_status(with_flag(s.status, FLAG_CARRY, false)),
        Mnemonic::CLD => s.with_status(with_flag(s.status, FLAG_DECIMAL_MODE, false)),
        Mnemonic::CLI => s.with_status(with_flag(s.status, FLAG_INTERRUPT_DISABLE, false)),
        Mnemonic::CLV => s.with_status(with_flag(s.status, FLAG_OVERFLOW, false)),
        Mnemonic::CMP => compare_spec(s, op.addr_mode, s.a),
        Mnemonic::CPX => compare_spec(s, op.addr_mode, s.x),
        Mnemonic::CPY => compare_spec(s, op.addr_mode, s.y),
        Mnemonic::DEC => dec_spec(s, op.addr_mode),
        Mnemonic::DEX => dex_spec(s),
        Mnemonic::DEY => dey_spec(s),
        Mnemonic::EOR => eor_spec(s, op.addr_mode),
        Mnemonic::INC => inc_spec(s, op.addr_mode),
        Mnemonic::INX => inx_spec(s),
        Mnemonic::INY => iny_spec(s),
        Mnemonic::JMP => jmp_spec(s, op.addr_mode),
        Mnemonic::JSR => jsr_spec(s),
        Mnemonic::LDA => lda_spec(s, op.addr_mode),
        Mnemonic::LDX => ldx_spec(s, op.addr_mode),
        Mnemonic::LDY => ldy_spec(s, op.addr_mode),
        Mnemonic::LSR => if op.addr_mode == AddressingMode::NoneAddressing {
            lsr_acc_spec(s)
        } else {
            lsr_mem_spec(s, op.addr_mode)
        },
        Mnemonic::NOP => s,
        Mnemonic::ORA => ora_spec(s, op.addr_mode),
        Mnemonic::PHA => pha_spec(s),
        Mnemonic::PHP => php_spec(s),
        Mnemonic::PLA => pla_spec(s),
        Mnemonic::PLP => plp_spec(s),
        Mnemonic::ROL => if op.addr_mode == AddressingMode::NoneAddressing {
            rol_acc_spec(s)
        } else {
            rol_mem_spec(s, op.addr_mode)
        },
        Mnemonic::ROR => if op.addr_mode == AddressingMode::NoneAddressing {
            ror_acc_spec(s)
        } else {
            ror_mem_spec(s, op.addr_mode)
        },
        Mnemonic::RTI => rti_spec(s),
        Mnemonic::RTS => rts_spec(s),
        Mnemonic::SBC => sbc_spec(s, op.addr_mode),
        Mnemonic::SEC => s.with_status(with_flag(s.status, FLAG_CARRY, true)),
        Mnemonic::SED => s.with_status(with_flag(s.status, FLAG_DECIMAL_MODE, true)),
        Mnemonic::SEI => s.with_status(with_flag(s.status, FLAG_INTERRUPT_DISABLE, true)),
        Mnemonic::STA => sta_spec(s, op.addr_mode),
        Mnemonic::STX => stx_spec(s, op.addr_mode),
        Mnemonic::STY => sty_spec(s, op.addr_mode),
        Mnemonic::TAX => tax_spec(s),
        Mnemonic::TAY => tay_spec(s),
        Mnemonic::TSX => tsx_spec(s),
        Mnemonic::TXA => txa_spec(s),
        Mnemonic::TXS => txs_spec(s),
        Mnemonic::TYA => tya_spec(s),
    }
}

/// One fetch-decode-execute step.
///
/// `None` when the opcode byte at the PC has no table entry.  Otherwise the
/// new state and whether the instruction was BRK, which halts the run with
/// the PC one byte past the BRK opcode.  For every other instruction, if the
/// handler left the PC where the dispatch put it (just past the opcode), the
/// PC advances over the operand bytes.
pub open spec fn step_spec(s: CpuState) -> Option<(CpuState, bool)> {
    match opcode_entry(s.byte_at(s.pc)) {
        None => None,
        Some(op) => {
            let s1 = s.with_pc(wrap16(s.pc + 1));
            if op.name == Mnemonic::BRK {
                Some((s1, true))
            } else {
                let s2 = instr_spec(s1, op);
                let s3 = if s2.pc == s1.pc {
                    s2.with_pc(wrap16(s2.pc + op.size - 1))
                } else {
                    s2
                };
                Some((s3, false))
            }
        },
    }
}

/// After the ZERO/NEGATIVE update for a value `v`, ZERO holds exactly when
/// `v == 0`, NEGATIVE holds exactly when `v >= 0x80` (bit 7 of `v`), and the
/// five other flag bits keep their previous value.
pub proof fn lemma_set_zn_flags(st: u8, v: u8)
    by (bit_vector)
    ensures
        has_flag(set_zn(st, v), FLAG_ZERO) <==> v == 0,
        has_flag(set_zn(st, v), FLAG_NEGATIVE) <==> v >= 0x80,
        has_flag(set_zn(st, v), FLAG_CARRY) == has_flag(st, FLAG_CARRY),
        has_flag(set_zn(st, v), FLAG_INTERRUPT_DISABLE) == has_flag(st, FLAG_INTERRUPT_DISABLE),
        has_flag(set_zn(st, v), FLAG_DECIMAL_MODE) == has_flag(st, FLAG_DECIMAL_MODE),
        has_flag(set_zn(st, v), FLAG_BREAK) == has_flag(st, FLAG_BREAK),
        has_flag(set_zn(st, v), FLAG_OVERFLOW) == has_flag(st, FLAG_OVERFLOW),
{
}

/// Switching one single-bit flag on or off sets exactly that bit: the flag
/// itself afterwards reads as `on`, and any bit disjoint from it keeps its
/// value.
proof fn lemma_with_flag(st: u8, f: u8, on: bool, g: u8)
    by (bit_vector)
    ensures
        (f == FLAG_CARRY || f == FLAG_ZERO || f == FLAG_INTERRUPT_DISABLE || f
            == FLAG_DECIMAL_MODE || f == FLAG_BREAK || f == FLAG_OVERFLOW || f == FLAG_NEGATIVE)
            ==> (has_flag(with_flag(st, f, on), f) <==> on),
        ((f == FLAG_CARRY || f == FLAG_ZERO || f == FLAG_INTERRUPT_DISABLE || f
            == FLAG_DECIMAL_MODE || f == FLAG_BREAK || f == FLAG_OVERFLOW || f == FLAG_NEGATIVE)
            && (g == FLAG_CARRY || g == FLAG_ZERO || g == FLAG_INTERRUPT_DISABLE || g
            == FLAG_DECIMAL_MODE || g == FLAG_BREAK || g == FLAG_OVERFLOW || g == FLAG_NEGATIVE)
            && f != g) ==> (has_flag(with_flag(st, f, on), g) == has_flag(st, g)),
{
}

/// SBC is ADC of the one's complement: for every state and addressing mode,
/// subtracting the operand gives exactly the state that adding the operand's
/// complement (with the same carry) gives — same accumulator, same flags.
pub proof fn lemma_sbc_is_adc_of_complement(s: CpuState, mode: AddressingMode)
    ensures
        sbc_spec(s, mode) == adc_value_spec(s, read_op(s, mode) ^ 0xFF),
{
}

/// After a comparison of register value `r` with the operand `m`: CARRY
/// holds exactly when `r >= m`, ZERO exactly when `r == m`, NEGATIVE is
/// bit 7 of `r - m` modulo 256, and the registers, PC, SP and memory are
/// unchanged.
pub proof fn lemma_compare_flags(s: CpuState, mode: AddressingMode, r: u8)
    ensures
        has_flag(compare_spec(s, mode, r).status, FLAG_CARRY) <==> r >= read_op(s, mode),
        has_flag(compare_spec(s, mode, r).status, FLAG_ZERO) <==> r == read_op(s, mode),
        has_flag(compare_spec(s, mode, r).status, FLAG_NEGATIVE) <==> wrap8(
            r - read_op(s, mode),
        ) >= 0x80,
        compare_spec(s, mode, r) == s.with_status(compare_spec(s, mode, r).status),
{
    let m = read_op(s, mode);
    let st1 = with_flag(s.status, FLAG_CARRY, m <= r);
    let d = wrap8(r - m);
    lemma_set_zn_flags(st1, d);
    lemma_with_flag(s.status, FLAG_CARRY, m <= r, 0);
    assert(d == 0 <==> r == m);
}

/// ROL then ROR on an accumulator restores both the value and the carry: the
/// (value, carry) pair moves on a 9-bit ring and one rotation each way is the
/// identity.
pub proof fn lemma_rol_ror_round_trip(v: u8, c: bool)
    by (bit_vector)
    ensures
        ror_val(rol_val(v, c), v & 0x80 != 0) == v,
        rol_val(v, c) & 0x01 != 0 <==> c,
{
}

/// The state-level ROL/ROR round trip: after ROL A then ROR A, the
/// accumulator and the carry flag are back to their starting values.
pub proof fn lemma_rol_ror_acc_round_trip(s: CpuState)
    ensures
        ror_acc_spec(rol_acc_spec(s)).a == s.a,
        has_flag(ror_acc_spec(rol_acc_spec(s)).status, FLAG_CARRY) == has_flag(
            s.status,
            FLAG_CARRY,
        ),
{
    let c = has_flag(s.status, FLAG_CARRY);
    let r = rol_val(s.a, c);
    lemma_rol_ror_round_trip(s.a, c);
    let s1 = rol_acc_spec(s);
    // After ROL, CARRY is bit 7 of the old accumulator.
    lemma_set_zn_flags(with_flag(s.status, FLAG_CARRY, s.a & 0x80 != 0), r);
    lemma_with_flag(s.status, FLAG_CARRY, s.a & 0x80 != 0, 0);
    assert(has_flag(s1.status, FLAG_CARRY) <==> s.a & 0x80 != 0);
    // After ROR, CARRY is bit 0 of the rotated byte, which is the old carry.
    let s2 = ror_acc_spec(s1);
    lemma_set_zn_flags(with_flag(s1.status, FLAG_CARRY, r & 0x01 != 0), s2.a);
    lemma_with_flag(s1.status, FLAG_CARRY, r & 0x01 != 0, 0);
}

/// The indirect-JMP page-boundary bug: when the pointer's low byte is 0xFF,
/// the high byte of the target comes from the start of the pointer's own
/// page — the fetch address shares the page with the pointer and is never
/// the following address.
pub proof fn lemma_indirect_jmp_page_bug(s: CpuState, p: u16)
    requires
        p & 0x00FF == 0x00FF,
    ensures
        indirect_target(s, p) == combine16(s.byte_at((p & 0xFF00) as u16), s.byte_at(p)),
        (p & 0xFF00) / 0x100 == p / 0x100,
        (p & 0xFF00) != wrap16(p + 1),
{
    assert((p & 0xFF00) / 0x100 == p / 0x100 && p & 0xFF00 == p - 0xFF) by (bit_vector)
        requires
            p & 0x00FF == 0x00FF,
    ;
}

/// The branch mnemonics, and whether each takes its branch in a given state.
pub open spec fn branch_taken(s: CpuState, name: Mnemonic) -> bool {
    match name {
        Mnemonic::BCC => !has_flag(s.status, FLAG_CARRY),
        Mnemonic::BCS => has_flag(s.status, FLAG_CARRY),
        Mnemonic::BEQ => has_flag(s.status, FLAG_ZERO),
        Mnemonic::BMI => has_flag(s.status, FLAG_NEGATIVE),
        Mnemonic::BNE => !has_flag(s.status, FLAG_ZERO),
        Mnemonic::BPL => !has_flag(s.status, FLAG_NEGATIVE),
        Mnemonic::BVC => !has_flag(s.status, FLAG_OVERFLOW),
        Mnemonic::BVS => has_flag(s.status, FLAG_OVERFLOW),
        _ => false,
    }
}

/// For every state whose opcode byte has a table entry, a step succeeds; and
/// unless the instruction is a taken branch, a jump, JSR, RTS, RTI or BRK,
/// the PC advances past the instruction by exactly its size (modulo 2^16).
pub proof fn lemma_step_advances_pc(s: CpuState, op: OpCode)
    requires
        opcode_entry(s.byte_at(s.pc)) == Some(op),
        !matches!(
            op.name,
            Mnemonic::JMP | Mnemonic::JSR | Mnemonic::RTS | Mnemonic::RTI | Mnemonic::BRK
        ),
        !branch_taken(s, op.name),
    ensures
        step_spec(s) matches Some((t, halted)) && !halted && t.pc == wrap16(s.pc + op.size),
{
    let s1 = s.with_pc(wrap16(s.pc + 1));
    assert(instr_spec(s1, op).pc == s1.pc);
}

/// Reducing modulo 256 before or after adding or subtracting an integer
/// makes no difference.
proof fn lemma_wrap8_shift(a: int, b: int)
    ensures
        wrap8(wrap8(a) + b) == wrap8(a + b),
        wrap8(wrap8(a) - b) == wrap8(a - b),
{
    vstd::arithmetic::div_mod::lemma_add_mod_noop_right(b, a, 0x100);
    vstd::arithmetic::div_mod::lemma_sub_mod_noop(a, b, 0x100);
    vstd::arithmetic::div_mod::lemma_sub_mod_noop_right(a % 0x100, b, 0x100);
    vstd::arithmetic::div_mod::lemma_mod_twice(a, 0x100);
}

/// Two integers less than 256 apart have different byte reductions.
proof fn lemma_wrap8_distinct(a: int, b: int)
    requires
        0 < a - b < 0x100,
    ensures
        wrap8(a) != wrap8(b),
{
    if wrap8(a) == wrap8(b) {
        vstd::arithmetic::div_mod::lemma_sub_mod_noop(a, b, 0x100);
        vstd::arithmetic::div_mod::lemma_small_mod((a - b) as nat, 0x100);
        assert(false);
    }
}

/// Pushing one byte and pulling it back returns that byte, and only the
/// stack pointer is restored: the pushed byte stays in the stack slot.
pub proof fn lemma_push_pull_byte(s: CpuState, v: u8)
    requires
        s.wf(),
    ensures
        pull_byte_spec(push_byte_spec(s, v)).1 == v,
        pull_byte_spec(push_byte_spec(s, v)).0 == push_byte_spec(s, v).with_sp(s.sp),
{
    lemma_wrap8_shift(s.sp - 1, 1);
    vstd::arithmetic::div_mod::lemma_small_mod(s.sp as nat, 0x100);
}

/// Pushing a 16-bit value and pulling one back is the identity: the value
/// returns intact and SP is back at its starting point.
pub proof fn lemma_push_pull_u16(s: CpuState, v: u16)
    requires
        s.wf(),
    ensures
        pull_u16_spec(push_u16_spec(s, v)).1 == v,
        pull_u16_spec(push_u16_spec(s, v)).0 == push_u16_spec(s, v).with_sp(s.sp),
{
    vstd::arithmetic::div_mod::lemma_small_mod(s.sp as nat, 0x100);
    lemma_wrap8_shift(s.sp - 2, 1);
    lemma_wrap8_shift(s.sp - 1, 1);
    lemma_wrap8_distinct(s.sp as int, s.sp - 1);
    assert(combine16(hi8(v), lo8(v)) == v) by {
        vstd::arithmetic::div_mod::lemma_fundamental_div_mod(v as int, 0x100);
    }
}

/// The state after pushing a whole byte sequence, first element first.
pub open spec fn push_seq_spec(s: CpuState, vs: Seq<u8>) -> CpuState
    decreases vs.len(),
{
    if vs.len() == 0 {
        s
    } else {
        push_seq_spec(push_byte_spec(s, vs[0]), vs.drop_first())
    }
}

/// The state after pulling `n` bytes, together with the bytes in pull order.
pub open spec fn pull_seq_spec(s: CpuState, n: nat) -> (CpuState, Seq<u8>)
    decreases n,
{
    if n == 0 {
        (s, Seq::empty())
    } else {
        let (s1, v) = pull_byte_spec(s);
        let (s2, rest) = pull_seq_spec(s1, (n - 1) as nat);
        (s2, seq![v] + rest)
    }
}

/// Pulling `q.len()` bytes just reads the slots above SP in order: if those
/// slots hold `q`, the pulls return `q` and move SP up by `q.len()`.
proof fn lemma_pull_seq_reads(t: CpuState, q: Seq<u8>)
    requires
        forall|i: int|
            0 <= i < q.len() ==> t.mem[stack_slot(wrap8(t.sp + 1 + i)) as int] == q[i],
    ensures
        pull_seq_spec(t, q.len()) == (t.with_sp(wrap8(t.sp + q.len())), q),
    decreases q.len(),
{
    vstd::arithmetic::div_mod::lemma_small_mod(t.sp as nat, 0x100);
    if q.len() == 0 {
        assert(q =~= Seq::<u8>::empty());
        assert(t.with_sp(wrap8(t.sp as int)) == t);
    } else {
        let (s1, v) = pull_byte_spec(t);
        assert(v == q[0]);
        assert forall|i: int|
            0 <= i < q.drop_first().len() implies s1.mem[stack_slot(wrap8(s1.sp + 1 + i)) as int]
            == q.drop_first()[i] by {
            lemma_wrap8_shift(t.sp + 1, 1 + i);
            assert(wrap8(s1.sp + 1 + i) == wrap8(t.sp + 1 + (i + 1)));
        }
        lemma_pull_seq_reads(s1, q.drop_first());
        lemma_wrap8_shift(t.sp + 1, q.len() - 1);
        assert(seq![q[0]] + q.drop_first() =~= q);
    }
}

/// Pushing `vs` lowers SP by `vs.len()` (with wrap), writes `vs[i]` into the
/// slot at offset `SP - i`, and touches nothing else: registers, PC, status
/// and all other memory keep their values.
proof fn lemma_push_seq_writes(s: CpuState, vs: Seq<u8>)
    requires
        s.wf(),
        vs.len() <= 0x100,
    ensures
        push_seq_spec(s, vs).sp == wrap8(s.sp - vs.len()),
        push_seq_spec(s, vs).a == s.a,
        push_seq_spec(s, vs).x == s.x,
        push_seq_spec(s, vs).y == s.y,
        push_seq_spec(s, vs).status == s.status,
        push_seq_spec(s, vs).pc == s.pc,
        push_seq_spec(s, vs).mem.len() == s.mem.len(),
        forall|i: int|
            0 <= i < vs.len() ==> push_seq_spec(s, vs).mem[stack_slot(wrap8(s.sp - i)) as int]
                == vs[i],
        forall|a: int|
            0 <= a < s.mem.len() && (forall|i: int|
                0 <= i < vs.len() ==> a != stack_slot(#[trigger] wrap8(s.sp - i)) as int)
                ==> #[trigger] push_seq_spec(s, vs).mem[a] == s.mem[a],
    decreases vs.len(),
{
    vstd::arithmetic::div_mod::lemma_small_mod(s.sp as nat, 0x100);
    if vs.len() > 0 {
        let s1 = push_byte_spec(s, vs[0]);
        let vs1 = vs.drop_first();
        lemma_push_seq_writes(s1, vs1);
        assert(push_seq_spec(s, vs) == push_seq_spec(s1, vs1));
        assert(wrap8(s.sp - 0) == s.sp);
        assert forall|i: int|
            0 <= i < vs.len() implies push_seq_spec(s, vs).mem[stack_slot(
            #[trigger] wrap8(s.sp - i)) as int] == vs[i] by {
            if i == 0 {
                // The later pushes land at offsets 1 .. vs.len() - 1 below SP
                // and cannot reach the slot written first.
                assert forall|j: int|
                    0 <= j < vs1.len() implies stack_slot(s.sp) as int != stack_slot(
                    #[trigger] wrap8(s1.sp - j)) as int by {
                    lemma_wrap8_shift(s.sp - 1, j);
                    assert(wrap8(s1.sp - j) == wrap8(s.sp - (j + 1)));
                    lemma_wrap8_distinct(s.sp as int, s.sp - (j + 1));
                }
                assert(s1.mem[stack_slot(s.sp) as int] == vs[0]);
                assert(push_seq_spec(s1, vs1).mem[stack_slot(s.sp) as int] == s1.mem[stack_slot(
                    s.sp,
                ) as int]);
            } else {
                lemma_wrap8_shift(s.sp - 1, i - 1);
                assert(wrap8(s1.sp - (i - 1)) == wrap8(s.sp - i));
                assert(push_seq_spec(s1, vs1).mem[stack_slot(wrap8(s1.sp - (i - 1))) as int]
                    == vs1[i - 1]);
            }
        }
        assert forall|a: int|
            0 <= a < s.mem.len() && (forall|i: int|
                0 <= i < vs.len() ==> a != stack_slot(#[trigger] wrap8(s.sp - i)) as int) implies
            #[trigger] push_seq_spec(s, vs).mem[a] == s.mem[a] by {
            assert forall|j: int|
                0 <= j < vs1.len() implies a != stack_slot(#[trigger] wrap8(s1.sp - j)) as int by {
                lemma_wrap8_shift(s.sp - 1, j);
                assert(wrap8(s1.sp - j) == wrap8(s.sp - (j + 1)));
                assert(a != stack_slot(wrap8(s.sp - (j + 1))) as int);
            }
            assert(push_seq_spec(s1, vs1).mem[a] == s1.mem[a]);
            assert(a != stack_slot(wrap8(s.sp - 0)) as int);
        }
    }
}

/// The stack round trip: pushing any sequence of at most 256 bytes and then
/// pulling the same number of bytes yields the sequence reversed, with SP
/// back at its starting value.  (A longer sequence wraps around page 1 and
/// overwrites its own oldest bytes, so 256 is the real capacity.)
pub proof fn lemma_stack_round_trip(s: CpuState, vs: Seq<u8>)
    requires
        s.wf(),
        vs.len() <= 0x100,
    ensures
        pull_seq_spec(push_seq_spec(s, vs), vs.len()) == (
            push_seq_spec(s, vs).with_sp(s.sp),
            vs.reverse(),
        ),
{
    let t = push_seq_spec(s, vs);
    lemma_push_seq_writes(s, vs);
    vstd::arithmetic::div_mod::lemma_small_mod(s.sp as nat, 0x100);
    assert forall|i: int|
        0 <= i < vs.reverse().len() implies t.mem[stack_slot(wrap8(t.sp + 1 + i)) as int]
        == vs.reverse()[i] by {
        lemma_wrap8_shift(s.sp - vs.len(), 1 + i);
        assert(wrap8(t.sp + 1 + i) == wrap8(s.sp - (vs.len() - 1 - i)));
    }
    lemma_pull_seq_reads(t, vs.reverse());
    lemma_wrap8_shift(s.sp - vs.len(), vs.len() as int);
    assert(wrap8(t.sp + vs.reverse().len()) == s.sp);
}

/// `n` non-halting steps lead from `s0` to `s1`.
pub open spec fn advances(s0: CpuState, s1: CpuState, n: nat) -> bool
    decreases n,
{
    if n == 0 {
        s0 == s1
    } else {
        exists|mid: CpuState|
            step_spec(s0) == Some((mid, false)) && advances(mid, s1, (n - 1) as nat)
    }
}

/// Appending one more non-halting step to a chain of `n` steps gives a chain
/// of `n + 1` steps.
pub proof fn lemma_advances_snoc(s0: CpuState, s1: CpuState, n: nat, s2: CpuState)
    requires
        advances(s0, s1, n),
        step_spec(s1) == Some((s2, false)),
    ensures
        advances(s0, s2, n + 1),
    decreases n,
{
    if n == 0 {
        assert(advances(s2, s2, 0));
    } else {
        let mid = choose|mid: CpuState|
            step_spec(s0) == Some((mid, false)) && advances(mid, s1, (n - 1) as nat);
        lemma_advances_snoc(mid, s1, (n - 1) as nat, s2);
        assert(advances(mid, s2, n));
    }
}

} // verus!

