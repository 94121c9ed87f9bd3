//! The executable 6502 interpreter.
//!
//! [`CPU`] holds the concrete machine state; every method is specified
//! against the abstract model in [`semantics`] and verified to follow it.

pub mod addressing_mode;
pub mod op_codes;
pub mod semantics;

use vstd::prelude::*;

use crate::cpu::addressing_mode::AddressingMode;
use crate::cpu::op_codes::{Mnemonic, OpCode, mode_resolvable, opcode_entry, opcode_lookup, opcode_wf};
use crate::cpu::semantics::{
    CpuState, FLAG_CARRY, FLAG_DECIMAL_MODE, FLAG_INTERRUPT_DISABLE, FLAG_NEGATIVE, FLAG_OVERFLOW,
    FLAG_ZERO, LOAD_BASE, MEMORY_SIZE, RESET_VECTOR, STACK_BASE, STACK_RESET, add_a_spec, adc_spec,
    advances, and_spec, asl_acc_spec, asl_mem_spec, bit_spec, branch_spec, branch_target,
    compare_spec, dec_spec, dex_spec, dey_spec, eor_spec, has_flag, inc_spec, instr_spec,
    inx_spec, iny_spec, jmp_spec, jsr_spec, lda_spec, ldx_spec, ldy_spec, lemma_advances_snoc,
    lemma_set_zn_flags, lsr_acc_spec, lsr_mem_spec, operand_addr, ora_spec, pha_spec, php_spec,
    pla_spec, plp_spec, pull_byte_spec, pull_u16_spec, push_byte_spec, push_u16_spec,
    rol_acc_spec, rol_mem_spec, ror_acc_spec, ror_mem_spec, rti_spec, rts_spec, sbc_spec,
    set_zn, sta_spec, step_spec, stx_spec, sty_spec, tax_spec, tay_spec, tsx_spec, txa_spec,
    txs_spec, tya_spec, with_flag, wrap16, wrap8,
};

verus! {

/// The concrete processor: three 8-bit user registers, the packed status
/// byte, the 16-bit program counter, the 8-bit stack pointer and 64 KiB of
/// memory.
#[derive(Debug, Clone)]
pub struct CPU {
    pub reg_a: u8,
    pub reg_x: u8,
    pub reg_y: u8,
    pub status: u8,
    /// Program counter.
    pub pc: u16,
    /// Stack pointer: an offset into page 1.
    pub sp: u8,
    memory: Vec<u8>,
}

impl View for CPU {
    type V = CpuState;

    closed spec fn view(&self) -> CpuState {
        CpuState {
            a: self.reg_a,
            x: self.reg_x,
            y: self.reg_y,
            status: self.status,
            pc: self.pc,
            sp: self.sp,
            mem: self.memory@,
        }
    }
}

impl CPU {
    /// The memory vector covers the whole address space.
    pub open spec fn wf(&self) -> bool {
        self@.wf()
    }

    /// A fresh processor: registers and memory zeroed, all flags clear except
    /// INTERRUPT_DISABLE, and the stack pointer at its reset value.
    pub fn new() -> (cpu: CPU)
        ensures
            cpu.wf(),
            cpu@.a == 0,
            cpu@.x == 0,
            cpu@.y == 0,
            cpu@.status == FLAG_INTERRUPT_DISABLE,
            cpu@.pc == 0,
            cpu@.sp == STACK_RESET,
            forall|addr: int| 0 <= addr < MEMORY_SIZE ==> cpu@.mem[addr] == 0,
    {
        let mut memory: Vec<u8> = Vec::new();
        while memory.len() < MEMORY_SIZE
            invariant
                memory@.len() <= MEMORY_SIZE,
                forall|i: int| 0 <= i < memory@.len() ==> memory@[i] == 0,
            decreases MEMORY_SIZE - memory@.len(),
        {
            memory.push(0);
        }
        CPU {
            reg_a: 0,
            reg_x: 0,
            reg_y: 0,
            status: FLAG_INTERRUPT_DISABLE,
            pc: 0,
            sp: STACK_RESET,
            memory,
        }
    }

    /// Read the byte at a 16-bit address.
    pub fn mem_read(&self, addr: u16) -> (v: u8)
        requires
            self.wf(),
        ensures
            v == self@.byte_at(addr),
    {
        self.memory[addr as usize]
    }

    /// Write a byte at a 16-bit address.
    pub fn mem_write(&mut self, addr: u16, value: u8)
        requires
            old(self).wf(),
        ensures
            final(self).wf(),
            final(self)@ == (old(self)@.with_mem(old(self)@.mem.update(addr as int, value))),
    {
        self.memory[addr as usize] = value;
    }

    /// Read the little-endian 16-bit word at `addr`; the high byte comes from
    /// `addr + 1` with 16-bit wrap-around.
    pub fn mem_read_u16(&self, addr: u16) -> (v: u16)
        requires
            self.wf(),
        ensures
            v == self@.word_at(addr),
    {
        let lo = self.mem_read(addr);
        let hi = self.mem_read(addr.wrapping_add(1));
        proof {
            lemma_wrapping_add_u16(addr, 1);
        }
        (hi as u16) * 0x100 + (lo as u16)
    }

    /// Write a 16-bit word at `addr`, little-endian; the high byte goes to
    /// `addr + 1` with 16-bit wrap-around.
    pub fn mem_write_u16(&mut self, addr: u16, value: u16)
        requires
            old(self).wf(),
        ensures
            final(self).wf(),
            final(self)@ == (old(self)@.with_mem(
                old(self)@.mem.update(addr as int, semantics::lo8(value)).update(
                    wrap16(addr + 1) as int,
                    semantics::hi8(value),
                ),
            )),
    {
        let lo = (value % 0x100) as u8;
        let hi = (value / 0x100) as u8;
        self.mem_write(addr, lo);
        proof {
            lemma_wrapping_add_u16(addr, 1);
        }
        self.mem_write(addr.wrapping_add(1), hi);
    }

    /// Copy a program image to memory at the default load base and point the
    /// reset vector at it.  Only memory changes: the image bytes and the two
    /// reset-vector bytes; everything else keeps its value.
    pub fn load(&mut self, program: Vec<u8>)
        requires
            old(self).wf(),
            program@.len() <= 0x8000,
        ensures
            final(self).wf(),
            final(self)@ == (old(self)@.with_mem(final(self)@.mem)),
            forall|i: int|
                0 <= i < program@.len() && LOAD_BASE + i != RESET_VECTOR && LOAD_BASE + i
                    != RESET_VECTOR + 1 ==> final(self)@.mem[LOAD_BASE + i] == program@[i],
            final(self)@.mem[RESET_VECTOR as int] == semantics::lo8(LOAD_BASE),
            final(self)@.mem[RESET_VECTOR + 1] == semantics::hi8(LOAD_BASE),
            forall|addr: int|
                0 <= addr < MEMORY_SIZE && !(LOAD_BASE <= addr < LOAD_BASE + program@.len())
                    && addr != RESET_VECTOR && addr != RESET_VECTOR + 1
                    ==> final(self)@.mem[addr] == old(self)@.mem[addr],
    {
        let mut i: usize = 0;
        while i < program.len()
            invariant
                self.wf(),
                program@.len() <= 0x8000,
                i <= program@.len(),
                self@ == (old(self)@.with_mem(self@.mem)),
                forall|j: int| 0 <= j < i ==> self@.mem[LOAD_BASE + j] == program@[j],
                forall|addr: int|
                    0 <= addr < MEMORY_SIZE && !(LOAD_BASE <= addr < LOAD_BASE + i)
                        ==> self@.mem[addr] == old(self)@.mem[addr],
            decreases program@.len() - i,
        {
            self.mem_write(LOAD_BASE + (i as u16), program[i]);
            i = i + 1;
        }
        self.mem_write_u16(RESET_VECTOR, LOAD_BASE);
    }

    /// The reset signal: clear the user registers and all flags, and fetch
    /// the PC from the reset vector.  Memory and the stack pointer keep their
    /// values.
    pub fn reset(&mut self)
        requires
            old(self).wf(),
        ensures
            final(self).wf(),
            final(self)@ == (old(self)@.with_a(0).with_x(0).with_y(0).with_status(0).with_pc(
                old(self)@.word_at(RESET_VECTOR),
            )),
    {
        self.reg_a = 0;
        self.reg_x = 0;
        self.reg_y = 0;
        self.status = 0;
        self.pc = self.mem_read_u16(RESET_VECTOR);
    }

    /// Switch one status flag on or off; nothing else changes.
    fn set_flag(&mut self, flag: u8, on: bool)
        requires
            old(self).wf(),
        ensures
            final(self).wf(),
            final(self)@ == (old(self)@.with_status(with_flag(old(self)@.status, flag, on))),
    {
        if on {
            self.status = self.status | flag;
        } else {
            self.status = self.status & !flag;
        }
    }

    /// Update ZERO and NEGATIVE for a freshly produced value: ZERO becomes
    /// `value == 0`, NEGATIVE becomes bit 7 of `value`, and the five other
    /// flags keep their previous state.
    pub fn update_zero_and_negative_flags(&mut self, value: u8)
        requires
            old(self).wf(),
        ensures
            final(self).wf(),
            final(self)@ == (old(self)@.with_status(set_zn(old(self)@.status, value))),
            has_flag(final(self)@.status, FLAG_ZERO) <==> value == 0,
            has_flag(final(self)@.status, FLAG_NEGATIVE) <==> value >= 0x80,
    {
        proof {
            lemma_set_zn_flags(old(self)@.status, value);
        }
        self.set_flag(FLAG_ZERO, value == 0);
        self.set_flag(FLAG_NEGATIVE, value & 0x80 != 0);
    }

    /// Set CARRY from bit 7 of a value, as the left shifts and rotates need.
    pub fn update_carry(&mut self, value: u8)
        requires
            old(self).wf(),
        ensures
            final(self).wf(),
            final(self)@ == (old(self)@.with_status(
                with_flag(old(self)@.status, FLAG_CARRY, value & 0x80 != 0),
            )),
    {
        self.set_flag(FLAG_CARRY, value & 0x80 != 0);
    }

    /// Push one byte onto the page-1 stack and decrement SP with wrap-around.
    fn push_stack(&mut self, value: u8)
        requires
            old(self).wf(),
        ensures
            final(self).wf(),
            final(self)@ == push_byte_spec(old(self)@, value),
    {
        self.mem_write(STACK_BASE + (self.sp as u16), value);
        proof {
            lemma_wrapping_sub_u8(self.sp, 1);
        }
        self.sp = self.sp.wrapping_sub(1);
    }

    /// Increment SP with wrap-around and read the byte it then points at.
    fn pop_stack(&mut self) -> (v: u8)
        requires
            old(self).wf(),
        ensures
            final(self).wf(),
            final(self)@ == pull_byte_spec(old(self)@).0,
            v == pull_byte_spec(old(self)@).1,
    {
        proof {
            lemma_wrapping_add_u8(self.sp, 1);
        }
        self.sp = self.sp.wrapping_add(1);
        self.mem_read(STACK_BASE + (self.sp as u16))
    }

    /// Push a 16-bit value, high byte first, so that pulling yields low then
    /// high.
    fn push_stack_u16(&mut self, value: u16)
        requires
            old(self).wf(),
        ensures
            final(self).wf(),
            final(self)@ == push_u16_spec(old(self)@, value),
    {
        let lo = (value % 0x100) as u8;
        let hi = (value / 0x100) as u8;
        self.push_stack(hi);
        self.push_stack(lo);
    }

    /// Pull a 16-bit value: low byte first, then high.
    fn pop_stack_u16(&mut self) -> (v: u16)
        requires
            old(self).wf(),
        ensures
            final(self).wf(),
            final(self)@ == pull_u16_spec(old(self)@).0,
            v == pull_u16_spec(old(self)@).1,
    {
        let lo = self.pop_stack();
        let hi = self.pop_stack();
        (hi as u16) * 0x100 + (lo as u16)
    }

    /// Resolve the effective operand address for an addressing mode, with
    /// the PC pointing at the first operand byte.  `Indirect` and
    /// `NoneAddressing` have no effective address and are refused by the
    /// precondition.
    fn get_op_addr(&self, mode: AddressingMode) -> (addr: u16)
        requires
            self.wf(),
            mode_resolvable(mode),
        ensures
            addr == operand_addr(self@, mode),
    {
        match mode {
            AddressingMode::Immediate => self.pc,
            AddressingMode::ZeroPage => self.mem_read(self.pc) as u16,
            AddressingMode::Absolute => self.mem_read_u16(self.pc),
            AddressingMode::ZeroPageX => {
                let pos = self.mem_read(self.pc);
                proof {
                    lemma_wrapping_add_u8(pos, self.reg_x);
                }
                pos.wrapping_add(self.reg_x) as u16
            },
            AddressingMode::ZeroPageY => {
                let pos = self.mem_read(self.pc);
                proof {
                    lemma_wrapping_add_u8(pos, self.reg_y);
                }
                pos.wrapping_add(self.reg_y) as u16
            },
            AddressingMode::AbsoluteX => {
                let base = self.mem_read_u16(self.pc);
                proof {
                    lemma_wrapping_add_u16(base, self.reg_x as u16);
                }
                base.wrapping_add(self.reg_x as u16)
            },
            AddressingMode::AbsoluteY => {
                let base = self.mem_read_u16(self.pc);
                proof {
                    lemma_wrapping_add_u16(base, self.reg_y as u16);
                }
                base.wrapping_add(self.reg_y as u16)
            },
            AddressingMode::IndirectX => {
                let base = self.mem_read(self.pc);
                proof {
                    lemma_wrapping_add_u8(base, self.reg_x);
                }
                let ptr = base.wrapping_add(self.reg_x);
                proof {
                    lemma_wrapping_add_u8(ptr, 1);
                }
                let lo = self.mem_read(ptr as u16);
                let hi = self.mem_read(ptr.wrapping_add(1) as u16);
                (hi as u16) * 0x100 + (lo as u16)
            },
            AddressingMode::IndirectY => {
                let base = self.mem_read(self.pc);
                proof {
                    lemma_wrapping_add_u8(base, 1);
                }
                let lo = self.mem_read(base as u16);
                let hi = self.mem_read(base.wrapping_add(1) as u16);
                let deref_base = (hi as u16) * 0x100 + (lo as u16);
                proof {
                    lemma_wrapping_add_u16(deref_base, self.reg_y as u16);
                }
                deref_base.wrapping_add(self.reg_y as u16)
            },
            AddressingMode::Indirect => 0,
            AddressingMode::NoneAddressing => 0,
        }
    }

    /// The ADC core, shared with SBC: add the operand and the carry into A,
    /// setting CARRY and OVERFLOW.  ZERO and NEGATIVE are the caller's job.
    fn add_to_register_a(&mut self, data: u8)
        requires
            old(self).wf(),
        ensures
            final(self).wf(),
            final(self)@ == add_a_spec(old(self)@, data),
    {
        let carry: u16 = if self.status & FLAG_CARRY != 0 {
            1
        } else {
            0
        };
        let sum: u16 = self.reg_a as u16 + data as u16 + carry;
        let result = (sum % 0x100) as u8;
        let overflow = (data ^ result) & (result ^ self.reg_a) & 0x80 != 0;
        self.set_flag(FLAG_CARRY, sum > 0xFF);
        self.set_flag(FLAG_OVERFLOW, overflow);
        self.reg_a = result;
    }

    fn adc(&mut self, mode: AddressingMode)
        requires
            old(self).wf(),
            mode_resolvable(mode),
        ensures
            final(self).wf(),
            final(self)@ == adc_spec(old(self)@, mode),
    {
        let addr = self.get_op_addr(mode);
        let value = self.mem_read(addr);
        self.add_to_register_a(value);
        self.update_zero_and_negative_flags(self.reg_a);
    }

    fn sbc(&mut self, mode: AddressingMode)
        requires
            old(self).wf(),
            mode_resolvable(mode),
        ensures
            final(self).wf(),
            final(self)@ == sbc_spec(old(self)@, mode),
    {
        let addr = self.get_op_addr(mode);
        let data = self.mem_read(addr);
        self.add_to_register_a(data ^ 0xFF);
        self.update_zero_and_negative_flags(self.reg_a);
    }

    fn and(&mut self, mode: AddressingMode)
        requires
            old(self).wf(),
            mode_resolvable(mode),
        ensures
            final(self).wf(),
            final(self)@ == and_spec(old(self)@, mode),
    {
        let addr = self.get_op_addr(mode);
        let value = self.mem_read(addr);
        self.reg_a = value & self.reg_a;
        self.update_zero_and_negative_flags(self.reg_a);
    }

    fn ora(&mut self, mode: AddressingMode)
        requires
            old(self).wf(),
            mode_resolvable(mode),
        ensures
            final(self).wf(),
            final(self)@ == ora_spec(old(self)@, mode),
    {
        let addr = self.get_op_addr(mode);
        let value = self.mem_read(addr);
        self.reg_a = value | self.reg_a;
        self.update_zero_and_negative_flags(self.reg_a);
    }

    fn eor(&mut self, mode: AddressingMode)
        requires
            old(self).wf(),
            mode_resolvable(mode),
        ensures
            final(self).wf(),
            final(self)@ == eor_spec(old(self)@, mode),
    {
        let addr = self.get_op_addr(mode);
        let value = self.mem_read(addr);
        self.reg_a = value ^ self.reg_a;
        self.update_zero_and_negative_flags(self.reg_a);
    }

    fn bit(&mut self, mode: AddressingMode)
        requires
            old(self).wf(),
            mode_resolvable(mode),
        ensures
            final(self).wf(),
            final(self)@ == bit_spec(old(self)@, mode),
    {
        let addr = self.get_op_addr(mode);
        let value = self.mem_read(addr);
        self.set_flag(FLAG_ZERO, self.reg_a & value == 0);
        self.set_flag(FLAG_OVERFLOW, value & 0x40 != 0);
        self.set_flag(FLAG_NEGATIVE, value & 0x80 != 0);
    }

    fn compare(&mut self, mode: AddressingMode, cmp_v: u8)
        requires
            old(self).wf(),
            mode_resolvable(mode),
        ensures
            final(self).wf(),
            final(self)@ == compare_spec(old(self)@, mode, cmp_v),
    {
        let addr = self.get_op_addr(mode);
        let data = self.mem_read(addr);
        self.set_flag(FLAG_CARRY, data <= cmp_v);
        proof {
            lemma_wrapping_sub_u8(cmp_v, data);
        }
        self.update_zero_and_negative_flags(cmp_v.wrapping_sub(data));
    }

    fn lda(&mut self, mode: AddressingMode)
        requires
            old(self).wf(),
            mode_resolvable(mode),
        ensures
            final(self).wf(),
            final(self)@ == lda_spec(old(self)@, mode),
    {
        let addr = self.get_op_addr(mode);
        let value = self.mem_read(addr);
        self.reg_a = value;
        self.update_zero_and_negative_flags(value);
    }

    fn ldx(&mut self, mode: AddressingMode)
        requires
            old(self).wf(),
            mode_resolvable(mode),
        ensures
            final(self).wf(),
            final(self)@ == ldx_spec(old(self)@, mode),
    {
        let addr = self.get_op_addr(mode);
        let value = self.mem_read(addr);
        self.reg_x = value;
        self.update_zero_and_negative_flags(value);
    }

    fn ldy(&mut self, mode: AddressingMode)
        requires
            old(self).wf(),
            mode_resolvable(mode),
        ensures
            final(self).wf(),
            final(self)@ == ldy_spec(old(self)@, mode),
    {
        let addr = self.get_op_addr(mode);
        let value = self.mem_read(addr);
        self.reg_y = value;
        self.update_zero_and_negative_flags(value);
    }

    fn sta(&mut self, mode: AddressingMode)
        requires
            old(self).wf(),
            mode_resolvable(mode),
        ensures
            final(self).wf(),
            final(self)@ == sta_spec(old(self)@, mode),
    {
        let addr = self.get_op_addr(mode);
        self.mem_write(addr, self.reg_a);
    }

    fn stx(&mut self, mode: AddressingMode)
        requires
            old(self).wf(),
            mode_resolvable(mode),
        ensures
            final(self).wf(),
            final(self)@ == stx_spec(old(self)@, mode),
    {
        let addr = self.get_op_addr(mode);
        self.mem_write(addr, self.reg_x);
    }

    fn sty(&mut self, mode: AddressingMode)
        requires
            old(self).wf(),
            mode_resolvable(mode),
        ensures
            final(self).wf(),
            final(self)@ == sty_spec(old(self)@, mode),
    {
        let addr = self.get_op_addr(mode);
        self.mem_write(addr, self.reg_y);
    }

    fn tax(&mut self)
        requires
            old(self).wf(),
        ensures
            final(self).wf(),
            final(self)@ == tax_spec(old(self)@),
    {
        self.reg_x = self.reg_a;
        self.update_zero_and_negative_flags(self.reg_x);
    }

    fn tay(&mut self)
        requires
            old(self).wf(),
        ensures
            final(self).wf(),
            final(self)@ == tay_spec(old(self)@),
    {
        self.reg_y = self.reg_a;
        self.update_zero_and_negative_flags(self.reg_y);
    }

    fn tsx(&mut self)
        requires
            old(self).wf(),
        ensures
            final(self).wf(),
            final(self)@ == tsx_spec(old(self)@),
    {
        self.reg_x = self.sp;
        self.update_zero_and_negative_flags(self.reg_x);
    }

    fn txa(&mut self)
        requires
            old(self).wf(),
        ensures
            final(self).wf(),
            final(self)@ == txa_spec(old(self)@),
    {
        self.reg_a = self.reg_x;
        self.update_zero_and_negative_flags(self.reg_a);
    }

    fn txs(&mut self)
        requires
            old(self).wf(),
        ensures
            final(self).wf(),
            final(self)@ == txs_spec(old(self)@),
    {
        self.sp = self.reg_x;
    }

    fn tya(&mut self)
        requires
            old(self).wf(),
        ensures
            final(self).wf(),
            final(self)@ == tya_spec(old(self)@),
    {
        self.reg_a = self.reg_y;
        self.update_zero_and_negative_flags(self.reg_a);
    }

    fn inx(&mut self)
        requires
            old(self).wf(),
        ensures
            final(self).wf(),
            final(self)@ == inx_spec(old(self)@),
    {
        proof {
            lemma_wrapping_add_u8(self.reg_x, 1);
        }
        self.reg_x = self.reg_x.wrapping_add(1);
        self.update_zero_and_negative_flags(self.reg_x);
    }

    fn iny(&mut self)
        requires
            old(self).wf(),
        ensures
            final(self).wf(),
            final(self)@ == iny_spec(old(self)@),
    {
        proof {
            lemma_wrapping_add_u8(self.reg_y, 1);
        }
        self.reg_y = self.reg_y.wrapping_add(1);
        self.update_zero_and_negative_flags(self.reg_y);
    }

    fn dex(&mut self)
        requires
            old(self).wf(),
        ensures
            final(self).wf(),
            final(self)@ == dex_spec(old(self)@),
    {
        proof {
            lemma_wrapping_sub_u8(self.reg_x, 1);
        }
        self.reg_x = self.reg_x.wrapping_sub(1);
        self.update_zero_and_negative_flags(self.reg_x);
    }

    fn dey(&mut self)
        requires
            old(self).wf(),
        ensures
            final(self).wf(),
            final(self)@ == dey_spec(old(self)@),
    {
        proof {
            lemma_wrapping_sub_u8(self.reg_y, 1);
        }
        self.reg_y = self.reg_y.wrapping_sub(1);
        self.update_zero_and_negative_flags(self.reg_y);
    }

    fn inc(&mut self, mode: AddressingMode)
        requires
            old(self).wf(),
            mode_resolvable(mode),
        ensures
            final(self).wf(),
            final(self)@ == inc_spec(old(self)@, mode),
    {
        let addr = self.get_op_addr(mode);
        let data = self.mem_read(addr);
        proof {
            lemma_wrapping_add_u8(data, 1);
        }
        let new_value = data.wrapping_add(1);
        self.mem_write(addr, new_value);
        self.update_zero_and_negative_flags(new_value);
    }

    fn dec(&mut self, mode: AddressingMode)
        requires
            old(self).wf(),
            mode_resolvable(mode),
        ensures
            final(self).wf(),
            final(self)@ == dec_spec(old(self)@, mode),
    {
        let addr = self.get_op_addr(mode);
        let data = self.mem_read(addr);
        proof {
            lemma_wrapping_sub_u8(data, 1);
        }
        let new_value = data.wrapping_sub(1);
        self.mem_write(addr, new_value);
        self.update_zero_and_negative_flags(new_value);
    }

    fn asl_acc(&mut self)
        requires
            old(self).wf(),
        ensures
            final(self).wf(),
            final(self)@ == asl_acc_spec(old(self)@),
    {
        let v = self.reg_a;
        self.update_carry(v);
        self.reg_a = v << 1;
        self.update_zero_and_negative_flags(self.reg_a);
    }

    fn asl(&mut self, mode: AddressingMode)
        requires
            old(self).wf(),
            mode_resolvable(mode),
        ensures
            final(self).wf(),
            final(self)@ == asl_mem_spec(old(self)@, mode),
    {
        let addr = self.get_op_addr(mode);
        let value = self.mem_read(addr);
        let new_value = value << 1;
        self.update_carry(value);
        self.mem_write(addr, new_value);
        self.update_zero_and_negative_flags(new_value);
    }

    fn lsr_acc(&mut self)
        requires
            old(self).wf(),
        ensures
            final(self).wf(),
            final(self)@ == lsr_acc_spec(old(self)@),
    {
        let v = self.reg_a;
        self.set_flag(FLAG_CARRY, v & 0x01 != 0);
        self.reg_a = v >> 1;
        self.update_zero_and_negative_flags(self.reg_a);
    }

    fn lsr(&mut self, mode: AddressingMode)
        requires
            old(self).wf(),
            mode_resolvable(mode),
        ensures
            final(self).wf(),
            final(self)@ == lsr_mem_spec(old(self)@, mode),
    {
        let addr = self.get_op_addr(mode);
        let value = self.mem_read(addr);
        let new_value = value >> 1;
        self.set_flag(FLAG_CARRY, value & 0x01 != 0);
        self.mem_write(addr, new_value);
        self.update_zero_and_negative_flags(new_value);
    }

    fn rol_acc(&mut self)
        requires
            old(self).wf(),
        ensures
            final(self).wf(),
            final(self)@ == rol_acc_spec(old(self)@),
    {
        let v = self.reg_a;
        let mut new_value = v << 1;
        if self.status & FLAG_CARRY != 0 {
            new_value = new_value | 0x01;
        }
        self.update_carry(v);
        self.reg_a = new_value;
        self.update_zero_and_negative_flags(new_value);
    }

    fn rol(&mut self, mode: AddressingMode)
        requires
            old(self).wf(),
            mode_resolvable(mode),
        ensures
            final(self).wf(),
            final(self)@ == rol_mem_spec(old(self)@, mode),
    {
        let addr = self.get_op_addr(mode);
        let v = self.mem_read(addr);
        let mut new_value = v << 1;
        if self.status & FLAG_CARRY != 0 {
            new_value = new_value | 0x01;
        }
        self.update_carry(v);
        self.mem_write(addr, new_value);
        self.update_zero_and_negative_flags(new_value);
    }

    fn ror_acc(&mut self)
        requires
            old(self).wf(),
        ensures
            final(self).wf(),
            final(self)@ == ror_acc_spec(old(self)@),
    {
        let v = self.reg_a;
        let mut new_value = v >> 1;
        if self.status & FLAG_CARRY != 0 {
            new_value = new_value | 0x80;
        }
        self.set_flag(FLAG_CARRY, v & 0x01 != 0);
        self.reg_a = new_value;
        self.update_zero_and_negative_flags(new_value);
    }

    fn ror(&mut self, mode: AddressingMode)
        requires
            old(self).wf(),
            mode_resolvable(mode),
        ensures
            final(self).wf(),
            final(self)@ == ror_mem_spec(old(self)@, mode),
    {
        let addr = self.get_op_addr(mode);
        let v = self.mem_read(addr);
        let mut new_value = v >> 1;
        if self.status & FLAG_CARRY != 0 {
            new_value = new_value | 0x80;
        }
        self.set_flag(FLAG_CARRY, v & 0x01 != 0);
        self.mem_write(addr, new_value);
        self.update_zero_and_negative_flags(new_value);
    }

    /// A conditional branch: when taken, the PC moves by the signed operand
    /// plus one; when not taken, nothing changes here and the dispatcher's
    /// size rule consumes the operand.
    fn branch(&mut self, condition: bool)
        requires
            old(self).wf(),
        ensures
            final(self).wf(),
            final(self)@ == branch_spec(old(self)@, condition),
    {
        if condition {
            let offset = self.mem_read(self.pc);
            let ext: u16 = if offset >= 0x80 {
                offset as u16 + 0xFF00
            } else {
                offset as u16
            };
            proof {
                lemma_wrapping_add_u16(self.pc, ext);
                lemma_wrapping_add_u16(self.pc.wrapping_add(ext), 1);
                lemma_branch_target(old(self)@.pc, offset, ext);
            }
            self.pc = self.pc.wrapping_add(ext).wrapping_add(1);
        }
    }

    fn jmp(&mut self, mode: AddressingMode)
        requires
            old(self).wf(),
            mode == AddressingMode::Absolute || mode == AddressingMode::Indirect,
        ensures
            final(self).wf(),
            final(self)@ == jmp_spec(old(self)@, mode),
    {
        let mem_address = self.mem_read_u16(self.pc);
        if matches!(mode, AddressingMode::Indirect) {
            // The 6502 increments only the low pointer byte when fetching the
            // high target byte, so a pointer at the end of a page wraps to
            // the start of the same page.
            let indirect_ref: u16 = if mem_address & 0x00FF == 0x00FF {
                let lo = self.mem_read(mem_address);
                let hi = self.mem_read(mem_address & 0xFF00);
                (hi as u16) * 0x100 + (lo as u16)
            } else {
                self.mem_read_u16(mem_address)
            };
            self.pc = indirect_ref;
        } else {
            self.pc = mem_address;
        }
    }

    fn jsr(&mut self)
        requires
            old(self).wf(),
        ensures
            final(self).wf(),
            final(self)@ == jsr_spec(old(self)@),
    {
        proof {
            lemma_wrapping_add_u16(self.pc, 1);
        }
        let return_address = self.pc.wrapping_add(1);
        self.push_stack_u16(return_address);
        self.pc = self.mem_read_u16(self.pc);
    }

    fn rts(&mut self)
        requires
            old(self).wf(),
        ensures
            final(self).wf(),
            final(self)@ == rts_spec(old(self)@),
    {
        let target = self.pop_stack_u16();
        proof {
            lemma_wrapping_add_u16(target, 1);
        }
        self.pc = target.wrapping_add(1);
    }

    fn rti(&mut self)
        requires
            old(self).wf(),
        ensures
            final(self).wf(),
            final(self)@ == rti_spec(old(self)@),
    {
        self.status = self.pop_stack();
        self.pc = self.pop_stack_u16();
    }

    fn pha(&mut self)
        requires
            old(self).wf(),
        ensures
            final(self).wf(),
            final(self)@ == pha_spec(old(self)@),
    {
        self.push_stack(self.reg_a);
    }

    fn php(&mut self)
        requires
            old(self).wf(),
        ensures
            final(self).wf(),
            final(self)@ == php_spec(old(self)@),
    {
        self.push_stack(self.status);
    }

    fn pla(&mut self)
        requires
            old(self).wf(),
        ensures
            final(self).wf(),
            final(self)@ == pla_spec(old(self)@),
    {
        let v = self.pop_stack();
        self.reg_a = v;
        self.update_zero_and_negative_flags(v);
    }

    fn plp(&mut self)
        requires
            old(self).wf(),
        ensures
            final(self).wf(),
            final(self)@ == plp_spec(old(self)@),
    {
        let v = self.pop_stack();
        self.status = v;
    }




    /// Execute dispatch for the loads, stores and register transfers.
    #[verifier::spinoff_prover]
    #[verifier::rlimit(100)]
    fn execute_loads_and_stores(&mut self, op: OpCode)
        requires
            old(self).wf(),
            opcode_wf(Some(op)),
            op.name != Mnemonic::BRK,
            (matches!(
                op.name,
                Mnemonic::LDA | Mnemonic::LDX | Mnemonic::LDY | Mnemonic::STA | Mnemonic::STX
                    | Mnemonic::STY | Mnemonic::TAX | Mnemonic::TAY | Mnemonic::TSX
                    | Mnemonic::TXA | Mnemonic::TXS | Mnemonic::TYA
            )),
        ensures
            final(self).wf(),
            final(self)@ == instr_spec(old(self)@, op),
    {
        match op.name {
            Mnemonic::LDA => self.lda(op.addr_mode),
            Mnemonic::LDX => self.ldx(op.addr_mode),
            Mnemonic::LDY => self.ldy(op.addr_mode),
            Mnemonic::STA => self.sta(op.addr_mode),
            Mnemonic::STX => self.stx(op.addr_mode),
            Mnemonic::STY => self.sty(op.addr_mode),
            Mnemonic::TAX => self.tax(),
            Mnemonic::TAY => self.tay(),
            Mnemonic::TSX => self.tsx(),
            Mnemonic::TXA => self.txa(),
            Mnemonic::TXS => self.txs(),
            Mnemonic::TYA => self.tya(),
            _ => {},
        }
    }

    /// Execute dispatch for the arithmetic, logic, comparisons and increments.
    #[verifier::spinoff_prover]
    #[verifier::rlimit(100)]
    fn execute_arithmetic(&mut self, op: OpCode)
        requires
            old(self).wf(),
            opcode_wf(Some(op)),
            op.name != Mnemonic::BRK,
            (matches!(
                op.name,
                Mnemonic::ADC | Mnemonic::SBC | Mnemonic::AND | Mnemonic::ORA | Mnemonic::EOR
                    | Mnemonic::BIT | Mnemonic::CMP | Mnemonic::CPX | Mnemonic::CPY
                    | Mnemonic::INC | Mnemonic::INX | Mnemonic::INY | Mnemonic::DEC
                    | Mnemonic::DEX | Mnemonic::DEY
            )),
        ensures
            final(self).wf(),
            final(self)@ == instr_spec(old(self)@, op),
    {
        match op.name {
            Mnemonic::ADC => self.adc(op.addr_mode),
            Mnemonic::SBC => self.sbc(op.addr_mode),
            Mnemonic::AND => self.and(op.addr_mode),
            Mnemonic::ORA => self.ora(op.addr_mode),
            Mnemonic::EOR => self.eor(op.addr_mode),
            Mnemonic::BIT => self.bit(op.addr_mode),
            Mnemonic::CMP => self.compare(op.addr_mode, self.reg_a),
            Mnemonic::CPX => self.compare(op.addr_mode, self.reg_x),
            Mnemonic::CPY => self.compare(op.addr_mode, self.reg_y),
            Mnemonic::INC => self.inc(op.addr_mode),
            Mnemonic::INX => self.inx(),
            Mnemonic::INY => self.iny(),
            Mnemonic::DEC => self.dec(op.addr_mode),
            Mnemonic::DEX => self.dex(),
            Mnemonic::DEY => self.dey(),
            _ => {},
        }
    }

    /// Execute dispatch for the shifts, rotates and stack instructions.
    #[verifier::spinoff_prover]
    #[verifier::rlimit(100)]
    fn execute_shifts_and_stack(&mut self, op: OpCode)
        requires
            old(self).wf(),
            opcode_wf(Some(op)),
            op.name != Mnemonic::BRK,
            (matches!(
                op.name,
                Mnemonic::ASL | Mnemonic::LSR | Mnemonic::ROL | Mnemonic::ROR | Mnemonic::PHA
                    | Mnemonic::PHP | Mnemonic::PLA | Mnemonic::PLP
            )),
        ensures
            final(self).wf(),
            final(self)@ == instr_spec(old(self)@, op),
    {
        match op.name {
            Mnemonic::ASL => {
                if matches!(op.addr_mode, AddressingMode::NoneAddressing) {
                    self.asl_acc();
                } else {
                    self.asl(op.addr_mode);
                }
            },
            Mnemonic::LSR => {
                if matches!(op.addr_mode, AddressingMode::NoneAddressing) {
                    self.lsr_acc();
                } else {
                    self.lsr(op.addr_mode);
                }
            },
            Mnemonic::ROL => {
                if matches!(op.addr_mode, AddressingMode::NoneAddressing) {
                    self.rol_acc();
                } else {
                    self.rol(op.addr_mode);
                }
            },
            Mnemonic::ROR => {
                if matches!(op.addr_mode, AddressingMode::NoneAddressing) {
                    self.ror_acc();
                } else {
                    self.ror(op.addr_mode);
                }
            },
            Mnemonic::PHA => self.pha(),
            Mnemonic::PHP => self.php(),
            Mnemonic::PLA => self.pla(),
            Mnemonic::PLP => self.plp(),
            _ => {},
        }
    }

    /// Execute dispatch for the branches, jumps, returns and flag instructions.
    #[verifier::spinoff_prover]
    #[verifier::rlimit(100)]
    fn execute_control_and_flags(&mut self, op: OpCode)
        requires
            old(self).wf(),
            opcode_wf(Some(op)),
            op.name != Mnemonic::BRK,
            (matches!(
                op.name,
                Mnemonic::BCC | Mnemonic::BCS | Mnemonic::BEQ | Mnemonic::BMI | Mnemonic::BNE
                    | Mnemonic::BPL | Mnemonic::BVC | Mnemonic::BVS | Mnemonic::JMP
                    | Mnemonic::JSR | Mnemonic::RTS | Mnemonic::RTI | Mnemonic::CLC
                    | Mnemonic::CLD | Mnemonic::CLI | Mnemonic::CLV | Mnemonic::SEC
                    | Mnemonic::SED | Mnemonic::SEI | Mnemonic::NOP | Mnemonic::BRK
            )),
        ensures
            final(self).wf(),
            final(self)@ == instr_spec(old(self)@, op),
    {
        match op.name {
            Mnemonic::BCC => self.branch(self.status & FLAG_CARRY == 0),
            Mnemonic::BCS => self.branch(self.status & FLAG_CARRY != 0),
            Mnemonic::BEQ => self.branch(self.status & FLAG_ZERO != 0),
            Mnemonic::BMI => self.branch(self.status & FLAG_NEGATIVE != 0),
            Mnemonic::BNE => self.branch(self.status & FLAG_ZERO == 0),
            Mnemonic::BPL => self.branch(self.status & FLAG_NEGATIVE == 0),
            Mnemonic::BVC => self.branch(self.status & FLAG_OVERFLOW == 0),
            Mnemonic::BVS => self.branch(self.status & FLAG_OVERFLOW != 0),
            Mnemonic::JMP => self.jmp(op.addr_mode),
            Mnemonic::JSR => self.jsr(),
            Mnemonic::RTS => self.rts(),
            Mnemonic::RTI => self.rti(),
            Mnemonic::CLC => self.set_flag(FLAG_CARRY, false),
            Mnemonic::CLD => self.set_flag(FLAG_DECIMAL_MODE, false),
            Mnemonic::CLI => self.set_flag(FLAG_INTERRUPT_DISABLE, false),
            Mnemonic::CLV => self.set_flag(FLAG_OVERFLOW, false),
            Mnemonic::SEC => self.set_flag(FLAG_CARRY, true),
            Mnemonic::SED => self.set_flag(FLAG_DECIMAL_MODE, true),
            Mnemonic::SEI => self.set_flag(FLAG_INTERRUPT_DISABLE, true),
            Mnemonic::NOP => {},
            _ => {},
        }
    }

    /// Execute one decoded instruction other than BRK, with the PC already
    /// past the opcode byte.
    fn execute(&mut self, op: OpCode)
        requires
            old(self).wf(),
            opcode_wf(Some(op)),
            op.name != Mnemonic::BRK,
        ensures
            final(self).wf(),
            final(self)@ == instr_spec(old(self)@, op),
    {
        if matches!(
            op.name,
            Mnemonic::LDA | Mnemonic::LDX | Mnemonic::LDY | Mnemonic::STA | Mnemonic::STX
                | Mnemonic::STY | Mnemonic::TAX | Mnemonic::TAY | Mnemonic::TSX | Mnemonic::TXA
                | Mnemonic::TXS | Mnemonic::TYA
        ) {
            self.execute_loads_and_stores(op);
        } else if matches!(
            op.name,
            Mnemonic::ADC | Mnemonic::SBC | Mnemonic::AND | Mnemonic::ORA | Mnemonic::EOR
                | Mnemonic::BIT | Mnemonic::CMP | Mnemonic::CPX | Mnemonic::CPY | Mnemonic::INC
                | Mnemonic::INX | Mnemonic::INY | Mnemonic::DEC | Mnemonic::DEX | Mnemonic::DEY
        ) {
            self.execute_arithmetic(op);
        } else if matches!(
            op.name,
            Mnemonic::ASL | Mnemonic::LSR | Mnemonic::ROL | Mnemonic::ROR | Mnemonic::PHA
                | Mnemonic::PHP | Mnemonic::PLA | Mnemonic::PLP
        ) {
            self.execute_shifts_and_stack(op);
        } else {
            self.execute_control_and_flags(op);
        }
    }

    /// One fetch-decode-execute step.
    ///
    /// Returns `Ok(true)` when the instruction was BRK (the run halts, with
    /// the PC one byte past the BRK opcode), `Ok(false)` to continue, and
    /// `Err(code)` when the byte at the PC has no table entry; in the error
    /// case the machine state is unchanged.
    #[verifier::spinoff_prover]
    pub fn run_step(&mut self) -> (r: Result<bool, u8>)
        requires
            old(self).wf(),
        ensures
            final(self).wf(),
            r is Ok <==> opcode_entry(old(self)@.byte_at(old(self)@.pc)) is Some,
            (match r {
                Ok(halted) => step_spec(old(self)@) == Some((final(self)@, halted)),
                Err(code) => {
                    &&& final(self)@ == old(self)@
                    &&& code == old(self)@.byte_at(old(self)@.pc)
                    &&& opcode_entry(code) is None
                },
            }),
    {
        let op_byte = self.mem_read(self.pc);
        let op = match opcode_lookup(op_byte) {
            None => {
                return Err(op_byte);
            },
            Some(op) => op,
        };

        proof {
            lemma_wrapping_add_u16(self.pc, 1);
        }
        self.pc = self.pc.wrapping_add(1);
        let initial_pc = self.pc;

        if matches!(op.name, Mnemonic::BRK) {
            return Ok(true);
        }
        self.execute(op);

        if initial_pc == self.pc {
            proof {
                lemma_wrapping_add_u16(self.pc, (op.size - 1) as u16);
            }
            self.pc = self.pc.wrapping_add(op.size - 1);
        }

        Ok(false)
    }

    /// Run until BRK halts the machine, or an unknown opcode stops it.
    ///
    /// On a halt the final state is what a chain of non-halting steps
    /// followed by one BRK step produces; on an unknown opcode the machine
    /// stands exactly at the offending state, with the opcode byte reported.
    /// The loop gives up after [`STEP_LIMIT`] steps — out of reach of any
    /// real execution, but it gives the loop a termination measure.
    pub fn run(&mut self) -> (r: StopReason)
        requires
            old(self).wf(),
        ensures
            final(self).wf(),
            (match r {
                StopReason::Halted => exists|n: nat, pre: CpuState|
                    advances(old(self)@, pre, n) && step_spec(pre) == Some(
                        (final(self)@, true),
                    ),
                StopReason::UnknownOpcode(code) => exists|n: nat|
                    advances(old(self)@, final(self)@, n) && code == final(self)@.byte_at(
                        final(self)@.pc,
                    ) && opcode_entry(code) is None,
                StopReason::StepLimit => advances(old(self)@, final(self)@, STEP_LIMIT as nat),
            }),
    {
        let mut steps: u64 = 0;
        while steps < STEP_LIMIT
            invariant
                self.wf(),
                steps <= STEP_LIMIT,
                advances(old(self)@, self@, steps as nat),
            decreases STEP_LIMIT - steps,
        {
            let ghost pre = self@;
            match self.run_step() {
                Err(code) => {
                    return StopReason::UnknownOpcode(code);
                },
                Ok(true) => {
                    proof {
                        // Witness for the postcondition's existential: the
                        // chain so far, ending in this BRK step.
                        assert(advances(old(self)@, pre, steps as nat) && step_spec(pre)
                            == Some((self@, true)));
                    }
                    return StopReason::Halted;
                },
                Ok(false) => {
                    proof {
                        lemma_advances_snoc(old(self)@, pre, steps as nat, self@);
                    }
                },
            }
            steps = steps + 1;
        }
        StopReason::StepLimit
    }

    /// Run like [`CPU::run`], but invoke a host hook before every step.
    ///
    /// The hook receives the whole machine mutably — hosts use it to inject
    /// peripheral bytes between instructions — so no step chain can be
    /// promised here; what holds is the stop condition itself.
    pub fn run_with_callback<F: StepCallback>(&mut self, callback: &mut F) -> (r: StopReason)
        requires
            old(self).wf(),
        ensures
            final(self).wf(),
            (match r {
                StopReason::Halted => exists|pre: CpuState|
                    step_spec(pre) == Some((final(self)@, true)),
                StopReason::UnknownOpcode(code) => code == final(self)@.byte_at(final(self)@.pc)
                    && opcode_entry(code) is None,
                StopReason::StepLimit => true,
            }),
    {
        let mut steps: u64 = 0;
        while steps < STEP_LIMIT
            invariant
                self.wf(),
            decreases STEP_LIMIT - steps,
        {
            callback.on_step(self);
            let ghost pre = self@;
            match self.run_step() {
                Err(code) => {
                    return StopReason::UnknownOpcode(code);
                },
                Ok(true) => {
                    proof {
                        // Witness for the postcondition's existential.
                        assert(step_spec(pre) == Some((self@, true)));
                    }
                    return StopReason::Halted;
                },
                Ok(false) => {},
            }
            steps = steps + 1;
        }
        StopReason::StepLimit
    }
}

/// Why a run stopped.
#[derive(Debug, PartialEq, Eq, Structural, Clone, Copy)]
pub enum StopReason {
    /// A BRK instruction halted the machine.
    Halted,
    /// The byte at the PC has no entry in the opcode table; the machine is
    /// left exactly at the offending state.
    UnknownOpcode(u8),
    /// The run performed [`STEP_LIMIT`] steps without halting.
    StepLimit,
}

/// Upper bound on the steps of a single run: 2^64 - 1.  At a nanosecond per
/// instruction this is over five centuries of execution; it exists so the
/// run loop has a termination measure.
pub const STEP_LIMIT: u64 = 0xFFFF_FFFF_FFFF_FFFF;

/// A host hook run before every instruction of [`CPU::run_with_callback`].
///
/// The hook may read and write the whole machine state; hosts use it to feed
/// peripheral bytes (input codes, random values) into memory between
/// instructions.  It must leave the machine well-formed.
pub trait StepCallback {
    fn on_step(&mut self, cpu: &mut CPU)
        requires
            old(cpu).wf(),
        ensures
            final(cpu).wf(),
    ;
}

/// `wrapping_add` on `u16` agrees with reduction modulo 2^16.
proof fn lemma_wrapping_add_u16(x: u16, y: u16)
    ensures
        x.wrapping_add(y) == wrap16(x + y),
{
}

/// `wrapping_add` on `u8` agrees with reduction modulo 2^8.
proof fn lemma_wrapping_add_u8(x: u8, y: u8)
    ensures
        x.wrapping_add(y) == wrap8(x + y),
{
}

/// `wrapping_sub` on `u8` agrees with reduction modulo 2^8.
proof fn lemma_wrapping_sub_u8(x: u8, y: u8)
    ensures
        x.wrapping_sub(y) == wrap8(x - y),
{
}

/// Adding the operand widened by `0xFF00` when its sign bit is set is the
/// same, modulo 2^16, as adding the signed displacement.
proof fn lemma_branch_target(pc: u16, off: u8, ext: u16)
    requires
        ext == if off >= 0x80 {
            off + 0xFF00
        } else {
            off as int
        },
    ensures
        wrap16(wrap16(pc + ext) + 1) == branch_target(pc, off),
{
}

} // verus!
