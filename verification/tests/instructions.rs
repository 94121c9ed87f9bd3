use nes_emulator::cpu::CPU;
use nes_emulator::cpu::StopReason;
use nes_emulator::cpu::op_codes;
use nes_emulator::cpu::semantics::{
    FLAG_CARRY, FLAG_DECIMAL_MODE, FLAG_INTERRUPT_DISABLE, FLAG_NEGATIVE, FLAG_OVERFLOW,
    FLAG_ZERO, LOAD_BASE,
};

#[test]
fn test_adc_immediate() {
    let mut cpu = CPU::new();
    cpu.load(vec![op_codes::ADC_IMMEDIATE, 0x42, op_codes::BRK]);
    cpu.reset();
    cpu.run();

    assert_eq!(cpu.reg_a, 0x42);
    assert!(cpu.status & FLAG_ZERO == 0);
    assert!(cpu.status & FLAG_CARRY == 0);
    assert!(cpu.status & FLAG_NEGATIVE == 0);
    assert!(cpu.status & FLAG_OVERFLOW == 0);
}

#[test]
fn test_adc_overflow() {
    let mut cpu = CPU::new();
    cpu.load(vec![op_codes::ADC_IMMEDIATE, 0x40, op_codes::BRK]);
    cpu.reset();
    cpu.reg_a = 0x40;
    cpu.run();

    assert_eq!(cpu.reg_a, 0x80);
    assert!(cpu.status & FLAG_ZERO == 0);
    assert!(cpu.status & FLAG_CARRY == 0);
    assert!(cpu.status & FLAG_NEGATIVE != 0);
    assert!(cpu.status & FLAG_OVERFLOW != 0);
}

#[test]
fn test_adc_carry() {
    let mut cpu = CPU::new();
    cpu.load(vec![op_codes::ADC_IMMEDIATE, 0x80, op_codes::BRK]);
    cpu.reset();
    cpu.reg_a = 0x80;
    cpu.run();

    assert_eq!(cpu.reg_a, 0x00);
    assert!(cpu.status & FLAG_ZERO != 0);
    assert!(cpu.status & FLAG_CARRY != 0);
    assert!(cpu.status & FLAG_NEGATIVE == 0);
    assert!(cpu.status & FLAG_OVERFLOW != 0);
}

#[test]
fn test_and_immediate() {
    let mut cpu = CPU::new();
    cpu.load(vec![op_codes::AND_IMMEDIATE, 0b10101110, op_codes::BRK]);
    cpu.reset();
    cpu.reg_a = 0b11111111;
    cpu.run();

    assert_eq!(cpu.reg_a, 0b10101110);
    assert!(cpu.status & FLAG_ZERO == 0);
    assert!(cpu.status & FLAG_NEGATIVE != 0);
}

#[test]
fn test_asl_accumulator() {
    let mut cpu = CPU::new();
    cpu.load(vec![op_codes::ASL_ACCUMULATOR, op_codes::BRK]);
    cpu.reset();
    cpu.reg_a = 0b11101101;
    cpu.run();

    assert_eq!(cpu.reg_a, 0b11011010);
    assert!(cpu.status & FLAG_ZERO == 0);
    assert!(cpu.status & FLAG_NEGATIVE != 0);
}

#[test]
fn test_asl_absolute() {
    let mut cpu = CPU::new();
    cpu.load(vec![op_codes::ASL_ABSOLUTE, 0x10, op_codes::BRK]);
    cpu.reset();
    cpu.mem_write(0x10, 0b11101101);
    cpu.run();

    assert_eq!(cpu.mem_read(0x10), 0b11011010);
    assert!(cpu.status & FLAG_ZERO == 0);
    assert!(cpu.status & FLAG_NEGATIVE != 0);
}

#[test]
fn test_bcc_carry_set() {
    let mut cpu = CPU::new();
    cpu.load(vec![op_codes::BCC, 0x01, op_codes::BRK, op_codes::BRK]);
    cpu.reset();
    cpu.status |= FLAG_CARRY;
    cpu.run();

    assert_eq!(cpu.pc, 0x3 + LOAD_BASE);
}

#[test]
fn test_bcc_carry_not_set() {
    let mut cpu = CPU::new();
    cpu.load(vec![op_codes::BCC, 0x01, op_codes::BRK, op_codes::BRK]);
    cpu.reset();
    cpu.status &= !FLAG_CARRY;
    cpu.run();

    assert_eq!(cpu.pc, 0x4 + LOAD_BASE);
}

#[test]
fn test_bcs_carry_set() {
    let mut cpu = CPU::new();
    cpu.load(vec![op_codes::BCS, 0x01, op_codes::BRK, op_codes::BRK]);
    cpu.reset();
    cpu.status |= FLAG_CARRY;
    cpu.run();

    assert_eq!(cpu.pc, 0x4 + LOAD_BASE);
}

#[test]
fn test_bcs_carry_not_set() {
    let mut cpu = CPU::new();
    cpu.load(vec![op_codes::BCS, 0x01, op_codes::BRK, op_codes::BRK]);
    cpu.reset();
    cpu.status &= !FLAG_CARRY;
    cpu.run();

    assert_eq!(cpu.pc, 0x3 + LOAD_BASE);
}

#[test]
fn test_beq_zero_set() {
    let mut cpu = CPU::new();
    cpu.load(vec![op_codes::BEQ, 0x01, op_codes::BRK, op_codes::BRK]);
    cpu.reset();
    cpu.status |= FLAG_ZERO;
    cpu.run();

    assert_eq!(cpu.pc, 0x04 + LOAD_BASE);
}

#[test]
fn test_beq_zero_not_set() {
    let mut cpu = CPU::new();
    cpu.load(vec![op_codes::BEQ, 0x01, op_codes::BRK, op_codes::BRK]);
    cpu.reset();
    cpu.status &= !FLAG_ZERO;
    cpu.run();

    assert_eq!(cpu.pc, 0x03 + LOAD_BASE);
}

#[test]
fn test_bit_absolute() {
    let mut cpu = CPU::new();
    cpu.load(vec![op_codes::BIT_ABSOLUTE, 0x10, 0x00, op_codes::BRK]);
    cpu.reset();
    cpu.mem_write(0x10, 0b1100_0000);
    cpu.reg_a = 0b0011_1111;
    cpu.run();

    // A & operand == 0, operand bit 6 and bit 7 both set.
    assert!(cpu.status & FLAG_ZERO != 0);
    assert!(cpu.status & FLAG_OVERFLOW != 0);
    assert!(cpu.status & FLAG_NEGATIVE != 0);
    // BIT leaves the accumulator alone.
    assert_eq!(cpu.reg_a, 0b0011_1111);
}

#[test]
fn test_bmi_negative_set() {
    let mut cpu = CPU::new();
    cpu.load(vec![op_codes::BMI, 0x01, op_codes::BRK, op_codes::BRK]);
    cpu.reset();
    cpu.status |= FLAG_NEGATIVE;
    cpu.run();

    assert_eq!(cpu.pc, 0x04 + LOAD_BASE);
}

#[test]
fn test_bmi_negative_not_set() {
    let mut cpu = CPU::new();
    cpu.load(vec![op_codes::BMI, 0x01, op_codes::BRK, op_codes::BRK]);
    cpu.reset();
    cpu.status &= !FLAG_NEGATIVE;
    cpu.run();

    assert_eq!(cpu.pc, 0x03 + LOAD_BASE);
}

#[test]
fn test_bne_zero_set() {
    let mut cpu = CPU::new();
    cpu.load(vec![op_codes::BNE, 0x01, op_codes::BRK, op_codes::BRK]);
    cpu.reset();
    cpu.status |= FLAG_ZERO;
    cpu.run();

    assert_eq!(cpu.pc, 0x03 + LOAD_BASE);
}

#[test]
fn test_bne_zero_not_set() {
    let mut cpu = CPU::new();
    cpu.load(vec![op_codes::BNE, 0x01, op_codes::BRK, op_codes::BRK]);
    cpu.reset();
    cpu.status &= !FLAG_ZERO;
    cpu.run();

    assert_eq!(cpu.pc, 0x04 + LOAD_BASE);
}

#[test]
fn test_bpl_negative_set() {
    let mut cpu = CPU::new();
    cpu.load(vec![op_codes::BPL, 0x01, op_codes::BRK, op_codes::BRK]);
    cpu.reset();
    cpu.status |= FLAG_NEGATIVE;
    cpu.run();

    assert_eq!(cpu.pc, 0x03 + LOAD_BASE);
}

#[test]
fn test_bpl_negative_not_set() {
    let mut cpu = CPU::new();
    cpu.load(vec![op_codes::BPL, 0x01, op_codes::BRK, op_codes::BRK]);
    cpu.reset();
    cpu.status &= !FLAG_NEGATIVE;
    cpu.run();

    assert_eq!(cpu.pc, 0x04 + LOAD_BASE);
}

#[test]
fn test_brk() {
    let mut cpu = CPU::new();
    cpu.load(vec![op_codes::BRK]);
    cpu.reset();
    cpu.run();

    assert_eq!(cpu.pc, 0x1 + LOAD_BASE);
}

#[test]
fn test_bvc_overflow_set() {
    let mut cpu = CPU::new();
    cpu.load(vec![op_codes::BVC, 0x01, op_codes::BRK, op_codes::BRK]);
    cpu.reset();
    cpu.status |= FLAG_OVERFLOW;
    cpu.run();

    assert_eq!(cpu.pc, 0x03 + LOAD_BASE);
}

#[test]
fn test_bvc_overflow_not_set() {
    let mut cpu = CPU::new();
    cpu.load(vec![op_codes::BVC, 0x01, op_codes::BRK, op_codes::BRK]);
    cpu.reset();
    cpu.status &= !FLAG_OVERFLOW;
    cpu.run();

    assert_eq!(cpu.pc, 0x04 + LOAD_BASE);
}

#[test]
fn test_bvs_overflow_set() {
    let mut cpu = CPU::new();
    cpu.load(vec![op_codes::BVS, 0x01, op_codes::BRK, op_codes::BRK]);
    cpu.reset();
    cpu.status |= FLAG_OVERFLOW;
    cpu.run();

    assert_eq!(cpu.pc, 0x04 + LOAD_BASE);
}

#[test]
fn test_bvs_overflow_not_set() {
    let mut cpu = CPU::new();
    cpu.load(vec![op_codes::BVS, 0x01, op_codes::BRK, op_codes::BRK]);
    cpu.reset();
    cpu.status &= !FLAG_OVERFLOW;
    cpu.run();

    assert_eq!(cpu.pc, 0x03 + LOAD_BASE);
}

#[test]
fn test_clc() {
    let mut cpu = CPU::new();
    cpu.load(vec![op_codes::CLC, op_codes::BRK]);
    cpu.reset();
    cpu.status |= FLAG_CARRY;
    cpu.run();

    assert!(cpu.status & FLAG_CARRY == 0);
}

#[test]
fn test_cld() {
    let mut cpu = CPU::new();
    cpu.load(vec![op_codes::CLD, op_codes::BRK]);
    cpu.reset();
    cpu.status |= FLAG_DECIMAL_MODE;
    cpu.run();

    assert!(cpu.status & FLAG_DECIMAL_MODE == 0);
}

#[test]
fn test_cli() {
    let mut cpu = CPU::new();
    cpu.load(vec![op_codes::CLI, op_codes::BRK]);
    cpu.reset();
    cpu.status |= FLAG_INTERRUPT_DISABLE;
    cpu.run();

    assert!(cpu.status & FLAG_INTERRUPT_DISABLE == 0);
}

#[test]
fn test_clv() {
    let mut cpu = CPU::new();
    cpu.load(vec![op_codes::CLV, op_codes::BRK]);
    cpu.reset();
    cpu.status |= FLAG_OVERFLOW;
    cpu.run();

    assert!(cpu.status & FLAG_OVERFLOW == 0);
}

#[test]
fn test_cmp_immediate() {
    let mut cpu = CPU::new();
    cpu.load(vec![op_codes::CMP_IMMEDIATE, 0x10, op_codes::BRK]);
    cpu.reset();
    cpu.reg_a = 0x10;
    cpu.run();

    // Register equals operand: CARRY and ZERO set, NEGATIVE clear.
    assert!(cpu.status & FLAG_CARRY != 0);
    assert!(cpu.status & FLAG_ZERO != 0);
    assert!(cpu.status & FLAG_NEGATIVE == 0);
    assert_eq!(cpu.reg_a, 0x10);
}

#[test]
fn test_cpx_immediate() {
    let mut cpu = CPU::new();
    cpu.load(vec![op_codes::CPX_IMMEDIATE, 0x20, op_codes::BRK]);
    cpu.reset();
    cpu.reg_x = 0x10;
    cpu.run();

    // X < operand: CARRY clear, 0x10 - 0x20 wraps to 0xF0 so NEGATIVE set.
    assert!(cpu.status & FLAG_CARRY == 0);
    assert!(cpu.status & FLAG_ZERO == 0);
    assert!(cpu.status & FLAG_NEGATIVE != 0);
    assert_eq!(cpu.reg_x, 0x10);
}

#[test]
fn test_cpy_immediate() {
    let mut cpu = CPU::new();
    cpu.load(vec![op_codes::CPY_IMMEDIATE, 0x10, op_codes::BRK]);
    cpu.reset();
    cpu.reg_y = 0x20;
    cpu.run();

    // Y > operand: CARRY set, difference 0x10 is neither zero nor negative.
    assert!(cpu.status & FLAG_CARRY != 0);
    assert!(cpu.status & FLAG_ZERO == 0);
    assert!(cpu.status & FLAG_NEGATIVE == 0);
    assert_eq!(cpu.reg_y, 0x20);
}

#[test]
fn test_dec_absolute() {
    let mut cpu = CPU::new();
    cpu.load(vec![op_codes::DEC_ABSOLUTE, 0x10, 0x00, op_codes::BRK]);
    cpu.reset();
    cpu.mem_write(0x10, 0x01);
    cpu.run();

    assert_eq!(cpu.mem_read(0x10), 0x00);
    assert!(cpu.status & FLAG_ZERO != 0);
    assert!(cpu.status & FLAG_NEGATIVE == 0);
}

#[test]
fn test_dex() {
    let mut cpu = CPU::new();
    cpu.load(vec![op_codes::DEX, op_codes::BRK]);
    cpu.reset();
    cpu.reg_x = 0x00;
    cpu.run();

    assert_eq!(cpu.reg_x, 0xFF);
    assert!(cpu.status & FLAG_ZERO == 0);
    assert!(cpu.status & FLAG_NEGATIVE != 0);
}

#[test]
fn test_dey() {
    let mut cpu = CPU::new();
    cpu.load(vec![op_codes::DEY, op_codes::BRK]);
    cpu.reset();
    cpu.reg_y = 0x02;
    cpu.run();

    assert_eq!(cpu.reg_y, 0x01);
    assert!(cpu.status & FLAG_ZERO == 0);
    assert!(cpu.status & FLAG_NEGATIVE == 0);
}

#[test]
fn test_eor_immediate() {
    let mut cpu = CPU::new();
    cpu.load(vec![op_codes::EOR_IMMEDIATE, 0b1010_1010, op_codes::BRK]);
    cpu.reset();
    cpu.reg_a = 0b1111_0000;
    cpu.run();

    assert_eq!(cpu.reg_a, 0b0101_1010);
    assert!(cpu.status & FLAG_ZERO == 0);
    assert!(cpu.status & FLAG_NEGATIVE == 0);
}

#[test]
fn test_inc_absolute() {
    let mut cpu = CPU::new();
    cpu.load(vec![op_codes::INC_ABSOLUTE, 0x10, 0x00, op_codes::BRK]);
    cpu.reset();
    cpu.mem_write(0x10, 0x7F);
    cpu.run();

    assert_eq!(cpu.mem_read(0x10), 0x80);
    assert!(cpu.status & FLAG_ZERO == 0);
    assert!(cpu.status & FLAG_NEGATIVE != 0);
}

#[test]
fn test_inx() {
    let mut cpu = CPU::new();
    cpu.load(vec![op_codes::INX, op_codes::BRK]);
    cpu.reset();
    cpu.reg_x = 0x10;
    cpu.run();

    assert_eq!(cpu.reg_x, 0x11);
    assert!(cpu.status & FLAG_ZERO == 0);
    assert!(cpu.status & FLAG_NEGATIVE == 0);
}

#[test]
fn test_iny() {
    let mut cpu = CPU::new();
    cpu.load(vec![op_codes::INY, op_codes::BRK]);
    cpu.reset();
    cpu.reg_y = 0x7F;
    cpu.run();

    assert_eq!(cpu.reg_y, 0x80);
    assert!(cpu.status & FLAG_ZERO == 0);
    assert!(cpu.status & FLAG_NEGATIVE != 0);
}

#[test]
fn test_jmp_absolute() {
    let mut cpu = CPU::new();
    // JMP $8004; the byte at $8003 would be a BRK but is skipped.
    cpu.load(vec![op_codes::JMP_ABSOLUTE, 0x04, 0x80, op_codes::BRK, op_codes::BRK]);
    cpu.reset();
    cpu.run();

    assert_eq!(cpu.pc, 0x05 + LOAD_BASE);
}

#[test]
fn test_jsr() {
    let mut cpu = CPU::new();
    // JSR $8003, where a BRK halts; the return address $8002 is on the stack.
    cpu.load(vec![op_codes::JSR, 0x03, 0x80, op_codes::BRK]);
    cpu.reset();
    cpu.run();

    assert_eq!(cpu.pc, 0x04 + LOAD_BASE);
    assert_eq!(cpu.sp, 0xFD - 2);
    assert_eq!(cpu.mem_read(0x01FD), 0x80);
    assert_eq!(cpu.mem_read(0x01FC), 0x02);
}

#[test]
fn test_ror_accumulator_carry_set() {
    let mut cpu = CPU::new();
    cpu.load(vec![op_codes::ROR_ACCUMULATOR, op_codes::BRK]);
    cpu.reset();
    cpu.reg_a = 0b11101100;
    cpu.status |= FLAG_CARRY;
    cpu.run();

    assert_eq!(cpu.reg_a, 0b11110110);
    assert!(cpu.status & FLAG_ZERO == 0);
    assert!(cpu.status & FLAG_NEGATIVE != 0);
    assert!(cpu.status & FLAG_CARRY == 0);
}

#[test]
fn test_ror_accumulator_carry_not_set() {
    let mut cpu = CPU::new();
    cpu.load(vec![op_codes::ROR_ACCUMULATOR, op_codes::BRK]);
    cpu.reset();
    cpu.reg_a = 0b11101101;
    cpu.status &= !FLAG_CARRY;
    cpu.run();

    assert_eq!(cpu.reg_a, 0b01110110);
    assert!(cpu.status & FLAG_ZERO == 0);
    assert!(cpu.status & FLAG_CARRY != 0);
    assert!(cpu.status & FLAG_NEGATIVE == 0);
}

#[test]
fn test_lda_immediate() {
    let mut cpu = CPU::new();
    cpu.load(vec![op_codes::LDA_IMMEDIATE, 0x42, op_codes::BRK]);
    cpu.reset();
    cpu.run();

    assert_eq!(cpu.reg_a, 0x42);
    assert!(cpu.status & FLAG_ZERO == 0);
    assert!(cpu.status & FLAG_NEGATIVE == 0);
}

#[test]
fn test_lda_zero_flag() {
    let mut cpu = CPU::new();
    cpu.load(vec![op_codes::LDA_IMMEDIATE, 0x00, op_codes::BRK]);
    cpu.reset();
    cpu.run();
    assert!(cpu.status & FLAG_ZERO != 0);
}

#[test]
fn test_tax_move_a_to_x() {
    let mut cpu = CPU::new();
    cpu.load(vec![op_codes::LDA_IMMEDIATE, 0x55, op_codes::TAX, op_codes::BRK]);
    cpu.reset();
    cpu.run();
    assert_eq!(cpu.reg_x, 0x55);
}

#[test]
fn test_0xe8_inx_increment_x() {
    let mut cpu = CPU::new();
    cpu.load(vec![op_codes::LDA_IMMEDIATE, 0x00, op_codes::INX, op_codes::BRK]);
    cpu.reset();
    cpu.run();
    assert_eq!(cpu.reg_x, 0x01);
    assert!(cpu.status & FLAG_ZERO == 0);
    assert!(cpu.status & FLAG_NEGATIVE == 0);
}

#[test]
fn test_inx_overflow() {
    let mut cpu = CPU::new();
    cpu.load(vec![0xe8, 0xe8, 0x00]);
    cpu.reset();
    cpu.reg_x = 0xff;
    cpu.run();

    assert_eq!(cpu.reg_x, 1)
}

#[test]
fn test_lda_from_memory() {
    let mut cpu = CPU::new();
    cpu.mem_write(0x10, 0x55);

    cpu.load(vec![0xa5, 0x10, 0x00]);
    cpu.reset();
    cpu.run();

    assert_eq!(cpu.reg_a, 0x55);
}

#[test]
fn test_sbc_immediate() {
    let mut cpu = CPU::new();
    cpu.load(vec![op_codes::SBC_IMMEDIATE, 0x05, op_codes::BRK]);
    cpu.reset();
    cpu.reg_a = 0x10;
    cpu.status |= FLAG_CARRY;
    cpu.run();

    // 0x10 - 0x05 with no borrow: result 0x0B, no borrow out.
    assert_eq!(cpu.reg_a, 0x0B);
    assert!(cpu.status & FLAG_CARRY != 0);
    assert!(cpu.status & FLAG_ZERO == 0);
    assert!(cpu.status & FLAG_NEGATIVE == 0);
    assert!(cpu.status & FLAG_OVERFLOW == 0);
}

#[test]
fn test_sbc_matches_adc_of_complement() {
    // The same A, operand and carry through SBC and through ADC of the
    // complemented operand must give identical results and flags.
    let mut sbc_cpu = CPU::new();
    sbc_cpu.load(vec![op_codes::SBC_IMMEDIATE, 0x37, op_codes::BRK]);
    sbc_cpu.reset();
    sbc_cpu.reg_a = 0x12;
    sbc_cpu.run();

    let mut adc_cpu = CPU::new();
    adc_cpu.load(vec![op_codes::ADC_IMMEDIATE, 0x37 ^ 0xFF, op_codes::BRK]);
    adc_cpu.reset();
    adc_cpu.reg_a = 0x12;
    adc_cpu.run();

    assert_eq!(sbc_cpu.reg_a, adc_cpu.reg_a);
    assert_eq!(sbc_cpu.status, adc_cpu.status);
}

#[test]
fn test_unknown_opcode_stops() {
    let mut cpu = CPU::new();
    cpu.load(vec![0x02]);
    cpu.reset();
    let r = cpu.run();

    assert_eq!(r, StopReason::UnknownOpcode(0x02));
    // The machine stands exactly at the offending instruction.
    assert_eq!(cpu.pc, LOAD_BASE);
}
