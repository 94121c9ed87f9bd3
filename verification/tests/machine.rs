use nes_emulator::cpu::CPU;
use nes_emulator::cpu::StepCallback;
use nes_emulator::cpu::StopReason;
use nes_emulator::cpu::addressing_mode::AddressingMode;
use nes_emulator::cpu::op_codes;
use nes_emulator::cpu::op_codes::Mnemonic;
use nes_emulator::cpu::semantics::{FLAG_CARRY, FLAG_DECIMAL_MODE, FLAG_NEGATIVE, FLAG_OVERFLOW,
    FLAG_ZERO, LOAD_BASE};

#[test]
fn test_new_cpu_initial_state() {
    let cpu = CPU::new();
    assert_eq!(cpu.reg_a, 0);
    assert_eq!(cpu.reg_x, 0);
    assert_eq!(cpu.reg_y, 0);
    assert_eq!(cpu.status, 0b0000_0100);
    assert_eq!(cpu.pc, 0);
    assert_eq!(cpu.sp, 0xFD);
    assert_eq!(cpu.mem_read(0x0000), 0);
    assert_eq!(cpu.mem_read(0xFFFF), 0);
}

#[test]
fn test_mem_u16_little_endian() {
    let mut cpu = CPU::new();
    cpu.mem_write_u16(0x0010, 0x1234);
    assert_eq!(cpu.mem_read(0x0010), 0x34);
    assert_eq!(cpu.mem_read(0x0011), 0x12);
    assert_eq!(cpu.mem_read_u16(0x0010), 0x1234);
}

#[test]
fn test_mem_u16_wraps_at_top_of_memory() {
    let mut cpu = CPU::new();
    cpu.mem_write_u16(0xFFFF, 0xABCD);
    // The companion byte of 0xFFFF wraps around to 0x0000.
    assert_eq!(cpu.mem_read(0xFFFF), 0xCD);
    assert_eq!(cpu.mem_read(0x0000), 0xAB);
    assert_eq!(cpu.mem_read_u16(0xFFFF), 0xABCD);
}

#[test]
fn test_load_sets_reset_vector() {
    let mut cpu = CPU::new();
    cpu.load(vec![0xA9, 0x01, 0x00]);
    assert_eq!(cpu.mem_read_u16(0xFFFC), 0x8000);
    assert_eq!(cpu.mem_read(0x8000), 0xA9);
    assert_eq!(cpu.mem_read(0x8001), 0x01);
    assert_eq!(cpu.mem_read(0x8002), 0x00);
}

#[test]
fn test_reset_reads_reset_vector() {
    let mut cpu = CPU::new();
    cpu.load(vec![0x00]);
    cpu.reg_a = 7;
    cpu.reg_x = 8;
    cpu.reg_y = 9;
    cpu.status = 0xFF;
    cpu.reset();
    assert_eq!(cpu.reg_a, 0);
    assert_eq!(cpu.reg_x, 0);
    assert_eq!(cpu.reg_y, 0);
    assert_eq!(cpu.status, 0);
    assert_eq!(cpu.pc, 0x8000);
}

#[test]
fn test_custom_reset_vector() {
    // A program placed away from the default load base runs from wherever
    // the caller points the reset vector.
    let mut cpu = CPU::new();
    cpu.mem_write(0x0600, op_codes::LDA_IMMEDIATE);
    cpu.mem_write(0x0601, 0x5A);
    cpu.mem_write(0x0602, op_codes::BRK);
    cpu.mem_write_u16(0xFFFC, 0x0600);
    cpu.reset();
    let r = cpu.run();
    assert_eq!(r, StopReason::Halted);
    assert_eq!(cpu.reg_a, 0x5A);
    assert_eq!(cpu.pc, 0x0603);
}

#[test]
fn test_immediate_load_transfer_increment() {
    // LDA #$05; TAX; INX; BRK.
    let mut cpu = CPU::new();
    cpu.load(vec![0xA9, 0x05, 0xAA, 0xE8, 0x00]);
    cpu.reset();
    let r = cpu.run();
    assert_eq!(r, StopReason::Halted);
    assert_eq!(cpu.reg_a, 5);
    assert_eq!(cpu.reg_x, 6);
    assert!(cpu.status & FLAG_ZERO == 0);
    assert!(cpu.status & FLAG_NEGATIVE == 0);
}

#[test]
fn test_adc_carry_overflow_into_zero() {
    // A = 0x80 plus #$80: the sum wraps to zero with carry and overflow.
    let mut cpu = CPU::new();
    cpu.load(vec![0x69, 0x80, 0x00]);
    cpu.reset();
    cpu.reg_a = 0x80;
    cpu.run();
    assert_eq!(cpu.reg_a, 0);
    assert!(cpu.status & FLAG_CARRY != 0);
    assert!(cpu.status & FLAG_ZERO != 0);
    assert!(cpu.status & FLAG_OVERFLOW != 0);
    assert!(cpu.status & FLAG_NEGATIVE == 0);
}

#[test]
fn test_stack_push_pull_round_trip() {
    // Push 0x11 and 0x22, pull them back in reverse order.
    let program = vec![
        0xA9, 0x11, // LDA #$11
        0x48, // PHA
        0xA9, 0x22, // LDA #$22
        0x48, // PHA
        0xA9, 0x00, // LDA #$00
        0x68, // PLA  -> 0x22
        0xAA, // TAX
        0x68, // PLA  -> 0x11
        0x00, // BRK
    ];
    let mut cpu = CPU::new();
    cpu.load(program);
    cpu.reset();
    cpu.run();
    assert_eq!(cpu.reg_a, 0x11);
    assert_eq!(cpu.reg_x, 0x22);
    assert_eq!(cpu.sp, 0xFD);
}

#[test]
fn test_stack_pointer_wraps() {
    let mut cpu = CPU::new();
    cpu.load(vec![0x48, 0x00]); // PHA; BRK
    cpu.reset();
    cpu.reg_a = 0x99;
    cpu.sp = 0x00;
    cpu.run();
    assert_eq!(cpu.mem_read(0x0100), 0x99);
    assert_eq!(cpu.sp, 0xFF);
}

#[test]
fn test_jsr_rts_round_trip() {
    let program = vec![
        0x20, 0x05, 0x80, // JSR $8005
        0x00, // BRK (returned to by RTS)
        0xEA, // NOP (never executed)
        0x60, // RTS at $8005
    ];
    let mut cpu = CPU::new();
    cpu.load(program);
    cpu.reset();
    let r = cpu.run();
    assert_eq!(r, StopReason::Halted);
    // RTS resumes at $8003; the BRK there leaves the PC at $8004.
    assert_eq!(cpu.pc, 0x8004);
    assert_eq!(cpu.sp, 0xFD);
}

#[test]
fn test_php_plp_round_trip() {
    let program = vec![
        0x38, // SEC
        0xF8, // SED
        0x08, // PHP
        0x18, // CLC
        0xD8, // CLD
        0x28, // PLP
        0x00, // BRK
    ];
    let mut cpu = CPU::new();
    cpu.load(program);
    cpu.reset();
    cpu.run();
    assert!(cpu.status & FLAG_CARRY != 0);
    assert!(cpu.status & FLAG_DECIMAL_MODE != 0);
    assert_eq!(cpu.sp, 0xFD);
}

#[test]
fn test_rti_restores_status_and_pc() {
    // Hand-build a stack frame: status 0b1000_0001, return address $8005,
    // then let RTI pull it.
    let mut cpu = CPU::new();
    cpu.load(vec![0x40, 0xEA, 0xEA, 0xEA, 0xEA, 0x00]); // RTI; NOPs; BRK at $8005
    cpu.reset();
    cpu.mem_write(0x01FD, 0x80); // PC high
    cpu.mem_write(0x01FC, 0x05); // PC low
    cpu.mem_write(0x01FB, 0b1000_0001); // status
    cpu.sp = 0xFA;
    let r = cpu.run();
    assert_eq!(r, StopReason::Halted);
    assert_eq!(cpu.pc, 0x8006);
    assert_eq!(cpu.status, 0b1000_0001);
    assert_eq!(cpu.sp, 0xFD);
}

#[test]
fn test_jmp_indirect_page_boundary_bug() {
    // Pointer $02FF sits at the end of a page: the target's low byte comes
    // from $02FF and its high byte from $0200, not from $0300.
    let mut cpu = CPU::new();
    cpu.load(vec![0x6C, 0xFF, 0x02]); // JMP ($02FF)
    cpu.mem_write(0x02FF, 0x03);
    cpu.mem_write(0x0200, 0x90); // same-page high byte: target $9003
    cpu.mem_write(0x0300, 0x40); // next-page byte that must be ignored
    cpu.mem_write(0x9003, 0x00); // BRK at the buggy target
    cpu.reset();
    let r = cpu.run();
    assert_eq!(r, StopReason::Halted);
    assert_eq!(cpu.pc, 0x9004);
}

#[test]
fn test_jmp_indirect_without_page_boundary() {
    let mut cpu = CPU::new();
    cpu.load(vec![0x6C, 0x10, 0x02]); // JMP ($0210)
    cpu.mem_write_u16(0x0210, 0x9003);
    cpu.mem_write(0x9003, 0x00); // BRK at the target
    cpu.reset();
    let r = cpu.run();
    assert_eq!(r, StopReason::Halted);
    assert_eq!(cpu.pc, 0x9004);
}

#[test]
fn test_ror_with_carry_set_scenario() {
    // ROR A with A = 0b11101100 and CARRY set: the carry enters at bit 7
    // and the shifted-out bit 0 clears the carry.
    let mut cpu = CPU::new();
    cpu.load(vec![0x6A, 0x00]);
    cpu.reset();
    cpu.reg_a = 0b1110_1100;
    cpu.status |= FLAG_CARRY;
    cpu.run();
    assert_eq!(cpu.reg_a, 0b1111_0110);
    assert!(cpu.status & FLAG_CARRY == 0);
    assert!(cpu.status & FLAG_NEGATIVE != 0);
    assert!(cpu.status & FLAG_ZERO == 0);
}

#[test]
fn test_rol_ror_restore_value_and_carry() {
    let mut cpu = CPU::new();
    cpu.load(vec![0x2A, 0x6A, 0x00]); // ROL A; ROR A; BRK
    cpu.reset();
    cpu.reg_a = 0b1011_0101;
    cpu.status |= FLAG_CARRY;
    cpu.run();
    assert_eq!(cpu.reg_a, 0b1011_0101);
    assert!(cpu.status & FLAG_CARRY != 0);
}

#[test]
fn test_branch_backward_loop() {
    // LDX #$03; DEX; BNE -3: decrements X to zero, then falls through.
    let mut cpu = CPU::new();
    cpu.load(vec![0xA2, 0x03, 0xCA, 0xD0, 0xFD, 0x00]);
    cpu.reset();
    let r = cpu.run();
    assert_eq!(r, StopReason::Halted);
    assert_eq!(cpu.reg_x, 0);
    assert_eq!(cpu.pc, 0x8006);
}

#[test]
fn test_sta_stx_sty_write_registers() {
    let program = vec![
        0xA9, 0x0A, // LDA #$0A
        0x85, 0x20, // STA $20
        0xA2, 0x0B, // LDX #$0B
        0x86, 0x21, // STX $21
        0xA0, 0x0C, // LDY #$0C
        0x84, 0x22, // STY $22
        0x00, // BRK
    ];
    let mut cpu = CPU::new();
    cpu.load(program);
    cpu.reset();
    cpu.run();
    assert_eq!(cpu.mem_read(0x20), 0x0A);
    assert_eq!(cpu.mem_read(0x21), 0x0B);
    assert_eq!(cpu.mem_read(0x22), 0x0C);
}

#[test]
fn test_indexed_zero_page_wraps() {
    // LDA $FF,X with X = 2 reads from $01 (zero-page indexing wraps).
    let mut cpu = CPU::new();
    cpu.mem_write(0x0001, 0x77);
    cpu.load(vec![0xA2, 0x02, 0xB5, 0xFF, 0x00]); // LDX #$02; LDA $FF,X; BRK
    cpu.reset();
    cpu.run();
    assert_eq!(cpu.reg_a, 0x77);
}

#[test]
fn test_indirect_x_addressing() {
    // LDX #$04; LDA ($20,X): pointer at $24/$25 -> $3000.
    let mut cpu = CPU::new();
    cpu.mem_write(0x24, 0x00);
    cpu.mem_write(0x25, 0x30);
    cpu.mem_write(0x3000, 0x5D);
    cpu.load(vec![0xA2, 0x04, 0xA1, 0x20, 0x00]);
    cpu.reset();
    cpu.run();
    assert_eq!(cpu.reg_a, 0x5D);
}

#[test]
fn test_indirect_y_addressing() {
    // LDY #$04; LDA ($20),Y: pointer at $20/$21 -> $3000, plus Y -> $3004.
    let mut cpu = CPU::new();
    cpu.mem_write(0x20, 0x00);
    cpu.mem_write(0x21, 0x30);
    cpu.mem_write(0x3004, 0x6E);
    cpu.load(vec![0xA0, 0x04, 0xB1, 0x20, 0x00]);
    cpu.reset();
    cpu.run();
    assert_eq!(cpu.reg_a, 0x6E);
}

#[test]
fn test_update_zero_and_negative_flags_direct() {
    let mut cpu = CPU::new();
    cpu.update_zero_and_negative_flags(0);
    assert!(cpu.status & FLAG_ZERO != 0);
    assert!(cpu.status & FLAG_NEGATIVE == 0);
    cpu.update_zero_and_negative_flags(0x80);
    assert!(cpu.status & FLAG_ZERO == 0);
    assert!(cpu.status & FLAG_NEGATIVE != 0);
    cpu.update_zero_and_negative_flags(0x7F);
    assert!(cpu.status & FLAG_ZERO == 0);
    assert!(cpu.status & FLAG_NEGATIVE == 0);
}

#[test]
fn test_update_carry_direct() {
    let mut cpu = CPU::new();
    cpu.update_carry(0x80);
    assert!(cpu.status & FLAG_CARRY != 0);
    cpu.update_carry(0x7F);
    assert!(cpu.status & FLAG_CARRY == 0);
}

#[test]
fn test_run_step_single_instruction() {
    let mut cpu = CPU::new();
    cpu.load(vec![0xA9, 0x42, 0x00]);
    cpu.reset();
    let first = cpu.run_step();
    assert_eq!(first, Ok(false));
    assert_eq!(cpu.reg_a, 0x42);
    assert_eq!(cpu.pc, 0x8002);
    let second = cpu.run_step();
    assert_eq!(second, Ok(true));
    assert_eq!(cpu.pc, 0x8003);
}

#[test]
fn test_opcode_table_entries() {
    let table = op_codes::generate_op_codes();
    assert_eq!(table.len(), 256);

    let lda = table[op_codes::LDA_IMMEDIATE as usize].expect("LDA #imm must be in the table");
    assert_eq!(lda.code, 0xA9);
    assert!(matches!(lda.name, Mnemonic::LDA));
    assert_eq!(lda.size, 2);
    assert_eq!(lda.cycles, 2);
    assert!(matches!(lda.addr_mode, AddressingMode::Immediate));

    let jmp = table[op_codes::JMP_INDIRECT as usize].expect("JMP (ind) must be in the table");
    assert!(matches!(jmp.name, Mnemonic::JMP));
    assert!(matches!(jmp.addr_mode, AddressingMode::Indirect));
    assert_eq!(jmp.size, 3);

    // 151 documented opcodes, the rest unassigned.
    let populated: usize = table.iter().filter(|e| e.is_some()).count();
    assert_eq!(populated, 151);
    assert!(table[0x02].is_none());
}

struct MemoryPoker {
    addr: u16,
    value: u8,
}

impl StepCallback for MemoryPoker {
    fn on_step(&mut self, cpu: &mut CPU) {
        cpu.mem_write(self.addr, self.value);
    }
}

#[test]
fn test_run_with_callback_feeds_memory() {
    // The hook writes a byte into $FE before every step, the way a host
    // feeds peripheral input; the program then reads it.
    let mut cpu = CPU::new();
    cpu.load(vec![0xA5, 0xFE, 0x00]); // LDA $FE; BRK
    cpu.reset();
    let mut poker = MemoryPoker { addr: 0xFE, value: 0xAB };
    let r = cpu.run_with_callback(&mut poker);
    assert_eq!(r, StopReason::Halted);
    assert_eq!(cpu.reg_a, 0xAB);
}

#[test]
fn test_opcode_new_builds_descriptor() {
    let op = op_codes::OpCode::new(0xA9, Mnemonic::LDA, 2, 2, AddressingMode::Immediate);
    assert_eq!(op.code, 0xA9);
    assert!(matches!(op.name, Mnemonic::LDA));
    assert_eq!(op.size, 2);
    assert_eq!(op.cycles, 2);
    assert!(matches!(op.addr_mode, AddressingMode::Immediate));
}

#[test]
fn test_absolute_x_and_y_addressing() {
    let program = vec![
        0xA2, 0x01, // LDX #$01
        0xA0, 0x02, // LDY #$02
        0xBD, 0x00, 0x30, // LDA $3000,X
        0x85, 0x40, // STA $40
        0xB9, 0x00, 0x30, // LDA $3000,Y
        0x00, // BRK
    ];
    let mut cpu = CPU::new();
    cpu.mem_write(0x3001, 0x21);
    cpu.mem_write(0x3002, 0x22);
    cpu.load(program);
    cpu.reset();
    cpu.run();
    assert_eq!(cpu.mem_read(0x40), 0x21);
    assert_eq!(cpu.reg_a, 0x22);
}

#[test]
fn test_transfers_txs_tsx() {
    let program = vec![
        0xA2, 0x50, // LDX #$50
        0x9A, // TXS
        0xA2, 0x00, // LDX #$00
        0xBA, // TSX
        0x00, // BRK
    ];
    let mut cpu = CPU::new();
    cpu.load(program);
    cpu.reset();
    cpu.run();
    assert_eq!(cpu.sp, 0x50);
    assert_eq!(cpu.reg_x, 0x50);
}

#[test]
fn test_ora_lsr() {
    let program = vec![
        0xA9, 0b0000_1111, // LDA
        0x09, 0b1000_0000, // ORA #$80
        0x4A, // LSR A
        0x00, // BRK
    ];
    let mut cpu = CPU::new();
    cpu.load(program);
    cpu.reset();
    cpu.run();
    assert_eq!(cpu.reg_a, 0b0100_0111);
    assert!(cpu.status & FLAG_CARRY != 0); // bit 0 of 0b1000_1111 shifted out
    assert!(cpu.status & FLAG_NEGATIVE == 0);
}
