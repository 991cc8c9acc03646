use nes_core::bus::Bus;
use nes_core::cpu::CPU;
use nes_core::errors::EmuError;
use nes_core::instruction::AddressMode;
use nes_core::instruction::Instruction;
use nes_core::instruction::Opcode;

/// Run one already-fetched instruction: the opcode byte sits at `pc`, so
/// the program counter is advanced past it before the step, as the
/// execution loop does.
fn run(cpu: &mut CPU, bus: &mut Bus) {
    let byte = bus.read(cpu.pc);
    let instruction = Instruction::new(byte).unwrap();
    cpu.pc = cpu.pc.wrapping_add(1);
    cpu.step(instruction, bus).unwrap();
}

#[test]
fn and_immediate() {
    let mut cpu = CPU::new();
    let mut bus = Bus::new();
    bus.write(0, 0x29); // AND #$0F
    bus.write(1, 0x0F);
    cpu.a = 0xFF;
    run(&mut cpu, &mut bus);
    assert_eq!(cpu.a, 0x0F);
    assert!(!cpu.p.zero);
    assert!(!cpu.p.sign);
}

#[test]
fn ora_immediate() {
    let mut cpu = CPU::new();
    let mut bus = Bus::new();
    bus.write(0, 0x09); // ORA #$0F
    bus.write(1, 0x0F);
    cpu.a = 0xFF;
    run(&mut cpu, &mut bus);
    assert_eq!(cpu.a, 0xFF);
    assert!(cpu.p.sign);
    assert!(!cpu.p.zero);
}

#[test]
fn eor_immediate() {
    let mut cpu = CPU::new();
    let mut bus = Bus::new();
    bus.write(0, 0x49); // EOR #$FF
    bus.write(1, 0xFF);
    cpu.a = 0xF0;
    run(&mut cpu, &mut bus);
    assert_eq!(cpu.a, 0x0F);
    assert!(!cpu.p.zero);
    assert!(!cpu.p.sign);
}

#[test]
fn dex_wraps_from_zero() {
    let mut cpu = CPU::new();
    let mut bus = Bus::new();
    bus.write(0, 0xCA); // DEX
    cpu.x = 0x00;
    run(&mut cpu, &mut bus);
    assert_eq!(cpu.x, 0xFF);
    assert!(cpu.p.sign);
    assert!(!cpu.p.zero);
}

#[test]
fn inx_wraps_to_zero() {
    let mut cpu = CPU::new();
    let mut bus = Bus::new();
    bus.write(0, 0xE8); // INX
    cpu.x = 0xFF;
    run(&mut cpu, &mut bus);
    assert_eq!(cpu.x, 0x00);
    assert!(cpu.p.zero);
    assert!(!cpu.p.sign);
}

#[test]
fn beq_taken_forward() {
    let mut cpu = CPU::new();
    let mut bus = Bus::new();
    bus.write(0x1000, 0xF0); // BEQ +5
    bus.write(0x1001, 0x05);
    cpu.pc = 0x1000;
    cpu.p.zero = true;
    run(&mut cpu, &mut bus);
    // Five forward from the byte past the two-byte branch instruction.
    assert_eq!(cpu.pc, 0x1002 + 5);
}

#[test]
fn beq_taken_minus_128() {
    let mut cpu = CPU::new();
    let mut bus = Bus::new();
    bus.write(0x1000, 0xF0); // BEQ -128
    bus.write(0x1001, 0x80);
    cpu.pc = 0x1000;
    cpu.p.zero = true;
    run(&mut cpu, &mut bus);
    assert_eq!(cpu.pc, 0x1002 - 128);
}

#[test]
fn beq_not_taken() {
    let mut cpu = CPU::new();
    let mut bus = Bus::new();
    bus.write(0x1000, 0xF0); // BEQ +5, zero clear
    bus.write(0x1001, 0x05);
    cpu.pc = 0x1000;
    cpu.p.zero = false;
    run(&mut cpu, &mut bus);
    assert_eq!(cpu.pc, 0x1002);
}

#[test]
fn pha_pla_round_trip() {
    let mut cpu = CPU::new();
    let mut bus = Bus::new();
    bus.write(0, 0x48); // PHA
    bus.write(1, 0xA9); // LDA #$00
    bus.write(2, 0x00);
    bus.write(3, 0x68); // PLA
    cpu.a = 0x5A;
    let s_before = cpu.s;
    run(&mut cpu, &mut bus);
    assert_eq!(cpu.s, s_before.wrapping_sub(1));
    run(&mut cpu, &mut bus);
    assert_eq!(cpu.a, 0x00);
    run(&mut cpu, &mut bus);
    assert_eq!(cpu.a, 0x5A);
    assert_eq!(cpu.s, s_before);
}

#[test]
fn php_plp_preserves_flags() {
    let mut cpu = CPU::new();
    let mut bus = Bus::new();
    bus.write(0, 0x38); // SEC
    bus.write(1, 0x08); // PHP
    bus.write(2, 0x18); // CLC
    bus.write(3, 0x28); // PLP
    run(&mut cpu, &mut bus);
    assert!(cpu.p.carry);
    run(&mut cpu, &mut bus);
    run(&mut cpu, &mut bus);
    assert!(!cpu.p.carry);
    run(&mut cpu, &mut bus);
    assert!(cpu.p.carry);
}

#[test]
fn adc_sets_carry_zero_and_overflow() {
    let mut cpu = CPU::new();
    let mut bus = Bus::new();
    bus.write(0, 0x69); // ADC #$80
    bus.write(1, 0x80);
    cpu.a = 0x80;
    run(&mut cpu, &mut bus);
    assert_eq!(cpu.a, 0x00);
    assert!(cpu.p.carry);
    assert!(cpu.p.zero);
    assert!(cpu.p.overflow);
    assert!(!cpu.p.sign);
}

#[test]
fn sbc_with_carry_set_subtracts_exactly() {
    let mut cpu = CPU::new();
    let mut bus = Bus::new();
    bus.write(0, 0xE9); // SBC #$10
    bus.write(1, 0x10);
    cpu.a = 0x50;
    cpu.p.carry = true;
    run(&mut cpu, &mut bus);
    assert_eq!(cpu.a, 0x40);
    assert!(cpu.p.carry);
    assert!(!cpu.p.overflow);
}

#[test]
fn cmp_equal_sets_zero_and_carry() {
    let mut cpu = CPU::new();
    let mut bus = Bus::new();
    bus.write(0, 0xC9); // CMP #$42
    bus.write(1, 0x42);
    cpu.a = 0x42;
    run(&mut cpu, &mut bus);
    assert!(cpu.p.zero);
    assert!(cpu.p.carry);
    assert!(!cpu.p.sign);
    assert_eq!(cpu.a, 0x42);
}

#[test]
fn asl_accumulator_shifts_into_carry() {
    let mut cpu = CPU::new();
    let mut bus = Bus::new();
    bus.write(0, 0x0A); // ASL A
    cpu.a = 0x81;
    run(&mut cpu, &mut bus);
    assert_eq!(cpu.a, 0x02);
    assert!(cpu.p.carry);
    assert!(!cpu.p.zero);
}

#[test]
fn ror_uses_and_sets_carry() {
    let mut cpu = CPU::new();
    let mut bus = Bus::new();
    bus.write(0, 0x6A); // ROR A
    cpu.a = 0x01;
    cpu.p.carry = true;
    run(&mut cpu, &mut bus);
    assert_eq!(cpu.a, 0x80);
    assert!(cpu.p.carry);
    assert!(cpu.p.sign);
}

#[test]
fn inc_memory_wraps() {
    let mut cpu = CPU::new();
    let mut bus = Bus::new();
    bus.write(0, 0xE6); // INC $10
    bus.write(1, 0x10);
    bus.write(0x10, 0xFF);
    run(&mut cpu, &mut bus);
    assert_eq!(bus.read(0x10), 0x00);
    assert!(cpu.p.zero);
}

#[test]
fn txs_updates_no_flags_but_tsx_does() {
    let mut cpu = CPU::new();
    let mut bus = Bus::new();
    bus.write(0, 0x9A); // TXS
    bus.write(1, 0xBA); // TSX
    cpu.x = 0x00;
    cpu.p.zero = false;
    run(&mut cpu, &mut bus);
    assert_eq!(cpu.s, 0x00);
    assert!(!cpu.p.zero); // TXS touches no flag
    cpu.x = 0x55;
    run(&mut cpu, &mut bus);
    assert_eq!(cpu.x, 0x00);
    assert!(cpu.p.zero); // TSX reflects the copied value
}

#[test]
fn jsr_rts_round_trip() {
    let mut cpu = CPU::new();
    let mut bus = Bus::new();
    bus.write(0x0200, 0x20); // JSR $0300
    bus.write(0x0201, 0x00);
    bus.write(0x0202, 0x03);
    bus.write(0x0300, 0x60); // RTS
    cpu.pc = 0x0200;
    run(&mut cpu, &mut bus);
    assert_eq!(cpu.pc, 0x0300);
    run(&mut cpu, &mut bus);
    assert_eq!(cpu.pc, 0x0203);
}

#[test]
fn sta_stores_without_flag_change() {
    let mut cpu = CPU::new();
    let mut bus = Bus::new();
    bus.write(0, 0x85); // STA $20
    bus.write(1, 0x20);
    cpu.a = 0x80;
    run(&mut cpu, &mut bus);
    assert_eq!(bus.read(0x20), 0x80);
    assert!(!cpu.p.sign);
    assert!(!cpu.p.zero);
}

#[test]
fn bit_sets_flags_from_memory() {
    let mut cpu = CPU::new();
    let mut bus = Bus::new();
    bus.write(0, 0x24); // BIT $10
    bus.write(1, 0x10);
    bus.write(0x10, 0xC0);
    cpu.a = 0x3F;
    run(&mut cpu, &mut bus);
    assert!(cpu.p.zero); // a & m == 0
    assert!(cpu.p.overflow); // bit 6 of m
    assert!(cpu.p.sign); // bit 7 of m
}

#[test]
fn mismatched_operand_faults() {
    // A hand-built pair the opcode table never produces: a load with no
    // operand to load from.
    let mut cpu = CPU::new();
    let mut bus = Bus::new();
    let i = Instruction { opcode: Opcode::LDA, address_mode: AddressMode::Implicit };
    assert_eq!(cpu.step(i, &mut bus), Err(EmuError::UnsupportedAddressingMode));
    // Nothing moved.
    assert_eq!(cpu.a, 0);
    assert_eq!(cpu.pc, 0);
}
