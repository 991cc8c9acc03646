use nes_core::bus::Bus;
use nes_core::cpu::Operand;
use nes_core::cpu::CPU;
use nes_core::instruction::AddressMode;
use nes_core::instruction::Instruction;

#[test]
fn indirect_page_boundary_bug() {
    // Pointer 0x10FF: the low target byte comes from 0x10FF, the high one
    // from 0x1000 (start of the same page), not from 0x1100.
    let mut cpu = CPU::new();
    let mut bus = Bus::new();
    bus.write(0, 0xFF);
    bus.write(1, 0x10);
    bus.write(0x10FF, 0x00);
    bus.write(0x1000, 0x80);
    bus.write(0x1100, 0x55); // decoy: must not be used
    let o = cpu.resolve(AddressMode::Indirect, &bus);
    assert_eq!(o, Operand::Addr(0x8000));
    assert_eq!(cpu.pc, 2);
}

#[test]
fn indirect_without_page_boundary() {
    let mut cpu = CPU::new();
    let mut bus = Bus::new();
    bus.write(0, 0xFE);
    bus.write(1, 0x10);
    bus.write(0x10FE, 0x34);
    bus.write(0x10FF, 0x12);
    let o = cpu.resolve(AddressMode::Indirect, &bus);
    assert_eq!(o, Operand::Addr(0x1234));
}

#[test]
fn jmp_indirect_follows_buggy_pointer() {
    let mut cpu = CPU::new();
    let mut bus = Bus::new();
    bus.write(0x0400, 0x6C); // JMP ($10FF)
    bus.write(0x0401, 0xFF);
    bus.write(0x0402, 0x10);
    bus.write(0x10FF, 0x00);
    bus.write(0x1000, 0x80);
    cpu.pc = 0x0401;
    let i = Instruction::new(0x6C).unwrap();
    cpu.step(i, &mut bus).unwrap();
    assert_eq!(cpu.pc, 0x8000);
}

#[test]
fn zero_page_x_wraps_within_zero_page() {
    let mut cpu = CPU::new();
    let mut bus = Bus::new();
    bus.write(0, 0xF0);
    cpu.x = 0x20;
    let o = cpu.resolve(AddressMode::ZeroPageX, &bus);
    // 0xF0 + 0x20 wraps to 0x10: no carry into page one.
    assert_eq!(o, Operand::Addr(0x0010));
}

#[test]
fn absolute_x_crosses_pages() {
    let mut cpu = CPU::new();
    let mut bus = Bus::new();
    bus.write(0, 0xFF);
    bus.write(1, 0x20);
    cpu.x = 0x02;
    let o = cpu.resolve(AddressMode::AbsoluteX, &bus);
    assert_eq!(o, Operand::Addr(0x2101));
    assert_eq!(cpu.pc, 2);
}

#[test]
fn indexed_indirect_pre_indexes_by_x() {
    let mut cpu = CPU::new();
    let mut bus = Bus::new();
    bus.write(0, 0x20);
    cpu.x = 0x04;
    bus.write(0x24, 0x74);
    bus.write(0x25, 0x20);
    let o = cpu.resolve(AddressMode::IndexedIndirect, &bus);
    assert_eq!(o, Operand::Addr(0x2074));
}

#[test]
fn indirect_indexed_post_indexes_by_y() {
    let mut cpu = CPU::new();
    let mut bus = Bus::new();
    bus.write(0, 0x86);
    cpu.y = 0x10;
    bus.write(0x86, 0x28);
    bus.write(0x87, 0x40);
    let o = cpu.resolve(AddressMode::IndirectIndexed, &bus);
    assert_eq!(o, Operand::Addr(0x4038));
}

#[test]
fn immediate_and_implicit_consume_the_right_bytes() {
    let mut cpu = CPU::new();
    let mut bus = Bus::new();
    bus.write(0, 0x7F);
    let o = cpu.resolve(AddressMode::Immediate, &bus);
    assert_eq!(o, Operand::Imm(0x7F));
    assert_eq!(cpu.pc, 1);
    let o = cpu.resolve(AddressMode::Implicit, &bus);
    assert_eq!(o, Operand::Implied);
    assert_eq!(cpu.pc, 1);
    let o = cpu.resolve(AddressMode::Accumulator, &bus);
    assert_eq!(o, Operand::Acc);
    assert_eq!(cpu.pc, 1);
}
