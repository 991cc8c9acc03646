use nes_core::bus::Bus;
use nes_core::cpu::CPU;
use nes_core::errors::EmuError;
use nes_core::instruction::AddressMode;
use nes_core::instruction::Instruction;
use nes_core::instruction::Opcode;

#[test]
fn decode_is_total_over_all_bytes() {
    // Every byte decodes to either a documented pair or the
    // unsupported-opcode marker carrying that very byte.
    let mut legal: u32 = 0;
    for b in 0..=255u8 {
        match Instruction::new(b) {
            Ok(_) => legal += 1,
            Err(e) => assert_eq!(e, EmuError::UnsupportedOpcode(b)),
        }
    }
    // The 6502 documents exactly 151 official opcodes.
    assert_eq!(legal, 151);
}

#[test]
fn decode_known_entries() {
    let i = Instruction::new(0x29).unwrap();
    assert_eq!(i.opcode, Opcode::AND);
    assert_eq!(i.address_mode, AddressMode::Immediate);

    let i = Instruction::new(0x09).unwrap();
    assert_eq!(i.opcode, Opcode::ORA);
    assert_eq!(i.address_mode, AddressMode::Immediate);

    let i = Instruction::new(0xA9).unwrap();
    assert_eq!(i.opcode, Opcode::LDA);
    assert_eq!(i.address_mode, AddressMode::Immediate);

    let i = Instruction::new(0x6C).unwrap();
    assert_eq!(i.opcode, Opcode::JMP);
    assert_eq!(i.address_mode, AddressMode::Indirect);

    let i = Instruction::new(0xCA).unwrap();
    assert_eq!(i.opcode, Opcode::DEX);
    assert_eq!(i.address_mode, AddressMode::Implicit);

    let i = Instruction::new(0xF0).unwrap();
    assert_eq!(i.opcode, Opcode::BEQ);
    assert_eq!(i.address_mode, AddressMode::Relative);

    let i = Instruction::new(0x91).unwrap();
    assert_eq!(i.opcode, Opcode::STA);
    assert_eq!(i.address_mode, AddressMode::IndirectIndexed);

    let i = Instruction::new(0x1E).unwrap();
    assert_eq!(i.opcode, Opcode::ASL);
    assert_eq!(i.address_mode, AddressMode::AbsoluteX);

    let i = Instruction::new(0xB6).unwrap();
    assert_eq!(i.opcode, Opcode::LDX);
    assert_eq!(i.address_mode, AddressMode::ZeroPageY);
}

#[test]
fn decode_rejects_illegal_bytes() {
    for b in [0x02u8, 0x03, 0x0B, 0x44, 0x80, 0xFF] {
        assert_eq!(Instruction::new(b), Err(EmuError::UnsupportedOpcode(b)));
    }
}

#[test]
fn every_legal_opcode_steps_without_fault() {
    // Runtime counterpart of the decode/execute compatibility law: each of
    // the 151 documented opcodes executes on zeroed memory without a fault.
    for b in 0..=255u8 {
        if let Ok(instruction) = Instruction::new(b) {
            let mut cpu = CPU::new();
            let mut bus = Bus::new();
            bus.write(0x0200, b);
            cpu.pc = 0x0201;
            assert_eq!(cpu.step(instruction, &mut bus), Ok(()), "opcode {:#04x}", b);
        }
    }
}
