use nes_core::errors::EmuError;
use nes_core::errors::RomFormatError;
use nes_core::nes::Halt;
use nes_core::nes::Nes;
use nes_core::rom::Mirroring;
use nes_core::rom::ROM;

/// A supported cartridge whose program image is exactly `prg`.
fn cartridge(prg: Vec<u8>) -> ROM {
    ROM {
        mapper: 0,
        mirroring: Mirroring::Horizontal,
        persistent_memory: false,
        trainer: false,
        v2: false,
        prg_rom: prg,
        chr_rom: Vec::new(),
    }
}

#[test]
fn runs_to_end_of_program() {
    // ORA #$FF then AND #$6B.
    let rom = cartridge(vec![0x09, 0xFF, 0x29, 0x6B]);
    let mut nes = Nes::new();
    let r = nes.execute(&rom, 1000);
    assert_eq!(r, Ok(Halt::EndOfProgram));
    assert_eq!(nes.cpu.a, 0x6B);
    assert_eq!(nes.cpu.pc, 4);
}

#[test]
fn brk_halts_with_break_flag() {
    // LDA #$42 then BRK.
    let rom = cartridge(vec![0xA9, 0x42, 0x00]);
    let mut nes = Nes::new();
    let r = nes.execute(&rom, 1000);
    assert_eq!(r, Ok(Halt::Break));
    assert!(nes.cpu.p.brk);
    assert_eq!(nes.cpu.a, 0x42);
}

#[test]
fn illegal_opcode_is_fatal() {
    let rom = cartridge(vec![0x02]);
    let mut nes = Nes::new();
    let r = nes.execute(&rom, 1000);
    assert_eq!(r, Err(EmuError::UnsupportedOpcode(0x02)));
}

#[test]
fn step_budget_stops_a_tight_loop() {
    // BNE -2: branches to itself for ever while zero is clear.
    let rom = cartridge(vec![0xD0, 0xFE]);
    let mut nes = Nes::new();
    let r = nes.execute(&rom, 50);
    assert_eq!(r, Ok(Halt::StepLimit));
}

#[test]
fn unsupported_rom_is_rejected_before_running() {
    let mut rom = cartridge(vec![0xA9, 0x42, 0x00]);
    rom.trainer = true;
    let mut nes = Nes::new();
    let r = nes.execute(&rom, 1000);
    assert_eq!(
        r,
        Err(EmuError::RomFormat(RomFormatError::TrainerPresent))
    );
    // Nothing ran: the CPU still sits at power-up.
    assert_eq!(nes.cpu.pc, 0);
    assert_eq!(nes.cpu.a, 0);
}

#[test]
fn branch_loop_counts_down() {
    // LDX #$03; DEX; BNE -3; BRK.
    let rom = cartridge(vec![0xA2, 0x03, 0xCA, 0xD0, 0xFD, 0x00]);
    let mut nes = Nes::new();
    let r = nes.execute(&rom, 1000);
    assert_eq!(r, Ok(Halt::Break));
    assert_eq!(nes.cpu.x, 0);
    assert!(nes.cpu.p.zero);
}

#[test]
fn stores_write_through_to_the_bus() {
    // LDA #$7E; STA $0200; BRK.
    let rom = cartridge(vec![0xA9, 0x7E, 0x8D, 0x00, 0x02, 0x00]);
    let mut nes = Nes::new();
    let r = nes.execute(&rom, 1000);
    assert_eq!(r, Ok(Halt::Break));
    assert_eq!(nes.bus.read(0x0200), 0x7E);
}

#[test]
fn oversized_program_is_rejected() {
    let rom = cartridge(vec![0xEA; 0x10001]);
    let mut nes = Nes::new();
    let r = nes.execute(&rom, 1000);
    assert_eq!(
        r,
        Err(EmuError::RomFormat(RomFormatError::OversizedProgram))
    );
}
