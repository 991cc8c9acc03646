use nes_core::errors::EmuError;
use nes_core::errors::RomFormatError;
use nes_core::nes::Nes;
use nes_core::rom::Mirroring;
use nes_core::rom::ROM;

/// A ROM value built by hand, for exercising the feature check directly.
fn plain_rom() -> ROM {
    ROM {
        mapper: 0,
        mirroring: Mirroring::Horizontal,
        persistent_memory: false,
        trainer: false,
        v2: false,
        prg_rom: vec![0; 16384],
        chr_rom: Vec::new(),
    }
}

/// A container with the given header bytes 4..=7, padded with exactly the
/// program and character bytes the header announces.
fn container(prg_banks: u8, chr_banks: u8, flags6: u8, flags7: u8) -> Vec<u8> {
    let mut c = vec![0x4E, 0x45, 0x53, 0x1A, prg_banks, chr_banks, flags6, flags7];
    c.resize(16, 0);
    c.resize(16 + prg_banks as usize * 16384 + chr_banks as usize * 8192, 0xEA);
    c
}

#[test]
fn rejects_wrong_magic() {
    let mut c = container(1, 1, 0, 0);
    c[0] = 0x58; // 'X'
    assert!(matches!(ROM::new(&c), Err(RomFormatError::BadMagic)));

    let mut c = container(1, 1, 0, 0);
    c[3] = 0x00;
    assert!(matches!(ROM::new(&c), Err(RomFormatError::BadMagic)));
}

#[test]
fn rejects_short_file() {
    let c = vec![0x4E, 0x45, 0x53];
    assert!(matches!(ROM::new(&c), Err(RomFormatError::Truncated)));
}

#[test]
fn rejects_truncated_images() {
    let mut c = container(1, 1, 0, 0);
    c.truncate(16 + 1000);
    assert!(matches!(ROM::new(&c), Err(RomFormatError::Truncated)));
}

#[test]
fn image_sizes_follow_bank_counts() {
    let c = container(2, 1, 0, 0);
    let rom = ROM::new(&c).unwrap();
    assert_eq!(rom.prg_rom.len(), 32768);
    assert_eq!(rom.chr_rom.len(), 8192);
    assert_eq!(rom.mapper, 0);
    assert!(matches!(rom.mirroring, Mirroring::Horizontal));
    assert!(rom.verify().is_ok());
}

#[test]
fn image_bytes_are_the_ranges_after_the_header() {
    let mut c = container(1, 1, 0, 0);
    c[16] = 0xA9;
    c[17] = 0x42;
    c[16 + 16384] = 0x77;
    let rom = ROM::new(&c).unwrap();
    assert_eq!(rom.prg_rom[0], 0xA9);
    assert_eq!(rom.prg_rom[1], 0x42);
    assert_eq!(rom.chr_rom[0], 0x77);
}

#[test]
fn trainer_bit_rejected_even_when_well_formed() {
    let c = container(1, 1, 0x04, 0);
    assert!(matches!(ROM::new(&c), Err(RomFormatError::TrainerPresent)));
}

#[test]
fn persistent_memory_bit_rejected() {
    let c = container(1, 1, 0x02, 0);
    assert!(matches!(ROM::new(&c), Err(RomFormatError::PersistentMemory)));
}

#[test]
fn nonzero_mapper_rejected() {
    let c = container(1, 1, 0x10, 0);
    assert!(matches!(ROM::new(&c), Err(RomFormatError::UnsupportedMapper)));
}

#[test]
fn extended_header_rejected() {
    let c = container(1, 1, 0, 0x08);
    assert!(matches!(ROM::new(&c), Err(RomFormatError::ExtendedHeader)));
}

#[test]
fn verify_names_each_unsupported_feature() {
    assert!(plain_rom().verify().is_ok());
    let mut rom = plain_rom();
    rom.trainer = true;
    assert_eq!(rom.verify(), Err(RomFormatError::TrainerPresent));
    let mut rom = plain_rom();
    rom.persistent_memory = true;
    assert_eq!(rom.verify(), Err(RomFormatError::PersistentMemory));
    let mut rom = plain_rom();
    rom.mapper = 4;
    assert_eq!(rom.verify(), Err(RomFormatError::UnsupportedMapper));
    let mut rom = plain_rom();
    rom.v2 = true;
    assert_eq!(rom.verify(), Err(RomFormatError::ExtendedHeader));
}

#[test]
fn oversized_image_parses_but_does_not_run() {
    // Five 16 KiB banks exceed the 64 KiB address space: the parser and
    // the feature check accept the container, the runner rejects it.
    let c = container(5, 0, 0, 0);
    let rom = ROM::new(&c).unwrap();
    assert!(rom.verify().is_ok());
    assert_eq!(rom.prg_rom.len(), 5 * 16384);
    let mut nes = Nes::new();
    assert_eq!(
        nes.execute(&rom, 10),
        Err(EmuError::RomFormat(RomFormatError::OversizedProgram))
    );
}

#[test]
fn mirroring_bits() {
    let rom = ROM::new(&container(1, 0, 0x01, 0)).unwrap();
    assert!(matches!(rom.mirroring, Mirroring::Vertical));
    // Four-screen override takes precedence over bit 0.
    let rom = ROM::new(&container(1, 0, 0x09, 0)).unwrap();
    assert!(matches!(rom.mirroring, Mirroring::FourScreen));
}
