//! The iNES ROM container loader.
//!
//! A container is a 16-byte header followed by the program-ROM and
//! character-ROM images. The loader validates the magic bytes, computes the
//! image sizes from the bank counts, extracts the two byte buffers, and
//! reads the capability flags. Containers that use a trainer section,
//! persistent memory, a mapper other than mapper 0, or the extended header
//! variant are rejected with a specific reason rather than silently
//! accepted.

use vstd::prelude::*;

use crate::errors::RomFormatError;

verus! {

/// Bytes in the header that prefixes every container.
pub const HEADER_LEN: usize = 16;

/// Bytes per program-ROM bank.
pub const PRG_BANK: usize = 16384;

/// Bytes per character-ROM bank.
pub const CHR_BANK: usize = 8192;

/// Nametable mirroring arrangement declared by the cartridge.
#[derive(Clone, Copy, Debug, PartialEq, Eq, Structural)]
pub enum Mirroring {
    Horizontal,
    Vertical,
    FourScreen,
}

/// A parsed iNES container.
pub struct ROM {
    /// Cartridge mapper number; only mapper 0 is supported.
    pub mapper: u8,
    /// Declared nametable mirroring.
    pub mirroring: Mirroring,
    /// Whether the cartridge declares battery-backed persistent memory.
    pub persistent_memory: bool,
    /// Whether the container carries a 512-byte trainer section.
    pub trainer: bool,
    /// Whether the header is in the extended container format.
    pub v2: bool,
    /// The program-ROM image.
    pub prg_rom: Vec<u8>,
    /// The character-ROM image.
    pub chr_rom: Vec<u8>,
}

/// The magic prefix: the ASCII bytes `NES` followed by 0x1A.
pub open spec fn magic_ok(b: Seq<u8>) -> bool {
    b[0] == 0x4Eu8 && b[1] == 0x45u8 && b[2] == 0x53u8 && b[3] == 0x1Au8
}

/// Program-ROM size in bytes: header byte 4 counts 16 KiB banks.
pub open spec fn prg_size_spec(b: Seq<u8>) -> int {
    b[4] * (PRG_BANK as int)
}

/// Character-ROM size in bytes: header byte 5 counts 8 KiB banks.
pub open spec fn chr_size_spec(b: Seq<u8>) -> int {
    b[5] * (CHR_BANK as int)
}

/// The mapper number: low nibble in the high bits of header byte 6, high
/// nibble in the high bits of header byte 7.
pub open spec fn mapper_spec(b: Seq<u8>) -> u8 {
    (b[6] >> 4) | (b[7] & 0xF0)
}

/// Mirroring from header byte 6: bit 3 (four-screen override) takes
/// precedence over bit 0 (0 = horizontal, 1 = vertical).
pub open spec fn mirroring_spec(b: Seq<u8>) -> Mirroring {
    if b[6] & 0x08 != 0 {
        Mirroring::FourScreen
    } else if b[6] & 0x01 != 0 {
        Mirroring::Vertical
    } else {
        Mirroring::Horizontal
    }
}

/// Extended ("2.0") header detection: bits 2-3 of header byte 7 hold the
/// pattern binary 10.
pub open spec fn v2_spec(b: Seq<u8>) -> bool {
    b[7] & 0x0C == 0x08
}

/// A container the parser accepts: long enough for its header, carrying the
/// magic prefix, and long enough for the two images the header announces.
pub open spec fn container_ok(b: Seq<u8>) -> bool {
    &&& b.len() >= HEADER_LEN
    &&& magic_ok(b)
    &&& b.len() >= HEADER_LEN + prg_size_spec(b) + chr_size_spec(b)
}

/// Which containers the feature check accepts: no trainer, no persistent
/// memory, mapper 0 and no extended header; the first unsupported feature
/// present names the rejection.
pub open spec fn verify_spec(rom: ROM) -> Result<(), RomFormatError> {
    if rom.trainer {
        Err(RomFormatError::TrainerPresent)
    } else if rom.persistent_memory {
        Err(RomFormatError::PersistentMemory)
    } else if rom.mapper != 0 {
        Err(RomFormatError::UnsupportedMapper)
    } else if rom.v2 {
        Err(RomFormatError::ExtendedHeader)
    } else {
        Ok(())
    }
}

/// The feature check, stated over the raw header bytes: what a container
/// must satisfy, beyond [`container_ok`], for the loader to accept it.
pub open spec fn features_ok(b: Seq<u8>) -> bool {
    &&& b[6] & 0x04 == 0
    &&& b[6] & 0x02 == 0
    &&& mapper_spec(b) == 0
    &&& !v2_spec(b)
}

/// A copy of `src[start..start + len]`.
fn copy_range(src: &Vec<u8>, start: usize, len: usize) -> (out: Vec<u8>)
    requires
        start + len <= src@.len(),
    ensures
        out@ == src@.subrange(start as int, start + len),
{
    let total: usize = src.len();
    let mut out: Vec<u8> = Vec::new();
    let mut i: usize = 0;
    while i < len
        invariant
            i <= len,
            start + len <= total,
            total == src@.len(),
            out@.len() == i,
            forall|k: int| 0 <= k < i ==> out@[k] == src@[start + k],
        decreases len - i,
    {
        out.push(src[start + i]);
        i += 1;
    }
    proof {
        assert(out@ =~= src@.subrange(start as int, start + len));
    }
    out
}

impl ROM {
    /// Parse an iNES container from its raw bytes and check its features.
    ///
    /// Succeeds exactly on containers that are long enough for the header,
    /// begin with the magic bytes, are long enough for the program and
    /// character images the header announces, and use no unsupported
    /// feature: a too-short file is reported as truncated, a wrong prefix
    /// as bad magic, and a trainer section, persistent memory, a mapper
    /// other than mapper 0 or the extended header variant by name, the
    /// first such feature deciding. On success every field holds exactly
    /// what the header says, and the two images are the exact byte ranges
    /// that follow the header.
    pub fn new(contents: &Vec<u8>) -> (r: Result<ROM, RomFormatError>)
        ensures
            r is Ok <==> container_ok(contents@) && features_ok(contents@),
            contents@.len() < HEADER_LEN ==> r == Err::<ROM, RomFormatError>(
                RomFormatError::Truncated,
            ),
            contents@.len() >= HEADER_LEN && !magic_ok(contents@) ==> r == Err::<
                ROM,
                RomFormatError,
            >(RomFormatError::BadMagic),
            contents@.len() >= HEADER_LEN && magic_ok(contents@) && contents@.len() < HEADER_LEN
                + prg_size_spec(contents@) + chr_size_spec(contents@) ==> r == Err::<
                ROM,
                RomFormatError,
            >(RomFormatError::Truncated),
            container_ok(contents@) && contents@[6] & 0x04 != 0 ==> r == Err::<
                ROM,
                RomFormatError,
            >(RomFormatError::TrainerPresent),
            container_ok(contents@) && contents@[6] & 0x04 == 0 && contents@[6] & 0x02 != 0
                ==> r == Err::<ROM, RomFormatError>(RomFormatError::PersistentMemory),
            container_ok(contents@) && contents@[6] & 0x04 == 0 && contents@[6] & 0x02 == 0
                && mapper_spec(contents@) != 0 ==> r == Err::<ROM, RomFormatError>(
                RomFormatError::UnsupportedMapper,
            ),
            container_ok(contents@) && contents@[6] & 0x04 == 0 && contents@[6] & 0x02 == 0
                && mapper_spec(contents@) == 0 && v2_spec(contents@) ==> r == Err::<
                ROM,
                RomFormatError,
            >(RomFormatError::ExtendedHeader),
            r matches Ok(rom) ==> {
                &&& rom.prg_rom@ == contents@.subrange(
                    HEADER_LEN as int,
                    HEADER_LEN + prg_size_spec(contents@),
                )
                &&& rom.chr_rom@ == contents@.subrange(
                    HEADER_LEN + prg_size_spec(contents@),
                    HEADER_LEN + prg_size_spec(contents@) + chr_size_spec(contents@),
                )
                &&& rom.mapper == mapper_spec(contents@)
                &&& rom.mirroring == mirroring_spec(contents@)
                &&& rom.persistent_memory == (contents@[6] & 0x02 != 0)
                &&& rom.trainer == (contents@[6] & 0x04 != 0)
                &&& rom.v2 == v2_spec(contents@)
            },
    {
        if contents.len() < HEADER_LEN {
            return Err(RomFormatError::Truncated);
        }
        if !(contents[0] == 0x4E && contents[1] == 0x45 && contents[2] == 0x53 && contents[3]
            == 0x1A) {
            return Err(RomFormatError::BadMagic);
        }
        let prg_size: usize = contents[4] as usize * PRG_BANK;
        let chr_size: usize = contents[5] as usize * CHR_BANK;
        if contents.len() < HEADER_LEN + prg_size || contents.len() - HEADER_LEN - prg_size
            < chr_size {
            return Err(RomFormatError::Truncated);
        }
        let prg_rom = copy_range(contents, HEADER_LEN, prg_size);
        let chr_rom = copy_range(contents, HEADER_LEN + prg_size, chr_size);
        let flags6 = contents[6];
        let flags7 = contents[7];
        let mirroring = if flags6 & 0x08 != 0 {
            Mirroring::FourScreen
        } else if flags6 & 0x01 != 0 {
            Mirroring::Vertical
        } else {
            Mirroring::Horizontal
        };
        let rom = ROM {
            mapper: (flags6 >> 4u8) | (flags7 & 0xF0),
            mirroring,
            persistent_memory: flags6 & 0x02 != 0,
            trainer: flags6 & 0x04 != 0,
            v2: flags7 & 0x0C == 0x08,
            prg_rom,
            chr_rom,
        };
        match rom.verify() {
            Err(e) => Err(e),
            Ok(()) => Ok(rom),
        }
    }

    /// Check the parsed container against the features this core supports,
    /// reporting the first unsupported one, exactly as [`verify_spec`]
    /// states.
    pub fn verify(&self) -> (r: Result<(), RomFormatError>)
        ensures
            r == verify_spec(*self),
    {
        if self.trainer {
            Err(RomFormatError::TrainerPresent)
        } else if self.persistent_memory {
            Err(RomFormatError::PersistentMemory)
        } else if self.mapper != 0 {
            Err(RomFormatError::UnsupportedMapper)
        } else if self.v2 {
            Err(RomFormatError::ExtendedHeader)
        } else {
            Ok(())
        }
    }
}

} // verus!
