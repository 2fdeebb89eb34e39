//! Cartridge images in the iNES file format.
//!
//! A cartridge is parsed once at load time into an immutable [`Rom`]: the
//! PRG-ROM bytes the CPU executes, the CHR-ROM bytes the PPU draws from, and
//! the nametable mirroring flag. Only mapper 0 (NROM) is supported: PRG-ROM
//! is one or two 16 KiB pages and CHR-ROM is a single 8 KiB page.

use vstd::prelude::*;

verus! {

/// Nametable mirroring arrangement selected by the cartridge header.
#[derive(Clone, Copy, PartialEq, Eq, Structural, Debug)]
pub enum Mirroring {
    Horizontal,
    Vertical,
}

/// Why a cartridge image was rejected at load time. Loading is the only
/// operation of the core that can fail; execution never errors.
#[derive(Clone, Copy, PartialEq, Eq, Structural, Debug)]
pub enum RomError {
    /// The header magic is wrong or the page counts are impossible.
    MalformedRom,
    /// The mapper id is not 0.
    UnsupportedMapper,
    /// The file is shorter than the header claims.
    TruncatedRom,
}

/// An immutable cartridge: PRG-ROM, CHR-ROM and the mirroring flag.
pub struct Rom {
    pub prg_rom: Vec<u8>,
    pub chr_rom: Vec<u8>,
    pub mirroring: Mirroring,
}

impl Rom {
    /// A loaded mapper-0 cartridge: 16 KiB or 32 KiB of PRG-ROM and
    /// exactly 8 KiB of CHR-ROM.
    pub open spec fn wf(&self) -> bool {
        &&& self.prg_rom.len() == 0x4000 || self.prg_rom.len() == 0x8000
        &&& self.chr_rom.len() == 0x2000
    }
}

/// The 16-byte header starts with the magic `"NES" 0x1A`.
pub open spec fn header_magic_ok(b: Seq<u8>) -> bool {
    &&& b.len() >= 16
    &&& b[0] == 0x4Eu8
    &&& b[1] == 0x45u8
    &&& b[2] == 0x53u8
    &&& b[3] == 0x1Au8
}

/// Mapper id: high nibble from header byte 7, low nibble from byte 6.
pub open spec fn spec_mapper(b: Seq<u8>) -> u8 {
    (b[7] & 0xF0) | (b[6] >> 4)
}

/// Mapper 0 carries 1 or 2 PRG pages (16 KiB each) and 1 CHR page (8 KiB).
pub open spec fn page_counts_ok(b: Seq<u8>) -> bool {
    &&& b[4] == 1 || b[4] == 2
    &&& b[5] == 1
}

/// The byte count the header claims: header, PRG pages, then CHR pages.
pub open spec fn spec_total_len(b: Seq<u8>) -> int {
    16 + b[4] * 0x4000 + b[5] * 0x2000
}

/// Mirroring comes from bit 0 of header byte 6.
pub open spec fn spec_mirroring(b: Seq<u8>) -> Mirroring {
    if b[6] & 1 == 1 {
        Mirroring::Vertical
    } else {
        Mirroring::Horizontal
    }
}

/// The full load-time relation: which error each input is rejected with,
/// and exactly which bytes a successful load yields.
pub open spec fn parse_ok(b: Seq<u8>, r: Result<Rom, RomError>) -> bool {
    if !header_magic_ok(b) {
        r == Result::<Rom, RomError>::Err(RomError::MalformedRom)
    } else if spec_mapper(b) != 0 {
        r == Result::<Rom, RomError>::Err(RomError::UnsupportedMapper)
    } else if !page_counts_ok(b) {
        r == Result::<Rom, RomError>::Err(RomError::MalformedRom)
    } else if b.len() < spec_total_len(b) {
        r == Result::<Rom, RomError>::Err(RomError::TruncatedRom)
    } else {
        &&& r is Ok
        &&& r->Ok_0.prg_rom@ == b.subrange(16, 16 + b[4] * 0x4000)
        &&& r->Ok_0.chr_rom@ == b.subrange(16 + b[4] * 0x4000, spec_total_len(b))
        &&& r->Ok_0.mirroring == spec_mirroring(b)
        &&& r->Ok_0.wf()
    }
}

/// Parses an iNES image: validates the magic, the mapper id and the page
/// counts, then copies the PRG and CHR pages out of the body.
pub fn from_array(rom: &Vec<u8>) -> (r: Result<Rom, RomError>)
    ensures
        parse_ok(rom@, r),
{
    if rom.len() < 16 {
        return Err(RomError::MalformedRom);
    }
    if !(rom[0] == 0x4E && rom[1] == 0x45 && rom[2] == 0x53 && rom[3] == 0x1A) {
        return Err(RomError::MalformedRom);
    }
    let mapper: u8 = (rom[7] & 0xF0) | (rom[6] >> 4);
    if mapper != 0 {
        return Err(RomError::UnsupportedMapper);
    }
    let prg_pages: usize = rom[4] as usize;
    let chr_pages: usize = rom[5] as usize;
    if !(prg_pages == 1 || prg_pages == 2) || chr_pages != 1 {
        return Err(RomError::MalformedRom);
    }
    let prg_len: usize = prg_pages * 0x4000;
    let chr_len: usize = chr_pages * 0x2000;
    if rom.len() < 16 + prg_len + chr_len {
        return Err(RomError::TruncatedRom);
    }

    let mut prg_rom: Vec<u8> = Vec::new();
    let mut i: usize = 0;
    while i < prg_len
        invariant
            i <= prg_len,
            prg_len <= 0x8000,
            prg_len + chr_len + 16 <= rom@.len(),
            prg_rom@.len() == i,
            forall|j: int| 0 <= j < i ==> prg_rom@[j] == rom@[16 + j],
        decreases prg_len - i,
    {
        prg_rom.push(rom[16 + i]);
        i = i + 1;
    }

    let mut chr_rom: Vec<u8> = Vec::new();
    let mut k: usize = 0;
    while k < chr_len
        invariant
            k <= chr_len,
            prg_len <= 0x8000,
            chr_len <= 0x2000,
            prg_len + chr_len + 16 <= rom@.len(),
            chr_rom@.len() == k,
            forall|j: int| 0 <= j < k ==> chr_rom@[j] == rom@[16 + prg_len + j],
        decreases chr_len - k,
    {
        chr_rom.push(rom[16 + prg_len + k]);
        k = k + 1;
    }

    let mirroring = if rom[6] & 1 == 1 {
        Mirroring::Vertical
    } else {
        Mirroring::Horizontal
    };

    proof {
        assert(prg_rom@ =~= rom@.subrange(16, 16 + rom@[4] * 0x4000));
        assert(chr_rom@ =~= rom@.subrange(16 + rom@[4] * 0x4000, spec_total_len(rom@)));
    }
    Ok(Rom { prg_rom, chr_rom, mirroring })
}

} // verus!
