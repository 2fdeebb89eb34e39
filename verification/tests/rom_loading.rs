use nes_core::load_cartridge;
use nes_core::sys::rom::{from_array, Mirroring, RomError};

fn ines_image(prg_pages: u8, chr_pages: u8, flag6: u8, flag7: u8) -> Vec<u8> {
    let mut buf = vec![0x4Eu8, 0x45, 0x53, 0x1A, prg_pages, chr_pages, flag6, flag7];
    buf.resize(16, 0);
    buf.resize(16 + prg_pages as usize * 0x4000 + chr_pages as usize * 0x2000, 0);
    buf
}

#[test]
fn loads_a_minimal_cartridge() {
    let mut buf = ines_image(1, 1, 0, 0);
    buf[16] = 0xEA;
    buf[16 + 0x4000] = 0x55;
    let rom = from_array(&buf).unwrap();
    assert_eq!(rom.prg_rom.len(), 0x4000);
    assert_eq!(rom.chr_rom.len(), 0x2000);
    assert_eq!(rom.prg_rom[0], 0xEA);
    assert_eq!(rom.chr_rom[0], 0x55);
    assert!(rom.mirroring == Mirroring::Horizontal);
}

#[test]
fn loads_a_two_page_cartridge_with_vertical_mirroring() {
    let buf = ines_image(2, 1, 1, 0);
    let rom = from_array(&buf).unwrap();
    assert_eq!(rom.prg_rom.len(), 0x8000);
    assert!(rom.mirroring == Mirroring::Vertical);
}

#[test]
fn rejects_a_bad_magic() {
    let mut buf = ines_image(1, 1, 0, 0);
    buf[0] = 0x4D;
    assert!(matches!(from_array(&buf), Err(RomError::MalformedRom)));
}

#[test]
fn rejects_a_short_file() {
    let buf = vec![0x4Eu8, 0x45, 0x53];
    assert!(matches!(from_array(&buf), Err(RomError::MalformedRom)));
}

#[test]
fn rejects_a_nonzero_mapper() {
    let buf = ines_image(1, 1, 0x10, 0);
    assert!(matches!(from_array(&buf), Err(RomError::UnsupportedMapper)));
    let buf2 = ines_image(1, 1, 0, 0x40);
    assert!(matches!(from_array(&buf2), Err(RomError::UnsupportedMapper)));
}

#[test]
fn rejects_impossible_page_counts() {
    let buf = ines_image(3, 1, 0, 0);
    assert!(matches!(from_array(&buf), Err(RomError::MalformedRom)));
    let buf2 = ines_image(1, 2, 0, 0);
    assert!(matches!(from_array(&buf2), Err(RomError::MalformedRom)));
}

#[test]
fn rejects_a_truncated_body() {
    let mut buf = ines_image(1, 1, 0, 0);
    buf.truncate(buf.len() - 1);
    assert!(matches!(from_array(&buf), Err(RomError::TruncatedRom)));
}

#[test]
fn load_cartridge_agrees_with_from_array() {
    let buf = ines_image(1, 1, 1, 0);
    let rom = load_cartridge(&buf).unwrap();
    assert_eq!(rom.prg_rom.len(), 0x4000);
    assert!(rom.mirroring == Mirroring::Vertical);
}
