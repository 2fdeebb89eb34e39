use nes_core::sys::memory_map::MemoryMap;
use nes_core::sys::ppu::{build_tile, convert_to_rgb24, generate_color_palette, Ppu};
use nes_core::sys::rom::from_array;

fn make_bus() -> MemoryMap {
    let mut buf = vec![0x4Eu8, 0x45, 0x53, 0x1A, 1, 1, 0, 0];
    buf.resize(16 + 0x4000 + 0x2000, 0);
    let rom = from_array(&buf).unwrap();
    MemoryMap::new(rom, Ppu::new())
}

#[test]
fn wram_is_mirrored_four_times() {
    let mut bus = make_bus();
    bus.set_from_address(0x0007, 0x5A);
    assert_eq!(bus.get_from_address(0x0807), 0x5A);
    assert_eq!(bus.get_from_address(0x1007), 0x5A);
    assert_eq!(bus.get_from_address(0x1807), 0x5A);
    // and writes through a mirror land in the base cell
    bus.set_from_address(0x1FFF, 0x77);
    assert_eq!(bus.get_from_address(0x07FF), 0x77);
}

#[test]
fn palette_pairs_mirror_both_ways() {
    let mut bus = make_bus();
    // v = 0x3F10 via the two PPUADDR writes, then one data write
    bus.set_from_address(0x2006, 0x3F);
    bus.set_from_address(0x2006, 0x10);
    bus.set_from_address(0x2007, 0x21);
    assert_eq!(bus.ppu.ppu_ram[0x3F00], 0x21);
    assert_eq!(bus.ppu.ppu_ram[0x3F10], 0x21);
    // the other direction, on the 0x3F04 pair
    bus.set_from_address(0x2006, 0x3F);
    bus.set_from_address(0x2006, 0x04);
    bus.set_from_address(0x2007, 0x42);
    assert_eq!(bus.ppu.ppu_ram[0x3F14], 0x42);
    assert_eq!(bus.ppu.ppu_ram[0x3F04], 0x42);
}

#[test]
fn ppudata_reads_are_buffered_outside_the_palette() {
    let mut bus = make_bus();
    bus.set_from_address(0x2006, 0x20);
    bus.set_from_address(0x2006, 0x00);
    bus.set_from_address(0x2007, 0x77); // vram[0x2000] = 0x77
    bus.set_from_address(0x2006, 0x20);
    bus.set_from_address(0x2006, 0x00);
    let first = bus.get_from_address(0x2007);
    let second = bus.get_from_address(0x2007);
    assert_eq!(first, 0x00); // stale buffer
    assert_eq!(second, 0x77);
}

#[test]
fn ppudata_palette_reads_are_direct() {
    let mut bus = make_bus();
    bus.set_from_address(0x2006, 0x3F);
    bus.set_from_address(0x2006, 0x00);
    bus.set_from_address(0x2007, 0x21);
    bus.set_from_address(0x2006, 0x3F);
    bus.set_from_address(0x2006, 0x00);
    assert_eq!(bus.get_from_address(0x2007), 0x21);
}

#[test]
fn ppuctrl_bit2_selects_the_increment() {
    let mut bus = make_bus();
    bus.set_from_address(0x2000, 0x04);
    bus.set_from_address(0x2006, 0x20);
    bus.set_from_address(0x2006, 0x00);
    bus.set_from_address(0x2007, 0x11); // lands at 0x2000, v += 32
    bus.set_from_address(0x2007, 0x22); // lands at 0x2020
    assert_eq!(bus.ppu.ppu_ram[0x2000], 0x11);
    assert_eq!(bus.ppu.ppu_ram[0x2020], 0x22);
}

#[test]
fn oamdata_write_advances_oamaddr_and_read_does_not() {
    let mut bus = make_bus();
    bus.set_from_address(0x2003, 5);
    bus.set_from_address(0x2004, 0xAB);
    assert_eq!(bus.ppu.ppu_oam[5], 0xAB);
    assert_eq!(bus.ppu.ppu_reg[3], 6);
    bus.ppu.ppu_oam[6] = 0xCD;
    assert_eq!(bus.get_from_address(0x2004), 0xCD);
    assert_eq!(bus.ppu.ppu_reg[3], 6);
}

#[test]
fn status_read_clears_vblank_and_the_latch() {
    let mut bus = make_bus();
    bus.ppu.ppu_reg[2] = 0x80;
    bus.ppu.ppu_addr_count = 1;
    assert_eq!(bus.get_from_address(0x2002), 0x80);
    assert_eq!(bus.get_from_address(0x2002), 0x00);
    assert_eq!(bus.ppu.ppu_addr_count, 0);
}

#[test]
fn ppu_registers_mirror_every_eight_bytes() {
    let mut bus = make_bus();
    bus.set_from_address(0x3FF8, 0x80); // mirrors 0x2000
    assert_eq!(bus.ppu.ppu_reg[0], 0x80);
    assert_eq!(bus.get_from_address(0x2000), 0x80);
}

#[test]
fn oam_dma_copies_a_wram_page() {
    let mut bus = make_bus();
    for i in 0..256u16 {
        bus.set_from_address(0x0200 + i, i as u8);
    }
    bus.set_from_address(0x4014, 0x02);
    for i in 0..256usize {
        assert_eq!(bus.ppu.ppu_oam[i], i as u8);
    }
    assert!(bus.dma_pending);
}

#[test]
fn oam_dma_honours_oamaddr_with_wrap() {
    let mut bus = make_bus();
    for i in 0..256u16 {
        bus.set_from_address(0x0200 + i, i as u8);
    }
    bus.set_from_address(0x2003, 0x10);
    bus.set_from_address(0x4014, 0x02);
    assert_eq!(bus.ppu.ppu_oam[0x10], 0);
    assert_eq!(bus.ppu.ppu_oam[0x0F], 0xFF);
}

#[test]
fn prg_rom_mirrors_a_16k_image() {
    let mut buf = vec![0x4Eu8, 0x45, 0x53, 0x1A, 1, 1, 0, 0];
    buf.resize(16 + 0x4000 + 0x2000, 0);
    buf[16] = 0xAB; // prg[0]
    let rom = from_array(&buf).unwrap();
    let mut bus = MemoryMap::new(rom, Ppu::new());
    assert_eq!(bus.get_from_address(0x8000), 0xAB);
    assert_eq!(bus.get_from_address(0xC000), 0xAB);
}

#[test]
fn build_tile_decodes_both_planes() {
    let mut chr = vec![0u8; 0x2000];
    chr[16] = 0x81; // tile 1, plane 0, row 0
    chr[24] = 0x01; // tile 1, plane 1, row 0
    let tile = build_tile(1, 0, &chr);
    assert_eq!(tile.len(), 64);
    assert_eq!(tile[0], 1); // leftmost pixel: plane 0 only
    assert_eq!(tile[1], 0);
    assert_eq!(tile[7], 3); // rightmost pixel: both planes
    assert_eq!(tile[8], 0); // row 1 empty
}

#[test]
fn attribute_bytes_stamp_four_regions() {
    let mut ppu = Ppu::new();
    ppu.ppu_ram[0x23C0] = 0b1110_0100; // TL 0, TR 1, BL 2, BR 3
    ppu.refresh_attribute_table();
    assert_eq!(ppu.attribute_table_cache[0], 0);
    assert_eq!(ppu.attribute_table_cache[1], 1);
    assert_eq!(ppu.attribute_table_cache[16], 2);
    assert_eq!(ppu.attribute_table_cache[17], 3);
}

#[test]
fn master_palette_starts_grey() {
    assert_eq!(convert_to_rgb24(0o777), 0x00FF_FFFF);
    let pal = generate_color_palette();
    assert_eq!(pal.len(), 192);
    // entry 0 is octal 333: each channel (3 * 255) / 7
    assert_eq!(pal[0], 109);
    assert_eq!(pal[1], 109);
    assert_eq!(pal[2], 109);
}

#[test]
fn draw_bg_paints_the_selected_palette_colour() {
    let mut ppu = Ppu::new();
    ppu.ppu_ram[0x3F00] = 0x0D; // universal background: octal 000 -> black
    ppu.ppu_ram[0x3F05] = 0x20; // palette 1, index 1: octal 777 -> white
    let mut tile = vec![0u8; 64];
    tile[9] = 1; // pixel (1, 1) uses colour index 1
    let mut fb = vec![7u8; 245760];
    ppu.draw_bg(1, &tile, 16, 8, &mut fb);
    // pixel (17, 9): white
    let white = ((9 * 256) + 17) * 4;
    assert_eq!(fb[white], 255);
    assert_eq!(fb[white + 1], 255);
    assert_eq!(fb[white + 2], 255);
    assert_eq!(fb[white + 3], 7); // alpha untouched
    // pixel (16, 8): universal background, black
    let black = ((8 * 256) + 16) * 4;
    assert_eq!(fb[black], 0);
    assert_eq!(fb[black + 1], 0);
    assert_eq!(fb[black + 2], 0);
    // a pixel outside the tile is untouched
    assert_eq!(fb[0], 7);
}

#[test]
fn draw_sprite_flips_and_keeps_transparency() {
    let mut ppu = Ppu::new();
    ppu.ppu_ram[0x3F11] = 0x20; // sprite palette 0, index 1: white
    let mut tile = vec![0u8; 64];
    tile[0] = 1; // only the top-left source pixel is opaque
    let mut fb = vec![7u8; 245760];
    // horizontal flip: the opaque pixel lands at screen offset (7, 0)
    ppu.draw_sprite(0, &tile, 0x40, 32, 16, &mut fb);
    let hit = ((16 * 256) + 32 + 7) * 4;
    assert_eq!(fb[hit], 255);
    let miss = ((16 * 256) + 32) * 4;
    assert_eq!(fb[miss], 7); // transparent pixels leave the buffer alone
}

#[test]
fn three_ticks_advance_one_scanline() {
    let mut buf = vec![0x4Eu8, 0x45, 0x53, 0x1A, 1, 1, 0, 0];
    buf.resize(16 + 0x4000 + 0x2000, 0);
    let rom = from_array(&buf).unwrap();
    let mut ppu = Ppu::new();
    let mut fb = vec![0u8; 245760];
    for _ in 0..3 {
        ppu.next_cycle(&mut fb, &rom);
    }
    assert_eq!(ppu.current_line, 1);
}
