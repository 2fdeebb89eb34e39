use nes_core::sys::rom::from_array;
use nes_core::sys::system::Nes;

/// A one-page cartridge whose PRG bytes and vectors the test chooses.
/// `program` lands at 0x8000; the reset vector points there unless the
/// test overwrites it.
fn make_nes(program: &[u8]) -> Nes {
    let mut buf = vec![0x4Eu8, 0x45, 0x53, 0x1A, 1, 1, 0, 0];
    buf.resize(16 + 0x4000 + 0x2000, 0);
    for (i, b) in program.iter().enumerate() {
        buf[16 + i] = *b;
    }
    buf[16 + 0x3FFC] = 0x00; // reset vector low
    buf[16 + 0x3FFD] = 0x80; // reset vector high
    let rom = from_array(&buf).unwrap();
    Nes::new(rom)
}

#[test]
fn reset_loads_the_vector_at_fffc() {
    let mut nes = make_nes(&[]);
    nes.reset();
    assert_eq!(nes.cpu.program_counter, 0x8000);
    assert_eq!(nes.cpu.reg_s, 0xFD);
    assert_eq!(nes.cpu.reg_p, 0x34);
}

#[test]
fn every_step_costs_at_least_two_cycles() {
    // NOP; NOP; LDA #$01 ...
    let mut nes = make_nes(&[0xEA, 0xEA, 0xA9, 0x01]);
    nes.reset();
    for _ in 0..3 {
        let cycles = nes.execute();
        assert!(cycles >= 2);
    }
    assert_eq!(nes.cpu.reg_a, 0x01);
}

#[test]
fn vblank_begins_at_line_241_and_status_reads_once() {
    let mut nes = make_nes(&[0xEA]);
    nes.reset();
    // 241 lines, three ticks each
    for _ in 0..(241 * 3) {
        nes.memory_map
            .ppu_next_cycle(&mut nes.frame_buffer, &mut nes.cpu);
    }
    assert_eq!(nes.memory_map.ppu.current_line, 241);
    assert_eq!(nes.memory_map.ppu.ppu_reg[2] & 0x80, 0x80);
    let first = nes.memory_map.get_from_address(0x2002);
    assert_eq!(first, 0x80);
    let second = nes.memory_map.get_from_address(0x2002);
    assert_eq!(second, 0x00);
}

#[test]
fn vblank_clears_on_the_prerender_line() {
    let mut nes = make_nes(&[0xEA]);
    nes.reset();
    for _ in 0..(261 * 3) {
        nes.memory_map
            .ppu_next_cycle(&mut nes.frame_buffer, &mut nes.cpu);
    }
    assert_eq!(nes.memory_map.ppu.current_line, 261);
    assert_eq!(nes.memory_map.ppu.ppu_reg[2] & 0x80, 0x00);
}

#[test]
fn nmi_diverts_to_the_fffa_vector_with_break_clear() {
    // NMI vector: 0x9000 (prg offset 0x1000)
    let mut buf = vec![0x4Eu8, 0x45, 0x53, 0x1A, 1, 1, 0, 0];
    buf.resize(16 + 0x4000 + 0x2000, 0);
    buf[16 + 0x3FFC] = 0x00;
    buf[16 + 0x3FFD] = 0x80;
    buf[16 + 0x3FFA] = 0x00;
    buf[16 + 0x3FFB] = 0x90;
    let rom = from_array(&buf).unwrap();
    let mut nes = Nes::new(rom);
    nes.reset();
    nes.memory_map.set_from_address(0x2000, 0x80); // enable NMI
    for _ in 0..(241 * 3) {
        nes.memory_map
            .ppu_next_cycle(&mut nes.frame_buffer, &mut nes.cpu);
    }
    assert_eq!(nes.cpu.program_counter, 0x9000);
    // the pushed copy of p sits at 0x0100 | (s_before - 2) = 0x01FB
    let pushed = nes.memory_map.get_from_address(0x01FB);
    assert_eq!(pushed & 0x10, 0);
    assert_eq!(pushed & 0x20, 0x20);
    // interrupts now disabled in the register
    assert_eq!(nes.cpu.reg_p & 0x04, 0x04);
}

#[test]
fn oam_dma_stalls_the_frame_budget() {
    // LDA #$02; STA $4014
    let mut nes = make_nes(&[0xA9, 0x02, 0x8D, 0x14, 0x40]);
    nes.reset();
    for i in 0..256u16 {
        nes.memory_map.set_from_address(0x0200 + i, (255 - i) as u8);
    }
    let c1 = nes.execute(); // LDA
    assert_eq!(c1, 2);
    let c2 = nes.execute(); // STA $4014 plus the DMA stall
    assert!(c2 >= 513);
    for i in 0..256usize {
        assert_eq!(nes.memory_map.ppu.ppu_oam[i], (255 - i) as u8);
    }
    assert!(!nes.memory_map.dma_pending);
}

#[test]
fn run_frame_keeps_the_buffer_opaque() {
    // a tiny loop: JMP $8000
    let mut nes = make_nes(&[0x4C, 0x00, 0x80]);
    nes.reset();
    nes.run_frame();
    let fb = nes.frame_buffer();
    assert_eq!(fb.len(), 245760);
    for i in 0..245760 {
        if i % 4 == 3 {
            assert_eq!(fb[i], 255);
        }
    }
}

#[test]
fn small_program_traces_the_expected_register_tuples() {
    // LDX #$05; LDA #$F0; STA $10; INX; DEX; CMP #$F0; BNE +2; BEQ +2; NOP
    let mut nes = make_nes(&[
        0xA2, 0x05, 0xA9, 0xF0, 0x85, 0x10, 0xE8, 0xCA, 0xC9, 0xF0, 0xD0, 0x02, 0xF0, 0x02,
        0xEA, 0xEA, 0xEA, 0xEA,
    ]);
    nes.reset();
    assert_eq!(nes.cpu.program_counter, 0x8000);

    let expected: [(u16, u8, u8, u8, u32); 8] = [
        // (pc after, a, x, p, cycles)
        (0x8002, 0x00, 0x05, 0x34, 2), // LDX #$05
        (0x8004, 0xF0, 0x05, 0xB4, 2), // LDA #$F0 sets N
        (0x8006, 0xF0, 0x05, 0xB4, 3), // STA $10
        (0x8007, 0xF0, 0x06, 0x34, 2), // INX clears N
        (0x8008, 0xF0, 0x05, 0x34, 2), // DEX
        (0x800A, 0xF0, 0x05, 0x37, 2), // CMP #$F0 sets C and Z
        (0x800C, 0xF0, 0x05, 0x37, 2), // BNE not taken
        (0x8010, 0xF0, 0x05, 0x37, 3), // BEQ taken, same page
    ];
    for (step, (pc, a, x, p, cyc)) in expected.iter().enumerate() {
        let c = nes.execute();
        assert_eq!(nes.cpu.program_counter, *pc, "step {step}");
        assert_eq!(nes.cpu.reg_a, *a, "step {step}");
        assert_eq!(nes.cpu.reg_x, *x, "step {step}");
        assert_eq!(nes.cpu.reg_p, *p, "step {step}");
        assert_eq!(c, *cyc, "step {step}");
        assert_eq!(nes.cpu.reg_s, 0xFD, "step {step}");
    }
    assert_eq!(nes.memory_map.get_from_address(0x0010), 0xF0);
}

#[test]
fn a_blank_frame_renders_the_backdrop_colour() {
    // a tiny loop: JMP $8000; VRAM all zero, so every background pixel
    // takes the backdrop entry 0 of the master palette: grey 109
    let mut nes = make_nes(&[0x4C, 0x00, 0x80]);
    nes.reset();
    nes.run_frame();
    let fb = nes.frame_buffer();
    for px in [0usize, 128 * 4, (239 * 256 + 255) * 4] {
        assert_eq!(fb[px], 109);
        assert_eq!(fb[px + 1], 109);
        assert_eq!(fb[px + 2], 109);
        assert_eq!(fb[px + 3], 255);
    }
}

#[test]
fn wram_writes_reach_all_mirrors_through_the_system() {
    let mut nes = make_nes(&[]);
    nes.memory_map.set_from_address(0x0007, 0x5A);
    assert_eq!(nes.memory_map.get_from_address(0x0807), 0x5A);
    assert_eq!(nes.memory_map.get_from_address(0x1007), 0x5A);
    assert_eq!(nes.memory_map.get_from_address(0x1807), 0x5A);
}
