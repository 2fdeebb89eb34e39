use nes_core::sys::cpu::{make_irq_interrupt, make_nmi_interrupt, Addressing, Cpu};
use nes_core::sys::memory_map::MemoryMap;
use nes_core::sys::ppu::Ppu;
use nes_core::sys::rom::from_array;

fn make_bus() -> MemoryMap {
    let mut buf = vec![0x4Eu8, 0x45, 0x53, 0x1A, 1, 1, 0, 0];
    buf.resize(16 + 0x4000 + 0x2000, 0);
    let rom = from_array(&buf).unwrap();
    MemoryMap::new(rom, Ppu::new())
}

#[test]
fn transfers_are_identities_and_set_nz() {
    let mut cpu = Cpu::new();
    cpu.reg_p = 0x24;
    cpu.reg_x = 0x80;
    cpu.op_txa();
    cpu.op_tax();
    assert_eq!(cpu.reg_x, 0x80);
    assert_eq!(cpu.reg_a, 0x80);
    assert_eq!(cpu.reg_p & 0x80, 0x80);
    assert_eq!(cpu.reg_p & 0x02, 0);

    cpu.reg_y = 0;
    cpu.op_tya();
    cpu.op_tay();
    assert_eq!(cpu.reg_y, 0);
    assert_eq!(cpu.reg_a, 0);
    assert_eq!(cpu.reg_p & 0x02, 0x02);
    assert_eq!(cpu.reg_p & 0x80, 0);

    cpu.reg_a = 0x07;
    cpu.op_tax();
    assert_eq!(cpu.reg_x, 0x07);
    cpu.op_txs();
    assert_eq!(cpu.reg_s, 0x07);
    cpu.op_tsx();
    assert_eq!(cpu.reg_x, 0x07);
}

#[test]
fn pha_pla_round_trip_restores_a_and_s() {
    let mut cpu = Cpu::new();
    let mut bus = make_bus();
    cpu.reg_p = 0x24;
    cpu.reg_s = 0xFD;
    cpu.reg_a = 0x42;
    cpu.op_pha(&mut bus);
    assert_eq!(cpu.reg_s, 0xFC);
    cpu.reg_a = 0;
    cpu.op_pla(&mut bus);
    assert_eq!(cpu.reg_a, 0x42);
    assert_eq!(cpu.reg_s, 0xFD);
    assert_eq!(cpu.reg_p & 0x02, 0);
    assert_eq!(cpu.reg_p & 0x80, 0);
}

#[test]
fn php_plp_masks_break_and_sets_bit5() {
    let mut cpu = Cpu::new();
    let mut bus = make_bus();
    cpu.reg_s = 0xFD;
    cpu.reg_p = 0xC3;
    cpu.op_php(&mut bus);
    cpu.reg_p = 0;
    cpu.op_plp(&mut bus);
    assert_eq!(cpu.reg_p, (0xC3 & 0xEF) | 0x20);
    assert_eq!(cpu.reg_p & 0x20, 0x20);
    assert_eq!(cpu.reg_p & 0x10, 0);
}

#[test]
fn adc_sets_carry_overflow_and_nz() {
    let mut cpu = Cpu::new();
    let mut bus = make_bus();
    cpu.reg_p = 0x24;
    cpu.reg_a = 0x50;
    cpu.program_counter = 0x0000;
    bus.set_from_address(0x0001, 0x50);
    cpu.op_adc(&Addressing::Immediate, &mut bus);
    assert_eq!(cpu.reg_a, 0xA0);
    assert_eq!(cpu.reg_p & 0x01, 0); // no carry out
    assert_eq!(cpu.reg_p & 0x40, 0x40); // signed overflow
    assert_eq!(cpu.reg_p & 0x80, 0x80);

    cpu.reg_a = 0xFF;
    bus.set_from_address(0x0001, 0x01);
    cpu.op_adc(&Addressing::Immediate, &mut bus);
    assert_eq!(cpu.reg_a, 0x00);
    assert_eq!(cpu.reg_p & 0x01, 0x01);
    assert_eq!(cpu.reg_p & 0x02, 0x02);
}

#[test]
fn sbc_borrows_like_the_hardware() {
    let mut cpu = Cpu::new();
    let mut bus = make_bus();
    cpu.reg_p = 0x24;
    cpu.op_sec();
    cpu.reg_a = 0x50;
    cpu.program_counter = 0x0000;
    bus.set_from_address(0x0001, 0xF0);
    cpu.op_sbc(&Addressing::Immediate, &mut bus);
    assert_eq!(cpu.reg_a, 0x60);
    assert_eq!(cpu.reg_p & 0x01, 0); // borrow happened
    assert_eq!(cpu.reg_p & 0x40, 0);
}

#[test]
fn compare_orders_register_and_operand() {
    let mut cpu = Cpu::new();
    cpu.reg_p = 0x24;
    cpu.set_reg_at_compare(0x40, 0x41);
    assert_eq!(cpu.reg_p & 0x01, 0);
    assert_eq!(cpu.reg_p & 0x02, 0);
    assert_eq!(cpu.reg_p & 0x80, 0x80);
    cpu.set_reg_at_compare(0x41, 0x41);
    assert_eq!(cpu.reg_p & 0x01, 0x01);
    assert_eq!(cpu.reg_p & 0x02, 0x02);
}

#[test]
fn shifts_move_bits_through_carry() {
    let mut cpu = Cpu::new();
    cpu.reg_p = 0x24;
    cpu.reg_a = 0x81;
    cpu.op_lsr();
    assert_eq!(cpu.reg_a, 0x40);
    assert_eq!(cpu.reg_p & 0x01, 0x01);
    cpu.op_rol();
    assert_eq!(cpu.reg_a, 0x81);
    assert_eq!(cpu.reg_p & 0x01, 0);
    cpu.op_asl();
    assert_eq!(cpu.reg_a, 0x02);
    assert_eq!(cpu.reg_p & 0x01, 0x01);
    cpu.op_ror();
    assert_eq!(cpu.reg_a, 0x81);
    assert_eq!(cpu.reg_p & 0x01, 0);
}

#[test]
fn increments_wrap_and_set_zero() {
    let mut cpu = Cpu::new();
    cpu.reg_p = 0x24;
    cpu.reg_x = 0xFF;
    cpu.op_inx();
    assert_eq!(cpu.reg_x, 0);
    assert_eq!(cpu.reg_p & 0x02, 0x02);
    cpu.op_dex();
    assert_eq!(cpu.reg_x, 0xFF);
    assert_eq!(cpu.reg_p & 0x80, 0x80);
    cpu.reg_y = 0x7F;
    cpu.op_iny();
    assert_eq!(cpu.reg_y, 0x80);
    assert_eq!(cpu.reg_p & 0x80, 0x80);
    cpu.op_dey();
    assert_eq!(cpu.reg_y, 0x7F);
}

#[test]
fn interpret_lda_immediate_costs_two_cycles() {
    let mut cpu = Cpu::new();
    let mut bus = make_bus();
    cpu.reg_p = 0x24;
    cpu.program_counter = 0x0000;
    bus.set_from_address(0x0001, 0x7F);
    let cycles = cpu.interpret(0xA9, &mut bus);
    assert_eq!(cpu.reg_a, 0x7F);
    assert_eq!(cpu.program_counter, 0x0002);
    assert_eq!(cycles, 2);
}

#[test]
fn every_instruction_costs_at_least_two_cycles() {
    // A sample across the table, including an unrecognized opcode.
    for opcode in [0xA9u8, 0x8D, 0xEA, 0x02, 0x48, 0x20, 0x00, 0xD0, 0x6C, 0xC7] {
        let mut cpu = Cpu::new();
        let mut bus = make_bus();
        cpu.reg_p = 0x24;
        cpu.reg_s = 0xFD;
        cpu.program_counter = 0x0100;
        let cycles = cpu.interpret(opcode, &mut bus);
        assert!(cycles >= 2, "opcode {opcode:#x} reported {cycles}");
    }
}

#[test]
fn taken_branches_cost_extra_cycles() {
    let mut cpu = Cpu::new();
    let mut bus = make_bus();
    cpu.reg_p = 0x24; // zero flag clear: BNE taken
    cpu.program_counter = 0x0000;
    bus.set_from_address(0x0001, 0x10);
    let cycles = cpu.interpret(0xD0, &mut bus);
    assert_eq!(cpu.program_counter, 0x0012);
    assert_eq!(cycles, 3); // taken, same page

    let mut cpu2 = Cpu::new();
    let mut bus2 = make_bus();
    cpu2.reg_p = 0x24;
    cpu2.program_counter = 0x0000;
    bus2.set_from_address(0x0001, 0xF0); // -16: crosses into the top page
    let cycles2 = cpu2.interpret(0xD0, &mut bus2);
    assert_eq!(cpu2.program_counter, 0xFFF2);
    assert_eq!(cycles2, 4);

    let mut cpu3 = Cpu::new();
    let mut bus3 = make_bus();
    cpu3.reg_p = 0x24 | 0x02; // zero set: not taken
    cpu3.program_counter = 0x0000;
    let cycles3 = cpu3.interpret(0xD0, &mut bus3);
    assert_eq!(cpu3.program_counter, 0x0002);
    assert_eq!(cycles3, 2);
}

#[test]
fn jmp_indirect_wraps_within_the_page() {
    let mut cpu = Cpu::new();
    let mut bus = make_bus();
    cpu.reg_p = 0x24;
    cpu.program_counter = 0x0000;
    bus.set_from_address(0x0001, 0xFF);
    bus.set_from_address(0x0002, 0x02); // pointer 0x02FF
    bus.set_from_address(0x02FF, 0x34); // low byte of target
    bus.set_from_address(0x0200, 0x12); // high byte: from 0x0200, not 0x0300
    bus.set_from_address(0x0300, 0x99); // would be wrong
    let cycles = cpu.interpret(0x6C, &mut bus);
    assert_eq!(cpu.program_counter, 0x1234);
    assert_eq!(cycles, 5);
}

#[test]
fn jsr_and_rts_pair_up() {
    let mut cpu = Cpu::new();
    let mut bus = make_bus();
    cpu.reg_p = 0x24;
    cpu.reg_s = 0xFD;
    cpu.program_counter = 0x0040;
    bus.set_from_address(0x0041, 0x00);
    bus.set_from_address(0x0042, 0x06); // JSR $0600
    cpu.interpret(0x20, &mut bus);
    assert_eq!(cpu.program_counter, 0x0600);
    assert_eq!(cpu.reg_s, 0xFB);
    cpu.interpret(0x60, &mut bus); // RTS
    assert_eq!(cpu.program_counter, 0x0043);
    assert_eq!(cpu.reg_s, 0xFD);
}

#[test]
fn undocumented_lax_loads_a_and_x() {
    let mut cpu = Cpu::new();
    let mut bus = make_bus();
    cpu.reg_p = 0x24;
    cpu.program_counter = 0x0000;
    bus.set_from_address(0x0001, 0x10);
    bus.set_from_address(0x0010, 0xC3);
    let cycles = cpu.interpret(0xA7, &mut bus); // LAX zero page
    assert_eq!(cpu.reg_a, 0xC3);
    assert_eq!(cpu.reg_x, 0xC3);
    assert_eq!(cycles, 3);
}

#[test]
fn undocumented_dcp_decrements_and_compares() {
    let mut cpu = Cpu::new();
    let mut bus = make_bus();
    cpu.reg_p = 0x24;
    cpu.reg_a = 0x10;
    cpu.program_counter = 0x0000;
    bus.set_from_address(0x0001, 0x20);
    bus.set_from_address(0x0020, 0x11);
    cpu.interpret(0xC7, &mut bus); // DCP zero page
    assert_eq!(bus.get_from_address(0x0020), 0x10);
    assert_eq!(cpu.reg_p & 0x02, 0x02); // A == result
    assert_eq!(cpu.reg_p & 0x01, 0x01);
}

fn make_bus_with_vectors(irq: u16, nmi: u16) -> MemoryMap {
    let mut buf = vec![0x4Eu8, 0x45, 0x53, 0x1A, 1, 1, 0, 0];
    buf.resize(16 + 0x4000 + 0x2000, 0);
    buf[16 + 0x3FFE] = (irq % 256) as u8;
    buf[16 + 0x3FFF] = (irq / 256) as u8;
    buf[16 + 0x3FFA] = (nmi % 256) as u8;
    buf[16 + 0x3FFB] = (nmi / 256) as u8;
    let rom = from_array(&buf).unwrap();
    MemoryMap::new(rom, Ppu::new())
}

#[test]
fn irq_is_gated_by_the_i_flag() {
    let mut cpu = Cpu::new();
    let mut bus = make_bus_with_vectors(0x9500, 0x9000);
    cpu.reg_p = 0x24 | 0x04;
    cpu.reg_s = 0xFD;
    cpu.program_counter = 0x8123;
    make_irq_interrupt(&mut cpu, &mut bus);
    assert_eq!(cpu.program_counter, 0x8123);
    assert_eq!(cpu.reg_s, 0xFD);

    cpu.reg_p = 0x20;
    make_irq_interrupt(&mut cpu, &mut bus);
    assert_eq!(cpu.program_counter, 0x9500);
    assert_eq!(cpu.reg_s, 0xFA);
    assert_eq!(cpu.reg_p & 0x04, 0x04);
    let pushed = bus.get_from_address(0x01FB);
    assert_eq!(pushed & 0x10, 0);
    assert_eq!(pushed & 0x20, 0x20);
}

#[test]
fn nmi_is_not_gated_by_the_i_flag() {
    let mut cpu = Cpu::new();
    let mut bus = make_bus_with_vectors(0x9500, 0x9000);
    cpu.reg_p = 0x24 | 0x04; // interrupts disabled
    cpu.reg_s = 0xFD;
    cpu.program_counter = 0x8123;
    make_nmi_interrupt(&mut cpu, &mut bus);
    assert_eq!(cpu.program_counter, 0x9000);
    // return address pushed high byte first
    assert_eq!(bus.get_from_address(0x01FD), 0x81);
    assert_eq!(bus.get_from_address(0x01FC), 0x23);
}

#[test]
fn status_writes_keep_bit5_set_and_break_clear() {
    let mut cpu = Cpu::new();
    cpu.set_reg_p(0xFF);
    assert_eq!(cpu.reg_p & 0x20, 0x20);
    assert_eq!(cpu.reg_p & 0x10, 0);
    cpu.set_reg_p(0x00);
    assert_eq!(cpu.reg_p, 0x20);
}
