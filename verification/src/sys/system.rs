//! The system scheduler.
//!
//! The console owns the bus, the CPU and the frame buffer, and pumps the
//! two processors at their fixed ratio: one CPU instruction, then three
//! PPU ticks per cycle the instruction cost. A write to 0x4014 adds the
//! 513- or 514-cycle OAM-DMA stall (even or odd cycle parity) to the
//! instruction's budget. Interrupt delivery happens between instructions
//! only, inside the PPU tick train.

use vstd::prelude::*;

use crate::sys::cpu::{spec_interpret, wf_p, Cpu};
use crate::sys::memory_map::{
    bus_read_upd, bus_read_val, mem_wf, spec_ppu_step, MemV, MemoryMap,
};
use crate::sys::ppu::{ppu_wf, Ppu};
use crate::sys::rom::Rom;

verus! {

/// CPU and bus after `n` PPU ticks at the scheduler, each one a
/// [`spec_ppu_step`] (the tick itself plus any interrupt delivery).
pub open spec fn spec_ticks(c: Cpu, m: MemV, n: int) -> (Cpu, MemV)
    decreases n,
{
    if n <= 0 {
        (c, m)
    } else {
        let (c1, m1) = spec_ppu_step(c, m);
        spec_ticks(c1, m1, n - 1)
    }
}

/// One whole scheduler step as mathematics: the instruction at the
/// program counter runs (one [`spec_interpret`] application - an
/// interrupt can never land mid-instruction); when it triggered OAM-DMA
/// the 513- or 514-cycle stall is charged by the cycle count's parity;
/// the PPU then ticks three times per cycle spent. The result carries
/// the CPU, the bus, the new running cycle count, and the step's cost.
pub open spec fn spec_execute(c: Cpu, m: MemV, acc: u32) -> (Cpu, MemV, u32, u32) {
    let op = bus_read_val(m, c.program_counter);
    let m1 = bus_read_upd(m, c.program_counter);
    let step = spec_interpret(c, m1, op);
    let stall: int = if step.1.dma {
        513 + acc % 2
    } else {
        0
    };
    let total = (step.2 + stall) as u32;
    let (c2, m2) = spec_ticks(step.0, MemV { dma: false, ..step.1 }, 3 * total);
    (c2, m2, ((acc + total) % 0x100000000) as u32, total)
}

/// The scheduler iterated: steps run until one wraps the scanline
/// counter back to a lower line (the frame boundary), or the fuel runs
/// out.
pub open spec fn spec_run_frame(c: Cpu, m: MemV, acc: u32, fuel: int) -> (Cpu, MemV, u32)
    decreases fuel,
{
    if fuel <= 0 {
        (c, m, acc)
    } else {
        let e = spec_execute(c, m, acc);
        if e.1.ppu.line < m.ppu.line {
            (e.0, e.1, e.2)
        } else {
            spec_run_frame(e.0, e.1, e.2, fuel - 1)
        }
    }
}

/// The console: bus, CPU, frame buffer and the running cycle count.
pub struct Nes {
    pub memory_map: MemoryMap,
    pub cpu: Cpu,
    pub frame_buffer: Vec<u8>,
    pub cycle_acc: u32,
}

/// A well-formed console: a well-formed bus and a full RGBA frame
/// buffer whose alpha bytes are opaque.
pub open spec fn nes_wf(n: Nes) -> bool {
    &&& mem_wf(n.memory_map@)
    &&& n.frame_buffer@.len() == 245760
    &&& forall|i: int| 0 <= i < 245760 && i % 4 == 3 ==> n.frame_buffer@[i] == 255u8
}

impl Nes {
    /// A console around a loaded cartridge: powered-off CPU, zeroed
    /// memories, a black opaque frame.
    pub fn new(rom: Rom) -> (r: Nes)
        requires
            rom.wf(),
        ensures
            nes_wf(r),
            r.cpu.program_counter == 0 && r.cpu.reg_p == 0 && r.cpu.reg_s == 0,
            r.cpu.reg_a == 0 && r.cpu.reg_x == 0 && r.cpu.reg_y == 0,
            r.memory_map@.prg == rom.prg_rom@,
            r.memory_map@.chr == rom.chr_rom@,
            r.memory_map@.wram == Seq::new(0x800, |i: int| 0u8),
            ppu_wf(r.memory_map@.ppu),
            r.memory_map@.ppu.line == 0 && r.memory_map@.ppu.tick == 0,
            r.memory_map@.ppu.regs == Seq::new(8, |i: int| 0u8),
            r.memory_map@.ppu.vram == Seq::new(0x4000, |i: int| 0u8),
            !r.memory_map@.dma,
            r.cycle_acc == 0,
    {
        let ppu = Ppu::new();
        let memory_map = MemoryMap::new(rom, ppu);
        let cpu = Cpu::new();

        let mut frame_buffer: Vec<u8> = Vec::new();
        let mut i: usize = 0;
        while i < 61440
            invariant
                i <= 61440,
                frame_buffer@.len() == 4 * i,
                forall|j: int| 0 <= j < 4 * i && j % 4 == 3 ==> frame_buffer@[j] == 255u8,
            decreases 61440 - i,
        {
            frame_buffer.push(0);
            frame_buffer.push(0);
            frame_buffer.push(0);
            frame_buffer.push(255);
            i = i + 1;
        }

        Nes { memory_map, cpu, frame_buffer, cycle_acc: 0 }
    }

    /// Reset: the program counter loads the 16-bit vector at
    /// 0xFFFC/0xFFFD as seen through the bus, the stack pointer becomes
    /// 0xFD and `p` becomes the reported power-on value 0x34. Nothing
    /// else changes.
    pub fn reset(&mut self)
        requires
            nes_wf(*old(self)),
        ensures
            nes_wf(*final(self)),
            final(self).cpu.program_counter == 256 * bus_read_val(old(self).memory_map@, 0xFFFD)
                + bus_read_val(old(self).memory_map@, 0xFFFC),
            final(self).cpu.reg_s == 0xFD,
            final(self).cpu.reg_p == 0x34,
            final(self).cpu.reg_a == old(self).cpu.reg_a,
            final(self).cpu.reg_x == old(self).cpu.reg_x,
            final(self).cpu.reg_y == old(self).cpu.reg_y,
            final(self).memory_map@ == old(self).memory_map@,
            final(self).frame_buffer@ == old(self).frame_buffer@,
    {
        let upper = self.memory_map.get_from_address(0xFFFD);
        let lower = self.memory_map.get_from_address(0xFFFC);
        self.cpu.program_counter = upper as u16 * 256 + lower as u16;
        self.cpu.init();
    }

    /// One scheduler step, proved equal to [`spec_execute`]: exactly one
    /// CPU instruction runs; when it triggered OAM-DMA the 513- or
    /// 514-cycle stall (by cycle parity) joins its cost; the PPU then
    /// ticks three times per cycle spent, and only those ticks can
    /// deliver an interrupt. The cost returned is at least two cycles,
    /// and lies beyond 514 exactly when the stall was charged.
    #[verifier::rlimit(100)]
    #[verifier::spinoff_prover]
    pub fn execute(&mut self) -> (cycles: u32)
        requires
            nes_wf(*old(self)),
        ensures
            final(self).cpu == spec_execute(
                old(self).cpu,
                old(self).memory_map@,
                old(self).cycle_acc,
            ).0,
            final(self).memory_map@ == spec_execute(
                old(self).cpu,
                old(self).memory_map@,
                old(self).cycle_acc,
            ).1,
            final(self).cycle_acc == spec_execute(
                old(self).cpu,
                old(self).memory_map@,
                old(self).cycle_acc,
            ).2,
            cycles == spec_execute(
                old(self).cpu,
                old(self).memory_map@,
                old(self).cycle_acc,
            ).3,
            nes_wf(*final(self)),
            2 <= cycles,
            cycles <= 8 || 515 <= cycles <= 522,
            !final(self).memory_map@.dma,
            wf_p(old(self).cpu.reg_p) ==> wf_p(final(self).cpu.reg_p),
    {
        let ghost e = spec_execute(old(self).cpu, old(self).memory_map@, old(self).cycle_acc);
        let c = self.cpu.next_cycle(&mut self.memory_map);
        let mut total: u32 = c;
        if self.memory_map.dma_pending {
            self.memory_map.dma_pending = false;
            total = total + 513 + self.cycle_acc % 2;
        }
        proof {
            assert(self.memory_map@ =~= (MemV {
                dma: false,
                ..spec_interpret(
                    old(self).cpu,
                    bus_read_upd(old(self).memory_map@, old(self).cpu.program_counter),
                    bus_read_val(old(self).memory_map@, old(self).cpu.program_counter),
                ).1
            }));
            assert(total == e.3);
        }
        let ghost c0 = self.cpu;
        let ghost m0 = self.memory_map@;
        let ticks: u32 = 3 * total;
        let mut i: u32 = 0;
        while i < ticks
            invariant
                i <= ticks,
                mem_wf(self.memory_map@),
                self.memory_map@.dma == false,
                self.frame_buffer@.len() == 245760,
                forall|j: int|
                    0 <= j < 245760 && j % 4 == 3 ==> self.frame_buffer@[j] == 255u8,
                wf_p(old(self).cpu.reg_p) ==> wf_p(self.cpu.reg_p),
                self.cycle_acc == old(self).cycle_acc,
                spec_ticks(self.cpu, self.memory_map@, ticks - i) == spec_ticks(
                    c0,
                    m0,
                    ticks as int,
                ),
            decreases ticks - i,
        {
            let ghost c_pre = self.cpu;
            let ghost m_pre = self.memory_map@;
            self.memory_map.ppu_next_cycle(&mut self.frame_buffer, &mut self.cpu);
            proof {
                assert(spec_ticks(c_pre, m_pre, ticks - i) == spec_ticks(
                    self.cpu,
                    self.memory_map@,
                    ticks - i - 1,
                ));
            }
            i = i + 1;
        }
        proof {
            assert(spec_ticks(self.cpu, self.memory_map@, 0) == spec_ticks(c0, m0, ticks as int));
            assert(self.cpu == e.0 && self.memory_map@ == e.1);
        }
        self.cycle_acc = ((self.cycle_acc as u64 + total as u64) % 0x100000000) as u32;
        total
    }

    /// Runs scheduler steps until the PPU wraps back to line 0 (one
    /// whole frame), bounded by a generous fuel so that termination is
    /// unconditional; proved equal to the iterate [`spec_run_frame`].
    #[verifier::rlimit(60)]
    #[verifier::spinoff_prover]
    pub fn run_frame(&mut self)
        requires
            nes_wf(*old(self)),
        ensures
            final(self).cpu == spec_run_frame(
                old(self).cpu,
                old(self).memory_map@,
                old(self).cycle_acc,
                200000,
            ).0,
            final(self).memory_map@ == spec_run_frame(
                old(self).cpu,
                old(self).memory_map@,
                old(self).cycle_acc,
                200000,
            ).1,
            final(self).cycle_acc == spec_run_frame(
                old(self).cpu,
                old(self).memory_map@,
                old(self).cycle_acc,
                200000,
            ).2,
            nes_wf(*final(self)),
            wf_p(old(self).cpu.reg_p) ==> wf_p(final(self).cpu.reg_p),
    {
        let ghost target = spec_run_frame(
            old(self).cpu,
            old(self).memory_map@,
            old(self).cycle_acc,
            200000,
        );
        let mut fuel: u32 = 200000;
        let mut done = false;
        while fuel > 0 && !done
            invariant
                nes_wf(*self),
                wf_p(old(self).cpu.reg_p) ==> wf_p(self.cpu.reg_p),
                target == spec_run_frame(
                    old(self).cpu,
                    old(self).memory_map@,
                    old(self).cycle_acc,
                    200000,
                ),
                !done ==> spec_run_frame(
                    self.cpu,
                    self.memory_map@,
                    self.cycle_acc,
                    fuel as int,
                ) == target,
                done ==> (self.cpu, self.memory_map@, self.cycle_acc) == target,
            decreases fuel,
        {
            let ghost c_pre = self.cpu;
            let ghost m_pre = self.memory_map@;
            let ghost a_pre = self.cycle_acc;
            let line_before = self.memory_map.ppu.current_line;
            self.execute();
            proof {
                let e = spec_execute(c_pre, m_pre, a_pre);
                assert(spec_run_frame(c_pre, m_pre, a_pre, fuel as int) == (if e.1.ppu.line
                    < m_pre.ppu.line {
                    (e.0, e.1, e.2)
                } else {
                    spec_run_frame(e.0, e.1, e.2, fuel as int - 1)
                }));
            }
            if self.memory_map.ppu.current_line < line_before {
                done = true;
            }
            fuel = fuel - 1;
        }
    }

    /// The completed frame: 256x240 RGBA bytes, row-major, opaque.
    pub fn frame_buffer(&self) -> (r: &Vec<u8>)
        ensures
            r@ == self.frame_buffer@,
    {
        &self.frame_buffer
    }
}

} // verus!
