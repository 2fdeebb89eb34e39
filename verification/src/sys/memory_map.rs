//! The bus: routing of 16-bit CPU addresses.
//!
//! Exactly these ranges, in order: `0x0000..0x2000` is the 2 KiB work RAM
//! mirrored four times; `0x2000..0x4000` is the PPU register file mirrored
//! every eight bytes, with the read and write side effects of
//! [`crate::sys::ppu`]; a write to `0x4014` performs OAM direct-memory
//! access and flags the 513/514-cycle stall for the scheduler; the rest of
//! `0x4000..0x8000` reads as zero and ignores writes; `0x8000..=0xFFFF` is
//! PRG-ROM, with a 16 KiB image mirrored into the upper half.
//!
//! [`bus_read_val`], [`bus_read_upd`] and [`bus_write_upd`] are the whole
//! map as mathematics; every access method is proved equal to them.

use vstd::prelude::*;

use crate::sys::ppu::{
    ppu_wf, spec_read_data_upd, spec_read_data_val, spec_read_status_upd, spec_write_addr,
    spec_write_data, spec_write_oam, spec_write_scroll, Ppu, PpuV,
};
use crate::sys::rom::Rom;
use crate::sys::cpu::{add8, add16, make_nmi_interrupt, spec_nmi, wf_p, wrap_add8, wrap_add16, Cpu};

verus! {

/// The mathematical state of everything the bus can reach.
#[verifier::ext_equal]
pub ghost struct MemV {
    /// The 2 KiB of work RAM.
    pub wram: Seq<u8>,
    /// The PPU with its memories and registers.
    pub ppu: PpuV,
    /// PRG-ROM bytes (read-only).
    pub prg: Seq<u8>,
    /// CHR-ROM bytes (read-only).
    pub chr: Seq<u8>,
    /// Set by a write to 0x4014; the scheduler consumes it as a stall.
    pub dma: bool,
}

/// The bus: cartridge, work RAM and PPU.
pub struct MemoryMap {
    pub rom: Rom,
    pub wram: Vec<u8>,
    pub ppu: Ppu,
    pub dma_pending: bool,
}

impl View for MemoryMap {
    type V = MemV;

    open spec fn view(&self) -> MemV {
        MemV {
            wram: self.wram@,
            ppu: self.ppu@,
            prg: self.rom.prg_rom@,
            chr: self.rom.chr_rom@,
            dma: self.dma_pending,
        }
    }
}

/// A well-formed bus: 2 KiB of work RAM, a well-formed PPU, and a
/// mapper-0 cartridge.
pub open spec fn mem_wf(m: MemV) -> bool {
    &&& m.wram.len() == 0x800
    &&& ppu_wf(m.ppu)
    &&& m.prg.len() == 0x4000 || m.prg.len() == 0x8000
    &&& m.chr.len() == 0x2000
}

/// The byte a read returns, before any side effect.
pub open spec fn bus_read_val(m: MemV, a: u16) -> u8 {
    if a < 0x2000 {
        m.wram[(a % 0x800) as int]
    } else if a < 0x4000 {
        let reg = a % 8;
        if reg == 2 {
            m.ppu.regs[2]
        } else if reg == 4 {
            m.ppu.oam[m.ppu.regs[3] as int]
        } else if reg == 7 {
            spec_read_data_val(m.ppu)
        } else {
            m.ppu.regs[reg as int]
        }
    } else if a < 0x8000 {
        0
    } else {
        m.prg[(a - 0x8000) % (m.prg.len() as int)]
    }
}

/// The state after a read: only PPUSTATUS and PPUDATA reads change
/// anything.
pub open spec fn bus_read_upd(m: MemV, a: u16) -> MemV {
    if 0x2000 <= a < 0x4000 {
        let reg = a % 8;
        if reg == 2 {
            MemV { ppu: spec_read_status_upd(m.ppu), ..m }
        } else if reg == 7 {
            MemV { ppu: spec_read_data_upd(m.ppu), ..m }
        } else {
            m
        }
    } else {
        m
    }
}

/// The byte OAM direct-memory access reads at an address: work RAM and
/// PRG-ROM with their mirroring; the I/O windows supply zero.
pub open spec fn dma_byte(m: MemV, a: int) -> u8 {
    if a < 0x2000 {
        m.wram[a % 0x800]
    } else if a >= 0x8000 {
        m.prg[(a - 0x8000) % (m.prg.len() as int)]
    } else {
        0
    }
}

/// The whole OAM after direct-memory access of one source page,
/// landing at OAMADDR with 8-bit wrap.
pub open spec fn spec_dma_oam(m: MemV, page: u8) -> Seq<u8> {
    Seq::new(256, |j: int| dma_byte(m, page * 256 + (j - m.ppu.regs[3]) % 256))
}

/// The state after a write: work RAM stores, PPU register stores with
/// their side effects (writes to PPUSTATUS are ignored), the OAM-DMA
/// trigger at 0x4014; everything else ignores writes.
pub open spec fn bus_write_upd(m: MemV, a: u16, v: u8) -> MemV {
    if a < 0x2000 {
        MemV { wram: m.wram.update((a % 0x800) as int, v), ..m }
    } else if a < 0x4000 {
        let reg = a % 8;
        if reg == 2 {
            m
        } else {
            let shadowed = PpuV { regs: m.ppu.regs.update(reg as int, v), ..m.ppu };
            if reg == 4 {
                MemV { ppu: spec_write_oam(shadowed, v), ..m }
            } else if reg == 5 {
                MemV { ppu: spec_write_scroll(shadowed, v), ..m }
            } else if reg == 6 {
                MemV { ppu: spec_write_addr(shadowed, v), ..m }
            } else if reg == 7 {
                MemV { ppu: spec_write_data(shadowed, v), ..m }
            } else {
                MemV { ppu: shadowed, ..m }
            }
        }
    } else if a == 0x4014 {
        MemV { ppu: PpuV { oam: spec_dma_oam(m, v), ..m.ppu }, dma: true, ..m }
    } else {
        m
    }
}

/// The 16-bit value of two consecutive reads, low byte first; the second
/// read sees any side effect of the first.
pub open spec fn spec_read16_val(m: MemV, a: u16) -> u16 {
    (bus_read_val(m, a) + 256 * bus_read_val(bus_read_upd(m, a), add16(a, 1))) as u16
}

pub open spec fn spec_read16_upd(m: MemV, a: u16) -> MemV {
    bus_read_upd(bus_read_upd(m, a), add16(a, 1))
}

/// A 16-bit read whose two addresses wrap within the zero page.
pub open spec fn spec_read16_zp_val(m: MemV, z: u8) -> u16 {
    (bus_read_val(m, z as u16) + 256 * bus_read_val(
        bus_read_upd(m, z as u16),
        add8(z, 1) as u16,
    )) as u16
}

pub open spec fn spec_read16_zp_upd(m: MemV, z: u8) -> MemV {
    bus_read_upd(bus_read_upd(m, z as u16), add8(z, 1) as u16)
}

/// The address the high byte of a page-wrapped 16-bit read comes from:
/// the low byte of `a + 1`, kept in `a`'s page. This is the hardware
/// page-wrap quirk of JMP indirect.
pub open spec fn page_wrap_next(a: u16) -> u16 {
    (a & 0xFF00) | add8((a % 256) as u8, 1) as u16
}

/// A 16-bit read that wraps within one page.
pub open spec fn spec_read16_page_val(m: MemV, a: u16) -> u16 {
    (bus_read_val(m, a) + 256 * bus_read_val(bus_read_upd(m, a), page_wrap_next(a))) as u16
}

pub open spec fn spec_read16_page_upd(m: MemV, a: u16) -> MemV {
    bus_read_upd(bus_read_upd(m, a), page_wrap_next(a))
}

impl MemoryMap {
    /// A bus over a freshly loaded cartridge: work RAM zeroed, no stall
    /// pending.
    pub fn new(rom: Rom, ppu: Ppu) -> (r: MemoryMap)
        requires
            rom.wf(),
            ppu_wf(ppu@),
        ensures
            mem_wf(r@),
            r@.ppu == ppu@,
            r@.prg == rom.prg_rom@,
            r@.chr == rom.chr_rom@,
            r@.wram == Seq::new(0x800, |i: int| 0u8),
            !r@.dma,
            r.rom.mirroring == rom.mirroring,
    {
        let mut wram: Vec<u8> = Vec::new();
        let mut i: usize = 0;
        while i < 0x800
            invariant
                i <= 0x800,
                wram@.len() == i,
                forall|j: int| 0 <= j < i ==> wram@[j] == 0u8,
            decreases 0x800 - i,
        {
            wram.push(0);
            i = i + 1;
        }
        proof {
            assert(wram@ =~= Seq::new(0x800, |j: int| 0u8));
        }
        MemoryMap { rom, wram, ppu, dma_pending: false }
    }

    /// An 8-bit read, with the PPU side effects the address calls for.
    pub fn get_from_address(&mut self, address: u16) -> (r: u8)
        requires
            mem_wf(old(self)@),
        ensures
            r == bus_read_val(old(self)@, address),
            final(self)@ == bus_read_upd(old(self)@, address),
            mem_wf(final(self)@),
    {
        if address < 0x2000 {
            let r = self.wram[(address % 0x800) as usize];
            proof {
                assert(self@ =~= bus_read_upd(old(self)@, address));
            }
            r
        } else if address < 0x4000 {
            let reg = (address % 8) as usize;
            let r: u8;
            if reg == 2 {
                r = self.ppu.read_ppu_status();
            } else if reg == 4 {
                r = self.ppu.read_oam_data();
            } else if reg == 7 {
                r = self.ppu.read_ppu_data();
            } else {
                r = self.ppu.ppu_reg[reg];
            }
            proof {
                assert(self@ =~= bus_read_upd(old(self)@, address));
            }
            r
        } else if address < 0x8000 {
            proof {
                assert(self@ =~= bus_read_upd(old(self)@, address));
            }
            0
        } else {
            let len = self.rom.prg_rom.len();
            let r = self.rom.prg_rom[(address - 0x8000) as usize % len];
            proof {
                assert(self@ =~= bus_read_upd(old(self)@, address));
            }
            r
        }
    }

    /// The byte OAM direct-memory access fetches; no side effects.
    fn dma_read(&self, address: u16) -> (r: u8)
        requires
            mem_wf(self@),
        ensures
            r == dma_byte(self@, address as int),
    {
        if address < 0x2000 {
            self.wram[(address % 0x800) as usize]
        } else if address >= 0x8000 {
            let len = self.rom.prg_rom.len();
            self.rom.prg_rom[(address - 0x8000) as usize % len]
        } else {
            0
        }
    }

    /// An 8-bit write: work RAM, a PPU register with its side effect, or
    /// the OAM-DMA trigger; stores elsewhere are ignored.
    pub fn set_from_address(&mut self, address: u16, value: u8)
        requires
            mem_wf(old(self)@),
        ensures
            final(self)@ == bus_write_upd(old(self)@, address, value),
            mem_wf(final(self)@),
    {
        if address < 0x2000 {
            self.wram.set((address % 0x800) as usize, value);
            proof {
                assert(self@ =~= bus_write_upd(old(self)@, address, value));
            }
        } else if address < 0x4000 {
            let reg = (address % 8) as usize;
            if reg != 2 {
                self.ppu.ppu_reg.set(reg, value);
                if reg == 4 {
                    self.ppu.write_oam_data(value);
                } else if reg == 5 {
                    self.ppu.write_ppu_scroll(value);
                } else if reg == 6 {
                    self.ppu.write_ppu_addr(value);
                } else if reg == 7 {
                    self.ppu.write_ppu_data(value);
                }
            }
            proof {
                assert(self@.ppu =~= bus_write_upd(old(self)@, address, value).ppu);
                assert(self@ =~= bus_write_upd(old(self)@, address, value));
            }
        } else if address == 0x4014 {
            let mut src: Vec<u8> = Vec::new();
            let mut i: usize = 0;
            while i < 256
                invariant
                    i <= 256,
                    mem_wf(self@),
                    self@ == old(self)@,
                    src@.len() == i,
                    forall|j: int|
                        0 <= j < i ==> src@[j] == dma_byte(old(self)@, value * 256 + j),
                decreases 256 - i,
            {
                let a: u16 = (value as u16) * 256 + i as u16;
                let b = self.dma_read(a);
                src.push(b);
                i = i + 1;
            }
            let ghost start: int = self@.ppu.regs[3] as int;
            self.ppu.sprite_dma(&src);
            self.dma_pending = true;
            proof {
                assert forall|j: int| 0 <= j < 256 implies self@.ppu.oam[j] == dma_byte(
                    old(self)@,
                    value * 256 + (j - start) % 256,
                ) by {
                    let i = (j - start) % 256;
                    lemma_mod_inverse(start, j);
                    assert(self@.ppu.oam[(start + i) % 256] == src@[i]);
                }
                assert(self@.ppu.oam =~= spec_dma_oam(old(self)@, value));
                assert(self@.ppu =~= bus_write_upd(old(self)@, address, value).ppu);
                assert(self@ =~= bus_write_upd(old(self)@, address, value));
            }
        } else {
            proof {
                assert(self@ =~= bus_write_upd(old(self)@, address, value));
            }
        }
    }

    /// A 16-bit read, low byte first.
    pub fn get_from_address16(&mut self, address: u16) -> (r: u16)
        requires
            mem_wf(old(self)@),
        ensures
            r == spec_read16_val(old(self)@, address),
            final(self)@ == spec_read16_upd(old(self)@, address),
            mem_wf(final(self)@),
    {
        let lower = self.get_from_address(address);
        let upper = self.get_from_address(wrap_add16(address, 1));
        lower as u16 + 256 * upper as u16
    }

    /// A 16-bit read of a zero-page pointer: both bytes wrap within the
    /// zero page.
    pub fn get_from_address16_by_address8(&mut self, address: u8) -> (r: u16)
        requires
            mem_wf(old(self)@),
        ensures
            r == spec_read16_zp_val(old(self)@, address),
            final(self)@ == spec_read16_zp_upd(old(self)@, address),
            mem_wf(final(self)@),
    {
        let lower = self.get_from_address(address as u16);
        let upper = self.get_from_address(wrap_add8(address, 1) as u16);
        lower as u16 + 256 * upper as u16
    }

    /// A 16-bit read that wraps within one page: the high byte comes
    /// from the start of `address`'s page when `address` ends in 0xFF.
    /// This reproduces the JMP-indirect hardware quirk.
    pub fn get_from_address_in_page(&mut self, address: u16) -> (r: u16)
        requires
            mem_wf(old(self)@),
        ensures
            r == spec_read16_page_val(old(self)@, address),
            final(self)@ == spec_read16_page_upd(old(self)@, address),
            mem_wf(final(self)@),
    {
        let lower = self.get_from_address(address);
        let page = address & 0xFF00;
        let upper = self.get_from_address(page | wrap_add8((address % 256) as u8, 1) as u16);
        lower as u16 + 256 * upper as u16
    }
}

/// CPU and bus after one PPU tick at the scheduler: the tick itself,
/// then, when the tick left an interrupt request latched, its delivery
/// through [`spec_nmi`].
pub open spec fn spec_ppu_step(c: Cpu, m: MemV) -> (Cpu, MemV) {
    let p1 = crate::sys::ppu::spec_tick(m.ppu, m.chr);
    if p1.nmi {
        spec_nmi(c, MemV { ppu: PpuV { nmi: false, ..p1 }, ..m })
    } else {
        (c, MemV { ppu: p1, ..m })
    }
}

impl MemoryMap {
    /// Advances the PPU one tick and, between instructions, delivers a
    /// latched non-maskable interrupt to the CPU. At the frame wrap the
    /// buffer takes the whole rendered frame of
    /// [`crate::sys::ppu::spec_frame`]; on every other tick it is left
    /// alone.
    pub fn ppu_next_cycle(&mut self, frame_buffer: &mut Vec<u8>, cpu: &mut Cpu)
        requires
            mem_wf(old(self)@),
            old(frame_buffer)@.len() == 245760,
        ensures
            *final(cpu) == spec_ppu_step(*old(cpu), old(self)@).0,
            final(self)@ == spec_ppu_step(*old(cpu), old(self)@).1,
            mem_wf(final(self)@),
            crate::sys::ppu::alpha_preserved(old(frame_buffer)@, final(frame_buffer)@),
            old(self)@.ppu.tick < 2 || old(self)@.ppu.line != 261 ==> final(frame_buffer)@
                == old(frame_buffer)@,
            old(self)@.ppu.tick == 2 && old(self)@.ppu.line == 261 ==> final(frame_buffer)@
                == crate::sys::ppu::spec_frame(
                crate::sys::ppu::spec_tick(old(self)@.ppu, old(self)@.chr),
                old(self)@.chr,
                old(frame_buffer)@,
            ),
            wf_p(old(cpu).reg_p) ==> wf_p(final(cpu).reg_p),
    {
        self.ppu.next_cycle(frame_buffer, &self.rom);
        if self.ppu.nmi_request {
            self.ppu.nmi_request = false;
            proof {
                assert(self@ =~= (MemV {
                    ppu: PpuV {
                        nmi: false,
                        ..crate::sys::ppu::spec_tick(old(self)@.ppu, old(self)@.chr)
                    },
                    ..old(self)@
                }));
            }
            make_nmi_interrupt(cpu, self);
            proof {
                crate::sys::cpu::lemma_wf_p_masks(old(cpu).reg_p);
            }
        } else {
            proof {
                assert(self@ =~= (MemV {
                    ppu: crate::sys::ppu::spec_tick(old(self)@.ppu, old(self)@.chr),
                    ..old(self)@
                }));
            }
        }
    }
}

/// Stepping around the 256-byte ring and back lands where it started.
proof fn lemma_mod_inverse(start: int, j: int)
    requires
        0 <= start < 256,
        0 <= j < 256,
    ensures
        0 <= (j - start) % 256 < 256,
        (start + (j - start) % 256) % 256 == j,
{
    if j >= start {
        assert((j - start) % 256 == j - start);
        assert((start + (j - start)) % 256 == j);
    } else {
        assert((j - start) % 256 == j - start + 256);
        assert((start + (j - start + 256)) % 256 == j);
    }
}

/// Reads below 0x2000 land in the 2 KiB work RAM: every address returns
/// the byte of its mirror in `0x0000..0x0800`, and reading has no side
/// effect.
pub proof fn lemma_wram_mirror_read(m: MemV, a: u16)
    requires
        mem_wf(m),
        a < 0x2000,
    ensures
        bus_read_val(m, a) == bus_read_val(m, (a % 0x800) as u16),
        bus_read_upd(m, a) == m,
{
}

/// A write below 0x2000 is visible at all four mirror addresses of its
/// work RAM cell.
pub proof fn lemma_wram_write_mirrors(m: MemV, a: u16, v: u8, k: u16)
    requires
        mem_wf(m),
        a < 0x2000,
        k < 4,
    ensures
        bus_read_val(bus_write_upd(m, a, v), (a % 0x800 + k * 0x800) as u16) == v,
{
    let b: u16 = (a % 0x800 + k * 0x800) as u16;
    assert(b % 0x800 == a % 0x800);
}

/// A JMP-indirect pointer whose low byte is 0xFF has its high byte
/// fetched from the first address of the same page, not from the next
/// page.
pub proof fn lemma_jmp_indirect_page_wrap(a: u16)
    requires
        a % 256 == 255,
    ensures
        page_wrap_next(a) == a - 255,
        add16(a, 1) != page_wrap_next(a),
{
    assert(a % 256 == 255 ==> (a & 0xFF00) == a - 255 && ((a & 0xFF00) | ((((a % 256) + 1)
        % 256) as u16)) == a - 255) by (bit_vector);
    assert(add16(a, 1) == a - 255 + 256 || (a == 0xFFFF && add16(a, 1) == 0));
}

} // verus!

