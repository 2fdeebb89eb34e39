//! The picture processing unit.
//!
//! The PPU owns 16 KiB of VRAM, 256 bytes of sprite attribute memory (OAM),
//! the eight memory-mapped register shadows, the internal VRAM address with
//! its one-bit write latch, and the scanline counter. Three ticks advance
//! the counter by one line; entering line 241 raises the vertical-blank
//! status bit (and a non-maskable-interrupt request when enabled), entering
//! the pre-render line 261 clears it, and the wrap back to line 0 marks the
//! frame boundary, where the whole frame is decoded into the RGBA buffer.
//!
//! The palette entries at 0x3F00/0x3F10, 0x3F04/0x3F14, 0x3F08/0x3F18 and
//! 0x3F0C/0x3F1C are mutual mirrors: every write keeps both bytes of a pair
//! equal, which [`palette_mirrors_ok`] captures as an invariant.

use vstd::prelude::*;

use crate::sys::rom::Rom;

verus! {

/// The mathematical state of the PPU: every register, memory and counter
/// as a plain value.
#[verifier::ext_equal]
pub ghost struct PpuV {
    /// The eight register shadows; index 2 is PPUSTATUS, index 3 OAMADDR.
    pub regs: Seq<u8>,
    /// 16 KiB of VRAM: pattern tables, nametables, palette.
    pub vram: Seq<u8>,
    /// 256 bytes of sprite attribute memory.
    pub oam: Seq<u8>,
    /// The internal 14-bit VRAM address `v`.
    pub vaddr: u16,
    /// The shared write latch `w` of PPUSCROLL and PPUADDR: 0 before the
    /// first write of a pair, 1 between the two.
    pub latch: u8,
    /// Fine scroll registers, filled by the PPUSCROLL write pair.
    pub sx: u8,
    pub sy: u8,
    /// The one-byte read buffer of PPUDATA.
    pub buf: u8,
    /// Scanline counter, 0 to 261.
    pub line: u16,
    /// Tick counter within the current line, 0 to 2.
    pub tick: u8,
    /// Set on entering line 241 while NMI generation is enabled.
    pub nmi: bool,
    /// 16x16 cache of 2-bit palette selectors, one per 16x16-pixel region.
    pub attr: Seq<u8>,
    /// 256 decoded background tiles of 64 two-bit colour indices each.
    pub tiles: Seq<Seq<u8>>,
    /// The 64-entry master palette as RGB byte triples.
    pub pal: Seq<u8>,
}

/// The picture processing unit.
pub struct Ppu {
    pub ppu_reg: Vec<u8>,
    pub ppu_ram: Vec<u8>,
    pub ppu_oam: Vec<u8>,
    pub ppu_addr: u16,
    pub ppu_addr_count: u8,
    pub scroll_x: u8,
    pub scroll_y: u8,
    pub read_buffer: u8,
    pub current_line: u16,
    pub line_tick: u8,
    pub nmi_request: bool,
    pub attribute_table_cache: Vec<u8>,
    pub bg_color_tables: Vec<Vec<u8>>,
    pub color_palette: Vec<u8>,
}

impl View for Ppu {
    type V = PpuV;

    open spec fn view(&self) -> PpuV {
        PpuV {
            regs: self.ppu_reg@,
            vram: self.ppu_ram@,
            oam: self.ppu_oam@,
            vaddr: self.ppu_addr,
            latch: self.ppu_addr_count,
            sx: self.scroll_x,
            sy: self.scroll_y,
            buf: self.read_buffer,
            line: self.current_line,
            tick: self.line_tick,
            nmi: self.nmi_request,
            attr: self.attribute_table_cache@,
            tiles: Seq::new(self.bg_color_tables@.len(), |i: int| self.bg_color_tables@[i]@),
            pal: self.color_palette@,
        }
    }
}

/// The four palette mirror pairs hold equal bytes at all times.
pub open spec fn palette_mirrors_ok(v: Seq<u8>) -> bool {
    &&& v[0x3F00] == v[0x3F10]
    &&& v[0x3F04] == v[0x3F14]
    &&& v[0x3F08] == v[0x3F18]
    &&& v[0x3F0C] == v[0x3F1C]
}

/// The partner of a palette mirror pair member; any other address is its
/// own partner.
pub open spec fn pal_partner(a: u16) -> u16 {
    if a == 0x3F00 {
        0x3F10
    } else if a == 0x3F10 {
        0x3F00
    } else if a == 0x3F04 {
        0x3F14
    } else if a == 0x3F14 {
        0x3F04
    } else if a == 0x3F08 {
        0x3F18
    } else if a == 0x3F18 {
        0x3F08
    } else if a == 0x3F0C {
        0x3F1C
    } else if a == 0x3F1C {
        0x3F0C
    } else {
        a
    }
}

/// A VRAM store writes the byte at the address and at its mirror partner.
pub open spec fn vram_store(v: Seq<u8>, a: u16, val: u8) -> Seq<u8> {
    v.update(a as int, val).update(pal_partner(a) as int, val)
}

/// The VRAM address step selected by PPUCTRL bit 2: 1 or 32.
pub open spec fn spec_vinc(regs: Seq<u8>) -> u16 {
    if regs[0] & 0x04 != 0 {
        32
    } else {
        1
    }
}

/// The address after a PPUDATA access, wrapped to 14 bits.
pub open spec fn spec_vaddr_next(p: PpuV) -> u16 {
    ((p.vaddr + spec_vinc(p.regs)) % 0x4000) as u16
}

/// Effect of a PPUDATA write: store (with palette pair mirroring) at `v`,
/// then advance `v`.
pub open spec fn spec_write_data(p: PpuV, val: u8) -> PpuV {
    PpuV { vram: vram_store(p.vram, p.vaddr, val), vaddr: spec_vaddr_next(p), ..p }
}

/// Value of a PPUDATA read: palette reads come straight from VRAM, all
/// others return the buffered byte.
pub open spec fn spec_read_data_val(p: PpuV) -> u8 {
    if p.vaddr >= 0x3F00 {
        p.vram[p.vaddr as int]
    } else {
        p.buf
    }
}

/// Effect of a PPUDATA read: the buffer is refilled from VRAM (for palette
/// reads from the nametable byte underneath) and `v` advances.
pub open spec fn spec_read_data_upd(p: PpuV) -> PpuV {
    PpuV {
        buf: if p.vaddr >= 0x3F00 {
            p.vram[p.vaddr - 0x1000]
        } else {
            p.vram[p.vaddr as int]
        },
        vaddr: spec_vaddr_next(p),
        ..p
    }
}

/// Effect of a PPUSTATUS read: the vertical-blank bit clears and the write
/// latch resets.
pub open spec fn spec_read_status_upd(p: PpuV) -> PpuV {
    PpuV { regs: p.regs.update(2, p.regs[2] & 0x7F), latch: 0, ..p }
}

/// Effect of a PPUADDR write: high byte (masked to 14 bits) first, low
/// byte second, governed by the latch.
pub open spec fn spec_write_addr(p: PpuV, val: u8) -> PpuV {
    if p.latch == 0 {
        PpuV { vaddr: ((val & 0x3F) * 256) as u16, latch: 1, ..p }
    } else {
        PpuV { vaddr: p.vaddr | val as u16, latch: 0, ..p }
    }
}

/// Effect of a PPUSCROLL write: horizontal offset first, vertical second,
/// governed by the same latch.
pub open spec fn spec_write_scroll(p: PpuV, val: u8) -> PpuV {
    if p.latch == 0 {
        PpuV { sx: val, latch: 1, ..p }
    } else {
        PpuV { sy: val, latch: 0, ..p }
    }
}

/// Effect of an OAMDATA write: store at OAMADDR, then OAMADDR increments
/// with 8-bit wrap.
pub open spec fn spec_write_oam(p: PpuV, val: u8) -> PpuV {
    PpuV {
        oam: p.oam.update(p.regs[3] as int, val),
        regs: p.regs.update(3, ((p.regs[3] + 1) % 256) as u8),
        ..p
    }
}

/// A well-formed PPU: fixed memory sizes, a 14-bit VRAM address, the
/// scanline counter in range, palette mirror pairs equal, and decoded
/// caches of the right shape holding 2-bit values.
pub open spec fn ppu_wf(p: PpuV) -> bool {
    &&& p.regs.len() == 8
    &&& p.vram.len() == 0x4000
    &&& p.oam.len() == 0x100
    &&& p.vaddr < 0x4000
    &&& p.latch < 2
    &&& p.line <= 261
    &&& p.tick < 3
    &&& palette_mirrors_ok(p.vram)
    &&& p.attr.len() == 256
    &&& (forall|i: int| 0 <= i < 256 ==> p.attr[i] < 4)
    &&& p.tiles.len() == 256
    &&& (forall|i: int| 0 <= i < 256 ==> (#[trigger] p.tiles[i]).len() == 64)
    &&& (forall|i: int, j: int| 0 <= i < 256 && 0 <= j < 64 ==> #[trigger] p.tiles[i][j] < 4)
    &&& p.pal.len() == 192
}

impl Ppu {
    /// A powered-on PPU: all memories and registers zero.
    pub fn new() -> (r: Ppu)
        ensures
            ppu_wf(r@),
            r@.regs == Seq::new(8, |i: int| 0u8),
            r@.vram == Seq::new(0x4000, |i: int| 0u8),
            r@.oam == Seq::new(0x100, |i: int| 0u8),
            r@.vaddr == 0 && r@.latch == 0 && r@.buf == 0,
            r@.line == 0 && r@.tick == 0 && !r@.nmi,
            r@.sx == 0 && r@.sy == 0,
            forall|i: int| 0 <= i < 192 ==> r@.pal[i] == master_palette_byte(i),
    {
        let mut bg_color_tables: Vec<Vec<u8>> = Vec::new();
        let mut t: usize = 0;
        while t < 256
            invariant
                t <= 256,
                bg_color_tables@.len() == t,
                forall|i: int| 0 <= i < t ==> (#[trigger] bg_color_tables@[i])@ =~= Seq::new(
                    64,
                    |j: int| 0u8,
                ),
            decreases 256 - t,
        {
            let mut tile: Vec<u8> = Vec::new();
            let mut j: usize = 0;
            while j < 64
                invariant
                    j <= 64,
                    tile@.len() == j,
                    forall|k: int| 0 <= k < j ==> tile@[k] == 0u8,
                decreases 64 - j,
            {
                tile.push(0);
                j = j + 1;
            }
            proof {
                assert(tile@ =~= Seq::new(64, |j: int| 0u8));
            }
            bg_color_tables.push(tile);
            t = t + 1;
        }

        let color_palette = generate_color_palette();

        let r = Ppu {
            ppu_reg: make_zero_vec(8),
            ppu_ram: make_zero_vec(0x4000),
            ppu_oam: make_zero_vec(0x100),
            ppu_addr: 0,
            ppu_addr_count: 0,
            scroll_x: 0,
            scroll_y: 0,
            read_buffer: 0,
            current_line: 0,
            line_tick: 0,
            nmi_request: false,
            attribute_table_cache: make_zero_vec(256),
            bg_color_tables,
            color_palette,
        };
        proof {
            assert(r@.regs =~= Seq::new(8, |i: int| 0u8));
            assert(r@.vram =~= Seq::new(0x4000, |i: int| 0u8));
            assert(r@.oam =~= Seq::new(0x100, |i: int| 0u8));
        }
        r
    }

    /// One of the two PPUADDR writes: high byte first, low byte second,
    /// as the write latch dictates.
    pub fn write_ppu_addr(&mut self, value: u8)
        requires
            ppu_wf(old(self)@),
        ensures
            final(self)@ == spec_write_addr(old(self)@, value),
            ppu_wf(final(self)@),
    {
        if self.ppu_addr_count == 0 {
            proof {
                assert((value & 0x3F) < 64) by (bit_vector);
            }
            self.ppu_addr = (value & 0x3F) as u16 * 256;
            self.ppu_addr_count = 1;
        } else {
            let low = value as u16;
            let high = self.ppu_addr;
            proof {
                assert(high < 0x4000 && low < 0x100 ==> (high | low) < 0x4000) by (bit_vector);
            }
            self.ppu_addr = high | low;
            self.ppu_addr_count = 0;
        }
        proof {
            assert(self@ =~= spec_write_addr(old(self)@, value));
        }
    }

    /// One of the two PPUSCROLL writes, sharing the latch with PPUADDR.
    pub fn write_ppu_scroll(&mut self, value: u8)
        requires
            ppu_wf(old(self)@),
        ensures
            final(self)@ == spec_write_scroll(old(self)@, value),
            ppu_wf(final(self)@),
    {
        if self.ppu_addr_count == 0 {
            self.scroll_x = value;
            self.ppu_addr_count = 1;
        } else {
            self.scroll_y = value;
            self.ppu_addr_count = 0;
        }
        proof {
            assert(self@ =~= spec_write_scroll(old(self)@, value));
        }
    }

    /// A PPUSTATUS read: returns the status byte, then clears the
    /// vertical-blank bit and resets the write latch.
    pub fn read_ppu_status(&mut self) -> (r: u8)
        requires
            ppu_wf(old(self)@),
        ensures
            r == old(self)@.regs[2],
            final(self)@ == spec_read_status_upd(old(self)@),
            ppu_wf(final(self)@),
    {
        let r = self.ppu_reg[2];
        let cleared = r & 0x7F;
        self.ppu_reg.set(2, cleared);
        self.ppu_addr_count = 0;
        proof {
            assert(self@ =~= spec_read_status_upd(old(self)@));
        }
        r
    }

    /// An OAMDATA read: the byte at OAMADDR, with no side effect.
    pub fn read_oam_data(&self) -> (r: u8)
        requires
            ppu_wf(self@),
        ensures
            r == self@.oam[self@.regs[3] as int],
    {
        let idx = self.ppu_reg[3];
        self.ppu_oam[idx as usize]
    }

    /// An OAMDATA write: stores at OAMADDR, which then increments with
    /// 8-bit wrap.
    pub fn write_oam_data(&mut self, value: u8)
        requires
            ppu_wf(old(self)@),
        ensures
            final(self)@ == spec_write_oam(old(self)@, value),
            ppu_wf(final(self)@),
    {
        let idx = self.ppu_reg[3];
        self.ppu_oam.set(idx as usize, value);
        let next = if idx == 255 {
            0
        } else {
            idx + 1
        };
        self.ppu_reg.set(3, next);
        proof {
            assert(self@ =~= spec_write_oam(old(self)@, value));
        }
    }

    /// A PPUDATA read: buffered for non-palette addresses, direct for the
    /// palette; the VRAM address advances by the PPUCTRL-selected step.
    pub fn read_ppu_data(&mut self) -> (r: u8)
        requires
            ppu_wf(old(self)@),
        ensures
            r == spec_read_data_val(old(self)@),
            final(self)@ == spec_read_data_upd(old(self)@),
            ppu_wf(final(self)@),
    {
        let a = self.ppu_addr as usize;
        let r: u8;
        if self.ppu_addr >= 0x3F00 {
            r = self.ppu_ram[a];
            self.read_buffer = self.ppu_ram[a - 0x1000];
        } else {
            r = self.read_buffer;
            self.read_buffer = self.ppu_ram[a];
        }
        let inc: u16 = if self.ppu_reg[0] & 0x04 != 0 {
            32
        } else {
            1
        };
        self.ppu_addr = (self.ppu_addr + inc) % 0x4000;
        proof {
            assert(self@ =~= spec_read_data_upd(old(self)@));
        }
        r
    }

    /// A PPUDATA write: stores at `v` keeping the palette mirror pairs
    /// equal, then advances `v`.
    pub fn write_ppu_data(&mut self, value: u8)
        requires
            ppu_wf(old(self)@),
        ensures
            final(self)@ == spec_write_data(old(self)@, value),
            ppu_wf(final(self)@),
    {
        let a = self.ppu_addr;
        self.ppu_ram.set(a as usize, value);
        let partner: u16 = if a == 0x3F00 {
            0x3F10
        } else if a == 0x3F10 {
            0x3F00
        } else if a == 0x3F04 {
            0x3F14
        } else if a == 0x3F14 {
            0x3F04
        } else if a == 0x3F08 {
            0x3F18
        } else if a == 0x3F18 {
            0x3F08
        } else if a == 0x3F0C {
            0x3F1C
        } else if a == 0x3F1C {
            0x3F0C
        } else {
            a
        };
        self.ppu_ram.set(partner as usize, value);
        let inc: u16 = if self.ppu_reg[0] & 0x04 != 0 {
            32
        } else {
            1
        };
        self.ppu_addr = (self.ppu_addr + inc) % 0x4000;
        proof {
            assert(self@ =~= spec_write_data(old(self)@, value));
        }
    }

    /// OAM direct-memory access: the 256 source bytes land at OAMADDR,
    /// OAMADDR + 1, ... with 8-bit wrap-around. OAMADDR itself is left
    /// unchanged.
    pub fn sprite_dma(&mut self, src: &Vec<u8>)
        requires
            ppu_wf(old(self)@),
            src@.len() == 256,
        ensures
            final(self)@ == (PpuV { oam: final(self)@.oam, ..old(self)@ }),
            final(self)@.oam.len() == 256,
            forall|i: int|
                0 <= i < 256 ==> final(self)@.oam[(old(self)@.regs[3] + i) % 256] == src@[i],
            ppu_wf(final(self)@),
    {
        let start = self.ppu_reg[3] as usize;
        let mut i: usize = 0;
        while i < 256
            invariant
                i <= 256,
                start < 256,
                src@.len() == 256,
                self@ == (PpuV { oam: self@.oam, ..old(self)@ }),
                self@.oam.len() == 256,
                forall|j: int| 0 <= j < i ==> self@.oam[(start + j) % 256] == src@[j],
            decreases 256 - i,
        {
            self.ppu_oam.set((start + i) % 256, src[i]);
            proof {
                assert(self@ =~= (PpuV { oam: self@.oam, ..old(self)@ }));
                assert forall|j: int| 0 <= j < i + 1 implies self@.oam[(start + j) % 256]
                    == src@[j] by {
                    if j < i {
                        assert((start + j) % 256 != (start + i) % 256);
                    }
                }
            }
            i = i + 1;
        }
    }

    /// Re-stamps the 16x16 cache of palette selectors from the 64
    /// attribute bytes of the active nametable.
    pub fn refresh_attribute_table(&mut self)
        requires
            ppu_wf(old(self)@),
        ensures
            final(self)@ == (PpuV {
                attr: spec_attr(old(self)@.vram, spec_nt_base(old(self)@.regs)),
                ..old(self)@
            }),
            ppu_wf(final(self)@),
    {
        let main_screen = self.ppu_reg[0] & 0x03;
        proof {
            lemma_low_masks(old(self)@.regs[0]);
        }
        let base: usize = 0x2000 + 0x400 * main_screen as usize;
        let ghost base_s: int = spec_nt_base(old(self)@.regs);
        let mut k: usize = 0;
        while k < 64
            invariant
                k <= 64,
                base == base_s,
                0x2000 <= base <= 0x2C00,
                self@ == (PpuV { attr: self@.attr, ..old(self)@ }),
                self@.attr.len() == 256,
                ppu_wf(old(self)@),
                forall|i: int|
                    0 <= i < 256 && ((i / 16) / 2) * 8 + (i % 16) / 2 < k ==> self@.attr[i]
                        == attr_entry(old(self)@.vram, base_s, i / 16, i % 16),
                forall|i: int|
                    0 <= i < 256 && ((i / 16) / 2) * 8 + (i % 16) / 2 >= k ==> self@.attr[i]
                        == old(self)@.attr[i],
            decreases 64 - k,
        {
            let byte = self.ppu_ram[base + 0x3C0 + k];
            let cy = 2 * (k / 8);
            let cx = 2 * (k % 8);
            proof {
                lemma_shr0(byte);
                lemma_mask3(byte, 0);
                lemma_mask3(byte, 2);
                lemma_mask3(byte, 4);
                lemma_mask3(byte, 6);
            }
            self.attribute_table_cache.set(cy * 16 + cx, byte & 3);
            self.attribute_table_cache.set(cy * 16 + cx + 1, (byte >> 2) & 3);
            self.attribute_table_cache.set((cy + 1) * 16 + cx, (byte >> 4) & 3);
            self.attribute_table_cache.set((cy + 1) * 16 + cx + 1, (byte >> 6) & 3);
            proof {
                assert(self@ =~= (PpuV { attr: self@.attr, ..old(self)@ }));
                let i1 = (cy * 16 + cx) as int;
                let i2 = i1 + 1;
                let i3 = ((cy + 1) * 16 + cx) as int;
                let i4 = i3 + 1;
                assert(i1 / 16 == cy && i1 % 16 == cx);
                assert(i2 / 16 == cy && i2 % 16 == cx + 1);
                assert(i3 / 16 == cy + 1 && i3 % 16 == cx);
                assert(i4 / 16 == cy + 1 && i4 % 16 == cx + 1);
                assert(cy / 2 == k / 8 && (cx as int) / 2 == k % 8);
                assert(self@.attr[i1] == attr_entry(old(self)@.vram, base_s, i1 / 16, i1 % 16));
                assert(self@.attr[i2] == attr_entry(old(self)@.vram, base_s, i2 / 16, i2 % 16));
                assert(self@.attr[i3] == attr_entry(old(self)@.vram, base_s, i3 / 16, i3 % 16));
                assert(self@.attr[i4] == attr_entry(old(self)@.vram, base_s, i4 / 16, i4 % 16));
            }
            k = k + 1;
        }
        proof {
            assert(self@.attr =~= spec_attr(old(self)@.vram, base_s));
            assert(self@ =~= (PpuV {
                attr: spec_attr(old(self)@.vram, spec_nt_base(old(self)@.regs)),
                ..old(self)@
            }));
            assert forall|i: int| 0 <= i < 256 implies self@.attr[i] < 4 by {
                lemma_mask3(
                    old(self)@.vram[base_s + 0x3C0 + ((i / 16) / 2) * 8 + (i % 16) / 2],
                    ((((i / 16) % 2) * 2 + (i % 16) % 2) * 2) as u8,
                );
            }
        }
    }

    /// Re-decodes all 256 background tiles from the pattern table that
    /// PPUCTRL selects.
    pub fn refresh_color_tables(&mut self, rom: &Rom)
        requires
            ppu_wf(old(self)@),
            rom.chr_rom@.len() == 0x2000,
        ensures
            final(self)@ == (PpuV {
                tiles: spec_tiles(rom.chr_rom@, spec_bg_base(old(self)@.regs)),
                ..old(self)@
            }),
            ppu_wf(final(self)@),
    {
        let off: u32 = if self.ppu_reg[0] & 0x10 != 0 {
            0x1000
        } else {
            0
        };
        let mut t: usize = 0;
        while t < 256
            invariant
                t <= 256,
                off == spec_bg_base(old(self)@.regs),
                rom.chr_rom@.len() == 0x2000,
                self@ == (PpuV { tiles: self@.tiles, ..old(self)@ }),
                self.bg_color_tables@.len() == 256,
                ppu_wf(old(self)@),
                forall|i: int|
                    0 <= i < t ==> (#[trigger] self.bg_color_tables@[i])@ == tile_seq(
                        rom.chr_rom@,
                        off as int,
                        i as u8,
                    ),
                forall|i: int|
                    t <= i < 256 ==> (#[trigger] self.bg_color_tables@[i])@ == old(self)@.tiles[i],
            decreases 256 - t,
        {
            let tile = build_tile(t as u8, off, &rom.chr_rom);
            self.bg_color_tables.set(t, tile);
            proof {
                assert(self@ =~= (PpuV { tiles: self@.tiles, ..old(self)@ }));
            }
            t = t + 1;
        }
        proof {
            assert(self@.tiles =~~= spec_tiles(rom.chr_rom@, off as int));
            assert(self@ =~= (PpuV {
                tiles: spec_tiles(rom.chr_rom@, spec_bg_base(old(self)@.regs)),
                ..old(self)@
            }));
            assert forall|i: int, j: int| 0 <= i < 256 && 0 <= j < 64 implies #[trigger] self@
                .tiles[i][j] < 4 by {
                lemma_tile_pixel_bound(rom.chr_rom@, off as int, i as u8, j);
            }
        }
    }

    /// The palette byte of a background pixel: palette selector and
    /// two-bit colour index address the table at 0x3F00.
    pub fn get_bg_color_id(&self, palette: u8, num: u8) -> (r: u8)
        requires
            ppu_wf(self@),
            palette < 4,
            num < 4,
        ensures
            r == self@.vram[0x3F00 + 4 * palette + num],
    {
        self.ppu_ram[0x3F00 + 4 * palette as usize + num as usize]
    }

    /// The palette byte of a sprite pixel, from the table at 0x3F10.
    pub fn get_sp_color_id(&self, palette: u8, num: u8) -> (r: u8)
        requires
            ppu_wf(self@),
            palette < 4,
            num < 4,
        ensures
            r == self@.vram[0x3F10 + 4 * palette + num],
    {
        self.ppu_ram[0x3F10 + 4 * palette as usize + num as usize]
    }

    /// Paints one 8x8 background tile at (tile_x, tile_y): every byte
    /// the tile covers takes exactly the master-palette channel its
    /// two-bit colour index selects (index 0 goes to the universal
    /// background colour at 0x3F00); every other byte is unchanged.
    #[verifier::rlimit(60)]
    #[verifier::spinoff_prover]
    pub fn draw_bg(
        &self,
        palette: u8,
        tile: &Vec<u8>,
        tile_x: u8,
        tile_y: u8,
        frame_buffer: &mut Vec<u8>,
    )
        requires
            ppu_wf(self@),
            palette < 4,
            tile@.len() == 64,
            forall|i: int| 0 <= i < 64 ==> tile@[i] < 4,
            tile_x <= 248,
            tile_y <= 232,
            old(frame_buffer)@.len() == 245760,
        ensures
            final(frame_buffer)@.len() == 245760,
            forall|i: int|
                0 <= i < 245760 ==> #[trigger] final(frame_buffer)@[i] == (if in_tile_rgb(
                    tile_x as int,
                    tile_y as int,
                    i,
                ) {
                    bg_expected(self@, palette, tile@, tile_x as int, tile_y as int, i)
                } else {
                    old(frame_buffer)@[i]
                }),
            alpha_preserved(old(frame_buffer)@, final(frame_buffer)@),
    {
        let ghost tx = tile_x as int;
        let ghost ty = tile_y as int;
        let mut idx: usize = 0;
        while idx < 64
            invariant
                idx <= 64,
                ppu_wf(self@),
                palette < 4,
                tile@.len() == 64,
                forall|i: int| 0 <= i < 64 ==> tile@[i] < 4,
                tile_x <= 248,
                tile_y <= 232,
                tx == tile_x as int,
                ty == tile_y as int,
                old(frame_buffer)@.len() == 245760,
                frame_buffer@.len() == 245760,
                forall|i: int|
                    0 <= i < 245760 ==> #[trigger] frame_buffer@[i] == (if in_tile_rgb(tx, ty, i)
                        && tile_cell(tx, ty, i) < idx {
                        bg_expected(self@, palette, tile@, tx, ty, i)
                    } else {
                        old(frame_buffer)@[i]
                    }),
            decreases 64 - idx,
        {
            let ci = tile[idx];
            let color_id = if ci == 0 {
                self.ppu_ram[0x3F00]
            } else {
                self.get_bg_color_id(palette, ci)
            };
            let c = (color_id % 64) as usize;
            let x = tile_x as usize + idx % 8;
            let y = tile_y as usize + idx / 8;
            let fb = (y * 256 + x) * 4;
            frame_buffer.set(fb, self.color_palette[c * 3]);
            frame_buffer.set(fb + 1, self.color_palette[c * 3 + 1]);
            frame_buffer.set(fb + 2, self.color_palette[c * 3 + 2]);
            proof {
                let dxi = (idx as int) % 8;
                let dyi = (idx as int) / 8;
                let xx = tx + dxi;
                let yy = ty + dyi;
                let base = (yy * 256 + xx) * 4;
                assert(base == fb);
                assert((yy * 256 + xx) / 256 == yy && (yy * 256 + xx) % 256 == xx);
                assert(in_tile_rgb(tx, ty, base) && tile_cell(tx, ty, base) == idx);
                assert(in_tile_rgb(tx, ty, base + 1) && tile_cell(tx, ty, base + 1) == idx);
                assert(in_tile_rgb(tx, ty, base + 2) && tile_cell(tx, ty, base + 2) == idx);
                assert(bg_expected(self@, palette, tile@, tx, ty, base) == self@.pal[3 * (
                c as int)]);
                assert(bg_expected(self@, palette, tile@, tx, ty, base + 1) == self@.pal[3 * (
                c as int) + 1]);
                assert(bg_expected(self@, palette, tile@, tx, ty, base + 2) == self@.pal[3 * (
                c as int) + 2]);
                assert forall|i: int|
                    0 <= i < 245760 && !(i == base || i == base + 1 || i == base + 2)
                        && in_tile_rgb(tx, ty, i) implies tile_cell(tx, ty, i) != idx by {
                    let px_ = i / 4;
                    let xi = px_ % 256;
                    let yi = px_ / 256;
                    if tile_cell(tx, ty, i) == idx {
                        assert((yi - ty) * 8 + (xi - tx) == dyi * 8 + dxi);
                        assert(yi == yy && xi == xx);
                        assert(px_ == yy * 256 + xx);
                        assert(base <= i < base + 4 && i % 4 != 3);
                    }
                }
            }
            idx = idx + 1;
        }
        proof {
            assert forall|i: int|
                0 <= i < 245760 && in_tile_rgb(tx, ty, i) implies tile_cell(tx, ty, i)
                < 64 by {
                let px_ = i / 4;
                let xi = px_ % 256;
                let yi = px_ / 256;
                assert(0 <= xi - tx < 8 && 0 <= yi - ty < 8);
            }
        }
    }

    /// Paints one 8x8 sprite tile at its OAM position, honouring the
    /// horizontal and vertical flip bits of the attribute byte: every
    /// on-screen byte whose sampled two-bit index is not transparent
    /// takes exactly the sprite-palette channel that index selects;
    /// every other byte is unchanged.
    #[verifier::rlimit(60)]
    #[verifier::spinoff_prover]
    pub fn draw_sprite(
        &self,
        palette: u8,
        tile: &Vec<u8>,
        attr: u8,
        tile_x: u8,
        tile_y: u8,
        frame_buffer: &mut Vec<u8>,
    )
        requires
            ppu_wf(self@),
            palette < 4,
            tile@.len() == 64,
            forall|i: int| 0 <= i < 64 ==> tile@[i] < 4,
            old(frame_buffer)@.len() == 245760,
        ensures
            final(frame_buffer)@.len() == 245760,
            forall|i: int|
                0 <= i < 245760 ==> #[trigger] final(frame_buffer)@[i] == (if in_sprite_rgb(
                    tile@,
                    attr,
                    tile_x as int,
                    tile_y as int,
                    i,
                ) {
                    sp_expected(self@, palette, tile@, attr, tile_x as int, tile_y as int, i)
                } else {
                    old(frame_buffer)@[i]
                }),
            alpha_preserved(old(frame_buffer)@, final(frame_buffer)@),
    {
        let ghost tx = tile_x as int;
        let ghost ty = tile_y as int;
        let mut idx: usize = 0;
        while idx < 64
            invariant
                idx <= 64,
                ppu_wf(self@),
                palette < 4,
                tile@.len() == 64,
                forall|i: int| 0 <= i < 64 ==> tile@[i] < 4,
                tx == tile_x as int,
                ty == tile_y as int,
                old(frame_buffer)@.len() == 245760,
                frame_buffer@.len() == 245760,
                forall|i: int|
                    0 <= i < 245760 ==> #[trigger] frame_buffer@[i] == (if in_sprite_rgb(
                        tile@,
                        attr,
                        tx,
                        ty,
                        i,
                    ) && tile_cell(tx, ty, i) < idx {
                        sp_expected(self@, palette, tile@, attr, tx, ty, i)
                    } else {
                        old(frame_buffer)@[i]
                    }),
            decreases 64 - idx,
        {
            let dx = idx % 8;
            let dy = idx / 8;
            let sx = if attr & 0x40 != 0 {
                7 - dx
            } else {
                dx
            };
            let sy = if attr & 0x80 != 0 {
                7 - dy
            } else {
                dy
            };
            let ci = tile[sy * 8 + sx];
            let x = tile_x as usize + dx;
            let y = tile_y as usize + dy;
            proof {
                assert(ci == sprite_sample(tile@, attr, (idx as int) % 8, (idx as int) / 8));
            }
            if ci != 0 && x < 256 && y < 240 {
                let color_id = self.get_sp_color_id(palette, ci);
                let c = (color_id % 64) as usize;
                let fb = (y * 256 + x) * 4;
                frame_buffer.set(fb, self.color_palette[c * 3]);
                frame_buffer.set(fb + 1, self.color_palette[c * 3 + 1]);
                frame_buffer.set(fb + 2, self.color_palette[c * 3 + 2]);
                proof {
                    let dxi = (idx as int) % 8;
                    let dyi = (idx as int) / 8;
                    let xx = tx + dxi;
                    let yy = ty + dyi;
                    let base = (yy * 256 + xx) * 4;
                    assert(base == fb);
                    assert((yy * 256 + xx) / 256 == yy && (yy * 256 + xx) % 256 == xx);
                    assert(sprite_draws(tile@, attr, tx, ty, dxi, dyi));
                    assert(in_sprite_rgb(tile@, attr, tx, ty, base) && tile_cell(tx, ty, base)
                        == idx);
                    assert(in_sprite_rgb(tile@, attr, tx, ty, base + 1) && tile_cell(
                        tx,
                        ty,
                        base + 1,
                    ) == idx);
                    assert(in_sprite_rgb(tile@, attr, tx, ty, base + 2) && tile_cell(
                        tx,
                        ty,
                        base + 2,
                    ) == idx);
                    assert(sp_expected(self@, palette, tile@, attr, tx, ty, base) == self@.pal[3
                        * (c as int)]);
                    assert(sp_expected(self@, palette, tile@, attr, tx, ty, base + 1)
                        == self@.pal[3 * (c as int) + 1]);
                    assert(sp_expected(self@, palette, tile@, attr, tx, ty, base + 2)
                        == self@.pal[3 * (c as int) + 2]);
                    assert forall|i: int|
                        0 <= i < 245760 && !(i == base || i == base + 1 || i == base + 2)
                            && in_sprite_rgb(tile@, attr, tx, ty, i) implies tile_cell(
                        tx,
                        ty,
                        i,
                    ) != idx by {
                        let px_ = i / 4;
                        let xi = px_ % 256;
                        let yi = px_ / 256;
                        if tile_cell(tx, ty, i) == idx {
                            assert((yi - ty) * 8 + (xi - tx) == dyi * 8 + dxi);
                            assert(yi == yy && xi == xx);
                            assert(px_ == yy * 256 + xx);
                            assert(base <= i < base + 4 && i % 4 != 3);
                        }
                    }
                }
            } else {
                proof {
                    let dxi = (idx as int) % 8;
                    let dyi = (idx as int) / 8;
                    assert(!sprite_draws(tile@, attr, tx, ty, dxi, dyi));
                    assert forall|i: int|
                        0 <= i < 245760 && in_sprite_rgb(tile@, attr, tx, ty, i) && tile_cell(
                            tx,
                            ty,
                            i,
                        ) == idx implies false by {
                        let px_ = i / 4;
                        let xi = px_ % 256;
                        let yi = px_ / 256;
                        assert((yi - ty) * 8 + (xi - tx) == dyi * 8 + dxi);
                        assert(0 <= xi - tx < 8 && 0 <= yi - ty < 8);
                        assert(yi - ty == dyi && xi - tx == dxi);
                        assert(sprite_draws(tile@, attr, tx, ty, dxi, dyi));
                    }
                }
            }
            idx = idx + 1;
        }
        proof {
            assert forall|i: int|
                0 <= i < 245760 && in_sprite_rgb(tile@, attr, tx, ty, i) implies tile_cell(
                tx,
                ty,
                i,
            ) < 64 by {
                let px_ = i / 4;
                let xi = px_ % 256;
                let yi = px_ / 256;
                assert(0 <= xi - tx < 8 && 0 <= yi - ty < 8);
            }
        }
    }

    /// Draws the whole frame and is proved equal to [`spec_frame`]: the
    /// 30x32 background cells of the active nametable from the decoded
    /// tile cache (colour index 0 taking the backdrop at 0x3F00), then
    /// the OAM sprites in order (8x8 or 8x16 per PPUCTRL bit 5, flips
    /// honoured, colour index 0 transparent), stopping at the first
    /// sprite with an off-screen Y. Alpha bytes are never touched.
    #[verifier::rlimit(60)]
    #[verifier::spinoff_prover]
    pub fn draw(&self, frame_buffer: &mut Vec<u8>, chr_rom: &Vec<u8>)
        requires
            ppu_wf(self@),
            chr_rom@.len() == 0x2000,
            old(frame_buffer)@.len() == 245760,
        ensures
            final(frame_buffer)@ == spec_frame(self@, chr_rom@, old(frame_buffer)@),
            alpha_preserved(old(frame_buffer)@, final(frame_buffer)@),
    {
        let main_screen = self.ppu_reg[0] & 0x03;
        proof {
            lemma_low_masks(self@.regs[0]);
        }
        let base: usize = 0x2000 + 0x400 * main_screen as usize;
        let ghost base_s: int = spec_nt_base(self@.regs);
        let ghost fb0: Seq<u8> = frame_buffer@;

        let mut cell: usize = 0;
        while cell < 960
            invariant
                cell <= 960,
                ppu_wf(self@),
                base == base_s,
                base_s == spec_nt_base(self@.regs),
                0x2000 <= base <= 0x2C00,
                fb0 == old(frame_buffer)@,
                fb0.len() == 245760,
                frame_buffer@.len() == 245760,
                forall|i: int|
                    0 <= i < 245760 ==> #[trigger] frame_buffer@[i] == (if i % 4 != 3 && bg_cell(
                        i,
                    ) < cell {
                        bg_frame_byte(self@, i)
                    } else {
                        fb0[i]
                    }),
            decreases 960 - cell,
        {
            let tile_id = self.ppu_ram[base + cell];
            let bx = cell % 32;
            let by = cell / 32;
            let ox = (bx * 8) as u8;
            let oy = (by * 8) as u8;
            let pal_sel = self.attribute_table_cache[(by / 2) * 16 + bx / 2];
            let tile = &self.bg_color_tables[tile_id as usize];
            proof {
                assert(self@.tiles[tile_id as int] == self.bg_color_tables@[tile_id as int]@);
            }
            self.draw_bg(pal_sel, tile, ox, oy, frame_buffer);
            proof {
                let bxi = bx as int;
                let byi = by as int;
                assert(cell == byi * 32 + bxi);
                assert(tile_id == self@.vram[base_s + byi * 32 + bxi]);
                assert(pal_sel == self@.attr[(byi / 2) * 16 + bxi / 2]);
                assert(tile@ == self@.tiles[tile_id as int]);
                assert forall|i: int| 0 <= i < 245760 implies #[trigger] frame_buffer@[i] == (
                if i % 4 != 3 && bg_cell(i) < cell + 1 {
                    bg_frame_byte(self@, i)
                } else {
                    fb0[i]
                }) by {
                    let x = (i / 4) % 256;
                    let y = (i / 4) / 256;
                    assert(0 <= x < 256 && 0 <= y < 240);
                    if in_tile_rgb(bxi * 8, byi * 8, i) {
                        assert(x / 8 == bxi && y / 8 == byi);
                        assert(bg_cell(i) == cell);
                        assert(frame_buffer@[i] == bg_expected(
                            self@,
                            pal_sel,
                            tile@,
                            bxi * 8,
                            byi * 8,
                            i,
                        ));
                        assert(bg_frame_byte(self@, i) == bg_expected(
                            self@,
                            pal_sel,
                            tile@,
                            bxi * 8,
                            byi * 8,
                            i,
                        ));
                    } else {
                        if i % 4 != 3 && bg_cell(i) == cell {
                            assert(y / 8 == byi && x / 8 == bxi);
                            assert(byi * 8 <= y < byi * 8 + 8 && bxi * 8 <= x < bxi * 8 + 8);
                            assert(in_tile_rgb(bxi * 8, byi * 8, i));
                        }
                    }
                }
            }
            cell = cell + 1;
        }
        proof {
            assert forall|i: int|
                0 <= i < 245760 && i % 4 != 3 implies bg_cell(i) < 960 by {
                let x = (i / 4) % 256;
                let y = (i / 4) / 256;
                assert(0 <= x / 8 < 32 && 0 <= y / 8 < 30);
            }
            assert(frame_buffer@ =~= spec_bg_pass(self@, fb0));
        }
        let ghost fb_bg: Seq<u8> = frame_buffer@;

        let sp_base_glob: u32 = if self.ppu_reg[0] & 0x08 != 0 {
            0x1000
        } else {
            0
        };
        let mut s: usize = 0;
        let mut stopped = false;
        while s < 64 && !stopped
            invariant
                s <= 64,
                ppu_wf(self@),
                chr_rom@.len() == 0x2000,
                sp_base_glob == spec_sp_base(self@.regs),
                fb0 == old(frame_buffer)@,
                fb0.len() == 245760,
                frame_buffer@.len() == 245760,
                alpha_preserved(fb0, frame_buffer@),
                !stopped ==> spec_sprite_pass(self@, chr_rom@, frame_buffer@, s as int)
                    == spec_frame(self@, chr_rom@, fb0),
                stopped ==> frame_buffer@ == spec_frame(self@, chr_rom@, fb0),
            decreases 64 - s,
        {
            let ghost fb_in: Seq<u8> = frame_buffer@;
            let y0 = self.ppu_oam[s * 4];
            if y0 >= 240 {
                stopped = true;
            } else {
                let x0 = self.ppu_oam[s * 4 + 3];
                let at = self.ppu_oam[s * 4 + 2];
                let pal_sel = at & 0x03;
                proof {
                    lemma_low_masks(at);
                }
                if self.ppu_reg[0] & 0x20 != 0 {
                    // 8x16 sprites: the tile id's bit 0 picks the pattern
                    // table, its high 7 bits the top tile.
                    let tid = self.ppu_oam[s * 4 + 1];
                    let top = tid & 0xFE;
                    let off: u32 = if tid & 0x01 != 0 {
                        0x1000
                    } else {
                        0
                    };
                    let t_top = build_tile(top, off, chr_rom);
                    proof {
                        lemma_tile_seq_bound(chr_rom@, off as int, top);
                    }
                    self.draw_sprite(pal_sel, &t_top, at, x0, y0, frame_buffer);
                    proof {
                        assert(frame_buffer@ =~= sprite_apply(
                            self@,
                            pal_sel,
                            t_top@,
                            at,
                            x0 as int,
                            y0 as int,
                            fb_in,
                        ));
                    }
                    let ghost fb_mid: Seq<u8> = frame_buffer@;
                    let t_bot = build_tile(top | 1, off, chr_rom);
                    proof {
                        lemma_tile_seq_bound(chr_rom@, off as int, top | 1);
                    }
                    self.draw_sprite(pal_sel, &t_bot, at, x0, y0 + 8, frame_buffer);
                    proof {
                        assert(frame_buffer@ =~= sprite_apply(
                            self@,
                            pal_sel,
                            t_bot@,
                            at,
                            x0 as int,
                            y0 as int + 8,
                            fb_mid,
                        ));
                        assert(frame_buffer@ == spec_draw_sprite_entry(
                            self@,
                            chr_rom@,
                            fb_in,
                            s as int,
                        ));
                    }
                } else {
                    let tid = self.ppu_oam[s * 4 + 1];
                    let tile = build_tile(tid, sp_base_glob, chr_rom);
                    proof {
                        lemma_tile_seq_bound(chr_rom@, sp_base_glob as int, tid);
                    }
                    self.draw_sprite(pal_sel, &tile, at, x0, y0, frame_buffer);
                    proof {
                        assert(frame_buffer@ =~= sprite_apply(
                            self@,
                            pal_sel,
                            tile@,
                            at,
                            x0 as int,
                            y0 as int,
                            fb_in,
                        ));
                        assert(frame_buffer@ == spec_draw_sprite_entry(
                            self@,
                            chr_rom@,
                            fb_in,
                            s as int,
                        ));
                    }
                }
            }
            s = s + 1;
        }
    }

    /// One PPU tick: every third tick advances the scanline, with the
    /// vertical-blank and NMI transitions of [`spec_tick`]; the wrap from
    /// line 261 to line 0 re-decodes the caches and draws the frame, and
    /// the buffer then equals [`spec_frame`] of the new state.
    pub fn next_cycle(&mut self, frame_buffer: &mut Vec<u8>, rom: &Rom)
        requires
            ppu_wf(old(self)@),
            rom.chr_rom@.len() == 0x2000,
            old(frame_buffer)@.len() == 245760,
        ensures
            final(self)@ == spec_tick(old(self)@, rom.chr_rom@),
            ppu_wf(final(self)@),
            alpha_preserved(old(frame_buffer)@, final(frame_buffer)@),
            old(self)@.tick < 2 || old(self)@.line != 261 ==> final(frame_buffer)@ == old(
                frame_buffer,
            )@,
            old(self)@.tick == 2 && old(self)@.line == 261 ==> final(frame_buffer)@
                == spec_frame(
                spec_tick(old(self)@, rom.chr_rom@),
                rom.chr_rom@,
                old(frame_buffer)@,
            ),
    {
        if self.line_tick < 2 {
            self.line_tick = self.line_tick + 1;
        } else {
            self.line_tick = 0;
            if self.current_line == 240 {
                self.current_line = 241;
                let st = self.ppu_reg[2];
                self.ppu_reg.set(2, st | 0x80);
                if self.ppu_reg[0] & 0x80 != 0 {
                    self.nmi_request = true;
                }
            } else if self.current_line == 260 {
                self.current_line = 261;
                let st = self.ppu_reg[2];
                self.ppu_reg.set(2, st & 0x1F);
            } else if self.current_line == 261 {
                self.current_line = 0;
                self.refresh_attribute_table();
                self.refresh_color_tables(rom);
                proof {
                    assert(self@ =~~= spec_tick(old(self)@, rom.chr_rom@));
                }
                self.draw(frame_buffer, &rom.chr_rom);
            } else {
                self.current_line = self.current_line + 1;
            }
        }
        proof {
            assert(self@ =~~= spec_tick(old(self)@, rom.chr_rom@));
        }
    }
}

/// The two addresses of each palette mirror pair hold the same byte at
/// all times in a well-formed PPU, so a PPUDATA read through either
/// VRAM address of a pair returns the same value.
pub proof fn lemma_palette_mirror_read(p: PpuV, a: u16)
    requires
        ppu_wf(p),
        pal_partner(a) != a,
    ensures
        p.vram[a as int] == p.vram[pal_partner(a) as int],
        spec_read_data_val(PpuV { vaddr: a, ..p }) == spec_read_data_val(
            PpuV { vaddr: pal_partner(a), ..p },
        ),
{
}

/// A PPUDATA write through either address of a palette mirror pair
/// leaves both bytes of the pair equal to the written value.
pub proof fn lemma_palette_mirror_write(p: PpuV, val: u8)
    requires
        ppu_wf(p),
        pal_partner(p.vaddr) != p.vaddr,
    ensures
        spec_write_data(p, val).vram[p.vaddr as int] == val,
        spec_write_data(p, val).vram[pal_partner(p.vaddr) as int] == val,
        palette_mirrors_ok(spec_write_data(p, val).vram),
{
}

/// The flat frame-buffer position of colour channel `k` of pixel
/// (x, y): row-major RGBA.
pub open spec fn px(x: int, y: int, k: int) -> int {
    (y * 256 + x) * 4 + k
}

/// Which pixel of an 8x8 tile at (tx, ty) a frame-buffer byte belongs
/// to, counted row-major.
pub open spec fn tile_cell(tx: int, ty: int, i: int) -> int {
    ((i / 4) / 256 - ty) * 8 + ((i / 4) % 256 - tx)
}

/// Whether a frame-buffer byte is one of the RGB channels covered by an
/// 8x8 tile at (tx, ty).
pub open spec fn in_tile_rgb(tx: int, ty: int, i: int) -> bool {
    let x = (i / 4) % 256;
    let y = (i / 4) / 256;
    &&& tx <= x < tx + 8
    &&& ty <= y < ty + 8
    &&& i % 4 != 3
}

/// The master-palette index a background pixel selects: index 0 takes
/// the universal background colour, the rest go through the selected
/// background palette.
pub open spec fn bg_color_index(p: PpuV, pal_sel: u8, ci: u8) -> int {
    ((if ci == 0 {
        p.vram[0x3F00]
    } else {
        p.vram[0x3F00 + 4 * pal_sel + ci]
    }) % 64) as int
}

/// The master-palette index a sprite pixel selects.
pub open spec fn sp_color_index(p: PpuV, pal_sel: u8, ci: u8) -> int {
    (p.vram[0x3F10 + 4 * pal_sel + ci] % 64) as int
}

/// The byte a background tile leaves at a covered frame-buffer
/// position: the channel of the master-palette colour its pixel
/// selects.
pub open spec fn bg_expected(p: PpuV, pal_sel: u8, tile: Seq<u8>, tx: int, ty: int, i: int) -> u8 {
    let x = (i / 4) % 256;
    let y = (i / 4) / 256;
    let col = bg_color_index(p, pal_sel, tile[(y - ty) * 8 + (x - tx)]);
    p.pal[3 * col + i % 4]
}

/// The two-bit index a sprite samples at screen offset (dx, dy), after
/// the attribute byte's horizontal (bit 6) and vertical (bit 7) flips.
pub open spec fn sprite_sample(tile: Seq<u8>, attr: u8, dx: int, dy: int) -> u8 {
    let sx = if attr & 0x40 != 0 {
        7 - dx
    } else {
        dx
    };
    let sy = if attr & 0x80 != 0 {
        7 - dy
    } else {
        dy
    };
    tile[sy * 8 + sx]
}

/// Whether a sprite writes the pixel at offset (dx, dy): the sample is
/// not transparent and the pixel is on screen.
pub open spec fn sprite_draws(tile: Seq<u8>, attr: u8, tx: int, ty: int, dx: int, dy: int) -> bool {
    &&& sprite_sample(tile, attr, dx, dy) != 0
    &&& tx + dx < 256
    &&& ty + dy < 240
}

/// Whether a frame-buffer byte is an RGB channel some sprite pixel
/// actually writes.
pub open spec fn in_sprite_rgb(tile: Seq<u8>, attr: u8, tx: int, ty: int, i: int) -> bool {
    let x = (i / 4) % 256;
    let y = (i / 4) / 256;
    &&& tx <= x < tx + 8
    &&& ty <= y < ty + 8
    &&& i % 4 != 3
    &&& sprite_draws(tile, attr, tx, ty, x - tx, y - ty)
}

/// The byte a sprite leaves at a frame-buffer position it writes.
pub open spec fn sp_expected(
    p: PpuV,
    pal_sel: u8,
    tile: Seq<u8>,
    attr: u8,
    tx: int,
    ty: int,
    i: int,
) -> u8 {
    let x = (i / 4) % 256;
    let y = (i / 4) / 256;
    let col = sp_color_index(p, pal_sel, sprite_sample(tile, attr, x - tx, y - ty));
    p.pal[3 * col + i % 4]
}

/// Which background cell of the 32x30 grid a frame-buffer byte falls
/// in, counted row-major.
pub open spec fn bg_cell(i: int) -> int {
    (((i / 4) / 256) / 8) * 32 + ((i / 4) % 256) / 8
}

/// The colour byte the background pass leaves at a non-alpha position:
/// the pixel's cell names the tile in the active nametable, the
/// attribute cache names the palette selector.
pub open spec fn bg_frame_byte(p: PpuV, i: int) -> u8 {
    let cx = ((i / 4) % 256) / 8;
    let cy = ((i / 4) / 256) / 8;
    let tile_id = p.vram[spec_nt_base(p.regs) + cy * 32 + cx];
    bg_expected(p, p.attr[(cy / 2) * 16 + cx / 2], p.tiles[tile_id as int], cx * 8, cy * 8, i)
}

/// The whole buffer after the background pass: every RGB byte takes its
/// cell's colour, every alpha byte survives.
pub open spec fn spec_bg_pass(p: PpuV, fb: Seq<u8>) -> Seq<u8> {
    Seq::new(
        fb.len(),
        |i: int|
            if i % 4 == 3 {
                fb[i]
            } else {
                bg_frame_byte(p, i)
            },
    )
}

/// One sprite tile overlaid on a buffer: the bytes it writes (opaque,
/// on-screen) take their colours, the rest stay.
pub open spec fn sprite_apply(
    p: PpuV,
    pal_sel: u8,
    tile: Seq<u8>,
    attr: u8,
    tx: int,
    ty: int,
    fb: Seq<u8>,
) -> Seq<u8> {
    Seq::new(
        fb.len(),
        |i: int|
            if in_sprite_rgb(tile, attr, tx, ty, i) {
                sp_expected(p, pal_sel, tile, attr, tx, ty, i)
            } else {
                fb[i]
            },
    )
}

/// One OAM entry drawn: an 8x8 sprite from the PPUCTRL-selected pattern
/// table, or, in 8x16 mode, both halves from the table the id's bit 0
/// names, the high 7 bits naming the top tile and the bottom half
/// standing eight lines lower.
pub open spec fn spec_draw_sprite_entry(p: PpuV, chr: Seq<u8>, fb: Seq<u8>, s: int) -> Seq<u8> {
    let y0 = p.oam[s * 4];
    let x0 = p.oam[s * 4 + 3];
    let at = p.oam[s * 4 + 2];
    let sel = at & 3;
    if p.regs[0] & 0x20 != 0 {
        let tid = p.oam[s * 4 + 1];
        let top = tid & 0xFE;
        let off: int = if tid & 1 != 0 {
            0x1000
        } else {
            0
        };
        let fb1 = sprite_apply(p, sel, tile_seq(chr, off, top), at, x0 as int, y0 as int, fb);
        sprite_apply(p, sel, tile_seq(chr, off, top | 1), at, x0 as int, y0 + 8, fb1)
    } else {
        sprite_apply(
            p,
            sel,
            tile_seq(chr, spec_sp_base(p.regs), p.oam[s * 4 + 1]),
            at,
            x0 as int,
            y0 as int,
            fb,
        )
    }
}

/// The sprite pass from OAM entry `s` on: entries draw in order, and
/// the scan stops at the first entry whose Y byte is off screen.
pub open spec fn spec_sprite_pass(p: PpuV, chr: Seq<u8>, fb: Seq<u8>, s: int) -> Seq<u8>
    decreases 64 - s,
{
    if s < 0 || s >= 64 {
        fb
    } else if p.oam[s * 4] >= 240 {
        fb
    } else {
        spec_sprite_pass(p, chr, spec_draw_sprite_entry(p, chr, fb, s), s + 1)
    }
}

/// The finished frame: the background pass over all 960 cells, then the
/// OAM sprites in order. This is the whole-frame renderer of the PPU as
/// mathematics; [`Ppu::draw`] is proved equal to it.
pub open spec fn spec_frame(p: PpuV, chr: Seq<u8>, fb: Seq<u8>) -> Seq<u8> {
    spec_sprite_pass(p, chr, spec_bg_pass(p, fb), 0)
}

/// Alpha bytes (every fourth byte of the RGBA buffer) survive a draw.
pub open spec fn alpha_preserved(a: Seq<u8>, b: Seq<u8>) -> bool {
    &&& b.len() == a.len()
    &&& forall|i: int| 0 <= i < a.len() && i % 4 == 3 ==> b[i] == a[i]
}

/// Every pixel of a decoded tile sequence is a two-bit value.
pub proof fn lemma_tile_seq_bound(chr: Seq<u8>, base: int, tile_id: u8)
    ensures
        forall|i: int| 0 <= i < 64 ==> #[trigger] tile_seq(chr, base, tile_id)[i] < 4,
{
    assert forall|i: int| 0 <= i < 64 implies #[trigger] tile_seq(chr, base, tile_id)[i] < 4 by {
        lemma_tile_pixel_bound(chr, base, tile_id, i);
    }
}

/// Small mask bounds on a byte.
proof fn lemma_low_masks(x: u8)
    ensures
        x & 1 < 2,
        x & 3 < 4,
        x & 7 < 8,
        x & 0x3F < 64,
{
    assert(x & 1 < 2 && x & 3 < 4 && x & 7 < 8 && x & 0x3F < 64) by (bit_vector);
}

/// Shifting a byte right by zero is the identity.
proof fn lemma_shr0(x: u8)
    ensures
        x >> 0u8 == x,
{
    assert(x >> 0u8 == x) by (bit_vector);
}

/// The base of the active nametable, selected by PPUCTRL bits 0-1.
pub open spec fn spec_nt_base(regs: Seq<u8>) -> int {
    0x2000 + 0x400 * ((regs[0] & 3) as int)
}

/// The background pattern table base, selected by PPUCTRL bit 4.
pub open spec fn spec_bg_base(regs: Seq<u8>) -> int {
    if regs[0] & 0x10 != 0 {
        0x1000
    } else {
        0
    }
}

/// The sprite pattern table base, selected by PPUCTRL bit 3.
pub open spec fn spec_sp_base(regs: Seq<u8>) -> int {
    if regs[0] & 0x08 != 0 {
        0x1000
    } else {
        0
    }
}

/// The two-bit colour index of one tile pixel: plane 0 of the CHR pattern
/// gives bit 0, plane 1 (eight bytes later) gives bit 1, the most
/// significant bit is the leftmost pixel.
pub open spec fn tile_pixel(chr: Seq<u8>, base: int, tile_id: u8, idx: int) -> u8 {
    let row = idx / 8;
    let sh = (7 - idx % 8) as u8;
    (((chr[base + tile_id * 16 + row] >> sh) & 1) + 2 * ((chr[base + tile_id * 16 + 8 + row]
        >> sh) & 1)) as u8
}

/// A whole decoded 8x8 tile, row-major.
pub open spec fn tile_seq(chr: Seq<u8>, base: int, tile_id: u8) -> Seq<u8> {
    Seq::new(64, |i: int| tile_pixel(chr, base, tile_id, i))
}

/// All 256 tiles of one pattern table, decoded.
pub open spec fn spec_tiles(chr: Seq<u8>, base: int) -> Seq<Seq<u8>> {
    Seq::new(256, |t: int| tile_seq(chr, base, t as u8))
}

/// The 2-bit palette selector of the 16x16-pixel region in row `row`,
/// column `col`: each attribute byte covers a 2x2 block of regions, two
/// bits per quadrant from the low pair upward.
pub open spec fn attr_entry(vram: Seq<u8>, base: int, row: int, col: int) -> u8 {
    (vram[base + 0x3C0 + (row / 2) * 8 + col / 2] >> ((((row % 2) * 2 + col % 2)
        * 2) as u8)) & 3
}

/// The whole 16x16 attribute cache for the active nametable.
pub open spec fn spec_attr(vram: Seq<u8>, base: int) -> Seq<u8> {
    Seq::new(256, |i: int| attr_entry(vram, base, i / 16, i % 16))
}

/// Effect of one PPU tick on everything but the frame buffer: every third
/// tick advances the scanline; entering line 241 sets the vertical-blank
/// bit and latches an NMI request when PPUCTRL bit 7 is set; entering the
/// pre-render line 261 clears the vertical-blank, sprite-0-hit and
/// overflow bits; the wrap to line 0 re-decodes the attribute and tile
/// caches that the frame is drawn from.
pub open spec fn spec_tick(p: PpuV, chr: Seq<u8>) -> PpuV {
    if p.tick < 2 {
        PpuV { tick: (p.tick + 1) as u8, ..p }
    } else if p.line == 240 {
        PpuV {
            tick: 0,
            line: 241,
            regs: p.regs.update(2, p.regs[2] | 0x80),
            nmi: p.nmi || p.regs[0] & 0x80 != 0,
            ..p
        }
    } else if p.line == 260 {
        PpuV { tick: 0, line: 261, regs: p.regs.update(2, p.regs[2] & 0x1F), ..p }
    } else if p.line == 261 {
        PpuV {
            tick: 0,
            line: 0,
            attr: spec_attr(p.vram, spec_nt_base(p.regs)),
            tiles: spec_tiles(chr, spec_bg_base(p.regs)),
            ..p
        }
    } else {
        PpuV { tick: 0, line: (p.line + 1) as u16, ..p }
    }
}

/// A bit extracted by shift-and-mask is 0 or 1.
proof fn lemma_bit01(x: u8, s: u8)
    requires
        s < 8,
    ensures
        (x >> s) & 1 < 2,
{
    assert(s < 8 ==> (x >> s) & 1 < 2) by (bit_vector);
}

/// A two-bit field extracted by shift-and-mask is below 4.
proof fn lemma_mask3(x: u8, s: u8)
    requires
        s < 8,
    ensures
        (x >> s) & 3 < 4,
{
    assert(s < 8 ==> (x >> s) & 3 < 4) by (bit_vector);
}

/// Every pixel of a decoded tile is a two-bit value.
pub proof fn lemma_tile_pixel_bound(chr: Seq<u8>, base: int, tile_id: u8, idx: int)
    requires
        0 <= idx < 64,
    ensures
        tile_pixel(chr, base, tile_id, idx) < 4,
{
    lemma_bit01(chr[base + tile_id * 16 + idx / 8], (7 - idx % 8) as u8);
    lemma_bit01(chr[base + tile_id * 16 + 8 + idx / 8], (7 - idx % 8) as u8);
}

/// Decodes one 8x8 tile from the two CHR bit-planes at
/// `offset_addr + tile_id * 16` into 64 two-bit colour indices.
pub fn build_tile(tile_id: u8, offset_addr: u32, chr_rom: &Vec<u8>) -> (r: Vec<u8>)
    requires
        offset_addr == 0 || offset_addr == 0x1000,
        chr_rom@.len() == 0x2000,
    ensures
        r@ == tile_seq(chr_rom@, offset_addr as int, tile_id),
{
    let base: usize = offset_addr as usize + tile_id as usize * 16;
    let mut r: Vec<u8> = Vec::new();
    let mut row: usize = 0;
    while row < 8
        invariant
            row <= 8,
            base == offset_addr + tile_id * 16,
            offset_addr == 0 || offset_addr == 0x1000,
            chr_rom@.len() == 0x2000,
            r@.len() == row * 8,
            forall|i: int|
                0 <= i < row * 8 ==> r@[i] == tile_pixel(chr_rom@, offset_addr as int, tile_id, i),
        decreases 8 - row,
    {
        let p0 = chr_rom[base + row];
        let p1 = chr_rom[base + 8 + row];
        let mut col: usize = 0;
        while col < 8
            invariant
                col <= 8,
                row < 8,
                base == offset_addr + tile_id * 16,
                offset_addr == 0 || offset_addr == 0x1000,
                chr_rom@.len() == 0x2000,
                p0 == chr_rom@[base + row],
                p1 == chr_rom@[base + 8 + row],
                r@.len() == row * 8 + col,
                forall|i: int|
                    0 <= i < row * 8 + col ==> r@[i] == tile_pixel(
                        chr_rom@,
                        offset_addr as int,
                        tile_id,
                        i,
                    ),
            decreases 8 - col,
        {
            let sh: u8 = (7 - col) as u8;
            proof {
                lemma_bit01(p0, sh);
                lemma_bit01(p1, sh);
            }
            let v: u8 = ((p0 >> sh) & 1) + 2 * ((p1 >> sh) & 1);
            r.push(v);
            proof {
                let i = row * 8 + col;
                assert(i / 8 == row && i % 8 == col);
                assert(r@[i as int] == tile_pixel(chr_rom@, offset_addr as int, tile_id, i as int));
            }
            col = col + 1;
        }
        row = row + 1;
    }
    proof {
        assert(r@ =~= tile_seq(chr_rom@, offset_addr as int, tile_id));
    }
    r
}

/// A vector of `n` zero bytes.
fn make_zero_vec(n: usize) -> (r: Vec<u8>)
    ensures
        r@.len() == n,
        forall|i: int| 0 <= i < n ==> r@[i] == 0u8,
{
    let mut r: Vec<u8> = Vec::new();
    let mut i: usize = 0;
    while i < n
        invariant
            i <= n,
            r@.len() == i,
            forall|j: int| 0 <= j < i ==> r@[j] == 0u8,
        decreases n - i,
    {
        r.push(0);
        i = i + 1;
    }
    r
}

/// Expands a 9-bit octal colour (3 bits per channel) to 24-bit RGB packed
/// as `r | g << 8 | b << 16`.
pub fn convert_to_rgb24(octal: u32) -> (r: u32)
    ensures
        r == spec_rgb24(octal),
{
    let b = octal & 0x07;
    let g = (octal >> 3) & 0x07;
    let r0 = (octal >> 6) & 0x07;
    proof {
        assert((octal & 0x07) < 8 && ((octal >> 3) & 0x07) < 8 && ((octal >> 6) & 0x07)
            < 8) by (bit_vector);
        assert(b * 255 < 0x10000 && g * 255 < 0x10000 && r0 * 255 < 0x10000);
    }
    ((b * 255 / 7) << 16) | ((g * 255 / 7) << 8) | (r0 * 255 / 7)
}

/// The 24-bit RGB expansion of a 9-bit octal colour, packed as
/// `r | g << 8 | b << 16`.
pub open spec fn spec_rgb24(octal: u32) -> u32 {
    ((((octal & 0x07) * 255 / 7) as u32) << 16u32) | ((((octal >> 3) & 0x07) * 255 / 7) as u32)
        << 8u32 | (((octal >> 6) & 0x07) * 255 / 7) as u32
}

/// The 64 entries of the master palette, as 9-bit octal colours.
pub open spec fn spec_master_octal(i: int) -> u32 {
    if i == 0 {
        0o333
    } else if i == 1 {
        0o014
    } else if i == 2 {
        0o006
    } else if i == 3 {
        0o326
    } else if i == 4 {
        0o403
    } else if i == 5 {
        0o503
    } else if i == 6 {
        0o510
    } else if i == 7 {
        0o420
    } else if i == 8 {
        0o320
    } else if i == 9 {
        0o120
    } else if i == 10 {
        0o031
    } else if i == 11 {
        0o040
    } else if i == 12 {
        0o022
    } else if i == 13 {
        0o000
    } else if i == 14 {
        0o000
    } else if i == 15 {
        0o000
    } else if i == 16 {
        0o555
    } else if i == 17 {
        0o036
    } else if i == 18 {
        0o027
    } else if i == 19 {
        0o407
    } else if i == 20 {
        0o507
    } else if i == 21 {
        0o704
    } else if i == 22 {
        0o700
    } else if i == 23 {
        0o630
    } else if i == 24 {
        0o430
    } else if i == 25 {
        0o140
    } else if i == 26 {
        0o040
    } else if i == 27 {
        0o053
    } else if i == 28 {
        0o044
    } else if i == 29 {
        0o000
    } else if i == 30 {
        0o000
    } else if i == 31 {
        0o000
    } else if i == 32 {
        0o777
    } else if i == 33 {
        0o357
    } else if i == 34 {
        0o447
    } else if i == 35 {
        0o637
    } else if i == 36 {
        0o707
    } else if i == 37 {
        0o737
    } else if i == 38 {
        0o740
    } else if i == 39 {
        0o750
    } else if i == 40 {
        0o660
    } else if i == 41 {
        0o360
    } else if i == 42 {
        0o070
    } else if i == 43 {
        0o276
    } else if i == 44 {
        0o077
    } else if i == 45 {
        0o000
    } else if i == 46 {
        0o000
    } else if i == 47 {
        0o000
    } else if i == 48 {
        0o777
    } else if i == 49 {
        0o567
    } else if i == 50 {
        0o657
    } else if i == 51 {
        0o757
    } else if i == 52 {
        0o747
    } else if i == 53 {
        0o755
    } else if i == 54 {
        0o764
    } else if i == 55 {
        0o772
    } else if i == 56 {
        0o773
    } else if i == 57 {
        0o572
    } else if i == 58 {
        0o473
    } else if i == 59 {
        0o276
    } else if i == 60 {
        0o467
    } else if i == 61 {
        0o000
    } else if i == 62 {
        0o000
    } else if i == 63 {
        0o000
    } else {
        0
    }
}

/// One byte of the flattened master palette: entry `i / 3`'s red, green
/// or blue channel.
pub open spec fn master_palette_byte(i: int) -> u8 {
    let c = spec_rgb24(spec_master_octal(i / 3));
    if i % 3 == 0 {
        (c & 0xFF) as u8
    } else if i % 3 == 1 {
        ((c >> 8u32) & 0xFF) as u8
    } else {
        ((c >> 16u32) & 0xFF) as u8
    }
}

/// The 64-entry master palette, one 9-bit octal colour per index; the
/// index wraps at 64.
pub fn get_color_octal(index: u8) -> (r: u32)
    ensures
        r == spec_master_octal((index % 64) as int),
        r < 512,
{
    match index % 64 {
        0 => 0o333,
        1 => 0o014,
        2 => 0o006,
        3 => 0o326,
        4 => 0o403,
        5 => 0o503,
        6 => 0o510,
        7 => 0o420,
        8 => 0o320,
        9 => 0o120,
        10 => 0o031,
        11 => 0o040,
        12 => 0o022,
        13 => 0o000,
        14 => 0o000,
        15 => 0o000,
        16 => 0o555,
        17 => 0o036,
        18 => 0o027,
        19 => 0o407,
        20 => 0o507,
        21 => 0o704,
        22 => 0o700,
        23 => 0o630,
        24 => 0o430,
        25 => 0o140,
        26 => 0o040,
        27 => 0o053,
        28 => 0o044,
        29 => 0o000,
        30 => 0o000,
        31 => 0o000,
        32 => 0o777,
        33 => 0o357,
        34 => 0o447,
        35 => 0o637,
        36 => 0o707,
        37 => 0o737,
        38 => 0o740,
        39 => 0o750,
        40 => 0o660,
        41 => 0o360,
        42 => 0o070,
        43 => 0o276,
        44 => 0o077,
        45 => 0o000,
        46 => 0o000,
        47 => 0o000,
        48 => 0o777,
        49 => 0o567,
        50 => 0o657,
        51 => 0o757,
        52 => 0o747,
        53 => 0o755,
        54 => 0o764,
        55 => 0o772,
        56 => 0o773,
        57 => 0o572,
        58 => 0o473,
        59 => 0o276,
        60 => 0o467,
        61 => 0o000,
        62 => 0o000,
        63 => 0o000,
        _ => 0,
    }
}

/// The packed RGB colour of a master palette entry.
pub fn get_color(color: u8) -> (r: u32)
    ensures
        r == spec_rgb24(spec_master_octal((color % 64) as int)),
{
    convert_to_rgb24(get_color_octal(color))
}

/// The master palette flattened to 64 RGB byte triples.
pub fn generate_color_palette() -> (r: Vec<u8>)
    ensures
        r@.len() == 192,
        forall|i: int| 0 <= i < 192 ==> r@[i] == master_palette_byte(i),
{
    let mut r: Vec<u8> = Vec::new();
    let mut i: usize = 0;
    while i < 64
        invariant
            i <= 64,
            r@.len() == 3 * i,
            forall|j: int| 0 <= j < 3 * i ==> r@[j] == master_palette_byte(j),
        decreases 64 - i,
    {
        let color = get_color(i as u8);
        r.push((color & 0xFF) as u8);
        proof {
            assert(((color >> 8) & 0xFF) < 256 && ((color >> 16) & 0xFF) < 256) by (bit_vector);
        }
        r.push(((color >> 8) & 0xFF) as u8);
        r.push(((color >> 16) & 0xFF) as u8);
        proof {
            let b = 3 * (i as int);
            assert(b / 3 == i && b % 3 == 0);
            assert((b + 1) / 3 == i && (b + 1) % 3 == 1);
            assert((b + 2) / 3 == i && (b + 2) % 3 == 2);
        }
        i = i + 1;
    }
    r
}

} // verus!
