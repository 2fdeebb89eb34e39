//! The MOS 6502 CPU core.
//!
//! Registers are the 16-bit program counter and the 8-bit accumulator,
//! index registers, stack pointer and status byte `p` (bit 0 carry, bit 1
//! zero, bit 2 interrupt-disable, bit 3 decimal, bit 6 overflow, bit 7
//! negative). Bit 5 of `p` reads as 1 and bit 4 (break) exists only in
//! pushed copies: every load of `p` through [`spec_load_p`] forces bit 5
//! set and bit 4 clear, which [`wf_p`] captures.
//!
//! Every operation's contract gives the exact new registers and flags as a
//! function of the old ones and of the bytes the bus hands back.

use vstd::prelude::*;

use crate::sys::memory_map::{
    bus_read_upd, bus_read_val, bus_write_upd, mem_wf, spec_read16_page_upd,
    spec_read16_page_val, spec_read16_upd, spec_read16_val, spec_read16_zp_upd,
    spec_read16_zp_val, MemV, MemoryMap,
};

verus! {

/// The CPU registers.
pub struct Cpu {
    pub program_counter: u16,
    pub reg_a: u8,
    pub reg_x: u8,
    pub reg_y: u8,
    pub reg_s: u8,
    pub reg_p: u8,
}

/// The addressing modes of the 6502.
#[allow(non_camel_case_types)]
#[derive(Clone, Copy, PartialEq, Eq, Structural, Debug)]
pub enum Addressing {
    Implied,
    Accumulator,
    Immediate,
    Absolute,
    AbsoluteX,
    AbsoluteY,
    ZeroPage,
    ZeroPageX,
    ZeroPageY,
    Relative,
    Indirect,
    IndirectX,
    Indirect_Y,
}

/// A status byte as it can live in the register: bit 5 set, break clear.
pub open spec fn wf_p(p: u8) -> bool {
    p & 0x20 == 0x20 && p & 0x10 == 0
}

/// A single flag bit turned on or off.
pub open spec fn spec_set_flag(p: u8, mask: u8, on: bool) -> u8 {
    if on {
        p | mask
    } else {
        p & !mask
    }
}

/// The negative and zero flags refreshed from a result byte.
pub open spec fn nz_update(p: u8, v: u8) -> u8 {
    spec_set_flag(spec_set_flag(p, 0x80, v >= 128), 0x02, v == 0)
}

/// What a value pulled into `p` becomes: break cleared, bit 5 forced on.
pub open spec fn spec_load_p(v: u8) -> u8 {
    (v & 0xEF) | 0x20
}

/// What a push of `p` places on the stack: break and bit 5 set.
pub open spec fn spec_push_p(p: u8) -> u8 {
    p | 0x30
}

/// 8-bit wrap-around addition.
pub open spec fn add8(a: u8, b: u8) -> u8 {
    ((a + b) % 256) as u8
}

/// 8-bit wrap-around subtraction.
pub open spec fn sub8(a: u8, b: u8) -> u8 {
    ((a + 256 - b) % 256) as u8
}

/// 16-bit wrap-around addition.
pub open spec fn add16(a: u16, b: u16) -> u16 {
    ((a + b) % 0x10000) as u16
}

/// A branch offset sign-extended to 16 bits.
pub open spec fn sign_ext(rel: u8) -> u16 {
    if rel >= 0x80 {
        (rel + 0xFF00) as u16
    } else {
        rel as u16
    }
}

/// Registers after TAX: X takes A, NZ follow A.
pub open spec fn spec_tax(c: Cpu) -> Cpu {
    Cpu { reg_x: c.reg_a, reg_p: nz_update(c.reg_p, c.reg_a), ..c }
}

/// Registers after TXA: A takes X, NZ follow X.
pub open spec fn spec_txa(c: Cpu) -> Cpu {
    Cpu { reg_a: c.reg_x, reg_p: nz_update(c.reg_p, c.reg_x), ..c }
}

/// Registers after TAY: Y takes A, NZ follow A.
pub open spec fn spec_tay(c: Cpu) -> Cpu {
    Cpu { reg_y: c.reg_a, reg_p: nz_update(c.reg_p, c.reg_a), ..c }
}

/// Registers after TYA: A takes Y, NZ follow Y.
pub open spec fn spec_tya(c: Cpu) -> Cpu {
    Cpu { reg_a: c.reg_y, reg_p: nz_update(c.reg_p, c.reg_y), ..c }
}

/// Registers after ADC of an operand byte: binary add with carry in,
/// carry out from bit 8, overflow from the sign rule, NZ from the result.
pub open spec fn spec_adc(c: Cpu, v: u8) -> Cpu {
    let sum = c.reg_a + v + (c.reg_p & 1);
    let r = (sum % 256) as u8;
    Cpu {
        reg_a: r,
        reg_p: spec_set_flag(
            spec_set_flag(nz_update(c.reg_p, r), 0x01, sum >= 256),
            0x40,
            (r ^ v) & (r ^ c.reg_a) & 0x80 != 0,
        ),
        ..c
    }
}

/// Registers after SBC of an operand byte: ADC of the inverted operand.
pub open spec fn spec_sbc(c: Cpu, v: u8) -> Cpu {
    let borrow: int = if c.reg_p & 1 != 0 {
        0
    } else {
        1
    };
    let diff = c.reg_a - v - borrow;
    let r = (diff % 256) as u8;
    Cpu {
        reg_a: r,
        reg_p: spec_set_flag(
            spec_set_flag(nz_update(c.reg_p, r), 0x01, diff >= 0),
            0x40,
            (r ^ (v ^ 0xFF)) & (r ^ c.reg_a) & 0x80 != 0,
        ),
        ..c
    }
}

/// The flags a compare of a register with an operand leaves: carry when
/// the register is not below, zero on equality, negative from bit 7 of
/// the 8-bit difference.
pub open spec fn compare_flags(p: u8, reg: u8, v: u8) -> u8 {
    spec_set_flag(
        spec_set_flag(spec_set_flag(p, 0x01, reg >= v), 0x02, reg == v),
        0x80,
        sub8(reg, v) & 0x80 != 0,
    )
}

/// The bit masks of single-bit shifts, spelled out.
proof fn lemma_shift_consts()
    ensures
        1u8 << 0u8 == 0x01,
        1u8 << 1u8 == 0x02,
        1u8 << 2u8 == 0x04,
        1u8 << 3u8 == 0x08,
        1u8 << 4u8 == 0x10,
        1u8 << 5u8 == 0x20,
        1u8 << 6u8 == 0x40,
        1u8 << 7u8 == 0x80,
        !0x01u8 == 0xFE,
        !0x02u8 == 0xFD,
        !0x04u8 == 0xFB,
        !0x08u8 == 0xF7,
        !0x10u8 == 0xEF,
        !0x20u8 == 0xDF,
        !0x40u8 == 0xBF,
        !0x80u8 == 0x7F,
{
    assert(1u8 << 0u8 == 0x01 && 1u8 << 1u8 == 0x02 && 1u8 << 2u8 == 0x04 && 1u8 << 3u8 == 0x08
        && 1u8 << 4u8 == 0x10 && 1u8 << 5u8 == 0x20 && 1u8 << 6u8 == 0x40 && 1u8 << 7u8 == 0x80
        && !0x01u8 == 0xFE && !0x02u8 == 0xFD && !0x04u8 == 0xFB && !0x08u8 == 0xF7 && !0x10u8
        == 0xEF && !0x20u8 == 0xDF && !0x40u8 == 0xBF && !0x80u8 == 0x7F) by (bit_vector);
}

/// Refreshing NZ touches only bits 1 and 7, and sets them by the sign and
/// zero-ness of the value.
pub proof fn lemma_nz_update(p: u8, v: u8)
    ensures
        nz_update(p, v) & 0x01 == p & 0x01,
        nz_update(p, v) & 0x04 == p & 0x04,
        nz_update(p, v) & 0x08 == p & 0x08,
        nz_update(p, v) & 0x10 == p & 0x10,
        nz_update(p, v) & 0x20 == p & 0x20,
        nz_update(p, v) & 0x40 == p & 0x40,
        nz_update(p, v) & 0x80 == (if v >= 128 {
            0x80u8
        } else {
            0u8
        }),
        nz_update(p, v) & 0x02 == (if v == 0 {
            0x02u8
        } else {
            0u8
        }),
        wf_p(p) ==> wf_p(nz_update(p, v)),
{
    lemma_shift_consts();
    let q = nz_update(p, v);
    assert(q == if v == 0 {
        (if v >= 128 {
            p | 0x80
        } else {
            p & 0x7F
        }) | 0x02
    } else {
        (if v >= 128 {
            p | 0x80
        } else {
            p & 0x7F
        }) & 0xFD
    });
    assert({
        let q = if v == 0 {
            (if v >= 128 {
                p | 0x80
            } else {
                p & 0x7F
            }) | 0x02
        } else {
            (if v >= 128 {
                p | 0x80
            } else {
                p & 0x7F
            }) & 0xFD
        };
        q & 0x01 == p & 0x01 && q & 0x04 == p & 0x04 && q & 0x08 == p & 0x08 && q & 0x10 == p
            & 0x10 && q & 0x20 == p & 0x20 && q & 0x40 == p & 0x40 && q & 0x80 == (if v >= 128 {
            0x80u8
        } else {
            0u8
        }) && q & 0x02 == (if v == 0 {
            0x02u8
        } else {
            0u8
        })
    }) by (bit_vector);
}

/// Setting or clearing one flag mask touches no other bit of the listed
/// masks, and a load of `p` is always well formed.
pub proof fn lemma_flag_masks(p: u8, on: bool)
    ensures
        wf_p(p) ==> wf_p(spec_set_flag(p, 0x01, on)),
        wf_p(p) ==> wf_p(spec_set_flag(p, 0x02, on)),
        wf_p(p) ==> wf_p(spec_set_flag(p, 0x04, on)),
        wf_p(p) ==> wf_p(spec_set_flag(p, 0x08, on)),
        wf_p(p) ==> wf_p(spec_set_flag(p, 0x40, on)),
        wf_p(p) ==> wf_p(spec_set_flag(p, 0x80, on)),
        wf_p(spec_load_p(p)),
{
    assert({
        &&& (p & 0x20 == 0x20 && p & 0x10 == 0) ==> ((p | 0x01) & 0x20 == 0x20 && (p | 0x01)
            & 0x10 == 0 && (p & 0xFE) & 0x20 == 0x20 && (p & 0xFE) & 0x10 == 0)
        &&& (p & 0x20 == 0x20 && p & 0x10 == 0) ==> ((p | 0x02) & 0x20 == 0x20 && (p | 0x02)
            & 0x10 == 0 && (p & 0xFD) & 0x20 == 0x20 && (p & 0xFD) & 0x10 == 0)
        &&& (p & 0x20 == 0x20 && p & 0x10 == 0) ==> ((p | 0x04) & 0x20 == 0x20 && (p | 0x04)
            & 0x10 == 0 && (p & 0xFB) & 0x20 == 0x20 && (p & 0xFB) & 0x10 == 0)
        &&& (p & 0x20 == 0x20 && p & 0x10 == 0) ==> ((p | 0x08) & 0x20 == 0x20 && (p | 0x08)
            & 0x10 == 0 && (p & 0xF7) & 0x20 == 0x20 && (p & 0xF7) & 0x10 == 0)
        &&& (p & 0x20 == 0x20 && p & 0x10 == 0) ==> ((p | 0x40) & 0x20 == 0x20 && (p | 0x40)
            & 0x10 == 0 && (p & 0xBF) & 0x20 == 0x20 && (p & 0xBF) & 0x10 == 0)
        &&& (p & 0x20 == 0x20 && p & 0x10 == 0) ==> ((p | 0x80) & 0x20 == 0x20 && (p | 0x80)
            & 0x10 == 0 && (p & 0x7F) & 0x20 == 0x20 && (p & 0x7F) & 0x10 == 0)
        &&& ((p & 0xEF) | 0x20) & 0x20 == 0x20 && ((p & 0xEF) | 0x20) & 0x10 == 0
    }) by (bit_vector);
    lemma_shift_consts();
}

/// 8-bit wrap-around addition, executable.
pub fn wrap_add8(a: u8, b: u8) -> (r: u8)
    ensures
        r == add8(a, b),
{
    let s: u16 = a as u16 + b as u16;
    (s % 256) as u8
}

/// 8-bit wrap-around subtraction, executable.
pub fn wrap_sub8(a: u8, b: u8) -> (r: u8)
    ensures
        r == sub8(a, b),
{
    let s: u16 = a as u16 + 256 - b as u16;
    (s % 256) as u8
}

/// 16-bit wrap-around addition, executable.
pub fn wrap_add16(a: u16, b: u16) -> (r: u16)
    ensures
        r == add16(a, b),
{
    let s: u32 = a as u32 + b as u32;
    (s % 0x10000) as u16
}

#[allow(non_snake_case)]
impl Cpu {
    /// A powered-off CPU: every register zero.
    pub fn new() -> (r: Cpu)
        ensures
            r.program_counter == 0 && r.reg_a == 0 && r.reg_x == 0 && r.reg_y == 0 && r.reg_s == 0
                && r.reg_p == 0,
    {
        Cpu { program_counter: 0, reg_a: 0, reg_x: 0, reg_y: 0, reg_s: 0, reg_p: 0 }
    }

    /// Power-on register seed: the stack pointer at 0xFD and `p` at 0x34,
    /// the value the hardware reports (the one store of `p` with the
    /// break bit set; every later load goes through `spec_load_p`).
    pub fn init(&mut self)
        ensures
            *final(self) == (Cpu { reg_p: 0x34, reg_s: 0xFD, ..*old(self) }),
    {
        self.reg_p = 0x34;
        self.reg_s = 0xFD;
    }

    /// Sets or clears one bit of `p`.
    pub fn setP(&mut self, flag: bool, bitpos: u8)
        requires
            bitpos < 8,
        ensures
            *final(self) == (Cpu {
                reg_p: spec_set_flag(old(self).reg_p, (1u8 << bitpos) as u8, flag),
                ..*old(self)
            }),
    {
        if flag {
            self.reg_p = self.reg_p | (1u8 << bitpos);
        } else {
            self.reg_p = self.reg_p & !(1u8 << bitpos);
        }
    }

    /// Interrupt-disable flag.
    pub fn set_flag_i(&mut self, value: bool)
        ensures
            *final(self) == (Cpu {
                reg_p: spec_set_flag(old(self).reg_p, 0x04, value),
                ..*old(self)
            }),
    {
        proof {
            lemma_shift_consts();
        }
        self.setP(value, 2);
    }

    pub fn get_flag_i(&self) -> (r: bool)
        ensures
            r == (self.reg_p & 0x04 != 0),
    {
        (self.reg_p & 0x04) != 0
    }

    /// Break flag; it exists in the register only transiently, pushes are
    /// what carry it.
    pub fn set_flag_b(&mut self, value: bool)
        ensures
            *final(self) == (Cpu {
                reg_p: spec_set_flag(old(self).reg_p, 0x10, value),
                ..*old(self)
            }),
    {
        proof {
            lemma_shift_consts();
        }
        self.setP(value, 4);
    }

    /// Negative flag.
    pub fn set_flag_n(&mut self, value: bool)
        ensures
            *final(self) == (Cpu {
                reg_p: spec_set_flag(old(self).reg_p, 0x80, value),
                ..*old(self)
            }),
    {
        proof {
            lemma_shift_consts();
        }
        self.setP(value, 7);
    }

    pub fn get_flag_n(&self) -> (r: bool)
        ensures
            r == (self.reg_p & 0x80 != 0),
    {
        (self.reg_p & 0x80) != 0
    }

    /// Zero flag.
    pub fn set_flag_z(&mut self, value: bool)
        ensures
            *final(self) == (Cpu {
                reg_p: spec_set_flag(old(self).reg_p, 0x02, value),
                ..*old(self)
            }),
    {
        proof {
            lemma_shift_consts();
        }
        self.setP(value, 1);
    }

    pub fn get_flag_z(&self) -> (r: bool)
        ensures
            r == (self.reg_p & 0x02 != 0),
    {
        (self.reg_p & 0x02) != 0
    }

    /// Carry flag.
    pub fn set_flag_c(&mut self, value: bool)
        ensures
            *final(self) == (Cpu {
                reg_p: spec_set_flag(old(self).reg_p, 0x01, value),
                ..*old(self)
            }),
    {
        proof {
            lemma_shift_consts();
        }
        self.setP(value, 0);
    }

    pub fn get_flag_c(&self) -> (r: bool)
        ensures
            r == (self.reg_p & 0x01 != 0),
    {
        (self.reg_p & 0x01) != 0
    }

    /// Overflow flag.
    pub fn set_flag_v(&mut self, value: bool)
        ensures
            *final(self) == (Cpu {
                reg_p: spec_set_flag(old(self).reg_p, 0x40, value),
                ..*old(self)
            }),
    {
        proof {
            lemma_shift_consts();
        }
        self.setP(value, 6);
    }

    pub fn get_flag_v(&self) -> (r: bool)
        ensures
            r == (self.reg_p & 0x40 != 0),
    {
        (self.reg_p & 0x40) != 0
    }

    /// Loads `p` as PLP and RTI do: break cleared, bit 5 forced set.
    pub fn set_reg_p(&mut self, value: u8)
        ensures
            *final(self) == (Cpu { reg_p: spec_load_p(value), ..*old(self) }),
            wf_p(final(self).reg_p),
    {
        proof {
            lemma_flag_masks(value, true);
        }
        self.reg_p = (value & 0xEF) | 0x20;
    }

    /// Refreshes the negative and zero flags from a result byte.
    pub fn eval_NZ(&mut self, data: u8)
        ensures
            *final(self) == (Cpu { reg_p: nz_update(old(self).reg_p, data), ..*old(self) }),
    {
        if data < 128 {
            self.set_flag_n(false);
        } else {
            self.set_flag_n(true);
        }
        if data == 0 {
            self.set_flag_z(true);
        } else {
            self.set_flag_z(false);
        }
    }

    /// TXS: S takes X; no flags change.
    pub fn op_txs(&mut self)
        ensures
            *final(self) == (Cpu { reg_s: old(self).reg_x, ..*old(self) }),
    {
        self.reg_s = self.reg_x;
    }

    /// TSX: X takes S, NZ follow it.
    pub fn op_tsx(&mut self)
        ensures
            *final(self) == (Cpu {
                reg_x: old(self).reg_s,
                reg_p: nz_update(old(self).reg_p, old(self).reg_s),
                ..*old(self)
            }),
            wf_p(old(self).reg_p) ==> wf_p(final(self).reg_p),
    {
        self.eval_NZ(self.reg_s);
        self.reg_x = self.reg_s;
        proof {
            lemma_nz_update(old(self).reg_p, old(self).reg_s);
        }
    }

    /// TAX: X takes A, NZ follow it.
    pub fn op_tax(&mut self)
        ensures
            *final(self) == spec_tax(*old(self)),
            wf_p(old(self).reg_p) ==> wf_p(final(self).reg_p),
    {
        proof {
            lemma_nz_update(old(self).reg_p, old(self).reg_a);
        }
        self.eval_NZ(self.reg_a);
        self.reg_x = self.reg_a;
    }

    /// TXA: A takes X, NZ follow it.
    pub fn op_txa(&mut self)
        ensures
            *final(self) == spec_txa(*old(self)),
            wf_p(old(self).reg_p) ==> wf_p(final(self).reg_p),
    {
        proof {
            lemma_nz_update(old(self).reg_p, old(self).reg_x);
        }
        self.eval_NZ(self.reg_x);
        self.reg_a = self.reg_x;
    }

    /// TYA: A takes Y, NZ follow it.
    pub fn op_tya(&mut self)
        ensures
            *final(self) == spec_tya(*old(self)),
            wf_p(old(self).reg_p) ==> wf_p(final(self).reg_p),
    {
        proof {
            lemma_nz_update(old(self).reg_p, old(self).reg_y);
        }
        self.eval_NZ(self.reg_y);
        self.reg_a = self.reg_y;
    }

    /// TAY: Y takes A, NZ follow it.
    pub fn op_tay(&mut self)
        ensures
            *final(self) == spec_tay(*old(self)),
            wf_p(old(self).reg_p) ==> wf_p(final(self).reg_p),
    {
        proof {
            lemma_nz_update(old(self).reg_p, old(self).reg_a);
        }
        self.eval_NZ(self.reg_a);
        self.reg_y = self.reg_a;
    }

    /// The shared flag outcome of CMP, CPX and CPY.
    pub fn set_reg_at_compare(&mut self, reg: u8, value: u8)
        ensures
            *final(self) == (Cpu {
                reg_p: compare_flags(old(self).reg_p, reg, value),
                ..*old(self)
            }),
    {
        if reg >= value {
            self.set_flag_c(true);
        } else {
            self.set_flag_c(false);
        }
        if reg == value {
            self.set_flag_z(true);
        } else {
            self.set_flag_z(false);
        }
        if wrap_sub8(reg, value) & 0x80 > 0 {
            self.set_flag_n(true);
        } else {
            self.set_flag_n(false);
        }
    }

    /// SBC's arithmetic on an operand byte already in hand.
    pub fn op_sbc_impl(&mut self, value: u8)
        ensures
            *final(self) == spec_sbc(*old(self), value),
    {
        let carry: u8 = self.reg_p & 0x01;
        let not_carry: u16 = if carry > 0 {
            0
        } else {
            1
        };
        let wide: u16 = self.reg_a as u16 + 256;
        let res_wide: u16 = wide - value as u16 - not_carry;
        let reg_a_old = self.reg_a;
        let r = (res_wide % 256) as u8;
        self.reg_a = r;
        self.eval_NZ(r);
        if res_wide >= 256 {
            self.set_flag_c(true);
        } else {
            self.set_flag_c(false);
        }
        let borrowed_value: u8 = value ^ 0xFF;
        if (r ^ borrowed_value) & (r ^ reg_a_old) & 0x80 > 0 {
            self.set_flag_v(true);
        } else {
            self.set_flag_v(false);
        }
    }

    /// LSR on a byte: shifts right, carry takes the bit shifted out, NZ
    /// follow the result.
    pub fn op_lsr_impl(&mut self, data: u8) -> (r: u8)
        ensures
            r == data >> 1u8,
            *final(self) == (Cpu {
                reg_p: spec_set_flag(
                    nz_update(old(self).reg_p, data >> 1u8),
                    0x01,
                    data & 1 != 0,
                ),
                ..*old(self)
            }),
    {
        let carry: u8 = data & 0x01;
        let result: u8 = data >> 1;
        self.eval_NZ(result);
        if carry > 0 {
            self.set_flag_c(true);
        } else {
            self.set_flag_c(false);
        }
        result
    }

    /// LSR on the accumulator.
    pub fn op_lsr(&mut self)
        ensures
            *final(self) == (Cpu {
                reg_a: old(self).reg_a >> 1u8,
                reg_p: spec_set_flag(
                    nz_update(old(self).reg_p, old(self).reg_a >> 1u8),
                    0x01,
                    old(self).reg_a & 1 != 0,
                ),
                ..*old(self)
            }),
            wf_p(old(self).reg_p) ==> wf_p(final(self).reg_p),
    {
        let r = self.op_lsr_impl(self.reg_a);
        self.reg_a = r;
        proof {
            lemma_wf_p_arith(old(self).reg_p, old(self).reg_a >> 1u8, old(self).reg_a & 1 != 0,
                true);
        }
    }

    /// ROR on a byte: shifts right, the old carry enters bit 7, carry
    /// takes the bit shifted out, NZ follow the result.
    pub fn op_ror_impl(&mut self, data: u8) -> (r: u8)
        ensures
            r == spec_ror_val(data, old(self).reg_p),
            *final(self) == (Cpu {
                reg_p: spec_set_flag(
                    nz_update(old(self).reg_p, spec_ror_val(data, old(self).reg_p)),
                    0x01,
                    data & 1 != 0,
                ),
                ..*old(self)
            }),
    {
        let carry_in: u8 = if self.get_flag_c() {
            0x80
        } else {
            0
        };
        let output_carry: u8 = data & 0x01;
        proof {
            assert(data >> 1u8 < 128) by (bit_vector);
        }
        let result: u8 = (data >> 1) + carry_in;
        self.eval_NZ(result);
        if output_carry > 0 {
            self.set_flag_c(true);
        } else {
            self.set_flag_c(false);
        }
        result
    }

    /// ROR on the accumulator.
    pub fn op_ror(&mut self)
        ensures
            *final(self) == (Cpu {
                reg_a: spec_ror_val(old(self).reg_a, old(self).reg_p),
                reg_p: spec_set_flag(
                    nz_update(old(self).reg_p, spec_ror_val(old(self).reg_a, old(self).reg_p)),
                    0x01,
                    old(self).reg_a & 1 != 0,
                ),
                ..*old(self)
            }),
            wf_p(old(self).reg_p) ==> wf_p(final(self).reg_p),
    {
        let r = self.op_ror_impl(self.reg_a);
        self.reg_a = r;
        proof {
            lemma_wf_p_arith(
                old(self).reg_p,
                spec_ror_val(old(self).reg_a, old(self).reg_p),
                old(self).reg_a & 1 != 0,
                true,
            );
        }
    }

    /// ROL on a byte: shifts left, the old carry enters bit 0, carry
    /// takes the bit shifted out, NZ follow the result.
    pub fn op_rol_impl(&mut self, data: u8) -> (r: u8)
        ensures
            r == spec_rol_val(data, old(self).reg_p),
            *final(self) == (Cpu {
                reg_p: spec_set_flag(
                    nz_update(old(self).reg_p, spec_rol_val(data, old(self).reg_p)),
                    0x01,
                    data >= 128,
                ),
                ..*old(self)
            }),
    {
        let carry_in: u8 = if self.get_flag_c() {
            1
        } else {
            0
        };
        let output_carry: u8 = if data >= 128 {
            1
        } else {
            0
        };
        let wide: u16 = data as u16 * 2;
        let result: u8 = (wide % 256) as u8 + carry_in;
        self.eval_NZ(result);
        if output_carry > 0 {
            self.set_flag_c(true);
        } else {
            self.set_flag_c(false);
        }
        result
    }

    /// ROL on the accumulator.
    pub fn op_rol(&mut self)
        ensures
            *final(self) == (Cpu {
                reg_a: spec_rol_val(old(self).reg_a, old(self).reg_p),
                reg_p: spec_set_flag(
                    nz_update(old(self).reg_p, spec_rol_val(old(self).reg_a, old(self).reg_p)),
                    0x01,
                    old(self).reg_a >= 128,
                ),
                ..*old(self)
            }),
            wf_p(old(self).reg_p) ==> wf_p(final(self).reg_p),
    {
        let r = self.op_rol_impl(self.reg_a);
        self.reg_a = r;
        proof {
            lemma_wf_p_arith(
                old(self).reg_p,
                spec_rol_val(old(self).reg_a, old(self).reg_p),
                old(self).reg_a >= 128,
                true,
            );
        }
    }

    /// ASL on the accumulator: shifts left, carry takes the bit shifted
    /// out, NZ follow the result.
    pub fn op_asl(&mut self)
        ensures
            *final(self) == (Cpu {
                reg_a: ((old(self).reg_a * 2) % 256) as u8,
                reg_p: spec_set_flag(
                    nz_update(old(self).reg_p, ((old(self).reg_a * 2) % 256) as u8),
                    0x01,
                    old(self).reg_a >= 128,
                ),
                ..*old(self)
            }),
            wf_p(old(self).reg_p) ==> wf_p(final(self).reg_p),
    {
        proof {
            lemma_wf_p_arith(
                old(self).reg_p,
                ((old(self).reg_a * 2) % 256) as u8,
                old(self).reg_a >= 128,
                true,
            );
        }
        let wide: u16 = self.reg_a as u16 * 2;
        let r = (wide % 256) as u8;
        self.reg_a = r;
        self.eval_NZ(r);
        if wide >= 0x100 {
            self.set_flag_c(true);
        } else {
            self.set_flag_c(false);
        }
    }

    /// INX: X wraps up by one, NZ follow it.
    pub fn op_inx(&mut self)
        ensures
            *final(self) == (Cpu {
                reg_x: add8(old(self).reg_x, 1),
                reg_p: nz_update(old(self).reg_p, add8(old(self).reg_x, 1)),
                ..*old(self)
            }),
            wf_p(old(self).reg_p) ==> wf_p(final(self).reg_p),
    {
        proof {
            lemma_nz_update(old(self).reg_p, add8(old(self).reg_x, 1));
        }
        let r = wrap_add8(self.reg_x, 1);
        self.reg_x = r;
        self.eval_NZ(r);
    }

    /// INY: Y wraps up by one, NZ follow it.
    pub fn op_iny(&mut self)
        ensures
            *final(self) == (Cpu {
                reg_y: add8(old(self).reg_y, 1),
                reg_p: nz_update(old(self).reg_p, add8(old(self).reg_y, 1)),
                ..*old(self)
            }),
            wf_p(old(self).reg_p) ==> wf_p(final(self).reg_p),
    {
        proof {
            lemma_nz_update(old(self).reg_p, add8(old(self).reg_y, 1));
        }
        let r = wrap_add8(self.reg_y, 1);
        self.reg_y = r;
        self.eval_NZ(r);
    }

    /// DEX: X wraps down by one, NZ follow it.
    pub fn op_dex(&mut self)
        ensures
            *final(self) == (Cpu {
                reg_x: sub8(old(self).reg_x, 1),
                reg_p: nz_update(old(self).reg_p, sub8(old(self).reg_x, 1)),
                ..*old(self)
            }),
            wf_p(old(self).reg_p) ==> wf_p(final(self).reg_p),
    {
        proof {
            lemma_nz_update(old(self).reg_p, sub8(old(self).reg_x, 1));
        }
        let r = wrap_sub8(self.reg_x, 1);
        self.reg_x = r;
        self.eval_NZ(r);
    }

    /// DEY: Y wraps down by one, NZ follow it.
    pub fn op_dey(&mut self)
        ensures
            *final(self) == (Cpu {
                reg_y: sub8(old(self).reg_y, 1),
                reg_p: nz_update(old(self).reg_p, sub8(old(self).reg_y, 1)),
                ..*old(self)
            }),
            wf_p(old(self).reg_p) ==> wf_p(final(self).reg_p),
    {
        proof {
            lemma_nz_update(old(self).reg_p, sub8(old(self).reg_y, 1));
        }
        let r = wrap_sub8(self.reg_y, 1);
        self.reg_y = r;
        self.eval_NZ(r);
    }

    /// CLC: clears carry.
    pub fn op_clc(&mut self)
        ensures
            *final(self) == (Cpu { reg_p: (old(self).reg_p & 0xFE) as u8, ..*old(self) }),
            wf_p(old(self).reg_p) ==> wf_p(final(self).reg_p),
    {
        proof {
            lemma_wf_p_masks(old(self).reg_p);
        }
        self.reg_p = self.reg_p & 0xFE;
    }

    /// CLD: clears the decimal flag (stored but never used for
    /// arithmetic on this CPU variant).
    pub fn op_cld(&mut self)
        ensures
            *final(self) == (Cpu { reg_p: (old(self).reg_p & 0xF7) as u8, ..*old(self) }),
            wf_p(old(self).reg_p) ==> wf_p(final(self).reg_p),
    {
        proof {
            lemma_wf_p_masks(old(self).reg_p);
        }
        self.reg_p = self.reg_p & 0xF7;
    }

    /// CLV: clears overflow.
    pub fn op_clv(&mut self)
        ensures
            *final(self) == (Cpu { reg_p: (old(self).reg_p & 0xBF) as u8, ..*old(self) }),
            wf_p(old(self).reg_p) ==> wf_p(final(self).reg_p),
    {
        proof {
            lemma_wf_p_masks(old(self).reg_p);
        }
        self.reg_p = self.reg_p & 0xBF;
    }

    /// SEC: sets carry.
    pub fn op_sec(&mut self)
        ensures
            *final(self) == (Cpu { reg_p: (old(self).reg_p | 0x01) as u8, ..*old(self) }),
            wf_p(old(self).reg_p) ==> wf_p(final(self).reg_p),
    {
        proof {
            lemma_wf_p_masks(old(self).reg_p);
        }
        self.reg_p = self.reg_p | 0x01;
    }

    /// SED: sets the decimal flag.
    pub fn op_sed(&mut self)
        ensures
            *final(self) == (Cpu { reg_p: (old(self).reg_p | 0x08) as u8, ..*old(self) }),
            wf_p(old(self).reg_p) ==> wf_p(final(self).reg_p),
    {
        proof {
            lemma_wf_p_masks(old(self).reg_p);
        }
        self.reg_p = self.reg_p | 0x08;
    }
}

/// The byte ROR produces: right shift with the old carry entering bit 7.
pub open spec fn spec_ror_val(v: u8, p: u8) -> u8 {
    ((v >> 1u8) + if p & 1 != 0 {
        0x80int
    } else {
        0int
    }) as u8
}

/// The byte ROL produces: left shift with the old carry entering bit 0.
pub open spec fn spec_rol_val(v: u8, p: u8) -> u8 {
    ((v * 2) % 256 + if p & 1 != 0 {
        1int
    } else {
        0int
    }) as u8
}

/// The address of the byte after the opcode.
pub open spec fn pc1(c: Cpu) -> u16 {
    add16(c.program_counter, 1)
}

/// The immediate byte: the bus byte after the opcode.
pub open spec fn im8_val(c: Cpu, m: MemV) -> u8 {
    bus_read_val(m, pc1(c))
}

pub open spec fn im8_upd(c: Cpu, m: MemV) -> MemV {
    bus_read_upd(m, pc1(c))
}

/// The immediate word: the two bus bytes after the opcode, low first.
pub open spec fn im16_val(c: Cpu, m: MemV) -> u16 {
    spec_read16_val(m, pc1(c))
}

pub open spec fn im16_upd(c: Cpu, m: MemV) -> MemV {
    spec_read16_upd(m, pc1(c))
}

/// The effective address each addressing mode resolves to, exactly as
/// the hardware forms it: zero-page indexing wraps to 8 bits, absolute
/// indexing wraps to 16, the indirect modes read their pointers with the
/// zero-page and in-page wrap-arounds.
pub open spec fn operand_addr_val(c: Cpu, m: MemV, mode: Addressing) -> u16 {
    match mode {
        Addressing::ZeroPage => im8_val(c, m) as u16,
        Addressing::ZeroPageX => add8(im8_val(c, m), c.reg_x) as u16,
        Addressing::ZeroPageY => add8(im8_val(c, m), c.reg_y) as u16,
        Addressing::Absolute => im16_val(c, m),
        Addressing::AbsoluteX => add16(im16_val(c, m), c.reg_x as u16),
        Addressing::AbsoluteY => add16(im16_val(c, m), c.reg_y as u16),
        Addressing::Indirect => spec_read16_page_val(im16_upd(c, m), im16_val(c, m)),
        Addressing::IndirectX => spec_read16_zp_val(im8_upd(c, m), add8(im8_val(c, m), c.reg_x)),
        Addressing::Indirect_Y => add16(
            spec_read16_zp_val(im8_upd(c, m), im8_val(c, m)),
            c.reg_y as u16,
        ),
        _ => 0,
    }
}

/// The bus state after resolving an effective address.
pub open spec fn operand_addr_upd(c: Cpu, m: MemV, mode: Addressing) -> MemV {
    match mode {
        Addressing::ZeroPage => im8_upd(c, m),
        Addressing::ZeroPageX => im8_upd(c, m),
        Addressing::ZeroPageY => im8_upd(c, m),
        Addressing::Absolute => im16_upd(c, m),
        Addressing::AbsoluteX => im16_upd(c, m),
        Addressing::AbsoluteY => im16_upd(c, m),
        Addressing::Indirect => spec_read16_page_upd(im16_upd(c, m), im16_val(c, m)),
        Addressing::IndirectX => spec_read16_zp_upd(im8_upd(c, m), add8(im8_val(c, m), c.reg_x)),
        Addressing::Indirect_Y => spec_read16_zp_upd(im8_upd(c, m), im8_val(c, m)),
        _ => m,
    }
}

/// Whether indexing crossed a page: the one-cycle penalty of non-store
/// operations in the absolute-X, absolute-Y and indirect-Y modes.
pub open spec fn operand_addr_cross(c: Cpu, m: MemV, mode: Addressing) -> bool {
    match mode {
        Addressing::AbsoluteX => im16_val(c, m) & 0xFF00 != add16(
            im16_val(c, m),
            c.reg_x as u16,
        ) & 0xFF00,
        Addressing::AbsoluteY => im16_val(c, m) & 0xFF00 != add16(
            im16_val(c, m),
            c.reg_y as u16,
        ) & 0xFF00,
        Addressing::Indirect_Y => {
            let base = spec_read16_zp_val(im8_upd(c, m), im8_val(c, m));
            base & 0xFF00 != add16(base, c.reg_y as u16) & 0xFF00
        },
        _ => false,
    }
}

/// The one-cycle page-crossing penalty as a cycle count.
pub open spec fn cross_extra(c: Cpu, m: MemV, mode: Addressing) -> u32 {
    if operand_addr_cross(c, m, mode) {
        1
    } else {
        0
    }
}

/// The operand byte a mode hands the operation: the immediate byte, or
/// the bus byte at the effective address. Modes without an operand byte
/// give zero.
pub open spec fn operand_val(c: Cpu, m: MemV, mode: Addressing) -> u8 {
    match mode {
        Addressing::Immediate => im8_val(c, m),
        Addressing::Implied => 0,
        Addressing::Accumulator => 0,
        Addressing::Relative => 0,
        _ => bus_read_val(operand_addr_upd(c, m, mode), operand_addr_val(c, m, mode)),
    }
}

/// The bus state after fetching the operand byte.
pub open spec fn operand_upd(c: Cpu, m: MemV, mode: Addressing) -> MemV {
    match mode {
        Addressing::Immediate => im8_upd(c, m),
        Addressing::Implied => m,
        Addressing::Accumulator => m,
        Addressing::Relative => m,
        _ => bus_read_upd(operand_addr_upd(c, m, mode), operand_addr_val(c, m, mode)),
    }
}

#[allow(non_snake_case)]
impl Cpu {
    /// The immediate word after the opcode.
    pub fn getIm16(&self, memory_map: &mut MemoryMap) -> (r: u16)
        requires
            mem_wf(old(memory_map)@),
        ensures
            r == im16_val(*self, old(memory_map)@),
            final(memory_map)@ == im16_upd(*self, old(memory_map)@),
            mem_wf(final(memory_map)@),
    {
        memory_map.get_from_address16(wrap_add16(self.program_counter, 1))
    }

    /// The immediate byte after the opcode.
    pub fn getIm8(&self, memory_map: &mut MemoryMap) -> (r: u8)
        requires
            mem_wf(old(memory_map)@),
        ensures
            r == im8_val(*self, old(memory_map)@),
            final(memory_map)@ == im8_upd(*self, old(memory_map)@),
            mem_wf(final(memory_map)@),
    {
        memory_map.get_from_address(wrap_add16(self.program_counter, 1))
    }

    /// Resolves an addressing mode to its effective address, and reports
    /// whether indexing crossed a page.
    pub fn get_operand_address(&self, addressing: &Addressing, memory_map: &mut MemoryMap) -> (r:
        (u16, bool))
        requires
            mem_wf(old(memory_map)@),
        ensures
            r.0 == operand_addr_val(*self, old(memory_map)@, *addressing),
            r.1 == operand_addr_cross(*self, old(memory_map)@, *addressing),
            final(memory_map)@ == operand_addr_upd(*self, old(memory_map)@, *addressing),
            mem_wf(final(memory_map)@),
    {
        match addressing {
            Addressing::ZeroPage => {
                let imm = self.getIm8(memory_map);
                (imm as u16, false)
            },
            Addressing::ZeroPageX => {
                let imm = self.getIm8(memory_map);
                (wrap_add8(imm, self.reg_x) as u16, false)
            },
            Addressing::ZeroPageY => {
                let imm = self.getIm8(memory_map);
                (wrap_add8(imm, self.reg_y) as u16, false)
            },
            Addressing::Absolute => {
                let imm = self.getIm16(memory_map);
                (imm, false)
            },
            Addressing::AbsoluteX => {
                let imm = self.getIm16(memory_map);
                let a = wrap_add16(imm, self.reg_x as u16);
                (a, imm & 0xFF00 != a & 0xFF00)
            },
            Addressing::AbsoluteY => {
                let imm = self.getIm16(memory_map);
                let a = wrap_add16(imm, self.reg_y as u16);
                (a, imm & 0xFF00 != a & 0xFF00)
            },
            Addressing::Indirect => {
                let imm = self.getIm16(memory_map);
                let a = memory_map.get_from_address_in_page(imm);
                (a, false)
            },
            Addressing::IndirectX => {
                let imm = self.getIm8(memory_map);
                let ptr = wrap_add8(imm, self.reg_x);
                let a = memory_map.get_from_address16_by_address8(ptr);
                (a, false)
            },
            Addressing::Indirect_Y => {
                let imm = self.getIm8(memory_map);
                let base = memory_map.get_from_address16_by_address8(imm);
                let a = wrap_add16(base, self.reg_y as u16);
                (a, base & 0xFF00 != a & 0xFF00)
            },
            _ => (0, false),
        }
    }

    /// Fetches the operand byte of a mode, and reports the page-crossing
    /// penalty.
    pub fn get_operand(&self, addressing: &Addressing, memory_map: &mut MemoryMap) -> (r: (
        u8,
        bool,
    ))
        requires
            mem_wf(old(memory_map)@),
        ensures
            r.0 == operand_val(*self, old(memory_map)@, *addressing),
            r.1 == operand_addr_cross(*self, old(memory_map)@, *addressing),
            final(memory_map)@ == operand_upd(*self, old(memory_map)@, *addressing),
            mem_wf(final(memory_map)@),
    {
        match addressing {
            Addressing::Immediate => {
                let v = self.getIm8(memory_map);
                (v, false)
            },
            Addressing::Implied => (0, false),
            Addressing::Accumulator => (0, false),
            Addressing::Relative => (0, false),
            _ => {
                let (a, crossed) = self.get_operand_address(addressing, memory_map);
                let v = memory_map.get_from_address(a);
                (v, crossed)
            },
        }
    }
}

/// Registers after AND of an operand byte.
pub open spec fn spec_and(c: Cpu, v: u8) -> Cpu {
    Cpu { reg_a: c.reg_a & v, reg_p: nz_update(c.reg_p, c.reg_a & v), ..c }
}

/// Registers after EOR of an operand byte.
pub open spec fn spec_eor(c: Cpu, v: u8) -> Cpu {
    Cpu { reg_a: c.reg_a ^ v, reg_p: nz_update(c.reg_p, c.reg_a ^ v), ..c }
}

/// Registers after ORA of an operand byte.
pub open spec fn spec_ora(c: Cpu, v: u8) -> Cpu {
    Cpu { reg_a: c.reg_a | v, reg_p: nz_update(c.reg_p, c.reg_a | v), ..c }
}

/// The flags BIT leaves: negative and overflow copied from bits 7 and 6
/// of the operand, zero from the masked accumulator.
pub open spec fn spec_bit_flags(p: u8, a: u8, v: u8) -> u8 {
    spec_set_flag(
        spec_set_flag(spec_set_flag(p, 0x80, v & 0x80 != 0), 0x40, v & 0x40 != 0),
        0x02,
        a & v == 0,
    )
}

/// CPU and bus after an ASL on memory: one address resolution, a read,
/// the shifted byte written back.
pub open spec fn spec_asl_mem(c: Cpu, m: MemV, mode: Addressing) -> (Cpu, MemV) {
    let a = operand_addr_val(c, m, mode);
    let m1 = operand_addr_upd(c, m, mode);
    let v = bus_read_val(m1, a);
    let m2 = bus_read_upd(m1, a);
    let r = ((v * 2) % 256) as u8;
    (
        Cpu { reg_p: spec_set_flag(nz_update(c.reg_p, r), 0x01, v >= 128), ..c },
        bus_write_upd(m2, a, r),
    )
}

/// CPU and bus after an LSR on memory: the operand is fetched, the
/// address resolved a second time for the write-back, as the access
/// pattern of the interpreter has it.
pub open spec fn spec_lsr_mem(c: Cpu, m: MemV, mode: Addressing) -> (Cpu, MemV) {
    let v = operand_val(c, m, mode);
    let m1 = operand_upd(c, m, mode);
    let r = v >> 1u8;
    let c1 = Cpu { reg_p: spec_set_flag(nz_update(c.reg_p, r), 0x01, v & 1 != 0), ..c };
    let a2 = operand_addr_val(c1, m1, mode);
    let m2 = operand_addr_upd(c1, m1, mode);
    (c1, bus_write_upd(m2, a2, r))
}

/// CPU and bus after a ROR on memory, with the same double resolution.
pub open spec fn spec_ror_mem(c: Cpu, m: MemV, mode: Addressing) -> (Cpu, MemV) {
    let v = operand_val(c, m, mode);
    let m1 = operand_upd(c, m, mode);
    let r = spec_ror_val(v, c.reg_p);
    let c1 = Cpu { reg_p: spec_set_flag(nz_update(c.reg_p, r), 0x01, v & 1 != 0), ..c };
    let a2 = operand_addr_val(c1, m1, mode);
    let m2 = operand_addr_upd(c1, m1, mode);
    (c1, bus_write_upd(m2, a2, r))
}

/// CPU and bus after a ROL on memory, with the same double resolution.
pub open spec fn spec_rol_mem(c: Cpu, m: MemV, mode: Addressing) -> (Cpu, MemV) {
    let v = operand_val(c, m, mode);
    let m1 = operand_upd(c, m, mode);
    let r = spec_rol_val(v, c.reg_p);
    let c1 = Cpu { reg_p: spec_set_flag(nz_update(c.reg_p, r), 0x01, v >= 128), ..c };
    let a2 = operand_addr_val(c1, m1, mode);
    let m2 = operand_addr_upd(c1, m1, mode);
    (c1, bus_write_upd(m2, a2, r))
}

/// CPU and bus after INC on memory.
pub open spec fn spec_inc_mem(c: Cpu, m: MemV, mode: Addressing) -> (Cpu, MemV) {
    let a = operand_addr_val(c, m, mode);
    let m1 = operand_addr_upd(c, m, mode);
    let v = bus_read_val(m1, a);
    let m2 = bus_read_upd(m1, a);
    let r = add8(v, 1);
    (Cpu { reg_p: nz_update(c.reg_p, r), ..c }, bus_write_upd(m2, a, r))
}

/// CPU and bus after DEC on memory.
pub open spec fn spec_dec_mem(c: Cpu, m: MemV, mode: Addressing) -> (Cpu, MemV) {
    let a = operand_addr_val(c, m, mode);
    let m1 = operand_addr_upd(c, m, mode);
    let v = bus_read_val(m1, a);
    let m2 = bus_read_upd(m1, a);
    let r = sub8(v, 1);
    (Cpu { reg_p: nz_update(c.reg_p, r), ..c }, bus_write_upd(m2, a, r))
}

/// CPU and bus after the undocumented DCP: decrement memory, then
/// compare the accumulator with the result.
pub open spec fn spec_dcm(c: Cpu, m: MemV, mode: Addressing) -> (Cpu, MemV) {
    let v = operand_val(c, m, mode);
    let m1 = operand_upd(c, m, mode);
    let r = sub8(v, 1);
    let a2 = operand_addr_val(c, m1, mode);
    let m2 = operand_addr_upd(c, m1, mode);
    (
        Cpu { reg_p: compare_flags(c.reg_p, c.reg_a, r), ..c },
        bus_write_upd(m2, a2, r),
    )
}

/// CPU and bus after the undocumented ISB: increment memory, then SBC
/// the result.
pub open spec fn spec_isc(c: Cpu, m: MemV, mode: Addressing) -> (Cpu, MemV) {
    let v = operand_val(c, m, mode);
    let m1 = operand_upd(c, m, mode);
    let r = add8(v, 1);
    let a2 = operand_addr_val(c, m1, mode);
    let m2 = operand_addr_upd(c, m1, mode);
    (spec_sbc(c, r), bus_write_upd(m2, a2, r))
}

/// Where the stack pointer points: page one.
pub open spec fn stack_addr(s: u8) -> u16 {
    (0x100 + s) as u16
}

/// CPU and bus after a push of one byte.
pub open spec fn spec_push(c: Cpu, m: MemV, v: u8) -> (Cpu, MemV) {
    (Cpu { reg_s: sub8(c.reg_s, 1), ..c }, bus_write_upd(m, stack_addr(c.reg_s), v))
}

/// CPU and bus after PHA.
pub open spec fn spec_pha(c: Cpu, m: MemV) -> (Cpu, MemV) {
    spec_push(c, m, c.reg_a)
}

/// CPU and bus after PHP: the pushed copy has break and bit 5 set.
pub open spec fn spec_php(c: Cpu, m: MemV) -> (Cpu, MemV) {
    spec_push(c, m, spec_push_p(c.reg_p))
}

/// CPU and bus after PLA: the pulled byte lands in A with NZ refreshed.
pub open spec fn spec_pla(c: Cpu, m: MemV) -> (Cpu, MemV) {
    let a = stack_addr(add8(c.reg_s, 1));
    let v = bus_read_val(m, a);
    (
        Cpu { reg_a: v, reg_p: nz_update(c.reg_p, v), reg_s: add8(c.reg_s, 1), ..c },
        bus_read_upd(m, a),
    )
}

/// CPU and bus after PLP: the pulled byte loads `p` through
/// `spec_load_p`.
pub open spec fn spec_plp(c: Cpu, m: MemV) -> (Cpu, MemV) {
    let a = stack_addr(add8(c.reg_s, 1));
    let v = bus_read_val(m, a);
    (Cpu { reg_p: spec_load_p(v), reg_s: add8(c.reg_s, 1), ..c }, bus_read_upd(m, a))
}

/// CPU and bus after RTS: the program counter is pulled low byte first.
pub open spec fn spec_rts(c: Cpu, m: MemV) -> (Cpu, MemV) {
    let lo_a = stack_addr(add8(c.reg_s, 1));
    let hi_a = stack_addr(add8(c.reg_s, 2));
    let lo = bus_read_val(m, lo_a);
    let m1 = bus_read_upd(m, lo_a);
    let hi = bus_read_val(m1, hi_a);
    (
        Cpu { program_counter: (hi * 256 + lo) as u16, reg_s: add8(c.reg_s, 2), ..c },
        bus_read_upd(m1, hi_a),
    )
}

/// CPU and bus after RTI: `p` is pulled first, then the program counter.
pub open spec fn spec_rti(c: Cpu, m: MemV) -> (Cpu, MemV) {
    let (c1, m1) = spec_plp(c, m);
    let (c2, m2) = spec_rts(c1, m1);
    (c2, m2)
}

/// CPU and bus after JSR: the address of the call's last byte is pushed
/// high byte first, then control transfers.
pub open spec fn spec_jsr(c: Cpu, m: MemV) -> (Cpu, MemV) {
    let target = im16_val(c, m);
    let m1 = im16_upd(c, m);
    let ret = add16(c.program_counter, 2);
    let m2 = bus_write_upd(m1, stack_addr(c.reg_s), (ret / 256) as u8);
    let m3 = bus_write_upd(m2, stack_addr(sub8(c.reg_s, 1)), (ret % 256) as u8);
    (Cpu { program_counter: target, reg_s: sub8(c.reg_s, 2), ..c }, m3)
}

/// CPU and bus after a non-maskable interrupt: the return address and a
/// break-clear copy of `p` are pushed, interrupts are disabled, and
/// control moves to the vector at 0xFFFA. The I flag does not gate this.
pub open spec fn spec_nmi(c: Cpu, m: MemV) -> (Cpu, MemV) {
    let (c1, m1) = spec_push(c, m, (c.program_counter / 256) as u8);
    let (c2, m2) = spec_push(c1, m1, (c.program_counter % 256) as u8);
    let (c3, m3) = spec_push(c2, m2, spec_load_p(c.reg_p));
    (
        Cpu {
            program_counter: spec_read16_val(m3, 0xFFFA),
            reg_p: c.reg_p | 0x04,
            reg_s: c3.reg_s,
            ..c
        },
        spec_read16_upd(m3, 0xFFFA),
    )
}

/// CPU and bus after BRK: like an interrupt through 0xFFFE, with break
/// set in the pushed copy of `p`.
pub open spec fn spec_brk(c: Cpu, m: MemV) -> (Cpu, MemV) {
    let ret = add16(c.program_counter, 2);
    let (c1, m1) = spec_push(c, m, (ret / 256) as u8);
    let (c2, m2) = spec_push(c1, m1, (ret % 256) as u8);
    let (c3, m3) = spec_push(c2, m2, spec_push_p(c.reg_p));
    (
        Cpu {
            program_counter: spec_read16_val(m3, 0xFFFE),
            reg_p: c.reg_p | 0x04,
            reg_s: c3.reg_s,
            ..c
        },
        spec_read16_upd(m3, 0xFFFE),
    )
}

/// CPU and bus after a branch: when taken, the sign-extended offset is
/// added to the program counter (the interpreter then steps past the
/// two instruction bytes, so the offset is relative to the next
/// instruction).
pub open spec fn spec_branch(c: Cpu, m: MemV, taken: bool) -> (Cpu, MemV) {
    if taken {
        (
            Cpu { program_counter: add16(c.program_counter, sign_ext(im8_val(c, m))), ..c },
            im8_upd(c, m),
        )
    } else {
        (c, m)
    }
}

/// The extra cycles of a branch: one when taken, another when the
/// target lies in a different page than the next instruction.
pub open spec fn spec_branch_extra(c: Cpu, m: MemV, taken: bool) -> u32 {
    if !taken {
        0
    } else if add16(add16(c.program_counter, sign_ext(im8_val(c, m))), 2) & 0xFF00 == add16(
        c.program_counter,
        2,
    ) & 0xFF00 {
        1
    } else {
        2
    }
}

/// Well-formedness of `p` survives an NZ refresh followed by optional
/// carry and overflow updates.
proof fn lemma_wf_p_arith(p: u8, v: u8, b1: bool, b2: bool)
    ensures
        wf_p(p) ==> wf_p(nz_update(p, v)),
        wf_p(p) ==> wf_p(spec_set_flag(nz_update(p, v), 0x01, b1)),
        wf_p(p) ==> wf_p(spec_set_flag(spec_set_flag(nz_update(p, v), 0x01, b1), 0x40, b2)),
{
    lemma_nz_update(p, v);
    lemma_flag_masks(nz_update(p, v), b1);
    lemma_flag_masks(spec_set_flag(nz_update(p, v), 0x01, b1), b2);
}

/// Well-formedness of `p` survives a compare.
proof fn lemma_wf_p_compare(p: u8, reg: u8, v: u8)
    ensures
        wf_p(p) ==> wf_p(compare_flags(p, reg, v)),
{
    lemma_flag_masks(p, reg >= v);
    lemma_flag_masks(spec_set_flag(p, 0x01, reg >= v), reg == v);
    lemma_flag_masks(
        spec_set_flag(spec_set_flag(p, 0x01, reg >= v), 0x02, reg == v),
        sub8(reg, v) & 0x80 != 0,
    );
}

/// Well-formedness of `p` survives the BIT flag update.
proof fn lemma_wf_p_bit(p: u8, a: u8, v: u8)
    ensures
        wf_p(p) ==> wf_p(spec_bit_flags(p, a, v)),
{
    lemma_flag_masks(p, v & 0x80 != 0);
    lemma_flag_masks(spec_set_flag(p, 0x80, v & 0x80 != 0), v & 0x40 != 0);
    lemma_flag_masks(
        spec_set_flag(spec_set_flag(p, 0x80, v & 0x80 != 0), 0x40, v & 0x40 != 0),
        a & v == 0,
    );
}

/// Well-formedness of `p` survives the single-mask flag instructions.
pub proof fn lemma_wf_p_masks(p: u8)
    ensures
        wf_p(p) ==> wf_p((p & 0xFE) as u8),
        wf_p(p) ==> wf_p((p & 0xF7) as u8),
        wf_p(p) ==> wf_p((p & 0xBF) as u8),
        wf_p(p) ==> wf_p((p | 0x01) as u8),
        wf_p(p) ==> wf_p((p | 0x08) as u8),
        wf_p(p) ==> wf_p((p | 0x04) as u8),
        wf_p(p) ==> wf_p(spec_set_flag(p, 0x04, true)),
        wf_p(p) ==> wf_p(spec_set_flag(p, 0x04, false)),
{
    assert((p & 0x20 == 0x20 && p & 0x10 == 0) ==> ((p & 0xFE) & 0x20 == 0x20 && (p & 0xFE)
        & 0x10 == 0 && (p & 0xF7) & 0x20 == 0x20 && (p & 0xF7) & 0x10 == 0 && (p & 0xBF) & 0x20
        == 0x20 && (p & 0xBF) & 0x10 == 0 && (p | 0x01) & 0x20 == 0x20 && (p | 0x01) & 0x10 == 0
        && (p | 0x08) & 0x20 == 0x20 && (p | 0x08) & 0x10 == 0 && (p | 0x04) & 0x20 == 0x20 && (p
        | 0x04) & 0x10 == 0 && (p & 0xFB) & 0x20 == 0x20 && (p & 0xFB) & 0x10
        == 0)) by (bit_vector);
    lemma_shift_consts();
}

#[allow(non_snake_case)]
impl Cpu {
    /// CPX: compares X with the operand.
    pub fn op_cpx(&mut self, addressing: &Addressing, memory_map: &mut MemoryMap)
        requires
            mem_wf(old(memory_map)@),
        ensures
            final(memory_map)@ == operand_upd(*old(self), old(memory_map)@, *addressing),
            *final(self) == (Cpu {
                reg_p: compare_flags(
                    old(self).reg_p,
                    old(self).reg_x,
                    operand_val(*old(self), old(memory_map)@, *addressing),
                ),
                ..*old(self)
            }),
            mem_wf(final(memory_map)@),
            wf_p(old(self).reg_p) ==> wf_p(final(self).reg_p),
    {
        let (value, _) = self.get_operand(addressing, memory_map);
        self.set_reg_at_compare(self.reg_x, value);
        proof {
            lemma_wf_p_compare(old(self).reg_p, old(self).reg_x, value);
        }
    }

    /// CPY: compares Y with the operand.
    pub fn op_cpy(&mut self, addressing: &Addressing, memory_map: &mut MemoryMap)
        requires
            mem_wf(old(memory_map)@),
        ensures
            final(memory_map)@ == operand_upd(*old(self), old(memory_map)@, *addressing),
            *final(self) == (Cpu {
                reg_p: compare_flags(
                    old(self).reg_p,
                    old(self).reg_y,
                    operand_val(*old(self), old(memory_map)@, *addressing),
                ),
                ..*old(self)
            }),
            mem_wf(final(memory_map)@),
            wf_p(old(self).reg_p) ==> wf_p(final(self).reg_p),
    {
        let (value, _) = self.get_operand(addressing, memory_map);
        self.set_reg_at_compare(self.reg_y, value);
        proof {
            lemma_wf_p_compare(old(self).reg_p, old(self).reg_y, value);
        }
    }

    /// CMP: compares A with the operand; reports the page-cross penalty.
    pub fn op_cmp(&mut self, addressing: &Addressing, memory_map: &mut MemoryMap) -> (extra: u32)
        requires
            mem_wf(old(memory_map)@),
        ensures
            final(memory_map)@ == operand_upd(*old(self), old(memory_map)@, *addressing),
            *final(self) == (Cpu {
                reg_p: compare_flags(
                    old(self).reg_p,
                    old(self).reg_a,
                    operand_val(*old(self), old(memory_map)@, *addressing),
                ),
                ..*old(self)
            }),
            extra == cross_extra(*old(self), old(memory_map)@, *addressing),
            mem_wf(final(memory_map)@),
            wf_p(old(self).reg_p) ==> wf_p(final(self).reg_p),
    {
        let (value, crossed) = self.get_operand(addressing, memory_map);
        self.set_reg_at_compare(self.reg_a, value);
        proof {
            lemma_wf_p_compare(old(self).reg_p, old(self).reg_a, value);
        }
        if crossed {
            1
        } else {
            0
        }
    }

    /// Undocumented DCP: decrements memory, then compares A with it.
    pub fn op_dcm(&mut self, addressing: &Addressing, memory_map: &mut MemoryMap)
        requires
            mem_wf(old(memory_map)@),
        ensures
            *final(self) == spec_dcm(*old(self), old(memory_map)@, *addressing).0,
            final(memory_map)@ == spec_dcm(*old(self), old(memory_map)@, *addressing).1,
            mem_wf(final(memory_map)@),
            wf_p(old(self).reg_p) ==> wf_p(final(self).reg_p),
    {
        let (value, _) = self.get_operand(addressing, memory_map);
        let result_value = wrap_sub8(value, 1);
        let (address, _) = self.get_operand_address(addressing, memory_map);
        memory_map.set_from_address(address, result_value);
        self.set_reg_at_compare(self.reg_a, result_value);
        proof {
            lemma_wf_p_compare(old(self).reg_p, old(self).reg_a, result_value);
        }
    }

    /// Undocumented ISB: increments memory, then subtracts it from A.
    pub fn op_isc(&mut self, addressing: &Addressing, memory_map: &mut MemoryMap)
        requires
            mem_wf(old(memory_map)@),
        ensures
            *final(self) == spec_isc(*old(self), old(memory_map)@, *addressing).0,
            final(memory_map)@ == spec_isc(*old(self), old(memory_map)@, *addressing).1,
            mem_wf(final(memory_map)@),
            wf_p(old(self).reg_p) ==> wf_p(final(self).reg_p),
    {
        let (value, _) = self.get_operand(addressing, memory_map);
        let result_value = wrap_add8(value, 1);
        let (address, _) = self.get_operand_address(addressing, memory_map);
        memory_map.set_from_address(address, result_value);
        self.op_sbc_impl(result_value);
        proof {
            lemma_wf_p_arith(
                old(self).reg_p,
                spec_sbc(*old(self), result_value).reg_a,
                true,
                true,
            );
            lemma_wf_p_arith(
                old(self).reg_p,
                spec_sbc(*old(self), result_value).reg_a,
                false,
                false,
            );
            lemma_wf_p_arith(
                old(self).reg_p,
                spec_sbc(*old(self), result_value).reg_a,
                true,
                false,
            );
            lemma_wf_p_arith(
                old(self).reg_p,
                spec_sbc(*old(self), result_value).reg_a,
                false,
                true,
            );
        }
    }

    /// BIT: copies operand bits 7 and 6 into N and V, tests A against
    /// the operand for Z. A is untouched.
    pub fn op_bit(&mut self, addressing: &Addressing, memory_map: &mut MemoryMap)
        requires
            mem_wf(old(memory_map)@),
        ensures
            final(memory_map)@ == bus_read_upd(
                operand_addr_upd(*old(self), old(memory_map)@, *addressing),
                operand_addr_val(*old(self), old(memory_map)@, *addressing),
            ),
            *final(self) == (Cpu {
                reg_p: spec_bit_flags(
                    old(self).reg_p,
                    old(self).reg_a,
                    bus_read_val(
                        operand_addr_upd(*old(self), old(memory_map)@, *addressing),
                        operand_addr_val(*old(self), old(memory_map)@, *addressing),
                    ),
                ),
                ..*old(self)
            }),
            mem_wf(final(memory_map)@),
            wf_p(old(self).reg_p) ==> wf_p(final(self).reg_p),
    {
        let (address, _) = self.get_operand_address(addressing, memory_map);
        let value = memory_map.get_from_address(address);
        if value & 0x80 > 0 {
            self.set_flag_n(true);
        } else {
            self.set_flag_n(false);
        }
        if value & 0x40 > 0 {
            self.set_flag_v(true);
        } else {
            self.set_flag_v(false);
        }
        if self.reg_a & value == 0 {
            self.set_flag_z(true);
        } else {
            self.set_flag_z(false);
        }
        proof {
            lemma_wf_p_bit(old(self).reg_p, old(self).reg_a, value);
        }
    }

    /// AND: A takes A AND the operand, NZ follow it.
    pub fn op_and(&mut self, addressing: &Addressing, memory_map: &mut MemoryMap) -> (extra: u32)
        requires
            mem_wf(old(memory_map)@),
        ensures
            final(memory_map)@ == operand_upd(*old(self), old(memory_map)@, *addressing),
            *final(self) == spec_and(
                *old(self),
                operand_val(*old(self), old(memory_map)@, *addressing),
            ),
            extra == cross_extra(*old(self), old(memory_map)@, *addressing),
            mem_wf(final(memory_map)@),
            wf_p(old(self).reg_p) ==> wf_p(final(self).reg_p),
    {
        let (value, crossed) = self.get_operand(addressing, memory_map);
        let result_value = self.reg_a & value;
        self.reg_a = result_value;
        self.eval_NZ(result_value);
        proof {
            lemma_nz_update(old(self).reg_p, result_value);
        }
        if crossed {
            1
        } else {
            0
        }
    }

    /// EOR: A takes A XOR the operand, NZ follow it.
    pub fn op_eor(&mut self, addressing: &Addressing, memory_map: &mut MemoryMap) -> (extra: u32)
        requires
            mem_wf(old(memory_map)@),
        ensures
            final(memory_map)@ == operand_upd(*old(self), old(memory_map)@, *addressing),
            *final(self) == spec_eor(
                *old(self),
                operand_val(*old(self), old(memory_map)@, *addressing),
            ),
            extra == cross_extra(*old(self), old(memory_map)@, *addressing),
            mem_wf(final(memory_map)@),
            wf_p(old(self).reg_p) ==> wf_p(final(self).reg_p),
    {
        let (value, crossed) = self.get_operand(addressing, memory_map);
        let result_value = self.reg_a ^ value;
        self.reg_a = result_value;
        self.eval_NZ(result_value);
        proof {
            lemma_nz_update(old(self).reg_p, result_value);
        }
        if crossed {
            1
        } else {
            0
        }
    }

    /// ORA: A takes A OR the operand, NZ follow it.
    pub fn op_ora(&mut self, addressing: &Addressing, memory_map: &mut MemoryMap) -> (extra: u32)
        requires
            mem_wf(old(memory_map)@),
        ensures
            final(memory_map)@ == operand_upd(*old(self), old(memory_map)@, *addressing),
            *final(self) == spec_ora(
                *old(self),
                operand_val(*old(self), old(memory_map)@, *addressing),
            ),
            extra == cross_extra(*old(self), old(memory_map)@, *addressing),
            mem_wf(final(memory_map)@),
            wf_p(old(self).reg_p) ==> wf_p(final(self).reg_p),
    {
        let (value, crossed) = self.get_operand(addressing, memory_map);
        let result_value = self.reg_a | value;
        self.reg_a = result_value;
        self.eval_NZ(result_value);
        proof {
            lemma_nz_update(old(self).reg_p, result_value);
        }
        if crossed {
            1
        } else {
            0
        }
    }

    /// ADC: adds the operand and the carry into A.
    pub fn op_adc(&mut self, addressing: &Addressing, memory_map: &mut MemoryMap) -> (extra: u32)
        requires
            mem_wf(old(memory_map)@),
        ensures
            final(memory_map)@ == operand_upd(*old(self), old(memory_map)@, *addressing),
            *final(self) == spec_adc(
                *old(self),
                operand_val(*old(self), old(memory_map)@, *addressing),
            ),
            extra == cross_extra(*old(self), old(memory_map)@, *addressing),
            mem_wf(final(memory_map)@),
            wf_p(old(self).reg_p) ==> wf_p(final(self).reg_p),
    {
        let (value, crossed) = self.get_operand(addressing, memory_map);
        let carry: u8 = self.reg_p & 0x01;
        let sum: u16 = self.reg_a as u16 + value as u16 + carry as u16;
        let reg_a_old = self.reg_a;
        let r = (sum % 256) as u8;
        self.reg_a = r;
        self.eval_NZ(r);
        if sum >= 0x100 {
            self.set_flag_c(true);
        } else {
            self.set_flag_c(false);
        }
        if (r ^ value) & (r ^ reg_a_old) & 0x80 != 0 {
            self.set_flag_v(true);
        } else {
            self.set_flag_v(false);
        }
        proof {
            lemma_wf_p_arith(old(self).reg_p, r, sum >= 0x100, (r ^ value) & (r ^ reg_a_old)
                & 0x80 != 0);
        }
        if crossed {
            1
        } else {
            0
        }
    }

    /// SBC: subtracts the operand and the borrow from A.
    pub fn op_sbc(&mut self, addressing: &Addressing, memory_map: &mut MemoryMap) -> (extra: u32)
        requires
            mem_wf(old(memory_map)@),
        ensures
            final(memory_map)@ == operand_upd(*old(self), old(memory_map)@, *addressing),
            *final(self) == spec_sbc(
                *old(self),
                operand_val(*old(self), old(memory_map)@, *addressing),
            ),
            extra == cross_extra(*old(self), old(memory_map)@, *addressing),
            mem_wf(final(memory_map)@),
            wf_p(old(self).reg_p) ==> wf_p(final(self).reg_p),
    {
        let (value, crossed) = self.get_operand(addressing, memory_map);
        self.op_sbc_impl(value);
        proof {
            lemma_wf_p_arith(old(self).reg_p, spec_sbc(*old(self), value).reg_a, true, true);
            lemma_wf_p_arith(old(self).reg_p, spec_sbc(*old(self), value).reg_a, true, false);
            lemma_wf_p_arith(old(self).reg_p, spec_sbc(*old(self), value).reg_a, false, true);
            lemma_wf_p_arith(old(self).reg_p, spec_sbc(*old(self), value).reg_a, false, false);
        }
        if crossed {
            1
        } else {
            0
        }
    }

    /// LSR on memory.
    pub fn op_lsr_with_addressing(&mut self, addressing: &Addressing, memory_map: &mut MemoryMap)
        requires
            mem_wf(old(memory_map)@),
        ensures
            *final(self) == spec_lsr_mem(*old(self), old(memory_map)@, *addressing).0,
            final(memory_map)@ == spec_lsr_mem(*old(self), old(memory_map)@, *addressing).1,
            mem_wf(final(memory_map)@),
            wf_p(old(self).reg_p) ==> wf_p(final(self).reg_p),
    {
        let (value, _) = self.get_operand(addressing, memory_map);
        let data = self.op_lsr_impl(value);
        let (address, _) = self.get_operand_address(addressing, memory_map);
        memory_map.set_from_address(address, data);
        proof {
            lemma_wf_p_arith(old(self).reg_p, value >> 1u8, value & 1 != 0, true);
        }
    }

    /// ROR on memory.
    pub fn op_ror_with_addressing(&mut self, addressing: &Addressing, memory_map: &mut MemoryMap)
        requires
            mem_wf(old(memory_map)@),
        ensures
            *final(self) == spec_ror_mem(*old(self), old(memory_map)@, *addressing).0,
            final(memory_map)@ == spec_ror_mem(*old(self), old(memory_map)@, *addressing).1,
            mem_wf(final(memory_map)@),
            wf_p(old(self).reg_p) ==> wf_p(final(self).reg_p),
    {
        let (value, _) = self.get_operand(addressing, memory_map);
        let data = self.op_ror_impl(value);
        let (address, _) = self.get_operand_address(addressing, memory_map);
        memory_map.set_from_address(address, data);
        proof {
            lemma_wf_p_arith(
                old(self).reg_p,
                spec_ror_val(value, old(self).reg_p),
                value & 1 != 0,
                true,
            );
        }
    }

    /// ROL on memory.
    pub fn op_rol_with_addressing(&mut self, addressing: &Addressing, memory_map: &mut MemoryMap)
        requires
            mem_wf(old(memory_map)@),
        ensures
            *final(self) == spec_rol_mem(*old(self), old(memory_map)@, *addressing).0,
            final(memory_map)@ == spec_rol_mem(*old(self), old(memory_map)@, *addressing).1,
            mem_wf(final(memory_map)@),
            wf_p(old(self).reg_p) ==> wf_p(final(self).reg_p),
    {
        let (value, _) = self.get_operand(addressing, memory_map);
        let data = self.op_rol_impl(value);
        let (address, _) = self.get_operand_address(addressing, memory_map);
        memory_map.set_from_address(address, data);
        proof {
            lemma_wf_p_arith(
                old(self).reg_p,
                spec_rol_val(value, old(self).reg_p),
                value >= 128,
                true,
            );
        }
    }

    /// ASL on memory.
    pub fn op_asl_with_addressing(&mut self, addressing: &Addressing, memory_map: &mut MemoryMap)
        requires
            mem_wf(old(memory_map)@),
        ensures
            *final(self) == spec_asl_mem(*old(self), old(memory_map)@, *addressing).0,
            final(memory_map)@ == spec_asl_mem(*old(self), old(memory_map)@, *addressing).1,
            mem_wf(final(memory_map)@),
            wf_p(old(self).reg_p) ==> wf_p(final(self).reg_p),
    {
        let (address, _) = self.get_operand_address(addressing, memory_map);
        let value = memory_map.get_from_address(address);
        let wide: u16 = value as u16 * 2;
        let res_value8 = (wide % 256) as u8;
        memory_map.set_from_address(address, res_value8);
        self.eval_NZ(res_value8);
        if wide >= 0x100 {
            self.set_flag_c(true);
        } else {
            self.set_flag_c(false);
        }
        proof {
            lemma_wf_p_arith(old(self).reg_p, res_value8, value >= 128, true);
        }
    }

    /// Undocumented SLO: ASL on memory, then ORA of the result.
    pub fn op_aso_with_addressing(&mut self, addressing: &Addressing, memory_map: &mut MemoryMap)
        requires
            mem_wf(old(memory_map)@),
        ensures
            ({
                let (c1, m1) = spec_asl_mem(*old(self), old(memory_map)@, *addressing);
                *final(self) == spec_ora(c1, operand_val(c1, m1, *addressing)) && final(memory_map)@ == operand_upd(c1, m1, *addressing)
            }),
            mem_wf(final(memory_map)@),
            wf_p(old(self).reg_p) ==> wf_p(final(self).reg_p),
    {
        self.op_asl_with_addressing(addressing, memory_map);
        self.op_ora(addressing, memory_map);
    }

    /// Undocumented RLA: ROL on memory, then AND of the result.
    pub fn op_rla_with_addressing(&mut self, addressing: &Addressing, memory_map: &mut MemoryMap)
        requires
            mem_wf(old(memory_map)@),
        ensures
            ({
                let (c1, m1) = spec_rol_mem(*old(self), old(memory_map)@, *addressing);
                *final(self) == spec_and(c1, operand_val(c1, m1, *addressing)) && final(memory_map)@ == operand_upd(c1, m1, *addressing)
            }),
            mem_wf(final(memory_map)@),
            wf_p(old(self).reg_p) ==> wf_p(final(self).reg_p),
    {
        self.op_rol_with_addressing(addressing, memory_map);
        self.op_and(addressing, memory_map);
    }

    /// Undocumented SRE: LSR on memory, then EOR of the result.
    pub fn op_lse_with_addressing(&mut self, addressing: &Addressing, memory_map: &mut MemoryMap)
        requires
            mem_wf(old(memory_map)@),
        ensures
            ({
                let (c1, m1) = spec_lsr_mem(*old(self), old(memory_map)@, *addressing);
                *final(self) == spec_eor(c1, operand_val(c1, m1, *addressing)) && final(memory_map)@ == operand_upd(c1, m1, *addressing)
            }),
            mem_wf(final(memory_map)@),
            wf_p(old(self).reg_p) ==> wf_p(final(self).reg_p),
    {
        self.op_lsr_with_addressing(addressing, memory_map);
        self.op_eor(addressing, memory_map);
    }

    /// Undocumented RRA: ROR on memory, then ADC of the result.
    pub fn op_rra_with_addressing(&mut self, addressing: &Addressing, memory_map: &mut MemoryMap)
        requires
            mem_wf(old(memory_map)@),
        ensures
            ({
                let (c1, m1) = spec_ror_mem(*old(self), old(memory_map)@, *addressing);
                *final(self) == spec_adc(c1, operand_val(c1, m1, *addressing)) && final(memory_map)@ == operand_upd(c1, m1, *addressing)
            }),
            mem_wf(final(memory_map)@),
            wf_p(old(self).reg_p) ==> wf_p(final(self).reg_p),
    {
        self.op_ror_with_addressing(addressing, memory_map);
        self.op_adc(addressing, memory_map);
    }

    /// INC: increments memory, NZ follow the result.
    pub fn op_inc(&mut self, addressing: &Addressing, memory_map: &mut MemoryMap)
        requires
            mem_wf(old(memory_map)@),
        ensures
            *final(self) == spec_inc_mem(*old(self), old(memory_map)@, *addressing).0,
            final(memory_map)@ == spec_inc_mem(*old(self), old(memory_map)@, *addressing).1,
            mem_wf(final(memory_map)@),
            wf_p(old(self).reg_p) ==> wf_p(final(self).reg_p),
    {
        let (address, _) = self.get_operand_address(addressing, memory_map);
        let value = memory_map.get_from_address(address);
        let result = wrap_add8(value, 1);
        memory_map.set_from_address(address, result);
        self.eval_NZ(result);
        proof {
            lemma_nz_update(old(self).reg_p, result);
        }
    }

    /// DEC: decrements memory, NZ follow the result.
    pub fn op_dec(&mut self, addressing: &Addressing, memory_map: &mut MemoryMap)
        requires
            mem_wf(old(memory_map)@),
        ensures
            *final(self) == spec_dec_mem(*old(self), old(memory_map)@, *addressing).0,
            final(memory_map)@ == spec_dec_mem(*old(self), old(memory_map)@, *addressing).1,
            mem_wf(final(memory_map)@),
            wf_p(old(self).reg_p) ==> wf_p(final(self).reg_p),
    {
        let (address, _) = self.get_operand_address(addressing, memory_map);
        let value = memory_map.get_from_address(address);
        let result = wrap_sub8(value, 1);
        memory_map.set_from_address(address, result);
        self.eval_NZ(result);
        proof {
            lemma_nz_update(old(self).reg_p, result);
        }
    }

    /// STA: stores A at the effective address.
    pub fn op_sta(&self, addressing: &Addressing, memory_map: &mut MemoryMap)
        requires
            mem_wf(old(memory_map)@),
        ensures
            final(memory_map)@ == bus_write_upd(
                operand_addr_upd(*self, old(memory_map)@, *addressing),
                operand_addr_val(*self, old(memory_map)@, *addressing),
                self.reg_a,
            ),
            mem_wf(final(memory_map)@),
    {
        let (address, _) = self.get_operand_address(addressing, memory_map);
        memory_map.set_from_address(address, self.reg_a);
    }

    /// STX: stores X at the effective address.
    pub fn op_stx(&self, addressing: &Addressing, memory_map: &mut MemoryMap)
        requires
            mem_wf(old(memory_map)@),
        ensures
            final(memory_map)@ == bus_write_upd(
                operand_addr_upd(*self, old(memory_map)@, *addressing),
                operand_addr_val(*self, old(memory_map)@, *addressing),
                self.reg_x,
            ),
            mem_wf(final(memory_map)@),
    {
        let (address, _) = self.get_operand_address(addressing, memory_map);
        memory_map.set_from_address(address, self.reg_x);
    }

    /// STY: stores Y at the effective address.
    pub fn op_sty(&self, addressing: &Addressing, memory_map: &mut MemoryMap)
        requires
            mem_wf(old(memory_map)@),
        ensures
            final(memory_map)@ == bus_write_upd(
                operand_addr_upd(*self, old(memory_map)@, *addressing),
                operand_addr_val(*self, old(memory_map)@, *addressing),
                self.reg_y,
            ),
            mem_wf(final(memory_map)@),
    {
        let (address, _) = self.get_operand_address(addressing, memory_map);
        memory_map.set_from_address(address, self.reg_y);
    }

    /// Undocumented SAX: stores A AND X at the effective address.
    pub fn op_sax(&self, addressing: &Addressing, memory_map: &mut MemoryMap)
        requires
            mem_wf(old(memory_map)@),
        ensures
            final(memory_map)@ == bus_write_upd(
                operand_addr_upd(*self, old(memory_map)@, *addressing),
                operand_addr_val(*self, old(memory_map)@, *addressing),
                self.reg_a & self.reg_x,
            ),
            mem_wf(final(memory_map)@),
    {
        let (address, _) = self.get_operand_address(addressing, memory_map);
        memory_map.set_from_address(address, self.reg_a & self.reg_x);
    }

    /// LDA: loads A from the operand, NZ follow it.
    pub fn op_lda(&mut self, addressing: &Addressing, memory_map: &mut MemoryMap) -> (extra: u32)
        requires
            mem_wf(old(memory_map)@),
        ensures
            final(memory_map)@ == operand_upd(*old(self), old(memory_map)@, *addressing),
            *final(self) == (Cpu {
                reg_a: operand_val(*old(self), old(memory_map)@, *addressing),
                reg_p: nz_update(
                    old(self).reg_p,
                    operand_val(*old(self), old(memory_map)@, *addressing),
                ),
                ..*old(self)
            }),
            extra == cross_extra(*old(self), old(memory_map)@, *addressing),
            mem_wf(final(memory_map)@),
            wf_p(old(self).reg_p) ==> wf_p(final(self).reg_p),
    {
        let (operand, crossed) = self.get_operand(addressing, memory_map);
        self.eval_NZ(operand);
        self.reg_a = operand;
        proof {
            lemma_nz_update(old(self).reg_p, operand);
        }
        if crossed {
            1
        } else {
            0
        }
    }

    /// LDX: loads X from the operand, NZ follow it.
    pub fn op_ldx(&mut self, addressing: &Addressing, memory_map: &mut MemoryMap) -> (extra: u32)
        requires
            mem_wf(old(memory_map)@),
        ensures
            final(memory_map)@ == operand_upd(*old(self), old(memory_map)@, *addressing),
            *final(self) == (Cpu {
                reg_x: operand_val(*old(self), old(memory_map)@, *addressing),
                reg_p: nz_update(
                    old(self).reg_p,
                    operand_val(*old(self), old(memory_map)@, *addressing),
                ),
                ..*old(self)
            }),
            extra == cross_extra(*old(self), old(memory_map)@, *addressing),
            mem_wf(final(memory_map)@),
            wf_p(old(self).reg_p) ==> wf_p(final(self).reg_p),
    {
        let (operand, crossed) = self.get_operand(addressing, memory_map);
        self.eval_NZ(operand);
        self.reg_x = operand;
        proof {
            lemma_nz_update(old(self).reg_p, operand);
        }
        if crossed {
            1
        } else {
            0
        }
    }

    /// LDY: loads Y from the operand, NZ follow it.
    pub fn op_ldy(&mut self, addressing: &Addressing, memory_map: &mut MemoryMap) -> (extra: u32)
        requires
            mem_wf(old(memory_map)@),
        ensures
            final(memory_map)@ == operand_upd(*old(self), old(memory_map)@, *addressing),
            *final(self) == (Cpu {
                reg_y: operand_val(*old(self), old(memory_map)@, *addressing),
                reg_p: nz_update(
                    old(self).reg_p,
                    operand_val(*old(self), old(memory_map)@, *addressing),
                ),
                ..*old(self)
            }),
            extra == cross_extra(*old(self), old(memory_map)@, *addressing),
            mem_wf(final(memory_map)@),
            wf_p(old(self).reg_p) ==> wf_p(final(self).reg_p),
    {
        let (operand, crossed) = self.get_operand(addressing, memory_map);
        self.eval_NZ(operand);
        self.reg_y = operand;
        proof {
            lemma_nz_update(old(self).reg_p, operand);
        }
        if crossed {
            1
        } else {
            0
        }
    }

    /// Undocumented LAX: loads A and X together, NZ follow the value.
    pub fn op_lax(&mut self, addressing: &Addressing, memory_map: &mut MemoryMap) -> (extra: u32)
        requires
            mem_wf(old(memory_map)@),
        ensures
            final(memory_map)@ == operand_upd(*old(self), old(memory_map)@, *addressing),
            *final(self) == (Cpu {
                reg_a: operand_val(*old(self), old(memory_map)@, *addressing),
                reg_x: operand_val(*old(self), old(memory_map)@, *addressing),
                reg_p: nz_update(
                    old(self).reg_p,
                    operand_val(*old(self), old(memory_map)@, *addressing),
                ),
                ..*old(self)
            }),
            extra == cross_extra(*old(self), old(memory_map)@, *addressing),
            mem_wf(final(memory_map)@),
            wf_p(old(self).reg_p) ==> wf_p(final(self).reg_p),
    {
        let (operand, crossed) = self.get_operand(addressing, memory_map);
        self.eval_NZ(operand);
        self.reg_a = operand;
        self.reg_x = operand;
        proof {
            lemma_nz_update(old(self).reg_p, operand);
        }
        if crossed {
            1
        } else {
            0
        }
    }

    /// BNE: branches when the zero flag is clear.
    pub fn op_bne(&mut self, memory_map: &mut MemoryMap) -> (extra: u32)
        requires
            mem_wf(old(memory_map)@),
        ensures
            *final(self) == spec_branch(
                *old(self),
                old(memory_map)@,
                old(self).reg_p & 0x02 == 0,
            ).0,
            final(memory_map)@ == spec_branch(
                *old(self),
                old(memory_map)@,
                old(self).reg_p & 0x02 == 0,
            ).1,
            extra == spec_branch_extra(*old(self), old(memory_map)@, old(self).reg_p & 0x02 == 0),
            mem_wf(final(memory_map)@),
            final(self).reg_p == old(self).reg_p,
    {
        let taken = !self.get_flag_z();
        self.branch_if(taken, memory_map)
    }

    /// BEQ: branches when the zero flag is set.
    pub fn op_beq(&mut self, memory_map: &mut MemoryMap) -> (extra: u32)
        requires
            mem_wf(old(memory_map)@),
        ensures
            *final(self) == spec_branch(
                *old(self),
                old(memory_map)@,
                old(self).reg_p & 0x02 != 0,
            ).0,
            final(memory_map)@ == spec_branch(
                *old(self),
                old(memory_map)@,
                old(self).reg_p & 0x02 != 0,
            ).1,
            extra == spec_branch_extra(*old(self), old(memory_map)@, old(self).reg_p & 0x02 != 0),
            mem_wf(final(memory_map)@),
            final(self).reg_p == old(self).reg_p,
    {
        let taken = self.get_flag_z();
        self.branch_if(taken, memory_map)
    }

    /// BPL: branches when the negative flag is clear.
    pub fn op_bpl(&mut self, memory_map: &mut MemoryMap) -> (extra: u32)
        requires
            mem_wf(old(memory_map)@),
        ensures
            *final(self) == spec_branch(
                *old(self),
                old(memory_map)@,
                old(self).reg_p & 0x80 == 0,
            ).0,
            final(memory_map)@ == spec_branch(
                *old(self),
                old(memory_map)@,
                old(self).reg_p & 0x80 == 0,
            ).1,
            extra == spec_branch_extra(*old(self), old(memory_map)@, old(self).reg_p & 0x80 == 0),
            mem_wf(final(memory_map)@),
            final(self).reg_p == old(self).reg_p,
    {
        let taken = !self.get_flag_n();
        self.branch_if(taken, memory_map)
    }

    /// BMI: branches when the negative flag is set.
    pub fn op_bmi(&mut self, memory_map: &mut MemoryMap) -> (extra: u32)
        requires
            mem_wf(old(memory_map)@),
        ensures
            *final(self) == spec_branch(
                *old(self),
                old(memory_map)@,
                old(self).reg_p & 0x80 != 0,
            ).0,
            final(memory_map)@ == spec_branch(
                *old(self),
                old(memory_map)@,
                old(self).reg_p & 0x80 != 0,
            ).1,
            extra == spec_branch_extra(*old(self), old(memory_map)@, old(self).reg_p & 0x80 != 0),
            mem_wf(final(memory_map)@),
            final(self).reg_p == old(self).reg_p,
    {
        let taken = self.get_flag_n();
        self.branch_if(taken, memory_map)
    }

    /// BCC: branches when the carry flag is clear.
    pub fn op_bcc(&mut self, memory_map: &mut MemoryMap) -> (extra: u32)
        requires
            mem_wf(old(memory_map)@),
        ensures
            *final(self) == spec_branch(
                *old(self),
                old(memory_map)@,
                old(self).reg_p & 0x01 == 0,
            ).0,
            final(memory_map)@ == spec_branch(
                *old(self),
                old(memory_map)@,
                old(self).reg_p & 0x01 == 0,
            ).1,
            extra == spec_branch_extra(*old(self), old(memory_map)@, old(self).reg_p & 0x01 == 0),
            mem_wf(final(memory_map)@),
            final(self).reg_p == old(self).reg_p,
    {
        let taken = !self.get_flag_c();
        self.branch_if(taken, memory_map)
    }

    /// BCS: branches when the carry flag is set.
    pub fn op_bcs(&mut self, memory_map: &mut MemoryMap) -> (extra: u32)
        requires
            mem_wf(old(memory_map)@),
        ensures
            *final(self) == spec_branch(
                *old(self),
                old(memory_map)@,
                old(self).reg_p & 0x01 != 0,
            ).0,
            final(memory_map)@ == spec_branch(
                *old(self),
                old(memory_map)@,
                old(self).reg_p & 0x01 != 0,
            ).1,
            extra == spec_branch_extra(*old(self), old(memory_map)@, old(self).reg_p & 0x01 != 0),
            mem_wf(final(memory_map)@),
            final(self).reg_p == old(self).reg_p,
    {
        let taken = self.get_flag_c();
        self.branch_if(taken, memory_map)
    }

    /// BVC: branches when the overflow flag is clear.
    pub fn op_bvc(&mut self, memory_map: &mut MemoryMap) -> (extra: u32)
        requires
            mem_wf(old(memory_map)@),
        ensures
            *final(self) == spec_branch(
                *old(self),
                old(memory_map)@,
                old(self).reg_p & 0x40 == 0,
            ).0,
            final(memory_map)@ == spec_branch(
                *old(self),
                old(memory_map)@,
                old(self).reg_p & 0x40 == 0,
            ).1,
            extra == spec_branch_extra(*old(self), old(memory_map)@, old(self).reg_p & 0x40 == 0),
            mem_wf(final(memory_map)@),
            final(self).reg_p == old(self).reg_p,
    {
        let taken = !self.get_flag_v();
        self.branch_if(taken, memory_map)
    }

    /// BVS: branches when the overflow flag is set.
    pub fn op_bvs(&mut self, memory_map: &mut MemoryMap) -> (extra: u32)
        requires
            mem_wf(old(memory_map)@),
        ensures
            *final(self) == spec_branch(
                *old(self),
                old(memory_map)@,
                old(self).reg_p & 0x40 != 0,
            ).0,
            final(memory_map)@ == spec_branch(
                *old(self),
                old(memory_map)@,
                old(self).reg_p & 0x40 != 0,
            ).1,
            extra == spec_branch_extra(*old(self), old(memory_map)@, old(self).reg_p & 0x40 != 0),
            mem_wf(final(memory_map)@),
            final(self).reg_p == old(self).reg_p,
    {
        let taken = self.get_flag_v();
        self.branch_if(taken, memory_map)
    }

    /// The shared branch step: when taken, adds the sign-extended
    /// immediate to the program counter and counts the extra cycles.
    fn branch_if(&mut self, taken: bool, memory_map: &mut MemoryMap) -> (extra: u32)
        requires
            mem_wf(old(memory_map)@),
        ensures
            *final(self) == spec_branch(*old(self), old(memory_map)@, taken).0,
            final(memory_map)@ == spec_branch(*old(self), old(memory_map)@, taken).1,
            extra == spec_branch_extra(*old(self), old(memory_map)@, taken),
            mem_wf(final(memory_map)@),
            final(self).reg_p == old(self).reg_p,
    {
        if taken {
            let relative = self.getIm8(memory_map);
            let rel16: u16 = if relative >= 0x80 {
                relative as u16 + 0xFF00
            } else {
                relative as u16
            };
            let old_pc = self.program_counter;
            self.program_counter = wrap_add16(old_pc, rel16);
            if wrap_add16(self.program_counter, 2) & 0xFF00 == wrap_add16(old_pc, 2) & 0xFF00 {
                1
            } else {
                2
            }
        } else {
            0
        }
    }

    /// JSR: pushes the address of the call's third byte, high byte
    /// first, then jumps to the absolute target.
    pub fn op_jsr(&mut self, memory_map: &mut MemoryMap)
        requires
            mem_wf(old(memory_map)@),
        ensures
            *final(self) == spec_jsr(*old(self), old(memory_map)@).0,
            final(memory_map)@ == spec_jsr(*old(self), old(memory_map)@).1,
            mem_wf(final(memory_map)@),
            final(self).reg_p == old(self).reg_p,
    {
        let absolute = self.getIm16(memory_map);
        let return_address = wrap_add16(self.program_counter, 2);
        let upper = (return_address / 256) as u8;
        let lower = (return_address % 256) as u8;
        let stack_address: u16 = 0x100 + self.reg_s as u16;
        memory_map.set_from_address(stack_address, upper);
        memory_map.set_from_address(0x100 + wrap_sub8(self.reg_s, 1) as u16, lower);
        self.reg_s = wrap_sub8(self.reg_s, 2);
        self.program_counter = absolute;
    }

    /// PHA: pushes A.
    pub fn op_pha(&mut self, memory_map: &mut MemoryMap)
        requires
            mem_wf(old(memory_map)@),
        ensures
            *final(self) == spec_pha(*old(self), old(memory_map)@).0,
            final(memory_map)@ == spec_pha(*old(self), old(memory_map)@).1,
            mem_wf(final(memory_map)@),
            final(self).reg_p == old(self).reg_p,
    {
        let stack_address: u16 = 0x100 + self.reg_s as u16;
        memory_map.set_from_address(stack_address, self.reg_a);
        self.reg_s = wrap_sub8(self.reg_s, 1);
    }

    /// PHP: pushes `p` with break and bit 5 set in the pushed copy.
    pub fn op_php(&mut self, memory_map: &mut MemoryMap)
        requires
            mem_wf(old(memory_map)@),
        ensures
            *final(self) == spec_php(*old(self), old(memory_map)@).0,
            final(memory_map)@ == spec_php(*old(self), old(memory_map)@).1,
            mem_wf(final(memory_map)@),
            final(self).reg_p == old(self).reg_p,
    {
        let stack_address: u16 = 0x100 + self.reg_s as u16;
        memory_map.set_from_address(stack_address, self.reg_p | 0x30);
        self.reg_s = wrap_sub8(self.reg_s, 1);
    }

    /// PLP: pulls `p`; the loaded value has break cleared and bit 5 set.
    pub fn op_plp(&mut self, memory_map: &mut MemoryMap)
        requires
            mem_wf(old(memory_map)@),
        ensures
            *final(self) == spec_plp(*old(self), old(memory_map)@).0,
            final(memory_map)@ == spec_plp(*old(self), old(memory_map)@).1,
            mem_wf(final(memory_map)@),
            wf_p(final(self).reg_p),
    {
        let stack_address: u16 = 0x100 + wrap_add8(self.reg_s, 1) as u16;
        let value = memory_map.get_from_address(stack_address);
        self.set_reg_p(value);
        self.reg_s = wrap_add8(self.reg_s, 1);
    }

    /// PLA: pulls A, NZ follow it.
    pub fn op_pla(&mut self, memory_map: &mut MemoryMap)
        requires
            mem_wf(old(memory_map)@),
        ensures
            *final(self) == spec_pla(*old(self), old(memory_map)@).0,
            final(memory_map)@ == spec_pla(*old(self), old(memory_map)@).1,
            mem_wf(final(memory_map)@),
            wf_p(old(self).reg_p) ==> wf_p(final(self).reg_p),
    {
        let stack_address: u16 = 0x100 + wrap_add8(self.reg_s, 1) as u16;
        let value = memory_map.get_from_address(stack_address);
        self.reg_a = value;
        self.eval_NZ(value);
        self.reg_s = wrap_add8(self.reg_s, 1);
        proof {
            lemma_nz_update(old(self).reg_p, value);
        }
    }

    /// RTS: pulls the program counter, low byte first.
    pub fn op_rts(&mut self, memory_map: &mut MemoryMap)
        requires
            mem_wf(old(memory_map)@),
        ensures
            *final(self) == spec_rts(*old(self), old(memory_map)@).0,
            final(memory_map)@ == spec_rts(*old(self), old(memory_map)@).1,
            mem_wf(final(memory_map)@),
            final(self).reg_p == old(self).reg_p,
    {
        let lower = memory_map.get_from_address(0x100 + wrap_add8(self.reg_s, 1) as u16);
        let upper = memory_map.get_from_address(0x100 + wrap_add8(self.reg_s, 2) as u16);
        self.program_counter = upper as u16 * 256 + lower as u16;
        self.reg_s = wrap_add8(self.reg_s, 2);
    }

    /// RTI: pulls `p`, then the program counter.
    pub fn op_rti(&mut self, memory_map: &mut MemoryMap)
        requires
            mem_wf(old(memory_map)@),
        ensures
            *final(self) == spec_rti(*old(self), old(memory_map)@).0,
            final(memory_map)@ == spec_rti(*old(self), old(memory_map)@).1,
            mem_wf(final(memory_map)@),
            wf_p(final(self).reg_p),
    {
        self.op_plp(memory_map);
        self.op_rts(memory_map);
    }

    /// BRK: pushes the return address and `p` with break set, disables
    /// interrupts, and jumps through the vector at 0xFFFE.
    pub fn op_brk(&mut self, memory_map: &mut MemoryMap)
        requires
            mem_wf(old(memory_map)@),
        ensures
            *final(self) == spec_brk(*old(self), old(memory_map)@).0,
            final(memory_map)@ == spec_brk(*old(self), old(memory_map)@).1,
            mem_wf(final(memory_map)@),
            wf_p(old(self).reg_p) ==> wf_p(final(self).reg_p),
    {
        let return_address = wrap_add16(self.program_counter, 2);
        push_stack(self, (return_address / 256) as u8, memory_map);
        push_stack(self, (return_address % 256) as u8, memory_map);
        push_stack(self, self.reg_p | 0x30, memory_map);
        self.reg_p = self.reg_p | 0x04;
        self.program_counter = memory_map.get_from_address16(0xFFFE);
        proof {
            lemma_wf_p_masks(old(self).reg_p);
        }
    }

    /// JMP absolute.
    pub fn opJMP_Abs(&mut self, memory_map: &mut MemoryMap)
        requires
            mem_wf(old(memory_map)@),
        ensures
            *final(self) == (Cpu {
                program_counter: im16_val(*old(self), old(memory_map)@),
                ..*old(self)
            }),
            final(memory_map)@ == im16_upd(*old(self), old(memory_map)@),
            mem_wf(final(memory_map)@),
            final(self).reg_p == old(self).reg_p,
    {
        let absolute = self.getIm16(memory_map);
        self.program_counter = absolute;
    }

    /// JMP indirect, with the in-page wrap of the pointer's high byte.
    pub fn opJMP_Indirect(&mut self, memory_map: &mut MemoryMap)
        requires
            mem_wf(old(memory_map)@),
        ensures
            *final(self) == (Cpu {
                program_counter: operand_addr_val(
                    *old(self),
                    old(memory_map)@,
                    Addressing::Indirect,
                ),
                ..*old(self)
            }),
            final(memory_map)@ == operand_addr_upd(
                *old(self),
                old(memory_map)@,
                Addressing::Indirect,
            ),
            mem_wf(final(memory_map)@),
            final(self).reg_p == old(self).reg_p,
    {
        let (address, _) = self.get_operand_address(&Addressing::Indirect, memory_map);
        self.program_counter = address;
    }
}

/// Every value loaded into `p` (by PLP, RTI or an interrupt push) has
/// bit 5 set and the break bit clear: after any such write,
/// `p & 0x20 == 0x20` and `p & 0x10 == 0`.
pub proof fn lemma_status_load_well_formed(v: u8)
    ensures
        wf_p(spec_load_p(v)),
        spec_load_p(v) & 0x20 == 0x20,
        spec_load_p(v) & 0x10 == 0,
{
    lemma_flag_masks(v, true);
}

/// Pushing `p` and pulling it back preserves every flag except break
/// (cleared) and bit 5 (set): `pull(push(p)) == (p & 0xEF) | 0x20`.
pub proof fn lemma_p_push_pull(p: u8)
    ensures
        spec_load_p(spec_push_p(p)) == (p & 0xEF) | 0x20,
        wf_p(p) ==> spec_load_p(spec_push_p(p)) == p,
{
    assert(((p | 0x30) & 0xEF) | 0x20 == (p & 0xEF) | 0x20) by (bit_vector);
    assert((p & 0x20 == 0x20 && p & 0x10 == 0) ==> ((p & 0xEF) | 0x20) == p) by (bit_vector);
}

/// TXA then TAX is the identity on X, copies X into A, and leaves the
/// negative and zero flags agreeing with the value's sign and zero-ness.
pub proof fn lemma_txa_tax_round_trip(c: Cpu)
    ensures
        spec_tax(spec_txa(c)).reg_x == c.reg_x,
        spec_tax(spec_txa(c)).reg_a == c.reg_x,
        spec_tax(spec_txa(c)).reg_s == c.reg_s,
        spec_tax(spec_txa(c)).program_counter == c.program_counter,
        (spec_tax(spec_txa(c)).reg_p & 0x80 != 0) == (c.reg_x >= 128),
        (spec_tax(spec_txa(c)).reg_p & 0x02 != 0) == (c.reg_x == 0),
{
    lemma_nz_update(c.reg_p, c.reg_x);
    lemma_nz_update(nz_update(c.reg_p, c.reg_x), c.reg_x);
}

/// TYA then TAY is the identity on Y, copies Y into A, with the same
/// flag agreement.
pub proof fn lemma_tya_tay_round_trip(c: Cpu)
    ensures
        spec_tay(spec_tya(c)).reg_y == c.reg_y,
        spec_tay(spec_tya(c)).reg_a == c.reg_y,
        spec_tay(spec_tya(c)).reg_s == c.reg_s,
        spec_tay(spec_tya(c)).program_counter == c.program_counter,
        (spec_tay(spec_tya(c)).reg_p & 0x80 != 0) == (c.reg_y >= 128),
        (spec_tay(spec_tya(c)).reg_p & 0x02 != 0) == (c.reg_y == 0),
{
    lemma_nz_update(c.reg_p, c.reg_y);
    lemma_nz_update(nz_update(c.reg_p, c.reg_y), c.reg_y);
}

/// PHA then PLA restores A and the stack pointer, and leaves the
/// negative and zero flags agreeing with A's sign and zero-ness. The
/// pushed byte travels through work RAM at `0x0100 | S`.
pub proof fn lemma_pha_pla_round_trip(c: Cpu, m: MemV)
    requires
        mem_wf(m),
    ensures
        ({
            let (c1, m1) = spec_pha(c, m);
            let (c2, m2) = spec_pla(c1, m1);
            &&& c2.reg_a == c.reg_a
            &&& c2.reg_s == c.reg_s
            &&& c2.program_counter == c.program_counter
            &&& c2.reg_x == c.reg_x
            &&& c2.reg_y == c.reg_y
            &&& (c2.reg_p & 0x80 != 0) == (c.reg_a >= 128)
            &&& (c2.reg_p & 0x02 != 0) == (c.reg_a == 0)
        }),
{
    let (c1, m1) = spec_pha(c, m);
    assert(add8(sub8(c.reg_s, 1), 1) == c.reg_s);
    assert(stack_addr(c.reg_s) < 0x800);
    assert(bus_read_val(m1, stack_addr(c.reg_s)) == c.reg_a);
    lemma_nz_update(c.reg_p, c.reg_a);
}

/// Pushes one byte at the stack pointer, which then wraps down.
pub fn push_stack(cpu: &mut Cpu, value: u8, memory_map: &mut MemoryMap)
    requires
        mem_wf(old(memory_map)@),
    ensures
        *final(cpu) == spec_push(*old(cpu), old(memory_map)@, value).0,
        final(memory_map)@ == spec_push(*old(cpu), old(memory_map)@, value).1,
        mem_wf(final(memory_map)@),
{
    let stack_address: u16 = 0x100 + cpu.reg_s as u16;
    memory_map.set_from_address(stack_address, value);
    cpu.reg_s = wrap_sub8(cpu.reg_s, 1);
}

/// CPU and bus after a maskable interrupt request: nothing while the I
/// flag is set; otherwise like the non-maskable path, through the
/// vector at 0xFFFE.
pub open spec fn spec_irq(c: Cpu, m: MemV) -> (Cpu, MemV) {
    if c.reg_p & 0x04 != 0 {
        (c, m)
    } else {
        let (c1, m1) = spec_push(c, m, (c.program_counter / 256) as u8);
        let (c2, m2) = spec_push(c1, m1, (c.program_counter % 256) as u8);
        let (c3, m3) = spec_push(c2, m2, spec_load_p(c.reg_p));
        (
            Cpu {
                program_counter: spec_read16_val(m3, 0xFFFE),
                reg_p: c.reg_p | 0x04,
                reg_s: c3.reg_s,
                ..c
            },
            spec_read16_upd(m3, 0xFFFE),
        )
    }
}

/// Delivers a maskable interrupt request: gated by the I flag, and
/// otherwise analogous to the non-maskable path but through the vector
/// at 0xFFFE.
pub fn make_irq_interrupt(cpu: &mut Cpu, memory_map: &mut MemoryMap)
    requires
        mem_wf(old(memory_map)@),
    ensures
        *final(cpu) == spec_irq(*old(cpu), old(memory_map)@).0,
        final(memory_map)@ == spec_irq(*old(cpu), old(memory_map)@).1,
        mem_wf(final(memory_map)@),
        wf_p(old(cpu).reg_p) ==> wf_p(final(cpu).reg_p),
{
    if cpu.get_flag_i() {
        return ;
    }
    let upper = (cpu.program_counter / 256) as u8;
    push_stack(cpu, upper, memory_map);
    let lower = (cpu.program_counter % 256) as u8;
    push_stack(cpu, lower, memory_map);
    push_stack(cpu, (cpu.reg_p & 0xEF) | 0x20, memory_map);
    cpu.reg_p = cpu.reg_p | 0x04;
    let next_program_counter = memory_map.get_from_address16(0xFFFE);
    cpu.program_counter = next_program_counter;
    proof {
        lemma_wf_p_masks(old(cpu).reg_p);
    }
}

/// Delivers a non-maskable interrupt: the return address and a
/// break-clear copy of `p` are pushed, the interrupt-disable flag is
/// set, and control moves to the vector at 0xFFFA. The I flag does not
/// gate delivery; only PPUCTRL bit 7 does, at the scheduler.
pub fn make_nmi_interrupt(cpu: &mut Cpu, memory_map: &mut MemoryMap)
    requires
        mem_wf(old(memory_map)@),
    ensures
        *final(cpu) == spec_nmi(*old(cpu), old(memory_map)@).0,
        final(memory_map)@ == spec_nmi(*old(cpu), old(memory_map)@).1,
        mem_wf(final(memory_map)@),
        wf_p(old(cpu).reg_p) ==> wf_p(final(cpu).reg_p),
{
    let upper = (cpu.program_counter / 256) as u8;
    push_stack(cpu, upper, memory_map);
    let lower = (cpu.program_counter % 256) as u8;
    push_stack(cpu, lower, memory_map);
    push_stack(cpu, (cpu.reg_p & 0xEF) | 0x20, memory_map);
    cpu.reg_p = cpu.reg_p | 0x04;
    let next_program_counter = memory_map.get_from_address16(0xFFFA);
    cpu.program_counter = next_program_counter;
    proof {
        lemma_wf_p_masks(old(cpu).reg_p);
    }
}


/// One instruction of the machine, as mathematics: the registers, the
/// bus and the cycle cost after dispatching `opcode`, over the whole
/// decode table. [`Cpu::interpret`] is proved equal to this function.
/// The body is opaque to callers; `reveal(spec_interpret)` opens it.
#[verifier::opaque]
pub open spec fn spec_interpret(c: Cpu, m: MemV, opcode: u8) -> (Cpu, MemV, u32) {
    match opcode {
        0x01 => {
            (
                Cpu { program_counter: add16(c.program_counter, 2), ..spec_ora(c, operand_val(c, m, Addressing::IndirectX)) },
                operand_upd(c, m, Addressing::IndirectX),
                (6 + cross_extra(c, m, Addressing::IndirectX)) as u32,
            )
        },
        0x03 => {
            let (c1, m1) = spec_asl_mem(c, m, Addressing::IndirectX);
            (
                Cpu { program_counter: add16(c.program_counter, 2), ..spec_ora(c1, operand_val(c1, m1, Addressing::IndirectX)) },
                operand_upd(c1, m1, Addressing::IndirectX),
                8u32,
            )
        },
        0x05 => {
            (
                Cpu { program_counter: add16(c.program_counter, 2), ..spec_ora(c, operand_val(c, m, Addressing::ZeroPage)) },
                operand_upd(c, m, Addressing::ZeroPage),
                (3 + cross_extra(c, m, Addressing::ZeroPage)) as u32,
            )
        },
        0x06 => {
            let (c1, m1) = spec_asl_mem(c, m, Addressing::ZeroPage);
            (Cpu { program_counter: add16(c.program_counter, 2), ..c1 }, m1, 5u32)
        },
        0x07 => {
            let (c1, m1) = spec_asl_mem(c, m, Addressing::ZeroPage);
            (
                Cpu { program_counter: add16(c.program_counter, 2), ..spec_ora(c1, operand_val(c1, m1, Addressing::ZeroPage)) },
                operand_upd(c1, m1, Addressing::ZeroPage),
                5u32,
            )
        },
        0x09 => {
            (
                Cpu { program_counter: add16(c.program_counter, 2), ..spec_ora(c, operand_val(c, m, Addressing::Immediate)) },
                operand_upd(c, m, Addressing::Immediate),
                (2 + cross_extra(c, m, Addressing::Immediate)) as u32,
            )
        },
        0x0D => {
            (
                Cpu { program_counter: add16(c.program_counter, 3), ..spec_ora(c, operand_val(c, m, Addressing::Absolute)) },
                operand_upd(c, m, Addressing::Absolute),
                (4 + cross_extra(c, m, Addressing::Absolute)) as u32,
            )
        },
        0x0E => {
            let (c1, m1) = spec_asl_mem(c, m, Addressing::Absolute);
            (Cpu { program_counter: add16(c.program_counter, 3), ..c1 }, m1, 6u32)
        },
        0x0F => {
            let (c1, m1) = spec_asl_mem(c, m, Addressing::Absolute);
            (
                Cpu { program_counter: add16(c.program_counter, 3), ..spec_ora(c1, operand_val(c1, m1, Addressing::Absolute)) },
                operand_upd(c1, m1, Addressing::Absolute),
                6u32,
            )
        },
        0x11 => {
            (
                Cpu { program_counter: add16(c.program_counter, 2), ..spec_ora(c, operand_val(c, m, Addressing::Indirect_Y)) },
                operand_upd(c, m, Addressing::Indirect_Y),
                (5 + cross_extra(c, m, Addressing::Indirect_Y)) as u32,
            )
        },
        0x13 => {
            let (c1, m1) = spec_asl_mem(c, m, Addressing::Indirect_Y);
            (
                Cpu { program_counter: add16(c.program_counter, 2), ..spec_ora(c1, operand_val(c1, m1, Addressing::Indirect_Y)) },
                operand_upd(c1, m1, Addressing::Indirect_Y),
                8u32,
            )
        },
        0x15 => {
            (
                Cpu { program_counter: add16(c.program_counter, 2), ..spec_ora(c, operand_val(c, m, Addressing::ZeroPageX)) },
                operand_upd(c, m, Addressing::ZeroPageX),
                (4 + cross_extra(c, m, Addressing::ZeroPageX)) as u32,
            )
        },
        0x16 => {
            let (c1, m1) = spec_asl_mem(c, m, Addressing::ZeroPageX);
            (Cpu { program_counter: add16(c.program_counter, 2), ..c1 }, m1, 6u32)
        },
        0x17 => {
            let (c1, m1) = spec_asl_mem(c, m, Addressing::ZeroPageX);
            (
                Cpu { program_counter: add16(c.program_counter, 2), ..spec_ora(c1, operand_val(c1, m1, Addressing::ZeroPageX)) },
                operand_upd(c1, m1, Addressing::ZeroPageX),
                6u32,
            )
        },
        0x19 => {
            (
                Cpu { program_counter: add16(c.program_counter, 3), ..spec_ora(c, operand_val(c, m, Addressing::AbsoluteY)) },
                operand_upd(c, m, Addressing::AbsoluteY),
                (4 + cross_extra(c, m, Addressing::AbsoluteY)) as u32,
            )
        },
        0x1B => {
            let (c1, m1) = spec_asl_mem(c, m, Addressing::AbsoluteY);
            (
                Cpu { program_counter: add16(c.program_counter, 3), ..spec_ora(c1, operand_val(c1, m1, Addressing::AbsoluteY)) },
                operand_upd(c1, m1, Addressing::AbsoluteY),
                7u32,
            )
        },
        0x1D => {
            (
                Cpu { program_counter: add16(c.program_counter, 3), ..spec_ora(c, operand_val(c, m, Addressing::AbsoluteX)) },
                operand_upd(c, m, Addressing::AbsoluteX),
                (4 + cross_extra(c, m, Addressing::AbsoluteX)) as u32,
            )
        },
        0x1E => {
            let (c1, m1) = spec_asl_mem(c, m, Addressing::AbsoluteX);
            (Cpu { program_counter: add16(c.program_counter, 3), ..c1 }, m1, 7u32)
        },
        0x1F => {
            let (c1, m1) = spec_asl_mem(c, m, Addressing::AbsoluteX);
            (
                Cpu { program_counter: add16(c.program_counter, 3), ..spec_ora(c1, operand_val(c1, m1, Addressing::AbsoluteX)) },
                operand_upd(c1, m1, Addressing::AbsoluteX),
                7u32,
            )
        },
        0x21 => {
            (
                Cpu { program_counter: add16(c.program_counter, 2), ..spec_and(c, operand_val(c, m, Addressing::IndirectX)) },
                operand_upd(c, m, Addressing::IndirectX),
                (6 + cross_extra(c, m, Addressing::IndirectX)) as u32,
            )
        },
        0x23 => {
            let (c1, m1) = spec_rol_mem(c, m, Addressing::IndirectX);
            (
                Cpu { program_counter: add16(c.program_counter, 2), ..spec_and(c1, operand_val(c1, m1, Addressing::IndirectX)) },
                operand_upd(c1, m1, Addressing::IndirectX),
                8u32,
            )
        },
        0x24 => {
            (
                Cpu {
                    reg_p: spec_bit_flags(c.reg_p, c.reg_a, bus_read_val(operand_addr_upd(c, m, Addressing::ZeroPage), operand_addr_val(c, m, Addressing::ZeroPage))),
                    program_counter: add16(c.program_counter, 2),
                    ..c
                },
                bus_read_upd(operand_addr_upd(c, m, Addressing::ZeroPage), operand_addr_val(c, m, Addressing::ZeroPage)),
                3u32,
            )
        },
        0x25 => {
            (
                Cpu { program_counter: add16(c.program_counter, 2), ..spec_and(c, operand_val(c, m, Addressing::ZeroPage)) },
                operand_upd(c, m, Addressing::ZeroPage),
                (3 + cross_extra(c, m, Addressing::ZeroPage)) as u32,
            )
        },
        0x26 => {
            let (c1, m1) = spec_rol_mem(c, m, Addressing::ZeroPage);
            (Cpu { program_counter: add16(c.program_counter, 2), ..c1 }, m1, 5u32)
        },
        0x27 => {
            let (c1, m1) = spec_rol_mem(c, m, Addressing::ZeroPage);
            (
                Cpu { program_counter: add16(c.program_counter, 2), ..spec_and(c1, operand_val(c1, m1, Addressing::ZeroPage)) },
                operand_upd(c1, m1, Addressing::ZeroPage),
                5u32,
            )
        },
        0x29 => {
            (
                Cpu { program_counter: add16(c.program_counter, 2), ..spec_and(c, operand_val(c, m, Addressing::Immediate)) },
                operand_upd(c, m, Addressing::Immediate),
                (2 + cross_extra(c, m, Addressing::Immediate)) as u32,
            )
        },
        0x2C => {
            (
                Cpu {
                    reg_p: spec_bit_flags(c.reg_p, c.reg_a, bus_read_val(operand_addr_upd(c, m, Addressing::Absolute), operand_addr_val(c, m, Addressing::Absolute))),
                    program_counter: add16(c.program_counter, 3),
                    ..c
                },
                bus_read_upd(operand_addr_upd(c, m, Addressing::Absolute), operand_addr_val(c, m, Addressing::Absolute)),
                4u32,
            )
        },
        0x2D => {
            (
                Cpu { program_counter: add16(c.program_counter, 3), ..spec_and(c, operand_val(c, m, Addressing::Absolute)) },
                operand_upd(c, m, Addressing::Absolute),
                (4 + cross_extra(c, m, Addressing::Absolute)) as u32,
            )
        },
        0x2E => {
            let (c1, m1) = spec_rol_mem(c, m, Addressing::Absolute);
            (Cpu { program_counter: add16(c.program_counter, 3), ..c1 }, m1, 6u32)
        },
        0x2F => {
            let (c1, m1) = spec_rol_mem(c, m, Addressing::Absolute);
            (
                Cpu { program_counter: add16(c.program_counter, 3), ..spec_and(c1, operand_val(c1, m1, Addressing::Absolute)) },
                operand_upd(c1, m1, Addressing::Absolute),
                6u32,
            )
        },
        0x31 => {
            (
                Cpu { program_counter: add16(c.program_counter, 2), ..spec_and(c, operand_val(c, m, Addressing::Indirect_Y)) },
                operand_upd(c, m, Addressing::Indirect_Y),
                (5 + cross_extra(c, m, Addressing::Indirect_Y)) as u32,
            )
        },
        0x33 => {
            let (c1, m1) = spec_rol_mem(c, m, Addressing::Indirect_Y);
            (
                Cpu { program_counter: add16(c.program_counter, 2), ..spec_and(c1, operand_val(c1, m1, Addressing::Indirect_Y)) },
                operand_upd(c1, m1, Addressing::Indirect_Y),
                8u32,
            )
        },
        0x35 => {
            (
                Cpu { program_counter: add16(c.program_counter, 2), ..spec_and(c, operand_val(c, m, Addressing::ZeroPageX)) },
                operand_upd(c, m, Addressing::ZeroPageX),
                (4 + cross_extra(c, m, Addressing::ZeroPageX)) as u32,
            )
        },
        0x36 => {
            let (c1, m1) = spec_rol_mem(c, m, Addressing::ZeroPageX);
            (Cpu { program_counter: add16(c.program_counter, 2), ..c1 }, m1, 6u32)
        },
        0x37 => {
            let (c1, m1) = spec_rol_mem(c, m, Addressing::ZeroPageX);
            (
                Cpu { program_counter: add16(c.program_counter, 2), ..spec_and(c1, operand_val(c1, m1, Addressing::ZeroPageX)) },
                operand_upd(c1, m1, Addressing::ZeroPageX),
                6u32,
            )
        },
        0x39 => {
            (
                Cpu { program_counter: add16(c.program_counter, 3), ..spec_and(c, operand_val(c, m, Addressing::AbsoluteY)) },
                operand_upd(c, m, Addressing::AbsoluteY),
                (4 + cross_extra(c, m, Addressing::AbsoluteY)) as u32,
            )
        },
        0x3B => {
            let (c1, m1) = spec_rol_mem(c, m, Addressing::AbsoluteY);
            (
                Cpu { program_counter: add16(c.program_counter, 3), ..spec_and(c1, operand_val(c1, m1, Addressing::AbsoluteY)) },
                operand_upd(c1, m1, Addressing::AbsoluteY),
                7u32,
            )
        },
        0x3D => {
            (
                Cpu { program_counter: add16(c.program_counter, 3), ..spec_and(c, operand_val(c, m, Addressing::AbsoluteX)) },
                operand_upd(c, m, Addressing::AbsoluteX),
                (4 + cross_extra(c, m, Addressing::AbsoluteX)) as u32,
            )
        },
        0x3E => {
            let (c1, m1) = spec_rol_mem(c, m, Addressing::AbsoluteX);
            (Cpu { program_counter: add16(c.program_counter, 3), ..c1 }, m1, 7u32)
        },
        0x3F => {
            let (c1, m1) = spec_rol_mem(c, m, Addressing::AbsoluteX);
            (
                Cpu { program_counter: add16(c.program_counter, 3), ..spec_and(c1, operand_val(c1, m1, Addressing::AbsoluteX)) },
                operand_upd(c1, m1, Addressing::AbsoluteX),
                7u32,
            )
        },
        0x41 => {
            (
                Cpu { program_counter: add16(c.program_counter, 2), ..spec_eor(c, operand_val(c, m, Addressing::IndirectX)) },
                operand_upd(c, m, Addressing::IndirectX),
                (6 + cross_extra(c, m, Addressing::IndirectX)) as u32,
            )
        },
        0x43 => {
            let (c1, m1) = spec_lsr_mem(c, m, Addressing::IndirectX);
            (
                Cpu { program_counter: add16(c.program_counter, 2), ..spec_eor(c1, operand_val(c1, m1, Addressing::IndirectX)) },
                operand_upd(c1, m1, Addressing::IndirectX),
                8u32,
            )
        },
        0x45 => {
            (
                Cpu { program_counter: add16(c.program_counter, 2), ..spec_eor(c, operand_val(c, m, Addressing::ZeroPage)) },
                operand_upd(c, m, Addressing::ZeroPage),
                (3 + cross_extra(c, m, Addressing::ZeroPage)) as u32,
            )
        },
        0x46 => {
            let (c1, m1) = spec_lsr_mem(c, m, Addressing::ZeroPage);
            (Cpu { program_counter: add16(c.program_counter, 2), ..c1 }, m1, 5u32)
        },
        0x47 => {
            let (c1, m1) = spec_lsr_mem(c, m, Addressing::ZeroPage);
            (
                Cpu { program_counter: add16(c.program_counter, 2), ..spec_eor(c1, operand_val(c1, m1, Addressing::ZeroPage)) },
                operand_upd(c1, m1, Addressing::ZeroPage),
                5u32,
            )
        },
        0x49 => {
            (
                Cpu { program_counter: add16(c.program_counter, 2), ..spec_eor(c, operand_val(c, m, Addressing::Immediate)) },
                operand_upd(c, m, Addressing::Immediate),
                (2 + cross_extra(c, m, Addressing::Immediate)) as u32,
            )
        },
        0x4D => {
            (
                Cpu { program_counter: add16(c.program_counter, 3), ..spec_eor(c, operand_val(c, m, Addressing::Absolute)) },
                operand_upd(c, m, Addressing::Absolute),
                (4 + cross_extra(c, m, Addressing::Absolute)) as u32,
            )
        },
        0x4E => {
            let (c1, m1) = spec_lsr_mem(c, m, Addressing::Absolute);
            (Cpu { program_counter: add16(c.program_counter, 3), ..c1 }, m1, 6u32)
        },
        0x4F => {
            let (c1, m1) = spec_lsr_mem(c, m, Addressing::Absolute);
            (
                Cpu { program_counter: add16(c.program_counter, 3), ..spec_eor(c1, operand_val(c1, m1, Addressing::Absolute)) },
                operand_upd(c1, m1, Addressing::Absolute),
                6u32,
            )
        },
        0x51 => {
            (
                Cpu { program_counter: add16(c.program_counter, 2), ..spec_eor(c, operand_val(c, m, Addressing::Indirect_Y)) },
                operand_upd(c, m, Addressing::Indirect_Y),
                (5 + cross_extra(c, m, Addressing::Indirect_Y)) as u32,
            )
        },
        0x53 => {
            let (c1, m1) = spec_lsr_mem(c, m, Addressing::Indirect_Y);
            (
                Cpu { program_counter: add16(c.program_counter, 2), ..spec_eor(c1, operand_val(c1, m1, Addressing::Indirect_Y)) },
                operand_upd(c1, m1, Addressing::Indirect_Y),
                8u32,
            )
        },
        0x55 => {
            (
                Cpu { program_counter: add16(c.program_counter, 2), ..spec_eor(c, operand_val(c, m, Addressing::ZeroPageX)) },
                operand_upd(c, m, Addressing::ZeroPageX),
                (4 + cross_extra(c, m, Addressing::ZeroPageX)) as u32,
            )
        },
        0x56 => {
            let (c1, m1) = spec_lsr_mem(c, m, Addressing::ZeroPageX);
            (Cpu { program_counter: add16(c.program_counter, 2), ..c1 }, m1, 6u32)
        },
        0x57 => {
            let (c1, m1) = spec_lsr_mem(c, m, Addressing::ZeroPageX);
            (
                Cpu { program_counter: add16(c.program_counter, 2), ..spec_eor(c1, operand_val(c1, m1, Addressing::ZeroPageX)) },
                operand_upd(c1, m1, Addressing::ZeroPageX),
                6u32,
            )
        },
        0x59 => {
            (
                Cpu { program_counter: add16(c.program_counter, 3), ..spec_eor(c, operand_val(c, m, Addressing::AbsoluteY)) },
                operand_upd(c, m, Addressing::AbsoluteY),
                (4 + cross_extra(c, m, Addressing::AbsoluteY)) as u32,
            )
        },
        0x5B => {
            let (c1, m1) = spec_lsr_mem(c, m, Addressing::AbsoluteY);
            (
                Cpu { program_counter: add16(c.program_counter, 3), ..spec_eor(c1, operand_val(c1, m1, Addressing::AbsoluteY)) },
                operand_upd(c1, m1, Addressing::AbsoluteY),
                7u32,
            )
        },
        0x5D => {
            (
                Cpu { program_counter: add16(c.program_counter, 3), ..spec_eor(c, operand_val(c, m, Addressing::AbsoluteX)) },
                operand_upd(c, m, Addressing::AbsoluteX),
                (4 + cross_extra(c, m, Addressing::AbsoluteX)) as u32,
            )
        },
        0x5E => {
            let (c1, m1) = spec_lsr_mem(c, m, Addressing::AbsoluteX);
            (Cpu { program_counter: add16(c.program_counter, 3), ..c1 }, m1, 7u32)
        },
        0x5F => {
            let (c1, m1) = spec_lsr_mem(c, m, Addressing::AbsoluteX);
            (
                Cpu { program_counter: add16(c.program_counter, 3), ..spec_eor(c1, operand_val(c1, m1, Addressing::AbsoluteX)) },
                operand_upd(c1, m1, Addressing::AbsoluteX),
                7u32,
            )
        },
        0x61 => {
            (
                Cpu { program_counter: add16(c.program_counter, 2), ..spec_adc(c, operand_val(c, m, Addressing::IndirectX)) },
                operand_upd(c, m, Addressing::IndirectX),
                (6 + cross_extra(c, m, Addressing::IndirectX)) as u32,
            )
        },
        0x63 => {
            let (c1, m1) = spec_ror_mem(c, m, Addressing::IndirectX);
            (
                Cpu { program_counter: add16(c.program_counter, 2), ..spec_adc(c1, operand_val(c1, m1, Addressing::IndirectX)) },
                operand_upd(c1, m1, Addressing::IndirectX),
                8u32,
            )
        },
        0x65 => {
            (
                Cpu { program_counter: add16(c.program_counter, 2), ..spec_adc(c, operand_val(c, m, Addressing::ZeroPage)) },
                operand_upd(c, m, Addressing::ZeroPage),
                (3 + cross_extra(c, m, Addressing::ZeroPage)) as u32,
            )
        },
        0x66 => {
            let (c1, m1) = spec_ror_mem(c, m, Addressing::ZeroPage);
            (Cpu { program_counter: add16(c.program_counter, 2), ..c1 }, m1, 5u32)
        },
        0x67 => {
            let (c1, m1) = spec_ror_mem(c, m, Addressing::ZeroPage);
            (
                Cpu { program_counter: add16(c.program_counter, 2), ..spec_adc(c1, operand_val(c1, m1, Addressing::ZeroPage)) },
                operand_upd(c1, m1, Addressing::ZeroPage),
                5u32,
            )
        },
        0x69 => {
            (
                Cpu { program_counter: add16(c.program_counter, 2), ..spec_adc(c, operand_val(c, m, Addressing::Immediate)) },
                operand_upd(c, m, Addressing::Immediate),
                (2 + cross_extra(c, m, Addressing::Immediate)) as u32,
            )
        },
        0x6D => {
            (
                Cpu { program_counter: add16(c.program_counter, 3), ..spec_adc(c, operand_val(c, m, Addressing::Absolute)) },
                operand_upd(c, m, Addressing::Absolute),
                (4 + cross_extra(c, m, Addressing::Absolute)) as u32,
            )
        },
        0x6E => {
            let (c1, m1) = spec_ror_mem(c, m, Addressing::Absolute);
            (Cpu { program_counter: add16(c.program_counter, 3), ..c1 }, m1, 6u32)
        },
        0x6F => {
            let (c1, m1) = spec_ror_mem(c, m, Addressing::Absolute);
            (
                Cpu { program_counter: add16(c.program_counter, 3), ..spec_adc(c1, operand_val(c1, m1, Addressing::Absolute)) },
                operand_upd(c1, m1, Addressing::Absolute),
                6u32,
            )
        },
        0x71 => {
            (
                Cpu { program_counter: add16(c.program_counter, 2), ..spec_adc(c, operand_val(c, m, Addressing::Indirect_Y)) },
                operand_upd(c, m, Addressing::Indirect_Y),
                (5 + cross_extra(c, m, Addressing::Indirect_Y)) as u32,
            )
        },
        0x73 => {
            let (c1, m1) = spec_ror_mem(c, m, Addressing::Indirect_Y);
            (
                Cpu { program_counter: add16(c.program_counter, 2), ..spec_adc(c1, operand_val(c1, m1, Addressing::Indirect_Y)) },
                operand_upd(c1, m1, Addressing::Indirect_Y),
                8u32,
            )
        },
        0x75 => {
            (
                Cpu { program_counter: add16(c.program_counter, 2), ..spec_adc(c, operand_val(c, m, Addressing::ZeroPageX)) },
                operand_upd(c, m, Addressing::ZeroPageX),
                (4 + cross_extra(c, m, Addressing::ZeroPageX)) as u32,
            )
        },
        0x76 => {
            let (c1, m1) = spec_ror_mem(c, m, Addressing::ZeroPageX);
            (Cpu { program_counter: add16(c.program_counter, 2), ..c1 }, m1, 6u32)
        },
        0x77 => {
            let (c1, m1) = spec_ror_mem(c, m, Addressing::ZeroPageX);
            (
                Cpu { program_counter: add16(c.program_counter, 2), ..spec_adc(c1, operand_val(c1, m1, Addressing::ZeroPageX)) },
                operand_upd(c1, m1, Addressing::ZeroPageX),
                6u32,
            )
        },
        0x79 => {
            (
                Cpu { program_counter: add16(c.program_counter, 3), ..spec_adc(c, operand_val(c, m, Addressing::AbsoluteY)) },
                operand_upd(c, m, Addressing::AbsoluteY),
                (4 + cross_extra(c, m, Addressing::AbsoluteY)) as u32,
            )
        },
        0x7B => {
            let (c1, m1) = spec_ror_mem(c, m, Addressing::AbsoluteY);
            (
                Cpu { program_counter: add16(c.program_counter, 3), ..spec_adc(c1, operand_val(c1, m1, Addressing::AbsoluteY)) },
                operand_upd(c1, m1, Addressing::AbsoluteY),
                7u32,
            )
        },
        0x7D => {
            (
                Cpu { program_counter: add16(c.program_counter, 3), ..spec_adc(c, operand_val(c, m, Addressing::AbsoluteX)) },
                operand_upd(c, m, Addressing::AbsoluteX),
                (4 + cross_extra(c, m, Addressing::AbsoluteX)) as u32,
            )
        },
        0x7E => {
            let (c1, m1) = spec_ror_mem(c, m, Addressing::AbsoluteX);
            (Cpu { program_counter: add16(c.program_counter, 3), ..c1 }, m1, 7u32)
        },
        0x7F => {
            let (c1, m1) = spec_ror_mem(c, m, Addressing::AbsoluteX);
            (
                Cpu { program_counter: add16(c.program_counter, 3), ..spec_adc(c1, operand_val(c1, m1, Addressing::AbsoluteX)) },
                operand_upd(c1, m1, Addressing::AbsoluteX),
                7u32,
            )
        },
        0x81 => {
            (
                Cpu { program_counter: add16(c.program_counter, 2), ..c },
                bus_write_upd(operand_addr_upd(c, m, Addressing::IndirectX), operand_addr_val(c, m, Addressing::IndirectX), c.reg_a),
                6u32,
            )
        },
        0x83 => {
            (
                Cpu { program_counter: add16(c.program_counter, 2), ..c },
                bus_write_upd(operand_addr_upd(c, m, Addressing::IndirectX), operand_addr_val(c, m, Addressing::IndirectX), c.reg_a & c.reg_x),
                6u32,
            )
        },
        0x84 => {
            (
                Cpu { program_counter: add16(c.program_counter, 2), ..c },
                bus_write_upd(operand_addr_upd(c, m, Addressing::ZeroPage), operand_addr_val(c, m, Addressing::ZeroPage), c.reg_y),
                3u32,
            )
        },
        0x85 => {
            (
                Cpu { program_counter: add16(c.program_counter, 2), ..c },
                bus_write_upd(operand_addr_upd(c, m, Addressing::ZeroPage), operand_addr_val(c, m, Addressing::ZeroPage), c.reg_a),
                3u32,
            )
        },
        0x86 => {
            (
                Cpu { program_counter: add16(c.program_counter, 2), ..c },
                bus_write_upd(operand_addr_upd(c, m, Addressing::ZeroPage), operand_addr_val(c, m, Addressing::ZeroPage), c.reg_x),
                3u32,
            )
        },
        0x87 => {
            (
                Cpu { program_counter: add16(c.program_counter, 2), ..c },
                bus_write_upd(operand_addr_upd(c, m, Addressing::ZeroPage), operand_addr_val(c, m, Addressing::ZeroPage), c.reg_a & c.reg_x),
                3u32,
            )
        },
        0x8C => {
            (
                Cpu { program_counter: add16(c.program_counter, 3), ..c },
                bus_write_upd(operand_addr_upd(c, m, Addressing::Absolute), operand_addr_val(c, m, Addressing::Absolute), c.reg_y),
                4u32,
            )
        },
        0x8D => {
            (
                Cpu { program_counter: add16(c.program_counter, 3), ..c },
                bus_write_upd(operand_addr_upd(c, m, Addressing::Absolute), operand_addr_val(c, m, Addressing::Absolute), c.reg_a),
                4u32,
            )
        },
        0x8E => {
            (
                Cpu { program_counter: add16(c.program_counter, 3), ..c },
                bus_write_upd(operand_addr_upd(c, m, Addressing::Absolute), operand_addr_val(c, m, Addressing::Absolute), c.reg_x),
                4u32,
            )
        },
        0x8F => {
            (
                Cpu { program_counter: add16(c.program_counter, 3), ..c },
                bus_write_upd(operand_addr_upd(c, m, Addressing::Absolute), operand_addr_val(c, m, Addressing::Absolute), c.reg_a & c.reg_x),
                4u32,
            )
        },
        0x91 => {
            (
                Cpu { program_counter: add16(c.program_counter, 2), ..c },
                bus_write_upd(operand_addr_upd(c, m, Addressing::Indirect_Y), operand_addr_val(c, m, Addressing::Indirect_Y), c.reg_a),
                6u32,
            )
        },
        0x94 => {
            (
                Cpu { program_counter: add16(c.program_counter, 2), ..c },
                bus_write_upd(operand_addr_upd(c, m, Addressing::ZeroPageX), operand_addr_val(c, m, Addressing::ZeroPageX), c.reg_y),
                4u32,
            )
        },
        0x95 => {
            (
                Cpu { program_counter: add16(c.program_counter, 2), ..c },
                bus_write_upd(operand_addr_upd(c, m, Addressing::ZeroPageX), operand_addr_val(c, m, Addressing::ZeroPageX), c.reg_a),
                4u32,
            )
        },
        0x96 => {
            (
                Cpu { program_counter: add16(c.program_counter, 2), ..c },
                bus_write_upd(operand_addr_upd(c, m, Addressing::ZeroPageY), operand_addr_val(c, m, Addressing::ZeroPageY), c.reg_x),
                4u32,
            )
        },
        0x97 => {
            (
                Cpu { program_counter: add16(c.program_counter, 2), ..c },
                bus_write_upd(operand_addr_upd(c, m, Addressing::ZeroPageY), operand_addr_val(c, m, Addressing::ZeroPageY), c.reg_a & c.reg_x),
                4u32,
            )
        },
        0x99 => {
            (
                Cpu { program_counter: add16(c.program_counter, 3), ..c },
                bus_write_upd(operand_addr_upd(c, m, Addressing::AbsoluteY), operand_addr_val(c, m, Addressing::AbsoluteY), c.reg_a),
                5u32,
            )
        },
        0x9D => {
            (
                Cpu { program_counter: add16(c.program_counter, 3), ..c },
                bus_write_upd(operand_addr_upd(c, m, Addressing::AbsoluteX), operand_addr_val(c, m, Addressing::AbsoluteX), c.reg_a),
                5u32,
            )
        },
        0xA0 => {
            let v = operand_val(c, m, Addressing::Immediate);
            (
                Cpu {
                    reg_y: v,
                    reg_p: nz_update(c.reg_p, v),
                    program_counter: add16(c.program_counter, 2),
                    ..c
                },
                operand_upd(c, m, Addressing::Immediate),
                (2 + cross_extra(c, m, Addressing::Immediate)) as u32,
            )
        },
        0xA1 => {
            let v = operand_val(c, m, Addressing::IndirectX);
            (
                Cpu {
                    reg_a: v,
                    reg_p: nz_update(c.reg_p, v),
                    program_counter: add16(c.program_counter, 2),
                    ..c
                },
                operand_upd(c, m, Addressing::IndirectX),
                (6 + cross_extra(c, m, Addressing::IndirectX)) as u32,
            )
        },
        0xA2 => {
            let v = operand_val(c, m, Addressing::Immediate);
            (
                Cpu {
                    reg_x: v,
                    reg_p: nz_update(c.reg_p, v),
                    program_counter: add16(c.program_counter, 2),
                    ..c
                },
                operand_upd(c, m, Addressing::Immediate),
                (2 + cross_extra(c, m, Addressing::Immediate)) as u32,
            )
        },
        0xA3 => {
            let v = operand_val(c, m, Addressing::IndirectX);
            (
                Cpu {
                    reg_a: v,
                reg_x: v,
                    reg_p: nz_update(c.reg_p, v),
                    program_counter: add16(c.program_counter, 2),
                    ..c
                },
                operand_upd(c, m, Addressing::IndirectX),
                (6 + cross_extra(c, m, Addressing::IndirectX)) as u32,
            )
        },
        0xA4 => {
            let v = operand_val(c, m, Addressing::ZeroPage);
            (
                Cpu {
                    reg_y: v,
                    reg_p: nz_update(c.reg_p, v),
                    program_counter: add16(c.program_counter, 2),
                    ..c
                },
                operand_upd(c, m, Addressing::ZeroPage),
                (3 + cross_extra(c, m, Addressing::ZeroPage)) as u32,
            )
        },
        0xA5 => {
            let v = operand_val(c, m, Addressing::ZeroPage);
            (
                Cpu {
                    reg_a: v,
                    reg_p: nz_update(c.reg_p, v),
                    program_counter: add16(c.program_counter, 2),
                    ..c
                },
                operand_upd(c, m, Addressing::ZeroPage),
                (3 + cross_extra(c, m, Addressing::ZeroPage)) as u32,
            )
        },
        0xA6 => {
            let v = operand_val(c, m, Addressing::ZeroPage);
            (
                Cpu {
                    reg_x: v,
                    reg_p: nz_update(c.reg_p, v),
                    program_counter: add16(c.program_counter, 2),
                    ..c
                },
                operand_upd(c, m, Addressing::ZeroPage),
                (3 + cross_extra(c, m, Addressing::ZeroPage)) as u32,
            )
        },
        0xA7 => {
            let v = operand_val(c, m, Addressing::ZeroPage);
            (
                Cpu {
                    reg_a: v,
                reg_x: v,
                    reg_p: nz_update(c.reg_p, v),
                    program_counter: add16(c.program_counter, 2),
                    ..c
                },
                operand_upd(c, m, Addressing::ZeroPage),
                (3 + cross_extra(c, m, Addressing::ZeroPage)) as u32,
            )
        },
        0xA9 => {
            let v = operand_val(c, m, Addressing::Immediate);
            (
                Cpu {
                    reg_a: v,
                    reg_p: nz_update(c.reg_p, v),
                    program_counter: add16(c.program_counter, 2),
                    ..c
                },
                operand_upd(c, m, Addressing::Immediate),
                (2 + cross_extra(c, m, Addressing::Immediate)) as u32,
            )
        },
        0xAC => {
            let v = operand_val(c, m, Addressing::Absolute);
            (
                Cpu {
                    reg_y: v,
                    reg_p: nz_update(c.reg_p, v),
                    program_counter: add16(c.program_counter, 3),
                    ..c
                },
                operand_upd(c, m, Addressing::Absolute),
                (4 + cross_extra(c, m, Addressing::Absolute)) as u32,
            )
        },
        0xAD => {
            let v = operand_val(c, m, Addressing::Absolute);
            (
                Cpu {
                    reg_a: v,
                    reg_p: nz_update(c.reg_p, v),
                    program_counter: add16(c.program_counter, 3),
                    ..c
                },
                operand_upd(c, m, Addressing::Absolute),
                (4 + cross_extra(c, m, Addressing::Absolute)) as u32,
            )
        },
        0xAE => {
            let v = operand_val(c, m, Addressing::Absolute);
            (
                Cpu {
                    reg_x: v,
                    reg_p: nz_update(c.reg_p, v),
                    program_counter: add16(c.program_counter, 3),
                    ..c
                },
                operand_upd(c, m, Addressing::Absolute),
                (4 + cross_extra(c, m, Addressing::Absolute)) as u32,
            )
        },
        0xAF => {
            let v = operand_val(c, m, Addressing::Absolute);
            (
                Cpu {
                    reg_a: v,
                reg_x: v,
                    reg_p: nz_update(c.reg_p, v),
                    program_counter: add16(c.program_counter, 3),
                    ..c
                },
                operand_upd(c, m, Addressing::Absolute),
                (4 + cross_extra(c, m, Addressing::Absolute)) as u32,
            )
        },
        0xB1 => {
            let v = operand_val(c, m, Addressing::Indirect_Y);
            (
                Cpu {
                    reg_a: v,
                    reg_p: nz_update(c.reg_p, v),
                    program_counter: add16(c.program_counter, 2),
                    ..c
                },
                operand_upd(c, m, Addressing::Indirect_Y),
                (5 + cross_extra(c, m, Addressing::Indirect_Y)) as u32,
            )
        },
        0xB3 => {
            let v = operand_val(c, m, Addressing::Indirect_Y);
            (
                Cpu {
                    reg_a: v,
                reg_x: v,
                    reg_p: nz_update(c.reg_p, v),
                    program_counter: add16(c.program_counter, 2),
                    ..c
                },
                operand_upd(c, m, Addressing::Indirect_Y),
                (5 + cross_extra(c, m, Addressing::Indirect_Y)) as u32,
            )
        },
        0xB4 => {
            let v = operand_val(c, m, Addressing::ZeroPageX);
            (
                Cpu {
                    reg_y: v,
                    reg_p: nz_update(c.reg_p, v),
                    program_counter: add16(c.program_counter, 2),
                    ..c
                },
                operand_upd(c, m, Addressing::ZeroPageX),
                (4 + cross_extra(c, m, Addressing::ZeroPageX)) as u32,
            )
        },
        0xB5 => {
            let v = operand_val(c, m, Addressing::ZeroPageX);
            (
                Cpu {
                    reg_a: v,
                    reg_p: nz_update(c.reg_p, v),
                    program_counter: add16(c.program_counter, 2),
                    ..c
                },
                operand_upd(c, m, Addressing::ZeroPageX),
                (4 + cross_extra(c, m, Addressing::ZeroPageX)) as u32,
            )
        },
        0xB6 => {
            let v = operand_val(c, m, Addressing::ZeroPageY);
            (
                Cpu {
                    reg_x: v,
                    reg_p: nz_update(c.reg_p, v),
                    program_counter: add16(c.program_counter, 2),
                    ..c
                },
                operand_upd(c, m, Addressing::ZeroPageY),
                (4 + cross_extra(c, m, Addressing::ZeroPageY)) as u32,
            )
        },
        0xB7 => {
            let v = operand_val(c, m, Addressing::ZeroPageY);
            (
                Cpu {
                    reg_a: v,
                reg_x: v,
                    reg_p: nz_update(c.reg_p, v),
                    program_counter: add16(c.program_counter, 2),
                    ..c
                },
                operand_upd(c, m, Addressing::ZeroPageY),
                (4 + cross_extra(c, m, Addressing::ZeroPageY)) as u32,
            )
        },
        0xB9 => {
            let v = operand_val(c, m, Addressing::AbsoluteY);
            (
                Cpu {
                    reg_a: v,
                    reg_p: nz_update(c.reg_p, v),
                    program_counter: add16(c.program_counter, 3),
                    ..c
                },
                operand_upd(c, m, Addressing::AbsoluteY),
                (4 + cross_extra(c, m, Addressing::AbsoluteY)) as u32,
            )
        },
        0xBC => {
            let v = operand_val(c, m, Addressing::AbsoluteX);
            (
                Cpu {
                    reg_y: v,
                    reg_p: nz_update(c.reg_p, v),
                    program_counter: add16(c.program_counter, 3),
                    ..c
                },
                operand_upd(c, m, Addressing::AbsoluteX),
                (4 + cross_extra(c, m, Addressing::AbsoluteX)) as u32,
            )
        },
        0xBD => {
            let v = operand_val(c, m, Addressing::AbsoluteX);
            (
                Cpu {
                    reg_a: v,
                    reg_p: nz_update(c.reg_p, v),
                    program_counter: add16(c.program_counter, 3),
                    ..c
                },
                operand_upd(c, m, Addressing::AbsoluteX),
                (4 + cross_extra(c, m, Addressing::AbsoluteX)) as u32,
            )
        },
        0xBE => {
            let v = operand_val(c, m, Addressing::AbsoluteY);
            (
                Cpu {
                    reg_x: v,
                    reg_p: nz_update(c.reg_p, v),
                    program_counter: add16(c.program_counter, 3),
                    ..c
                },
                operand_upd(c, m, Addressing::AbsoluteY),
                (4 + cross_extra(c, m, Addressing::AbsoluteY)) as u32,
            )
        },
        0xBF => {
            let v = operand_val(c, m, Addressing::AbsoluteY);
            (
                Cpu {
                    reg_a: v,
                reg_x: v,
                    reg_p: nz_update(c.reg_p, v),
                    program_counter: add16(c.program_counter, 3),
                    ..c
                },
                operand_upd(c, m, Addressing::AbsoluteY),
                (4 + cross_extra(c, m, Addressing::AbsoluteY)) as u32,
            )
        },
        0xC0 => {
            (
                Cpu { reg_p: compare_flags(c.reg_p, c.reg_y, operand_val(c, m, Addressing::Immediate)), program_counter: add16(c.program_counter, 2), ..c },
                operand_upd(c, m, Addressing::Immediate),
                2u32,
            )
        },
        0xC1 => {
            (
                Cpu { reg_p: compare_flags(c.reg_p, c.reg_a, operand_val(c, m, Addressing::IndirectX)), program_counter: add16(c.program_counter, 2), ..c },
                operand_upd(c, m, Addressing::IndirectX),
                (6 + cross_extra(c, m, Addressing::IndirectX)) as u32,
            )
        },
        0xC3 => {
            let (c1, m1) = spec_dcm(c, m, Addressing::IndirectX);
            (Cpu { program_counter: add16(c.program_counter, 2), ..c1 }, m1, 8u32)
        },
        0xC4 => {
            (
                Cpu { reg_p: compare_flags(c.reg_p, c.reg_y, operand_val(c, m, Addressing::ZeroPage)), program_counter: add16(c.program_counter, 2), ..c },
                operand_upd(c, m, Addressing::ZeroPage),
                3u32,
            )
        },
        0xC5 => {
            (
                Cpu { reg_p: compare_flags(c.reg_p, c.reg_a, operand_val(c, m, Addressing::ZeroPage)), program_counter: add16(c.program_counter, 2), ..c },
                operand_upd(c, m, Addressing::ZeroPage),
                (3 + cross_extra(c, m, Addressing::ZeroPage)) as u32,
            )
        },
        0xC6 => {
            let (c1, m1) = spec_dec_mem(c, m, Addressing::ZeroPage);
            (Cpu { program_counter: add16(c.program_counter, 2), ..c1 }, m1, 5u32)
        },
        0xC7 => {
            let (c1, m1) = spec_dcm(c, m, Addressing::ZeroPage);
            (Cpu { program_counter: add16(c.program_counter, 2), ..c1 }, m1, 5u32)
        },
        0xC9 => {
            (
                Cpu { reg_p: compare_flags(c.reg_p, c.reg_a, operand_val(c, m, Addressing::Immediate)), program_counter: add16(c.program_counter, 2), ..c },
                operand_upd(c, m, Addressing::Immediate),
                (2 + cross_extra(c, m, Addressing::Immediate)) as u32,
            )
        },
        0xCC => {
            (
                Cpu { reg_p: compare_flags(c.reg_p, c.reg_y, operand_val(c, m, Addressing::Absolute)), program_counter: add16(c.program_counter, 3), ..c },
                operand_upd(c, m, Addressing::Absolute),
                4u32,
            )
        },
        0xCD => {
            (
                Cpu { reg_p: compare_flags(c.reg_p, c.reg_a, operand_val(c, m, Addressing::Absolute)), program_counter: add16(c.program_counter, 3), ..c },
                operand_upd(c, m, Addressing::Absolute),
                (4 + cross_extra(c, m, Addressing::Absolute)) as u32,
            )
        },
        0xCE => {
            let (c1, m1) = spec_dec_mem(c, m, Addressing::Absolute);
            (Cpu { program_counter: add16(c.program_counter, 3), ..c1 }, m1, 6u32)
        },
        0xCF => {
            let (c1, m1) = spec_dcm(c, m, Addressing::Absolute);
            (Cpu { program_counter: add16(c.program_counter, 3), ..c1 }, m1, 6u32)
        },
        0xD1 => {
            (
                Cpu { reg_p: compare_flags(c.reg_p, c.reg_a, operand_val(c, m, Addressing::Indirect_Y)), program_counter: add16(c.program_counter, 2), ..c },
                operand_upd(c, m, Addressing::Indirect_Y),
                (5 + cross_extra(c, m, Addressing::Indirect_Y)) as u32,
            )
        },
        0xD3 => {
            let (c1, m1) = spec_dcm(c, m, Addressing::Indirect_Y);
            (Cpu { program_counter: add16(c.program_counter, 2), ..c1 }, m1, 8u32)
        },
        0xD5 => {
            (
                Cpu { reg_p: compare_flags(c.reg_p, c.reg_a, operand_val(c, m, Addressing::ZeroPageX)), program_counter: add16(c.program_counter, 2), ..c },
                operand_upd(c, m, Addressing::ZeroPageX),
                (4 + cross_extra(c, m, Addressing::ZeroPageX)) as u32,
            )
        },
        0xD6 => {
            let (c1, m1) = spec_dec_mem(c, m, Addressing::ZeroPageX);
            (Cpu { program_counter: add16(c.program_counter, 2), ..c1 }, m1, 6u32)
        },
        0xD7 => {
            let (c1, m1) = spec_dcm(c, m, Addressing::ZeroPageX);
            (Cpu { program_counter: add16(c.program_counter, 2), ..c1 }, m1, 6u32)
        },
        0xD9 => {
            (
                Cpu { reg_p: compare_flags(c.reg_p, c.reg_a, operand_val(c, m, Addressing::AbsoluteY)), program_counter: add16(c.program_counter, 3), ..c },
                operand_upd(c, m, Addressing::AbsoluteY),
                (4 + cross_extra(c, m, Addressing::AbsoluteY)) as u32,
            )
        },
        0xDB => {
            let (c1, m1) = spec_dcm(c, m, Addressing::AbsoluteY);
            (Cpu { program_counter: add16(c.program_counter, 3), ..c1 }, m1, 7u32)
        },
        0xDD => {
            (
                Cpu { reg_p: compare_flags(c.reg_p, c.reg_a, operand_val(c, m, Addressing::AbsoluteX)), program_counter: add16(c.program_counter, 3), ..c },
                operand_upd(c, m, Addressing::AbsoluteX),
                (4 + cross_extra(c, m, Addressing::AbsoluteX)) as u32,
            )
        },
        0xDE => {
            let (c1, m1) = spec_dec_mem(c, m, Addressing::AbsoluteX);
            (Cpu { program_counter: add16(c.program_counter, 3), ..c1 }, m1, 7u32)
        },
        0xDF => {
            let (c1, m1) = spec_dcm(c, m, Addressing::AbsoluteX);
            (Cpu { program_counter: add16(c.program_counter, 3), ..c1 }, m1, 7u32)
        },
        0xE0 => {
            (
                Cpu { reg_p: compare_flags(c.reg_p, c.reg_x, operand_val(c, m, Addressing::Immediate)), program_counter: add16(c.program_counter, 2), ..c },
                operand_upd(c, m, Addressing::Immediate),
                2u32,
            )
        },
        0xE1 => {
            (
                Cpu { program_counter: add16(c.program_counter, 2), ..spec_sbc(c, operand_val(c, m, Addressing::IndirectX)) },
                operand_upd(c, m, Addressing::IndirectX),
                (6 + cross_extra(c, m, Addressing::IndirectX)) as u32,
            )
        },
        0xE3 => {
            let (c1, m1) = spec_isc(c, m, Addressing::IndirectX);
            (Cpu { program_counter: add16(c.program_counter, 2), ..c1 }, m1, 8u32)
        },
        0xE4 => {
            (
                Cpu { reg_p: compare_flags(c.reg_p, c.reg_x, operand_val(c, m, Addressing::ZeroPage)), program_counter: add16(c.program_counter, 2), ..c },
                operand_upd(c, m, Addressing::ZeroPage),
                3u32,
            )
        },
        0xE5 => {
            (
                Cpu { program_counter: add16(c.program_counter, 2), ..spec_sbc(c, operand_val(c, m, Addressing::ZeroPage)) },
                operand_upd(c, m, Addressing::ZeroPage),
                (3 + cross_extra(c, m, Addressing::ZeroPage)) as u32,
            )
        },
        0xE6 => {
            let (c1, m1) = spec_inc_mem(c, m, Addressing::ZeroPage);
            (Cpu { program_counter: add16(c.program_counter, 2), ..c1 }, m1, 5u32)
        },
        0xE7 => {
            let (c1, m1) = spec_isc(c, m, Addressing::ZeroPage);
            (Cpu { program_counter: add16(c.program_counter, 2), ..c1 }, m1, 5u32)
        },
        0xE9 => {
            (
                Cpu { program_counter: add16(c.program_counter, 2), ..spec_sbc(c, operand_val(c, m, Addressing::Immediate)) },
                operand_upd(c, m, Addressing::Immediate),
                (2 + cross_extra(c, m, Addressing::Immediate)) as u32,
            )
        },
        0xEB => {
            (
                Cpu { program_counter: add16(c.program_counter, 2), ..spec_sbc(c, operand_val(c, m, Addressing::Immediate)) },
                operand_upd(c, m, Addressing::Immediate),
                (2 + cross_extra(c, m, Addressing::Immediate)) as u32,
            )
        },
        0xEC => {
            (
                Cpu { reg_p: compare_flags(c.reg_p, c.reg_x, operand_val(c, m, Addressing::Absolute)), program_counter: add16(c.program_counter, 3), ..c },
                operand_upd(c, m, Addressing::Absolute),
                4u32,
            )
        },
        0xED => {
            (
                Cpu { program_counter: add16(c.program_counter, 3), ..spec_sbc(c, operand_val(c, m, Addressing::Absolute)) },
                operand_upd(c, m, Addressing::Absolute),
                (4 + cross_extra(c, m, Addressing::Absolute)) as u32,
            )
        },
        0xEE => {
            let (c1, m1) = spec_inc_mem(c, m, Addressing::Absolute);
            (Cpu { program_counter: add16(c.program_counter, 3), ..c1 }, m1, 6u32)
        },
        0xEF => {
            let (c1, m1) = spec_isc(c, m, Addressing::Absolute);
            (Cpu { program_counter: add16(c.program_counter, 3), ..c1 }, m1, 6u32)
        },
        0xF1 => {
            (
                Cpu { program_counter: add16(c.program_counter, 2), ..spec_sbc(c, operand_val(c, m, Addressing::Indirect_Y)) },
                operand_upd(c, m, Addressing::Indirect_Y),
                (5 + cross_extra(c, m, Addressing::Indirect_Y)) as u32,
            )
        },
        0xF3 => {
            let (c1, m1) = spec_isc(c, m, Addressing::Indirect_Y);
            (Cpu { program_counter: add16(c.program_counter, 2), ..c1 }, m1, 8u32)
        },
        0xF5 => {
            (
                Cpu { program_counter: add16(c.program_counter, 2), ..spec_sbc(c, operand_val(c, m, Addressing::ZeroPageX)) },
                operand_upd(c, m, Addressing::ZeroPageX),
                (4 + cross_extra(c, m, Addressing::ZeroPageX)) as u32,
            )
        },
        0xF6 => {
            let (c1, m1) = spec_inc_mem(c, m, Addressing::ZeroPageX);
            (Cpu { program_counter: add16(c.program_counter, 2), ..c1 }, m1, 6u32)
        },
        0xF7 => {
            let (c1, m1) = spec_isc(c, m, Addressing::ZeroPageX);
            (Cpu { program_counter: add16(c.program_counter, 2), ..c1 }, m1, 6u32)
        },
        0xF9 => {
            (
                Cpu { program_counter: add16(c.program_counter, 3), ..spec_sbc(c, operand_val(c, m, Addressing::AbsoluteY)) },
                operand_upd(c, m, Addressing::AbsoluteY),
                (4 + cross_extra(c, m, Addressing::AbsoluteY)) as u32,
            )
        },
        0xFB => {
            let (c1, m1) = spec_isc(c, m, Addressing::AbsoluteY);
            (Cpu { program_counter: add16(c.program_counter, 3), ..c1 }, m1, 7u32)
        },
        0xFD => {
            (
                Cpu { program_counter: add16(c.program_counter, 3), ..spec_sbc(c, operand_val(c, m, Addressing::AbsoluteX)) },
                operand_upd(c, m, Addressing::AbsoluteX),
                (4 + cross_extra(c, m, Addressing::AbsoluteX)) as u32,
            )
        },
        0xFE => {
            let (c1, m1) = spec_inc_mem(c, m, Addressing::AbsoluteX);
            (Cpu { program_counter: add16(c.program_counter, 3), ..c1 }, m1, 7u32)
        },
        0xFF => {
            let (c1, m1) = spec_isc(c, m, Addressing::AbsoluteX);
            (Cpu { program_counter: add16(c.program_counter, 3), ..c1 }, m1, 7u32)
        },
        0x78 => {
            (Cpu { program_counter: add16(c.program_counter, 1), ..(Cpu { reg_p: spec_set_flag(c.reg_p, 0x04, true), ..c }) }, m, 2u32)
        },
        0x58 => {
            (Cpu { program_counter: add16(c.program_counter, 1), ..(Cpu { reg_p: spec_set_flag(c.reg_p, 0x04, false), ..c }) }, m, 2u32)
        },
        0x9A => {
            (Cpu { program_counter: add16(c.program_counter, 1), ..(Cpu { reg_s: c.reg_x, ..c }) }, m, 2u32)
        },
        0xBA => {
            (Cpu { program_counter: add16(c.program_counter, 1), ..(Cpu { reg_x: c.reg_s, reg_p: nz_update(c.reg_p, c.reg_s), ..c }) }, m, 2u32)
        },
        0xAA => {
            (Cpu { program_counter: add16(c.program_counter, 1), ..spec_tax(c) }, m, 2u32)
        },
        0x8A => {
            (Cpu { program_counter: add16(c.program_counter, 1), ..spec_txa(c) }, m, 2u32)
        },
        0x98 => {
            (Cpu { program_counter: add16(c.program_counter, 1), ..spec_tya(c) }, m, 2u32)
        },
        0xA8 => {
            (Cpu { program_counter: add16(c.program_counter, 1), ..spec_tay(c) }, m, 2u32)
        },
        0x0A => {
            (Cpu { program_counter: add16(c.program_counter, 1), ..(Cpu { reg_a: ((c.reg_a * 2) % 256) as u8, reg_p: spec_set_flag(nz_update(c.reg_p, ((c.reg_a * 2) % 256) as u8), 0x01, c.reg_a >= 128), ..c }) }, m, 2u32)
        },
        0x4A => {
            (Cpu { program_counter: add16(c.program_counter, 1), ..(Cpu { reg_a: c.reg_a >> 1u8, reg_p: spec_set_flag(nz_update(c.reg_p, c.reg_a >> 1u8), 0x01, c.reg_a & 1 != 0), ..c }) }, m, 2u32)
        },
        0x6A => {
            (Cpu { program_counter: add16(c.program_counter, 1), ..(Cpu { reg_a: spec_ror_val(c.reg_a, c.reg_p), reg_p: spec_set_flag(nz_update(c.reg_p, spec_ror_val(c.reg_a, c.reg_p)), 0x01, c.reg_a & 1 != 0), ..c }) }, m, 2u32)
        },
        0x2A => {
            (Cpu { program_counter: add16(c.program_counter, 1), ..(Cpu { reg_a: spec_rol_val(c.reg_a, c.reg_p), reg_p: spec_set_flag(nz_update(c.reg_p, spec_rol_val(c.reg_a, c.reg_p)), 0x01, c.reg_a >= 128), ..c }) }, m, 2u32)
        },
        0xE8 => {
            (Cpu { program_counter: add16(c.program_counter, 1), ..(Cpu { reg_x: add8(c.reg_x, 1), reg_p: nz_update(c.reg_p, add8(c.reg_x, 1)), ..c }) }, m, 2u32)
        },
        0xC8 => {
            (Cpu { program_counter: add16(c.program_counter, 1), ..(Cpu { reg_y: add8(c.reg_y, 1), reg_p: nz_update(c.reg_p, add8(c.reg_y, 1)), ..c }) }, m, 2u32)
        },
        0xCA => {
            (Cpu { program_counter: add16(c.program_counter, 1), ..(Cpu { reg_x: sub8(c.reg_x, 1), reg_p: nz_update(c.reg_p, sub8(c.reg_x, 1)), ..c }) }, m, 2u32)
        },
        0x88 => {
            (Cpu { program_counter: add16(c.program_counter, 1), ..(Cpu { reg_y: sub8(c.reg_y, 1), reg_p: nz_update(c.reg_p, sub8(c.reg_y, 1)), ..c }) }, m, 2u32)
        },
        0x38 => {
            (Cpu { program_counter: add16(c.program_counter, 1), ..(Cpu { reg_p: (c.reg_p | 0x01) as u8, ..c }) }, m, 2u32)
        },
        0xF8 => {
            (Cpu { program_counter: add16(c.program_counter, 1), ..(Cpu { reg_p: (c.reg_p | 0x08) as u8, ..c }) }, m, 2u32)
        },
        0x18 => {
            (Cpu { program_counter: add16(c.program_counter, 1), ..(Cpu { reg_p: (c.reg_p & 0xFE) as u8, ..c }) }, m, 2u32)
        },
        0xD8 => {
            (Cpu { program_counter: add16(c.program_counter, 1), ..(Cpu { reg_p: (c.reg_p & 0xF7) as u8, ..c }) }, m, 2u32)
        },
        0xB8 => {
            (Cpu { program_counter: add16(c.program_counter, 1), ..(Cpu { reg_p: (c.reg_p & 0xBF) as u8, ..c }) }, m, 2u32)
        },
        0x48 => {
            let (c1, m1) = spec_pha(c, m);
            (Cpu { program_counter: add16(c1.program_counter, 1), ..c1 }, m1, 3u32)
        },
        0x08 => {
            let (c1, m1) = spec_php(c, m);
            (Cpu { program_counter: add16(c1.program_counter, 1), ..c1 }, m1, 3u32)
        },
        0x28 => {
            let (c1, m1) = spec_plp(c, m);
            (Cpu { program_counter: add16(c1.program_counter, 1), ..c1 }, m1, 4u32)
        },
        0x68 => {
            let (c1, m1) = spec_pla(c, m);
            (Cpu { program_counter: add16(c1.program_counter, 1), ..c1 }, m1, 4u32)
        },
        0x60 => {
            let (c1, m1) = spec_rts(c, m);
            (Cpu { program_counter: add16(c1.program_counter, 1), ..c1 }, m1, 6u32)
        },
        0x40 => {
            let (c1, m1) = spec_rti(c, m);
            (c1, m1, 6u32)
        },
        0x20 => {
            let (c1, m1) = spec_jsr(c, m);
            (c1, m1, 6u32)
        },
        0x00 => {
            let (c1, m1) = spec_brk(c, m);
            (c1, m1, 7u32)
        },
        0x4C => {
            (Cpu { program_counter: im16_val(c, m), ..c }, im16_upd(c, m), 3u32)
        },
        0x6C => {
            (
                Cpu { program_counter: operand_addr_val(c, m, Addressing::Indirect), ..c },
                operand_addr_upd(c, m, Addressing::Indirect),
                5u32,
            )
        },
        0xD0 => {
            let t = c.reg_p & 0x02 == 0;
            let (c1, m1) = spec_branch(c, m, t);
            (
                Cpu { program_counter: add16(c1.program_counter, 2), ..c1 },
                m1,
                (2 + spec_branch_extra(c, m, t)) as u32,
            )
        },
        0x10 => {
            let t = c.reg_p & 0x80 == 0;
            let (c1, m1) = spec_branch(c, m, t);
            (
                Cpu { program_counter: add16(c1.program_counter, 2), ..c1 },
                m1,
                (2 + spec_branch_extra(c, m, t)) as u32,
            )
        },
        0x90 => {
            let t = c.reg_p & 0x01 == 0;
            let (c1, m1) = spec_branch(c, m, t);
            (
                Cpu { program_counter: add16(c1.program_counter, 2), ..c1 },
                m1,
                (2 + spec_branch_extra(c, m, t)) as u32,
            )
        },
        0xB0 => {
            let t = c.reg_p & 0x01 != 0;
            let (c1, m1) = spec_branch(c, m, t);
            (
                Cpu { program_counter: add16(c1.program_counter, 2), ..c1 },
                m1,
                (2 + spec_branch_extra(c, m, t)) as u32,
            )
        },
        0x70 => {
            let t = c.reg_p & 0x40 != 0;
            let (c1, m1) = spec_branch(c, m, t);
            (
                Cpu { program_counter: add16(c1.program_counter, 2), ..c1 },
                m1,
                (2 + spec_branch_extra(c, m, t)) as u32,
            )
        },
        0x50 => {
            let t = c.reg_p & 0x40 == 0;
            let (c1, m1) = spec_branch(c, m, t);
            (
                Cpu { program_counter: add16(c1.program_counter, 2), ..c1 },
                m1,
                (2 + spec_branch_extra(c, m, t)) as u32,
            )
        },
        0x30 => {
            let t = c.reg_p & 0x80 != 0;
            let (c1, m1) = spec_branch(c, m, t);
            (
                Cpu { program_counter: add16(c1.program_counter, 2), ..c1 },
                m1,
                (2 + spec_branch_extra(c, m, t)) as u32,
            )
        },
        0xF0 => {
            let t = c.reg_p & 0x02 != 0;
            let (c1, m1) = spec_branch(c, m, t);
            (
                Cpu { program_counter: add16(c1.program_counter, 2), ..c1 },
                m1,
                (2 + spec_branch_extra(c, m, t)) as u32,
            )
        },
        0xEA | 0x1A | 0x3A | 0x5A | 0x7A | 0xDA | 0xFA => {
            (Cpu { program_counter: add16(c.program_counter, 1), ..c }, m, 2u32)
        },
        0x0C | 0x1C | 0x3C | 0x5C | 0x7C | 0xDC | 0xFC => {
            (Cpu { program_counter: add16(c.program_counter, 3), ..c }, m, 4u32)
        },
        0x04 | 0x44 | 0x64 => {
            (Cpu { program_counter: add16(c.program_counter, 2), ..c }, m, 3u32)
        },
        0x14 | 0x34 | 0x54 | 0x74 | 0xD4 | 0xF4 => {
            (Cpu { program_counter: add16(c.program_counter, 2), ..c }, m, 4u32)
        },
        0x80 => {
            (Cpu { program_counter: add16(c.program_counter, 2), ..c }, m, 2u32)
        },
        _ => {
            (Cpu { program_counter: add16(c.program_counter, 1), ..c }, m, 2u32)
        },
    }
}

#[allow(non_snake_case)]
impl Cpu {
    /// Decodes and executes one opcode: the dispatch table of the whole
    /// documented instruction set and the undocumented LAX, SAX, DCP,
    /// ISB, SLO, RLA, SRE, RRA, the SBC alias and the sized NOPs.
    /// Unrecognized opcodes run as one-byte NOPs. The cycle count is the
    /// base cost of the table plus the taken-branch and page-crossing
    /// penalties; it is always at least two.
    #[verifier::rlimit(100)]
    #[verifier::spinoff_prover]
    pub fn interpret(&mut self, opcode: u8, memory_map: &mut MemoryMap) -> (cycles: u32)
        requires
            mem_wf(old(memory_map)@),
        ensures
            *final(self) == spec_interpret(*old(self), old(memory_map)@, opcode).0,
            final(memory_map)@ == spec_interpret(*old(self), old(memory_map)@, opcode).1,
            cycles == spec_interpret(*old(self), old(memory_map)@, opcode).2,
            2 <= cycles <= 8,
            mem_wf(final(memory_map)@),
            wf_p(old(self).reg_p) ==> wf_p(final(self).reg_p),
    {
        proof {
            reveal(spec_interpret);
        }
        match opcode {
            0x01 => {
                let e = self.op_ora(&Addressing::IndirectX, memory_map);
                self.program_counter = wrap_add16(self.program_counter, 2);
                6 + e
            },
            0x03 => {
                self.op_aso_with_addressing(&Addressing::IndirectX, memory_map);
                self.program_counter = wrap_add16(self.program_counter, 2);
                8
            },
            0x05 => {
                let e = self.op_ora(&Addressing::ZeroPage, memory_map);
                self.program_counter = wrap_add16(self.program_counter, 2);
                3 + e
            },
            0x06 => {
                self.op_asl_with_addressing(&Addressing::ZeroPage, memory_map);
                self.program_counter = wrap_add16(self.program_counter, 2);
                5
            },
            0x07 => {
                self.op_aso_with_addressing(&Addressing::ZeroPage, memory_map);
                self.program_counter = wrap_add16(self.program_counter, 2);
                5
            },
            0x09 => {
                let e = self.op_ora(&Addressing::Immediate, memory_map);
                self.program_counter = wrap_add16(self.program_counter, 2);
                2 + e
            },
            0x0D => {
                let e = self.op_ora(&Addressing::Absolute, memory_map);
                self.program_counter = wrap_add16(self.program_counter, 3);
                4 + e
            },
            0x0E => {
                self.op_asl_with_addressing(&Addressing::Absolute, memory_map);
                self.program_counter = wrap_add16(self.program_counter, 3);
                6
            },
            0x0F => {
                self.op_aso_with_addressing(&Addressing::Absolute, memory_map);
                self.program_counter = wrap_add16(self.program_counter, 3);
                6
            },
            0x11 => {
                let e = self.op_ora(&Addressing::Indirect_Y, memory_map);
                self.program_counter = wrap_add16(self.program_counter, 2);
                5 + e
            },
            0x13 => {
                self.op_aso_with_addressing(&Addressing::Indirect_Y, memory_map);
                self.program_counter = wrap_add16(self.program_counter, 2);
                8
            },
            0x15 => {
                let e = self.op_ora(&Addressing::ZeroPageX, memory_map);
                self.program_counter = wrap_add16(self.program_counter, 2);
                4 + e
            },
            0x16 => {
                self.op_asl_with_addressing(&Addressing::ZeroPageX, memory_map);
                self.program_counter = wrap_add16(self.program_counter, 2);
                6
            },
            0x17 => {
                self.op_aso_with_addressing(&Addressing::ZeroPageX, memory_map);
                self.program_counter = wrap_add16(self.program_counter, 2);
                6
            },
            0x19 => {
                let e = self.op_ora(&Addressing::AbsoluteY, memory_map);
                self.program_counter = wrap_add16(self.program_counter, 3);
                4 + e
            },
            0x1B => {
                self.op_aso_with_addressing(&Addressing::AbsoluteY, memory_map);
                self.program_counter = wrap_add16(self.program_counter, 3);
                7
            },
            0x1D => {
                let e = self.op_ora(&Addressing::AbsoluteX, memory_map);
                self.program_counter = wrap_add16(self.program_counter, 3);
                4 + e
            },
            0x1E => {
                self.op_asl_with_addressing(&Addressing::AbsoluteX, memory_map);
                self.program_counter = wrap_add16(self.program_counter, 3);
                7
            },
            0x1F => {
                self.op_aso_with_addressing(&Addressing::AbsoluteX, memory_map);
                self.program_counter = wrap_add16(self.program_counter, 3);
                7
            },
            0x21 => {
                let e = self.op_and(&Addressing::IndirectX, memory_map);
                self.program_counter = wrap_add16(self.program_counter, 2);
                6 + e
            },
            0x23 => {
                self.op_rla_with_addressing(&Addressing::IndirectX, memory_map);
                self.program_counter = wrap_add16(self.program_counter, 2);
                8
            },
            0x24 => {
                self.op_bit(&Addressing::ZeroPage, memory_map);
                self.program_counter = wrap_add16(self.program_counter, 2);
                3
            },
            0x25 => {
                let e = self.op_and(&Addressing::ZeroPage, memory_map);
                self.program_counter = wrap_add16(self.program_counter, 2);
                3 + e
            },
            0x26 => {
                self.op_rol_with_addressing(&Addressing::ZeroPage, memory_map);
                self.program_counter = wrap_add16(self.program_counter, 2);
                5
            },
            0x27 => {
                self.op_rla_with_addressing(&Addressing::ZeroPage, memory_map);
                self.program_counter = wrap_add16(self.program_counter, 2);
                5
            },
            0x29 => {
                let e = self.op_and(&Addressing::Immediate, memory_map);
                self.program_counter = wrap_add16(self.program_counter, 2);
                2 + e
            },
            0x2C => {
                self.op_bit(&Addressing::Absolute, memory_map);
                self.program_counter = wrap_add16(self.program_counter, 3);
                4
            },
            0x2D => {
                let e = self.op_and(&Addressing::Absolute, memory_map);
                self.program_counter = wrap_add16(self.program_counter, 3);
                4 + e
            },
            0x2E => {
                self.op_rol_with_addressing(&Addressing::Absolute, memory_map);
                self.program_counter = wrap_add16(self.program_counter, 3);
                6
            },
            0x2F => {
                self.op_rla_with_addressing(&Addressing::Absolute, memory_map);
                self.program_counter = wrap_add16(self.program_counter, 3);
                6
            },
            0x31 => {
                let e = self.op_and(&Addressing::Indirect_Y, memory_map);
                self.program_counter = wrap_add16(self.program_counter, 2);
                5 + e
            },
            0x33 => {
                self.op_rla_with_addressing(&Addressing::Indirect_Y, memory_map);
                self.program_counter = wrap_add16(self.program_counter, 2);
                8
            },
            0x35 => {
                let e = self.op_and(&Addressing::ZeroPageX, memory_map);
                self.program_counter = wrap_add16(self.program_counter, 2);
                4 + e
            },
            0x36 => {
                self.op_rol_with_addressing(&Addressing::ZeroPageX, memory_map);
                self.program_counter = wrap_add16(self.program_counter, 2);
                6
            },
            0x37 => {
                self.op_rla_with_addressing(&Addressing::ZeroPageX, memory_map);
                self.program_counter = wrap_add16(self.program_counter, 2);
                6
            },
            0x39 => {
                let e = self.op_and(&Addressing::AbsoluteY, memory_map);
                self.program_counter = wrap_add16(self.program_counter, 3);
                4 + e
            },
            0x3B => {
                self.op_rla_with_addressing(&Addressing::AbsoluteY, memory_map);
                self.program_counter = wrap_add16(self.program_counter, 3);
                7
            },
            0x3D => {
                let e = self.op_and(&Addressing::AbsoluteX, memory_map);
                self.program_counter = wrap_add16(self.program_counter, 3);
                4 + e
            },
            0x3E => {
                self.op_rol_with_addressing(&Addressing::AbsoluteX, memory_map);
                self.program_counter = wrap_add16(self.program_counter, 3);
                7
            },
            0x3F => {
                self.op_rla_with_addressing(&Addressing::AbsoluteX, memory_map);
                self.program_counter = wrap_add16(self.program_counter, 3);
                7
            },
            0x41 => {
                let e = self.op_eor(&Addressing::IndirectX, memory_map);
                self.program_counter = wrap_add16(self.program_counter, 2);
                6 + e
            },
            0x43 => {
                self.op_lse_with_addressing(&Addressing::IndirectX, memory_map);
                self.program_counter = wrap_add16(self.program_counter, 2);
                8
            },
            0x45 => {
                let e = self.op_eor(&Addressing::ZeroPage, memory_map);
                self.program_counter = wrap_add16(self.program_counter, 2);
                3 + e
            },
            0x46 => {
                self.op_lsr_with_addressing(&Addressing::ZeroPage, memory_map);
                self.program_counter = wrap_add16(self.program_counter, 2);
                5
            },
            0x47 => {
                self.op_lse_with_addressing(&Addressing::ZeroPage, memory_map);
                self.program_counter = wrap_add16(self.program_counter, 2);
                5
            },
            0x49 => {
                let e = self.op_eor(&Addressing::Immediate, memory_map);
                self.program_counter = wrap_add16(self.program_counter, 2);
                2 + e
            },
            0x4D => {
                let e = self.op_eor(&Addressing::Absolute, memory_map);
                self.program_counter = wrap_add16(self.program_counter, 3);
                4 + e
            },
            0x4E => {
                self.op_lsr_with_addressing(&Addressing::Absolute, memory_map);
                self.program_counter = wrap_add16(self.program_counter, 3);
                6
            },
            0x4F => {
                self.op_lse_with_addressing(&Addressing::Absolute, memory_map);
                self.program_counter = wrap_add16(self.program_counter, 3);
                6
            },
            0x51 => {
                let e = self.op_eor(&Addressing::Indirect_Y, memory_map);
                self.program_counter = wrap_add16(self.program_counter, 2);
                5 + e
            },
            0x53 => {
                self.op_lse_with_addressing(&Addressing::Indirect_Y, memory_map);
                self.program_counter = wrap_add16(self.program_counter, 2);
                8
            },
            0x55 => {
                let e = self.op_eor(&Addressing::ZeroPageX, memory_map);
                self.program_counter = wrap_add16(self.program_counter, 2);
                4 + e
            },
            0x56 => {
                self.op_lsr_with_addressing(&Addressing::ZeroPageX, memory_map);
                self.program_counter = wrap_add16(self.program_counter, 2);
                6
            },
            0x57 => {
                self.op_lse_with_addressing(&Addressing::ZeroPageX, memory_map);
                self.program_counter = wrap_add16(self.program_counter, 2);
                6
            },
            0x59 => {
                let e = self.op_eor(&Addressing::AbsoluteY, memory_map);
                self.program_counter = wrap_add16(self.program_counter, 3);
                4 + e
            },
            0x5B => {
                self.op_lse_with_addressing(&Addressing::AbsoluteY, memory_map);
                self.program_counter = wrap_add16(self.program_counter, 3);
                7
            },
            0x5D => {
                let e = self.op_eor(&Addressing::AbsoluteX, memory_map);
                self.program_counter = wrap_add16(self.program_counter, 3);
                4 + e
            },
            0x5E => {
                self.op_lsr_with_addressing(&Addressing::AbsoluteX, memory_map);
                self.program_counter = wrap_add16(self.program_counter, 3);
                7
            },
            0x5F => {
                self.op_lse_with_addressing(&Addressing::AbsoluteX, memory_map);
                self.program_counter = wrap_add16(self.program_counter, 3);
                7
            },
            0x61 => {
                let e = self.op_adc(&Addressing::IndirectX, memory_map);
                self.program_counter = wrap_add16(self.program_counter, 2);
                6 + e
            },
            0x63 => {
                self.op_rra_with_addressing(&Addressing::IndirectX, memory_map);
                self.program_counter = wrap_add16(self.program_counter, 2);
                8
            },
            0x65 => {
                let e = self.op_adc(&Addressing::ZeroPage, memory_map);
                self.program_counter = wrap_add16(self.program_counter, 2);
                3 + e
            },
            0x66 => {
                self.op_ror_with_addressing(&Addressing::ZeroPage, memory_map);
                self.program_counter = wrap_add16(self.program_counter, 2);
                5
            },
            0x67 => {
                self.op_rra_with_addressing(&Addressing::ZeroPage, memory_map);
                self.program_counter = wrap_add16(self.program_counter, 2);
                5
            },
            0x69 => {
                let e = self.op_adc(&Addressing::Immediate, memory_map);
                self.program_counter = wrap_add16(self.program_counter, 2);
                2 + e
            },
            0x6D => {
                let e = self.op_adc(&Addressing::Absolute, memory_map);
                self.program_counter = wrap_add16(self.program_counter, 3);
                4 + e
            },
            0x6E => {
                self.op_ror_with_addressing(&Addressing::Absolute, memory_map);
                self.program_counter = wrap_add16(self.program_counter, 3);
                6
            },
            0x6F => {
                self.op_rra_with_addressing(&Addressing::Absolute, memory_map);
                self.program_counter = wrap_add16(self.program_counter, 3);
                6
            },
            0x71 => {
                let e = self.op_adc(&Addressing::Indirect_Y, memory_map);
                self.program_counter = wrap_add16(self.program_counter, 2);
                5 + e
            },
            0x73 => {
                self.op_rra_with_addressing(&Addressing::Indirect_Y, memory_map);
                self.program_counter = wrap_add16(self.program_counter, 2);
                8
            },
            0x75 => {
                let e = self.op_adc(&Addressing::ZeroPageX, memory_map);
                self.program_counter = wrap_add16(self.program_counter, 2);
                4 + e
            },
            0x76 => {
                self.op_ror_with_addressing(&Addressing::ZeroPageX, memory_map);
                self.program_counter = wrap_add16(self.program_counter, 2);
                6
            },
            0x77 => {
                self.op_rra_with_addressing(&Addressing::ZeroPageX, memory_map);
                self.program_counter = wrap_add16(self.program_counter, 2);
                6
            },
            0x79 => {
                let e = self.op_adc(&Addressing::AbsoluteY, memory_map);
                self.program_counter = wrap_add16(self.program_counter, 3);
                4 + e
            },
            0x7B => {
                self.op_rra_with_addressing(&Addressing::AbsoluteY, memory_map);
                self.program_counter = wrap_add16(self.program_counter, 3);
                7
            },
            0x7D => {
                let e = self.op_adc(&Addressing::AbsoluteX, memory_map);
                self.program_counter = wrap_add16(self.program_counter, 3);
                4 + e
            },
            0x7E => {
                self.op_ror_with_addressing(&Addressing::AbsoluteX, memory_map);
                self.program_counter = wrap_add16(self.program_counter, 3);
                7
            },
            0x7F => {
                self.op_rra_with_addressing(&Addressing::AbsoluteX, memory_map);
                self.program_counter = wrap_add16(self.program_counter, 3);
                7
            },
            0x81 => {
                self.op_sta(&Addressing::IndirectX, memory_map);
                self.program_counter = wrap_add16(self.program_counter, 2);
                6
            },
            0x83 => {
                self.op_sax(&Addressing::IndirectX, memory_map);
                self.program_counter = wrap_add16(self.program_counter, 2);
                6
            },
            0x84 => {
                self.op_sty(&Addressing::ZeroPage, memory_map);
                self.program_counter = wrap_add16(self.program_counter, 2);
                3
            },
            0x85 => {
                self.op_sta(&Addressing::ZeroPage, memory_map);
                self.program_counter = wrap_add16(self.program_counter, 2);
                3
            },
            0x86 => {
                self.op_stx(&Addressing::ZeroPage, memory_map);
                self.program_counter = wrap_add16(self.program_counter, 2);
                3
            },
            0x87 => {
                self.op_sax(&Addressing::ZeroPage, memory_map);
                self.program_counter = wrap_add16(self.program_counter, 2);
                3
            },
            0x8C => {
                self.op_sty(&Addressing::Absolute, memory_map);
                self.program_counter = wrap_add16(self.program_counter, 3);
                4
            },
            0x8D => {
                self.op_sta(&Addressing::Absolute, memory_map);
                self.program_counter = wrap_add16(self.program_counter, 3);
                4
            },
            0x8E => {
                self.op_stx(&Addressing::Absolute, memory_map);
                self.program_counter = wrap_add16(self.program_counter, 3);
                4
            },
            0x8F => {
                self.op_sax(&Addressing::Absolute, memory_map);
                self.program_counter = wrap_add16(self.program_counter, 3);
                4
            },
            0x91 => {
                self.op_sta(&Addressing::Indirect_Y, memory_map);
                self.program_counter = wrap_add16(self.program_counter, 2);
                6
            },
            0x94 => {
                self.op_sty(&Addressing::ZeroPageX, memory_map);
                self.program_counter = wrap_add16(self.program_counter, 2);
                4
            },
            0x95 => {
                self.op_sta(&Addressing::ZeroPageX, memory_map);
                self.program_counter = wrap_add16(self.program_counter, 2);
                4
            },
            0x96 => {
                self.op_stx(&Addressing::ZeroPageY, memory_map);
                self.program_counter = wrap_add16(self.program_counter, 2);
                4
            },
            0x97 => {
                self.op_sax(&Addressing::ZeroPageY, memory_map);
                self.program_counter = wrap_add16(self.program_counter, 2);
                4
            },
            0x99 => {
                self.op_sta(&Addressing::AbsoluteY, memory_map);
                self.program_counter = wrap_add16(self.program_counter, 3);
                5
            },
            0x9D => {
                self.op_sta(&Addressing::AbsoluteX, memory_map);
                self.program_counter = wrap_add16(self.program_counter, 3);
                5
            },
            0xA0 => {
                let e = self.op_ldy(&Addressing::Immediate, memory_map);
                self.program_counter = wrap_add16(self.program_counter, 2);
                2 + e
            },
            0xA1 => {
                let e = self.op_lda(&Addressing::IndirectX, memory_map);
                self.program_counter = wrap_add16(self.program_counter, 2);
                6 + e
            },
            0xA2 => {
                let e = self.op_ldx(&Addressing::Immediate, memory_map);
                self.program_counter = wrap_add16(self.program_counter, 2);
                2 + e
            },
            0xA3 => {
                let e = self.op_lax(&Addressing::IndirectX, memory_map);
                self.program_counter = wrap_add16(self.program_counter, 2);
                6 + e
            },
            0xA4 => {
                let e = self.op_ldy(&Addressing::ZeroPage, memory_map);
                self.program_counter = wrap_add16(self.program_counter, 2);
                3 + e
            },
            0xA5 => {
                let e = self.op_lda(&Addressing::ZeroPage, memory_map);
                self.program_counter = wrap_add16(self.program_counter, 2);
                3 + e
            },
            0xA6 => {
                let e = self.op_ldx(&Addressing::ZeroPage, memory_map);
                self.program_counter = wrap_add16(self.program_counter, 2);
                3 + e
            },
            0xA7 => {
                let e = self.op_lax(&Addressing::ZeroPage, memory_map);
                self.program_counter = wrap_add16(self.program_counter, 2);
                3 + e
            },
            0xA9 => {
                let e = self.op_lda(&Addressing::Immediate, memory_map);
                self.program_counter = wrap_add16(self.program_counter, 2);
                2 + e
            },
            0xAC => {
                let e = self.op_ldy(&Addressing::Absolute, memory_map);
                self.program_counter = wrap_add16(self.program_counter, 3);
                4 + e
            },
            0xAD => {
                let e = self.op_lda(&Addressing::Absolute, memory_map);
                self.program_counter = wrap_add16(self.program_counter, 3);
                4 + e
            },
            0xAE => {
                let e = self.op_ldx(&Addressing::Absolute, memory_map);
                self.program_counter = wrap_add16(self.program_counter, 3);
                4 + e
            },
            0xAF => {
                let e = self.op_lax(&Addressing::Absolute, memory_map);
                self.program_counter = wrap_add16(self.program_counter, 3);
                4 + e
            },
            0xB1 => {
                let e = self.op_lda(&Addressing::Indirect_Y, memory_map);
                self.program_counter = wrap_add16(self.program_counter, 2);
                5 + e
            },
            0xB3 => {
                let e = self.op_lax(&Addressing::Indirect_Y, memory_map);
                self.program_counter = wrap_add16(self.program_counter, 2);
                5 + e
            },
            0xB4 => {
                let e = self.op_ldy(&Addressing::ZeroPageX, memory_map);
                self.program_counter = wrap_add16(self.program_counter, 2);
                4 + e
            },
            0xB5 => {
                let e = self.op_lda(&Addressing::ZeroPageX, memory_map);
                self.program_counter = wrap_add16(self.program_counter, 2);
                4 + e
            },
            0xB6 => {
                let e = self.op_ldx(&Addressing::ZeroPageY, memory_map);
                self.program_counter = wrap_add16(self.program_counter, 2);
                4 + e
            },
            0xB7 => {
                let e = self.op_lax(&Addressing::ZeroPageY, memory_map);
                self.program_counter = wrap_add16(self.program_counter, 2);
                4 + e
            },
            0xB9 => {
                let e = self.op_lda(&Addressing::AbsoluteY, memory_map);
                self.program_counter = wrap_add16(self.program_counter, 3);
                4 + e
            },
            0xBC => {
                let e = self.op_ldy(&Addressing::AbsoluteX, memory_map);
                self.program_counter = wrap_add16(self.program_counter, 3);
                4 + e
            },
            0xBD => {
                let e = self.op_lda(&Addressing::AbsoluteX, memory_map);
                self.program_counter = wrap_add16(self.program_counter, 3);
                4 + e
            },
            0xBE => {
                let e = self.op_ldx(&Addressing::AbsoluteY, memory_map);
                self.program_counter = wrap_add16(self.program_counter, 3);
                4 + e
            },
            0xBF => {
                let e = self.op_lax(&Addressing::AbsoluteY, memory_map);
                self.program_counter = wrap_add16(self.program_counter, 3);
                4 + e
            },
            0xC0 => {
                self.op_cpy(&Addressing::Immediate, memory_map);
                self.program_counter = wrap_add16(self.program_counter, 2);
                2
            },
            0xC1 => {
                let e = self.op_cmp(&Addressing::IndirectX, memory_map);
                self.program_counter = wrap_add16(self.program_counter, 2);
                6 + e
            },
            0xC3 => {
                self.op_dcm(&Addressing::IndirectX, memory_map);
                self.program_counter = wrap_add16(self.program_counter, 2);
                8
            },
            0xC4 => {
                self.op_cpy(&Addressing::ZeroPage, memory_map);
                self.program_counter = wrap_add16(self.program_counter, 2);
                3
            },
            0xC5 => {
                let e = self.op_cmp(&Addressing::ZeroPage, memory_map);
                self.program_counter = wrap_add16(self.program_counter, 2);
                3 + e
            },
            0xC6 => {
                self.op_dec(&Addressing::ZeroPage, memory_map);
                self.program_counter = wrap_add16(self.program_counter, 2);
                5
            },
            0xC7 => {
                self.op_dcm(&Addressing::ZeroPage, memory_map);
                self.program_counter = wrap_add16(self.program_counter, 2);
                5
            },
            0xC9 => {
                let e = self.op_cmp(&Addressing::Immediate, memory_map);
                self.program_counter = wrap_add16(self.program_counter, 2);
                2 + e
            },
            0xCC => {
                self.op_cpy(&Addressing::Absolute, memory_map);
                self.program_counter = wrap_add16(self.program_counter, 3);
                4
            },
            0xCD => {
                let e = self.op_cmp(&Addressing::Absolute, memory_map);
                self.program_counter = wrap_add16(self.program_counter, 3);
                4 + e
            },
            0xCE => {
                self.op_dec(&Addressing::Absolute, memory_map);
                self.program_counter = wrap_add16(self.program_counter, 3);
                6
            },
            0xCF => {
                self.op_dcm(&Addressing::Absolute, memory_map);
                self.program_counter = wrap_add16(self.program_counter, 3);
                6
            },
            0xD1 => {
                let e = self.op_cmp(&Addressing::Indirect_Y, memory_map);
                self.program_counter = wrap_add16(self.program_counter, 2);
                5 + e
            },
            0xD3 => {
                self.op_dcm(&Addressing::Indirect_Y, memory_map);
                self.program_counter = wrap_add16(self.program_counter, 2);
                8
            },
            0xD5 => {
                let e = self.op_cmp(&Addressing::ZeroPageX, memory_map);
                self.program_counter = wrap_add16(self.program_counter, 2);
                4 + e
            },
            0xD6 => {
                self.op_dec(&Addressing::ZeroPageX, memory_map);
                self.program_counter = wrap_add16(self.program_counter, 2);
                6
            },
            0xD7 => {
                self.op_dcm(&Addressing::ZeroPageX, memory_map);
                self.program_counter = wrap_add16(self.program_counter, 2);
                6
            },
            0xD9 => {
                let e = self.op_cmp(&Addressing::AbsoluteY, memory_map);
                self.program_counter = wrap_add16(self.program_counter, 3);
                4 + e
            },
            0xDB => {
                self.op_dcm(&Addressing::AbsoluteY, memory_map);
                self.program_counter = wrap_add16(self.program_counter, 3);
                7
            },
            0xDD => {
                let e = self.op_cmp(&Addressing::AbsoluteX, memory_map);
                self.program_counter = wrap_add16(self.program_counter, 3);
                4 + e
            },
            0xDE => {
                self.op_dec(&Addressing::AbsoluteX, memory_map);
                self.program_counter = wrap_add16(self.program_counter, 3);
                7
            },
            0xDF => {
                self.op_dcm(&Addressing::AbsoluteX, memory_map);
                self.program_counter = wrap_add16(self.program_counter, 3);
                7
            },
            0xE0 => {
                self.op_cpx(&Addressing::Immediate, memory_map);
                self.program_counter = wrap_add16(self.program_counter, 2);
                2
            },
            0xE1 => {
                let e = self.op_sbc(&Addressing::IndirectX, memory_map);
                self.program_counter = wrap_add16(self.program_counter, 2);
                6 + e
            },
            0xE3 => {
                self.op_isc(&Addressing::IndirectX, memory_map);
                self.program_counter = wrap_add16(self.program_counter, 2);
                8
            },
            0xE4 => {
                self.op_cpx(&Addressing::ZeroPage, memory_map);
                self.program_counter = wrap_add16(self.program_counter, 2);
                3
            },
            0xE5 => {
                let e = self.op_sbc(&Addressing::ZeroPage, memory_map);
                self.program_counter = wrap_add16(self.program_counter, 2);
                3 + e
            },
            0xE6 => {
                self.op_inc(&Addressing::ZeroPage, memory_map);
                self.program_counter = wrap_add16(self.program_counter, 2);
                5
            },
            0xE7 => {
                self.op_isc(&Addressing::ZeroPage, memory_map);
                self.program_counter = wrap_add16(self.program_counter, 2);
                5
            },
            0xE9 => {
                let e = self.op_sbc(&Addressing::Immediate, memory_map);
                self.program_counter = wrap_add16(self.program_counter, 2);
                2 + e
            },
            0xEB => {
                let e = self.op_sbc(&Addressing::Immediate, memory_map);
                self.program_counter = wrap_add16(self.program_counter, 2);
                2 + e
            },
            0xEC => {
                self.op_cpx(&Addressing::Absolute, memory_map);
                self.program_counter = wrap_add16(self.program_counter, 3);
                4
            },
            0xED => {
                let e = self.op_sbc(&Addressing::Absolute, memory_map);
                self.program_counter = wrap_add16(self.program_counter, 3);
                4 + e
            },
            0xEE => {
                self.op_inc(&Addressing::Absolute, memory_map);
                self.program_counter = wrap_add16(self.program_counter, 3);
                6
            },
            0xEF => {
                self.op_isc(&Addressing::Absolute, memory_map);
                self.program_counter = wrap_add16(self.program_counter, 3);
                6
            },
            0xF1 => {
                let e = self.op_sbc(&Addressing::Indirect_Y, memory_map);
                self.program_counter = wrap_add16(self.program_counter, 2);
                5 + e
            },
            0xF3 => {
                self.op_isc(&Addressing::Indirect_Y, memory_map);
                self.program_counter = wrap_add16(self.program_counter, 2);
                8
            },
            0xF5 => {
                let e = self.op_sbc(&Addressing::ZeroPageX, memory_map);
                self.program_counter = wrap_add16(self.program_counter, 2);
                4 + e
            },
            0xF6 => {
                self.op_inc(&Addressing::ZeroPageX, memory_map);
                self.program_counter = wrap_add16(self.program_counter, 2);
                6
            },
            0xF7 => {
                self.op_isc(&Addressing::ZeroPageX, memory_map);
                self.program_counter = wrap_add16(self.program_counter, 2);
                6
            },
            0xF9 => {
                let e = self.op_sbc(&Addressing::AbsoluteY, memory_map);
                self.program_counter = wrap_add16(self.program_counter, 3);
                4 + e
            },
            0xFB => {
                self.op_isc(&Addressing::AbsoluteY, memory_map);
                self.program_counter = wrap_add16(self.program_counter, 3);
                7
            },
            0xFD => {
                let e = self.op_sbc(&Addressing::AbsoluteX, memory_map);
                self.program_counter = wrap_add16(self.program_counter, 3);
                4 + e
            },
            0xFE => {
                self.op_inc(&Addressing::AbsoluteX, memory_map);
                self.program_counter = wrap_add16(self.program_counter, 3);
                7
            },
            0xFF => {
                self.op_isc(&Addressing::AbsoluteX, memory_map);
                self.program_counter = wrap_add16(self.program_counter, 3);
                7
            },
            0x78 => {
                self.set_flag_i(true);
                proof {
                    lemma_wf_p_masks(old(self).reg_p);
                }
                self.program_counter = wrap_add16(self.program_counter, 1);
                2
            },
            0x58 => {
                self.set_flag_i(false);
                proof {
                    lemma_wf_p_masks(old(self).reg_p);
                }
                self.program_counter = wrap_add16(self.program_counter, 1);
                2
            },
            0x9A => {
                self.op_txs();
                self.program_counter = wrap_add16(self.program_counter, 1);
                2
            },
            0xBA => {
                self.op_tsx();
                self.program_counter = wrap_add16(self.program_counter, 1);
                2
            },
            0xAA => {
                self.op_tax();
                self.program_counter = wrap_add16(self.program_counter, 1);
                2
            },
            0x8A => {
                self.op_txa();
                self.program_counter = wrap_add16(self.program_counter, 1);
                2
            },
            0x98 => {
                self.op_tya();
                self.program_counter = wrap_add16(self.program_counter, 1);
                2
            },
            0xA8 => {
                self.op_tay();
                self.program_counter = wrap_add16(self.program_counter, 1);
                2
            },
            0x0A => {
                self.op_asl();
                self.program_counter = wrap_add16(self.program_counter, 1);
                2
            },
            0x4A => {
                self.op_lsr();
                self.program_counter = wrap_add16(self.program_counter, 1);
                2
            },
            0x6A => {
                self.op_ror();
                self.program_counter = wrap_add16(self.program_counter, 1);
                2
            },
            0x2A => {
                self.op_rol();
                self.program_counter = wrap_add16(self.program_counter, 1);
                2
            },
            0xE8 => {
                self.op_inx();
                self.program_counter = wrap_add16(self.program_counter, 1);
                2
            },
            0xC8 => {
                self.op_iny();
                self.program_counter = wrap_add16(self.program_counter, 1);
                2
            },
            0xCA => {
                self.op_dex();
                self.program_counter = wrap_add16(self.program_counter, 1);
                2
            },
            0x88 => {
                self.op_dey();
                self.program_counter = wrap_add16(self.program_counter, 1);
                2
            },
            0x38 => {
                self.op_sec();
                self.program_counter = wrap_add16(self.program_counter, 1);
                2
            },
            0xF8 => {
                self.op_sed();
                self.program_counter = wrap_add16(self.program_counter, 1);
                2
            },
            0x18 => {
                self.op_clc();
                self.program_counter = wrap_add16(self.program_counter, 1);
                2
            },
            0xD8 => {
                self.op_cld();
                self.program_counter = wrap_add16(self.program_counter, 1);
                2
            },
            0xB8 => {
                self.op_clv();
                self.program_counter = wrap_add16(self.program_counter, 1);
                2
            },
            0x48 => {
                self.op_pha(memory_map);
                self.program_counter = wrap_add16(self.program_counter, 1);
                3
            },
            0x08 => {
                self.op_php(memory_map);
                self.program_counter = wrap_add16(self.program_counter, 1);
                3
            },
            0x28 => {
                self.op_plp(memory_map);
                self.program_counter = wrap_add16(self.program_counter, 1);
                4
            },
            0x68 => {
                self.op_pla(memory_map);
                self.program_counter = wrap_add16(self.program_counter, 1);
                4
            },
            0x60 => {
                self.op_rts(memory_map);
                self.program_counter = wrap_add16(self.program_counter, 1);
                6
            },
            0xD0 => {
                let e = self.op_bne(memory_map);
                self.program_counter = wrap_add16(self.program_counter, 2);
                2 + e
            },
            0x10 => {
                let e = self.op_bpl(memory_map);
                self.program_counter = wrap_add16(self.program_counter, 2);
                2 + e
            },
            0x90 => {
                let e = self.op_bcc(memory_map);
                self.program_counter = wrap_add16(self.program_counter, 2);
                2 + e
            },
            0xB0 => {
                let e = self.op_bcs(memory_map);
                self.program_counter = wrap_add16(self.program_counter, 2);
                2 + e
            },
            0x70 => {
                let e = self.op_bvs(memory_map);
                self.program_counter = wrap_add16(self.program_counter, 2);
                2 + e
            },
            0x50 => {
                let e = self.op_bvc(memory_map);
                self.program_counter = wrap_add16(self.program_counter, 2);
                2 + e
            },
            0x30 => {
                let e = self.op_bmi(memory_map);
                self.program_counter = wrap_add16(self.program_counter, 2);
                2 + e
            },
            0xF0 => {
                let e = self.op_beq(memory_map);
                self.program_counter = wrap_add16(self.program_counter, 2);
                2 + e
            },
            0x20 => {
                self.op_jsr(memory_map);
                6
            },
            0x40 => {
                self.op_rti(memory_map);
                6
            },
            0x4C => {
                self.opJMP_Abs(memory_map);
                3
            },
            0x6C => {
                self.opJMP_Indirect(memory_map);
                5
            },
            0x00 => {
                self.op_brk(memory_map);
                7
            },
            0xEA | 0x1A | 0x3A | 0x5A | 0x7A | 0xDA | 0xFA => {
                self.program_counter = wrap_add16(self.program_counter, 1);
                2
            },
            0x0C | 0x1C | 0x3C | 0x5C | 0x7C | 0xDC | 0xFC => {
                self.program_counter = wrap_add16(self.program_counter, 3);
                4
            },
            0x04 | 0x44 | 0x64 => {
                self.program_counter = wrap_add16(self.program_counter, 2);
                3
            },
            0x14 | 0x34 | 0x54 | 0x74 | 0xD4 | 0xF4 => {
                self.program_counter = wrap_add16(self.program_counter, 2);
                4
            },
            0x80 => {
                self.program_counter = wrap_add16(self.program_counter, 2);
                2
            },
            _ => {
                self.program_counter = wrap_add16(self.program_counter, 1);
                2
            },
        }
    }

    /// Fetches the opcode at the program counter and executes it,
    /// returning the instruction's cycle cost.
    pub fn next_cycle(&mut self, memory_map: &mut MemoryMap) -> (cycles: u32)
        requires
            mem_wf(old(memory_map)@),
        ensures
            ({
                let op = bus_read_val(old(memory_map)@, old(self).program_counter);
                let m1 = bus_read_upd(old(memory_map)@, old(self).program_counter);
                &&& *final(self) == spec_interpret(*old(self), m1, op).0
                &&& final(memory_map)@ == spec_interpret(*old(self), m1, op).1
                &&& cycles == spec_interpret(*old(self), m1, op).2
            }),
            2 <= cycles <= 8,
            mem_wf(final(memory_map)@),
            wf_p(old(self).reg_p) ==> wf_p(final(self).reg_p),
    {
        let opcode = memory_map.get_from_address(self.program_counter);
        self.interpret(opcode, memory_map)
    }
}

} // verus!

