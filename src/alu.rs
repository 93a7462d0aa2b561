use vstd::prelude::*;

use crate::cpu::CPU;
use crate::registers::{flags_byte, has_flag, lemma_flags_byte, Flags};

verus! {

pub open spec fn carry_in(f: u8) -> int {
    if has_flag(f, Flags::Carry) {
        1
    } else {
        0
    }
}

/// `a + x + c` on 8 bits.
pub open spec fn add_result(a: u8, x: u8, c: int) -> u8 {
    ((a + x + c) % 256) as u8
}

pub open spec fn add_flags(a: u8, x: u8, c: int) -> u8 {
    flags_byte(add_result(a, x, c) == 0, false, a % 16 + x % 16 + c > 15, a + x + c > 255)
}

/// `a - x - c` on 8 bits.
pub open spec fn sub_result(a: u8, x: u8, c: int) -> u8 {
    ((a - x - c + 512) % 256) as u8
}

pub open spec fn sub_flags(a: u8, x: u8, c: int) -> u8 {
    flags_byte(sub_result(a, x, c) == 0, true, a % 16 < x % 16 + c, a < x + c)
}

/// The result in A of the accumulator operation `y`: ADD, ADC, SUB, SBC, AND, XOR, OR, CP.
pub open spec fn alu_result(y: u8, a: u8, x: u8, f: u8) -> u8 {
    if y == 0 {
        add_result(a, x, 0)
    } else if y == 1 {
        add_result(a, x, carry_in(f))
    } else if y == 2 {
        sub_result(a, x, 0)
    } else if y == 3 {
        sub_result(a, x, carry_in(f))
    } else if y == 4 {
        a & x
    } else if y == 5 {
        a ^ x
    } else if y == 6 {
        a | x
    } else {
        a
    }
}

/// F after the accumulator operation `y`.
pub open spec fn alu_flags(y: u8, a: u8, x: u8, f: u8) -> u8 {
    if y == 0 {
        add_flags(a, x, 0)
    } else if y == 1 {
        add_flags(a, x, carry_in(f))
    } else if y == 2 || y == 7 {
        sub_flags(a, x, 0)
    } else if y == 3 {
        sub_flags(a, x, carry_in(f))
    } else if y == 4 {
        flags_byte(a & x == 0, false, true, false)
    } else if y == 5 {
        flags_byte(a ^ x == 0, false, false, false)
    } else {
        flags_byte(a | x == 0, false, false, false)
    }
}

pub open spec fn inc_result(v: u8) -> u8 {
    ((v + 1) % 256) as u8
}

pub open spec fn inc_flags(v: u8, f: u8) -> u8 {
    flags_byte(inc_result(v) == 0, false, v % 16 == 15, has_flag(f, Flags::Carry))
}

pub open spec fn dec_result(v: u8) -> u8 {
    ((v + 255) % 256) as u8
}

pub open spec fn dec_flags(v: u8, f: u8) -> u8 {
    flags_byte(dec_result(v) == 0, true, v % 16 == 0, has_flag(f, Flags::Carry))
}

/// The result of the CB rotate/shift `kind`: RLC, RRC, RL, RR, SLA, SRA, SWAP, SRL.
pub open spec fn shift_result(kind: u8, v: u8, f: u8) -> u8 {
    let x = v as int;
    (if kind == 0 {
        (x * 2) % 256 + x / 128
    } else if kind == 1 {
        x / 2 + (x % 2) * 128
    } else if kind == 2 {
        (x * 2) % 256 + carry_in(f)
    } else if kind == 3 {
        x / 2 + carry_in(f) * 128
    } else if kind == 4 {
        (x * 2) % 256
    } else if kind == 5 {
        x / 2 + (if x >= 128 { 128int } else { 0int })
    } else if kind == 6 {
        (x % 16) * 16 + x / 16
    } else {
        x / 2
    }) as u8
}

/// The bit shifted out by `kind`; SWAP shifts nothing out.
pub open spec fn shift_carry(kind: u8, v: u8) -> bool {
    if kind == 0 || kind == 2 || kind == 4 {
        v >= 128
    } else if kind == 6 {
        false
    } else {
        v % 2 == 1
    }
}

pub open spec fn shift_flags(kind: u8, v: u8, f: u8) -> u8 {
    flags_byte(shift_result(kind, v, f) == 0, false, false, shift_carry(kind, v))
}

pub open spec fn bit_flags(b: u8, v: u8, f: u8) -> u8 {
    flags_byte(v & (1u8 << b) == 0, false, true, has_flag(f, Flags::Carry))
}

/// ADD HL,rr keeps Z.
pub open spec fn add16_flags(hl: u16, v: u16, f: u8) -> u8 {
    flags_byte(has_flag(f, Flags::Zero), false, hl % 4096 + v % 4096 > 4095, hl + v > 65535)
}

/// A byte read as a two's-complement displacement.
pub open spec fn signed(e: u8) -> int {
    if e < 128 {
        e as int
    } else {
        e - 256
    }
}

/// `v` plus the signed displacement `e`, on 16 bits.
pub open spec fn offset_by(v: u16, e: u8) -> u16 {
    ((v + signed(e) + 65536) % 65536) as u16
}

/// SP plus a signed byte: carries out of bits 3 and 7 of the unsigned low-byte sum.
pub open spec fn sp_offset_flags(sp: u16, e: u8) -> u8 {
    flags_byte(false, false, sp % 16 + e % 16 > 15, sp % 256 + e > 255)
}

pub open spec fn daa_result(a: u8, f: u8) -> u8 {
    let h = has_flag(f, Flags::HalfCarry);
    let c = has_flag(f, Flags::Carry);
    if !has_flag(f, Flags::Subtract) {
        let a1: int = if c || a > 0x99 {
            a + 0x60
        } else {
            a as int
        };
        let a2: int = if h || a % 16 > 9 {
            a1 + 6
        } else {
            a1
        };
        (a2 % 256) as u8
    } else {
        let a1: int = if c {
            a - 0x60
        } else {
            a as int
        };
        let a2: int = if h {
            a1 - 6
        } else {
            a1
        };
        ((a2 + 512) % 256) as u8
    }
}

pub open spec fn daa_flags(a: u8, f: u8) -> u8 {
    let n = has_flag(f, Flags::Subtract);
    let c = has_flag(f, Flags::Carry);
    flags_byte(daa_result(a, f) == 0, n, false, if n { c } else { c || a > 0x99 })
}

/// The ALU. Each operation leaves all but A, F and its own destination alone.
impl CPU {
    fn carry_value(&self) -> (r: u16)
        ensures
            r == carry_in(self.registers.f),
    {
        if self.registers.is_set(Flags::Carry) {
            1
        } else {
            0
        }
    }

    /// A += x (+ carry when `with_carry`).
    fn add_to_a(&mut self, x: u8, with_carry: bool)
        ensures
            final(self).registers.a == add_result(
                old(self).registers.a,
                x,
                if with_carry { carry_in(old(self).registers.f) } else { 0 },
            ),
            final(self).registers.f == add_flags(
                old(self).registers.a,
                x,
                if with_carry { carry_in(old(self).registers.f) } else { 0 },
            ),
            final(self).registers.f & 0x0F == 0,
            final(self).registers.same_but_af(&old(self).registers),
            final(self).others_same(old(self)),
    {
        let a = self.registers.a as u16;
        let c: u16 = if with_carry {
            self.carry_value()
        } else {
            0
        };
        let sum: u16 = a + x as u16 + c;
        let r = (sum % 256) as u8;
        self.registers.set_flags(r == 0, false, a % 16 + (x as u16) % 16 + c > 15, sum > 255);
        self.registers.a = r;
    }

    /// A - x (- carry when `with_carry`); A is kept when `store` is false (CP).
    fn sub_from_a(&mut self, x: u8, with_carry: bool, store: bool)
        ensures
            final(self).registers.a == (if store {
                sub_result(
                    old(self).registers.a,
                    x,
                    if with_carry { carry_in(old(self).registers.f) } else { 0 },
                )
            } else {
                old(self).registers.a
            }),
            final(self).registers.f == sub_flags(
                old(self).registers.a,
                x,
                if with_carry { carry_in(old(self).registers.f) } else { 0 },
            ),
            final(self).registers.f & 0x0F == 0,
            final(self).registers.same_but_af(&old(self).registers),
            final(self).others_same(old(self)),
    {
        let a = self.registers.a as u16;
        let c: u16 = if with_carry {
            self.carry_value()
        } else {
            0
        };
        let r = ((a + 512 - x as u16 - c) % 256) as u8;
        self.registers.set_flags(r == 0, true, a % 16 < (x as u16) % 16 + c, a < x as u16 + c);
        if store {
            self.registers.a = r;
        }
    }

    fn alu_add(&mut self, x: u8)
        ensures
            final(self).registers.a == alu_result(0, old(self).registers.a, x, old(self).registers.f),
            final(self).registers.f == alu_flags(0, old(self).registers.a, x, old(self).registers.f),
            final(self).registers.f & 0x0F == 0,
            final(self).registers.same_but_af(&old(self).registers),
            final(self).others_same(old(self)),
    {
        self.add_to_a(x, false);
    }

    fn alu_adc(&mut self, x: u8)
        ensures
            final(self).registers.a == alu_result(1, old(self).registers.a, x, old(self).registers.f),
            final(self).registers.f == alu_flags(1, old(self).registers.a, x, old(self).registers.f),
            final(self).registers.f & 0x0F == 0,
            final(self).registers.same_but_af(&old(self).registers),
            final(self).others_same(old(self)),
    {
        self.add_to_a(x, true);
    }

    fn alu_sub(&mut self, x: u8)
        ensures
            final(self).registers.a == alu_result(2, old(self).registers.a, x, old(self).registers.f),
            final(self).registers.f == alu_flags(2, old(self).registers.a, x, old(self).registers.f),
            final(self).registers.f & 0x0F == 0,
            final(self).registers.same_but_af(&old(self).registers),
            final(self).others_same(old(self)),
    {
        self.sub_from_a(x, false, true);
    }

    fn alu_sbc(&mut self, x: u8)
        ensures
            final(self).registers.a == alu_result(3, old(self).registers.a, x, old(self).registers.f),
            final(self).registers.f == alu_flags(3, old(self).registers.a, x, old(self).registers.f),
            final(self).registers.f & 0x0F == 0,
            final(self).registers.same_but_af(&old(self).registers),
            final(self).others_same(old(self)),
    {
        self.sub_from_a(x, true, true);
    }

    fn alu_and(&mut self, x: u8)
        ensures
            final(self).registers.a == alu_result(4, old(self).registers.a, x, old(self).registers.f),
            final(self).registers.f == alu_flags(4, old(self).registers.a, x, old(self).registers.f),
            final(self).registers.f & 0x0F == 0,
            final(self).registers.same_but_af(&old(self).registers),
            final(self).others_same(old(self)),
    {
        let r = self.registers.a & x;
        self.registers.set_flags(r == 0, false, true, false);
        self.registers.a = r;
    }

    fn alu_xor(&mut self, x: u8)
        ensures
            final(self).registers.a == alu_result(5, old(self).registers.a, x, old(self).registers.f),
            final(self).registers.f == alu_flags(5, old(self).registers.a, x, old(self).registers.f),
            final(self).registers.f & 0x0F == 0,
            final(self).registers.same_but_af(&old(self).registers),
            final(self).others_same(old(self)),
    {
        let r = self.registers.a ^ x;
        self.registers.set_flags(r == 0, false, false, false);
        self.registers.a = r;
    }

    fn alu_or(&mut self, x: u8)
        ensures
            final(self).registers.a == alu_result(6, old(self).registers.a, x, old(self).registers.f),
            final(self).registers.f == alu_flags(6, old(self).registers.a, x, old(self).registers.f),
            final(self).registers.f & 0x0F == 0,
            final(self).registers.same_but_af(&old(self).registers),
            final(self).others_same(old(self)),
    {
        let r = self.registers.a | x;
        self.registers.set_flags(r == 0, false, false, false);
        self.registers.a = r;
    }

    fn alu_cp(&mut self, x: u8)
        ensures
            final(self).registers.a == alu_result(7, old(self).registers.a, x, old(self).registers.f),
            final(self).registers.f == alu_flags(7, old(self).registers.a, x, old(self).registers.f),
            final(self).registers.f & 0x0F == 0,
            final(self).registers.same_but_af(&old(self).registers),
            final(self).others_same(old(self)),
    {
        self.sub_from_a(x, false, false);
    }

    /// The accumulator operation selected by bits 5-3 of the opcode.
    pub fn alu_accumulator(&mut self, y: u8, x: u8)
        requires
            y < 8,
        ensures
            final(self).registers.a == alu_result(y, old(self).registers.a, x, old(self).registers.f),
            final(self).registers.f == alu_flags(y, old(self).registers.a, x, old(self).registers.f),
            final(self).registers.f & 0x0F == 0,
            final(self).registers.same_but_af(&old(self).registers),
            final(self).others_same(old(self)),
    {
        if y == 0 {
            self.alu_add(x)
        } else if y == 1 {
            self.alu_adc(x)
        } else if y == 2 {
            self.alu_sub(x)
        } else if y == 3 {
            self.alu_sbc(x)
        } else if y == 4 {
            self.alu_and(x)
        } else if y == 5 {
            self.alu_xor(x)
        } else if y == 6 {
            self.alu_or(x)
        } else {
            self.alu_cp(x)
        }
    }

    pub fn alu_inc(&mut self, v: u8) -> (r: u8)
        ensures
            r == inc_result(v),
            final(self).registers.f == inc_flags(v, old(self).registers.f),
            final(self).registers.f & 0x0F == 0,
            final(self).registers.same_but_f(&old(self).registers),
            final(self).others_same(old(self)),
    {
        let r = ((v as u16 + 1) % 256) as u8;
        let c = self.registers.is_set(Flags::Carry);
        self.registers.set_flags(r == 0, false, v % 16 == 15, c);
        r
    }

    pub fn alu_dec(&mut self, v: u8) -> (r: u8)
        ensures
            r == dec_result(v),
            final(self).registers.f == dec_flags(v, old(self).registers.f),
            final(self).registers.f & 0x0F == 0,
            final(self).registers.same_but_f(&old(self).registers),
            final(self).others_same(old(self)),
    {
        let r = ((v as u16 + 255) % 256) as u8;
        let c = self.registers.is_set(Flags::Carry);
        self.registers.set_flags(r == 0, true, v % 16 == 0, c);
        r
    }

    /// Sets the flags of a rotate or shift from its result and the bit shifted out.
    fn shift_done(&mut self, r: u16, carry: bool) -> (out: u8)
        requires
            r < 256,
        ensures
            out == r,
            final(self).registers.f == flags_byte(r == 0, false, false, carry),
            final(self).registers.f & 0x0F == 0,
            final(self).registers.same_but_f(&old(self).registers),
            final(self).others_same(old(self)),
    {
        self.registers.set_flags(r == 0, false, false, carry);
        r as u8
    }

    fn alu_rlc(&mut self, v: u8) -> (r: u8)
        ensures
            r == shift_result(0, v, old(self).registers.f),
            final(self).registers.f == shift_flags(0, v, old(self).registers.f),
            final(self).registers.f & 0x0F == 0,
            final(self).registers.same_but_f(&old(self).registers),
            final(self).others_same(old(self)),
    {
        let v = v as u16;
        self.shift_done((v * 2) % 256 + v / 128, v >= 128)
    }

    fn alu_rrc(&mut self, v: u8) -> (r: u8)
        ensures
            r == shift_result(1, v, old(self).registers.f),
            final(self).registers.f == shift_flags(1, v, old(self).registers.f),
            final(self).registers.f & 0x0F == 0,
            final(self).registers.same_but_f(&old(self).registers),
            final(self).others_same(old(self)),
    {
        let v = v as u16;
        self.shift_done(v / 2 + (v % 2) * 128, v % 2 == 1)
    }

    fn alu_rl(&mut self, v: u8) -> (r: u8)
        ensures
            r == shift_result(2, v, old(self).registers.f),
            final(self).registers.f == shift_flags(2, v, old(self).registers.f),
            final(self).registers.f & 0x0F == 0,
            final(self).registers.same_but_f(&old(self).registers),
            final(self).others_same(old(self)),
    {
        let c = self.carry_value();
        let v = v as u16;
        self.shift_done((v * 2) % 256 + c, v >= 128)
    }

    fn alu_rr(&mut self, v: u8) -> (r: u8)
        ensures
            r == shift_result(3, v, old(self).registers.f),
            final(self).registers.f == shift_flags(3, v, old(self).registers.f),
            final(self).registers.f & 0x0F == 0,
            final(self).registers.same_but_f(&old(self).registers),
            final(self).others_same(old(self)),
    {
        let c = self.carry_value();
        let v = v as u16;
        self.shift_done(v / 2 + c * 128, v % 2 == 1)
    }

    fn alu_sla(&mut self, v: u8) -> (r: u8)
        ensures
            r == shift_result(4, v, old(self).registers.f),
            final(self).registers.f == shift_flags(4, v, old(self).registers.f),
            final(self).registers.f & 0x0F == 0,
            final(self).registers.same_but_f(&old(self).registers),
            final(self).others_same(old(self)),
    {
        let v = v as u16;
        self.shift_done((v * 2) % 256, v >= 128)
    }

    fn alu_sra(&mut self, v: u8) -> (r: u8)
        ensures
            r == shift_result(5, v, old(self).registers.f),
            final(self).registers.f == shift_flags(5, v, old(self).registers.f),
            final(self).registers.f & 0x0F == 0,
            final(self).registers.same_but_f(&old(self).registers),
            final(self).others_same(old(self)),
    {
        let v = v as u16;
        let top: u16 = if v >= 128 {
            128
        } else {
            0
        };
        self.shift_done(v / 2 + top, v % 2 == 1)
    }

    fn alu_swap(&mut self, v: u8) -> (r: u8)
        ensures
            r == shift_result(6, v, old(self).registers.f),
            final(self).registers.f == shift_flags(6, v, old(self).registers.f),
            final(self).registers.f & 0x0F == 0,
            final(self).registers.same_but_f(&old(self).registers),
            final(self).others_same(old(self)),
    {
        let v = v as u16;
        self.shift_done((v % 16) * 16 + v / 16, false)
    }

    fn alu_srl(&mut self, v: u8) -> (r: u8)
        ensures
            r == shift_result(7, v, old(self).registers.f),
            final(self).registers.f == shift_flags(7, v, old(self).registers.f),
            final(self).registers.f & 0x0F == 0,
            final(self).registers.same_but_f(&old(self).registers),
            final(self).others_same(old(self)),
    {
        let v = v as u16;
        self.shift_done(v / 2, v % 2 == 1)
    }

    /// The CB rotate or shift selected by bits 5-3 of the second opcode byte.
    pub fn alu_shift(&mut self, kind: u8, v: u8) -> (r: u8)
        requires
            kind < 8,
        ensures
            r == shift_result(kind, v, old(self).registers.f),
            final(self).registers.f == shift_flags(kind, v, old(self).registers.f),
            final(self).registers.f & 0x0F == 0,
            final(self).registers.same_but_f(&old(self).registers),
            final(self).others_same(old(self)),
    {
        if kind == 0 {
            self.alu_rlc(v)
        } else if kind == 1 {
            self.alu_rrc(v)
        } else if kind == 2 {
            self.alu_rl(v)
        } else if kind == 3 {
            self.alu_rr(v)
        } else if kind == 4 {
            self.alu_sla(v)
        } else if kind == 5 {
            self.alu_sra(v)
        } else if kind == 6 {
            self.alu_swap(v)
        } else {
            self.alu_srl(v)
        }
    }

    /// RLCA, RRCA, RLA, RRA: the rotate on A with Z forced clear.
    pub fn rotate_a(&mut self, kind: u8)
        requires
            kind < 4,
        ensures
            final(self).registers.a == shift_result(kind, old(self).registers.a, old(self).registers.f),
            final(self).registers.f == flags_byte(
                false,
                false,
                false,
                shift_carry(kind, old(self).registers.a),
            ),
            final(self).registers.f & 0x0F == 0,
            final(self).registers.same_but_af(&old(self).registers),
            final(self).others_same(old(self)),
    {
        let a = self.registers.a;
        let r = self.alu_shift(kind, a);
        proof {
            lemma_flags_byte(r == 0, false, false, shift_carry(kind, a));
        }
        let c = self.registers.is_set(Flags::Carry);
        self.registers.set_flags(false, false, false, c);
        self.registers.a = r;
    }

    /// BIT b: Z tells whether bit `b` of `v` is clear; `v` itself is not written back.
    pub fn alu_bit(&mut self, v: u8, b: u8)
        requires
            b < 8,
        ensures
            final(self).registers.f == bit_flags(b, v, old(self).registers.f),
            final(self).registers.f & 0x0F == 0,
            final(self).registers.same_but_f(&old(self).registers),
            final(self).others_same(old(self)),
    {
        let c = self.registers.is_set(Flags::Carry);
        self.registers.set_flags(v & (1u8 << b) == 0, false, true, c);
    }

    /// RES b: bit `b` cleared; no flag changes.
    pub fn alu_res(v: u8, b: u8) -> (r: u8)
        requires
            b < 8,
        ensures
            r == v & !(1u8 << b),
    {
        v & !(1u8 << b)
    }

    /// SET b: bit `b` set; no flag changes.
    pub fn alu_set(v: u8, b: u8) -> (r: u8)
        requires
            b < 8,
        ensures
            r == v | (1u8 << b),
    {
        v | (1u8 << b)
    }

    /// ADD HL,rr.
    pub fn alu_add16(&mut self, v: u16)
        ensures
            final(self).registers == old(self).registers.with_hl(
                ((old(self).registers.hl_spec() + v) % 65536) as u16,
            ).with_f(add16_flags(old(self).registers.hl_spec(), v, old(self).registers.f)),
            final(self).registers.f & 0x0F == 0,
            final(self).others_same(old(self)),
    {
        let hl = self.registers.hl() as u32;
        let sum: u32 = hl + v as u32;
        let z = self.registers.is_set(Flags::Zero);
        self.registers.set_flags(z, false, hl % 4096 + (v as u32) % 4096 > 4095, sum > 65535);
        self.registers.set_hl((sum % 65536) as u16);
    }

    /// SP plus the signed byte `e`, with the flags of ADD SP,s8 and LD HL,SP+s8.
    pub fn sp_plus_offset(&mut self, e: u8) -> (r: u16)
        ensures
            r == offset_by(old(self).registers.sp, e),
            final(self).registers.f == sp_offset_flags(old(self).registers.sp, e),
            final(self).registers.f & 0x0F == 0,
            final(self).registers.same_but_f(&old(self).registers),
            final(self).others_same(old(self)),
    {
        let sp = self.registers.sp as u32;
        let e32 = e as u32;
        self.registers.set_flags(false, false, sp % 16 + e32 % 16 > 15, sp % 256 + e32 > 255);
        if e < 128 {
            ((sp + e32) % 65536) as u16
        } else {
            ((sp + 65536 + e32 - 256) % 65536) as u16
        }
    }

    /// DAA: the BCD adjustment of A after an addition or subtraction.
    pub fn alu_daa(&mut self)
        ensures
            final(self).registers.a == daa_result(old(self).registers.a, old(self).registers.f),
            final(self).registers.f == daa_flags(old(self).registers.a, old(self).registers.f),
            final(self).registers.f & 0x0F == 0,
            final(self).registers.same_but_af(&old(self).registers),
            final(self).others_same(old(self)),
    {
        let a = self.registers.a as u16;
        let n = self.registers.is_set(Flags::Subtract);
        let h = self.registers.is_set(Flags::HalfCarry);
        let c = self.registers.is_set(Flags::Carry);
        let mut r: u16 = a;
        let mut carry = c;
        if !n {
            if c || a > 0x99 {
                r = r + 0x60;
                carry = true;
            }
            if h || a % 16 > 9 {
                r = r + 6;
            }
            r = r % 256;
        } else {
            r = r + 512;
            if c {
                r = r - 0x60;
            }
            if h {
                r = r - 6;
            }
            r = r % 256;
        }
        self.registers.set_flags(r == 0, n, false, carry);
        self.registers.a = r as u8;
    }

    /// CPL: A inverted; N and H set.
    pub fn alu_cpl(&mut self)
        ensures
            final(self).registers.a == !old(self).registers.a,
            final(self).registers.f == flags_byte(
                has_flag(old(self).registers.f, Flags::Zero),
                true,
                true,
                has_flag(old(self).registers.f, Flags::Carry),
            ),
            final(self).registers.f & 0x0F == 0,
            final(self).registers.same_but_af(&old(self).registers),
            final(self).others_same(old(self)),
    {
        let z = self.registers.is_set(Flags::Zero);
        let c = self.registers.is_set(Flags::Carry);
        self.registers.set_flags(z, true, true, c);
        self.registers.a = !self.registers.a;
    }

    /// SCF when `complement` is false, CCF when it is true.
    pub fn alu_carry(&mut self, complement: bool)
        ensures
            final(self).registers.f == flags_byte(
                has_flag(old(self).registers.f, Flags::Zero),
                false,
                false,
                if complement { !has_flag(old(self).registers.f, Flags::Carry) } else { true },
            ),
            final(self).registers.f & 0x0F == 0,
            final(self).registers.same_but_f(&old(self).registers),
            final(self).others_same(old(self)),
    {
        let z = self.registers.is_set(Flags::Zero);
        let c = if complement {
            !self.registers.is_set(Flags::Carry)
        } else {
            true
        };
        self.registers.set_flags(z, false, false, c);
    }
}

} // verus!
