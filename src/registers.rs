use vstd::prelude::*;

verus! {

/// The four condition flags held in the high nibble of F.
#[derive(Clone, Copy, Debug, PartialEq, Eq, Structural)]
pub enum Flags {
    Zero,
    Subtract,
    HalfCarry,
    Carry,
}

/// The bit of F that holds a flag.
pub open spec fn flag_mask(flag: Flags) -> u8 {
    match flag {
        Flags::Zero => 0x80,
        Flags::Subtract => 0x40,
        Flags::HalfCarry => 0x20,
        Flags::Carry => 0x10,
    }
}

pub open spec fn has_flag(f: u8, flag: Flags) -> bool {
    f & flag_mask(flag) != 0
}

/// The F byte that holds exactly the given flags; its low nibble is zero.
pub open spec fn flags_byte(z: bool, n: bool, h: bool, c: bool) -> u8 {
    (if z { 0x80u8 } else { 0u8 }) | (if n { 0x40u8 } else { 0u8 }) | (if h { 0x20u8 } else { 0u8 })
        | (if c { 0x10u8 } else { 0u8 })
}

/// F with one flag forced to `v` and the other three kept.
pub open spec fn with_flag(f: u8, flag: Flags, v: bool) -> u8 {
    flags_byte(
        if flag == Flags::Zero { v } else { has_flag(f, Flags::Zero) },
        if flag == Flags::Subtract { v } else { has_flag(f, Flags::Subtract) },
        if flag == Flags::HalfCarry { v } else { has_flag(f, Flags::HalfCarry) },
        if flag == Flags::Carry { v } else { has_flag(f, Flags::Carry) },
    )
}

/// A register pair: `hi` is the high byte.
pub open spec fn pair(hi: u8, lo: u8) -> u16 {
    ((hi as u16) << 8u16) | (lo as u16)
}

/// Reading a flag back out of `flags_byte` gives what was put in, and the low nibble is clear.
pub proof fn lemma_flags_byte(z: bool, n: bool, h: bool, c: bool)
    ensures
        flags_byte(z, n, h, c) & 0x0F == 0,
        has_flag(flags_byte(z, n, h, c), Flags::Zero) == z,
        has_flag(flags_byte(z, n, h, c), Flags::Subtract) == n,
        has_flag(flags_byte(z, n, h, c), Flags::HalfCarry) == h,
        has_flag(flags_byte(z, n, h, c), Flags::Carry) == c,
{
    let f = flags_byte(z, n, h, c);
    assert(f & 0x0F == 0 && (f & 0x80 != 0) == z && (f & 0x40 != 0) == n && (f & 0x20 != 0) == h
        && (f & 0x10 != 0) == c) by (bit_vector)
        requires
            f == (if z { 0x80u8 } else { 0u8 }) | (if n { 0x40u8 } else { 0u8 }) | (if h {
                0x20u8
            } else {
                0u8
            }) | (if c { 0x10u8 } else { 0u8 }),
    ;
}

/// Splitting a word into its bytes and pairing them again gives the word back.
pub proof fn lemma_pair_split(v: u16)
    ensures
        pair((v >> 8u16) as u8, v as u8) == v,
        (v >> 8u16) as u8 == v / 256,
        v as u8 == v % 256,
{
    assert(((((v >> 8u16) as u8) as u16) << 8u16) | ((v as u8) as u16) == v && (v >> 8u16) as u8
        == v / 256 && v as u8 == v % 256) by (bit_vector);
}

/// The register file of the CPU.
pub struct Registers {
    pub a: u8,
    pub f: u8,
    pub b: u8,
    pub c: u8,
    pub d: u8,
    pub e: u8,
    pub h: u8,
    pub l: u8,
    pub sp: u16,
    pub pc: u16,
}

impl Registers {
    pub open spec fn flag_spec(&self, flag: Flags) -> bool {
        has_flag(self.f, flag)
    }

    /// Everything but F is as in `o`.
    pub open spec fn same_but_f(&self, o: &Registers) -> bool {
        self.a == o.a && self.b == o.b && self.c == o.c && self.d == o.d && self.e == o.e
            && self.h == o.h && self.l == o.l && self.sp == o.sp && self.pc == o.pc
    }

    /// Everything but PC is as in `o`.
    pub open spec fn same_but_pc(&self, o: &Registers) -> bool {
        self.a == o.a && self.f == o.f && self.b == o.b && self.c == o.c && self.d == o.d && self.e
            == o.e && self.h == o.h && self.l == o.l && self.sp == o.sp
    }

    /// Everything but SP is as in `o`.
    pub open spec fn same_but_sp(&self, o: &Registers) -> bool {
        self.a == o.a && self.f == o.f && self.b == o.b && self.c == o.c && self.d == o.d && self.e
            == o.e && self.h == o.h && self.l == o.l && self.pc == o.pc
    }

    /// Everything but PC and SP is as in `o`.
    pub open spec fn same_but_pc_sp(&self, o: &Registers) -> bool {
        self.a == o.a && self.f == o.f && self.b == o.b && self.c == o.c && self.d == o.d && self.e
            == o.e && self.h == o.h && self.l == o.l
    }

    /// Everything but A and F is as in `o`.
    pub open spec fn same_but_af(&self, o: &Registers) -> bool {
        self.b == o.b && self.c == o.c && self.d == o.d && self.e == o.e && self.h == o.h && self.l
            == o.l && self.sp == o.sp && self.pc == o.pc
    }

    pub open spec fn with_a(self, v: u8) -> Registers {
        Registers { a: v, ..self }
    }

    pub open spec fn with_f(self, v: u8) -> Registers {
        Registers { f: v, ..self }
    }

    pub open spec fn with_pc(self, v: u16) -> Registers {
        Registers { pc: v, ..self }
    }

    pub open spec fn with_sp(self, v: u16) -> Registers {
        Registers { sp: v, ..self }
    }

    /// HL loaded with `v`.
    pub open spec fn with_hl(self, v: u16) -> Registers {
        Registers { h: (v >> 8u16) as u8, l: v as u8, ..self }
    }

    /// The 8-bit register that the three-bit field `index` selects (not 6, which is memory)
    /// loaded with `v`.
    pub open spec fn with_r8(self, index: u8, v: u8) -> Registers {
        if index == 0 {
            Registers { b: v, ..self }
        } else if index == 1 {
            Registers { c: v, ..self }
        } else if index == 2 {
            Registers { d: v, ..self }
        } else if index == 3 {
            Registers { e: v, ..self }
        } else if index == 4 {
            Registers { h: v, ..self }
        } else if index == 5 {
            Registers { l: v, ..self }
        } else if index == 7 {
            Registers { a: v, ..self }
        } else {
            self
        }
    }

    /// The pair that bits 5-4 select (BC, DE, HL, then SP, or AF when `with_af`) loaded with
    /// `v`; F keeps only its flag bits.
    pub open spec fn with_pair(self, p: u8, with_af: bool, v: u16) -> Registers {
        if p == 0 {
            Registers { b: (v >> 8u16) as u8, c: v as u8, ..self }
        } else if p == 1 {
            Registers { d: (v >> 8u16) as u8, e: v as u8, ..self }
        } else if p == 2 {
            self.with_hl(v)
        } else if with_af {
            Registers { a: (v >> 8u16) as u8, f: (v as u8) & 0xF0, ..self }
        } else {
            self.with_sp(v)
        }
    }

    pub open spec fn hl_spec(&self) -> u16 {
        pair(self.h, self.l)
    }

    pub fn af(&self) -> (r: u16)
        ensures
            r == pair(self.a, self.f),
    {
        (self.a as u16) << 8u16 | (self.f as u16)
    }

    pub fn bc(&self) -> (r: u16)
        ensures
            r == pair(self.b, self.c),
    {
        (self.b as u16) << 8u16 | (self.c as u16)
    }

    pub fn de(&self) -> (r: u16)
        ensures
            r == pair(self.d, self.e),
    {
        (self.d as u16) << 8u16 | (self.e as u16)
    }

    pub fn hl(&self) -> (r: u16)
        ensures
            r == pair(self.h, self.l),
    {
        (self.h as u16) << 8u16 | (self.l as u16)
    }

    /// Loads AF; the low nibble of F always reads as zero.
    pub fn set_af(&mut self, value: u16)
        ensures
            final(self).a == (value >> 8u16) as u8,
            final(self).f == (value as u8) & 0xF0,
            final(self).f & 0x0F == 0,
            final(self).b == old(self).b && final(self).c == old(self).c,
            final(self).d == old(self).d && final(self).e == old(self).e,
            final(self).h == old(self).h && final(self).l == old(self).l,
            final(self).sp == old(self).sp && final(self).pc == old(self).pc,
    {
        self.a = (value >> 8u16) as u8;
        self.f = (value as u8) & 0xF0;
        let f = self.f;
        assert(f & 0xF0 & 0x0F == 0) by (bit_vector);
        assert((f & 0xF0) == f) by (bit_vector)
            requires
                f == (value as u8) & 0xF0,
        ;
    }

    pub fn set_bc(&mut self, value: u16)
        ensures
            final(self).b == (value >> 8u16) as u8,
            final(self).c == value as u8,
            pair(final(self).b, final(self).c) == value,
            final(self).a == old(self).a && final(self).f == old(self).f,
            final(self).d == old(self).d && final(self).e == old(self).e,
            final(self).h == old(self).h && final(self).l == old(self).l,
            final(self).sp == old(self).sp && final(self).pc == old(self).pc,
    {
        proof {
            lemma_pair_split(value);
        }
        self.b = (value >> 8u16) as u8;
        self.c = value as u8;
    }

    pub fn set_de(&mut self, value: u16)
        ensures
            final(self).d == (value >> 8u16) as u8,
            final(self).e == value as u8,
            pair(final(self).d, final(self).e) == value,
            final(self).a == old(self).a && final(self).f == old(self).f,
            final(self).b == old(self).b && final(self).c == old(self).c,
            final(self).h == old(self).h && final(self).l == old(self).l,
            final(self).sp == old(self).sp && final(self).pc == old(self).pc,
    {
        proof {
            lemma_pair_split(value);
        }
        self.d = (value >> 8u16) as u8;
        self.e = value as u8;
    }

    pub fn set_hl(&mut self, value: u16)
        ensures
            final(self).h == (value >> 8u16) as u8,
            final(self).l == value as u8,
            pair(final(self).h, final(self).l) == value,
            final(self).a == old(self).a && final(self).f == old(self).f,
            final(self).b == old(self).b && final(self).c == old(self).c,
            final(self).d == old(self).d && final(self).e == old(self).e,
            final(self).sp == old(self).sp && final(self).pc == old(self).pc,
    {
        proof {
            lemma_pair_split(value);
        }
        self.h = (value >> 8u16) as u8;
        self.l = value as u8;
    }

    /// Replaces all four flags at once.
    pub fn set_flags(&mut self, z: bool, n: bool, h: bool, c: bool)
        ensures
            final(self).f == flags_byte(z, n, h, c),
            final(self).f & 0x0F == 0,
            final(self).flag_spec(Flags::Zero) == z,
            final(self).flag_spec(Flags::Subtract) == n,
            final(self).flag_spec(Flags::HalfCarry) == h,
            final(self).flag_spec(Flags::Carry) == c,
            final(self).same_but_f(old(self)),
    {
        proof {
            lemma_flags_byte(z, n, h, c);
        }
        let f: u8 = (if z { 0x80u8 } else { 0u8 }) | (if n { 0x40u8 } else { 0u8 }) | (if h {
            0x20u8
        } else {
            0u8
        }) | (if c { 0x10u8 } else { 0u8 });
        self.f = f;
    }

    /// Whether a flag is set.
    pub fn is_set(&self, flag: Flags) -> (r: bool)
        ensures
            r == self.flag_spec(flag),
    {
        self.get_flag(flag) != 0
    }

    /// Sets one flag to `condition`, keeping the others.
    pub fn flag(&mut self, flag: Flags, condition: bool)
        ensures
            final(self).f == with_flag(old(self).f, flag, condition),
            final(self).f & 0x0F == 0,
            final(self).same_but_f(old(self)),
    {
        let z = if flag == Flags::Zero {
            condition
        } else {
            self.is_set(Flags::Zero)
        };
        let n = if flag == Flags::Subtract {
            condition
        } else {
            self.is_set(Flags::Subtract)
        };
        let h = if flag == Flags::HalfCarry {
            condition
        } else {
            self.is_set(Flags::HalfCarry)
        };
        let c = if flag == Flags::Carry {
            condition
        } else {
            self.is_set(Flags::Carry)
        };
        self.set_flags(z, n, h, c);
    }

    pub fn clear_flag(&mut self, flag: Flags)
        ensures
            final(self).f == with_flag(old(self).f, flag, false),
            final(self).f & 0x0F == 0,
            final(self).same_but_f(old(self)),
    {
        self.flag(flag, false);
    }

    pub fn set_flag(&mut self, flag: Flags)
        ensures
            final(self).f == with_flag(old(self).f, flag, true),
            final(self).f & 0x0F == 0,
            final(self).same_but_f(old(self)),
    {
        self.flag(flag, true);
    }

    /// Sets the flag when `x` is non-zero and clears it otherwise.
    pub fn change_flag(&mut self, flag: Flags, x: u8)
        ensures
            final(self).f == with_flag(old(self).f, flag, x != 0),
            final(self).f & 0x0F == 0,
            final(self).same_but_f(old(self)),
    {
        self.flag(flag, x != 0);
    }

    /// The flag's bit of F, in place: zero when the flag is clear.
    pub fn get_flag(&self, flag: Flags) -> (r: u8)
        ensures
            r == self.f & flag_mask(flag),
    {
        match flag {
            Flags::Zero => self.f & 0x80,
            Flags::Subtract => self.f & 0x40,
            Flags::HalfCarry => self.f & 0x20,
            Flags::Carry => self.f & 0x10,
        }
    }
}

} // verus!
