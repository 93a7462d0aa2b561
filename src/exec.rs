use vstd::prelude::*;

use crate::alu::{
    add16_flags, alu_flags, alu_result, bit_flags, daa_flags, daa_result, dec_flags, dec_result,
    inc_flags, inc_result, offset_by, shift_carry, shift_flags, shift_result, sp_offset_flags,
};
use crate::cpu::{minus_two, plus_two, r8_of, register_at, CpuState, Register, CPU};
use crate::mmu::Bus;
use crate::mmu::next_addr;
use crate::registers::{flags_byte, has_flag, pair, Flags, Registers};

verus! {

/// Whether the opcode is a conditional JR, RET, JP or CALL.
pub open spec fn is_conditional(op: u8) -> bool {
    let x = op / 64;
    let y = (op / 8) % 8;
    let z = op % 8;
    (x == 0 && z == 0 && y >= 4) || (x == 3 && y < 4 && (z == 0 || z == 2 || z == 4))
}

/// Condition `cc`: NZ, Z, NC, C.
pub open spec fn condition_spec(f: u8, cc: u8) -> bool {
    if cc == 0 {
        !has_flag(f, Flags::Zero)
    } else if cc == 1 {
        has_flag(f, Flags::Zero)
    } else if cc == 2 {
        !has_flag(f, Flags::Carry)
    } else {
        has_flag(f, Flags::Carry)
    }
}

/// Whether the opcode takes its branch when F is `f`; unconditional opcodes always do.
pub open spec fn taken_spec(op: u8, f: u8) -> bool {
    if is_conditional(op) {
        condition_spec(f, (op / 8) % 4)
    } else {
        true
    }
}

/// M-cycles of an unprefixed opcode, for a branch taken or not. Bits 7-6 of the opcode
/// give its group, bits 5-3 (`y`) a destination or condition, bits 2-0 (`z`) a source.
/// The unused opcodes run as NOP.
pub open spec fn op_cycles(op: u8, taken: bool) -> u8 {
    let x = op / 64;
    let y = (op / 8) % 8;
    let z = op % 8;
    if x == 0 {
        if z == 0 {
            if y == 0 || y == 2 {
                1
            } else if y == 1 {
                5
            } else if y == 3 || taken {
                3
            } else {
                2
            }
        } else if z == 1 {
            if y % 2 == 0 {
                3
            } else {
                2
            }
        } else if z == 2 || z == 3 {
            2
        } else if z == 4 || z == 5 {
            if y == 6 {
                3
            } else {
                1
            }
        } else if z == 6 {
            if y == 6 {
                3
            } else {
                2
            }
        } else {
            1
        }
    } else if x == 1 {
        if op == 0x76 {
            1
        } else if y == 6 || z == 6 {
            2
        } else {
            1
        }
    } else if x == 2 {
        if z == 6 {
            2
        } else {
            1
        }
    } else {
        if z == 0 {
            if y < 4 {
                if taken {
                    5
                } else {
                    2
                }
            } else if y == 5 {
                4
            } else {
                3
            }
        } else if z == 1 {
            if y % 2 == 0 {
                3
            } else if y == 1 || y == 3 {
                4
            } else if y == 5 {
                1
            } else {
                2
            }
        } else if z == 2 {
            if y < 4 {
                if taken {
                    4
                } else {
                    3
                }
            } else if y == 4 || y == 6 {
                2
            } else {
                4
            }
        } else if z == 3 {
            if y == 0 {
                4
            } else {
                1
            }
        } else if z == 4 {
            if y < 4 {
                if taken {
                    6
                } else {
                    3
                }
            } else {
                1
            }
        } else if z == 5 {
            if y % 2 == 0 {
                4
            } else if y == 1 {
                6
            } else {
                1
            }
        } else if z == 6 {
            2
        } else {
            4
        }
    }
}

/// M-cycles of a CB-prefixed opcode, the prefix included.
pub open spec fn cb_cycles(cb: u8) -> u8 {
    if cb % 8 != 6 {
        2
    } else if cb / 64 == 1 {
        3
    } else {
        4
    }
}

/// What a CB opcode that writes back (all but BIT) stores into its operand `v`.
pub open spec fn cb_value(cb: u8, v: u8, f: u8) -> u8 {
    let x = cb / 64;
    let y = ((cb / 8) % 8) as u8;
    if x == 0 {
        shift_result(y, v, f)
    } else if x == 2 {
        v & !(1u8 << y)
    } else {
        v | (1u8 << y)
    }
}

/// The register pair that bits 5-4 select: BC, DE, HL, then SP, or AF when `with_af`.
pub open spec fn pair_of(r: Registers, p: u8, with_af: bool) -> u16 {
    if p == 0 {
        pair(r.b, r.c)
    } else if p == 1 {
        pair(r.d, r.e)
    } else if p == 2 {
        pair(r.h, r.l)
    } else if with_af {
        pair(r.a, r.f)
    } else {
        r.sp
    }
}

/// Immediate operands: the byte and the word at PC, and PC past one or two bytes.
pub open spec fn imm8(s: CpuState) -> u8 {
    s.bus.read(s.registers.pc)
}

pub open spec fn imm16(s: CpuState) -> u16 {
    s.bus.read_word(s.registers.pc)
}

pub open spec fn pc1(s: CpuState) -> u16 {
    next_addr(s.registers.pc)
}

pub open spec fn pc2(s: CpuState) -> u16 {
    next_addr(next_addr(s.registers.pc))
}

/// The address that LD (rr),A and LD A,(rr) use: BC, DE, then HL for (HL+) and (HL-).
pub open spec fn indirect_address(r: Registers, y: u8) -> u16 {
    if y < 2 {
        pair(r.b, r.c)
    } else if y < 4 {
        pair(r.d, r.e)
    } else {
        pair(r.h, r.l)
    }
}

/// The high-page address 0xFF00 + `n`.
pub open spec fn high_page(n: u8) -> u16 {
    (0xFF00 + n) as u16
}

/// `s` with registers `r` and bus `b`; IME and the halt state kept.
pub open spec fn with_rb(s: CpuState, r: Registers, b: Bus) -> CpuState {
    CpuState { registers: r, bus: b, ..s }
}

/// `s` with registers `r` and `v` stored into operand `index`: a register, or the byte at HL.
pub open spec fn store_r8(s: CpuState, r: Registers, index: u8, v: u8) -> CpuState {
    if index == 6 {
        with_rb(s, r, s.bus.write(s.registers.hl_spec(), v))
    } else {
        with_rb(s, r.with_r8(index, v), s.bus)
    }
}

/// A call to `target` that pushes `ret`.
pub open spec fn call_state(s: CpuState, target: u16, ret: u16) -> CpuState {
    let r = s.registers;
    with_rb(
        s,
        r.with_pc(target).with_sp(minus_two(r.sp)),
        s.bus.write_word(minus_two(r.sp), ret),
    )
}

/// A return: PC popped from the stack.
pub open spec fn ret_state(s: CpuState) -> CpuState {
    let r = s.registers;
    with_rb(s, r.with_pc(s.bus.read_word(r.sp)).with_sp(plus_two(r.sp)), s.bus)
}

/// The state after an opcode of 0x00-0x3F, from the state `s` just after the opcode byte.
pub open spec fn block0_next(op: u8, s: CpuState) -> CpuState {
    let r = s.registers;
    let m = s.bus;
    let y = ((op / 8) % 8) as u8;
    let z = op % 8;
    let p = y / 2;
    let zf = has_flag(r.f, Flags::Zero);
    let cf = has_flag(r.f, Flags::Carry);
    if z == 0 {
        if y == 0 || y == 2 {
            s
        } else if y == 1 {
            with_rb(s, r.with_pc(pc2(s)), m.write_word(imm16(s), r.sp))
        } else if taken_spec(op, r.f) {
            with_rb(s, r.with_pc(offset_by(pc1(s), imm8(s))), m)
        } else {
            with_rb(s, r.with_pc(pc1(s)), m)
        }
    } else if z == 1 {
        if y % 2 == 0 {
            with_rb(s, r.with_pair(p, false, imm16(s)).with_pc(pc2(s)), m)
        } else {
            let v = pair_of(r, p, false);
            with_rb(
                s,
                r.with_hl(((r.hl_spec() + v) % 65536) as u16).with_f(add16_flags(r.hl_spec(), v, r.f)),
                m,
            )
        }
    } else if z == 2 {
        let addr = indirect_address(r, y);
        let r1 = if y == 4 || y == 5 {
            r.with_hl(((addr + 1) % 65536) as u16)
        } else if y >= 6 {
            r.with_hl(((addr + 65535) % 65536) as u16)
        } else {
            r
        };
        if y % 2 == 0 {
            with_rb(s, r1, m.write(addr, r.a))
        } else {
            with_rb(s, r1.with_a(m.read(addr)), m)
        }
    } else if z == 3 {
        let v = pair_of(r, p, false);
        let w: u16 = if y % 2 == 0 {
            ((v + 1) % 65536) as u16
        } else {
            ((v + 65535) % 65536) as u16
        };
        with_rb(s, r.with_pair(p, false, w), m)
    } else if z == 4 {
        let v = r8_of(s, y);
        store_r8(s, r.with_f(inc_flags(v, r.f)), y, inc_result(v))
    } else if z == 5 {
        let v = r8_of(s, y);
        store_r8(s, r.with_f(dec_flags(v, r.f)), y, dec_result(v))
    } else if z == 6 {
        store_r8(s, r.with_pc(pc1(s)), y, imm8(s))
    } else if y < 4 {
        with_rb(
            s,
            r.with_a(shift_result(y, r.a, r.f)).with_f(
                flags_byte(false, false, false, shift_carry(y, r.a)),
            ),
            m,
        )
    } else if y == 4 {
        with_rb(s, r.with_a(daa_result(r.a, r.f)).with_f(daa_flags(r.a, r.f)), m)
    } else if y == 5 {
        with_rb(s, r.with_a(!r.a).with_f(flags_byte(zf, true, true, cf)), m)
    } else if y == 6 {
        with_rb(s, r.with_f(flags_byte(zf, false, false, true)), m)
    } else {
        with_rb(s, r.with_f(flags_byte(zf, false, false, !cf)), m)
    }
}

/// The state after LD r,r' (0x40-0x7F) or HALT (0x76).
pub open spec fn load_next(op: u8, s: CpuState) -> CpuState {
    if op == 0x76 {
        CpuState { halted: true, ..s }
    } else {
        store_r8(s, s.registers, ((op / 8) % 8) as u8, r8_of(s, op % 8))
    }
}

/// The state after an accumulator opcode of 0x80-0xBF.
pub open spec fn alu_next(op: u8, s: CpuState) -> CpuState {
    let r = s.registers;
    let y = ((op / 8) % 8) as u8;
    let x = r8_of(s, op % 8);
    with_rb(s, r.with_a(alu_result(y, r.a, x, r.f)).with_f(alu_flags(y, r.a, x, r.f)), s.bus)
}

/// The state after an opcode of 0xC0-0xFF (the CB prefix and the unused opcodes change
/// nothing here).
pub open spec fn block3_next(op: u8, s: CpuState) -> CpuState {
    let r = s.registers;
    let m = s.bus;
    let y = ((op / 8) % 8) as u8;
    let z = op % 8;
    let p = y / 2;
    let taken = taken_spec(op, r.f);
    let n = imm8(s);
    if z == 0 {
        if y < 4 {
            if taken {
                ret_state(s)
            } else {
                s
            }
        } else if y == 4 {
            with_rb(s, r.with_pc(pc1(s)), m.write(high_page(n), r.a))
        } else if y == 5 {
            with_rb(
                s,
                r.with_sp(offset_by(r.sp, n)).with_f(sp_offset_flags(r.sp, n)).with_pc(pc1(s)),
                m,
            )
        } else if y == 6 {
            with_rb(s, r.with_a(m.read(high_page(n))).with_pc(pc1(s)), m)
        } else {
            with_rb(
                s,
                r.with_hl(offset_by(r.sp, n)).with_f(sp_offset_flags(r.sp, n)).with_pc(pc1(s)),
                m,
            )
        }
    } else if z == 1 {
        if y % 2 == 0 {
            with_rb(s, r.with_pair(p, true, m.read_word(r.sp)).with_sp(plus_two(r.sp)), m)
        } else if y == 1 {
            ret_state(s)
        } else if y == 3 {
            CpuState { ime: true, ..ret_state(s) }
        } else if y == 5 {
            with_rb(s, r.with_pc(r.hl_spec()), m)
        } else {
            with_rb(s, r.with_sp(r.hl_spec()), m)
        }
    } else if z == 2 {
        if y < 4 {
            with_rb(s, r.with_pc(if taken { imm16(s) } else { pc2(s) }), m)
        } else if y == 4 {
            with_rb(s, r, m.write(high_page(r.c), r.a))
        } else if y == 5 {
            with_rb(s, r.with_pc(pc2(s)), m.write(imm16(s), r.a))
        } else if y == 6 {
            with_rb(s, r.with_a(m.read(high_page(r.c))), m)
        } else {
            with_rb(s, r.with_a(m.read(imm16(s))).with_pc(pc2(s)), m)
        }
    } else if z == 3 {
        if y == 0 {
            with_rb(s, r.with_pc(imm16(s)), m)
        } else if y == 6 {
            CpuState { ime: false, ime_scheduled: false, ..s }
        } else if y == 7 {
            CpuState { ime_scheduled: true, ..s }
        } else {
            s
        }
    } else if z == 4 {
        if y < 4 {
            if taken {
                call_state(s, imm16(s), pc2(s))
            } else {
                with_rb(s, r.with_pc(pc2(s)), m)
            }
        } else {
            s
        }
    } else if z == 5 {
        if y % 2 == 0 {
            with_rb(
                s,
                r.with_sp(minus_two(r.sp)),
                m.write_word(minus_two(r.sp), pair_of(r, p, true)),
            )
        } else if y == 1 {
            call_state(s, imm16(s), pc2(s))
        } else {
            s
        }
    } else if z == 6 {
        with_rb(
            s,
            r.with_a(alu_result(y, r.a, n, r.f)).with_f(alu_flags(y, r.a, n, r.f)).with_pc(pc1(s)),
            m,
        )
    } else {
        call_state(s, (y * 8) as u16, r.pc)
    }
}

/// The state after a CB-prefixed opcode; `s` stands at its second byte.
pub open spec fn cb_next(s: CpuState) -> CpuState {
    let cb = imm8(s);
    let y = ((cb / 8) % 8) as u8;
    let z = cb % 8;
    let f = s.registers.f;
    let v = r8_of(s, z);
    let r = s.registers.with_pc(pc1(s));
    if cb / 64 == 0 {
        store_r8(s, r.with_f(shift_flags(y, v, f)), z, shift_result(y, v, f))
    } else if cb / 64 == 1 {
        with_rb(s, r.with_f(bit_flags(y, v, f)), s.bus)
    } else {
        store_r8(s, r, z, cb_value(cb, v, f))
    }
}

/// The state after `execute(op)` from `s` (PC past the opcode byte). An EI that came just
/// before lets IME rise once this opcode is done, unless it is DI; EI itself only schedules.
pub open spec fn execute_next(op: u8, s: CpuState) -> CpuState {
    let s1 = CpuState { ime_scheduled: false, ..s };
    let t = if op == 0xCB {
        cb_next(s1)
    } else if op < 0x40 {
        block0_next(op, s1)
    } else if op < 0x80 {
        load_next(op, s1)
    } else if op < 0xC0 {
        alu_next(op, s1)
    } else {
        block3_next(op, s1)
    };
    CpuState { ime: if s.ime_scheduled && op != 0xF3 { true } else { t.ime }, ..t }
}

/// Stack cells that behave as plain memory: stored bytes read back unchanged.
pub open spec fn plain_cell(addr: u16) -> bool {
    (0x8000 <= addr <= 0xFE9F) || 0xFF80 <= addr
}

/// Both bytes of the word at `addr` are plain memory.
pub open spec fn plain_word(addr: u16) -> bool {
    plain_cell(addr) && plain_cell(next_addr(addr))
}

impl CPU {
    pub fn condition(&self, cc: u8) -> (r: bool)
        requires
            cc < 4,
        ensures
            r == condition_spec(self.registers.f, cc),
    {
        if cc == 0 {
            !self.registers.is_set(Flags::Zero)
        } else if cc == 1 {
            self.registers.is_set(Flags::Zero)
        } else if cc == 2 {
            !self.registers.is_set(Flags::Carry)
        } else {
            self.registers.is_set(Flags::Carry)
        }
    }

    /// JR: PC moves by the signed displacement `e`.
    pub fn cpu_jr_s8(&mut self, e: u8)
        ensures
            final(self).registers.pc == offset_by(old(self).registers.pc, e),
            final(self).registers.same_but_pc(&old(self).registers),
            final(self).others_same(old(self)),
    {
        let pc = self.registers.pc as u32;
        self.registers.pc = if e < 128 {
            ((pc + e as u32) % 65536) as u16
        } else {
            ((pc + 65536 + e as u32 - 256) % 65536) as u16
        };
    }

    pub fn jp_a16(&mut self, a16: u16)
        ensures
            final(self).registers.pc == a16,
            final(self).registers.same_but_pc(&old(self).registers),
            final(self).others_same(old(self)),
    {
        self.registers.pc = a16;
    }

    /// CALL: pushes PC and jumps to `a16`.
    pub fn call_a16(&mut self, a16: u16)
        requires
            old(self).wf(),
        ensures
            final(self).registers.pc == a16,
            final(self).registers.sp == minus_two(old(self).registers.sp),
            final(self).mmu@ == old(self).mmu@.write_word(
                minus_two(old(self).registers.sp),
                old(self).registers.pc,
            ),
            final(self).registers.same_but_pc_sp(&old(self).registers),
            final(self).interrupt_master == old(self).interrupt_master,
            final(self).is_halted == old(self).is_halted,
            final(self).ime_scheduled == old(self).ime_scheduled,
            final(self).wf(),
    {
        self.stack_push(self.registers.pc);
        self.registers.pc = a16;
    }

    /// RET: pops PC.
    pub fn ret(&mut self)
        requires
            old(self).wf(),
        ensures
            final(self).registers.pc == old(self).mmu@.read_word(old(self).registers.sp),
            final(self).registers.sp == plus_two(old(self).registers.sp),
            final(self).registers.same_but_pc_sp(&old(self).registers),
            final(self).others_same(old(self)),
            final(self).wf(),
    {
        self.registers.pc = self.stack_pop();
    }

    /// RST: a call to `vector`.
    pub fn rst(&mut self, vector: u16)
        requires
            old(self).wf(),
        ensures
            final(self).registers.pc == vector,
            final(self).registers.sp == minus_two(old(self).registers.sp),
            final(self).mmu@ == old(self).mmu@.write_word(
                minus_two(old(self).registers.sp),
                old(self).registers.pc,
            ),
            final(self).registers.same_but_pc_sp(&old(self).registers),
            final(self).interrupt_master == old(self).interrupt_master,
            final(self).is_halted == old(self).is_halted,
            final(self).ime_scheduled == old(self).ime_scheduled,
            final(self).wf(),
    {
        self.call_a16(vector);
    }

    /// The register pair that bits 5-4 select: BC, DE, HL, then SP, or AF when `with_af`.
    pub fn read_pair(&self, p: u8, with_af: bool) -> (r: u16)
        requires
            p < 4,
        ensures
            r == pair_of(self.registers, p, with_af),
    {
        if p == 0 {
            self.registers.bc()
        } else if p == 1 {
            self.registers.de()
        } else if p == 2 {
            self.registers.hl()
        } else if with_af {
            self.registers.af()
        } else {
            self.registers.sp
        }
    }

    pub fn write_pair(&mut self, p: u8, v: u16, with_af: bool)
        requires
            old(self).wf(),
            p < 4,
        ensures
            final(self).wf(),
            final(self).others_same(old(self)),
            final(self).registers == old(self).registers.with_pair(p, with_af, v),
    {
        if p == 0 {
            self.registers.set_bc(v);
        } else if p == 1 {
            self.registers.set_de(v);
        } else if p == 2 {
            self.registers.set_hl(v);
        } else if with_af {
            self.registers.set_af(v);
        } else {
            self.registers.sp = v;
        }
    }

    /// Runs one CB-prefixed opcode; PC stands at its second byte.
    fn call_cb(&mut self) -> (r: u8)
        requires
            old(self).wf(),
        ensures
            final(self).wf(),
            r == cb_cycles(imm8(old(self)@)),
            final(self)@ == cb_next(old(self)@),
    {
        let cb = self.fetch_special_opcode();
        let x = cb / 64;
        let y = (cb / 8) % 8;
        let reg = Register::from_index(cb % 8);
        let v = self.read_register(reg);
        let cycles: u8 = if cb % 8 != 6 {
            2
        } else if x == 1 {
            3
        } else {
            4
        };
        if x == 0 {
            let r = self.alu_shift(y, v);
            self.write_register(reg, r);
        } else if x == 1 {
            self.alu_bit(v, y);
        } else if x == 2 {
            self.write_register(reg, CPU::alu_res(v, y));
        } else {
            self.write_register(reg, CPU::alu_set(v, y));
        }
        cycles
    }

    /// Opcodes 0x00-0x3F.
    #[verifier::rlimit(60)]
    fn execute_block0(&mut self, op: u8) -> (r: u8)
        requires
            old(self).wf(),
            op < 0x40,
        ensures
            final(self).wf(),
            r == op_cycles(op, taken_spec(op, old(self).registers.f)),
            final(self)@ == block0_next(op, old(self)@),
    {
        let y = (op / 8) % 8;
        let z = op % 8;
        if z == 0 {
            if y == 0 || y == 2 {
                // NOP; STOP is taken as a NOP too.
                1
            } else if y == 1 {
                let w = self.fetch_word();
                let sp = self.registers.sp;
                self.mmu.ww(w, sp);
                5
            } else if y == 3 {
                let e = self.fetch_byte();
                self.cpu_jr_s8(e);
                3
            } else {
                let taken = self.condition(y - 4);
                let e = self.fetch_byte();
                if taken {
                    self.cpu_jr_s8(e);
                    3
                } else {
                    2
                }
            }
        } else if z == 1 {
            if y % 2 == 0 {
                let w = self.fetch_word();
                self.write_pair(y / 2, w, false);
                3
            } else {
                let v = self.read_pair(y / 2, false);
                self.alu_add16(v);
                2
            }
        } else if z == 2 {
            let addr = if y < 2 {
                self.registers.bc()
            } else if y < 4 {
                self.registers.de()
            } else {
                self.registers.hl()
            };
            if y % 2 == 0 {
                let a = self.registers.a;
                self.mmu.wb(addr, a);
            } else {
                self.registers.a = self.mmu.rb(addr);
            }
            if y == 4 || y == 5 {
                self.registers.set_hl(addr.wrapping_add(1));
            } else if y >= 6 {
                self.registers.set_hl(addr.wrapping_sub(1));
            }
            2
        } else if z == 3 {
            let v = self.read_pair(y / 2, false);
            let w = if y % 2 == 0 {
                v.wrapping_add(1)
            } else {
                v.wrapping_sub(1)
            };
            self.write_pair(y / 2, w, false);
            2
        } else if z == 4 || z == 5 {
            let reg = Register::from_index(y);
            let v = self.read_register(reg);
            let w = if z == 4 {
                self.alu_inc(v)
            } else {
                self.alu_dec(v)
            };
            self.write_register(reg, w);
            if y == 6 {
                3
            } else {
                1
            }
        } else if z == 6 {
            let v = self.fetch_byte();
            self.write_register(Register::from_index(y), v);
            if y == 6 {
                3
            } else {
                2
            }
        } else {
            if y < 4 {
                self.rotate_a(y);
            } else if y == 4 {
                self.alu_daa();
            } else if y == 5 {
                self.alu_cpl();
            } else {
                self.alu_carry(y == 7);
            }
            1
        }
    }

    /// Opcodes 0x40-0x7F: LD r,r' and HALT.
    fn execute_load(&mut self, op: u8) -> (r: u8)
        requires
            old(self).wf(),
            0x40 <= op < 0x80,
        ensures
            final(self).wf(),
            r == op_cycles(op, taken_spec(op, old(self).registers.f)),
            final(self)@ == load_next(op, old(self)@),
    {
        if op == 0x76 {
            self.is_halted = true;
            return 1;
        }
        let y = (op / 8) % 8;
        let z = op % 8;
        let v = self.read_register(Register::from_index(z));
        self.write_register(Register::from_index(y), v);
        if y == 6 || z == 6 {
            2
        } else {
            1
        }
    }

    /// Opcodes 0x80-0xBF: the accumulator operations on a register or on (HL).
    fn execute_alu(&mut self, op: u8) -> (r: u8)
        requires
            old(self).wf(),
            0x80 <= op < 0xC0,
        ensures
            final(self).wf(),
            r == op_cycles(op, taken_spec(op, old(self).registers.f)),
            final(self)@ == alu_next(op, old(self)@),
    {
        let z = op % 8;
        let v = self.read_register(Register::from_index(z));
        self.alu_accumulator((op / 8) % 8, v);
        if z == 6 {
            2
        } else {
            1
        }
    }

    /// Opcodes 0xC0-0xFF.
    fn execute_block3(&mut self, op: u8) -> (r: u8)
        requires
            old(self).wf(),
            0xC0 <= op,
        ensures
            final(self).wf(),
            r == op_cycles(op, taken_spec(op, old(self).registers.f)),
            final(self)@ == block3_next(op, old(self)@),
    {
        let y = (op / 8) % 8;
        let z = op % 8;
        if z == 0 {
            if y < 4 {
                if self.condition(y) {
                    self.ret();
                    5
                } else {
                    2
                }
            } else if y == 4 {
                let n = self.fetch_byte();
                let a = self.registers.a;
                self.mmu.wb(0xFF00 + n as u16, a);
                3
            } else if y == 5 {
                let e = self.fetch_byte();
                self.registers.sp = self.sp_plus_offset(e);
                4
            } else if y == 6 {
                let n = self.fetch_byte();
                self.registers.a = self.mmu.rb(0xFF00 + n as u16);
                3
            } else {
                let e = self.fetch_byte();
                let v = self.sp_plus_offset(e);
                self.registers.set_hl(v);
                3
            }
        } else if z == 1 {
            if y % 2 == 0 {
                let v = self.stack_pop();
                self.write_pair(y / 2, v, true);
                3
            } else if y == 1 {
                self.ret();
                4
            } else if y == 3 {
                self.ret();
                self.interrupt_master = true;
                4
            } else if y == 5 {
                self.registers.pc = self.registers.hl();
                1
            } else {
                self.registers.sp = self.registers.hl();
                2
            }
        } else if z == 2 {
            if y < 4 {
                let taken = self.condition(y);
                let w = self.fetch_word();
                if taken {
                    self.jp_a16(w);
                    4
                } else {
                    3
                }
            } else if y == 4 || y == 6 {
                let addr = 0xFF00 + self.registers.c as u16;
                if y == 4 {
                    let a = self.registers.a;
                    self.mmu.wb(addr, a);
                } else {
                    self.registers.a = self.mmu.rb(addr);
                }
                2
            } else {
                let addr = self.fetch_word();
                if y == 5 {
                    let a = self.registers.a;
                    self.mmu.wb(addr, a);
                } else {
                    self.registers.a = self.mmu.rb(addr);
                }
                4
            }
        } else if z == 3 {
            if y == 0 {
                let w = self.fetch_word();
                self.jp_a16(w);
                4
            } else if y == 6 {
                self.interrupt_master = false;
                self.ime_scheduled = false;
                1
            } else if y == 7 {
                self.ime_scheduled = true;
                1
            } else {
                1
            }
        } else if z == 4 {
            if y < 4 {
                let taken = self.condition(y);
                let w = self.fetch_word();
                if taken {
                    self.call_a16(w);
                    6
                } else {
                    3
                }
            } else {
                1
            }
        } else if z == 5 {
            if y % 2 == 0 {
                let v = self.read_pair(y / 2, true);
                self.stack_push(v);
                4
            } else if y == 1 {
                let w = self.fetch_word();
                self.call_a16(w);
                6
            } else {
                1
            }
        } else if z == 6 {
            let v = self.fetch_byte();
            self.alu_accumulator(y, v);
            2
        } else {
            self.rst(y as u16 * 8);
            4
        }
    }

    /// Runs one opcode whose byte has been fetched (PC stands after it) and returns its
    /// M-cycles. An EI that came just before takes effect once this opcode is done.
    pub fn execute(&mut self, opcode: u8) -> (r: u8)
        requires
            old(self).wf(),
        ensures
            final(self).wf(),
            final(self).registers.f & 0x0F == 0,
            opcode == 0xCB ==> r == cb_cycles(old(self).mmu@.read(old(self).registers.pc)),
            opcode != 0xCB ==> r == op_cycles(opcode, taken_spec(opcode, old(self).registers.f)),
            1 <= r <= 6,
            final(self)@ == execute_next(opcode, old(self)@),
            final(self).ime_scheduled == (opcode == 0xFB),
            final(self).interrupt_master == (if opcode == 0xF3 {
                false
            } else if opcode == 0xD9 || old(self).ime_scheduled {
                true
            } else {
                old(self).interrupt_master
            }),
    {
        let enable = self.ime_scheduled;
        self.ime_scheduled = false;
        let r = if opcode == 0xCB {
            self.call_cb()
        } else if opcode < 0x40 {
            self.execute_block0(opcode)
        } else if opcode < 0x80 {
            self.execute_load(opcode)
        } else if opcode < 0xC0 {
            self.execute_alu(opcode)
        } else {
            self.execute_block3(opcode)
        };
        if enable && opcode != 0xF3 {
            self.interrupt_master = true;
        }
        r
    }
}

} // verus!
