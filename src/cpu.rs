use vstd::prelude::*;

use crate::mmu::{next_addr, next_address, Bus, IE, IF, MMU};
use crate::registers::{pair, Registers};

verus! {

/// The eight 8-bit operands that the opcode encoding selects with three bits.
#[derive(Clone, Copy, Debug, PartialEq, Eq, Structural)]
pub enum Register {
    B,
    C,
    D,
    E,
    H,
    L,
    HlIndirect,
    A,
}

pub open spec fn register_index(r: Register) -> u8 {
    match r {
        Register::B => 0,
        Register::C => 1,
        Register::D => 2,
        Register::E => 3,
        Register::H => 4,
        Register::L => 5,
        Register::HlIndirect => 6,
        Register::A => 7,
    }
}

/// The operand that the three-bit field `index` selects.
pub open spec fn register_at(index: u8) -> Register {
    if index == 0 {
        Register::B
    } else if index == 1 {
        Register::C
    } else if index == 2 {
        Register::D
    } else if index == 3 {
        Register::E
    } else if index == 4 {
        Register::H
    } else if index == 5 {
        Register::L
    } else if index == 6 {
        Register::HlIndirect
    } else {
        Register::A
    }
}

impl Register {
    /// The operand that the three-bit field `index` selects.
    pub fn from_index(index: u8) -> (r: Register)
        requires
            index < 8,
        ensures
            r == register_at(index),
            register_index(r) == index,
    {
        if index == 0 {
            Register::B
        } else if index == 1 {
            Register::C
        } else if index == 2 {
            Register::D
        } else if index == 3 {
            Register::E
        } else if index == 4 {
            Register::H
        } else if index == 5 {
            Register::L
        } else if index == 6 {
            Register::HlIndirect
        } else {
            Register::A
        }
    }
}

/// `v - 2` on 16 bits.
pub open spec fn minus_two(v: u16) -> u16 {
    if v >= 2 {
        (v - 2) as u16
    } else {
        (v + 0xFFFE) as u16
    }
}

/// `v + 2` on 16 bits.
pub open spec fn plus_two(v: u16) -> u16 {
    if v <= 0xFFFD {
        (v + 2) as u16
    } else {
        (v - 0xFFFE) as u16
    }
}

/// Vector of interrupt `index`: 0 VBlank, 1 LCD STAT, 2 Timer, 3 Serial, 4 Joypad.
pub open spec fn vector_of(index: u8) -> u16 {
    (0x40 + 8 * index) as u16
}

/// Index of the lowest set bit among the five interrupt bits of `p`.
pub open spec fn lowest_pending(p: u8) -> u8 {
    if p & 1 != 0 {
        0
    } else if p & 2 != 0 {
        1
    } else if p & 4 != 0 {
        2
    } else if p & 8 != 0 {
        3
    } else {
        4
    }
}

/// Interrupts that are both requested and enabled.
pub open spec fn pending_of(bus: Bus) -> u8 {
    bus.read(IF) & bus.read(IE) & 0x1F
}

/// The whole state of the processor, as the contracts see it.
pub struct CpuState {
    pub registers: Registers,
    pub bus: Bus,
    pub ime: bool,
    pub halted: bool,
    pub ime_scheduled: bool,
}

/// The 8-bit operand that the three-bit field `index` selects; 6 is the byte at HL.
pub open spec fn r8_of(s: CpuState, index: u8) -> u8 {
    let r = s.registers;
    if index == 0 {
        r.b
    } else if index == 1 {
        r.c
    } else if index == 2 {
        r.d
    } else if index == 3 {
        r.e
    } else if index == 4 {
        r.h
    } else if index == 5 {
        r.l
    } else if index == 6 {
        s.bus.read(r.hl_spec())
    } else {
        r.a
    }
}

/// M-cycles that interrupt dispatch takes from `s`: 5 when one is entered.
pub open spec fn dispatch_cost(s: CpuState) -> u8 {
    if s.ime && pending_of(s.bus) != 0 {
        5
    } else {
        0
    }
}

/// The state after the check made before each fetch: a pending interrupt wakes a halted CPU,
/// and with IME set the lowest pending one is entered.
pub open spec fn dispatch_next(s: CpuState) -> CpuState {
    let p = pending_of(s.bus);
    let r = s.registers;
    let awake = CpuState { halted: s.halted && p == 0, ..s };
    if s.ime && p != 0 {
        let i = lowest_pending(p);
        CpuState {
            registers: r.with_pc(vector_of(i)).with_sp(minus_two(r.sp)),
            bus: s.bus.write(IF, s.bus.read(IF) & !(1u8 << i)).write_word(minus_two(r.sp), r.pc),
            ime: false,
            ..awake
        }
    } else {
        awake
    }
}

/// The processor: registers, the bus it owns, and the interrupt state.
pub struct CPU {
    pub registers: Registers,
    pub mmu: MMU,
    pub interrupt_master: bool,
    pub is_halted: bool,
    /// EI takes effect after the instruction that follows it.
    pub ime_scheduled: bool,
}

impl View for CPU {
    type V = CpuState;

    open spec fn view(&self) -> CpuState {
        CpuState {
            registers: self.registers,
            bus: self.mmu@,
            ime: self.interrupt_master,
            halted: self.is_halted,
            ime_scheduled: self.ime_scheduled,
        }
    }
}

impl CPU {
    pub open spec fn wf(&self) -> bool {
        self.mmu.wf() && self.registers.f & 0x0F == 0
    }

    /// Nothing but the registers changed.
    pub open spec fn others_same(&self, o: &CPU) -> bool {
        self.mmu@ == o.mmu@ && self.interrupt_master == o.interrupt_master && self.is_halted
            == o.is_halted && self.ime_scheduled == o.ime_scheduled
    }

    /// The operand that `r` selects; `HlIndirect` is the byte at HL.
    pub open spec fn operand(&self, r: Register) -> u8 {
        r8_of(self@, register_index(r))
    }

    /// The processor after the boot sequence, with PC at 0x0100.
    pub fn new(mmu: MMU) -> (r: CPU)
        requires
            mmu.wf(),
        ensures
            r.wf(),
            r.mmu@ == mmu@,
            pair(r.registers.a, r.registers.f) == 0x01B0,
            pair(r.registers.b, r.registers.c) == 0x0013,
            pair(r.registers.d, r.registers.e) == 0x00D8,
            pair(r.registers.h, r.registers.l) == 0x014D,
            r.registers.sp == 0xFFFE,
            r.registers.pc == 0x0100,
            r.interrupt_master,
            !r.is_halted,
            !r.ime_scheduled,
    {
        let mut cpu = CPU {
            registers: Registers { a: 0, f: 0, b: 0, c: 0, d: 0, e: 0, h: 0, l: 0, sp: 0xFFFE, pc: 0x100 },
            mmu,
            interrupt_master: true,
            is_halted: false,
            ime_scheduled: false,
        };
        cpu.registers.set_af(0x01B0);
        cpu.registers.set_bc(0x0013);
        cpu.registers.set_de(0x00D8);
        cpu.registers.set_hl(0x014D);
        assert(pair((0x01B0u16 >> 8u16) as u8, (0x01B0u16 as u8) & 0xF0) == 0x01B0) by (bit_vector);
        cpu
    }

    /// Reads the byte at PC and moves PC past it.
    pub fn fetch_byte(&mut self) -> (r: u8)
        requires
            old(self).wf(),
        ensures
            r == old(self).mmu@.read(old(self).registers.pc),
            final(self).registers.pc == next_addr(old(self).registers.pc),
            final(self).registers.a == old(self).registers.a,
            final(self).registers.f == old(self).registers.f,
            final(self).registers.b == old(self).registers.b,
            final(self).registers.c == old(self).registers.c,
            final(self).registers.d == old(self).registers.d,
            final(self).registers.e == old(self).registers.e,
            final(self).registers.h == old(self).registers.h,
            final(self).registers.l == old(self).registers.l,
            final(self).registers.sp == old(self).registers.sp,
            final(self).others_same(old(self)),
            final(self).wf(),
    {
        let b = self.mmu.rb(self.registers.pc);
        self.registers.pc = next_address(self.registers.pc);
        b
    }

    /// Reads the byte that follows the 0xCB prefix.
    pub fn fetch_special_opcode(&mut self) -> (r: u8)
        requires
            old(self).wf(),
        ensures
            r == old(self).mmu@.read(old(self).registers.pc),
            final(self).registers.pc == next_addr(old(self).registers.pc),
            final(self).registers.same_but_pc(&old(self).registers),
            final(self).others_same(old(self)),
            final(self).wf(),
    {
        self.fetch_byte()
    }

    /// Reads a little-endian immediate word at PC and moves PC past it.
    pub fn fetch_word(&mut self) -> (r: u16)
        requires
            old(self).wf(),
        ensures
            r == old(self).mmu@.read_word(old(self).registers.pc),
            final(self).registers.pc == next_addr(next_addr(old(self).registers.pc)),
            final(self).registers.same_but_pc(&old(self).registers),
            final(self).others_same(old(self)),
            final(self).wf(),
    {
        let lo = self.fetch_byte();
        let hi = self.fetch_byte();
        (hi as u16) << 8u16 | (lo as u16)
    }

    /// Sets bit `index` of IF.
    pub fn request_interrupt(&mut self, index: u8)
        requires
            old(self).wf(),
            index < 5,
        ensures
            final(self).mmu@ == old(self).mmu@.with_interrupt(index),
            final(self).registers == old(self).registers,
            final(self).interrupt_master == old(self).interrupt_master,
            final(self).is_halted == old(self).is_halted,
            final(self).wf(),
    {
        self.mmu.request_interrupt(index);
    }

    /// Moves SP down by two and stores `register` there, low byte first.
    pub fn stack_push(&mut self, register: u16)
        requires
            old(self).wf(),
        ensures
            final(self).registers.sp == minus_two(old(self).registers.sp),
            final(self).mmu@ == old(self).mmu@.write_word(
                minus_two(old(self).registers.sp),
                register,
            ),
            final(self).registers.same_but_sp(&old(self).registers),
            final(self).interrupt_master == old(self).interrupt_master,
            final(self).is_halted == old(self).is_halted,
            final(self).ime_scheduled == old(self).ime_scheduled,
            final(self).wf(),
    {
        self.registers.sp = self.registers.sp.wrapping_sub(2);
        self.mmu.ww(self.registers.sp, register);
    }

    /// Reads the word at SP and moves SP up by two.
    pub fn stack_pop(&mut self) -> (r: u16)
        requires
            old(self).wf(),
        ensures
            r == old(self).mmu@.read_word(old(self).registers.sp),
            final(self).registers.sp == plus_two(old(self).registers.sp),
            final(self).registers.same_but_sp(&old(self).registers),
            final(self).others_same(old(self)),
            final(self).wf(),
    {
        let r = self.mmu.rw(self.registers.sp);
        self.registers.sp = self.registers.sp.wrapping_add(2);
        r
    }

    /// Enters the handler of interrupt `index`: clears its IF bit and IME, pushes PC and jumps
    /// to the vector.
    pub fn service_interrupt(&mut self, index: u8)
        requires
            old(self).wf(),
            index < 5,
        ensures
            !final(self).interrupt_master,
            final(self).registers.pc == vector_of(index),
            final(self).registers.sp == minus_two(old(self).registers.sp),
            final(self).mmu@ == old(self).mmu@.write(
                IF,
                old(self).mmu@.read(IF) & !(1u8 << index),
            ).write_word(minus_two(old(self).registers.sp), old(self).registers.pc),
            final(self).registers.same_but_pc_sp(&old(self).registers),
            final(self).is_halted == old(self).is_halted,
            final(self).ime_scheduled == old(self).ime_scheduled,
            final(self).wf(),
    {
        self.interrupt_master = false;
        let flags: u8 = self.mmu.rb(IF) & !(1u8 << index);
        self.mmu.wb(IF, flags);
        self.stack_push(self.registers.pc);
        self.registers.pc = 0x40 + 8 * (index as u16);
    }

    /// Checked before each fetch: a pending interrupt wakes a halted CPU, and with IME set the
    /// lowest pending one is entered. Returns the M-cycles spent (5 when one is entered).
    pub fn do_interrupts(&mut self) -> (r: u8)
        requires
            old(self).wf(),
        ensures
            final(self).wf(),
            final(self).is_halted == (old(self).is_halted && pending_of(old(self).mmu@) == 0),
            (old(self).interrupt_master && pending_of(old(self).mmu@) != 0) ==> ({
                let i = lowest_pending(pending_of(old(self).mmu@));
                &&& r == 5
                &&& !final(self).interrupt_master
                &&& final(self).registers.pc == vector_of(i)
                &&& final(self).registers.sp == minus_two(old(self).registers.sp)
                &&& final(self).mmu@ == old(self).mmu@.write(
                    IF,
                    old(self).mmu@.read(IF) & !(1u8 << i),
                ).write_word(minus_two(old(self).registers.sp), old(self).registers.pc)
            }),
            !(old(self).interrupt_master && pending_of(old(self).mmu@) != 0) ==> ({
                &&& r == 0
                &&& final(self).registers == old(self).registers
                &&& final(self).mmu@ == old(self).mmu@
                &&& final(self).interrupt_master == old(self).interrupt_master
            }),
            final(self).ime_scheduled == old(self).ime_scheduled,
            final(self)@ == dispatch_next(old(self)@),
            r == dispatch_cost(old(self)@),
    {
        let pending: u8 = self.mmu.rb(IF) & self.mmu.rb(IE) & 0x1F;
        if pending != 0 {
            self.is_halted = false;
        }
        if self.interrupt_master && pending != 0 {
            let index: u8 = if pending & 1 != 0 {
                0
            } else if pending & 2 != 0 {
                1
            } else if pending & 4 != 0 {
                2
            } else if pending & 8 != 0 {
                3
            } else {
                4
            };
            self.service_interrupt(index);
            5
        } else {
            0
        }
    }

    /// Reads the operand that `r` selects.
    pub fn read_register(&self, r: Register) -> (v: u8)
        requires
            self.wf(),
        ensures
            v == self.operand(r),
    {
        match r {
            Register::B => self.registers.b,
            Register::C => self.registers.c,
            Register::D => self.registers.d,
            Register::E => self.registers.e,
            Register::H => self.registers.h,
            Register::L => self.registers.l,
            Register::HlIndirect => self.mmu.rb(self.registers.hl()),
            Register::A => self.registers.a,
        }
    }

    /// Writes the operand that `r` selects; `HlIndirect` writes the byte at HL.
    pub fn write_register(&mut self, r: Register, v: u8)
        requires
            old(self).wf(),
        ensures
            final(self).wf(),
            r == Register::HlIndirect ==> final(self).mmu@ == old(self).mmu@.write(
                old(self).registers.hl_spec(),
                v,
            ) && final(self).registers == old(self).registers,
            r != Register::HlIndirect ==> final(self).mmu@ == old(self).mmu@
                && final(self).registers == old(self).registers.with_r8(register_index(r), v),
            r != Register::HlIndirect ==> final(self).operand(r) == v,
            final(self).interrupt_master == old(self).interrupt_master,
            final(self).is_halted == old(self).is_halted,
            final(self).ime_scheduled == old(self).ime_scheduled,
    {
        match r {
            Register::B => self.registers.b = v,
            Register::C => self.registers.c = v,
            Register::D => self.registers.d = v,
            Register::E => self.registers.e = v,
            Register::H => self.registers.h = v,
            Register::L => self.registers.l = v,
            Register::HlIndirect => {
                let addr = self.registers.hl();
                self.mmu.wb(addr, v);
            },
            Register::A => self.registers.a = v,
        }
    }
}

} // verus!
