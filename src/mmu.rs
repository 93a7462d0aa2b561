use vstd::prelude::*;

use crate::registers::pair;
use crate::timer::{period_of, Timer};

verus! {

pub const MEMORY_SIZE: usize = 0x10000;

pub const JOYPAD: u16 = 0xFF00;
pub const DIV: u16 = 0xFF04;
pub const TIMA: u16 = 0xFF05;
pub const TMA: u16 = 0xFF06;
pub const TAC: u16 = 0xFF07;
pub const IF: u16 = 0xFF0F;
pub const LCDC: u16 = 0xFF40;
pub const STAT: u16 = 0xFF41;
pub const SCY: u16 = 0xFF42;
pub const SCX: u16 = 0xFF43;
pub const LY: u16 = 0xFF44;
pub const LYC: u16 = 0xFF45;
pub const DMA: u16 = 0xFF46;
pub const BGP: u16 = 0xFF47;
pub const OBP0: u16 = 0xFF48;
pub const OBP1: u16 = 0xFF49;
pub const WY: u16 = 0xFF4A;
pub const WX: u16 = 0xFF4B;
pub const IE: u16 = 0xFFFF;

/// Bytes that an OAM DMA copies.
pub const OAM_SIZE: u16 = 0xA0;

/// What a read of 0xFF00 returns: the selector bits and the 0-active state of the selected
/// group (directions on bit 4 low, actions on bit 5 low).
pub open spec fn joypad_byte(select: u8, state: u8) -> u8 {
    let directions: u8 = if select & 0x10 == 0 { state & 0x0F } else { 0x0F };
    let actions: u8 = if select & 0x20 == 0 { state >> 4u8 } else { 0x0F };
    0xC0 | (select & 0x30) | (directions & actions)
}

/// Echo RAM is a window on work RAM.
pub open spec fn is_echo(addr: u16) -> bool {
    0xE000 <= addr <= 0xFDFF
}

/// The unusable range after OAM: reads give zero, writes are dropped.
pub open spec fn is_unusable(addr: u16) -> bool {
    0xFEA0 <= addr <= 0xFEFF
}

/// The address after `addr`, wrapping at the top of memory.
pub open spec fn next_addr(addr: u16) -> u16 {
    if addr == 0xFFFF {
        0
    } else {
        (addr + 1) as u16
    }
}

/// Cell of the flat memory that an address selects.
pub open spec fn cell(addr: u16) -> int {
    if is_echo(addr) {
        addr - 0x2000
    } else {
        addr as int
    }
}

/// The byte at `addr` after boot, before the cartridge is copied in.
pub open spec fn boot_byte(addr: int) -> u8 {
    if addr == 0xFF00 {
        0xFF
    } else if addr == 0xFF10 {
        0x80
    } else if addr == 0xFF11 || addr == 0xFF14 || addr == 0xFF19 || addr == 0xFF1E || addr
        == 0xFF23 {
        0xBF
    } else if addr == 0xFF12 || addr == 0xFF25 {
        0xF3
    } else if addr == 0xFF16 {
        0x3F
    } else if addr == 0xFF1A {
        0x7F
    } else if addr == 0xFF1B || addr == 0xFF20 || addr == 0xFF48 || addr == 0xFF49 {
        0xFF
    } else if addr == 0xFF1C {
        0x9F
    } else if addr == 0xFF24 {
        0x77
    } else if addr == 0xFF26 {
        0xF1
    } else if addr == 0xFF40 {
        0x91
    } else if addr == 0xFF47 {
        0xFC
    } else {
        0
    }
}

/// The memory after boot with `rom` at address zero.
pub open spec fn boot_memory(rom: Seq<u8>) -> Seq<u8> {
    Seq::new(0x10000, |i: int| if i < rom.len() { rom[i] } else { boot_byte(i) })
}

pub fn next_address(addr: u16) -> (r: u16)
    ensures
        r == next_addr(addr),
{
    if addr == 0xFFFF {
        0
    } else {
        addr + 1
    }
}

/// The whole state of the bus, as the contracts see it.
pub struct Bus {
    pub memory: Seq<u8>,
    pub joypad: u8,
    pub timer: Timer,
}

/// TIMA after `k` increments from `tima`, reloading from `tma` on overflow, and whether
/// it overflowed at least once.
pub open spec fn tima_run(tima: u8, tma: u8, k: nat) -> (u8, bool)
    decreases k,
{
    if k == 0 {
        (tima, false)
    } else {
        let (t, o) = tima_run(tima, tma, (k - 1) as nat);
        if t == 0xFF {
            (tma, true)
        } else {
            ((t + 1) as u8, o)
        }
    }
}

impl Bus {
    /// The memory is 64 KiB, the timer counters are in range, and LY names one of the 154
    /// scanlines.
    pub open spec fn wf(self) -> bool {
        self.memory.len() == 0x10000 && self.timer.wf(self.memory[TAC as int]) && self.memory[LY as int]
            < 154
    }

    pub open spec fn read(self, addr: u16) -> u8 {
        if addr == JOYPAD {
            joypad_byte(self.memory[JOYPAD as int], self.joypad)
        } else if is_unusable(addr) {
            0
        } else {
            self.memory[cell(addr)]
        }
    }

    /// Little-endian: the low byte at `addr`.
    pub open spec fn read_word(self, addr: u16) -> u16 {
        pair(self.read(next_addr(addr)), self.read(addr))
    }

    /// The memory after an OAM DMA from page `page`.
    pub open spec fn dma_memory(self, page: u8) -> Seq<u8> {
        Seq::new(
            0x10000,
            |i: int|
                if 0xFE00 <= i < 0xFEA0 {
                    self.read((page as int * 256 + (i - 0xFE00)) as u16)
                } else {
                    self.memory[i]
                },
        )
    }

    pub open spec fn write_memory(self, addr: u16, v: u8) -> Seq<u8> {
        if addr < 0x8000 || is_unusable(addr) {
            self.memory
        } else if addr == DIV || addr == LY {
            self.memory.update(addr as int, 0)
        } else if addr == DMA {
            self.dma_memory(v).update(DMA as int, v)
        } else {
            self.memory.update(cell(addr), v)
        }
    }

    pub open spec fn write_timer(self, addr: u16, v: u8) -> Timer {
        if addr == DIV {
            Timer { timer_counter: self.timer.timer_counter, divider_counter: 0 }
        } else if addr == TAC && v & 3 != self.memory[TAC as int] & 3 {
            Timer { timer_counter: period_of(v), divider_counter: self.timer.divider_counter }
        } else {
            self.timer
        }
    }

    /// The bus after the program writes `v` at `addr`.
    pub open spec fn write(self, addr: u16, v: u8) -> Bus {
        Bus {
            memory: self.write_memory(addr, v),
            joypad: self.joypad,
            timer: self.write_timer(addr, v),
        }
    }

    /// Low byte first, at `addr`, then the high byte at `addr + 1`.
    pub open spec fn write_word(self, addr: u16, v: u16) -> Bus {
        self.write(addr, v as u8).write(next_addr(addr), (v >> 8u16) as u8)
    }

    /// The bus with bit `index` of IF set.
    pub open spec fn with_interrupt(self, index: u8) -> Bus {
        Bus {
            memory: self.memory.update(IF as int, self.memory[IF as int] | (1u8 << index)),
            joypad: self.joypad,
            timer: self.timer,
        }
    }

    /// Whether pressing `key` raises the joypad interrupt: it was released and its group is
    /// selected.
    pub open spec fn key_interrupt(self, key: u8) -> bool {
        let select = self.memory[JOYPAD as int];
        self.joypad & (1u8 << key) != 0 && (if key > 3 {
            select & 0x20 == 0
        } else {
            select & 0x10 == 0
        })
    }

    /// The bus after `cycles` M-cycles of the timer block.
    pub open spec fn timers_advanced(self, cycles: u16) -> Bus {
        let tac = self.memory[TAC as int];
        let div_ticks = (self.timer.divider_counter + cycles) / 256;
        let tima = tima_run(
            self.memory[TIMA as int],
            self.memory[TMA as int],
            self.timer.tima_ticks_spec(tac, cycles) as nat,
        );
        let m = self.memory.update(DIV as int, ((self.memory[DIV as int] + div_ticks) % 256) as u8).update(
            TIMA as int,
            tima.0,
        );
        Bus {
            memory: if tima.1 {
                m.update(IF as int, m[IF as int] | 4)
            } else {
                m
            },
            joypad: self.joypad,
            timer: Timer {
                timer_counter: self.timer.after_tima(tac, cycles),
                divider_counter: ((self.timer.divider_counter + cycles) % 256) as u16,
            },
        }
    }
}

/// The memory bus: the flat 64 KiB address space, the joypad latch and the timer counters.
pub struct MMU {
    pub memory: Vec<u8>,
    pub joypad_state: u8,
    pub timer: Timer,
}

impl View for MMU {
    type V = Bus;

    open spec fn view(&self) -> Bus {
        Bus { memory: self.memory@, joypad: self.joypad_state, timer: self.timer }
    }
}

impl MMU {
    pub open spec fn wf(&self) -> bool {
        self@.wf()
    }

    /// Boots the bus with the I/O registers at their power-up values and `rom` at address 0.
    pub fn new(rom: Vec<u8>) -> (r: MMU)
        requires
            rom@.len() <= 0x8000,
        ensures
            r.wf(),
            r.memory@ == boot_memory(rom@),
            r.joypad_state == 0xFF,
            r.timer == (Timer { timer_counter: 1024, divider_counter: 0 }),
    {
        let mut memory: Vec<u8> = Vec::new();
        let mut i: usize = 0;
        while i < MEMORY_SIZE
            invariant
                i <= MEMORY_SIZE,
                memory@.len() == i,
                forall|j: int| 0 <= j < i ==> memory@[j] == 0,
            decreases MEMORY_SIZE - i,
        {
            memory.push(0);
            i = i + 1;
        }
        memory.set(0xFF00, 0xFF);
        memory.set(0xFF10, 0x80);
        memory.set(0xFF11, 0xBF);
        memory.set(0xFF12, 0xF3);
        memory.set(0xFF14, 0xBF);
        memory.set(0xFF16, 0x3F);
        memory.set(0xFF19, 0xBF);
        memory.set(0xFF1A, 0x7F);
        memory.set(0xFF1B, 0xFF);
        memory.set(0xFF1C, 0x9F);
        memory.set(0xFF1E, 0xBF);
        memory.set(0xFF20, 0xFF);
        memory.set(0xFF23, 0xBF);
        memory.set(0xFF24, 0x77);
        memory.set(0xFF25, 0xF3);
        memory.set(0xFF26, 0xF1);
        memory.set(0xFF40, 0x91);
        memory.set(0xFF47, 0xFC);
        memory.set(0xFF48, 0xFF);
        memory.set(0xFF49, 0xFF);
        assert forall|j: int| 0 <= j < 0x10000 implies memory@[j] == boot_byte(j) by {}
        let mut k: usize = 0;
        while k < rom.len()
            invariant
                k <= rom@.len() <= 0x8000,
                memory@.len() == 0x10000,
                forall|j: int| 0 <= j < k ==> memory@[j] == rom@[j],
                forall|j: int| k <= j < 0x10000 ==> memory@[j] == boot_byte(j),
            decreases rom@.len() - k,
        {
            memory.set(k, rom[k]);
            k = k + 1;
        }
        assert(memory@ =~= boot_memory(rom@));
        assert(memory@[TAC as int] & 3 == 0) by {
            assert(0u8 & 3 == 0) by (bit_vector);
        }
        MMU { memory, joypad_state: 0xFF, timer: Timer::new() }
    }

    fn get_joypad_state(&self) -> (r: u8)
        requires
            self.wf(),
        ensures
            r == joypad_byte(self.memory@[JOYPAD as int], self.joypad_state),
    {
        let select = self.memory[0xFF00];
        let directions: u8 = if select & 0x10 == 0 {
            self.joypad_state & 0x0F
        } else {
            0x0F
        };
        let actions: u8 = if select & 0x20 == 0 {
            self.joypad_state >> 4u8
        } else {
            0x0F
        };
        0xC0 | (select & 0x30) | (directions & actions)
    }

    /// Reads one byte as the program sees it.
    pub fn rb(&self, address: u16) -> (r: u8)
        requires
            self.wf(),
        ensures
            r == self@.read(address),
    {
        if address == JOYPAD {
            self.get_joypad_state()
        } else if 0xFEA0 <= address && address <= 0xFEFF {
            0
        } else if 0xE000 <= address && address <= 0xFDFF {
            self.memory[(address - 0x2000) as usize]
        } else {
            self.memory[address as usize]
        }
    }

    /// Reads a little-endian word.
    pub fn rw(&self, address: u16) -> (r: u16)
        requires
            self.wf(),
        ensures
            r == self@.read_word(address),
    {
        let lo = self.rb(address);
        let hi = self.rb(next_address(address));
        (hi as u16) << 8u16 | (lo as u16)
    }

    /// Copies the 160 bytes from `page << 8` into OAM.
    fn dma_transfer(&mut self, page: u8)
        requires
            old(self).wf(),
        ensures
            final(self).memory@ == old(self)@.dma_memory(page),
            final(self).joypad_state == old(self).joypad_state,
            final(self).timer == old(self).timer,
    {
        let base: u16 = (page as u16) * 256;
        let mut bytes: Vec<u8> = Vec::new();
        let mut i: u16 = 0;
        while i < OAM_SIZE
            invariant
                self.wf(),
                i <= OAM_SIZE,
                base == page as int * 256,
                bytes@.len() == i,
                forall|j: int| 0 <= j < i ==> bytes@[j] == self@.read((base + j) as u16),
            decreases OAM_SIZE - i,
        {
            let b = self.rb(base + i);
            bytes.push(b);
            i = i + 1;
        }
        let ghost before = self@;
        let mut k: usize = 0;
        while k < OAM_SIZE as usize
            invariant
                k <= OAM_SIZE,
                bytes@.len() == OAM_SIZE,
                self.memory@.len() == 0x10000,
                self.joypad_state == before.joypad,
                self.timer == before.timer,
                forall|j: int| 0 <= j < k ==> bytes@[j] == before.read((base + j) as u16),
                forall|j: int| k <= j < OAM_SIZE ==> bytes@[j] == before.read((base + j) as u16),
                forall|j: int|
                    0 <= j < 0x10000 ==> self.memory@[j] == (if 0xFE00 <= j < 0xFE00 + k {
                        bytes@[j - 0xFE00]
                    } else {
                        before.memory[j]
                    }),
            decreases OAM_SIZE - k,
        {
            self.memory.set(0xFE00 + k, bytes[k]);
            k = k + 1;
        }
        assert(self.memory@ =~= before.dma_memory(page));
    }

    /// Writes one byte as the program does: ROM and the unusable range ignore it, echo RAM
    /// lands in work RAM, DIV and LY reset, TAC may reload the timer, and DMA copies into OAM.
    pub fn wb(&mut self, address: u16, value: u8)
        requires
            old(self).wf(),
        ensures
            final(self)@ == old(self)@.write(address, value),
            final(self).wf(),
    {
        if address < 0x8000 || (0xFEA0 <= address && address <= 0xFEFF) {
        } else if address == DIV {
            self.memory.set(0xFF04, 0);
            self.timer.divider_counter = 0;
        } else if address == LY {
            self.memory.set(0xFF44, 0);
        } else if address == TAC {
            let current = self.memory[0xFF07] & 3;
            self.memory.set(0xFF07, value);
            if value & 3 != current {
                self.timer.reset_timer_counter(value);
            }
        } else if address == DMA {
            self.dma_transfer(value);
            self.memory.set(0xFF46, value);
        } else if 0xE000 <= address && address <= 0xFDFF {
            self.memory.set((address - 0x2000) as usize, value);
        } else {
            self.memory.set(address as usize, value);
        }
        assert(self@ == old(self)@.write(address, value));
    }

    /// Writes a little-endian word: the low byte at `address`.
    pub fn ww(&mut self, address: u16, value: u16)
        requires
            old(self).wf(),
        ensures
            final(self)@ == old(self)@.write_word(address, value),
            final(self).wf(),
    {
        self.wb(address, value as u8);
        self.wb(next_address(address), (value >> 8u16) as u8);
    }

    /// Stores an I/O register with no side effect; the PPU keeps LY and STAT this way.
    pub fn set_io(&mut self, address: u16, value: u8)
        requires
            old(self).wf(),
            0xFF00 <= address <= 0xFF7F,
            address != TAC,
            address == LY ==> value < 154,
        ensures
            final(self).memory@ == old(self).memory@.update(address as int, value),
            final(self).joypad_state == old(self).joypad_state,
            final(self).timer == old(self).timer,
            final(self).wf(),
    {
        self.memory.set(address as usize, value);
    }

    /// Sets bit `index` of IF.
    pub fn request_interrupt(&mut self, index: u8)
        requires
            old(self).wf(),
            index < 5,
        ensures
            final(self)@ == old(self)@.with_interrupt(index),
            final(self).wf(),
    {
        let v: u8 = self.memory[0xFF0F] | (1u8 << index);
        self.memory.set(0xFF0F, v);
        assert(self@ == old(self)@.with_interrupt(index));
    }

    /// Marks `key` pressed (0 = Right, 1 = Left, 2 = Up, 3 = Down, 4 = A, 5 = B, 6 = Select,
    /// 7 = Start); the joypad interrupt is raised when it was released and its group is selected.
    pub fn key_pressed(&mut self, key: u8)
        requires
            old(self).wf(),
            key < 8,
        ensures
            final(self).joypad_state == old(self).joypad_state & !(1u8 << key),
            final(self).memory@ == (if old(self)@.key_interrupt(key) {
                old(self)@.with_interrupt(4).memory
            } else {
                old(self).memory@
            }),
            final(self).timer == old(self).timer,
            final(self).wf(),
    {
        let previously_released = self.joypad_state & (1u8 << key) != 0;
        self.joypad_state = self.joypad_state & !(1u8 << key);
        let select = self.memory[0xFF00];
        let selected = if key > 3 {
            select & 0x20 == 0
        } else {
            select & 0x10 == 0
        };
        if previously_released && selected {
            self.request_interrupt(4);
        }
    }

    /// Marks `key` released.
    pub fn key_released(&mut self, key: u8)
        requires
            key < 8,
        ensures
            final(self).joypad_state == old(self).joypad_state | (1u8 << key),
            final(self).memory@ == old(self).memory@,
            final(self).timer == old(self).timer,
    {
        self.joypad_state = self.joypad_state | (1u8 << key);
    }

    /// Advances DIV and TIMA by `cycles` M-cycles; a TIMA overflow reloads TMA and requests
    /// the timer interrupt.
    pub fn update_timers(&mut self, cycles: u16)
        requires
            old(self).wf(),
        ensures
            final(self)@ == old(self)@.timers_advanced(cycles),
            final(self).wf(),
    {
        let ghost before = self@;
        let tac = self.memory[0xFF07];
        let (tima_ticks, div_ticks) = self.timer.update_timers(tac, cycles);
        let div = self.memory[0xFF04];
        self.memory.set(0xFF04, ((div as u32 + div_ticks as u32) % 256) as u8);
        let tma = self.memory[0xFF06];
        let mut tima = self.memory[0xFF05];
        let mut overflowed = false;
        let mut i: u16 = 0;
        while i < tima_ticks
            invariant
                i <= tima_ticks,
                (tima, overflowed) == tima_run(before.memory[TIMA as int], tma, i as nat),
            decreases tima_ticks - i,
        {
            if tima == 0xFF {
                tima = tma;
                overflowed = true;
            } else {
                tima = tima + 1;
            }
            i = i + 1;
        }
        self.memory.set(0xFF05, tima);
        if overflowed {
            let v = self.memory[0xFF0F] | 4;
            self.memory.set(0xFF0F, v);
        }
        assert(self@ == before.timers_advanced(cycles));
    }
}

} // verus!
