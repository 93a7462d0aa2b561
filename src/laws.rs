use vstd::prelude::*;

use crate::alu::{alu_flags, alu_result, shift_result};
use crate::cpu::{minus_two, plus_two};
use crate::cpu::CpuState;
use crate::exec::{block3_next, pc2, plain_word};
use crate::gpu::{frame_position, graphics_advanced, FRAME_CYCLES, LINE_CYCLES};
use crate::mmu::{is_echo, Bus, DIV, LCDC, LY};
use crate::registers::{flags_byte, has_flag, lemma_flags_byte, Flags};
use crate::timer::{counter_after, tima_ticks};

verus! {

/// The bus after the program writes each `(address, value)` of `writes` in turn.
pub open spec fn after_writes(bus: Bus, writes: Seq<(u16, u8)>) -> Bus
    decreases writes.len(),
{
    if writes.len() == 0 {
        bus
    } else {
        let prev = after_writes(bus, writes.drop_last());
        prev.write(writes.last().0, writes.last().1)
    }
}

/// Whatever the program wrote, DIV and LY read back as zero right after a write to them.
pub proof fn lemma_reset_on_write(bus: Bus, addr: u16, v: u8)
    requires
        bus.wf(),
        addr == DIV || addr == LY,
    ensures
        bus.write(addr, v).read(addr) == 0,
{
}

/// Echo RAM reads as work RAM 0x2000 below it, after any sequence of writes.
pub proof fn lemma_echo_mirrors(bus: Bus, writes: Seq<(u16, u8)>, addr: u16)
    requires
        is_echo(addr),
    ensures
        after_writes(bus, writes).read(addr) == after_writes(bus, writes).read(
            (addr - 0x2000) as u16,
        ),
{
}

/// A byte written through echo RAM is read back from work RAM.
pub proof fn lemma_echo_write(bus: Bus, addr: u16, v: u8)
    requires
        bus.wf(),
        is_echo(addr),
    ensures
        bus.write(addr, v).read((addr - 0x2000) as u16) == v,
        bus.write(addr, v).read(addr) == v,
{
}

/// SWAP undoes itself, whatever the flags.
pub proof fn lemma_swap_twice(x: u8, f: u8, g: u8)
    ensures
        shift_result(6, shift_result(6, x, f), g) == x,
{
    let s = shift_result(6, x, f);
    assert(s == (x % 16) * 16 + x / 16);
    assert(s % 16 == x / 16 && s / 16 == x % 16) by (nonlinear_arith)
        requires
            s == (x % 16) * 16 + x / 16,
            0 <= x < 256,
    ;
}

/// RLC undoes RRC, whatever the flags.
pub proof fn lemma_rlc_rrc(x: u8, f: u8, g: u8)
    ensures
        shift_result(0, shift_result(1, x, f), g) == x,
{
    let r = shift_result(1, x, f);
    assert(r == x / 2 + (x % 2) * 128);
    assert((r * 2) % 256 + r / 128 == x) by (nonlinear_arith)
        requires
            r == x / 2 + (x % 2) * 128,
            0 <= x < 256,
    ;
}

/// XOR of A with itself clears A and leaves F = 0x80: Z set, N, H and C clear.
pub proof fn lemma_xor_self(x: u8, f: u8)
    ensures
        alu_result(5, x, x, f) == 0,
        alu_flags(5, x, x, f) == 0x80,
        has_flag(alu_flags(5, x, x, f), Flags::Zero),
{
    assert(x ^ x == 0) by (bit_vector);
    assert(flags_byte(true, false, false, false) == 0x80) by (bit_vector);
    lemma_flags_byte(true, false, false, false);
}

/// CALL then RET: the return address that CALL pushed is what RET pops, and SP is back
/// where it was, provided the two stack bytes are plain RAM.
pub proof fn lemma_call_ret(bus: Bus, sp: u16, pc: u16)
    requires
        bus.wf(),
        plain_word(minus_two(sp)),
    ensures
        bus.write_word(minus_two(sp), pc).read_word(minus_two(sp)) == pc,
        plus_two(minus_two(sp)) == sp,
{
    crate::registers::lemma_pair_split(pc);
}

/// CALL then RET, as the executor runs them: `s` stands after the CALL opcode, `t` after
/// the call, `r` after the RET opcode was fetched at the callee and `u` after the return.
/// PC comes back past the CALL's operand and SP to where it was.
pub proof fn lemma_call_then_ret(s: CpuState, r: CpuState)
    requires
        s.bus.wf(),
        plain_word(minus_two(s.registers.sp)),
        r.bus == block3_next(0xCD, s).bus,
        r.registers.sp == block3_next(0xCD, s).registers.sp,
    ensures
        block3_next(0xC9, r).registers.pc == pc2(s),
        block3_next(0xC9, r).registers.sp == s.registers.sp,
{
    lemma_call_ret(s.bus, s.registers.sp, pc2(s));
}

/// Sum of `cs`.
pub open spec fn total(cs: Seq<u16>) -> int
    decreases cs.len(),
{
    if cs.len() == 0 {
        0
    } else {
        total(cs.drop_last()) + cs.last()
    }
}

/// The frame position after the LCD has advanced by each of `cs` in turn from `start`.
pub open spec fn frame_after(start: int, cs: Seq<u16>) -> int
    decreases cs.len(),
{
    if cs.len() == 0 {
        start
    } else {
        (frame_after(start, cs.drop_last()) + cs.last()) % (FRAME_CYCLES as int)
    }
}

/// Frame length: from LY = 0 at the start of a line, the LCD's position after any sequence
/// of advances is the total of their M-cycles modulo 17,556; after exactly 17,556 it is back
/// at LY = 0 at the start of a line, every one of the 154 lines having gone by once.
pub proof fn lemma_frame_length(cs: Seq<u16>)
    ensures
        frame_after(frame_position(0, 0), cs) == total(cs) % (FRAME_CYCLES as int),
        total(cs) == FRAME_CYCLES ==> frame_after(frame_position(0, 0), cs) == frame_position(0, 0),
    decreases cs.len(),
{
    if cs.len() > 0 {
        lemma_frame_length(cs.drop_last());
        vstd::arithmetic::div_mod::lemma_add_mod_noop_right(
            cs.last() as int,
            total(cs.drop_last()),
            FRAME_CYCLES as int,
        );
    }
}

/// Frame length over the LCD's own contract: when each of `buses[i]`, `clocks[i]`,
/// `screens[i]` follows from the one before by `update_graphics` advancing `cs[i]` M-cycles
/// with the LCD on, starting from LY = 0 at the start of a line, the last position in the
/// frame is the total of `cs` modulo 17,556; after exactly 17,556 M-cycles LY is 0 again at
/// the start of its line.
pub proof fn lemma_frame_of_updates(
    clocks: Seq<u16>,
    screens: Seq<Seq<u32>>,
    buses: Seq<Bus>,
    cs: Seq<u16>,
)
    requires
        clocks.len() == cs.len() + 1,
        screens.len() == cs.len() + 1,
        buses.len() == cs.len() + 1,
        forall|i: int|
            0 <= i < cs.len() ==> #[trigger] graphics_advanced(
                clocks[i],
                screens[i],
                buses[i],
                cs[i],
                clocks[i + 1],
                screens[i + 1],
                buses[i + 1],
            ),
        forall|i: int| 0 <= i < cs.len() ==> #[trigger] buses[i].memory[LCDC as int] & 0x80 != 0,
        buses[0].memory[LY as int] == 0,
        clocks[0] == 0,
    ensures
        frame_position(buses.last().memory[LY as int] as int, clocks.last() as int) == total(cs)
            % (FRAME_CYCLES as int),
        total(cs) == FRAME_CYCLES ==> buses.last().memory[LY as int] == 0 && clocks.last() == 0,
    decreases cs.len(),
{
    if cs.len() > 0 {
        let n = cs.len() - 1;
        let cs0 = cs.drop_last();
        let clocks0 = clocks.drop_last();
        let screens0 = screens.drop_last();
        let buses0 = buses.drop_last();
        assert forall|i: int| 0 <= i < cs0.len() implies #[trigger] graphics_advanced(
            clocks0[i],
            screens0[i],
            buses0[i],
            cs0[i],
            clocks0[i + 1],
            screens0[i + 1],
            buses0[i + 1],
        ) by {
            assert(graphics_advanced(
                clocks[i],
                screens[i],
                buses[i],
                cs[i],
                clocks[i + 1],
                screens[i + 1],
                buses[i + 1],
            ));
        }
        assert forall|i: int| 0 <= i < cs0.len() implies #[trigger] buses0[i].memory[LCDC as int]
            & 0x80 != 0 by {
            assert(buses[i].memory[LCDC as int] & 0x80 != 0);
        }
        lemma_frame_of_updates(clocks0, screens0, buses0, cs0);
        assert(graphics_advanced(
            clocks[n],
            screens[n],
            buses[n],
            cs[n],
            clocks[n + 1],
            screens[n + 1],
            buses[n + 1],
        ));
        assert(buses[n].memory[LCDC as int] & 0x80 != 0);
        vstd::arithmetic::div_mod::lemma_add_mod_noop_right(
            cs.last() as int,
            total(cs0),
            FRAME_CYCLES as int,
        );
    }
}

/// A frame position names one line and one point in it.
pub proof fn lemma_line_of_position(ly: int, counter: int)
    requires
        0 <= counter < LINE_CYCLES,
        0 <= ly,
    ensures
        frame_position(ly, counter) / (LINE_CYCLES as int) == ly,
        frame_position(ly, counter) % (LINE_CYCLES as int) == counter,
{
    vstd::arithmetic::div_mod::lemma_fundamental_div_mod_converse(
        frame_position(ly, counter),
        LINE_CYCLES as int,
        ly,
        counter,
    );
}

/// The TIMA down-counter and increment count after advancing by each of `cs` in turn.
pub open spec fn timer_after(counter: int, period: int, cs: Seq<u16>) -> (int, int)
    decreases cs.len(),
{
    if cs.len() == 0 {
        (counter, 0)
    } else {
        let (c, k) = timer_after(counter, period, cs.drop_last());
        (counter_after(c, period, cs.last() as int), k + tima_ticks(c, period, cs.last() as int))
    }
}

/// Over any window that starts with a freshly loaded counter, TIMA increments exactly
/// floor(M-cycles / period) times (period 16 for TAC = 0x05).
pub proof fn lemma_tima_rate(period: int, cs: Seq<u16>)
    requires
        period > 0,
    ensures
        timer_after(period, period, cs).1 == total(cs) / period,
{
    lemma_timer_window(period, cs);
    let (c, k) = timer_after(period, period, cs);
    vstd::arithmetic::div_mod::lemma_fundamental_div_mod_converse(total(cs), period, k, period - c);
}

/// The down-counter stays in (0, period] and accounts for every M-cycle.
proof fn lemma_timer_window(period: int, cs: Seq<u16>)
    requires
        period > 0,
    ensures
        0 < timer_after(period, period, cs).0 <= period,
        timer_after(period, period, cs).1 * period + (period - timer_after(period, period, cs).0)
            == total(cs),
    decreases cs.len(),
{
    if cs.len() > 0 {
        lemma_timer_window(period, cs.drop_last());
        let (c, k) = timer_after(period, period, cs.drop_last());
        let x = cs.last() as int;
        if x >= c {
            let over = x - c;
            vstd::arithmetic::div_mod::lemma_fundamental_div_mod(over, period);
            assert(0 <= over % period < period) by {
                vstd::arithmetic::div_mod::lemma_mod_bound(over, period);
            }
            assert((k + over / period + 1) * period == k * period + (over / period) * period + period)
                by (nonlinear_arith);
        }
    }
}

} // verus!
