use vstd::prelude::*;

use crate::cpu::{dispatch_cost, dispatch_next, CpuState, CPU};
use crate::exec::{cb_cycles, execute_next, imm8, op_cycles, pc1, taken_spec, with_rb};
use crate::gpu::{graphics_advanced, FRAME_CYCLES, GPU};
use crate::mmu::{boot_memory, MMU};

verus! {

/// Largest cartridge image without a memory bank controller.
pub const MAX_ROM_SIZE: usize = 0x8000;

/// The whole state of the machine, as the contracts see it.
pub struct MachineState {
    pub cpu: CpuState,
    pub line_clock: u16,
    pub screen: Seq<u32>,
}

/// The CPU after its fetch: PC past the opcode byte.
pub open spec fn fetched(s: CpuState) -> CpuState {
    with_rb(s, s.registers.with_pc(pc1(s)), s.bus)
}

/// The CPU part of one step from `s` and the M-cycles it takes: interrupt dispatch, then
/// either one idle M-cycle of a CPU that stays halted, or the fetch and the run of one opcode.
pub open spec fn cpu_step(s: CpuState) -> (CpuState, u16) {
    let d = dispatch_next(s);
    let cost = dispatch_cost(s);
    if d.halted {
        (d, (cost + 1) as u16)
    } else {
        let op = imm8(d);
        let f = fetched(d);
        let c = if op == 0xCB {
            cb_cycles(imm8(f))
        } else {
            op_cycles(op, taken_spec(op, f.registers.f))
        };
        (execute_next(op, f), (cost + c) as u16)
    }
}

/// One step from `s` to `t` taking `cycles`: the CPU part, then the timer block, then the LCD,
/// each advanced by the same M-cycles.
#[verifier::opaque]
pub open spec fn step_relation(s: MachineState, t: MachineState, cycles: u16) -> bool {
    let e = cpu_step(s.cpu).0;
    &&& cycles == cpu_step(s.cpu).1
    &&& t.cpu == CpuState { bus: t.cpu.bus, ..e }
    &&& graphics_advanced(
        s.line_clock,
        s.screen,
        e.bus.timers_advanced(cycles),
        cycles,
        t.line_clock,
        t.screen,
        t.cpu.bus,
    )
}

/// `states` is a run of the machine: each state follows from the one before by one step
/// taking the matching entry of `cycles`.
pub open spec fn is_run(states: Seq<MachineState>, cycles: Seq<u16>) -> bool {
    &&& states.len() == cycles.len() + 1
    &&& forall|i: int|
        0 <= i < cycles.len() ==> #[trigger] step_relation(states[i], states[i + 1], cycles[i])
}

/// The whole machine: the CPU, which owns the bus, and the LCD.
pub struct GameBoy {
    pub cpu: CPU,
    pub gpu: GPU,
}

impl View for GameBoy {
    type V = MachineState;

    open spec fn view(&self) -> MachineState {
        MachineState {
            cpu: self.cpu@,
            line_clock: self.gpu.scanline_counter,
            screen: self.gpu.screen_data@,
        }
    }
}

impl GameBoy {
    pub open spec fn wf(&self) -> bool {
        self.cpu.wf() && self.gpu.wf()
    }

    /// Boots with `rom` mapped at address 0; `None` when the image is over 32 KiB.
    pub fn load(rom: Vec<u8>) -> (r: Option<GameBoy>)
        ensures
            r is Some <==> rom@.len() <= MAX_ROM_SIZE,
            r is Some ==> ({
                let g = r->0;
                &&& g.wf()
                &&& g.cpu.mmu.memory@ == boot_memory(rom@)
                &&& g.cpu.registers.pc == 0x0100
                &&& g.cpu.registers.sp == 0xFFFE
                &&& g.gpu.scanline_counter == 0
            }),
    {
        if rom.len() > MAX_ROM_SIZE {
            return None;
        }
        let mmu = MMU::new(rom);
        Some(GameBoy { cpu: CPU::new(mmu), gpu: GPU::new() })
    }

    /// One step of the machine: pending interrupts are serviced, then one instruction runs
    /// (a halted CPU idles for one M-cycle), then the timer and the LCD advance by the
    /// M-cycles spent, which are returned.
    pub fn step(&mut self) -> (cycles: u16)
        requires
            old(self).wf(),
        ensures
            final(self).wf(),
            final(self).cpu.registers.f & 0x0F == 0,
            1 <= cycles <= 11,
            step_relation(old(self)@, final(self)@, cycles),
    {
        let mut cycles: u16 = self.cpu.do_interrupts() as u16;
        if self.cpu.is_halted {
            cycles = cycles + 1;
        } else {
            let opcode = self.cpu.fetch_byte();
            cycles = cycles + self.cpu.execute(opcode) as u16;
        }
        self.cpu.mmu.update_timers(cycles);
        self.gpu.update_graphics(&mut self.cpu.mmu, cycles);
        proof {
            reveal(step_relation);
        }
        cycles
    }

    /// Runs steps until at least one frame's worth of M-cycles has passed; returns how many.
    pub fn run_frame(&mut self) -> (total: u32)
        requires
            old(self).wf(),
        ensures
            final(self).wf(),
            FRAME_CYCLES <= total < FRAME_CYCLES + 11,
            exists|states: Seq<MachineState>, cycles: Seq<u16>|
                #[trigger] is_run(states, cycles) && states[0] == old(self)@ && states.last()
                    == final(self)@ && crate::laws::total(cycles) == total,
    {
        let mut total: u32 = 0;
        let ghost mut states: Seq<MachineState> = seq![self@];
        let ghost mut cycles: Seq<u16> = Seq::empty();
        while total < FRAME_CYCLES
            invariant
                self.wf(),
                total < FRAME_CYCLES + 11,
                is_run(states, cycles),
                states[0] == old(self)@,
                states.last() == self@,
                crate::laws::total(cycles) == total,
            decreases FRAME_CYCLES + 11 - total,
        {
            let c = self.step();
            total = total + c as u32;
            proof {
                let prev = states;
                let prev_cycles = cycles;
                states = states.push(self@);
                cycles = cycles.push(c);
                assert(cycles.drop_last() =~= prev_cycles);
                assert forall|i: int| 0 <= i < cycles.len() implies #[trigger] step_relation(
                    states[i],
                    states[i + 1],
                    cycles[i],
                ) by {
                    if i < prev_cycles.len() {
                        assert(states[i] == prev[i] && states[i + 1] == prev[i + 1]);
                    }
                }
            }
        }
        total
    }

    /// The 160 x 144 frame buffer, 0x00RRGGBB, row by row.
    pub fn screen(&self) -> (r: &Vec<u32>)
        ensures
            r@ == self.gpu.screen_data@,
    {
        &self.gpu.screen_data
    }

    /// Marks joypad key `key` (0..8) pressed.
    pub fn press_key(&mut self, key: u8)
        requires
            old(self).wf(),
            key < 8,
        ensures
            final(self).wf(),
            final(self).cpu.mmu.joypad_state == old(self).cpu.mmu.joypad_state & !(1u8 << key),
            final(self).cpu.mmu.memory@ == (if old(self).cpu.mmu@.key_interrupt(key) {
                old(self).cpu.mmu@.with_interrupt(4).memory
            } else {
                old(self).cpu.mmu.memory@
            }),
            final(self).cpu.registers == old(self).cpu.registers,
            final(self).gpu.screen_data@ == old(self).gpu.screen_data@,
    {
        self.cpu.mmu.key_pressed(key);
    }

    /// Marks joypad key `key` (0..8) released.
    pub fn release_key(&mut self, key: u8)
        requires
            old(self).wf(),
            key < 8,
        ensures
            final(self).wf(),
            final(self).cpu.mmu.joypad_state == old(self).cpu.mmu.joypad_state | (1u8 << key),
            final(self).cpu.mmu.memory@ == old(self).cpu.mmu.memory@,
            final(self).cpu.registers == old(self).cpu.registers,
    {
        self.cpu.mmu.key_released(key);
    }
}

} // verus!
