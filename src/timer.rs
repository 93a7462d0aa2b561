use vstd::prelude::*;

verus! {

/// M-cycles between two TIMA increments for the frequency selected by the low two bits of TAC.
pub open spec fn period_of(tac: u8) -> u16 {
    let s = tac & 3;
    if s == 0 {
        1024
    } else if s == 1 {
        16
    } else if s == 2 {
        64
    } else {
        256
    }
}

pub open spec fn clock_enabled(tac: u8) -> bool {
    tac & 4 != 0
}

/// TIMA increments during `cycles` M-cycles when the down-counter stands at `counter`.
pub open spec fn tima_ticks(counter: int, period: int, cycles: int) -> int {
    if cycles < counter {
        0
    } else {
        (cycles - counter) / period + 1
    }
}

/// The down-counter after `cycles` M-cycles: it is reloaded each time it reaches zero.
pub open spec fn counter_after(counter: int, period: int, cycles: int) -> int {
    if cycles < counter {
        counter - cycles
    } else {
        period - (cycles - counter) % period
    }
}

/// DIV increments once every 256 M-cycles of its accumulator.
pub const DIVIDER_PERIOD: u16 = 256;

/// The two counters that pace DIV and TIMA; the registers themselves live on the bus.
#[derive(Clone, Copy, Debug, PartialEq, Eq, Structural)]
pub struct Timer {
    pub timer_counter: u16,
    pub divider_counter: u16,
}

impl Timer {
    /// The counters are in range for the frequency selected by `tac`.
    pub open spec fn wf(&self, tac: u8) -> bool {
        0 < self.timer_counter <= period_of(tac) && self.divider_counter < DIVIDER_PERIOD
    }

    pub open spec fn after_tima(&self, tac: u8, cycles: u16) -> u16 {
        if clock_enabled(tac) {
            counter_after(self.timer_counter as int, period_of(tac) as int, cycles as int) as u16
        } else {
            self.timer_counter
        }
    }

    pub open spec fn tima_ticks_spec(&self, tac: u8, cycles: u16) -> u16 {
        if clock_enabled(tac) {
            tima_ticks(self.timer_counter as int, period_of(tac) as int, cycles as int) as u16
        } else {
            0
        }
    }

    pub fn new() -> (r: Timer)
        ensures
            r.timer_counter == 1024,
            r.divider_counter == 0,
            r.wf(0),
    {
        assert(0u8 & 3 == 0) by (bit_vector);
        Timer { timer_counter: 1024, divider_counter: 0 }
    }

    pub fn is_clock_enabled(tac: u8) -> (r: bool)
        ensures
            r == clock_enabled(tac),
    {
        tac & 4 != 0
    }

    /// M-cycles per TIMA increment.
    pub fn get_frequency(tac: u8) -> (r: u16)
        ensures
            r == period_of(tac),
            r >= 16,
    {
        let s = tac & 3;
        if s == 0 {
            1024
        } else if s == 1 {
            16
        } else if s == 2 {
            64
        } else {
            256
        }
    }

    /// Reloads the TIMA down-counter for the frequency selected by `tac`.
    pub fn reset_timer_counter(&mut self, tac: u8)
        ensures
            final(self).timer_counter == period_of(tac),
            final(self).divider_counter == old(self).divider_counter,
    {
        self.timer_counter = Timer::get_frequency(tac);
    }

    /// Advances the TIMA down-counter and returns how many times TIMA must increment.
    pub fn update_timer(&mut self, tac: u8, cycles: u16) -> (ticks: u16)
        requires
            old(self).wf(tac),
        ensures
            ticks == old(self).tima_ticks_spec(tac, cycles),
            final(self).timer_counter == old(self).after_tima(tac, cycles),
            final(self).divider_counter == old(self).divider_counter,
            final(self).wf(tac),
    {
        if !Timer::is_clock_enabled(tac) {
            return 0;
        }
        let period = Timer::get_frequency(tac);
        if cycles < self.timer_counter {
            self.timer_counter = self.timer_counter - cycles;
            0
        } else {
            let over = cycles - self.timer_counter;
            self.timer_counter = period - over % period;
            over / period + 1
        }
    }

    /// Advances the DIV accumulator and returns how many times DIV must increment.
    pub fn update_divisor_register(&mut self, cycles: u16) -> (ticks: u16)
        requires
            old(self).divider_counter < DIVIDER_PERIOD,
        ensures
            ticks == (old(self).divider_counter + cycles) / 256,
            final(self).divider_counter == (old(self).divider_counter + cycles) % 256,
            final(self).timer_counter == old(self).timer_counter,
    {
        let total: u32 = self.divider_counter as u32 + cycles as u32;
        self.divider_counter = (total % 256) as u16;
        (total / 256) as u16
    }

    /// Advances both counters; returns the TIMA and DIV increments owed.
    pub fn update_timers(&mut self, tac: u8, cycles: u16) -> (r: (u16, u16))
        requires
            old(self).wf(tac),
        ensures
            r.0 == old(self).tima_ticks_spec(tac, cycles),
            r.1 == (old(self).divider_counter + cycles) / 256,
            final(self).timer_counter == old(self).after_tima(tac, cycles),
            final(self).divider_counter == (old(self).divider_counter + cycles) % 256,
            final(self).wf(tac),
    {
        let t = self.update_timer(tac, cycles);
        let d = self.update_divisor_register(cycles);
        (t, d)
    }
}

} // verus!
