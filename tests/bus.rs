use gameboy_core::{Flags, Registers, Timer, MMU};

fn bus() -> MMU {
    MMU::new(vec![0x11; 0x100])
}

#[test]
fn boot_io_values() {
    let m = bus();
    assert_eq!(m.rb(0xFF40), 0x91);
    assert_eq!(m.rb(0xFF47), 0xFC);
    assert_eq!(m.rb(0xFF07), 0x00);
    assert_eq!(m.rb(0xFF0F), 0x00);
    assert_eq!(m.rb(0xFFFF), 0x00);
    assert_eq!(m.rb(0xFF26), 0xF1);
    assert_eq!(m.rb(0x00FF), 0x11);
    assert_eq!(m.rb(0x0100), 0x00);
}

#[test]
fn rom_ignores_writes() {
    let mut m = bus();
    m.wb(0x0010, 0x99);
    assert_eq!(m.rb(0x0010), 0x11);
}

#[test]
fn div_and_ly_reset_on_write() {
    let mut m = bus();
    m.set_io(0xFF04, 0x37);
    m.wb(0xFF04, 0x12);
    assert_eq!(m.rb(0xFF04), 0);
    m.set_io(0xFF44, 0x50);
    m.wb(0xFF44, 0xFF);
    assert_eq!(m.rb(0xFF44), 0);
}

#[test]
fn echo_mirrors_work_ram() {
    let mut m = bus();
    m.wb(0xC010, 0xAB);
    assert_eq!(m.rb(0xE010), 0xAB);
    m.wb(0xFDFF, 0xCD);
    assert_eq!(m.rb(0xDDFF), 0xCD);
    for a in [0xE000u16, 0xE123, 0xF000, 0xFDFF] {
        assert_eq!(m.rb(a), m.rb(a - 0x2000));
    }
}

#[test]
fn unusable_range_reads_zero() {
    let mut m = bus();
    m.wb(0xFEA5, 0x77);
    assert_eq!(m.rb(0xFEA5), 0);
}

#[test]
fn words_are_little_endian() {
    let mut m = bus();
    m.ww(0xC100, 0xBEEF);
    assert_eq!(m.rb(0xC100), 0xEF);
    assert_eq!(m.rb(0xC101), 0xBE);
    assert_eq!(m.rw(0xC100), 0xBEEF);
}

#[test]
fn dma_copies_into_oam() {
    let mut m = bus();
    for i in 0..160u16 {
        m.wb(0xC000 + i, i as u8);
    }
    m.wb(0xFF46, 0xC0);
    for i in 0..160u16 {
        assert_eq!(m.rb(0xFE00 + i), i as u8);
    }
}

#[test]
fn request_interrupt_sets_if_bit() {
    let mut m = bus();
    m.request_interrupt(0);
    m.request_interrupt(3);
    assert_eq!(m.rb(0xFF0F), 0x09);
}

#[test]
fn joypad_projection_and_interrupt() {
    let mut m = bus();
    // Select the action group (bit 5 low).
    m.wb(0xFF00, 0x10);
    m.key_pressed(4);
    assert_eq!(m.rb(0xFF00) & 0x0F, 0x0E);
    assert_eq!(m.rb(0xFF0F) & 0x10, 0x10);
    // Pressing again raises nothing new.
    m.wb(0xFF0F, 0);
    m.key_pressed(4);
    assert_eq!(m.rb(0xFF0F), 0);
    // A direction key while only actions are selected: no interrupt, not visible.
    m.key_pressed(1);
    assert_eq!(m.rb(0xFF0F), 0);
    assert_eq!(m.rb(0xFF00) & 0x0F, 0x0E);
    m.wb(0xFF00, 0x20);
    assert_eq!(m.rb(0xFF00) & 0x0F, 0x0D);
    m.key_released(1);
    m.key_released(4);
    assert_eq!(m.joypad_state, 0xFF);
    assert_eq!(m.rb(0xFF00) & 0x0F, 0x0F);
}

#[test]
fn tima_counts_every_sixteen_cycles() {
    let mut m = bus();
    m.wb(0xFF07, 0x05);
    let chunks = [1u16, 4, 3, 6, 2, 5, 1, 6, 4, 4, 2, 3];
    let mut total: u32 = 0;
    for _ in 0..20 {
        for c in chunks {
            m.update_timers(c);
            total += c as u32;
            assert_eq!(m.rb(0xFF05) as u32, total / 16);
        }
    }
}

#[test]
fn tima_overflow_reloads_tma_and_interrupts() {
    let mut m = bus();
    m.wb(0xFF06, 0xAB);
    m.wb(0xFF05, 0xFF);
    m.wb(0xFF07, 0x05);
    m.update_timers(16);
    assert_eq!(m.rb(0xFF05), 0xAB);
    assert_eq!(m.rb(0xFF0F) & 0x04, 0x04);
}

#[test]
fn timer_disabled_does_not_count() {
    let mut m = bus();
    m.wb(0xFF07, 0x01);
    m.update_timers(100);
    assert_eq!(m.rb(0xFF05), 0);
}

#[test]
fn div_counts_every_256_cycles() {
    let mut m = bus();
    for _ in 0..100 {
        m.update_timers(6);
    }
    assert_eq!(m.rb(0xFF04), 2);
    m.wb(0xFF04, 9);
    assert_eq!(m.timer.divider_counter, 0);
    m.update_timers(255);
    assert_eq!(m.rb(0xFF04), 0);
    m.update_timers(1);
    assert_eq!(m.rb(0xFF04), 1);
}

#[test]
fn timer_counter_periods() {
    assert_eq!(Timer::get_frequency(0x04), 1024);
    assert_eq!(Timer::get_frequency(0x05), 16);
    assert_eq!(Timer::get_frequency(0x06), 64);
    assert_eq!(Timer::get_frequency(0x07), 256);
    let mut t = Timer::new();
    assert_eq!(t.update_timer(0x05, 20), 0);
    assert_eq!(t.timer_counter, 1004);
    let mut u = Timer::new();
    u.reset_timer_counter(0x05);
    assert_eq!(u.update_timers(0x05, 33), (2, 0));
    assert_eq!(u.timer_counter, 15);
}

#[test]
fn register_pairs_and_flags() {
    let mut r = Registers { a: 0, f: 0, b: 0, c: 0, d: 0, e: 0, h: 0, l: 0, sp: 0, pc: 0 };
    r.set_af(0x12FF);
    assert_eq!(r.a, 0x12);
    assert_eq!(r.f, 0xF0);
    assert_eq!(r.af(), 0x12F0);
    r.set_hl(0xABCD);
    assert_eq!((r.h, r.l), (0xAB, 0xCD));
    r.set_de(0x0102);
    assert_eq!(r.de(), 0x0102);
    r.set_bc(0xFFFE);
    assert_eq!(r.bc(), 0xFFFE);
    r.clear_flag(Flags::Zero);
    assert_eq!(r.f, 0x70);
    r.set_flag(Flags::Zero);
    r.clear_flag(Flags::Carry);
    assert_eq!(r.f, 0xE0);
    r.change_flag(Flags::Carry, 5);
    assert_eq!(r.get_flag(Flags::Carry), 0x10);
    r.flag(Flags::Subtract, false);
    assert_eq!(r.get_flag(Flags::Subtract), 0);
    assert_eq!(r.f, 0xB0);
}
