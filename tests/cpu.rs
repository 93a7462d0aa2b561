use gameboy_core::GameBoy;

/// A machine whose cartridge holds `program` at 0x0100 and NOPs elsewhere.
fn machine(program: &[u8]) -> GameBoy {
    let mut rom: Vec<u8> = vec![0; 0x8000];
    for (i, b) in program.iter().enumerate() {
        rom[0x100 + i] = *b;
    }
    GameBoy::load(rom).unwrap()
}

/// Fetches and runs one instruction; returns its M-cycles.
fn run(gb: &mut GameBoy) -> u8 {
    let op = gb.cpu.fetch_byte();
    gb.cpu.execute(op)
}

#[test]
fn boot_registers() {
    let gb = machine(&[]);
    assert_eq!(gb.cpu.registers.af(), 0x01B0);
    assert_eq!(gb.cpu.registers.bc(), 0x0013);
    assert_eq!(gb.cpu.registers.de(), 0x00D8);
    assert_eq!(gb.cpu.registers.hl(), 0x014D);
    assert_eq!(gb.cpu.registers.sp, 0xFFFE);
    assert_eq!(gb.cpu.registers.pc, 0x0100);
}

#[test]
fn ld_bc_store_inc_into_rom_is_ignored() {
    let mut gb = machine(&[0x01, 0x34, 0x12, 0x02, 0x03]);
    gb.cpu.registers.a = 0x42;
    let cycles = run(&mut gb) as u32 + run(&mut gb) as u32 + run(&mut gb) as u32;
    assert_eq!(cycles, 7);
    assert_eq!(gb.cpu.registers.bc(), 0x1235);
    assert_eq!(gb.cpu.registers.pc, 0x0105);
    // 0x1234 lies in cartridge ROM, which ignores writes.
    assert_eq!(gb.cpu.mmu.rb(0x1234), 0x00);
}

#[test]
fn ld_bc_store_inc_into_work_ram() {
    let mut gb = machine(&[0x01, 0x34, 0xC2, 0x02, 0x03]);
    gb.cpu.registers.a = 0x42;
    let cycles = run(&mut gb) as u32 + run(&mut gb) as u32 + run(&mut gb) as u32;
    assert_eq!(cycles, 7);
    assert_eq!(gb.cpu.registers.bc(), 0xC235);
    assert_eq!(gb.cpu.mmu.rb(0xC234), 0x42);
}

#[test]
fn add_a_b_overflows_to_zero() {
    let mut gb = machine(&[0x80]);
    gb.cpu.registers.a = 0xF0;
    gb.cpu.registers.b = 0x10;
    assert_eq!(run(&mut gb), 1);
    assert_eq!(gb.cpu.registers.a, 0x00);
    assert_eq!(gb.cpu.registers.f, 0x90);
}

#[test]
fn sub_b_borrows() {
    let mut gb = machine(&[0x90]);
    gb.cpu.registers.a = 0x00;
    gb.cpu.registers.b = 0x01;
    assert_eq!(run(&mut gb), 1);
    assert_eq!(gb.cpu.registers.a, 0xFF);
    assert_eq!(gb.cpu.registers.f, 0x70);
}

#[test]
fn adc_and_sbc_use_carry() {
    // SCF; ADC A,0x0F; SCF; SBC A,0x01
    let mut gb = machine(&[0x37, 0xCE, 0x0F, 0x37, 0xDE, 0x01]);
    gb.cpu.registers.a = 0x00;
    run(&mut gb);
    assert_eq!(run(&mut gb), 2);
    assert_eq!(gb.cpu.registers.a, 0x10);
    assert_eq!(gb.cpu.registers.f, 0x20);
    run(&mut gb);
    run(&mut gb);
    assert_eq!(gb.cpu.registers.a, 0x0E);
    assert_eq!(gb.cpu.registers.f, 0x60);
}

#[test]
fn and_or_cp_flags() {
    // AND 0x0F; OR 0x00; CP 0x0E
    let mut gb = machine(&[0xE6, 0x0F, 0xF6, 0x00, 0xFE, 0x0E]);
    gb.cpu.registers.a = 0xF0;
    run(&mut gb);
    assert_eq!(gb.cpu.registers.a, 0x00);
    assert_eq!(gb.cpu.registers.f, 0xA0);
    run(&mut gb);
    assert_eq!(gb.cpu.registers.f, 0x80);
    gb.cpu.registers.a = 0x0E;
    run(&mut gb);
    assert_eq!(gb.cpu.registers.a, 0x0E);
    assert_eq!(gb.cpu.registers.f, 0xC0);
}

#[test]
fn inc_and_dec_half_carry_keep_carry() {
    // SCF; INC B; DEC C
    let mut gb = machine(&[0x37, 0x04, 0x0D]);
    gb.cpu.registers.b = 0x0F;
    gb.cpu.registers.c = 0x10;
    run(&mut gb);
    run(&mut gb);
    assert_eq!(gb.cpu.registers.b, 0x10);
    assert_eq!(gb.cpu.registers.f, 0x30);
    run(&mut gb);
    assert_eq!(gb.cpu.registers.c, 0x0F);
    assert_eq!(gb.cpu.registers.f, 0x70);
}

#[test]
fn push_pop_round_trip() {
    let mut gb = machine(&[0xC5, 0xC1]);
    gb.cpu.registers.sp = 0xFFFE;
    gb.cpu.registers.set_bc(0xBEEF);
    assert_eq!(run(&mut gb), 4);
    assert_eq!(gb.cpu.registers.sp, 0xFFFC);
    assert_eq!(gb.cpu.mmu.rb(0xFFFC), 0xEF);
    assert_eq!(gb.cpu.mmu.rb(0xFFFD), 0xBE);
    gb.cpu.registers.set_bc(0);
    assert_eq!(run(&mut gb), 3);
    assert_eq!(gb.cpu.registers.sp, 0xFFFE);
    assert_eq!(gb.cpu.registers.bc(), 0xBEEF);
}

#[test]
fn pop_af_clears_low_nibble() {
    // LD BC,0xFFFF; PUSH BC; POP AF
    let mut gb = machine(&[0x01, 0xFF, 0xFF, 0xC5, 0xF1]);
    run(&mut gb);
    run(&mut gb);
    run(&mut gb);
    assert_eq!(gb.cpu.registers.a, 0xFF);
    assert_eq!(gb.cpu.registers.f, 0xF0);
}

#[test]
fn flags_low_nibble_stays_zero() {
    // A mix of flag-writing opcodes: ADD, DAA, RLA, CPL, CCF, ADD HL,BC, ADD SP,-1, SWAP A, BIT 0,A
    let program = [0x87, 0x27, 0x17, 0x2F, 0x3F, 0x09, 0xE8, 0xFF, 0xCB, 0x37, 0xCB, 0x47];
    let mut gb = machine(&program);
    gb.cpu.registers.a = 0x9A;
    for _ in 0..9 {
        run(&mut gb);
        assert_eq!(gb.cpu.registers.f & 0x0F, 0);
    }
}

#[test]
fn call_then_ret_restores_pc_and_sp() {
    // 0x0100: CALL 0x0200 ; at 0x0200: RET
    let mut rom: Vec<u8> = vec![0; 0x8000];
    rom[0x100] = 0xCD;
    rom[0x101] = 0x00;
    rom[0x102] = 0x02;
    rom[0x200] = 0xC9;
    let mut gb = GameBoy::load(rom).unwrap();
    assert_eq!(run(&mut gb), 6);
    assert_eq!(gb.cpu.registers.pc, 0x0200);
    assert_eq!(gb.cpu.registers.sp, 0xFFFC);
    assert_eq!(run(&mut gb), 4);
    assert_eq!(gb.cpu.registers.pc, 0x0103);
    assert_eq!(gb.cpu.registers.sp, 0xFFFE);
}

#[test]
fn conditional_call_cycles() {
    // XOR A (Z set); CALL NZ,0x0200 (not taken); CALL Z,0x0200 (taken)
    let mut gb = machine(&[0xAF, 0xC4, 0x00, 0x02, 0xCC, 0x00, 0x02]);
    run(&mut gb);
    assert_eq!(run(&mut gb), 3);
    assert_eq!(gb.cpu.registers.pc, 0x0104);
    assert_eq!(run(&mut gb), 6);
    assert_eq!(gb.cpu.registers.pc, 0x0200);
}

#[test]
fn jr_backwards_and_conditional() {
    // JR +2; (skipped 2 bytes); JR NZ,-4 with Z set is not taken
    let mut gb = machine(&[0x18, 0x02, 0x00, 0x00, 0xAF, 0x20, 0xFC]);
    assert_eq!(run(&mut gb), 3);
    assert_eq!(gb.cpu.registers.pc, 0x0104);
    run(&mut gb);
    assert_eq!(run(&mut gb), 2);
    assert_eq!(gb.cpu.registers.pc, 0x0107);
    // JR -7 from 0x0107 lands at 0x0100.
    let mut gb2 = machine(&[0x00, 0x00, 0x00, 0x00, 0x00, 0x18, 0xF9]);
    gb2.cpu.registers.pc = 0x0105;
    assert_eq!(run(&mut gb2), 3);
    assert_eq!(gb2.cpu.registers.pc, 0x0100);
}

#[test]
fn rst_pushes_and_jumps() {
    let mut gb = machine(&[0xEF]);
    assert_eq!(run(&mut gb), 4);
    assert_eq!(gb.cpu.registers.pc, 0x0028);
    assert_eq!(gb.cpu.mmu.rw(0xFFFC), 0x0101);
}

#[test]
fn cb_set_res_bit() {
    // SET 3,B; RES 7,C; BIT 7,C; BIT 0,B
    let mut gb = machine(&[0xCB, 0xD8, 0xCB, 0xB9, 0xCB, 0x79, 0xCB, 0x40]);
    gb.cpu.registers.b = 0x01;
    gb.cpu.registers.c = 0xFF;
    gb.cpu.registers.f = 0x10;
    assert_eq!(run(&mut gb), 2);
    assert_eq!(gb.cpu.registers.b, 0x09);
    run(&mut gb);
    assert_eq!(gb.cpu.registers.c, 0x7F);
    assert_eq!(gb.cpu.registers.f, 0x10);
    run(&mut gb);
    assert_eq!(gb.cpu.registers.c, 0x7F);
    assert_eq!(gb.cpu.registers.f, 0xB0);
    run(&mut gb);
    assert_eq!(gb.cpu.registers.b, 0x09);
    assert_eq!(gb.cpu.registers.f, 0x30);
}

#[test]
fn cb_on_hl_memory() {
    // LD HL,0xC000; SET 0,(HL); BIT 0,(HL); SWAP (HL)
    let mut gb = machine(&[0x21, 0x00, 0xC0, 0xCB, 0xC6, 0xCB, 0x46, 0xCB, 0x36]);
    gb.cpu.mmu.wb(0xC000, 0x40);
    run(&mut gb);
    assert_eq!(run(&mut gb), 4);
    assert_eq!(gb.cpu.mmu.rb(0xC000), 0x41);
    assert_eq!(run(&mut gb), 3);
    assert_eq!(gb.cpu.mmu.rb(0xC000), 0x41);
    assert_eq!(gb.cpu.registers.f & 0x80, 0);
    assert_eq!(run(&mut gb), 4);
    assert_eq!(gb.cpu.mmu.rb(0xC000), 0x14);
}

#[test]
fn swap_twice_and_rotations() {
    // SWAP A; SWAP A; RRC A; RLC A; XOR A
    let mut gb = machine(&[0xCB, 0x37, 0xCB, 0x37, 0xCB, 0x0F, 0xCB, 0x07, 0xAF]);
    gb.cpu.registers.a = 0x3C;
    run(&mut gb);
    assert_eq!(gb.cpu.registers.a, 0xC3);
    run(&mut gb);
    assert_eq!(gb.cpu.registers.a, 0x3C);
    gb.cpu.registers.a = 0x81;
    run(&mut gb);
    assert_eq!(gb.cpu.registers.a, 0xC0);
    assert_eq!(gb.cpu.registers.f, 0x10);
    run(&mut gb);
    assert_eq!(gb.cpu.registers.a, 0x81);
    run(&mut gb);
    assert_eq!(gb.cpu.registers.a, 0x00);
    assert_eq!(gb.cpu.registers.f, 0x80);
}

#[test]
fn shifts_sla_sra_srl_rl_rr() {
    // SLA B; SRA C; SRL D; RL E; RR H
    let mut gb = machine(&[0xCB, 0x20, 0xCB, 0x29, 0xCB, 0x3A, 0xCB, 0x13, 0xCB, 0x1C]);
    gb.cpu.registers.b = 0x81;
    gb.cpu.registers.c = 0x81;
    gb.cpu.registers.d = 0x01;
    gb.cpu.registers.e = 0x80;
    gb.cpu.registers.h = 0x00;
    run(&mut gb);
    assert_eq!(gb.cpu.registers.b, 0x02);
    assert_eq!(gb.cpu.registers.f, 0x10);
    run(&mut gb);
    assert_eq!(gb.cpu.registers.c, 0xC0);
    assert_eq!(gb.cpu.registers.f, 0x10);
    run(&mut gb);
    assert_eq!(gb.cpu.registers.d, 0x00);
    assert_eq!(gb.cpu.registers.f, 0x90);
    run(&mut gb);
    assert_eq!(gb.cpu.registers.e, 0x01);
    assert_eq!(gb.cpu.registers.f, 0x10);
    run(&mut gb);
    assert_eq!(gb.cpu.registers.h, 0x80);
    assert_eq!(gb.cpu.registers.f, 0x00);
}

#[test]
fn rlca_clears_zero() {
    let mut gb = machine(&[0x07]);
    gb.cpu.registers.a = 0x00;
    gb.cpu.registers.f = 0x80;
    run(&mut gb);
    assert_eq!(gb.cpu.registers.a, 0x00);
    assert_eq!(gb.cpu.registers.f, 0x00);
}

#[test]
fn daa_after_bcd_add_and_sub() {
    // ADD A,0x38 with A=0x45 -> 0x7D, DAA -> 0x83; SUB 0x05 -> 0x7E, DAA -> 0x78
    let mut gb = machine(&[0xC6, 0x38, 0x27, 0xD6, 0x05, 0x27]);
    gb.cpu.registers.a = 0x45;
    run(&mut gb);
    run(&mut gb);
    assert_eq!(gb.cpu.registers.a, 0x83);
    assert_eq!(gb.cpu.registers.f & 0x10, 0);
    run(&mut gb);
    run(&mut gb);
    assert_eq!(gb.cpu.registers.a, 0x78);
    assert_eq!(gb.cpu.registers.f & 0x40, 0x40);
}

#[test]
fn daa_carry_out() {
    // A=0x99 + 0x01 = 0x9A, DAA -> 0x00 with C and Z
    let mut gb = machine(&[0xC6, 0x01, 0x27]);
    gb.cpu.registers.a = 0x99;
    run(&mut gb);
    run(&mut gb);
    assert_eq!(gb.cpu.registers.a, 0x00);
    assert_eq!(gb.cpu.registers.f, 0x90);
}

#[test]
fn add_hl_and_sp_offsets() {
    // ADD HL,DE; LD HL,SP-2; ADD SP,+1
    let mut gb = machine(&[0x19, 0xF8, 0xFE, 0xE8, 0x01]);
    gb.cpu.registers.set_hl(0x0FFF);
    gb.cpu.registers.set_de(0x0001);
    gb.cpu.registers.f = 0x80;
    assert_eq!(run(&mut gb), 2);
    assert_eq!(gb.cpu.registers.hl(), 0x1000);
    assert_eq!(gb.cpu.registers.f, 0xA0);
    gb.cpu.registers.sp = 0xFFF8;
    assert_eq!(run(&mut gb), 3);
    assert_eq!(gb.cpu.registers.hl(), 0xFFF6);
    assert_eq!(gb.cpu.registers.f, 0x30);
    assert_eq!(run(&mut gb), 4);
    assert_eq!(gb.cpu.registers.sp, 0xFFF9);
    assert_eq!(gb.cpu.registers.f, 0x00);
}

#[test]
fn ld_hl_increment_and_ldh() {
    // LD HL,0xC000; LD (HL+),A; LD A,(HL-); LDH (0x80),A; LDH A,(0x80)
    let mut gb = machine(&[0x21, 0x00, 0xC0, 0x22, 0x3A, 0xE0, 0x80, 0xF0, 0x80]);
    gb.cpu.registers.a = 0x5A;
    run(&mut gb);
    run(&mut gb);
    assert_eq!(gb.cpu.mmu.rb(0xC000), 0x5A);
    assert_eq!(gb.cpu.registers.hl(), 0xC001);
    run(&mut gb);
    assert_eq!(gb.cpu.registers.hl(), 0xC000);
    assert_eq!(run(&mut gb), 3);
    assert_eq!(gb.cpu.mmu.rb(0xFF80), gb.cpu.registers.a);
    gb.cpu.registers.a = 0;
    run(&mut gb);
    assert_eq!(gb.cpu.registers.a, gb.cpu.mmu.rb(0xFF80));
}

#[test]
fn halt_waits_for_interrupt() {
    let mut gb = machine(&[0x76]);
    run(&mut gb);
    assert!(gb.cpu.is_halted);
    gb.cpu.interrupt_master = false;
    assert_eq!(gb.cpu.do_interrupts(), 0);
    assert!(gb.cpu.is_halted);
    gb.cpu.mmu.wb(0xFFFF, 0x04);
    gb.cpu.request_interrupt(2);
    assert_eq!(gb.cpu.do_interrupts(), 0);
    assert!(!gb.cpu.is_halted);
    assert_eq!(gb.cpu.registers.pc, 0x0101);
}

#[test]
fn interrupt_dispatch_lowest_first() {
    let mut gb = machine(&[]);
    gb.cpu.mmu.wb(0xFFFF, 0x1F);
    gb.cpu.request_interrupt(4);
    gb.cpu.request_interrupt(2);
    assert_eq!(gb.cpu.do_interrupts(), 5);
    assert_eq!(gb.cpu.registers.pc, 0x0050);
    assert!(!gb.cpu.interrupt_master);
    assert_eq!(gb.cpu.mmu.rb(0xFF0F) & 0x1F, 0x10);
    assert_eq!(gb.cpu.mmu.rw(gb.cpu.registers.sp), 0x0100);
}

#[test]
fn reti_reenables_and_ei_is_delayed() {
    // DI; EI; NOP; RETI at 0x0200
    let mut rom: Vec<u8> = vec![0; 0x8000];
    rom[0x100] = 0xF3;
    rom[0x101] = 0xFB;
    rom[0x102] = 0x00;
    rom[0x200] = 0xD9;
    let mut gb = GameBoy::load(rom).unwrap();
    run(&mut gb);
    assert!(!gb.cpu.interrupt_master);
    run(&mut gb);
    assert!(!gb.cpu.interrupt_master);
    run(&mut gb);
    assert!(gb.cpu.interrupt_master);
    gb.cpu.interrupt_master = false;
    gb.cpu.stack_push(0x1234);
    gb.cpu.registers.pc = 0x0200;
    assert_eq!(run(&mut gb), 4);
    assert_eq!(gb.cpu.registers.pc, 0x1234);
    assert!(gb.cpu.interrupt_master);
}

#[test]
fn illegal_opcode_runs_as_nop() {
    let mut gb = machine(&[0xD3]);
    assert_eq!(run(&mut gb), 1);
    assert_eq!(gb.cpu.registers.pc, 0x0101);
}

#[test]
fn ld_same_register_keeps_everything() {
    // LD C,C; LD A,A
    let mut gb = machine(&[0x49, 0x7F]);
    let before = (gb.cpu.registers.af(), gb.cpu.registers.bc(), gb.cpu.registers.de(), gb.cpu.registers.hl());
    assert_eq!(run(&mut gb), 1);
    assert_eq!(run(&mut gb), 1);
    let after = (gb.cpu.registers.af(), gb.cpu.registers.bc(), gb.cpu.registers.de(), gb.cpu.registers.hl());
    assert_eq!(before, after);
    assert_eq!(gb.cpu.registers.pc, 0x0102);
}

#[test]
fn ldh_moves_pc_past_operand() {
    // LDH (0x81),A; LD (C),A with C=0x82; LD A,(C)
    let mut gb = machine(&[0xE0, 0x81, 0xE2, 0xF2]);
    gb.cpu.registers.a = 0x3C;
    gb.cpu.registers.c = 0x82;
    assert_eq!(run(&mut gb), 3);
    assert_eq!(gb.cpu.registers.pc, 0x0102);
    assert_eq!(gb.cpu.mmu.rb(0xFF81), 0x3C);
    assert_eq!(run(&mut gb), 2);
    assert_eq!(gb.cpu.mmu.rb(0xFF82), 0x3C);
    gb.cpu.registers.a = 0;
    assert_eq!(run(&mut gb), 2);
    assert_eq!(gb.cpu.registers.a, 0x3C);
}

#[test]
fn halted_step_idles_until_interrupt() {
    let mut gb = machine(&[0x76]);
    gb.cpu.interrupt_master = false;
    assert_eq!(gb.step(), 1);
    assert!(gb.cpu.is_halted);
    for _ in 0..10 {
        assert_eq!(gb.step(), 1);
        assert_eq!(gb.cpu.registers.pc, 0x0101);
    }
    gb.cpu.mmu.wb(0xFFFF, 0x04);
    gb.cpu.request_interrupt(2);
    assert_eq!(gb.step(), 1);
    assert!(!gb.cpu.is_halted);
    assert_eq!(gb.cpu.registers.pc, 0x0102);
}
