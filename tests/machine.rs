use gameboy_core::{GameBoy, GPU, MMU};

fn nop_machine() -> GameBoy {
    GameBoy::load(vec![0; 0x8000]).unwrap()
}

#[test]
fn load_rejects_oversized_rom() {
    assert!(GameBoy::load(vec![0; 0x8001]).is_none());
    assert!(GameBoy::load(vec![0; 0x8000]).is_some());
    assert!(GameBoy::load(Vec::new()).is_some());
}

#[test]
fn vblank_interrupt_entered_once_per_frame() {
    let mut gb = nop_machine();
    gb.cpu.mmu.wb(0xFFFF, 0x01);
    gb.cpu.interrupt_master = true;
    let mut total: u32 = 0;
    let mut entries = 0;
    while total < 17556 {
        let cycles = gb.step();
        total += cycles as u32;
        if cycles == 6 {
            entries += 1;
            // The vector at 0x40 holds a NOP, which has just run.
            assert_eq!(gb.cpu.registers.pc, 0x0041);
            assert_eq!(gb.cpu.mmu.rb(0xFF0F) & 0x01, 0);
        }
    }
    assert_eq!(entries, 1);
}

#[test]
fn frame_length_brings_ly_back_to_zero() {
    let mut mmu = MMU::new(Vec::new());
    let mut gpu = GPU::new();
    let mut seen = vec![false; 154];
    let mut last = mmu.rb(0xFF44);
    seen[last as usize] = true;
    let chunks = [1u16, 2, 3, 4, 5, 6];
    let mut total: u32 = 0;
    let mut i = 0;
    while total < 17556 {
        let c = chunks[i % chunks.len()].min((17556 - total) as u16);
        gpu.update_graphics(&mut mmu, c);
        total += c as u32;
        i += 1;
        let ly = mmu.rb(0xFF44);
        if ly != last {
            assert_eq!(ly as u32, (last as u32 + 1) % 154);
            last = ly;
            seen[ly as usize] = true;
        }
        assert_eq!(ly as u32 * 114 + gpu.scanline_counter as u32, total % 17556);
    }
    assert_eq!(mmu.rb(0xFF44), 0);
    assert_eq!(gpu.scanline_counter, 0);
    assert!(seen.iter().all(|s| *s));
}

#[test]
fn stat_mode_follows_line_position() {
    let mut mmu = MMU::new(Vec::new());
    let mut gpu = GPU::new();
    gpu.update_graphics(&mut mmu, 10);
    assert_eq!(mmu.rb(0xFF41) & 3, 2);
    gpu.update_graphics(&mut mmu, 20);
    assert_eq!(mmu.rb(0xFF41) & 3, 3);
    gpu.update_graphics(&mut mmu, 40);
    assert_eq!(mmu.rb(0xFF41) & 3, 0);
    for _ in 0..144 {
        gpu.update_graphics(&mut mmu, 114);
    }
    assert_eq!(mmu.rb(0xFF44), 144);
    assert_eq!(mmu.rb(0xFF41) & 3, 1);
    assert_eq!(mmu.rb(0xFF0F) & 1, 1);
}

#[test]
fn lcd_off_holds_ly_at_zero() {
    let mut mmu = MMU::new(Vec::new());
    let mut gpu = GPU::new();
    gpu.update_graphics(&mut mmu, 200);
    assert_eq!(mmu.rb(0xFF44), 1);
    mmu.wb(0xFF40, 0x11);
    gpu.update_graphics(&mut mmu, 200);
    assert_eq!(mmu.rb(0xFF44), 0);
    assert_eq!(gpu.scanline_counter, 0);
    assert_eq!(mmu.rb(0xFF41) & 3, 1);
}

#[test]
fn lyc_coincidence_sets_stat_bit() {
    let mut mmu = MMU::new(Vec::new());
    let mut gpu = GPU::new();
    mmu.wb(0xFF45, 2);
    mmu.wb(0xFF41, 0x40);
    gpu.update_graphics(&mut mmu, 228);
    assert_eq!(mmu.rb(0xFF44), 2);
    assert_eq!(mmu.rb(0xFF41) & 0x04, 0x04);
    assert_eq!(mmu.rb(0xFF0F) & 0x02, 0x02);
}

/// Tile 1 of the 0x8000 area gets rows whose pixels have colour 3 on the left half and 0 on
/// the right.
fn striped_tile(mmu: &mut MMU) {
    for row in 0..8u16 {
        mmu.wb(0x8010 + row * 2, 0xF0);
        mmu.wb(0x8010 + row * 2 + 1, 0xF0);
    }
}

#[test]
fn background_tile_is_rendered_through_palette() {
    let mut mmu = MMU::new(Vec::new());
    let mut gpu = GPU::new();
    striped_tile(&mut mmu);
    // The first map entry uses tile 1; BGP 0xE4 maps colour 3 to black and 0 to white.
    mmu.wb(0x9800, 1);
    mmu.wb(0xFF47, 0xE4);
    // Lines are drawn when they begin: run into line 1, then back round to line 0.
    gpu.update_graphics(&mut mmu, 114);
    for _ in 0..153 {
        gpu.update_graphics(&mut mmu, 114);
    }
    assert_eq!(mmu.rb(0xFF44), 0);
    gpu.update_graphics(&mut mmu, 114);
    // Line 1 of the screen.
    let row = 160;
    for x in 0..4 {
        assert_eq!(gpu.screen_data[row + x], 0x000000);
    }
    for x in 4..8 {
        assert_eq!(gpu.screen_data[row + x], 0xFFFFFF);
    }
    assert_eq!(gpu.screen_data[row + 8], 0xFFFFFF);
}

#[test]
fn sprite_drawn_over_background_with_flip() {
    let mut mmu = MMU::new(Vec::new());
    let mut gpu = GPU::new();
    striped_tile(&mut mmu);
    // LCD on, background and sprites on, unsigned tile data.
    mmu.wb(0xFF40, 0x93);
    mmu.wb(0xFF48, 0xE4);
    // Sprite 0 at screen (10, 0), tile 1, flipped horizontally.
    mmu.wb(0xFE00, 16);
    mmu.wb(0xFE01, 18);
    mmu.wb(0xFE02, 1);
    mmu.wb(0xFE03, 0x20);
    gpu.update_graphics(&mut mmu, 114);
    // Line 1: the sprite's row 1; flipped, its opaque half is on the right.
    let row = 160;
    for x in 10..14 {
        assert_eq!(gpu.screen_data[row + x], 0xFFFFFF);
    }
    for x in 14..18 {
        assert_eq!(gpu.screen_data[row + x], 0x000000);
    }
}

#[test]
fn lower_oam_index_wins_and_ten_per_line() {
    let mut mmu = MMU::new(Vec::new());
    let mut gpu = GPU::new();
    striped_tile(&mut mmu);
    mmu.wb(0xFF40, 0x93);
    mmu.wb(0xFF48, 0xE4);
    mmu.wb(0xFF49, 0x54);
    // Sprite 0 uses OBP1 (colour 3 -> shade 1), sprite 1 OBP0 (colour 3 -> shade 3); same place.
    mmu.wb(0xFE00, 16);
    mmu.wb(0xFE01, 8);
    mmu.wb(0xFE02, 1);
    mmu.wb(0xFE03, 0x10);
    mmu.wb(0xFE04, 16);
    mmu.wb(0xFE05, 8);
    mmu.wb(0xFE06, 1);
    mmu.wb(0xFE07, 0x00);
    // Ten more sprites on the line further right: only eight of them fit in the limit.
    for i in 2..12u16 {
        mmu.wb(0xFE00 + i * 4, 16);
        mmu.wb(0xFE00 + i * 4 + 1, (8 + 10 * i) as u8);
        mmu.wb(0xFE00 + i * 4 + 2, 1);
        mmu.wb(0xFE00 + i * 4 + 3, 0);
    }
    gpu.update_graphics(&mut mmu, 114);
    let row = 160;
    assert_eq!(gpu.screen_data[row], 0xCCCCCC);
    // Sprite 9 is the tenth on the line and shows; sprites 10 and 11 do not.
    assert_eq!(gpu.screen_data[row + 90], 0x000000);
    assert_eq!(gpu.screen_data[row + 100], 0xFFFFFF);
    assert_eq!(gpu.screen_data[row + 110], 0xFFFFFF);
}

#[test]
fn run_frame_spends_one_frame() {
    let mut gb = nop_machine();
    let total = gb.run_frame();
    assert!(total >= 17556 && total < 17556 + 11);
    assert_eq!(gb.screen().len(), 160 * 144);
}

#[test]
fn press_key_through_machine() {
    let mut gb = nop_machine();
    gb.press_key(7);
    assert_eq!(gb.cpu.mmu.joypad_state, 0x7F);
    gb.release_key(7);
    assert_eq!(gb.cpu.mmu.joypad_state, 0xFF);
}
