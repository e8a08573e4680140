use gbcore::lcd::oam::OAMEntry;
use gbcore::lcd::{LCD, LCDC, LCDRegisters};
use gbcore::memory::BusError;

#[test]
fn lcd_test_set_read() {
    let mut lcdregs = LCDRegisters::new();
    lcdregs.lcdc = LCDC(0x80);
    println!("Test {:?}", lcdregs.lcdc);
}

#[test]
fn test_box() {
    let mut lcd = Box::new(LCD::new());
    lcd.tick(0);
}

#[test]
fn lcd_register_round_trip() {
    // Every register other than LY (0xFF44), STAT (0xFF41) and the
    // storage-free OAM-DMA trigger (0xFF46) returns the written value.
    let plain = [0xFF40u16, 0xFF42, 0xFF43, 0xFF45, 0xFF47, 0xFF48, 0xFF49, 0xFF4A, 0xFF4B];
    for addr in plain {
        let mut regs = LCDRegisters::new();
        regs.write(addr, 0xA5).unwrap();
        assert_eq!(regs.read(addr), Ok(0xA5));
        regs.write(addr, 0x5A).unwrap();
        assert_eq!(regs.read(addr), Ok(0x5A));
    }
}

#[test]
fn stat_write_reaches_only_interrupt_enable_bits() {
    let mut regs = LCDRegisters::new();
    regs.write(0xFF41, 0xFF).unwrap();
    assert_eq!(regs.read(0xFF41), Ok(0x78));
    regs.write(0xFF41, 0x00).unwrap();
    assert_eq!(regs.read(0xFF41), Ok(0x00));
}

#[test]
fn ly_is_read_only_from_software() {
    let mut regs = LCDRegisters::new();
    assert_eq!(
        regs.write(0xFF44, 5),
        Err(BusError::ReadOnlyViolation { addr: 0xFF44 })
    );
    assert_eq!(regs.read(0xFF44), Ok(0));
}

#[test]
fn dma_trigger_register_is_an_explicit_no_op() {
    let mut regs = LCDRegisters::new();
    assert_eq!(regs.write(0xFF46, 0x55), Ok(()));
    assert_eq!(regs.read(0xFF46), Ok(0));
}

#[test]
fn register_bank_bounds_are_unmapped() {
    let mut regs = LCDRegisters::new();
    assert_eq!(regs.read(0xFF4C), Err(BusError::UnmappedAddress { addr: 0xFF4C }));
    assert_eq!(regs.read(0xFF3F), Err(BusError::UnmappedAddress { addr: 0xFF3F }));
    assert_eq!(
        regs.write(0xFF4C, 1),
        Err(BusError::UnmappedAddress { addr: 0xFF4C })
    );
}

#[test]
fn one_scanline_of_cycles_advances_ly_once() {
    // Exactly 456 cycles run one full OAM scan, pixel transfer and
    // horizontal blank: LY becomes 1 and the automaton is back in the
    // OAM scan state (STAT mode bits 2).
    let mut lcd = LCD::new();
    assert_eq!(lcd.read(0xFF44), Ok(0));
    assert_eq!(lcd.read(0xFF41).unwrap() & 0x03, 2);
    lcd.tick(456);
    assert_eq!(lcd.read(0xFF44), Ok(1));
    assert_eq!(lcd.read(0xFF41).unwrap() & 0x03, 2);
}

#[test]
fn scanline_boundary_is_at_456_cycles() {
    let mut lcd = LCD::new();
    lcd.tick(455);
    assert_eq!(lcd.read(0xFF44), Ok(0));
    lcd.tick(1);
    assert_eq!(lcd.read(0xFF44), Ok(1));
    assert_eq!(lcd.read(0xFF41).unwrap() & 0x03, 2);
}

#[test]
fn one_hundred_forty_four_scanlines_enter_vblank() {
    let mut lcd = LCD::new();
    lcd.tick(456 * 144);
    assert_eq!(lcd.read(0xFF44), Ok(144));
    assert_eq!(lcd.read(0xFF41).unwrap() & 0x03, 1);
}

#[test]
fn ly_keeps_incrementing_through_vblank() {
    let mut lcd = LCD::new();
    lcd.tick(456 * 144);
    for line in 145..=153u8 {
        lcd.tick(456);
        assert_eq!(lcd.read(0xFF44), Ok(line));
        assert_eq!(lcd.read(0xFF41).unwrap() & 0x03, 1);
    }
    lcd.tick(456);
    assert_eq!(lcd.read(0xFF44), Ok(0));
    assert_eq!(lcd.read(0xFF41).unwrap() & 0x03, 2);
}

#[test]
fn a_full_frame_is_154_scanlines() {
    let mut lcd = LCD::new();
    lcd.tick(456 * 154);
    assert_eq!(lcd.read(0xFF44), Ok(0));
    assert_eq!(lcd.read(0xFF41).unwrap() & 0x03, 2);
}

#[test]
fn cycles_accumulate_across_tick_calls() {
    let mut a = LCD::new();
    let mut b = LCD::new();
    a.tick(456);
    for _ in 0..456 {
        b.tick(1);
    }
    assert_eq!(a, b);
}

#[test]
fn background_palette_is_decoded_not_hardcoded() {
    // All tile data is zero, so every background pixel value is 0; the
    // palette's field 0 holds color 1, which must map to shade 0x80.
    let mut lcd = LCD::new();
    lcd.write(0xFF40, 0x01).unwrap();
    lcd.write(0xFF47, 0b00000001).unwrap();
    lcd.tick(456);
    for x in [0usize, 1, 79, 159] {
        assert_eq!(lcd.frame.get(x), 0x80);
    }
    // Line 1 has not been rendered yet.
    assert_eq!(lcd.frame.get(160), 0);
}

#[test]
fn disabled_background_renders_white() {
    let mut lcd = LCD::new();
    lcd.write(0xFF47, 0b11111111).unwrap();
    lcd.tick(456);
    assert_eq!(lcd.frame.get(0), 0xFF);
    assert_eq!(lcd.frame.get(159), 0xFF);
}

#[test]
fn background_tile_pixels_come_from_two_bit_planes() {
    let mut lcd = LCD::new();
    // Background on, tile data from the low bank.
    lcd.write(0xFF40, 0x11).unwrap();
    // Identity palette: value N maps to the Nth shade.
    lcd.write(0xFF47, 0b11100100).unwrap();
    // Tile 0, row 0: low plane all ones, high plane all zeroes: value 1.
    lcd.write(0x8000, 0xFF).unwrap();
    lcd.write(0x8001, 0x00).unwrap();
    lcd.tick(456);
    // Every column of line 0 samples tile 0, row 0.
    assert_eq!(lcd.frame.get(0), 0x80);
    assert_eq!(lcd.frame.get(7), 0x80);
    assert_eq!(lcd.frame.get(159), 0x80);
}

#[test]
fn window_overlay_replaces_background() {
    let mut lcd = LCD::new();
    // Background on, window on, low tile data bank, window map 2.
    lcd.write(0xFF40, 0x71).unwrap();
    lcd.write(0xFF47, 0b11100100).unwrap();
    // Window origin: top-left of the screen.
    lcd.write(0xFF4A, 0).unwrap();
    lcd.write(0xFF4B, 7).unwrap();
    // Map 2 selects tile 1 everywhere in its first row of tiles.
    for i in 0..32u16 {
        lcd.write(0x9C00 + i, 0x01).unwrap();
    }
    // Tile 1, row 0: high plane all ones: pixel value 2, shade 0x40.
    lcd.write(0x8010, 0x00).unwrap();
    lcd.write(0x8011, 0xFF).unwrap();
    lcd.tick(456);
    assert_eq!(lcd.frame.get(0), 0x40);
    assert_eq!(lcd.frame.get(159), 0x40);
}

#[test]
fn scrolling_shifts_the_sampled_tile_row() {
    let mut lcd = LCD::new();
    lcd.write(0xFF40, 0x11).unwrap();
    lcd.write(0xFF47, 0b11100100).unwrap();
    // Tile 0, row 1 (not row 0) holds the lit pixels.
    lcd.write(0x8002, 0xFF).unwrap();
    lcd.write(0x8003, 0xFF).unwrap();
    // Without scrolling, line 0 samples row 0: all zero pixels.
    lcd.tick(456);
    assert_eq!(lcd.frame.get(0), 0xFF);
    // Scroll down one plane row, render line 1 and compare: it now
    // samples plane row 2, still zero; scroll so line 1 hits row 1.
    let mut scrolled = LCD::new();
    scrolled.write(0xFF40, 0x11).unwrap();
    scrolled.write(0xFF47, 0b11100100).unwrap();
    scrolled.write(0x8002, 0xFF).unwrap();
    scrolled.write(0x8003, 0xFF).unwrap();
    scrolled.write(0xFF42, 1).unwrap();
    scrolled.tick(456);
    assert_eq!(scrolled.frame.get(0), 0x00);
}

#[test]
fn sprite_collection_caps_at_ten_in_table_order() {
    let mut lcd = LCD::new();
    // Every zeroed entry has Y = 0, which covers line 0; tag each entry's
    // X byte with its index plus one to observe the order.
    for k in 0..40u16 {
        lcd.write(0xFE01 + 4 * k, (k + 1) as u8).unwrap();
    }
    let sprites = lcd.find_tiles_to_draw(0);
    assert_eq!(sprites.len(), 10);
    for k in 0..10usize {
        assert_eq!(sprites[k].x_pos(), (k + 1) as u8);
    }
}

#[test]
fn sprite_collection_filters_by_line_coverage() {
    let mut lcd = LCD::new();
    // Entry 3 starts at line 100 and is the only one covering line 105
    // with the default 8-pixel sprite height.
    lcd.write(0xFE00 + 12, 100).unwrap();
    lcd.write(0xFE00 + 13, 0x77).unwrap();
    let sprites = lcd.find_tiles_to_draw(105);
    assert_eq!(sprites.len(), 1);
    assert_eq!(sprites[0].y_pos(), 100);
    assert_eq!(sprites[0].x_pos(), 0x77);
    // Line 50 is covered by no entry: the zeroed ones span lines 0..8.
    assert_eq!(lcd.find_tiles_to_draw(50).len(), 0);
}

#[test]
fn sprite_height_follows_the_obj_size_bit() {
    let mut lcd = LCD::new();
    lcd.write(0xFE00, 40).unwrap();
    // 8-pixel sprites: line 52 is outside 40..=48.
    assert_eq!(lcd.find_tiles_to_draw(52).len(), 0);
    // 16-pixel sprites: line 52 is inside 40..=56.
    lcd.write(0xFF40, 0x04).unwrap();
    assert_eq!(lcd.find_tiles_to_draw(52).len(), 1);
}

#[test]
fn vram_and_maps_and_oam_round_trip_through_the_lcd() {
    let mut lcd = LCD::new();
    lcd.write(0x8123, 0x11).unwrap();
    lcd.write(0x9801, 0x22).unwrap();
    lcd.write(0x9C01, 0x33).unwrap();
    lcd.write(0xFE05, 0x44).unwrap();
    assert_eq!(lcd.read(0x8123), Ok(0x11));
    assert_eq!(lcd.read(0x9801), Ok(0x22));
    assert_eq!(lcd.read(0x9C01), Ok(0x33));
    assert_eq!(lcd.read(0xFE05), Ok(0x44));
    assert_eq!(lcd.read(0xFEA0), Err(BusError::UnmappedAddress { addr: 0xFEA0 }));
}

#[test]
fn frame_reads_are_idempotent() {
    let mut lcd = LCD::new();
    lcd.write(0xFF40, 0x01).unwrap();
    lcd.write(0xFF47, 0b00011011).unwrap();
    lcd.tick(456 * 3);
    let first = lcd.frame.as_bytes().clone();
    let second = lcd.frame.as_bytes().clone();
    assert_eq!(first, second);
    assert_eq!(lcd.frame.get(0), first[0]);
    assert_eq!(lcd.frame.get(0), lcd.frame.get(0));
}

#[test]
fn frame_starts_blank_with_fixed_size() {
    let lcd = LCD::new();
    assert_eq!(lcd.frame.as_bytes().len(), 160 * 144);
    assert!(lcd.frame.as_bytes().iter().all(|b| *b == 0));
}

#[test]
fn oam_test_set_read() {
    let memory: Vec<u8> = vec![0x01, 0x02, 0x03, 0x04, 0x05, 0x06, 0x07, 0x08];
    let mut part: [u8; 4] = Default::default();
    part.copy_from_slice(&memory[0..4]);

    let a = OAMEntry(part);
    let y = a.y_pos();
    assert_eq!(y, 1)
}

#[test]
fn oam_entry_exposes_all_four_bytes() {
    let entry = OAMEntry([10, 20, 30, 0b10110101]);
    assert_eq!(entry.y_pos(), 10);
    assert_eq!(entry.x_pos(), 20);
    assert_eq!(entry.tile_num(), 30);
    let attributes = entry.attributes();
    assert!(attributes.obj_bg_priority());
    assert!(!attributes.y_flip());
    assert!(attributes.x_flip());
    assert!(attributes.palette_num());
    assert!(!attributes.tile_vram_bank());
    assert_eq!(attributes.palette_num_cgb(), 0b101);
}
