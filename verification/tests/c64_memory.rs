use c64_emu::system::C64Memory;

#[test]
fn test_new_memory() {
    let mut mem = C64Memory::new();
    assert!(!mem.roms_loaded());
    assert_eq!(mem.read(0x00), 0x2F);
    assert_eq!(mem.read(0x01), 0x27);
}

#[test]
fn test_basic_ram_access() {
    let mut mem = C64Memory::new();
    mem.write(0x1000, 0x42);
    assert_eq!(mem.read(0x1000), 0x42);
    mem.write(0x9000, 0x55);
    assert_eq!(mem.read(0x9000), 0x55);
}

#[test]
fn test_rom_loading() {
    let mut mem = C64Memory::new();
    let basic = vec![0xAA; 8192];
    let kernal = vec![0xBB; 8192];
    let charrom = vec![0xCC; 4096];
    assert!(mem.load_roms(&basic, &kernal, &charrom).is_ok());
    assert!(mem.roms_loaded());
}

#[test]
fn test_rom_validation() {
    let mut mem = C64Memory::new();
    assert!(mem.load_roms(&[0; 100], &[0; 8192], &[0; 4096]).is_err());
    assert!(mem.load_roms(&[0; 8192], &[0; 100], &[0; 4096]).is_err());
    assert!(mem.load_roms(&[0; 8192], &[0; 8192], &[0; 100]).is_err());
}

#[test]
fn test_bank_switching() {
    let mut mem = C64Memory::new();
    let basic = vec![0xAA; 8192];
    let kernal = vec![0xBB; 8192];
    let charrom = vec![0xCC; 4096];
    mem.load_roms(&basic, &kernal, &charrom).unwrap();
    assert_eq!(mem.read(0xA000), 0xAA);
    mem.write(0xA000, 0x55);
    assert_eq!(mem.read(0xA000), 0xAA);
    mem.write(0x01, 0x30);
    assert_eq!(mem.read(0xA000), 0x55);
}

#[test]
fn test_io_area() {
    let mut mem = C64Memory::new();
    mem.write(0xD020, 0x05);
    assert_eq!(mem.vic.border_color(), 0x05);
    mem.write(0xD418, 0x0F);
    assert_eq!(mem.sid.volume(), 0x0F);
}

#[test]
fn test_color_ram() {
    let mut mem = C64Memory::new();
    mem.write(0xD800, 0x03);
    let val = mem.read(0xD800);
    assert_eq!(val & 0x0F, 0x03);
}

#[test]
fn test_keyboard_matrix_via_cia1() {
    let mut mem = C64Memory::new();
    mem.write(0xDC02, 0xFF);
    mem.write(0xDC03, 0x00);
    mem.write(0xDC00, 0x00);
    assert_eq!(mem.read(0xDC01), 0xFF);
    mem.keyboard.key_down(1, 2);
    mem.write(0xDC00, 0xFB);
    let port_b = mem.read(0xDC01);
    assert_eq!(port_b & 0x02, 0x00, "Row 1 should be low when A is pressed");
    assert_eq!(port_b & 0xFD, 0xFD, "Other rows should be high");
    mem.write(0xDC00, 0xFE);
    assert_eq!(mem.read(0xDC01), 0xFF);
    mem.keyboard.key_up(1, 2);
    mem.write(0xDC00, 0xFB);
    assert_eq!(mem.read(0xDC01), 0xFF);
}

#[test]
fn test_keyboard_multiple_keys() {
    let mut mem = C64Memory::new();
    mem.write(0xDC02, 0xFF);
    mem.write(0xDC03, 0x00);
    mem.keyboard.key_down(1, 2);
    mem.keyboard.key_down(1, 5);
    mem.write(0xDC00, 0x00);
    let port_b = mem.read(0xDC01);
    assert_eq!(port_b & 0x02, 0x00);
    mem.keyboard.key_down(2, 2);
    mem.write(0xDC00, 0xFB);
    let port_b = mem.read(0xDC01);
    assert_eq!(port_b & 0x02, 0x00, "Row 1 should be low");
    assert_eq!(port_b & 0x04, 0x00, "Row 2 should be low");
    assert_eq!(port_b & 0xF9, 0xF9, "Other rows should be high");
}

#[test]
fn memory_rom_errors_name_the_size() {
    let mut mem = C64Memory::new();
    assert_eq!(
        mem.load_roms(&[0; 100], &[0; 8192], &[0; 4096]).unwrap_err(),
        "BASIC ROM must be 8192 bytes, got 100"
    );
    assert_eq!(
        mem.load_roms(&[0; 8192], &[0; 7], &[0; 4096]).unwrap_err(),
        "KERNAL ROM must be 8192 bytes, got 7"
    );
    assert_eq!(
        mem.load_roms(&[0; 8192], &[0; 8192], &[0; 4097]).unwrap_err(),
        "Character ROM must be 4096 bytes, got 4097"
    );
    assert!(!mem.roms_loaded());
}

#[test]
fn memory_kernal_write_through_and_char_rom() {
    let mut mem = C64Memory::new();
    let basic = vec![0xAA; 8192];
    let kernal = vec![0xBB; 8192];
    let mut charrom = vec![0xCC; 4096];
    charrom[0x10] = 0x3C;
    mem.load_roms(&basic, &kernal, &charrom).unwrap();
    mem.write(0xE123, 0x11);
    assert_eq!(mem.read(0xE123), 0xBB);
    assert_eq!(mem.ram()[0xE123], 0x11);
    // configuration 3: character ROM at $D000, KERNAL still visible
    mem.write(0x01, 0x33);
    assert_eq!(mem.read(0xD010), 0x3C);
    // configuration 0 (all RAM): KERNAL banked out
    mem.write(0x01, 0x30);
    assert_eq!(mem.read(0xE123), 0x11);
    // writes to $D000 with I/O invisible land in RAM
    mem.write(0xD020, 0x77);
    assert_eq!(mem.read(0xD020), 0x77);
    assert_eq!(mem.vic.border_color(), 0x0E);
}

#[test]
fn memory_separate_rom_loads_and_reset() {
    let mut mem = C64Memory::new();
    mem.load_kernal(&[0x01; 8192]);
    assert!(!mem.roms_loaded());
    mem.load_basic(&[0x02; 8192]);
    assert!(!mem.roms_loaded());
    mem.load_charrom(&[0x03; 4096]);
    assert!(mem.roms_loaded());
    mem.write(0x2000, 0x99);
    mem.write(0xD020, 0x01);
    mem.keyboard.key_down(0, 0);
    mem.reset();
    assert_eq!(mem.read(0x2000), 0x00);
    assert_eq!(mem.vic.border_color(), 0x0E);
    assert!(!mem.keyboard.is_key_pressed(0, 0));
    assert!(mem.roms_loaded());
    assert_eq!(mem.read(0xA000), 0x02);
}

#[test]
fn memory_vic_view_of_banks() {
    let mut mem = C64Memory::new();
    let mut charrom = vec![0u8; 4096];
    charrom[0x123] = 0x5A;
    mem.load_roms(&[0; 8192], &[0; 8192], &charrom).unwrap();
    mem.write(0x1123, 0x77);
    mem.write(0x4123, 0x66);
    // CIA2 port A as outputs selecting bank 0 (bits inverted: %11)
    mem.write(0xDD02, 0x03);
    mem.write(0xDD00, 0x03);
    assert_eq!(mem.vic_bank(), 0);
    assert_eq!(mem.vic_read(0x1123), 0x5A);
    // bank 1 (%10): plain RAM at $4000
    mem.write(0xDD00, 0x02);
    assert_eq!(mem.vic_bank(), 1);
    assert_eq!(mem.vic_read(0x0123), 0x66);
}

#[test]
fn memory_cia_icr_read_clears() {
    let mut mem = C64Memory::new();
    mem.write(0xDC04, 0x01);
    mem.write(0xDC05, 0x00);
    mem.write(0xDC0D, 0x81);
    mem.write(0xDC0E, 0x01);
    for _ in 0..3 {
        mem.cia1.clock();
    }
    assert!(mem.irq_active());
    let first = mem.read(0xDC0D);
    assert_eq!(first & 0x01, 0x01);
    assert_eq!(mem.read(0xDC0D), 0x00);
    assert!(!mem.irq_active());
    assert!(!mem.nmi_active());
}

#[test]
fn memory_renders_text_line_from_vic_view() {
    let mut mem = C64Memory::new();
    let mut charrom = vec![0u8; 4096];
    for row in 0..8 {
        charrom[8 + row] = 0xFF;
    }
    mem.load_roms(&[0; 8192], &[0; 8192], &charrom).unwrap();
    mem.write(0xDD02, 0x03);
    mem.write(0xDD00, 0x03);
    mem.write(0x0400, 0x01);
    mem.write(0xD800, 0x05);
    mem.render_scanline(51);
    for x in 0..8 {
        assert_eq!(mem.vic.pixel(0, x), 5);
    }
    assert_eq!(mem.vic.pixel(0, 8), mem.vic.background_color());
    // lines outside the display window leave the framebuffer alone
    mem.write(0x0400, 0x00);
    mem.render_scanline(10);
    assert_eq!(mem.vic.pixel(0, 0), 5);
}

#[test]
fn memory_ram_mut_writes_are_seen() {
    let mut mem = C64Memory::new();
    mem.ram_mut()[0x3000] = 0x42;
    assert_eq!(mem.read(0x3000), 0x42);
    assert_eq!(mem.ram()[0x3000], 0x42);
}

#[test]
fn test_inject_keys() {
    let mut mem = C64Memory::new();
    mem.inject_keys("TEST");
    assert_eq!(mem.read(0x0277), b'T');
    assert_eq!(mem.read(0x0278), b'E');
    assert_eq!(mem.read(0x0279), b'S');
    assert_eq!(mem.read(0x027A), b'T');
    assert_eq!(mem.read(0x00C6), 4);
}

#[test]
fn test_inject_basic_run() {
    let mut mem = C64Memory::new();
    mem.inject_basic_run();
    assert_eq!(mem.read(0x0277), 0x52);
    assert_eq!(mem.read(0x0278), 0x55);
    assert_eq!(mem.read(0x0279), 0x4E);
    assert_eq!(mem.read(0x027A), 0x0D);
    assert_eq!(mem.read(0x00C6), 4);
}

#[test]
fn memory_inject_keys_converts_and_truncates() {
    let mut mem = C64Memory::new();
    mem.inject_keys("load\n\"x\",8,1 and more");
    assert_eq!(mem.read(0x0277), b'L');
    assert_eq!(mem.read(0x027A), b'D');
    assert_eq!(mem.read(0x027B), 0x0D);
    assert_eq!(mem.read(0x027C), b'"');
    assert_eq!(mem.read(0x0280), b'8');
    assert_eq!(mem.read(0x0281), 0x00);
    assert_eq!(mem.read(0x00C6), 10);
}

#[test]
fn memory_load_prg_places_program_at_its_address() {
    let mut mem = C64Memory::new();
    assert_eq!(mem.load_prg(&[0x01, 0x08]), None);
    assert_eq!(mem.read(0x0801), 0x00);
    let prg = [0x01, 0x08, 0x0B, 0x08, 0x0A, 0x00, 0x9E];
    assert_eq!(mem.load_prg(&prg), Some(0x0801));
    for (i, &b) in prg[2..].iter().enumerate() {
        assert_eq!(mem.read(0x0801 + i as u16), b);
    }
    // a program reaching past $FFFF wraps to $0000 and $0001 (the port)
    let wrap = [0xFE, 0xFF, 0x11, 0x22, 0x2F, 0x35];
    assert_eq!(mem.load_prg(&wrap), Some(0xFFFE));
    assert_eq!(mem.ram()[0xFFFE], 0x11);
    assert_eq!(mem.ram()[0xFFFF], 0x22);
    assert_eq!(mem.read(0x0000), 0x2F);
    assert_eq!(mem.ram()[0x0001], 0x35);
}

#[test]
fn bank_config_reports_the_port_lines_and_vic_bank() {
    let mut mem = C64Memory::new();
    let bank = mem.vic_bank();
    assert_eq!(mem.get_bank_config(), (true, true, true, bank));
    mem.write(0x01, 0x35);
    assert_eq!(mem.get_bank_config(), (true, false, true, bank));
}

#[test]
fn memory_page_reads_the_page_in_order() {
    let mut mem = C64Memory::new();
    mem.write(0x1000, 0x01);
    mem.write(0x10FF, 0x02);
    let page = mem.get_memory_page(0x10);
    assert_eq!(page.len(), 256);
    assert_eq!(page[0], 0x01);
    assert_eq!(page[0xFF], 0x02);
    assert_eq!(page[0x80], 0x00);
    let top = mem.get_memory_page(0xFF);
    assert_eq!(top.len(), 256);
}

#[test]
fn cia2_interrupt_drives_the_nmi_line() {
    let mut mem = C64Memory::new();
    assert!(!mem.nmi_active());
    mem.cia2.set_interrupt_pending(true);
    assert!(mem.nmi_active());
    assert!(!mem.irq_active());
}
