use c64_emu::devices::vic_ii::{VicII, SCREEN_WIDTH};

#[test]
fn test_new_vic_defaults() {
    let vic = VicII::new();
    assert_eq!(vic.border_color(), 0x0E); // Light blue
    assert_eq!(vic.background_color(), 0x06); // Blue
    assert!(vic.display_enabled());
}

#[test]
fn test_raster_read() {
    let mut vic = VicII::new();

    // Raster line 100
    vic.set_raster(100);
    assert_eq!(vic.read(0x12), 100);
    assert_eq!(vic.read(0x11) & 0x80, 0);

    // Raster line 300 (high bit set)
    vic.set_raster(300);
    assert_eq!(vic.read(0x12), 44); // 300 & 0xFF
    assert_eq!(vic.read(0x11) & 0x80, 0x80);
}

#[test]
fn test_interrupt_clear() {
    let mut vic = VicII::new();

    // Set interrupt flag
    vic.write_register(0x19, 0x01);
    vic.set_irq_pending(true);

    // Clear by writing 1
    vic.write(0x19, 0x01);
    assert_eq!(vic.read_register(0x19) & 0x01, 0);
}

#[test]
fn test_collision_read_only() {
    let mut vic = VicII::new();

    // Set collision values
    vic.set_collision_ss(0x55);
    vic.set_collision_sb(0xAA);

    // Writing should have no effect
    vic.write(0x1E, 0xFF);
    vic.write(0x1F, 0xFF);

    // Values should remain unchanged
    assert_eq!(vic.read(0x1E), 0x55);
    assert_eq!(vic.read(0x1F), 0xAA);
}

#[test]
fn vic_ii_test_size() {
    let vic = VicII::new();
    assert_eq!(vic.size(), 64);
}

#[test]
fn test_standard_text_mode_rendering() {
    let mut vic = VicII::new();

    // Create a simple character ROM with a test pattern
    // Character 'A' (code 1) will have a simple pattern
    let mut char_rom = vec![0u8; 2048];
    // Character 0: empty (all zeros)
    // Character 1: vertical line pattern (0x80 = leftmost pixel set)
    for i in 0..8 {
        char_rom[8 + i] = 0x80; // Character 1, all 8 lines have leftmost pixel
    }

    // Create screen RAM with character code 1 at position 0
    let mut screen_ram = vec![0u8; 1000];
    screen_ram[0] = 1; // First character is code 1

    // Create color RAM with foreground color 1 (white)
    let mut color_ram = vec![0u8; 1000];
    color_ram[0] = 1; // White foreground

    // Render scanline 51 (first visible line, which is char row 0, line 0)
    vic.step_scanline(51, &char_rom, &screen_ram, &color_ram);

    // Check the framebuffer
    // First pixel (x=0) should be white (color 1) because bit 7 is set
    assert_eq!(
        vic.framebuffer()[0][0], 1,
        "First pixel should be foreground color"
    );

    // Second pixel (x=1) should be background (blue = 6) because bit 6 is 0
    assert_eq!(
        vic.framebuffer()[0][1], 6,
        "Second pixel should be background color"
    );
}

#[test]
fn test_text_mode_character_boundary() {
    let mut vic = VicII::new();

    // Character ROM with different patterns for characters 0 and 1
    let mut char_rom = vec![0u8; 2048];
    // Character 0: all pixels off (0x00)
    // Character 1: all pixels on (0xFF)
    for i in 0..8 {
        char_rom[8 + i] = 0xFF; // Character 1, all pixels set
    }

    // Screen RAM: character 0 at position 0, character 1 at position 1
    let mut screen_ram = vec![0u8; 1000];
    screen_ram[0] = 0; // First cell: character 0 (empty)
    screen_ram[1] = 1; // Second cell: character 1 (full)

    // Color RAM: different colors for each cell
    let mut color_ram = vec![0u8; 1000];
    color_ram[0] = 2; // Red (won't show, char is empty)
    color_ram[1] = 3; // Cyan

    // Render first visible scanline
    vic.step_scanline(51, &char_rom, &screen_ram, &color_ram);

    // First 8 pixels (character 0) should all be background color (6 = blue)
    for x in 0..8 {
        assert_eq!(
            vic.framebuffer()[0][x], 6,
            "Char 0 pixel {} should be background",
            x
        );
    }

    // Next 8 pixels (character 1) should all be foreground color (3 = cyan)
    for x in 8..16 {
        assert_eq!(
            vic.framebuffer()[0][x], 3,
            "Char 1 pixel {} should be foreground",
            x
        );
    }
}

#[test]
fn test_text_mode_multiple_rows() {
    let mut vic = VicII::new();

    // Create character ROM
    let mut char_rom = vec![0u8; 2048];
    // Character 1 has pattern 0xAA (alternating pixels: 10101010)
    for i in 0..8 {
        char_rom[8 + i] = 0xAA;
    }

    // Screen RAM: all character 1
    let screen_ram = vec![1u8; 1000];

    // Color RAM: all white
    let color_ram = vec![1u8; 1000];

    // Render multiple scanlines to test character row progression
    // Line 51 = row 0, line 0 of char
    // Line 52 = row 0, line 1 of char
    // ...
    // Line 58 = row 0, line 7 of char
    // Line 59 = row 1, line 0 of char

    for scanline in 51..=59 {
        vic.step_scanline(scanline, &char_rom, &screen_ram, &color_ram);
    }

    // Check first row, first line (display_line 0)
    assert_eq!(
        vic.framebuffer()[0][0], 1,
        "Pixel 0,0 should be foreground (1 bit in 0xAA)"
    );
    assert_eq!(
        vic.framebuffer()[0][1], 6,
        "Pixel 0,1 should be background (0 bit in 0xAA)"
    );

    // Check second row (display_line 8)
    assert_eq!(vic.framebuffer()[8][0], 1, "Pixel 8,0 should be foreground");
    assert_eq!(vic.framebuffer()[8][1], 6, "Pixel 8,1 should be background");
}

#[test]
fn test_display_disabled() {
    let mut vic = VicII::new();

    // Disable display by clearing DEN bit
    vic.write_register(0x11, vic.read_register(0x11) & !0x10);
    assert!(!vic.display_enabled());

    // Any character data
    let char_rom = vec![0xFFu8; 2048];
    let screen_ram = vec![1u8; 1000];
    let color_ram = vec![1u8; 1000];

    // Render a scanline
    vic.step_scanline(51, &char_rom, &screen_ram, &color_ram);

    // All pixels should be background color (6) when display is disabled
    for x in 0..SCREEN_WIDTH {
        assert_eq!(
            vic.framebuffer()[0][x], 6,
            "All pixels should be background when DEN=0"
        );
    }
}

#[test]
fn test_border_area_not_rendered() {
    let mut vic = VicII::new();

    // Set framebuffer to non-zero to verify it's not touched
    vic.fill_framebuffer(0xFF);

    let char_rom = vec![0u8; 2048];
    let screen_ram = vec![0u8; 1000];
    let color_ram = vec![0u8; 1000];

    // Render a scanline in the top border area (before line 51)
    vic.step_scanline(0, &char_rom, &screen_ram, &color_ram);

    // Framebuffer should remain unchanged (all 0xFF)
    assert_eq!(
        vic.framebuffer()[0][0], 0xFF,
        "Border scanline should not modify framebuffer"
    );
}

#[test]
fn test_multicolor_text_mode_bit_pairs() {
    let mut vic = VicII::new();

    // Enable multicolor mode (MCM bit in $D016)
    vic.write_register(0x16, vic.read_register(0x16) | 0x10);
    assert!(vic.multicolor_mode());

    // Set up background colors
    vic.write_register(0x21, 0x00); // Background 0: black
    vic.write_register(0x22, 0x01); // Background 1: white
    vic.write_register(0x23, 0x02); // Background 2: red

    // Create character ROM with test pattern
    // Pattern 0b00_01_10_11 = 0x1B tests all four bit pairs
    let mut char_rom = vec![0u8; 2048];
    for i in 0..8 {
        char_rom[8 + i] = 0x1B; // Character 1 with pattern 00 01 10 11
    }

    // Screen RAM: character 1 at position 0
    let mut screen_ram = vec![0u8; 1000];
    screen_ram[0] = 1;

    // Color RAM: bit 3 SET enables multicolor, bits 0-2 = foreground color (3 = cyan)
    let mut color_ram = vec![0u8; 1000];
    color_ram[0] = 0x0B; // bit 3 set + color 3

    // Render first visible scanline
    vic.step_scanline(51, &char_rom, &screen_ram, &color_ram);

    // Pattern 0x1B = 0b00011011
    // Bit pair 0 (bits 7-6): 00 -> background 0 (black = 0)
    // Bit pair 1 (bits 5-4): 01 -> background 1 (white = 1)
    // Bit pair 2 (bits 3-2): 10 -> background 2 (red = 2)
    // Bit pair 3 (bits 1-0): 11 -> foreground (cyan = 3, from color RAM bits 0-2)

    // Each bit pair produces 2 identical pixels
    assert_eq!(vic.framebuffer()[0][0], 0, "Pixel 0 should be background 0");
    assert_eq!(vic.framebuffer()[0][1], 0, "Pixel 1 should be background 0");
    assert_eq!(vic.framebuffer()[0][2], 1, "Pixel 2 should be background 1");
    assert_eq!(vic.framebuffer()[0][3], 1, "Pixel 3 should be background 1");
    assert_eq!(vic.framebuffer()[0][4], 2, "Pixel 4 should be background 2");
    assert_eq!(vic.framebuffer()[0][5], 2, "Pixel 5 should be background 2");
    assert_eq!(vic.framebuffer()[0][6], 3, "Pixel 6 should be foreground");
    assert_eq!(vic.framebuffer()[0][7], 3, "Pixel 7 should be foreground");
}

#[test]
fn test_multicolor_text_mode_hires_character() {
    let mut vic = VicII::new();

    // Enable multicolor mode globally
    vic.write_register(0x16, vic.read_register(0x16) | 0x10);

    // Set up background colors
    vic.write_register(0x21, 0x00); // Background 0: black

    // Create character ROM
    let mut char_rom = vec![0u8; 2048];
    // Character 1: alternating pattern 0xAA (10101010)
    for i in 0..8 {
        char_rom[8 + i] = 0xAA;
    }

    // Screen RAM: character 1 at position 0
    let mut screen_ram = vec![0u8; 1000];
    screen_ram[0] = 1;

    // Color RAM: bit 3 CLEAR means use hires mode for this character
    // Color = 5 (green), no multicolor bit
    let mut color_ram = vec![0u8; 1000];
    color_ram[0] = 0x05; // bit 3 clear, full 16 colors available

    // Render first visible scanline
    vic.step_scanline(51, &char_rom, &screen_ram, &color_ram);

    // In hires mode, pattern 0xAA = 10101010 means alternating pixels
    // Bit 7=1: foreground (green = 5)
    // Bit 6=0: background (black = 0)
    // etc.
    assert_eq!(
        vic.framebuffer()[0][0], 5,
        "Pixel 0 should be foreground (hires)"
    );
    assert_eq!(
        vic.framebuffer()[0][1], 0,
        "Pixel 1 should be background (hires)"
    );
    assert_eq!(
        vic.framebuffer()[0][2], 5,
        "Pixel 2 should be foreground (hires)"
    );
    assert_eq!(
        vic.framebuffer()[0][3], 0,
        "Pixel 3 should be background (hires)"
    );
}

#[test]
fn test_multicolor_text_mode_mixed_characters() {
    let mut vic = VicII::new();

    // Enable multicolor mode globally
    vic.write_register(0x16, vic.read_register(0x16) | 0x10);

    // Set up background colors
    vic.write_register(0x21, 0x00); // Background 0: black
    vic.write_register(0x22, 0x01); // Background 1: white
    vic.write_register(0x23, 0x02); // Background 2: red

    // Create character ROM
    let mut char_rom = vec![0u8; 2048];
    // Character 1: all bits set (0xFF)
    for i in 0..8 {
        char_rom[8 + i] = 0xFF;
    }
    // Character 2: all bits set (0xFF)
    for i in 0..8 {
        char_rom[16 + i] = 0xFF;
    }

    // Screen RAM: char 1 at position 0 (multicolor), char 2 at position 1 (hires)
    let mut screen_ram = vec![0u8; 1000];
    screen_ram[0] = 1;
    screen_ram[1] = 2;

    // Color RAM:
    // Char 0: multicolor (bit 3 set), foreground = 3
    // Char 1: hires (bit 3 clear), foreground = 7
    let mut color_ram = vec![0u8; 1000];
    color_ram[0] = 0x0B; // bit 3 set + color 3
    color_ram[1] = 0x07; // bit 3 clear + color 7

    // Render first visible scanline
    vic.step_scanline(51, &char_rom, &screen_ram, &color_ram);

    // First character (multicolor, pattern 0xFF = 11_11_11_11)
    // All bit pairs are 11, so all pixels should be foreground color 3
    for x in 0..8 {
        assert_eq!(
            vic.framebuffer()[0][x], 3,
            "Char 0 pixel {} should be multicolor foreground",
            x
        );
    }

    // Second character (hires, pattern 0xFF = all bits set)
    // All pixels should be foreground color 7
    for x in 8..16 {
        assert_eq!(
            vic.framebuffer()[0][x], 7,
            "Char 1 pixel {} should be hires foreground",
            x
        );
    }
}

#[test]
fn test_multicolor_text_mode_only_8_colors() {
    let mut vic = VicII::new();

    // Enable multicolor mode
    vic.write_register(0x16, vic.read_register(0x16) | 0x10);

    // Create character ROM with foreground pattern (11 bit pairs)
    let mut char_rom = vec![0u8; 2048];
    for i in 0..8 {
        char_rom[8 + i] = 0xFF; // All 11 bit pairs
    }

    // Screen RAM
    let mut screen_ram = vec![0u8; 1000];
    screen_ram[0] = 1;

    // Color RAM: multicolor with color 15 in bits 0-3
    // But in multicolor mode, only bits 0-2 are used (8 colors max)
    let mut color_ram = vec![0u8; 1000];
    color_ram[0] = 0x0F; // bit 3 set (multicolor), bits 0-2 = 7

    // Render first visible scanline
    vic.step_scanline(51, &char_rom, &screen_ram, &color_ram);

    // Foreground should be 7 (bits 0-2 of 0x0F), not 15
    // (bit 3 is the multicolor enable flag, not part of color)
    assert_eq!(
        vic.framebuffer()[0][0], 7,
        "Multicolor foreground should use only bits 0-2"
    );
}

#[test]
fn test_standard_bitmap_mode_basic_rendering() {
    let mut vic = VicII::new();

    // Enable bitmap mode (BMM bit in $D011)
    vic.write_register(0x11, vic.read_register(0x11) | 0x20);
    assert!(vic.bitmap_mode());
    assert!(!vic.multicolor_mode());

    // Create bitmap data (8000 bytes)
    // We'll set up a simple pattern: first cell has alternating pixels
    let mut bitmap_data = vec![0u8; 8000];
    // Cell at row 0, col 0, line 0: pattern 0xAA (10101010)
    bitmap_data[0] = 0xAA;

    // Screen RAM provides colors: upper nibble = foreground, lower nibble = background
    // Cell 0: foreground = white (1), background = black (0)
    let mut screen_ram = vec![0u8; 1000];
    screen_ram[0] = 0x10; // Upper nibble = 1 (white), lower nibble = 0 (black)

    let color_ram = vec![0u8; 1000];

    // Render first visible scanline (line 51 = display_line 0)
    vic.step_scanline(51, &bitmap_data, &screen_ram, &color_ram);

    // Pattern 0xAA = 10101010
    // Bit 7=1: foreground (white = 1)
    // Bit 6=0: background (black = 0)
    // Bit 5=1: foreground
    // etc.
    assert_eq!(vic.framebuffer()[0][0], 1, "Pixel 0 should be foreground (white)");
    assert_eq!(vic.framebuffer()[0][1], 0, "Pixel 1 should be background (black)");
    assert_eq!(vic.framebuffer()[0][2], 1, "Pixel 2 should be foreground");
    assert_eq!(vic.framebuffer()[0][3], 0, "Pixel 3 should be background");
    assert_eq!(vic.framebuffer()[0][4], 1, "Pixel 4 should be foreground");
    assert_eq!(vic.framebuffer()[0][5], 0, "Pixel 5 should be background");
    assert_eq!(vic.framebuffer()[0][6], 1, "Pixel 6 should be foreground");
    assert_eq!(vic.framebuffer()[0][7], 0, "Pixel 7 should be background");
}

#[test]
fn test_standard_bitmap_mode_multiple_cells() {
    let mut vic = VicII::new();

    // Enable bitmap mode
    vic.write_register(0x11, vic.read_register(0x11) | 0x20);

    // Create bitmap data
    let mut bitmap_data = vec![0u8; 8000];
    // Cell 0, line 0: all pixels on (0xFF)
    bitmap_data[0] = 0xFF;
    // Cell 1, line 0: all pixels off (0x00)
    bitmap_data[8] = 0x00;

    // Screen RAM with different colors for each cell
    let mut screen_ram = vec![0u8; 1000];
    screen_ram[0] = 0x23; // Cell 0: fg=red(2), bg=cyan(3)
    screen_ram[1] = 0x56; // Cell 1: fg=green(5), bg=blue(6)

    let color_ram = vec![0u8; 1000];

    // Render first visible scanline
    vic.step_scanline(51, &bitmap_data, &screen_ram, &color_ram);

    // First cell (all pixels set) should be foreground (red = 2)
    for x in 0..8 {
        assert_eq!(
            vic.framebuffer()[0][x], 2,
            "Cell 0 pixel {} should be red (foreground)",
            x
        );
    }

    // Second cell (all pixels clear) should be background (blue = 6)
    for x in 8..16 {
        assert_eq!(
            vic.framebuffer()[0][x], 6,
            "Cell 1 pixel {} should be blue (background)",
            x
        );
    }
}

#[test]
fn test_standard_bitmap_mode_scanline_progression() {
    let mut vic = VicII::new();

    // Enable bitmap mode
    vic.write_register(0x11, vic.read_register(0x11) | 0x20);

    // Create bitmap data with different patterns for each line within the cell
    let mut bitmap_data = vec![0u8; 8000];
    // Cell 0, lines 0-7: different patterns for each line
    bitmap_data[0] = 0xFF; // Line 0: all set
    bitmap_data[1] = 0x00; // Line 1: all clear
    bitmap_data[2] = 0xF0; // Line 2: left half set
    bitmap_data[3] = 0x0F; // Line 3: right half set
    bitmap_data[4] = 0xAA; // Line 4: alternating
    bitmap_data[5] = 0x55; // Line 5: alternating (opposite)
    bitmap_data[6] = 0xCC; // Line 6: pairs
    bitmap_data[7] = 0x33; // Line 7: pairs (opposite)

    // Screen RAM: white foreground, black background
    let mut screen_ram = vec![0u8; 1000];
    screen_ram[0] = 0x10; // fg=white(1), bg=black(0)

    let color_ram = vec![0u8; 1000];

    // Render multiple scanlines
    for scanline_offset in 0..8 {
        vic.step_scanline(51 + scanline_offset, &bitmap_data, &screen_ram, &color_ram);
    }

    // Check line 0: all white (0xFF -> all foreground)
    for x in 0..8 {
        assert_eq!(vic.framebuffer()[0][x], 1, "Line 0, pixel {} should be white", x);
    }

    // Check line 1: all black (0x00 -> all background)
    for x in 0..8 {
        assert_eq!(vic.framebuffer()[1][x], 0, "Line 1, pixel {} should be black", x);
    }

    // Check line 2: left half white (0xF0)
    for x in 0..4 {
        assert_eq!(vic.framebuffer()[2][x], 1, "Line 2, pixel {} should be white", x);
    }
    for x in 4..8 {
        assert_eq!(vic.framebuffer()[2][x], 0, "Line 2, pixel {} should be black", x);
    }

    // Check line 3: right half white (0x0F)
    for x in 0..4 {
        assert_eq!(vic.framebuffer()[3][x], 0, "Line 3, pixel {} should be black", x);
    }
    for x in 4..8 {
        assert_eq!(vic.framebuffer()[3][x], 1, "Line 3, pixel {} should be white", x);
    }
}

#[test]
fn test_standard_bitmap_mode_multiple_rows() {
    let mut vic = VicII::new();

    // Enable bitmap mode
    vic.write_register(0x11, vic.read_register(0x11) | 0x20);

    // Create bitmap data
    let mut bitmap_data = vec![0u8; 8000];

    // Row 0, cell 0: pattern 0xFF
    bitmap_data[0] = 0xFF;

    // Row 1, cell 0 (starts at offset 320): pattern 0xAA
    // Row offset = row * 320, then + cell * 8 + line
    bitmap_data[320] = 0xAA;

    // Screen RAM with different colors
    let mut screen_ram = vec![0u8; 1000];
    screen_ram[0] = 0x12;  // Row 0, Cell 0: fg=1, bg=2
    screen_ram[40] = 0x34; // Row 1, Cell 0: fg=3, bg=4

    let color_ram = vec![0u8; 1000];

    // Render row 0, line 0
    vic.step_scanline(51, &bitmap_data, &screen_ram, &color_ram);

    // Row 0 cell 0 should be all foreground (1)
    for x in 0..8 {
        assert_eq!(vic.framebuffer()[0][x], 1, "Row 0 pixel {} should be 1", x);
    }

    // Render row 1, line 0 (scanline 51 + 8 = 59)
    vic.step_scanline(59, &bitmap_data, &screen_ram, &color_ram);

    // Row 1 cell 0 should be alternating (pattern 0xAA with fg=3, bg=4)
    // 10101010: pixel 0=fg(3), pixel 1=bg(4), etc.
    assert_eq!(vic.framebuffer()[8][0], 3, "Row 1 pixel 0 should be foreground");
    assert_eq!(vic.framebuffer()[8][1], 4, "Row 1 pixel 1 should be background");
}

#[test]
fn test_standard_bitmap_mode_full_row_cells() {
    let mut vic = VicII::new();

    // Enable bitmap mode
    vic.write_register(0x11, vic.read_register(0x11) | 0x20);

    // Create bitmap data
    let mut bitmap_data = vec![0u8; 8000];

    // Set up cells 0, 10, 20, 30, 39 with different patterns
    bitmap_data[0] = 0xFF;      // Cell 0: all on
    bitmap_data[80] = 0x00;     // Cell 10: all off
    bitmap_data[160] = 0xF0;    // Cell 20: left half
    bitmap_data[240] = 0x0F;    // Cell 30: right half
    bitmap_data[312] = 0xAA;    // Cell 39: alternating

    // Screen RAM with distinct colors for each cell
    let mut screen_ram = vec![0u8; 1000];
    screen_ram[0] = 0x10;   // Cell 0: white/black
    screen_ram[10] = 0x23;  // Cell 10: red/cyan
    screen_ram[20] = 0x45;  // Cell 20: purple/green
    screen_ram[30] = 0x67;  // Cell 30: blue/yellow
    screen_ram[39] = 0x89;  // Cell 39: orange/brown

    let color_ram = vec![0u8; 1000];

    vic.step_scanline(51, &bitmap_data, &screen_ram, &color_ram);

    // Cell 0 (x=0-7): all foreground (white=1)
    assert_eq!(vic.framebuffer()[0][0], 1, "Cell 0 pixel should be white");

    // Cell 10 (x=80-87): all background (cyan=3)
    assert_eq!(vic.framebuffer()[0][80], 3, "Cell 10 pixel should be cyan (bg)");

    // Cell 20 (x=160-167): left half foreground (purple=4), right half background (green=5)
    assert_eq!(vic.framebuffer()[0][160], 4, "Cell 20 left pixel should be purple");
    assert_eq!(vic.framebuffer()[0][164], 5, "Cell 20 right pixel should be green");

    // Cell 30 (x=240-247): left half background (yellow=7), right half foreground (blue=6)
    assert_eq!(vic.framebuffer()[0][240], 7, "Cell 30 left pixel should be yellow (bg)");
    assert_eq!(vic.framebuffer()[0][244], 6, "Cell 30 right pixel should be blue (fg)");

    // Cell 39 (x=312-319): alternating orange(8)/brown(9)
    assert_eq!(vic.framebuffer()[0][312], 8, "Cell 39 pixel 0 should be orange (fg)");
    assert_eq!(vic.framebuffer()[0][313], 9, "Cell 39 pixel 1 should be brown (bg)");
}

#[test]
fn test_standard_bitmap_mode_flag_detection() {
    let mut vic = VicII::new();

    // Initially not in bitmap mode
    assert!(!vic.bitmap_mode());

    // Enable bitmap mode (BMM bit = bit 5 of $D011)
    vic.write_register(0x11, vic.read_register(0x11) | 0x20);
    assert!(vic.bitmap_mode());

    // Disable bitmap mode
    vic.write_register(0x11, vic.read_register(0x11) & !0x20);
    assert!(!vic.bitmap_mode());
}

#[test]
fn test_standard_bitmap_mode_disabled_display() {
    let mut vic = VicII::new();

    // Enable bitmap mode but disable display (DEN=0)
    vic.write_register(0x11, 0x20); // BMM=1, DEN=0 (bit 4)

    let bitmap_data = vec![0xFFu8; 8000]; // All pixels set
    let mut screen_ram = vec![0u8; 1000];
    screen_ram[0] = 0x12;
    let color_ram = vec![0u8; 1000];

    vic.step_scanline(51, &bitmap_data, &screen_ram, &color_ram);

    // All pixels should be background color (6 = blue, default)
    for x in 0..SCREEN_WIDTH {
        assert_eq!(
            vic.framebuffer()[0][x], 6,
            "Pixel {} should be background when display disabled",
            x
        );
    }
}

#[test]
fn test_multicolor_bitmap_mode_basic_rendering() {
    let mut vic = VicII::new();

    // Enable bitmap mode (BMM bit in $D011) and multicolor mode (MCM in $D016)
    vic.write_register(0x11, vic.read_register(0x11) | 0x20); // BMM=1
    vic.write_register(0x16, vic.read_register(0x16) | 0x10); // MCM=1
    assert!(vic.bitmap_mode());
    assert!(vic.multicolor_mode());

    // Set background color 0
    vic.write_register(0x21, 0x00); // Black

    // Create bitmap data (8000 bytes)
    // Pattern 0x1B = 0b00011011 tests all four bit pairs
    let mut bitmap_data = vec![0u8; 8000];
    bitmap_data[0] = 0x1B; // Cell 0, line 0

    // Screen RAM provides colors for bit pairs 01 (upper nibble) and 10 (lower nibble)
    // Cell 0: upper nibble = 1 (white), lower nibble = 2 (red)
    let mut screen_ram = vec![0u8; 1000];
    screen_ram[0] = 0x12;

    // Color RAM provides color for bit pair 11
    // Cell 0: color 3 (cyan)
    let mut color_ram = vec![0u8; 1000];
    color_ram[0] = 0x03;

    // Render first visible scanline
    vic.step_scanline(51, &bitmap_data, &screen_ram, &color_ram);

    // Pattern 0x1B = 0b00011011
    // Bit pair 0 (bits 7-6): 00 -> background 0 (black = 0)
    // Bit pair 1 (bits 5-4): 01 -> screen RAM upper nibble (white = 1)
    // Bit pair 2 (bits 3-2): 10 -> screen RAM lower nibble (red = 2)
    // Bit pair 3 (bits 1-0): 11 -> color RAM (cyan = 3)

    // Each bit pair produces 2 identical pixels
    assert_eq!(vic.framebuffer()[0][0], 0, "Pixel 0 should be background 0 (black)");
    assert_eq!(vic.framebuffer()[0][1], 0, "Pixel 1 should be background 0 (black)");
    assert_eq!(vic.framebuffer()[0][2], 1, "Pixel 2 should be screen upper (white)");
    assert_eq!(vic.framebuffer()[0][3], 1, "Pixel 3 should be screen upper (white)");
    assert_eq!(vic.framebuffer()[0][4], 2, "Pixel 4 should be screen lower (red)");
    assert_eq!(vic.framebuffer()[0][5], 2, "Pixel 5 should be screen lower (red)");
    assert_eq!(vic.framebuffer()[0][6], 3, "Pixel 6 should be color RAM (cyan)");
    assert_eq!(vic.framebuffer()[0][7], 3, "Pixel 7 should be color RAM (cyan)");
}

#[test]
fn test_multicolor_bitmap_mode_all_same_color() {
    let mut vic = VicII::new();

    // Enable multicolor bitmap mode
    vic.write_register(0x11, vic.read_register(0x11) | 0x20); // BMM=1
    vic.write_register(0x16, vic.read_register(0x16) | 0x10); // MCM=1

    // Set background color 0
    vic.write_register(0x21, 0x05); // Green

    // Bitmap data: all 00 bit pairs (background color)
    let mut bitmap_data = vec![0u8; 8000];
    bitmap_data[0] = 0x00; // All 00 pairs

    let screen_ram = vec![0xFFu8; 1000];
    let color_ram = vec![0xFFu8; 1000];

    vic.step_scanline(51, &bitmap_data, &screen_ram, &color_ram);

    // All pixels should be background 0 (green = 5)
    for x in 0..8 {
        assert_eq!(vic.framebuffer()[0][x], 5, "Pixel {} should be green (bg0)", x);
    }
}

#[test]
fn test_multicolor_bitmap_mode_multiple_cells() {
    let mut vic = VicII::new();

    // Enable multicolor bitmap mode
    vic.write_register(0x11, vic.read_register(0x11) | 0x20);
    vic.write_register(0x16, vic.read_register(0x16) | 0x10);

    vic.write_register(0x21, 0x00); // Background 0: black

    // Create bitmap data with different patterns for each cell
    let mut bitmap_data = vec![0u8; 8000];
    bitmap_data[0] = 0x00;  // Cell 0: all 00 (background)
    bitmap_data[8] = 0x55;  // Cell 1: all 01 (screen upper nibble)
    bitmap_data[16] = 0xAA; // Cell 2: all 10 (screen lower nibble)
    bitmap_data[24] = 0xFF; // Cell 3: all 11 (color RAM)

    // Screen RAM with different colors for each cell
    let mut screen_ram = vec![0u8; 1000];
    screen_ram[0] = 0x00; // Cell 0: doesn't matter, all bg
    screen_ram[1] = 0x10; // Cell 1: upper=1 (white), lower=0
    screen_ram[2] = 0x02; // Cell 2: upper=0, lower=2 (red)
    screen_ram[3] = 0x00; // Cell 3: doesn't matter for 11 pattern

    // Color RAM
    let mut color_ram = vec![0u8; 1000];
    color_ram[0] = 0x00;
    color_ram[1] = 0x00;
    color_ram[2] = 0x00;
    color_ram[3] = 0x03; // Cell 3: cyan

    vic.step_scanline(51, &bitmap_data, &screen_ram, &color_ram);

    // Cell 0 (x=0-7): all background (black=0)
    for x in 0..8 {
        assert_eq!(vic.framebuffer()[0][x], 0, "Cell 0 pixel {} should be black", x);
    }

    // Cell 1 (x=8-15): all 01 pattern -> screen upper nibble (white=1)
    for x in 8..16 {
        assert_eq!(vic.framebuffer()[0][x], 1, "Cell 1 pixel {} should be white", x);
    }

    // Cell 2 (x=16-23): all 10 pattern -> screen lower nibble (red=2)
    for x in 16..24 {
        assert_eq!(vic.framebuffer()[0][x], 2, "Cell 2 pixel {} should be red", x);
    }

    // Cell 3 (x=24-31): all 11 pattern -> color RAM (cyan=3)
    for x in 24..32 {
        assert_eq!(vic.framebuffer()[0][x], 3, "Cell 3 pixel {} should be cyan", x);
    }
}

#[test]
fn test_multicolor_bitmap_mode_scanline_progression() {
    let mut vic = VicII::new();

    // Enable multicolor bitmap mode
    vic.write_register(0x11, vic.read_register(0x11) | 0x20);
    vic.write_register(0x16, vic.read_register(0x16) | 0x10);

    vic.write_register(0x21, 0x00); // Background 0: black

    // Create bitmap data with different patterns for each line within the cell
    let mut bitmap_data = vec![0u8; 8000];
    bitmap_data[0] = 0x00; // Line 0: all 00 (bg)
    bitmap_data[1] = 0x55; // Line 1: all 01
    bitmap_data[2] = 0xAA; // Line 2: all 10
    bitmap_data[3] = 0xFF; // Line 3: all 11
    bitmap_data[4] = 0x1B; // Line 4: 00 01 10 11

    // Screen RAM: upper=5 (green), lower=6 (blue)
    let mut screen_ram = vec![0u8; 1000];
    screen_ram[0] = 0x56;

    // Color RAM: color 7 (yellow)
    let mut color_ram = vec![0u8; 1000];
    color_ram[0] = 0x07;

    // Render multiple scanlines
    for scanline_offset in 0..5 {
        vic.step_scanline(51 + scanline_offset, &bitmap_data, &screen_ram, &color_ram);
    }

    // Line 0: all background (0)
    for x in 0..8 {
        assert_eq!(vic.framebuffer()[0][x], 0, "Line 0, pixel {} should be bg", x);
    }

    // Line 1: all 01 -> green (5)
    for x in 0..8 {
        assert_eq!(vic.framebuffer()[1][x], 5, "Line 1, pixel {} should be green", x);
    }

    // Line 2: all 10 -> blue (6)
    for x in 0..8 {
        assert_eq!(vic.framebuffer()[2][x], 6, "Line 2, pixel {} should be blue", x);
    }

    // Line 3: all 11 -> yellow (7)
    for x in 0..8 {
        assert_eq!(vic.framebuffer()[3][x], 7, "Line 3, pixel {} should be yellow", x);
    }

    // Line 4: mixed pattern 00 01 10 11
    assert_eq!(vic.framebuffer()[4][0], 0, "Line 4, pixels 0-1 should be bg");
    assert_eq!(vic.framebuffer()[4][1], 0);
    assert_eq!(vic.framebuffer()[4][2], 5, "Line 4, pixels 2-3 should be green");
    assert_eq!(vic.framebuffer()[4][3], 5);
    assert_eq!(vic.framebuffer()[4][4], 6, "Line 4, pixels 4-5 should be blue");
    assert_eq!(vic.framebuffer()[4][5], 6);
    assert_eq!(vic.framebuffer()[4][6], 7, "Line 4, pixels 6-7 should be yellow");
    assert_eq!(vic.framebuffer()[4][7], 7);
}

#[test]
fn test_multicolor_bitmap_mode_multiple_rows() {
    let mut vic = VicII::new();

    // Enable multicolor bitmap mode
    vic.write_register(0x11, vic.read_register(0x11) | 0x20);
    vic.write_register(0x16, vic.read_register(0x16) | 0x10);

    vic.write_register(0x21, 0x00); // Background 0: black

    // Create bitmap data
    let mut bitmap_data = vec![0u8; 8000];
    // Row 0, cell 0, line 0: all 11
    bitmap_data[0] = 0xFF;
    // Row 1, cell 0, line 0: all 10
    bitmap_data[320] = 0xAA;

    // Screen RAM
    let mut screen_ram = vec![0u8; 1000];
    screen_ram[0] = 0x12;  // Row 0, Cell 0: upper=1, lower=2
    screen_ram[40] = 0x34; // Row 1, Cell 0: upper=3, lower=4

    // Color RAM
    let mut color_ram = vec![0u8; 1000];
    color_ram[0] = 0x05;  // Row 0, Cell 0: 5
    color_ram[40] = 0x06; // Row 1, Cell 0: 6

    // Render row 0, line 0
    vic.step_scanline(51, &bitmap_data, &screen_ram, &color_ram);

    // Row 0 cell 0 should be all color RAM (5)
    for x in 0..8 {
        assert_eq!(vic.framebuffer()[0][x], 5, "Row 0 pixel {} should be 5", x);
    }

    // Render row 1, line 0 (scanline 51 + 8 = 59)
    vic.step_scanline(59, &bitmap_data, &screen_ram, &color_ram);

    // Row 1 cell 0 should be all screen lower nibble (4)
    for x in 0..8 {
        assert_eq!(vic.framebuffer()[8][x], 4, "Row 1 pixel {} should be 4", x);
    }
}

#[test]
fn test_multicolor_bitmap_mode_flag_detection() {
    let mut vic = VicII::new();

    // Initially neither bitmap nor multicolor mode
    assert!(!vic.bitmap_mode());
    assert!(!vic.multicolor_mode());

    // Enable only bitmap mode
    vic.write_register(0x11, vic.read_register(0x11) | 0x20);
    assert!(vic.bitmap_mode());
    assert!(!vic.multicolor_mode());

    // Enable multicolor mode too
    vic.write_register(0x16, vic.read_register(0x16) | 0x10);
    assert!(vic.bitmap_mode());
    assert!(vic.multicolor_mode());

    // Disable bitmap mode, keep multicolor (this would be multicolor text mode)
    vic.write_register(0x11, vic.read_register(0x11) & !0x20);
    assert!(!vic.bitmap_mode());
    assert!(vic.multicolor_mode());
}

#[test]
fn test_multicolor_bitmap_mode_disabled_display() {
    let mut vic = VicII::new();

    // Enable multicolor bitmap mode but disable display (DEN=0)
    vic.write_register(0x11, 0x20); // BMM=1, DEN=0
    vic.write_register(0x16, vic.read_register(0x16) | 0x10); // MCM=1

    let bitmap_data = vec![0xFFu8; 8000]; // All pixels set to 11
    let screen_ram = vec![0xFFu8; 1000];
    let color_ram = vec![0x0Fu8; 1000]; // Should be white if displayed

    vic.step_scanline(51, &bitmap_data, &screen_ram, &color_ram);

    // All pixels should be background color (6 = blue, default)
    for x in 0..SCREEN_WIDTH {
        assert_eq!(
            vic.framebuffer()[0][x], 6,
            "Pixel {} should be background when display disabled",
            x
        );
    }
}

#[test]
fn test_multicolor_bitmap_mode_full_16_colors_color_ram() {
    let mut vic = VicII::new();

    // Enable multicolor bitmap mode
    vic.write_register(0x11, vic.read_register(0x11) | 0x20);
    vic.write_register(0x16, vic.read_register(0x16) | 0x10);

    vic.write_register(0x21, 0x00); // Background 0: black

    // Create bitmap data: all 11 bit pairs
    let bitmap_data = vec![0xFFu8; 8000];

    // Screen RAM (doesn't matter for 11 pattern)
    let screen_ram = vec![0u8; 1000];

    // Color RAM with various colors to test full 16-color range
    let mut color_ram = vec![0u8; 1000];
    for i in 0..16 {
        color_ram[i] = i as u8;
    }

    vic.step_scanline(51, &bitmap_data, &screen_ram, &color_ram);

    // Each cell should display its color RAM value
    for cell in 0..16 {
        let x = cell * 8;
        assert_eq!(
            vic.framebuffer()[0][x],
            cell as u8,
            "Cell {} should have color {}",
            cell,
            cell
        );
    }
}

#[test]
fn test_multicolor_bitmap_mode_full_row_coverage() {
    let mut vic = VicII::new();

    // Enable multicolor bitmap mode
    vic.write_register(0x11, vic.read_register(0x11) | 0x20);
    vic.write_register(0x16, vic.read_register(0x16) | 0x10);

    vic.write_register(0x21, 0x0E); // Background 0: light blue

    // Create bitmap data with alternating patterns across all 40 cells
    let mut bitmap_data = vec![0u8; 8000];
    for cell in 0..40 {
        // Alternate between all 4 bit pair patterns
        let pattern = match cell % 4 {
            0 => 0x00, // 00 00 00 00
            1 => 0x55, // 01 01 01 01
            2 => 0xAA, // 10 10 10 10
            _ => 0xFF, // 11 11 11 11
        };
        bitmap_data[cell * 8] = pattern;
    }

    // Screen RAM with distinct colors
    let mut screen_ram = vec![0u8; 1000];
    for cell in 0..40 {
        screen_ram[cell] = 0x12; // upper=1, lower=2
    }

    // Color RAM
    let mut color_ram = vec![0u8; 1000];
    for cell in 0..40 {
        color_ram[cell] = 0x03; // cyan
    }

    vic.step_scanline(51, &bitmap_data, &screen_ram, &color_ram);

    // Verify the pattern across all 40 cells
    for cell in 0..40 {
        let x_base = cell * 8;
        let expected_color = match cell % 4 {
            0 => 0x0E, // bg0 (light blue)
            1 => 1,    // screen upper (white)
            2 => 2,    // screen lower (red)
            _ => 3,    // color RAM (cyan)
        };

        // All 8 pixels in the cell should have the same color
        for pixel in 0..8 {
            assert_eq!(
                vic.framebuffer()[0][x_base + pixel],
                expected_color,
                "Cell {} pixel {} should be color {}",
                cell,
                pixel,
                expected_color
            );
        }
    }
}

#[test]
fn test_ecm_text_mode_basic_rendering() {
    let mut vic = VicII::new();

    // Enable ECM mode (ECM bit = bit 6 of $D011)
    vic.write_register(0x11, vic.read_register(0x11) | 0x40);
    assert!(vic.extended_color_mode());
    assert!(!vic.bitmap_mode());
    assert!(!vic.multicolor_mode());

    // Set up 4 background colors
    vic.write_register(0x21, 0x00); // Background 0: black
    vic.write_register(0x22, 0x01); // Background 1: white
    vic.write_register(0x23, 0x02); // Background 2: red
    vic.write_register(0x24, 0x03); // Background 3: cyan

    // Create character ROM with a simple pattern
    // Character 1 (index 1): all bits set (0xFF) for full coverage
    let mut char_rom = vec![0u8; 2048];
    for i in 0..8 {
        char_rom[8 + i] = 0xFF; // Character 1: all pixels on
    }

    // Screen RAM with character codes selecting different background colors
    // Char code bits 6-7 select background, bits 0-5 select character pattern
    let mut screen_ram = vec![0u8; 1000];
    // Character index 1 with background 0 (bits 6-7 = 00)
    screen_ram[0] = 0x01; // 00_000001 -> bg0, char 1
    // Character index 1 with background 1 (bits 6-7 = 01)
    screen_ram[1] = 0x41; // 01_000001 -> bg1, char 1
    // Character index 1 with background 2 (bits 6-7 = 10)
    screen_ram[2] = 0x81; // 10_000001 -> bg2, char 1
    // Character index 1 with background 3 (bits 6-7 = 11)
    screen_ram[3] = 0xC1; // 11_000001 -> bg3, char 1

    // Color RAM: foreground color 5 (green) for all characters
    let mut color_ram = vec![0u8; 1000];
    for i in 0..4 {
        color_ram[i] = 0x05;
    }

    // Render first visible scanline
    vic.step_scanline(51, &char_rom, &screen_ram, &color_ram);

    // All 4 cells have character 1 (all pixels set), so all should be foreground (green = 5)
    for cell in 0..4 {
        for pixel in 0..8 {
            let x = cell * 8 + pixel;
            assert_eq!(
                vic.framebuffer()[0][x], 5,
                "Cell {} pixel {} should be foreground (green)",
                cell, pixel
            );
        }
    }
}

#[test]
fn test_ecm_text_mode_background_selection() {
    let mut vic = VicII::new();

    // Enable ECM mode
    vic.write_register(0x11, vic.read_register(0x11) | 0x40);

    // Set up 4 distinct background colors
    vic.write_register(0x21, 0x00); // Background 0: black
    vic.write_register(0x22, 0x01); // Background 1: white
    vic.write_register(0x23, 0x02); // Background 2: red
    vic.write_register(0x24, 0x03); // Background 3: cyan

    // Create character ROM where character 0 has all pixels OFF
    // This way we'll see the background colors
    let char_rom = vec![0u8; 2048]; // All zeros = all pixels off

    // Screen RAM with character 0 (all pixels off) but different background selectors
    let mut screen_ram = vec![0u8; 1000];
    screen_ram[0] = 0x00; // 00_000000 -> bg0, char 0
    screen_ram[1] = 0x40; // 01_000000 -> bg1, char 0
    screen_ram[2] = 0x80; // 10_000000 -> bg2, char 0
    screen_ram[3] = 0xC0; // 11_000000 -> bg3, char 0

    // Color RAM (doesn't matter since all pixels are off)
    let color_ram = vec![0x0Fu8; 1000];

    // Render first visible scanline
    vic.step_scanline(51, &char_rom, &screen_ram, &color_ram);

    // Cell 0: background 0 (black = 0)
    for pixel in 0..8 {
        assert_eq!(
            vic.framebuffer()[0][pixel], 0,
            "Cell 0 pixel {} should be bg0 (black)",
            pixel
        );
    }

    // Cell 1: background 1 (white = 1)
    for pixel in 0..8 {
        assert_eq!(
            vic.framebuffer()[0][8 + pixel], 1,
            "Cell 1 pixel {} should be bg1 (white)",
            pixel
        );
    }

    // Cell 2: background 2 (red = 2)
    for pixel in 0..8 {
        assert_eq!(
            vic.framebuffer()[0][16 + pixel], 2,
            "Cell 2 pixel {} should be bg2 (red)",
            pixel
        );
    }

    // Cell 3: background 3 (cyan = 3)
    for pixel in 0..8 {
        assert_eq!(
            vic.framebuffer()[0][24 + pixel], 3,
            "Cell 3 pixel {} should be bg3 (cyan)",
            pixel
        );
    }
}

#[test]
fn test_ecm_text_mode_64_character_limit() {
    let mut vic = VicII::new();

    // Enable ECM mode
    vic.write_register(0x11, vic.read_register(0x11) | 0x40);

    // Set backgrounds
    vic.write_register(0x21, 0x00);

    // Create character ROM with distinct patterns for chars 0-63
    // We'll use a simple pattern: each char's first line equals char index
    let mut char_rom = vec![0u8; 2048];
    for i in 0..64 {
        // Make each character have a unique pattern
        char_rom[i * 8] = 0xFF; // First line all on
    }
    // Characters 64-255 should NOT be accessed in ECM mode

    // Screen RAM: Test that bits 6-7 select background, not character
    let mut screen_ram = vec![0u8; 1000];
    // Code 0x00 = bg0, char 0
    screen_ram[0] = 0x00;
    // Code 0x40 = bg1, char 0 (NOT char 64!)
    screen_ram[1] = 0x40;
    // Code 0x80 = bg2, char 0 (NOT char 128!)
    screen_ram[2] = 0x80;
    // Code 0xC0 = bg3, char 0 (NOT char 192!)
    screen_ram[3] = 0xC0;

    // All should use character 0's pattern, which has all pixels on
    let mut color_ram = vec![0u8; 1000];
    for i in 0..4 {
        color_ram[i] = 0x05; // green foreground
    }

    vic.step_scanline(51, &char_rom, &screen_ram, &color_ram);

    // All cells should show foreground (green = 5) because char 0 has all pixels on
    for cell in 0..4 {
        assert_eq!(
            vic.framebuffer()[0][cell * 8], 5,
            "Cell {} should use char 0 pattern (foreground)",
            cell
        );
    }
}

#[test]
fn test_ecm_text_mode_full_16_foreground_colors() {
    let mut vic = VicII::new();

    // Enable ECM mode
    vic.write_register(0x11, vic.read_register(0x11) | 0x40);

    // Set background colors
    vic.write_register(0x21, 0x00);

    // Character ROM: char 0 has all pixels ON
    let mut char_rom = vec![0u8; 2048];
    for i in 0..8 {
        char_rom[i] = 0xFF;
    }

    // Screen RAM: all char 0
    let screen_ram = vec![0u8; 1000];

    // Color RAM: each cell has a different foreground color (0-15)
    let mut color_ram = vec![0u8; 1000];
    for i in 0..16 {
        color_ram[i] = i as u8;
    }

    vic.step_scanline(51, &char_rom, &screen_ram, &color_ram);

    // Each cell should have its own foreground color
    for cell in 0..16 {
        assert_eq!(
            vic.framebuffer()[0][cell * 8],
            cell as u8,
            "Cell {} should have foreground color {}",
            cell,
            cell
        );
    }
}

#[test]
fn test_ecm_text_mode_mixed_foreground_background() {
    let mut vic = VicII::new();

    // Enable ECM mode
    vic.write_register(0x11, vic.read_register(0x11) | 0x40);

    // Set up distinct background colors
    vic.write_register(0x21, 0x06); // bg0: blue
    vic.write_register(0x22, 0x07); // bg1: yellow
    vic.write_register(0x23, 0x08); // bg2: orange
    vic.write_register(0x24, 0x09); // bg3: brown

    // Character ROM: char 0 has alternating pattern (0xAA = 10101010)
    let mut char_rom = vec![0u8; 2048];
    for i in 0..8 {
        char_rom[i] = 0xAA;
    }

    // Screen RAM: char 0 with different backgrounds
    let mut screen_ram = vec![0u8; 1000];
    screen_ram[0] = 0x00; // bg0
    screen_ram[1] = 0x40; // bg1
    screen_ram[2] = 0x80; // bg2
    screen_ram[3] = 0xC0; // bg3

    // Color RAM: foreground color 1 (white)
    let mut color_ram = vec![0u8; 1000];
    for i in 0..4 {
        color_ram[i] = 0x01;
    }

    vic.step_scanline(51, &char_rom, &screen_ram, &color_ram);

    // Pattern 0xAA = 10101010
    // Pixel 0 = 1 (foreground = white)
    // Pixel 1 = 0 (background)
    // etc.

    // Cell 0: foreground=white(1), background=blue(6)
    assert_eq!(vic.framebuffer()[0][0], 1, "Cell 0 pixel 0 should be white (fg)");
    assert_eq!(vic.framebuffer()[0][1], 6, "Cell 0 pixel 1 should be blue (bg0)");

    // Cell 1: foreground=white(1), background=yellow(7)
    assert_eq!(vic.framebuffer()[0][8], 1, "Cell 1 pixel 0 should be white (fg)");
    assert_eq!(vic.framebuffer()[0][9], 7, "Cell 1 pixel 1 should be yellow (bg1)");

    // Cell 2: foreground=white(1), background=orange(8)
    assert_eq!(vic.framebuffer()[0][16], 1, "Cell 2 pixel 0 should be white (fg)");
    assert_eq!(vic.framebuffer()[0][17], 8, "Cell 2 pixel 1 should be orange (bg2)");

    // Cell 3: foreground=white(1), background=brown(9)
    assert_eq!(vic.framebuffer()[0][24], 1, "Cell 3 pixel 0 should be white (fg)");
    assert_eq!(vic.framebuffer()[0][25], 9, "Cell 3 pixel 1 should be brown (bg3)");
}

#[test]
fn test_ecm_text_mode_scanline_progression() {
    let mut vic = VicII::new();

    // Enable ECM mode
    vic.write_register(0x11, vic.read_register(0x11) | 0x40);

    // Set backgrounds
    vic.write_register(0x21, 0x00); // black

    // Character ROM: char 0 has different patterns per line
    let mut char_rom = vec![0u8; 2048];
    char_rom[0] = 0xFF; // Line 0: all on
    char_rom[1] = 0x00; // Line 1: all off
    char_rom[2] = 0xF0; // Line 2: left half on
    char_rom[3] = 0x0F; // Line 3: right half on

    // Screen RAM: char 0 with bg0
    let mut screen_ram = vec![0u8; 1000];
    screen_ram[0] = 0x00;

    // Color RAM: white foreground
    let mut color_ram = vec![0u8; 1000];
    color_ram[0] = 0x01;

    // Render 4 scanlines
    for line in 0..4 {
        vic.step_scanline(51 + line as u16, &char_rom, &screen_ram, &color_ram);
    }

    // Line 0: all foreground (white)
    for x in 0..8 {
        assert_eq!(vic.framebuffer()[0][x], 1, "Line 0, pixel {} should be white", x);
    }

    // Line 1: all background (black)
    for x in 0..8 {
        assert_eq!(vic.framebuffer()[1][x], 0, "Line 1, pixel {} should be black", x);
    }

    // Line 2: left half foreground, right half background
    for x in 0..4 {
        assert_eq!(vic.framebuffer()[2][x], 1, "Line 2, pixel {} should be white", x);
    }
    for x in 4..8 {
        assert_eq!(vic.framebuffer()[2][x], 0, "Line 2, pixel {} should be black", x);
    }

    // Line 3: left half background, right half foreground
    for x in 0..4 {
        assert_eq!(vic.framebuffer()[3][x], 0, "Line 3, pixel {} should be black", x);
    }
    for x in 4..8 {
        assert_eq!(vic.framebuffer()[3][x], 1, "Line 3, pixel {} should be white", x);
    }
}

#[test]
fn test_ecm_text_mode_flag_detection() {
    let mut vic = VicII::new();

    // Initially ECM should be off
    assert!(!vic.extended_color_mode());

    // Enable ECM (bit 6 of $D011)
    vic.write_register(0x11, vic.read_register(0x11) | 0x40);
    assert!(vic.extended_color_mode());

    // Disable ECM
    vic.write_register(0x11, vic.read_register(0x11) & !0x40);
    assert!(!vic.extended_color_mode());
}

#[test]
fn test_ecm_text_mode_disabled_display() {
    let mut vic = VicII::new();

    // Enable ECM but disable display (DEN=0)
    vic.write_register(0x11, 0x40); // ECM=1, DEN=0

    let char_rom = vec![0xFFu8; 2048];
    let screen_ram = vec![0u8; 1000];
    let color_ram = vec![0x0Fu8; 1000];

    vic.step_scanline(51, &char_rom, &screen_ram, &color_ram);

    // All pixels should be background color (6 = blue, default)
    for x in 0..SCREEN_WIDTH {
        assert_eq!(
            vic.framebuffer()[0][x], 6,
            "Pixel {} should be background when display disabled",
            x
        );
    }
}

#[test]
fn test_ecm_text_mode_full_row_coverage() {
    let mut vic = VicII::new();

    // Enable ECM mode
    vic.write_register(0x11, vic.read_register(0x11) | 0x40);

    // Set up 4 background colors
    vic.write_register(0x21, 0x00); // bg0: black
    vic.write_register(0x22, 0x01); // bg1: white
    vic.write_register(0x23, 0x02); // bg2: red
    vic.write_register(0x24, 0x03); // bg3: cyan

    // Character ROM: char 0 has all pixels off
    let char_rom = vec![0u8; 2048];

    // Screen RAM: cycle through all 4 backgrounds
    let mut screen_ram = vec![0u8; 1000];
    for cell in 0..40 {
        let bg_select = (cell % 4) << 6;
        screen_ram[cell] = bg_select as u8;
    }

    let color_ram = vec![0x0Fu8; 1000]; // doesn't matter since all pixels off

    vic.step_scanline(51, &char_rom, &screen_ram, &color_ram);

    // Verify all 40 cells have correct background colors
    for cell in 0..40 {
        let expected_bg = (cell % 4) as u8;
        for pixel in 0..8 {
            let x = cell * 8 + pixel;
            assert_eq!(
                vic.framebuffer()[0][x],
                expected_bg,
                "Cell {} pixel {} should be bg{}",
                cell,
                pixel,
                expected_bg
            );
        }
    }
}

