use c64_emu::devices::color_ram::ColorRam;

#[test]
fn test_new_color_ram() {
    let ram = ColorRam::new();
    // Should be initialized to light blue (14)
    assert_eq!(ram.get(0), 14);
    assert_eq!(ram.get(999), 14);
}

#[test]
fn test_read_write() {
    let mut ram = ColorRam::new();

    // Write a color
    ram.write(100, 0x05);
    // Read back - upper nibble should be set
    assert_eq!(ram.read(100), 0xF5);
    // get() should return only lower nibble
    assert_eq!(ram.get(100), 0x05);
}

#[test]
fn test_only_lower_nibble_stored() {
    let mut ram = ColorRam::new();

    // Write with upper nibble set
    ram.write(50, 0xAB);
    // Only lower nibble (0x0B) should be stored
    assert_eq!(ram.get(50), 0x0B);
    // Read back includes upper nibble from floating bus sim
    assert_eq!(ram.read(50), 0xFB);
}

#[test]
fn test_clear() {
    let mut ram = ColorRam::new();

    // Set some values
    ram.write(0, 0x01);
    ram.write(100, 0x02);
    ram.write(999, 0x03);

    // Clear to black
    ram.clear(0);

    assert_eq!(ram.get(0), 0);
    assert_eq!(ram.get(100), 0);
    assert_eq!(ram.get(999), 0);
}

#[test]
fn test_bounds() {
    let mut ram = ColorRam::new();

    // Write beyond bounds should be ignored
    ram.write(2000, 0x05);

    // Read beyond bounds returns 0xFF
    assert_eq!(ram.read(2000), 0xFF);
}

#[test]
fn color_ram_test_size() {
    let ram = ColorRam::new();
    assert_eq!(ram.size(), 1024);
}

