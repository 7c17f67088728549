use c64_emu::devices::port_6510::Port6510;

#[test]
fn test_default_configuration() {
    let port = Port6510::new();
    assert_eq!(port.ddr(), 0x2F);
    assert_eq!(port.data(), 0x37);
    assert_eq!(port.bank_config(), 7);
}

#[test]
fn test_bank_config() {
    let mut port = Port6510::new();

    // Default: BASIC + I/O + KERNAL visible
    assert!(port.basic_visible());
    assert!(port.kernal_visible());
    assert!(port.io_visible());
    assert!(!port.char_rom_visible());

    // Set to config 0: all RAM
    port.set_data(0x30); // Keep other bits, clear bits 0-2
    assert!(!port.basic_visible());
    assert!(!port.kernal_visible());
    assert!(!port.io_visible());

    // Set to config 3: BASIC + CHAR ROM + KERNAL
    port.set_data(0x33);
    assert!(port.basic_visible());
    assert!(port.kernal_visible());
    assert!(!port.io_visible());
    assert!(port.char_rom_visible());
}

#[test]
fn test_device_read_write() {
    let mut port = Port6510::new();

    // Read DDR
    assert_eq!(port.read(0), 0x2F);

    // Read data - returns effective value considering DDR and external
    // DDR=0x2F, data=0x37, external=0
    // effective = (0x37 & 0x2F) | (0 & 0xD0) = 0x27
    assert_eq!(port.read(1), 0x27);

    // Write DDR to all outputs
    port.write(0, 0xFF);
    assert_eq!(port.read(0), 0xFF);

    // Now with DDR=FF, data register is returned directly
    port.write(1, 0x37);
    assert_eq!(port.read(1), 0x37);

    // Write data to 0
    port.write(1, 0x00);
    assert_eq!(port.read(1), 0x00);
    assert_eq!(port.bank_config(), 0);
}

#[test]
fn test_external_input() {
    let mut port = Port6510::new();

    // Set some bits as input (clear DDR bits)
    port.set_ddr(0x07); // Only bits 0-2 are outputs

    // Set external input
    port.set_external(0xF0);

    // Data register has 0x37, external has 0xF0
    // Effective: (0x37 & 0x07) | (0xF0 & 0xF8) = 0x07 | 0xF0 = 0xF7
    assert_eq!(port.read(1), 0xF7);

    // Bank config only uses bits 0-2 which are outputs
    assert_eq!(port.bank_config(), 7);
}

#[test]
fn port_6510_test_size() {
    let port = Port6510::new();
    assert_eq!(port.size(), 2);
}

