use c64_emu::devices::cia::Cia6526;

#[test]
fn test_new_cia() {
    let cia1 = Cia6526::new_cia1();
    assert!(cia1.is_cia1());
    assert!(!cia1.interrupt_pending());

    let cia2 = Cia6526::new_cia2();
    assert!(cia2.is_cia2());
}

#[test]
fn test_port_read_write() {
    let mut cia = Cia6526::new_cia1();

    // Set port A as all outputs
    cia.write(0x02, 0xFF);
    cia.write(0x00, 0x55);
    assert_eq!(cia.read(0x00), 0x55);

    // Set port A as all inputs
    cia.write(0x02, 0x00);
    cia.external_a = 0xAA;
    assert_eq!(cia.read(0x00), 0xAA);
}

#[test]
fn test_timer_countdown() {
    let mut cia = Cia6526::new_cia1();

    // Set timer A to count down from 5
    cia.write(0x04, 0x05);
    cia.write(0x05, 0x00);

    // Start timer
    cia.write(0x0E, 0x01);

    // Clock 5 times - should count: 5->4->3->2->1->0
    for _ in 0..5 {
        cia.clock();
    }
    // After 5 clocks, counter should be at 0 but not yet underflowed
    assert_eq!(cia.timer_a.counter, 0);

    // Clock one more time - underflow happens when counter is at 0
    cia.clock();
    // Timer should have underflowed and set interrupt flag
    assert!(cia.interrupt_flags() & 0x01 != 0);
}

#[test]
fn test_interrupt_mask() {
    let mut cia = Cia6526::new_cia1();

    // Set interrupt mask for Timer A
    cia.write(0x0D, 0x81); // Set bit 0

    // Set timer for quick underflow
    cia.write(0x04, 0x01);
    cia.write(0x05, 0x00);
    cia.write(0x0E, 0x01);

    // Clock until underflow
    cia.clock();
    cia.clock();

    // Should have interrupt
    assert!(cia.interrupt_pending());
}

#[test]
fn test_vic_bank_selection() {
    let mut cia = Cia6526::new_cia2();

    // Port A bits 0-1 control VIC bank (active low)
    cia.port_a.ddr = 0x03;
    cia.port_a.data = 0x00; // Both bits low = VIC bank 3
    assert_eq!(cia.vic_bank(), 3);

    cia.port_a.data = 0x03; // Both bits high = VIC bank 0
    assert_eq!(cia.vic_bank(), 0);
}

#[test]
fn cia_test_size() {
    let cia = Cia6526::new_cia1();
    assert_eq!(cia.size(), 256);
}

