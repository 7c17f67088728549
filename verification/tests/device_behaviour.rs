use c64_emu::devices::cia::{Cia6526, CiaTimer, CiaType};
use c64_emu::devices::color_ram::ColorRam;
use c64_emu::devices::port_6510::Port6510;
use c64_emu::devices::sid::SidVoice;
use c64_emu::devices::vic_ii::{VicII, FRAMEBUFFER_SIZE, VIC_REGISTER_COUNT};
use c64_emu::system::joystick::{JoystickPorts, JoystickState, JOY_FIRE, JOY_LEFT, JOY_UP};
use c64_emu::system::keyboard::Keyboard;
use c64_emu::system::savestate::{
    capture_cia, capture_sid_voice, deserialize_cia, deserialize_sid_voice, pack_keyboard,
    restore_cia, restore_sid_voice, serialize_cia, serialize_sid_voice, unpack_keyboard,
};

#[test]
fn cia_interrupt_register_read_clears_it() {
    let mut cia = Cia6526::new_cia1();
    cia.write(0x0D, 0x81);
    cia.write(0x04, 0x01);
    cia.write(0x05, 0x00);
    cia.write(0x0E, 0x01);
    cia.clock();
    cia.clock();
    assert!(cia.interrupt_pending());
    assert_eq!(cia.read(0x0D), 0x81);
    assert_eq!(cia.read(0x0D), 0x00);
    assert!(!cia.interrupt_pending());
    assert_eq!(cia.interrupt_flags(), 0);
}

#[test]
fn cia_interrupt_mask_set_and_clear() {
    let mut cia = Cia6526::new(CiaType::Cia2);
    cia.write(0x0D, 0x83);
    assert_eq!(cia.interrupt_mask(), 0x03);
    cia.write(0x0D, 0x01);
    assert_eq!(cia.interrupt_mask(), 0x02);
}

#[test]
fn cia_output_port_reads_back_what_was_written() {
    let mut cia = Cia6526::new_cia2();
    cia.write(0x03, 0xFF);
    for v in [0x00u8, 0x5A, 0xFF] {
        cia.write(0x01, v);
        assert_eq!(cia.read(0x01), v);
    }
}

#[test]
fn cia_timer_counts_down_to_underflow() {
    let mut cia = Cia6526::new_cia1();
    cia.write(0x04, 0x03);
    cia.write(0x05, 0x00);
    cia.write(0x0E, 0x01);
    cia.clock();
    assert_eq!(cia.timer_a.counter, 2);
    cia.clock();
    cia.clock();
    assert_eq!(cia.timer_a.counter, 0);
    cia.clock();
    assert_eq!(cia.timer_a.counter, 3);
    assert_eq!(cia.interrupt_flags() & 0x01, 0x01);
}

#[test]
fn cia_state_capture_and_restore() {
    let mut cia = Cia6526::new_cia1();
    cia.write(0x02, 0xF0);
    cia.write(0x00, 0x3C);
    cia.write(0x04, 0x34);
    cia.write(0x05, 0x12);
    cia.write(0x0D, 0x82);
    let state = capture_cia(&cia);
    let mut other = Cia6526::new_cia1();
    restore_cia(&mut other, &state);
    assert_eq!(other.get_all_registers(), cia.get_all_registers());
    assert_eq!(other.interrupt_mask(), cia.interrupt_mask());
    assert_eq!(other.timer_a.latch, 0x1234);
    let mut bytes = Vec::new();
    serialize_cia(&mut bytes, &state);
    assert_eq!(bytes.len(), 39);
    let mut pos = 0usize;
    let decoded = deserialize_cia(&bytes, &mut pos).unwrap();
    assert_eq!(pos, 39);
    assert_eq!(format!("{:?}", decoded), format!("{:?}", state));
    let mut short = 1usize;
    assert_eq!(deserialize_cia(&bytes, &mut short).unwrap_err(), "Save state truncated at CIA");
    assert_eq!(short, 1);
}

#[test]
fn sid_voice_state_round_trip() {
    let mut voice = SidVoice::new();
    voice.freq = 0x1234;
    voice.accumulator = 0x00AB_CDEF;
    voice.lfsr = 0x12_3456;
    voice.control = 0x41;
    let state = capture_sid_voice(&voice);
    let mut other = SidVoice::new();
    restore_sid_voice(&mut other, &state);
    assert_eq!(format!("{:?}", other), format!("{:?}", voice));
    let mut bytes = Vec::new();
    serialize_sid_voice(&mut bytes, &state);
    assert_eq!(bytes.len(), 22);
    let mut pos = 0usize;
    assert!(deserialize_sid_voice(&bytes, &mut pos).is_err());
    bytes.push(0);
    bytes.push(0);
    let decoded = deserialize_sid_voice(&bytes, &mut pos).unwrap();
    assert_eq!(pos, 22);
    assert_eq!(format!("{:?}", decoded), format!("{:?}", state));
}

#[test]
fn keyboard_pack_unpack_round_trip() {
    let mut kb = Keyboard::new();
    kb.key_down(0, 0);
    kb.key_down(3, 5);
    kb.key_down(7, 7);
    let packed = pack_keyboard(&kb);
    assert_eq!(packed, 1 | (1 << 29) | (1 << 63));
    let mut other = Keyboard::new();
    other.key_down(1, 1);
    unpack_keyboard(&mut other, packed);
    assert_eq!(other.matrix(), kb.matrix());
}

#[test]
fn keyboard_with_no_column_selected_reads_all_high() {
    let mut kb = Keyboard::new();
    kb.key_down(4, 4);
    assert_eq!(kb.scan(0xFF), 0xFF);
    kb.release_all();
    for sel in [0x00u8, 0x0F, 0xAA] {
        assert_eq!(kb.scan(sel), 0xFF);
    }
}

#[test]
fn color_ram_keeps_the_low_nibble() {
    let mut ram = ColorRam::new();
    ram.set(10, 0xF3);
    assert_eq!(ram.get(10), 0x03);
    ram.set(5000, 0x01);
    assert_eq!(ram.get(5000), 0);
    ram.reset();
    assert_eq!(ram.get(10), 14);
}

#[test]
fn port_with_all_outputs_reads_its_data_register() {
    let mut port = Port6510::new();
    port.write(0, 0xFF);
    port.set_external(0x00);
    port.write(1, 0xA5);
    assert_eq!(port.read(1), 0xA5);
    port.set_external(0xFF);
    assert_eq!(port.read(1), 0xA5);
}

#[test]
fn sid_noise_register_never_reaches_zero() {
    let mut voice = SidVoice::new();
    voice.lfsr = 1;
    for _ in 0..10_000 {
        voice.clock_lfsr();
        assert!(voice.lfsr != 0 && voice.lfsr <= 0x7F_FFFF);
    }
}

#[test]
fn sid_extra_waveforms_only_clear_bits() {
    let mut voice = SidVoice::new();
    voice.accumulator = 0x5A_5000;
    voice.pulse_width = 0x900;
    voice.control = 0x20;
    let saw = voice.generate_waveform(false);
    voice.control = 0x60;
    let both = voice.generate_waveform(false);
    assert_eq!(both & saw, both);
    assert_eq!(saw, 0x5A5);
}

#[test]
fn vic_sizes_are_fixed() {
    let mut vic = VicII::new();
    assert_eq!(vic.framebuffer().len() * vic.framebuffer()[0].len(), FRAMEBUFFER_SIZE);
    assert_eq!(vic.framebuffer().len(), 200);
    assert_eq!(vic.get_all_registers().len(), VIC_REGISTER_COUNT);
    vic.fill_framebuffer(3);
    assert_eq!(vic.pixel(199, 319), 3);
    vic.write(0x1E, 0x12);
    assert_eq!(vic.collision_ss(), 0);
}

#[test]
fn joystick_press_then_release_restores_state() {
    let mut joy = JoystickState::new();
    joy.set(JOY_LEFT);
    joy.press_up();
    joy.release_up();
    assert_eq!(joy.get(), JOY_LEFT);
    assert_eq!(joy.get_active_low(), !JOY_LEFT & 0x1F);
    joy.press_fire();
    assert_eq!(joy.get_active_low(), !(JOY_LEFT | JOY_FIRE) & 0x1F);
}

#[test]
fn joystick_swap_toggled_twice_is_unchanged() {
    let mut ports = JoystickPorts::new();
    ports.set_port(1, JOY_UP);
    ports.toggle_swap();
    ports.toggle_swap();
    assert!(!ports.is_swapped());
    assert!(ports.physical_port1().up());
    ports.physical_port2_mut().press_fire();
    assert!(ports.physical_port2().fire());
}

#[test]
fn vic_register_reads_back_what_was_written() {
    let mut vic = VicII::new();
    vic.write(0x20, 0x07);
    assert_eq!(vic.read(0x20), 0x07);
    vic.write(0x15, 0xA5);
    assert_eq!(vic.read(0x15), 0xA5);
    vic.set_raster(300);
    vic.write(0x11, 0x1B);
    assert_eq!(vic.read(0x11), 0x9B);
}

#[test]
fn vic_collision_registers_ignore_writes() {
    let mut vic = VicII::new();
    vic.set_collision_ss(0x12);
    vic.set_collision_sb(0x34);
    vic.write(0x1E, 0xFF);
    vic.write(0x1F, 0x00);
    assert_eq!(vic.read(0x1E), 0x12);
    assert_eq!(vic.read(0x1F), 0x34);
}

#[test]
fn vic_interrupt_acknowledge_clears_flag_and_irq() {
    let mut vic = VicII::new();
    vic.write(0x1A, 0x01);
    vic.write(0x12, 0x00);
    vic.set_raster(0);
    vic.check_raster_irq();
    assert!(vic.has_interrupt());
    assert_eq!(vic.read(0x19) & 0x01, 0x01);
    vic.write(0x19, 0x0F);
    assert_eq!(vic.read(0x19) & 0x0F, 0x00);
    assert!(!vic.has_interrupt());
}

#[test]
fn cia_one_shot_timer_stops_after_underflow() {
    let mut t = CiaTimer::new();
    t.counter = 2;
    t.latch = 5;
    t.running = true;
    t.one_shot = true;
    assert!(!t.clock());
    assert!(!t.clock());
    assert_eq!(t.counter, 0);
    assert!(t.running);
    assert!(t.clock());
    assert_eq!(t.counter, 5);
    assert!(!t.running);
    assert!(!t.clock());
    assert_eq!(t.counter, 5);
}

#[test]
fn keyboard_key_seen_only_while_pressed() {
    let mut kb = Keyboard::new();
    kb.key_down(3, 5);
    assert_eq!(kb.scan(!(1u8 << 5)), !(1u8 << 3));
    assert_eq!(kb.scan(!(1u8 << 4)), 0xFF);
    kb.key_up(3, 5);
    assert_eq!(kb.scan(!(1u8 << 5)), 0xFF);
}
