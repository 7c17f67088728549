use c64_emu::system::disk_1541::{ChannelMode, D64Image};
use c64_emu::system::iec_bus::{IecBus, IecState};

fn bus_with_file(name: &str, bytes: &[u8]) -> IecBus {
    let mut bus = IecBus::new();
    let image = D64Image::create_blank("BUS", &[0x31, 0x32]);
    let drive = bus.drive_mut();
    drive.mount(image.data().to_vec()).unwrap();
    drive.open_channel(2, name, ChannelMode::Write).unwrap();
    for &b in bytes {
        drive.write_byte(2, b).unwrap();
    }
    drive.close_channel(2);
    bus
}

#[test]
fn file_opened_over_the_bus_is_read_in_talk_mode() {
    let mut bus = bus_with_file("HI", b"hello bus");
    assert!(bus.has_disk());
    bus.send_command(0x28);
    bus.send_command(0x63);
    assert!(bus.send_byte(b'H'));
    assert!(bus.send_byte(b'I'));
    bus.send_command(0x3F);
    assert_eq!(bus.state(), IecState::Idle);
    assert_eq!(bus.status(), 0);
    bus.send_command(0x48);
    bus.send_command(0xF3);
    assert_eq!(bus.active_channel(), 3);
    let mut got = Vec::new();
    while let Some(b) = bus.receive_byte() {
        got.push(b);
    }
    assert_eq!(got, b"hello bus".to_vec());
    assert!(bus.is_eof());
    assert_eq!(bus.status(), 0x40);
    bus.send_command(0x5F);
    assert_eq!(bus.state(), IecState::Idle);
}

#[test]
fn opening_a_missing_file_sets_the_error_bit() {
    let mut bus = bus_with_file("HI", b"x");
    bus.send_command(0x28);
    bus.send_command(0x62);
    bus.send_byte(b'N');
    bus.send_byte(b'O');
    bus.send_command(0x3F);
    assert_eq!(bus.status(), 0x80);
}

#[test]
fn bytes_need_a_listening_device() {
    let mut bus = IecBus::new();
    assert!(!bus.send_byte(1));
    assert_eq!(bus.status(), 0x80);
    bus.send_command(0x48);
    assert!(!bus.send_byte(1));
    assert_eq!(bus.status(), 0x80);
    assert_eq!(bus.receive_byte(), None);
    assert_eq!(bus.status(), 0x40);
}

#[test]
fn receiving_needs_a_talking_device() {
    let mut bus = IecBus::new();
    assert_eq!(bus.receive_byte(), None);
    assert_eq!(bus.status(), 0x80);
    bus.send_command(0x28);
    assert_eq!(bus.receive_byte(), None);
    assert_eq!(bus.status(), 0x80);
}

#[test]
fn unknown_and_absent_device_commands() {
    let mut bus = IecBus::new();
    bus.send_command(0x10);
    assert_eq!(bus.status(), 0x80);
    bus.send_command(0x29);
    assert_eq!(bus.active_device(), 0);
    assert_eq!(bus.state(), IecState::Idle);
}

#[test]
fn close_command_closes_the_channel() {
    let mut bus = bus_with_file("HI", b"abc");
    assert!(bus.open_file(5, "HI", ChannelMode::Read));
    assert_eq!(bus.read_byte(), Some(b'a'));
    bus.send_command(0xE5);
    assert_eq!(bus.active_channel(), 5);
    assert_eq!(bus.read_byte(), None);
    assert_eq!(bus.status(), 0x40);
}

#[test]
fn read_bytes_stops_at_the_end() {
    let mut bus = bus_with_file("HI", b"abcdef");
    assert!(bus.open_file(6, "HI", ChannelMode::Read));
    assert_eq!(bus.read_bytes(4), b"abcd".to_vec());
    assert_eq!(bus.read_bytes(10), b"ef".to_vec());
    assert!(bus.is_eof());
    assert!(!bus.open_file(7, "MISSING", ChannelMode::Read));
    assert_eq!(bus.status(), 0x80);
}

#[test]
fn reset_returns_to_idle() {
    let mut bus = bus_with_file("HI", b"abc");
    bus.send_command(0x28);
    bus.send_command(0x61);
    bus.send_byte(b'Q');
    bus.reset();
    assert_eq!(bus.state(), IecState::Idle);
    assert_eq!(bus.active_device(), 0);
    assert_eq!(bus.active_channel(), 0);
    assert_eq!(bus.status(), 0);
    assert!(!bus.is_eof());
    assert!(bus.has_disk());
}

#[test]
fn default_bus_has_no_disk() {
    let bus = IecBus::default();
    assert!(!bus.has_disk());
    assert_eq!(bus.drive().device_number(), 8);
    assert_eq!(IecState::default(), IecState::Idle);
}

#[test]
fn open_with_listen_open_name_unlisten() {
    let mut bus = bus_with_file("PROG", b"xyz");
    bus.send_command(0x28);
    bus.send_command(0xF2);
    for &b in b"PROG" {
        assert!(bus.send_byte(b));
    }
    bus.send_command(0x3F);
    assert_eq!(bus.state(), IecState::Idle);
    assert_eq!(bus.active_device(), 0);
    assert_eq!(bus.active_channel(), 2);
    assert_eq!(bus.status(), 0);
    assert_eq!(bus.drive_mut().read_byte(2).unwrap(), Some(b'x'));
}

#[test]
fn absent_device_leaves_the_bus_state() {
    let mut bus = IecBus::new();
    bus.send_command(0x29);
    assert_eq!(bus.status(), 0x80);
    assert_eq!(bus.state(), IecState::Idle);
    assert_eq!(bus.active_device(), 0);
    bus.send_command(0x28);
    assert_eq!(bus.state(), IecState::Listen);
    bus.send_command(0x49);
    assert_eq!(bus.status(), 0x80);
    assert_eq!(bus.state(), IecState::Listen);
    bus.send_command(0x5F);
    assert_eq!(bus.state(), IecState::Idle);
}

#[test]
fn listen_and_talk_address_the_drive() {
    let mut bus = IecBus::new();
    bus.send_command(0x28);
    assert_eq!(bus.state(), IecState::Listen);
    assert_eq!(bus.active_device(), 8);
    bus.send_command(0x3F);
    assert_eq!(bus.state(), IecState::Idle);
    bus.send_command(0x48);
    assert_eq!(bus.state(), IecState::Talk);
    assert_eq!(bus.active_device(), 8);
    bus.send_command(0x5F);
    assert_eq!(bus.state(), IecState::Idle);
    assert_eq!(bus.active_device(), 0);
    bus.send_command(0x49);
    assert_eq!(bus.state(), IecState::Idle);
    assert_eq!(bus.status(), 0x80);
}
