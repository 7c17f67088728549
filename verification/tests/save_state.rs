use c64_emu::devices::cia::Cia6526;
use c64_emu::devices::sid::{Sid6581, SidFilter, SidVoice};
use c64_emu::system::keyboard::Keyboard;
use c64_emu::system::savestate::{
    capture_cia, capture_sid_filter, capture_sid_voice, pack_keyboard, restore_sid_filter,
    unpack_keyboard,
};
use c64_emu::system::{SaveState, SidFilterState, SAVESTATE_MAGIC, SAVESTATE_VERSION};

fn sample_state() -> SaveState {
    let mut ram = Box::new([0u8; 65536]);
    for (i, b) in ram.iter_mut().enumerate() {
        *b = (i % 251) as u8;
    }
    let mut voice = SidVoice::new();
    voice.freq = 0x1234;
    voice.accumulator = 0x00AB_CDEF;
    voice.lfsr = 0x12_3456;
    let mut cia2 = Cia6526::new_cia2();
    cia2.write(0x00, 0x03);
    let mut vic_registers = [0u8; 47];
    vic_registers[0x20] = 0x0E;
    vic_registers[0x11] = 0x1B;
    let mut color_ram = [0u8; 1024];
    color_ram[1023] = 0x0F;
    SaveState {
        version: SAVESTATE_VERSION,
        timestamp: 0x0102_0304_0506_0708,
        cpu_a: 0x42,
        cpu_x: 0xAB,
        cpu_y: 0xCD,
        cpu_sp: 0xFD,
        cpu_pc: 0x1234,
        cpu_flags: 0x24,
        cpu_cycles: 123_456_789,
        cpu_irq_pending: true,
        cpu_nmi_pending: false,
        cpu_nmi_prev_state: true,
        ram,
        port_ddr: 0x2F,
        port_data: 0x37,
        port_external: 0xFF,
        vic_registers,
        vic_raster: 300,
        vic_cycle_in_line: 12,
        vic_collision_ss: 0x05,
        vic_collision_sb: 0x0A,
        vic_irq_pending: true,
        sid_voices: [capture_sid_voice(&voice), capture_sid_voice(&SidVoice::new()), capture_sid_voice(&voice)],
        sid_filter: SidFilterState {
            cutoff: 0x7FF,
            resonance: 0x0F,
            routing: 0x07,
            mode_bits: 0x05,
            low_bits: 0.5f32.to_bits(),
            band_bits: (-0.25f32).to_bits(),
        },
        sid_volume: 0x0F,
        sid_sample_accumulator_bits: 22.34f32.to_bits(),
        sid_audio_enabled: true,
        cia1: capture_cia(&Cia6526::new_cia1()),
        cia2: capture_cia(&cia2),
        color_ram,
        keyboard_matrix: 0x8000_0000_0000_0001,
        joystick1: 0x11,
        joystick2: 0x02,
        joystick_swapped: true,
        region: 1,
        current_scanline: 311,
        cycle_in_scanline: 62,
        frame_count: 9_999,
        running: true,
    }
}

fn header(version: u32, len: usize) -> Vec<u8> {
    let mut data = SAVESTATE_MAGIC.to_vec();
    data.extend_from_slice(&version.to_le_bytes());
    data.extend_from_slice(&0u64.to_le_bytes());
    data.resize(len, 0);
    data
}

#[test]
fn test_savestate_magic_validation() {
    let bad_magic = vec![0u8; 16];
    let result = SaveState::deserialize(&bad_magic);
    assert!(result.is_err());
    assert!(result.unwrap_err().contains("magic"));
}

#[test]
fn test_savestate_version_validation() {
    let mut bad_version = SAVESTATE_MAGIC.to_vec();
    bad_version.extend_from_slice(&999u32.to_le_bytes());
    bad_version.extend_from_slice(&0u64.to_le_bytes());
    let result = SaveState::deserialize(&bad_version);
    assert!(result.is_err());
    assert!(result.unwrap_err().contains("version"));
}

#[test]
fn save_state_version_message_names_both_versions() {
    let result = SaveState::deserialize(&header(999, 16));
    assert_eq!(
        result.unwrap_err(),
        "Incompatible save state version: expected 1, got 999"
    );
}

#[test]
fn save_state_too_small() {
    let result = SaveState::deserialize(&[0x43, 0x36, 0x34]);
    assert_eq!(result.unwrap_err(), "Save state too small");
}

#[test]
fn save_state_truncated_sections() {
    assert_eq!(
        SaveState::deserialize(&header(1, 40)).unwrap_err(),
        "Save state truncated at RAM"
    );
    assert_eq!(
        SaveState::deserialize(&header(1, 65_650)).unwrap_err(),
        "Save state truncated at SID voice"
    );
    assert_eq!(
        SaveState::deserialize(&header(1, 65_700)).unwrap_err(),
        "Save state truncated at SID filter"
    );
    assert_eq!(
        SaveState::deserialize(&header(1, 65_760)).unwrap_err(),
        "Save state truncated at CIA"
    );
}

#[test]
fn save_state_serialize_deserialize_round_trip() {
    let state = sample_state();
    let bytes = state.serialize();
    assert_eq!(bytes.len(), 66_838);
    assert_eq!(state.serialized_size(), 66_838);
    assert_eq!(&bytes[0..4], &SAVESTATE_MAGIC);
    let restored = SaveState::deserialize(&bytes).expect("Failed to deserialize");
    assert_eq!(restored.version, state.version);
    assert_eq!(restored.timestamp, state.timestamp);
    assert_eq!(restored.cpu_a, 0x42);
    assert_eq!(restored.cpu_x, 0xAB);
    assert_eq!(restored.cpu_y, 0xCD);
    assert_eq!(restored.cpu_pc, 0x1234);
    assert_eq!(restored.cpu_cycles, 123_456_789);
    assert!(restored.cpu_irq_pending && !restored.cpu_nmi_pending && restored.cpu_nmi_prev_state);
    assert_eq!(&restored.ram[..], &state.ram[..]);
    assert_eq!(restored.vic_registers, state.vic_registers);
    assert_eq!(restored.vic_raster, 300);
    assert_eq!(restored.sid_voices[0].accumulator, 0x00AB_CDEF);
    assert_eq!(restored.sid_voices[2].lfsr, 0x12_3456);
    assert_eq!(f32::from_bits(restored.sid_filter.low_bits), 0.5);
    assert_eq!(f32::from_bits(restored.sid_filter.band_bits), -0.25);
    assert_eq!(f32::from_bits(restored.sid_sample_accumulator_bits), 22.34);
    assert_eq!(restored.cia2.port_a_data, state.cia2.port_a_data);
    assert_eq!(restored.cia1.timer_a_latch, state.cia1.timer_a_latch);
    assert_eq!(restored.color_ram[1023], 0x0F);
    assert_eq!(restored.keyboard_matrix, 0x8000_0000_0000_0001);
    assert!(restored.joystick_swapped);
    assert_eq!(restored.region, 1);
    assert_eq!(restored.current_scanline, 311);
    assert_eq!(restored.cycle_in_scanline, 62);
    assert_eq!(restored.frame_count, 9_999);
    assert!(restored.running);
    assert_eq!(restored.serialize(), bytes);
}

#[test]
fn save_state_estimated_size() {
    assert_eq!(SaveState::estimated_size(), 66_864);
}

#[test]
fn test_keyboard_pack_unpack() {
    let mut keyboard = Keyboard::new();
    keyboard.key_down(0, 0);
    keyboard.key_down(3, 5);
    keyboard.key_down(7, 7);
    let packed = pack_keyboard(&keyboard);
    let mut restored = Keyboard::new();
    unpack_keyboard(&mut restored, packed);
    assert!(restored.is_key_pressed(0, 0));
    assert!(restored.is_key_pressed(3, 5));
    assert!(restored.is_key_pressed(7, 7));
    assert!(!restored.is_key_pressed(1, 1));
}

#[test]
fn sid_filter_state_capture_and_restore() {
    let mut sid = Sid6581::new();
    sid.write(0x15, 0x05);
    sid.write(0x16, 0x80);
    sid.write(0x17, 0xA3);
    sid.write(0x18, 0x4F);
    let state = capture_sid_filter(&sid.filter());
    assert_eq!(state.cutoff, 0x405);
    assert_eq!(state.routing, 0x03);
    assert_eq!(state.resonance, 0x0A);
    assert_eq!(state.mode_bits, 0x04);
    let mut filter = SidFilter::new();
    restore_sid_filter(&mut filter, &state);
    assert_eq!(filter, sid.filter());
}
