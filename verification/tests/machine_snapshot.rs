use c64_emu::system::c64_memory::snapshot::{get_cpu_state, pack_cpu_flags, unpack_cpu_flags};
use c64_emu::system::joystick::JoystickPorts;
use c64_emu::system::{
    C64Memory, CpuFlags, CpuRegisters, MachineState, Region, SaveState, SAVESTATE_VERSION,
};

fn sample_cpu() -> CpuRegisters {
    CpuRegisters {
        a: 0x12,
        x: 0x34,
        y: 0x56,
        sp: 0xF0,
        pc: 0xE5CD,
        flags: CpuFlags {
            negative: true,
            overflow: false,
            brk: true,
            decimal: false,
            interrupt: true,
            zero: false,
            carry: true,
        },
        cycles: 123_456_789,
        irq_pending: true,
        nmi_pending: false,
        nmi_prev_state: true,
    }
}

fn blank_cpu() -> CpuRegisters {
    CpuRegisters {
        a: 0,
        x: 0,
        y: 0,
        sp: 0,
        pc: 0,
        flags: unpack_cpu_flags(0),
        cycles: 0,
        irq_pending: false,
        nmi_pending: false,
        nmi_prev_state: false,
    }
}

fn sample_machine() -> MachineState {
    MachineState {
        region: Region::NTSC,
        current_scanline: 100,
        cycle_in_scanline: 12,
        frame_count: 42,
        running: true,
    }
}

fn blank_machine() -> MachineState {
    MachineState {
        region: Region::PAL,
        current_scanline: 0,
        cycle_in_scanline: 0,
        frame_count: 0,
        running: false,
    }
}

fn sample_memory() -> C64Memory {
    let mut mem = C64Memory::new();
    mem.write(0x1234, 0x56);
    mem.write(0xD020, 0x05);
    mem.write(0xD400, 0x11);
    mem.write(0xD418, 0x0F);
    mem.write(0xD800, 0x07);
    mem.write(0xDC04, 0x34);
    mem.keyboard.key_down(2, 3);
    mem
}

#[test]
fn cpu_flags_pack_in_nv_bdizc_order() {
    let flags = sample_cpu().flags;
    assert_eq!(pack_cpu_flags(&flags), 0xB5);
    assert_eq!(unpack_cpu_flags(0xB5), flags);
    assert_eq!(pack_cpu_flags(&unpack_cpu_flags(0x00)), 0x20);
    assert_eq!(pack_cpu_flags(&unpack_cpu_flags(0xFF)), 0xFF);
    assert_eq!(pack_cpu_flags(&unpack_cpu_flags(0xDF)), 0xFF);
}

#[test]
fn capture_records_the_machine() {
    let mem = sample_memory();
    let mut joysticks = JoystickPorts::new();
    joysticks.set_port(2, 0x10);
    let state = SaveState::capture(
        &sample_cpu(),
        &mem,
        &joysticks,
        &sample_machine(),
        0x3F80_0000,
        1_700_000_000,
    );
    assert_eq!(state.version, SAVESTATE_VERSION);
    assert_eq!(state.timestamp, 1_700_000_000);
    assert_eq!(state.cpu_flags, 0xB5);
    assert_eq!(state.cpu_pc, 0xE5CD);
    assert_eq!(state.ram[0x1234], 0x56);
    assert_eq!(state.vic_registers[0x20], 0x05);
    assert_eq!(state.sid_voices[0].freq & 0xFF, 0x11);
    assert_eq!(state.sid_volume, 0x0F);
    assert_eq!(state.sid_sample_accumulator_bits, 0x3F80_0000);
    assert_eq!(state.color_ram[0], 0xF7);
    assert_eq!(state.keyboard_matrix, 1u64 << (2 * 8 + 3));
    assert_eq!(state.joystick1, 0);
    assert_eq!(state.joystick2, 0x10);
    assert!(!state.joystick_swapped);
    assert_eq!(state.region, 1);
    assert_eq!(state.current_scanline, 100);
    assert_eq!(state.frame_count, 42);
    assert!(state.running);
    assert_eq!(state.port_external, 0);
}

#[test]
fn restoring_a_capture_brings_the_machine_back() {
    let mem = sample_memory();
    let mut joysticks = JoystickPorts::new();
    joysticks.set_port(2, 0x10);
    joysticks.set_swapped(true);
    let state = SaveState::capture(&sample_cpu(), &mem, &joysticks, &sample_machine(), 0, 7);

    let mut cpu = blank_cpu();
    let mut restored = C64Memory::new();
    let mut ports = JoystickPorts::new();
    let mut machine = blank_machine();
    state.restore(&mut cpu, &mut restored, &mut ports, &mut machine).unwrap();

    assert_eq!(cpu, sample_cpu());
    assert_eq!(machine, sample_machine());
    assert_eq!(restored.read(0x1234), 0x56);
    assert_eq!(restored.vic.border_color(), 0x05);
    assert_eq!(restored.sid.volume(), 0x0F);
    assert_eq!(restored.sid.voice(0).unwrap().freq & 0xFF, 0x11);
    assert_eq!(restored.color_ram.get(0), 0x07);
    assert!(restored.keyboard.is_key_pressed(2, 3));
    assert!(!restored.keyboard.is_key_pressed(3, 2));
    assert_eq!(ports.physical_port2().get(), 0x10);
    assert_eq!(ports.physical_port1().get(), 0);
    assert!(ports.is_swapped());
    // Physical port 2 drives CIA1 port A, active low.
    assert_eq!(restored.cia1.external_a & 0x1F, 0x0F);
    assert_eq!(restored.cia1.external_b() & 0x1F, 0x1F);
}

#[test]
fn restore_refuses_another_version_and_changes_nothing() {
    let mem = sample_memory();
    let mut state =
        SaveState::capture(&sample_cpu(), &mem, &JoystickPorts::new(), &sample_machine(), 0, 0);
    state.version = 2;
    let mut cpu = blank_cpu();
    let mut restored = C64Memory::new();
    let mut ports = JoystickPorts::new();
    let mut machine = blank_machine();
    let r = state.restore(&mut cpu, &mut restored, &mut ports, &mut machine);
    assert_eq!(r, Err("Incompatible save state version: expected 1, got 2".to_string()));
    assert_eq!(cpu, blank_cpu());
    assert_eq!(machine, blank_machine());
    assert_eq!(restored.read(0x1234), 0);
}

#[test]
fn captured_state_survives_the_byte_encoding() {
    let mem = sample_memory();
    let state =
        SaveState::capture(&sample_cpu(), &mem, &JoystickPorts::new(), &sample_machine(), 9, 3);
    let bytes = state.serialize();
    let decoded = SaveState::deserialize(&bytes).unwrap();
    let mut cpu = blank_cpu();
    let mut restored = C64Memory::new();
    let mut ports = JoystickPorts::new();
    let mut machine = blank_machine();
    decoded.restore(&mut cpu, &mut restored, &mut ports, &mut machine).unwrap();
    assert_eq!(cpu, sample_cpu());
    assert_eq!(machine, sample_machine());
    assert_eq!(restored.read(0x1234), 0x56);
    assert_eq!(decoded.sid_sample_accumulator_bits, 9);
}

#[test]
fn joystick_lines_follow_the_ports() {
    let mut mem = C64Memory::new();
    let mut ports = JoystickPorts::new();
    ports.set_port(2, 0x11);
    ports.set_port(1, 0x02);
    mem.sync_joysticks(&ports);
    assert_eq!(mem.cia1.external_a & 0x1F, 0x0E);
    assert_eq!(mem.cia1.external_b & 0x1F, 0x1D);
    assert_eq!(mem.cia1.external_a & 0xE0, 0xE0);
}

#[test]
fn cpu_state_for_a_debugger() {
    assert_eq!(
        get_cpu_state(&sample_cpu()),
        (0x12, 0x34, 0x56, 0xF0, 0xE5CD, 0xB5, 123_456_789)
    );
}

#[test]
fn joystick_state_capture_and_restore() {
    let mut ports = JoystickPorts::new();
    ports.set_port(1, 0x03);
    ports.set_port(2, 0xFF);
    ports.set_swapped(true);
    assert_eq!(ports.capture_joystick_state(), (0x03, 0x1F, true));
    let mut other = JoystickPorts::new();
    other.restore_joystick_state(0x03, 0x3F, true);
    assert_eq!(other.capture_joystick_state(), (0x03, 0x1F, true));
}

#[test]
fn a_pending_cia2_interrupt_is_saved_and_restored() {
    let mut mem = sample_memory();
    mem.cia2.set_interrupt_pending(true);
    let state = SaveState::capture(&sample_cpu(), &mem, &JoystickPorts::new(), &sample_machine(), 0, 0);
    assert!(state.cia2.interrupt_pending);
    assert!(!state.cia1.interrupt_pending);
    let mut cpu = blank_cpu();
    let mut restored = C64Memory::new();
    let mut ports = JoystickPorts::new();
    let mut machine = blank_machine();
    state.restore(&mut cpu, &mut restored, &mut ports, &mut machine).unwrap();
    assert!(restored.nmi_active());
}
