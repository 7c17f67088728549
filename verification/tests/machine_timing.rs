use c64_emu::system::c64_memory::snapshot::{pack_cpu_flags, unpack_cpu_flags};
use c64_emu::system::c64_memory::timing::FrameRun;
use c64_emu::system::{C64Memory, CpuRegisters, MachineState, Region};

fn machine(region: Region, line: u16, cycle: u16) -> MachineState {
    MachineState {
        region,
        current_scanline: line,
        cycle_in_scanline: cycle,
        frame_count: 5,
        running: true,
    }
}

#[test]
fn cycles_within_a_line_only_clock_the_chips() {
    let mut mem = C64Memory::new();
    mem.write(0xDC04, 0x00);
    mem.write(0xDC05, 0x01);
    mem.write(0xDC0E, 0x01);
    let mut m = machine(Region::PAL, 10, 0);
    mem.run_cycles(&mut m, 10);
    assert_eq!(m.cycle_in_scanline, 10);
    assert_eq!(m.current_scanline, 10);
    assert_eq!(mem.vic.raster(), 0);
    assert_eq!(mem.read(0xDC04), 0xF6);
    assert_eq!(mem.read(0xDC05), 0x00);
}

#[test]
fn a_completed_line_moves_the_beam_on() {
    let mut mem = C64Memory::new();
    let mut m = machine(Region::PAL, 10, 60);
    mem.run_cycles(&mut m, 10);
    assert_eq!(m.cycle_in_scanline, 7);
    assert_eq!(m.current_scanline, 11);
    assert_eq!(mem.vic.raster(), 1);
}

#[test]
fn the_last_line_wraps_to_the_top() {
    let mut mem = C64Memory::new();
    let mut m = machine(Region::NTSC, 262, 64);
    mem.run_cycles(&mut m, 2);
    assert_eq!(m.cycle_in_scanline, 1);
    assert_eq!(m.current_scanline, 0);
    assert_eq!(m.frame_count, 5);
}

#[test]
fn raster_compare_line_raises_the_interrupt_flag() {
    let mut mem = C64Memory::new();
    mem.write(0xD012, 0x00);
    mem.write(0xD01A, 0x01);
    let mut m = machine(Region::PAL, 0, 62);
    mem.run_cycles(&mut m, 1);
    assert_eq!(mem.vic.read_register(0x19) & 0x01, 0x01);
    assert!(mem.vic.irq_pending());
}

#[test]
fn a_paused_machine_runs_no_frame() {
    let mut m = machine(Region::PAL, 0, 0);
    m.running = false;
    assert_eq!(FrameRun::start(&m), None);
    m.running = true;
    assert_eq!(
        FrameRun::start(&m),
        Some(FrameRun { cycles_remaining: 312 * 63, total_cycles: 0 })
    );
}

#[test]
fn a_frame_ends_when_its_cycles_are_used_up() {
    let mut mem = C64Memory::new();
    let mut m = machine(Region::PAL, 0, 0);
    let mut run = FrameRun { cycles_remaining: 6, total_cycles: 100 };
    assert!(!run.after_instruction(&mut mem, &mut m, 4));
    assert_eq!(run.cycles_remaining, 2);
    assert_eq!(m.frame_count, 5);
    assert!(run.after_instruction(&mut mem, &mut m, 3));
    assert_eq!(run.cycles_remaining, -1);
    assert_eq!(run.total_cycles, 107);
    assert_eq!(m.frame_count, 6);
    assert_eq!(m.cycle_in_scanline, 7);
}

#[test]
fn a_whole_frame_brings_the_beam_back_to_the_top() {
    let mut mem = C64Memory::new();
    let mut m = machine(Region::PAL, 0, 0);
    let mut run = FrameRun::start(&m).unwrap();
    let mut instructions = 0;
    while !run.after_instruction(&mut mem, &mut m, 4) {
        instructions += 1;
    }
    assert_eq!(instructions + 1, 312 * 63 / 4);
    assert_eq!(run.total_cycles, 312 * 63);
    assert_eq!(m.current_scanline, 0);
    assert_eq!(m.cycle_in_scanline, 0);
    assert_eq!(mem.vic.raster(), 0);
    assert_eq!(m.frame_count, 6);
}

#[test]
fn reset_starts_the_cpu_at_the_reset_vector() {
    let mut mem = C64Memory::new();
    let mut kernal = vec![0u8; 8192];
    kernal[0x1FFC] = 0xE2;
    kernal[0x1FFD] = 0xFC;
    mem.load_kernal(&kernal);
    mem.write(0x1000, 0x55);
    let mut cpu = CpuRegisters {
        a: 1,
        x: 2,
        y: 3,
        sp: 4,
        pc: 5,
        flags: unpack_cpu_flags(0xFF),
        cycles: 77,
        irq_pending: false,
        nmi_pending: true,
        nmi_prev_state: false,
    };
    let mut m = machine(Region::PAL, 100, 20);
    m.running = false;
    mem.reset_machine(&mut cpu, &mut m);
    assert_eq!(cpu.pc, 0xFCE2);
    assert_eq!(cpu.sp, 0xFD);
    assert_eq!((cpu.a, cpu.x, cpu.y), (0, 0, 0));
    assert_eq!(pack_cpu_flags(&cpu.flags), 0x24);
    assert_eq!(cpu.cycles, 77);
    assert!(cpu.nmi_pending);
    assert_eq!((m.current_scanline, m.cycle_in_scanline), (0, 0));
    assert!(m.running);
    assert_eq!(m.frame_count, 5);
    assert_eq!(mem.read(0x1000), 0);
}

#[test]
fn a_line_end_draws_the_line_the_machine_is_on() {
    let mut a = C64Memory::new();
    let mut b = C64Memory::new();
    for mem in [&mut a, &mut b] {
        mem.write(0x0400, 0x01);
        mem.write(0xD021, 0x06);
        mem.write(0xD800, 0x01);
    }
    let mut m = machine(Region::PAL, 51, 62);
    a.run_cycles(&mut m, 1);
    b.render_scanline(51);
    for col in 0..320 {
        assert_eq!(a.vic.pixel(0, col), b.vic.pixel(0, col));
    }
    assert_eq!(m.current_scanline, 52);
}
