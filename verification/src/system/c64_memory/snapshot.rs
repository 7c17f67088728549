//! Capturing the whole machine into a save state and restoring it.
//!
//! The CPU and the machine's timing live outside the memory system; they
//! are handed in as plain values (`CpuRegisters`, `MachineState`), and so
//! is the bit pattern of the SID's output sample accumulator, which the
//! audio side keeps.

use vstd::prelude::*;

use super::{C64Memory, C64MemoryView};
use crate::devices::cia::{capture_cia, cia_captured, cia_restored, lemma_cia_capture_restore, restore_cia, CiaType, CiaView};
use crate::devices::color_ram::COLOR_RAM_SIZE;
use crate::devices::port_6510::Port6510View;
use crate::devices::sid::{SidView, SidVoice, Sid6581};
use crate::devices::vic_ii::{VicView, VIC_REGISTER_COUNT};
use crate::system::c64_system::Region;
use crate::system::joystick::{JoystickPorts, JoystickPortsView};
use crate::system::keyboard::Keyboard;
use crate::system::savestate::machine::{copy_into, version_mismatch, version_mismatch_text};
use crate::system::savestate::{
    capture_sid_filter, capture_sid_voice, pack_keyboard, restore_sid_filter, restore_sid_voice,
    sid_filter_of, sid_filter_state_of, sid_voice_of, sid_voice_state_of, u64_bit,
    unpack_keyboard, SaveState, SaveStateView, SidVoiceState, SAVESTATE_VERSION,
};

verus! {

/// The 6502 status flags, one field per flag.
#[derive(Debug, Clone, Copy, PartialEq, Eq, Structural)]
pub struct CpuFlags {
    /// N: negative.
    pub negative: bool,
    /// V: overflow.
    pub overflow: bool,
    /// B: break.
    pub brk: bool,
    /// D: decimal mode.
    pub decimal: bool,
    /// I: interrupts disabled.
    pub interrupt: bool,
    /// Z: zero.
    pub zero: bool,
    /// C: carry.
    pub carry: bool,
}

/// `bit` when the flag is set, else nothing.
pub open spec fn flag_bit(set: bool, bit: u8) -> u8 {
    if set {
        bit
    } else {
        0
    }
}

/// The status register as a byte, NV-BDIZC, with the unused bit 5 set.
pub open spec fn flags_byte(f: CpuFlags) -> u8 {
    flag_bit(f.negative, 0x80) | flag_bit(f.overflow, 0x40) | 0x20u8 | flag_bit(f.brk, 0x10)
        | flag_bit(f.decimal, 0x08) | flag_bit(f.interrupt, 0x04) | flag_bit(f.zero, 0x02)
        | flag_bit(f.carry, 0x01)
}

/// The flags a status byte holds.
pub open spec fn flags_of_byte(b: u8) -> CpuFlags {
    CpuFlags {
        negative: b & 0x80 != 0,
        overflow: b & 0x40 != 0,
        brk: b & 0x10 != 0,
        decimal: b & 0x08 != 0,
        interrupt: b & 0x04 != 0,
        zero: b & 0x02 != 0,
        carry: b & 0x01 != 0,
    }
}

/// Pack the flags into a status byte (NV-BDIZC, bit 5 always set).
pub fn pack_cpu_flags(flags: &CpuFlags) -> (r: u8)
    ensures
        r == flags_byte(*flags),
{
    (if flags.negative { 0x80u8 } else { 0 }) | (if flags.overflow { 0x40u8 } else { 0 }) | 0x20u8
        | (if flags.brk { 0x10u8 } else { 0 }) | (if flags.decimal { 0x08u8 } else { 0 }) | (
    if flags.interrupt {
        0x04u8
    } else {
        0
    }) | (if flags.zero { 0x02u8 } else { 0 }) | (if flags.carry { 0x01u8 } else { 0 })
}

/// Unpack a status byte into the flags (bit 5 is ignored).
pub fn unpack_cpu_flags(byte: u8) -> (r: CpuFlags)
    ensures
        r == flags_of_byte(byte),
{
    CpuFlags {
        negative: byte & 0x80 != 0,
        overflow: byte & 0x40 != 0,
        brk: byte & 0x10 != 0,
        decimal: byte & 0x08 != 0,
        interrupt: byte & 0x04 != 0,
        zero: byte & 0x02 != 0,
        carry: byte & 0x01 != 0,
    }
}

/// The bit facts the two ends of a save state rest on.
proof fn lemma_snapshot_bits(f: CpuFlags, b: u8, c: u8, j: u8)
    ensures
        flags_of_byte(flags_byte(f)) == f,
        flags_byte(flags_of_byte(b)) == b | 0x20,
        c < 16 ==> (c | 0xF0) & 0x0F == c,
        j < 32 ==> j & 0x1F == j,
{
    let (n, v, k, d, i, z, cy) = (
        f.negative,
        f.overflow,
        f.brk,
        f.decimal,
        f.interrupt,
        f.zero,
        f.carry,
    );
    assert({
        let x = flag_bit(n, 0x80) | flag_bit(v, 0x40) | 0x20u8 | flag_bit(k, 0x10) | flag_bit(d, 0x08)
            | flag_bit(i, 0x04) | flag_bit(z, 0x02) | flag_bit(cy, 0x01);
        let y = flag_bit(b & 0x80 != 0, 0x80) | flag_bit(b & 0x40 != 0, 0x40) | 0x20u8 | flag_bit(
            b & 0x10 != 0,
            0x10,
        ) | flag_bit(b & 0x08 != 0, 0x08) | flag_bit(b & 0x04 != 0, 0x04) | flag_bit(
            b & 0x02 != 0,
            0x02,
        ) | flag_bit(b & 0x01 != 0, 0x01);
        &&& (x & 0x80 != 0) == n
        &&& (x & 0x40 != 0) == v
        &&& (x & 0x10 != 0) == k
        &&& (x & 0x08 != 0) == d
        &&& (x & 0x04 != 0) == i
        &&& (x & 0x02 != 0) == z
        &&& (x & 0x01 != 0) == cy
        &&& y == b | 0x20
        &&& (c < 16 ==> (c | 0xF0) & 0x0F == c)
        &&& (j < 32 ==> j & 0x1F == j)
    }) by (bit_vector);
}

/// Unpacking packed flags gives them back, and packing the flags of a
/// byte gives the byte back with bit 5 set.
pub proof fn lemma_cpu_flags_roundtrip(f: CpuFlags, b: u8)
    ensures
        flags_of_byte(flags_byte(f)) == f,
        flags_byte(flags_of_byte(b)) == b | 0x20,
{
    lemma_snapshot_bits(f, b, 0, 0);
}

/// The CPU state a save state records: registers, flags, cycle count and
/// interrupt lines.
#[derive(Debug, Clone, Copy, PartialEq, Eq, Structural)]
pub struct CpuRegisters {
    pub a: u8,
    pub x: u8,
    pub y: u8,
    pub sp: u8,
    pub pc: u16,
    pub flags: CpuFlags,
    pub cycles: u64,
    pub irq_pending: bool,
    pub nmi_pending: bool,
    pub nmi_prev_state: bool,
}

/// The CPU state for a debugger: (A, X, Y, SP, PC, status byte, cycles).
pub fn get_cpu_state(cpu: &CpuRegisters) -> (r: (u8, u8, u8, u8, u16, u8, u64))
    ensures
        r == (cpu.a, cpu.x, cpu.y, cpu.sp, cpu.pc, flags_byte(cpu.flags), cpu.cycles),
{
    (cpu.a, cpu.x, cpu.y, cpu.sp, cpu.pc, pack_cpu_flags(&cpu.flags), cpu.cycles)
}

/// The machine's timing and run state that a save state records.
#[derive(Debug, Clone, Copy, PartialEq, Eq, Structural)]
pub struct MachineState {
    pub region: Region,
    pub current_scanline: u16,
    pub cycle_in_scanline: u16,
    pub frame_count: u64,
    pub running: bool,
}

impl MachineState {
    /// A machine of the given region at the top of its first frame,
    /// stopped.
    pub fn new(region: Region) -> (r: Self)
        ensures
            r == (MachineState {
                region,
                current_scanline: 0,
                cycle_in_scanline: 0,
                frame_count: 0,
                running: false,
            }),
    {
        MachineState { region, current_scanline: 0, cycle_in_scanline: 0, frame_count: 0, running: false }
    }

    /// The video standard.
    pub fn region(&self) -> (r: Region)
        ensures
            r == self.region,
    {
        self.region
    }

    /// Frames run.
    pub fn frame_count(&self) -> (r: u64)
        ensures
            r == self.frame_count,
    {
        self.frame_count
    }

    /// Whether the machine is running.
    pub fn is_running(&self) -> (r: bool)
        ensures
            r == self.running,
    {
        self.running
    }

    /// Stop running.
    pub fn pause(&mut self)
        ensures
            *final(self) == (MachineState { running: false, ..*old(self) }),
    {
        self.running = false;
    }

    /// Run again.
    pub fn resume(&mut self)
        ensures
            *final(self) == (MachineState { running: true, ..*old(self) }),
    {
        self.running = true;
    }

    /// The scanline the beam is on.
    pub fn current_scanline(&self) -> (r: u16)
        ensures
            r == self.current_scanline,
    {
        self.current_scanline
    }

    /// The cycle within the current scanline.
    pub fn cycle_in_scanline(&self) -> (r: u16)
        ensures
            r == self.cycle_in_scanline,
    {
        self.cycle_in_scanline
    }

    /// Put the beam at a scanline and cycle.
    pub fn set_scanline_state(&mut self, scanline: u16, cycle: u16)
        ensures
            *final(self) == (MachineState {
                current_scanline: scanline,
                cycle_in_scanline: cycle,
                ..*old(self)
            }),
    {
        self.current_scanline = scanline;
        self.cycle_in_scanline = cycle;
    }

    /// Set the frame count.
    pub fn set_frame_count(&mut self, count: u64)
        ensures
            *final(self) == (MachineState { frame_count: count, ..*old(self) }),
    {
        self.frame_count = count;
    }
}

/// The region as a save state records it: 0 for PAL, 1 for NTSC.
pub open spec fn region_byte(r: Region) -> u8 {
    match r {
        Region::PAL => 0,
        Region::NTSC => 1,
    }
}

/// The region a recorded byte names: 0 is PAL, anything else NTSC.
pub open spec fn region_of_byte(b: u8) -> Region {
    if b == 0 {
        Region::PAL
    } else {
        Region::NTSC
    }
}

/// `s` records the machine: the CPU and system values as given, the RAM,
/// port, chips, colour RAM (as the bus reads it, high nibble set),
/// keyboard matrix (bit `row * 8 + col`) and joystick ports.
pub open spec fn captured_machine(
    s: SaveStateView,
    cpu: CpuRegisters,
    m: C64MemoryView,
    joy: JoystickPortsView,
    machine: MachineState,
    sample_bits: u32,
    timestamp: u64,
) -> bool {
    &&& s.version == SAVESTATE_VERSION
    &&& s.timestamp == timestamp
    &&& s.cpu_a == cpu.a
    &&& s.cpu_x == cpu.x
    &&& s.cpu_y == cpu.y
    &&& s.cpu_sp == cpu.sp
    &&& s.cpu_pc == cpu.pc
    &&& s.cpu_flags == flags_byte(cpu.flags)
    &&& s.cpu_cycles == cpu.cycles
    &&& s.cpu_irq_pending == cpu.irq_pending
    &&& s.cpu_nmi_pending == cpu.nmi_pending
    &&& s.cpu_nmi_prev_state == cpu.nmi_prev_state
    &&& s.ram == m.ram
    &&& s.port_ddr == m.port.ddr
    &&& s.port_data == m.port.data
    &&& s.port_external == 0
    &&& s.vic_registers == m.vic.registers
    &&& s.vic_raster == m.vic.raster
    &&& s.vic_cycle_in_line == 0
    &&& s.vic_collision_ss == m.vic.collision_ss
    &&& s.vic_collision_sb == m.vic.collision_sb
    &&& s.vic_irq_pending == m.vic.irq_pending
    &&& s.sid_voices == m.sid.voices.map_values(|v: SidVoice| sid_voice_state_of(v))
    &&& s.sid_filter == sid_filter_state_of(m.sid.filter)
    &&& s.sid_volume == m.sid.volume
    &&& s.sid_sample_accumulator_bits == sample_bits
    &&& s.sid_audio_enabled == m.sid.audio_enabled
    &&& s.cia1 == cia_captured(m.cia1)
    &&& s.cia2 == cia_captured(m.cia2)
    &&& s.color_ram == m.color_ram.map_values(|c: u8| c | 0xF0)
    &&& forall|row: int, col: int|
        0 <= row < 8 && 0 <= col < 8 ==> u64_bit(s.keyboard_matrix, row * 8 + col)
            == m.keyboard[row][col]
    &&& s.joystick1 == joy.port1
    &&& s.joystick2 == joy.port2
    &&& s.joystick_swapped == joy.swapped
    &&& s.region == region_byte(machine.region)
    &&& s.current_scanline == machine.current_scanline
    &&& s.cycle_in_scanline == machine.cycle_in_scanline
    &&& s.frame_count == machine.frame_count
    &&& s.running == machine.running
}

/// The CPU state a save state restores.
pub open spec fn cpu_restored(s: SaveStateView) -> CpuRegisters {
    CpuRegisters {
        a: s.cpu_a,
        x: s.cpu_x,
        y: s.cpu_y,
        sp: s.cpu_sp,
        pc: s.cpu_pc,
        flags: flags_of_byte(s.cpu_flags),
        cycles: s.cpu_cycles,
        irq_pending: s.cpu_irq_pending,
        nmi_pending: s.cpu_nmi_pending,
        nmi_prev_state: s.cpu_nmi_prev_state,
    }
}

/// The machine state a save state restores.
pub open spec fn machine_restored(s: SaveStateView) -> MachineState {
    MachineState {
        region: region_of_byte(s.region),
        current_scanline: s.current_scanline,
        cycle_in_scanline: s.cycle_in_scanline,
        frame_count: s.frame_count,
        running: s.running,
    }
}

/// The joystick ports a save state restores (the five button bits of
/// each).
pub open spec fn joysticks_restored(s: SaveStateView) -> JoystickPortsView {
    JoystickPortsView {
        port1: s.joystick1 & 0x1F,
        port2: s.joystick2 & 0x1F,
        swapped: s.joystick_swapped,
    }
}

/// CIA1 with its joystick lines driven from the ports: physical port 2
/// on port A, physical port 1 on port B, active low in the five low bits.
pub open spec fn joystick_synced(c: CiaView, joy: JoystickPortsView) -> CiaView {
    CiaView {
        external_a: (c.external_a & 0xE0) | (!joy.port2 & 0x1F),
        external_b: (c.external_b & 0xE0) | (!joy.port1 & 0x1F),
        ..c
    }
}

/// The key matrix a packed word holds.
pub open spec fn keyboard_of(packed: u64) -> Seq<Seq<bool>> {
    Seq::new(8, |row: int| Seq::new(8, |col: int| u64_bit(packed, row * 8 + col)))
}

/// The memory system after restoring `s` into `m`: RAM, port registers,
/// chips, colour RAM (low nibbles), keyboard and the joystick lines of
/// CIA1 come from the save state; the ROMs, the port's external input, the
/// VIC-II's cycle counter and framebuffer stay.
pub open spec fn memory_restored(m: C64MemoryView, s: SaveStateView) -> C64MemoryView {
    C64MemoryView {
        ram: s.ram,
        port: Port6510View { ddr: s.port_ddr, data: s.port_data, ..m.port },
        vic: VicView {
            registers: s.vic_registers,
            raster: s.vic_raster,
            collision_ss: s.vic_collision_ss,
            collision_sb: s.vic_collision_sb,
            irq_pending: s.vic_irq_pending,
            ..m.vic
        },
        sid: SidView {
            voices: s.sid_voices.map_values(|v: SidVoiceState| sid_voice_of(v)),
            filter: sid_filter_of(s.sid_filter),
            volume: s.sid_volume,
            audio_enabled: s.sid_audio_enabled,
        },
        cia1: joystick_synced(cia_restored(m.cia1, s.cia1), joysticks_restored(s)),
        cia2: cia_restored(m.cia2, s.cia2),
        color_ram: s.color_ram.map_values(|c: u8| c & 0x0F),
        keyboard: keyboard_of(s.keyboard_matrix),
        ..m
    }
}

impl C64Memory {
    /// Drive CIA1's joystick lines from the ports: physical port 1 on port
    /// B, physical port 2 on port A.
    pub fn sync_joysticks(&mut self, ports: &JoystickPorts)
        ensures
            final(self)@ == (C64MemoryView {
                cia1: joystick_synced(old(self)@.cia1, ports@),
                ..old(self)@
            }),
    {
        self.cia1.set_joystick_port_b(ports.physical_port1().get());
        self.cia1.set_joystick_port_a(ports.physical_port2().get());
    }
}

impl SaveState {
    /// Capture the machine: the CPU state and the machine's timing as
    /// given, and everything the memory system holds but the ROMs and the
    /// framebuffer.
    pub fn capture(
        cpu: &CpuRegisters,
        memory: &C64Memory,
        joysticks: &JoystickPorts,
        machine: &MachineState,
        sid_sample_accumulator_bits: u32,
        timestamp: u64,
    ) -> (r: SaveState)
        ensures
            captured_machine(
                r@,
                *cpu,
                memory@,
                joysticks@,
                *machine,
                sid_sample_accumulator_bits,
                timestamp,
            ),
    {
        let mut ram = [0u8; 65536];
        copy_into(&mut ram, memory.ram.as_slice(), 0);
        let vic_registers = memory.vic.get_all_registers();
        proof {
            Sid6581::lemma_voice_count(&memory.sid);
        }
        let v0 = capture_sid_voice(memory.sid.voice(0).unwrap());
        let v1 = capture_sid_voice(memory.sid.voice(1).unwrap());
        let v2 = capture_sid_voice(memory.sid.voice(2).unwrap());
        let sid_voices = [v0, v1, v2];
        let mut color_ram = [0u8; 1024];
        proof {
            crate::devices::color_ram::ColorRam::lemma_size(&memory.color_ram);
        }
        let mut i: usize = 0;
        while i < 1024
            invariant
                i <= 1024,
                memory.color_ram@.len() == COLOR_RAM_SIZE,
                forall|j: int| 0 <= j < i ==> color_ram@[j] == memory.color_ram@[j] | 0xF0,
            decreases 1024 - i,
        {
            color_ram[i] = memory.color_ram.read(i as u16);
            i += 1;
        }
        let keyboard_matrix = pack_keyboard(&memory.keyboard);
        let (joystick1, joystick2, joystick_swapped) = joysticks.capture_joystick_state();
        let region: u8 = match machine.region {
            Region::PAL => 0,
            Region::NTSC => 1,
        };
        let r = SaveState {
            version: SAVESTATE_VERSION,
            timestamp,
            cpu_a: cpu.a,
            cpu_x: cpu.x,
            cpu_y: cpu.y,
            cpu_sp: cpu.sp,
            cpu_pc: cpu.pc,
            cpu_flags: pack_cpu_flags(&cpu.flags),
            cpu_cycles: cpu.cycles,
            cpu_irq_pending: cpu.irq_pending,
            cpu_nmi_pending: cpu.nmi_pending,
            cpu_nmi_prev_state: cpu.nmi_prev_state,
            ram: Box::new(ram),
            port_ddr: memory.port.ddr(),
            port_data: memory.port.data(),
            port_external: 0,
            vic_registers,
            vic_raster: memory.vic.raster(),
            vic_cycle_in_line: 0,
            vic_collision_ss: memory.vic.collision_ss(),
            vic_collision_sb: memory.vic.collision_sb(),
            vic_irq_pending: memory.vic.irq_pending(),
            sid_voices,
            sid_filter: capture_sid_filter(&memory.sid.filter()),
            sid_volume: memory.sid.volume(),
            sid_sample_accumulator_bits,
            sid_audio_enabled: memory.sid.audio_enabled(),
            cia1: capture_cia(&memory.cia1),
            cia2: capture_cia(&memory.cia2),
            color_ram,
            keyboard_matrix,
            joystick1,
            joystick2,
            joystick_swapped,
            region,
            current_scanline: machine.current_scanline,
            cycle_in_scanline: machine.cycle_in_scanline,
            frame_count: machine.frame_count,
            running: machine.running,
        };
        assert(r@.ram =~= memory@.ram);
        assert(r@.sid_voices =~= memory@.sid.voices.map_values(
            |v: SidVoice| sid_voice_state_of(v),
        ));
        assert(r@.color_ram =~= memory@.color_ram.map_values(|c: u8| c | 0xF0));
        r
    }

    /// Restore the machine from this save state. A state of another
    /// format version is refused with its message and nothing changes.
    /// The SID's output sample accumulator is left to the audio side,
    /// which reads it from `sid_sample_accumulator_bits`.
    pub fn restore(
        &self,
        cpu: &mut CpuRegisters,
        memory: &mut C64Memory,
        joysticks: &mut JoystickPorts,
        machine: &mut MachineState,
    ) -> (r: Result<(), String>)
        ensures
            self.version != SAVESTATE_VERSION ==> {
                &&& r is Err
                &&& r->Err_0@ == version_mismatch_text(self.version)
                &&& *final(cpu) == *old(cpu)
                &&& final(memory)@ == old(memory)@
                &&& final(joysticks)@ == old(joysticks)@
                &&& *final(machine) == *old(machine)
            },
            self.version == SAVESTATE_VERSION ==> {
                &&& r is Ok
                &&& *final(cpu) == cpu_restored(self@)
                &&& final(memory)@ == memory_restored(old(memory)@, self@)
                &&& final(joysticks)@ == joysticks_restored(self@)
                &&& *final(machine) == machine_restored(self@)
            },
    {
        if self.version != SAVESTATE_VERSION {
            return Err(version_mismatch(self.version));
        }
        machine.region = if self.region == 0 {
            Region::PAL
        } else {
            Region::NTSC
        };
        *cpu = CpuRegisters {
            a: self.cpu_a,
            x: self.cpu_x,
            y: self.cpu_y,
            sp: self.cpu_sp,
            pc: self.cpu_pc,
            flags: unpack_cpu_flags(self.cpu_flags),
            cycles: self.cpu_cycles,
            irq_pending: self.cpu_irq_pending,
            nmi_pending: self.cpu_nmi_pending,
            nmi_prev_state: self.cpu_nmi_prev_state,
        };
        let ghost m0 = memory@;
        copy_into(&mut *memory.ram, self.ram.as_slice(), 0);
        memory.port.set_ddr(self.port_ddr);
        memory.port.set_data(self.port_data);
        proof {
            crate::devices::vic_ii::VicII::lemma_sizes(&memory.vic);
            Sid6581::lemma_voice_count(&memory.sid);
        }
        let ghost m1 = memory@;
        let mut i: usize = 0;
        while i < VIC_REGISTER_COUNT
            invariant
                i <= VIC_REGISTER_COUNT,
                memory@ == (C64MemoryView { vic: memory.vic@, ..m1 }),
                memory.vic@ == (VicView {
                    registers: memory.vic@.registers,
                    ..m0.vic
                }),
                memory.vic@.registers.len() == VIC_REGISTER_COUNT,
                forall|j: int| 0 <= j < i ==> memory.vic@.registers[j] == self.vic_registers@[j],
            decreases VIC_REGISTER_COUNT - i,
        {
            memory.vic.write_register(i as u16, self.vic_registers[i]);
            i += 1;
        }
        assert(memory.vic@.registers =~= self.vic_registers@);
        memory.vic.set_raster(self.vic_raster);
        memory.vic.set_collision_ss(self.vic_collision_ss);
        memory.vic.set_collision_sb(self.vic_collision_sb);
        memory.vic.set_irq_pending(self.vic_irq_pending);
        let ghost m2 = memory@;
        let mut k: usize = 0;
        while k < 3
            invariant
                k <= 3,
                memory@ == (C64MemoryView { sid: memory.sid@, ..m2 }),
                memory.sid@.voices.len() == 3,
                memory.sid@.filter == m0.sid.filter,
                memory.sid@.volume == m0.sid.volume,
                memory.sid@.audio_enabled == m0.sid.audio_enabled,
                forall|j: int| 0 <= j < k ==> memory.sid@.voices[j] == sid_voice_of(self.sid_voices@[j]),
            decreases 3 - k,
        {
            let mut voice = *memory.sid.voice(k).unwrap();
            restore_sid_voice(&mut voice, &self.sid_voices[k]);
            memory.sid.set_voice(k, voice);
            k += 1;
        }
        let mut filter = memory.sid.filter();
        restore_sid_filter(&mut filter, &self.sid_filter);
        memory.sid.set_filter(filter);
        memory.sid.set_volume(self.sid_volume);
        memory.sid.set_audio_enabled(self.sid_audio_enabled);
        assert(memory.sid@.voices =~= self.sid_voices@.map_values(
            |v: SidVoiceState| sid_voice_of(v),
        ));
        restore_cia(&mut memory.cia1, &self.cia1);
        restore_cia(&mut memory.cia2, &self.cia2);
        let mut c: usize = 0;
        proof {
            crate::devices::color_ram::ColorRam::lemma_size(&memory.color_ram);
        }
        let ghost m3 = memory@;
        while c < COLOR_RAM_SIZE
            invariant
                c <= COLOR_RAM_SIZE,
                memory@ == (C64MemoryView { color_ram: memory.color_ram@, ..m3 }),
                memory.color_ram@.len() == COLOR_RAM_SIZE,
                forall|j: int| 0 <= j < c ==> memory.color_ram@[j] == self.color_ram@[j] & 0x0F,
            decreases COLOR_RAM_SIZE - c,
        {
            memory.color_ram.write(c as u16, self.color_ram[c]);
            c += 1;
        }
        assert(memory.color_ram@ =~= self.color_ram@.map_values(|x: u8| x & 0x0F));
        unpack_keyboard(&mut memory.keyboard, self.keyboard_matrix);
        assert forall|row: int| 0 <= row < 8 implies #[trigger] memory.keyboard@[row]
            =~= keyboard_of(self.keyboard_matrix)[row] by {}
        assert(memory.keyboard@ =~= keyboard_of(self.keyboard_matrix));
        joysticks.restore_joystick_state(self.joystick1, self.joystick2, self.joystick_swapped);
        memory.sync_joysticks(joysticks);
        machine.current_scanline = self.current_scanline;
        machine.cycle_in_scanline = self.cycle_in_scanline;
        machine.frame_count = self.frame_count;
        machine.running = self.running;
        assert(memory@.ram =~= self.ram@);
        assert(memory@ =~= memory_restored(m0, self@));
        Ok(())
    }
}


/// Restoring a captured machine brings it back: the CPU, the machine's
/// timing and the joystick ports as they were, and the memory system as
/// it was but for what a save state does not hold (the ROMs, the port's
/// external input, the VIC-II's cycle counter and framebuffer), which the
/// machine restored into keeps. The chips must be in a state a running
/// machine keeps: each CIA's timer run and one-shot bits matching its
/// control registers, CIA1's joystick lines driven from the ports,
/// four-bit colour cells and button bits, and each CIA restored into a
/// chip of its own kind.
pub proof fn lemma_capture_restore(
    s: SaveStateView,
    cpu: CpuRegisters,
    m: C64MemoryView,
    joy: JoystickPortsView,
    machine: MachineState,
    sample_bits: u32,
    timestamp: u64,
    into: C64MemoryView,
)
    requires
        captured_machine(s, cpu, m, joy, machine, sample_bits, timestamp),
        forall|i: int| 0 <= i < m.color_ram.len() ==> #[trigger] m.color_ram[i] < 16,
        m.keyboard.len() == 8,
        forall|row: int| 0 <= row < 8 ==> #[trigger] m.keyboard[row].len() == 8,
        joy.port1 < 32,
        joy.port2 < 32,
        m.cia1.timer_a.running == (m.cia1.cra & 0x01 != 0),
        m.cia1.timer_a.one_shot == (m.cia1.cra & 0x08 != 0),
        m.cia1.timer_b.running == (m.cia1.crb & 0x01 != 0),
        m.cia1.timer_b.one_shot == (m.cia1.crb & 0x08 != 0),
        m.cia2.timer_a.running == (m.cia2.cra & 0x01 != 0),
        m.cia2.timer_a.one_shot == (m.cia2.cra & 0x08 != 0),
        m.cia2.timer_b.running == (m.cia2.crb & 0x01 != 0),
        m.cia2.timer_b.one_shot == (m.cia2.crb & 0x08 != 0),
        m.cia1.cia_type == CiaType::Cia1,
        m.cia2.cia_type == CiaType::Cia2,
        joystick_synced(m.cia1, joy) == m.cia1,
        into.cia1.cia_type == CiaType::Cia1,
        into.cia2.cia_type == CiaType::Cia2,
    ensures
        cpu_restored(s) == cpu,
        machine_restored(s) == machine,
        joysticks_restored(s) == joy,
        memory_restored(into, s) == (C64MemoryView {
            basic_rom: into.basic_rom,
            kernal_rom: into.kernal_rom,
            char_rom: into.char_rom,
            roms_loaded: into.roms_loaded,
            port: Port6510View { external: into.port.external, ..m.port },
            vic: VicView {
                cycle_in_line: into.vic.cycle_in_line,
                framebuffer: into.vic.framebuffer,
                ..m.vic
            },
            ..m
        }),
{
    lemma_snapshot_bits(cpu.flags, 0, 0, joy.port1);
    lemma_snapshot_bits(cpu.flags, 0, 0, joy.port2);
    lemma_cia_capture_restore(m.cia1);
    lemma_cia_capture_restore(m.cia2);
    let restored = memory_restored(into, s);
    assert forall|i: int| 0 <= i < m.color_ram.len() implies #[trigger] restored.color_ram[i]
        == m.color_ram[i] by {
        lemma_snapshot_bits(cpu.flags, 0, m.color_ram[i], 0);
    }
    assert(restored.color_ram =~= m.color_ram);
    assert forall|row: int| 0 <= row < 8 implies #[trigger] restored.keyboard[row]
        =~= m.keyboard[row] by {}
    assert(restored.keyboard =~= m.keyboard);
    assert(restored.sid.voices =~= m.sid.voices);
    assert(restored.vic.registers =~= m.vic.registers);
    assert(restored.ram =~= m.ram);
}

} // verus!
