//! The whole-machine save state and its binary format: a 16-byte header
//! (magic "C64S", version, timestamp) followed by the CPU, memory, VIC-II,
//! SID, CIA, colour RAM, keyboard, joystick and system sections.

use vstd::prelude::*;

use super::{
    bool_byte, cia_state_bytes, lemma_cia_state_roundtrip, lemma_sid_filter_state_roundtrip,
    lemma_sid_voice_state_roundtrip, lemma_u64_roundtrip, lemma_word_roundtrips, cia_state_from, deserialize_cia, deserialize_sid_filter,
    deserialize_sid_voice, push_bytes, push_u16, push_u32, push_u64, read_u16, read_u32, read_u64,
    serialize_cia, serialize_sid_filter, serialize_sid_voice, sid_filter_state_bytes,
    sid_filter_state_from, sid_voice_state_bytes, sid_voice_state_from, u16_at, u16_le_bytes,
    u32_at, u32_le_bytes, u64_at, u64_le_bytes, CiaState, SidFilterState, SidVoiceState,
    SAVESTATE_MAGIC, SAVESTATE_VERSION,
};
use crate::text::{decimal, push_decimal};

verus! {

/// Size of the header: magic, version and timestamp.
const HEADER_SIZE: usize = 16;

/// Complete emulator save state. The SID's sample accumulator is kept as
/// the bit pattern of its single-precision value.
#[derive(Debug)]
pub struct SaveState {
    /// Format version.
    pub version: u32,
    /// Unix timestamp of the save.
    pub timestamp: u64,
    /// CPU accumulator.
    pub cpu_a: u8,
    /// CPU X register.
    pub cpu_x: u8,
    /// CPU Y register.
    pub cpu_y: u8,
    /// CPU stack pointer.
    pub cpu_sp: u8,
    /// CPU program counter.
    pub cpu_pc: u16,
    /// CPU status flags (NV-BDIZC).
    pub cpu_flags: u8,
    /// CPU cycle count.
    pub cpu_cycles: u64,
    /// CPU IRQ pending.
    pub cpu_irq_pending: bool,
    /// CPU NMI pending.
    pub cpu_nmi_pending: bool,
    /// Previous NMI line state (edge detection).
    pub cpu_nmi_prev_state: bool,
    /// The 64 KB of RAM.
    pub ram: Box<[u8; 65536]>,
    /// 6510 port direction register.
    pub port_ddr: u8,
    /// 6510 port data register.
    pub port_data: u8,
    /// 6510 port external input.
    pub port_external: u8,
    /// VIC-II registers.
    pub vic_registers: [u8; 47],
    /// VIC-II raster line.
    pub vic_raster: u16,
    /// VIC-II cycle within the line.
    pub vic_cycle_in_line: u8,
    /// VIC-II sprite-sprite collisions.
    pub vic_collision_ss: u8,
    /// VIC-II sprite-background collisions.
    pub vic_collision_sb: u8,
    /// VIC-II IRQ pending.
    pub vic_irq_pending: bool,
    /// The three SID voices.
    pub sid_voices: [SidVoiceState; 3],
    /// The SID filter.
    pub sid_filter: SidFilterState,
    /// SID master volume.
    pub sid_volume: u8,
    /// Bit pattern of the SID sample accumulator.
    pub sid_sample_accumulator_bits: u32,
    /// SID audio enabled.
    pub sid_audio_enabled: bool,
    /// CIA 1.
    pub cia1: CiaState,
    /// CIA 2.
    pub cia2: CiaState,
    /// Colour RAM.
    pub color_ram: [u8; 1024],
    /// Keyboard matrix, bit `row * 8 + col`.
    pub keyboard_matrix: u64,
    /// Joystick port 1.
    pub joystick1: u8,
    /// Joystick port 2.
    pub joystick2: u8,
    /// Joystick ports swapped.
    pub joystick_swapped: bool,
    /// Region (0 PAL, 1 NTSC).
    pub region: u8,
    /// Current scanline.
    pub current_scanline: u16,
    /// Cycle within the scanline.
    pub cycle_in_scanline: u16,
    /// Frames run.
    pub frame_count: u64,
    /// Emulator running.
    pub running: bool,
}

/// Abstract save state: the fields, with the arrays as sequences.
#[verifier::ext_equal]
pub struct SaveStateView {
    pub version: u32,
    pub timestamp: u64,
    pub cpu_a: u8,
    pub cpu_x: u8,
    pub cpu_y: u8,
    pub cpu_sp: u8,
    pub cpu_pc: u16,
    pub cpu_flags: u8,
    pub cpu_cycles: u64,
    pub cpu_irq_pending: bool,
    pub cpu_nmi_pending: bool,
    pub cpu_nmi_prev_state: bool,
    pub ram: Seq<u8>,
    pub port_ddr: u8,
    pub port_data: u8,
    pub port_external: u8,
    pub vic_registers: Seq<u8>,
    pub vic_raster: u16,
    pub vic_cycle_in_line: u8,
    pub vic_collision_ss: u8,
    pub vic_collision_sb: u8,
    pub vic_irq_pending: bool,
    pub sid_voices: Seq<SidVoiceState>,
    pub sid_filter: SidFilterState,
    pub sid_volume: u8,
    pub sid_sample_accumulator_bits: u32,
    pub sid_audio_enabled: bool,
    pub cia1: CiaState,
    pub cia2: CiaState,
    pub color_ram: Seq<u8>,
    pub keyboard_matrix: u64,
    pub joystick1: u8,
    pub joystick2: u8,
    pub joystick_swapped: bool,
    pub region: u8,
    pub current_scanline: u16,
    pub cycle_in_scanline: u16,
    pub frame_count: u64,
    pub running: bool,
}

impl View for SaveState {
    type V = SaveStateView;

    open spec fn view(&self) -> SaveStateView {
        SaveStateView {
            version: self.version,
            timestamp: self.timestamp,
            cpu_a: self.cpu_a,
            cpu_x: self.cpu_x,
            cpu_y: self.cpu_y,
            cpu_sp: self.cpu_sp,
            cpu_pc: self.cpu_pc,
            cpu_flags: self.cpu_flags,
            cpu_cycles: self.cpu_cycles,
            cpu_irq_pending: self.cpu_irq_pending,
            cpu_nmi_pending: self.cpu_nmi_pending,
            cpu_nmi_prev_state: self.cpu_nmi_prev_state,
            ram: self.ram@,
            port_ddr: self.port_ddr,
            port_data: self.port_data,
            port_external: self.port_external,
            vic_registers: self.vic_registers@,
            vic_raster: self.vic_raster,
            vic_cycle_in_line: self.vic_cycle_in_line,
            vic_collision_ss: self.vic_collision_ss,
            vic_collision_sb: self.vic_collision_sb,
            vic_irq_pending: self.vic_irq_pending,
            sid_voices: self.sid_voices@,
            sid_filter: self.sid_filter,
            sid_volume: self.sid_volume,
            sid_sample_accumulator_bits: self.sid_sample_accumulator_bits,
            sid_audio_enabled: self.sid_audio_enabled,
            cia1: self.cia1,
            cia2: self.cia2,
            color_ram: self.color_ram@,
            keyboard_matrix: self.keyboard_matrix,
            joystick1: self.joystick1,
            joystick2: self.joystick2,
            joystick_swapped: self.joystick_swapped,
            region: self.region,
            current_scanline: self.current_scanline,
            cycle_in_scanline: self.cycle_in_scanline,
            frame_count: self.frame_count,
            running: self.running,
        }
    }
}

/// Header: magic, version, timestamp (16 bytes).
pub open spec fn header_bytes(v: SaveStateView) -> Seq<u8> {
    SAVESTATE_MAGIC@ + u32_le_bytes(v.version) + u64_le_bytes(v.timestamp)
}

/// CPU section (18 bytes).
pub open spec fn cpu_bytes(v: SaveStateView) -> Seq<u8> {
    seq![v.cpu_a, v.cpu_x, v.cpu_y, v.cpu_sp] + u16_le_bytes(v.cpu_pc) + seq![v.cpu_flags]
        + u64_le_bytes(v.cpu_cycles) + seq![
        bool_byte(v.cpu_irq_pending),
        bool_byte(v.cpu_nmi_pending),
        bool_byte(v.cpu_nmi_prev_state),
    ]
}

/// Memory section: RAM then the three port registers.
pub open spec fn memory_bytes(v: SaveStateView) -> Seq<u8> {
    v.ram + seq![v.port_ddr, v.port_data, v.port_external]
}

/// VIC-II section: registers, raster, cycle, collisions, IRQ (53 bytes).
pub open spec fn vic_bytes(v: SaveStateView) -> Seq<u8> {
    v.vic_registers + u16_le_bytes(v.vic_raster) + seq![
        v.vic_cycle_in_line,
        v.vic_collision_ss,
        v.vic_collision_sb,
        bool_byte(v.vic_irq_pending),
    ]
}

/// SID section: three voices, filter, volume, sample accumulator, audio
/// flag (85 bytes).
pub open spec fn sid_bytes(v: SaveStateView) -> Seq<u8> {
    sid_voice_state_bytes(v.sid_voices[0]) + sid_voice_state_bytes(v.sid_voices[1])
        + sid_voice_state_bytes(v.sid_voices[2]) + sid_filter_state_bytes(v.sid_filter) + seq![
        v.sid_volume,
    ] + u32_le_bytes(v.sid_sample_accumulator_bits) + seq![bool_byte(v.sid_audio_enabled)]
}

/// The two CIAs (78 bytes).
pub open spec fn cias_bytes(v: SaveStateView) -> Seq<u8> {
    cia_state_bytes(v.cia1) + cia_state_bytes(v.cia2)
}

/// Keyboard, joysticks and system section (25 bytes).
pub open spec fn tail_bytes(v: SaveStateView) -> Seq<u8> {
    u64_le_bytes(v.keyboard_matrix) + seq![
        v.joystick1,
        v.joystick2,
        bool_byte(v.joystick_swapped),
        v.region,
    ] + u16_le_bytes(v.current_scanline) + u16_le_bytes(v.cycle_in_scanline) + u64_le_bytes(
        v.frame_count,
    ) + seq![bool_byte(v.running)]
}

/// The serialized form of a save state.
pub open spec fn save_state_bytes(v: SaveStateView) -> Seq<u8> {
    header_bytes(v) + cpu_bytes(v) + memory_bytes(v) + vic_bytes(v) + sid_bytes(v) + cias_bytes(v)
        + v.color_ram + tail_bytes(v)
}

impl SaveState {
    /// Approximate serialized size, used as the buffer's initial capacity.
    pub fn estimated_size() -> (r: usize)
        ensures
            r == 66864,
    {
        HEADER_SIZE + 20 + 65536 + 3 + 53 + (3 * 24) + 18 + (2 * 48) + 1024 + 8 + 3 + 15
    }

    /// Serialize: header, then each section in order.
    pub fn serialize(&self) -> (r: Vec<u8>)
        ensures
            r@ == save_state_bytes(self@),
    {
        let mut data: Vec<u8> = Vec::with_capacity(Self::estimated_size());
        self.push_header(&mut data);
        self.push_cpu(&mut data);
        self.push_memory(&mut data);
        self.push_vic(&mut data);
        self.push_sid(&mut data);
        serialize_cia(&mut data, &self.cia1);
        serialize_cia(&mut data, &self.cia2);
        push_bytes(&mut data, self.color_ram.as_slice());
        self.push_tail(&mut data);
        assert(data@ =~= save_state_bytes(self@));
        data
    }

    fn push_header(&self, data: &mut Vec<u8>)
        ensures
            final(data)@ == old(data)@ + header_bytes(self@),
    {
        push_bytes(data, SAVESTATE_MAGIC.as_slice());
        push_u32(data, self.version);
        push_u64(data, self.timestamp);
        assert(data@ =~= old(data)@ + header_bytes(self@));
    }

    fn push_cpu(&self, data: &mut Vec<u8>)
        ensures
            final(data)@ == old(data)@ + cpu_bytes(self@),
    {
        data.push(self.cpu_a);
        data.push(self.cpu_x);
        data.push(self.cpu_y);
        data.push(self.cpu_sp);
        push_u16(data, self.cpu_pc);
        data.push(self.cpu_flags);
        push_u64(data, self.cpu_cycles);
        data.push(if self.cpu_irq_pending { 1 } else { 0 });
        data.push(if self.cpu_nmi_pending { 1 } else { 0 });
        data.push(if self.cpu_nmi_prev_state { 1 } else { 0 });
        assert(data@ =~= old(data)@ + cpu_bytes(self@));
    }

    fn push_memory(&self, data: &mut Vec<u8>)
        ensures
            final(data)@ == old(data)@ + memory_bytes(self@),
    {
        push_bytes(data, self.ram.as_slice());
        data.push(self.port_ddr);
        data.push(self.port_data);
        data.push(self.port_external);
        assert(data@ =~= old(data)@ + memory_bytes(self@));
    }

    fn push_vic(&self, data: &mut Vec<u8>)
        ensures
            final(data)@ == old(data)@ + vic_bytes(self@),
    {
        push_bytes(data, self.vic_registers.as_slice());
        push_u16(data, self.vic_raster);
        data.push(self.vic_cycle_in_line);
        data.push(self.vic_collision_ss);
        data.push(self.vic_collision_sb);
        data.push(if self.vic_irq_pending { 1 } else { 0 });
        assert(data@ =~= old(data)@ + vic_bytes(self@));
    }

    fn push_sid(&self, data: &mut Vec<u8>)
        ensures
            final(data)@ == old(data)@ + sid_bytes(self@),
    {
        serialize_sid_voice(data, &self.sid_voices[0]);
        serialize_sid_voice(data, &self.sid_voices[1]);
        serialize_sid_voice(data, &self.sid_voices[2]);
        serialize_sid_filter(data, &self.sid_filter);
        data.push(self.sid_volume);
        push_u32(data, self.sid_sample_accumulator_bits);
        data.push(if self.sid_audio_enabled { 1 } else { 0 });
        assert(data@ =~= old(data)@ + sid_bytes(self@));
    }

    fn push_tail(&self, data: &mut Vec<u8>)
        ensures
            final(data)@ == old(data)@ + tail_bytes(self@),
    {
        push_u64(data, self.keyboard_matrix);
        data.push(self.joystick1);
        data.push(self.joystick2);
        data.push(if self.joystick_swapped { 1 } else { 0 });
        data.push(self.region);
        push_u16(data, self.current_scanline);
        push_u16(data, self.cycle_in_scanline);
        push_u64(data, self.frame_count);
        data.push(if self.running { 1 } else { 0 });
        assert(data@ =~= old(data)@ + tail_bytes(self@));
    }

    /// The length of the serialized state.
    pub fn serialized_size(&self) -> (r: usize)
        ensures
            r == save_state_bytes(self@).len(),
    {
        self.serialize().len()
    }
}


/// The first four bytes are the magic number.
pub open spec fn magic_ok(b: Seq<u8>) -> bool {
    &&& b[0] == SAVESTATE_MAGIC@[0]
    &&& b[1] == SAVESTATE_MAGIC@[1]
    &&& b[2] == SAVESTATE_MAGIC@[2]
    &&& b[3] == SAVESTATE_MAGIC@[3]
}

/// The message for a version other than the current one.
pub open spec fn version_mismatch_text(found: u32) -> Seq<char> {
    "Incompatible save state version: expected "@ + decimal(SAVESTATE_VERSION as nat) + ", got "@
        + decimal(found as nat)
}

/// The decoder reaches a result on `b`: it is rejected by the header, or
/// it ends where a size check fails (in the RAM, SID voice/filter or CIA
/// sections), or it holds a complete state. On the other lengths the
/// sections between those checks would be read past the end.
pub open spec fn save_state_decodable(b: Seq<u8>) -> bool {
    ||| b.len() < 16
    ||| !magic_ok(b)
    ||| u32_at(b, 4) != SAVESTATE_VERSION
    ||| 34 <= b.len() < 65570
    ||| 65626 <= b.len() < 65705
    ||| 65711 <= b.len() < 65789
    ||| b.len() >= 66838
}

/// The save state held by a complete encoding `b`.
pub open spec fn save_state_from(b: Seq<u8>) -> SaveStateView {
    SaveStateView {
        version: u32_at(b, 4),
        timestamp: u64_at(b, 8),
        cpu_a: b[16],
        cpu_x: b[17],
        cpu_y: b[18],
        cpu_sp: b[19],
        cpu_pc: u16_at(b, 20),
        cpu_flags: b[22],
        cpu_cycles: u64_at(b, 23),
        cpu_irq_pending: b[31] != 0,
        cpu_nmi_pending: b[32] != 0,
        cpu_nmi_prev_state: b[33] != 0,
        ram: b.subrange(34, 65570),
        port_ddr: b[65570],
        port_data: b[65571],
        port_external: b[65572],
        vic_registers: b.subrange(65573, 65620),
        vic_raster: u16_at(b, 65620),
        vic_cycle_in_line: b[65622],
        vic_collision_ss: b[65623],
        vic_collision_sb: b[65624],
        vic_irq_pending: b[65625] != 0,
        sid_voices: seq![
            sid_voice_state_from(b, 65626),
            sid_voice_state_from(b, 65648),
            sid_voice_state_from(b, 65670),
        ],
        sid_filter: sid_filter_state_from(b, 65692),
        sid_volume: b[65705],
        sid_sample_accumulator_bits: u32_at(b, 65706),
        sid_audio_enabled: b[65710] != 0,
        cia1: cia_state_from(b, 65711),
        cia2: cia_state_from(b, 65750),
        color_ram: b.subrange(65789, 66813),
        keyboard_matrix: u64_at(b, 66813),
        joystick1: b[66821],
        joystick2: b[66822],
        joystick_swapped: b[66823] != 0,
        region: b[66824],
        current_scanline: u16_at(b, 66825),
        cycle_in_scanline: u16_at(b, 66827),
        frame_count: u64_at(b, 66829),
        running: b[66837] != 0,
    }
}

/// What decoding `b` gives: the header checks (size, magic, version), then
/// the size checks of the RAM, SID voice, SID filter and CIA sections in
/// stream order, and otherwise the state held by `b`.
pub open spec fn deserialize_outcome(b: Seq<u8>) -> Result<SaveStateView, Seq<char>> {
    if b.len() < 16 {
        Err("Save state too small"@)
    } else if !magic_ok(b) {
        Err("Invalid save state magic number"@)
    } else if u32_at(b, 4) != SAVESTATE_VERSION {
        Err(version_mismatch_text(u32_at(b, 4)))
    } else if b.len() < 65570 {
        Err("Save state truncated at RAM"@)
    } else if b.len() < 65694 {
        Err("Save state truncated at SID voice"@)
    } else if b.len() < 65705 {
        Err("Save state truncated at SID filter"@)
    } else if b.len() < 65789 {
        Err("Save state truncated at CIA"@)
    } else {
        Ok(save_state_from(b))
    }
}

/// The message for a version other than the current one.
pub(crate) fn version_mismatch(version: u32) -> (msg: String)
    ensures
        msg@ == version_mismatch_text(version),
{
    let mut msg = String::new();
    msg.append("Incompatible save state version: expected ");
    push_decimal(&mut msg, SAVESTATE_VERSION as u64);
    msg.append(", got ");
    push_decimal(&mut msg, version as u64);
    assert(msg@ =~= version_mismatch_text(version));
    msg
}

/// Copy `N` bytes of `src` from `at` into `dst`.
pub(crate) fn copy_into<const N: usize>(dst: &mut [u8; N], src: &[u8], at: usize)
    requires
        at + N <= src@.len(),
    ensures
        final(dst)@ == src@.subrange(at as int, at + N),
{
    let len = src.len();
    let mut i: usize = 0;
    while i < N
        invariant
            i <= N,
            at + N <= len,
            len == src@.len(),
            dst@.len() == N,
            forall|j: int| 0 <= j < i ==> dst@[j] == src@[at + j],
        decreases N - i,
    {
        dst[i] = src[at + i];
        i += 1;
    }
    assert(dst@ =~= src@.subrange(at as int, at + N));
}

impl SaveState {
    /// Whether `deserialize` reaches a result on these bytes: they are
    /// refused by the header, stop at a failed size check, or hold a
    /// complete state.
    pub fn is_decodable(data: &[u8]) -> (r: bool)
        ensures
            r == save_state_decodable(data@),
    {
        let n = data.len();
        if n < HEADER_SIZE {
            return true;
        }
        if data[0] != SAVESTATE_MAGIC[0] || data[1] != SAVESTATE_MAGIC[1] || data[2]
            != SAVESTATE_MAGIC[2] || data[3] != SAVESTATE_MAGIC[3] {
            return true;
        }
        if read_u32(data, 4) != SAVESTATE_VERSION {
            return true;
        }
        (34 <= n && n < 65570) || (65626 <= n && n < 65705) || (65711 <= n && n < 65789) || n
            >= 66838
    }
}

impl SaveState {
    /// Decode a save state: check the header, then read the sections in
    /// order; a section that does not fit gives the error of its check.
    #[verifier::rlimit(60)]
    pub fn deserialize(data: &[u8]) -> (r: Result<SaveState, String>)
        requires
            save_state_decodable(data@),
        ensures
            match r {
                Ok(s) => deserialize_outcome(data@) == Ok::<SaveStateView, Seq<char>>(s@),
                Err(e) => deserialize_outcome(data@) == Err::<SaveStateView, Seq<char>>(e@),
            },
    {
        if data.len() < HEADER_SIZE {
            return Err("Save state too small".to_owned());
        }
        if data[0] != SAVESTATE_MAGIC[0] || data[1] != SAVESTATE_MAGIC[1] || data[2]
            != SAVESTATE_MAGIC[2] || data[3] != SAVESTATE_MAGIC[3] {
            return Err("Invalid save state magic number".to_owned());
        }
        let version = read_u32(data, 4);
        if version != SAVESTATE_VERSION {
            return Err(version_mismatch(version));
        }
        let timestamp = read_u64(data, 8);
        let cpu_a = data[16];
        let cpu_x = data[17];
        let cpu_y = data[18];
        let cpu_sp = data[19];
        let cpu_pc = read_u16(data, 20);
        let cpu_flags = data[22];
        let cpu_cycles = read_u64(data, 23);
        let cpu_irq_pending = data[31] != 0;
        let cpu_nmi_pending = data[32] != 0;
        let cpu_nmi_prev_state = data[33] != 0;
        if data.len() < 34 + 65536 {
            return Err("Save state truncated at RAM".to_owned());
        }
        let mut ram = [0u8; 65536];
        copy_into(&mut ram, data, 34);
        let port_ddr = data[65570];
        let port_data = data[65571];
        let port_external = data[65572];
        let mut vic_registers = [0u8; 47];
        copy_into(&mut vic_registers, data, 65573);
        let vic_raster = read_u16(data, 65620);
        let vic_cycle_in_line = data[65622];
        let vic_collision_ss = data[65623];
        let vic_collision_sb = data[65624];
        let vic_irq_pending = data[65625] != 0;
        let mut pos: usize = 65626;
        let voice0 = match deserialize_sid_voice(data, &mut pos) {
            Ok(v) => v,
            Err(e) => {
                return Err(e);
            },
        };
        let voice1 = match deserialize_sid_voice(data, &mut pos) {
            Ok(v) => v,
            Err(e) => {
                return Err(e);
            },
        };
        let voice2 = match deserialize_sid_voice(data, &mut pos) {
            Ok(v) => v,
            Err(e) => {
                return Err(e);
            },
        };
        let sid_filter = match deserialize_sid_filter(data, &mut pos) {
            Ok(f) => f,
            Err(e) => {
                return Err(e);
            },
        };
        let sid_volume = data[65705];
        let sid_sample_accumulator_bits = read_u32(data, 65706);
        let sid_audio_enabled = data[65710] != 0;
        pos = 65711;
        let cia1 = match deserialize_cia(data, &mut pos) {
            Ok(c) => c,
            Err(e) => {
                return Err(e);
            },
        };
        let cia2 = match deserialize_cia(data, &mut pos) {
            Ok(c) => c,
            Err(e) => {
                return Err(e);
            },
        };
        let mut color_ram = [0u8; 1024];
        copy_into(&mut color_ram, data, 65789);
        let keyboard_matrix = read_u64(data, 66813);
        let joystick1 = data[66821];
        let joystick2 = data[66822];
        let joystick_swapped = data[66823] != 0;
        let region = data[66824];
        let current_scanline = read_u16(data, 66825);
        let cycle_in_scanline = read_u16(data, 66827);
        let frame_count = read_u64(data, 66829);
        let running = data[66837] != 0;
        let s = SaveState {
            version,
            timestamp,
            cpu_a,
            cpu_x,
            cpu_y,
            cpu_sp,
            cpu_pc,
            cpu_flags,
            cpu_cycles,
            cpu_irq_pending,
            cpu_nmi_pending,
            cpu_nmi_prev_state,
            ram: Box::new(ram),
            port_ddr,
            port_data,
            port_external,
            vic_registers,
            vic_raster,
            vic_cycle_in_line,
            vic_collision_ss,
            vic_collision_sb,
            vic_irq_pending,
            sid_voices: [voice0, voice1, voice2],
            sid_filter,
            sid_volume,
            sid_sample_accumulator_bits,
            sid_audio_enabled,
            cia1,
            cia2,
            color_ram,
            keyboard_matrix,
            joystick1,
            joystick2,
            joystick_swapped,
            region,
            current_scanline,
            cycle_in_scanline,
            frame_count,
            running,
        };
        assert(s@.sid_voices =~= save_state_from(data@).sid_voices);
        assert(s@ =~= save_state_from(data@));
        Ok(s)
    }
}


proof fn lemma_u16_in(b: Seq<u8>, p: int, x: u16)
    requires
        0 <= p,
        p + 2 <= b.len(),
        b.subrange(p, p + 2) == u16_le_bytes(x),
    ensures
        u16_at(b, p) == x,
{
    let e = u16_le_bytes(x);
    assert(b[p] == e[0] && b[p + 1] == e[1]) by {
        assert(b[p] == b.subrange(p, p + 2)[0]);
        assert(b[p + 1] == b.subrange(p, p + 2)[1]);
    }
    lemma_word_roundtrips(x, 0);
}

proof fn lemma_u32_in(b: Seq<u8>, p: int, x: u32)
    requires
        0 <= p,
        p + 4 <= b.len(),
        b.subrange(p, p + 4) == u32_le_bytes(x),
    ensures
        u32_at(b, p) == x,
{
    let e = u32_le_bytes(x);
    let w = b.subrange(p, p + 4);
    assert(b[p] == w[0] && b[p + 1] == w[1] && b[p + 2] == w[2] && b[p + 3] == w[3]);
    lemma_word_roundtrips(0, x);
}

proof fn lemma_u64_in(b: Seq<u8>, p: int, x: u64)
    requires
        0 <= p,
        p + 8 <= b.len(),
        b.subrange(p, p + 8) == u64_le_bytes(x),
    ensures
        u64_at(b, p) == x,
{
    let w = b.subrange(p, p + 8);
    assert(b[p] == w[0] && b[p + 1] == w[1] && b[p + 2] == w[2] && b[p + 3] == w[3] && b[p + 4]
        == w[4] && b[p + 5] == w[5] && b[p + 6] == w[6] && b[p + 7] == w[7]);
    lemma_u64_roundtrip(x);
}

proof fn lemma_voice_in(b: Seq<u8>, p: int, x: SidVoiceState)
    requires
        0 <= p,
        p + 22 <= b.len(),
        b.subrange(p, p + 22) == sid_voice_state_bytes(x),
    ensures
        sid_voice_state_from(b, p) == x,
{
    let pre = b.subrange(0, p);
    let rest = b.subrange(p + 22, b.len() as int);
    lemma_sid_voice_state_roundtrip(pre, x, rest);
    assert(b =~= pre + sid_voice_state_bytes(x) + rest);
}

proof fn lemma_filter_in(b: Seq<u8>, p: int, x: SidFilterState)
    requires
        0 <= p,
        p + 13 <= b.len(),
        b.subrange(p, p + 13) == sid_filter_state_bytes(x),
    ensures
        sid_filter_state_from(b, p) == x,
{
    let pre = b.subrange(0, p);
    let rest = b.subrange(p + 13, b.len() as int);
    lemma_sid_filter_state_roundtrip(pre, x, rest);
    assert(b =~= pre + sid_filter_state_bytes(x) + rest);
}

proof fn lemma_cia_in(b: Seq<u8>, p: int, x: CiaState)
    requires
        0 <= p,
        p + 39 <= b.len(),
        b.subrange(p, p + 39) == cia_state_bytes(x),
    ensures
        cia_state_from(b, p) == x,
{
    let pre = b.subrange(0, p);
    let rest = b.subrange(p + 39, b.len() as int);
    lemma_cia_state_roundtrip(pre, x, rest);
    assert(b =~= pre + cia_state_bytes(x) + rest);
}

proof fn lemma_header_section(b: Seq<u8>, v: SaveStateView)
    requires
        b.len() >= 16,
        b.subrange(0, 16) == header_bytes(v),
    ensures
        magic_ok(b),
        u32_at(b, 4) == v.version,
        u64_at(b, 8) == v.timestamp,
{
    let w = b.subrange(0, 16);
    assert(SAVESTATE_MAGIC@.len() == 4);
    assert(w.subrange(0, 4) =~= SAVESTATE_MAGIC@);
    assert(w.subrange(4, 8) =~= u32_le_bytes(v.version));
    assert(w.subrange(8, 16) =~= u64_le_bytes(v.timestamp));
    assert(w[0] == SAVESTATE_MAGIC@[0] && w[1] == SAVESTATE_MAGIC@[1] && w[2] == SAVESTATE_MAGIC@[2]
        && w[3] == SAVESTATE_MAGIC@[3]) by {
        assert(w[0] == w.subrange(0, 4)[0]);
        assert(w[1] == w.subrange(0, 4)[1]);
        assert(w[2] == w.subrange(0, 4)[2]);
        assert(w[3] == w.subrange(0, 4)[3]);
    }
    lemma_u32_in(w, 4, v.version);
    lemma_u64_in(w, 8, v.timestamp);
    assert(b[0] == w[0] && b[1] == w[1] && b[2] == w[2] && b[3] == w[3]);
    assert(b[4] == w[4] && b[5] == w[5] && b[6] == w[6] && b[7] == w[7]);
    assert(b[8] == w[8] && b[9] == w[9] && b[10] == w[10] && b[11] == w[11] && b[12] == w[12]
        && b[13] == w[13] && b[14] == w[14] && b[15] == w[15]);
}

proof fn lemma_cpu_section(b: Seq<u8>, v: SaveStateView)
    requires
        b.len() >= 34,
        b.subrange(16, 34) == cpu_bytes(v),
    ensures
        b[16] == v.cpu_a && b[17] == v.cpu_x && b[18] == v.cpu_y && b[19] == v.cpu_sp,
        u16_at(b, 20) == v.cpu_pc,
        b[22] == v.cpu_flags,
        u64_at(b, 23) == v.cpu_cycles,
        (b[31] != 0) == v.cpu_irq_pending,
        (b[32] != 0) == v.cpu_nmi_pending,
        (b[33] != 0) == v.cpu_nmi_prev_state,
{
    let w = b.subrange(16, 34);
    assert(w.subrange(4, 6) =~= u16_le_bytes(v.cpu_pc));
    assert(w.subrange(7, 15) =~= u64_le_bytes(v.cpu_cycles));
    lemma_u16_in(w, 4, v.cpu_pc);
    lemma_u64_in(w, 7, v.cpu_cycles);
    assert(w[0] == v.cpu_a && w[1] == v.cpu_x && w[2] == v.cpu_y && w[3] == v.cpu_sp && w[6]
        == v.cpu_flags);
    assert(w[15] == bool_byte(v.cpu_irq_pending) && w[16] == bool_byte(v.cpu_nmi_pending) && w[17]
        == bool_byte(v.cpu_nmi_prev_state));
    assert(b[16] == w[0] && b[17] == w[1] && b[18] == w[2] && b[19] == w[3] && b[20] == w[4]
        && b[21] == w[5] && b[22] == w[6]);
    assert(b[23] == w[7] && b[24] == w[8] && b[25] == w[9] && b[26] == w[10] && b[27] == w[11]
        && b[28] == w[12] && b[29] == w[13] && b[30] == w[14]);
    assert(b[31] == w[15] && b[32] == w[16] && b[33] == w[17]);
}

proof fn lemma_memory_section(b: Seq<u8>, v: SaveStateView)
    requires
        b.len() >= 65573,
        v.ram.len() == 65536,
        b.subrange(34, 65573) == memory_bytes(v),
    ensures
        b.subrange(34, 65570) == v.ram,
        b[65570] == v.port_ddr && b[65571] == v.port_data && b[65572] == v.port_external,
{
    let w = b.subrange(34, 65573);
    assert(w.subrange(0, 65536) =~= v.ram);
    assert(b.subrange(34, 65570) =~= w.subrange(0, 65536));
    assert(w[65536] == v.port_ddr && w[65537] == v.port_data && w[65538] == v.port_external);
    assert(b[65570] == w[65536] && b[65571] == w[65537] && b[65572] == w[65538]);
}

proof fn lemma_vic_section(b: Seq<u8>, v: SaveStateView)
    requires
        b.len() >= 65626,
        v.vic_registers.len() == 47,
        b.subrange(65573, 65626) == vic_bytes(v),
    ensures
        b.subrange(65573, 65620) == v.vic_registers,
        u16_at(b, 65620) == v.vic_raster,
        b[65622] == v.vic_cycle_in_line && b[65623] == v.vic_collision_ss && b[65624]
            == v.vic_collision_sb,
        (b[65625] != 0) == v.vic_irq_pending,
{
    let w = b.subrange(65573, 65626);
    assert(w.subrange(0, 47) =~= v.vic_registers);
    assert(b.subrange(65573, 65620) =~= w.subrange(0, 47));
    assert(w.subrange(47, 49) =~= u16_le_bytes(v.vic_raster));
    lemma_u16_in(w, 47, v.vic_raster);
    assert(w[49] == v.vic_cycle_in_line && w[50] == v.vic_collision_ss && w[51] == v.vic_collision_sb
        && w[52] == bool_byte(v.vic_irq_pending));
    assert(b[65620] == w[47] && b[65621] == w[48] && b[65622] == w[49] && b[65623] == w[50]
        && b[65624] == w[51] && b[65625] == w[52]);
}

proof fn lemma_sid_section(b: Seq<u8>, v: SaveStateView)
    requires
        b.len() >= 65711,
        v.sid_voices.len() == 3,
        b.subrange(65626, 65711) == sid_bytes(v),
    ensures
        sid_voice_state_from(b, 65626) == v.sid_voices[0],
        sid_voice_state_from(b, 65648) == v.sid_voices[1],
        sid_voice_state_from(b, 65670) == v.sid_voices[2],
        sid_filter_state_from(b, 65692) == v.sid_filter,
        b[65705] == v.sid_volume,
        u32_at(b, 65706) == v.sid_sample_accumulator_bits,
        (b[65710] != 0) == v.sid_audio_enabled,
{
    let w = b.subrange(65626, 65711);
    assert(w.subrange(0, 22) =~= sid_voice_state_bytes(v.sid_voices[0]));
    assert(w.subrange(22, 44) =~= sid_voice_state_bytes(v.sid_voices[1]));
    assert(w.subrange(44, 66) =~= sid_voice_state_bytes(v.sid_voices[2]));
    assert(w.subrange(66, 79) =~= sid_filter_state_bytes(v.sid_filter));
    assert(w.subrange(80, 84) =~= u32_le_bytes(v.sid_sample_accumulator_bits));
    assert(b.subrange(65626, 65648) =~= w.subrange(0, 22));
    assert(b.subrange(65648, 65670) =~= w.subrange(22, 44));
    assert(b.subrange(65670, 65692) =~= w.subrange(44, 66));
    assert(b.subrange(65692, 65705) =~= w.subrange(66, 79));
    assert(b.subrange(65706, 65710) =~= w.subrange(80, 84));
    assert(w[79] == v.sid_volume && w[84] == bool_byte(v.sid_audio_enabled));
    assert(b[65705] == w[79] && b[65710] == w[84]);
    lemma_voice_in(b, 65626, v.sid_voices[0]);
    lemma_voice_in(b, 65648, v.sid_voices[1]);
    lemma_voice_in(b, 65670, v.sid_voices[2]);
    lemma_filter_in(b, 65692, v.sid_filter);
    lemma_u32_in(b, 65706, v.sid_sample_accumulator_bits);
}

proof fn lemma_cias_section(b: Seq<u8>, v: SaveStateView)
    requires
        b.len() >= 65789,
        b.subrange(65711, 65789) == cias_bytes(v),
    ensures
        cia_state_from(b, 65711) == v.cia1,
        cia_state_from(b, 65750) == v.cia2,
{
    let w = b.subrange(65711, 65789);
    assert(w.subrange(0, 39) =~= cia_state_bytes(v.cia1));
    assert(w.subrange(39, 78) =~= cia_state_bytes(v.cia2));
    assert(b.subrange(65711, 65750) =~= w.subrange(0, 39));
    assert(b.subrange(65750, 65789) =~= w.subrange(39, 78));
    lemma_cia_in(b, 65711, v.cia1);
    lemma_cia_in(b, 65750, v.cia2);
}

proof fn lemma_tail_section(b: Seq<u8>, v: SaveStateView)
    requires
        b.len() >= 66838,
        b.subrange(66813, 66838) == tail_bytes(v),
    ensures
        u64_at(b, 66813) == v.keyboard_matrix,
        b[66821] == v.joystick1 && b[66822] == v.joystick2,
        (b[66823] != 0) == v.joystick_swapped,
        b[66824] == v.region,
        u16_at(b, 66825) == v.current_scanline,
        u16_at(b, 66827) == v.cycle_in_scanline,
        u64_at(b, 66829) == v.frame_count,
        (b[66837] != 0) == v.running,
{
    let w = b.subrange(66813, 66838);
    assert(w.subrange(0, 8) =~= u64_le_bytes(v.keyboard_matrix));
    assert(w.subrange(12, 14) =~= u16_le_bytes(v.current_scanline));
    assert(w.subrange(14, 16) =~= u16_le_bytes(v.cycle_in_scanline));
    assert(w.subrange(16, 24) =~= u64_le_bytes(v.frame_count));
    lemma_u64_in(w, 0, v.keyboard_matrix);
    lemma_u16_in(w, 12, v.current_scanline);
    lemma_u16_in(w, 14, v.cycle_in_scanline);
    lemma_u64_in(w, 16, v.frame_count);
    assert(w[8] == v.joystick1 && w[9] == v.joystick2 && w[10] == bool_byte(v.joystick_swapped)
        && w[11] == v.region && w[24] == bool_byte(v.running));
    assert(b[66813] == w[0] && b[66814] == w[1] && b[66815] == w[2] && b[66816] == w[3] && b[66817]
        == w[4] && b[66818] == w[5] && b[66819] == w[6] && b[66820] == w[7]);
    assert(b[66821] == w[8] && b[66822] == w[9] && b[66823] == w[10] && b[66824] == w[11]);
    assert(b[66825] == w[12] && b[66826] == w[13] && b[66827] == w[14] && b[66828] == w[15]);
    assert(b[66829] == w[16] && b[66830] == w[17] && b[66831] == w[18] && b[66832] == w[19]
        && b[66833] == w[20] && b[66834] == w[21] && b[66835] == w[22] && b[66836] == w[23]);
    assert(b[66837] == w[24]);
}

proof fn lemma_concat_windows(a: Seq<u8>, c: Seq<u8>)
    ensures
        (a + c).subrange(0, a.len() as int) == a,
        (a + c).subrange(a.len() as int, (a.len() + c.len()) as int) == c,
{
    assert((a + c).subrange(0, a.len() as int) =~= a);
    assert((a + c).subrange(a.len() as int, (a.len() + c.len()) as int) =~= c);
}

proof fn lemma_window_of_prefix(b: Seq<u8>, p: Seq<u8>, i: int, j: int)
    requires
        p.len() <= b.len(),
        b.subrange(0, p.len() as int) == p,
        0 <= i <= j <= p.len(),
    ensures
        b.subrange(i, j) == p.subrange(i, j),
{
    assert forall|k: int| 0 <= k < j - i implies b.subrange(i, j)[k] == p.subrange(i, j)[k] by {
        assert(p[i + k] == b.subrange(0, p.len() as int)[i + k]);
    }
    assert(b.subrange(i, j) =~= p.subrange(i, j));
}

/// Where each section sits in the serialized form.
proof fn lemma_section_windows(v: SaveStateView)
    requires
        v.ram.len() == 65536,
        v.vic_registers.len() == 47,
        v.sid_voices.len() == 3,
        v.color_ram.len() == 1024,
    ensures
        save_state_bytes(v).len() == 66838,
        save_state_bytes(v).subrange(0, 16) == header_bytes(v),
        save_state_bytes(v).subrange(16, 34) == cpu_bytes(v),
        save_state_bytes(v).subrange(34, 65573) == memory_bytes(v),
        save_state_bytes(v).subrange(65573, 65626) == vic_bytes(v),
        save_state_bytes(v).subrange(65626, 65711) == sid_bytes(v),
        save_state_bytes(v).subrange(65711, 65789) == cias_bytes(v),
        save_state_bytes(v).subrange(65789, 66813) == v.color_ram,
        save_state_bytes(v).subrange(66813, 66838) == tail_bytes(v),
{
    let b = save_state_bytes(v);
    let p1 = header_bytes(v);
    let p2 = p1 + cpu_bytes(v);
    let p3 = p2 + memory_bytes(v);
    let p4 = p3 + vic_bytes(v);
    let p5 = p4 + sid_bytes(v);
    let p6 = p5 + cias_bytes(v);
    let p7 = p6 + v.color_ram;
    assert(SAVESTATE_MAGIC@.len() == 4);
    assert(p1.len() == 16 && p2.len() == 34 && p3.len() == 65573 && p4.len() == 65626 && p5.len()
        == 65711 && p6.len() == 65789 && p7.len() == 66813 && b.len() == 66838);
    lemma_concat_windows(p7, tail_bytes(v));
    lemma_concat_windows(p6, v.color_ram);
    lemma_concat_windows(p5, cias_bytes(v));
    lemma_concat_windows(p4, sid_bytes(v));
    lemma_concat_windows(p3, vic_bytes(v));
    lemma_concat_windows(p2, memory_bytes(v));
    lemma_concat_windows(p1, cpu_bytes(v));
    lemma_window_of_prefix(b, p7, 0, 65789);
    lemma_window_of_prefix(b, p7, 65789, 66813);
    lemma_window_of_prefix(b, p6, 0, 65711);
    lemma_window_of_prefix(b, p6, 65711, 65789);
    lemma_window_of_prefix(b, p5, 0, 65626);
    lemma_window_of_prefix(b, p5, 65626, 65711);
    lemma_window_of_prefix(b, p4, 0, 65573);
    lemma_window_of_prefix(b, p4, 65573, 65626);
    lemma_window_of_prefix(b, p3, 0, 34);
    lemma_window_of_prefix(b, p3, 34, 65573);
    lemma_window_of_prefix(b, p2, 0, 16);
    lemma_window_of_prefix(b, p2, 16, 34);
}

/// A byte string whose sections hold the parts of `v` decodes to `v`.
proof fn lemma_decode_sections(b: Seq<u8>, v: SaveStateView)
    requires
        v.version == SAVESTATE_VERSION,
        v.ram.len() == 65536,
        v.vic_registers.len() == 47,
        v.sid_voices.len() == 3,
        v.color_ram.len() == 1024,
        b.len() == 66838,
        b.subrange(0, 16) == header_bytes(v),
        b.subrange(16, 34) == cpu_bytes(v),
        b.subrange(34, 65573) == memory_bytes(v),
        b.subrange(65573, 65626) == vic_bytes(v),
        b.subrange(65626, 65711) == sid_bytes(v),
        b.subrange(65711, 65789) == cias_bytes(v),
        b.subrange(65789, 66813) == v.color_ram,
        b.subrange(66813, 66838) == tail_bytes(v),
    ensures
        save_state_decodable(b),
        deserialize_outcome(b) == Ok::<SaveStateView, Seq<char>>(v),
{
    lemma_header_section(b, v);
    lemma_cpu_section(b, v);
    lemma_memory_section(b, v);
    lemma_vic_section(b, v);
    lemma_sid_section(b, v);
    lemma_cias_section(b, v);
    lemma_tail_section(b, v);
    let d = save_state_from(b);
    assert(d.sid_voices =~= v.sid_voices);
    assert(d =~= v);
}

/// Decoding what serializing gave yields the same save state (for a state
/// of the current format version): the two ends of a save file agree on
/// every field. The encoding is 66838 bytes long.
pub proof fn lemma_save_state_roundtrip(v: SaveStateView)
    requires
        v.version == SAVESTATE_VERSION,
        v.ram.len() == 65536,
        v.vic_registers.len() == 47,
        v.sid_voices.len() == 3,
        v.color_ram.len() == 1024,
    ensures
        save_state_bytes(v).len() == 66838,
        save_state_decodable(save_state_bytes(v)),
        deserialize_outcome(save_state_bytes(v)) == Ok::<SaveStateView, Seq<char>>(v),
{
    lemma_section_windows(v);
    lemma_decode_sections(save_state_bytes(v), v);
}

} // verus!
