//! Save states: capture and restore of the chips' state (CIA, SID voices
//! and filter, keyboard matrix), the binary encoding of each part, and the
//! whole-machine save state in `machine`.
//!
//! Encoding: fields in declaration order, words little-endian, booleans as
//! one byte 0/1 (any non-zero byte decodes as true).

use vstd::prelude::*;

pub use crate::devices::cia::{capture_cia, cia_captured, cia_restored, restore_cia, CiaState};
use crate::devices::sid::{EnvelopeState, SidFilter, SidVoice};
use crate::system::keyboard::Keyboard;

pub mod machine;

pub use machine::{SaveState, SaveStateView};

verus! {

/// Current save-state format version.
pub const SAVESTATE_VERSION: u32 = 1;

/// Magic number of save-state files ("C64S").
pub const SAVESTATE_MAGIC: [u8; 4] = [0x43, 0x36, 0x34, 0x53];

/// A boolean as one byte.
pub open spec fn bool_byte(b: bool) -> u8 {
    if b { 1 } else { 0 }
}

/// The 16-bit word with low byte `b0`.
pub open spec fn u16_from_le(b0: u8, b1: u8) -> u16 {
    (b0 as u16) | ((b1 as u16) << 8u16)
}

/// The 32-bit word with low byte `b0`.
pub open spec fn u32_from_le(b0: u8, b1: u8, b2: u8, b3: u8) -> u32 {
    (b0 as u32) | ((b1 as u32) << 8u32) | ((b2 as u32) << 16u32) | ((b3 as u32) << 24u32)
}

proof fn lemma_u16_roundtrip(v: u16)
    ensures
        u16_from_le((v & 0xFF) as u8, (v >> 8u16) as u8) == v,
{
    assert(((v & 0xFF) as u8 as u16) | (((v >> 8u16) as u8 as u16) << 8u16) == v) by (bit_vector);
}

proof fn lemma_u32_roundtrip(v: u32)
    ensures
        u32_from_le(
            (v & 0xFF) as u8,
            ((v >> 8u32) & 0xFF) as u8,
            ((v >> 16u32) & 0xFF) as u8,
            (v >> 24u32) as u8,
        ) == v,
{
    assert(((v & 0xFF) as u8 as u32) | ((((v >> 8u32) & 0xFF) as u8 as u32) << 8u32) | ((((v
        >> 16u32) & 0xFF) as u8 as u32) << 16u32) | (((v >> 24u32) as u8 as u32) << 24u32) == v)
        by (bit_vector);
}

fn u16_from_le_bytes(b0: u8, b1: u8) -> (r: u16)
    ensures
        r == u16_from_le(b0, b1),
{
    (b0 as u16) | ((b1 as u16) << 8u16)
}

fn u32_from_le_bytes(b0: u8, b1: u8, b2: u8, b3: u8) -> (r: u32)
    ensures
        r == u32_from_le(b0, b1, b2, b3),
{
    (b0 as u32) | ((b1 as u32) << 8u32) | ((b2 as u32) << 16u32) | ((b3 as u32) << 24u32)
}

/// The serialized form of a CiaState.
pub open spec fn cia_state_bytes(s: CiaState) -> Seq<u8> {
    seq![
        s.port_a_data,
        s.port_a_ddr,
        s.port_b_data,
        s.port_b_ddr,
        (s.timer_a_counter & 0xFF) as u8,
        (s.timer_a_counter >> 8u16) as u8,
        (s.timer_a_latch & 0xFF) as u8,
        (s.timer_a_latch >> 8u16) as u8,
        bool_byte(s.timer_a_running),
        bool_byte(s.timer_a_one_shot),
        bool_byte(s.timer_a_underflow),
        (s.timer_b_counter & 0xFF) as u8,
        (s.timer_b_counter >> 8u16) as u8,
        (s.timer_b_latch & 0xFF) as u8,
        (s.timer_b_latch >> 8u16) as u8,
        bool_byte(s.timer_b_running),
        bool_byte(s.timer_b_one_shot),
        bool_byte(s.timer_b_underflow),
        s.tod_tenths,
        s.tod_seconds,
        s.tod_minutes,
        s.tod_hours,
        s.tod_alarm_tenths,
        s.tod_alarm_seconds,
        s.tod_alarm_minutes,
        s.tod_alarm_hours,
        bool_byte(s.tod_stopped),
        bool_byte(s.tod_latched),
        s.tod_latch_tenths,
        s.tod_latch_seconds,
        s.tod_latch_minutes,
        s.sdr,
        s.interrupt_flags,
        s.interrupt_mask,
        bool_byte(s.interrupt_pending),
        s.cra,
        s.crb,
        s.external_a,
        s.external_b,
    ]
}

/// The CiaState encoded at byte `p` of `b`.
pub open spec fn cia_state_from(b: Seq<u8>, p: int) -> CiaState {
    CiaState {
        port_a_data: b[p + 0],
        port_a_ddr: b[p + 1],
        port_b_data: b[p + 2],
        port_b_ddr: b[p + 3],
        timer_a_counter: u16_from_le(b[p + 4], b[p + 5]),
        timer_a_latch: u16_from_le(b[p + 6], b[p + 7]),
        timer_a_running: b[p + 8] != 0,
        timer_a_one_shot: b[p + 9] != 0,
        timer_a_underflow: b[p + 10] != 0,
        timer_b_counter: u16_from_le(b[p + 11], b[p + 12]),
        timer_b_latch: u16_from_le(b[p + 13], b[p + 14]),
        timer_b_running: b[p + 15] != 0,
        timer_b_one_shot: b[p + 16] != 0,
        timer_b_underflow: b[p + 17] != 0,
        tod_tenths: b[p + 18],
        tod_seconds: b[p + 19],
        tod_minutes: b[p + 20],
        tod_hours: b[p + 21],
        tod_alarm_tenths: b[p + 22],
        tod_alarm_seconds: b[p + 23],
        tod_alarm_minutes: b[p + 24],
        tod_alarm_hours: b[p + 25],
        tod_stopped: b[p + 26] != 0,
        tod_latched: b[p + 27] != 0,
        tod_latch_tenths: b[p + 28],
        tod_latch_seconds: b[p + 29],
        tod_latch_minutes: b[p + 30],
        sdr: b[p + 31],
        interrupt_flags: b[p + 32],
        interrupt_mask: b[p + 33],
        interrupt_pending: b[p + 34] != 0,
        cra: b[p + 35],
        crb: b[p + 36],
        external_a: b[p + 37],
        external_b: b[p + 38],
    }
}

/// Append the CIA state (39 bytes, little-endian words, booleans as 0/1).
#[verifier::rlimit(60)]
pub fn serialize_cia(data: &mut Vec<u8>, s: &CiaState)
    ensures
        final(data)@ == old(data)@ + cia_state_bytes(*s),
{
    data.push(s.port_a_data);
    data.push(s.port_a_ddr);
    data.push(s.port_b_data);
    data.push(s.port_b_ddr);
    data.push((s.timer_a_counter & 0xFF) as u8);
    data.push((s.timer_a_counter >> 8u16) as u8);
    data.push((s.timer_a_latch & 0xFF) as u8);
    data.push((s.timer_a_latch >> 8u16) as u8);
    data.push(if s.timer_a_running { 1 } else { 0 });
    data.push(if s.timer_a_one_shot { 1 } else { 0 });
    data.push(if s.timer_a_underflow { 1 } else { 0 });
    data.push((s.timer_b_counter & 0xFF) as u8);
    data.push((s.timer_b_counter >> 8u16) as u8);
    data.push((s.timer_b_latch & 0xFF) as u8);
    data.push((s.timer_b_latch >> 8u16) as u8);
    data.push(if s.timer_b_running { 1 } else { 0 });
    data.push(if s.timer_b_one_shot { 1 } else { 0 });
    data.push(if s.timer_b_underflow { 1 } else { 0 });
    data.push(s.tod_tenths);
    data.push(s.tod_seconds);
    data.push(s.tod_minutes);
    data.push(s.tod_hours);
    data.push(s.tod_alarm_tenths);
    data.push(s.tod_alarm_seconds);
    data.push(s.tod_alarm_minutes);
    data.push(s.tod_alarm_hours);
    data.push(if s.tod_stopped { 1 } else { 0 });
    data.push(if s.tod_latched { 1 } else { 0 });
    data.push(s.tod_latch_tenths);
    data.push(s.tod_latch_seconds);
    data.push(s.tod_latch_minutes);
    data.push(s.sdr);
    data.push(s.interrupt_flags);
    data.push(s.interrupt_mask);
    data.push(if s.interrupt_pending { 1 } else { 0 });
    data.push(s.cra);
    data.push(s.crb);
    data.push(s.external_a);
    data.push(s.external_b);
    assert(data@ =~= old(data)@ + cia_state_bytes(*s));
}

/// Decode a CIA state at `*pos` and advance `*pos` past it.
pub fn deserialize_cia(data: &[u8], pos: &mut usize) -> (r: Result<CiaState, String>)
    ensures
        (data@.len() < *old(pos) + 39) ==> (r.is_err() && *final(pos) == *old(pos) && r->Err_0@ == "Save state truncated at CIA"@),
        (data@.len() >= *old(pos) + 39) ==> (r == Ok::<CiaState, String>(cia_state_from(data@, *old(pos) as int)) && *final(pos) == *old(pos) + 39),
{
    if data.len() < *pos || data.len() - *pos < 39 {
        return Err("Save state truncated at CIA".to_owned());
    }
    let p = *pos;
    let port_a_data = data[p + 0];
    let port_a_ddr = data[p + 1];
    let port_b_data = data[p + 2];
    let port_b_ddr = data[p + 3];
    let timer_a_counter = u16_from_le_bytes(data[p + 4], data[p + 5]);
    let timer_a_latch = u16_from_le_bytes(data[p + 6], data[p + 7]);
    let timer_a_running = data[p + 8] != 0;
    let timer_a_one_shot = data[p + 9] != 0;
    let timer_a_underflow = data[p + 10] != 0;
    let timer_b_counter = u16_from_le_bytes(data[p + 11], data[p + 12]);
    let timer_b_latch = u16_from_le_bytes(data[p + 13], data[p + 14]);
    let timer_b_running = data[p + 15] != 0;
    let timer_b_one_shot = data[p + 16] != 0;
    let timer_b_underflow = data[p + 17] != 0;
    let tod_tenths = data[p + 18];
    let tod_seconds = data[p + 19];
    let tod_minutes = data[p + 20];
    let tod_hours = data[p + 21];
    let tod_alarm_tenths = data[p + 22];
    let tod_alarm_seconds = data[p + 23];
    let tod_alarm_minutes = data[p + 24];
    let tod_alarm_hours = data[p + 25];
    let tod_stopped = data[p + 26] != 0;
    let tod_latched = data[p + 27] != 0;
    let tod_latch_tenths = data[p + 28];
    let tod_latch_seconds = data[p + 29];
    let tod_latch_minutes = data[p + 30];
    let sdr = data[p + 31];
    let interrupt_flags = data[p + 32];
    let interrupt_mask = data[p + 33];
    let interrupt_pending = data[p + 34] != 0;
    let cra = data[p + 35];
    let crb = data[p + 36];
    let external_a = data[p + 37];
    let external_b = data[p + 38];
    *pos = p + 39;
    Ok(CiaState { port_a_data, port_a_ddr, port_b_data, port_b_ddr, timer_a_counter, timer_a_latch, timer_a_running, timer_a_one_shot, timer_a_underflow, timer_b_counter, timer_b_latch, timer_b_running, timer_b_one_shot, timer_b_underflow, tod_tenths, tod_seconds, tod_minutes, tod_hours, tod_alarm_tenths, tod_alarm_seconds, tod_alarm_minutes, tod_alarm_hours, tod_stopped, tod_latched, tod_latch_tenths, tod_latch_seconds, tod_latch_minutes, sdr, interrupt_flags, interrupt_mask, interrupt_pending, cra, crb, external_a, external_b })
}

/// Saved state of one SID voice (envelope phase 0-3 = attack, decay, sustain, release).
#[derive(Debug, Clone, Copy)]
pub struct SidVoiceState {
    pub freq: u16,
    pub pulse_width: u16,
    pub control: u8,
    pub attack_decay: u8,
    pub sustain_release: u8,
    pub accumulator: u32,
    pub prev_msb: bool,
    pub prev_bit19: bool,
    pub lfsr: u32,
    pub envelope_state: u8,
    pub envelope_counter: u8,
    pub rate_counter: u16,
    pub exp_counter: u8,
}

/// The serialized form of a SidVoiceState.
pub open spec fn sid_voice_state_bytes(s: SidVoiceState) -> Seq<u8> {
    seq![
        (s.freq & 0xFF) as u8,
        (s.freq >> 8u16) as u8,
        (s.pulse_width & 0xFF) as u8,
        (s.pulse_width >> 8u16) as u8,
        s.control,
        s.attack_decay,
        s.sustain_release,
        (s.accumulator & 0xFF) as u8,
        ((s.accumulator >> 8u32) & 0xFF) as u8,
        ((s.accumulator >> 16u32) & 0xFF) as u8,
        (s.accumulator >> 24u32) as u8,
        bool_byte(s.prev_msb),
        bool_byte(s.prev_bit19),
        (s.lfsr & 0xFF) as u8,
        ((s.lfsr >> 8u32) & 0xFF) as u8,
        ((s.lfsr >> 16u32) & 0xFF) as u8,
        (s.lfsr >> 24u32) as u8,
        s.envelope_state,
        s.envelope_counter,
        (s.rate_counter & 0xFF) as u8,
        (s.rate_counter >> 8u16) as u8,
        s.exp_counter,
    ]
}

/// The SidVoiceState encoded at byte `p` of `b`.
pub open spec fn sid_voice_state_from(b: Seq<u8>, p: int) -> SidVoiceState {
    SidVoiceState {
        freq: u16_from_le(b[p + 0], b[p + 1]),
        pulse_width: u16_from_le(b[p + 2], b[p + 3]),
        control: b[p + 4],
        attack_decay: b[p + 5],
        sustain_release: b[p + 6],
        accumulator: u32_from_le(b[p + 7], b[p + 8], b[p + 9], b[p + 10]),
        prev_msb: b[p + 11] != 0,
        prev_bit19: b[p + 12] != 0,
        lfsr: u32_from_le(b[p + 13], b[p + 14], b[p + 15], b[p + 16]),
        envelope_state: b[p + 17],
        envelope_counter: b[p + 18],
        rate_counter: u16_from_le(b[p + 19], b[p + 20]),
        exp_counter: b[p + 21],
    }
}

/// Append the voice state (22 bytes, little-endian words, booleans as 0/1).
pub fn serialize_sid_voice(data: &mut Vec<u8>, s: &SidVoiceState)
    ensures
        final(data)@ == old(data)@ + sid_voice_state_bytes(*s),
{
    data.push((s.freq & 0xFF) as u8);
    data.push((s.freq >> 8u16) as u8);
    data.push((s.pulse_width & 0xFF) as u8);
    data.push((s.pulse_width >> 8u16) as u8);
    data.push(s.control);
    data.push(s.attack_decay);
    data.push(s.sustain_release);
    data.push((s.accumulator & 0xFF) as u8);
    data.push(((s.accumulator >> 8u32) & 0xFF) as u8);
    data.push(((s.accumulator >> 16u32) & 0xFF) as u8);
    data.push((s.accumulator >> 24u32) as u8);
    data.push(if s.prev_msb { 1 } else { 0 });
    data.push(if s.prev_bit19 { 1 } else { 0 });
    data.push((s.lfsr & 0xFF) as u8);
    data.push(((s.lfsr >> 8u32) & 0xFF) as u8);
    data.push(((s.lfsr >> 16u32) & 0xFF) as u8);
    data.push((s.lfsr >> 24u32) as u8);
    data.push(s.envelope_state);
    data.push(s.envelope_counter);
    data.push((s.rate_counter & 0xFF) as u8);
    data.push((s.rate_counter >> 8u16) as u8);
    data.push(s.exp_counter);
    assert(data@ =~= old(data)@ + sid_voice_state_bytes(*s));
}

/// Decode a voice state at `*pos` and advance `*pos` past it.
pub fn deserialize_sid_voice(data: &[u8], pos: &mut usize) -> (r: Result<SidVoiceState, String>)
    ensures
        (data@.len() < *old(pos) + 24) ==> (r.is_err() && *final(pos) == *old(pos) && r->Err_0@ == "Save state truncated at SID voice"@),
        (data@.len() >= *old(pos) + 24) ==> (r == Ok::<SidVoiceState, String>(sid_voice_state_from(data@, *old(pos) as int)) && *final(pos) == *old(pos) + 22),
{
    if data.len() < *pos || data.len() - *pos < 24 {
        return Err("Save state truncated at SID voice".to_owned());
    }
    let p = *pos;
    let freq = u16_from_le_bytes(data[p + 0], data[p + 1]);
    let pulse_width = u16_from_le_bytes(data[p + 2], data[p + 3]);
    let control = data[p + 4];
    let attack_decay = data[p + 5];
    let sustain_release = data[p + 6];
    let accumulator = u32_from_le_bytes(data[p + 7], data[p + 8], data[p + 9], data[p + 10]);
    let prev_msb = data[p + 11] != 0;
    let prev_bit19 = data[p + 12] != 0;
    let lfsr = u32_from_le_bytes(data[p + 13], data[p + 14], data[p + 15], data[p + 16]);
    let envelope_state = data[p + 17];
    let envelope_counter = data[p + 18];
    let rate_counter = u16_from_le_bytes(data[p + 19], data[p + 20]);
    let exp_counter = data[p + 21];
    *pos = p + 22;
    Ok(SidVoiceState { freq, pulse_width, control, attack_decay, sustain_release, accumulator, prev_msb, prev_bit19, lfsr, envelope_state, envelope_counter, rate_counter, exp_counter })
}

/// Encoding of the envelope phase: attack 0, decay 1, sustain 2, release 3.
pub open spec fn envelope_code(e: EnvelopeState) -> u8 {
    match e {
        EnvelopeState::Attack => 0,
        EnvelopeState::Decay => 1,
        EnvelopeState::Sustain => 2,
        EnvelopeState::Release => 3,
    }
}

/// Decoding of the envelope phase; unknown codes read as release.
pub open spec fn envelope_from_code(c: u8) -> EnvelopeState {
    if c == 0 {
        EnvelopeState::Attack
    } else if c == 1 {
        EnvelopeState::Decay
    } else if c == 2 {
        EnvelopeState::Sustain
    } else {
        EnvelopeState::Release
    }
}

/// The recorded state of a SID voice.
pub open spec fn sid_voice_state_of(voice: SidVoice) -> SidVoiceState {
    SidVoiceState {
        freq: voice.freq,
        pulse_width: voice.pulse_width,
        control: voice.control,
        attack_decay: voice.attack_decay,
        sustain_release: voice.sustain_release,
        accumulator: voice.accumulator,
        prev_msb: voice.prev_msb,
        prev_bit19: voice.prev_bit19,
        lfsr: voice.lfsr,
        envelope_state: envelope_code(voice.envelope_state),
        envelope_counter: voice.envelope_counter,
        rate_counter: voice.rate_counter,
        exp_counter: voice.exp_counter,
    }
}

/// The SID voice a recorded state describes.
pub open spec fn sid_voice_of(state: SidVoiceState) -> SidVoice {
    SidVoice {
        freq: state.freq,
        pulse_width: state.pulse_width,
        control: state.control,
        attack_decay: state.attack_decay,
        sustain_release: state.sustain_release,
        accumulator: state.accumulator,
        prev_msb: state.prev_msb,
        prev_bit19: state.prev_bit19,
        lfsr: state.lfsr,
        envelope_state: envelope_from_code(state.envelope_state),
        envelope_counter: state.envelope_counter,
        rate_counter: state.rate_counter,
        exp_counter: state.exp_counter,
    }
}

/// Record one SID voice.
pub fn capture_sid_voice(voice: &SidVoice) -> (r: SidVoiceState)
    ensures
        r == sid_voice_state_of(*voice),
{
    SidVoiceState {
        freq: voice.freq,
        pulse_width: voice.pulse_width,
        control: voice.control,
        attack_decay: voice.attack_decay,
        sustain_release: voice.sustain_release,
        accumulator: voice.accumulator,
        prev_msb: voice.prev_msb,
        prev_bit19: voice.prev_bit19,
        lfsr: voice.lfsr,
        envelope_state: match voice.envelope_state {
            EnvelopeState::Attack => 0,
            EnvelopeState::Decay => 1,
            EnvelopeState::Sustain => 2,
            EnvelopeState::Release => 3,
        },
        envelope_counter: voice.envelope_counter,
        rate_counter: voice.rate_counter,
        exp_counter: voice.exp_counter,
    }
}

/// Load a recorded state into a SID voice.
pub fn restore_sid_voice(voice: &mut SidVoice, state: &SidVoiceState)
    ensures
        *final(voice) == sid_voice_of(*state),
{
    voice.freq = state.freq;
    voice.pulse_width = state.pulse_width;
    voice.control = state.control;
    voice.attack_decay = state.attack_decay;
    voice.sustain_release = state.sustain_release;
    voice.accumulator = state.accumulator;
    voice.prev_msb = state.prev_msb;
    voice.prev_bit19 = state.prev_bit19;
    voice.lfsr = state.lfsr;
    voice.envelope_state = if state.envelope_state == 0 {
        EnvelopeState::Attack
    } else if state.envelope_state == 1 {
        EnvelopeState::Decay
    } else if state.envelope_state == 2 {
        EnvelopeState::Sustain
    } else {
        EnvelopeState::Release
    };
    voice.envelope_counter = state.envelope_counter;
    voice.rate_counter = state.rate_counter;
    voice.exp_counter = state.exp_counter;
}

/// Bit `i` of a 64-bit word.
pub open spec fn u64_bit(x: u64, i: int) -> bool {
    (x >> (i as u64)) & 1 == 1
}

proof fn lemma_u64_set_bit(x: u64, i: u64, j: u64)
    requires
        i < 64,
        j < 64,
    ensures
        ((x | (1u64 << i)) >> j) & 1 == 1 <==> (j == i || (x >> j) & 1 == 1),
{
    assert(i < 64 && j < 64 ==> (((x | (1u64 << i)) >> j) & 1 == 1 <==> (j == i || (x >> j) & 1
        == 1))) by (bit_vector);
}

proof fn lemma_u64_zero(j: u64)
    ensures
        (0u64 >> j) & 1 != 1,
{
    assert((0u64 >> j) & 1 != 1) by (bit_vector);
}

proof fn lemma_u64_test_bit(x: u64, i: u64)
    requires
        i < 64,
    ensures
        (x & (1u64 << i) != 0) <==> (x >> i) & 1 == 1,
{
    assert(i < 64 ==> ((x & (1u64 << i) != 0) <==> (x >> i) & 1 == 1)) by (bit_vector);
}

/// Pack the keyboard matrix into 64 bits: bit `row * 8 + col` is set
/// exactly when that key is pressed.
pub fn pack_keyboard(keyboard: &Keyboard) -> (r: u64)
    ensures
        forall|row: int, col: int|
            0 <= row < 8 && 0 <= col < 8 ==> u64_bit(r, row * 8 + col) == keyboard@[row][col],
{
    let mut packed: u64 = 0;
    let mut row: u8 = 0;
    proof {
        assert forall|i: int| 0 <= i < 64 implies !#[trigger] u64_bit(packed, i) by {
            lemma_u64_zero(i as u64);
        }
    }
    while row < 8
        invariant
            row <= 8,
            forall|r: int, c: int|
                0 <= r < 8 && 0 <= c < 8 ==> #[trigger] u64_bit(packed, r * 8 + c) == (r < row
                    && keyboard@[r][c]),
        decreases 8 - row,
    {
        let mut col: u8 = 0;
        while col < 8
            invariant
                row < 8,
                col <= 8,
                forall|r: int, c: int|
                    0 <= r < 8 && 0 <= c < 8 ==> #[trigger] u64_bit(packed, r * 8 + c) == ((r < row
                        || (r == row && c < col)) && keyboard@[r][c]),
            decreases 8 - col,
        {
            let idx: u64 = (row as u64) * 8 + (col as u64);
            let old_packed = packed;
            let pressed = keyboard.is_key_pressed(row, col);
            if pressed {
                packed = packed | (1u64 << idx);
            }
            proof {
                assert forall|r: int, c: int| 0 <= r < 8 && 0 <= c < 8 implies #[trigger] u64_bit(
                    packed,
                    r * 8 + c,
                ) == ((r < row || (r == row && c < col + 1)) && keyboard@[r][c]) by {
                    assert(u64_bit(old_packed, r * 8 + c) == ((r < row || (r == row && c < col))
                        && keyboard@[r][c]));
                    if pressed {
                        lemma_u64_set_bit(old_packed, idx, (r * 8 + c) as u64);
                    }
                    assert((r * 8 + c == idx) == (r == row && c == col));
                }
            }
            col += 1;
        }
        row += 1;
    }
    packed
}

/// Load a packed matrix: every key released, then each set bit
/// `row * 8 + col` pressed.
pub fn unpack_keyboard(keyboard: &mut Keyboard, packed: u64)
    ensures
        final(keyboard)@.len() == 8,
        forall|row: int| 0 <= row < 8 ==> #[trigger] final(keyboard)@[row].len() == 8,
        forall|row: int, col: int|
            0 <= row < 8 && 0 <= col < 8 ==> final(keyboard)@[row][col] == u64_bit(
                packed,
                row * 8 + col,
            ),
{
    keyboard.release_all();
    let mut row: u8 = 0;
    while row < 8
        invariant
            row <= 8,
            keyboard@.len() == 8,
            forall|r: int| 0 <= r < 8 ==> #[trigger] keyboard@[r].len() == 8,
            forall|r: int, c: int|
                0 <= r < 8 && 0 <= c < 8 ==> keyboard@[r][c] == (r < row && u64_bit(
                    packed,
                    r * 8 + c,
                )),
        decreases 8 - row,
    {
        let mut col: u8 = 0;
        while col < 8
            invariant
                row < 8,
                col <= 8,
                keyboard@.len() == 8,
                forall|r: int| 0 <= r < 8 ==> #[trigger] keyboard@[r].len() == 8,
                forall|r: int, c: int|
                    0 <= r < 8 && 0 <= c < 8 ==> keyboard@[r][c] == ((r < row || (r == row && c
                        < col)) && u64_bit(packed, r * 8 + c)),
            decreases 8 - col,
        {
            let idx: u64 = (row as u64) * 8 + (col as u64);
            proof {
                lemma_u64_test_bit(packed, idx);
            }
            if packed & (1u64 << idx) != 0 {
                keyboard.key_down(row, col);
            }
            col += 1;
        }
        row += 1;
    }
}

/// Unpacking what packing a keyboard matrix gave yields the same matrix:
/// the two ends of a save state agree on every key.
pub proof fn lemma_keyboard_pack_unpack(matrix: Seq<Seq<bool>>, packed: u64, restored: Seq<Seq<bool>>)
    requires
        matrix.len() == 8,
        forall|row: int| 0 <= row < 8 ==> #[trigger] matrix[row].len() == 8,
        forall|row: int, col: int|
            0 <= row < 8 && 0 <= col < 8 ==> u64_bit(packed, row * 8 + col) == matrix[row][col],
        restored.len() == 8,
        forall|row: int| 0 <= row < 8 ==> #[trigger] restored[row].len() == 8,
        forall|row: int, col: int|
            0 <= row < 8 && 0 <= col < 8 ==> restored[row][col] == u64_bit(packed, row * 8 + col),
    ensures
        restored == matrix,
{
    assert forall|row: int| 0 <= row < 8 implies #[trigger] restored[row] == matrix[row] by {
        assert forall|col: int| 0 <= col < 8 implies restored[row][col] == matrix[row][col] by {
            assert(restored[row][col] == u64_bit(packed, row * 8 + col));
        }
        assert(restored[row] =~= matrix[row]);
    }
    assert(restored =~= matrix);
}

/// Restoring a captured SID voice gives the voice back.
pub proof fn lemma_sid_voice_capture_restore(v: SidVoice)
    ensures
        sid_voice_of(sid_voice_state_of(v)) == v,
{
}

/// Decoding what was encoded gives the CIA state back, wherever it sits in
/// the stream.
pub proof fn lemma_cia_state_roundtrip(pre: Seq<u8>, s: CiaState, rest: Seq<u8>)
    ensures
        cia_state_from(pre + cia_state_bytes(s) + rest, pre.len() as int) == s,
        cia_state_bytes(s).len() == 39,
{
    let b = pre + cia_state_bytes(s) + rest;
    let p = pre.len() as int;
    let e = cia_state_bytes(s);
    assert forall|k: int| 0 <= k < 39 implies b[p + k] == e[k] by {}
    lemma_u16_roundtrip(s.timer_a_counter);
    lemma_u16_roundtrip(s.timer_a_latch);
    lemma_u16_roundtrip(s.timer_b_counter);
    lemma_u16_roundtrip(s.timer_b_latch);
    assert(cia_state_from(b, p) =~= s);
}

/// Decoding what was encoded gives the SID voice state back, wherever it
/// sits in the stream.
pub proof fn lemma_sid_voice_state_roundtrip(pre: Seq<u8>, s: SidVoiceState, rest: Seq<u8>)
    ensures
        sid_voice_state_from(pre + sid_voice_state_bytes(s) + rest, pre.len() as int) == s,
        sid_voice_state_bytes(s).len() == 22,
{
    let b = pre + sid_voice_state_bytes(s) + rest;
    let p = pre.len() as int;
    let e = sid_voice_state_bytes(s);
    assert forall|k: int| 0 <= k < 22 implies b[p + k] == e[k] by {}
    lemma_u16_roundtrip(s.freq);
    lemma_u16_roundtrip(s.pulse_width);
    lemma_u32_roundtrip(s.accumulator);
    lemma_u32_roundtrip(s.lfsr);
    lemma_u16_roundtrip(s.rate_counter);
    assert(sid_voice_state_from(b, p) =~= s);
}


/// The bytes of a 16-bit word, low byte first.
pub open spec fn u16_le_bytes(v: u16) -> Seq<u8> {
    seq![(v & 0xFF) as u8, (v >> 8u16) as u8]
}

/// The bytes of a 32-bit word, low byte first.
pub open spec fn u32_le_bytes(v: u32) -> Seq<u8> {
    seq![
        (v & 0xFF) as u8,
        ((v >> 8u32) & 0xFF) as u8,
        ((v >> 16u32) & 0xFF) as u8,
        (v >> 24u32) as u8,
    ]
}

/// The bytes of a 64-bit word, low byte first.
pub open spec fn u64_le_bytes(v: u64) -> Seq<u8> {
    seq![
        (v & 0xFF) as u8,
        ((v >> 8u64) & 0xFF) as u8,
        ((v >> 16u64) & 0xFF) as u8,
        ((v >> 24u64) & 0xFF) as u8,
        ((v >> 32u64) & 0xFF) as u8,
        ((v >> 40u64) & 0xFF) as u8,
        ((v >> 48u64) & 0xFF) as u8,
        (v >> 56u64) as u8,
    ]
}

/// The 16-bit word at byte `p` of `b`, low byte first.
pub open spec fn u16_at(b: Seq<u8>, p: int) -> u16 {
    u16_from_le(b[p], b[p + 1])
}

/// The 32-bit word at byte `p` of `b`, low byte first.
pub open spec fn u32_at(b: Seq<u8>, p: int) -> u32 {
    u32_from_le(b[p], b[p + 1], b[p + 2], b[p + 3])
}

/// The 64-bit word at byte `p` of `b`, low byte first.
pub open spec fn u64_at(b: Seq<u8>, p: int) -> u64 {
    (b[p] as u64) | ((b[p + 1] as u64) << 8u64) | ((b[p + 2] as u64) << 16u64) | ((b[p + 3] as u64)
        << 24u64) | ((b[p + 4] as u64) << 32u64) | ((b[p + 5] as u64) << 40u64) | ((b[p + 6] as u64)
        << 48u64) | ((b[p + 7] as u64) << 56u64)
}

pub(crate) proof fn lemma_u64_roundtrip(v: u64)
    ensures
        u64_at(u64_le_bytes(v), 0) == v,
{
    let b = u64_le_bytes(v);
    assert(((v & 0xFF) as u8 as u64) | ((((v >> 8u64) & 0xFF) as u8 as u64) << 8u64) | ((((v
        >> 16u64) & 0xFF) as u8 as u64) << 16u64) | ((((v >> 24u64) & 0xFF) as u8 as u64) << 24u64)
        | ((((v >> 32u64) & 0xFF) as u8 as u64) << 32u64) | ((((v >> 40u64) & 0xFF) as u8 as u64)
        << 40u64) | ((((v >> 48u64) & 0xFF) as u8 as u64) << 48u64) | (((v >> 56u64) as u8 as u64)
        << 56u64) == v) by (bit_vector);
}

pub(crate) proof fn lemma_word_roundtrips(a: u16, b: u32)
    ensures
        u16_at(u16_le_bytes(a), 0) == a,
        u32_at(u32_le_bytes(b), 0) == b,
{
    lemma_u16_roundtrip(a);
    lemma_u32_roundtrip(b);
}

/// Append a 16-bit word, low byte first.
pub(crate) fn push_u16(data: &mut Vec<u8>, v: u16)
    ensures
        final(data)@ == old(data)@ + u16_le_bytes(v),
{
    data.push((v & 0xFF) as u8);
    data.push((v >> 8u16) as u8);
    assert(data@ =~= old(data)@ + u16_le_bytes(v));
}

/// Append a 32-bit word, low byte first.
pub(crate) fn push_u32(data: &mut Vec<u8>, v: u32)
    ensures
        final(data)@ == old(data)@ + u32_le_bytes(v),
{
    data.push((v & 0xFF) as u8);
    data.push(((v >> 8u32) & 0xFF) as u8);
    data.push(((v >> 16u32) & 0xFF) as u8);
    data.push((v >> 24u32) as u8);
    assert(data@ =~= old(data)@ + u32_le_bytes(v));
}

/// Append a 64-bit word, low byte first.
pub(crate) fn push_u64(data: &mut Vec<u8>, v: u64)
    ensures
        final(data)@ == old(data)@ + u64_le_bytes(v),
{
    data.push((v & 0xFF) as u8);
    data.push(((v >> 8u64) & 0xFF) as u8);
    data.push(((v >> 16u64) & 0xFF) as u8);
    data.push(((v >> 24u64) & 0xFF) as u8);
    data.push(((v >> 32u64) & 0xFF) as u8);
    data.push(((v >> 40u64) & 0xFF) as u8);
    data.push(((v >> 48u64) & 0xFF) as u8);
    data.push((v >> 56u64) as u8);
    assert(data@ =~= old(data)@ + u64_le_bytes(v));
}

/// Append every byte of `bytes`.
pub(crate) fn push_bytes(data: &mut Vec<u8>, bytes: &[u8])
    ensures
        final(data)@ == old(data)@ + bytes@,
{
    let mut i: usize = 0;
    while i < bytes.len()
        invariant
            i <= bytes.len(),
            data@ == old(data)@ + bytes@.take(i as int),
        decreases bytes.len() - i,
    {
        data.push(bytes[i]);
        i += 1;
        assert(data@ =~= old(data)@ + bytes@.take(i as int));
    }
    assert(bytes@.take(bytes.len() as int) =~= bytes@);
}

/// Read the 16-bit word at `p`.
pub(crate) fn read_u16(data: &[u8], p: usize) -> (r: u16)
    requires
        p + 2 <= data@.len(),
    ensures
        r == u16_at(data@, p as int),
{
    u16_from_le_bytes(data[p], data[p + 1])
}

/// Read the 32-bit word at `p`.
pub(crate) fn read_u32(data: &[u8], p: usize) -> (r: u32)
    requires
        p + 4 <= data@.len(),
    ensures
        r == u32_at(data@, p as int),
{
    u32_from_le_bytes(data[p], data[p + 1], data[p + 2], data[p + 3])
}

/// Read the 64-bit word at `p`.
pub(crate) fn read_u64(data: &[u8], p: usize) -> (r: u64)
    requires
        p + 8 <= data@.len(),
    ensures
        r == u64_at(data@, p as int),
{
    (data[p] as u64) | ((data[p + 1] as u64) << 8u64) | ((data[p + 2] as u64) << 16u64) | ((data[p
        + 3] as u64) << 24u64) | ((data[p + 4] as u64) << 32u64) | ((data[p + 5] as u64) << 40u64)
        | ((data[p + 6] as u64) << 48u64) | ((data[p + 7] as u64) << 56u64)
}

/// Saved state of the SID filter; the two filter accumulators are kept as
/// the bit patterns of their single-precision values.
#[derive(Debug, Clone, Copy)]
pub struct SidFilterState {
    pub cutoff: u16,
    pub resonance: u8,
    pub routing: u8,
    pub mode_bits: u8,
    pub low_bits: u32,
    pub band_bits: u32,
}

/// The serialized form of a SidFilterState (13 bytes).
pub open spec fn sid_filter_state_bytes(s: SidFilterState) -> Seq<u8> {
    u16_le_bytes(s.cutoff) + seq![s.resonance, s.routing, s.mode_bits] + u32_le_bytes(s.low_bits)
        + u32_le_bytes(s.band_bits)
}

/// The SidFilterState encoded at byte `p` of `b`.
pub open spec fn sid_filter_state_from(b: Seq<u8>, p: int) -> SidFilterState {
    SidFilterState {
        cutoff: u16_at(b, p),
        resonance: b[p + 2],
        routing: b[p + 3],
        mode_bits: b[p + 4],
        low_bits: u32_at(b, p + 5),
        band_bits: u32_at(b, p + 9),
    }
}

/// Append the filter state (13 bytes).
pub fn serialize_sid_filter(data: &mut Vec<u8>, s: &SidFilterState)
    ensures
        final(data)@ == old(data)@ + sid_filter_state_bytes(*s),
{
    push_u16(data, s.cutoff);
    data.push(s.resonance);
    data.push(s.routing);
    data.push(s.mode_bits);
    push_u32(data, s.low_bits);
    push_u32(data, s.band_bits);
    assert(data@ =~= old(data)@ + sid_filter_state_bytes(*s));
}

/// Decode a filter state at `*pos` and advance `*pos` past it.
pub fn deserialize_sid_filter(data: &[u8], pos: &mut usize) -> (r: Result<SidFilterState, String>)
    ensures
        (data@.len() < *old(pos) + 13) ==> (r.is_err() && *final(pos) == *old(pos) && r->Err_0@
            == "Save state truncated at SID filter"@),
        (data@.len() >= *old(pos) + 13) ==> (r == Ok::<SidFilterState, String>(
            sid_filter_state_from(data@, *old(pos) as int),
        ) && *final(pos) == *old(pos) + 13),
{
    if data.len() < *pos || data.len() - *pos < 13 {
        return Err("Save state truncated at SID filter".to_owned());
    }
    let p = *pos;
    let cutoff = read_u16(data, p);
    let resonance = data[p + 2];
    let routing = data[p + 3];
    let mode_bits = data[p + 4];
    let low_bits = read_u32(data, p + 5);
    let band_bits = read_u32(data, p + 9);
    *pos = p + 13;
    Ok(SidFilterState { cutoff, resonance, routing, mode_bits, low_bits, band_bits })
}

/// Decoding what was encoded gives the filter state back, wherever it sits
/// in the stream.
pub proof fn lemma_sid_filter_state_roundtrip(pre: Seq<u8>, s: SidFilterState, rest: Seq<u8>)
    ensures
        sid_filter_state_from(pre + sid_filter_state_bytes(s) + rest, pre.len() as int) == s,
        sid_filter_state_bytes(s).len() == 13,
{
    let b = pre + sid_filter_state_bytes(s) + rest;
    let p = pre.len() as int;
    let e = sid_filter_state_bytes(s);
    assert(e.len() == 13);
    assert forall|k: int| 0 <= k < 13 implies b[p + k] == e[k] by {}
    lemma_word_roundtrips(s.cutoff, s.low_bits);
    lemma_u32_roundtrip(s.band_bits);
    assert(u32_at(b, p + 9) == u32_at(u32_le_bytes(s.band_bits), 0));
    assert(sid_filter_state_from(b, p) =~= s);
}


/// The recorded state of the SID filter.
pub open spec fn sid_filter_state_of(f: SidFilter) -> SidFilterState {
    SidFilterState {
        cutoff: f.cutoff,
        resonance: f.resonance,
        routing: f.routing,
        mode_bits: f.mode,
        low_bits: f.low_bits,
        band_bits: f.band_bits,
    }
}

/// The SID filter a recorded state describes.
pub open spec fn sid_filter_of(s: SidFilterState) -> SidFilter {
    SidFilter {
        cutoff: s.cutoff,
        resonance: s.resonance,
        routing: s.routing,
        mode: s.mode_bits,
        low_bits: s.low_bits,
        band_bits: s.band_bits,
    }
}

/// Record the SID filter.
pub fn capture_sid_filter(filter: &SidFilter) -> (r: SidFilterState)
    ensures
        r == sid_filter_state_of(*filter),
{
    SidFilterState {
        cutoff: filter.cutoff,
        resonance: filter.resonance,
        routing: filter.routing,
        mode_bits: filter.mode,
        low_bits: filter.low_bits,
        band_bits: filter.band_bits,
    }
}

/// Load a recorded state into the SID filter.
pub fn restore_sid_filter(filter: &mut SidFilter, state: &SidFilterState)
    ensures
        *final(filter) == sid_filter_of(*state),
{
    filter.cutoff = state.cutoff;
    filter.resonance = state.resonance;
    filter.routing = state.routing;
    filter.mode = state.mode_bits;
    filter.low_bits = state.low_bits;
    filter.band_bits = state.band_bits;
}

/// Restoring a captured SID filter gives the filter back.
pub proof fn lemma_sid_filter_capture_restore(f: SidFilter)
    ensures
        sid_filter_of(sid_filter_state_of(f)) == f,
{
}

} // verus!
