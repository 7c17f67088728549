//! SID (MOS 6581) sound chip: three voices with 24-bit phase accumulators,
//! hard sync and ring modulation, the noise LFSR, the ADSR envelope
//! generators, the register file and the integer output mix.
//!
//! Each voice's waveform generators read the top bits of its accumulator;
//! selecting several waveforms ANDs their outputs. Turning the mixed level
//! into audio samples is left to the caller.

use vstd::prelude::*;

use vstd::arithmetic::div_mod::lemma_add_mod_noop_right;

verus! {

/// Number of SID registers.
pub const SID_REGISTER_COUNT: usize = 29;

/// Number of voices.
pub const VOICE_COUNT: usize = 3;

/// CPU cycles between envelope increments for each attack setting (0-15).
pub const ATTACK_RATE_PERIODS: [u16; 16] = [
    9,     // 0: 2 ms
    32,    // 1: 8 ms
    63,    // 2: 16 ms
    95,    // 3: 24 ms
    149,   // 4: 38 ms
    220,   // 5: 56 ms
    267,   // 6: 68 ms
    313,   // 7: 80 ms
    392,   // 8: 100 ms
    977,   // 9: 250 ms
    1954,  // 10: 500 ms
    3126,  // 11: 800 ms
    3907,  // 12: 1 s
    11720, // 13: 3 s
    19532, // 14: 5 s
    31251, // 15: 8 s
];


/// CPU cycles between envelope steps for each decay/release setting (0-15).
pub const DECAY_RELEASE_RATE_PERIODS: [u16; 16] = [
    9,     // 0: 6 ms
    32,    // 1: 24 ms
    63,    // 2: 48 ms
    95,    // 3: 72 ms
    149,   // 4: 114 ms
    220,   // 5: 168 ms
    267,   // 6: 204 ms
    313,   // 7: 240 ms
    392,   // 8: 300 ms
    977,   // 9: 750 ms
    1954,  // 10: 1.5 s
    3126,  // 11: 2.4 s
    3907,  // 12: 3 s
    11720, // 13: 9 s
    19532, // 14: 15 s
    31251, // 15: 24 s
];

/// Envelope generator phase.
#[derive(Debug, Clone, Copy, PartialEq, Eq, Structural)]
pub enum EnvelopeState {
    Attack,
    Decay,
    Sustain,
    Release,
}

/// One SID voice.
#[derive(Debug, Clone, Copy)]
pub struct SidVoice {
    /// 16-bit frequency.
    pub freq: u16,
    /// 12-bit pulse width.
    pub pulse_width: u16,
    /// Control register: bit 0 gate, 1 sync, 2 ring, 3 test, 4-7 waveforms.
    pub control: u8,
    /// Attack (high nibble) / decay (low nibble).
    pub attack_decay: u8,
    /// Sustain (high nibble) / release (low nibble).
    pub sustain_release: u8,
    /// 24-bit phase accumulator.
    pub accumulator: u32,
    /// Previous accumulator bit 23, for hard sync.
    pub prev_msb: bool,
    /// Previous accumulator bit 19, for noise clocking.
    pub prev_bit19: bool,
    /// 23-bit noise LFSR (taps 22 and 17).
    pub lfsr: u32,
    /// Envelope phase.
    pub envelope_state: EnvelopeState,
    /// Envelope level 0-255.
    pub envelope_counter: u8,
    /// Envelope rate counter.
    pub rate_counter: u16,
    /// Exponential decay counter.
    pub exp_counter: u8,
}

/// The LFSR after one clock: shift left, feed bit 22 XOR bit 17 into bit 0,
/// keep 23 bits.
pub open spec fn lfsr_next(l: u32) -> u32 {
    ((l << 1u32) | (((l >> 22u32) & 1) ^ ((l >> 17u32) & 1))) & 0x7F_FFFF
}

/// The 12-bit sawtooth: accumulator bits 12-23.
pub open spec fn sawtooth_of(acc: u32) -> u16 {
    ((acc >> 12u32) & 0xFFF) as u16
}

/// The triangle: accumulator bits 12-22, inverted while `msb` is set.
pub open spec fn triangle_of(acc: u32, msb: bool) -> u16 {
    let bits = ((acc >> 12u32) & 0x7FF) as u16;
    if msb { bits ^ 0x7FF } else { bits }
}

/// The pulse: high ($FFF) while the top 12 accumulator bits are below the
/// pulse width.
pub open spec fn pulse_of(acc: u32, pulse_width: u16) -> u16 {
    if (((acc >> 12u32) & 0xFFF) as u16) < pulse_width { 0xFFF } else { 0 }
}

/// LFSR bit `i` as a 16-bit value.
pub open spec fn lfsr_bit(l: u32, i: u32) -> u16 {
    ((l >> i) & 1) as u16
}

/// The noise output: LFSR bits 0, 2, 5, 9, 11, 14, 18, 20 on output bits
/// 4-11.
pub open spec fn noise_of(l: u32) -> u16 {
    (lfsr_bit(l, 0) << 4u16) | (lfsr_bit(l, 2) << 5u16) | (lfsr_bit(l, 5) << 6u16) | (lfsr_bit(l, 9)
        << 7u16) | (lfsr_bit(l, 11) << 8u16) | (lfsr_bit(l, 14) << 9u16) | (lfsr_bit(l, 18)
        << 10u16) | (lfsr_bit(l, 20) << 11u16)
}

impl SidVoice {
    /// Triangle MSB source: the ring-modulation input when ring mod is on.
    pub open spec fn triangle_msb(&self, ring_mod_msb: bool) -> bool {
        if self.control & 0x04 != 0 { ring_mod_msb } else { self.accumulator & 0x0080_0000 != 0 }
    }

    /// The combined waveform: zero with no waveform selected, otherwise the
    /// AND of $FFF and each selected generator.
    pub open spec fn waveform_output(&self, ring_mod_msb: bool) -> u16 {
        if (self.control >> 4u8) & 0x0F == 0 {
            0
        } else {
            let t: u16 = if self.control & 0x10 != 0 {
                triangle_of(self.accumulator, self.triangle_msb(ring_mod_msb))
            } else {
                0xFFF
            };
            let s: u16 = if self.control & 0x20 != 0 { sawtooth_of(self.accumulator) } else { 0xFFF };
            let p: u16 = if self.control & 0x40 != 0 {
                pulse_of(self.accumulator, self.pulse_width)
            } else {
                0xFFF
            };
            let n: u16 = if self.control & 0x80 != 0 { noise_of(self.lfsr) } else { 0xFFF };
            0xFFFu16 & t & s & p & n
        }
    }

    /// The power-on voice.
    pub open spec fn spec_power_on() -> SidVoice {
        SidVoice {
            freq: 0,
            pulse_width: 0,
            control: 0,
            attack_decay: 0,
            sustain_release: 0,
            accumulator: 0,
            prev_msb: false,
            prev_bit19: false,
            lfsr: 0x7FFFF8,
            envelope_state: EnvelopeState::Release,
            envelope_counter: 0,
            rate_counter: 0,
            exp_counter: 0,
        }
    }

    /// Silent voice: registers clear, LFSR seeded $7FFFF8, envelope released.
    pub fn new() -> (v: Self)
        ensures
            v == SidVoice::spec_power_on(),
    {
        SidVoice {
            freq: 0,
            pulse_width: 0,
            control: 0,
            attack_decay: 0,
            sustain_release: 0,
            accumulator: 0,
            prev_msb: false,
            prev_bit19: false,
            lfsr: 0x7FFFF8,
            envelope_state: EnvelopeState::Release,
            envelope_counter: 0,
            rate_counter: 0,
            exp_counter: 0,
        }
    }

    /// Gate bit.
    pub fn gate(&self) -> (r: bool)
        ensures
            r == (self.control & 0x01 != 0),
    {
        self.control & 0x01 != 0
    }

    /// Waveform select bits (control bits 4-7).
    pub fn waveform(&self) -> (r: u8)
        ensures
            r == (self.control >> 4u8) & 0x0F,
            r < 16,
    {
        let c = self.control;
        proof {
            lemma_nibbles(c);
        }
        (c >> 4u8) & 0x0F
    }

    /// Triangle selected.
    pub fn triangle_enabled(&self) -> (r: bool)
        ensures
            r == (self.control & 0x10 != 0),
    {
        self.control & 0x10 != 0
    }

    /// Sawtooth selected.
    pub fn sawtooth_enabled(&self) -> (r: bool)
        ensures
            r == (self.control & 0x20 != 0),
    {
        self.control & 0x20 != 0
    }

    /// Pulse selected.
    pub fn pulse_enabled(&self) -> (r: bool)
        ensures
            r == (self.control & 0x40 != 0),
    {
        self.control & 0x40 != 0
    }

    /// Noise selected.
    pub fn noise_enabled(&self) -> (r: bool)
        ensures
            r == (self.control & 0x80 != 0),
    {
        self.control & 0x80 != 0
    }

    /// Ring modulation on.
    pub fn ring_mod_enabled(&self) -> (r: bool)
        ensures
            r == (self.control & 0x04 != 0),
    {
        self.control & 0x04 != 0
    }

    /// Test bit (holds the accumulator at zero).
    pub fn test_bit(&self) -> (r: bool)
        ensures
            r == (self.control & 0x08 != 0),
    {
        self.control & 0x08 != 0
    }

    /// Hard sync on.
    pub fn sync_enabled(&self) -> (r: bool)
        ensures
            r == (self.control & 0x02 != 0),
    {
        self.control & 0x02 != 0
    }

    /// Attack setting (high nibble of AD).
    pub fn attack_rate(&self) -> (r: u8)
        ensures
            r == (self.attack_decay >> 4u8) & 0x0F,
            r < 16,
    {
        let v = self.attack_decay;
        proof {
            lemma_nibbles(v);
        }
        (v >> 4u8) & 0x0F
    }

    /// Decay setting (low nibble of AD).
    pub fn decay_rate(&self) -> (r: u8)
        ensures
            r == self.attack_decay & 0x0F,
            r < 16,
    {
        let v = self.attack_decay;
        proof {
            lemma_nibbles(v);
        }
        v & 0x0F
    }

    /// Sustain level (high nibble of SR).
    pub fn sustain_level(&self) -> (r: u8)
        ensures
            r == (self.sustain_release >> 4u8) & 0x0F,
            r < 16,
    {
        let v = self.sustain_release;
        proof {
            lemma_nibbles(v);
        }
        (v >> 4u8) & 0x0F
    }

    /// Release setting (low nibble of SR).
    pub fn release_rate(&self) -> (r: u8)
        ensures
            r == self.sustain_release & 0x0F,
            r < 16,
    {
        let v = self.sustain_release;
        proof {
            lemma_nibbles(v);
        }
        v & 0x0F
    }

    /// Sustain level scaled to the envelope range: level times 17 (0..255).
    pub fn sustain_value(&self) -> (r: u8)
        ensures
            r == ((self.sustain_release >> 4u8) & 0x0F) * 17,
    {
        let s = self.sustain_level();
        s * 17
    }

    /// Exponential-decay divider for the current envelope level:
    /// 1 from 94 up, 2 from 55, 4 from 27, 8 from 15, 16 from 7, else 30.
    pub fn get_exp_period(&self) -> (r: u8)
        ensures
            r == (if self.envelope_counter >= 94 {
                1u8
            } else if self.envelope_counter >= 55 {
                2u8
            } else if self.envelope_counter >= 27 {
                4u8
            } else if self.envelope_counter >= 15 {
                8u8
            } else if self.envelope_counter >= 7 {
                16u8
            } else {
                30u8
            }),
    {
        let env = self.envelope_counter;
        if env >= 94 {
            1
        } else if env >= 55 {
            2
        } else if env >= 27 {
            4
        } else if env >= 15 {
            8
        } else if env >= 7 {
            16
        } else {
            30
        }
    }

    /// Accumulator bit 23.
    pub fn accumulator_msb(&self) -> (r: bool)
        ensures
            r == (self.accumulator & 0x0080_0000 != 0),
    {
        self.accumulator & 0x0080_0000 != 0
    }

    /// Accumulator bit 19.
    pub fn accumulator_bit19(&self) -> (r: bool)
        ensures
            r == (self.accumulator & 0x0008_0000 != 0),
    {
        self.accumulator & 0x0008_0000 != 0
    }

    /// Clock the noise LFSR once.
    pub fn clock_lfsr(&mut self)
        ensures
            *final(self) == (SidVoice { lfsr: lfsr_next(old(self).lfsr), ..*old(self) }),
    {
        let bit22 = (self.lfsr >> 22u32) & 1;
        let bit17 = (self.lfsr >> 17u32) & 1;
        let feedback = bit22 ^ bit17;
        self.lfsr = ((self.lfsr << 1u32) | feedback) & 0x7F_FFFF;
    }

    /// Sawtooth output.
    pub fn generate_sawtooth(&self) -> (r: u16)
        ensures
            r == sawtooth_of(self.accumulator),
            r <= 0xFFF,
    {
        let a = self.accumulator;
        assert((a >> 12u32) & 0xFFF <= 0xFFF) by (bit_vector);
        ((a >> 12u32) & 0xFFF) as u16
    }

    /// Triangle output; with ring modulation the MSB comes from
    /// `ring_mod_msb`.
    pub fn generate_triangle(&self, ring_mod_msb: bool) -> (r: u16)
        ensures
            r == triangle_of(self.accumulator, self.triangle_msb(ring_mod_msb)),
            r <= 0x7FF,
    {
        let msb = if self.ring_mod_enabled() {
            ring_mod_msb
        } else {
            self.accumulator_msb()
        };
        let a = self.accumulator;
        assert((a >> 12u32) & 0x7FF <= 0x7FF) by (bit_vector);
        let acc_bits = ((a >> 12u32) & 0x7FF) as u16;
        assert(acc_bits <= 0x7FF ==> acc_bits ^ 0x7FF <= 0x7FF) by (bit_vector);
        if msb {
            acc_bits ^ 0x7FF
        } else {
            acc_bits
        }
    }

    /// Pulse output.
    pub fn generate_pulse(&self) -> (r: u16)
        ensures
            r == pulse_of(self.accumulator, self.pulse_width),
    {
        let acc_top12 = ((self.accumulator >> 12u32) & 0xFFF) as u16;
        if acc_top12 < self.pulse_width {
            0xFFF
        } else {
            0
        }
    }

    /// Noise output.
    pub fn generate_noise(&self) -> (r: u16)
        ensures
            r == noise_of(self.lfsr),
            r <= 0xFF0,
    {
        let lfsr = self.lfsr;
        assert(forall|x: u32, k: u32| #[trigger] ((x >> k) & 1) <= 1) by (bit_vector);
        assert(lfsr & 1 == (lfsr >> 0u32) & 1) by (bit_vector);
        let bit0 = (lfsr & 1) as u16;
        let bit2 = ((lfsr >> 2u32) & 1) as u16;
        let bit5 = ((lfsr >> 5u32) & 1) as u16;
        let bit9 = ((lfsr >> 9u32) & 1) as u16;
        let bit11 = ((lfsr >> 11u32) & 1) as u16;
        let bit14 = ((lfsr >> 14u32) & 1) as u16;
        let bit18 = ((lfsr >> 18u32) & 1) as u16;
        let bit20 = ((lfsr >> 20u32) & 1) as u16;
        let r = (bit0 << 4u16) | (bit2 << 5u16) | (bit5 << 6u16) | (bit9 << 7u16) | (bit11 << 8u16)
            | (bit14 << 9u16) | (bit18 << 10u16) | (bit20 << 11u16);
        assert(r <= 0xFF0) by (bit_vector)
            requires
                bit0 <= 1 && bit2 <= 1 && bit5 <= 1 && bit9 <= 1 && bit11 <= 1 && bit14 <= 1
                    && bit18 <= 1 && bit20 <= 1,
                r == (bit0 << 4u16) | (bit2 << 5u16) | (bit5 << 6u16) | (bit9 << 7u16) | (bit11
                    << 8u16) | (bit14 << 9u16) | (bit18 << 10u16) | (bit20 << 11u16),
        ;
        r
    }

    /// The combined waveform of the selected generators.
    pub fn generate_waveform(&self, ring_mod_msb: bool) -> (r: u16)
        ensures
            r == self.waveform_output(ring_mod_msb),
            r <= 0xFFF,
    {
        let waveform_bits = self.waveform();
        if waveform_bits == 0 {
            return 0;
        }
        let mut output = 0xFFFu16;
        let t: u16 = if self.triangle_enabled() {
            self.generate_triangle(ring_mod_msb)
        } else {
            0xFFF
        };
        let s: u16 = if self.sawtooth_enabled() {
            self.generate_sawtooth()
        } else {
            0xFFF
        };
        let p: u16 = if self.pulse_enabled() {
            self.generate_pulse()
        } else {
            0xFFF
        };
        let n: u16 = if self.noise_enabled() {
            self.generate_noise()
        } else {
            0xFFF
        };
        output = output & t;
        output = output & s;
        output = output & p;
        output = output & n;
        assert(0xFFFu16 & t & s & p & n <= 0xFFF) by (bit_vector);
        output
    }
}

impl Default for SidVoice {
    fn default() -> (v: Self)
        ensures
            v == SidVoice::spec_power_on(),
    {
        Self::new()
    }
}

/// The LFSR never leaves its 23 bits and never falls into the all-zero
/// lock-up state from a non-zero state.
pub proof fn lemma_lfsr_stays_live(l: u32)
    requires
        0 < l <= 0x7F_FFFF,
    ensures
        0 < lfsr_next(l) <= 0x7F_FFFF,
{
    assert(0 < l <= 0x7F_FFFF ==> 0 < ((l << 1u32) | (((l >> 22u32) & 1) ^ ((l >> 17u32) & 1)))
        & 0x7F_FFFF <= 0x7F_FFFF) by (bit_vector);
}

/// Both nibbles of a byte are below 16.
proof fn lemma_nibbles(v: u8)
    ensures
        (v >> 4u8) & 0x0F < 16,
        v & 0x0F < 16,
{
    assert((v >> 4u8) & 0x0F < 16 && v & 0x0F < 16) by (bit_vector);
}

/// Selecting extra waveforms can only clear output bits: the combined
/// output is a bitwise subset of each selected generator's output.
pub proof fn lemma_waveform_and_subset(v: SidVoice, ring_mod_msb: bool)
    requires
        (v.control >> 4u8) & 0x0F != 0,
    ensures
        v.control & 0x20 != 0 ==> v.waveform_output(ring_mod_msb) & sawtooth_of(v.accumulator)
            == v.waveform_output(ring_mod_msb),
        v.control & 0x80 != 0 ==> v.waveform_output(ring_mod_msb) & noise_of(v.lfsr)
            == v.waveform_output(ring_mod_msb),
        v.control & 0x40 != 0 ==> v.waveform_output(ring_mod_msb) & pulse_of(
            v.accumulator,
            v.pulse_width,
        ) == v.waveform_output(ring_mod_msb),
{
    let w = v.waveform_output(ring_mod_msb);
    let t: u16 = if v.control & 0x10 != 0 {
        triangle_of(v.accumulator, v.triangle_msb(ring_mod_msb))
    } else {
        0xFFF
    };
    let s: u16 = if v.control & 0x20 != 0 { sawtooth_of(v.accumulator) } else { 0xFFF };
    let p: u16 = if v.control & 0x40 != 0 { pulse_of(v.accumulator, v.pulse_width) } else { 0xFFF };
    let n: u16 = if v.control & 0x80 != 0 { noise_of(v.lfsr) } else { 0xFFF };
    assert(w == 0xFFFu16 & t & s & p & n);
    assert((0xFFFu16 & t & s & p & n) & s == 0xFFFu16 & t & s & p & n && (0xFFFu16 & t & s & p
        & n) & p == 0xFFFu16 & t & s & p & n && (0xFFFu16 & t & s & p & n) & n == 0xFFFu16 & t & s
        & p & n) by (bit_vector);
}


/// Accumulator bit 23 of a voice (hard-sync and ring-modulation source).
pub open spec fn msb_of(v: SidVoice) -> bool {
    v.accumulator & 0x80_0000 != 0
}

/// The voice whose MSB syncs and ring-modulates voice `i`: voice 1 takes
/// voice 3, voice 2 takes voice 1, voice 3 takes voice 2.
pub open spec fn modulator_of(i: int) -> int {
    if i == 0 { 2 } else { i - 1 }
}

/// One oscillator clock of a voice, before hard sync: the previous bit 23
/// and bit 19 are recorded; with the test bit set the accumulator is held at
/// zero and the LFSR reset to all ones; otherwise the accumulator advances
/// by the frequency modulo 2^24 and the LFSR is clocked when bit 19 rises.
pub open spec fn voice_oscillated(v: SidVoice) -> SidVoice {
    let prev_msb = v.accumulator & 0x80_0000 != 0;
    let prev_bit19 = v.accumulator & 0x08_0000 != 0;
    if v.control & 0x08 != 0 {
        SidVoice { prev_msb, prev_bit19, accumulator: 0, lfsr: 0x7F_FFFF, ..v }
    } else {
        let acc = ((v.accumulator as int + v.freq as int) % 0x100_0000) as u32;
        SidVoice {
            prev_msb,
            prev_bit19,
            accumulator: acc,
            lfsr: if !prev_bit19 && acc & 0x08_0000 != 0 {
                lfsr_next(v.lfsr)
            } else {
                v.lfsr
            },
            ..v
        }
    }
}

/// Hard sync: a voice with SYNC set is reset to zero when its source's MSB
/// went from 0 to 1 on this clock.
pub open spec fn hard_synced(v: SidVoice, source: SidVoice) -> SidVoice {
    if v.control & 0x02 != 0 && !source.prev_msb && msb_of(source) {
        SidVoice { accumulator: 0, ..v }
    } else {
        v
    }
}

/// One oscillator clock of the three voices: all accumulators advance, then
/// hard sync is applied to voices 1, 2 and 3 in turn (each seeing the
/// already-synced state of its source).
pub open spec fn oscillators_clocked(vs: Seq<SidVoice>) -> Seq<SidVoice> {
    let a = voice_oscillated(vs[0]);
    let b = voice_oscillated(vs[1]);
    let c = voice_oscillated(vs[2]);
    let a2 = hard_synced(a, c);
    let b2 = hard_synced(b, a2);
    let c2 = hard_synced(c, b2);
    seq![a2, b2, c2]
}

/// The exponential-decay divider for envelope level `level`.
pub open spec fn exp_period_of(level: u8) -> u8 {
    if level >= 94 {
        1
    } else if level >= 55 {
        2
    } else if level >= 27 {
        4
    } else if level >= 15 {
        8
    } else if level >= 7 {
        16
    } else {
        30
    }
}

/// The sustain level of a voice on the envelope scale (0, 17, ..., 255).
pub open spec fn sustain_of(v: SidVoice) -> u8 {
    (((v.sustain_release >> 4u8) & 0x0F) * 17) as u8
}

/// The rate period of the envelope phase: the attack, decay or release
/// table entry for the voice's setting (sustain has none).
pub open spec fn rate_period_of(v: SidVoice) -> u16 {
    match v.envelope_state {
        EnvelopeState::Attack => ATTACK_RATE_PERIODS@[((v.attack_decay >> 4u8) & 0x0F) as int],
        EnvelopeState::Decay => DECAY_RELEASE_RATE_PERIODS@[(v.attack_decay & 0x0F) as int],
        EnvelopeState::Sustain => 0,
        EnvelopeState::Release => DECAY_RELEASE_RATE_PERIODS@[(v.sustain_release & 0x0F) as int],
    }
}

/// A wrapping 8-bit increment.
pub open spec fn wrapping_inc_u8(x: u8) -> u8 {
    if x == 0xFF { 0 } else { (x + 1) as u8 }
}

/// A wrapping 16-bit increment.
pub open spec fn wrapping_inc_u16(x: u16) -> u16 {
    if x == 0xFFFF { 0 } else { (x + 1) as u16 }
}

/// One exponential-decay step from `level`: the exponential counter
/// advances, and when it reaches the divider for `level` it restarts and
/// the level drops by one (not below zero). Returns (level, counter).
pub open spec fn exp_step(level: u8, exp_counter: u8) -> (u8, u8) {
    let x = wrapping_inc_u8(exp_counter);
    if x >= exp_period_of(level) {
        (if level > 0 { (level - 1) as u8 } else { 0u8 }, 0u8)
    } else {
        (level, x)
    }
}

/// One envelope clock of a voice. The rate counter advances; in sustain
/// nothing else happens. When the counter reaches the phase's rate period it
/// restarts and the phase steps: attack raises the level by one and enters
/// decay at 255; decay steps exponentially while above the sustain level
/// and enters sustain (at exactly the sustain level) once at or below it;
/// release steps exponentially while above zero.
pub open spec fn envelope_clocked(v: SidVoice) -> SidVoice {
    let rc = wrapping_inc_u16(v.rate_counter);
    if v.envelope_state == EnvelopeState::Sustain || rc < rate_period_of(v) {
        SidVoice { rate_counter: rc, ..v }
    } else {
        match v.envelope_state {
            EnvelopeState::Attack => {
                let level: u8 = if v.envelope_counter < 255 {
                    (v.envelope_counter + 1) as u8
                } else {
                    255
                };
                if level == 255 {
                    SidVoice {
                        rate_counter: 0,
                        envelope_counter: 255,
                        envelope_state: EnvelopeState::Decay,
                        exp_counter: 0,
                        ..v
                    }
                } else {
                    SidVoice { rate_counter: 0, envelope_counter: level, ..v }
                }
            },
            EnvelopeState::Decay => {
                let sustain = sustain_of(v);
                let stepped = if v.envelope_counter > sustain {
                    exp_step(v.envelope_counter, v.exp_counter)
                } else {
                    (v.envelope_counter, v.exp_counter)
                };
                if stepped.0 <= sustain {
                    SidVoice {
                        rate_counter: 0,
                        envelope_counter: sustain,
                        envelope_state: EnvelopeState::Sustain,
                        exp_counter: stepped.1,
                        ..v
                    }
                } else {
                    SidVoice {
                        rate_counter: 0,
                        envelope_counter: stepped.0,
                        exp_counter: stepped.1,
                        ..v
                    }
                }
            },
            _ => {
                let stepped = if v.envelope_counter > 0 {
                    exp_step(v.envelope_counter, v.exp_counter)
                } else {
                    (v.envelope_counter, v.exp_counter)
                };
                SidVoice { rate_counter: 0, envelope_counter: stepped.0, exp_counter: stepped.1, ..v }
            },
        }
    }
}

/// The envelope clock applied to each of the three voices.
pub open spec fn envelopes_clocked(vs: Seq<SidVoice>) -> Seq<SidVoice> {
    seq![envelope_clocked(vs[0]), envelope_clocked(vs[1]), envelope_clocked(vs[2])]
}

/// A voice after a write of `value` to its register `reg` (0-6: frequency
/// low/high, pulse width low/high nibble, control, attack/decay,
/// sustain/release). A rising gate starts the attack, a falling gate the
/// release.
pub open spec fn voice_register_written(v: SidVoice, reg: int, value: u8) -> SidVoice {
    if reg == 0 {
        SidVoice { freq: (v.freq & 0xFF00) | (value as u16), ..v }
    } else if reg == 1 {
        SidVoice { freq: (v.freq & 0x00FF) | ((value as u16) << 8u16), ..v }
    } else if reg == 2 {
        SidVoice { pulse_width: (v.pulse_width & 0xF00) | (value as u16), ..v }
    } else if reg == 3 {
        SidVoice { pulse_width: (v.pulse_width & 0x0FF) | (((value & 0x0F) as u16) << 8u16), ..v }
    } else if reg == 4 {
        let was_gate = v.control & 0x01 != 0;
        let gate = value & 0x01 != 0;
        SidVoice {
            control: value,
            envelope_state: if !was_gate && gate {
                EnvelopeState::Attack
            } else if was_gate && !gate {
                EnvelopeState::Release
            } else {
                v.envelope_state
            },
            ..v
        }
    } else if reg == 5 {
        SidVoice { attack_decay: value, ..v }
    } else {
        SidVoice { sustain_release: value, ..v }
    }
}

/// The SID filter registers. The two filter accumulators are kept as the
/// bit patterns of their single-precision values.
#[derive(Debug, Clone, Copy, PartialEq, Eq, Structural)]
pub struct SidFilter {
    /// 11-bit cutoff frequency.
    pub cutoff: u16,
    /// 4-bit resonance.
    pub resonance: u8,
    /// Voices routed through the filter (bits 0-2, bit 3 external input).
    pub routing: u8,
    /// Filter mode (bits 4-6 of $D418).
    pub mode: u8,
    /// Bit pattern of the low-pass accumulator.
    pub low_bits: u32,
    /// Bit pattern of the band-pass accumulator.
    pub band_bits: u32,
}

impl SidFilter {
    /// The power-on filter.
    pub open spec fn spec_power_on() -> SidFilter {
        SidFilter { cutoff: 0, resonance: 0, routing: 0, mode: 0, low_bits: 0, band_bits: 0 }
    }

    /// All registers zero, accumulators at 0.0.
    pub fn new() -> (f: Self)
        ensures
            f == SidFilter::spec_power_on(),
    {
        SidFilter { cutoff: 0, resonance: 0, routing: 0, mode: 0, low_bits: 0, band_bits: 0 }
    }
}

impl Default for SidFilter {
    fn default() -> (f: Self)
        ensures
            f == SidFilter::spec_power_on(),
    {
        Self::new()
    }
}

/// Abstract state of the SID chip.
pub struct SidView {
    pub voices: Seq<SidVoice>,
    pub filter: SidFilter,
    pub volume: u8,
    pub audio_enabled: bool,
}

/// The chip after a register write of `value` to `offset`: $00-$14 are the
/// three voices' seven registers each, $15/$16 the cutoff's low 3 and high
/// 8 bits, $17 routing (low nibble) and resonance (high nibble), $18 volume
/// (low nibble) and filter mode (bits 4-6); other offsets are ignored.
pub open spec fn sid_written(s: SidView, offset: u16, value: u8) -> SidView {
    if offset < 0x15 {
        let k = offset as int / 7;
        SidView {
            voices: s.voices.update(k, voice_register_written(s.voices[k], offset as int % 7, value)),
            ..s
        }
    } else if offset == 0x15 {
        SidView {
            filter: SidFilter { cutoff: (s.filter.cutoff & 0x7F8) | ((value & 0x07) as u16), ..s.filter },
            ..s
        }
    } else if offset == 0x16 {
        SidView {
            filter: SidFilter { cutoff: (s.filter.cutoff & 0x007) | ((value as u16) << 3u16), ..s.filter },
            ..s
        }
    } else if offset == 0x17 {
        SidView {
            filter: SidFilter {
                routing: value & 0x0F,
                resonance: (value >> 4u8) & 0x0F,
                ..s.filter
            },
            ..s
        }
    } else if offset == 0x18 {
        SidView {
            volume: value & 0x0F,
            filter: SidFilter { mode: (value >> 4u8) & 0x07, ..s.filter },
            ..s
        }
    } else {
        s
    }
}

/// What a register read returns: voice 3's oscillator (accumulator bits
/// 16-23) at $1B, its envelope at $1C, $FF for the paddles at $19/$1A, and
/// 0 for the write-only registers.
pub open spec fn sid_read_value(s: SidView, offset: u16) -> u8 {
    if offset == 0x1B {
        ((s.voices[2].accumulator >> 16u32) & 0xFF) as u8
    } else if offset == 0x1C {
        s.voices[2].envelope_counter
    } else if offset == 0x19 || offset == 0x1A {
        0xFF
    } else {
        0
    }
}

/// A voice's level: its waveform scaled by its envelope (divided by 256).
pub open spec fn voice_level(v: SidVoice, ring_mod_msb: bool) -> int {
    (v.waveform_output(ring_mod_msb) as int * v.envelope_counter as int) / 256
}

/// The mixed output level: the three voice levels summed, scaled by the
/// master volume (divided by 16).
pub open spec fn output_level_of(s: SidView) -> int {
    let l0 = voice_level(s.voices[0], msb_of(s.voices[2]));
    let l1 = voice_level(s.voices[1], msb_of(s.voices[0]));
    let l2 = voice_level(s.voices[2], msb_of(s.voices[1]));
    ((l0 + l1 + l2) * s.volume as int) / 16
}

/// The three power-on voices.
pub open spec fn power_on_voices() -> Seq<SidVoice> {
    seq![SidVoice::spec_power_on(), SidVoice::spec_power_on(), SidVoice::spec_power_on()]
}

/// MOS 6581 Sound Interface Device: voices, filter registers, master
/// volume and the audio-enable flag.
#[derive(Debug)]
pub struct Sid6581 {
    voices: [SidVoice; VOICE_COUNT],
    filter: SidFilter,
    volume: u8,
    audio_enabled: bool,
}

impl View for Sid6581 {
    type V = SidView;

    closed spec fn view(&self) -> SidView {
        SidView {
            voices: self.voices@,
            filter: self.filter,
            volume: self.volume,
            audio_enabled: self.audio_enabled,
        }
    }
}

/// Clock one voice's oscillator.
fn oscillate_voice(v: &mut SidVoice)
    ensures
        *final(v) == voice_oscillated(*old(v)),
{
    let prev_msb = v.accumulator_msb();
    let prev_bit19 = v.accumulator_bit19();
    v.prev_msb = prev_msb;
    v.prev_bit19 = prev_bit19;
    if v.test_bit() {
        v.accumulator = 0;
        v.lfsr = 0x7F_FFFF;
        return;
    }
    let sum: u64 = v.accumulator as u64 + v.freq as u64;
    v.accumulator = (sum % 0x100_0000) as u32;
    if !prev_bit19 && v.accumulator_bit19() {
        v.clock_lfsr();
    }
}

/// Apply hard sync from `source` to `v`.
fn hard_sync(v: &mut SidVoice, source: &SidVoice)
    ensures
        *final(v) == hard_synced(*old(v), *source),
{
    if v.sync_enabled() && !source.prev_msb && source.accumulator_msb() {
        v.accumulator = 0;
    }
}

/// Clock one voice's envelope generator.
fn clock_envelope(v: &mut SidVoice)
    ensures
        *final(v) == envelope_clocked(*old(v)),
{
    v.rate_counter = if v.rate_counter == 0xFFFF {
        0
    } else {
        v.rate_counter + 1
    };
    let rate_period: u16 = match v.envelope_state {
        EnvelopeState::Attack => ATTACK_RATE_PERIODS[v.attack_rate() as usize],
        EnvelopeState::Decay => DECAY_RELEASE_RATE_PERIODS[v.decay_rate() as usize],
        EnvelopeState::Sustain => 0,
        EnvelopeState::Release => DECAY_RELEASE_RATE_PERIODS[v.release_rate() as usize],
    };
    if v.envelope_state == EnvelopeState::Sustain {
        return;
    }
    if v.rate_counter >= rate_period {
        v.rate_counter = 0;
        match v.envelope_state {
            EnvelopeState::Attack => {
                if v.envelope_counter < 255 {
                    v.envelope_counter = v.envelope_counter + 1;
                }
                if v.envelope_counter == 255 {
                    v.envelope_state = EnvelopeState::Decay;
                    v.exp_counter = 0;
                }
            },
            EnvelopeState::Decay => {
                let sustain = v.sustain_value();
                if v.envelope_counter > sustain {
                    exp_decrement(v);
                }
                if v.envelope_counter <= sustain {
                    v.envelope_counter = sustain;
                    v.envelope_state = EnvelopeState::Sustain;
                }
            },
            EnvelopeState::Sustain => {},
            EnvelopeState::Release => {
                if v.envelope_counter > 0 {
                    exp_decrement(v);
                }
            },
        }
    }
}

/// One exponential-decay step of a voice's envelope.
fn exp_decrement(v: &mut SidVoice)
    ensures
        *final(v) == (SidVoice {
            envelope_counter: exp_step(old(v).envelope_counter, old(v).exp_counter).0,
            exp_counter: exp_step(old(v).envelope_counter, old(v).exp_counter).1,
            ..*old(v)
        }),
{
    v.exp_counter = if v.exp_counter == 0xFF {
        0
    } else {
        v.exp_counter + 1
    };
    let exp_period = v.get_exp_period();
    if v.exp_counter >= exp_period {
        v.exp_counter = 0;
        v.envelope_counter = if v.envelope_counter > 0 {
            v.envelope_counter - 1
        } else {
            0
        };
    }
}

/// Write voice register `reg` (0-6) of one voice.
fn write_voice_register(v: &mut SidVoice, reg: u16, value: u8)
    requires
        reg < 7,
    ensures
        *final(v) == voice_register_written(*old(v), reg as int, value),
{
    if reg == 0 {
        v.freq = (v.freq & 0xFF00) | value as u16;
    } else if reg == 1 {
        v.freq = (v.freq & 0x00FF) | ((value as u16) << 8u16);
    } else if reg == 2 {
        v.pulse_width = (v.pulse_width & 0xF00) | value as u16;
    } else if reg == 3 {
        v.pulse_width = (v.pulse_width & 0x0FF) | (((value & 0x0F) as u16) << 8u16);
    } else if reg == 4 {
        let was_gate = v.gate();
        v.control = value;
        if !was_gate && v.gate() {
            v.envelope_state = EnvelopeState::Attack;
        } else if was_gate && !v.gate() {
            v.envelope_state = EnvelopeState::Release;
        }
    } else if reg == 5 {
        v.attack_decay = value;
    } else {
        v.sustain_release = value;
    }
}


impl Sid6581 {
    /// Three silent voices, filter and volume zero, audio enabled.
    pub fn new() -> (s: Self)
        ensures
            s@ == (SidView {
                voices: power_on_voices(),
                filter: SidFilter::spec_power_on(),
                volume: 0,
                audio_enabled: true,
            }),
    {
        let s = Sid6581 {
            voices: [SidVoice::new(), SidVoice::new(), SidVoice::new()],
            filter: SidFilter::new(),
            volume: 0,
            audio_enabled: true,
        };
        assert(s@.voices =~= power_on_voices());
        s
    }

    /// Enable or disable audio output.
    pub fn set_audio_enabled(&mut self, enabled: bool)
        ensures
            final(self)@ == (SidView { audio_enabled: enabled, ..old(self)@ }),
    {
        self.audio_enabled = enabled;
    }

    /// Whether audio output is enabled.
    pub fn audio_enabled(&self) -> (r: bool)
        ensures
            r == self@.audio_enabled,
    {
        self.audio_enabled
    }

    /// Step one clock cycle: every oscillator advances (with hard sync), then
    /// every envelope generator.
    pub fn clock(&mut self)
        ensures
            final(self)@ == (SidView {
                voices: envelopes_clocked(oscillators_clocked(old(self)@.voices)),
                ..old(self)@
            }),
    {
        self.clock_phase_accumulators();
        self.clock_envelopes();
    }

    /// Advance the three phase accumulators, then apply hard sync to voices
    /// 1, 2 and 3 in turn.
    fn clock_phase_accumulators(&mut self)
        ensures
            final(self)@ == (SidView { voices: oscillators_clocked(old(self)@.voices), ..old(self)@ }),
    {
        let mut a = self.voices[0];
        let mut b = self.voices[1];
        let mut c = self.voices[2];
        oscillate_voice(&mut a);
        oscillate_voice(&mut b);
        oscillate_voice(&mut c);
        hard_sync(&mut a, &c);
        hard_sync(&mut b, &a);
        hard_sync(&mut c, &b);
        self.voices = [a, b, c];
        assert(self@.voices =~= oscillators_clocked(old(self)@.voices));
    }

    /// Clock the three envelope generators.
    fn clock_envelopes(&mut self)
        ensures
            final(self)@ == (SidView { voices: envelopes_clocked(old(self)@.voices), ..old(self)@ }),
    {
        let mut a = self.voices[0];
        let mut b = self.voices[1];
        let mut c = self.voices[2];
        clock_envelope(&mut a);
        clock_envelope(&mut b);
        clock_envelope(&mut c);
        self.voices = [a, b, c];
        assert(self@.voices =~= envelopes_clocked(old(self)@.voices));
    }

    /// The mixed output level: each voice's waveform (voice 1 ring-modulated
    /// by voice 3, voice 2 by voice 1, voice 3 by voice 2) scaled by its
    /// envelope, summed, and scaled by the master volume.
    pub fn output_level(&self) -> (r: u32)
        ensures
            r as int == output_level_of(self@),
    {
        let l0 = Self::level_of(&self.voices[0], self.voices[2].accumulator_msb());
        let l1 = Self::level_of(&self.voices[1], self.voices[0].accumulator_msb());
        let l2 = Self::level_of(&self.voices[2], self.voices[1].accumulator_msb());
        let mixed = l0 + l1 + l2;
        let volume = self.volume as u32;
        assert(mixed * volume <= 3 * 4096 * 255) by (nonlinear_arith)
            requires
                mixed <= 3 * 4096,
                volume <= 255,
        ;
        (mixed * volume) / 16
    }

    fn level_of(v: &SidVoice, ring_mod_msb: bool) -> (r: u32)
        ensures
            r as int == voice_level(*v, ring_mod_msb),
            r <= 4096,
    {
        let w = v.generate_waveform(ring_mod_msb) as u32;
        let e = v.envelope_counter as u32;
        assert(w * e <= 0xFFF * 255) by (nonlinear_arith)
            requires
                w <= 0xFFF,
                e <= 255,
        ;
        (w * e) / 256
    }

    /// The current waveform of voice `voice_idx` with its ring-modulation
    /// source; `None` past the third voice.
    pub fn voice_waveform_output(&self, voice_idx: usize) -> (r: Option<u16>)
        ensures
            voice_idx < 3 ==> r == Some(
                self@.voices[voice_idx as int].waveform_output(
                    msb_of(self@.voices[modulator_of(voice_idx as int)]),
                ),
            ),
            voice_idx >= 3 ==> r is None,
    {
        if voice_idx >= VOICE_COUNT {
            return None;
        }
        let ring_mod_msb = if voice_idx == 0 {
            self.voices[2].accumulator_msb()
        } else {
            self.voices[voice_idx - 1].accumulator_msb()
        };
        Some(self.voices[voice_idx].generate_waveform(ring_mod_msb))
    }

    /// Back to power-on voices, filter and volume; the audio flag is kept.
    pub fn reset(&mut self)
        ensures
            final(self)@ == (SidView {
                voices: power_on_voices(),
                filter: SidFilter::spec_power_on(),
                volume: 0,
                audio_enabled: old(self)@.audio_enabled,
            }),
    {
        self.voices = [SidVoice::new(), SidVoice::new(), SidVoice::new()];
        self.filter = SidFilter::new();
        self.volume = 0;
        assert(self@.voices =~= power_on_voices());
    }

    /// Master volume (0-15).
    pub fn volume(&self) -> (r: u8)
        ensures
            r == self@.volume,
    {
        self.volume
    }

    /// The filter registers.
    pub fn filter(&self) -> (r: SidFilter)
        ensures
            r == self@.filter,
    {
        self.filter
    }

    /// Voice `index`; `None` past the third voice.
    pub fn voice(&self, index: usize) -> (r: Option<&SidVoice>)
        ensures
            index < 3 ==> r is Some && *r->0 == self@.voices[index as int],
            index >= 3 ==> r is None,
    {
        if index < VOICE_COUNT {
            Some(&self.voices[index])
        } else {
            None
        }
    }

    /// Replace voice `index` (ignored past the third voice).
    pub fn set_voice(&mut self, index: usize, voice: SidVoice)
        ensures
            index < 3 ==> final(self)@ == (SidView {
                voices: old(self)@.voices.update(index as int, voice),
                ..old(self)@
            }),
            index >= 3 ==> final(self)@ == old(self)@,
    {
        if index < VOICE_COUNT {
            self.voices[index] = voice;
        }
    }

    /// Replace the filter registers.
    pub fn set_filter(&mut self, filter: SidFilter)
        ensures
            final(self)@ == (SidView { filter: filter, ..old(self)@ }),
    {
        self.filter = filter;
    }

    /// Set the master volume.
    pub fn set_volume(&mut self, volume: u8)
        ensures
            final(self)@ == (SidView { volume: volume, ..old(self)@ }),
    {
        self.volume = volume;
    }

    /// The chip always has its three voices.
    pub proof fn lemma_voice_count(s: &Sid6581)
        ensures
            s@.voices.len() == 3,
    {
    }

    /// Register read.
    pub fn read(&self, offset: u16) -> (r: u8)
        ensures
            r == sid_read_value(self@, offset),
    {
        if offset == 0x1B {
            ((self.voices[2].accumulator >> 16u32) & 0xFF) as u8
        } else if offset == 0x1C {
            self.voices[2].envelope_counter
        } else if offset == 0x19 || offset == 0x1A {
            0xFF
        } else {
            0
        }
    }

    /// Register write.
    pub fn write(&mut self, offset: u16, value: u8)
        ensures
            final(self)@ == sid_written(old(self)@, offset, value),
    {
        if offset < 0x15 {
            let k = (offset / 7) as usize;
            let mut v = self.voices[k];
            write_voice_register(&mut v, offset % 7, value);
            self.voices[k] = v;
        } else if offset == 0x15 {
            self.filter.cutoff = (self.filter.cutoff & 0x7F8) | (value & 0x07) as u16;
        } else if offset == 0x16 {
            self.filter.cutoff = (self.filter.cutoff & 0x007) | ((value as u16) << 3u16);
        } else if offset == 0x17 {
            self.filter.routing = value & 0x0F;
            self.filter.resonance = (value >> 4u8) & 0x0F;
        } else if offset == 0x18 {
            self.volume = value & 0x0F;
            self.filter.mode = (value >> 4u8) & 0x07;
        }
    }

    /// The registers occupy 32 bytes ($D400-$D41F).
    pub fn size(&self) -> (r: u16)
        ensures
            r == 32,
    {
        32
    }
}

impl Default for Sid6581 {
    fn default() -> (s: Self)
        ensures
            s@ == (SidView {
                voices: power_on_voices(),
                filter: SidFilter::spec_power_on(),
                volume: 0,
                audio_enabled: true,
            }),
    {
        Self::new()
    }
}


/// A voice after `n` oscillator clocks (without hard sync).
pub open spec fn voice_after_clocks(v: SidVoice, n: nat) -> SidVoice
    decreases n,
{
    if n == 0 {
        v
    } else {
        voice_oscillated(voice_after_clocks(v, (n - 1) as nat))
    }
}

/// With the test bit clear, each oscillator clock adds the frequency to the
/// 24-bit accumulator: after `n` clocks it holds the start value plus `n`
/// times the frequency, modulo 2^24.
pub proof fn lemma_accumulator_advances(v: SidVoice, n: nat)
    requires
        v.control & 0x08 == 0,
        v.accumulator < 0x100_0000,
    ensures
        voice_after_clocks(v, n).accumulator == (v.accumulator + n * v.freq) % 0x100_0000,
        voice_after_clocks(v, n).control == v.control,
        voice_after_clocks(v, n).freq == v.freq,
    decreases n,
{
    if n > 0 {
        let m = (n - 1) as nat;
        lemma_accumulator_advances(v, m);
        let f = v.freq as int;
        let a = v.accumulator as int;
        assert((m + 1) * f == m * f + f) by (nonlinear_arith);
        assert(0 <= m * f) by (nonlinear_arith)
            requires
                0 <= f,
        ;
        lemma_add_mod_noop_right(f, a + m * f, 0x100_0000);
    }
}

/// The test bit holds the accumulator at zero and resets the LFSR to all
/// ones.
pub proof fn lemma_test_bit_holds(v: SidVoice)
    requires
        v.control & 0x08 != 0,
    ensures
        voice_oscillated(v).accumulator == 0,
        voice_oscillated(v).lfsr == 0x7F_FFFF,
{
}

/// The oscillator never drives a live LFSR into the all-zero lock-up state.
pub proof fn lemma_oscillator_keeps_lfsr_live(v: SidVoice)
    requires
        0 < v.lfsr <= 0x7F_FFFF,
    ensures
        0 < voice_oscillated(v).lfsr <= 0x7F_FFFF,
{
    lemma_lfsr_stays_live(v.lfsr);
}

/// Writing the low then the high frequency byte of voice `k` sets its
/// frequency to `hi * 256 + lo`; likewise the pulse width from its low byte
/// and high nibble.
pub proof fn lemma_voice_word_registers(s: SidView, k: int, lo: u8, hi: u8)
    requires
        s.voices.len() == 3,
        0 <= k < 3,
    ensures
        sid_written(sid_written(s, (7 * k) as u16, lo), (7 * k + 1) as u16, hi).voices[k].freq
            == ((hi as u16) << 8u16) | (lo as u16),
        sid_written(sid_written(s, (7 * k + 2) as u16, lo), (7 * k + 3) as u16, hi).voices[k].pulse_width
            == (((hi & 0x0F) as u16) << 8u16) | (lo as u16),
{
    assert(k == 0 || k == 1 || k == 2);
    let f = s.voices[k].freq;
    let p = s.voices[k].pulse_width;
    assert((((f & 0xFF00) | (lo as u16)) & 0x00FF) | ((hi as u16) << 8u16) == ((hi as u16) << 8u16)
        | (lo as u16) && (((p & 0xF00) | (lo as u16)) & 0x0FF) | (((hi & 0x0F) as u16) << 8u16) == (
    ((hi & 0x0F) as u16) << 8u16) | (lo as u16)) by (bit_vector);
}

/// A rising gate starts the attack, a falling gate the release; otherwise
/// the envelope phase is kept.
pub proof fn lemma_gate_transitions(s: SidView, k: int, value: u8)
    requires
        s.voices.len() == 3,
        0 <= k < 3,
    ensures
        ({
            let before = s.voices[k];
            let after = sid_written(s, (7 * k + 4) as u16, value).voices[k];
            &&& (before.control & 0x01 == 0 && value & 0x01 != 0) ==> after.envelope_state
                == EnvelopeState::Attack
            &&& (before.control & 0x01 != 0 && value & 0x01 == 0) ==> after.envelope_state
                == EnvelopeState::Release
            &&& ((before.control & 0x01 == 0) == (value & 0x01 == 0)) ==> after.envelope_state
                == before.envelope_state
            &&& after.envelope_counter == before.envelope_counter
        }),
{
    assert(k == 0 || k == 1 || k == 2);
}

/// Sustain holds the envelope level.
pub proof fn lemma_sustain_holds(v: SidVoice)
    requires
        v.envelope_state == EnvelopeState::Sustain,
    ensures
        envelope_clocked(v).envelope_state == EnvelopeState::Sustain,
        envelope_clocked(v).envelope_counter == v.envelope_counter,
{
}

/// The attack never lowers the level and raises it by at most one step;
/// it stays in attack until it enters decay at 255.
pub proof fn lemma_attack_rises(v: SidVoice)
    requires
        v.envelope_state == EnvelopeState::Attack,
    ensures
        envelope_clocked(v).envelope_counter >= v.envelope_counter,
        envelope_clocked(v).envelope_counter <= v.envelope_counter + 1,
        envelope_clocked(v).envelope_state == EnvelopeState::Attack || (envelope_clocked(
            v,
        ).envelope_state == EnvelopeState::Decay && envelope_clocked(v).envelope_counter == 255),
{
}

/// Decay from at or above the sustain level never falls below it, lowers
/// the level by at most one step, and when it enters sustain the level is
/// exactly the sustain level.
pub proof fn lemma_decay_settles_at_sustain(v: SidVoice)
    requires
        v.envelope_state == EnvelopeState::Decay,
        v.envelope_counter >= sustain_of(v),
    ensures
        envelope_clocked(v).envelope_counter >= sustain_of(v),
        envelope_clocked(v).envelope_counter <= v.envelope_counter,
        envelope_clocked(v).envelope_counter + 1 >= v.envelope_counter,
        envelope_clocked(v).envelope_state == EnvelopeState::Decay || envelope_clocked(
            v,
        ).envelope_state == EnvelopeState::Sustain,
        envelope_clocked(v).envelope_state == EnvelopeState::Sustain ==> envelope_clocked(
            v,
        ).envelope_counter == sustain_of(v),
{
}

/// The release never raises the level, lowers it by at most one step,
/// and stays in release.
pub proof fn lemma_release_falls(v: SidVoice)
    requires
        v.envelope_state == EnvelopeState::Release,
    ensures
        envelope_clocked(v).envelope_state == EnvelopeState::Release,
        envelope_clocked(v).envelope_counter <= v.envelope_counter,
        envelope_clocked(v).envelope_counter + 1 >= v.envelope_counter,
{
}

/// What one chip clock does to each voice's envelope: sustain holds its
/// level, release stays in release and falls by at most one, attack rises
/// by at most one and leaves only for decay at 255, and decay falls by at
/// most one. The oscillators, clocked first, leave the envelopes alone.
pub proof fn lemma_clock_envelope_steps(s: SidView, i: int)
    requires
        0 <= i < 3,
    ensures
        ({
            let v = s.voices[i];
            let w = envelopes_clocked(oscillators_clocked(s.voices))[i];
            &&& v.envelope_state == EnvelopeState::Sustain ==> w.envelope_state
                == EnvelopeState::Sustain && w.envelope_counter == v.envelope_counter
            &&& v.envelope_state == EnvelopeState::Release ==> w.envelope_state
                == EnvelopeState::Release && w.envelope_counter <= v.envelope_counter
                && w.envelope_counter + 1 >= v.envelope_counter
            &&& v.envelope_state == EnvelopeState::Attack ==> v.envelope_counter
                <= w.envelope_counter <= v.envelope_counter + 1 && (w.envelope_state
                != EnvelopeState::Attack ==> w.envelope_state == EnvelopeState::Decay
                && w.envelope_counter == 255)
            &&& v.envelope_state == EnvelopeState::Decay && v.envelope_counter >= sustain_of(v)
                ==> w.envelope_counter <= v.envelope_counter && w.envelope_counter + 1
                >= v.envelope_counter
        }),
{
    let o = oscillators_clocked(s.voices)[i];
    assert(o.envelope_state == s.voices[i].envelope_state);
    assert(o.envelope_counter == s.voices[i].envelope_counter);
    assert(sustain_of(o) == sustain_of(s.voices[i]));
    if o.envelope_state == EnvelopeState::Sustain {
        lemma_sustain_holds(o);
    } else if o.envelope_state == EnvelopeState::Release {
        lemma_release_falls(o);
    } else if o.envelope_state == EnvelopeState::Attack {
        lemma_attack_rises(o);
    } else if o.envelope_counter >= sustain_of(o) {
        lemma_decay_settles_at_sustain(o);
    }
}

} // verus!
