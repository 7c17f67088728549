use c64_emu::devices::sid::{SidVoice, ATTACK_RATE_PERIODS, DECAY_RELEASE_RATE_PERIODS};

#[test]
fn test_sawtooth_waveform_output() {
    let mut voice = SidVoice::new();

    // Accumulator at 0 -> sawtooth output is 0
    voice.accumulator = 0x000000;
    assert_eq!(voice.generate_sawtooth(), 0);

    // Accumulator at mid-point -> sawtooth is half
    voice.accumulator = 0x800000; // Top 12 bits = 0x800
    assert_eq!(voice.generate_sawtooth(), 0x800);

    // Accumulator near max -> sawtooth near max
    voice.accumulator = 0xFFF000; // Top 12 bits = 0xFFF
    assert_eq!(voice.generate_sawtooth(), 0xFFF);

    // Test intermediate value
    voice.accumulator = 0x123000; // Top 12 bits = 0x123
    assert_eq!(voice.generate_sawtooth(), 0x123);
}

#[test]
fn test_triangle_waveform_rises_and_falls() {
    let mut voice = SidVoice::new();

    // Accumulator at 0 (MSB=0, rising phase) -> triangle output is 0
    voice.accumulator = 0x000000;
    assert_eq!(voice.generate_triangle(false), 0);

    // Accumulator at 25% (MSB=0, still rising)
    voice.accumulator = 0x400000; // Bits 11-22 = 0x400
    assert_eq!(voice.generate_triangle(false), 0x400);

    // Accumulator at 50% (MSB=0, peak of rising)
    voice.accumulator = 0x7FF000; // Just below MSB flip
    assert_eq!(voice.generate_triangle(false), 0x7FF);

    // Accumulator just past 50% (MSB=1, falling phase begins)
    voice.accumulator = 0x800000; // MSB=1, bits 11-22 = 0
                                  // XOR with 0x7FF: 0 ^ 0x7FF = 0x7FF
    assert_eq!(voice.generate_triangle(false), 0x7FF);

    // Accumulator at 75% (MSB=1, falling)
    voice.accumulator = 0xC00000; // Bits 11-22 = 0x400
                                  // XOR: 0x400 ^ 0x7FF = 0x3FF
    assert_eq!(voice.generate_triangle(false), 0x3FF);

    // Near end (MSB=1)
    voice.accumulator = 0xFFF000; // Bits 11-22 = 0x7FF
                                  // XOR: 0x7FF ^ 0x7FF = 0
    assert_eq!(voice.generate_triangle(false), 0);
}

#[test]
fn test_triangle_ring_modulation() {
    let mut voice = SidVoice::new();

    // Set accumulator with MSB=0
    voice.accumulator = 0x400000;

    // Ring mod disabled - use own MSB (0)
    voice.control = 0x10; // Triangle only, no ring mod
    assert_eq!(voice.generate_triangle(true), 0x400);

    // Ring mod enabled - use provided MSB (true = 1)
    voice.control = 0x14; // Triangle + ring mod
                          // With ring_mod_msb=true, XOR with 0x7FF
    assert_eq!(voice.generate_triangle(true), 0x400 ^ 0x7FF);
}

#[test]
fn test_pulse_waveform_threshold() {
    let mut voice = SidVoice::new();

    // Set pulse width to 50% (0x800)
    voice.pulse_width = 0x800;

    // Accumulator below pulse width -> output high
    voice.accumulator = 0x000000;
    assert_eq!(voice.generate_pulse(), 0xFFF);

    voice.accumulator = 0x7FF000; // Top 12 bits = 0x7FF (below 0x800)
    assert_eq!(voice.generate_pulse(), 0xFFF);

    // Accumulator at pulse width -> output low
    voice.accumulator = 0x800000; // Top 12 bits = 0x800 (equals threshold)
    assert_eq!(voice.generate_pulse(), 0);

    // Accumulator above pulse width -> output low
    voice.accumulator = 0xFFF000;
    assert_eq!(voice.generate_pulse(), 0);
}

#[test]
fn test_pulse_width_extremes() {
    let mut voice = SidVoice::new();

    // Pulse width 0 -> always low (no high portion)
    voice.pulse_width = 0;
    voice.accumulator = 0x000000;
    assert_eq!(voice.generate_pulse(), 0);

    // Pulse width max (0xFFF) -> always high (except at very end)
    voice.pulse_width = 0xFFF;
    voice.accumulator = 0x000000;
    assert_eq!(voice.generate_pulse(), 0xFFF);
    voice.accumulator = 0xFFE000; // Top 12 = 0xFFE (still below 0xFFF)
    assert_eq!(voice.generate_pulse(), 0xFFF);
    voice.accumulator = 0xFFF000; // Top 12 = 0xFFF (at threshold)
    assert_eq!(voice.generate_pulse(), 0);
}

#[test]
fn test_noise_waveform_uses_lfsr() {
    let voice = SidVoice::new();

    // Initial LFSR state is 0x7FFFF8
    // Output should be derived from specific bits
    let noise = voice.generate_noise();

    // The output should be non-zero given the LFSR state
    // We can't easily predict exact value without knowing bit positions,
    // but we can verify it's based on LFSR
    assert!(noise <= 0xFFF); // 12-bit output
}

#[test]
fn test_noise_changes_with_lfsr() {
    let mut voice = SidVoice::new();

    let noise1 = voice.generate_noise();

    // Change LFSR state
    voice.lfsr = 0x123456;
    let noise2 = voice.generate_noise();

    // Different LFSR should produce different noise
    assert_ne!(noise1, noise2);
}

#[test]
fn test_lfsr_clock_produces_new_state() {
    let mut voice = SidVoice::new();

    // Initial LFSR state
    let initial_lfsr = voice.lfsr;

    // Clock the LFSR
    voice.clock_lfsr();

    // LFSR should have changed
    assert_ne!(voice.lfsr, initial_lfsr);

    // LFSR should still be 23 bits (masked)
    assert!(voice.lfsr <= 0x7F_FFFF);
}

#[test]
fn test_lfsr_feedback_taps() {
    let mut voice = SidVoice::new();

    // Set LFSR to known state to verify feedback calculation
    // Feedback = bit22 XOR bit17
    // If bit22=1 and bit17=0, feedback = 1
    voice.lfsr = 0x40_0000; // bit22=1, bit17=0

    voice.clock_lfsr();

    // Shifted left by 1, with feedback=1 at bit 0, masked to 23 bits
    // 0x40_0000 << 1 = 0x80_0000 (before mask)
    // 0x80_0000 | 1 = 0x80_0001
    // 0x80_0001 & 0x7F_FFFF = 0x00_0001
    assert_eq!(voice.lfsr, 0x00_0001);
}

#[test]
fn test_lfsr_feedback_both_bits_same() {
    let mut voice = SidVoice::new();

    // If bit22=1 and bit17=1, feedback = 0 (XOR)
    voice.lfsr = 0x42_0000; // bit22=1, bit17=1

    voice.clock_lfsr();

    // feedback=0, so bit 0 is 0 after shift
    // 0x42_0000 << 1 = 0x84_0000
    // 0x84_0000 & 0x7F_FFFF = 0x04_0000
    assert_eq!(voice.lfsr, 0x04_0000);
}

#[test]
fn test_lfsr_sequence_is_deterministic() {
    let mut voice1 = SidVoice::new();
    let mut voice2 = SidVoice::new();

    // Both start with same state
    assert_eq!(voice1.lfsr, voice2.lfsr);

    // Clock both 100 times
    for _ in 0..100 {
        voice1.clock_lfsr();
        voice2.clock_lfsr();
    }

    // Should end up at same state
    assert_eq!(voice1.lfsr, voice2.lfsr);
}

#[test]
fn test_lfsr_never_zero() {
    let mut voice = SidVoice::new();

    // Clock LFSR many times and verify it never becomes zero
    // (a proper LFSR should never reach all-zeros state)
    for _ in 0..1000 {
        voice.clock_lfsr();
        assert_ne!(voice.lfsr, 0, "LFSR should never become zero");
    }
}

#[test]
fn test_lfsr_masks_to_23_bits() {
    let mut voice = SidVoice::new();

    // Set LFSR to max 23-bit value
    voice.lfsr = 0x7F_FFFF;

    // Clock it
    voice.clock_lfsr();

    // Result should still be within 23 bits
    assert!(voice.lfsr <= 0x7F_FFFF);

    // Clock many more times
    for _ in 0..1000 {
        voice.clock_lfsr();
        assert!(voice.lfsr <= 0x7F_FFFF, "LFSR exceeded 23 bits");
    }
}

#[test]
fn test_accumulator_bit19_helper() {
    let mut voice = SidVoice::new();

    // Test bit 19 detection
    voice.accumulator = 0x0000_0000;
    assert!(!voice.accumulator_bit19());

    voice.accumulator = 0x0007_FFFF; // Just below bit 19
    assert!(!voice.accumulator_bit19());

    voice.accumulator = 0x0008_0000; // Exactly bit 19
    assert!(voice.accumulator_bit19());

    voice.accumulator = 0x00FF_FFFF; // Bit 19 and higher bits set
    assert!(voice.accumulator_bit19());
}

#[test]
fn test_no_waveform_selected_outputs_zero() {
    let mut voice = SidVoice::new();

    // No waveform bits set
    voice.control = 0x00;
    voice.accumulator = 0x400000;

    assert_eq!(voice.generate_waveform(false), 0);
}

#[test]
fn test_single_waveform_selection() {
    let mut voice = SidVoice::new();
    voice.accumulator = 0x400000; // Mid-point
    voice.pulse_width = 0x800;

    // Triangle only
    voice.control = 0x10;
    let triangle_only = voice.generate_waveform(false);
    assert_eq!(triangle_only, voice.generate_triangle(false));

    // Sawtooth only
    voice.control = 0x20;
    let sawtooth_only = voice.generate_waveform(false);
    assert_eq!(sawtooth_only, voice.generate_sawtooth());

    // Pulse only
    voice.control = 0x40;
    let pulse_only = voice.generate_waveform(false);
    assert_eq!(pulse_only, voice.generate_pulse());

    // Noise only
    voice.control = 0x80;
    let noise_only = voice.generate_waveform(false);
    assert_eq!(noise_only, voice.generate_noise());
}

#[test]
fn test_combined_waveforms_are_anded() {
    let mut voice = SidVoice::new();
    voice.accumulator = 0x400000;
    voice.pulse_width = 0x800;

    // Triangle AND Sawtooth
    voice.control = 0x30; // Both triangle and sawtooth

    let combined = voice.generate_waveform(false);
    let expected = voice.generate_triangle(false) & voice.generate_sawtooth();

    assert_eq!(combined, expected);
}

#[test]
fn test_all_waveforms_combined() {
    let mut voice = SidVoice::new();
    voice.accumulator = 0x400000;
    voice.pulse_width = 0x800;

    // All waveforms
    voice.control = 0xF0;

    let combined = voice.generate_waveform(false);
    let expected = voice.generate_triangle(false)
        & voice.generate_sawtooth()
        & voice.generate_pulse()
        & voice.generate_noise();

    assert_eq!(combined, expected);
}

#[test]
fn test_waveform_control_bits() {
    let mut voice = SidVoice::new();

    voice.control = 0x00;
    assert!(!voice.triangle_enabled());
    assert!(!voice.sawtooth_enabled());
    assert!(!voice.pulse_enabled());
    assert!(!voice.noise_enabled());
    assert!(!voice.ring_mod_enabled());

    voice.control = 0x10;
    assert!(voice.triangle_enabled());
    assert!(!voice.sawtooth_enabled());

    voice.control = 0x20;
    assert!(!voice.triangle_enabled());
    assert!(voice.sawtooth_enabled());

    voice.control = 0x40;
    assert!(voice.pulse_enabled());

    voice.control = 0x80;
    assert!(voice.noise_enabled());

    voice.control = 0x04;
    assert!(voice.ring_mod_enabled());
}

#[test]
fn test_adsr_register_accessors() {
    let mut voice = SidVoice::new();

    // Set AD register to 0xF8 (Attack=15, Decay=8)
    voice.attack_decay = 0xF8;
    assert_eq!(voice.attack_rate(), 15);
    assert_eq!(voice.decay_rate(), 8);

    // Set SR register to 0x93 (Sustain=9, Release=3)
    voice.sustain_release = 0x93;
    assert_eq!(voice.sustain_level(), 9);
    assert_eq!(voice.release_rate(), 3);

    // Test sustain_value conversion (9 * 17 = 153)
    assert_eq!(voice.sustain_value(), 153);

    // Test boundary values
    voice.sustain_release = 0xF0; // Sustain=15, Release=0
    assert_eq!(voice.sustain_value(), 255);

    voice.sustain_release = 0x00; // Sustain=0, Release=0
    assert_eq!(voice.sustain_value(), 0);
}

#[test]
fn test_attack_rate_table_values() {
    // Verify the attack rate table has expected values
    assert_eq!(ATTACK_RATE_PERIODS[0], 9); // 2 ms
    assert_eq!(ATTACK_RATE_PERIODS[15], 31251); // 8 s

    // Verify all values are increasing
    for i in 1..16 {
        assert!(
            ATTACK_RATE_PERIODS[i] >= ATTACK_RATE_PERIODS[i - 1],
            "Attack rate should increase with index"
        );
    }
}

#[test]
fn test_decay_release_rate_table_values() {
    // Verify the decay/release rate table has expected values
    assert_eq!(DECAY_RELEASE_RATE_PERIODS[0], 9); // 6 ms
    assert_eq!(DECAY_RELEASE_RATE_PERIODS[15], 31251); // 24 s

    // Verify all values are increasing
    for i in 1..16 {
        assert!(
            DECAY_RELEASE_RATE_PERIODS[i] >= DECAY_RELEASE_RATE_PERIODS[i - 1],
            "Decay/Release rate should increase with index"
        );
    }
}

#[test]
fn test_exponential_period_thresholds() {
    let mut voice = SidVoice::new();

    // Test various envelope levels and their corresponding exp periods
    voice.envelope_counter = 255;
    assert_eq!(voice.get_exp_period(), 1);

    voice.envelope_counter = 100;
    assert_eq!(voice.get_exp_period(), 1);

    voice.envelope_counter = 94;
    assert_eq!(voice.get_exp_period(), 1);

    voice.envelope_counter = 93;
    assert_eq!(voice.get_exp_period(), 2);

    voice.envelope_counter = 55;
    assert_eq!(voice.get_exp_period(), 2);

    voice.envelope_counter = 54;
    assert_eq!(voice.get_exp_period(), 4);

    voice.envelope_counter = 27;
    assert_eq!(voice.get_exp_period(), 4);

    voice.envelope_counter = 26;
    assert_eq!(voice.get_exp_period(), 8);

    voice.envelope_counter = 15;
    assert_eq!(voice.get_exp_period(), 8);

    voice.envelope_counter = 14;
    assert_eq!(voice.get_exp_period(), 16);

    voice.envelope_counter = 7;
    assert_eq!(voice.get_exp_period(), 16);

    voice.envelope_counter = 6;
    assert_eq!(voice.get_exp_period(), 30);

    voice.envelope_counter = 0;
    assert_eq!(voice.get_exp_period(), 30);
}

