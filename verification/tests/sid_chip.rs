use c64_emu::devices::sid::{EnvelopeState, Sid6581, SidVoice};

fn voice(sid: &Sid6581, k: usize) -> SidVoice {
    *sid.voice(k).unwrap()
}

fn edit_voice(sid: &mut Sid6581, k: usize, edit: impl FnOnce(&mut SidVoice)) {
    let mut v = voice(sid, k);
    edit(&mut v);
    sid.set_voice(k, v);
}

#[test]
fn test_new_sid() {
    let sid = Sid6581::new();
    assert_eq!(sid.volume(), 0);
    assert!(sid.audio_enabled());
}

#[test]
fn test_voice_registers() {
    let mut sid = Sid6581::new();
    sid.write(0x00, 0x34);
    sid.write(0x01, 0x12);
    assert_eq!(voice(&sid, 0).freq, 0x1234);
    sid.write(0x02, 0xBC);
    sid.write(0x03, 0x0A);
    assert_eq!(voice(&sid, 0).pulse_width, 0xABC);
}

#[test]
fn test_gate_transition() {
    let mut sid = Sid6581::new();
    assert_eq!(voice(&sid, 0).envelope_state, EnvelopeState::Release);
    sid.write(0x04, 0x01);
    assert_eq!(voice(&sid, 0).envelope_state, EnvelopeState::Attack);
    sid.write(0x04, 0x00);
    assert_eq!(voice(&sid, 0).envelope_state, EnvelopeState::Release);
}

#[test]
fn test_filter_registers() {
    let mut sid = Sid6581::new();
    sid.write(0x15, 0x07);
    sid.write(0x16, 0xFF);
    assert_eq!(sid.filter().cutoff, 0x7FF);
    sid.write(0x17, 0xF7);
    assert_eq!(sid.filter().routing, 0x07);
    assert_eq!(sid.filter().resonance, 0x0F);
    sid.write(0x18, 0x7F);
    assert_eq!(sid.volume(), 0x0F);
    assert_eq!(sid.filter().mode, 0x07);
}

#[test]
fn test_read_only_registers() {
    let mut sid = Sid6581::new();
    edit_voice(&mut sid, 2, |v| {
        v.accumulator = 0x550000;
        v.envelope_counter = 0xAA;
    });
    assert_eq!(sid.read(0x1B), 0x55);
    assert_eq!(sid.read(0x1C), 0xAA);
}

#[test]
fn sid_test_size() {
    let sid = Sid6581::new();
    assert_eq!(sid.size(), 32);
}

#[test]
fn test_phase_accumulator_increments() {
    let mut sid = Sid6581::new();
    sid.write(0x00, 0x00);
    sid.write(0x01, 0x01);
    assert_eq!(voice(&sid, 0).accumulator, 0);
    sid.clock();
    assert_eq!(voice(&sid, 0).accumulator, 256);
    sid.clock();
    assert_eq!(voice(&sid, 0).accumulator, 512);
}

#[test]
fn test_phase_accumulator_wraps_at_24_bits() {
    let mut sid = Sid6581::new();
    sid.write(0x00, 0x00);
    sid.write(0x01, 0x10);
    edit_voice(&mut sid, 0, |v| v.accumulator = 0x00FF_F000);
    sid.clock();
    assert_eq!(voice(&sid, 0).accumulator, 0);
}

#[test]
fn test_phase_accumulator_frequency_change() {
    let mut sid = Sid6581::new();
    sid.write(0x00, 0x01);
    sid.write(0x01, 0x00);
    for _ in 0..10 {
        sid.clock();
    }
    assert_eq!(voice(&sid, 0).accumulator, 10);
    sid.write(0x00, 0x00);
    sid.write(0x01, 0x01);
    for _ in 0..10 {
        sid.clock();
    }
    assert_eq!(voice(&sid, 0).accumulator, 2570);
}

#[test]
fn test_test_bit_resets_accumulator() {
    let mut sid = Sid6581::new();
    sid.write(0x00, 0x00);
    sid.write(0x01, 0x10);
    for _ in 0..100 {
        sid.clock();
    }
    assert!(voice(&sid, 0).accumulator > 0);
    sid.write(0x04, 0x08);
    sid.clock();
    assert_eq!(voice(&sid, 0).accumulator, 0);
    sid.write(0x04, 0x00);
    sid.clock();
    assert_eq!(voice(&sid, 0).accumulator, 0x1000);
}

#[test]
fn test_hard_sync_resets_target_voice() {
    let mut sid = Sid6581::new();
    sid.write(0x00, 0x00);
    sid.write(0x01, 0x80);
    sid.write(0x07, 0x00);
    sid.write(0x08, 0x10);
    sid.write(0x0B, 0x02);
    for _ in 0..256 {
        sid.clock();
    }
    assert_eq!(
        voice(&sid, 1).accumulator,
        0,
        "Voice 2 should be reset by sync from voice 1"
    );
}

#[test]
fn test_all_three_voices_accumulate_independently() {
    let mut sid = Sid6581::new();
    sid.write(0x00, 0x01);
    sid.write(0x01, 0x00);
    sid.write(0x07, 0x02);
    sid.write(0x08, 0x00);
    sid.write(0x0E, 0x03);
    sid.write(0x0F, 0x00);
    for _ in 0..100 {
        sid.clock();
    }
    assert_eq!(voice(&sid, 0).accumulator, 100);
    assert_eq!(voice(&sid, 1).accumulator, 200);
    assert_eq!(voice(&sid, 2).accumulator, 300);
}

#[test]
fn test_voice_3_readback_reflects_accumulator() {
    let mut sid = Sid6581::new();
    sid.write(0x0E, 0x00);
    sid.write(0x0F, 0x10);
    for _ in 0..256 {
        sid.clock();
    }
    let osc_output = sid.read(0x1B);
    assert_eq!(osc_output, 0x10, "OSC3 should reflect accumulator bits 16-23");
}

#[test]
fn test_sync_voice_mapping() {
    let mut sid = Sid6581::new();
    for v in 0..3u16 {
        let base_offset = v * 7;
        sid.write(base_offset, 0x00);
        sid.write(base_offset + 1, 0x80);
    }
    sid.write(0x04, 0x02);
    for _ in 0..256 {
        sid.clock();
    }
    assert_eq!(voice(&sid, 0).accumulator, 0, "Voice 1 should be reset by voice 3");
}

#[test]
fn test_lfsr_clocked_on_bit19_transition() {
    let mut sid = Sid6581::new();
    sid.write(0x00, 0x00);
    sid.write(0x01, 0x80);
    let initial_lfsr = voice(&sid, 0).lfsr;
    for _ in 0..15 {
        sid.clock();
    }
    assert_eq!(
        voice(&sid, 0).lfsr,
        initial_lfsr,
        "LFSR should not clock until bit19 transitions"
    );
    sid.clock();
    assert_ne!(
        voice(&sid, 0).lfsr,
        initial_lfsr,
        "LFSR should clock on bit19 0->1 transition"
    );
}

#[test]
fn test_lfsr_not_clocked_on_bit19_already_set() {
    let mut sid = Sid6581::new();
    sid.write(0x00, 0x00);
    sid.write(0x01, 0x80);
    edit_voice(&mut sid, 0, |v| {
        v.accumulator = 0x0008_0000;
        v.prev_bit19 = true;
    });
    let initial_lfsr = voice(&sid, 0).lfsr;
    sid.clock();
    assert_eq!(
        voice(&sid, 0).lfsr,
        initial_lfsr,
        "LFSR should not clock when bit19 stays at 1"
    );
}

#[test]
fn test_test_bit_resets_lfsr() {
    let mut sid = Sid6581::new();
    sid.write(0x00, 0x00);
    sid.write(0x01, 0x80);
    for _ in 0..100 {
        sid.clock();
    }
    assert_ne!(voice(&sid, 0).lfsr, 0x7FFFF8);
    sid.write(0x04, 0x08);
    sid.clock();
    assert_eq!(voice(&sid, 0).lfsr, 0x7F_FFFF, "Test bit should reset LFSR to all 1s");
    assert_eq!(voice(&sid, 0).accumulator, 0, "Test bit should also reset accumulator");
}

#[test]
fn test_noise_output_changes_as_lfsr_clocks() {
    let mut sid = Sid6581::new();
    sid.write(0x00, 0x00);
    sid.write(0x01, 0x80);
    sid.write(0x04, 0x81);
    let mut outputs = Vec::new();
    for _ in 0..200 {
        sid.clock();
        outputs.push(voice(&sid, 0).generate_noise());
    }
    let unique_count = outputs
        .iter()
        .collect::<std::collections::HashSet<_>>()
        .len();
    assert!(
        unique_count > 1,
        "Noise output should change as LFSR clocks (got {} unique values)",
        unique_count
    );
}

#[test]
fn test_all_three_voices_have_independent_lfsr() {
    let mut sid = Sid6581::new();
    sid.write(0x00, 0x00);
    sid.write(0x01, 0x40);
    sid.write(0x07, 0x00);
    sid.write(0x08, 0x60);
    sid.write(0x0E, 0x00);
    sid.write(0x0F, 0x80);
    let initial = [voice(&sid, 0).lfsr, voice(&sid, 1).lfsr, voice(&sid, 2).lfsr];
    assert_eq!(initial[0], initial[1]);
    assert_eq!(initial[1], initial[2]);
    for _ in 0..1000 {
        sid.clock();
    }
    let final_states = [voice(&sid, 0).lfsr, voice(&sid, 1).lfsr, voice(&sid, 2).lfsr];
    let all_same = final_states[0] == final_states[1] && final_states[1] == final_states[2];
    assert!(!all_same, "Different frequencies should produce different LFSR evolution");
}

#[test]
fn test_sid_voice_waveform_output_method() {
    let mut sid = Sid6581::new();
    sid.write(0x04, 0x10);
    edit_voice(&mut sid, 0, |v| v.accumulator = 0x400000);
    let output = sid.voice_waveform_output(0);
    assert!(output.is_some());
    assert_eq!(output.unwrap(), voice(&sid, 0).generate_triangle(false));
    assert!(sid.voice_waveform_output(3).is_none());
}

#[test]
fn test_ring_modulation_in_sid() {
    let mut sid = Sid6581::new();
    sid.write(0x00, 0x00);
    sid.write(0x01, 0x10);
    sid.write(0x04, 0x14);
    sid.write(0x0E, 0x00);
    sid.write(0x0F, 0x40);
    edit_voice(&mut sid, 0, |v| v.accumulator = 0x400000);
    edit_voice(&mut sid, 2, |v| v.accumulator = 0x800000);
    let output = sid.voice_waveform_output(0);
    let expected_triangle = ((voice(&sid, 0).accumulator >> 12) & 0x7FF) as u16 ^ 0x7FF;
    assert_eq!(output.unwrap(), expected_triangle);
}

#[test]
fn test_gate_on_starts_attack() {
    let mut sid = Sid6581::new();
    assert_eq!(voice(&sid, 0).envelope_state, EnvelopeState::Release);
    assert_eq!(voice(&sid, 0).envelope_counter, 0);
    sid.write(0x04, 0x01);
    assert_eq!(voice(&sid, 0).envelope_state, EnvelopeState::Attack);
}

#[test]
fn test_gate_off_starts_release() {
    let mut sid = Sid6581::new();
    sid.write(0x04, 0x01);
    assert_eq!(voice(&sid, 0).envelope_state, EnvelopeState::Attack);
    edit_voice(&mut sid, 0, |v| v.envelope_counter = 128);
    sid.write(0x04, 0x00);
    assert_eq!(voice(&sid, 0).envelope_state, EnvelopeState::Release);
    assert_eq!(voice(&sid, 0).envelope_counter, 128);
}

#[test]
fn test_attack_phase_increases_envelope() {
    let mut sid = Sid6581::new();
    sid.write(0x05, 0x00);
    sid.write(0x04, 0x01);
    assert_eq!(voice(&sid, 0).envelope_state, EnvelopeState::Attack);
    assert_eq!(voice(&sid, 0).envelope_counter, 0);
    for _ in 0..20 {
        sid.clock();
    }
    assert!(
        voice(&sid, 0).envelope_counter > 0,
        "Envelope should increase during attack"
    );
}

#[test]
fn test_attack_reaches_max_then_decay() {
    let mut sid = Sid6581::new();
    sid.write(0x05, 0x00);
    sid.write(0x06, 0x80);
    sid.write(0x04, 0x01);
    for _ in 0..2500 {
        sid.clock();
    }
    assert_eq!(
        voice(&sid, 0).envelope_state,
        EnvelopeState::Decay,
        "Should be in Decay after attack completes"
    );
}

#[test]
fn test_decay_to_sustain() {
    let mut sid = Sid6581::new();
    sid.write(0x05, 0x00);
    sid.write(0x06, 0x80);
    sid.write(0x04, 0x01);
    edit_voice(&mut sid, 0, |v| {
        v.envelope_state = EnvelopeState::Decay;
        v.envelope_counter = 255;
    });
    for _ in 0..50000 {
        sid.clock();
    }
    assert_eq!(
        voice(&sid, 0).envelope_state,
        EnvelopeState::Sustain,
        "Should be in Sustain after decay completes"
    );
    let sustain_level = voice(&sid, 0).sustain_value();
    assert_eq!(
        voice(&sid, 0).envelope_counter,
        sustain_level,
        "Envelope should be at sustain level"
    );
}

#[test]
fn test_sustain_holds_level() {
    let mut sid = Sid6581::new();
    sid.write(0x06, 0xA0);
    sid.write(0x04, 0x01);
    edit_voice(&mut sid, 0, |v| {
        v.envelope_state = EnvelopeState::Sustain;
        v.envelope_counter = 170;
    });
    for _ in 0..1000 {
        sid.clock();
    }
    assert_eq!(
        voice(&sid, 0).envelope_state,
        EnvelopeState::Sustain,
        "Should remain in Sustain"
    );
    assert_eq!(
        voice(&sid, 0).envelope_counter,
        170,
        "Envelope should hold at sustain level"
    );
}

#[test]
fn test_release_from_sustain() {
    let mut sid = Sid6581::new();
    sid.write(0x05, 0x00);
    sid.write(0x06, 0xF0);
    edit_voice(&mut sid, 0, |v| {
        v.envelope_state = EnvelopeState::Sustain;
        v.envelope_counter = 255;
        v.control = 0x01;
    });
    sid.write(0x04, 0x00);
    assert_eq!(voice(&sid, 0).envelope_state, EnvelopeState::Release);
    for _ in 0..50000 {
        sid.clock();
    }
    assert_eq!(
        voice(&sid, 0).envelope_counter,
        0,
        "Envelope should decay to 0 during release"
    );
}

#[test]
fn test_release_exponential_decay() {
    let mut sid = Sid6581::new();
    sid.write(0x06, 0x00);
    edit_voice(&mut sid, 0, |v| {
        v.envelope_state = EnvelopeState::Release;
        v.envelope_counter = 200;
    });
    let mut values: Vec<u8> = Vec::new();
    values.push(voice(&sid, 0).envelope_counter);
    for i in 0..5000 {
        sid.clock();
        if i % 100 == 0 {
            values.push(voice(&sid, 0).envelope_counter);
        }
    }
    assert!(
        values.last().unwrap() < values.first().unwrap(),
        "Envelope should decrease over time during release"
    );
}

#[test]
fn test_voice_3_envelope_readback() {
    let mut sid = Sid6581::new();
    edit_voice(&mut sid, 2, |v| v.envelope_counter = 0xAB);
    let readback = sid.read(0x1C);
    assert_eq!(readback, 0xAB, "ENV3 readback should match envelope counter");
}

#[test]
fn test_all_three_voices_have_independent_envelopes() {
    let mut sid = Sid6581::new();
    sid.write(0x05, 0x00);
    sid.write(0x0C, 0x88);
    sid.write(0x13, 0xFF);
    sid.write(0x04, 0x01);
    sid.write(0x0B, 0x01);
    sid.write(0x12, 0x01);
    for _ in 0..1000 {
        sid.clock();
    }
    let env1 = voice(&sid, 0).envelope_counter;
    let _env2 = voice(&sid, 1).envelope_counter;
    let env3 = voice(&sid, 2).envelope_counter;
    assert!(
        env1 >= env3,
        "Voice 1 (fast attack) should have higher/equal envelope than voice 3 (slow attack)"
    );
}

#[test]
fn test_gate_on_during_release_restarts_attack() {
    let mut sid = Sid6581::new();
    sid.write(0x04, 0x01);
    for _ in 0..100 {
        sid.clock();
    }
    sid.write(0x04, 0x00);
    assert_eq!(voice(&sid, 0).envelope_state, EnvelopeState::Release);
    for _ in 0..50 {
        sid.clock();
    }
    sid.write(0x04, 0x01);
    assert_eq!(
        voice(&sid, 0).envelope_state,
        EnvelopeState::Attack,
        "Gate on during release should restart attack"
    );
}

#[test]
fn test_zero_sustain_goes_directly_to_zero() {
    let mut sid = Sid6581::new();
    sid.write(0x05, 0x00);
    sid.write(0x06, 0x00);
    sid.write(0x04, 0x01);
    edit_voice(&mut sid, 0, |v| {
        v.envelope_state = EnvelopeState::Decay;
        v.envelope_counter = 255;
    });
    for _ in 0..100000 {
        sid.clock();
        if voice(&sid, 0).envelope_state == EnvelopeState::Sustain {
            break;
        }
    }
    assert_eq!(voice(&sid, 0).envelope_state, EnvelopeState::Sustain);
    assert_eq!(
        voice(&sid, 0).envelope_counter,
        0,
        "Sustain=0 should result in envelope at 0"
    );
}

#[test]
fn test_max_sustain_holds_at_255() {
    let mut sid = Sid6581::new();
    sid.write(0x06, 0xF0);
    edit_voice(&mut sid, 0, |v| {
        v.envelope_state = EnvelopeState::Decay;
        v.envelope_counter = 255;
    });
    for _ in 0..10 {
        sid.clock();
    }
    assert_eq!(
        voice(&sid, 0).envelope_state,
        EnvelopeState::Sustain,
        "Should transition to sustain immediately at max"
    );
    assert_eq!(voice(&sid, 0).envelope_counter, 255);
}

#[test]
fn sid_output_level_mixes_voices_with_volume() {
    let mut sid = Sid6581::new();
    sid.write(0x04, 0x21);
    edit_voice(&mut sid, 0, |v| {
        v.accumulator = 0x800000;
        v.envelope_counter = 255;
    });
    sid.write(0x18, 0x0F);
    // sawtooth 0x800 * 255 / 256 = 2040; volume 15: 2040 * 15 / 16 = 1912
    assert_eq!(sid.output_level(), 1912);
    sid.write(0x18, 0x00);
    assert_eq!(sid.output_level(), 0);
}

#[test]
fn sid_output_level_is_zero_without_waveform() {
    let mut sid = Sid6581::new();
    sid.write(0x04, 0x01);
    edit_voice(&mut sid, 0, |v| v.envelope_counter = 255);
    sid.write(0x18, 0x0F);
    assert_eq!(sid.output_level(), 0);
}

#[test]
fn sid_reset_keeps_audio_flag() {
    let mut sid = Sid6581::new();
    sid.set_audio_enabled(false);
    sid.write(0x18, 0x0F);
    sid.write(0x00, 0x12);
    sid.reset();
    assert_eq!(sid.volume(), 0);
    assert_eq!(voice(&sid, 0).freq, 0);
    assert!(!sid.audio_enabled());
}

#[test]
fn sid_frequency_and_pulse_registers_of_every_voice() {
    let mut sid = Sid6581::new();
    for k in 0..3u16 {
        sid.write(7 * k, 0x21);
        sid.write(7 * k + 1, 0x43 + k as u8);
        sid.write(7 * k + 2, 0x65);
        sid.write(7 * k + 3, 0xF7);
    }
    for k in 0..3usize {
        assert_eq!(voice(&sid, k).freq, 0x4321 + 0x100 * k as u16);
        assert_eq!(voice(&sid, k).pulse_width, 0x765);
    }
}

#[test]
fn sid_accumulator_advances_by_frequency() {
    let mut sid = Sid6581::new();
    sid.write(0x00, 0x34);
    sid.write(0x01, 0x12);
    edit_voice(&mut sid, 0, |v| v.accumulator = 0xFFFF00);
    for _ in 0..3 {
        sid.clock();
    }
    assert_eq!(voice(&sid, 0).accumulator, (0xFFFF00 + 3 * 0x1234) % 0x100_0000);
}

#[test]
fn sid_release_never_rises() {
    let mut sid = Sid6581::new();
    edit_voice(&mut sid, 0, |v| {
        v.envelope_state = EnvelopeState::Release;
        v.envelope_counter = 90;
    });
    let mut last = 90;
    for _ in 0..3000 {
        sid.clock();
        let now = voice(&sid, 0).envelope_counter;
        assert!(now <= last);
        last = now;
    }
    assert!(last < 90);
}
