use whisper::descriptor::{descriptor, supports_receive_midi, PluginCategory};
use whisper::gui::EmbeddedGuiController;
use whisper::notes::{MidiMessage, NoteTracker, NOTE_OFF, NOTE_ON};
use whisper::params::{amplitude_text, ParameterStore, AMP_DEFAULT};
use whisper::signal::{noise_sample, render, AMP_ONE, HALF_RANGE, SAMPLE_ONE};

fn note_on(pitch: u8) -> MidiMessage {
    MidiMessage { status: NOTE_ON, data1: pitch, data2: 100 }
}

fn note_off(pitch: u8) -> MidiMessage {
    MidiMessage { status: NOTE_OFF, data1: pitch, data2: 0 }
}

#[test]
fn note_on_then_off_toggles_activity() {
    let mut t = NoteTracker::new();
    assert!(!t.is_active());
    t.on_event(note_on(60));
    assert!(t.is_active());
    t.on_event(note_off(60));
    assert!(!t.is_active());
}

#[test]
fn two_ons_one_off_still_active() {
    let mut t = NoteTracker::new();
    t.on_event(note_on(60));
    t.on_event(note_on(64));
    t.on_event(note_off(60));
    assert!(t.is_active());
    assert_eq!(t.held_count(), 1);
}

#[test]
fn balanced_block_ends_inactive() {
    let mut t = NoteTracker::new();
    let mut events: Vec<MidiMessage> = Vec::new();
    for pitch in 0..50u8 {
        events.push(note_on(pitch));
    }
    for pitch in 0..50u8 {
        events.push(note_off(pitch));
    }
    t.on_events(&events);
    assert!(!t.is_active());
    assert_eq!(t.held_count(), 0);
}

#[test]
fn spurious_note_off_saturates_at_zero() {
    let mut t = NoteTracker::new();
    t.on_event(note_off(60));
    assert_eq!(t.held_count(), 0);
    t.on_event(note_on(60));
    assert_eq!(t.held_count(), 1);
}

#[test]
fn other_messages_are_ignored() {
    let mut t = NoteTracker::new();
    // control change, pitch bend, note-on on another channel
    t.on_event(MidiMessage { status: 176, data1: 7, data2: 100 });
    t.on_event(MidiMessage { status: 224, data1: 0, data2: 64 });
    t.on_event(MidiMessage { status: 145, data1: 60, data2: 100 });
    assert_eq!(t.held_count(), 0);
    assert!(!t.is_active());
}

#[test]
fn inactive_render_is_silence_at_any_amplitude() {
    for amp in [0u32, AMP_DEFAULT, AMP_ONE] {
        let mut out = vec![vec![7i64; 64], vec![-3i64; 64]];
        render(&mut out, false, amp);
        assert_eq!(out.len(), 2);
        for channel in &out {
            assert_eq!(channel.len(), 64);
            for &s in channel {
                assert_eq!(s, 0);
            }
        }
    }
}

#[test]
fn active_render_keeps_shape_and_range() {
    let mut out = vec![vec![0i64; 256], vec![0i64; 100], vec![0i64; 1]];
    render(&mut out, true, AMP_ONE);
    assert_eq!(out.len(), 3);
    assert_eq!(out[0].len(), 256);
    assert_eq!(out[1].len(), 100);
    assert_eq!(out[2].len(), 1);
    for channel in &out {
        for &s in channel {
            assert!(-SAMPLE_ONE <= s && s < SAMPLE_ONE);
        }
    }
}

#[test]
fn active_full_amplitude_samples_vary() {
    let mut out = vec![vec![0i64; 1024]];
    render(&mut out, true, AMP_ONE);
    let first = out[0][0];
    assert!(out[0].iter().any(|&s| s != first));
}

#[test]
fn zero_amplitude_renders_silence_even_when_active() {
    let mut out = vec![vec![1i64; 128], vec![1i64; 128]];
    render(&mut out, true, 0);
    for channel in &out {
        for &s in channel {
            assert_eq!(s, 0);
        }
    }
}

#[test]
fn noise_sample_maps_draws_exactly() {
    // midpoint draw gives silence, the extremes give the range ends
    assert_eq!(noise_sample(HALF_RANGE, AMP_ONE), 0);
    assert_eq!(noise_sample(u32::MAX, AMP_ONE), SAMPLE_ONE - 1);
    assert_eq!(noise_sample(0, AMP_ONE), -SAMPLE_ONE);
    // half amplitude halves the magnitude
    assert_eq!(noise_sample(0, 500_000), -SAMPLE_ONE / 2);
    assert_eq!(noise_sample(u32::MAX, 500_000), (SAMPLE_ONE - 1) / 2);
    // zero amplitude flattens every draw
    assert_eq!(noise_sample(0, 0), 0);
    assert_eq!(noise_sample(u32::MAX, 0), 0);
}

#[test]
fn doubling_amplitude_doubles_magnitude_in_expectation() {
    let n = 20_000usize;
    let low: u32 = 250_000;
    let high: u32 = 500_000;
    let mut out_low = vec![vec![0i64; n]];
    let mut out_high = vec![vec![0i64; n]];
    render(&mut out_low, true, low);
    render(&mut out_high, true, high);
    let sum_low: i128 = out_low[0].iter().map(|&s| (s as i128).abs()).sum();
    let sum_high: i128 = out_high[0].iter().map(|&s| (s as i128).abs()).sum();
    assert!(sum_low > 0);
    let ratio = sum_high as f64 / sum_low as f64;
    assert!(1.9 < ratio && ratio < 2.1, "ratio was {ratio}");
}

#[test]
fn empty_event_block_changes_nothing() {
    let mut t = NoteTracker::new();
    t.on_events(&Vec::new());
    assert!(!t.is_active());
    t.on_event(note_on(60));
    t.on_events(&Vec::new());
    assert_eq!(t.held_count(), 1);
}

#[test]
fn empty_buffers_render_without_complaint() {
    let mut no_channels: Vec<Vec<i64>> = Vec::new();
    render(&mut no_channels, true, AMP_ONE);
    assert!(no_channels.is_empty());

    let mut empty_channels = vec![Vec::new(), Vec::new()];
    render(&mut empty_channels, true, AMP_ONE);
    assert_eq!(empty_channels.len(), 2);
    assert!(empty_channels[0].is_empty());
    assert!(empty_channels[1].is_empty());
}

#[test]
fn parameter_round_trip() {
    let mut p = ParameterStore::new();
    assert_eq!(p.get_parameter(0), AMP_DEFAULT);
    for v in [0u32, 120_000, 500_000, 999_999, AMP_ONE] {
        p.set_parameter(0, v);
        assert_eq!(p.get_parameter(0), v);
    }
}

#[test]
fn other_parameter_indices_are_inert() {
    let mut p = ParameterStore::new();
    p.set_parameter(1, 0);
    p.set_parameter(-1, AMP_ONE);
    assert_eq!(p.get_parameter(0), AMP_DEFAULT);
    assert_eq!(p.get_parameter(1), 0);
    assert_eq!(p.get_parameter(-1), 0);
    assert_eq!(p.get_parameter_text(1), "");
    assert_eq!(p.get_parameter_name(1), "");
}

#[test]
fn parameter_text_has_two_decimals() {
    let mut p = ParameterStore::new();
    assert_eq!(p.get_parameter_text(0), "0.50");
    p.set_parameter(0, 0);
    assert_eq!(p.get_parameter_text(0), "0.00");
    p.set_parameter(0, AMP_ONE);
    assert_eq!(p.get_parameter_text(0), "1.00");
    p.set_parameter(0, 155_000);
    assert_eq!(p.get_parameter_text(0), "0.16");
    p.set_parameter(0, 154_999);
    assert_eq!(p.get_parameter_text(0), "0.15");
}

#[test]
fn parameter_text_rounds_to_nearest_hundredth() {
    assert_eq!(amplitude_text(994_999), "0.99");
    assert_eq!(amplitude_text(995_000), "1.00");
    assert_eq!(amplitude_text(4_999), "0.00");
    assert_eq!(amplitude_text(5_000), "0.01");
}

#[test]
fn parameter_name_is_amplitude() {
    let p = ParameterStore::new();
    assert_eq!(p.get_parameter_name(0), "Amplitude");
}

#[test]
fn direct_get_set_round_trip() {
    let mut p = ParameterStore::new();
    p.set(725_000);
    assert_eq!(p.get(), 725_000);
}

#[test]
fn gui_open_then_close_reports_closed() {
    let mut c = EmbeddedGuiController::new();
    assert!(!c.is_open());
    let teardown = c.begin_open();
    assert!(!teardown);
    c.finish_open(true);
    assert!(c.is_open());
    c.close();
    assert!(!c.is_open());
}

#[test]
fn gui_reopen_tears_down_the_old_session() {
    let mut c = EmbeddedGuiController::new();
    c.begin_open();
    c.finish_open(true);
    assert!(c.is_open());
    // a second open without a close asks for the old session first
    let teardown = c.begin_open();
    assert!(teardown);
    c.finish_open(true);
    assert!(c.is_open());
    c.close();
    assert!(!c.is_open());
}

#[test]
fn gui_idle_on_closed_controller_is_a_no_op() {
    let mut c = EmbeddedGuiController::new();
    c.idle(false);
    assert!(!c.is_open());
    c.idle(true);
    assert!(!c.is_open());
}

#[test]
fn gui_self_termination_closes_the_session() {
    let mut c = EmbeddedGuiController::new();
    c.begin_open();
    c.finish_open(true);
    c.idle(false);
    assert!(c.is_open());
    c.idle(true);
    assert!(!c.is_open());
}

#[test]
fn gui_failed_open_stays_closed() {
    let mut c = EmbeddedGuiController::new();
    c.begin_open();
    c.finish_open(false);
    assert!(!c.is_open());
}

#[test]
fn gui_window_geometry_is_fixed() {
    let c = EmbeddedGuiController::new();
    assert_eq!(c.window_size(), (640, 480));
    assert_eq!(c.window_position(), (0, 0));
}

#[test]
fn descriptor_reports_the_plugin() {
    let d = descriptor();
    assert_eq!(d.name, "Whisper");
    assert_eq!(d.unique_id, 1337);
    assert_eq!(d.inputs, 0);
    assert_eq!(d.outputs, 2);
    assert_eq!(d.parameters, 1);
    assert_eq!(d.category, PluginCategory::Synthesizer);
    assert!(supports_receive_midi());
}
