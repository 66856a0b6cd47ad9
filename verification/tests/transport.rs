use hadal::audio::{
    bit_depth_from_bits, container_name, declared_format, decoder_wait_ms, seek_backward_target,
    seek_forward_target, should_decode, track_rates, FillOutcome, PipelineState, PlayerState,
    Transport, BUFFER_LOW_WATERMARK,
};
use hadal::types::{AudioFormat, BitDepth, Codec};
use hadal::duration::Duration;

#[test]
fn transport_pause_resume_toggle() {
    let mut t = Transport::new();
    assert_eq!(t.state, PlayerState::Stopped);
    t.begin_loading();
    assert_eq!(t.state, PlayerState::Loading);
    t.start_playing();
    assert!(t.is_playing());
    t.toggle_pause();
    assert_eq!(t, Transport { state: PlayerState::Paused, paused: true });
    t.toggle_pause();
    assert!(t.is_playing());
    t.resume();
    assert!(t.is_playing());
    t.stop();
    t.resume();
    assert_eq!(t.state, PlayerState::Stopped);
}

#[test]
fn seek_targets_stay_in_track() {
    let pos = Duration::from_secs(100);
    let len = Duration::from_secs(103);
    let five = Duration::from_secs(5);
    assert_eq!(seek_forward_target(pos, len, five), len);
    assert_eq!(seek_forward_target(Duration::from_secs(10), len, five), Duration::from_secs(15));
    assert_eq!(seek_backward_target(Duration::from_secs(3), five), Duration::zero());
    assert_eq!(seek_backward_target(Duration::from_millis(7500), five), Duration::from_millis(2500));
    let max = Duration::max_duration();
    assert_eq!(max.saturating_add(five), max);
    assert_eq!(Duration::from_millis(1200).saturating_sub(Duration::from_millis(300)), Duration::from_millis(900));
    assert!(Duration::from_millis(1001).is_longer_than(&Duration::from_secs(1)));
    assert!(!Duration::from_secs(1).is_longer_than(&Duration::from_secs(1)));
}

#[test]
fn declared_bit_depths() {
    assert_eq!(bit_depth_from_bits(Some(24)), BitDepth::S24);
    assert_eq!(bit_depth_from_bits(Some(8)), BitDepth::U8);
    assert_eq!(bit_depth_from_bits(Some(20)), BitDepth::S16);
    assert_eq!(bit_depth_from_bits(None), BitDepth::S16);
}

#[test]
fn declared_formats() {
    let f = declared_format(Some(96000), Some(6), Some(24), Codec::Flac, None);
    assert_eq!(f, AudioFormat::new(96000, 6, BitDepth::S24, Codec::Flac));
    let g = declared_format(None, None, None, Codec::Mp3, Some(320));
    assert_eq!(g.sample_rate, 44100);
    assert_eq!(g.channels, 2);
    assert_eq!(g.bit_depth, BitDepth::S16);
    assert_eq!(g.bitrate, Some(320));
}

#[test]
fn container_names() {
    assert_eq!(container_name("/music/a.flac"), Some("FLAC".to_string()));
    assert_eq!(container_name("/music/readme"), None);
}

#[test]
fn pipeline_counters() {
    let mut p = PipelineState::new();
    assert_eq!(p.sample_rate, 44100);
    p.start_track(48000, 480000);
    assert!(p.active && !p.eos);
    p.samples_played(1024, 2);
    assert_eq!(p.position_samples, 512);
    p.samples_played(3, 0);
    assert_eq!(p.position_samples, 515);
    p.end_of_stream();
    assert!(p.is_finished(true));
    assert!(!p.is_finished(false));
    p.seeked(100);
    assert_eq!(p.position_samples, 100);
    assert!(!p.eos);
    p.set_muted(true);
    assert!(p.is_muted());
    p.stopped();
    assert!(!p.active && p.eos && p.position_samples == 0);
}

#[test]
fn track_setup() {
    assert_eq!(track_rates(44100, None, 48000), (48000, true));
    assert_eq!(track_rates(48000, None, 48000), (48000, false));
    assert_eq!(track_rates(96000, Some(96000), 48000), (96000, false));
}

#[test]
fn decoder_pacing() {
    assert!(should_decode(true, false, BUFFER_LOW_WATERMARK * 2, 2));
    assert!(!should_decode(true, false, BUFFER_LOW_WATERMARK * 2 - 1, 2));
    assert!(!should_decode(true, true, 100000, 2));
    assert!(!should_decode(false, false, 100000, 2));
    assert_eq!(decoder_wait_ms(true, FillOutcome::Filled), 50);
    assert_eq!(decoder_wait_ms(false, FillOutcome::Filled), 1);
    assert_eq!(decoder_wait_ms(false, FillOutcome::Idle), 20);
    assert_eq!(decoder_wait_ms(false, FillOutcome::Failed), 100);
}
