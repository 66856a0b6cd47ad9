use hadal::duration::Duration;
use hadal::error::Error;
use hadal::types::{
    AudioFormat, BitDepth, Codec, LibraryTab, RepeatMode, SortConfig, SortField, SortOrder, Track,
};

#[test]
fn codec_from_extension_ignores_case() {
    assert_eq!(Codec::from_extension("FLAC"), Codec::Flac);
    assert_eq!(Codec::from_extension("oga"), Codec::Vorbis);
    assert_eq!(Codec::from_extension("aif"), Codec::Aiff);
    assert_eq!(Codec::from_extension("xyz"), Codec::Unknown);
    assert!(Codec::Flac.is_lossless());
    assert!(!Codec::Mp3.is_lossless());
    assert_eq!(Codec::WavPack.display_name(), "WavPack");
}

#[test]
fn format_display_string() {
    let f = AudioFormat::new(96000, 2, BitDepth::S24, Codec::Flac);
    assert_eq!(f.display_string(), "FLAC 96kHz/24bit");
    assert!(f.is_high_res());
    let g = AudioFormat::new(800, 1, BitDepth::S16, Codec::Mp3).with_bitrate(320);
    assert_eq!(g.display_string(), "MP3 800Hz/16bit");
    assert_eq!(g.bitrate, Some(320));
    assert!(!AudioFormat::new(44100, 2, BitDepth::S16, Codec::Wav).is_high_res());
    assert_eq!(BitDepth::S24.bytes(), 3);
    assert_eq!(BitDepth::F64.bits(), 64);
}

#[test]
fn repeat_cycles_with_period_three() {
    let m = RepeatMode::Off;
    assert_eq!(m.cycle(), RepeatMode::All);
    assert_eq!(m.cycle().cycle(), RepeatMode::One);
    assert_eq!(m.cycle().cycle().cycle(), RepeatMode::Off);
}

#[test]
fn sort_order_toggles_back() {
    assert_eq!(SortOrder::Ascending.toggle(), SortOrder::Descending);
    assert_eq!(SortOrder::Ascending.toggle().toggle(), SortOrder::Ascending);
    let c = SortConfig::new(SortField::Album, SortOrder::Descending)
        .with_secondary(SortField::Title, SortOrder::Ascending);
    assert_eq!(c.primary, SortField::Album);
    assert_eq!(c.secondary, Some(SortField::Title));
    assert_eq!(SortField::DateAdded.display_name(), "Date Added");
}

#[test]
fn library_tabs_cycle() {
    let all = LibraryTab::all();
    assert_eq!(all.len(), 5);
    for (i, t) in all.iter().enumerate() {
        assert_eq!(t.next(), all[(i + 1) % all.len()]);
        assert_eq!(t.next().prev(), *t);
    }
    assert_eq!(LibraryTab::Artists.display_name(), "Artists");
}

#[test]
fn track_duration_string_and_extension() {
    let t = Track {
        id: 1,
        path: "/m/a.Flac".to_string(),
        title: "A".to_string(),
        sort_title: Some("a".to_string()),
        artist_id: None,
        artist_name: None,
        album_id: None,
        album_title: None,
        track_number: None,
        disc_number: 1,
        duration: Duration::from_secs(225),
        year: None,
        genre: None,
        format: AudioFormat::new(44100, 2, BitDepth::S16, Codec::Flac),
        file_size: 0,
        play_count: 0,
        last_played: None,
        rating: 0,
    };
    assert_eq!(t.duration_string(), "3:45");
    assert_eq!(t.extension(), Some("Flac".to_string()));
    assert_eq!(t.sort_key(), "a");
}

#[test]
fn duration_arithmetic() {
    let d = Duration::from_millis(61_250);
    assert_eq!(d.as_secs(), 61);
    assert_eq!(d.subsec_nanos(), 250_000_000);
    assert_eq!(d.as_millis(), 61_250);
    assert_eq!(d.checked_add(Duration::from_secs(1)), Some(Duration::from_millis(62_250)));
    assert_eq!(Duration::from_secs(u64::MAX).checked_add(Duration::from_secs(1)), None);
}

#[test]
fn error_constructors() {
    assert!(matches!(Error::decode("bad"), Error::Decode(m) if m == "bad"));
    assert!(matches!(Error::config("c"), Error::Config(m) if m == "c"));
    assert!(matches!(Error::internal("i"), Error::Internal(m) if m == "i"));
}
