use hadal::audio::{PipelineConfig, ResamplerQuality, DEFAULT_BUFFER_SIZE};
use hadal::display::{build_format, format_duration, format_sample_rate, next_preset_index, truncate, truncate_to_bytes};
use hadal::dsp::VisualizationMode;
use hadal::library::TrackRow;
use hadal::settings::{
    checked_resampler_quality, clamp_buffer_size, clamp_fps, expand_folder, LibraryConfig, UiConfig,
};
use hadal::tui::{handle_key, Action, ColumnState, InputMode, KeyCode, KeyPress, LibraryState, ViewId};
use hadal::types::{BitDepth, Codec};

fn key(c: char) -> KeyPress {
    KeyPress { code: KeyCode::Char(c), ctrl: false }
}

#[test]
fn view_indices_round_trip() {
    for i in 0..6usize {
        let v = ViewId::from_index(i).unwrap();
        assert_eq!(v.index(), i);
    }
    assert_eq!(ViewId::from_index(6), None);
    assert_eq!(ViewId::NowPlaying.label(), "Playing");
    assert_eq!(ViewId::Playlists.label(), "Plists");
}

#[test]
fn column_moves() {
    let mut c = ColumnState::default();
    c.down(3);
    c.down(3);
    c.down(3);
    assert_eq!(c.selected, 2);
    c.up(3);
    assert_eq!(c.selected, 1);
    c.page_down(100, 20);
    assert_eq!(c.selected, 21);
    c.page_up(50);
    assert_eq!(c.selected, 0);
    c.select(9, 4);
    assert_eq!(c.selected, 3);
    c.go_top();
    assert_eq!(c.selected, 0);
    c.go_bottom(7);
    assert_eq!(c.selected, 6);
    c.select(5, 0);
    assert_eq!((c.selected, c.offset), (0, 0));
    c.up(0);
    assert_eq!(c.selected, 0);
}

#[test]
fn scroll_keeps_selection_visible() {
    let mut c = ColumnState { selected: 30, offset: 0 };
    c.scroll_into_view(20);
    assert_eq!(c.offset, 11);
    c.selected = 5;
    c.scroll_into_view(20);
    assert_eq!(c.offset, 5);
    c.selected = 10;
    c.scroll_into_view(20);
    assert_eq!(c.offset, 5);
    c.scroll_into_view(0);
    assert_eq!(c.offset, 5);
}

#[test]
fn library_state_selection() {
    let mut s = LibraryState::default();
    s.tracks.push(TrackRow::new("/a.flac".to_string(), "A".to_string(), 0, 0));
    assert_eq!(s.column_len(2), 1);
    assert_eq!(s.column_len(3), 0);
    assert_eq!(s.selected_track().map(|t| t.title.clone()), Some("A".to_string()));
    assert!(s.selected_artist().is_none());
    s.columns[2].selected = 1;
    assert!(s.selected_track().is_none());
}

#[test]
fn keys_in_each_mode() {
    let ctrl_c = KeyPress { code: KeyCode::Char('c'), ctrl: true };
    assert_eq!(handle_key(ctrl_c, InputMode::Search, ViewId::Queue), Action::Quit);
    assert_eq!(handle_key(key('q'), InputMode::Search, ViewId::Library), Action::SearchInput('q'));
    assert_eq!(handle_key(key('x'), InputMode::PlaylistName, ViewId::Library), Action::PlaylistNameInput('x'));
    assert_eq!(
        handle_key(KeyPress { code: KeyCode::Esc, ctrl: false }, InputMode::PlaylistName, ViewId::Library),
        Action::PlaylistNameCancel
    );
    assert_eq!(handle_key(key('q'), InputMode::Normal, ViewId::Library), Action::Quit);
    assert_eq!(handle_key(key('3'), InputMode::Normal, ViewId::Library), Action::SwitchView(ViewId::Queue));
    assert_eq!(handle_key(key('h'), InputMode::Normal, ViewId::Equalizer), Action::EqBandLeft);
    assert_eq!(handle_key(key('h'), InputMode::Normal, ViewId::Playlists), Action::PlaylistPaneLeft);
    assert_eq!(handle_key(key('h'), InputMode::Normal, ViewId::Library), Action::Left);
    assert_eq!(handle_key(key('d'), InputMode::Normal, ViewId::Queue), Action::RemoveFromQueue);
    assert_eq!(handle_key(key('d'), InputMode::Normal, ViewId::Library), Action::Nothing);
    assert_eq!(
        handle_key(KeyPress { code: KeyCode::Char('d'), ctrl: true }, InputMode::Normal, ViewId::Queue),
        Action::PageDown
    );
    assert_eq!(
        handle_key(KeyPress { code: KeyCode::Enter, ctrl: false }, InputMode::Normal, ViewId::Library),
        Action::Select
    );
    assert_eq!(handle_key(key('/'), InputMode::Normal, ViewId::Search), Action::OpenSearch);
    assert_eq!(
        handle_key(KeyPress { code: KeyCode::Other, ctrl: false }, InputMode::Search, ViewId::Search),
        Action::Nothing
    );
}

#[test]
fn display_text() {
    assert_eq!(truncate("abc", 5), "abc  ");
    assert_eq!(truncate("abcdefgh", 6), "abc...");
    assert_eq!(truncate("abcdefgh", 2), "ab");
    assert_eq!(truncate("ünïcödé", 7), "ünïcödé");
    assert_eq!(format_duration(225_000), "3:45");
    assert_eq!(format_duration(5_999), "0:05");
    assert_eq!(format_duration(-61_000), "-1:-1");
    assert_eq!(format_sample_rate(44100), "44.1");
    assert_eq!(format_sample_rate(96000), "96");
    assert_eq!(format_sample_rate(192000), "192");
    assert_eq!(format_sample_rate(500), "0.5");
}

#[test]
fn format_from_track_row() {
    let mut t = TrackRow::new("/a.flac".to_string(), "A".to_string(), 0, 0);
    assert_eq!(build_format(&t), None);
    t.sample_rate = Some(96000);
    t.bit_depth = Some(24);
    t.codec = Some("FLAC".to_string());
    t.bitrate = Some(1411);
    let f = build_format(&t).unwrap();
    assert_eq!(f.sample_rate, 96000);
    assert_eq!(f.channels, 2);
    assert_eq!(f.bit_depth, BitDepth::S24);
    assert_eq!(f.codec, Codec::Flac);
    assert_eq!(f.bitrate, Some(1411));
    t.bit_depth = Some(12);
    t.codec = Some("wavpack".to_string());
    let g = build_format(&t).unwrap();
    assert_eq!(g.bit_depth, BitDepth::S16);
    assert_eq!(g.codec, Codec::WavPack);
}

#[test]
fn settings_ranges_and_defaults() {
    assert_eq!(clamp_fps(0), 1);
    assert_eq!(clamp_fps(500), 240);
    assert_eq!(clamp_fps(60), 60);
    assert_eq!(clamp_buffer_size(10), 64);
    assert_eq!(clamp_buffer_size(100_000), 65536);
    assert_eq!(checked_resampler_quality("best".to_string()), "best");
    assert_eq!(checked_resampler_quality("ultra".to_string()), "medium");
    assert_eq!(expand_folder("~/Music", Some("/home/u")), Some("/home/u/Music".to_string()));
    assert_eq!(expand_folder("~/Music", None), None);
    assert_eq!(expand_folder("/srv/music", None), Some("/srv/music".to_string()));
    let l = LibraryConfig::default();
    assert_eq!(l.folders, vec!["~/Music".to_string()]);
    assert_eq!(UiConfig::default().fps, 60);
}

#[test]
fn audio_settings() {
    assert_eq!(ResamplerQuality::from_setting("fast"), ResamplerQuality::Fast);
    assert_eq!(ResamplerQuality::from_setting("best"), ResamplerQuality::Best);
    assert_eq!(ResamplerQuality::from_setting("Fast"), ResamplerQuality::Medium);
    let p = PipelineConfig::default();
    assert_eq!(p.buffer_size, DEFAULT_BUFFER_SIZE);
    assert_eq!(p.visualization_mode, VisualizationMode::Spectrum);
    assert_eq!(p.resampler_quality, ResamplerQuality::Medium);
}

#[test]
fn queue_rows_cut_to_bytes() {
    assert_eq!(truncate_to_bytes("abcdef", 10), "abcdef");
    assert_eq!(truncate_to_bytes("abcdef", 6), "abcdef");
    assert_eq!(truncate_to_bytes("abcdef", 4), "abc…");
    assert_eq!(truncate_to_bytes("aébc", 3), "a…");
    assert_eq!(truncate_to_bytes("aébc", 4), "aé…");
    assert_eq!(truncate_to_bytes("abc", 0), "…");
}

#[test]
fn presets_cycle() {
    let names: Vec<String> = vec!["Flat".to_string(), "Rock".to_string(), "Jazz".to_string()];
    assert_eq!(next_preset_index(&names, "Flat"), 1);
    assert_eq!(next_preset_index(&names, "Rock"), 2);
    assert_eq!(next_preset_index(&names, "Jazz"), 0);
    assert_eq!(next_preset_index(&names, "Other"), 1);
}
