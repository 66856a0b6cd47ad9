use hadal::audio::{DeviceConfig, PipelineConfig, ResamplerQuality};
use hadal::library::{
    fts_query, is_unchanged, remove_missing_sql, tracks_query, CacheStats, IndexOutcome, ScanProgress,
    TrackMetadata,
};
use hadal::m3u8::M3u8Reader;

fn meta() -> TrackMetadata {
    TrackMetadata {
        title: "Song".to_string(),
        artist_name: Some("Artist".to_string()),
        album_artist_name: None,
        album_name: Some("Album".to_string()),
        genre: Some("Jazz".to_string()),
        year: Some(1999),
        track_number: Some(3),
        disc_number: None,
        duration_ms: 1234,
        sample_rate: Some(44100),
        bit_depth: Some(16),
        channels: Some(2),
        bitrate: None,
        codec: Some("FLAC".to_string()),
    }
}

#[test]
fn fts_query_prefixes_each_word() {
    assert_eq!(fts_query("  miles  davis "), "miles* davis*");
    assert_eq!(fts_query("kind"), "kind*");
    assert_eq!(fts_query("   "), "");
}

#[test]
fn sql_builders() {
    assert_eq!(remove_missing_sql(3), "DELETE FROM tracks WHERE path NOT IN (?,?,?)");
    assert_eq!(remove_missing_sql(1), "DELETE FROM tracks WHERE path NOT IN (?)");
    let q = tracks_query(true, true, Some(10), None);
    assert!(q.contains(" AND album_id = ?1 AND artist_id = ?2 ORDER BY"));
    assert!(q.ends_with("LIMIT 10"));
    let q = tracks_query(false, true, None, Some(5));
    assert!(q.contains(" AND artist_id = ?1 ORDER BY"));
    assert!(q.ends_with("OFFSET 5"));
}

#[test]
fn metadata_to_row() {
    let m = meta();
    assert_eq!(m.grouping_artist(), Some(&"Artist".to_string()));
    let mut with_album_artist = meta();
    with_album_artist.album_artist_name = Some("Band".to_string());
    assert_eq!(with_album_artist.grouping_artist(), Some(&"Band".to_string()));
    let row = m.to_row("/m/song.flac".to_string(), Some(1), Some(2), 77, 4096);
    assert_eq!(row.title, "Song");
    assert_eq!(row.artist_id, Some(1));
    assert_eq!(row.album_id, Some(2));
    assert_eq!(row.disc_number, None);
    assert_eq!(row.file_size, Some(4096));
    assert_eq!(row.codec, Some("FLAC".to_string()));
    assert_eq!(row.file_mtime, 77);
}

#[test]
fn titles_and_codecs_from_paths() {
    assert_eq!(TrackMetadata::title_for(Some("T".to_string()), "/m/x.flac"), "T");
    assert_eq!(TrackMetadata::title_for(None, "/m/my song.flac"), "my song");
    assert_eq!(TrackMetadata::title_for(None, "/"), "Unknown");
    assert_eq!(TrackMetadata::codec_for("/m/x.flac"), Some("FLAC".to_string()));
    assert_eq!(TrackMetadata::codec_for("/m/x"), None);
    assert_eq!(M3u8Reader::playlist_name("/p/road trip.m3u8"), "road trip");
    assert_eq!(M3u8Reader::base_dir("/p/road trip.m3u8"), Some("/p".to_string()));
}

#[test]
fn progress_counts_outcomes() {
    let mut p = ScanProgress::new(3);
    p.start_file("a".to_string());
    p.record(IndexOutcome::Added);
    p.record(IndexOutcome::Unchanged);
    p.record(IndexOutcome::Failed);
    assert_eq!((p.scanned_files, p.added, p.errors), (3, 1, 1));
    assert_eq!(p.current_file, Some("a".to_string()));
    p.finish();
    assert_eq!(p.current_file, None);
    assert!(is_unchanged(Some(5), 5));
    assert!(!is_unchanged(Some(5), 6));
    assert!(!is_unchanged(None, 6));
}

#[test]
fn cache_stats_add_up() {
    let mut s = CacheStats::default();
    s.add_file(10);
    s.add_file(5);
    assert_eq!((s.file_count, s.total_bytes), (2, 15));
}

#[test]
fn pipeline_for_devices() {
    let d = DeviceConfig { sample_rate: 192000, channels: 2, device_name: "dac".to_string() };
    let p = PipelineConfig::for_device(&d, ResamplerQuality::Best, false);
    assert_eq!(p.buffer_size, 384000);
    assert_eq!(p.output_sample_rate, Some(192000));
    assert_eq!(p.output_channels, Some(2));
    assert!(!p.gapless);
    let low = DeviceConfig { sample_rate: 44100, channels: 1, device_name: "x".to_string() };
    assert_eq!(PipelineConfig::for_device(&low, ResamplerQuality::Fast, true).buffer_size, 96000);
}
