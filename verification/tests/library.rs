use hadal::library::{
    folder_artwork_order, is_cached_thumbnail, schema_step, stored_rating, ArtworkManager,
    QuickSearchResults, ScanProgress, SchemaStep, SearchPlan, SearchQuery, TrackRow, SCHEMA_SQL,
    SCHEMA_VERSION,
};
use hadal::playlist::{export_playlist, ExportTrack, PlaylistTrack};
use hadal::duration::Duration;
use hadal::types::{SortField, SortOrder};

fn row(id: i64, album: Option<i64>, artist: Option<i64>) -> TrackRow {
    let mut t = TrackRow::new(format!("/m/{}.flac", id), format!("T{}", id), 1000, 7);
    t.id = id;
    t.album_id = album;
    t.artist_id = artist;
    t
}

#[test]
fn track_row_defaults() {
    let t = TrackRow::new("/a.flac".to_string(), "A".to_string(), 5, 9);
    assert_eq!(t.id, 0);
    assert_eq!(t.disc_number, Some(1));
    assert_eq!(t.play_count, 0);
    assert_eq!(t.file_mtime, 9);
    let p = ScanProgress::new(12);
    assert_eq!(p.total_files, 12);
    assert_eq!(p.scanned_files, 0);
}

#[test]
fn search_query_builders_and_plan() {
    let q = SearchQuery::new();
    assert_eq!(q.limit, 100);
    assert_eq!(q.sort_by, SortField::Artist);
    assert_eq!(
        q.plan(),
        SearchPlan::Filter { album_id: None, artist_id: None, limit: 100, offset: 0 }
    );
    let q = q.artist(3).album(4).years(1990, 1999).min_rating(4).limit(10).offset(20)
        .sort(SortField::Year, SortOrder::Descending).genre("Jazz".to_string());
    assert_eq!(q.year_min, Some(1990));
    assert_eq!(q.min_rating, Some(4));
    assert_eq!(
        q.plan(),
        SearchPlan::Filter { album_id: Some(4), artist_id: Some(3), limit: 10, offset: 20 }
    );
    let blank = q.clone().text("   ".to_string());
    assert!(matches!(blank.plan(), SearchPlan::Filter { .. }));
    let t = q.text(" miles ".to_string());
    assert_eq!(t.plan(), SearchPlan::FullText { text: " miles ".to_string(), limit: 10 });
}

#[test]
fn quick_results_collect_first_appearances() {
    let tracks = vec![
        row(1, Some(10), Some(100)),
        row(2, Some(11), None),
        row(3, Some(10), Some(101)),
        row(4, None, Some(100)),
    ];
    let r = QuickSearchResults::collect(tracks);
    assert_eq!(r.tracks.len(), 4);
    assert_eq!(r.albums, vec![10, 11]);
    assert_eq!(r.artists, vec![100, 101]);
}

#[test]
fn artwork_cache_paths() {
    let m = ArtworkManager::new("/cache/art".to_string(), 300);
    assert_eq!(m.thumbnail_size(), 300);
    let k1 = m.compute_cache_key("/music/album/01.flac");
    let k2 = m.compute_cache_key("/music/album/02.flac");
    let k3 = m.compute_cache_key("/music/other/01.flac");
    assert_eq!(k1, k2);
    assert_ne!(k1, k3);
    let p = m.cache_path("/music/album/01.flac");
    assert!(p.starts_with("/cache/art/"));
    assert!(p.ends_with(".png"));
    assert_eq!(p.len(), "/cache/art/".len() + 16 + 4);
    assert_eq!(p, format!("/cache/art/{:016x}.png", k1));
    assert!(is_cached_thumbnail("/cache/art/x.png"));
    assert!(!is_cached_thumbnail("/cache/art/x.jpg"));
}

#[test]
fn folder_artwork_tried_in_order() {
    let names: Vec<String> = vec!["back.jpg", "Folder.PNG", "x.jpeg", "COVER.jpg", "big.png", "mini.png", "notes.txt"]
        .into_iter()
        .map(String::from)
        .collect();
    let sizes = vec![900, 10, 50, 20, 70, 999, 5];
    let order = folder_artwork_order(&names, &sizes);
    assert_eq!(order, vec![3, 1, 4]);
    let none = folder_artwork_order(&vec!["a.txt".to_string()], &vec![1]);
    assert!(none.is_empty());
}

#[test]
fn export_builds_entries_for_known_tracks() {
    let tracks = vec![
        PlaylistTrack { id: 1, playlist_id: 9, track_id: 5, position: 0, added_at: 0 },
        PlaylistTrack { id: 2, playlist_id: 9, track_id: 6, position: 1, added_at: 0 },
        PlaylistTrack { id: 3, playlist_id: 9, track_id: 5, position: 2, added_at: 0 },
    ];
    let known = vec![ExportTrack {
        id: 5,
        path: "/m/five.flac".to_string(),
        duration: Some(Duration::from_secs(5)),
        title: Some("Five".to_string()),
    }];
    let m = export_playlist("Mix", &tracks, &known);
    assert_eq!(m.name, "Mix");
    assert_eq!(m.entries.len(), 2);
    assert_eq!(m.entries[1].path, "/m/five.flac");
    assert_eq!(m.entries[0].title, Some("Five".to_string()));
    assert_eq!(m.entries[0].artist, None);
}

#[test]
fn schema_steps() {
    assert_eq!(schema_step(0), SchemaStep::Create);
    assert_eq!(schema_step(SCHEMA_VERSION), SchemaStep::Keep);
    assert_eq!(schema_step(SCHEMA_VERSION + 1), SchemaStep::Keep);
    assert!(SCHEMA_SQL.contains("CREATE VIRTUAL TABLE IF NOT EXISTS tracks_fts USING fts5("));
}

#[test]
fn ratings_are_capped() {
    assert_eq!(stored_rating(3), 3);
    assert_eq!(stored_rating(5), 5);
    assert_eq!(stored_rating(200), 5);
}
