use hadal::paths::{cache_entry_expired, Paths};

#[test]
fn test_playlist_file() {
    let paths = Paths::new().unwrap();
    let playlist_path = paths.playlist_file("favorites", "m3u8");
    assert!(playlist_path.ends_with("favorites.m3u8"));
}

#[test]
fn test_artwork_file() {
    let paths = Paths::new().unwrap();
    let artwork_path = paths.artwork_file(0x1234567890abcdef);
    assert!(artwork_path.ends_with("1234567890abcdef.png"));
}

#[test]
fn paths_under_base_directories() {
    let p = Paths::under("/c", "/d/", "/k");
    assert_eq!(p.config_dir, "/c/hadal");
    assert_eq!(p.config_file, "/c/hadal/config.toml");
    assert_eq!(p.database, "/d/hadal/library.db");
    assert_eq!(p.playlists_dir, "/d/hadal/playlists");
    assert_eq!(p.log_file, "/k/hadal/hadal.log");
    assert_eq!(p.artwork_file(0xab), "/k/hadal/artwork/00000000000000ab.png");
    assert_eq!(p.waveform_file(-7), "/k/hadal/waveforms/-7.waveform");
    assert_eq!(p.playlist_file("a b", "m3u"), "/d/hadal/playlists/a b.m3u");
    assert_eq!(p.directories().len(), 6);
}

#[test]
fn cache_expiry_rule() {
    assert!(cache_entry_expired(Some(11), 10));
    assert!(!cache_entry_expired(Some(10), 10));
    assert!(!cache_entry_expired(None, 0));
}
