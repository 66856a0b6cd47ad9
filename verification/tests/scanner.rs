use hadal::library::Scanner;
use hadal::audio::{is_supported_extension, is_supported_file};

#[test]
fn test_is_audio_file() {
    assert!(Scanner::is_audio_file("song.flac"));
    assert!(Scanner::is_audio_file("song.FLAC"));
    assert!(Scanner::is_audio_file("song.mp3"));
    assert!(Scanner::is_audio_file("song.m4a"));
    assert!(Scanner::is_audio_file("song.ogg"));
    assert!(Scanner::is_audio_file("song.opus"));
    assert!(Scanner::is_audio_file("song.wav"));
    assert!(Scanner::is_audio_file("song.aiff"));

    assert!(!Scanner::is_audio_file("song.txt"));
    assert!(!Scanner::is_audio_file("song.jpg"));
    assert!(!Scanner::is_audio_file("song"));
}

#[test]
fn audio_file_edge_cases() {
    assert!(!Scanner::is_audio_file(".flac"));
    assert!(Scanner::is_audio_file("/music/album.v2/track.Wv"));
    assert!(Scanner::is_audio_file("/music/album.flac/"));
    assert!(is_supported_extension("OPUS"));
    assert!(!is_supported_extension("flac "));
    assert!(is_supported_file("a/b/c.aif"));
    assert!(!is_supported_file("a/b/c"));
}

#[test]
fn scanner_flags() {
    let s = Scanner::new(vec!["/music".to_string()]);
    assert!(!s.is_scanning());
    assert_eq!(s.files_found(), 0);
    s.start_scan();
    assert!(s.is_scanning());
    s.note_file_found();
    s.note_file_found();
    assert_eq!(s.files_found(), 2);
    s.cancel();
    assert!(s.is_cancelled());
    s.finish_scan();
    assert!(!s.is_scanning());
    assert_eq!(s.folders(), &vec!["/music".to_string()]);
}
