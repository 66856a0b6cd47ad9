use hadal::audio::AudioError;
use hadal::display::queue_summary;
use hadal::error::Error;
use hadal::library::LibraryError;
use hadal::playlist::PlaylistError;
use hadal::tui::{key_hints, ViewId};

#[test]
fn library_error_messages() {
    assert_eq!(LibraryError::TrackNotFound(5).message(), "Track not found: 5");
    assert_eq!(LibraryError::ArtistNotFound(-2).message(), "Artist not found: -2");
    assert_eq!(LibraryError::Database("locked".to_string()).message(), "Database error: locked");
    let io = std::io::Error::new(std::io::ErrorKind::Other, "disk gone");
    assert_eq!(LibraryError::Io(io).message(), "IO error: disk gone");
}

#[test]
fn playlist_error_messages() {
    let e = PlaylistError::M3u8Parse { line: 3, message: "bad duration".to_string() };
    assert_eq!(e.message(), "M3U8 parse error at line 3: bad duration");
    assert_eq!(PlaylistError::QueueEmpty.message(), "Queue is empty");
    assert_eq!(PlaylistError::InvalidIndex(7).message(), "Invalid queue index: 7");
}

#[test]
fn audio_error_messages() {
    assert_eq!(AudioError::NoAudioTrack.message(), "No suitable audio track found");
    assert_eq!(AudioError::Seek("past end".to_string()).message(), "Seek error: past end");
}

#[test]
fn application_error_messages() {
    assert_eq!(Error::NoConfigDir.message(), "Missing configuration directory");
    assert_eq!(Error::Other("plain".to_string()).message(), "plain");
    assert_eq!(Error::decode("bad frame").message(), "Failed to decode audio: bad frame");
    let io = std::io::Error::new(std::io::ErrorKind::Other, "no space");
    assert_eq!(Error::Io(io).message(), "I/O error: no space");
}

#[test]
fn queue_headings() {
    assert_eq!(queue_summary(1, 61_000), "  Queue \u{2014} 1 track, 1:01 total");
    assert_eq!(queue_summary(12, 3_600_000), "  Queue \u{2014} 12 tracks, 60:00 total");
    assert_eq!(queue_summary(0, 0), "  Queue \u{2014} 0 tracks, 0:00 total");
}

#[test]
fn status_bar_hints() {
    assert_eq!(key_hints(ViewId::Queue), "jk:navigate  d:remove  JK:reorder");
    assert_eq!(key_hints(ViewId::Search), "Type to search  Enter:select  Esc:close");
}
