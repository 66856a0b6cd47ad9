use hadal::duration::Duration;
use hadal::m3u8::{M3u8Entry, M3u8Playlist, M3u8Reader, M3u8Writer};

#[test]
fn test_parse_extinf() {
    let (dur, title) = M3u8Reader::parse_extinf("123,Artist - Song Title");
    assert_eq!(dur, Some(Duration::from_secs(123)));
    assert_eq!(title, Some("Artist - Song Title".to_string()));

    let (dur, title) = M3u8Reader::parse_extinf("-1,Unknown");
    assert_eq!(dur, None);
    assert_eq!(title, Some("Unknown".to_string()));
}

#[test]
fn test_parse_title() {
    let (artist, title) = M3u8Reader::parse_title(Some("Pink Floyd - Echoes"));
    assert_eq!(artist, Some("Pink Floyd".to_string()));
    assert_eq!(title, Some("Echoes".to_string()));

    let (artist, title) = M3u8Reader::parse_title(Some("Just a Title"));
    assert_eq!(artist, None);
    assert_eq!(title, Some("Just a Title".to_string()));
}

#[test]
fn extinf_durations() {
    assert_eq!(M3u8Reader::parse_extinf(" 4.25 ,x").0, Some(Duration::from_secs_nanos(4, 250_000_000)));
    assert_eq!(M3u8Reader::parse_extinf("-0,x").0, Some(Duration::zero()));
    assert_eq!(M3u8Reader::parse_extinf("-0.5,x").0, None);
    assert_eq!(M3u8Reader::parse_extinf(".5").0, Some(Duration::from_secs_nanos(0, 500_000_000)));
    assert_eq!(M3u8Reader::parse_extinf("+7.").0, Some(Duration::from_secs(7)));
    assert_eq!(M3u8Reader::parse_extinf("abc,x").0, None);
    assert_eq!(M3u8Reader::parse_extinf("1.2.3,x").0, None);
    assert_eq!(M3u8Reader::parse_extinf("1.0000000019").0, Some(Duration::from_secs_nanos(1, 2)));
    assert_eq!(M3u8Reader::parse_extinf("1.0000000014").0, Some(Duration::from_secs_nanos(1, 1)));
    assert_eq!(M3u8Reader::parse_extinf("1.9999999999").0, Some(Duration::from_secs(2)));
    assert_eq!(M3u8Reader::parse_extinf("0.0000000005").0, Some(Duration::from_secs_nanos(0, 1)));
    let (d, t) = M3u8Reader::parse_extinf("60");
    assert_eq!(d, Some(Duration::from_secs(60)));
    assert_eq!(t, None);
    let (_, t) = M3u8Reader::parse_extinf("5,a, b ");
    assert_eq!(t, Some("a, b".to_string()));
}

#[test]
fn title_split_at_first_separator() {
    let (a, t) = M3u8Reader::parse_title(Some("A - B - C"));
    assert_eq!(a, Some("A".to_string()));
    assert_eq!(t, Some("B - C".to_string()));
    assert_eq!(M3u8Reader::parse_title(None), (None, None));
}

#[test]
fn read_playlist_text() {
    let text = "#EXTM3U\r\n#EXTINF:123,Artist - Song\n  song.flac  \n# a comment\n\n/abs/other.mp3\n#EXTINF:-1,Just Title\nthird.ogg";
    let p = M3u8Reader::read_from_reader(text, "mix".to_string(), Some("/music")).unwrap();
    assert_eq!(p.name, "mix");
    assert!(p.extended);
    assert_eq!(p.len(), 3);
    assert_eq!(p.entries[0].path, "/music/song.flac");
    assert_eq!(p.entries[0].duration, Some(Duration::from_secs(123)));
    assert_eq!(p.entries[0].artist, Some("Artist".to_string()));
    assert_eq!(p.entries[0].title, Some("Song".to_string()));
    assert_eq!(p.entries[1].path, "/abs/other.mp3");
    assert_eq!(p.entries[1].title, None);
    assert_eq!(p.entries[2].path, "/music/third.ogg");
    assert_eq!(p.entries[2].duration, None);
    assert_eq!(p.entries[2].title, Some("Just Title".to_string()));
    assert_eq!(p.total_duration(), None);
}

#[test]
fn write_playlist_text() {
    let mut p = M3u8Playlist::new("x");
    p.add(M3u8Entry::with_metadata(
        "/music/a/one.flac".to_string(),
        Some(Duration::from_secs_nanos(61, 900_000_000)),
        Some("One".to_string()),
        Some("Band".to_string()),
    ));
    p.add_path("/elsewhere/two.mp3".to_string());
    p.add(M3u8Entry::with_metadata("three.ogg".to_string(), None, Some("Three".to_string()), None));
    let text = M3u8Writer::write_to_writer(&p, Some("/music"));
    assert_eq!(
        text,
        "#EXTM3U\n#EXTINF:61,Band - One\na/one.flac\n/elsewhere/two.mp3\n#EXTINF:-1,Three\nthree.ogg\n"
    );
    let plain = M3u8Playlist { name: "p".to_string(), entries: p.entries.clone(), extended: false };
    assert_eq!(M3u8Writer::write_to_writer(&plain, None), "/music/a/one.flac\n/elsewhere/two.mp3\nthree.ogg\n");
}

#[test]
fn written_playlist_reads_back() {
    let mut p = M3u8Playlist::new("round");
    p.add(M3u8Entry::with_metadata(
        "/m/a.flac".to_string(),
        Some(Duration::from_secs(200)),
        Some("Title, with comma".to_string()),
        Some("Artist".to_string()),
    ));
    p.add(M3u8Entry::with_metadata("/m/b.flac".to_string(), None, Some("".to_string()), None));
    p.add_path("/m/c.flac".to_string());
    let text = M3u8Writer::write_to_writer(&p, None);
    let q = M3u8Reader::read_from_reader(&text, "round".to_string(), None).unwrap();
    assert_eq!(q.len(), p.len());
    for (a, b) in p.entries.iter().zip(q.entries.iter()) {
        assert_eq!(a.path, b.path);
        assert_eq!(a.duration, b.duration);
        assert_eq!(a.title, b.title);
        assert_eq!(a.artist, b.artist);
    }
}

#[test]
fn total_duration_sums() {
    let mut p = M3u8Playlist::new("t");
    assert!(p.is_empty());
    assert_eq!(p.total_duration(), Some(Duration::zero()));
    p.add(M3u8Entry::with_metadata("a".to_string(), Some(Duration::from_millis(1500)), None, None));
    p.add(M3u8Entry::with_metadata("b".to_string(), Some(Duration::from_millis(700)), None, None));
    assert_eq!(p.total_duration(), Some(Duration::from_millis(2200)));
}

#[test]
fn header_makes_a_playlist_extended() {
    let plain = M3u8Reader::read_from_reader("/m/a.flac\n/m/b.flac\n", "p".to_string(), None).unwrap();
    assert!(!plain.extended);
    assert_eq!(plain.len(), 2);
    let late = M3u8Reader::read_from_reader("/m/a.flac\n  #EXTM3U  \n", "p".to_string(), None).unwrap();
    assert!(late.extended);
    assert_eq!(late.len(), 1);
}

#[test]
fn extinf_durations_with_exponents() {
    assert_eq!(M3u8Reader::parse_extinf("1e3,x").0, Some(Duration::from_secs(1000)));
    assert_eq!(M3u8Reader::parse_extinf("1.5E-2").0, Some(Duration::from_secs_nanos(0, 15_000_000)));
    assert_eq!(M3u8Reader::parse_extinf("2.5e+1").0, Some(Duration::from_secs(25)));
    assert_eq!(M3u8Reader::parse_extinf("5e-9").0, Some(Duration::from_secs_nanos(0, 5)));
    assert_eq!(M3u8Reader::parse_extinf("2e-10").0, Some(Duration::zero()));
    assert_eq!(M3u8Reader::parse_extinf("5e-10").0, Some(Duration::from_secs_nanos(0, 1)));
    assert_eq!(M3u8Reader::parse_extinf("-0e5").0, Some(Duration::zero()));
    assert_eq!(M3u8Reader::parse_extinf("0e400").0, Some(Duration::zero()));
    assert_eq!(M3u8Reader::parse_extinf("1e400").0, None);
    assert_eq!(M3u8Reader::parse_extinf("-1e-3").0, None);
    assert_eq!(M3u8Reader::parse_extinf("1e").0, None);
    assert_eq!(M3u8Reader::parse_extinf("1e+").0, None);
    assert_eq!(M3u8Reader::parse_extinf("e5").0, None);
    assert_eq!(M3u8Reader::parse_extinf(".e1").0, None);
}
