//! Playlist records and playlist errors.
use vstd::prelude::*;

use crate::duration::Duration;
use crate::m3u8::{M3u8Entry, M3u8Playlist};
use crate::error::{labelled, labelled_count, labelled_int, labelled_io, owned};
use crate::text::{decimal, from_chars, opt_chars, push_str, signed_decimal, to_chars};

verus! {

/// Playlist-specific errors.
#[derive(Debug)]
pub enum PlaylistError {
    NotFound(String),
    AlreadyExists(String),
    InvalidName(String),
    TrackNotInPlaylist(i64),
    InvalidPosition(usize),
    M3u8Parse { line: usize, message: String },
    FileNotFound(String),
    /// A database failure, with the database's own message.
    Database(String),
    Io(std::io::Error),
    QueueEmpty,
    InvalidIndex(usize),
}

/// Result type for playlist operations.
pub type PlaylistResult<T> = Result<T, PlaylistError>;

/// The schema of the playlist database.
pub const PLAYLIST_SCHEMA_SQL: &'static str = "
CREATE TABLE IF NOT EXISTS playlists (
    id          INTEGER PRIMARY KEY,
    name        TEXT NOT NULL UNIQUE,
    description TEXT,
    created_at  INTEGER NOT NULL DEFAULT (unixepoch()),
    updated_at  INTEGER NOT NULL DEFAULT (unixepoch())
);

CREATE TABLE IF NOT EXISTS playlist_tracks (
    id          INTEGER PRIMARY KEY,
    playlist_id INTEGER NOT NULL REFERENCES playlists(id) ON DELETE CASCADE,
    track_id    INTEGER NOT NULL,
    position    INTEGER NOT NULL,
    added_at    INTEGER NOT NULL DEFAULT (unixepoch()),
    UNIQUE(playlist_id, position)
);

CREATE INDEX IF NOT EXISTS idx_playlist_tracks_playlist
    ON playlist_tracks(playlist_id, position);

CREATE TRIGGER IF NOT EXISTS playlists_updated AFTER UPDATE ON playlists
BEGIN
    UPDATE playlists SET updated_at = unixepoch() WHERE id = NEW.id;
END;
";

/// The message of a playlist error, for all but I/O errors, whose message
/// is the prefix given here followed by the system's text.
pub open spec fn playlist_error_text(e: PlaylistError) -> Seq<char> {
    match e {
        PlaylistError::NotFound(m) => "Playlist not found: "@ + m@,
        PlaylistError::AlreadyExists(m) => "Playlist already exists: "@ + m@,
        PlaylistError::InvalidName(m) => "Invalid playlist name: "@ + m@,
        PlaylistError::TrackNotInPlaylist(id) => "Track not in playlist: "@ + signed_decimal(
            id as int,
        ),
        PlaylistError::InvalidPosition(p) => "Invalid position: "@ + decimal(p as nat),
        PlaylistError::M3u8Parse { line, message } => "M3U8 parse error at line "@ + decimal(
            line as nat,
        ) + ": "@ + message@,
        PlaylistError::FileNotFound(p) => "File not found: "@ + p@,
        PlaylistError::Database(m) => "Database error: "@ + m@,
        PlaylistError::Io(_) => "IO error: "@,
        PlaylistError::QueueEmpty => "Queue is empty"@,
        PlaylistError::InvalidIndex(i) => "Invalid queue index: "@ + decimal(i as nat),
    }
}

impl PlaylistError {
    /// The message shown for the error.
    pub fn message(&self) -> (r: String)
        ensures
            !(*self is Io) ==> r@ == playlist_error_text(*self),
            *self is Io ==> r@.len() >= playlist_error_text(*self).len() && r@.take(
                playlist_error_text(*self).len() as int,
            ) == playlist_error_text(*self),
    {
        match self {
            PlaylistError::NotFound(m) => labelled("Playlist not found: ", m.as_str()),
            PlaylistError::AlreadyExists(m) => labelled("Playlist already exists: ", m.as_str()),
            PlaylistError::InvalidName(m) => labelled("Invalid playlist name: ", m.as_str()),
            PlaylistError::TrackNotInPlaylist(id) => labelled_int("Track not in playlist: ", *id),
            PlaylistError::InvalidPosition(p) => labelled_count("Invalid position: ", *p),
            PlaylistError::M3u8Parse { line, message } => {
                let mut s = labelled_count("M3U8 parse error at line ", *line);
                push_str(&mut s, ": ");
                push_str(&mut s, message.as_str());
                s
            },
            PlaylistError::FileNotFound(p) => labelled("File not found: ", p.as_str()),
            PlaylistError::Database(m) => labelled("Database error: ", m.as_str()),
            PlaylistError::Io(e) => labelled_io("IO error: ", e),
            PlaylistError::QueueEmpty => owned("Queue is empty"),
            PlaylistError::InvalidIndex(i) => labelled_count("Invalid queue index: ", *i),
        }
    }
}

/// A playlist with its metadata.
#[derive(Clone, Debug)]
pub struct Playlist {
    pub id: i64,
    pub name: String,
    pub description: Option<String>,
    pub track_count: u32,
    pub total_duration_ms: i64,
    pub created_at: i64,
    pub updated_at: i64,
}

/// A track in a playlist.
#[derive(Clone, Copy, Debug)]
pub struct PlaylistTrack {
    pub id: i64,
    pub playlist_id: i64,
    pub track_id: i64,
    pub position: i32,
    pub added_at: i64,
}

/// What the library knows of a track when a playlist is exported: its id,
/// path, duration and title.
#[derive(Clone, Debug)]
pub struct ExportTrack {
    pub id: i64,
    pub path: String,
    pub duration: Option<Duration>,
    pub title: Option<String>,
}

/// Index of the first record in `known` with the given track id.
pub open spec fn first_with_id(known: Seq<ExportTrack>, id: i64) -> Option<int>
    decreases known.len(),
{
    if known.len() == 0 {
        None
    } else if known[0].id == id {
        Some(0)
    } else {
        match first_with_id(known.drop_first(), id) {
            Some(i) => Some(i + 1),
            None => None,
        }
    }
}

/// The entries of an exported playlist: for each playlist track in order,
/// the first known record of that track, when there is one.
pub open spec fn export_entries(tracks: Seq<PlaylistTrack>, known: Seq<ExportTrack>) -> Seq<
    M3u8Entry,
>
    decreases tracks.len(),
{
    if tracks.len() == 0 {
        seq![]
    } else {
        let rest = export_entries(tracks.drop_last(), known);
        match first_with_id(known, tracks.last().track_id) {
            Some(i) => rest.push(export_entry(known[i])),
            None => rest,
        }
    }
}

/// The entry written for a known track: its path, duration and title, no
/// artist.
pub open spec fn export_entry(t: ExportTrack) -> M3u8Entry {
    M3u8Entry { path: t.path, duration: t.duration, title: t.title, artist: None }
}

/// `first_with_id` finds the first track with the given id, or reports that there is none.
pub proof fn lemma_first_with_id(known: Seq<ExportTrack>, id: i64)
    ensures
        first_with_id(known, id) matches Some(i) ==> 0 <= i < known.len() && known[i].id == id
            && forall|k: int| 0 <= k < i ==> known[k].id != id,
        first_with_id(known, id) is None ==> forall|k: int|
            0 <= k < known.len() ==> known[k].id != id,
    decreases known.len(),
{
    if known.len() > 0 && known[0].id != id {
        lemma_first_with_id(known.drop_first(), id);
        assert forall|k: int| 1 <= k < known.len() implies known[k] == known.drop_first()[k
            - 1] by {}
    }
}

/// Exporting two runs of playlist tracks one after the other gives the
/// entries of the first run followed by those of the second: export keeps
/// the playlist's order.
pub proof fn law_export_keeps_order(a: Seq<PlaylistTrack>, b: Seq<PlaylistTrack>, known: Seq<ExportTrack>)
    ensures
        export_entries(a + b, known) == export_entries(a, known) + export_entries(b, known),
    decreases b.len(),
{
    if b.len() == 0 {
        assert(a + b =~= a);
        assert(export_entries(a, known) + export_entries(b, known) =~= export_entries(a, known));
    } else {
        let b0 = b.drop_last();
        law_export_keeps_order(a, b0, known);
        assert((a + b).drop_last() =~= a + b0);
        assert((a + b).last() == b.last());
        match first_with_id(known, b.last().track_id) {
            Some(i) => {
                assert(export_entries(a, known) + export_entries(b0, known).push(export_entry(known[i]))
                    =~= (export_entries(a, known) + export_entries(b0, known)).push(
                    export_entry(known[i]),
                ));
            },
            None => {},
        }
    }
}

/// One playlist track exports to the entry of its first known record, or to
/// nothing when no record describes it.
pub proof fn law_export_one_track(t: PlaylistTrack, known: Seq<ExportTrack>)
    ensures
        first_with_id(known, t.track_id) matches Some(i) ==> 0 <= i < known.len() && known[i].id
            == t.track_id && export_entries(seq![t], known) == seq![
            M3u8Entry { path: known[i].path, duration: known[i].duration, title: known[i].title, artist: None },
        ],
        first_with_id(known, t.track_id) is None ==> export_entries(seq![t], known) == Seq::<
            M3u8Entry,
        >::empty(),
{
    lemma_first_with_id(known, t.track_id);
    assert(seq![t].drop_last() =~= Seq::<PlaylistTrack>::empty());
    assert(seq![t].last() == t);
    assert(export_entries(Seq::<PlaylistTrack>::empty(), known) =~= Seq::<M3u8Entry>::empty());
    match first_with_id(known, t.track_id) {
        Some(i) => {
            assert(Seq::<M3u8Entry>::empty().push(export_entry(known[i])) =~= seq![export_entry(known[i])]);
        },
        None => {},
    }
}

/// When every playlist track is known, the `k`-th exported entry is that of
/// the `k`-th track, and there is one entry per track.
pub proof fn law_export_all_known(tracks: Seq<PlaylistTrack>, known: Seq<ExportTrack>)
    requires
        forall|k: int| 0 <= k < tracks.len() ==> #[trigger] first_with_id(known, tracks[k].track_id) is Some,
    ensures
        export_entries(tracks, known).len() == tracks.len(),
        forall|k: int| 0 <= k < tracks.len() ==> #[trigger] export_entries(tracks, known)[k]
            == export_entry(known[first_with_id(known, tracks[k].track_id).unwrap()]),
    decreases tracks.len(),
{
    if tracks.len() > 0 {
        let t0 = tracks.drop_last();
        assert forall|k: int| 0 <= k < t0.len() implies #[trigger] first_with_id(known, t0[k].track_id) is Some by {
            assert(t0[k] == tracks[k]);
        }
        law_export_all_known(t0, known);
        assert(first_with_id(known, tracks[tracks.len() - 1].track_id) is Some);
        assert forall|k: int| 0 <= k < tracks.len() implies #[trigger] export_entries(tracks, known)[k]
            == export_entry(known[first_with_id(known, tracks[k].track_id).unwrap()]) by {
            if k < tracks.len() - 1 {
                assert(t0[k] == tracks[k]);
                assert(export_entries(t0, known)[k] == export_entry(known[first_with_id(known, t0[k].track_id).unwrap()]));
            }
        }
    }
}

fn clone_string(s: &String) -> (r: String)
    ensures
        r@ == s@,
{
    let v = to_chars(s.as_str());
    from_chars(&v)
}

fn clone_opt_string(s: &Option<String>) -> (r: Option<String>)
    ensures
        opt_chars(r) == opt_chars(*s),
{
    match s {
        Some(t) => Some(clone_string(t)),
        None => None,
    }
}

/// Builds the M3U8 playlist that exporting a playlist writes: named after
/// the playlist, with one entry per playlist track that `known` describes.
pub fn export_playlist(name: &str, tracks: &[PlaylistTrack], known: &[ExportTrack]) -> (r:
    M3u8Playlist)
    ensures
        r.name@ == name@,
        r.extended,
        r.entries@.len() == export_entries(tracks@, known@).len(),
        forall|i: int|
            0 <= i < r.entries@.len() ==> {
                let e = #[trigger] r.entries@[i];
                let x = export_entries(tracks@, known@)[i];
                &&& e.path@ == x.path@
                &&& e.duration == x.duration
                &&& opt_chars(e.title) == opt_chars(x.title)
                &&& e.artist is None
            },
{
    let mut m = M3u8Playlist::new(name);
    let mut i: usize = 0;
    while i < tracks.len()
        invariant
            i <= tracks@.len(),
            m.name@ == name@,
            m.extended,
            m.entries@.len() == export_entries(tracks@.take(i as int), known@).len(),
            forall|k: int|
                0 <= k < m.entries@.len() ==> {
                    let e = #[trigger] m.entries@[k];
                    let x = export_entries(tracks@.take(i as int), known@)[k];
                    &&& e.path@ == x.path@
                    &&& e.duration == x.duration
                    &&& opt_chars(e.title) == opt_chars(x.title)
                    &&& e.artist is None
                },
        decreases tracks.len() - i,
    {
        let id = tracks[i].track_id;
        assert(tracks@.take(i + 1).drop_last() == tracks@.take(i as int));
        assert(tracks@.take(i + 1).last() == tracks@[i as int]);
        let mut j: usize = 0;
        let mut found: Option<usize> = None;
        while j < known.len()
            invariant
                j <= known@.len(),
                found is None ==> forall|k: int| 0 <= k < j ==> known@[k].id != id,
                found matches Some(f) ==> f < known@.len() && known@[f as int].id == id
                    && forall|k: int| 0 <= k < f ==> known@[k].id != id,
            decreases known.len() - j,
        {
            if found.is_none() && known[j].id == id {
                found = Some(j);
            }
            j = j + 1;
        }
        proof {
            lemma_first_with_id(known@, id);
        }
        if let Some(f) = found {
            assert(first_with_id(known@, id) == Some(f as int));
            let t = &known[f];
            let entry = M3u8Entry::with_metadata(
                clone_string(&t.path),
                t.duration,
                clone_opt_string(&t.title),
                None,
            );
            m.add(entry);
        } else {
            assert(first_with_id(known@, id) is None);
        }
        i = i + 1;
    }
    assert(tracks@.take(tracks@.len() as int) == tracks@);
    m
}

} // verus!
