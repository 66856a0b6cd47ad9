//! The music library: database rows, search queries, the scanner's rules and
//! the artwork cache's rules.
use std::collections::HashSet;
use std::sync::Arc;
use std::sync::atomic::{AtomicBool, AtomicUsize, Ordering};

use vstd::prelude::*;

use crate::error::{labelled, labelled_int, labelled_io, ExIoError};
use crate::path::{extension_of, file_stem, file_stem_of, join, join_path, parent, parent_of, path_extension};
use crate::text::{
    all_ascii, ascii_upper, ends_with, eq_ignore_ascii_case, find, hex, opt_chars, push_hex_016, push_str, signed_decimal,
    str_eq_ignore_ascii_case, to_chars, to_lowercase, to_uppercase, trim, trim_str,
    unicode_lowercase, unicode_uppercase, words, zero_pad,
};
use crate::types::{SortField, SortOrder};

verus! {

// Rows

/// Artist database row.
#[derive(Clone, Debug)]
pub struct ArtistRow {
    pub id: i64,
    pub name: String,
    pub sort_name: Option<String>,
    pub created_at: i64,
    pub updated_at: i64,
}

/// Album database row.
#[derive(Clone, Debug)]
pub struct AlbumRow {
    pub id: i64,
    pub title: String,
    pub sort_title: Option<String>,
    pub artist_id: Option<i64>,
    pub album_artist: Option<String>,
    pub year: Option<i32>,
    pub genre: Option<String>,
    pub disc_total: Option<i32>,
    pub track_total: Option<i32>,
    pub artwork_hash: Option<String>,
    pub created_at: i64,
    pub updated_at: i64,
}

/// Track database row.
#[derive(Clone, Debug)]
pub struct TrackRow {
    pub id: i64,
    pub path: String,
    pub title: String,
    pub sort_title: Option<String>,
    pub artist_id: Option<i64>,
    pub album_id: Option<i64>,
    pub track_number: Option<i32>,
    pub disc_number: Option<i32>,
    pub duration_ms: i64,
    pub year: Option<i32>,
    pub genre: Option<String>,
    pub sample_rate: Option<i32>,
    pub bit_depth: Option<i32>,
    pub channels: Option<i32>,
    pub codec: Option<String>,
    pub bitrate: Option<i32>,
    pub file_size: Option<i64>,
    pub play_count: i32,
    pub last_played: Option<i64>,
    pub rating: i32,
    pub file_mtime: i64,
    pub created_at: i64,
    pub updated_at: i64,
}

impl TrackRow {
    /// A new row for insertion: no id yet, disc one, never played, unrated.
    pub fn new(path: String, title: String, duration_ms: i64, file_mtime: i64) -> (r: Self)
        ensures
            r == (TrackRow {
                id: 0,
                path,
                title,
                sort_title: None,
                artist_id: None,
                album_id: None,
                track_number: None,
                disc_number: Some(1),
                duration_ms,
                year: None,
                genre: None,
                sample_rate: None,
                bit_depth: None,
                channels: None,
                codec: None,
                bitrate: None,
                file_size: None,
                play_count: 0,
                last_played: None,
                rating: 0,
                file_mtime,
                created_at: 0,
                updated_at: 0,
            }),
    {
        TrackRow {
            id: 0,
            path,
            title,
            sort_title: None,
            artist_id: None,
            album_id: None,
            track_number: None,
            disc_number: Some(1),
            duration_ms,
            year: None,
            genre: None,
            sample_rate: None,
            bit_depth: None,
            channels: None,
            codec: None,
            bitrate: None,
            file_size: None,
            play_count: 0,
            last_played: None,
            rating: 0,
            file_mtime,
            created_at: 0,
            updated_at: 0,
        }
    }
}

/// Scan progress.
#[derive(Clone, Debug)]
pub struct ScanProgress {
    pub total_files: usize,
    pub scanned_files: usize,
    pub current_file: Option<String>,
    pub added: usize,
    pub updated: usize,
    pub errors: usize,
}

impl ScanProgress {
    /// Progress at the start of a scan of `total_files` files.
    pub fn new(total_files: usize) -> (r: Self)
        ensures
            r == (ScanProgress {
                total_files,
                scanned_files: 0,
                current_file: None,
                added: 0,
                updated: 0,
                errors: 0,
            }),
    {
        ScanProgress {
            total_files,
            scanned_files: 0,
            current_file: None,
            added: 0,
            updated: 0,
            errors: 0,
        }
    }
}

/// Genre with its number of tracks.
#[derive(Clone, Debug)]
pub struct GenreRow {
    pub id: i64,
    pub name: String,
    pub track_count: i64,
}

/// Statistics about the library.
#[derive(Clone, Debug, Default)]
pub struct LibraryStats {
    pub total_tracks: i64,
    pub total_albums: i64,
    pub total_artists: i64,
    pub total_duration_ms: i64,
    pub total_size_bytes: i64,
}

/// Library errors.
#[derive(Debug)]
pub enum LibraryError {
    /// A database error, by its message
    Database(String),
    TagRead(String),
    FileNotFound(String),
    InvalidPath(String),
    Scan(String),
    Image(String),
    Io(std::io::Error),
    TrackNotFound(i64),
    AlbumNotFound(i64),
    ArtistNotFound(i64),
    Migration(String),
}

/// Result type for library operations.
pub type LibraryResult<T> = Result<T, LibraryError>;

/// The version of the database schema that `SCHEMA_SQL` creates.
pub const SCHEMA_VERSION: i32 = 1;

/// The complete database schema.
pub const SCHEMA_SQL: &'static str = "
-- Schema version tracking
CREATE TABLE IF NOT EXISTS schema_version (
    id          INTEGER PRIMARY KEY CHECK (id = 1),
    version     INTEGER NOT NULL
);

-- Artists
CREATE TABLE IF NOT EXISTS artists (
    id          INTEGER PRIMARY KEY,
    name        TEXT NOT NULL COLLATE NOCASE,
    sort_name   TEXT COLLATE NOCASE,
    created_at  INTEGER NOT NULL DEFAULT (unixepoch()),
    updated_at  INTEGER NOT NULL DEFAULT (unixepoch()),
    UNIQUE(name)
);

-- Albums
CREATE TABLE IF NOT EXISTS albums (
    id              INTEGER PRIMARY KEY,
    title           TEXT NOT NULL COLLATE NOCASE,
    sort_title      TEXT COLLATE NOCASE,
    artist_id       INTEGER REFERENCES artists(id) ON DELETE SET NULL,
    album_artist    TEXT COLLATE NOCASE,
    year            INTEGER,
    genre           TEXT,
    disc_total      INTEGER DEFAULT 1,
    track_total     INTEGER,
    artwork_hash    TEXT,
    created_at      INTEGER NOT NULL DEFAULT (unixepoch()),
    updated_at      INTEGER NOT NULL DEFAULT (unixepoch())
);

-- Tracks
CREATE TABLE IF NOT EXISTS tracks (
    id              INTEGER PRIMARY KEY,
    path            TEXT NOT NULL UNIQUE,
    title           TEXT NOT NULL COLLATE NOCASE,
    sort_title      TEXT COLLATE NOCASE,
    artist_id       INTEGER REFERENCES artists(id) ON DELETE SET NULL,
    album_id        INTEGER REFERENCES albums(id) ON DELETE SET NULL,
    track_number    INTEGER,
    disc_number     INTEGER DEFAULT 1,
    duration_ms     INTEGER NOT NULL,
    year            INTEGER,
    genre           TEXT,
    -- Audio format info
    sample_rate     INTEGER,
    bit_depth       INTEGER,
    channels        INTEGER,
    codec           TEXT,
    bitrate         INTEGER,
    file_size       INTEGER,
    -- Metadata
    play_count      INTEGER DEFAULT 0,
    last_played     INTEGER,
    rating          INTEGER DEFAULT 0 CHECK(rating BETWEEN 0 AND 5),
    -- File tracking
    file_mtime      INTEGER NOT NULL,
    file_hash       TEXT,
    created_at      INTEGER NOT NULL DEFAULT (unixepoch()),
    updated_at      INTEGER NOT NULL DEFAULT (unixepoch())
);

-- Genres (normalized)
CREATE TABLE IF NOT EXISTS genres (
    id      INTEGER PRIMARY KEY,
    name    TEXT NOT NULL UNIQUE COLLATE NOCASE
);

-- Track-Genre many-to-many
CREATE TABLE IF NOT EXISTS track_genres (
    track_id    INTEGER NOT NULL REFERENCES tracks(id) ON DELETE CASCADE,
    genre_id    INTEGER NOT NULL REFERENCES genres(id) ON DELETE CASCADE,
    PRIMARY KEY (track_id, genre_id)
);

-- Library folders
CREATE TABLE IF NOT EXISTS library_folders (
    id          INTEGER PRIMARY KEY,
    path        TEXT NOT NULL UNIQUE,
    enabled     INTEGER DEFAULT 1,
    last_scan   INTEGER,
    created_at  INTEGER NOT NULL DEFAULT (unixepoch())
);

-- Full-text search index for tracks
CREATE VIRTUAL TABLE IF NOT EXISTS tracks_fts USING fts5(
    title,
    artist_name,
    album_title,
    genre,
    content='',
    tokenize='unicode61 remove_diacritics 2'
);

-- Indexes for common queries
CREATE INDEX IF NOT EXISTS idx_tracks_artist ON tracks(artist_id);
CREATE INDEX IF NOT EXISTS idx_tracks_album ON tracks(album_id);
CREATE INDEX IF NOT EXISTS idx_tracks_genre ON tracks(genre);
CREATE INDEX IF NOT EXISTS idx_tracks_year ON tracks(year);
CREATE INDEX IF NOT EXISTS idx_tracks_path ON tracks(path);
CREATE INDEX IF NOT EXISTS idx_tracks_rating ON tracks(rating) WHERE rating > 0;
CREATE INDEX IF NOT EXISTS idx_tracks_play_count ON tracks(play_count) WHERE play_count > 0;
CREATE INDEX IF NOT EXISTS idx_albums_artist ON albums(artist_id);
CREATE INDEX IF NOT EXISTS idx_albums_year ON albums(year);
CREATE INDEX IF NOT EXISTS idx_albums_genre ON albums(genre);

-- Triggers for updated_at
CREATE TRIGGER IF NOT EXISTS artists_updated AFTER UPDATE ON artists
BEGIN
    UPDATE artists SET updated_at = unixepoch() WHERE id = NEW.id;
END;

CREATE TRIGGER IF NOT EXISTS albums_updated AFTER UPDATE ON albums
BEGIN
    UPDATE albums SET updated_at = unixepoch() WHERE id = NEW.id;
END;

CREATE TRIGGER IF NOT EXISTS tracks_updated AFTER UPDATE ON tracks
BEGIN
    UPDATE tracks SET updated_at = unixepoch() WHERE id = NEW.id;
END;
";

/// The highest track rating.
pub const MAX_RATING: u8 = 5;

/// The rating stored for a requested one: at most the highest rating.
pub fn stored_rating(rating: u8) -> (r: u8)
    ensures
        r == if rating > MAX_RATING {
            MAX_RATING
        } else {
            rating
        },
{
    if rating > MAX_RATING {
        MAX_RATING
    } else {
        rating
    }
}

/// What opening a database does to its schema.
#[derive(Clone, Copy, Debug, PartialEq, Eq, Structural)]
pub enum SchemaStep {
    /// A new database: the schema is created
    Create,
    /// An older schema: it is migrated to the current version
    Migrate,
    /// The schema is current
    Keep,
}

/// What opening a database whose schema has version `current` (zero when it
/// has none) does to it.
pub fn schema_step(current: i32) -> (r: SchemaStep)
    ensures
        r == if current == 0 {
            SchemaStep::Create
        } else if current < SCHEMA_VERSION {
            SchemaStep::Migrate
        } else {
            SchemaStep::Keep
        },
{
    if current == 0 {
        SchemaStep::Create
    } else if current < SCHEMA_VERSION {
        SchemaStep::Migrate
    } else {
        SchemaStep::Keep
    }
}

/// The message of a library error, for all but I/O errors, whose message is
/// the prefix given here followed by the system's text.
pub open spec fn library_error_text(e: LibraryError) -> Seq<char> {
    match e {
        LibraryError::Database(m) => "Database error: "@ + m@,
        LibraryError::TagRead(m) => "Tag reading error: "@ + m@,
        LibraryError::FileNotFound(p) => "File not found: "@ + p@,
        LibraryError::InvalidPath(p) => "Invalid path: "@ + p@,
        LibraryError::Scan(m) => "Scan error: "@ + m@,
        LibraryError::Image(m) => "Image error: "@ + m@,
        LibraryError::Io(_) => "IO error: "@,
        LibraryError::TrackNotFound(id) => "Track not found: "@ + signed_decimal(id as int),
        LibraryError::AlbumNotFound(id) => "Album not found: "@ + signed_decimal(id as int),
        LibraryError::ArtistNotFound(id) => "Artist not found: "@ + signed_decimal(id as int),
        LibraryError::Migration(m) => "Migration error: "@ + m@,
    }
}

impl LibraryError {
    /// The message shown for the error.
    pub fn message(&self) -> (r: String)
        ensures
            !(*self is Io) ==> r@ == library_error_text(*self),
            *self is Io ==> r@.len() >= library_error_text(*self).len() && r@.take(
                library_error_text(*self).len() as int,
            ) == library_error_text(*self),
    {
        match self {
            LibraryError::Database(m) => labelled("Database error: ", m.as_str()),
            LibraryError::TagRead(m) => labelled("Tag reading error: ", m.as_str()),
            LibraryError::FileNotFound(p) => labelled("File not found: ", p.as_str()),
            LibraryError::InvalidPath(p) => labelled("Invalid path: ", p.as_str()),
            LibraryError::Scan(m) => labelled("Scan error: ", m.as_str()),
            LibraryError::Image(m) => labelled("Image error: ", m.as_str()),
            LibraryError::Io(e) => labelled_io("IO error: ", e),
            LibraryError::TrackNotFound(id) => labelled_int("Track not found: ", *id),
            LibraryError::AlbumNotFound(id) => labelled_int("Album not found: ", *id),
            LibraryError::ArtistNotFound(id) => labelled_int("Artist not found: ", *id),
            LibraryError::Migration(m) => labelled("Migration error: ", m.as_str()),
        }
    }
}

// Search

/// A search query, built step by step.
#[derive(Clone, Debug)]
pub struct SearchQuery {
    /// Full-text search term
    pub text: Option<String>,
    /// Filter by artist ID
    pub artist_id: Option<i64>,
    /// Filter by album ID
    pub album_id: Option<i64>,
    /// Filter by genre
    pub genre: Option<String>,
    /// Filter by year range
    pub year_min: Option<i32>,
    pub year_max: Option<i32>,
    /// Filter by rating
    pub min_rating: Option<u8>,
    /// Sort field
    pub sort_by: SortField,
    /// Sort order
    pub sort_order: SortOrder,
    /// Maximum results
    pub limit: usize,
    /// Offset for pagination
    pub offset: usize,
}

/// How a query is answered.
#[derive(Clone, Debug, PartialEq, Eq)]
pub enum SearchPlan {
    /// A full-text search for the text, with at most `limit` results, each
    /// fetched by id in the order found; ids that cannot be fetched are left
    /// out.
    FullText { text: String, limit: usize },
    /// The tracks matching the album and artist filters, one page.
    Filter { album_id: Option<i64>, artist_id: Option<i64>, limit: usize, offset: usize },
}

impl SearchQuery {
    /// An empty query: sorted by artist, ascending, one hundred results from
    /// the first.
    pub fn new() -> (r: Self)
        ensures
            r.text is None,
            r.artist_id is None,
            r.album_id is None,
            r.genre is None,
            r.year_min is None,
            r.year_max is None,
            r.min_rating is None,
            r.sort_by == SortField::Artist,
            r.sort_order == SortOrder::Ascending,
            r.limit == 100,
            r.offset == 0,
    {
        SearchQuery {
            text: None,
            artist_id: None,
            album_id: None,
            genre: None,
            year_min: None,
            year_max: None,
            min_rating: None,
            sort_by: SortField::Artist,
            sort_order: SortOrder::Ascending,
            limit: 100,
            offset: 0,
        }
    }

    /// Sets the search text.
    pub fn text(self, text: String) -> (r: Self)
        ensures
            r == (SearchQuery { text: Some(text), ..self }),
    {
        SearchQuery { text: Some(text), ..self }
    }

    /// Filters by artist.
    pub fn artist(self, artist_id: i64) -> (r: Self)
        ensures
            r == (SearchQuery { artist_id: Some(artist_id), ..self }),
    {
        SearchQuery { artist_id: Some(artist_id), ..self }
    }

    /// Filters by album.
    pub fn album(self, album_id: i64) -> (r: Self)
        ensures
            r == (SearchQuery { album_id: Some(album_id), ..self }),
    {
        SearchQuery { album_id: Some(album_id), ..self }
    }

    /// Filters by genre.
    pub fn genre(self, genre: String) -> (r: Self)
        ensures
            r == (SearchQuery { genre: Some(genre), ..self }),
    {
        SearchQuery { genre: Some(genre), ..self }
    }

    /// Filters by a range of years.
    pub fn years(self, min: i32, max: i32) -> (r: Self)
        ensures
            r == (SearchQuery { year_min: Some(min), year_max: Some(max), ..self }),
    {
        SearchQuery { year_min: Some(min), year_max: Some(max), ..self }
    }

    /// Filters by a minimum rating.
    pub fn min_rating(self, rating: u8) -> (r: Self)
        ensures
            r == (SearchQuery { min_rating: Some(rating), ..self }),
    {
        SearchQuery { min_rating: Some(rating), ..self }
    }

    /// Sets the sort field and order.
    pub fn sort(self, field: SortField, order: SortOrder) -> (r: Self)
        ensures
            r == (SearchQuery { sort_by: field, sort_order: order, ..self }),
    {
        SearchQuery { sort_by: field, sort_order: order, ..self }
    }

    /// Sets the number of results.
    pub fn limit(self, limit: usize) -> (r: Self)
        ensures
            r == (SearchQuery { limit, ..self }),
    {
        SearchQuery { limit, ..self }
    }

    /// Sets where the results start.
    pub fn offset(self, offset: usize) -> (r: Self)
        ensures
            r == (SearchQuery { offset, ..self }),
    {
        SearchQuery { offset, ..self }
    }

    /// How the query is answered: by full-text search when there is text
    /// that is not blank, otherwise by the album and artist filters.
    pub fn plan(&self) -> (r: SearchPlan)
        ensures
            match self.text {
                Some(t) if trim(t@).len() > 0 => r matches SearchPlan::FullText { text, limit }
                    && text@ == t@ && limit == self.limit,
                _ => r == (SearchPlan::Filter {
                    album_id: self.album_id,
                    artist_id: self.artist_id,
                    limit: self.limit,
                    offset: self.offset,
                }),
            },
    {
        match &self.text {
            Some(t) => {
                let trimmed = trim_str(t.as_str());
                if trimmed.as_str().unicode_len() > 0 {
                    let v = to_chars(t.as_str());
                    return SearchPlan::FullText {
                        text: crate::text::from_chars(&v),
                        limit: self.limit,
                    };
                }
            },
            None => {},
        }
        SearchPlan::Filter {
            album_id: self.album_id,
            artist_id: self.artist_id,
            limit: self.limit,
            offset: self.offset,
        }
    }
}

/// The results of a quick search across all categories.
#[derive(Clone, Debug)]
pub struct QuickSearchResults {
    pub tracks: Vec<TrackRow>,
    pub albums: Vec<i64>,
    pub artists: Vec<i64>,
}

/// The ids among `ids`, each once, in the order they first appear.
pub open spec fn first_appearances(ids: Seq<Option<i64>>) -> Seq<i64>
    decreases ids.len(),
{
    if ids.len() == 0 {
        seq![]
    } else {
        let before = first_appearances(ids.drop_last());
        match ids.last() {
            Some(x) => if before.contains(x) {
                before
            } else {
                before.push(x)
            },
            None => before,
        }
    }
}

/// The album ids of tracks.
pub open spec fn album_ids(tracks: Seq<TrackRow>) -> Seq<Option<i64>> {
    tracks.map_values(|t: TrackRow| t.album_id)
}

/// The artist ids of tracks.
pub open spec fn artist_ids(tracks: Seq<TrackRow>) -> Seq<Option<i64>> {
    tracks.map_values(|t: TrackRow| t.artist_id)
}

impl QuickSearchResults {
    /// The results for the tracks a search found: the tracks in order, and
    /// the albums and artists they belong to, each once, in the order they
    /// first appear.
    pub fn collect(tracks: Vec<TrackRow>) -> (r: Self)
        ensures
            r.tracks@ == tracks@,
            r.albums@ == first_appearances(album_ids(tracks@)),
            r.artists@ == first_appearances(artist_ids(tracks@)),
    {
        broadcast use vstd::std_specs::hash::group_hash_axioms;

        let mut albums: Vec<i64> = Vec::new();
        let mut artists: Vec<i64> = Vec::new();
        let mut seen_albums: HashSet<i64> = HashSet::new();
        let mut seen_artists: HashSet<i64> = HashSet::new();
        let mut i: usize = 0;
        while i < tracks.len()
            invariant
                i <= tracks@.len(),
                albums@ == first_appearances(album_ids(tracks@.take(i as int))),
                artists@ == first_appearances(artist_ids(tracks@.take(i as int))),
                forall|x: i64| seen_albums@.contains(x) <==> albums@.contains(x),
                forall|x: i64| seen_artists@.contains(x) <==> artists@.contains(x),
            decreases tracks.len() - i,
        {
            let ghost t = tracks@.take(i + 1);
            assert(album_ids(t).drop_last() =~= album_ids(tracks@.take(i as int)));
            assert(artist_ids(t).drop_last() =~= artist_ids(tracks@.take(i as int)));
            assert(album_ids(t).last() == tracks@[i as int].album_id);
            assert(artist_ids(t).last() == tracks@[i as int].artist_id);
            if let Some(a) = tracks[i].album_id {
                let ghost s0 = seen_albums@;
                let ghost l0 = albums@;
                if seen_albums.insert(a) {
                    albums.push(a);
                }
                assert(seen_albums@ == s0.insert(a));
                assert forall|x: i64| seen_albums@.contains(x) <==> albums@.contains(x) by {
                    if x == a {
                        assert(seen_albums@.contains(a));
                        if !s0.contains(a) {
                            assert(albums@[albums@.len() - 1] == a);
                        }
                    } else {
                        assert(albums@.contains(x) ==> l0.contains(x)) by {
                            if albums@.contains(x) {
                                let k = choose|k: int| 0 <= k < albums@.len() && albums@[k] == x;
                                assert(l0[k] == x);
                            }
                        }
                        assert(l0.contains(x) ==> albums@.contains(x)) by {
                            if l0.contains(x) {
                                let k = choose|k: int| 0 <= k < l0.len() && l0[k] == x;
                                assert(albums@[k] == x);
                            }
                        }
                    }
                }
            }
            if let Some(a) = tracks[i].artist_id {
                let ghost s0 = seen_artists@;
                let ghost l0 = artists@;
                if seen_artists.insert(a) {
                    artists.push(a);
                }
                assert(seen_artists@ == s0.insert(a));
                assert forall|x: i64| seen_artists@.contains(x) <==> artists@.contains(x) by {
                    if x == a {
                        assert(seen_artists@.contains(a));
                        if !s0.contains(a) {
                            assert(artists@[artists@.len() - 1] == a);
                        }
                    } else {
                        assert(artists@.contains(x) ==> l0.contains(x)) by {
                            if artists@.contains(x) {
                                let k = choose|k: int| 0 <= k < artists@.len() && artists@[k] == x;
                                assert(l0[k] == x);
                            }
                        }
                        assert(l0.contains(x) ==> artists@.contains(x)) by {
                            if l0.contains(x) {
                                let k = choose|k: int| 0 <= k < l0.len() && l0[k] == x;
                                assert(artists@[k] == x);
                            }
                        }
                    }
                }
            }
            i = i + 1;
        }
        assert(tracks@.take(i as int) =~= tracks@);
        QuickSearchResults { tracks, albums, artists }
    }
}

/// The full-text query for a search: each word of the search, in order,
/// as a prefix (`word*`), separated by spaces.
pub open spec fn fts_query_of(ws: Seq<Seq<char>>) -> Seq<char>
    decreases ws.len(),
{
    if ws.len() == 0 {
        seq![]
    } else if ws.len() == 1 {
        ws[0] + seq!['*']
    } else {
        fts_query_of(ws.drop_last()) + seq![' '] + ws.last() + seq!['*']
    }
}

/// The full-text query that matches every word of `query` as a prefix.
pub fn fts_query(query: &str) -> (r: String)
    ensures
        r@ == fts_query_of(words(query@)),
{
    let v = to_chars(query);
    let ws = crate::text::split_words(&v);
    let mut out = String::new();
    let mut i: usize = 0;
    assert(ws@.map_values(|w: Vec<char>| w@).take(0) =~= Seq::<Seq<char>>::empty());
    while i < ws.len()
        invariant
            i <= ws@.len(),
            ws@.map_values(|w: Vec<char>| w@) == words(v@),
            v@ == query@,
            out@ == fts_query_of(ws@.map_values(|w: Vec<char>| w@).take(i as int)),
        decreases ws.len() - i,
    {
        let ghost m = ws@.map_values(|w: Vec<char>| w@);
        assert(m.take(i + 1).drop_last() =~= m.take(i as int));
        assert(m.take(i + 1).last() == ws@[i as int]@);
        if i > 0 {
            out.push(' ');
        }
        let w = &ws[i];
        let mut j: usize = 0;
        let ghost before = out@;
        while j < w.len()
            invariant
                j <= w@.len(),
                out@ == before + w@.take(j as int),
            decreases w.len() - j,
        {
            out.push(w[j]);
            j = j + 1;
            assert(w@.take(j as int) =~= w@.take(j - 1).push(w@[j - 1]));
        }
        assert(w@.take(j as int) =~= w@);
        out.push('*');
        proof {
            if i == 0 {
                assert(m.take(1) =~= seq![m[0]]);
                assert(out@ =~= m[0] + seq!['*']);
            } else {
                assert(out@ =~= fts_query_of(m.take(i as int)) + seq![' '] + m[i as int] + seq!['*']);
            }
        }
        i = i + 1;
    }
    assert(ws@.map_values(|w: Vec<char>| w@).take(i as int) =~= ws@.map_values(|w: Vec<char>| w@));
    out
}

/// The statement that deletes the tracks whose paths are not among
/// `count` given ones, with one `?` placeholder each.
pub open spec fn missing_tracks_sql(count: nat) -> Seq<char> {
    "DELETE FROM tracks WHERE path NOT IN ("@ + placeholders(count) + ")"@
}

/// `count` question marks separated by commas.
pub open spec fn placeholders(count: nat) -> Seq<char>
    decreases count,
{
    if count == 0 {
        seq![]
    } else if count == 1 {
        seq!['?']
    } else {
        placeholders((count - 1) as nat) + seq![',', '?']
    }
}

/// The statement that deletes the tracks not among `count` paths.
pub fn remove_missing_sql(count: usize) -> (r: String)
    ensures
        r@ == missing_tracks_sql(count as nat),
{
    let mut s = String::new();
    push_str(&mut s, "DELETE FROM tracks WHERE path NOT IN (");
    let ghost start = s@;
    let mut i: usize = 0;
    while i < count
        invariant
            i <= count,
            s@ == start + placeholders(i as nat),
        decreases count - i,
    {
        if i > 0 {
            s.push(',');
        }
        s.push('?');
        i = i + 1;
        assert(s@ =~= start + placeholders(i as nat));
    }
    push_str(&mut s, ")");
    s
}

/// The columns read for a track row, in the order the row takes them.
pub open spec fn track_columns() -> Seq<char> {
    "SELECT id, path, title, sort_title, artist_id, album_id, track_number, disc_number, duration_ms, year, genre, sample_rate, bit_depth, channels, codec, bitrate, file_size, play_count, last_played, rating, file_mtime, created_at, updated_at FROM tracks"@
}

/// The query for a page of tracks: filtered by album and artist when asked
/// (numbering the parameters in that order), ordered by disc, number and
/// title, with an optional limit and offset.
pub open spec fn tracks_sql(
    by_album: bool,
    by_artist: bool,
    limit: Option<usize>,
    offset: Option<usize>,
) -> Seq<char> {
    track_columns() + " WHERE 1=1"@ + (if by_album {
        " AND album_id = ?1"@
    } else {
        seq![]
    }) + (if by_artist {
        " AND artist_id = ?"@ + crate::text::decimal(
            if by_album {
                2
            } else {
                1
            },
        )
    } else {
        seq![]
    }) + " ORDER BY disc_number, track_number, title COLLATE NOCASE"@ + (match limit {
        Some(l) => " LIMIT "@ + crate::text::decimal(l as nat),
        None => seq![],
    }) + (match offset {
        Some(o) => " OFFSET "@ + crate::text::decimal(o as nat),
        None => seq![],
    })
}

/// Builds the query for a page of tracks.
pub fn tracks_query(by_album: bool, by_artist: bool, limit: Option<usize>, offset: Option<usize>) -> (r:
    String)
    ensures
        r@ == tracks_sql(by_album, by_artist, limit, offset),
{
    let mut s = String::new();
    push_str(
        &mut s,
        "SELECT id, path, title, sort_title, artist_id, album_id, track_number, disc_number, duration_ms, year, genre, sample_rate, bit_depth, channels, codec, bitrate, file_size, play_count, last_played, rating, file_mtime, created_at, updated_at FROM tracks",
    );
    push_str(&mut s, " WHERE 1=1");
    let ghost s1 = s@;
    if by_album {
        push_str(&mut s, " AND album_id = ?1");
    }
    let ghost s2 = s@;
    if by_artist {
        push_str(&mut s, " AND artist_id = ?");
        crate::text::push_decimal(
            &mut s,
            if by_album {
                2
            } else {
                1
            },
        );
    }
    let ghost s3 = s@;
    push_str(&mut s, " ORDER BY disc_number, track_number, title COLLATE NOCASE");
    let ghost s4 = s@;
    match limit {
        Some(l) => {
            push_str(&mut s, " LIMIT ");
            crate::text::push_decimal(&mut s, l as u64);
        },
        None => {},
    }
    let ghost s5 = s@;
    match offset {
        Some(o) => {
            push_str(&mut s, " OFFSET ");
            crate::text::push_decimal(&mut s, o as u64);
        },
        None => {},
    }
    assert(s@ =~= tracks_sql(by_album, by_artist, limit, offset));
    s
}

// Indexing

/// What a file's tags and properties say of a track.
#[derive(Clone, Debug)]
pub struct TrackMetadata {
    pub title: String,
    pub artist_name: Option<String>,
    pub album_artist_name: Option<String>,
    pub album_name: Option<String>,
    pub genre: Option<String>,
    pub year: Option<i32>,
    pub track_number: Option<i32>,
    pub disc_number: Option<i32>,
    pub duration_ms: i64,
    pub sample_rate: Option<i32>,
    pub bit_depth: Option<i32>,
    pub channels: Option<i32>,
    pub bitrate: Option<i32>,
    pub codec: Option<String>,
}

/// The title a track is indexed under: its tag's title, else the stem of
/// its file name, else `Unknown`.
pub open spec fn indexed_title(tag_title: Option<Seq<char>>, path: Seq<char>) -> Seq<char> {
    match tag_title {
        Some(t) => t,
        None => match file_stem_of(path) {
            Some(s) => s,
            None => "Unknown"@,
        },
    }
}

/// The codec recorded for a file: its extension in uppercase.
pub open spec fn indexed_codec(path: Seq<char>) -> Option<Seq<char>> {
    match extension_of(path) {
        Some(e) => Some(unicode_uppercase(e)),
        None => None,
    }
}

impl TrackMetadata {
    /// The title a track is indexed under.
    pub fn title_for(tag_title: Option<String>, path: &str) -> (r: String)
        ensures
            r@ == indexed_title(opt_chars(tag_title), path@),
    {
        match tag_title {
            Some(t) => t,
            None => match file_stem(path) {
                Some(s) => s,
                None => "Unknown".to_owned(),
            },
        }
    }

    /// The codec recorded for a file.
    pub fn codec_for(path: &str) -> (r: Option<String>)
        ensures
            opt_chars(r) == indexed_codec(path@),
            extension_of(path@) matches Some(e) ==> (all_ascii(e) ==> opt_chars(r) == Some(
                e.map_values(|c: char| ascii_upper(c)),
            )),
    {
        match path_extension(path) {
            Some(e) => Some(to_uppercase(e.as_str())),
            None => None,
        }
    }

    /// The artist a track is grouped under: the album artist, else the
    /// track artist.
    pub fn grouping_artist(&self) -> (r: Option<&String>)
        ensures
            r == match self.album_artist_name {
                Some(a) => Some(&a),
                None => match self.artist_name {
                    Some(a) => Some(&a),
                    None => None,
                },
            },
    {
        match &self.album_artist_name {
            Some(a) => Some(a),
            None => match &self.artist_name {
                Some(a) => Some(a),
                None => None,
            },
        }
    }

    /// The row inserted for a track with this metadata.
    pub fn to_row(
        &self,
        path: String,
        artist_id: Option<i64>,
        album_id: Option<i64>,
        file_mtime: i64,
        file_size: i64,
    ) -> (r: TrackRow)
        ensures
            r.id == 0,
            r.path == path,
            r.title@ == self.title@,
            r.sort_title is None,
            r.artist_id == artist_id,
            r.album_id == album_id,
            r.track_number == self.track_number,
            r.disc_number == self.disc_number,
            r.duration_ms == self.duration_ms,
            r.year == self.year,
            opt_chars(r.genre) == opt_chars(self.genre),
            r.sample_rate == self.sample_rate,
            r.bit_depth == self.bit_depth,
            r.channels == self.channels,
            opt_chars(r.codec) == opt_chars(self.codec),
            r.bitrate == self.bitrate,
            r.file_size == Some(file_size),
            r.play_count == 0,
            r.last_played is None,
            r.rating == 0,
            r.file_mtime == file_mtime,
    {
        let mut t = TrackRow::new(path, copy_string(&self.title), self.duration_ms, file_mtime);
        t.artist_id = artist_id;
        t.album_id = album_id;
        t.track_number = self.track_number;
        t.disc_number = self.disc_number;
        t.year = self.year;
        t.genre = copy_opt_string(&self.genre);
        t.sample_rate = self.sample_rate;
        t.bit_depth = self.bit_depth;
        t.channels = self.channels;
        t.codec = copy_opt_string(&self.codec);
        t.bitrate = self.bitrate;
        t.file_size = Some(file_size);
        t
    }
}

fn copy_string(s: &String) -> (r: String)
    ensures
        r@ == s@,
{
    let v = to_chars(s.as_str());
    crate::text::from_chars(&v)
}

fn copy_opt_string(s: &Option<String>) -> (r: Option<String>)
    ensures
        opt_chars(r) == opt_chars(*s),
{
    match s {
        Some(x) => Some(copy_string(x)),
        None => None,
    }
}

/// How indexing one file went.
#[derive(Clone, Copy, Debug, PartialEq, Eq, Structural)]
pub enum IndexOutcome {
    /// The file was indexed
    Added,
    /// The file was indexed before and has not changed since
    Unchanged,
    /// The file could not be indexed
    Failed,
}

/// Whether an indexed file is unchanged: its modification time is the one
/// recorded.
pub fn is_unchanged(recorded_mtime: Option<i64>, file_mtime: i64) -> (r: bool)
    ensures
        r == (recorded_mtime == Some(file_mtime)),
{
    match recorded_mtime {
        Some(m) => m == file_mtime,
        None => false,
    }
}

impl ScanProgress {
    /// Notes that a file is being indexed.
    pub fn start_file(&mut self, path: String)
        ensures
            *final(self) == (ScanProgress { current_file: Some(path), ..*old(self) }),
    {
        self.current_file = Some(path);
    }

    /// Counts the outcome of indexing a file: one more scanned, and one more
    /// added or failed as it went.
    pub fn record(&mut self, outcome: IndexOutcome)
        requires
            old(self).scanned_files < usize::MAX,
            old(self).added < usize::MAX,
            old(self).errors < usize::MAX,
        ensures
            final(self).scanned_files == old(self).scanned_files + 1,
            final(self).added == old(self).added + if outcome == IndexOutcome::Added {
                1int
            } else {
                0int
            },
            final(self).errors == old(self).errors + if outcome == IndexOutcome::Failed {
                1int
            } else {
                0int
            },
            final(self).updated == old(self).updated,
            final(self).total_files == old(self).total_files,
            final(self).current_file == old(self).current_file,
    {
        match outcome {
            IndexOutcome::Added => {
                self.added = self.added + 1;
            },
            IndexOutcome::Unchanged => {},
            IndexOutcome::Failed => {
                self.errors = self.errors + 1;
            },
        }
        self.scanned_files = self.scanned_files + 1;
    }

    /// Notes that indexing is over.
    pub fn finish(&mut self)
        ensures
            *final(self) == (ScanProgress { current_file: None, ..*old(self) }),
    {
        self.current_file = None;
    }
}

// Scanning

/// Whether an extension is one the scanner takes for audio, compared
/// without regard to ASCII case.
pub open spec fn is_audio_extension(e: Seq<char>) -> bool {
    ||| eq_ignore_ascii_case(e, "flac"@)
    ||| eq_ignore_ascii_case(e, "mp3"@)
    ||| eq_ignore_ascii_case(e, "m4a"@)
    ||| eq_ignore_ascii_case(e, "aac"@)
    ||| eq_ignore_ascii_case(e, "ogg"@)
    ||| eq_ignore_ascii_case(e, "oga"@)
    ||| eq_ignore_ascii_case(e, "opus"@)
    ||| eq_ignore_ascii_case(e, "wav"@)
    ||| eq_ignore_ascii_case(e, "wave"@)
    ||| eq_ignore_ascii_case(e, "aif"@)
    ||| eq_ignore_ascii_case(e, "aiff"@)
    ||| eq_ignore_ascii_case(e, "wv"@)
}

/// The scanner takes exactly the documented extensions for audio, in any
/// ASCII case: flac, mp3, m4a, aac, ogg, oga, opus, wav, wave, aif, aiff and
/// wv.
pub proof fn law_audio_extensions(e: Seq<char>)
    ensures
        eq_ignore_ascii_case(e, "flac"@) ==> is_audio_extension(e),
        eq_ignore_ascii_case(e, "mp3"@) ==> is_audio_extension(e),
        eq_ignore_ascii_case(e, "m4a"@) ==> is_audio_extension(e),
        eq_ignore_ascii_case(e, "aac"@) ==> is_audio_extension(e),
        eq_ignore_ascii_case(e, "ogg"@) ==> is_audio_extension(e),
        eq_ignore_ascii_case(e, "oga"@) ==> is_audio_extension(e),
        eq_ignore_ascii_case(e, "opus"@) ==> is_audio_extension(e),
        eq_ignore_ascii_case(e, "wav"@) ==> is_audio_extension(e),
        eq_ignore_ascii_case(e, "wave"@) ==> is_audio_extension(e),
        eq_ignore_ascii_case(e, "aif"@) ==> is_audio_extension(e),
        eq_ignore_ascii_case(e, "aiff"@) ==> is_audio_extension(e),
        eq_ignore_ascii_case(e, "wv"@) ==> is_audio_extension(e),
        is_audio_extension(e) ==> (eq_ignore_ascii_case(e, "flac"@) || eq_ignore_ascii_case(e, "mp3"@) || eq_ignore_ascii_case(e, "m4a"@) || eq_ignore_ascii_case(e, "aac"@) || eq_ignore_ascii_case(e, "ogg"@) || eq_ignore_ascii_case(e, "oga"@) || eq_ignore_ascii_case(e, "opus"@) || eq_ignore_ascii_case(e, "wav"@) || eq_ignore_ascii_case(e, "wave"@) || eq_ignore_ascii_case(e, "aif"@) || eq_ignore_ascii_case(e, "aiff"@) || eq_ignore_ascii_case(e, "wv"@)),
{
}

/// Finds audio files in directories. The flags are shared with the thread
/// that walks the directories.
pub struct Scanner {
    folders: Vec<String>,
    scanning: Arc<AtomicBool>,
    files_found: Arc<AtomicUsize>,
    cancelled: Arc<AtomicBool>,
}

impl Scanner {
    /// The folders to scan, by their characters.
    pub closed spec fn folder_paths(&self) -> Seq<Seq<char>> {
        self.folders@.map_values(|f: String| f@)
    }

    /// A scanner for the given folders, not scanning.
    pub fn new(folders: Vec<String>) -> (r: Self)
        ensures
            r.folder_paths() == folders@.map_values(|f: String| f@),
    {
        Scanner {
            folders,
            scanning: Arc::new(AtomicBool::new(false)),
            files_found: Arc::new(AtomicUsize::new(0)),
            cancelled: Arc::new(AtomicBool::new(false)),
        }
    }

    /// The folders to scan.
    pub fn folders(&self) -> (r: &Vec<String>)
        ensures
            r@.map_values(|f: String| f@) == self.folder_paths(),
    {
        &self.folders
    }

    /// Whether a scan is running; another thread may change it at any time.
    pub fn is_scanning(&self) -> bool {
        self.scanning.load(Ordering::Relaxed)
    }

    /// The number of files found so far; another thread may change it at
    /// any time.
    pub fn files_found(&self) -> usize {
        self.files_found.load(Ordering::Relaxed)
    }

    /// Asks a running scan to stop.
    pub fn cancel(&self) {
        self.cancelled.store(true, Ordering::Relaxed);
    }

    /// Marks the start of a scan: scanning, nothing found, not cancelled.
    pub fn start_scan(&self) {
        self.scanning.store(true, Ordering::Relaxed);
        self.files_found.store(0, Ordering::Relaxed);
        self.cancelled.store(false, Ordering::Relaxed);
    }

    /// Marks the end of a scan.
    pub fn finish_scan(&self) {
        self.scanning.store(false, Ordering::Relaxed);
    }

    /// Whether the scan has been asked to stop.
    pub fn is_cancelled(&self) -> bool {
        self.cancelled.load(Ordering::Relaxed)
    }

    /// Counts one more file found.
    pub fn note_file_found(&self) {
        self.files_found.fetch_add(1, Ordering::Relaxed);
    }

    /// Whether a path names a supported audio file, by its extension.
    pub fn is_audio_file(path: &str) -> (r: bool)
        ensures
            r == match extension_of(path@) {
                Some(e) => is_audio_extension(e),
                None => false,
            },
    {
        match path_extension(path) {
            Some(ext) => {
                let e = ext.as_str();
                str_eq_ignore_ascii_case(e, "flac") || str_eq_ignore_ascii_case(e, "mp3")
                    || str_eq_ignore_ascii_case(e, "m4a") || str_eq_ignore_ascii_case(e, "aac")
                    || str_eq_ignore_ascii_case(e, "ogg") || str_eq_ignore_ascii_case(e, "oga")
                    || str_eq_ignore_ascii_case(e, "opus") || str_eq_ignore_ascii_case(e, "wav")
                    || str_eq_ignore_ascii_case(e, "wave") || str_eq_ignore_ascii_case(e, "aif")
                    || str_eq_ignore_ascii_case(e, "aiff") || str_eq_ignore_ascii_case(e, "wv")
            },
            None => false,
        }
    }
}

impl Default for Scanner {
    fn default() -> (r: Self)
        ensures
            r.folder_paths() == Seq::<Seq<char>>::empty(),
    {
        let r = Scanner::new(Vec::new());
        assert(r.folder_paths() =~= Seq::<Seq<char>>::empty());
        r
    }
}

// Artwork

/// The cache key of a track's artwork, as hashing its directory (or nothing,
/// for a path without one) with `DefaultHasher` gives it.
pub uninterp spec fn directory_hash(dir: Option<Seq<char>>) -> u64;

/// Calls `Hash::hash` for `Path` on the directory, when there is one, with a
/// fresh `DefaultHasher`, and `Hasher::finish`. The result is named.
#[verifier::external_body]
fn hash_directory(dir: Option<&str>) -> (r: u64)
    ensures
        r == directory_hash(match dir {
            Some(d) => Some(d@),
            None => None,
        }),
{
    let mut hasher = std::collections::hash_map::DefaultHasher::new();
    if let Some(d) = dir {
        std::hash::Hash::hash(std::path::Path::new(d), &mut hasher);
    }
    std::hash::Hasher::finish(&hasher)
}

/// `image::DynamicImage`, a decoded picture, carried through.
#[verifier::external_type_specification]
#[verifier::external_body]
pub struct ExDynamicImage(image::DynamicImage);

/// What `image::load_from_memory` gives for these bytes: the picture they
/// decode to, in a format it recognizes from the bytes, or none.
pub uninterp spec fn decoded_picture(bytes: Seq<u8>) -> Option<image::DynamicImage>;

/// Whether these bytes decode into a picture.
pub open spec fn picture_decodes(bytes: Seq<u8>) -> bool {
    decoded_picture(bytes) is Some
}

/// Calls `image::load_from_memory`, whose result depends on the bytes
/// alone; the contract names it.
#[verifier::external_body]
pub fn decode_picture(bytes: &[u8]) -> (r: Option<image::DynamicImage>)
    ensures
        r == decoded_picture(bytes@),
{
    image::load_from_memory(bytes).ok()
}

/// The first of the pictures (as a file's tags hold them, in order) that
/// decodes, with its index; `None` when none does.
pub fn first_decodable_picture(pictures: &Vec<Vec<u8>>) -> (r: Option<(usize, image::DynamicImage)>)
    ensures
        match r {
            Some((i, image)) => i < pictures.len() && decoded_picture(pictures[i as int]@) == Some(
                image,
            ) && forall|j: int| 0 <= j < i ==> !picture_decodes(#[trigger] pictures[j]@),
            None => forall|j: int|
                0 <= j < pictures.len() ==> !picture_decodes(#[trigger] pictures[j]@),
        },
{
    let mut i: usize = 0;
    while i < pictures.len()
        invariant
            i <= pictures.len(),
            forall|j: int| 0 <= j < i ==> !picture_decodes(#[trigger] pictures[j]@),
        decreases pictures.len() - i,
    {
        match decode_picture(pictures[i].as_slice()) {
            Some(image) => {
                return Some((i, image));
            },
            None => {},
        }
        i = i + 1;
    }
    None
}

/// What `DynamicImage::resize` with the Lanczos filter gives for a picture
/// and a square side: the picture scaled to fit within `side` by `side`
/// pixels, keeping its proportions.
pub uninterp spec fn resized_picture(image: image::DynamicImage, side: u32) -> image::DynamicImage;

/// Calls `DynamicImage::resize` with the Lanczos filter, whose result
/// depends on the picture and the side alone; the contract names it.
#[verifier::external_body]
fn resize_image(image: &image::DynamicImage, side: u32) -> (r: image::DynamicImage)
    ensures
        r == resized_picture(*image, side),
{
    image.resize(side, side, image::imageops::FilterType::Lanczos3)
}

/// Artwork file names looked for first, in order, ignoring ASCII case.
pub open spec fn preferred_artwork_names() -> Seq<Seq<char>> {
    seq![
        "cover.jpg"@,
        "cover.jpeg"@,
        "cover.png"@,
        "folder.jpg"@,
        "folder.jpeg"@,
        "folder.png"@,
        "front.jpg"@,
        "front.jpeg"@,
        "front.png"@,
        "album.jpg"@,
        "album.jpeg"@,
        "album.png"@,
    ]
}

/// Whether a file name, lowercased, is that of an image other than a
/// miniature or a back cover.
pub open spec fn is_plain_image_name(lower: Seq<char>) -> bool {
    &&& (ends_with(lower, ".jpg"@) || ends_with(lower, ".jpeg"@) || ends_with(lower, ".png"@))
    &&& find(lower, "mini"@) is None
    &&& find(lower, "back"@) is None
}

/// Manages album artwork and its cache of thumbnails.
#[derive(Clone, Debug)]
pub struct ArtworkManager {
    cache_dir: String,
    thumbnail_size: u32,
}

impl ArtworkManager {
    /// The cache directory, by its characters.
    pub closed spec fn cache_dir_path(&self) -> Seq<char> {
        self.cache_dir@
    }

    /// The side of a thumbnail, in pixels.
    pub closed spec fn thumbnail_side(&self) -> u32 {
        self.thumbnail_size
    }

    /// A manager with the given cache directory and thumbnail size.
    pub fn new(cache_dir: String, thumbnail_size: u32) -> (r: Self)
        ensures
            r.cache_dir_path() == cache_dir@,
            r.thumbnail_side() == thumbnail_size,
    {
        ArtworkManager { cache_dir, thumbnail_size }
    }

    /// The side of a thumbnail, in pixels.
    pub fn thumbnail_size(&self) -> (r: u32)
        ensures
            r == self.thumbnail_side(),
    {
        self.thumbnail_size
    }

    /// The cache directory.
    pub fn cache_dir(&self) -> (r: &String)
        ensures
            r@ == self.cache_dir_path(),
    {
        &self.cache_dir
    }

    /// The cache key of a track's artwork: the hash of its directory, as
    /// artwork usually belongs to an album.
    pub fn compute_cache_key(&self, track_path: &str) -> (r: u64)
        ensures
            r == directory_hash(parent_of(track_path@)),
    {
        match parent(track_path) {
            Some(d) => hash_directory(Some(d.as_str())),
            None => hash_directory(None),
        }
    }

    /// The thumbnail of a picture: scaled to fit the manager's square side
    /// (see `resized_picture`).
    pub fn create_thumbnail(&self, image: &image::DynamicImage) -> (r: image::DynamicImage)
        ensures
            r == resized_picture(*image, self.thumbnail_side()),
    {
        resize_image(image, self.thumbnail_size)
    }

    /// Where the thumbnail for a track is cached: the key in sixteen
    /// lowercase hexadecimal digits and `.png`, in the cache directory.
    pub fn cache_path(&self, track_path: &str) -> (r: String)
        ensures
            r@ == join(
                self.cache_dir_path(),
                zero_pad(hex(directory_hash(parent_of(track_path@)) as nat), 16) + ".png"@,
            ),
    {
        let key = self.compute_cache_key(track_path);
        let mut f = String::new();
        push_hex_016(&mut f, key);
        push_str(&mut f, ".png");
        join_path(self.cache_dir.as_str(), f.as_str())
    }
}

/// The order in which the files of a track's directory are tried as its
/// artwork: for each preferred name in turn, the files with that name;
/// then, of the plain images, the first of the largest.
pub open spec fn artwork_order(names: Seq<Seq<char>>, sizes: Seq<u64>) -> Seq<int> {
    preferred_matches(names, 0) + match largest_plain_image(names, sizes, names.len() as int) {
        Some(i) => seq![i],
        None => seq![],
    }
}

/// The files whose names match the preferred names from the `k`-th on, in
/// the order tried.
pub open spec fn preferred_matches(names: Seq<Seq<char>>, k: int) -> Seq<int>
    decreases 12 - k,
{
    if k < 0 || k >= 12 {
        seq![]
    } else {
        matching_names(names, preferred_artwork_names()[k], names.len() as int) + preferred_matches(
            names,
            k + 1,
        )
    }
}

/// The indices below `n` of the names equal to `want`, ignoring ASCII case.
pub open spec fn matching_names(names: Seq<Seq<char>>, want: Seq<char>, n: int) -> Seq<int>
    decreases n,
{
    if n <= 0 {
        seq![]
    } else {
        let before = matching_names(names, want, n - 1);
        if eq_ignore_ascii_case(names[n - 1], want) {
            before.push(n - 1)
        } else {
            before
        }
    }
}

/// Among the first `n` names, the first plain image of the largest size.
pub open spec fn largest_plain_image(names: Seq<Seq<char>>, sizes: Seq<u64>, n: int) -> Option<
    int,
>
    decreases n,
{
    if n <= 0 {
        None
    } else {
        let before = largest_plain_image(names, sizes, n - 1);
        if is_plain_image_name(unicode_lowercase(names[n - 1])) {
            match before {
                Some(b) => if sizes[n - 1] > sizes[b] {
                    Some(n - 1)
                } else {
                    Some(b)
                },
                None => Some(n - 1),
            }
        } else {
            before
        }
    }
}

/// The indices of the files of a track's directory in the order they are
/// tried as its artwork; `sizes` gives each file's size (zero when it is
/// unknown).
pub fn folder_artwork_order(names: &Vec<String>, sizes: &Vec<u64>) -> (r: Vec<usize>)
    requires
        names@.len() == sizes@.len(),
    ensures
        r@.map_values(|i: usize| i as int) == artwork_order(
            names@.map_values(|s: String| s@),
            sizes@,
        ),
{
    let ghost ns = names@.map_values(|s: String| s@);
    let mut out: Vec<usize> = Vec::new();
    let wanted = preferred_names_exec();
    let mut k: usize = 0;
    assert(out@.map_values(|i: usize| i as int) =~= Seq::<int>::empty());
    while k < 12
        invariant
            k <= 12,
            ns == names@.map_values(|s: String| s@),
            wanted@.len() == 12,
            forall|j: int| 0 <= j < 12 ==> wanted@[j]@ == preferred_artwork_names()[j],
            out@.map_values(|i: usize| i as int) + preferred_matches(ns, k as int)
                == preferred_matches(ns, 0),
        decreases 12 - k,
    {
        let ghost before = out@.map_values(|i: usize| i as int);
        let mut j: usize = 0;
        let w = wanted[k];
        assert(before =~= before + matching_names(ns, w@, 0));
        while j < names.len()
            invariant
                k < 12,
                j <= names@.len(),
                ns == names@.map_values(|s: String| s@),
                out@.map_values(|i: usize| i as int) == before + matching_names(ns, w@, j as int),
            decreases names.len() - j,
        {
            assert(ns[j as int] == names@[j as int]@);
            let ghost old_map = out@.map_values(|i: usize| i as int);
            if str_eq_ignore_ascii_case(names[j].as_str(), w) {
                out.push(j);
                assert(out@.map_values(|i: usize| i as int) =~= old_map.push(j as int));
            }
            assert(before + matching_names(ns, w@, j + 1) =~= if eq_ignore_ascii_case(
                ns[j as int],
                w@,
            ) {
                (before + matching_names(ns, w@, j as int)).push(j as int)
            } else {
                before + matching_names(ns, w@, j as int)
            });
            j = j + 1;
        }
        assert(w@ == preferred_artwork_names()[k as int]);
        assert(preferred_matches(ns, k as int) == matching_names(ns, w@, ns.len() as int)
            + preferred_matches(ns, k + 1));
        k = k + 1;
    }
    assert(preferred_matches(ns, 12) =~= Seq::<int>::empty());
    let mut best: Option<usize> = None;
    let mut j: usize = 0;
    while j < names.len()
        invariant
            j <= names@.len(),
            names@.len() == sizes@.len(),
            ns == names@.map_values(|s: String| s@),
            match best {
                Some(b) => largest_plain_image(ns, sizes@, j as int) == Some(b as int) && b < j,
                None => largest_plain_image(ns, sizes@, j as int) is None,
            },
        decreases names.len() - j,
    {
        let lower = to_lowercase(names[j].as_str());
        if plain_image_name(lower.as_str()) {
            best = match best {
                Some(b) => if sizes[j] > sizes[b] {
                    Some(j)
                } else {
                    Some(b)
                },
                None => Some(j),
            };
        }
        j = j + 1;
    }
    let ghost pre = out@.map_values(|i: usize| i as int);
    match best {
        Some(b) => {
            out.push(b);
            assert(out@.map_values(|i: usize| i as int) =~= pre.push(b as int));
        },
        None => {},
    }
    assert(pre + Seq::<int>::empty() =~= pre);
    out
}

fn preferred_names_exec() -> (r: Vec<&'static str>)
    ensures
        r@.len() == 12,
        forall|j: int| 0 <= j < 12 ==> r@[j]@ == preferred_artwork_names()[j],
{
    vec![
        "cover.jpg",
        "cover.jpeg",
        "cover.png",
        "folder.jpg",
        "folder.jpeg",
        "folder.png",
        "front.jpg",
        "front.jpeg",
        "front.png",
        "album.jpg",
        "album.jpeg",
        "album.png",
    ]
}

/// Whether a lowercase file name is that of an image other than a miniature
/// or a back cover.
fn plain_image_name(lower: &str) -> (r: bool)
    ensures
        r == is_plain_image_name(lower@),
{
    let v = to_chars(lower);
    let jpg = to_chars(".jpg");
    let jpeg = to_chars(".jpeg");
    let png = to_chars(".png");
    let mini = to_chars("mini");
    let back = to_chars("back");
    (chars_ends_with(&v, &jpg) || chars_ends_with(&v, &jpeg) || chars_ends_with(&v, &png))
        && crate::text::find_chars(&v, &mini, 0).is_none() && crate::text::find_chars(
        &v,
        &back,
        0,
    ).is_none()
}

/// Whether `s` ends with `p`.
fn chars_ends_with(s: &Vec<char>, p: &Vec<char>) -> (r: bool)
    ensures
        r == ends_with(s@, p@),
{
    if p.len() > s.len() {
        return false;
    }
    let off = s.len() - p.len();
    let mut i: usize = 0;
    while i < p.len()
        invariant
            off + p@.len() == s@.len(),
            s@.len() <= usize::MAX,
            i <= p@.len(),
            forall|k: int| 0 <= k < i ==> s@[off + k] == p@[k],
        decreases p.len() - i,
    {
        if s[off + i] != p[i] {
            assert(s@.subrange(off as int, s@.len() as int)[i as int] != p@[i as int]);
            return false;
        }
        i = i + 1;
    }
    assert(s@.subrange(off as int, s@.len() as int) =~= p@);
    true
}

/// Whether the `i`-th name of a folder is a plain image, one that the
/// fallback pass considers.
pub open spec fn plain_image_at(names: Seq<Seq<char>>, i: int) -> bool {
    is_plain_image_name(unicode_lowercase(names[i]))
}

/// Among the first `n` names, the largest plain image found is a plain
/// image, at least as large as each plain image there and larger than
/// each one before it; there is one exactly when some plain image is there.
proof fn lemma_largest_plain_image(names: Seq<Seq<char>>, sizes: Seq<u64>, n: int)
    requires
        0 <= n <= names.len(),
        names.len() == sizes.len(),
    ensures
        largest_plain_image(names, sizes, n) is Some <==> exists|i: int|
            0 <= i < n && #[trigger] plain_image_at(names, i),
        largest_plain_image(names, sizes, n) matches Some(f) ==> {
            &&& 0 <= f < n
            &&& plain_image_at(names, f)
            &&& forall|j: int| 0 <= j < n && #[trigger] plain_image_at(names, j) ==> sizes[j] <= sizes[f]
            &&& forall|j: int| 0 <= j < f && #[trigger] plain_image_at(names, j) ==> sizes[j] < sizes[f]
        },
    decreases n,
{
    if n > 0 {
        lemma_largest_plain_image(names, sizes, n - 1);
        if plain_image_at(names, n - 1) {
            assert(exists|i: int| 0 <= i < n && #[trigger] plain_image_at(names, i));
        } else {
            if exists|i: int| 0 <= i < n && #[trigger] plain_image_at(names, i) {
                let i = choose|i: int| 0 <= i < n && #[trigger] plain_image_at(names, i);
                assert(i < n - 1);
            }
        }
    }
}

/// The artwork order tries the files with preferred names first; then, when
/// the folder has any plain image, exactly one more: the first of the
/// largest plain images. Without a plain image it tries nothing more.
pub proof fn law_artwork_fallback_is_largest(names: Seq<Seq<char>>, sizes: Seq<u64>)
    requires
        names.len() == sizes.len(),
    ensures
        (exists|i: int| 0 <= i < names.len() && #[trigger] plain_image_at(names, i)) ==> {
            let order = artwork_order(names, sizes);
            let f = order.last();
            &&& order == preferred_matches(names, 0).push(f)
            &&& 0 <= f < names.len()
            &&& plain_image_at(names, f)
            &&& forall|j: int|
                0 <= j < names.len() && #[trigger] plain_image_at(names, j) ==> sizes[j] <= sizes[f]
            &&& forall|j: int| 0 <= j < f && #[trigger] plain_image_at(names, j) ==> sizes[j] < sizes[f]
        },
        !(exists|i: int| 0 <= i < names.len() && #[trigger] plain_image_at(names, i)) ==> artwork_order(
            names,
            sizes,
        ) == preferred_matches(names, 0),
{
    lemma_largest_plain_image(names, sizes, names.len() as int);
    match largest_plain_image(names, sizes, names.len() as int) {
        Some(f) => {
            assert(artwork_order(names, sizes) =~= preferred_matches(names, 0).push(f));
        },
        None => {
            assert(artwork_order(names, sizes) =~= preferred_matches(names, 0));
        },
    }
}

/// Statistics of the artwork cache.
#[derive(Clone, Copy, Debug, Default)]
pub struct CacheStats {
    pub file_count: usize,
    pub total_bytes: u64,
}

impl CacheStats {
    /// Counts one more cached file of `bytes` bytes.
    pub fn add_file(&mut self, bytes: u64)
        requires
            old(self).file_count < usize::MAX,
            old(self).total_bytes + bytes <= u64::MAX,
        ensures
            final(self).file_count == old(self).file_count + 1,
            final(self).total_bytes == old(self).total_bytes + bytes,
    {
        self.file_count = self.file_count + 1;
        self.total_bytes = self.total_bytes + bytes;
    }
}

/// Whether a cached file is one of the thumbnails: its extension is `png`.
pub fn is_cached_thumbnail(path: &str) -> (r: bool)
    ensures
        r == (extension_of(path@) == Some("png"@)),
{
    match path_extension(path) {
        Some(e) => crate::text::str_eq(e.as_str(), "png"),
        None => false,
    }
}

} // verus!
