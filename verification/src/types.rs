//! Core data types of the music library and of playback.
use vstd::prelude::*;

use crate::duration::Duration;
use crate::path::{extension_of, path_extension};
use crate::text::{
    decimal, opt_chars, push_decimal, push_signed_decimal_02, push_str, str_eq, to_lowercase,
    unicode_lowercase, zero_pad,
};

verus! {

// Audio format types

/// Supported audio codecs.
#[derive(Clone, Copy, Debug, PartialEq, Eq, Hash, Structural)]
pub enum Codec {
    Flac,
    Mp3,
    Aac,
    Vorbis,
    Opus,
    Wav,
    Aiff,
    Alac,
    WavPack,
    Unknown,
}

/// The codec named by an already lowercased file extension.
pub open spec fn codec_of_lower_extension(e: Seq<char>) -> Codec {
    if e == "flac"@ {
        Codec::Flac
    } else if e == "mp3"@ {
        Codec::Mp3
    } else if e == "m4a"@ || e == "aac"@ {
        Codec::Aac
    } else if e == "ogg"@ || e == "oga"@ {
        Codec::Vorbis
    } else if e == "opus"@ {
        Codec::Opus
    } else if e == "wav"@ {
        Codec::Wav
    } else if e == "aif"@ || e == "aiff"@ {
        Codec::Aiff
    } else if e == "wv"@ {
        Codec::WavPack
    } else {
        Codec::Unknown
    }
}

/// Whether a codec is lossless.
pub open spec fn codec_is_lossless(c: Codec) -> bool {
    c == Codec::Flac || c == Codec::Wav || c == Codec::Aiff || c == Codec::Alac || c
        == Codec::WavPack
}

/// The display name of a codec.
pub open spec fn codec_display_name(c: Codec) -> Seq<char> {
    match c {
        Codec::Flac => "FLAC"@,
        Codec::Mp3 => "MP3"@,
        Codec::Aac => "AAC"@,
        Codec::Vorbis => "Vorbis"@,
        Codec::Opus => "Opus"@,
        Codec::Wav => "WAV"@,
        Codec::Aiff => "AIFF"@,
        Codec::Alac => "ALAC"@,
        Codec::WavPack => "WavPack"@,
        Codec::Unknown => "Unknown"@,
    }
}

impl Codec {
    /// The codec for a file extension, compared without regard to case.
    pub fn from_extension(ext: &str) -> (r: Codec)
        ensures
            r == codec_of_lower_extension(unicode_lowercase(ext@)),
    {
        let lower = to_lowercase(ext);
        let e = lower.as_str();
        if str_eq(e, "flac") {
            Codec::Flac
        } else if str_eq(e, "mp3") {
            Codec::Mp3
        } else if str_eq(e, "m4a") || str_eq(e, "aac") {
            Codec::Aac
        } else if str_eq(e, "ogg") || str_eq(e, "oga") {
            Codec::Vorbis
        } else if str_eq(e, "opus") {
            Codec::Opus
        } else if str_eq(e, "wav") {
            Codec::Wav
        } else if str_eq(e, "aif") || str_eq(e, "aiff") {
            Codec::Aiff
        } else if str_eq(e, "wv") {
            Codec::WavPack
        } else {
            Codec::Unknown
        }
    }

    /// Whether this is a lossless codec.
    pub fn is_lossless(&self) -> (r: bool)
        ensures
            r == codec_is_lossless(*self),
    {
        match self {
            Codec::Flac | Codec::Wav | Codec::Aiff | Codec::Alac | Codec::WavPack => true,
            _ => false,
        }
    }

    /// The display name of this codec.
    pub fn display_name(&self) -> (r: &'static str)
        ensures
            r@ == codec_display_name(*self),
    {
        match self {
            Codec::Flac => "FLAC",
            Codec::Mp3 => "MP3",
            Codec::Aac => "AAC",
            Codec::Vorbis => "Vorbis",
            Codec::Opus => "Opus",
            Codec::Wav => "WAV",
            Codec::Aiff => "AIFF",
            Codec::Alac => "ALAC",
            Codec::WavPack => "WavPack",
            Codec::Unknown => "Unknown",
        }
    }
}

/// Bit depth of audio samples.
#[derive(Clone, Copy, Debug, PartialEq, Eq, Hash, Structural)]
pub enum BitDepth {
    /// 8-bit unsigned
    U8,
    /// 16-bit signed
    S16,
    /// 24-bit signed (packed or padded to 32-bit)
    S24,
    /// 32-bit signed
    S32,
    /// 32-bit float
    F32,
    /// 64-bit float
    F64,
}

/// Bits per sample of a bit depth.
pub open spec fn bit_depth_bits(b: BitDepth) -> u8 {
    match b {
        BitDepth::U8 => 8,
        BitDepth::S16 => 16,
        BitDepth::S24 => 24,
        BitDepth::S32 => 32,
        BitDepth::F32 => 32,
        BitDepth::F64 => 64,
    }
}

impl BitDepth {
    /// The number of bits per sample.
    pub fn bits(&self) -> (r: u8)
        ensures
            r == bit_depth_bits(*self),
    {
        match self {
            BitDepth::U8 => 8,
            BitDepth::S16 => 16,
            BitDepth::S24 => 24,
            BitDepth::S32 => 32,
            BitDepth::F32 => 32,
            BitDepth::F64 => 64,
        }
    }

    /// The number of bytes per sample: the bits divided by eight, rounded up.
    pub fn bytes(&self) -> (r: u8)
        ensures
            r as int == (bit_depth_bits(*self) as int + 7) / 8,
    {
        let b = self.bits();
        (b + 7) / 8
    }
}

/// Complete audio format specification.
#[derive(Clone, Copy, Debug, PartialEq, Eq, Hash, Structural)]
pub struct AudioFormat {
    /// Sample rate in Hz
    pub sample_rate: u32,
    /// Number of channels
    pub channels: u8,
    /// Bit depth of samples
    pub bit_depth: BitDepth,
    /// Audio codec
    pub codec: Codec,
    /// Bitrate in kbps (for lossy formats)
    pub bitrate: Option<u32>,
}

/// The sample rate as the format string shows it: whole kilohertz from
/// 1000 Hz up, hertz below.
pub open spec fn rate_text(sample_rate: u32) -> Seq<char> {
    if sample_rate >= 1000 {
        decimal((sample_rate / 1000) as nat) + "kHz"@
    } else {
        decimal(sample_rate as nat) + "Hz"@
    }
}

/// The human-readable format string, such as `FLAC 96kHz/24bit`.
pub open spec fn format_text(f: AudioFormat) -> Seq<char> {
    codec_display_name(f.codec) + seq![' '] + rate_text(f.sample_rate) + seq!['/'] + decimal(
        bit_depth_bits(f.bit_depth) as nat,
    ) + "bit"@
}

impl AudioFormat {
    /// A format with the given properties and no bitrate.
    pub fn new(sample_rate: u32, channels: u8, bit_depth: BitDepth, codec: Codec) -> (r: Self)
        ensures
            r == (AudioFormat { sample_rate, channels, bit_depth, codec, bitrate: None }),
    {
        AudioFormat { sample_rate, channels, bit_depth, codec, bitrate: None }
    }

    /// The same format with a bitrate.
    pub fn with_bitrate(self, bitrate: u32) -> (r: Self)
        ensures
            r == (AudioFormat { bitrate: Some(bitrate), ..self }),
    {
        let mut f = self;
        f.bitrate = Some(bitrate);
        f
    }

    /// A human-readable format string, such as `FLAC 96kHz/24bit`.
    pub fn display_string(&self) -> (r: String)
        ensures
            r@ == format_text(*self),
    {
        let mut s = String::new();
        push_str(&mut s, self.codec.display_name());
        s.push(' ');
        if self.sample_rate >= 1000 {
            push_decimal(&mut s, (self.sample_rate / 1000) as u64);
            push_str(&mut s, "kHz");
        } else {
            push_decimal(&mut s, self.sample_rate as u64);
            push_str(&mut s, "Hz");
        }
        s.push('/');
        push_decimal(&mut s, self.bit_depth.bits() as u64);
        push_str(&mut s, "bit");
        assert(s@ =~= format_text(*self));
        s
    }

    /// Whether this is a high-resolution format (above 44.1 kHz or above 16 bits).
    pub fn is_high_res(&self) -> (r: bool)
        ensures
            r == (self.sample_rate > 44100 || bit_depth_bits(self.bit_depth) > 16),
    {
        self.sample_rate > 44100 || self.bit_depth.bits() > 16
    }
}

// Library types

/// Unique identifier for database entities.
pub type EntityId = i64;

/// The name a record sorts by: its sort name when it has one.
pub open spec fn sort_key_of(sort_name: Option<String>, name: String) -> Seq<char> {
    match sort_name {
        Some(s) => s@,
        None => name@,
    }
}

/// An artist in the music library.
#[derive(Clone, Debug)]
pub struct Artist {
    pub id: EntityId,
    pub name: String,
    /// Name used for sorting (e.g., "Beatles, The")
    pub sort_name: Option<String>,
    pub album_count: u32,
    pub track_count: u32,
}

impl Artist {
    /// The name to use for sorting.
    pub fn sort_key(&self) -> (r: &str)
        ensures
            r@ == sort_key_of(self.sort_name, self.name),
    {
        match &self.sort_name {
            Some(s) => s.as_str(),
            None => self.name.as_str(),
        }
    }
}

/// An album in the music library.
#[derive(Clone, Debug)]
pub struct Album {
    pub id: EntityId,
    pub title: String,
    pub sort_title: Option<String>,
    pub artist_id: Option<EntityId>,
    pub album_artist: Option<String>,
    pub year: Option<u16>,
    pub genre: Option<String>,
    pub disc_total: u8,
    pub track_total: u16,
    pub total_duration: Duration,
    /// Path to cached artwork (if any)
    pub artwork_path: Option<String>,
}

impl Album {
    /// The title to use for sorting.
    pub fn sort_key(&self) -> (r: &str)
        ensures
            r@ == sort_key_of(self.sort_title, self.title),
    {
        match &self.sort_title {
            Some(s) => s.as_str(),
            None => self.title.as_str(),
        }
    }
}

/// A track in the music library.
#[derive(Clone, Debug)]
pub struct Track {
    pub id: EntityId,
    pub path: String,
    pub title: String,
    pub sort_title: Option<String>,
    pub artist_id: Option<EntityId>,
    pub artist_name: Option<String>,
    pub album_id: Option<EntityId>,
    pub album_title: Option<String>,
    pub track_number: Option<u16>,
    pub disc_number: u8,
    pub duration: Duration,
    pub year: Option<u16>,
    pub genre: Option<String>,
    pub format: AudioFormat,
    pub file_size: u64,
    pub play_count: u32,
    pub last_played: Option<i64>,
    /// User rating (0-5, 0 = unrated)
    pub rating: u8,
}

impl Track {
    /// The title to use for sorting.
    pub fn sort_key(&self) -> (r: &str)
        ensures
            r@ == sort_key_of(self.sort_title, self.title),
    {
        match &self.sort_title {
            Some(s) => s.as_str(),
            None => self.title.as_str(),
        }
    }

    /// The duration as `m:ss` (e.g. "3:45").
    pub fn duration_string(&self) -> (r: String)
        ensures
            r@ == decimal(self.duration@.0 as nat / 60) + seq![':'] + zero_pad(
                decimal(self.duration@.0 as nat % 60),
                2,
            ),
    {
        let total_secs = self.duration.as_secs();
        let mins = total_secs / 60;
        let secs = total_secs % 60;
        let mut s = String::new();
        push_decimal(&mut s, mins);
        s.push(':');
        push_signed_decimal_02(&mut s, secs as i64);
        assert(s@ =~= decimal(self.duration@.0 as nat / 60) + seq![':'] + zero_pad(
            decimal(self.duration@.0 as nat % 60),
            2,
        ));
        s
    }

    /// The file extension of the track's path.
    pub fn extension(&self) -> (r: Option<String>)
        ensures
            opt_chars(r) == extension_of(self.path@),
    {
        path_extension(self.path.as_str())
    }
}

/// A genre in the music library.
#[derive(Clone, Debug)]
pub struct Genre {
    pub id: EntityId,
    pub name: String,
    pub track_count: u32,
}

// Playback types

/// Current playback status.
#[derive(Clone, Copy, Debug, PartialEq, Eq, Default, Structural)]
pub enum PlayStatus {
    /// No track loaded
    #[default]
    Stopped,
    /// Playing audio
    Playing,
    /// Playback paused
    Paused,
    /// Buffering audio data
    Buffering,
}

/// Repeat mode for playback.
#[derive(Clone, Copy, Debug, PartialEq, Eq, Default, Structural)]
pub enum RepeatMode {
    /// No repeat
    #[default]
    Off,
    /// Repeat entire queue
    All,
    /// Repeat current track
    One,
}

/// The repeat mode that follows `m`: off, all, one, and round again.
pub open spec fn repeat_cycle(m: RepeatMode) -> RepeatMode {
    match m {
        RepeatMode::Off => RepeatMode::All,
        RepeatMode::All => RepeatMode::One,
        RepeatMode::One => RepeatMode::Off,
    }
}

impl RepeatMode {
    /// Cycle to the next repeat mode.
    pub fn cycle(&self) -> (r: Self)
        ensures
            r == repeat_cycle(*self),
    {
        match self {
            RepeatMode::Off => RepeatMode::All,
            RepeatMode::All => RepeatMode::One,
            RepeatMode::One => RepeatMode::Off,
        }
    }
}

// Sorting types

/// Fields available for sorting library items.
#[derive(Clone, Copy, Debug, PartialEq, Eq, Hash, Default, Structural)]
pub enum SortField {
    #[default]
    Artist,
    Album,
    Title,
    Year,
    Genre,
    DateAdded,
    Duration,
    PlayCount,
    Rating,
    TrackNumber,
    Path,
}

/// The display name of a sort field.
pub open spec fn sort_field_name(f: SortField) -> Seq<char> {
    match f {
        SortField::Artist => "Artist"@,
        SortField::Album => "Album"@,
        SortField::Title => "Title"@,
        SortField::Year => "Year"@,
        SortField::Genre => "Genre"@,
        SortField::DateAdded => "Date Added"@,
        SortField::Duration => "Duration"@,
        SortField::PlayCount => "Play Count"@,
        SortField::Rating => "Rating"@,
        SortField::TrackNumber => "Track #"@,
        SortField::Path => "Path"@,
    }
}

impl SortField {
    /// The display name for this sort field.
    pub fn display_name(&self) -> (r: &'static str)
        ensures
            r@ == sort_field_name(*self),
    {
        match self {
            SortField::Artist => "Artist",
            SortField::Album => "Album",
            SortField::Title => "Title",
            SortField::Year => "Year",
            SortField::Genre => "Genre",
            SortField::DateAdded => "Date Added",
            SortField::Duration => "Duration",
            SortField::PlayCount => "Play Count",
            SortField::Rating => "Rating",
            SortField::TrackNumber => "Track #",
            SortField::Path => "Path",
        }
    }
}

/// Sort order direction.
#[derive(Clone, Copy, Debug, PartialEq, Eq, Hash, Default, Structural)]
pub enum SortOrder {
    #[default]
    Ascending,
    Descending,
}

/// The opposite sort order.
pub open spec fn sort_order_toggle(o: SortOrder) -> SortOrder {
    match o {
        SortOrder::Ascending => SortOrder::Descending,
        SortOrder::Descending => SortOrder::Ascending,
    }
}

impl SortOrder {
    /// Toggle the sort order.
    pub fn toggle(&self) -> (r: Self)
        ensures
            r == sort_order_toggle(*self),
    {
        match self {
            SortOrder::Ascending => SortOrder::Descending,
            SortOrder::Descending => SortOrder::Ascending,
        }
    }
}

/// Complete sort configuration.
#[derive(Clone, Copy, Debug, PartialEq, Eq, Default, Structural)]
pub struct SortConfig {
    /// Primary sort field
    pub primary: SortField,
    /// Primary sort order
    pub primary_order: SortOrder,
    /// Optional secondary sort field
    pub secondary: Option<SortField>,
    /// Secondary sort order
    pub secondary_order: SortOrder,
}

impl SortConfig {
    /// A sort configuration with a single field.
    pub fn new(field: SortField, order: SortOrder) -> (r: Self)
        ensures
            r == (SortConfig {
                primary: field,
                primary_order: order,
                secondary: None,
                secondary_order: SortOrder::Ascending,
            }),
    {
        SortConfig {
            primary: field,
            primary_order: order,
            secondary: None,
            secondary_order: SortOrder::Ascending,
        }
    }

    /// The same configuration with a secondary sort field.
    pub fn with_secondary(self, field: SortField, order: SortOrder) -> (r: Self)
        ensures
            r == (SortConfig { secondary: Some(field), secondary_order: order, ..self }),
    {
        let mut c = self;
        c.secondary = Some(field);
        c.secondary_order = order;
        c
    }
}

// View types

/// Display mode for library views.
#[derive(Clone, Copy, Debug, PartialEq, Eq, Default, Structural)]
pub enum ViewMode {
    /// Detailed list with metadata columns
    #[default]
    List,
    /// Grid of album artwork
    Grid,
    /// Compact list with minimal info
    Compact,
}

/// Which library view is currently active.
#[derive(Clone, Copy, Debug, PartialEq, Eq, Default, Structural)]
pub enum LibraryTab {
    #[default]
    Artists,
    Albums,
    Tracks,
    Genres,
    Playlists,
}

/// The tabs in their order.
pub open spec fn library_tabs() -> Seq<LibraryTab> {
    seq![
        LibraryTab::Artists,
        LibraryTab::Albums,
        LibraryTab::Tracks,
        LibraryTab::Genres,
        LibraryTab::Playlists,
    ]
}

/// The display name of a tab.
pub open spec fn library_tab_name(t: LibraryTab) -> Seq<char> {
    match t {
        LibraryTab::Artists => "Artists"@,
        LibraryTab::Albums => "Albums"@,
        LibraryTab::Tracks => "Tracks"@,
        LibraryTab::Genres => "Genres"@,
        LibraryTab::Playlists => "Playlists"@,
    }
}

/// The tab after `t`, wrapping from the last to the first.
pub open spec fn library_tab_next(t: LibraryTab) -> LibraryTab {
    match t {
        LibraryTab::Artists => LibraryTab::Albums,
        LibraryTab::Albums => LibraryTab::Tracks,
        LibraryTab::Tracks => LibraryTab::Genres,
        LibraryTab::Genres => LibraryTab::Playlists,
        LibraryTab::Playlists => LibraryTab::Artists,
    }
}

/// The tab before `t`, wrapping from the first to the last.
pub open spec fn library_tab_prev(t: LibraryTab) -> LibraryTab {
    match t {
        LibraryTab::Artists => LibraryTab::Playlists,
        LibraryTab::Albums => LibraryTab::Artists,
        LibraryTab::Tracks => LibraryTab::Albums,
        LibraryTab::Genres => LibraryTab::Tracks,
        LibraryTab::Playlists => LibraryTab::Genres,
    }
}

impl LibraryTab {
    /// All available tabs in order.
    pub fn all() -> (r: Vec<Self>)
        ensures
            r@ == library_tabs(),
    {
        let mut v = Vec::new();
        v.push(LibraryTab::Artists);
        v.push(LibraryTab::Albums);
        v.push(LibraryTab::Tracks);
        v.push(LibraryTab::Genres);
        v.push(LibraryTab::Playlists);
        assert(v@ =~= library_tabs());
        v
    }

    /// The display name for this tab.
    pub fn display_name(&self) -> (r: &'static str)
        ensures
            r@ == library_tab_name(*self),
    {
        match self {
            LibraryTab::Artists => "Artists",
            LibraryTab::Albums => "Albums",
            LibraryTab::Tracks => "Tracks",
            LibraryTab::Genres => "Genres",
            LibraryTab::Playlists => "Playlists",
        }
    }

    /// The next tab.
    pub fn next(&self) -> (r: Self)
        ensures
            r == library_tab_next(*self),
    {
        match self {
            LibraryTab::Artists => LibraryTab::Albums,
            LibraryTab::Albums => LibraryTab::Tracks,
            LibraryTab::Tracks => LibraryTab::Genres,
            LibraryTab::Genres => LibraryTab::Playlists,
            LibraryTab::Playlists => LibraryTab::Artists,
        }
    }

    /// The previous tab.
    pub fn prev(&self) -> (r: Self)
        ensures
            r == library_tab_prev(*self),
    {
        match self {
            LibraryTab::Artists => LibraryTab::Playlists,
            LibraryTab::Albums => LibraryTab::Artists,
            LibraryTab::Tracks => LibraryTab::Albums,
            LibraryTab::Genres => LibraryTab::Tracks,
            LibraryTab::Playlists => LibraryTab::Genres,
        }
    }
}

// Laws

/// Cycling the repeat mode three times comes back to where it started.
pub proof fn law_repeat_cycle_period(m: RepeatMode)
    ensures
        repeat_cycle(repeat_cycle(repeat_cycle(m))) == m,
        repeat_cycle(m) != m,
{
}

/// Toggling the sort order twice restores it, and once always changes it.
pub proof fn law_sort_order_toggle_involution(o: SortOrder)
    ensures
        sort_order_toggle(sort_order_toggle(o)) == o,
        sort_order_toggle(o) != o,
{
}

/// `prev` undoes `next` and `next` undoes `prev`.
pub proof fn law_library_tab_next_prev_inverse(t: LibraryTab)
    ensures
        library_tab_prev(library_tab_next(t)) == t,
        library_tab_next(library_tab_prev(t)) == t,
{
}

/// `next` steps through `all()` in order and wraps around after the last tab.
pub proof fn law_library_tab_next_follows_order(i: int)
    requires
        0 <= i < 5,
    ensures
        library_tab_next(library_tabs()[i]) == library_tabs()[(i + 1) % 5],
{
}

} // verus!
