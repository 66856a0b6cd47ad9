//! The application-wide error type.
use vstd::prelude::*;

use crate::text::{from_chars, push_decimal, push_signed_decimal, push_str, signed_decimal, decimal, to_chars};

verus! {

/// `std::io::Error`, carried through error values.
#[verifier::external_type_specification]
#[verifier::external_body]
pub struct ExIoError(std::io::Error);

/// The main error type for Hadal operations.
#[derive(Debug)]
pub enum Error {
    // Audio errors
    Decode(String),
    PipeWire(String),
    AudioOutput(String),
    UnsupportedFormat(String),
    Seek(String),
    // Library errors
    Database(String),
    TagRead(String),
    LibraryScan(String),
    FileNotFound { path: String },
    InvalidPath { path: String },
    // Playlist errors
    Playlist(String),
    M3u8Parse(String),
    PlaylistNotFound { name: String },
    // Graphics errors
    Graphics(String),
    ImageProcessing(String),
    CapabilityNotSupported(String),
    // Configuration errors
    Config(String),
    ConfigParse(String),
    NoConfigDir,
    NoDataDir,
    NoCacheDir,
    // I/O errors
    Io(std::io::Error),
    // Channel errors
    ChannelSend(String),
    ChannelRecv(String),
    // Generic errors
    Internal(String),
    Other(String),
}

pub(crate) fn owned(msg: &str) -> (r: String)
    ensures
        r@ == msg@,
{
    let v = to_chars(msg);
    from_chars(&v)
}

impl Error {
    /// A decode error with the given message.
    pub fn decode(msg: &str) -> (r: Self)
        ensures
            r matches Error::Decode(m) && m@ == msg@,
    {
        Error::Decode(owned(msg))
    }

    /// A PipeWire error with the given message.
    pub fn pipewire(msg: &str) -> (r: Self)
        ensures
            r matches Error::PipeWire(m) && m@ == msg@,
    {
        Error::PipeWire(owned(msg))
    }

    /// A database error with the given message.
    pub fn database(msg: &str) -> (r: Self)
        ensures
            r matches Error::Database(m) && m@ == msg@,
    {
        Error::Database(owned(msg))
    }

    /// A configuration error with the given message.
    pub fn config(msg: &str) -> (r: Self)
        ensures
            r matches Error::Config(m) && m@ == msg@,
    {
        Error::Config(owned(msg))
    }

    /// An internal error with the given message.
    pub fn internal(msg: &str) -> (r: Self)
        ensures
            r matches Error::Internal(m) && m@ == msg@,
    {
        Error::Internal(owned(msg))
    }
}

// Messages

/// Calls `ToString::to_string` on an I/O error, which writes the system's
/// description of it; nothing is stated of that text.
#[verifier::external_body]
pub(crate) fn io_error_text(e: &std::io::Error) -> String {
    e.to_string()
}

/// A label followed by a detail.
pub(crate) fn labelled(label: &str, detail: &str) -> (r: String)
    ensures
        r@ == label@ + detail@,
{
    let mut s = String::new();
    push_str(&mut s, label);
    push_str(&mut s, detail);
    s
}

/// A label followed by a signed number.
pub(crate) fn labelled_int(label: &str, n: i64) -> (r: String)
    ensures
        r@ == label@ + signed_decimal(n as int),
{
    let mut s = String::new();
    push_str(&mut s, label);
    push_signed_decimal(&mut s, n);
    s
}

/// A label followed by a count.
pub(crate) fn labelled_count(label: &str, n: usize) -> (r: String)
    ensures
        r@ == label@ + decimal(n as nat),
{
    let mut s = String::new();
    push_str(&mut s, label);
    push_decimal(&mut s, n as u64);
    s
}

/// A label followed by the system's description of an I/O error.
pub(crate) fn labelled_io(label: &str, e: &std::io::Error) -> (r: String)
    ensures
        r@.len() >= label@.len(),
        r@.take(label@.len() as int) == label@,
{
    let t = io_error_text(e);
    let r = labelled(label, t.as_str());
    assert(r@.take(label@.len() as int) =~= label@);
    r
}

/// The message of an error, for all but I/O errors, whose message is the
/// prefix given here followed by the system's text.
pub open spec fn error_text(e: Error) -> Seq<char> {
    match e {
        Error::Decode(m) => "Failed to decode audio: "@ + m@,
        Error::PipeWire(m) => "PipeWire error: "@ + m@,
        Error::AudioOutput(m) => "Audio output error: "@ + m@,
        Error::UnsupportedFormat(m) => "Unsupported audio format: "@ + m@,
        Error::Seek(m) => "Failed to seek: "@ + m@,
        Error::Database(m) => "Database error: "@ + m@,
        Error::TagRead(m) => "Failed to read tags from file: "@ + m@,
        Error::LibraryScan(m) => "Library scan error: "@ + m@,
        Error::FileNotFound { path } => "File not found: "@ + path@,
        Error::InvalidPath { path } => "Invalid path: "@ + path@,
        Error::Playlist(m) => "Playlist error: "@ + m@,
        Error::M3u8Parse(m) => "M3U8 parse error: "@ + m@,
        Error::PlaylistNotFound { name } => "Playlist not found: "@ + name@,
        Error::Graphics(m) => "Graphics error: "@ + m@,
        Error::ImageProcessing(m) => "Image processing error: "@ + m@,
        Error::CapabilityNotSupported(m) => "Terminal capability not supported: "@ + m@,
        Error::Config(m) => "Configuration error: "@ + m@,
        Error::ConfigParse(m) => "Failed to parse configuration: "@ + m@,
        Error::NoConfigDir => "Missing configuration directory"@,
        Error::NoDataDir => "Missing data directory"@,
        Error::NoCacheDir => "Missing cache directory"@,
        Error::Io(_) => "I/O error: "@,
        Error::ChannelSend(m) => "Channel send error: "@ + m@,
        Error::ChannelRecv(m) => "Channel receive error: "@ + m@,
        Error::Internal(m) => "Internal error: "@ + m@,
        Error::Other(m) => m@,
    }
}

impl Error {
    /// The message shown for the error.
    pub fn message(&self) -> (r: String)
        ensures
            !(*self is Io) ==> r@ == error_text(*self),
            *self is Io ==> r@.len() >= error_text(*self).len() && r@.take(
                error_text(*self).len() as int,
            ) == error_text(*self),
    {
        match self {
            Error::Decode(m) => labelled("Failed to decode audio: ", m.as_str()),
            Error::PipeWire(m) => labelled("PipeWire error: ", m.as_str()),
            Error::AudioOutput(m) => labelled("Audio output error: ", m.as_str()),
            Error::UnsupportedFormat(m) => labelled("Unsupported audio format: ", m.as_str()),
            Error::Seek(m) => labelled("Failed to seek: ", m.as_str()),
            Error::Database(m) => labelled("Database error: ", m.as_str()),
            Error::TagRead(m) => labelled("Failed to read tags from file: ", m.as_str()),
            Error::LibraryScan(m) => labelled("Library scan error: ", m.as_str()),
            Error::FileNotFound { path } => labelled("File not found: ", path.as_str()),
            Error::InvalidPath { path } => labelled("Invalid path: ", path.as_str()),
            Error::Playlist(m) => labelled("Playlist error: ", m.as_str()),
            Error::M3u8Parse(m) => labelled("M3U8 parse error: ", m.as_str()),
            Error::PlaylistNotFound { name } => labelled("Playlist not found: ", name.as_str()),
            Error::Graphics(m) => labelled("Graphics error: ", m.as_str()),
            Error::ImageProcessing(m) => labelled("Image processing error: ", m.as_str()),
            Error::CapabilityNotSupported(m) => labelled(
                "Terminal capability not supported: ",
                m.as_str(),
            ),
            Error::Config(m) => labelled("Configuration error: ", m.as_str()),
            Error::ConfigParse(m) => labelled("Failed to parse configuration: ", m.as_str()),
            Error::NoConfigDir => owned("Missing configuration directory"),
            Error::NoDataDir => owned("Missing data directory"),
            Error::NoCacheDir => owned("Missing cache directory"),
            Error::Io(e) => labelled_io("I/O error: ", e),
            Error::ChannelSend(m) => labelled("Channel send error: ", m.as_str()),
            Error::ChannelRecv(m) => labelled("Channel receive error: ", m.as_str()),
            Error::Internal(m) => labelled("Internal error: ", m.as_str()),
            Error::Other(m) => owned(m.as_str()),
        }
    }
}

} // verus!
