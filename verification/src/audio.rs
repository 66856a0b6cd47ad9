//! The audio engine's settings, states and errors, and which files it plays.
use vstd::prelude::*;

use crate::dsp::VisualizationMode;
use crate::duration::Duration;
use crate::error::{labelled, labelled_io, owned};
use crate::library::is_audio_extension;
use crate::path::{extension_of, path_extension};
use crate::text::{
    all_ascii, ascii_upper, opt_chars, str_eq, str_eq_ignore_ascii_case, to_uppercase, unicode_uppercase,
};
use crate::types::{AudioFormat, BitDepth, Codec};

verus! {

/// Audio errors.
#[derive(Debug)]
pub enum AudioError {
    FileOpen(String),
    FormatProbe(String),
    NoAudioTrack,
    UnsupportedCodec(String),
    Decode(String),
    Seek(String),
    PipeWire(String),
    Resampler(String),
    BufferUnderrun,
    NotInitialized,
    ChannelClosed,
    Io(std::io::Error),
}

/// Result type for audio operations.
pub type AudioResult<T> = Result<T, AudioError>;

/// The message of an audio error, for all but I/O errors, whose message is
/// the prefix given here followed by the system's text.
pub open spec fn audio_error_text(e: AudioError) -> Seq<char> {
    match e {
        AudioError::FileOpen(m) => "Failed to open file: "@ + m@,
        AudioError::FormatProbe(m) => "Failed to probe format: "@ + m@,
        AudioError::NoAudioTrack => "No suitable audio track found"@,
        AudioError::UnsupportedCodec(m) => "Unsupported codec: "@ + m@,
        AudioError::Decode(m) => "Decode error: "@ + m@,
        AudioError::Seek(m) => "Seek error: "@ + m@,
        AudioError::PipeWire(m) => "PipeWire error: "@ + m@,
        AudioError::Resampler(m) => "Resampler error: "@ + m@,
        AudioError::BufferUnderrun => "Buffer underrun"@,
        AudioError::NotInitialized => "Pipeline not initialized"@,
        AudioError::ChannelClosed => "Channel closed"@,
        AudioError::Io(_) => "IO error: "@,
    }
}

impl AudioError {
    /// The message shown for the error.
    pub fn message(&self) -> (r: String)
        ensures
            !(*self is Io) ==> r@ == audio_error_text(*self),
            *self is Io ==> r@.len() >= audio_error_text(*self).len() && r@.take(
                audio_error_text(*self).len() as int,
            ) == audio_error_text(*self),
    {
        match self {
            AudioError::FileOpen(m) => labelled("Failed to open file: ", m.as_str()),
            AudioError::FormatProbe(m) => labelled("Failed to probe format: ", m.as_str()),
            AudioError::NoAudioTrack => owned("No suitable audio track found"),
            AudioError::UnsupportedCodec(m) => labelled("Unsupported codec: ", m.as_str()),
            AudioError::Decode(m) => labelled("Decode error: ", m.as_str()),
            AudioError::Seek(m) => labelled("Seek error: ", m.as_str()),
            AudioError::PipeWire(m) => labelled("PipeWire error: ", m.as_str()),
            AudioError::Resampler(m) => labelled("Resampler error: ", m.as_str()),
            AudioError::BufferUnderrun => owned("Buffer underrun"),
            AudioError::NotInitialized => owned("Pipeline not initialized"),
            AudioError::ChannelClosed => owned("Channel closed"),
            AudioError::Io(e) => labelled_io("IO error: ", e),
        }
    }
}

/// State of the audio player.
#[derive(Clone, Copy, Debug, PartialEq, Eq, Structural)]
pub enum PlayerState {
    Stopped,
    Playing,
    Paused,
    Loading,
}

/// Resampling quality presets.
#[derive(Clone, Copy, Debug, PartialEq, Eq, Default, Structural)]
pub enum ResamplerQuality {
    /// Fast linear interpolation (lowest quality, lowest CPU)
    Fast,
    /// Medium quality sinc resampling
    #[default]
    Medium,
    /// High quality sinc resampling
    Best,
}

impl ResamplerQuality {
    /// The preset a setting names: `fast`, `best`, and medium for anything
    /// else.
    pub fn from_setting(s: &str) -> (r: Self)
        ensures
            r == if s@ == "fast"@ {
                ResamplerQuality::Fast
            } else if s@ == "best"@ {
                ResamplerQuality::Best
            } else {
                ResamplerQuality::Medium
            },
    {
        if str_eq(s, "fast") {
            ResamplerQuality::Fast
        } else if str_eq(s, "best") {
            ResamplerQuality::Best
        } else {
            ResamplerQuality::Medium
        }
    }
}

/// Ring buffer size in samples, by default.
pub const DEFAULT_BUFFER_SIZE: usize = 48000;

/// Configuration of the audio pipeline.
#[derive(Clone, Copy, Debug)]
pub struct PipelineConfig {
    /// Target output sample rate (none to keep the source rate)
    pub output_sample_rate: Option<u32>,
    /// Resampling quality
    pub resampler_quality: ResamplerQuality,
    /// Ring buffer size in samples
    pub buffer_size: usize,
    /// Enable gapless playback
    pub gapless: bool,
    /// Enable equalizer
    pub eq_enabled: bool,
    /// Enable visualizer
    pub visualizer_enabled: bool,
    /// Output channels (none for the default, two)
    pub output_channels: Option<u16>,
    /// Number of EQ bands (10 or 31)
    pub eq_bands: usize,
    /// Visualization mode
    pub visualization_mode: VisualizationMode,
}

impl Default for PipelineConfig {
    fn default() -> (r: Self)
        ensures
            r == PipelineConfig::default_spec(),
    {
        PipelineConfig {
            output_sample_rate: None,
            resampler_quality: ResamplerQuality::Medium,
            buffer_size: DEFAULT_BUFFER_SIZE,
            gapless: true,
            eq_enabled: true,
            visualizer_enabled: true,
            output_channels: None,
            eq_bands: 10,
            visualization_mode: VisualizationMode::Spectrum,
        }
    }
}

/// The default audio output device, as probed.
#[derive(Clone, Debug)]
pub struct DeviceConfig {
    pub sample_rate: u32,
    pub channels: u16,
    pub device_name: String,
}

/// The ring buffer size for a device: two seconds of its frames, and never
/// less than 96000.
pub open spec fn ring_buffer_frames(sample_rate: u32) -> int {
    if 2 * sample_rate > 96000 {
        2 * sample_rate
    } else {
        96000
    }
}

impl PipelineConfig {
    /// The pipeline for a device: its rate and channels, a ring buffer of
    /// about two seconds, and the given resampling and gapless settings;
    /// the rest as by default.
    pub fn for_device(device: &DeviceConfig, resampler_quality: ResamplerQuality, gapless: bool) -> (r:
        Self)
        requires
            2 * device.sample_rate <= usize::MAX,
        ensures
            r == (PipelineConfig {
                output_sample_rate: Some(device.sample_rate),
                output_channels: Some(device.channels),
                buffer_size: ring_buffer_frames(device.sample_rate) as usize,
                resampler_quality,
                gapless,
                ..PipelineConfig::default_spec()
            }),
    {
        let two_seconds: usize = (device.sample_rate as usize) * 2;
        let buffer_size: usize = if two_seconds > 96000 {
            two_seconds
        } else {
            96000
        };
        PipelineConfig {
            output_sample_rate: Some(device.sample_rate),
            output_channels: Some(device.channels),
            buffer_size,
            resampler_quality,
            gapless,
            eq_enabled: true,
            visualizer_enabled: true,
            eq_bands: 10,
            visualization_mode: VisualizationMode::Spectrum,
        }
    }

    /// The default configuration.
    pub open spec fn default_spec() -> PipelineConfig {
        PipelineConfig {
            output_sample_rate: None,
            resampler_quality: ResamplerQuality::Medium,
            buffer_size: DEFAULT_BUFFER_SIZE,
            gapless: true,
            eq_enabled: true,
            visualizer_enabled: true,
            output_channels: None,
            eq_bands: 10,
            visualization_mode: VisualizationMode::Spectrum,
        }
    }
}

/// What the player is doing, and whether its output is held.
#[derive(Clone, Copy, Debug, PartialEq, Eq, Structural)]
pub struct Transport {
    pub state: PlayerState,
    pub paused: bool,
}

/// The transport after a pause: paused and held.
pub open spec fn paused_transport() -> Transport {
    Transport { state: PlayerState::Paused, paused: true }
}

/// The transport after a resume: playing again when it was paused,
/// otherwise unchanged.
pub open spec fn resumed_transport(t: Transport) -> Transport {
    if t.state == PlayerState::Paused {
        Transport { state: PlayerState::Playing, paused: false }
    } else {
        t
    }
}

/// The transport after a toggle: resumed when held, paused otherwise.
pub open spec fn toggled_transport(t: Transport) -> Transport {
    if t.paused {
        resumed_transport(t)
    } else {
        paused_transport()
    }
}

impl Transport {
    /// A stopped player.
    pub fn new() -> (r: Self)
        ensures
            r == (Transport { state: PlayerState::Stopped, paused: false }),
    {
        Transport { state: PlayerState::Stopped, paused: false }
    }

    /// Whether sound is playing: playing and not held.
    pub fn is_playing(&self) -> (r: bool)
        ensures
            r == (self.state == PlayerState::Playing && !self.paused),
    {
        self.state == PlayerState::Playing && !self.paused
    }

    /// A track starts loading; the output is released.
    pub fn begin_loading(&mut self)
        ensures
            *final(self) == (Transport { state: PlayerState::Loading, paused: false }),
    {
        self.state = PlayerState::Loading;
        self.paused = false;
    }

    /// The loaded track plays.
    pub fn start_playing(&mut self)
        ensures
            *final(self) == (Transport { state: PlayerState::Playing, ..*old(self) }),
    {
        self.state = PlayerState::Playing;
    }

    /// Holds the output.
    pub fn pause(&mut self)
        ensures
            *final(self) == paused_transport(),
    {
        self.paused = true;
        self.state = PlayerState::Paused;
    }

    /// Releases the output, when paused.
    pub fn resume(&mut self)
        ensures
            *final(self) == resumed_transport(*old(self)),
    {
        if self.state == PlayerState::Paused {
            self.paused = false;
            self.state = PlayerState::Playing;
        }
    }

    /// Resumes when the output is held, pauses otherwise.
    pub fn toggle_pause(&mut self)
        ensures
            *final(self) == toggled_transport(*old(self)),
    {
        if self.paused {
            self.resume();
        } else {
            self.pause();
        }
    }

    /// Stops playback.
    pub fn stop(&mut self)
        ensures
            *final(self) == (Transport { state: PlayerState::Stopped, paused: false }),
    {
        self.state = PlayerState::Stopped;
        self.paused = false;
    }
}

/// Pausing and then resuming always plays.
pub proof fn law_pause_then_resume()
    ensures
        resumed_transport(paused_transport()) == (Transport {
            state: PlayerState::Playing,
            paused: false,
        }),
{
}

/// Toggling twice returns a playing player to playing, and a paused one to
/// paused.
pub proof fn law_toggle_twice(t: Transport)
    requires
        t == (Transport { state: PlayerState::Playing, paused: false }) || t == paused_transport(),
    ensures
        toggled_transport(toggled_transport(t)) == t,
{
}

/// Where seeking forward by `amount` lands: that far on, but not past the
/// end of the track.
pub fn seek_forward_target(position: Duration, duration: Duration, amount: Duration) -> (r: Duration)
    ensures
        r.total() == if position.total() + amount.total() > Duration::max_nanos() {
            if Duration::max_nanos() > duration.total() {
                duration.total()
            } else {
                Duration::max_nanos()
            }
        } else if position.total() + amount.total() > duration.total() {
            duration.total()
        } else {
            position.total() + amount.total()
        },
{
    let new_pos = position.saturating_add(amount);
    if new_pos.is_longer_than(&duration) {
        duration
    } else {
        new_pos
    }
}

/// Where seeking backward by `amount` lands: that far back, but not before
/// the start.
pub fn seek_backward_target(position: Duration, amount: Duration) -> (r: Duration)
    ensures
        r.total() == if position.total() >= amount.total() {
            position.total() - amount.total()
        } else {
            0
        },
{
    position.saturating_sub(amount)
}

/// Whether a file extension is one the engine plays, ignoring ASCII case.
pub fn is_supported_extension(ext: &str) -> (r: bool)
    ensures
        r == is_audio_extension(ext@),
{
    str_eq_ignore_ascii_case("flac", ext) || str_eq_ignore_ascii_case("mp3", ext)
        || str_eq_ignore_ascii_case("m4a", ext) || str_eq_ignore_ascii_case("aac", ext)
        || str_eq_ignore_ascii_case("ogg", ext) || str_eq_ignore_ascii_case("oga", ext)
        || str_eq_ignore_ascii_case("opus", ext) || str_eq_ignore_ascii_case("wav", ext)
        || str_eq_ignore_ascii_case("wave", ext) || str_eq_ignore_ascii_case("aif", ext)
        || str_eq_ignore_ascii_case("aiff", ext) || str_eq_ignore_ascii_case("wv", ext)
}

/// Whether a path names a file the engine plays, by its extension.
pub fn is_supported_file(path: &str) -> (r: bool)
    ensures
        r == match extension_of(path@) {
            Some(e) => is_audio_extension(e),
            None => false,
        },
{
    match path_extension(path) {
        Some(e) => is_supported_extension(e.as_str()),
        None => false,
    }
}

// Stream facts

/// The bit depth a stream declares: 16 bits when it declares none, or a size
/// the engine does not name.
pub open spec fn declared_bit_depth(bits: Option<u32>) -> BitDepth {
    match bits {
        Some(8) => BitDepth::U8,
        Some(16) => BitDepth::S16,
        Some(24) => BitDepth::S24,
        Some(32) => BitDepth::S32,
        _ => BitDepth::S16,
    }
}

/// The bit depth a stream declares (see `declared_bit_depth`).
pub fn bit_depth_from_bits(bits: Option<u32>) -> (r: BitDepth)
    ensures
        r == declared_bit_depth(bits),
{
    match bits {
        Some(8) => BitDepth::U8,
        Some(16) => BitDepth::S16,
        Some(24) => BitDepth::S24,
        Some(32) => BitDepth::S32,
        _ => BitDepth::S16,
    }
}

/// The container name of a file: its extension in upper case, when it has
/// one.
pub fn container_name(path: &str) -> (r: Option<String>)
    ensures
        opt_chars(r) == match extension_of(path@) {
            Some(e) => Some(unicode_uppercase(e)),
            None => None,
        },
        extension_of(path@) matches Some(e) ==> (all_ascii(e) ==> opt_chars(r) == Some(
            e.map_values(|c: char| ascii_upper(c)),
        )),
{
    match path_extension(path) {
        Some(e) => Some(to_uppercase(e.as_str())),
        None => None,
    }
}

/// The format a stream declares, with the engine's defaults for what it
/// leaves out: 44.1 kHz, two channels, and the bit depth of
/// `declared_bit_depth`.
pub fn declared_format(
    sample_rate: Option<u32>,
    channels: Option<u8>,
    bits_per_sample: Option<u32>,
    codec: Codec,
    bitrate: Option<u32>,
) -> (r: AudioFormat)
    ensures
        r.sample_rate == match sample_rate {
            Some(s) => s,
            None => 44100,
        },
        r.channels == match channels {
            Some(c) => c,
            None => 2,
        },
        r.bit_depth == declared_bit_depth(bits_per_sample),
        r.codec == codec,
        r.bitrate == bitrate,
{
    let rate = match sample_rate {
        Some(s) => s,
        None => 44100,
    };
    let count = match channels {
        Some(c) => c,
        None => 2,
    };
    AudioFormat {
        sample_rate: rate,
        channels: count,
        bit_depth: bit_depth_from_bits(bits_per_sample),
        codec,
        bitrate,
    }
}

// The pipeline's counters

/// The output rate assumed until the device is known.
pub const DEFAULT_OUTPUT_RATE: u32 = 48000;

/// Free samples per channel that the buffer needs before the decoder fills
/// it: a quarter of the default buffer.
pub const BUFFER_LOW_WATERMARK: usize = 12000;

/// What the decoder and the output share about the stream: the position and
/// length in frames at the output rate, whether the stream ended, whether a
/// track is loaded, and the mute switch. (The volume, a fraction, lives with
/// the output.)
#[derive(Clone, Copy, Debug, PartialEq, Eq, Structural)]
pub struct PipelineState {
    pub position_samples: u64,
    pub total_samples: u64,
    pub sample_rate: u64,
    pub eos: bool,
    pub active: bool,
    pub muted: bool,
}

impl PipelineState {
    /// Nothing loaded, at the CD rate.
    pub fn new() -> (r: Self)
        ensures
            r == (PipelineState {
                position_samples: 0,
                total_samples: 0,
                sample_rate: 44100,
                eos: false,
                active: false,
                muted: false,
            }),
    {
        PipelineState {
            position_samples: 0,
            total_samples: 0,
            sample_rate: 44100,
            eos: false,
            active: false,
            muted: false,
        }
    }

    /// Whether the output is muted.
    pub fn is_muted(&self) -> (r: bool)
        ensures
            r == self.muted,
    {
        self.muted
    }

    /// Mutes or unmutes the output.
    pub fn set_muted(&mut self, muted: bool)
        ensures
            *final(self) == (PipelineState { muted, ..*old(self) }),
    {
        self.muted = muted;
    }

    /// A track was loaded: playing from the start, at `rate`, for `total`
    /// frames.
    pub fn start_track(&mut self, rate: u32, total: u64)
        ensures
            *final(self) == (PipelineState {
                position_samples: 0,
                total_samples: total,
                sample_rate: rate as u64,
                eos: false,
                active: true,
                ..*old(self)
            }),
    {
        self.eos = false;
        self.position_samples = 0;
        self.active = true;
        self.sample_rate = rate as u64;
        self.total_samples = total;
    }

    /// The output consumed `read` samples of `channels` interleaved channels;
    /// the position moves on by whole frames (wrapping like the shared
    /// counter it models).
    pub fn samples_played(&mut self, read: usize, channels: u8)
        ensures
            *final(self) == if read > 0 {
                PipelineState {
                    position_samples: old(self).position_samples.wrapping_add(
                        frames_in(read, channels) as u64,
                    ),
                    ..*old(self)
                }
            } else {
                *old(self)
            },
    {
        if read > 0 {
            let per_frame: usize = if channels > 1 {
                channels as usize
            } else {
                1
            };
            let frames = (read / per_frame) as u64;
            self.position_samples = self.position_samples.wrapping_add(frames);
        }
    }

    /// The decoder ran out of data.
    pub fn end_of_stream(&mut self)
        ensures
            *final(self) == (PipelineState { eos: true, ..*old(self) }),
    {
        self.eos = true;
    }

    /// The decoder moved to the frame `samples`.
    pub fn seeked(&mut self, samples: u64)
        ensures
            *final(self) == (PipelineState { position_samples: samples, eos: false, ..*old(self) }),
    {
        self.position_samples = samples;
        self.eos = false;
    }

    /// Playback stopped: inactive, ended, at the start.
    pub fn stopped(&mut self)
        ensures
            *final(self) == (PipelineState {
                active: false,
                eos: true,
                position_samples: 0,
                ..*old(self)
            }),
    {
        self.active = false;
        self.eos = true;
        self.position_samples = 0;
    }

    /// Whether the track played to its end: the stream ended and the buffer
    /// is empty.
    pub fn is_finished(&self, buffer_empty: bool) -> (r: bool)
        ensures
            r == (self.eos && buffer_empty),
    {
        self.eos && buffer_empty
    }
}

/// Whole frames in `samples` interleaved samples of `channels` channels (a
/// channel count of zero counts as one).
pub open spec fn frames_in(samples: usize, channels: u8) -> int {
    samples as int / (if channels > 1 {
        channels as int
    } else {
        1
    })
}

/// The rate the pipeline outputs: the configured one, or the device's.
pub open spec fn output_rate(configured: Option<u32>, device: u32) -> u32 {
    match configured {
        Some(r) => r,
        None => device,
    }
}

/// How a track is set up: the rate its frames are counted at (the output
/// rate), and whether it must be resampled (its rate differs from it).
pub fn track_rates(source_rate: u32, configured: Option<u32>, device_rate: u32) -> (r: (u32, bool))
    ensures
        r.0 == output_rate(configured, device_rate),
        r.1 == (source_rate != output_rate(configured, device_rate)),
{
    let out = match configured {
        Some(rate) => rate,
        None => device_rate,
    };
    let effective = if source_rate != out {
        out
    } else {
        source_rate
    };
    (effective, source_rate != out)
}

/// Whether the decoder should decode more now: a track is loaded, its stream
/// has not ended, and the buffer has room for at least the low watermark in
/// every channel.
pub fn should_decode(has_decoder: bool, eos: bool, vacant: usize, channels: u8) -> (r: bool)
    ensures
        r == (has_decoder && !eos && vacant >= BUFFER_LOW_WATERMARK * channels),
{
    if !has_decoder || eos {
        return false;
    }
    let needed: usize = BUFFER_LOW_WATERMARK * (channels as usize);
    vacant >= needed
}

/// How the decoder fill loop went.
#[derive(Clone, Copy, Debug, PartialEq, Eq, Structural)]
pub enum FillOutcome {
    /// Samples were decoded and buffered
    Filled,
    /// The buffer was full enough, or the stream ended
    Idle,
    /// Decoding failed
    Failed,
}

/// How long the decoder thread waits before its next round, in
/// milliseconds: long while paused, briefly after buffering, a little
/// longer when idle, longest after an error.
pub fn decoder_wait_ms(paused: bool, outcome: FillOutcome) -> (r: u64)
    ensures
        r == if paused {
            50
        } else {
            match outcome {
                FillOutcome::Filled => 1u64,
                FillOutcome::Idle => 20,
                FillOutcome::Failed => 100,
            }
        },
{
    if paused {
        return 50;
    }
    match outcome {
        FillOutcome::Filled => 1,
        FillOutcome::Idle => 20,
        FillOutcome::Failed => 100,
    }
}

} // verus!
