//! Text shown by the interface: cut names, times, rates and formats.
use vstd::prelude::*;

use crate::config::{char_utf8_len, lemma_utf8_len_mono, utf8_len};
use crate::library::TrackRow;
use crate::text::{
    decimal, push_decimal, push_repeat, push_signed_decimal, push_signed_decimal_02, push_str,
    from_chars, signed_decimal, signed_decimal_02, space_pad_right, str_eq, to_chars, to_lowercase,
    unicode_lowercase,
};
use crate::types::{AudioFormat, BitDepth, Codec};

verus! {

/// A name cut to `max` characters: padded with spaces when shorter, ending
/// in `...` when longer and there is room for it, else just cut.
pub open spec fn truncated(s: Seq<char>, max: nat) -> Seq<char> {
    if s.len() <= max {
        space_pad_right(s, max)
    } else if max > 3 {
        s.take(max - 3) + "..."@
    } else {
        s.take(max as int)
    }
}

/// Cuts or pads a name to `max` characters.
pub fn truncate(s: &str, max: usize) -> (r: String)
    ensures
        r@ == truncated(s@, max as nat),
{
    let v = to_chars(s);
    let n = v.len();
    let mut out = String::new();
    if n <= max {
        push_str(&mut out, s);
        push_repeat(&mut out, ' ', max - n);
        assert(out@ =~= space_pad_right(s@, max as nat));
        return out;
    }
    let keep = if max > 3 {
        max - 3
    } else {
        max
    };
    let mut i: usize = 0;
    while i < keep
        invariant
            keep <= max < n == v@.len(),
            v@ == s@,
            i <= keep,
            out@ == v@.take(i as int),
        decreases keep - i,
    {
        out.push(v[i]);
        i = i + 1;
        assert(v@.take(i as int) =~= v@.take(i - 1).push(v@[i - 1]));
    }
    if max > 3 {
        push_str(&mut out, "...");
    }
    out
}

/// Whether `k` leading characters of `s` are the most that fit in `max`
/// bytes of UTF-8.
pub open spec fn fits_most(s: Seq<char>, max: int, k: int) -> bool {
    &&& 0 <= k <= s.len()
    &&& utf8_len(s.take(k)) <= max
    &&& k < s.len() ==> utf8_len(s.take(k + 1)) > max
}

/// The number of leading characters of `s` that fit in `max` bytes.
pub open spec fn fitting_count(s: Seq<char>, max: int) -> int {
    choose|k: int| fits_most(s, max, k)
}

/// A text cut to `avail` bytes of UTF-8: unchanged when it fits; otherwise
/// the leading characters that fit in one byte less, followed by `…`.
pub open spec fn byte_truncated(s: Seq<char>, avail: nat) -> Seq<char> {
    if utf8_len(s) <= avail {
        s
    } else {
        s.take(fitting_count(s, if avail >= 1 { avail - 1 } else { 0 })) + seq!['…']
    }
}

/// Bytes one character takes in UTF-8.
fn char_len_utf8(c: char) -> (r: usize)
    ensures
        r == char_utf8_len(c),
{
    let u = c as u32;
    if u < 0x80 {
        1
    } else if u < 0x800 {
        2
    } else if u < 0x10000 {
        3
    } else {
        4
    }
}

/// The most leading characters of `v` that fit in `max` bytes.
fn count_fitting(v: &Vec<char>, max: usize) -> (k: usize)
    ensures
        fits_most(v@, max as int, k as int),
        k as int == fitting_count(v@, max as int),
{
    let n = v.len();
    let mut i: usize = 0;
    let mut bytes: usize = 0;
    assert(v@.take(0) =~= Seq::<char>::empty());
    loop
        invariant
            n == v@.len(),
            i <= n,
            bytes == utf8_len(v@.take(i as int)),
            bytes <= max,
        ensures
            i <= n,
            bytes == utf8_len(v@.take(i as int)),
            bytes <= max,
            i < n ==> utf8_len(v@.take(i + 1)) > max,
        decreases n - i,
    {
        if i == n {
            break;
        }
        let c = char_len_utf8(v[i]);
        assert(v@.take(i + 1).drop_last() =~= v@.take(i as int));
        if c > max - bytes {
            break;
        }
        bytes = bytes + c;
        i = i + 1;
    }
    assert(i == n ==> v@.take(i as int) =~= v@);
    proof {
        lemma_fits_most_unique(v@, max as int, i as int);
    }
    i
}

/// Only one count is the most that fits.
proof fn lemma_fits_most_unique(s: Seq<char>, max: int, k: int)
    requires
        fits_most(s, max, k),
    ensures
        fitting_count(s, max) == k,
{
    let c = fitting_count(s, max);
    assert(fits_most(s, max, c));
    if c < k {
        lemma_utf8_len_mono(s, c + 1, k);
    } else if k < c {
        lemma_utf8_len_mono(s, k + 1, c);
    }
}

/// Cuts a text to `avail` bytes (see `byte_truncated`), as the queue's rows
/// do with their title and artist.
pub fn truncate_to_bytes(text: &str, avail: usize) -> (r: String)
    ensures
        r@ == byte_truncated(text@, avail as nat),
{
    let v = to_chars(text);
    let n = v.len();
    let all = count_fitting(&v, avail);
    if all == n {
        assert(v@.take(n as int) =~= v@);
        return from_chars(v.as_slice());
    }
    proof {
        lemma_utf8_len_mono(v@, all + 1, n as int);
        assert(v@.take(n as int) =~= v@);
    }
    let cut = if avail >= 1 {
        avail - 1
    } else {
        0
    };
    let k = count_fitting(&v, cut);
    let mut out: Vec<char> = Vec::new();
    let mut i: usize = 0;
    while i < k
        invariant
            i <= k <= v@.len(),
            out@ == v@.take(i as int),
        decreases k - i,
    {
        out.push(v[i]);
        i = i + 1;
        assert(v@.take(i as int) =~= v@.take(i - 1).push(v@[i - 1]));
    }
    out.push('…');
    from_chars(out.as_slice())
}

/// The index of the preset after the one named `current` among the preset
/// names, going round after the last; the first preset's successor when no
/// preset has that name.
pub open spec fn next_preset_index_of(names: Seq<Seq<char>>, current: Seq<char>) -> int {
    let at = if exists|i: int| 0 <= i < names.len() && names[i] == current {
        choose|i: int| 0 <= i < names.len() && names[i] == current && forall|j: int|
            0 <= j < i ==> names[j] != current
    } else {
        0
    };
    (at + 1) % (names.len() as int)
}

/// The preset that the "next preset" key moves to.
pub fn next_preset_index(names: &Vec<String>, current: &str) -> (r: usize)
    requires
        names.len() > 0,
    ensures
        r == next_preset_index_of(names@.map_values(|n: String| n@), current@),
{
    let ghost ns = names@.map_values(|n: String| n@);
    let n = names.len();
    let mut i: usize = 0;
    while i < n
        invariant
            n == names@.len(),
            ns == names@.map_values(|n: String| n@),
            i <= n,
            forall|j: int| 0 <= j < i ==> ns[j] != current@,
        decreases n - i,
    {
        if str_eq(names[i].as_str(), current) {
            proof {
                let c = choose|c: int| 0 <= c < ns.len() && ns[c] == current@ && forall|j: int|
                    0 <= j < c ==> ns[j] != current@;
                assert(ns[i as int] == current@);
                assert(c == i);
            }
            return (i + 1) % n;
        }
        i = i + 1;
    }
    1 % n
}

/// Rust's division, which rounds toward zero.
pub open spec fn div_toward_zero(a: int, b: int) -> int {
    if a >= 0 {
        a / b
    } else {
        -((-a) / b)
    }
}

/// The remainder of Rust's division, with the sign of the dividend.
pub open spec fn rem_toward_zero(a: int, b: int) -> int {
    a - b * div_toward_zero(a, b)
}

/// A duration in milliseconds as `m:ss`, whole seconds rounded toward zero.
pub open spec fn duration_text(ms: int) -> Seq<char> {
    let secs = div_toward_zero(ms, 1000);
    signed_decimal(div_toward_zero(secs, 60)) + seq![':'] + signed_decimal_02(
        rem_toward_zero(secs, 60),
    )
}

/// Formats a duration in milliseconds as `m:ss`.
pub fn format_duration(ms: i64) -> (r: String)
    ensures
        r@ == duration_text(ms as int),
{
    let secs = ms / 1000;
    let m = secs / 60;
    let s = secs % 60;
    assert(secs == div_toward_zero(ms as int, 1000));
    assert(m == div_toward_zero(secs as int, 60));
    assert(s == rem_toward_zero(secs as int, 60));
    let mut out = String::new();
    push_signed_decimal(&mut out, m);
    out.push(':');
    push_signed_decimal_02(&mut out, s);
    out
}

/// The queue view's heading: the number of tracks and their total length.
pub open spec fn queue_summary_text(count: usize, total_ms: i64) -> Seq<char> {
    "  Queue \u{2014} "@ + decimal(count as nat) + " track"@ + (if count == 1 {
        ""@
    } else {
        "s"@
    }) + ", "@ + duration_text(total_ms as int) + " total"@
}

/// Writes the queue view's heading.
pub fn queue_summary(count: usize, total_ms: i64) -> (r: String)
    ensures
        r@ == queue_summary_text(count, total_ms),
{
    let mut out = String::new();
    push_str(&mut out, "  Queue \u{2014} ");
    push_decimal(&mut out, count as u64);
    push_str(&mut out, " track");
    if count != 1 {
        push_str(&mut out, "s");
    } else {
        push_str(&mut out, "");
    }
    push_str(&mut out, ", ");
    let d = format_duration(total_ms);
    push_str(&mut out, d.as_str());
    push_str(&mut out, " total");
    out
}

/// A sample rate in kilohertz with at most one decimal, such as `44.1`,
/// `96` or `192`.
pub open spec fn sample_rate_text(rate: nat) -> Seq<char> {
    if (rate % 1000) / 100 == 0 {
        decimal(rate / 1000)
    } else {
        decimal(rate / 1000) + seq!['.'] + decimal((rate % 1000) / 100)
    }
}

/// Formats a sample rate for display in kilohertz.
pub fn format_sample_rate(rate: u32) -> (r: String)
    ensures
        r@ == sample_rate_text(rate as nat),
{
    let khz = rate / 1000;
    let remainder = (rate % 1000) / 100;
    let mut out = String::new();
    push_decimal(&mut out, khz as u64);
    if remainder != 0 {
        out.push('.');
        push_decimal(&mut out, remainder as u64);
    }
    out
}

/// The codec a codec name stands for, given in lowercase.
pub open spec fn codec_of_lower_name(n: Seq<char>) -> Codec {
    if n == "flac"@ {
        Codec::Flac
    } else if n == "mp3"@ {
        Codec::Mp3
    } else if n == "aac"@ || n == "m4a"@ {
        Codec::Aac
    } else if n == "vorbis"@ || n == "ogg"@ {
        Codec::Vorbis
    } else if n == "opus"@ {
        Codec::Opus
    } else if n == "wav"@ {
        Codec::Wav
    } else if n == "aiff"@ || n == "aif"@ {
        Codec::Aiff
    } else if n == "alac"@ {
        Codec::Alac
    } else if n == "wavpack"@ || n == "wv"@ {
        Codec::WavPack
    } else {
        Codec::Unknown
    }
}

/// The sample format a bit count stands for, 16-bit when unknown.
pub open spec fn bit_depth_of(bits: i32) -> BitDepth {
    if bits == 8 {
        BitDepth::U8
    } else if bits == 24 {
        BitDepth::S24
    } else if bits == 32 {
        BitDepth::S32
    } else {
        BitDepth::S16
    }
}

/// The audio format a track's row records: none without a sample rate or
/// a bit depth. The rate and bitrate are taken as `u32`, the channel count
/// (two when unknown) as `u8`, bit for bit.
pub open spec fn track_format(t: TrackRow) -> Option<AudioFormat> {
    match (t.sample_rate, t.bit_depth) {
        (Some(rate), Some(bits)) => Some(
            AudioFormat {
                sample_rate: rate as u32,
                channels: (match t.channels {
                    Some(c) => c,
                    None => 2,
                }) as u8,
                bit_depth: bit_depth_of(bits),
                codec: match t.codec {
                    Some(c) => codec_of_lower_name(unicode_lowercase(c@)),
                    None => Codec::Unknown,
                },
                bitrate: match t.bitrate {
                    Some(b) => Some(b as u32),
                    None => None,
                },
            },
        ),
        _ => None,
    }
}

fn codec_from_name(name: &str) -> (r: Codec)
    ensures
        r == codec_of_lower_name(unicode_lowercase(name@)),
{
    let lower = to_lowercase(name);
    let n = lower.as_str();
    if str_eq(n, "flac") {
        Codec::Flac
    } else if str_eq(n, "mp3") {
        Codec::Mp3
    } else if str_eq(n, "aac") || str_eq(n, "m4a") {
        Codec::Aac
    } else if str_eq(n, "vorbis") || str_eq(n, "ogg") {
        Codec::Vorbis
    } else if str_eq(n, "opus") {
        Codec::Opus
    } else if str_eq(n, "wav") {
        Codec::Wav
    } else if str_eq(n, "aiff") || str_eq(n, "aif") {
        Codec::Aiff
    } else if str_eq(n, "alac") {
        Codec::Alac
    } else if str_eq(n, "wavpack") || str_eq(n, "wv") {
        Codec::WavPack
    } else {
        Codec::Unknown
    }
}

/// The audio format of a track, from its row.
pub fn build_format(track: &TrackRow) -> (r: Option<AudioFormat>)
    ensures
        r == track_format(*track),
{
    let rate = match track.sample_rate {
        Some(x) => x,
        None => return None,
    };
    let bits = match track.bit_depth {
        Some(b) => b,
        None => return None,
    };
    let bit_depth = if bits == 8 {
        BitDepth::U8
    } else if bits == 16 {
        BitDepth::S16
    } else if bits == 24 {
        BitDepth::S24
    } else if bits == 32 {
        BitDepth::S32
    } else {
        BitDepth::S16
    };
    let codec = match &track.codec {
        Some(c) => codec_from_name(c.as_str()),
        None => Codec::Unknown,
    };
    let channels: i32 = match track.channels {
        Some(c) => c,
        None => 2,
    };
    let mut fmt = AudioFormat::new(rate as u32, channels as u8, bit_depth, codec);
    if let Some(br) = track.bitrate {
        fmt = fmt.with_bitrate(br as u32);
    }
    Some(fmt)
}

} // verus!
