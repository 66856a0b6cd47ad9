//! Configuration values: defaults and the colour notation of the theme.
use vstd::prelude::*;

use crate::seconds::{index_of_char, lemma_find_char_at, slice_chars};
use crate::text::{
    chars_starts_with, ends_with, lemma_split_first, lemma_split_none, parse_u8, parse_u8_chars,
    split_char, starts_with, to_chars, to_lowercase, trim, trim_chars, unicode_lowercase,
};

verus! {

// Colours

/// Bytes that a character takes in UTF-8.
pub open spec fn char_utf8_len(c: char) -> nat {
    if (c as u32) < 0x80 {
        1
    } else if (c as u32) < 0x800 {
        2
    } else if (c as u32) < 0x10000 {
        3
    } else {
        4
    }
}

/// Bytes that a string takes in UTF-8.
pub open spec fn utf8_len(s: Seq<char>) -> nat
    decreases s.len(),
{
    if s.len() == 0 {
        0
    } else {
        utf8_len(s.drop_last()) + char_utf8_len(s.last())
    }
}

/// Whether byte offset `b` of `s` falls between two characters.
pub open spec fn is_boundary(s: Seq<char>, b: nat) -> bool {
    exists|k: int| 0 <= k <= s.len() && utf8_len(#[trigger] s.take(k)) == b
}

/// Whether a colour string, once trimmed, starts with `#` followed by six
/// bytes that byte offsets two and four cut between characters. Only then
/// can the six bytes be cut into three pairs.
pub open spec fn hex_pairs_cuttable(s: Seq<char>) -> bool {
    let t = trim(s);
    t.len() > 0 && t[0] == '#' && utf8_len(t.drop_first()) == 6 ==> is_boundary(t.drop_first(), 2)
        && is_boundary(t.drop_first(), 4)
}

/// The colours known by name, given in lowercase.
pub open spec fn named_color(n: Seq<char>) -> Option<(u8, u8, u8)> {
    if n == seq!['w', 'h', 'i', 't', 'e'] {
        Some((255, 255, 255))
    } else if n == seq!['b', 'l', 'a', 'c', 'k'] {
        Some((0, 0, 0))
    } else if n == seq!['r', 'e', 'd'] {
        Some((255, 0, 0))
    } else if n == seq!['g', 'r', 'e', 'e', 'n'] {
        Some((0, 255, 0))
    } else if n == seq!['b', 'l', 'u', 'e'] {
        Some((0, 0, 255))
    } else if n == seq!['y', 'e', 'l', 'l', 'o', 'w'] {
        Some((255, 255, 0))
    } else if n == seq!['c', 'y', 'a', 'n'] {
        Some((0, 255, 255))
    } else if n == seq!['m', 'a', 'g', 'e', 'n', 't', 'a'] {
        Some((255, 0, 255))
    } else if n == seq!['g', 'r', 'a', 'y'] || n == seq!['g', 'r', 'e', 'y'] {
        Some((128, 128, 128))
    } else if n == seq!['l', 'i', 'g', 'h', 't', 'g', 'r', 'a', 'y'] || n == seq![
        'l',
        'i',
        'g',
        'h',
        't',
        'g',
        'r',
        'e',
        'y',
    ] {
        Some((192, 192, 192))
    } else if n == seq!['d', 'a', 'r', 'k', 'g', 'r', 'a', 'y'] || n == seq![
        'd',
        'a',
        'r',
        'k',
        'g',
        'r',
        'e',
        'y',
    ] {
        Some((64, 64, 64))
    } else {
        None
    }
}

/// `rgb(`
pub open spec fn rgb_open() -> Seq<char> {
    seq!['r', 'g', 'b', '(']
}

/// Three optional bytes, when all are there.
pub open spec fn all_three(
    r: Option<u8>,
    g: Option<u8>,
    b: Option<u8>,
) -> Option<(u8, u8, u8)> {
    match (r, g, b) {
        (Some(x), Some(y), Some(z)) => Some((x, y, z)),
        _ => None,
    }
}

/// The colour a string names, as `parse_color` reads it. The string is
/// trimmed first. `#` followed by six bytes is read as three hexadecimal
/// pairs, and gives no colour if a pair is not a number. `rgb(` .. `)` with
/// three comma-separated parts is read as three trimmed decimal bytes, and
/// gives no colour if one is not a byte. Anything else is looked up by name
/// after lowercasing.
pub open spec fn color_of(s: Seq<char>) -> Option<(u8, u8, u8)> {
    let t = trim(s);
    let h = t.drop_first();
    let inner = t.subrange(4, t.len() - 1);
    let parts = split_char(inner, ',');
    if t.len() > 0 && t[0] == '#' && utf8_len(h) == 6 {
        if h.len() == 6 {
            all_three(
                parse_u8(h.subrange(0, 2), 16),
                parse_u8(h.subrange(2, 4), 16),
                parse_u8(h.subrange(4, 6), 16),
            )
        } else {
            None
        }
    } else if starts_with(t, rgb_open()) && ends_with(t, seq![')']) && parts.len() == 3 {
        all_three(
            parse_u8(trim(parts[0]), 10),
            parse_u8(trim(parts[1]), 10),
            parse_u8(trim(parts[2]), 10),
        )
    } else {
        named_color(unicode_lowercase(t))
    }
}

/// The UTF-8 length of a text is at least its number of characters, with equality only for ASCII.
proof fn lemma_utf8_len_at_least(s: Seq<char>)
    ensures
        utf8_len(s) >= s.len(),
        utf8_len(s) == s.len() ==> forall|k: int| 0 <= k < s.len() ==> char_utf8_len(#[trigger] s[k]) == 1,
    decreases s.len(),
{
    if s.len() > 0 {
        lemma_utf8_len_at_least(s.drop_last());
        assert forall|k: int| 0 <= k < s.len() && utf8_len(s) == s.len() implies char_utf8_len(
            #[trigger] s[k],
        ) == 1 by {
            if k < s.len() - 1 {
                assert(s[k] == s.drop_last()[k]);
            }
        }
    }
}

/// Whether `v` takes exactly six bytes in UTF-8.
fn utf8_len_is_six(v: &[char]) -> (r: bool)
    ensures
        r == (utf8_len(v@) == 6),
{
    let mut acc: usize = 0;
    let mut i: usize = 0;
    assert(v@.take(0) =~= Seq::<char>::empty());
    while i < v.len()
        invariant
            i <= v@.len(),
            acc <= 7,
            acc == if utf8_len(v@.take(i as int)) > 7 {
                7
            } else {
                utf8_len(v@.take(i as int))
            },
        decreases v.len() - i,
    {
        assert(v@.take(i + 1).drop_last() =~= v@.take(i as int));
        assert(v@.take(i + 1).last() == v@[i as int]);
        let c = v[i] as u32;
        let l: usize = if c < 0x80 {
            1
        } else if c < 0x800 {
            2
        } else if c < 0x10000 {
            3
        } else {
            4
        };
        acc = if acc + l > 7 {
            7
        } else {
            acc + l
        };
        i = i + 1;
    }
    proof {
        assert(v@.take(i as int) =~= v@);
    }
    acc == 6
}

/// The UTF-8 length of a prefix grows with the prefix.
pub proof fn lemma_utf8_len_mono(s: Seq<char>, i: int, k: int)
    requires
        0 <= i <= k <= s.len(),
    ensures
        utf8_len(s.take(i)) <= utf8_len(s.take(k)),
    decreases k - i,
{
    if i < k {
        assert(s.take(k).drop_last() =~= s.take(k - 1));
        lemma_utf8_len_mono(s, i, k - 1);
    }
}

/// Whether byte offsets two and four of `h` fall between characters.
fn pair_boundaries(h: &[char]) -> (r: bool)
    ensures
        r == (is_boundary(h@, 2) && is_boundary(h@, 4)),
{
    let mut acc: usize = 0;
    let mut at2 = false;
    let mut at4 = false;
    let mut i: usize = 0;
    assert(h@.take(0) =~= Seq::<char>::empty());
    while i < h.len() && acc <= 4
        invariant
            i <= h@.len(),
            acc == utf8_len(h@.take(i as int)),
            acc <= 8,
            at2 == exists|k: int| 0 <= k < i && utf8_len(#[trigger] h@.take(k)) == 2,
            at4 == exists|k: int| 0 <= k < i && utf8_len(#[trigger] h@.take(k)) == 4,
        decreases h.len() - i,
    {
        if acc == 2 {
            at2 = true;
        }
        if acc == 4 {
            at4 = true;
        }
        assert(h@.take(i + 1).drop_last() =~= h@.take(i as int));
        assert(h@.take(i + 1).last() == h@[i as int]);
        let c = h[i] as u32;
        let l: usize = if c < 0x80 {
            1
        } else if c < 0x800 {
            2
        } else if c < 0x10000 {
            3
        } else {
            4
        };
        acc = acc + l;
        i = i + 1;
    }
    if acc == 2 {
        at2 = true;
    }
    if acc == 4 {
        at4 = true;
    }
    proof {
        if i < h@.len() {
            assert forall|k: int| i < k <= h@.len() implies utf8_len(#[trigger] h@.take(k)) > 4 by {
                lemma_utf8_len_mono(h@, i as int, k);
            }
        }
    }
    at2 && at4
}

/// Whether `parse_color` can read `s`: false only for a `#` followed by
/// six bytes that cannot be cut into three pairs.
pub fn color_is_readable(s: &str) -> (r: bool)
    ensures
        r == hex_pairs_cuttable(s@),
{
    let sv = to_chars(s);
    let t = trim_chars(&sv);
    let n = t.len();
    if n > 0 && t[0] == '#' {
        let hv = slice_chars(&t, 1, n);
        assert(hv@ =~= t@.drop_first());
        if utf8_len_is_six(&hv) {
            return pair_boundaries(&hv);
        }
    }
    true
}

/// Parses a colour: `#RRGGBB`, `rgb(r, g, b)` or a name such as `white` or
/// `darkgrey`.
pub fn parse_color(s: &str) -> (r: Option<(u8, u8, u8)>)
    requires
        hex_pairs_cuttable(s@),
    ensures
        r == color_of(s@),
{
    let sv = to_chars(s);
    let t = trim_chars(&sv);
    let n = t.len();
    let ghost h = t@.drop_first();
    if n > 0 && t[0] == '#' {
        let hv = slice_chars(&t, 1, n);
        assert(hv@ =~= h);
        if utf8_len_is_six(&hv) {
            if hv.len() == 6 {
                let r = parse_u8_chars(&hv, 0, 2, 16);
                let g = parse_u8_chars(&hv, 2, 4, 16);
                let b = parse_u8_chars(&hv, 4, 6, 16);
                return match (r, g, b) {
                    (Some(x), Some(y), Some(z)) => Some((x, y, z)),
                    _ => None,
                };
            }
            return None;
        }
    }
    proof {
        reveal_strlit("rgb(");
        assert("rgb("@ =~= rgb_open());
    }
    if chars_starts_with(&t, "rgb(") && n > 0 && t[n - 1] == ')' {
        assert(ends_with(t@, seq![')'])) by {
            assert(t@.subrange(n - 1, n as int) =~= seq![')']);
        }
        assert(t@.subrange(0, 4)[3] == '(');
        let inner = slice_chars(&t, 4, n - 1);
        match rgb_parts(&inner) {
            Some((p0, p1, p2)) => {
                let a = trim_chars(&p0);
                let b = trim_chars(&p1);
                let c = trim_chars(&p2);
                let x = parse_u8_chars(&a, 0, a.len(), 10);
                let y = parse_u8_chars(&b, 0, b.len(), 10);
                let z = parse_u8_chars(&c, 0, c.len(), 10);
                assert(a@.subrange(0, a@.len() as int) =~= a@);
                assert(b@.subrange(0, b@.len() as int) =~= b@);
                assert(c@.subrange(0, c@.len() as int) =~= c@);
                return match (x, y, z) {
                    (Some(x), Some(y), Some(z)) => Some((x, y, z)),
                    _ => None,
                };
            },
            None => {},
        }
    } else {
        assert(!(starts_with(t@, rgb_open()) && ends_with(t@, seq![')']))) by {
            if starts_with(t@, rgb_open()) && ends_with(t@, seq![')']) {
                assert(t@.subrange(n - 1, n as int)[0] == t@[n - 1]);
            }
        }
    }
    let ts = crate::text::from_chars(&t);
    let lower = to_lowercase(ts.as_str());
    named_color_exec(&lower)
}

/// The piece of `v` from `from` up to the next comma (or the end), and
/// where it stops.
fn next_piece(v: &Vec<char>, from: usize) -> (r: (Vec<char>, usize))
    requires
        from <= v@.len(),
    ensures
        from <= r.1 <= v@.len(),
        r.0@ == v@.subrange(from as int, r.1 as int),
        r.1 < v@.len() ==> split_char(v@.skip(from as int), ',') == seq![r.0@] + split_char(
            v@.skip(r.1 + 1),
            ',',
        ),
        r.1 == v@.len() ==> split_char(v@.skip(from as int), ',') == seq![r.0@],
{
    let j = index_of_char(v, ',', from);
    let piece = slice_chars(v, from, j);
    proof {
        let t = v@.skip(from as int);
        assert forall|k: int| 0 <= k < piece@.len() implies piece@[k] != ',' by {
            assert(piece@[k] == v@[from + k]);
        }
        if j < v@.len() {
            assert(t =~= piece@ + seq![','] + v@.skip(j + 1));
            lemma_split_first(piece@, v@.skip(j + 1), ',');
        } else {
            assert(t =~= piece@);
            lemma_split_none(piece@, ',');
        }
    }
    (piece, j)
}

/// The three comma-separated parts of `v`, when there are exactly three.
fn rgb_parts(v: &Vec<char>) -> (r: Option<(Vec<char>, Vec<char>, Vec<char>)>)
    ensures
        match r {
            Some((a, b, c)) => split_char(v@, ',') == seq![a@, b@, c@],
            None => split_char(v@, ',').len() != 3,
        },
{
    let n = v.len();
    assert(v@.skip(0) =~= v@);
    let (a, j1) = next_piece(v, 0);
    if j1 == n {
        return None;
    }
    let (b, j2) = next_piece(v, j1 + 1);
    if j2 == n {
        return None;
    }
    let (c, j3) = next_piece(v, j2 + 1);
    if j3 < n {
        assert(split_char(v@, ',').len() >= 4);
        return None;
    }
    assert(split_char(v@, ',') =~= seq![a@, b@, c@]);
    Some((a, b, c))
}

/// Looks a lowercase colour name up.
fn named_color_exec(n: &String) -> (r: Option<(u8, u8, u8)>)
    ensures
        r == named_color(n@),
{
    proof {
        reveal_strlit("white");
        reveal_strlit("black");
        reveal_strlit("red");
        reveal_strlit("green");
        reveal_strlit("blue");
        reveal_strlit("yellow");
        reveal_strlit("cyan");
        reveal_strlit("magenta");
        reveal_strlit("gray");
        reveal_strlit("grey");
        reveal_strlit("lightgray");
        reveal_strlit("lightgrey");
        reveal_strlit("darkgray");
        reveal_strlit("darkgrey");
        assert("white"@ =~= seq!['w', 'h', 'i', 't', 'e']);
        assert("black"@ =~= seq!['b', 'l', 'a', 'c', 'k']);
        assert("red"@ =~= seq!['r', 'e', 'd']);
        assert("green"@ =~= seq!['g', 'r', 'e', 'e', 'n']);
        assert("blue"@ =~= seq!['b', 'l', 'u', 'e']);
        assert("yellow"@ =~= seq!['y', 'e', 'l', 'l', 'o', 'w']);
        assert("cyan"@ =~= seq!['c', 'y', 'a', 'n']);
        assert("magenta"@ =~= seq!['m', 'a', 'g', 'e', 'n', 't', 'a']);
        assert("gray"@ =~= seq!['g', 'r', 'a', 'y']);
        assert("grey"@ =~= seq!['g', 'r', 'e', 'y']);
        assert("lightgray"@ =~= seq!['l', 'i', 'g', 'h', 't', 'g', 'r', 'a', 'y']);
        assert("lightgrey"@ =~= seq!['l', 'i', 'g', 'h', 't', 'g', 'r', 'e', 'y']);
        assert("darkgray"@ =~= seq!['d', 'a', 'r', 'k', 'g', 'r', 'a', 'y']);
        assert("darkgrey"@ =~= seq!['d', 'a', 'r', 'k', 'g', 'r', 'e', 'y']);
    }
    let s = n.as_str();
    if crate::text::str_eq(s, "white") {
        Some((255, 255, 255))
    } else if crate::text::str_eq(s, "black") {
        Some((0, 0, 0))
    } else if crate::text::str_eq(s, "red") {
        Some((255, 0, 0))
    } else if crate::text::str_eq(s, "green") {
        Some((0, 255, 0))
    } else if crate::text::str_eq(s, "blue") {
        Some((0, 0, 255))
    } else if crate::text::str_eq(s, "yellow") {
        Some((255, 255, 0))
    } else if crate::text::str_eq(s, "cyan") {
        Some((0, 255, 255))
    } else if crate::text::str_eq(s, "magenta") {
        Some((255, 0, 255))
    } else if crate::text::str_eq(s, "gray") || crate::text::str_eq(s, "grey") {
        Some((128, 128, 128))
    } else if crate::text::str_eq(s, "lightgray") || crate::text::str_eq(s, "lightgrey") {
        Some((192, 192, 192))
    } else if crate::text::str_eq(s, "darkgray") || crate::text::str_eq(s, "darkgrey") {
        Some((64, 64, 64))
    } else {
        None
    }
}


// Defaults

/// General application settings.
#[derive(Clone, Debug)]
pub struct GeneralConfig {
    /// Check for updates on startup.
    pub check_updates: bool,
    /// Show notifications.
    pub notifications: bool,
    /// Log level: error, warn, info, debug, trace.
    pub log_level: String,
}

impl Default for GeneralConfig {
    fn default() -> (r: Self)
        ensures
            !r.check_updates,
            r.notifications,
            r.log_level@ == "info"@,
    {
        GeneralConfig { check_updates: false, notifications: true, log_level: "info".to_owned() }
    }
}

/// User interface settings.
#[derive(Clone, Debug)]
pub struct UiConfig {
    /// Color theme name.
    pub theme: String,
    /// Custom colors (override theme).
    pub colors: ColorConfig,
    /// Use vim-like keybindings (hjkl navigation).
    pub vim_keys: bool,
    /// Show album art.
    pub show_album_art: bool,
    /// Album art size (small, medium, large).
    pub album_art_size: String,
    /// Enable visualizer.
    pub visualizer_enabled: bool,
    /// Visualizer mode: spectrum, waveform, vu_meter, stereo, combined.
    pub visualizer_mode: String,
    /// Number of spectrum bands.
    pub spectrum_bands: u16,
    /// Show track duration in library.
    pub show_duration: bool,
    /// Show bitrate in status bar.
    pub show_bitrate: bool,
    /// Date format for display.
    pub date_format: String,
    /// Time format for display.
    pub time_format: String,
}
impl Default for UiConfig {
    fn default() -> (r: Self)
        ensures
            r.theme@ == "default"@,
            r.vim_keys,
            r.show_album_art,
            r.album_art_size@ == "medium"@,
            r.visualizer_enabled,
            r.visualizer_mode@ == "spectrum"@,
            r.spectrum_bands == 64,
            r.show_duration,
            r.show_bitrate,
            r.date_format@ == "%Y-%m-%d"@,
            r.time_format@ == "%H:%M"@,
            is_default_colors(r.colors),
    {
        UiConfig {
            theme: "default".to_owned(),
            colors: ColorConfig::default(),
            vim_keys: true,
            show_album_art: true,
            album_art_size: "medium".to_owned(),
            visualizer_enabled: true,
            visualizer_mode: "spectrum".to_owned(),
            spectrum_bands: 64,
            show_duration: true,
            show_bitrate: true,
            date_format: "%Y-%m-%d".to_owned(),
            time_format: "%H:%M".to_owned(),
        }
    }
}

/// Colour configuration.
///
/// Colours are hex strings, "#RRGGBB", or "rgb(r,g,b)"; an empty string
/// keeps the theme's colour.
#[derive(Clone, Debug)]
pub struct ColorConfig {
    /// Primary accent color (light blue default).
    pub primary: String,
    /// Secondary accent color (slate default).
    pub secondary: String,
    /// Text color (white default).
    pub text: String,
    /// Muted/dimmed text color.
    pub text_muted: String,
    /// Border color.
    pub border: String,
    /// Focused border color.
    pub border_focused: String,
    /// Selection/highlight background.
    pub selection: String,
    /// Currently playing indicator.
    pub playing: String,
    /// Error color.
    pub error: String,
    /// Success color.
    pub success: String,
    /// Warning color.
    pub warning: String,
    /// Spectrum bar color.
    pub spectrum: String,
    /// Spectrum peak color.
    pub spectrum_peak: String,
    /// Waveform color.
    pub waveform: String,
    /// VU meter color.
    pub vu_meter: String,
    /// VU meter peak color.
    pub vu_peak: String,
    /// EQ positive gain color.
    pub eq_positive: String,
    /// EQ negative gain color.
    pub eq_negative: String,
}

/// Whether every colour has its default value.
pub open spec fn is_default_colors(c: ColorConfig) -> bool {
    &&& c.primary@ == "#87CEEB"@
    &&& c.secondary@ == "#4A5568"@
    &&& c.text@ == "#E5E5E5"@
    &&& c.text_muted@ == "#6B7280"@
    &&& c.border@ == "#374151"@
    &&& c.border_focused@ == "#87CEEB"@
    &&& c.selection@ == "#1F2937"@
    &&& c.playing@ == "#87CEEB"@
    &&& c.error@ == "#EF4444"@
    &&& c.success@ == "#10B981"@
    &&& c.warning@ == "#F59E0B"@
    &&& c.spectrum@ == "#87CEEB"@
    &&& c.spectrum_peak@ == "#E5E5E5"@
    &&& c.waveform@ == "#87CEEB"@
    &&& c.vu_meter@ == "#10B981"@
    &&& c.vu_peak@ == "#E5E5E5"@
    &&& c.eq_positive@ == "#10B981"@
    &&& c.eq_negative@ == "#EF4444"@
}

impl Default for ColorConfig {
    fn default() -> (r: Self)
        ensures
            is_default_colors(r),
    {
        ColorConfig {
            primary: "#87CEEB".to_owned(),
            secondary: "#4A5568".to_owned(),
            text: "#E5E5E5".to_owned(),
            text_muted: "#6B7280".to_owned(),
            border: "#374151".to_owned(),
            border_focused: "#87CEEB".to_owned(),
            selection: "#1F2937".to_owned(),
            playing: "#87CEEB".to_owned(),
            error: "#EF4444".to_owned(),
            success: "#10B981".to_owned(),
            warning: "#F59E0B".to_owned(),
            spectrum: "#87CEEB".to_owned(),
            spectrum_peak: "#E5E5E5".to_owned(),
            waveform: "#87CEEB".to_owned(),
            vu_meter: "#10B981".to_owned(),
            vu_peak: "#E5E5E5".to_owned(),
            eq_positive: "#10B981".to_owned(),
            eq_negative: "#EF4444".to_owned(),
        }
    }
}

/// Library settings.
#[derive(Clone, Debug)]
pub struct LibraryConfig {
    /// Music directories to scan.
    pub music_dirs: Vec<String>,
    /// Watch directories for changes.
    pub watch_dirs: bool,
    /// Scan subdirectories.
    pub recursive: bool,
    /// File extensions to include.
    pub extensions: Vec<String>,
    /// Ignore patterns (glob).
    pub ignore_patterns: Vec<String>,
    /// Sort order: artist, album, title, year, date_added.
    pub default_sort: String,
    /// Sort direction: asc, desc.
    pub sort_direction: String,
}

/// The strings of a vector, by their characters.
pub open spec fn string_models(v: Seq<String>) -> Seq<Seq<char>> {
    v.map_values(|s: String| s@)
}

/// The audio file extensions the library scans by default.
pub open spec fn default_extensions() -> Seq<Seq<char>> {
    seq![
        "flac"@,
        "mp3"@,
        "ogg"@,
        "opus"@,
        "m4a"@,
        "wav"@,
        "aiff"@,
        "aif"@,
        "wv"@,
        "ape"@,
    ]
}

/// Calls `dirs::audio_dir`, which looks the user's music directory up in
/// the environment; nothing is stated of its result.
#[verifier::external_body]
fn audio_dir() -> Option<String> {
    dirs::audio_dir().map(|p| p.to_string_lossy().into_owned())
}

/// Calls `dirs::home_dir`, which looks the user's home directory up in the
/// environment; nothing is stated of its result.
#[verifier::external_body]
pub(crate) fn home_dir() -> Option<String> {
    dirs::home_dir().map(|p| p.to_string_lossy().into_owned())
}

impl LibraryConfig {
    /// The default settings with the given music directory, or with none
    /// when it is empty.
    pub fn from_music_dir(music_dir: String) -> (r: Self)
        ensures
            r.music_dirs@.len() == if music_dir@.len() == 0 {
                0int
            } else {
                1int
            },
            music_dir@.len() > 0 ==> string_models(r.music_dirs@) == seq![music_dir@],
            r.watch_dirs,
            r.recursive,
            string_models(r.extensions@) == default_extensions(),
            string_models(r.ignore_patterns@) == seq![".*"@, "_*"@],
            r.default_sort@ == "artist"@,
            r.sort_direction@ == "asc"@,
    {
        let mut music_dirs: Vec<String> = Vec::new();
        if music_dir.as_str().unicode_len() > 0 {
            music_dirs.push(music_dir);
        }
        let extensions: Vec<String> = vec![
            "flac".to_owned(),
            "mp3".to_owned(),
            "ogg".to_owned(),
            "opus".to_owned(),
            "m4a".to_owned(),
            "wav".to_owned(),
            "aiff".to_owned(),
            "aif".to_owned(),
            "wv".to_owned(),
            "ape".to_owned(),
        ];
        let ignore_patterns: Vec<String> = vec![".*".to_owned(), "_*".to_owned()];
        let r = LibraryConfig {
            music_dirs,
            watch_dirs: true,
            recursive: true,
            extensions,
            ignore_patterns,
            default_sort: "artist".to_owned(),
            sort_direction: "asc".to_owned(),
        };
        assert(string_models(r.extensions@) =~= default_extensions());
        assert(string_models(r.ignore_patterns@) =~= seq![".*"@, "_*"@]);
        assert(music_dir@.len() > 0 ==> string_models(r.music_dirs@) =~= seq![music_dir@]);
        r
    }
}

impl Default for LibraryConfig {
    /// The music directory is the user's audio directory, or `Music` in
    /// the home directory, as the environment gives them.
    fn default() -> (r: Self)
        ensures
            r.music_dirs@.len() <= 1,
            r.watch_dirs,
            r.recursive,
            string_models(r.extensions@) == default_extensions(),
            string_models(r.ignore_patterns@) == seq![".*"@, "_*"@],
            r.default_sort@ == "artist"@,
            r.sort_direction@ == "asc"@,
    {
        let music_dir = match audio_dir() {
            Some(d) => d,
            None => match home_dir() {
                Some(h) => crate::path::join_path(h.as_str(), "Music"),
                None => String::new(),
            },
        };
        LibraryConfig::from_music_dir(music_dir)
    }
}

/// Keybinding configuration.
#[derive(Clone, Debug)]
pub struct KeyConfig {
    /// Quit application.
    pub quit: String,
    /// Play/pause toggle.
    pub play_pause: String,
    /// Stop playback.
    pub stop: String,
    /// Next track.
    pub next: String,
    /// Previous track.
    pub previous: String,
    /// Seek forward.
    pub seek_forward: String,
    /// Seek backward.
    pub seek_backward: String,
    /// Volume up.
    pub volume_up: String,
    /// Volume down.
    pub volume_down: String,
    /// Toggle mute.
    pub mute: String,
    /// Toggle shuffle.
    pub shuffle: String,
    /// Cycle repeat mode.
    pub repeat: String,
    /// Open search.
    pub search: String,
    /// Show help.
    pub help: String,
    /// Navigate to library.
    pub goto_library: String,
    /// Navigate to queue.
    pub goto_queue: String,
    /// Navigate to playlists.
    pub goto_playlists: String,
    /// Navigate to equalizer.
    pub goto_equalizer: String,
    /// Navigate to visualizer.
    pub goto_visualizer: String,
}
impl Default for KeyConfig {
    fn default() -> (r: Self)
        ensures
            r.quit@ == "q"@,
            r.play_pause@ == "space"@,
            r.stop@ == "s"@,
            r.next@ == "n"@,
            r.previous@ == "p"@,
            r.seek_forward@ == "l"@,
            r.seek_backward@ == "h"@,
            r.volume_up@ == "+"@,
            r.volume_down@ == "-"@,
            r.mute@ == "m"@,
            r.shuffle@ == "z"@,
            r.repeat@ == "r"@,
            r.search@ == "/"@,
            r.help@ == "?"@,
            r.goto_library@ == "1"@,
            r.goto_queue@ == "2"@,
            r.goto_playlists@ == "3"@,
            r.goto_equalizer@ == "e"@,
            r.goto_visualizer@ == "v"@,
    {
        KeyConfig {
            quit: "q".to_owned(),
            play_pause: "space".to_owned(),
            stop: "s".to_owned(),
            next: "n".to_owned(),
            previous: "p".to_owned(),
            seek_forward: "l".to_owned(),
            seek_backward: "h".to_owned(),
            volume_up: "+".to_owned(),
            volume_down: "-".to_owned(),
            mute: "m".to_owned(),
            shuffle: "z".to_owned(),
            repeat: "r".to_owned(),
            search: "/".to_owned(),
            help: "?".to_owned(),
            goto_library: "1".to_owned(),
            goto_queue: "2".to_owned(),
            goto_playlists: "3".to_owned(),
            goto_equalizer: "e".to_owned(),
            goto_visualizer: "v".to_owned(),
        }
    }
}

} // verus!
