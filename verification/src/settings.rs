//! The player's own settings file: library folders, interface and output,
//! with the ranges that loading keeps values in.
use vstd::prelude::*;

use crate::config::{ColorConfig, home_dir, is_default_colors, string_models};
use crate::path::{join, join_path};
use crate::text::{starts_with, str_eq, to_chars};

verus! {

/// Library settings.
#[derive(Clone, Debug)]
pub struct LibraryConfig {
    /// Folders to scan for music
    pub folders: Vec<String>,
    /// Scan the library on startup
    pub scan_on_startup: bool,
    /// Watch for file changes
    pub watch_for_changes: bool,
}

impl Default for LibraryConfig {
    fn default() -> (r: Self)
        ensures
            r.folders@.len() == 1,
            r.folders@[0]@ == "~/Music"@,
            r.scan_on_startup,
            r.watch_for_changes,
    {
        LibraryConfig {
            folders: vec!["~/Music".to_owned()],
            scan_on_startup: true,
            watch_for_changes: true,
        }
    }
}

/// Interface settings.
#[derive(Clone, Debug)]
pub struct UiConfig {
    /// Theme name (default, monochrome)
    pub theme: String,
    /// Custom colour overrides
    pub colors: ColorConfig,
    /// Show album art
    pub show_album_art: bool,
    /// Album art position (left, right)
    pub album_art_position: String,
    /// Target frames per second
    pub fps: u32,
    /// Use vim-like keybindings
    pub vim_keys: bool,
    /// Default sort field
    pub default_sort: String,
    /// Default sort order (ascending, descending)
    pub default_sort_order: String,
    /// Default library view (artists, albums, tracks, genres)
    pub default_library_view: String,
}

impl Default for UiConfig {
    fn default() -> (r: Self)
        ensures
            r.theme@ == "default"@,
            is_default_colors(r.colors),
            r.show_album_art,
            r.album_art_position@ == "left"@,
            r.fps == 60,
            r.vim_keys,
            r.default_sort@ == "artist"@,
            r.default_sort_order@ == "ascending"@,
            r.default_library_view@ == "artists"@,
    {
        UiConfig {
            theme: "default".to_owned(),
            colors: ColorConfig::default(),
            show_album_art: true,
            album_art_position: "left".to_owned(),
            fps: 60,
            vim_keys: true,
            default_sort: "artist".to_owned(),
            default_sort_order: "ascending".to_owned(),
            default_library_view: "artists".to_owned(),
        }
    }
}

/// Output settings.
#[derive(Clone, Debug)]
pub struct AudioConfig {
    /// Output device (default or a device name)
    pub output_device: String,
    /// Request exclusive access to the device
    pub exclusive_mode: bool,
}

impl Default for AudioConfig {
    fn default() -> (r: Self)
        ensures
            r.output_device@ == "default"@,
            !r.exclusive_mode,
    {
        AudioConfig { output_device: "default".to_owned(), exclusive_mode: false }
    }
}

/// `v` kept within `lo..=hi`.
pub open spec fn clamped(v: int, lo: int, hi: int) -> int {
    if v < lo {
        lo
    } else if v > hi {
        hi
    } else {
        v
    }
}

/// The frame rate kept within 1 to 240.
pub fn clamp_fps(fps: u32) -> (r: u32)
    ensures
        r == clamped(fps as int, 1, 240),
{
    if fps < 1 {
        1
    } else if fps > 240 {
        240
    } else {
        fps
    }
}

/// The buffer size kept within 64 to 65536 frames.
pub fn clamp_buffer_size(n: usize) -> (r: usize)
    ensures
        r == clamped(n as int, 64, 65536),
{
    if n < 64 {
        64
    } else if n > 65536 {
        65536
    } else {
        n
    }
}

/// Whether a resampler quality is one of `fast`, `medium` and `best`.
pub open spec fn is_known_quality(q: Seq<char>) -> bool {
    q == "fast"@ || q == "medium"@ || q == "best"@
}

/// The resampler quality, or `medium` when it is not a known one.
pub fn checked_resampler_quality(q: String) -> (r: String)
    ensures
        is_known_quality(q@) ==> r@ == q@,
        !is_known_quality(q@) ==> r@ == "medium"@,
{
    if str_eq(q.as_str(), "fast") || str_eq(q.as_str(), "medium") || str_eq(q.as_str(), "best") {
        q
    } else {
        "medium".to_owned()
    }
}

/// A library folder with a leading `~/` taken from the home directory, or
/// none when it needs one and there is none.
pub open spec fn expanded_folder(f: Seq<char>, home: Option<Seq<char>>) -> Option<Seq<char>> {
    if starts_with(f, seq!['~', '/']) {
        match home {
            Some(h) => Some(join(h, f.skip(2))),
            None => None,
        }
    } else {
        Some(f)
    }
}

/// Expands a leading `~/` of a library folder with the given home
/// directory.
pub fn expand_folder(f: &str, home: Option<&str>) -> (r: Option<String>)
    ensures
        match r {
            Some(s) => expanded_folder(f@, match home {
                Some(h) => Some(h@),
                None => None,
            }) == Some(s@),
            None => expanded_folder(f@, match home {
                Some(h) => Some(h@),
                None => None,
            }) is None,
        },
{
    let v = to_chars(f);
    if v.len() >= 2 && v[0] == '~' && v[1] == '/' {
        assert(v@.subrange(0, 2) =~= seq!['~', '/']);
        match home {
            Some(h) => {
                let rest = crate::seconds::slice_chars(&v, 2, v.len());
                assert(rest@ =~= f@.skip(2));
                let rs = crate::text::from_chars(&rest);
                Some(join_path(h, rs.as_str()))
            },
            None => None,
        }
    } else {
        assert(!starts_with(f@, seq!['~', '/'])) by {
            if starts_with(f@, seq!['~', '/']) {
                assert(f@.subrange(0, 2)[0] == f@[0]);
                assert(f@.subrange(0, 2)[1] == f@[1]);
            }
        }
        Some(crate::text::from_chars(&v))
    }
}

/// The folders expanded with the given home directory, leaving out those
/// that cannot be.
pub open spec fn expanded_folders(fs: Seq<Seq<char>>, home: Option<Seq<char>>) -> Seq<Seq<char>>
    decreases fs.len(),
{
    if fs.len() == 0 {
        seq![]
    } else {
        let before = expanded_folders(fs.drop_last(), home);
        match expanded_folder(fs.last(), home) {
            Some(x) => before.push(x),
            None => before,
        }
    }
}

/// The library folders to scan: each with `~/` taken from the user's home
/// directory, which the environment gives (those that need it are left out
/// when it gives none).
pub fn scan_folders(folders: &Vec<String>) -> (r: Vec<String>)
    ensures
        exists|h: Option<Seq<char>>|
            #[trigger] expanded_folders(string_models(folders@), h) == string_models(r@),
{
    let home = home_dir();
    let ghost hv: Option<Seq<char>> = crate::text::opt_chars(home);
    let ghost fs = string_models(folders@);
    let mut out: Vec<String> = Vec::new();
    let mut i: usize = 0;
    assert(fs.take(0) =~= Seq::<Seq<char>>::empty());
    assert(string_models(out@) =~= Seq::<Seq<char>>::empty());
    while i < folders.len()
        invariant
            i <= folders@.len(),
            fs == string_models(folders@),
            hv == crate::text::opt_chars(home),
            string_models(out@) == expanded_folders(fs.take(i as int), hv),
        decreases folders.len() - i,
    {
        let e = match &home {
            Some(h) => expand_folder(folders[i].as_str(), Some(h.as_str())),
            None => expand_folder(folders[i].as_str(), None),
        };
        assert(fs.take(i + 1).drop_last() =~= fs.take(i as int));
        assert(fs.take(i + 1).last() == folders@[i as int]@);
        let ghost before = string_models(out@);
        if let Some(s) = e {
            let ghost sv = s@;
            out.push(s);
            assert(string_models(out@) =~= before.push(sv));
        }
        i = i + 1;
    }
    assert(fs.take(i as int) =~= fs);
    out
}

} // verus!
