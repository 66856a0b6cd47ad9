//! Where Hadal keeps its files, following the XDG base directories:
//! configuration under `~/.config/hadal/`, data under
//! `~/.local/share/hadal/` and caches under `~/.cache/hadal/`.
use vstd::prelude::*;

use crate::error::Error;
use crate::path::{join, join_path};
use crate::text::{hex, push_hex_016, push_signed_decimal, push_str, signed_decimal, zero_pad};

verus! {

/// Application name used for directory naming.
pub const APP_NAME: &'static str = "hadal";

/// The paths of all Hadal files.
#[derive(Clone, Debug)]
pub struct Paths {
    /// Configuration directory: `~/.config/hadal/`
    pub config_dir: String,
    /// Main configuration file: `~/.config/hadal/config.toml`
    pub config_file: String,
    /// Keybindings configuration: `~/.config/hadal/keybindings.toml`
    pub keybindings_file: String,
    /// Data directory: `~/.local/share/hadal/`
    pub data_dir: String,
    /// SQLite database: `~/.local/share/hadal/library.db`
    pub database: String,
    /// Playlists directory: `~/.local/share/hadal/playlists/`
    pub playlists_dir: String,
    /// Cache directory: `~/.cache/hadal/`
    pub cache_dir: String,
    /// Artwork cache: `~/.cache/hadal/artwork/`
    pub artwork_cache: String,
    /// Waveform cache: `~/.cache/hadal/waveforms/`
    pub waveform_cache: String,
    /// Log file: `~/.cache/hadal/hadal.log`
    pub log_file: String,
    /// EQ state file: `~/.local/share/hadal/eq_state.toml`
    pub eq_state: String,
}

/// The paths laid out under the given configuration, data and cache base
/// directories.
pub open spec fn paths_under(
    p: Paths,
    config_base: Seq<char>,
    data_base: Seq<char>,
    cache_base: Seq<char>,
) -> bool {
    let config = join(config_base, "hadal"@);
    let data = join(data_base, "hadal"@);
    let cache = join(cache_base, "hadal"@);
    &&& p.config_dir@ == config
    &&& p.config_file@ == join(config, "config.toml"@)
    &&& p.keybindings_file@ == join(config, "keybindings.toml"@)
    &&& p.data_dir@ == data
    &&& p.database@ == join(data, "library.db"@)
    &&& p.playlists_dir@ == join(data, "playlists"@)
    &&& p.eq_state@ == join(data, "eq_state.toml"@)
    &&& p.cache_dir@ == cache
    &&& p.artwork_cache@ == join(cache, "artwork"@)
    &&& p.waveform_cache@ == join(cache, "waveforms"@)
    &&& p.log_file@ == join(cache, "hadal.log"@)
}

/// Calls `dirs::config_dir`, which looks the user's configuration directory
/// up in the environment; nothing is stated of its result.
#[verifier::external_body]
fn config_base_dir() -> Option<String> {
    dirs::config_dir().map(|p| p.to_string_lossy().into_owned())
}

/// Calls `dirs::data_dir`, which looks the user's data directory up in the
/// environment; nothing is stated of its result.
#[verifier::external_body]
fn data_base_dir() -> Option<String> {
    dirs::data_dir().map(|p| p.to_string_lossy().into_owned())
}

/// Calls `dirs::cache_dir`, which looks the user's cache directory up in
/// the environment; nothing is stated of its result.
#[verifier::external_body]
fn cache_base_dir() -> Option<String> {
    dirs::cache_dir().map(|p| p.to_string_lossy().into_owned())
}

impl Paths {
    /// The paths under the base directories that the environment gives, or
    /// the error for the first one it does not give. The directories are
    /// not created here.
    pub fn new() -> (r: Result<Paths, Error>)
        ensures
            r is Ok ==> exists|c: Seq<char>, d: Seq<char>, k: Seq<char>|
                #[trigger] paths_under(r->Ok_0, c, d, k),
            r matches Err(e) ==> e is NoConfigDir || e is NoDataDir || e is NoCacheDir,
    {
        let c = match config_base_dir() {
            Some(c) => c,
            None => return Err(Error::NoConfigDir),
        };
        let d = match data_base_dir() {
            Some(d) => d,
            None => return Err(Error::NoDataDir),
        };
        let k = match cache_base_dir() {
            Some(k) => k,
            None => return Err(Error::NoCacheDir),
        };
        let p = Paths::under(c.as_str(), d.as_str(), k.as_str());
        let r: Result<Paths, Error> = Ok(p);
        assert(paths_under(r->Ok_0, c@, d@, k@));
        r
    }

    /// The paths under the given configuration, data and cache base
    /// directories.
    pub fn under(config_base: &str, data_base: &str, cache_base: &str) -> (r: Paths)
        ensures
            paths_under(r, config_base@, data_base@, cache_base@),
    {
        let config_dir = join_path(config_base, APP_NAME);
        let data_dir = join_path(data_base, APP_NAME);
        let cache_dir = join_path(cache_base, APP_NAME);
        Paths {
            config_file: join_path(config_dir.as_str(), "config.toml"),
            keybindings_file: join_path(config_dir.as_str(), "keybindings.toml"),
            config_dir,
            database: join_path(data_dir.as_str(), "library.db"),
            playlists_dir: join_path(data_dir.as_str(), "playlists"),
            eq_state: join_path(data_dir.as_str(), "eq_state.toml"),
            data_dir,
            artwork_cache: join_path(cache_dir.as_str(), "artwork"),
            waveform_cache: join_path(cache_dir.as_str(), "waveforms"),
            log_file: join_path(cache_dir.as_str(), "hadal.log"),
            cache_dir,
        }
    }

    /// The file of a playlist: `<name>.<format>` in the playlists
    /// directory.
    pub fn playlist_file(&self, name: &str, format: &str) -> (r: String)
        ensures
            r@ == join(self.playlists_dir@, name@ + seq!['.'] + format@),
    {
        let mut f = String::new();
        push_str(&mut f, name);
        f.push('.');
        push_str(&mut f, format);
        join_path(self.playlists_dir.as_str(), f.as_str())
    }

    /// The cached artwork for a key: sixteen lowercase hexadecimal digits
    /// and `.png`, in the artwork cache.
    pub fn artwork_file(&self, cache_key: u64) -> (r: String)
        ensures
            r@ == join(self.artwork_cache@, zero_pad(hex(cache_key as nat), 16) + ".png"@),
    {
        let mut f = String::new();
        push_hex_016(&mut f, cache_key);
        push_str(&mut f, ".png");
        join_path(self.artwork_cache.as_str(), f.as_str())
    }

    /// The cached waveform of a track: `<id>.waveform` in the waveform
    /// cache.
    pub fn waveform_file(&self, track_id: i64) -> (r: String)
        ensures
            r@ == join(self.waveform_cache@, signed_decimal(track_id as int) + ".waveform"@),
    {
        let mut f = String::new();
        push_signed_decimal(&mut f, track_id);
        push_str(&mut f, ".waveform");
        join_path(self.waveform_cache.as_str(), f.as_str())
    }

    /// The directories that must exist, in the order they are created.
    pub fn directories(&self) -> (r: Vec<String>)
        ensures
            r@.map_values(|s: String| s@) == seq![
                self.config_dir@,
                self.data_dir@,
                self.playlists_dir@,
                self.cache_dir@,
                self.artwork_cache@,
                self.waveform_cache@,
            ],
    {
        let r = vec![
            self.config_dir.clone(),
            self.data_dir.clone(),
            self.playlists_dir.clone(),
            self.cache_dir.clone(),
            self.artwork_cache.clone(),
            self.waveform_cache.clone(),
        ];
        assert(r@.map_values(|s: String| s@) =~= seq![
            self.config_dir@,
            self.data_dir@,
            self.playlists_dir@,
            self.cache_dir@,
            self.artwork_cache@,
            self.waveform_cache@,
        ]);
        r
    }
}

/// Whether a cache file of the given age, in seconds, is older than
/// `max_age`; a file whose age cannot be told is kept.
pub fn cache_entry_expired(age_secs: Option<u64>, max_age: u64) -> (r: bool)
    ensures
        r == (age_secs matches Some(a) && a > max_age),
{
    match age_secs {
        Some(a) => a > max_age,
        None => false,
    }
}

} // verus!
