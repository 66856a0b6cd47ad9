//! Verified core of the Hadal music player: library types, the play queue,
//! M3U8 playlists, configuration values and the user-interface state machine.

pub mod audio;
pub mod config;
pub mod controller;
pub mod display;
pub mod dsp;
pub mod duration;
pub mod events;
pub mod error;
pub mod library;
pub mod m3u8;
pub mod path;
pub mod paths;
pub mod playlist;
pub mod queue;
pub mod seconds;
pub mod settings;
pub mod text;
pub mod tui;
pub mod types;
