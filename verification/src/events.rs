//! Events that flow between the parts of the application.
use vstd::prelude::*;

use crate::duration::Duration;
use crate::types::{EntityId, RepeatMode};

verus! {

/// Events of library scanning and updates.
#[derive(Clone, Debug)]
pub enum LibraryEvent {
    /// A scan started
    ScanStarted { folders: Vec<String> },
    /// Progress during a scan
    ScanProgress { scanned: u32, total: u32, current_file: String },
    /// A scan completed
    ScanCompleted { tracks_added: u32, tracks_updated: u32, tracks_removed: u32, duration: Duration },
    /// A scan met an error
    ScanError { path: String, error: String },
    /// A track was added to the library
    TrackAdded(EntityId),
    /// A track was updated in the library
    TrackUpdated(EntityId),
    /// A track was removed from the library
    TrackRemoved(EntityId),
    /// A library folder was added
    FolderAdded(String),
    /// A library folder was removed
    FolderRemoved(String),
    /// A file changed on disk
    FileChanged(String),
}

/// Events of the play queue.
#[derive(Clone, Debug)]
pub enum QueueEvent {
    /// The queue's contents changed
    Updated { length: usize, total_duration: Duration },
    /// The current position changed
    PositionChanged { index: usize, track_id: EntityId },
    /// A track was added
    TrackAdded { index: usize, track_id: EntityId },
    /// A track was removed
    TrackRemoved { index: usize, track_id: EntityId },
    /// The queue was cleared
    Cleared,
    /// Shuffle was turned on or off
    ShuffleChanged(bool),
    /// The repeat mode changed
    RepeatChanged(RepeatMode),
}

/// Events of playlists.
#[derive(Clone, Debug)]
pub enum PlaylistEvent {
    /// A playlist was created
    Created { id: EntityId, name: String },
    /// A playlist was renamed
    Renamed { id: EntityId, old_name: String, new_name: String },
    /// A playlist was deleted
    Deleted { id: EntityId, name: String },
    /// Tracks were added to a playlist
    TracksAdded { playlist_id: EntityId, track_ids: Vec<EntityId> },
    /// Tracks were removed from a playlist
    TracksRemoved { playlist_id: EntityId, track_ids: Vec<EntityId> },
    /// A playlist's order changed
    Reordered { playlist_id: EntityId },
    /// A playlist was imported from a file
    Imported { id: EntityId, name: String, path: String, track_count: u32 },
    /// A playlist was exported to a file
    Exported { id: EntityId, path: String },
}

/// High-level user interface actions.
#[derive(Clone, Copy, Debug, PartialEq, Eq, Structural)]
pub enum UiAction {
    // Navigation
    NavigateUp,
    NavigateDown,
    NavigateLeft,
    NavigateRight,
    PageUp,
    PageDown,
    GoToTop,
    GoToBottom,
    Select,
    Back,
    // Playback
    PlayPause,
    Stop,
    NextTrack,
    PrevTrack,
    SeekForward,
    SeekBackward,
    VolumeUp,
    VolumeDown,
    ToggleMute,
    // Views
    OpenSearch,
    CloseSearch,
    OpenQueue,
    OpenPlaylists,
    OpenSettings,
    OpenHelp,
    SwitchTab(usize),
    NextTab,
    PrevTab,
    // Actions
    AddToQueue,
    AddToPlaylist,
    RemoveFromQueue,
    RemoveFromPlaylist,
    ToggleShuffle,
    CycleRepeat,
    RefreshLibrary,
    ChangeSortField,
    ToggleSortOrder,
    // Application
    Quit,
    ForceQuit,
    Resize(u16, u16),
}

} // verus!
