//! The interface's decisions: how each action changes the interface state,
//! and which outside work (database, player, playlists) it asks for. The
//! event loop performs that work and hands the results back.
use vstd::prelude::*;

use crate::audio::PlayerState;
use crate::duration::Duration;
use crate::queue::{
    distinct_ids, ids_of, item_at as queue_item_at, jump_state, next_state, next_stops, previous_state,
    shuffled, unshuffled, PlayQueue, QueueItem, QueueModel,
};
use crate::tui::{
    Action, column_down, column_select, column_page_down, column_page_up, column_scrolled, column_up, ColumnState,
    InputMode, LibraryState, PlaylistViewState, QueueViewState, SearchState, ViewId,
};
use crate::types::{repeat_cycle, AudioFormat, PlayStatus, RepeatMode};
use crate::library::{AlbumRow, ArtistRow, TrackRow};
use crate::display::{build_format, track_format};
use crate::path::{join, join_path};
use crate::playlist::Playlist;
use crate::text::{push_str, str_eq};

verus! {

/// Rows a list shows at once: the page size and the scrolling window.
pub const PAGE_ROWS: usize = 20;

/// Number of equalizer bands.
pub const EQ_BANDS: usize = 10;

// State

/// What the now-playing panel shows. (The volume, a fraction, and the
/// decoded artwork live with the event loop.)
#[derive(Clone, Debug)]
pub struct PlaybackState {
    pub status: PlayStatus,
    pub current_track: Option<TrackRow>,
    pub source_format: Option<AudioFormat>,
    pub output_format: Option<AudioFormat>,
    pub position: Duration,
    pub duration: Duration,
    pub muted: bool,
    pub shuffle: bool,
    pub repeat: RepeatMode,
    /// Resolved artist name of the current track
    pub artist_name: Option<String>,
    /// Resolved album title of the current track
    pub album_title: Option<String>,
    /// Cached artwork file of the current track's album
    pub artwork_path: Option<String>,
}

/// The equalizer view's selection. (The band gains are fractions and live
/// with the event loop.)
#[derive(Clone, Copy, Debug, Default, PartialEq, Eq, Structural)]
pub struct EqSelection {
    pub selected_band: usize,
    pub bypassed: bool,
}

/// The interface state that decisions read and change.
#[derive(Debug)]
pub struct AppState {
    pub active_view: ViewId,
    pub input_mode: InputMode,
    pub library: LibraryState,
    pub playback: PlaybackState,
    pub play_queue: PlayQueue,
    pub queue_view: QueueViewState,
    pub search: SearchState,
    pub eq: EqSelection,
    pub playlist_view: PlaylistViewState,
    pub running: bool,
}

impl AppState {
    /// The state the decisions keep: a well-formed queue and a library
    /// focus on one of the three columns.
    pub open spec fn wf(&self) -> bool {
        &&& self.play_queue.wf()
        &&& self.library.depth < 3
    }
}

/// Whether a playback state is the one shown before anything plays.
pub open spec fn is_idle_playback(p: PlaybackState) -> bool {
    &&& p.status == PlayStatus::Stopped
    &&& p.current_track is None
    &&& p.source_format is None
    &&& p.output_format is None
    &&& p.position@ == (0u64, 0u32)
    &&& p.duration@ == (0u64, 0u32)
    &&& !p.muted
    &&& !p.shuffle
    &&& p.repeat == RepeatMode::Off
    &&& p.artist_name is None
    &&& p.album_title is None
    &&& p.artwork_path is None
}

impl PlaybackState {
    /// Nothing playing, nothing shown.
    pub fn new() -> (r: Self)
        ensures
            is_idle_playback(r),
    {
        PlaybackState {
            status: PlayStatus::Stopped,
            current_track: None,
            source_format: None,
            output_format: None,
            position: Duration::zero(),
            duration: Duration::zero(),
            muted: false,
            shuffle: false,
            repeat: RepeatMode::Off,
            artist_name: None,
            album_title: None,
            artwork_path: None,
        }
    }
}

/// Whether a column is at its initial place.
pub open spec fn is_initial_column(c: ColumnState) -> bool {
    c.selected == 0 && c.offset == 0
}

impl AppState {
    /// The state at start: the library view in normal mode, nothing loaded,
    /// an empty queue, running.
    pub fn new() -> (r: Self)
        ensures
            r.wf(),
            r.active_view == ViewId::Library,
            r.input_mode == InputMode::Normal,
            r.library.depth == 0,
            forall|i: int| 0 <= i < 3 ==> is_initial_column(#[trigger] r.library.columns[i]),
            r.library.artists@.len() == 0,
            r.library.albums@.len() == 0,
            r.library.tracks@.len() == 0,
            r.library.filter_artist_id is None,
            r.library.filter_album_id is None,
            is_idle_playback(r.playback),
            r.play_queue@.items.len() == 0,
            r.play_queue@.position == 0,
            !r.play_queue@.shuffle,
            r.play_queue@.repeat == RepeatMode::Off,
            is_initial_column(r.queue_view.column),
            r.search.query@.len() == 0,
            r.search.cursor == 0,
            r.search.results@.len() == 0,
            is_initial_column(r.search.column),
            !r.search.active,
            r.eq == (EqSelection { selected_band: 0, bypassed: false }),
            is_initial_column(r.playlist_view.list_column),
            is_initial_column(r.playlist_view.track_column),
            r.playlist_view.depth == 0,
            r.playlist_view.playlists@.len() == 0,
            r.playlist_view.tracks@.len() == 0,
            !r.playlist_view.creating,
            r.playlist_view.name_buffer@.len() == 0,
            r.running,
    {
        let start = ColumnState { selected: 0, offset: 0 };
        AppState {
            active_view: ViewId::Library,
            input_mode: InputMode::Normal,
            library: LibraryState {
                depth: 0,
                columns: [start, start, start],
                artists: Vec::new(),
                albums: Vec::new(),
                tracks: Vec::new(),
                filter_artist_id: None,
                filter_album_id: None,
            },
            playback: PlaybackState::new(),
            play_queue: PlayQueue::new(),
            queue_view: QueueViewState { column: start },
            search: SearchState {
                query: String::new(),
                cursor: 0,
                results: Vec::new(),
                column: start,
                active: false,
            },
            eq: EqSelection { selected_band: 0, bypassed: false },
            playlist_view: PlaylistViewState {
                list_column: start,
                track_column: start,
                depth: 0,
                playlists: Vec::new(),
                tracks: Vec::new(),
                creating: false,
                name_buffer: String::new(),
            },
            running: true,
        }
    }
}

// Navigation

/// A move of the selection in a list.
#[derive(Clone, Copy, Debug, PartialEq, Eq, Structural)]
pub enum Motion {
    Up,
    Down,
    Top,
    Bottom,
    PageUp,
    PageDown,
}

/// A column after a motion over `total` items. With `scroll`, single steps
/// also bring the selection into the visible rows.
pub open spec fn column_moved(c: ColumnState, m: Motion, total: usize, scroll: bool) -> ColumnState {
    match m {
        Motion::Up => if scroll {
            column_scrolled(column_up(c, total), PAGE_ROWS)
        } else {
            column_up(c, total)
        },
        Motion::Down => if scroll {
            column_scrolled(column_down(c, total), PAGE_ROWS)
        } else {
            column_down(c, total)
        },
        Motion::Top => ColumnState { selected: 0, ..c },
        Motion::Bottom => if total > 0 {
            ColumnState { selected: (total - 1) as usize, ..c }
        } else {
            c
        },
        Motion::PageUp => column_page_up(c, PAGE_ROWS),
        Motion::PageDown => column_page_down(c, total, PAGE_ROWS),
    }
}

/// A column whose selection and offset are a page away from the largest
/// index: every motion on it stays within the index range.
pub open spec fn column_fits(c: ColumnState) -> bool {
    c.selected + PAGE_ROWS <= usize::MAX && c.offset + PAGE_ROWS <= usize::MAX
}

/// The number of items in a library column.
pub open spec fn library_len(l: LibraryState, depth: usize) -> usize {
    match depth {
        0 => l.artists.len(),
        1 => l.albums.len(),
        2 => l.tracks.len(),
        _ => 0,
    }
}

/// The list that the arrow keys move in the active view, if any, fits.
pub open spec fn focus_fits(s: AppState) -> bool {
    match s.active_view {
        ViewId::Library => column_fits(s.library.columns[s.library.depth as int]),
        ViewId::Queue => column_fits(s.queue_view.column),
        ViewId::Playlists => if s.playlist_view.depth == 0 {
            column_fits(s.playlist_view.list_column)
        } else {
            column_fits(s.playlist_view.track_column)
        },
        ViewId::Search => column_fits(s.search.column),
        _ => true,
    }
}

/// `new` is `old` with library column `d` replaced by `c`.
pub open spec fn library_column_replaced(old: AppState, new: AppState, d: int, c: ColumnState) -> bool {
    &&& new.library.columns@ == old.library.columns@.update(d, c)
    &&& new == (AppState { library: LibraryState { columns: new.library.columns, ..old.library }, ..old })
}

/// `new` is `old` after a motion in the list of the active view: the
/// focused library column, the queue, the focused playlists pane, or the
/// search results (single steps only, while the search is open).
pub open spec fn navigated(old: AppState, new: AppState, m: Motion) -> bool {
    match old.active_view {
        ViewId::Library => {
            let d = old.library.depth;
            library_column_replaced(
                old,
                new,
                d as int,
                column_moved(old.library.columns[d as int], m, library_len(old.library, d), true),
            )
        },
        ViewId::Queue => new == (AppState {
            queue_view: QueueViewState {
                column: column_moved(
                    old.queue_view.column,
                    m,
                    old.play_queue@.items.len() as usize,
                    true,
                ),
            },
            ..old
        }),
        ViewId::Playlists => if old.playlist_view.depth == 0 {
            new == (AppState {
                playlist_view: PlaylistViewState {
                    list_column: column_moved(
                        old.playlist_view.list_column,
                        m,
                        old.playlist_view.playlists.len(),
                        true,
                    ),
                    ..old.playlist_view
                },
                ..old
            })
        } else {
            new == (AppState {
                playlist_view: PlaylistViewState {
                    track_column: column_moved(
                        old.playlist_view.track_column,
                        m,
                        old.playlist_view.tracks.len(),
                        true,
                    ),
                    ..old.playlist_view
                },
                ..old
            })
        },
        ViewId::Search => if old.search.active && (m == Motion::Up || m == Motion::Down) {
            new == (AppState {
                search: SearchState {
                    column: column_moved(old.search.column, m, old.search.results.len(), false),
                    ..old.search
                },
                ..old
            })
        } else {
            new == old
        },
        _ => new == old,
    }
}

/// Applies a motion to a column.
fn move_column(c: &mut ColumnState, m: Motion, total: usize, scroll: bool)
    requires
        column_fits(*old(c)),
    ensures
        *final(c) == column_moved(*old(c), m, total, scroll),
{
    match m {
        Motion::Up => {
            c.up(total);
            if scroll {
                c.scroll_into_view(PAGE_ROWS);
            }
        },
        Motion::Down => {
            c.down(total);
            if scroll {
                c.scroll_into_view(PAGE_ROWS);
            }
        },
        Motion::Top => c.go_top(),
        Motion::Bottom => c.go_bottom(total),
        Motion::PageUp => c.page_up(PAGE_ROWS),
        Motion::PageDown => c.page_down(total, PAGE_ROWS),
    }
}

/// Moves the selection of the active view's list.
fn navigate(state: &mut AppState, m: Motion)
    requires
        old(state).wf(),
        focus_fits(*old(state)),
    ensures
        final(state).wf(),
        navigated(*old(state), *final(state), m),
{
    match state.active_view {
        ViewId::Library => {
            let d = state.library.depth;
            let total = state.library.column_len(d);
            let mut c = state.library.columns[d];
            move_column(&mut c, m, total, true);
            state.library.columns[d] = c;
        },
        ViewId::Queue => {
            let total = state.play_queue.len();
            move_column(&mut state.queue_view.column, m, total, true);
        },
        ViewId::Playlists => {
            if state.playlist_view.depth == 0 {
                let total = state.playlist_view.playlists.len();
                move_column(&mut state.playlist_view.list_column, m, total, true);
            } else {
                let total = state.playlist_view.tracks.len();
                move_column(&mut state.playlist_view.track_column, m, total, true);
            }
        },
        ViewId::Search => {
            if state.search.active && (m == Motion::Up || m == Motion::Down) {
                let total = state.search.results.len();
                move_column(&mut state.search.column, m, total, false);
            }
        },
        _ => {},
    }
}

/// Moves the selection up one item.
pub fn navigate_up(state: &mut AppState)
    requires
        old(state).wf(),
        focus_fits(*old(state)),
    ensures
        final(state).wf(),
        navigated(*old(state), *final(state), Motion::Up),
{
    navigate(state, Motion::Up)
}

/// Moves the selection down one item.
pub fn navigate_down(state: &mut AppState)
    requires
        old(state).wf(),
        focus_fits(*old(state)),
    ensures
        final(state).wf(),
        navigated(*old(state), *final(state), Motion::Down),
{
    navigate(state, Motion::Down)
}

/// Selects the first item.
pub fn navigate_top(state: &mut AppState)
    requires
        old(state).wf(),
        focus_fits(*old(state)),
    ensures
        final(state).wf(),
        navigated(*old(state), *final(state), Motion::Top),
{
    navigate(state, Motion::Top)
}

/// Selects the last item.
pub fn navigate_bottom(state: &mut AppState)
    requires
        old(state).wf(),
        focus_fits(*old(state)),
    ensures
        final(state).wf(),
        navigated(*old(state), *final(state), Motion::Bottom),
{
    navigate(state, Motion::Bottom)
}

/// Moves the selection up a page.
pub fn navigate_page_up(state: &mut AppState)
    requires
        old(state).wf(),
        focus_fits(*old(state)),
    ensures
        final(state).wf(),
        navigated(*old(state), *final(state), Motion::PageUp),
{
    navigate(state, Motion::PageUp)
}

/// Moves the selection down a page.
pub fn navigate_page_down(state: &mut AppState)
    requires
        old(state).wf(),
        focus_fits(*old(state)),
    ensures
        final(state).wf(),
        navigated(*old(state), *final(state), Motion::PageDown),
{
    navigate(state, Motion::PageDown)
}

// Commands

/// A track that an action refers to: an index into the library's track
/// column, into the search results, or into the open playlist's tracks.
#[derive(Clone, Copy, Debug, PartialEq, Eq, Structural)]
pub enum TrackRef {
    Library(usize),
    Search(usize),
    Playlist(usize),
}

/// Data that the library browser or the playlists view needs reloaded.
#[derive(Clone, Copy, Debug, PartialEq, Eq, Structural)]
pub enum LoadRequest {
    /// The albums of the selected artist, and their tracks
    Albums,
    /// The tracks of the selected album
    Tracks,
    /// The tracks of the selected playlist
    PlaylistTracks,
}

/// The outside work an action asks of the event loop.
#[derive(Clone, Debug, PartialEq)]
pub enum Command {
    Nothing,
    /// Reload the artists (and what follows from them) and say so
    Refresh,
    Load(LoadRequest),
    /// The view was switched: redraw the artwork when the view changed, and
    /// reload the playlists when it is the playlists view
    ViewChanged { reload_artwork: bool, reload_playlists: bool },
    /// Run the search for the current query
    RunSearch,
    /// Play a track
    Play(TrackRef),
    /// Add a track to the queue, make it current and play it
    QueueAndPlay(TrackRef),
    /// Play the track with this id, taken from the queue
    PlayQueued(i64),
    Pause,
    Resume,
    Stop,
    SeekForward,
    SeekBackward,
    VolumeUp,
    VolumeDown,
    SetMute(bool),
    /// Add a track to the queue
    Enqueue(TrackRef),
    /// Add the tracks of the album at this index of the album column
    EnqueueAlbum(usize),
    /// Add the tracks of the artist at this index of the artist column
    EnqueueArtist(usize),
    /// Say that an item left the queue
    RemovedFromQueue,
    /// Raise the gain of this band
    EqGainUp(usize),
    /// Lower the gain of this band
    EqGainDown(usize),
    EqBypass(bool),
    EqNextPreset,
    EqReset,
    CreatePlaylist(String),
    /// Rename the playlist at this index of the playlist list
    RenamePlaylist(usize, String),
    /// Delete the playlist at this index of the playlist list
    DeletePlaylist(usize),
    /// Remove the track at this 1-based position from the playlist at this index
    RemovePlaylistTrack(usize, i32),
    /// Add a track to the first playlist
    AddToPlaylist(TrackRef),
    /// Say that no track is selected
    NoTrackSelected,
}

// Views

/// How switching views, opening the search and closing it change the state.
pub open spec fn view_step(old: AppState, a: Action, new: AppState, r: Command) -> bool {
    match a {
        Action::SwitchView(v) => {
            &&& if v == ViewId::Search {
                new == (AppState {
                    active_view: v,
                    input_mode: InputMode::Search,
                    search: SearchState { active: true, ..old.search },
                    ..old
                })
            } else {
                new == (AppState { active_view: v, ..old })
            }
            &&& r == (Command::ViewChanged {
                reload_artwork: old.active_view != v,
                reload_playlists: v == ViewId::Playlists,
            })
        },
        Action::OpenSearch => {
            &&& new.search.query@.len() == 0
            &&& new.search.results@.len() == 0
            &&& new == (AppState {
                active_view: ViewId::Search,
                input_mode: InputMode::Search,
                search: SearchState {
                    query: new.search.query,
                    results: new.search.results,
                    column: ColumnState { selected: 0, ..old.search.column },
                    active: true,
                    ..old.search
                },
                ..old
            })
            &&& r is Nothing
        },
        Action::CloseOverlay => {
            &&& new == (AppState {
                active_view: if old.active_view == ViewId::Search {
                    ViewId::Library
                } else {
                    old.active_view
                },
                input_mode: InputMode::Normal,
                search: SearchState { active: false, ..old.search },
                ..old
            })
            &&& r is Nothing
        },
        _ => new == old && r is Nothing,
    }
}

/// Switches views, opens the search or closes it.
pub fn handle_view_action(action: Action, state: &mut AppState) -> (r: Command)
    requires
        old(state).wf(),
    ensures
        final(state).wf(),
        view_step(*old(state), action, *final(state), r),
{
    match action {
        Action::SwitchView(view) => {
            let old_view = state.active_view;
            state.active_view = view;
            if view == ViewId::Search {
                state.search.active = true;
                state.input_mode = InputMode::Search;
            }
            Command::ViewChanged {
                reload_artwork: old_view != view,
                reload_playlists: view == ViewId::Playlists,
            }
        },
        Action::OpenSearch => {
            state.search.active = true;
            state.search.query = String::new();
            state.search.results = Vec::new();
            state.search.column.selected = 0;
            state.input_mode = InputMode::Search;
            state.active_view = ViewId::Search;
            Command::Nothing
        },
        Action::CloseOverlay => {
            state.search.active = false;
            state.input_mode = InputMode::Normal;
            if state.active_view == ViewId::Search {
                state.active_view = ViewId::Library;
            }
            Command::Nothing
        },
        _ => Command::Nothing,
    }
}

// Moving between columns and selecting

/// What must be reloaded after the selection moved: the children of the
/// focused library column, or the tracks of the selected playlist.
pub open spec fn reload_after_move(s: AppState) -> Command {
    match s.active_view {
        ViewId::Library => if s.library.depth == 0 {
            Command::Load(LoadRequest::Albums)
        } else if s.library.depth == 1 {
            Command::Load(LoadRequest::Tracks)
        } else {
            Command::Nothing
        },
        ViewId::Playlists => if s.playlist_view.depth == 0 {
            Command::Load(LoadRequest::PlaylistTracks)
        } else {
            Command::Nothing
        },
        _ => Command::Nothing,
    }
}

/// The reload that a move of the selection calls for.
pub fn reload_on_selection_change(state: &AppState) -> (r: Command)
    ensures
        r == reload_after_move(*state),
{
    match state.active_view {
        ViewId::Library => {
            if state.library.depth == 0 {
                Command::Load(LoadRequest::Albums)
            } else if state.library.depth == 1 {
                Command::Load(LoadRequest::Tracks)
            } else {
                Command::Nothing
            }
        },
        ViewId::Playlists => {
            if state.playlist_view.depth == 0 {
                Command::Load(LoadRequest::PlaylistTracks)
            } else {
                Command::Nothing
            }
        },
        _ => Command::Nothing,
    }
}

/// In the library, the focus moves one column left (towards the artists).
pub open spec fn moved_left(s: AppState) -> AppState {
    if s.active_view == ViewId::Library && s.library.depth > 0 {
        AppState { library: LibraryState { depth: (s.library.depth - 1) as usize, ..s.library }, ..s }
    } else {
        s
    }
}

/// In the library, the focus moves one column right (towards the tracks),
/// and that column is loaded.
pub open spec fn right_step(old: AppState, new: AppState, r: Command) -> bool {
    if old.active_view == ViewId::Library && old.library.depth < 2 {
        &&& new == (AppState {
            library: LibraryState { depth: (old.library.depth + 1) as usize, ..old.library },
            ..old
        })
        &&& r == Command::Load(
            if old.library.depth == 0 {
                LoadRequest::Albums
            } else {
                LoadRequest::Tracks
            },
        )
    } else {
        new == old && r is Nothing
    }
}

/// Moves the library focus one column left.
pub fn navigate_left(state: &mut AppState)
    requires
        old(state).wf(),
    ensures
        final(state).wf(),
        *final(state) == moved_left(*old(state)),
{
    if state.active_view == ViewId::Library && state.library.depth > 0 {
        state.library.depth = state.library.depth - 1;
    }
}

/// Moves the library focus one column right; the new column must be loaded.
pub fn navigate_right(state: &mut AppState) -> (r: Command)
    requires
        old(state).wf(),
    ensures
        final(state).wf(),
        right_step(*old(state), *final(state), r),
{
    if state.active_view == ViewId::Library && state.library.depth < 2 {
        state.library.depth = state.library.depth + 1;
        if state.library.depth == 1 {
            Command::Load(LoadRequest::Albums)
        } else {
            Command::Load(LoadRequest::Tracks)
        }
    } else {
        Command::Nothing
    }
}

/// What Enter does: in the library it opens the next column, or on a track
/// queues and plays it; in the queue it jumps to the selected item and plays
/// it; in the playlists view it opens the selected playlist, or queues and
/// plays the selected track; in the open search it queues and plays the
/// selected result and closes the search.
pub open spec fn select_step(old: AppState, new: AppState, r: Command) -> bool {
    match old.active_view {
        ViewId::Library => if old.library.depth < 2 {
            right_step(old, new, r)
        } else {
            let i = old.library.columns[2].selected;
            &&& new == old
            &&& r == if i < old.library.tracks.len() {
                Command::QueueAndPlay(TrackRef::Library(i))
            } else {
                Command::Nothing
            }
        },
        ViewId::Queue => {
            let i = old.queue_view.column.selected;
            let q = old.play_queue@;
            &&& new == (AppState { play_queue: new.play_queue, ..old })
            &&& if i < q.items.len() {
                &&& new.play_queue@ == crate::queue::jump_state(q, i)
                &&& r == Command::PlayQueued(q.items[i as int].track_id)
            } else {
                new.play_queue@ == q && r is Nothing
            }
        },
        ViewId::Playlists => if old.playlist_view.depth == 0 {
            if old.playlist_view.playlists.len() > 0 {
                &&& new == (AppState {
                    playlist_view: PlaylistViewState { depth: 1, ..old.playlist_view },
                    ..old
                })
                &&& r == Command::Load(LoadRequest::PlaylistTracks)
            } else {
                new == old && r is Nothing
            }
        } else {
            let i = old.playlist_view.track_column.selected;
            &&& new == old
            &&& r == if i < old.playlist_view.tracks.len() {
                Command::QueueAndPlay(TrackRef::Playlist(i))
            } else {
                Command::Nothing
            }
        },
        ViewId::Search => if old.search.active {
            let i = old.search.column.selected;
            &&& new == (AppState {
                active_view: ViewId::Library,
                input_mode: InputMode::Normal,
                search: SearchState { active: false, ..old.search },
                ..old
            })
            &&& r == if i < old.search.results.len() {
                Command::QueueAndPlay(TrackRef::Search(i))
            } else {
                Command::Nothing
            }
        } else {
            new == old && r is Nothing
        },
        _ => new == old && r is Nothing,
    }
}

/// Acts on Enter.
pub fn handle_select(state: &mut AppState) -> (r: Command)
    requires
        old(state).wf(),
    ensures
        final(state).wf(),
        select_step(*old(state), *final(state), r),
{
    match state.active_view {
        ViewId::Library => {
            if state.library.depth < 2 {
                navigate_right(state)
            } else {
                let i = state.library.columns[2].selected;
                if i < state.library.tracks.len() {
                    Command::QueueAndPlay(TrackRef::Library(i))
                } else {
                    Command::Nothing
                }
            }
        },
        ViewId::Queue => {
            let i = state.queue_view.column.selected;
            let id = match state.play_queue.jump_to(i) {
                Ok(item) => Some(item.track_id),
                Err(_) => None,
            };
            match id {
                Some(id) => Command::PlayQueued(id),
                None => Command::Nothing,
            }
        },
        ViewId::Playlists => {
            if state.playlist_view.depth == 0 {
                if state.playlist_view.playlists.len() > 0 {
                    state.playlist_view.depth = 1;
                    Command::Load(LoadRequest::PlaylistTracks)
                } else {
                    Command::Nothing
                }
            } else {
                let i = state.playlist_view.track_column.selected;
                if i < state.playlist_view.tracks.len() {
                    Command::QueueAndPlay(TrackRef::Playlist(i))
                } else {
                    Command::Nothing
                }
            }
        },
        ViewId::Search => {
            if state.search.active {
                let i = state.search.column.selected;
                let r = if i < state.search.results.len() {
                    Command::QueueAndPlay(TrackRef::Search(i))
                } else {
                    Command::Nothing
                };
                state.search.active = false;
                state.input_mode = InputMode::Normal;
                state.active_view = ViewId::Library;
                r
            } else {
                Command::Nothing
            }
        },
        _ => Command::Nothing,
    }
}

/// How the navigation actions change the state: a motion in the active
/// list followed by the reload it calls for, a move between columns, or
/// Enter.
pub open spec fn navigation_step(old: AppState, a: Action, new: AppState, r: Command) -> bool {
    match a {
        Action::Up => navigated(old, new, Motion::Up) && r == reload_after_move(new),
        Action::Down => navigated(old, new, Motion::Down) && r == reload_after_move(new),
        Action::GoTop => navigated(old, new, Motion::Top) && r == reload_after_move(new),
        Action::GoBottom => navigated(old, new, Motion::Bottom) && r == reload_after_move(new),
        Action::PageUp => navigated(old, new, Motion::PageUp) && r == reload_after_move(new),
        Action::PageDown => navigated(old, new, Motion::PageDown) && r == reload_after_move(new),
        Action::Left => new == moved_left(old) && r is Nothing,
        Action::Right => right_step(old, new, r),
        Action::Select => select_step(old, new, r),
        _ => new == old && r is Nothing,
    }
}

/// Moves in and between the lists.
pub fn handle_navigation_action(action: Action, state: &mut AppState) -> (r: Command)
    requires
        old(state).wf(),
        is_motion(action) ==> focus_fits(*old(state)),
    ensures
        final(state).wf(),
        navigation_step(*old(state), action, *final(state), r),
{
    match action {
        Action::Up => {
            navigate_up(state);
            reload_on_selection_change(state)
        },
        Action::Down => {
            navigate_down(state);
            reload_on_selection_change(state)
        },
        Action::GoTop => {
            navigate_top(state);
            reload_on_selection_change(state)
        },
        Action::GoBottom => {
            navigate_bottom(state);
            reload_on_selection_change(state)
        },
        Action::PageUp => {
            navigate_page_up(state);
            reload_on_selection_change(state)
        },
        Action::PageDown => {
            navigate_page_down(state);
            reload_on_selection_change(state)
        },
        Action::Left => {
            navigate_left(state);
            Command::Nothing
        },
        Action::Right => navigate_right(state),
        Action::Select => handle_select(state),
        _ => Command::Nothing,
    }
}

// Search

/// The number of bytes of a text in UTF-8.
pub open spec fn byte_len(s: Seq<char>) -> nat {
    vstd::utf8::encode_utf8(s).len()
}

/// `new` is `old` with the search query replaced by `query` and the cursor
/// put after it (counted in bytes).
pub open spec fn query_replaced(old: AppState, new: AppState, query: Seq<char>) -> bool {
    &&& new.search.query@ == query
    &&& new.search.cursor == byte_len(query) as usize
    &&& new == (AppState {
        search: SearchState { query: new.search.query, cursor: new.search.cursor, ..old.search },
        ..old
    })
}

/// How typing in the search changes the state: a character is added to the
/// query, or the last one removed, and the search runs again; Enter plays
/// the selected result and closes the search.
pub open spec fn search_step(old: AppState, a: Action, new: AppState, r: Command) -> bool {
    match a {
        Action::SearchInput(c) => query_replaced(old, new, old.search.query@.push(c))
            && r is RunSearch,
        Action::SearchBackspace => query_replaced(
            old,
            new,
            if old.search.query@.len() > 0 {
                old.search.query@.drop_last()
            } else {
                old.search.query@
            },
        ) && r is RunSearch,
        Action::SearchSubmit => {
            let i = old.search.column.selected;
            &&& new == (AppState {
                active_view: ViewId::Library,
                input_mode: InputMode::Normal,
                search: SearchState { active: false, ..old.search },
                ..old
            })
            &&& r == if i < old.search.results.len() {
                Command::Play(TrackRef::Search(i))
            } else {
                Command::Nothing
            }
        },
        _ => new == old && r is Nothing,
    }
}

/// Edits the search query or submits it.
pub fn handle_search_action(action: Action, state: &mut AppState) -> (r: Command)
    requires
        old(state).wf(),
    ensures
        final(state).wf(),
        search_step(*old(state), action, *final(state), r),
{
    match action {
        Action::SearchInput(c) => {
            state.search.query.push(c);
            state.search.cursor = state.search.query.as_str().len();
            Command::RunSearch
        },
        Action::SearchBackspace => {
            let _ = state.search.query.pop();
            state.search.cursor = state.search.query.as_str().len();
            Command::RunSearch
        },
        Action::SearchSubmit => {
            let i = state.search.column.selected;
            let r = if i < state.search.results.len() {
                Command::Play(TrackRef::Search(i))
            } else {
                Command::Nothing
            };
            state.search.active = false;
            state.input_mode = InputMode::Normal;
            state.active_view = ViewId::Library;
            r
        },
        _ => Command::Nothing,
    }
}

// Playback

/// The playback after Stop: stopped at zero, with no current track, source
/// format or artwork.
pub open spec fn stopped_playback(old: PlaybackState, new: PlaybackState) -> bool {
    &&& new.position@ == (0u64, 0u32)
    &&& new.duration@ == (0u64, 0u32)
    &&& new == (PlaybackState {
        status: PlayStatus::Stopped,
        current_track: None,
        position: new.position,
        duration: new.duration,
        source_format: None,
        artwork_path: None,
        ..old
    })
}

/// The item that moving to the next queue item lands on, if any.
pub open spec fn queued_next(q: QueueModel) -> Option<QueueItem> {
    if next_stops(q) {
        None
    } else {
        queue_item_at(q.items, next_state(q).position as int)
    }
}

/// The selection of the library's track column wraps round to the first
/// track after the last, and to the last before the first.
pub open spec fn wrapped_next(selected: usize, total: usize) -> usize {
    ((selected + 1) % (total as int)) as usize
}

/// The track before the selected one, the last one before the first.
pub open spec fn wrapped_previous(selected: usize, total: usize) -> usize {
    if selected == 0 {
        (total - 1) as usize
    } else {
        (selected - 1) as usize
    }
}

/// Moves to the next item of the queue and plays it; when the queue has none,
/// selects and plays the next track of the library's track column instead.
pub open spec fn next_track_step(old: AppState, new: AppState, r: Command) -> bool {
    let moved = AppState { play_queue: new.play_queue, ..old };
    &&& new.play_queue@ == next_state(old.play_queue@)
    &&& match queued_next(old.play_queue@) {
        Some(item) => new == moved && r == Command::PlayQueued(item.track_id),
        None => {
            let total = old.library.tracks.len();
            if total > 0 {
                let n = wrapped_next(old.library.columns[2].selected, total);
                &&& library_column_replaced(
                    moved,
                    new,
                    2,
                    ColumnState { selected: n, ..old.library.columns[2] },
                )
                &&& r == Command::Play(TrackRef::Library(n))
            } else {
                new == moved && r is Nothing
            }
        },
    }
}

/// Moves to the previous item of the queue and plays it; when the queue has
/// none, selects and plays the previous track of the library's track column.
pub open spec fn previous_track_step(old: AppState, new: AppState, r: Command) -> bool {
    let moved = AppState { play_queue: new.play_queue, ..old };
    let q = previous_state(old.play_queue@);
    &&& new.play_queue@ == q
    &&& match queue_item_at(old.play_queue@.items, q.position as int) {
        Some(item) => new == moved && r == Command::PlayQueued(item.track_id),
        None => {
            let total = old.library.tracks.len();
            if total > 0 {
                let p = wrapped_previous(old.library.columns[2].selected, total);
                &&& library_column_replaced(
                    moved,
                    new,
                    2,
                    ColumnState { selected: p, ..old.library.columns[2] },
                )
                &&& r == if p < total {
                    Command::Play(TrackRef::Library(p))
                } else {
                    Command::Nothing
                }
            } else {
                new == moved && r is Nothing
            }
        },
    }
}

/// How the playback actions change the state, given what the player is
/// doing.
pub open spec fn playback_step(
    old: AppState,
    a: Action,
    player: PlayerState,
    new: AppState,
    r: Command,
) -> bool {
    match a {
        Action::PlayPause => new == old && r == match player {
            PlayerState::Playing => Command::Pause,
            PlayerState::Paused => Command::Resume,
            PlayerState::Stopped => {
                let i = old.library.columns[2].selected;
                if i < old.library.tracks.len() {
                    Command::Play(TrackRef::Library(i))
                } else {
                    Command::Nothing
                }
            },
            PlayerState::Loading => Command::Nothing,
        },
        Action::Stop => {
            &&& stopped_playback(old.playback, new.playback)
            &&& new == (AppState { playback: new.playback, ..old })
            &&& r is Stop
        },
        Action::NextTrack => next_track_step(old, new, r),
        Action::PrevTrack => previous_track_step(old, new, r),
        Action::SeekForward => new == old && r is SeekForward,
        Action::SeekBackward => new == old && r is SeekBackward,
        Action::VolumeUp => new == old && r is VolumeUp,
        Action::VolumeDown => new == old && r is VolumeDown,
        Action::ToggleMute => {
            &&& new == (AppState {
                playback: PlaybackState { muted: !old.playback.muted, ..old.playback },
                ..old
            })
            &&& r == Command::SetMute(!old.playback.muted)
        },
        Action::ToggleShuffle => {
            let q0 = old.play_queue@;
            let q1 = new.play_queue@;
            &&& q1.shuffle == !q0.shuffle
            &&& q1.repeat == q0.repeat
            &&& q1.original_order == q0.original_order
            &&& q1.history == q0.history
            &&& !q0.shuffle ==> shuffled(q0, q1)
            &&& q0.shuffle ==> unshuffled(q0, q1)
            &&& new == (AppState {
                play_queue: new.play_queue,
                playback: PlaybackState { shuffle: !q0.shuffle, ..old.playback },
                ..old
            })
            &&& r is Nothing
        },
        Action::CycleRepeat => {
            let q0 = old.play_queue@;
            &&& new.play_queue@ == (QueueModel { repeat: repeat_cycle(q0.repeat), ..q0 })
            &&& new == (AppState {
                play_queue: new.play_queue,
                playback: PlaybackState { repeat: repeat_cycle(q0.repeat), ..old.playback },
                ..old
            })
            &&& r is Nothing
        },
        _ => new == old && r is Nothing,
    }
}

/// What the playback actions need of the state: room to step past the
/// selected library track, and a current queue item to put first when the
/// queue gets shuffled.
pub open spec fn playback_fits(s: AppState, a: Action) -> bool {
    match a {
        Action::NextTrack => s.library.columns[2].selected < usize::MAX,
        Action::ToggleShuffle => {
            let q = s.play_queue@;
            q.shuffle || q.items.len() <= 1 || q.position < q.items.len()
        },
        _ => true,
    }
}

/// Plays, pauses, stops, skips, seeks, changes the volume and the queue's
/// modes.
pub fn handle_playback_action(action: Action, state: &mut AppState, player: PlayerState) -> (r:
    Command)
    requires
        old(state).wf(),
        playback_fits(*old(state), action),
    ensures
        final(state).wf(),
        playback_step(*old(state), action, player, *final(state), r),
{
    match action {
        Action::PlayPause => match player {
            PlayerState::Playing => Command::Pause,
            PlayerState::Paused => Command::Resume,
            PlayerState::Stopped => {
                let i = state.library.columns[2].selected;
                if i < state.library.tracks.len() {
                    Command::Play(TrackRef::Library(i))
                } else {
                    Command::Nothing
                }
            },
            PlayerState::Loading => Command::Nothing,
        },
        Action::Stop => {
            state.playback.status = PlayStatus::Stopped;
            state.playback.current_track = None;
            state.playback.position = Duration::zero();
            state.playback.duration = Duration::zero();
            state.playback.source_format = None;
            state.playback.artwork_path = None;
            Command::Stop
        },
        Action::NextTrack => {
            let next_id = match state.play_queue.next() {
                Some(item) => Some(item.track_id),
                None => None,
            };
            match next_id {
                Some(id) => Command::PlayQueued(id),
                None => {
                    let total = state.library.tracks.len();
                    if total > 0 {
                        let n = (state.library.columns[2].selected + 1) % total;
                        state.library.columns[2].selected = n;
                        Command::Play(TrackRef::Library(n))
                    } else {
                        Command::Nothing
                    }
                },
            }
        },
        Action::PrevTrack => {
            let prev_id = match state.play_queue.previous() {
                Some(item) => Some(item.track_id),
                None => None,
            };
            match prev_id {
                Some(id) => Command::PlayQueued(id),
                None => {
                    let total = state.library.tracks.len();
                    if total > 0 {
                        let sel = state.library.columns[2].selected;
                        let p = if sel == 0 {
                            total - 1
                        } else {
                            sel - 1
                        };
                        state.library.columns[2].selected = p;
                        if p < total {
                            Command::Play(TrackRef::Library(p))
                        } else {
                            Command::Nothing
                        }
                    } else {
                        Command::Nothing
                    }
                },
            }
        },
        Action::SeekForward => Command::SeekForward,
        Action::SeekBackward => Command::SeekBackward,
        Action::VolumeUp => Command::VolumeUp,
        Action::VolumeDown => Command::VolumeDown,
        Action::ToggleMute => {
            state.playback.muted = !state.playback.muted;
            Command::SetMute(state.playback.muted)
        },
        Action::ToggleShuffle => {
            state.play_queue.toggle_shuffle();
            state.playback.shuffle = state.play_queue.shuffle();
            Command::Nothing
        },
        Action::CycleRepeat => {
            state.play_queue.cycle_repeat();
            state.playback.repeat = state.play_queue.repeat();
            Command::Nothing
        },
        _ => Command::Nothing,
    }
}

// The queue

/// The queue after adding an item at the end.
pub open spec fn queue_after_push(q: QueueModel, item: QueueItem) -> QueueModel {
    QueueModel {
        items: q.items.push(item),
        original_order: q.original_order.push(item.track_id),
        ..q
    }
}

/// The queue after removing the item at `i`: the current position follows
/// the current item.
pub open spec fn queue_after_remove(q: QueueModel, i: usize) -> QueueModel {
    QueueModel {
        items: q.items.remove(i as int),
        original_order: q.original_order.remove(i as int),
        position: if i < q.position {
            (q.position - 1) as usize
        } else {
            q.position
        },
        ..q
    }
}

/// The queue after moving the item at `from` to `to`: the current position
/// follows the current item.
pub open spec fn queue_after_move(q: QueueModel, from: usize, to: usize) -> QueueModel {
    let pos = q.position;
    QueueModel {
        items: q.items.remove(from as int).insert(to as int, q.items[from as int]),
        position: if from == to {
            pos
        } else if pos == from {
            to
        } else if from < pos && to >= pos {
            (pos - 1) as usize
        } else if from > pos && to <= pos {
            (pos + 1) as usize
        } else {
            pos
        },
        ..q
    }
}

/// What adding the selected album's tracks asks for: in the album or track
/// column, the selected album.
pub open spec fn album_to_add(s: AppState) -> Command {
    let i = s.library.columns[1].selected;
    if s.library.depth >= 1 && i < s.library.albums.len() {
        Command::EnqueueAlbum(i)
    } else {
        Command::Nothing
    }
}

/// What "add to queue" adds: in the library the selected track, album or
/// artist, depending on the focused column; in the search view the selected
/// result.
pub open spec fn items_to_add(s: AppState) -> Command {
    match s.active_view {
        ViewId::Library => if s.library.depth == 2 {
            let i = s.library.columns[2].selected;
            if i < s.library.tracks.len() {
                Command::Enqueue(TrackRef::Library(i))
            } else {
                Command::Nothing
            }
        } else if s.library.depth == 1 {
            album_to_add(s)
        } else {
            let i = s.library.columns[0].selected;
            if i < s.library.artists.len() {
                Command::EnqueueArtist(i)
            } else {
                Command::Nothing
            }
        },
        ViewId::Search => {
            let i = s.search.column.selected;
            if i < s.search.results.len() {
                Command::Enqueue(TrackRef::Search(i))
            } else {
                Command::Nothing
            }
        },
        _ => Command::Nothing,
    }
}

/// How the queue actions change the state: adding asks for tracks; in the
/// queue view, removing drops the selected item and keeps the selection in
/// the list, and moving shifts the selected item and the selection with it.
pub open spec fn queue_step(old: AppState, a: Action, new: AppState, r: Command) -> bool {
    let q = old.play_queue@;
    let i = old.queue_view.column.selected;
    let in_queue = old.active_view == ViewId::Queue;
    match a {
        Action::AddToQueue => new == old && r == items_to_add(old),
        Action::AddAlbumToQueue => new == old && r == if old.active_view == ViewId::Library {
            album_to_add(old)
        } else {
            Command::Nothing
        },
        Action::RemoveFromQueue => if in_queue && i < q.items.len() {
            let total = (q.items.len() - 1) as usize;
            let at = crate::tui::min_usize(i as int, crate::tui::saturating_sub(total, 1) as int);
            &&& new.play_queue@ == queue_after_remove(q, i)
            &&& new == (AppState {
                play_queue: new.play_queue,
                queue_view: QueueViewState {
                    column: crate::tui::column_select(old.queue_view.column, at, total),
                },
                ..old
            })
            &&& r is RemovedFromQueue
        } else if in_queue {
            new.play_queue@ == q && new == (AppState { play_queue: new.play_queue, ..old })
                && r is Nothing
        } else {
            new == old && r is Nothing
        },
        Action::MoveUp => if in_queue && i > 0 && i < q.items.len() {
            &&& new.play_queue@ == queue_after_move(q, i, (i - 1) as usize)
            &&& new == (AppState {
                play_queue: new.play_queue,
                queue_view: QueueViewState {
                    column: ColumnState { selected: (i - 1) as usize, ..old.queue_view.column },
                },
                ..old
            })
            &&& r is Nothing
        } else if in_queue && i > 0 {
            new.play_queue@ == q && new == (AppState { play_queue: new.play_queue, ..old })
                && r is Nothing
        } else {
            new == old && r is Nothing
        },
        Action::MoveDown => if in_queue && i + 1 < q.items.len() {
            &&& new.play_queue@ == queue_after_move(q, i, (i + 1) as usize)
            &&& new == (AppState {
                play_queue: new.play_queue,
                queue_view: QueueViewState {
                    column: ColumnState { selected: (i + 1) as usize, ..old.queue_view.column },
                },
                ..old
            })
            &&& r is Nothing
        } else {
            new == old && r is Nothing
        },
        _ => new == old && r is Nothing,
    }
}

/// Adds to, removes from and reorders the queue.
pub fn handle_queue_action(action: Action, state: &mut AppState) -> (r: Command)
    requires
        old(state).wf(),
    ensures
        final(state).wf(),
        queue_step(*old(state), action, *final(state), r),
{
    match action {
        Action::AddToQueue => add_to_queue(state),
        Action::AddAlbumToQueue => {
            if state.active_view == ViewId::Library {
                add_album_tracks_to_queue(state)
            } else {
                Command::Nothing
            }
        },
        Action::RemoveFromQueue => {
            if state.active_view == ViewId::Queue {
                let i = state.queue_view.column.selected;
                if state.play_queue.remove(i).is_ok() {
                    let total = state.play_queue.len();
                    let last = if total >= 1 {
                        total - 1
                    } else {
                        0
                    };
                    let at = if i <= last {
                        i
                    } else {
                        last
                    };
                    state.queue_view.column.select(at, total);
                    return Command::RemovedFromQueue;
                }
            }
            Command::Nothing
        },
        Action::MoveUp => {
            if state.active_view == ViewId::Queue {
                let i = state.queue_view.column.selected;
                if i > 0 && state.play_queue.move_item(i, i - 1).is_ok() {
                    state.queue_view.column.selected = i - 1;
                }
            }
            Command::Nothing
        },
        Action::MoveDown => {
            if state.active_view == ViewId::Queue {
                let i = state.queue_view.column.selected;
                if i < state.play_queue.len() && i + 1 < state.play_queue.len() {
                    if state.play_queue.move_item(i, i + 1).is_ok() {
                        state.queue_view.column.selected = i + 1;
                    }
                }
            }
            Command::Nothing
        },
        _ => Command::Nothing,
    }
}

/// What "add to queue" asks for.
pub fn add_to_queue(state: &AppState) -> (r: Command)
    requires
        state.wf(),
    ensures
        r == items_to_add(*state),
{
    match state.active_view {
        ViewId::Library => {
            if state.library.depth == 2 {
                let i = state.library.columns[2].selected;
                if i < state.library.tracks.len() {
                    Command::Enqueue(TrackRef::Library(i))
                } else {
                    Command::Nothing
                }
            } else if state.library.depth == 1 {
                add_album_tracks_to_queue(state)
            } else {
                let i = state.library.columns[0].selected;
                if i < state.library.artists.len() {
                    Command::EnqueueArtist(i)
                } else {
                    Command::Nothing
                }
            }
        },
        ViewId::Search => {
            let i = state.search.column.selected;
            if i < state.search.results.len() {
                Command::Enqueue(TrackRef::Search(i))
            } else {
                Command::Nothing
            }
        },
        _ => Command::Nothing,
    }
}

/// What adding the selected album asks for.
pub fn add_album_tracks_to_queue(state: &AppState) -> (r: Command)
    requires
        state.wf(),
    ensures
        r == album_to_add(*state),
{
    let i = state.library.columns[1].selected;
    if state.library.depth >= 1 && i < state.library.albums.len() {
        Command::EnqueueAlbum(i)
    } else {
        Command::Nothing
    }
}

// The equalizer

/// How the equalizer actions change the state: the band selection moves
/// within the bands, bypass toggles; gains and presets are the player's.
pub open spec fn eq_step(old: AppState, a: Action, new: AppState, r: Command) -> bool {
    let band = old.eq.selected_band;
    match a {
        Action::EqBandLeft => r is Nothing && new == if band > 0 {
            AppState { eq: EqSelection { selected_band: (band - 1) as usize, ..old.eq }, ..old }
        } else {
            old
        },
        Action::EqBandRight => r is Nothing && new == if band < EQ_BANDS - 1 {
            AppState { eq: EqSelection { selected_band: (band + 1) as usize, ..old.eq }, ..old }
        } else {
            old
        },
        Action::EqGainUp => new == old && r == Command::EqGainUp(band),
        Action::EqGainDown => new == old && r == Command::EqGainDown(band),
        Action::EqToggleBypass => {
            &&& new == (AppState { eq: EqSelection { bypassed: !old.eq.bypassed, ..old.eq }, ..old })
            &&& r == Command::EqBypass(!old.eq.bypassed)
        },
        Action::EqNextPreset => new == old && r is EqNextPreset,
        Action::EqReset => new == old && r is EqReset,
        _ => new == old && r is Nothing,
    }
}

/// Moves the band selection and toggles bypass; asks the player for the rest.
pub fn handle_eq_action(action: Action, state: &mut AppState) -> (r: Command)
    requires
        old(state).wf(),
    ensures
        final(state).wf(),
        eq_step(*old(state), action, *final(state), r),
{
    match action {
        Action::EqBandLeft => {
            if state.eq.selected_band > 0 {
                state.eq.selected_band = state.eq.selected_band - 1;
            }
            Command::Nothing
        },
        Action::EqBandRight => {
            if state.eq.selected_band < EQ_BANDS - 1 {
                state.eq.selected_band = state.eq.selected_band + 1;
            }
            Command::Nothing
        },
        Action::EqGainUp => Command::EqGainUp(state.eq.selected_band),
        Action::EqGainDown => Command::EqGainDown(state.eq.selected_band),
        Action::EqToggleBypass => {
            state.eq.bypassed = !state.eq.bypassed;
            Command::EqBypass(state.eq.bypassed)
        },
        Action::EqNextPreset => Command::EqNextPreset,
        Action::EqReset => Command::EqReset,
        _ => Command::Nothing,
    }
}

// Playlists

/// `new` is `old` with the name input closed and emptied, back in normal
/// mode.
pub open spec fn name_input_closed(old: AppState, new: AppState) -> bool {
    &&& new.playlist_view.name_buffer@.len() == 0
    &&& new == (AppState {
        input_mode: InputMode::Normal,
        playlist_view: PlaylistViewState {
            creating: false,
            name_buffer: new.playlist_view.name_buffer,
            ..old.playlist_view
        },
        ..old
    })
}

/// `new` is `old` with the name buffer holding `name`.
pub open spec fn name_buffer_set(old: AppState, new: AppState, name: Seq<char>) -> bool {
    &&& new.playlist_view.name_buffer@ == name
    &&& new == (AppState {
        playlist_view: PlaylistViewState {
            name_buffer: new.playlist_view.name_buffer,
            ..old.playlist_view
        },
        ..old
    })
}

/// What submitting a typed name asks for: nothing for an empty name; a
/// rename of the selected playlist when there is one and its name differs;
/// a new playlist otherwise.
pub open spec fn submitted_name(old: AppState, r: Command) -> bool {
    let name = old.playlist_view.name_buffer@;
    let i = old.playlist_view.list_column.selected;
    let pls = old.playlist_view.playlists;
    if name.len() == 0 {
        r is Nothing
    } else if i < pls.len() && pls@[i as int].name@ != name {
        r matches Command::RenamePlaylist(j, n) && j == i && n@ == name
    } else {
        r matches Command::CreatePlaylist(n) && n@ == name
    }
}

/// The selected playlist, when the playlists view shows the list pane (or,
/// with `tracks_pane`, the tracks pane) and a playlist is selected.
pub open spec fn selected_playlist(s: AppState, tracks_pane: bool) -> Option<usize> {
    let i = s.playlist_view.list_column.selected;
    let pane_ok = if tracks_pane {
        s.playlist_view.depth == 1
    } else {
        s.playlist_view.depth == 0
    };
    if s.active_view == ViewId::Playlists && pane_ok && i < s.playlist_view.playlists.len() {
        Some(i)
    } else {
        None
    }
}

/// The track that "add to playlist" adds: the selected library track, or the
/// selected search result.
pub open spec fn track_to_add(s: AppState) -> Option<TrackRef> {
    match s.active_view {
        ViewId::Library => {
            let i = s.library.columns[2].selected;
            if i < s.library.tracks.len() {
                Some(TrackRef::Library(i))
            } else {
                None
            }
        },
        ViewId::Search => {
            let i = s.search.column.selected;
            if i < s.search.results.len() {
                Some(TrackRef::Search(i))
            } else {
                None
            }
        },
        _ => None,
    }
}

/// How the playlist actions change the state.
pub open spec fn playlist_step(old: AppState, a: Action, new: AppState, r: Command) -> bool {
    let pv = old.playlist_view;
    match a {
        Action::PlaylistCreate => {
            &&& new.playlist_view.name_buffer@.len() == 0
            &&& new == (AppState {
                input_mode: InputMode::PlaylistName,
                playlist_view: PlaylistViewState {
                    creating: true,
                    name_buffer: new.playlist_view.name_buffer,
                    ..pv
                },
                ..old
            })
            &&& r is Nothing
        },
        Action::PlaylistNameInput(c) => name_buffer_set(old, new, pv.name_buffer@.push(c))
            && r is Nothing,
        Action::PlaylistNameBackspace => name_buffer_set(
            old,
            new,
            if pv.name_buffer@.len() > 0 {
                pv.name_buffer@.drop_last()
            } else {
                pv.name_buffer@
            },
        ) && r is Nothing,
        Action::PlaylistNameSubmit => name_input_closed(old, new) && submitted_name(old, r),
        Action::PlaylistNameCancel => name_input_closed(old, new) && r is Nothing,
        Action::PlaylistDelete => new == old && r == match selected_playlist(old, false) {
            Some(i) => Command::DeletePlaylist(i),
            None => Command::Nothing,
        },
        Action::PlaylistRename => r is Nothing && match selected_playlist(old, false) {
            Some(i) => {
                &&& new.playlist_view.name_buffer@ == pv.playlists@[i as int].name@
                &&& new == (AppState {
                    input_mode: InputMode::PlaylistName,
                    playlist_view: PlaylistViewState {
                        creating: true,
                        name_buffer: new.playlist_view.name_buffer,
                        ..pv
                    },
                    ..old
                })
            },
            None => new == old,
        },
        Action::PlaylistRemoveTrack => new == old && r == match selected_playlist(old, true) {
            Some(i) => Command::RemovePlaylistTrack(
                i,
                (pv.track_column.selected as i32 + 1) as i32,
            ),
            None => Command::Nothing,
        },
        Action::PlaylistPaneLeft => r is Nothing && new == if pv.depth > 0 {
            AppState { playlist_view: PlaylistViewState { depth: 0, ..pv }, ..old }
        } else {
            old
        },
        Action::PlaylistPaneRight => if pv.depth == 0 && pv.playlists.len() > 0 {
            &&& new == (AppState { playlist_view: PlaylistViewState { depth: 1, ..pv }, ..old })
            &&& r == Command::Load(LoadRequest::PlaylistTracks)
        } else {
            new == old && r is Nothing
        },
        Action::AddToPlaylist => new == old && r == match track_to_add(old) {
            Some(t) => Command::AddToPlaylist(t),
            None => Command::NoTrackSelected,
        },
        _ => new == old && r is Nothing,
    }
}

/// What the playlist actions need of the state: a track position that the
/// playlist database can number.
pub open spec fn playlist_fits(s: AppState, a: Action) -> bool {
    a is PlaylistRemoveTrack ==> (s.playlist_view.track_column.selected as i32) < i32::MAX
}

/// Creates, renames, deletes and edits playlists.
pub fn handle_playlist_action(action: Action, state: &mut AppState) -> (r: Command)
    requires
        old(state).wf(),
        playlist_fits(*old(state), action),
    ensures
        final(state).wf(),
        playlist_step(*old(state), action, *final(state), r),
{
    match action {
        Action::PlaylistCreate => {
            state.playlist_view.creating = true;
            state.playlist_view.name_buffer = String::new();
            state.input_mode = InputMode::PlaylistName;
            Command::Nothing
        },
        Action::PlaylistNameInput(c) => {
            state.playlist_view.name_buffer.push(c);
            Command::Nothing
        },
        Action::PlaylistNameBackspace => {
            let _ = state.playlist_view.name_buffer.pop();
            Command::Nothing
        },
        Action::PlaylistNameSubmit => {
            let mut name = String::new();
            std::mem::swap(&mut name, &mut state.playlist_view.name_buffer);
            let r = if name.as_str().is_empty() {
                Command::Nothing
            } else {
                let i = state.playlist_view.list_column.selected;
                if i < state.playlist_view.playlists.len()
                    && state.playlist_view.playlists[i].name != name {
                    Command::RenamePlaylist(i, name)
                } else {
                    Command::CreatePlaylist(name)
                }
            };
            state.playlist_view.creating = false;
            state.input_mode = InputMode::Normal;
            r
        },
        Action::PlaylistNameCancel => {
            state.playlist_view.creating = false;
            state.playlist_view.name_buffer = String::new();
            state.input_mode = InputMode::Normal;
            Command::Nothing
        },
        Action::PlaylistDelete => {
            let i = state.playlist_view.list_column.selected;
            if state.active_view == ViewId::Playlists && state.playlist_view.depth == 0 && i
                < state.playlist_view.playlists.len() {
                Command::DeletePlaylist(i)
            } else {
                Command::Nothing
            }
        },
        Action::PlaylistRename => {
            let i = state.playlist_view.list_column.selected;
            if state.active_view == ViewId::Playlists && state.playlist_view.depth == 0 && i
                < state.playlist_view.playlists.len() {
                let name = state.playlist_view.playlists[i].name.clone();
                state.playlist_view.creating = true;
                state.playlist_view.name_buffer = name;
                state.input_mode = InputMode::PlaylistName;
            }
            Command::Nothing
        },
        Action::PlaylistRemoveTrack => {
            let i = state.playlist_view.list_column.selected;
            if state.active_view == ViewId::Playlists && state.playlist_view.depth == 1 && i
                < state.playlist_view.playlists.len() {
                let position = state.playlist_view.track_column.selected as i32 + 1;
                Command::RemovePlaylistTrack(i, position)
            } else {
                Command::Nothing
            }
        },
        Action::PlaylistPaneLeft => {
            if state.playlist_view.depth > 0 {
                state.playlist_view.depth = 0;
            }
            Command::Nothing
        },
        Action::PlaylistPaneRight => {
            if state.playlist_view.depth == 0 && state.playlist_view.playlists.len() > 0 {
                state.playlist_view.depth = 1;
                Command::Load(LoadRequest::PlaylistTracks)
            } else {
                Command::Nothing
            }
        },
        Action::AddToPlaylist => add_to_playlist(state),
        _ => Command::Nothing,
    }
}

/// What "add to playlist" asks for.
pub fn add_to_playlist(state: &AppState) -> (r: Command)
    ensures
        r == match track_to_add(*state) {
            Some(t) => Command::AddToPlaylist(t),
            None => Command::NoTrackSelected,
        },
{
    let track = match state.active_view {
        ViewId::Library => {
            let i = state.library.columns[2].selected;
            if i < state.library.tracks.len() {
                Some(TrackRef::Library(i))
            } else {
                None
            }
        },
        ViewId::Search => {
            let i = state.search.column.selected;
            if i < state.search.results.len() {
                Some(TrackRef::Search(i))
            } else {
                None
            }
        },
        _ => None,
    };
    match track {
        Some(t) => Command::AddToPlaylist(t),
        None => Command::NoTrackSelected,
    }
}

// Dispatch

/// Whether an action moves the selection within a list.
pub open spec fn is_motion(a: Action) -> bool {
    a is Up || a is Down || a is GoTop || a is GoBottom || a is PageUp || a is PageDown
}

/// Whether an action can be handled in a state without an index leaving
/// its range (where the running program would stop).
pub open spec fn action_fits(s: AppState, a: Action) -> bool {
    &&& is_motion(a) ==> focus_fits(s)
    &&& playback_fits(s, a)
    &&& playlist_fits(s, a)
}

/// How an action changes the state and what it asks of the event loop.
pub open spec fn action_step(
    old: AppState,
    a: Action,
    player: PlayerState,
    new: AppState,
    r: Command,
) -> bool {
    match a {
        Action::Quit => new == (AppState { running: false, ..old }) && r is Nothing,
        Action::Refresh => new == old && r is Refresh,
        Action::Nothing => new == old && r is Nothing,
        Action::SwitchView(_) | Action::OpenSearch | Action::CloseOverlay => view_step(
            old,
            a,
            new,
            r,
        ),
        Action::Up | Action::Down | Action::Left | Action::Right | Action::Select
        | Action::GoTop | Action::GoBottom | Action::PageUp | Action::PageDown => navigation_step(
            old,
            a,
            new,
            r,
        ),
        Action::SearchInput(_) | Action::SearchBackspace | Action::SearchSubmit => search_step(
            old,
            a,
            new,
            r,
        ),
        Action::PlayPause | Action::Stop | Action::NextTrack | Action::PrevTrack
        | Action::SeekForward | Action::SeekBackward | Action::VolumeUp | Action::VolumeDown
        | Action::ToggleMute | Action::ToggleShuffle | Action::CycleRepeat => playback_step(
            old,
            a,
            player,
            new,
            r,
        ),
        Action::AddToQueue | Action::AddAlbumToQueue | Action::RemoveFromQueue
        | Action::MoveUp | Action::MoveDown => queue_step(old, a, new, r),
        Action::EqBandLeft | Action::EqBandRight | Action::EqGainUp | Action::EqGainDown
        | Action::EqToggleBypass | Action::EqNextPreset | Action::EqReset => eq_step(
            old,
            a,
            new,
            r,
        ),
        _ => playlist_step(old, a, new, r),
    }
}

/// Whether a column fits (see `column_fits`).
fn column_has_room(c: &ColumnState) -> (r: bool)
    ensures
        r == column_fits(*c),
{
    c.selected <= usize::MAX - PAGE_ROWS && c.offset <= usize::MAX - PAGE_ROWS
}

impl AppState {
    /// Whether `handle_action` can take this action in this state (see
    /// `action_fits`).
    pub fn can_handle(&self, action: Action) -> (r: bool)
        requires
            self.wf(),
        ensures
            r == action_fits(*self, action),
    {
        let motion = match action {
            Action::Up | Action::Down | Action::GoTop | Action::GoBottom | Action::PageUp
            | Action::PageDown => true,
            _ => false,
        };
        let focus_ok = match self.active_view {
            ViewId::Library => column_has_room(&self.library.columns[self.library.depth]),
            ViewId::Queue => column_has_room(&self.queue_view.column),
            ViewId::Playlists => if self.playlist_view.depth == 0 {
                column_has_room(&self.playlist_view.list_column)
            } else {
                column_has_room(&self.playlist_view.track_column)
            },
            ViewId::Search => column_has_room(&self.search.column),
            _ => true,
        };
        let playback_ok = match action {
            Action::NextTrack => self.library.columns[2].selected < usize::MAX,
            Action::ToggleShuffle => self.play_queue.shuffle() || self.play_queue.len() <= 1
                || self.play_queue.position() < self.play_queue.len(),
            _ => true,
        };
        let playlist_ok = match action {
            Action::PlaylistRemoveTrack => (self.playlist_view.track_column.selected as i32)
                < i32::MAX,
            _ => true,
        };
        (!motion || focus_ok) && playback_ok && playlist_ok
    }
}

/// Takes an action: quits, asks for a refresh, or hands it to the handler of
/// its kind. `player` is what the player is doing.
pub fn handle_action(action: Action, state: &mut AppState, player: PlayerState) -> (r: Command)
    requires
        old(state).wf(),
        action_fits(*old(state), action),
    ensures
        final(state).wf(),
        action_step(*old(state), action, player, *final(state), r),
{
    match action {
        Action::Quit => {
            state.running = false;
            Command::Nothing
        },
        Action::Refresh => Command::Refresh,
        Action::Nothing => Command::Nothing,
        Action::SwitchView(_) | Action::OpenSearch | Action::CloseOverlay => handle_view_action(
            action,
            state,
        ),
        Action::Up | Action::Down | Action::Left | Action::Right | Action::Select
        | Action::GoTop | Action::GoBottom | Action::PageUp | Action::PageDown => {
            handle_navigation_action(action, state)
        },
        Action::SearchInput(_) | Action::SearchBackspace | Action::SearchSubmit => {
            handle_search_action(action, state)
        },
        Action::PlayPause | Action::Stop | Action::NextTrack | Action::PrevTrack
        | Action::SeekForward | Action::SeekBackward | Action::VolumeUp | Action::VolumeDown
        | Action::ToggleMute | Action::ToggleShuffle | Action::CycleRepeat => {
            handle_playback_action(action, state, player)
        },
        Action::AddToQueue | Action::AddAlbumToQueue | Action::RemoveFromQueue
        | Action::MoveUp | Action::MoveDown => handle_queue_action(action, state),
        Action::EqBandLeft | Action::EqBandRight | Action::EqGainUp | Action::EqGainDown
        | Action::EqToggleBypass | Action::EqNextPreset | Action::EqReset => handle_eq_action(
            action,
            state,
        ),
        _ => handle_playlist_action(action, state),
    }
}

// Status messages

/// How many seconds a status message stays shown.
pub const STATUS_SHOWN_SECS: u64 = 5;

/// Whether a status message that has been shown for `elapsed` is due to be
/// cleared: it stays for five seconds and goes once more time has passed.
pub fn status_expired(elapsed: &Duration) -> (r: bool)
    ensures
        r == (elapsed.total() > STATUS_SHOWN_SECS * 1_000_000_000),
{
    elapsed.is_longer_than(&Duration::from_secs(STATUS_SHOWN_SECS))
}

// Laws of the dispatch

/// Pressing `m` twice gives back the mute switch it started with, and asks
/// the player to mute and unmute (or the other way round) in turn.
pub proof fn law_mute_twice(
    s0: AppState,
    p: PlayerState,
    s1: AppState,
    r1: Command,
    s2: AppState,
    r2: Command,
)
    requires
        action_step(s0, Action::ToggleMute, p, s1, r1),
        action_step(s1, Action::ToggleMute, p, s2, r2),
    ensures
        s2 == s0,
        r1 == Command::SetMute(!s0.playback.muted),
        r2 == Command::SetMute(s0.playback.muted),
{
}

/// In the library, moving right and then left comes back to the column it
/// started from, unless the focus was already on the tracks.
pub proof fn law_right_then_left(
    s0: AppState,
    p: PlayerState,
    s1: AppState,
    r1: Command,
    s2: AppState,
    r2: Command,
)
    requires
        s0.active_view == ViewId::Library,
        s0.library.depth < 2,
        action_step(s0, Action::Right, p, s1, r1),
        action_step(s1, Action::Left, p, s2, r2),
    ensures
        s2 == s0,
        r1 is Load,
        r2 is Nothing,
{
}

/// Opening the search and closing it again lands on the library view in
/// normal mode with the search closed and emptied; the library, the queue,
/// the playback, the equalizer and the playlists are as they were.
pub proof fn law_open_then_close_search(
    s0: AppState,
    p: PlayerState,
    s1: AppState,
    r1: Command,
    s2: AppState,
    r2: Command,
)
    requires
        action_step(s0, Action::OpenSearch, p, s1, r1),
        action_step(s1, Action::CloseOverlay, p, s2, r2),
    ensures
        s2.active_view == ViewId::Library,
        s2.input_mode == InputMode::Normal,
        !s2.search.active,
        s2.search.query@.len() == 0,
        s2.search.results@.len() == 0,
        s2.library == s0.library,
        s2.playback == s0.playback,
        s2.play_queue == s0.play_queue,
        s2.queue_view == s0.queue_view,
        s2.eq == s0.eq,
        s2.playlist_view == s0.playlist_view,
        s2.running == s0.running,
        r1 is Nothing,
        r2 is Nothing,
{
}

/// Typing a character into the search and erasing it gives back the query,
/// with the cursor after it; each keystroke runs the search again.
pub proof fn law_type_then_erase(
    s0: AppState,
    c: char,
    p: PlayerState,
    s1: AppState,
    r1: Command,
    s2: AppState,
    r2: Command,
)
    requires
        action_step(s0, Action::SearchInput(c), p, s1, r1),
        action_step(s1, Action::SearchBackspace, p, s2, r2),
    ensures
        s2.search.query@ == s0.search.query@,
        s2 == (AppState {
            search: SearchState {
                query: s2.search.query,
                cursor: byte_len(s0.search.query@) as usize,
                ..s0.search
            },
            ..s0
        }),
        r1 is RunSearch,
        r2 is RunSearch,
{
    assert(s0.search.query@.push(c).drop_last() =~= s0.search.query@);
}

/// Whatever the action, the selected equalizer band stays one of the
/// bands, and the gain keys address that band.
pub proof fn law_band_stays_in_range(
    s0: AppState,
    a: Action,
    p: PlayerState,
    s1: AppState,
    r: Command,
)
    requires
        s0.eq.selected_band < EQ_BANDS,
        action_step(s0, a, p, s1, r),
    ensures
        s1.eq.selected_band < EQ_BANDS,
        r matches Command::EqGainUp(b) ==> b < EQ_BANDS,
        r matches Command::EqGainDown(b) ==> b < EQ_BANDS,
{
}

/// Starting a new playlist name and cancelling it leaves the name input
/// closed and empty, back in normal mode, and changes nothing else.
pub proof fn law_create_then_cancel(
    s0: AppState,
    p: PlayerState,
    s1: AppState,
    r1: Command,
    s2: AppState,
    r2: Command,
)
    requires
        action_step(s0, Action::PlaylistCreate, p, s1, r1),
        action_step(s1, Action::PlaylistNameCancel, p, s2, r2),
    ensures
        s2.playlist_view.name_buffer@.len() == 0,
        s2 == (AppState {
            input_mode: InputMode::Normal,
            playlist_view: PlaylistViewState {
                creating: false,
                name_buffer: s2.playlist_view.name_buffer,
                ..s0.playlist_view
            },
            ..s0
        }),
        r1 is Nothing,
        r2 is Nothing,
{
}

/// Pressing `r` three times comes back to the repeat mode it started from,
/// in the queue and on the now-playing panel alike.
pub proof fn law_repeat_three_times(
    s0: AppState,
    p: PlayerState,
    s1: AppState,
    r1: Command,
    s2: AppState,
    r2: Command,
    s3: AppState,
    r3: Command,
)
    requires
        action_step(s0, Action::CycleRepeat, p, s1, r1),
        action_step(s1, Action::CycleRepeat, p, s2, r2),
        action_step(s2, Action::CycleRepeat, p, s3, r3),
    ensures
        s3.play_queue@ == s0.play_queue@,
        s3.playback.repeat == s0.play_queue@.repeat,
{
    crate::types::law_repeat_cycle_period(s0.play_queue@.repeat);
}

/// Pressing `z` twice, starting unshuffled, gives back the queue's items in
/// their order and the same current track, when every track is in the queue
/// once and in the order it was added; the shuffle switch is off again.
pub proof fn law_shuffle_twice(
    s0: AppState,
    p: PlayerState,
    s1: AppState,
    r1: Command,
    s2: AppState,
    r2: Command,
)
    requires
        !s0.play_queue@.shuffle,
        distinct_ids(s0.play_queue@.items),
        s0.play_queue@.original_order == ids_of(s0.play_queue@.items),
        action_step(s0, Action::ToggleShuffle, p, s1, r1),
        action_step(s1, Action::ToggleShuffle, p, s2, r2),
    ensures
        s2.play_queue@.items == s0.play_queue@.items,
        s0.play_queue@.position < s0.play_queue@.items.len() || s0.play_queue@.items.len() <= 1
            ==> s2.play_queue@.position == s0.play_queue@.position,
        !s2.play_queue@.shuffle,
        !s2.playback.shuffle,
{
    crate::queue::law_shuffle_then_unshuffle(s0.play_queue@, s1.play_queue@, s2.play_queue@);
}

// Loaded data

/// The id of the item of `s` at `i`, by `id`.
pub open spec fn artist_id_at(s: Seq<ArtistRow>, i: usize) -> Option<i64> {
    if i < s.len() {
        Some(s[i as int].id)
    } else {
        None
    }
}

/// The id of the album of `s` at `i`.
pub open spec fn album_id_at(s: Seq<AlbumRow>, i: usize) -> Option<i64> {
    if i < s.len() {
        Some(s[i as int].id)
    } else {
        None
    }
}

/// Where a reloaded list puts its selection: where it was, or on the last
/// item when the list got shorter.
pub open spec fn kept_selection(c: ColumnState, total: usize) -> ColumnState {
    column_select(
        c,
        crate::tui::min_usize(c.selected as int, crate::tui::saturating_sub(total, 1) as int),
        total,
    )
}

/// Selects `index` of `total`, like `ColumnState::select`, keeping the
/// selection where it was unless the list got shorter.
fn keep_selection(c: &mut ColumnState, total: usize)
    ensures
        *final(c) == kept_selection(*old(c), total),
{
    let last = if total >= 1 {
        total - 1
    } else {
        0
    };
    let at = if c.selected <= last {
        c.selected
    } else {
        last
    };
    c.select(at, total);
}

/// The track a reference points at, if the list is that long.
pub open spec fn referenced_track(s: AppState, r: TrackRef) -> Option<TrackRow> {
    match r {
        TrackRef::Library(i) => crate::tui::item_at(s.library.tracks@, i as int),
        TrackRef::Search(i) => crate::tui::item_at(s.search.results@, i as int),
        TrackRef::Playlist(i) => crate::tui::item_at(s.playlist_view.tracks@, i as int),
    }
}

impl AppState {
    /// The track a reference points at.
    pub fn track(&self, r: TrackRef) -> (res: Option<&TrackRow>)
        ensures
            crate::tui::deref_opt(res) == referenced_track(*self, r),
    {
        let (list, i) = match r {
            TrackRef::Library(i) => (&self.library.tracks, i),
            TrackRef::Search(i) => (&self.search.results, i),
            TrackRef::Playlist(i) => (&self.playlist_view.tracks, i),
        };
        if i < list.len() {
            Some(&list[i])
        } else {
            None
        }
    }
}

impl AppState {
    /// Shows loaded artists, with the first one selected.
    pub fn set_artists(&mut self, artists: Vec<ArtistRow>)
        requires
            old(self).wf(),
        ensures
            final(self).wf(),
            final(self).library.artists == artists,
            library_column_replaced(
                AppState { library: LibraryState { artists, ..old(self).library }, ..*old(self) },
                *final(self),
                0,
                column_select(old(self).library.columns[0], 0, artists.len()),
            ),
    {
        self.library.artists = artists;
        let mut c = self.library.columns[0];
        c.select(0, self.library.artists.len());
        self.library.columns[0] = c;
    }

    /// Filters the albums by the selected artist, and returns that artist's id.
    pub fn album_filter(&mut self) -> (r: Option<i64>)
        requires
            old(self).wf(),
        ensures
            final(self).wf(),
            r == artist_id_at(old(self).library.artists@, old(self).library.columns[0].selected),
            *final(self) == (AppState {
                library: LibraryState { filter_artist_id: r, ..old(self).library },
                ..*old(self)
            }),
    {
        let i = self.library.columns[0].selected;
        let id = if i < self.library.artists.len() {
            Some(self.library.artists[i].id)
        } else {
            None
        };
        self.library.filter_artist_id = id;
        id
    }

    /// Shows loaded albums, with the first one selected.
    pub fn set_albums(&mut self, albums: Vec<AlbumRow>)
        requires
            old(self).wf(),
        ensures
            final(self).wf(),
            final(self).library.albums == albums,
            library_column_replaced(
                AppState { library: LibraryState { albums, ..old(self).library }, ..*old(self) },
                *final(self),
                1,
                column_select(old(self).library.columns[1], 0, albums.len()),
            ),
    {
        self.library.albums = albums;
        let mut c = self.library.columns[1];
        c.select(0, self.library.albums.len());
        self.library.columns[1] = c;
    }

    /// Filters the tracks by the selected album, and returns that album's id
    /// and the artist filter.
    pub fn track_filter(&mut self) -> (r: (Option<i64>, Option<i64>))
        requires
            old(self).wf(),
        ensures
            final(self).wf(),
            r.0 == album_id_at(old(self).library.albums@, old(self).library.columns[1].selected),
            r.1 == old(self).library.filter_artist_id,
            *final(self) == (AppState {
                library: LibraryState { filter_album_id: r.0, ..old(self).library },
                ..*old(self)
            }),
    {
        let i = self.library.columns[1].selected;
        let id = if i < self.library.albums.len() {
            Some(self.library.albums[i].id)
        } else {
            None
        };
        self.library.filter_album_id = id;
        (id, self.library.filter_artist_id)
    }

    /// Shows loaded tracks, with the first one selected.
    pub fn set_tracks(&mut self, tracks: Vec<TrackRow>)
        requires
            old(self).wf(),
        ensures
            final(self).wf(),
            final(self).library.tracks == tracks,
            library_column_replaced(
                AppState { library: LibraryState { tracks, ..old(self).library }, ..*old(self) },
                *final(self),
                2,
                column_select(old(self).library.columns[2], 0, tracks.len()),
            ),
    {
        self.library.tracks = tracks;
        let mut c = self.library.columns[2];
        c.select(0, self.library.tracks.len());
        self.library.columns[2] = c;
    }

    /// Shows reloaded playlists, keeping the selection in the list.
    pub fn set_playlists(&mut self, playlists: Vec<Playlist>)
        requires
            old(self).wf(),
        ensures
            final(self).wf(),
            *final(self) == (AppState {
                playlist_view: PlaylistViewState {
                    playlists,
                    list_column: kept_selection(
                        old(self).playlist_view.list_column,
                        playlists.len(),
                    ),
                    ..old(self).playlist_view
                },
                ..*old(self)
            }),
    {
        self.playlist_view.playlists = playlists;
        let total = self.playlist_view.playlists.len();
        keep_selection(&mut self.playlist_view.list_column, total);
    }

    /// The index of the selected playlist, when one is selected.
    pub fn selected_playlist_index(&self) -> (r: Option<usize>)
        ensures
            r == if self.playlist_view.list_column.selected < self.playlist_view.playlists.len() {
                Some(self.playlist_view.list_column.selected)
            } else {
                None
            },
    {
        let i = self.playlist_view.list_column.selected;
        if i < self.playlist_view.playlists.len() {
            Some(i)
        } else {
            None
        }
    }

    /// Shows the loaded tracks of the selected playlist, keeping the
    /// selection in the list.
    pub fn set_playlist_tracks(&mut self, tracks: Vec<TrackRow>)
        requires
            old(self).wf(),
        ensures
            final(self).wf(),
            *final(self) == (AppState {
                playlist_view: PlaylistViewState {
                    tracks,
                    track_column: kept_selection(
                        old(self).playlist_view.track_column,
                        tracks.len(),
                    ),
                    ..old(self).playlist_view
                },
                ..*old(self)
            }),
    {
        self.playlist_view.tracks = tracks;
        let total = self.playlist_view.tracks.len();
        keep_selection(&mut self.playlist_view.track_column, total);
    }

    /// Empties the playlist track pane.
    pub fn clear_playlist_tracks(&mut self)
        requires
            old(self).wf(),
        ensures
            final(self).wf(),
            final(self).playlist_view.tracks@.len() == 0,
            *final(self) == (AppState {
                playlist_view: PlaylistViewState {
                    tracks: final(self).playlist_view.tracks,
                    ..old(self).playlist_view
                },
                ..*old(self)
            }),
    {
        self.playlist_view.tracks = Vec::new();
    }

    /// Whether the query calls for a search; an empty query clears the
    /// results instead.
    pub fn search_needed(&mut self) -> (r: bool)
        requires
            old(self).wf(),
        ensures
            final(self).wf(),
            r == (old(self).search.query@.len() > 0),
            r ==> *final(self) == *old(self),
            !r ==> final(self).search.results@.len() == 0 && *final(self) == (AppState {
                search: SearchState { results: final(self).search.results, ..old(self).search },
                ..*old(self)
            }),
    {
        if self.search.query.as_str().is_empty() {
            self.search.results = Vec::new();
            false
        } else {
            true
        }
    }

    /// Shows search results, with the first one selected.
    pub fn set_search_results(&mut self, results: Vec<TrackRow>)
        requires
            old(self).wf(),
        ensures
            final(self).wf(),
            *final(self) == (AppState {
                search: SearchState {
                    results,
                    column: column_select(old(self).search.column, 0, results.len()),
                    ..old(self).search
                },
                ..*old(self)
            }),
    {
        self.search.results = results;
        let total = self.search.results.len();
        self.search.column.select(0, total);
    }

    /// Empties the search results (after a failed search).
    pub fn clear_search_results(&mut self)
        requires
            old(self).wf(),
        ensures
            final(self).wf(),
            final(self).search.results@.len() == 0,
            *final(self) == (AppState {
                search: SearchState { results: final(self).search.results, ..old(self).search },
                ..*old(self)
            }),
    {
        self.search.results = Vec::new();
    }

    /// Adds an item at the end of the queue and makes it the current one.
    pub fn queue_and_jump(&mut self, item: QueueItem)
        requires
            old(self).wf(),
        ensures
            final(self).wf(),
            ({
                let q = queue_after_push(old(self).play_queue@, item);
                final(self).play_queue@ == jump_state(q, (q.items.len() - 1) as usize)
            }),
            *final(self) == (AppState { play_queue: final(self).play_queue, ..*old(self) }),
    {
        self.play_queue.push_back(item);
        let last = self.play_queue.len() - 1;
        let _ = self.play_queue.jump_to(last);
    }
}

// Playing tracks

/// The queue item for a track, with the artist name looked up for it.
pub fn track_to_queue_item(track: &TrackRow, artist: Option<String>) -> (r: QueueItem)
    ensures
        r.track_id == track.id,
        r.title == track.title,
        r.artist == artist,
        r.duration_ms == track.duration_ms,
        r.path == track.path,
{
    QueueItem::new(track.id, track.title.clone(), artist, track.duration_ms, track.path.clone())
}

/// The cached artwork file of an album: `<hash>.png` in the artwork cache.
pub fn artwork_path_for(cache_dir: &str, hash: &str) -> (r: String)
    ensures
        r@ == join(cache_dir@, hash@ + ".png"@),
{
    let mut f = String::new();
    push_str(&mut f, hash);
    push_str(&mut f, ".png");
    join_path(cache_dir, f.as_str())
}

/// Whether the artwork must be loaded from disk: there is an artwork file
/// and it is not the one already loaded.
pub fn artwork_needs_load(path: &Option<String>, loaded: &Option<String>) -> (r: bool)
    ensures
        r == match (path, loaded) {
            (Some(p), Some(l)) => p@ != l@,
            (Some(_), None) => true,
            (None, _) => false,
        },
{
    match (path, loaded) {
        (Some(p), Some(l)) => !str_eq(p.as_str(), l.as_str()),
        (Some(_), None) => true,
        (None, _) => false,
    }
}

/// The length of a track, from its length in milliseconds (zero when
/// negative).
pub open spec fn track_length_ms(track: TrackRow) -> u64 {
    if track.duration_ms < 0 {
        0
    } else {
        track.duration_ms as u64
    }
}

/// The playback once a track has started: playing from zero for the track's
/// length, with its format, artist, album and artwork.
pub open spec fn started_playback(
    old: PlaybackState,
    new: PlaybackState,
    track: TrackRow,
    artist_name: Option<String>,
    album_title: Option<String>,
    artwork_path: Option<String>,
) -> bool {
    &&& new.position@ == (0u64, 0u32)
    &&& new.duration.total() == track_length_ms(track) * 1_000_000
    &&& new == (PlaybackState {
        status: PlayStatus::Playing,
        current_track: Some(track),
        source_format: track_format(track),
        artist_name,
        album_title,
        artwork_path,
        position: new.position,
        duration: new.duration,
        ..old
    })
}

impl PlaybackState {
    /// Shows a track that started playing.
    pub fn start(
        &mut self,
        track: TrackRow,
        artist_name: Option<String>,
        album_title: Option<String>,
        artwork_path: Option<String>,
    )
        ensures
            started_playback(*old(self), *final(self), track, artist_name, album_title, artwork_path),
    {
        let millis: u64 = if track.duration_ms < 0 {
            0
        } else {
            track.duration_ms as u64
        };
        self.source_format = build_format(&track);
        self.artwork_path = artwork_path;
        self.status = PlayStatus::Playing;
        self.current_track = Some(track);
        self.artist_name = artist_name;
        self.album_title = album_title;
        self.position = Duration::zero();
        self.duration = Duration::from_millis(millis);
    }

    /// Shows that nothing plays any more after the last track ended.
    pub fn finish(&mut self)
        ensures
            final(self).position@ == (0u64, 0u32),
            final(self).duration@ == (0u64, 0u32),
            *final(self) == (PlaybackState {
                status: PlayStatus::Stopped,
                current_track: None,
                source_format: None,
                artist_name: None,
                album_title: None,
                artwork_path: None,
                position: final(self).position,
                duration: final(self).duration,
                ..*old(self)
            }),
    {
        self.status = PlayStatus::Stopped;
        self.current_track = None;
        self.source_format = None;
        self.artist_name = None;
        self.album_title = None;
        self.artwork_path = None;
        self.position = Duration::zero();
        self.duration = Duration::zero();
    }
}

// Polling the player

/// The status shown for what the player is doing.
pub open spec fn status_of(p: PlayerState) -> PlayStatus {
    match p {
        PlayerState::Playing => PlayStatus::Playing,
        PlayerState::Paused => PlayStatus::Paused,
        PlayerState::Stopped => PlayStatus::Stopped,
        PlayerState::Loading => PlayStatus::Buffering,
    }
}

/// The status shown for what the player is doing.
pub fn player_status(p: PlayerState) -> (r: PlayStatus)
    ensures
        r == status_of(p),
{
    match p {
        PlayerState::Playing => PlayStatus::Playing,
        PlayerState::Paused => PlayStatus::Paused,
        PlayerState::Stopped => PlayStatus::Stopped,
        PlayerState::Loading => PlayStatus::Buffering,
    }
}

/// Whether the shown position follows the player: while playing or paused.
pub fn follows_position(status: PlayStatus) -> (r: bool)
    ensures
        r == (status == PlayStatus::Playing || status == PlayStatus::Paused),
{
    status == PlayStatus::Playing || status == PlayStatus::Paused
}

impl AppState {
    /// After the current track ended: moves the queue on, and returns the id
    /// of the track to play next, if the queue has one.
    pub fn track_ended(&mut self) -> (r: Option<i64>)
        requires
            old(self).wf(),
        ensures
            final(self).wf(),
            final(self).play_queue@ == next_state(old(self).play_queue@),
            r == match queued_next(old(self).play_queue@) {
                Some(item) => Some(item.track_id),
                None => None,
            },
            *final(self) == (AppState { play_queue: final(self).play_queue, ..*old(self) }),
    {
        match self.play_queue.next() {
            Some(item) => Some(item.track_id),
            None => None,
        }
    }
}

} // verus!
