//! The terminal interface's state and its key bindings.
use vstd::prelude::*;

use crate::library::{AlbumRow, ArtistRow, TrackRow};
use crate::playlist::Playlist;

verus! {

// Views

/// The views of the interface, in tab order.
#[derive(Clone, Copy, Debug, PartialEq, Eq, Structural)]
pub enum ViewId {
    Library,
    NowPlaying,
    Queue,
    Equalizer,
    Search,
    Playlists,
}

/// The tab position of a view.
pub open spec fn view_index(v: ViewId) -> nat {
    match v {
        ViewId::Library => 0,
        ViewId::NowPlaying => 1,
        ViewId::Queue => 2,
        ViewId::Equalizer => 3,
        ViewId::Search => 4,
        ViewId::Playlists => 5,
    }
}

/// The view at a tab position.
pub open spec fn view_at(i: nat) -> Option<ViewId> {
    if i == 0 {
        Some(ViewId::Library)
    } else if i == 1 {
        Some(ViewId::NowPlaying)
    } else if i == 2 {
        Some(ViewId::Queue)
    } else if i == 3 {
        Some(ViewId::Equalizer)
    } else if i == 4 {
        Some(ViewId::Search)
    } else if i == 5 {
        Some(ViewId::Playlists)
    } else {
        None
    }
}

impl ViewId {
    /// The tab position of this view.
    pub fn index(self) -> (r: usize)
        ensures
            r == view_index(self),
    {
        match self {
            ViewId::Library => 0,
            ViewId::NowPlaying => 1,
            ViewId::Queue => 2,
            ViewId::Equalizer => 3,
            ViewId::Search => 4,
            ViewId::Playlists => 5,
        }
    }

    /// The view at a tab position, if there is one.
    pub fn from_index(i: usize) -> (r: Option<Self>)
        ensures
            r == view_at(i as nat),
    {
        match i {
            0 => Some(ViewId::Library),
            1 => Some(ViewId::NowPlaying),
            2 => Some(ViewId::Queue),
            3 => Some(ViewId::Equalizer),
            4 => Some(ViewId::Search),
            5 => Some(ViewId::Playlists),
            _ => None,
        }
    }

    /// The tab label of this view.
    pub fn label(self) -> (r: &'static str)
        ensures
            r@ == match self {
                ViewId::Library => "Library"@,
                ViewId::NowPlaying => "Playing"@,
                ViewId::Queue => "Queue"@,
                ViewId::Equalizer => "EQ"@,
                ViewId::Search => "Search"@,
                ViewId::Playlists => "Plists"@,
            },
    {
        match self {
            ViewId::Library => "Library",
            ViewId::NowPlaying => "Playing",
            ViewId::Queue => "Queue",
            ViewId::Equalizer => "EQ",
            ViewId::Search => "Search",
            ViewId::Playlists => "Plists",
        }
    }
}

/// Every view is found again at its own tab position, and every tab
/// position below six holds the view with that position.
pub proof fn law_view_index_round_trip(v: ViewId, i: nat)
    ensures
        view_at(view_index(v)) == Some(v),
        view_index(v) < 6,
        i < 6 ==> (view_at(i) matches Some(w) && view_index(w) == i),
        i >= 6 ==> view_at(i) is None,
{
}

/// How keys are read.
#[derive(Clone, Copy, Debug, PartialEq, Eq, Structural)]
pub enum InputMode {
    Normal,
    Search,
    PlaylistName,
}

/// The key hints the status bar shows for a view.
pub open spec fn key_hint_text(view: ViewId) -> Seq<char> {
    match view {
        ViewId::Library => "hjkl:navigate  Enter:play  a:queue  /:search"@,
        ViewId::NowPlaying => "Space:pause  <>:seek  +-:vol  m:mute"@,
        ViewId::Queue => "jk:navigate  d:remove  JK:reorder"@,
        ViewId::Equalizer => "hl:band  jk:gain  b:bypass  p:preset  0:reset"@,
        ViewId::Search => "Type to search  Enter:select  Esc:close"@,
        ViewId::Playlists => "hl:panes  n:new  d:delete  r:rename  x:remove track  Enter:play"@,
    }
}

/// The key hints the status bar shows for a view.
pub fn key_hints(view: ViewId) -> (r: &'static str)
    ensures
        r@ == key_hint_text(view),
{
    match view {
        ViewId::Library => "hjkl:navigate  Enter:play  a:queue  /:search",
        ViewId::NowPlaying => "Space:pause  <>:seek  +-:vol  m:mute",
        ViewId::Queue => "jk:navigate  d:remove  JK:reorder",
        ViewId::Equalizer => "hl:band  jk:gain  b:bypass  p:preset  0:reset",
        ViewId::Search => "Type to search  Enter:select  Esc:close",
        ViewId::Playlists => "hl:panes  n:new  d:delete  r:rename  x:remove track  Enter:play",
    }
}

// Columns

/// The selection and scroll offset of a list.
#[derive(Clone, Copy, Debug, Default, PartialEq, Eq, Structural)]
pub struct ColumnState {
    pub selected: usize,
    pub offset: usize,
}

/// The last index of a list of `total` items, or zero for an empty list.
pub open spec fn last_index(total: usize) -> usize {
    if total == 0 {
        0
    } else {
        (total - 1) as usize
    }
}

/// The smaller of two numbers.
pub open spec fn min_usize(a: int, b: int) -> usize {
    if a <= b {
        a as usize
    } else {
        b as usize
    }
}

/// `a - b`, or zero when `b` is larger.
pub open spec fn saturating_sub(a: usize, b: usize) -> usize {
    if a >= b {
        (a - b) as usize
    } else {
        0
    }
}

/// The column after selecting `index` of `total` items.
pub open spec fn column_select(c: ColumnState, index: usize, total: usize) -> ColumnState {
    if total == 0 {
        ColumnState { selected: 0, offset: 0 }
    } else {
        ColumnState { selected: min_usize(index as int, last_index(total) as int), ..c }
    }
}

/// The column after moving the selection up.
pub open spec fn column_up(c: ColumnState, total: usize) -> ColumnState {
    if total == 0 {
        c
    } else {
        ColumnState { selected: saturating_sub(c.selected, 1), ..c }
    }
}

/// The column after moving the selection down.
pub open spec fn column_down(c: ColumnState, total: usize) -> ColumnState {
    if total == 0 {
        c
    } else {
        ColumnState { selected: min_usize(c.selected + 1, last_index(total) as int), ..c }
    }
}

/// The column after moving the selection a page up.
pub open spec fn column_page_up(c: ColumnState, page_size: usize) -> ColumnState {
    ColumnState { selected: saturating_sub(c.selected, page_size), ..c }
}

/// The column after moving the selection a page down.
pub open spec fn column_page_down(c: ColumnState, total: usize, page_size: usize) -> ColumnState {
    if total == 0 {
        c
    } else {
        ColumnState {
            selected: min_usize(c.selected + page_size, last_index(total) as int),
            ..c
        }
    }
}

/// The column after scrolling the selection into a window of `height`
/// rows: the window moves just far enough.
pub open spec fn column_scrolled(c: ColumnState, height: usize) -> ColumnState {
    if height == 0 {
        c
    } else if c.selected < c.offset {
        ColumnState { offset: c.selected, ..c }
    } else if c.selected >= c.offset + height {
        ColumnState { offset: (c.selected - height + 1) as usize, ..c }
    } else {
        c
    }
}

impl ColumnState {
    /// Selects `index`, kept within the `total` items.
    pub fn select(&mut self, index: usize, total: usize)
        ensures
            *final(self) == column_select(*old(self), index, total),
    {
        if total == 0 {
            self.selected = 0;
            self.offset = 0;
            return;
        }
        let last = total - 1;
        self.selected = if index <= last {
            index
        } else {
            last
        };
    }

    /// Moves the selection up one item.
    pub fn up(&mut self, total: usize)
        ensures
            *final(self) == column_up(*old(self), total),
    {
        if total == 0 {
            return;
        }
        self.selected = if self.selected >= 1 {
            self.selected - 1
        } else {
            0
        };
    }

    /// Moves the selection down one item, stopping at the last.
    pub fn down(&mut self, total: usize)
        requires
            total == 0 || old(self).selected < usize::MAX,
        ensures
            *final(self) == column_down(*old(self), total),
    {
        if total == 0 {
            return;
        }
        let next = self.selected + 1;
        let last = total - 1;
        self.selected = if next <= last {
            next
        } else {
            last
        };
    }

    /// Moves the selection up a page.
    pub fn page_up(&mut self, page_size: usize)
        ensures
            *final(self) == column_page_up(*old(self), page_size),
    {
        self.selected = if self.selected >= page_size {
            self.selected - page_size
        } else {
            0
        };
    }

    /// Moves the selection down a page, stopping at the last item.
    pub fn page_down(&mut self, total: usize, page_size: usize)
        requires
            total == 0 || old(self).selected + page_size <= usize::MAX,
        ensures
            *final(self) == column_page_down(*old(self), total, page_size),
    {
        if total == 0 {
            return;
        }
        let next = self.selected + page_size;
        let last = total - 1;
        self.selected = if next <= last {
            next
        } else {
            last
        };
    }

    /// Selects the first item.
    pub fn go_top(&mut self)
        ensures
            *final(self) == (ColumnState { selected: 0, ..*old(self) }),
    {
        self.selected = 0;
    }

    /// Selects the last of `total` items.
    pub fn go_bottom(&mut self, total: usize)
        ensures
            *final(self) == if total > 0 {
                ColumnState { selected: (total - 1) as usize, ..*old(self) }
            } else {
                *old(self)
            },
    {
        if total > 0 {
            self.selected = total - 1;
        }
    }

    /// Moves the scroll offset so that the selection shows within `height`
    /// rows.
    pub fn scroll_into_view(&mut self, height: usize)
        requires
            old(self).selected < old(self).offset || old(self).offset + height <= usize::MAX,
        ensures
            *final(self) == column_scrolled(*old(self), height),
            height > 0 ==> final(self).offset <= final(self).selected < final(self).offset
                + height,
    {
        if height == 0 {
            return;
        }
        if self.selected < self.offset {
            self.offset = self.selected;
        } else if self.selected >= self.offset + height {
            self.offset = self.selected - height + 1;
        }
    }
}

/// Moving down and then up returns to the same selection, unless the
/// selection was already at the last item.
pub proof fn law_down_then_up(c: ColumnState, total: usize)
    requires
        c.selected + 1 < total,
    ensures
        column_up(column_down(c, total), total) == c,
{
}

/// Moving up and then down returns to the same selection, unless the
/// selection was already at the first item.
pub proof fn law_up_then_down(c: ColumnState, total: usize)
    requires
        0 < c.selected < total,
    ensures
        column_down(column_up(c, total), total) == c,
{
}

/// In a non-empty list every move leaves the selection on an item, when it
/// started on one.
pub proof fn law_moves_stay_in_range(c: ColumnState, total: usize, index: usize, page: usize)
    requires
        total > 0,
        c.selected < total,
    ensures
        column_select(c, index, total).selected < total,
        column_up(c, total).selected < total,
        column_down(c, total).selected < total,
        column_page_up(c, page).selected < total,
        column_page_down(c, total, page).selected < total,
{
}

/// A window already showing the selection does not move.
pub proof fn law_scroll_keeps_visible_window(c: ColumnState, height: usize)
    requires
        c.offset <= c.selected < c.offset + height,
    ensures
        column_scrolled(c, height) == c,
{
}

// Library browsing

/// The ranger-style library browser: artists, albums and tracks side by
/// side.
#[derive(Clone, Debug, Default)]
pub struct LibraryState {
    /// Which column (0 = artists, 1 = albums, 2 = tracks) has the focus
    pub depth: usize,
    pub columns: [ColumnState; 3],
    pub artists: Vec<ArtistRow>,
    pub albums: Vec<AlbumRow>,
    pub tracks: Vec<TrackRow>,
    pub filter_artist_id: Option<i64>,
    pub filter_album_id: Option<i64>,
}

/// The item at an index, when there is one.
pub open spec fn item_at<T>(s: Seq<T>, i: int) -> Option<T> {
    if 0 <= i < s.len() {
        Some(s[i])
    } else {
        None
    }
}

/// The reference, as the value it refers to.
pub open spec fn deref_opt<T>(r: Option<&T>) -> Option<T> {
    match r {
        Some(x) => Some(*x),
        None => None,
    }
}

impl LibraryState {
    /// The artist selected in the first column.
    pub fn selected_artist(&self) -> (r: Option<&ArtistRow>)
        ensures
            deref_opt(r) == item_at(self.artists@, self.columns[0].selected as int),
    {
        let i = self.columns[0].selected;
        if i < self.artists.len() {
            Some(&self.artists[i])
        } else {
            None
        }
    }

    /// The album selected in the second column.
    pub fn selected_album(&self) -> (r: Option<&AlbumRow>)
        ensures
            deref_opt(r) == item_at(self.albums@, self.columns[1].selected as int),
    {
        let i = self.columns[1].selected;
        if i < self.albums.len() {
            Some(&self.albums[i])
        } else {
            None
        }
    }

    /// The track selected in the third column.
    pub fn selected_track(&self) -> (r: Option<&TrackRow>)
        ensures
            deref_opt(r) == item_at(self.tracks@, self.columns[2].selected as int),
    {
        let i = self.columns[2].selected;
        if i < self.tracks.len() {
            Some(&self.tracks[i])
        } else {
            None
        }
    }

    /// The number of items in a column.
    pub fn column_len(&self, depth: usize) -> (r: usize)
        ensures
            r == match depth {
                0 => self.artists@.len(),
                1 => self.albums@.len(),
                2 => self.tracks@.len(),
                _ => 0,
            },
    {
        match depth {
            0 => self.artists.len(),
            1 => self.albums.len(),
            2 => self.tracks.len(),
            _ => 0,
        }
    }
}

/// The queue view.
#[derive(Clone, Copy, Debug, Default)]
pub struct QueueViewState {
    pub column: ColumnState,
}

/// The search overlay.
#[derive(Clone, Debug, Default)]
pub struct SearchState {
    pub query: String,
    pub cursor: usize,
    pub results: Vec<TrackRow>,
    pub column: ColumnState,
    pub active: bool,
}

/// The playlists view.
#[derive(Clone, Debug, Default)]
pub struct PlaylistViewState {
    /// Selection in the playlist list (left pane)
    pub list_column: ColumnState,
    /// Selection in the track list (right pane)
    pub track_column: ColumnState,
    /// 0 = playlist list focused, 1 = track list focused
    pub depth: usize,
    /// Loaded playlists
    pub playlists: Vec<Playlist>,
    /// Tracks of the selected playlist
    pub tracks: Vec<TrackRow>,
    /// Whether a name is being typed (creating or renaming)
    pub creating: bool,
    /// Name input buffer
    pub name_buffer: String,
}

// Keys

/// A key, as the terminal reports it.
#[derive(Clone, Copy, Debug, PartialEq, Eq, Structural)]
pub enum KeyCode {
    Char(char),
    Enter,
    Esc,
    Backspace,
    Up,
    Down,
    Left,
    Right,
    PageUp,
    PageDown,
    /// Any other key
    Other,
}

/// A key press: the key and whether Control was held.
#[derive(Clone, Copy, Debug, PartialEq, Eq, Structural)]
pub struct KeyPress {
    pub code: KeyCode,
    pub ctrl: bool,
}

/// What the interface does in response to a key.
#[derive(Clone, Copy, Debug, PartialEq, Eq, Structural)]
pub enum Action {
    // Navigation
    Up,
    Down,
    Left,
    Right,
    PageUp,
    PageDown,
    GoTop,
    GoBottom,
    Select,
    // Playback
    PlayPause,
    Stop,
    NextTrack,
    PrevTrack,
    SeekForward,
    SeekBackward,
    VolumeUp,
    VolumeDown,
    ToggleMute,
    ToggleShuffle,
    CycleRepeat,
    // Views
    SwitchView(ViewId),
    OpenSearch,
    CloseOverlay,
    // Queue
    AddToQueue,
    AddAlbumToQueue,
    RemoveFromQueue,
    MoveUp,
    MoveDown,
    // Search
    SearchInput(char),
    SearchBackspace,
    SearchSubmit,
    // Equalizer
    EqBandLeft,
    EqBandRight,
    EqGainUp,
    EqGainDown,
    EqToggleBypass,
    EqNextPreset,
    EqReset,
    // Playlists
    PlaylistCreate,
    PlaylistDelete,
    PlaylistRename,
    PlaylistRemoveTrack,
    PlaylistPaneLeft,
    PlaylistPaneRight,
    AddToPlaylist,
    // Playlist name input
    PlaylistNameInput(char),
    PlaylistNameBackspace,
    PlaylistNameSubmit,
    PlaylistNameCancel,
    // App
    Quit,
    Refresh,
    Nothing,
}

/// The binding of a key while a search is typed.
pub open spec fn search_binding(code: KeyCode) -> Action {
    match code {
        KeyCode::Esc => Action::CloseOverlay,
        KeyCode::Enter => Action::SearchSubmit,
        KeyCode::Backspace => Action::SearchBackspace,
        KeyCode::Char(c) => Action::SearchInput(c),
        KeyCode::Up => Action::Up,
        KeyCode::Down => Action::Down,
        _ => Action::Nothing,
    }
}

/// The binding of a key while a playlist name is typed.
pub open spec fn playlist_name_binding(code: KeyCode) -> Action {
    match code {
        KeyCode::Esc => Action::PlaylistNameCancel,
        KeyCode::Enter => Action::PlaylistNameSubmit,
        KeyCode::Backspace => Action::PlaylistNameBackspace,
        KeyCode::Char(c) => Action::PlaylistNameInput(c),
        _ => Action::Nothing,
    }
}

/// The bindings of the playlists view, which come before the global ones.
pub open spec fn playlist_view_binding(code: KeyCode) -> Option<Action> {
    match code {
        KeyCode::Char('h') | KeyCode::Left => Some(Action::PlaylistPaneLeft),
        KeyCode::Char('l') | KeyCode::Right => Some(Action::PlaylistPaneRight),
        KeyCode::Char('n') => Some(Action::PlaylistCreate),
        KeyCode::Char('d') => Some(Action::PlaylistDelete),
        KeyCode::Char('r') => Some(Action::PlaylistRename),
        KeyCode::Char('x') => Some(Action::PlaylistRemoveTrack),
        _ => None,
    }
}

/// The bindings of the equalizer view, which come before the global ones.
pub open spec fn equalizer_binding(code: KeyCode) -> Option<Action> {
    match code {
        KeyCode::Char('h') | KeyCode::Left => Some(Action::EqBandLeft),
        KeyCode::Char('l') | KeyCode::Right => Some(Action::EqBandRight),
        KeyCode::Char('k') | KeyCode::Up => Some(Action::EqGainUp),
        KeyCode::Char('j') | KeyCode::Down => Some(Action::EqGainDown),
        KeyCode::Char('b') => Some(Action::EqToggleBypass),
        KeyCode::Char('p') => Some(Action::EqNextPreset),
        KeyCode::Char('0') => Some(Action::EqReset),
        _ => None,
    }
}

/// The global bindings of normal mode.
pub open spec fn global_binding(key: KeyPress, view: ViewId) -> Action {
    match key.code {
        KeyCode::Char('q') => Action::Quit,
        KeyCode::Char('1') => Action::SwitchView(ViewId::Library),
        KeyCode::Char('2') => Action::SwitchView(ViewId::NowPlaying),
        KeyCode::Char('3') => Action::SwitchView(ViewId::Queue),
        KeyCode::Char('4') => Action::SwitchView(ViewId::Equalizer),
        KeyCode::Char('5') | KeyCode::Char('/') => Action::OpenSearch,
        KeyCode::Char('6') => Action::SwitchView(ViewId::Playlists),
        KeyCode::Char('k') | KeyCode::Up => Action::Up,
        KeyCode::Char('j') | KeyCode::Down => Action::Down,
        KeyCode::Char('h') | KeyCode::Left => Action::Left,
        KeyCode::Enter => Action::Select,
        KeyCode::Char('l') | KeyCode::Right => Action::Right,
        KeyCode::Char('g') => Action::GoTop,
        KeyCode::Char('G') => Action::GoBottom,
        KeyCode::PageUp => Action::PageUp,
        KeyCode::PageDown => Action::PageDown,
        KeyCode::Char('u') if key.ctrl => Action::PageUp,
        KeyCode::Char('d') if key.ctrl => Action::PageDown,
        KeyCode::Char(' ') => Action::PlayPause,
        KeyCode::Char('s') => Action::Stop,
        KeyCode::Char('n') => Action::NextTrack,
        KeyCode::Char('p') => Action::PrevTrack,
        KeyCode::Char('>') => Action::SeekForward,
        KeyCode::Char('<') => Action::SeekBackward,
        KeyCode::Char('+') | KeyCode::Char('=') => Action::VolumeUp,
        KeyCode::Char('-') => Action::VolumeDown,
        KeyCode::Char('m') => Action::ToggleMute,
        KeyCode::Char('z') => Action::ToggleShuffle,
        KeyCode::Char('r') => Action::CycleRepeat,
        KeyCode::Char('a') => Action::AddToQueue,
        KeyCode::Char('A') => Action::AddAlbumToQueue,
        KeyCode::Char('d') if view == ViewId::Queue => Action::RemoveFromQueue,
        KeyCode::Char('J') => Action::MoveDown,
        KeyCode::Char('K') => Action::MoveUp,
        KeyCode::Char('P') => Action::AddToPlaylist,
        KeyCode::Char('R') => Action::Refresh,
        _ => Action::Nothing,
    }
}

/// The action a key press stands for in the given input mode and view.
/// Control-C and Control-Q quit whatever the mode; otherwise the mode
/// decides, and in normal mode the bindings of the playlists and equalizer
/// views come before the global ones.
pub open spec fn key_action(key: KeyPress, mode: InputMode, view: ViewId) -> Action {
    if key.ctrl && (key.code == KeyCode::Char('c') || key.code == KeyCode::Char('q')) {
        Action::Quit
    } else {
        match mode {
            InputMode::Search => search_binding(key.code),
            InputMode::PlaylistName => playlist_name_binding(key.code),
            InputMode::Normal => if view == ViewId::Playlists && playlist_view_binding(
                key.code,
            ) is Some {
                playlist_view_binding(key.code).unwrap()
            } else if view == ViewId::Equalizer && equalizer_binding(key.code) is Some {
                equalizer_binding(key.code).unwrap()
            } else {
                global_binding(key, view)
            },
        }
    }
}

/// Maps a key press to an action, given the input mode and the active view.
pub fn handle_key(key: KeyPress, mode: InputMode, view: ViewId) -> (r: Action)
    ensures
        r == key_action(key, mode, view),
{
    if key.ctrl {
        match key.code {
            KeyCode::Char('c') | KeyCode::Char('q') => return Action::Quit,
            _ => {},
        }
    }
    match mode {
        InputMode::Search => search_key(key.code),
        InputMode::PlaylistName => playlist_name_key(key.code),
        InputMode::Normal => normal_key(key, view),
    }
}

fn search_key(code: KeyCode) -> (r: Action)
    ensures
        r == search_binding(code),
{
    match code {
        KeyCode::Esc => Action::CloseOverlay,
        KeyCode::Enter => Action::SearchSubmit,
        KeyCode::Backspace => Action::SearchBackspace,
        KeyCode::Char(c) => Action::SearchInput(c),
        KeyCode::Up => Action::Up,
        KeyCode::Down => Action::Down,
        _ => Action::Nothing,
    }
}

fn playlist_name_key(code: KeyCode) -> (r: Action)
    ensures
        r == playlist_name_binding(code),
{
    match code {
        KeyCode::Esc => Action::PlaylistNameCancel,
        KeyCode::Enter => Action::PlaylistNameSubmit,
        KeyCode::Backspace => Action::PlaylistNameBackspace,
        KeyCode::Char(c) => Action::PlaylistNameInput(c),
        _ => Action::Nothing,
    }
}

fn normal_key(key: KeyPress, view: ViewId) -> (r: Action)
    ensures
        r == (if view == ViewId::Playlists && playlist_view_binding(key.code) is Some {
            playlist_view_binding(key.code).unwrap()
        } else if view == ViewId::Equalizer && equalizer_binding(key.code) is Some {
            equalizer_binding(key.code).unwrap()
        } else {
            global_binding(key, view)
        }),
{
    if view == ViewId::Playlists {
        match key.code {
            KeyCode::Char('h') | KeyCode::Left => return Action::PlaylistPaneLeft,
            KeyCode::Char('l') | KeyCode::Right => return Action::PlaylistPaneRight,
            KeyCode::Char('n') => return Action::PlaylistCreate,
            KeyCode::Char('d') => return Action::PlaylistDelete,
            KeyCode::Char('r') => return Action::PlaylistRename,
            KeyCode::Char('x') => return Action::PlaylistRemoveTrack,
            _ => {},
        }
    }
    if view == ViewId::Equalizer {
        match key.code {
            KeyCode::Char('h') | KeyCode::Left => return Action::EqBandLeft,
            KeyCode::Char('l') | KeyCode::Right => return Action::EqBandRight,
            KeyCode::Char('k') | KeyCode::Up => return Action::EqGainUp,
            KeyCode::Char('j') | KeyCode::Down => return Action::EqGainDown,
            KeyCode::Char('b') => return Action::EqToggleBypass,
            KeyCode::Char('p') => return Action::EqNextPreset,
            KeyCode::Char('0') => return Action::EqReset,
            _ => {},
        }
    }
    match key.code {
        KeyCode::Char('q') => Action::Quit,
        KeyCode::Char('1') => Action::SwitchView(ViewId::Library),
        KeyCode::Char('2') => Action::SwitchView(ViewId::NowPlaying),
        KeyCode::Char('3') => Action::SwitchView(ViewId::Queue),
        KeyCode::Char('4') => Action::SwitchView(ViewId::Equalizer),
        KeyCode::Char('5') | KeyCode::Char('/') => Action::OpenSearch,
        KeyCode::Char('6') => Action::SwitchView(ViewId::Playlists),
        KeyCode::Char('k') | KeyCode::Up => Action::Up,
        KeyCode::Char('j') | KeyCode::Down => Action::Down,
        KeyCode::Char('h') | KeyCode::Left => Action::Left,
        KeyCode::Enter => Action::Select,
        KeyCode::Char('l') | KeyCode::Right => Action::Right,
        KeyCode::Char('g') => Action::GoTop,
        KeyCode::Char('G') => Action::GoBottom,
        KeyCode::PageUp => Action::PageUp,
        KeyCode::PageDown => Action::PageDown,
        KeyCode::Char('u') if key.ctrl => Action::PageUp,
        KeyCode::Char('d') if key.ctrl => Action::PageDown,
        KeyCode::Char(' ') => Action::PlayPause,
        KeyCode::Char('s') => Action::Stop,
        KeyCode::Char('n') => Action::NextTrack,
        KeyCode::Char('p') => Action::PrevTrack,
        KeyCode::Char('>') => Action::SeekForward,
        KeyCode::Char('<') => Action::SeekBackward,
        KeyCode::Char('+') | KeyCode::Char('=') => Action::VolumeUp,
        KeyCode::Char('-') => Action::VolumeDown,
        KeyCode::Char('m') => Action::ToggleMute,
        KeyCode::Char('z') => Action::ToggleShuffle,
        KeyCode::Char('r') => Action::CycleRepeat,
        KeyCode::Char('a') => Action::AddToQueue,
        KeyCode::Char('A') => Action::AddAlbumToQueue,
        KeyCode::Char('d') if view == ViewId::Queue => Action::RemoveFromQueue,
        KeyCode::Char('J') => Action::MoveDown,
        KeyCode::Char('K') => Action::MoveUp,
        KeyCode::Char('P') => Action::AddToPlaylist,
        KeyCode::Char('R') => Action::Refresh,
        _ => Action::Nothing,
    }
}

/// Control-C and Control-Q quit in every input mode and view.
pub proof fn law_control_c_quits(mode: InputMode, view: ViewId, c: char)
    requires
        c == 'c' || c == 'q',
    ensures
        key_action(KeyPress { code: KeyCode::Char(c), ctrl: true }, mode, view) == Action::Quit,
{
}

/// While text is typed, every character without Control (and with Control,
/// every one but `c` and `q`) is typed into the text.
pub proof fn law_typing_takes_characters(c: char, ctrl: bool, view: ViewId)
    requires
        !(ctrl && (c == 'c' || c == 'q')),
    ensures
        key_action(KeyPress { code: KeyCode::Char(c), ctrl }, InputMode::Search, view)
            == Action::SearchInput(c),
        key_action(KeyPress { code: KeyCode::Char(c), ctrl }, InputMode::PlaylistName, view)
            == Action::PlaylistNameInput(c),
{
}

/// In normal mode the number keys switch to the views in tab order, the
/// fifth opening the search.
pub proof fn law_number_keys_switch_views(view: ViewId, i: nat)
    requires
        i < 6,
        i != 4,
        view != ViewId::Equalizer || i != 0,
    ensures
        key_action(
            KeyPress { code: KeyCode::Char(((i + 49) as u32) as char), ctrl: false },
            InputMode::Normal,
            view,
        ) == Action::SwitchView(view_at(i).unwrap()),
{
    assert(((i + 49) as u32) as char == if i == 0 {
        '1'
    } else if i == 1 {
        '2'
    } else if i == 2 {
        '3'
    } else if i == 3 {
        '4'
    } else {
        '6'
    });
}

/// The key bindings in normal mode, as the help lists them. In every view
/// and with or without Control: `>` seeks forward and `<` backward, space
/// plays or pauses, `+`/`-` change the volume, `m` mutes, `z` shuffles, `a`
/// and `A` add the track or album to the queue, `P` adds to a playlist and
/// `/` searches.
pub proof fn law_keys_in_every_view(view: ViewId, ctrl: bool)
    ensures
        key_action(KeyPress { code: KeyCode::Char('>'), ctrl }, InputMode::Normal, view)
            == Action::SeekForward,
        key_action(KeyPress { code: KeyCode::Char('<'), ctrl }, InputMode::Normal, view)
            == Action::SeekBackward,
        key_action(KeyPress { code: KeyCode::Char(' '), ctrl }, InputMode::Normal, view)
            == Action::PlayPause,
        key_action(KeyPress { code: KeyCode::Char('+'), ctrl }, InputMode::Normal, view)
            == Action::VolumeUp,
        key_action(KeyPress { code: KeyCode::Char('-'), ctrl }, InputMode::Normal, view)
            == Action::VolumeDown,
        key_action(KeyPress { code: KeyCode::Char('m'), ctrl }, InputMode::Normal, view)
            == Action::ToggleMute,
        key_action(KeyPress { code: KeyCode::Char('z'), ctrl }, InputMode::Normal, view)
            == Action::ToggleShuffle,
        key_action(KeyPress { code: KeyCode::Char('a'), ctrl }, InputMode::Normal, view)
            == Action::AddToQueue,
        key_action(KeyPress { code: KeyCode::Char('A'), ctrl }, InputMode::Normal, view)
            == Action::AddAlbumToQueue,
        key_action(KeyPress { code: KeyCode::Char('P'), ctrl }, InputMode::Normal, view)
            == Action::AddToPlaylist,
        key_action(KeyPress { code: KeyCode::Char('/'), ctrl }, InputMode::Normal, view)
            == Action::OpenSearch,
{
}

/// Outside the playlists and equalizer views: `n`/`p` skip to the next and
/// previous track, `r` cycles the repeat mode, `j`/`k` and the arrows move
/// down and up, `h`/`l` left and right, `g`/`G` to the top and bottom,
/// Control-`u`/`d` page up and down, and `q` quits.
pub proof fn law_global_keys(view: ViewId, ctrl: bool)
    requires
        view != ViewId::Playlists,
        view != ViewId::Equalizer,
    ensures
        key_action(KeyPress { code: KeyCode::Char('n'), ctrl }, InputMode::Normal, view)
            == Action::NextTrack,
        key_action(KeyPress { code: KeyCode::Char('p'), ctrl }, InputMode::Normal, view)
            == Action::PrevTrack,
        key_action(KeyPress { code: KeyCode::Char('r'), ctrl }, InputMode::Normal, view)
            == Action::CycleRepeat,
        key_action(KeyPress { code: KeyCode::Char('j'), ctrl }, InputMode::Normal, view)
            == Action::Down,
        key_action(KeyPress { code: KeyCode::Down, ctrl }, InputMode::Normal, view) == Action::Down,
        key_action(KeyPress { code: KeyCode::Char('k'), ctrl }, InputMode::Normal, view)
            == Action::Up,
        key_action(KeyPress { code: KeyCode::Up, ctrl }, InputMode::Normal, view) == Action::Up,
        key_action(KeyPress { code: KeyCode::Char('h'), ctrl }, InputMode::Normal, view)
            == Action::Left,
        key_action(KeyPress { code: KeyCode::Char('l'), ctrl }, InputMode::Normal, view)
            == Action::Right,
        key_action(KeyPress { code: KeyCode::Char('g'), ctrl }, InputMode::Normal, view)
            == Action::GoTop,
        key_action(KeyPress { code: KeyCode::Char('G'), ctrl }, InputMode::Normal, view)
            == Action::GoBottom,
        key_action(KeyPress { code: KeyCode::Char('u'), ctrl: true }, InputMode::Normal, view)
            == Action::PageUp,
        key_action(KeyPress { code: KeyCode::Char('d'), ctrl: true }, InputMode::Normal, view)
            == Action::PageDown,
        key_action(KeyPress { code: KeyCode::Char('q'), ctrl }, InputMode::Normal, view)
            == Action::Quit,
{
}

/// In the equalizer view: `h`/`l` select a band, `k`/`j` raise and lower its
/// gain, `b` toggles the bypass, `p` moves to the next preset and `0`
/// resets to flat.
pub proof fn law_equalizer_keys(ctrl: bool)
    ensures
        key_action(KeyPress { code: KeyCode::Char('h'), ctrl }, InputMode::Normal, ViewId::Equalizer)
            == Action::EqBandLeft,
        key_action(KeyPress { code: KeyCode::Char('l'), ctrl }, InputMode::Normal, ViewId::Equalizer)
            == Action::EqBandRight,
        key_action(KeyPress { code: KeyCode::Char('k'), ctrl }, InputMode::Normal, ViewId::Equalizer)
            == Action::EqGainUp,
        key_action(KeyPress { code: KeyCode::Char('j'), ctrl }, InputMode::Normal, ViewId::Equalizer)
            == Action::EqGainDown,
        key_action(KeyPress { code: KeyCode::Char('b'), ctrl }, InputMode::Normal, ViewId::Equalizer)
            == Action::EqToggleBypass,
        key_action(KeyPress { code: KeyCode::Char('p'), ctrl }, InputMode::Normal, ViewId::Equalizer)
            == Action::EqNextPreset,
        key_action(KeyPress { code: KeyCode::Char('0'), ctrl }, InputMode::Normal, ViewId::Equalizer)
            == Action::EqReset,
{
}

/// In the playlists view: `h`/`l` switch panes, `n` creates a playlist, `d`
/// deletes one, `r` renames one and `x` removes a track.
pub proof fn law_playlist_keys(ctrl: bool)
    ensures
        key_action(KeyPress { code: KeyCode::Char('h'), ctrl }, InputMode::Normal, ViewId::Playlists)
            == Action::PlaylistPaneLeft,
        key_action(KeyPress { code: KeyCode::Char('l'), ctrl }, InputMode::Normal, ViewId::Playlists)
            == Action::PlaylistPaneRight,
        key_action(KeyPress { code: KeyCode::Char('n'), ctrl }, InputMode::Normal, ViewId::Playlists)
            == Action::PlaylistCreate,
        key_action(KeyPress { code: KeyCode::Char('d'), ctrl }, InputMode::Normal, ViewId::Playlists)
            == Action::PlaylistDelete,
        key_action(KeyPress { code: KeyCode::Char('r'), ctrl }, InputMode::Normal, ViewId::Playlists)
            == Action::PlaylistRename,
        key_action(KeyPress { code: KeyCode::Char('x'), ctrl }, InputMode::Normal, ViewId::Playlists)
            == Action::PlaylistRemoveTrack,
{
}

} // verus!
