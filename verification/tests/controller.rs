use hadal::controller::status_expired;
use hadal::duration::Duration as HDuration;
use hadal::audio::PlayerState;
use hadal::controller::{
    artwork_needs_load, artwork_path_for, handle_action, player_status,
    track_to_queue_item, AppState, Command, LoadRequest, TrackRef, PAGE_ROWS,
};
use hadal::library::{AlbumRow, ArtistRow, TrackRow};
use hadal::playlist::Playlist;
use hadal::queue::QueueItem;
use hadal::tui::{Action, InputMode, ViewId};
use hadal::types::{PlayStatus, RepeatMode};

fn artist(id: i64, name: &str) -> ArtistRow {
    ArtistRow { id, name: name.to_string(), sort_name: None, created_at: 0, updated_at: 0 }
}

fn album(id: i64, title: &str) -> AlbumRow {
    AlbumRow {
        id,
        title: title.to_string(),
        sort_title: None,
        artist_id: Some(1),
        album_artist: None,
        year: None,
        genre: None,
        disc_total: None,
        track_total: None,
        artwork_hash: None,
        created_at: 0,
        updated_at: 0,
    }
}

fn track(id: i64, title: &str) -> TrackRow {
    let mut t = TrackRow::new(format!("/music/{}.flac", title), title.to_string(), 180_000, 0);
    t.id = id;
    t
}

fn playlist(id: i64, name: &str) -> Playlist {
    Playlist {
        id,
        name: name.to_string(),
        description: None,
        track_count: 0,
        total_duration_ms: 0,
        created_at: 0,
        updated_at: 0,
    }
}

fn item(id: i64) -> QueueItem {
    QueueItem::new(id, format!("t{}", id), None, 1000, format!("/t{}.flac", id))
}

fn act(state: &mut AppState, a: Action) -> Command {
    assert!(state.can_handle(a));
    handle_action(a, state, PlayerState::Stopped)
}

#[test]
fn starts_in_library() {
    let s = AppState::new();
    assert_eq!(s.active_view, ViewId::Library);
    assert_eq!(s.input_mode, InputMode::Normal);
    assert!(s.running);
    assert_eq!(s.playback.status, PlayStatus::Stopped);
    assert!(s.play_queue.is_empty());
}

#[test]
fn quit_stops_running() {
    let mut s = AppState::new();
    assert_eq!(act(&mut s, Action::Quit), Command::Nothing);
    assert!(!s.running);
}

#[test]
fn browsing_the_library_asks_for_the_next_column() {
    let mut s = AppState::new();
    s.set_artists(vec![artist(1, "A"), artist(2, "B"), artist(3, "C")]);
    assert_eq!(act(&mut s, Action::Down), Command::Load(LoadRequest::Albums));
    assert_eq!(s.library.columns[0].selected, 1);
    assert_eq!(s.album_filter(), Some(2));
    assert_eq!(s.library.filter_artist_id, Some(2));
    s.set_albums(vec![album(10, "X"), album(11, "Y")]);
    assert_eq!(act(&mut s, Action::Right), Command::Load(LoadRequest::Albums));
    assert_eq!(s.library.depth, 1);
    assert_eq!(act(&mut s, Action::GoBottom), Command::Load(LoadRequest::Tracks));
    assert_eq!(s.library.columns[1].selected, 1);
    assert_eq!(s.track_filter(), (Some(11), Some(2)));
    s.set_tracks(vec![track(100, "one"), track(101, "two")]);
    assert_eq!(act(&mut s, Action::Select), Command::Load(LoadRequest::Tracks));
    assert_eq!(s.library.depth, 2);
    assert_eq!(act(&mut s, Action::Select), Command::QueueAndPlay(TrackRef::Library(0)));
    // at the last column, right does nothing
    assert_eq!(act(&mut s, Action::Right), Command::Nothing);
    assert_eq!(s.library.depth, 2);
    act(&mut s, Action::Left);
    act(&mut s, Action::Left);
    act(&mut s, Action::Left);
    assert_eq!(s.library.depth, 0);
}

#[test]
fn moving_down_scrolls_the_window() {
    let mut s = AppState::new();
    s.set_artists((0..50).map(|i| artist(i, "x")).collect());
    for _ in 0..PAGE_ROWS {
        act(&mut s, Action::Down);
    }
    assert_eq!(s.library.columns[0].selected, 20);
    assert_eq!(s.library.columns[0].offset, 1);
    act(&mut s, Action::PageDown);
    assert_eq!(s.library.columns[0].selected, 40);
    act(&mut s, Action::PageDown);
    assert_eq!(s.library.columns[0].selected, 49);
    act(&mut s, Action::GoTop);
    assert_eq!(s.library.columns[0].selected, 0);
}

#[test]
fn switching_views() {
    let mut s = AppState::new();
    let r = act(&mut s, Action::SwitchView(ViewId::Playlists));
    assert_eq!(r, Command::ViewChanged { reload_artwork: true, reload_playlists: true });
    assert_eq!(s.active_view, ViewId::Playlists);
    let r = act(&mut s, Action::SwitchView(ViewId::Playlists));
    assert_eq!(r, Command::ViewChanged { reload_artwork: false, reload_playlists: true });
    let r = act(&mut s, Action::SwitchView(ViewId::Search));
    assert_eq!(r, Command::ViewChanged { reload_artwork: true, reload_playlists: false });
    assert!(s.search.active);
    assert_eq!(s.input_mode, InputMode::Search);
}

#[test]
fn typing_a_search() {
    let mut s = AppState::new();
    act(&mut s, Action::OpenSearch);
    assert_eq!(s.active_view, ViewId::Search);
    assert_eq!(act(&mut s, Action::SearchInput('b')), Command::RunSearch);
    act(&mut s, Action::SearchInput('é'));
    assert_eq!(s.search.query, "bé");
    assert_eq!(s.search.cursor, 3);
    assert_eq!(act(&mut s, Action::SearchBackspace), Command::RunSearch);
    assert_eq!(s.search.query, "b");
    assert_eq!(s.search.cursor, 1);
    assert!(s.search_needed());
    s.set_search_results(vec![track(7, "a"), track(8, "b")]);
    act(&mut s, Action::Down);
    assert_eq!(s.search.column.selected, 1);
    assert_eq!(act(&mut s, Action::SearchSubmit), Command::Play(TrackRef::Search(1)));
    assert!(!s.search.active);
    assert_eq!(s.active_view, ViewId::Library);
    assert_eq!(s.input_mode, InputMode::Normal);
}

#[test]
fn empty_query_clears_results() {
    let mut s = AppState::new();
    s.set_search_results(vec![track(7, "a")]);
    assert!(!s.search_needed());
    assert!(s.search.results.is_empty());
}

#[test]
fn closing_the_search_returns_to_the_library() {
    let mut s = AppState::new();
    act(&mut s, Action::OpenSearch);
    act(&mut s, Action::CloseOverlay);
    assert_eq!(s.active_view, ViewId::Library);
    assert_eq!(s.input_mode, InputMode::Normal);
    assert!(!s.search.active);
}

#[test]
fn play_pause_follows_the_player() {
    let mut s = AppState::new();
    assert_eq!(handle_action(Action::PlayPause, &mut s, PlayerState::Playing), Command::Pause);
    assert_eq!(handle_action(Action::PlayPause, &mut s, PlayerState::Paused), Command::Resume);
    assert_eq!(handle_action(Action::PlayPause, &mut s, PlayerState::Loading), Command::Nothing);
    assert_eq!(handle_action(Action::PlayPause, &mut s, PlayerState::Stopped), Command::Nothing);
    s.set_tracks(vec![track(1, "a")]);
    assert_eq!(
        handle_action(Action::PlayPause, &mut s, PlayerState::Stopped),
        Command::Play(TrackRef::Library(0))
    );
}

#[test]
fn next_track_comes_from_the_queue_first() {
    let mut s = AppState::new();
    s.play_queue.push_back(item(1));
    s.play_queue.push_back(item(2));
    assert_eq!(act(&mut s, Action::NextTrack), Command::PlayQueued(2));
    assert_eq!(act(&mut s, Action::PrevTrack), Command::PlayQueued(1));
}

#[test]
fn next_track_wraps_in_the_library() {
    let mut s = AppState::new();
    s.set_tracks(vec![track(1, "a"), track(2, "b"), track(3, "c")]);
    s.library.columns[2].selected = 2;
    assert_eq!(act(&mut s, Action::NextTrack), Command::Play(TrackRef::Library(0)));
    assert_eq!(s.library.columns[2].selected, 0);
    assert_eq!(act(&mut s, Action::PrevTrack), Command::Play(TrackRef::Library(2)));
    assert_eq!(s.library.columns[2].selected, 2);
}

#[test]
fn stop_clears_the_track() {
    let mut s = AppState::new();
    s.playback.start(track(5, "x"), Some("Artist".to_string()), None, None);
    assert_eq!(s.playback.status, PlayStatus::Playing);
    assert_eq!(s.playback.duration.as_millis(), 180_000);
    assert_eq!(act(&mut s, Action::Stop), Command::Stop);
    assert_eq!(s.playback.status, PlayStatus::Stopped);
    assert!(s.playback.current_track.is_none());
    assert_eq!(s.playback.position.as_millis(), 0);
    assert_eq!(s.playback.artist_name, Some("Artist".to_string()));
}

#[test]
fn mute_shuffle_and_repeat() {
    let mut s = AppState::new();
    assert_eq!(act(&mut s, Action::ToggleMute), Command::SetMute(true));
    assert_eq!(act(&mut s, Action::ToggleMute), Command::SetMute(false));
    act(&mut s, Action::ToggleShuffle);
    assert!(s.playback.shuffle && s.play_queue.shuffle());
    act(&mut s, Action::CycleRepeat);
    assert_eq!(s.playback.repeat, RepeatMode::All);
    act(&mut s, Action::CycleRepeat);
    act(&mut s, Action::CycleRepeat);
    assert_eq!(s.playback.repeat, RepeatMode::Off);
}

#[test]
fn shuffle_needs_a_current_item() {
    let mut s = AppState::new();
    s.play_queue.push_back(item(1));
    s.play_queue.push_back(item(2));
    s.play_queue.push_back(item(3));
    s.play_queue.jump_to(2).unwrap();
    s.play_queue.remove(2).unwrap();
    assert!(!s.can_handle(Action::ToggleShuffle));
    assert!(s.can_handle(Action::CycleRepeat));
}

#[test]
fn queue_editing() {
    let mut s = AppState::new();
    for i in 1..=3 {
        s.play_queue.push_back(item(i));
    }
    act(&mut s, Action::SwitchView(ViewId::Queue));
    act(&mut s, Action::GoBottom);
    assert_eq!(s.queue_view.column.selected, 2);
    act(&mut s, Action::MoveUp);
    assert_eq!(s.queue_view.column.selected, 1);
    assert_eq!(s.play_queue.get(1).unwrap().track_id, 3);
    act(&mut s, Action::MoveDown);
    assert_eq!(s.queue_view.column.selected, 2);
    assert_eq!(s.play_queue.get(2).unwrap().track_id, 3);
    assert_eq!(act(&mut s, Action::RemoveFromQueue), Command::RemovedFromQueue);
    assert_eq!(s.play_queue.len(), 2);
    assert_eq!(s.queue_view.column.selected, 1);
    assert_eq!(act(&mut s, Action::Select), Command::PlayQueued(2));
    assert_eq!(s.play_queue.position(), 1);
}

#[test]
fn removing_outside_the_queue_view_does_nothing() {
    let mut s = AppState::new();
    s.play_queue.push_back(item(1));
    assert_eq!(act(&mut s, Action::RemoveFromQueue), Command::Nothing);
    assert_eq!(s.play_queue.len(), 1);
}

#[test]
fn adding_to_the_queue_depends_on_the_column() {
    let mut s = AppState::new();
    s.set_artists(vec![artist(1, "A")]);
    s.set_albums(vec![album(10, "X")]);
    s.set_tracks(vec![track(100, "t")]);
    assert_eq!(act(&mut s, Action::AddToQueue), Command::EnqueueArtist(0));
    assert_eq!(act(&mut s, Action::AddAlbumToQueue), Command::Nothing);
    s.library.depth = 1;
    assert_eq!(act(&mut s, Action::AddToQueue), Command::EnqueueAlbum(0));
    s.library.depth = 2;
    assert_eq!(act(&mut s, Action::AddToQueue), Command::Enqueue(TrackRef::Library(0)));
    assert_eq!(act(&mut s, Action::AddAlbumToQueue), Command::EnqueueAlbum(0));
}

#[test]
fn queue_and_jump_makes_the_item_current() {
    let mut s = AppState::new();
    s.play_queue.push_back(item(1));
    s.queue_and_jump(track_to_queue_item(&track(9, "nine"), Some("N".to_string())));
    assert_eq!(s.play_queue.len(), 2);
    assert_eq!(s.play_queue.position(), 1);
    let cur = s.play_queue.current().unwrap();
    assert_eq!(cur.track_id, 9);
    assert_eq!(cur.title, "nine");
    assert_eq!(cur.artist, Some("N".to_string()));
    assert_eq!(cur.path, "/music/nine.flac");
}

#[test]
fn equalizer_band_selection() {
    let mut s = AppState::new();
    act(&mut s, Action::EqBandLeft);
    assert_eq!(s.eq.selected_band, 0);
    for _ in 0..12 {
        act(&mut s, Action::EqBandRight);
    }
    assert_eq!(s.eq.selected_band, 9);
    assert_eq!(act(&mut s, Action::EqGainUp), Command::EqGainUp(9));
    assert_eq!(act(&mut s, Action::EqToggleBypass), Command::EqBypass(true));
    assert!(s.eq.bypassed);
    assert_eq!(act(&mut s, Action::EqReset), Command::EqReset);
}

#[test]
fn naming_playlists() {
    let mut s = AppState::new();
    act(&mut s, Action::SwitchView(ViewId::Playlists));
    act(&mut s, Action::PlaylistCreate);
    assert_eq!(s.input_mode, InputMode::PlaylistName);
    act(&mut s, Action::PlaylistNameInput('M'));
    act(&mut s, Action::PlaylistNameInput('x'));
    act(&mut s, Action::PlaylistNameBackspace);
    act(&mut s, Action::PlaylistNameInput('y'));
    assert_eq!(act(&mut s, Action::PlaylistNameSubmit), Command::CreatePlaylist("My".to_string()));
    assert_eq!(s.input_mode, InputMode::Normal);
    assert!(s.playlist_view.name_buffer.is_empty());
    s.set_playlists(vec![playlist(4, "Old")]);
    act(&mut s, Action::PlaylistRename);
    assert_eq!(s.playlist_view.name_buffer, "Old");
    act(&mut s, Action::PlaylistNameInput('!'));
    assert_eq!(
        act(&mut s, Action::PlaylistNameSubmit),
        Command::RenamePlaylist(0, "Old!".to_string())
    );
    act(&mut s, Action::PlaylistCreate);
    assert_eq!(act(&mut s, Action::PlaylistNameSubmit), Command::Nothing);
    act(&mut s, Action::PlaylistCreate);
    act(&mut s, Action::PlaylistNameInput('z'));
    act(&mut s, Action::PlaylistNameCancel);
    assert!(!s.playlist_view.creating);
    assert!(s.playlist_view.name_buffer.is_empty());
}

#[test]
fn playlist_panes() {
    let mut s = AppState::new();
    act(&mut s, Action::SwitchView(ViewId::Playlists));
    assert_eq!(act(&mut s, Action::PlaylistPaneRight), Command::Nothing);
    s.set_playlists(vec![playlist(4, "A"), playlist(5, "B")]);
    assert_eq!(act(&mut s, Action::Down), Command::Load(LoadRequest::PlaylistTracks));
    assert_eq!(s.selected_playlist_index(), Some(1));
    assert_eq!(act(&mut s, Action::PlaylistDelete), Command::DeletePlaylist(1));
    assert_eq!(act(&mut s, Action::PlaylistPaneRight), Command::Load(LoadRequest::PlaylistTracks));
    assert_eq!(s.playlist_view.depth, 1);
    s.set_playlist_tracks(vec![track(1, "a"), track(2, "b")]);
    act(&mut s, Action::Down);
    assert_eq!(act(&mut s, Action::PlaylistRemoveTrack), Command::RemovePlaylistTrack(1, 2));
    assert_eq!(act(&mut s, Action::Select), Command::QueueAndPlay(TrackRef::Playlist(1)));
    act(&mut s, Action::PlaylistPaneLeft);
    assert_eq!(s.playlist_view.depth, 0);
    // a shorter reload keeps the selection on the list
    s.set_playlists(vec![playlist(4, "A")]);
    assert_eq!(s.playlist_view.list_column.selected, 0);
}

#[test]
fn add_to_playlist_needs_a_track() {
    let mut s = AppState::new();
    assert_eq!(act(&mut s, Action::AddToPlaylist), Command::NoTrackSelected);
    s.set_tracks(vec![track(1, "a")]);
    assert_eq!(act(&mut s, Action::AddToPlaylist), Command::AddToPlaylist(TrackRef::Library(0)));
}

#[test]
fn track_end_moves_the_queue() {
    let mut s = AppState::new();
    s.play_queue.push_back(item(1));
    s.play_queue.push_back(item(2));
    assert_eq!(s.track_ended(), Some(2));
    assert_eq!(s.track_ended(), None);
    s.playback.start(track(2, "b"), None, Some("Alb".to_string()), None);
    s.playback.finish();
    assert_eq!(s.playback.status, PlayStatus::Stopped);
    assert!(s.playback.album_title.is_none());
}

#[test]
fn player_states_map_to_statuses() {
    assert_eq!(player_status(PlayerState::Loading), PlayStatus::Buffering);
    assert_eq!(player_status(PlayerState::Paused), PlayStatus::Paused);
}

#[test]
fn artwork_files() {
    assert_eq!(artwork_path_for("/cache/art", "abc123"), "/cache/art/abc123.png");
    let a = Some("/a.png".to_string());
    let b = Some("/b.png".to_string());
    assert!(artwork_needs_load(&a, &b));
    assert!(!artwork_needs_load(&a, &a));
    assert!(artwork_needs_load(&a, &None));
    assert!(!artwork_needs_load(&None, &b));
}

#[test]
fn track_references() {
    let mut s = AppState::new();
    s.set_tracks(vec![track(1, "a"), track(2, "b")]);
    s.set_search_results(vec![track(3, "c")]);
    assert_eq!(s.track(TrackRef::Library(1)).map(|t| t.id), Some(2));
    assert_eq!(s.track(TrackRef::Search(0)).map(|t| t.id), Some(3));
    assert!(s.track(TrackRef::Search(1)).is_none());
    assert!(s.track(TrackRef::Playlist(0)).is_none());
}

#[test]
fn right_then_left_returns_to_the_column() {
    let mut s = AppState::new();
    s.set_artists(vec![artist(1, "A"), artist(2, "B")]);
    assert_eq!(act(&mut s, Action::Right), Command::Load(LoadRequest::Albums));
    assert_eq!(act(&mut s, Action::Left), Command::Nothing);
    assert_eq!(s.library.depth, 0);
    assert_eq!(s.library.columns[0].selected, 0);
}

#[test]
fn typing_then_erasing_restores_the_query() {
    let mut s = AppState::new();
    act(&mut s, Action::OpenSearch);
    act(&mut s, Action::SearchInput('a'));
    act(&mut s, Action::SearchInput('é'));
    assert_eq!(s.search.cursor, 3);
    assert_eq!(act(&mut s, Action::SearchBackspace), Command::RunSearch);
    assert_eq!(s.search.query, "a");
    assert_eq!(s.search.cursor, 1);
}

#[test]
fn open_then_close_search_empties_it() {
    let mut s = AppState::new();
    act(&mut s, Action::SwitchView(ViewId::Queue));
    act(&mut s, Action::OpenSearch);
    act(&mut s, Action::CloseOverlay);
    assert_eq!(s.active_view, ViewId::Library);
    assert_eq!(s.input_mode, InputMode::Normal);
    assert!(!s.search.active);
    assert!(s.search.query.is_empty());
}

#[test]
fn band_selection_stays_in_range() {
    let mut s = AppState::new();
    for _ in 0..15 {
        act(&mut s, Action::EqBandRight);
    }
    assert_eq!(s.eq.selected_band, 9);
    assert_eq!(act(&mut s, Action::EqGainUp), Command::EqGainUp(9));
    for _ in 0..15 {
        act(&mut s, Action::EqBandLeft);
    }
    assert_eq!(act(&mut s, Action::EqGainDown), Command::EqGainDown(0));
}

#[test]
fn create_then_cancel_changes_nothing() {
    let mut s = AppState::new();
    act(&mut s, Action::SwitchView(ViewId::Playlists));
    act(&mut s, Action::PlaylistCreate);
    assert_eq!(act(&mut s, Action::PlaylistNameCancel), Command::Nothing);
    assert_eq!(s.input_mode, InputMode::Normal);
    assert!(!s.playlist_view.creating);
    assert!(s.playlist_view.name_buffer.is_empty());
    assert_eq!(s.active_view, ViewId::Playlists);
}

#[test]
fn shuffle_twice_restores_the_order() {
    let mut s = AppState::new();
    for id in 1..=6 {
        s.play_queue.push_back(item(id));
    }
    s.play_queue.jump_to(3).unwrap();
    act(&mut s, Action::ToggleShuffle);
    assert_eq!(s.play_queue.current().unwrap().track_id, 4);
    act(&mut s, Action::ToggleShuffle);
    assert!(!s.playback.shuffle);
    let ids: Vec<i64> = s.play_queue.items().iter().map(|i| i.track_id).collect();
    assert_eq!(ids, vec![1, 2, 3, 4, 5, 6]);
    assert_eq!(s.play_queue.position(), 3);
}

#[test]
fn status_messages_expire_after_five_seconds() {
    assert!(!status_expired(&HDuration::from_secs(5)));
    assert!(status_expired(&HDuration::from_secs_nanos(5, 1)));
    assert!(!status_expired(&HDuration::from_secs_nanos(4, 999_999_999)));
}
