use muse::backend::{FullState, LyricsLine, LyricsResult, NotificationInfo, PlayerState, PlaylistTrack, RepeatMode, SearchResult, Track};
use muse::events::{
    apply_fresh_state, art_key, artwork_is_current, handle_notification, lyrics_request,
    on_lastfm_result, on_lyrics_loaded, on_playlist_tracks_loaded, on_search_results,
    restore_queue, should_load_playlists,
};
use muse::handlers::{handle_key, key_ready_check, Action, BackendCommand};
use muse::mainloop::refresh_delay_ms;
use muse::nav::{filter_string_indices, filter_track_indices, list_nav, normalize_nav_key, KeyCode, KeyEvent};
use muse::playlist::{cli_next, cli_prev, load_queue_state, queue_state_text, sync_queue_selection, CliAction};
use muse::state::{AppState, LibrarySubView, Tab};
use muse::theme::{fallback_theme, Color, Theme};

fn s(x: &str) -> String {
    x.to_string()
}

fn key(c: KeyCode) -> KeyEvent {
    KeyEvent { code: c, control: false }
}

fn ch(c: char) -> KeyEvent {
    key(KeyCode::Char(c))
}

fn pt(name: &str, artist: &str) -> PlaylistTrack {
    PlaylistTrack { name: s(name), artist: s(artist), album: s("Al"), duration_ms: 1000 }
}

fn press(st: &mut AppState, k: KeyEvent) -> (bool, Vec<Action>) {
    let mut theme = fallback_theme();
    handle_key(k, st, &mut theme)
}

#[test]
fn quit_keys() {
    let mut st = AppState::default();
    let (quit, actions) = press(&mut st, ch('q'));
    assert!(quit);
    assert!(actions.is_empty());
    let (quit, _) = press(&mut st, KeyEvent { code: KeyCode::Char('c'), control: true });
    assert!(quit);
    st.active_tab = Tab::Search;
    st.search.editing = true;
    let (quit, _) = press(&mut st, ch('q'));
    assert!(!quit);
    assert_eq!(st.search.query, "q");
}

#[test]
fn tabs_cycle() {
    let mut st = AppState::default();
    press(&mut st, key(KeyCode::Tab));
    assert_eq!(st.active_tab, Tab::Library);
    press(&mut st, key(KeyCode::BackTab));
    assert_eq!(st.active_tab, Tab::Queue);
    press(&mut st, key(KeyCode::BackTab));
    assert_eq!(st.active_tab, Tab::Lyrics);
    press(&mut st, ch('l'));
    assert_eq!(st.active_tab, Tab::Library);
    press(&mut st, ch('L'));
    assert_eq!(st.active_tab, Tab::Lyrics);
}

#[test]
fn help_and_error_overlays() {
    let mut st = AppState::default();
    press(&mut st, ch('?'));
    assert!(st.overlays.show_help);
    let (quit, _) = press(&mut st, ch('q'));
    assert!(!quit);
    assert!(!st.overlays.show_help);
    st.overlays.error_message = Some(s("boom"));
    let (quit, _) = press(&mut st, ch('q'));
    assert!(!quit);
    assert!(st.overlays.error_message.is_none());
}

#[test]
fn playback_keys() {
    let mut st = AppState::default();
    let (_, a) = press(&mut st, ch(' '));
    assert_eq!(st.player.playback, PlayerState::Playing);
    assert!(matches!(a.as_slice(), [Action::FireAndRefresh(BackendCommand::PlayPause)]));
    let (_, a) = press(&mut st, ch('n'));
    assert!(matches!(a.as_slice(), [Action::FireAndRefresh(BackendCommand::NextTrack)]));
    let (_, a) = press(&mut st, ch('p'));
    assert!(matches!(a.as_slice(), [Action::FireAndRefresh(BackendCommand::PreviousTrack)]));
    let (_, a) = press(&mut st, ch('r'));
    assert_eq!(st.player.repeat_mode, RepeatMode::All);
    assert!(matches!(a.as_slice(), [Action::FireAndRefresh(BackendCommand::CycleRepeat)]));
    let (_, a) = press(&mut st, ch('s'));
    assert!(st.player.shuffle_enabled);
    assert!(matches!(a.as_slice(), [Action::FireAndRefresh(BackendCommand::ToggleShuffle)]));
}

#[test]
fn volume_keys_clamp() {
    let mut st = AppState::default();
    st.player.volume = 98;
    let (_, a) = press(&mut st, ch('+'));
    assert_eq!(st.player.volume, 100);
    assert!(matches!(a.as_slice(), [Action::SetVolume(100)]));
    st.player.volume = 3;
    let (_, a) = press(&mut st, ch('-'));
    assert_eq!(st.player.volume, 0);
    assert!(matches!(a.as_slice(), [Action::SetVolume(0)]));
    let (_, a) = press(&mut st, ch('='));
    assert!(matches!(a.as_slice(), [Action::SetVolume(5)]));
}

#[test]
fn clear_queue_key() {
    let mut st = AppState::default();
    st.queue.tracks = vec![pt("a", "b")];
    st.queue.playing = Some(0);
    st.queue.playlist_name = s("Mix");
    let (_, a) = press(&mut st, ch('C'));
    assert!(st.queue.tracks.is_empty());
    assert!(st.queue.playing.is_none());
    assert_eq!(st.queue.playlist_name, "");
    assert!(matches!(a.as_slice(), [Action::ClearQueueState]));
}

#[test]
fn queue_enter_plays_the_selection() {
    let mut st = AppState::default();
    st.queue.tracks = vec![pt("a", "x"), pt("b", "y"), pt("c", "z")];
    st.queue.playlist_name = s("Mix");
    press(&mut st, key(KeyCode::Down));
    assert_eq!(st.queue.selected, 1);
    let (_, a) = press(&mut st, key(KeyCode::Enter));
    assert_eq!(st.queue.playing, Some(1));
    match a.as_slice() {
        [Action::SaveQueueState(p, 1, 3), Action::FireAndRefresh(BackendCommand::PlayTrackInPlaylist(q, 1))] => {
            assert_eq!(p, "Mix");
            assert_eq!(q, "Mix");
        }
        _ => panic!("unexpected actions"),
    }
}

#[test]
fn queue_filter_typing() {
    let mut st = AppState::default();
    st.queue.tracks = vec![pt("Alpha", "x"), pt("Beta", "y")];
    st.filter.active = true;
    press(&mut st, ch('b'));
    press(&mut st, ch('e'));
    press(&mut st, ch('/'));
    assert_eq!(st.active_tab, Tab::Queue);
    assert_eq!(st.filter.query, "be/");
    press(&mut st, key(KeyCode::Backspace));
    press(&mut st, key(KeyCode::Backspace));
    assert_eq!(st.filter.query, "b");
    press(&mut st, key(KeyCode::Esc));
    assert!(!st.filter.active);
    assert_eq!(st.filter.query, "");
}

#[test]
fn slash_goes_to_search_from_every_tab() {
    for tab in [Tab::Queue, Tab::Library, Tab::Lyrics, Tab::Search] {
        let mut st = AppState::default();
        st.active_tab = tab;
        let (quit, a) = press(&mut st, ch('/'));
        assert!(!quit);
        assert!(a.is_empty());
        assert_eq!(st.active_tab, Tab::Search);
        assert!(st.search.editing);
        assert!(!st.filter.active);
    }
}

#[test]
fn library_enter_opens_a_playlist_and_enter_again_plays() {
    let mut st = AppState::default();
    st.active_tab = Tab::Library;
    st.library.playlists = vec![s("Rock"), s("Jazz")];
    press(&mut st, ch('j'));
    let (_, a) = press(&mut st, key(KeyCode::Enter));
    assert!(matches!(&st.library.sub_view, LibrarySubView::Tracks(n) if n == "Jazz"));
    assert!(matches!(a.as_slice(), [Action::LoadPlaylistTracks(n)] if n == "Jazz"));
    assert_eq!(st.queue.playlist_name, "");
    assert_eq!(st.queue.playing, None);
    on_playlist_tracks_loaded(&mut st, "Jazz", vec![pt("One", "x"), pt("Two", "y")]);
    assert_eq!(st.library.tracks.len(), 2);
    assert!(st.queue.tracks.is_empty());
    let (_, a) = press(&mut st, key(KeyCode::Enter));
    assert_eq!(st.queue.playlist_name, "Jazz");
    assert_eq!(st.queue.tracks.len(), 2);
    assert_eq!(st.queue.playing, Some(0));
    assert!(a.iter().any(|x| matches!(x, Action::FireAndRefresh(BackendCommand::PlayTrackInPlaylist(n, 0)) if n == "Jazz")));
}

#[test]
fn queued_playlist_fills_the_queue_when_loaded() {
    let mut st = AppState::default();
    st.active_tab = Tab::Library;
    st.library.playlists = vec![s("Mix"), s("Road")];
    press(&mut st, ch('j'));
    let (_, a) = press(&mut st, ch('Q'));
    assert_eq!(st.active_tab, Tab::Queue);
    assert_eq!(st.queue.playlist_name, "Road");
    assert!(matches!(a.as_slice(), [Action::SaveQueueState(n, 0, 0), Action::LoadPlaylistTracks(m)] if n == "Road" && m == "Road"));
    on_playlist_tracks_loaded(&mut st, "Mix", vec![pt("x", "y")]);
    assert!(st.queue.tracks.is_empty());
    on_playlist_tracks_loaded(&mut st, "Road", vec![pt("x", "y"), pt("z", "w")]);
    assert_eq!(st.queue.tracks.len(), 2);
    assert!(st.library.tracks.is_empty());
}

#[test]
fn library_right_opens_a_playlist() {
    let mut st = AppState::default();
    st.active_tab = Tab::Library;
    st.library.playlists = vec![s("Mix")];
    let (_, a) = press(&mut st, key(KeyCode::Right));
    assert!(matches!(&st.library.sub_view, LibrarySubView::Tracks(n) if n == "Mix"));
    assert!(matches!(a.as_slice(), [Action::LoadPlaylistTracks(n)] if n == "Mix"));
    on_playlist_tracks_loaded(&mut st, "Other", vec![pt("x", "y")]);
    assert!(st.library.tracks.is_empty());
    on_playlist_tracks_loaded(&mut st, "Mix", vec![pt("x", "y")]);
    assert_eq!(st.library.tracks.len(), 1);
    press(&mut st, key(KeyCode::Backspace));
    assert!(matches!(st.library.sub_view, LibrarySubView::Playlists));
}

#[test]
fn search_typing_and_submit() {
    let mut st = AppState::default();
    st.active_tab = Tab::Lyrics;
    press(&mut st, ch('/'));
    assert_eq!(st.active_tab, Tab::Search);
    assert!(st.search.editing);
    let (_, a) = press(&mut st, ch('a'));
    assert!(a.is_empty());
    let (_, a) = press(&mut st, ch('b'));
    assert!(matches!(a.as_slice(), [Action::Search(q)] if q == "ab"));
    let (_, a) = press(&mut st, key(KeyCode::Enter));
    assert!(!st.search.editing);
    assert!(a.is_empty());
    on_search_results(&mut st, "zz", vec![SearchResult { name: s("x"), artist: s("y"), album: s("z") }]);
    assert!(st.search.results.is_empty());
    on_search_results(&mut st, "ab", vec![SearchResult { name: s("x"), artist: s("y"), album: s("z") }]);
    assert_eq!(st.search.results.len(), 1);
}

#[test]
fn artist_search_key() {
    let mut st = AppState::default();
    st.player.track = Some(Track { name: s("Song"), artist: s("Band"), album: s("Record"), duration_ms: 1, position_ms: 0 });
    let (_, a) = press(&mut st, ch('a'));
    assert_eq!(st.active_tab, Tab::Search);
    assert_eq!(st.search.query, "Band");
    assert!(!st.search.editing);
    assert!(matches!(a.as_slice(), [Action::Search(q)] if q == "Band"));
    let (_, a) = press(&mut st, ch('O'));
    assert!(matches!(a.as_slice(), [Action::RevealAlbum(al, ar)] if al == "Record" && ar == "Band"));
}

#[test]
fn album_search_key_and_typing() {
    let mut st = AppState::default();
    st.player.track = Some(Track { name: s("Song"), artist: s("Band"), album: s("Record"), duration_ms: 1, position_ms: 0 });
    let (_, a) = press(&mut st, ch('A'));
    assert_eq!(st.active_tab, Tab::Search);
    assert_eq!(st.search.query, "Record");
    assert!(!st.search.editing);
    assert!(matches!(a.as_slice(), [Action::Search(q)] if q == "Record"));
    // While the query is being typed, 'A' is a letter like the others.
    st.search.editing = true;
    st.search.query = s("x");
    st.search.selected = 3;
    let (quit, a) = press(&mut st, ch('A'));
    assert!(!quit);
    assert_eq!(st.search.query, "xA");
    assert!(st.search.editing);
    assert_eq!(st.active_tab, Tab::Search);
    assert_eq!(st.search.selected, 0);
    assert!(matches!(a.as_slice(), [Action::Search(q)] if q == "xA"));
}

#[test]
fn search_needs_two_characters() {
    let mut st = AppState::default();
    st.active_tab = Tab::Search;
    st.search.editing = true;
    let (_, a) = press(&mut st, ch('\u{e9}'));
    assert!(a.is_empty());
    let (_, a) = press(&mut st, ch('t'));
    assert!(matches!(a.as_slice(), [Action::Search(q)] if q == "\u{e9}t"));
}

#[test]
fn slash_is_not_typed_into_a_search() {
    let mut st = AppState::default();
    st.active_tab = Tab::Search;
    st.search.editing = true;
    st.search.query = s("ab");
    let (_, a) = press(&mut st, ch('/'));
    assert!(a.is_empty());
    assert_eq!(st.search.query, "ab");
    assert!(st.search.editing);
    assert_eq!(st.active_tab, Tab::Search);
}

#[test]
fn theme_picker_previews_and_restores() {
    let mut st = AppState::default();
    let other = Theme { border: Color::Indexed(1), ..fallback_theme() };
    st.theme.all = vec![(s("synthwave"), fallback_theme()), (s("other"), other)];
    let mut theme = fallback_theme();
    handle_key(ch('t'), &mut st, &mut theme);
    assert!(st.theme.picker_visible);
    assert_eq!(st.theme.selected, 0);
    handle_key(key(KeyCode::Down), &mut st, &mut theme);
    assert_eq!(theme, other);
    handle_key(key(KeyCode::Esc), &mut st, &mut theme);
    assert!(!st.theme.picker_visible);
    assert_eq!(theme, fallback_theme());
}

#[test]
fn navigation_helpers() {
    assert_eq!(normalize_nav_key(&ch('j'), true), KeyCode::Down);
    assert_eq!(normalize_nav_key(&ch('j'), false), KeyCode::Char('j'));
    assert_eq!(normalize_nav_key(&KeyEvent { code: KeyCode::Char('f'), control: true }, false), KeyCode::PageDown);
    assert_eq!(list_nav(KeyCode::Down, 0, 0, 3), Some((1, 0)));
    assert_eq!(list_nav(KeyCode::Down, 2, 0, 3), Some((2, 0)));
    assert_eq!(list_nav(KeyCode::End, 0, 0, 45), Some((44, 25)));
    assert_eq!(list_nav(KeyCode::Home, 30, 20, 45), Some((0, 0)));
    assert_eq!(list_nav(KeyCode::Enter, 0, 0, 3), None);
    let tracks = vec![pt("Alpha", "x"), pt("Beta", "ALPHA"), pt("Gamma", "y")];
    assert_eq!(filter_track_indices(&tracks, "alp"), vec![0, 1]);
    assert_eq!(filter_track_indices(&tracks, ""), vec![0, 1, 2]);
    assert_eq!(filter_string_indices(&[s("Mix"), s("mixed"), s("Road")], "MIX"), vec![0, 1]);
}

#[test]
fn queue_state_file_round_trip() {
    let text = queue_state_text("My Mix", 3, 10);
    assert_eq!(text, "My Mix\n3\n10");
    assert_eq!(load_queue_state(&text), Some((s("My Mix"), 3, 10)));
    assert_eq!(load_queue_state("\n1\n2"), None);
    assert_eq!(load_queue_state("Mix\nx\n2"), None);
    assert_eq!(load_queue_state("Mix\n1"), None);
    assert_eq!(load_queue_state("Mix\r\n+1\r\n2\r\n"), Some((s("Mix"), 1, 2)));
    // A position saved with an empty playlist name reads back as nothing.
    assert_eq!(load_queue_state(&queue_state_text("", 3, 10)), None);
}

#[test]
fn cli_next_and_prev() {
    assert!(matches!(cli_next(None).as_slice(), [CliAction::NextTrack]));
    assert!(matches!(cli_prev(None).as_slice(), [CliAction::PreviousTrack]));
    let r = cli_next(Some("Mix\n3\n10"));
    assert!(matches!(r.as_slice(), [CliAction::PlayTrackInPlaylist(p, 4), CliAction::SaveQueueState(q, 4, 10)] if p == "Mix" && q == "Mix"));
    assert!(cli_next(Some("Mix\n9\n10")).is_empty());
    let r = cli_prev(Some("Mix\n3\n10"));
    assert!(matches!(r.as_slice(), [CliAction::PlayTrackInPlaylist(_, 2), CliAction::SaveQueueState(_, 2, 10)]));
    assert!(cli_prev(Some("Mix\n0\n10")).is_empty());
}

#[test]
fn queue_selection_follows_the_track() {
    let tracks = vec![pt("a", "x"), pt("b", "y"), pt("b", "y")];
    match sync_queue_selection(&tracks, "Mix", "b", "y") {
        Some((1, CliAction::SaveQueueState(name, 1, 3))) => assert_eq!(name, "Mix"),
        _ => panic!("expected the first match and its save step"),
    }
    assert!(sync_queue_selection(&tracks, "Mix", "b", "z").is_none());
}

fn full(track: Option<Track>) -> FullState {
    FullState {
        music_running: true,
        player_state: PlayerState::Playing,
        volume: 40,
        shuffle_enabled: true,
        repeat_mode: RepeatMode::One,
        track,
        track_favorited: true,
    }
}

#[test]
fn fresh_state_is_applied() {
    let mut st = AppState::default();
    let t = Track { name: s("Song"), artist: s("Band"), album: s("LP"), duration_ms: 100_000, position_ms: 1_000 };
    let a = apply_fresh_state(&mut st, &full(Some(t)));
    assert_eq!(st.player.volume, 40);
    assert!(st.player.shuffle_enabled);
    assert_eq!(st.player.repeat_mode, RepeatMode::One);
    assert!(st.player.current_track_favorited);
    assert_eq!(st.player.artwork_key, "Band\tLP");
    assert!(artwork_is_current(&st, "Band\tLP"));
    assert!(a.iter().any(|x| matches!(x, Action::FetchArtwork(k) if k == "Band\tLP")));
    assert_eq!(art_key("Band", "LP"), "Band\tLP");
}

#[test]
fn notifications_and_lyrics() {
    let mut st = AppState::default();
    let info = NotificationInfo { player_state: s("Playing"), name: s("Song"), artist: s("Band"), album: s("LP"), total_time_ms: 1000 };
    handle_notification(&mut st, &info, false);
    assert_eq!(st.player.playback, PlayerState::Playing);
    let k = lyrics_request(&mut st, &info).unwrap();
    assert_eq!(k, "Song\tBand");
    assert!(lyrics_request(&mut st, &info).is_none());
    on_lyrics_loaded(&mut st, "other", Some(LyricsResult { lines: vec![], synced: true }));
    assert!(!st.lyrics.synced);
    on_lyrics_loaded(&mut st, "Song\tBand", Some(LyricsResult { lines: vec![LyricsLine { text: s("la"), time_ms: None }], synced: false }));
    assert_eq!(st.lyrics.lines.len(), 1);
    on_lyrics_loaded(&mut st, "Song\tBand", None);
    assert!(st.lyrics.lines.is_empty());
}

#[test]
fn startup_helpers() {
    let mut st = AppState::default();
    assert!(should_load_playlists(true, &st));
    st.library.playlists = vec![s("x")];
    assert!(!should_load_playlists(true, &st));
    assert!(!should_load_playlists(false, &st));
    restore_queue(&mut st, s("Mix"), 99, vec![pt("a", "b"), pt("c", "d")]);
    assert_eq!(st.queue.selected, 1);
    assert_eq!(st.queue.playing, Some(1));
    assert_eq!(st.queue.playlist_name, "Mix");
    restore_queue(&mut st, s("Other"), 0, vec![]);
    assert_eq!(st.queue.playlist_name, "Mix");
    on_lastfm_result(&mut st, true);
    assert_eq!(st.lastfm_status, "last.fm \u{2713}");
    on_lastfm_result(&mut st, false);
    assert_eq!(st.lastfm_status, "");
}

#[test]
fn removing_an_entry_keeps_the_playing_track() {
    let mut st = AppState::default();
    st.queue.tracks = vec![pt("a", "x"), pt("b", "y"), pt("c", "z")];
    st.queue.playlist_name = s("Mix");
    st.queue.playing = Some(2);
    st.queue.selected = 0;
    let (_, a) = press(&mut st, ch('d'));
    assert_eq!(st.queue.tracks.len(), 2);
    assert_eq!(st.queue.playing, Some(1));
    assert_eq!(st.queue.tracks[1].name, "c");
    assert!(matches!(a.as_slice(), [Action::SaveQueueState(p, 1, 2)] if p == "Mix"));
}

#[test]
fn removing_the_last_entry_clears_the_queue() {
    let mut st = AppState::default();
    st.queue.tracks = vec![pt("a", "x")];
    st.queue.playlist_name = s("Mix");
    st.queue.playing = Some(0);
    let (_, a) = press(&mut st, ch('x'));
    assert!(st.queue.tracks.is_empty());
    assert!(st.queue.playing.is_none());
    assert!(matches!(a.as_slice(), [Action::ClearQueueState]));
}

#[test]
fn repeat_key_cycles_through_three_modes() {
    let mut st = AppState::default();
    let start = st.player.repeat_mode;
    press(&mut st, ch('r'));
    let one = st.player.repeat_mode;
    press(&mut st, ch('r'));
    let two = st.player.repeat_mode;
    press(&mut st, ch('r'));
    assert_ne!(one, start);
    assert_ne!(two, start);
    assert_ne!(one, two);
    assert_eq!(st.player.repeat_mode, start);
    assert_eq!(RepeatMode::Off.cycled(), RepeatMode::All);
    assert_eq!(RepeatMode::One.label(), "one");
}

#[test]
fn tab_names_select_tabs() {
    for (name, t) in [("queue", Tab::Queue), ("library", Tab::Library), ("search", Tab::Search), ("lyrics", Tab::Lyrics)] {
        assert_eq!(Tab::from_name(name), Some(t));
        assert_eq!(t.next().prev(), t);
        assert_eq!(t.prev().next(), t);
    }
    assert_eq!(Tab::from_name("Queue"), None);
    assert_eq!(Tab::Lyrics.label(), "Lyrics");
}

#[test]
fn finished_track_advances_the_queue() {
    let mut st = AppState::default();
    st.queue.tracks = vec![pt("a", "x"), pt("b", "y"), pt("c", "z")];
    st.queue.playlist_name = s("Mix");
    st.queue.playing = Some(0);
    st.player.playback = PlayerState::Playing;
    st.player.track = Some(Track { name: s("a"), artist: s("x"), album: s("Al"), duration_ms: 200_000, position_ms: 197_000 });
    let info = NotificationInfo { player_state: s("Paused"), name: s("a"), artist: s("x"), album: s("Al"), total_time_ms: 200_000 };
    let actions = handle_notification(&mut st, &info, true);
    assert_eq!(st.queue.playing, Some(1));
    assert_eq!(st.queue.selected, 1);
    assert!(matches!(actions.as_slice(),
        [Action::SaveQueueState(p, 1, 3), Action::FireAndRefresh(BackendCommand::PlayTrackInPlaylist(q, 1))]
        if p == "Mix" && q == "Mix"));
    assert_eq!(st.player.track.as_ref().unwrap().position_ms, 200_000);
}

#[test]
fn finished_track_is_left_to_a_player_with_its_own_queue() {
    let mut st = AppState::default();
    st.queue.tracks = vec![pt("a", "x"), pt("b", "y")];
    st.queue.playing = Some(0);
    st.player.playback = PlayerState::Playing;
    st.player.track = Some(Track { name: s("a"), artist: s("x"), album: s("Al"), duration_ms: 200_000, position_ms: 199_000 });
    let info = NotificationInfo { player_state: s("Paused"), name: s("a"), artist: s("x"), album: s("Al"), total_time_ms: 200_000 };
    let actions = handle_notification(&mut st, &info, false);
    assert_eq!(st.queue.playing, Some(0));
    assert!(actions.is_empty());
    assert_eq!(st.player.playback, PlayerState::Paused);
}

#[test]
fn only_scrolling_past_the_end_is_refused() {
    let mut st = AppState::default();
    st.active_tab = Tab::Lyrics;
    st.lyrics.scroll = usize::MAX;
    assert!(!key_ready_check(&st, key(KeyCode::Down)));
    assert!(!key_ready_check(&st, ch('j')));
    assert!(!key_ready_check(&st, key(KeyCode::PageDown)));
    assert!(!key_ready_check(&st, KeyEvent { code: KeyCode::Char('f'), control: true }));
    assert!(key_ready_check(&st, key(KeyCode::Up)));
    assert!(key_ready_check(&st, ch('q')));
    // Any other key still works there: `q` quits.
    let (quit, _) = press(&mut st, ch('q'));
    assert!(quit);
    st.lyrics.scroll = usize::MAX - 20;
    assert!(key_ready_check(&st, key(KeyCode::PageDown)));
    st.lyrics.scroll = usize::MAX - 19;
    assert!(!key_ready_check(&st, key(KeyCode::PageDown)));
    assert!(key_ready_check(&st, key(KeyCode::Down)));
    // With help open, or in another tab, the lyrics do not scroll.
    st.lyrics.scroll = usize::MAX;
    st.overlays.show_help = true;
    assert!(key_ready_check(&st, key(KeyCode::Down)));
    st.overlays.show_help = false;
    st.active_tab = Tab::Queue;
    assert!(key_ready_check(&st, key(KeyCode::Down)));
}

#[test]
fn state_is_fetched_three_times_after_a_command() {
    assert_eq!(refresh_delay_ms(0), Some(500));
    assert_eq!(refresh_delay_ms(1), Some(800));
    assert_eq!(refresh_delay_ms(2), Some(800));
    assert_eq!(refresh_delay_ms(3), None);
}

#[test]
fn playback_keys_work_from_every_tab() {
    for tab in [Tab::Queue, Tab::Library, Tab::Search, Tab::Lyrics] {
        let mut st = AppState::default();
        st.active_tab = tab;
        st.search.editing = false;
        let (quit, a) = press(&mut st, ch('n'));
        assert!(!quit);
        assert!(matches!(a.as_slice(), [Action::FireAndRefresh(BackendCommand::NextTrack)]));
        assert_eq!(st.active_tab, tab);
    }
}
