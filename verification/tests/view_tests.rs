use muse::backend::{LyricsLine, PlayerState, PlaylistTrack, SearchResult, Track};
use muse::display::{apply_lyrics_autoscroll, content_box, effective_track_position, format_time, player_height, player_panel, PlayerPanel};
use muse::mainloop::LoopTimers;
use muse::text::i32_to_string;
use muse::listing::{
    has_filter_bar, help_hint, library_header, library_listing, lyrics_listing,
    playlist_picker_listing, queue_listing, search_listing, theme_picker_listing, Emphasis,
    ListContent,
};
use muse::state::{AppState, LibrarySubView, Tab};
use muse::theme::fallback_theme;

fn s(x: &str) -> String {
    x.to_string()
}

fn pt(name: &str, artist: &str, ms: u64) -> PlaylistTrack {
    PlaylistTrack { name: s(name), artist: s(artist), album: s("Al"), duration_ms: ms }
}

fn rows(c: ListContent) -> (Vec<(String, String, Emphasis)>, usize) {
    match c {
        ListContent::Rows(r, off) => (r.into_iter().map(|x| (x.text, x.detail, x.emphasis)).collect(), off),
        ListContent::Message(m) => panic!("unexpected message {}", m),
    }
}

fn msg(c: ListContent) -> String {
    match c {
        ListContent::Message(m) => m,
        ListContent::Rows(..) => panic!("unexpected rows"),
    }
}

#[test]
fn time_labels() {
    assert_eq!(format_time(0), "0:00");
    assert_eq!(format_time(65), "1:05");
    assert_eq!(format_time(599), "9:59");
    assert_eq!(format_time(3600), "60:00");
}

#[test]
fn player_panel_height() {
    let mut st = AppState::default();
    assert_eq!(player_height(&st), 2);
    st.player.track = Some(Track { name: s("a"), artist: s("b"), album: s("c"), duration_ms: 1, position_ms: 0 });
    assert_eq!(player_height(&st), 10);
    st.player.music_running = false;
    assert_eq!(player_height(&st), 3);
}

#[test]
fn content_box_width() {
    assert_eq!(content_box(100, 120), (100, 0));
    assert_eq!(content_box(200, 120), (120, 40));
    assert_eq!(content_box(201, 120), (120, 40));
    assert_eq!(content_box(200, 0), (200, 0));
}

#[test]
fn position_is_interpolated_while_playing() {
    let mut st = AppState::default();
    assert_eq!(effective_track_position(&st, 5000), None);
    st.player.track = Some(Track { name: s("a"), artist: s("b"), album: s("c"), duration_ms: 10_000, position_ms: 4_000 });
    st.player.playback = PlayerState::Paused;
    assert_eq!(effective_track_position(&st, 5000), Some(4_000));
    st.player.playback = PlayerState::Playing;
    assert_eq!(effective_track_position(&st, 5000), Some(9_000));
    assert_eq!(effective_track_position(&st, 7000), Some(10_000));
    assert_eq!(effective_track_position(&st, u64::MAX), Some(10_000));
}

fn timed(n: usize) -> Vec<LyricsLine> {
    (0..n).map(|i| LyricsLine { text: format!("line {}", i), time_ms: Some(i as u64 * 1000) }).collect()
}

#[test]
fn lyrics_follow_the_song() {
    let mut st = AppState::default();
    st.lyrics.lines = timed(50);
    st.lyrics.synced = true;
    apply_lyrics_autoscroll(&mut st, Some(25_500));
    assert_eq!(st.lyrics.scroll, 15);
    apply_lyrics_autoscroll(&mut st, Some(3_000));
    assert_eq!(st.lyrics.scroll, 0);
    apply_lyrics_autoscroll(&mut st, Some(49_000));
    assert_eq!(st.lyrics.scroll, 30);
    st.lyrics.scroll = 7;
    apply_lyrics_autoscroll(&mut st, None);
    assert_eq!(st.lyrics.scroll, 7);
    st.lyrics.manual_scroll = true;
    apply_lyrics_autoscroll(&mut st, Some(40_000));
    assert_eq!(st.lyrics.scroll, 7);
}

#[test]
fn lyrics_before_the_first_line_stay() {
    let mut st = AppState::default();
    st.lyrics.lines = vec![LyricsLine { text: s("x"), time_ms: Some(5000) }, LyricsLine { text: s("y"), time_ms: None }];
    st.lyrics.synced = true;
    st.lyrics.scroll = 1;
    apply_lyrics_autoscroll(&mut st, Some(4_999));
    assert_eq!(st.lyrics.scroll, 1);
    apply_lyrics_autoscroll(&mut st, Some(5_000));
    assert_eq!(st.lyrics.scroll, 0);
}

#[test]
fn queue_panel() {
    let mut st = AppState::default();
    assert_eq!(msg(queue_listing(&st)), "No queue \u{2014} play a playlist to fill");
    st.queue.tracks = vec![pt("One", "A", 61_000), pt("Two", "B", 5_000), pt("Three", "A", 0)];
    st.queue.selected = 1;
    st.queue.playing = Some(0);
    st.queue.scroll = 0;
    let (r, off) = rows(queue_listing(&st));
    assert_eq!(off, 0);
    assert_eq!(r.len(), 3);
    assert_eq!(r[0], (s("\u{266b} One \u{2014} A"), s("  1:01"), Emphasis::Playing));
    assert_eq!(r[1], (s("\u{25b8} Two \u{2014} B"), s("  0:05"), Emphasis::Selected));
    assert_eq!(r[2], (s("  Three \u{2014} A"), s("  0:00"), Emphasis::Normal));
}

#[test]
fn queue_panel_with_filter() {
    let mut st = AppState::default();
    st.queue.tracks = vec![pt("One", "A", 0), pt("Two", "B", 0), pt("Three", "a", 0)];
    st.filter.query = s("a");
    assert!(has_filter_bar(&st));
    let (r, _) = rows(queue_listing(&st));
    assert_eq!(r.len(), 2);
    assert_eq!(r[0].0, "\u{25b8} One \u{2014} A");
    assert_eq!(r[1].0, "  Three \u{2014} a");
    st.filter.query = s("zzz");
    assert_eq!(msg(queue_listing(&st)), "No matches");
}

#[test]
fn library_panel() {
    let mut st = AppState::default();
    assert_eq!(msg(library_listing(&st)), "Loading playlists\u{2026}");
    assert!(library_header(&st).is_none());
    st.library.playlists = vec![s("Mix"), s("Road trip")];
    st.library.selected = 1;
    let (r, _) = rows(library_listing(&st));
    assert_eq!(r, vec![(s("  Mix"), s(""), Emphasis::Normal), (s("\u{25b8} Road trip"), s(""), Emphasis::Selected)]);
    st.filter.active = true;
    st.filter.query = s("ROAD");
    let (r, _) = rows(library_listing(&st));
    assert_eq!(r.len(), 1);
    assert_eq!(r[0].0, "  Road trip");
    st.filter = Default::default();
    st.library.sub_view = LibrarySubView::Tracks(s("Mix"));
    assert_eq!(library_header(&st), Some(s("\u{2190} Mix")));
    assert_eq!(msg(library_listing(&st)), "Loading\u{2026}");
    st.library.tracks = vec![pt("Song", "X", 90_000)];
    st.library.tracks_selected = 0;
    st.library.tracks_scroll = 3;
    let (r, off) = rows(library_listing(&st));
    assert_eq!(off, 3);
    assert_eq!(r, vec![(s("\u{25b8} Song \u{2014} X"), s("  1:30"), Emphasis::Selected)]);
}

#[test]
fn search_panel() {
    let mut st = AppState::default();
    assert!(search_listing(&st).is_none());
    st.search.query = s("abc");
    assert_eq!(msg(search_listing(&st).unwrap()), "No results");
    st.search.results = vec![
        SearchResult { name: s("N1"), artist: s("A1"), album: s("L1") },
        SearchResult { name: s("N2"), artist: s("A2"), album: s("L2") },
    ];
    st.search.editing = true;
    let (r, _) = rows(search_listing(&st).unwrap());
    assert_eq!(r[0], (s("  N1 \u{2014} A1"), s(""), Emphasis::Dimmed));
    st.search.editing = false;
    st.search.selected = 1;
    let (r, _) = rows(search_listing(&st).unwrap());
    assert_eq!(r[0], (s("  N1 \u{2014} A1"), s(""), Emphasis::Normal));
    assert_eq!(r[1], (s("\u{25b8} N2 \u{2014} A2"), s(""), Emphasis::Selected));
}

#[test]
fn lyrics_panel() {
    let mut st = AppState::default();
    assert_eq!(msg(lyrics_listing(&st, None)), "No lyrics available");
    st.lyrics_enabled = false;
    assert_eq!(msg(lyrics_listing(&st, None)), "Lyrics disabled in config");
    st.lyrics.lines = timed(3);
    st.lyrics.synced = true;
    let (r, _) = rows(lyrics_listing(&st, Some(1_500)));
    assert_eq!(r.iter().map(|x| x.2).collect::<Vec<_>>(), vec![Emphasis::Dimmed, Emphasis::Selected, Emphasis::Dimmed]);
    assert_eq!(r[2].0, "line 2");
    let (r, _) = rows(lyrics_listing(&st, None));
    assert!(r.iter().all(|x| x.2 == Emphasis::Normal));
    st.lyrics.synced = false;
    let (r, _) = rows(lyrics_listing(&st, Some(1_500)));
    assert!(r.iter().all(|x| x.2 == Emphasis::Normal));
}

#[test]
fn pickers() {
    let mut st = AppState::default();
    st.theme.all = vec![(s("ocean"), fallback_theme()), (s("synthwave"), fallback_theme())];
    st.theme.selected = 0;
    let (r, _) = rows(theme_picker_listing(&st));
    assert_eq!(r[0], (s("\u{25b8} ocean"), s(""), Emphasis::Selected));
    assert_eq!(r[1], (s("  synthwave \u{2713}"), s(""), Emphasis::Normal));
    assert_eq!(msg(playlist_picker_listing(&st)), "No playlists");
    st.library.playlists = vec![s("Mix")];
    let (r, _) = rows(playlist_picker_listing(&st));
    assert_eq!(r, vec![(s("\u{25b8} Mix"), s(""), Emphasis::Selected)]);
}

#[test]
fn help_hints() {
    let mut st = AppState::default();
    assert_eq!(help_hint(&st), "? Help \u{b7} q Quit");
    st.active_tab = Tab::Search;
    assert_eq!(help_hint(&st), "Enter browse \u{b7} Esc stop editing");
    st.search.editing = false;
    assert_eq!(help_hint(&st), "? Help \u{b7} q Quit");
}

#[test]
fn player_panel_texts() {
    let mut st = AppState::default();
    assert!(matches!(player_panel(&st, None), PlayerPanel::NoTrack));
    st.player.track = Some(Track { name: s("Song"), artist: s("Band"), album: s("LP"), duration_ms: 185_000, position_ms: 61_000 });
    st.player.current_track_favorited = true;
    st.player.volume = 70;
    match player_panel(&st, None) {
        PlayerPanel::Playing(t) => {
            assert_eq!(t.title, "Song \u{2665}");
            assert_eq!(t.subtitle, "Band \u{2014} LP");
            assert_eq!(t.elapsed, "1:01 ");
            assert_eq!(t.total, " 3:05");
            assert_eq!(t.controls, "\u{292e} off  \u{27f3} off  Vol: 70%");
        }
        _ => panic!("expected the track panel"),
    }
    st.player.shuffle_enabled = true;
    st.player.volume = -3;
    match player_panel(&st, Some(2_500)) {
        PlayerPanel::Playing(t) => {
            assert_eq!(t.elapsed, "0:02 ");
            assert_eq!(t.controls, "\u{292e} on   \u{27f3} off  Vol: -3%");
        }
        _ => panic!("expected the track panel"),
    }
    st.player.music_running = false;
    assert!(matches!(player_panel(&st, None), PlayerPanel::NotRunning));
}

#[test]
fn signed_numbers() {
    assert_eq!(i32_to_string(0), "0");
    assert_eq!(i32_to_string(42), "42");
    assert_eq!(i32_to_string(-7), "-7");
    assert_eq!(i32_to_string(i32::MIN), "-2147483648");
    assert_eq!(i32_to_string(i32::MAX), "2147483647");
}

#[test]
fn loop_timers() {
    let mut st = AppState::default();
    let mut t = LoopTimers::new(1_000_000, false);
    let p = t.tick_at(1_001_999);
    assert!(!p.refresh_state);
    assert!(!p.recheck_lastfm);
    let p = t.tick_at(1_002_000);
    assert!(p.refresh_state);
    assert_eq!(t.last_refresh_ms, 1_002_000);
    let p = t.tick_at(1_060_000);
    assert!(p.recheck_lastfm);
    t.lastfm_checked(true, &mut st);
    assert_eq!(st.lastfm_status, "last.fm");
    assert!(!t.tick_at(1_200_000).recheck_lastfm);
    t.lastfm_failed_at(1_300_000);
    assert!(!t.lastfm_available);
    assert!(t.tick_at(1_300_100).recheck_lastfm);
    let mut st2 = AppState::default();
    t.lastfm_checked(false, &mut st2);
    assert_eq!(st2.lastfm_status, "");
}
