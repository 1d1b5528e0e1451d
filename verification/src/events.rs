//! Reconciling the state with what the backend reports: polled state,
//! playback notifications, and results of background loads.

use vstd::prelude::*;
use crate::backend::{FullState, LyricsResult, NotificationInfo, PlayerState, PlaylistTrack, SearchResult, Track};
use crate::handlers::{actions_view, Action, ActionView, BackendCommand, CommandView};
use crate::nav::PAGE_SIZE;
use crate::playlist::{queue_position, sync_queue_selection, CliAction};
use crate::state::{AppState, AppView, LibrarySubView, LyricsView, PlayerView, QueueView, SearchView};
use crate::text::{push_char, push_str, str_eq};

verus! {

broadcast use vstd::string::group_string_axioms;

/// Artwork is keyed by artist and album, separated by a tab.
pub open spec fn art_key_of(artist: Seq<char>, album: Seq<char>) -> Seq<char> {
    artist + seq!['\t'] + album
}

/// Less than five seconds of a track with a known duration remain.
pub open spec fn near_end(t: Track) -> bool {
    t.duration_ms > 0 && t.duration_ms < t.position_ms + 5000
}

fn near_end_exec(t: &Track) -> (r: bool)
    ensures
        r == near_end(*t),
{
    t.duration_ms > 0 && (t.position_ms >= t.duration_ms || t.duration_ms - t.position_ms < 5000)
}

/// The key `artist\talbum`.
pub fn art_key(artist: &str, album: &str) -> (r: String)
    ensures
        r@ == art_key_of(artist@, album@),
{
    let mut k = String::new();
    push_str(&mut k, artist);
    push_char(&mut k, '\t');
    push_str(&mut k, album);
    k
}

fn push_action(v: &mut Vec<Action>, a: Action)
    ensures
        actions_view(final(v)@) == actions_view(old(v)@).push(a@),
{
    v.push(a);
    assert(actions_view(v@) =~= actions_view(old(v)@).push(a@));
}

fn no_actions() -> (v: Vec<Action>)
    ensures
        actions_view(v@) == Seq::<ActionView>::empty(),
{
    let v: Vec<Action> = Vec::new();
    assert(actions_view(v@) =~= Seq::<ActionView>::empty());
    v
}

fn same_track(a: &Track, name: &str, artist: &str) -> (r: bool)
    ensures
        r == (a.name@ == name@ && a.artist@ == artist@),
{
    str_eq(a.name.as_str(), name) && str_eq(a.artist.as_str(), artist)
}

// ---------------------------------------------------------------------------
// Polled state
// ---------------------------------------------------------------------------

/// The player part of the state after a poll.
pub open spec fn fresh_player_spec(p: PlayerView, f: FullState) -> PlayerView {
    let running = if f.music_running || !p.music_running {
        f.music_running
    } else {
        p.music_running
    };
    let p1 = PlayerView { music_running: running, ..p };
    if f.music_running {
        let base = PlayerView {
            volume: f.volume,
            shuffle_enabled: f.shuffle_enabled,
            repeat_mode: f.repeat_mode,
            current_track_favorited: f.track_favorited,
            ..p1
        };
        match f.track {
            Some(t) => {
                let was_playing = p.playback == PlayerState::Playing;
                let stopped_playing = f.player_state != PlayerState::Playing;
                let same = match p.track {
                    Some(o) => o.name@ == t.name@ && o.artist@ == t.artist@,
                    None => false,
                };
                let shown = if was_playing && stopped_playing && same && near_end(t) {
                    Track { position_ms: t.duration_ms, ..t }
                } else {
                    t
                };
                PlayerView { track: Some(shown), playback: f.player_state, ..base }
            },
            None => if p.track is None {
                PlayerView { playback: f.player_state, ..base }
            } else {
                base
            },
        }
    } else {
        p1
    }
}

/// Applying a polled state: "not running" is only believed when the player
/// was not running before; settings follow the poll while the player runs;
/// a poll without a track keeps the track shown; a track that just ended
/// is shown at its end. A new artwork key asks for the artwork; a poll
/// without a track drops it.
pub open spec fn fresh_state_spec(s: AppView, f: FullState) -> (AppView, Seq<ActionView>) {
    let p = fresh_player_spec(s.player, f);
    let key = match f.track {
        Some(t) => art_key_of(t.artist@, t.album@),
        None => Seq::empty(),
    };
    if key != s.player.artwork_key && key.len() > 0 {
        (
            AppView { player: PlayerView { artwork_key: key, ..p }, ..s },
            seq![ActionView::FetchArtwork(key)],
        )
    } else if key.len() == 0 {
        (
            AppView { player: PlayerView { artwork_key: Seq::empty(), ..p }, ..s },
            seq![ActionView::ClearArtwork],
        )
    } else {
        (AppView { player: p, ..s }, seq![])
    }
}

/// Applies a polled player state; returns the artwork requests.
pub fn apply_fresh_state(state: &mut AppState, fresh: &FullState) -> (r: Vec<Action>)
    ensures
        (final(state)@, actions_view(r@)) == fresh_state_spec(old(state)@, *fresh),
{
    let mut actions = no_actions();
    if fresh.music_running || !state.player.music_running {
        state.player.music_running = fresh.music_running;
    }
    if fresh.music_running {
        state.player.volume = fresh.volume;
        state.player.shuffle_enabled = fresh.shuffle_enabled;
        state.player.repeat_mode = fresh.repeat_mode;
        state.player.current_track_favorited = fresh.track_favorited;
        match &fresh.track {
            Some(track) => {
                let was_playing = state.player.playback == PlayerState::Playing;
                let stopped_playing = fresh.player_state != PlayerState::Playing;
                let same = match &state.player.track {
                    Some(o) => same_track(o, track.name.as_str(), track.artist.as_str()),
                    None => false,
                };
                let mut updated = track.clone();
                if was_playing && stopped_playing && same && near_end_exec(track) {
                    updated.position_ms = updated.duration_ms;
                }
                state.player.track = Some(updated);
                state.player.playback = fresh.player_state;
            },
            None => {
                if state.player.track.is_none() {
                    state.player.playback = fresh.player_state;
                }
            },
        }
    }
    let new_key = match &fresh.track {
        Some(t) => art_key(t.artist.as_str(), t.album.as_str()),
        None => String::new(),
    };
    let empty = new_key.as_str().is_empty();
    if !str_eq(new_key.as_str(), state.player.artwork_key.as_str()) && !empty {
        state.player.artwork_key = new_key.clone();
        push_action(&mut actions, Action::FetchArtwork(new_key));
    } else if empty {
        state.player.artwork_key = String::new();
        push_action(&mut actions, Action::ClearArtwork);
    }
    actions
}

// ---------------------------------------------------------------------------
// Playback notifications
// ---------------------------------------------------------------------------

/// Moving the queue to the entry after the playing one when a track ends
/// on its own: the next entry of the queue when there is one (cursor and
/// page follow when the cursor was on the playing entry), else the
/// player's next track.
pub open spec fn queue_advance_spec(s: AppView) -> (AppView, Seq<ActionView>) {
    let q = s.queue;
    let pidx: usize = match q.playing {
        Some(i) => i,
        None => q.selected,
    };
    if q.tracks.len() > 0 && pidx + 1 < q.tracks.len() {
        let next = (pidx + 1) as usize;
        let sel = if q.selected == pidx {
            next
        } else {
            q.selected
        };
        let scroll = if next >= q.scroll + PAGE_SIZE {
            if next >= 3 {
                (next - 3) as usize
            } else {
                0
            }
        } else {
            q.scroll
        };
        (
            AppView { queue: QueueView { playing: Some(next), selected: sel, scroll, ..q }, ..s },
            seq![
                ActionView::SaveQueueState(q.playlist_name, next, q.tracks.len() as usize),
                ActionView::FireAndRefresh(CommandView::PlayTrackInPlaylist(q.playlist_name, next)),
            ],
        )
    } else {
        (s, seq![ActionView::FireAndRefresh(CommandView::NextTrack)])
    }
}

/// The playback part of a notification. "Playing" marks the player
/// playing. "Paused" and "Stopped" show a finished track at its end, mark
/// the player paused or stopped (but not stopped while a track is named,
/// which happens between tracks), and, when the track ended on its own and
/// the backend wants it, advance the queue.
pub open spec fn notify_playback_spec(s: AppView, info: NotificationInfo, advance: bool) -> (AppView, Seq<ActionView>) {
    let ps = info.player_state@;
    let p = s.player;
    if ps == "Playing"@ {
        (AppView { player: PlayerView { playback: PlayerState::Playing, ..p }, ..s }, seq![])
    } else if ps == "Paused"@ || ps == "Stopped"@ {
        let was_playing = p.playback == PlayerState::Playing;
        let same = info.name@.len() > 0 && match p.track {
            Some(t) => t.name@ == info.name@ && t.artist@ == info.artist@,
            None => false,
        };
        let ne = match p.track {
            Some(t) => near_end(t),
            None => false,
        };
        let track = if same && ne {
            match p.track {
                Some(t) => Some(Track { position_ms: t.duration_ms, ..t }),
                None => None,
            }
        } else {
            p.track
        };
        let pb = if ps == "Stopped"@ && info.name@.len() > 0 {
            p.playback
        } else if ps == "Stopped"@ {
            PlayerState::Stopped
        } else {
            PlayerState::Paused
        };
        let s1 = AppView { player: PlayerView { track, playback: pb, ..p }, ..s };
        if was_playing && same && ne && advance {
            queue_advance_spec(s1)
        } else {
            (s1, seq![])
        }
    } else {
        (s, seq![])
    }
}

/// The track part of a notification naming a track: that track is shown
/// (position kept when it is the same track, else zero); a new track is
/// looked up in the queue, whose position is then persisted, and asks for
/// new artwork when its key differs.
pub open spec fn notify_track_spec(s: AppView, info: NotificationInfo) -> (AppView, Seq<ActionView>) {
    if info.name@.len() == 0 {
        (s, seq![])
    } else {
        let p = s.player;
        let is_new = is_new_track(p, info);
        let pos: u64 = if is_new {
            0
        } else {
            match p.track {
                Some(t) => t.position_ms,
                None => 0,
            }
        };
        let shown = Track {
            name: info.name,
            artist: info.artist,
            album: info.album,
            duration_ms: info.total_time_ms,
            position_ms: pos,
        };
        let s1 = AppView { player: PlayerView { track: Some(shown), ..p }, ..s };
        let r2 = notify_queue_spec(s1, info, is_new);
        let r3 = notify_art_spec(r2.0, info, is_new);
        (r3.0, r2.1 + r3.1)
    }
}

/// The notification names another track than the one shown.
pub open spec fn is_new_track(p: PlayerView, info: NotificationInfo) -> bool {
    match p.track {
        Some(t) => t.name@ != info.name@ || t.artist@ != info.artist@,
        None => true,
    }
}

/// A new track found in the queue becomes the playing entry, and that
/// position is persisted.
pub open spec fn notify_queue_spec(s: AppView, info: NotificationInfo, is_new: bool) -> (AppView, Seq<ActionView>) {
    let q = s.queue;
    if is_new && q.tracks.len() > 0 {
        match queue_position(q.tracks, info.name@, info.artist@) {
            Some(i) => (
                AppView { queue: QueueView { playing: Some(i), ..q }, ..s },
                seq![ActionView::SaveQueueState(q.playlist_name, i, q.tracks.len() as usize)],
            ),
            None => (s, seq![]),
        }
    } else {
        (s, seq![])
    }
}

/// A new track with another artwork key asks for its artwork.
pub open spec fn notify_art_spec(s: AppView, info: NotificationInfo, is_new: bool) -> (AppView, Seq<ActionView>) {
    let key = art_key_of(info.artist@, info.album@);
    if is_new && key != s.player.artwork_key {
        (
            AppView { player: PlayerView { artwork_key: key, ..s.player }, ..s },
            seq![ActionView::FetchArtwork(key)],
        )
    } else {
        (s, seq![])
    }
}

/// A notification: playback part, then track part; the player is running.
pub open spec fn notification_spec(s: AppView, info: NotificationInfo, advance: bool) -> (AppView, Seq<ActionView>) {
    let r1 = notify_playback_spec(s, info, advance);
    let r2 = notify_track_spec(r1.0, info);
    (AppView { player: PlayerView { music_running: true, ..r2.0.player }, ..r2.0 }, r1.1 + r2.1)
}

fn advance_queue(state: &mut AppState) -> (r: Vec<Action>)
    ensures
        (final(state)@, actions_view(r@)) == queue_advance_spec(old(state)@),
{
    let mut actions = no_actions();
    let playing_idx = match state.queue.playing {
        Some(i) => i,
        None => state.queue.selected,
    };
    let n = state.queue.tracks.len();
    if n > 0 && playing_idx < n - 1 {
        let next_idx = playing_idx + 1;
        state.queue.playing = Some(next_idx);
        push_action(
            &mut actions,
            Action::SaveQueueState(state.queue.playlist_name.clone(), next_idx, n),
        );
        if state.queue.selected == playing_idx {
            state.queue.selected = next_idx;
        }
        if next_idx >= state.queue.scroll && next_idx - state.queue.scroll >= PAGE_SIZE {
            state.queue.scroll = if next_idx >= 3 {
                next_idx - 3
            } else {
                0
            };
        }
        push_action(
            &mut actions,
            Action::FireAndRefresh(
                BackendCommand::PlayTrackInPlaylist(state.queue.playlist_name.clone(), next_idx),
            ),
        );
    } else {
        push_action(&mut actions, Action::FireAndRefresh(BackendCommand::NextTrack));
    }
    actions
}

fn notify_playback(state: &mut AppState, info: &NotificationInfo, advance: bool) -> (r: Vec<Action>)
    ensures
        (final(state)@, actions_view(r@)) == notify_playback_spec(old(state)@, *info, advance),
{
    let ps = info.player_state.as_str();
    if str_eq(ps, "Playing") {
        state.player.playback = PlayerState::Playing;
        return no_actions();
    }
    let stopped = str_eq(ps, "Stopped");
    if !(str_eq(ps, "Paused") || stopped) {
        return no_actions();
    }
    let was_playing = state.player.playback == PlayerState::Playing;
    let named = !info.name.as_str().is_empty();
    let same = named && match &state.player.track {
        Some(t) => same_track(t, info.name.as_str(), info.artist.as_str()),
        None => false,
    };
    let ne = match &state.player.track {
        Some(t) => near_end_exec(t),
        None => false,
    };
    if same && ne {
        match &mut state.player.track {
            Some(t) => {
                t.position_ms = t.duration_ms;
            },
            None => {},
        }
    }
    if stopped && named {
    } else if stopped {
        state.player.playback = PlayerState::Stopped;
    } else {
        state.player.playback = PlayerState::Paused;
    }
    if was_playing && same && ne && advance {
        advance_queue(state)
    } else {
        no_actions()
    }
}

fn notify_queue(state: &mut AppState, info: &NotificationInfo, is_new: bool) -> (r: Vec<Action>)
    ensures
        (final(state)@, actions_view(r@)) == notify_queue_spec(old(state)@, *info, is_new),
{
    let mut actions = no_actions();
    if is_new && state.queue.tracks.len() > 0 {
        if let Some((p, save)) = sync_queue_selection(
            state.queue.tracks.as_slice(),
            state.queue.playlist_name.as_str(),
            info.name.as_str(),
            info.artist.as_str(),
        ) {
            state.queue.playing = Some(p);
            if let CliAction::SaveQueueState(name, selected, total) = save {
                push_action(&mut actions, Action::SaveQueueState(name, selected, total));
            }
        }
    }
    actions
}

fn notify_art(state: &mut AppState, info: &NotificationInfo, is_new: bool) -> (r: Vec<Action>)
    ensures
        (final(state)@, actions_view(r@)) == notify_art_spec(old(state)@, *info, is_new),
{
    let mut actions = no_actions();
    if is_new {
        let new_key = art_key(info.artist.as_str(), info.album.as_str());
        if !str_eq(new_key.as_str(), state.player.artwork_key.as_str()) {
            state.player.artwork_key = new_key.clone();
            push_action(&mut actions, Action::FetchArtwork(new_key));
        }
    }
    actions
}

fn notify_track(state: &mut AppState, info: &NotificationInfo) -> (r: Vec<Action>)
    ensures
        (final(state)@, actions_view(r@)) == notify_track_spec(old(state)@, *info),
{
    if info.name.as_str().is_empty() {
        return no_actions();
    }
    let is_new = match &state.player.track {
        Some(t) => !same_track(t, info.name.as_str(), info.artist.as_str()),
        None => true,
    };
    let pos: u64 = if is_new {
        0
    } else {
        match &state.player.track {
            Some(t) => t.position_ms,
            None => 0,
        }
    };
    state.player.track = Some(
        Track {
            name: info.name.clone(),
            artist: info.artist.clone(),
            album: info.album.clone(),
            duration_ms: info.total_time_ms,
            position_ms: pos,
        },
    );
    let mut a = notify_queue(state, info, is_new);
    let mut b = notify_art(state, info, is_new);
    let ghost va = actions_view(a@);
    let ghost vb = actions_view(b@);
    a.append(&mut b);
    assert(actions_view(a@) =~= va + vb);
    a
}

/// Applies a playback notification. `advance_queue` tells whether the
/// backend wants the queue advanced when a track ends. Returns the side
/// effects: queue persistence, backend commands, artwork requests.
pub fn handle_notification(state: &mut AppState, info: &NotificationInfo, advance_queue: bool) -> (r: Vec<Action>)
    ensures
        (final(state)@, actions_view(r@)) == notification_spec(old(state)@, *info, advance_queue),
{
    let mut a = notify_playback(state, info, advance_queue);
    let b = notify_track(state, info);
    let ghost va = actions_view(a@);
    let ghost vb = actions_view(b@);
    let mut b = b;
    a.append(&mut b);
    assert(actions_view(a@) =~= va + vb);
    state.player.music_running = true;
    a
}

// ---------------------------------------------------------------------------
// Results of background loads and startup
// ---------------------------------------------------------------------------

/// Whether the Library tab shows the tracks of playlist `name`.
pub open spec fn library_shows(s: AppView, name: Seq<char>) -> bool {
    match s.library.sub_view {
        crate::state::SubViewView::Tracks(cur) => cur == name,
        crate::state::SubViewView::Playlists => false,
    }
}

/// The state once the tracks of playlist `name` have loaded: they fill the
/// queue when that playlist is the one last played, and the Library tab's
/// track list when that playlist is the one open there; otherwise they are
/// dropped.
pub open spec fn tracks_loaded_spec(s: AppView, name: Seq<char>, tracks: Seq<PlaylistTrack>) -> AppView {
    let q = if s.queue.playlist_name == name {
        crate::state::QueueView { tracks: tracks, ..s.queue }
    } else {
        s.queue
    };
    let lib = if library_shows(s, name) {
        crate::state::LibraryView { tracks: tracks, ..s.library }
    } else {
        s.library
    };
    AppView { queue: q, library: lib, ..s }
}

/// Tracks loaded for a playlist go to the queue of that playlist and to the
/// Library tab when it shows that playlist.
pub fn on_playlist_tracks_loaded(state: &mut AppState, playlist_name: &str, tracks: Vec<PlaylistTrack>)
    ensures
        final(state)@ == tracks_loaded_spec(old(state)@, playlist_name@, tracks@),
{
    let shows = match &state.library.sub_view {
        LibrarySubView::Tracks(cur) => str_eq(cur.as_str(), playlist_name),
        LibrarySubView::Playlists => false,
    };
    if str_eq(state.queue.playlist_name.as_str(), playlist_name) {
        let copy = tracks.clone();
        assert(copy@ =~= tracks@);
        state.queue.tracks = copy;
    }
    if shows {
        state.library.tracks = tracks;
    }
}

/// Search results are shown when they answer the current query.
pub fn on_search_results(state: &mut AppState, query: &str, results: Vec<SearchResult>)
    ensures
        old(state)@.search.query == query@ ==> final(state)@ == (AppView {
            search: SearchView { results: results@, ..old(state)@.search },
            ..old(state)@
        }),
        old(state)@.search.query != query@ ==> final(state)@ == old(state)@,
{
    if str_eq(state.search.query.as_str(), query) {
        state.search.results = results;
    }
}

/// Loaded lyrics replace the shown ones when they belong to the current
/// track (no lyrics found clears them); the view returns to the top and
/// follows the song again.
pub fn on_lyrics_loaded(state: &mut AppState, track_key: &str, result: Option<LyricsResult>)
    ensures
        old(state)@.lyrics.track_key == track_key@ ==> final(state)@ == (AppView {
            lyrics: LyricsView {
                lines: match result {
                    Some(r) => r.lines@,
                    None => Seq::empty(),
                },
                synced: match result {
                    Some(r) => r.synced,
                    None => false,
                },
                scroll: 0,
                manual_scroll: false,
                ..old(state)@.lyrics
            },
            ..old(state)@
        }),
        old(state)@.lyrics.track_key != track_key@ ==> final(state)@ == old(state)@,
{
    if str_eq(state.lyrics.track_key.as_str(), track_key) {
        match result {
            Some(r) => {
                state.lyrics.lines = r.lines;
                state.lyrics.synced = r.synced;
            },
            None => {
                state.lyrics.lines = Vec::new();
                state.lyrics.synced = false;
            },
        }
        state.lyrics.scroll = 0;
        state.lyrics.manual_scroll = false;
    }
}

/// Loaded artwork is shown only when it is for the current key.
pub fn artwork_is_current(state: &AppState, key: &str) -> (r: bool)
    ensures
        r == (state@.player.artwork_key == key@),
{
    str_eq(state.player.artwork_key.as_str(), key)
}

/// The lyrics key of a track: `name\tartist`.
pub open spec fn lyrics_key_of(name: Seq<char>, artist: Seq<char>) -> Seq<char> {
    name + seq!['\t'] + artist
}

/// After a notification naming a track whose lyrics are not the ones held
/// (and lyrics are enabled): remember the new key, reset the lyrics view,
/// and return the key to fetch lyrics for.
pub fn lyrics_request(state: &mut AppState, info: &NotificationInfo) -> (r: Option<String>)
    ensures
        ({
            let k = lyrics_key_of(info.name@, info.artist@);
            if old(state)@.lyrics_enabled && info.name@.len() > 0 && k != old(state)@.lyrics.track_key {
                r matches Some(x) && x@ == k && final(state)@ == (AppView {
                    lyrics: LyricsView {
                        track_key: k,
                        scroll: 0,
                        manual_scroll: false,
                        ..old(state)@.lyrics
                    },
                    ..old(state)@
                })
            } else {
                r is None && final(state)@ == old(state)@
            }
        }),
{
    if !state.lyrics_enabled || info.name.as_str().is_empty() {
        return None;
    }
    let key = art_key(info.name.as_str(), info.artist.as_str());
    if str_eq(key.as_str(), state.lyrics.track_key.as_str()) {
        return None;
    }
    state.lyrics.track_key = key.clone();
    state.lyrics.scroll = 0;
    state.lyrics.manual_scroll = false;
    Some(key)
}

/// Playlists are loaded when the player has just started running and none
/// are held yet.
pub fn should_load_playlists(was_not_running: bool, state: &AppState) -> (r: bool)
    ensures
        r == (was_not_running && state@.player.music_running && state@.library.playlists.len() == 0),
{
    was_not_running && state.player.music_running && state.library.playlists.len() == 0
}

/// Restores the queue saved by an earlier session: with tracks loaded for
/// the saved playlist, the saved index (clamped to the last entry) becomes
/// the cursor and the playing entry, scrolled into view.
pub fn restore_queue(state: &mut AppState, playlist_name: String, selected: usize, tracks: Vec<PlaylistTrack>)
    ensures
        tracks@.len() == 0 ==> final(state)@ == old(state)@,
        tracks@.len() > 0 ==> ({
            let sel: usize = if selected < tracks@.len() {
                selected
            } else {
                (tracks@.len() - 1) as usize
            };
            final(state)@ == (AppView {
                queue: QueueView {
                    playlist_name: playlist_name@,
                    tracks: tracks@,
                    selected: sel,
                    playing: Some(sel),
                    scroll: if sel >= PAGE_SIZE {
                        (sel - 3) as usize
                    } else {
                        old(state)@.queue.scroll
                    },
                },
                ..old(state)@
            })
        }),
{
    if tracks.len() == 0 {
        return;
    }
    let sel = if selected < tracks.len() {
        selected
    } else {
        tracks.len() - 1
    };
    state.queue.playlist_name = playlist_name;
    state.queue.tracks = tracks;
    state.queue.selected = sel;
    state.queue.playing = Some(sel);
    if sel >= PAGE_SIZE {
        state.queue.scroll = sel - 3;
    }
}

/// The Last.fm status after a submission: a check mark on success, empty
/// on failure (the connection is then rechecked).
pub fn on_lastfm_result(state: &mut AppState, ok: bool)
    ensures
        final(state)@ == (AppView {
            lastfm_status: if ok {
                "last.fm \u{2713}"@
            } else {
                Seq::empty()
            },
            ..old(state)@
        }),
{
    if ok {
        state.lastfm_status = String::from_str("last.fm \u{2713}");
    } else {
        state.lastfm_status = String::new();
    }
}

/// Auto-advance: when the playing queue entry's track ends on its own (the
/// player reports it paused or stopped near its end after playing it) and
/// the backend leaves advancing to the queue, the next entry becomes the
/// playing one and the backend is asked to play it.
pub proof fn lemma_auto_advance(s: AppView, info: NotificationInfo, t: Track, p: usize)
    requires
        info.player_state@ == "Paused"@ || info.player_state@ == "Stopped"@,
        s.player.playback == PlayerState::Playing,
        s.player.track == Some(t),
        info.name@.len() > 0,
        t.name@ == info.name@,
        t.artist@ == info.artist@,
        near_end(t),
        s.queue.playing == Some(p),
        p + 1 < s.queue.tracks.len(),
    ensures
        ({
            let (after, actions) = notification_spec(s, info, true);
            &&& after.queue.playing == Some((p + 1) as usize)
            &&& after.queue.tracks == s.queue.tracks
            &&& actions == seq![
                ActionView::SaveQueueState(s.queue.playlist_name, (p + 1) as usize, s.queue.tracks.len() as usize),
                ActionView::FireAndRefresh(CommandView::PlayTrackInPlaylist(s.queue.playlist_name, (p + 1) as usize)),
            ]
        }),
{
    reveal_strlit("Playing");
    reveal_strlit("Paused");
    reveal_strlit("Stopped");
    let r1 = notify_playback_spec(s, info, true);
    assert(info.player_state@ != "Playing"@) by {
        assert("Playing"@.len() == 7);
        assert("Paused"@.len() == 6);
        if info.player_state@ == "Stopped"@ {
            assert("Stopped"@[1] != "Playing"@[1]);
        }
    }
    let s1 = r1.0;
    assert(s1.player.track matches Some(u) && u.name == t.name && u.artist == t.artist);
    assert(!is_new_track(s1.player, info));
    let r2 = notify_track_spec(s1, info);
    assert(r2.1 =~= Seq::<ActionView>::empty());
    assert(r1.1 + r2.1 =~= r1.1);
}

} // verus!
