//! Key and event handling: how each input changes the application state,
//! and which side effects (backend calls, queue-state persistence,
//! background loads) it asks the caller to perform.

use vstd::prelude::*;
use crate::backend::{
    next_repeat, FullState, LyricsResult, NotificationInfo, PlayerState, PlaylistTrack,
    RepeatMode, SearchResult, Track,
};
use crate::nav::{
    filter_string_indices, filter_strings_spec, filter_track_indices, filter_tracks_spec,
    lemma_filter_tracks_exact, list_nav, list_nav_spec, matching_indices, normalize_nav_key,
    normalize_spec, track_matches, KeyCode, KeyEvent, PAGE_SIZE,
};
use crate::state::{
    tab_next, tab_prev, AppState, AppView, FilterView, LibrarySubView, LibraryView, LyricsView,
    OverlayView, PlayerView, QueueView, SearchView, SubViewView, Tab, ThemeView,
};
use crate::text::{lowercase, pop_char, pop_seq, push_char};
use crate::theme::{find_theme, find_theme_spec, Theme};

verus! {

// ---------------------------------------------------------------------------
// Side effects requested by the handlers
// ---------------------------------------------------------------------------

/// A backend call made in the background, after which the player state is
/// fetched again (three times, 500/800/800 ms apart).
pub enum BackendCommand {
    PlayPause,
    NextTrack,
    PreviousTrack,
    ToggleShuffle,
    CycleRepeat,
    ToggleFavorite,
    PlayTrackInPlaylist(String, usize),
    PlayTrack(String, String),
}

/// A side effect for the caller to perform, in order.
pub enum Action {
    /// Run a backend command, then refresh the state.
    FireAndRefresh(BackendCommand),
    /// Set the volume in the background.
    SetVolume(i32),
    /// Persist the queue position (playlist, selected index, track count).
    SaveQueueState(String, usize, usize),
    /// Remove the persisted queue position.
    ClearQueueState,
    /// Load a playlist's tracks in the background.
    LoadPlaylistTracks(String),
    /// Search the library in the background.
    Search(String),
    RevealArtist(String),
    /// Reveal an album (album, artist).
    RevealAlbum(String, String),
    AddToPlaylist(String),
    /// Remove the entry at an index of a playlist.
    RemoveFromPlaylist(String, usize),
    /// Fetch the current artwork in the background, tagged with a key.
    FetchArtwork(String),
    /// Drop the artwork being shown.
    ClearArtwork,
}

pub enum CommandView {
    PlayPause,
    NextTrack,
    PreviousTrack,
    ToggleShuffle,
    CycleRepeat,
    ToggleFavorite,
    PlayTrackInPlaylist(Seq<char>, usize),
    PlayTrack(Seq<char>, Seq<char>),
}

pub enum ActionView {
    FireAndRefresh(CommandView),
    SetVolume(i32),
    SaveQueueState(Seq<char>, usize, usize),
    ClearQueueState,
    LoadPlaylistTracks(Seq<char>),
    Search(Seq<char>),
    RevealArtist(Seq<char>),
    RevealAlbum(Seq<char>, Seq<char>),
    AddToPlaylist(Seq<char>),
    RemoveFromPlaylist(Seq<char>, usize),
    FetchArtwork(Seq<char>),
    ClearArtwork,
}

impl View for BackendCommand {
    type V = CommandView;

    open spec fn view(&self) -> CommandView {
        match self {
            BackendCommand::PlayPause => CommandView::PlayPause,
            BackendCommand::NextTrack => CommandView::NextTrack,
            BackendCommand::PreviousTrack => CommandView::PreviousTrack,
            BackendCommand::ToggleShuffle => CommandView::ToggleShuffle,
            BackendCommand::CycleRepeat => CommandView::CycleRepeat,
            BackendCommand::ToggleFavorite => CommandView::ToggleFavorite,
            BackendCommand::PlayTrackInPlaylist(p, i) => CommandView::PlayTrackInPlaylist(p@, *i),
            BackendCommand::PlayTrack(n, a) => CommandView::PlayTrack(n@, a@),
        }
    }
}

impl View for Action {
    type V = ActionView;

    open spec fn view(&self) -> ActionView {
        match self {
            Action::FireAndRefresh(c) => ActionView::FireAndRefresh(c@),
            Action::SetVolume(v) => ActionView::SetVolume(*v),
            Action::SaveQueueState(p, s, t) => ActionView::SaveQueueState(p@, *s, *t),
            Action::ClearQueueState => ActionView::ClearQueueState,
            Action::LoadPlaylistTracks(p) => ActionView::LoadPlaylistTracks(p@),
            Action::Search(q) => ActionView::Search(q@),
            Action::RevealArtist(a) => ActionView::RevealArtist(a@),
            Action::RevealAlbum(al, ar) => ActionView::RevealAlbum(al@, ar@),
            Action::AddToPlaylist(p) => ActionView::AddToPlaylist(p@),
            Action::RemoveFromPlaylist(p, i) => ActionView::RemoveFromPlaylist(p@, *i),
            Action::FetchArtwork(k) => ActionView::FetchArtwork(k@),
            Action::ClearArtwork => ActionView::ClearArtwork,
        }
    }
}

pub open spec fn actions_view(v: Seq<Action>) -> Seq<ActionView> {
    v.map_values(|a: Action| a@)
}

fn push_action(v: &mut Vec<Action>, a: Action)
    ensures
        actions_view(final(v)@) == actions_view(old(v)@).push(a@),
{
    v.push(a);
    assert(actions_view(v@) =~= actions_view(old(v)@).push(a@));
}

fn no_actions() -> (v: Vec<Action>)
    ensures
        actions_view(v@) == Seq::<ActionView>::empty(),
{
    let v: Vec<Action> = Vec::new();
    assert(actions_view(v@) =~= Seq::<ActionView>::empty());
    v
}

// ---------------------------------------------------------------------------
// Small state edits
// ---------------------------------------------------------------------------

pub open spec fn clear_filter_view(s: AppView) -> AppView {
    AppView { filter: FilterView { query: Seq::empty(), active: false }, ..s }
}

fn clear_filter(state: &mut AppState)
    ensures
        final(state)@ == clear_filter_view(old(state)@),
{
    state.filter.query = String::new();
    state.filter.active = false;
}

/// The list row under the cursor, read through the filter when one is set.
pub open spec fn real_index(filtered: Seq<usize>, has_filter: bool, selected: usize, len: nat) -> Option<usize> {
    if has_filter {
        if selected < filtered.len() {
            Some(filtered[selected as int])
        } else {
            None
        }
    } else if selected < len {
        Some(selected)
    } else {
        None
    }
}

fn real_index_exec(filtered: &Vec<usize>, has_filter: bool, selected: usize, len: usize) -> (r: Option<usize>)
    ensures
        r == real_index(filtered@, has_filter, selected, len as nat),
{
    if has_filter {
        if selected < filtered.len() {
            Some(filtered[selected])
        } else {
            None
        }
    } else if selected < len {
        Some(selected)
    } else {
        None
    }
}

// ---------------------------------------------------------------------------
// Queue tab
// ---------------------------------------------------------------------------

/// Removing the entry at `removed` from the queue.
pub open spec fn queue_remove_spec(s: AppView, removed: usize) -> (AppView, Seq<ActionView>) {
    let tracks = s.queue.tracks.remove(removed as int);
    if tracks.len() == 0 {
        (
            AppView {
                queue: QueueView {
                    tracks,
                    selected: 0,
                    scroll: 0,
                    playing: None,
                    playlist_name: Seq::empty(),
                },
                filter: FilterView { query: Seq::empty(), active: false },
                ..s
            },
            seq![ActionView::ClearQueueState],
        )
    } else {
        let nf = filter_tracks_spec(tracks, s.filter.query);
        let sel = if s.queue.selected >= nf.len() && nf.len() > 0 {
            (nf.len() - 1) as usize
        } else {
            s.queue.selected
        };
        let playing = match s.queue.playing {
            Some(pi) => if removed < pi {
                Some((pi - 1) as usize)
            } else if removed == pi {
                None
            } else {
                Some(pi)
            },
            None => None,
        };
        let persist: usize = match playing {
            Some(p) => p,
            None => 0,
        };
        (
            AppView { queue: QueueView { tracks, selected: sel, playing, ..s.queue }, ..s },
            seq![ActionView::SaveQueueState(s.queue.playlist_name, persist, tracks.len() as usize)],
        )
    }
}

pub open spec fn queue_command_spec(s: AppView, key: KeyEvent, filtered: Seq<usize>, has_filter: bool) -> (AppView, Seq<ActionView>) {
    let q = s.queue;
    if key.code == KeyCode::Char('/') {
        (
            AppView {
                filter: FilterView { query: Seq::empty(), active: true },
                queue: QueueView { selected: 0, scroll: 0, ..q },
                ..s
            },
            seq![],
        )
    } else if key.code == KeyCode::Enter {
        match real_index(filtered, has_filter, q.selected, q.tracks.len()) {
            Some(idx) => (
                AppView {
                    queue: QueueView { playing: Some(idx), ..q },
                    filter: FilterView { active: false, ..s.filter },
                    ..s
                },
                seq![
                    ActionView::SaveQueueState(q.playlist_name, idx, q.tracks.len() as usize),
                    ActionView::FireAndRefresh(CommandView::PlayTrackInPlaylist(q.playlist_name, idx)),
                ],
            ),
            None => (s, seq![]),
        }
    } else if (key.code == KeyCode::Char('d') || key.code == KeyCode::Char('x')) && !s.filter.active {
        match real_index(filtered, has_filter, q.selected, q.tracks.len()) {
            Some(removed) => queue_remove_spec(s, removed),
            None => (s, seq![]),
        }
    } else if key.code == KeyCode::Esc && has_filter {
        (clear_filter_view(s), seq![])
    } else {
        (s, seq![])
    }
}

/// What a key does in the Queue tab.
pub open spec fn queue_key_spec(s: AppView, key: KeyEvent) -> (AppView, Seq<ActionView>) {
    let q = s.queue;
    let f = s.filter;
    if f.active && key.code == KeyCode::Esc {
        (clear_filter_view(s), seq![])
    } else if f.active && key.code == KeyCode::Backspace {
        let nq = pop_seq(f.query);
        (
            AppView {
                filter: FilterView { query: nq, active: nq.len() != 0 },
                queue: QueueView { selected: 0, scroll: 0, ..q },
                ..s
            },
            seq![],
        )
    } else if f.active && key.code is Char && !key.control {
        (
            AppView {
                filter: FilterView { query: f.query.push(key.code->Char_0), ..f },
                queue: QueueView { selected: 0, scroll: 0, ..q },
                ..s
            },
            seq![],
        )
    } else {
        let filtered = filter_tracks_spec(q.tracks, f.query);
        let has_filter = f.query.len() > 0;
        let nav_len = if has_filter {
            filtered.len()
        } else {
            q.tracks.len()
        };
        match list_nav_spec(normalize_spec(key, !f.active), q.selected, q.scroll, nav_len as usize) {
            Some((sel, scr)) => (
                AppView { queue: QueueView { selected: sel, scroll: scr, ..q }, ..s },
                seq![],
            ),
            None => queue_command_spec(s, key, filtered, has_filter),
        }
    }
}

fn handle_queue_key(key: KeyEvent, state: &mut AppState) -> (r: Vec<Action>)
    ensures
        (final(state)@, actions_view(r@)) == queue_key_spec(old(state)@, key),
{
    if state.filter.active {
        match key.code {
            KeyCode::Esc => {
                clear_filter(state);
                return no_actions();
            },
            KeyCode::Backspace => {
                pop_char(&mut state.filter.query);
                if state.filter.query.as_str().is_empty() {
                    state.filter.active = false;
                }
                state.queue.selected = 0;
                state.queue.scroll = 0;
                return no_actions();
            },
            KeyCode::Char(ch) => {
                if !key.control {
                    push_char(&mut state.filter.query, ch);
                    state.queue.selected = 0;
                    state.queue.scroll = 0;
                    return no_actions();
                }
            },
            _ => {},
        }
    }
    let filtered = filter_track_indices(state.queue.tracks.as_slice(), state.filter.query.as_str());
    let has_filter = !state.filter.query.as_str().is_empty();
    let nav_len = if has_filter {
        filtered.len()
    } else {
        state.queue.tracks.len()
    };
    let vim_nav = !state.filter.active;
    proof {
        assert(state.queue.tracks.len() == state.queue.tracks@.len());
        lemma_filter_tracks_exact(state.queue.tracks@, state.filter.query@);
        lemma_matching_len_bound(state.queue.tracks@, state.filter.query@);
    }
    if let Some((sel, scr)) = list_nav(
        normalize_nav_key(&key, vim_nav),
        state.queue.selected,
        state.queue.scroll,
        nav_len,
    ) {
        state.queue.selected = sel;
        state.queue.scroll = scr;
        return no_actions();
    }
    let mut actions = no_actions();
    if key.code == KeyCode::Char('/') {
        state.filter.active = true;
        state.filter.query = String::new();
        state.queue.selected = 0;
        state.queue.scroll = 0;
    } else if key.code == KeyCode::Enter {
        let real_idx = real_index_exec(
            &filtered,
            has_filter,
            state.queue.selected,
            state.queue.tracks.len(),
        );
        if let Some(idx) = real_idx {
            state.queue.playing = Some(idx);
            push_action(
                &mut actions,
                Action::SaveQueueState(
                    state.queue.playlist_name.clone(),
                    idx,
                    state.queue.tracks.len(),
                ),
            );
            push_action(
                &mut actions,
                Action::FireAndRefresh(
                    BackendCommand::PlayTrackInPlaylist(state.queue.playlist_name.clone(), idx),
                ),
            );
            state.filter.active = false;
        }
    } else if (key.code == KeyCode::Char('d') || key.code == KeyCode::Char('x'))
        && !state.filter.active {
        let real_idx = real_index_exec(
            &filtered,
            has_filter,
            state.queue.selected,
            state.queue.tracks.len(),
        );
        if let Some(removed) = real_idx {
            actions = remove_from_queue(state, removed);
        }
    } else if key.code == KeyCode::Esc && has_filter {
        clear_filter(state);
    }
    actions
}

/// The filtered list is no longer than the list it filters.
proof fn lemma_matching_len_bound(tracks: Seq<PlaylistTrack>, query: Seq<char>)
    requires
        tracks.len() <= usize::MAX,
    ensures
        filter_tracks_spec(tracks, query).len() <= tracks.len(),
{
    let pred: spec_fn(int) -> bool = if query.len() == 0 {
        |i: int| true
    } else {
        |i: int| track_matches(tracks[i], lowercase(query))
    };
    lemma_matching_count(tracks.len(), pred);
}

proof fn lemma_matching_count(n: nat, pred: spec_fn(int) -> bool)
    ensures
        matching_indices(n, pred).len() <= n,
    decreases n,
{
    if n > 0 {
        lemma_matching_count((n - 1) as nat, pred);
    }
}

fn remove_from_queue(state: &mut AppState, removed: usize) -> (r: Vec<Action>)
    requires
        removed < old(state).queue.tracks@.len(),
    ensures
        (final(state)@, actions_view(r@)) == queue_remove_spec(old(state)@, removed),
{
    let mut actions = no_actions();
    state.queue.tracks.remove(removed);
    if state.queue.tracks.len() == 0 {
        state.queue.selected = 0;
        state.queue.scroll = 0;
        state.queue.playing = None;
        state.queue.playlist_name = String::new();
        push_action(&mut actions, Action::ClearQueueState);
        clear_filter(state);
    } else {
        let new_filtered = filter_track_indices(
            state.queue.tracks.as_slice(),
            state.filter.query.as_str(),
        );
        if state.queue.selected >= new_filtered.len() && new_filtered.len() > 0 {
            state.queue.selected = new_filtered.len() - 1;
        }
        match state.queue.playing {
            Some(pi) => {
                if removed < pi {
                    state.queue.playing = Some(pi - 1);
                } else if removed == pi {
                    state.queue.playing = None;
                }
            },
            None => {},
        }
        let persist_idx = match state.queue.playing {
            Some(p) => p,
            None => 0,
        };
        push_action(
            &mut actions,
            Action::SaveQueueState(
                state.queue.playlist_name.clone(),
                persist_idx,
                state.queue.tracks.len(),
            ),
        );
    }
    actions
}

// ---------------------------------------------------------------------------
// Library tab
// ---------------------------------------------------------------------------

/// The library cursor moved back to the first row of the current view.
pub open spec fn library_reset_cursor(lib: LibraryView) -> LibraryView {
    match lib.sub_view {
        SubViewView::Playlists => LibraryView { selected: 0, scroll: 0, ..lib },
        SubViewView::Tracks(_) => LibraryView { tracks_selected: 0, tracks_scroll: 0, ..lib },
    }
}

/// Keys of the playlist list that are not navigation keys: `/` opens the
/// filter, Enter or Right opens the selected playlist's tracks, `Q` makes
/// it the queue and switches to the Queue tab, Esc clears a filter.
pub open spec fn playlists_command_spec(s: AppView, key: KeyEvent, filtered: Seq<usize>, has_filter: bool) -> (AppView, Seq<ActionView>) {
    let lib = s.library;
    let picked = real_index(filtered, has_filter, lib.selected, lib.playlists.len());
    if key.code == KeyCode::Char('/') {
        (
            AppView {
                filter: FilterView { query: Seq::empty(), active: true },
                library: LibraryView { selected: 0, scroll: 0, ..lib },
                ..s
            },
            seq![],
        )
    } else if key.code == KeyCode::Enter || key.code == KeyCode::Right {
        match picked {
            Some(idx) => {
                let name = lib.playlists[idx as int]@;
                (
                    AppView {
                        library: LibraryView {
                            sub_view: SubViewView::Tracks(name),
                            tracks: Seq::empty(),
                            tracks_selected: 0,
                            tracks_scroll: 0,
                            ..lib
                        },
                        filter: FilterView { active: false, ..s.filter },
                        ..s
                    },
                    seq![ActionView::LoadPlaylistTracks(name)],
                )
            },
            None => (s, seq![]),
        }
    } else if key.code == KeyCode::Char('Q') {
        match picked {
            Some(idx) => {
                let name = lib.playlists[idx as int]@;
                (
                    AppView {
                        queue: QueueView {
                            tracks: Seq::empty(),
                            selected: 0,
                            scroll: 0,
                            playing: None,
                            playlist_name: name,
                        },
                        filter: FilterView { active: false, ..s.filter },
                        active_tab: Tab::Queue,
                        ..s
                    },
                    seq![ActionView::SaveQueueState(name, 0, 0), ActionView::LoadPlaylistTracks(name)],
                )
            },
            None => (s, seq![]),
        }
    } else if key.code == KeyCode::Esc && has_filter {
        (clear_filter_view(s), seq![])
    } else {
        (s, seq![])
    }
}

/// Scroll offset of the queue after jumping to row `idx`: unchanged when
/// the row is on the current page, otherwise three rows above it.
pub open spec fn queue_scroll_to(idx: usize, scroll: usize) -> usize {
    if idx < scroll || idx >= scroll + PAGE_SIZE {
        if idx >= 3 {
            (idx - 3) as usize
        } else {
            0
        }
    } else {
        scroll
    }
}

/// Keys of a playlist's track list that are not navigation keys.
pub open spec fn tracks_command_spec(s: AppView, key: KeyEvent, name: Seq<char>, filtered: Seq<usize>, has_filter: bool) -> (AppView, Seq<ActionView>) {
    let lib = s.library;
    let picked = real_index(filtered, has_filter, lib.tracks_selected, lib.tracks.len());
    if key.code == KeyCode::Char('/') {
        (
            AppView {
                filter: FilterView { query: Seq::empty(), active: true },
                library: LibraryView { tracks_selected: 0, tracks_scroll: 0, ..lib },
                ..s
            },
            seq![],
        )
    } else if key.code == KeyCode::Backspace && !s.filter.active && !has_filter {
        (
            AppView {
                filter: FilterView { query: Seq::empty(), active: false },
                library: LibraryView { sub_view: SubViewView::Playlists, ..lib },
                ..s
            },
            seq![],
        )
    } else if key.code == KeyCode::Enter {
        match picked {
            Some(idx) => (
                AppView {
                    queue: QueueView {
                        tracks: lib.tracks,
                        playlist_name: name,
                        selected: idx,
                        playing: Some(idx),
                        scroll: queue_scroll_to(idx, s.queue.scroll),
                    },
                    filter: FilterView { active: false, ..s.filter },
                    ..s
                },
                seq![
                    ActionView::SaveQueueState(name, idx, lib.tracks.len() as usize),
                    ActionView::FireAndRefresh(CommandView::PlayTrackInPlaylist(name, idx)),
                ],
            ),
            None => (s, seq![]),
        }
    } else if (key.code == KeyCode::Char('d') || key.code == KeyCode::Char('x')) && !s.filter.active {
        match picked {
            Some(idx) => {
                let tracks = lib.tracks.remove(idx as int);
                let nf = filter_tracks_spec(tracks, s.filter.query);
                let sel = if lib.tracks_selected >= nf.len() && nf.len() > 0 {
                    (nf.len() - 1) as usize
                } else {
                    lib.tracks_selected
                };
                (
                    AppView { library: LibraryView { tracks, tracks_selected: sel, ..lib }, ..s },
                    seq![ActionView::RemoveFromPlaylist(name, idx)],
                )
            },
            None => (s, seq![]),
        }
    } else if key.code == KeyCode::Esc && has_filter {
        (clear_filter_view(s), seq![])
    } else {
        (s, seq![])
    }
}

/// What a key does in the Library tab.
pub open spec fn library_key_spec(s: AppView, key: KeyEvent) -> (AppView, Seq<ActionView>) {
    let lib = s.library;
    let f = s.filter;
    if f.active && key.code == KeyCode::Esc {
        (clear_filter_view(s), seq![])
    } else if f.active && key.code == KeyCode::Backspace {
        let nq = pop_seq(f.query);
        (
            AppView {
                filter: FilterView { query: nq, active: nq.len() != 0 },
                library: library_reset_cursor(lib),
                ..s
            },
            seq![],
        )
    } else if f.active && key.code is Char && !key.control {
        (
            AppView {
                filter: FilterView { query: f.query.push(key.code->Char_0), ..f },
                library: library_reset_cursor(lib),
                ..s
            },
            seq![],
        )
    } else {
        let has_filter = f.query.len() > 0;
        match lib.sub_view {
            SubViewView::Playlists => {
                let filtered = filter_strings_spec(lib.playlists, f.query);
                let nav_len = if has_filter {
                    filtered.len()
                } else {
                    lib.playlists.len()
                };
                match list_nav_spec(
                    normalize_spec(key, !f.active),
                    lib.selected,
                    lib.scroll,
                    nav_len as usize,
                ) {
                    Some((sel, scr)) => (
                        AppView { library: LibraryView { selected: sel, scroll: scr, ..lib }, ..s },
                        seq![],
                    ),
                    None => playlists_command_spec(s, key, filtered, has_filter),
                }
            },
            SubViewView::Tracks(name) => {
                let filtered = filter_tracks_spec(lib.tracks, f.query);
                let nav_len = if has_filter {
                    filtered.len()
                } else {
                    lib.tracks.len()
                };
                match list_nav_spec(
                    normalize_spec(key, !f.active),
                    lib.tracks_selected,
                    lib.tracks_scroll,
                    nav_len as usize,
                ) {
                    Some((sel, scr)) => (
                        AppView {
                            library: LibraryView { tracks_selected: sel, tracks_scroll: scr, ..lib },
                            ..s
                        },
                        seq![],
                    ),
                    None => tracks_command_spec(s, key, name, filtered, has_filter),
                }
            },
        }
    }
}

fn reset_library_cursor(state: &mut AppState)
    ensures
        final(state)@ == (AppView {
            library: library_reset_cursor(old(state)@.library),
            ..old(state)@
        }),
{
    match &state.library.sub_view {
        LibrarySubView::Playlists => {
            state.library.selected = 0;
            state.library.scroll = 0;
        },
        LibrarySubView::Tracks(_) => {
            state.library.tracks_selected = 0;
            state.library.tracks_scroll = 0;
        },
    }
}

proof fn lemma_strings_len_bound(items: Seq<String>, query: Seq<char>)
    requires
        items.len() <= usize::MAX,
    ensures
        filter_strings_spec(items, query).len() <= items.len(),
        forall|i: int|
            0 <= i < filter_strings_spec(items, query).len() ==> (#[trigger] filter_strings_spec(
                items,
                query,
            )[i] as int) < items.len(),
{
    let pred: spec_fn(int) -> bool = if query.len() == 0 {
        |i: int| true
    } else {
        |i: int| crate::text::contains_seq(lowercase(items[i]@), lowercase(query))
    };
    lemma_matching_count(items.len(), pred);
    crate::nav::lemma_matching_indices(items.len(), pred);
}

fn handle_library_key(key: KeyEvent, state: &mut AppState) -> (r: Vec<Action>)
    ensures
        (final(state)@, actions_view(r@)) == library_key_spec(old(state)@, key),
{
    if state.filter.active {
        match key.code {
            KeyCode::Esc => {
                clear_filter(state);
                return no_actions();
            },
            KeyCode::Backspace => {
                pop_char(&mut state.filter.query);
                if state.filter.query.as_str().is_empty() {
                    state.filter.active = false;
                }
                reset_library_cursor(state);
                return no_actions();
            },
            KeyCode::Char(ch) => {
                if !key.control {
                    push_char(&mut state.filter.query, ch);
                    reset_library_cursor(state);
                    return no_actions();
                }
            },
            _ => {},
        }
    }
    let has_filter = !state.filter.query.as_str().is_empty();
    match state.library.sub_view.clone() {
        LibrarySubView::Playlists => {
            let filtered = filter_string_indices(
                state.library.playlists.as_slice(),
                state.filter.query.as_str(),
            );
            proof {
                assert(state.library.playlists.len() == state.library.playlists@.len());
                lemma_strings_len_bound(state.library.playlists@, state.filter.query@);
            }
            let nav_len = if has_filter {
                filtered.len()
            } else {
                state.library.playlists.len()
            };
            let vim_nav = !state.filter.active;
            if let Some((sel, scr)) = list_nav(
                normalize_nav_key(&key, vim_nav),
                state.library.selected,
                state.library.scroll,
                nav_len,
            ) {
                state.library.selected = sel;
                state.library.scroll = scr;
                return no_actions();
            }
            playlists_command(key, state, &filtered, has_filter)
        },
        LibrarySubView::Tracks(playlist_name) => {
            let filtered = filter_track_indices(
                state.library.tracks.as_slice(),
                state.filter.query.as_str(),
            );
            proof {
                assert(state.library.tracks.len() == state.library.tracks@.len());
                lemma_filter_tracks_exact(state.library.tracks@, state.filter.query@);
                lemma_matching_len_bound(state.library.tracks@, state.filter.query@);
            }
            let nav_len = if has_filter {
                filtered.len()
            } else {
                state.library.tracks.len()
            };
            let vim_nav = !state.filter.active;
            if let Some((sel, scr)) = list_nav(
                normalize_nav_key(&key, vim_nav),
                state.library.tracks_selected,
                state.library.tracks_scroll,
                nav_len,
            ) {
                state.library.tracks_selected = sel;
                state.library.tracks_scroll = scr;
                return no_actions();
            }
            tracks_command(key, state, playlist_name, &filtered, has_filter)
        },
    }
}

fn playlists_command(key: KeyEvent, state: &mut AppState, filtered: &Vec<usize>, has_filter: bool) -> (r: Vec<Action>)
    requires
        forall|i: int|
            0 <= i < filtered@.len() ==> (#[trigger] filtered@[i] as int) < old(
                state,
            ).library.playlists@.len(),
    ensures
        (final(state)@, actions_view(r@)) == playlists_command_spec(
            old(state)@,
            key,
            filtered@,
            has_filter,
        ),
{
    let mut actions = no_actions();
    let picked = real_index_exec(
        filtered,
        has_filter,
        state.library.selected,
        state.library.playlists.len(),
    );
    if key.code == KeyCode::Char('/') {
        state.filter.active = true;
        state.filter.query = String::new();
        state.library.selected = 0;
        state.library.scroll = 0;
    } else if key.code == KeyCode::Enter || key.code == KeyCode::Right {
        if let Some(idx) = picked {
            let name = state.library.playlists[idx].clone();
            state.library.sub_view = LibrarySubView::Tracks(name.clone());
            state.library.tracks = Vec::new();
            state.library.tracks_selected = 0;
            state.library.tracks_scroll = 0;
            state.filter.active = false;
            push_action(&mut actions, Action::LoadPlaylistTracks(name));
        }
    } else if key.code == KeyCode::Char('Q') {
        if let Some(idx) = picked {
            let name = state.library.playlists[idx].clone();
            state.queue.tracks = Vec::new();
            state.queue.playlist_name = name.clone();
            state.queue.selected = 0;
            state.queue.scroll = 0;
            state.queue.playing = None;
            push_action(&mut actions, Action::SaveQueueState(name.clone(), 0, 0));
            state.filter.active = false;
            state.active_tab = Tab::Queue;
            push_action(&mut actions, Action::LoadPlaylistTracks(name));
        }
    } else if key.code == KeyCode::Esc && has_filter {
        clear_filter(state);
    }
    actions
}

fn tracks_command(
    key: KeyEvent,
    state: &mut AppState,
    playlist_name: String,
    filtered: &Vec<usize>,
    has_filter: bool,
) -> (r: Vec<Action>)
    requires
        forall|i: int|
            0 <= i < filtered@.len() ==> (#[trigger] filtered@[i] as int) < old(
                state,
            ).library.tracks@.len(),
    ensures
        (final(state)@, actions_view(r@)) == tracks_command_spec(
            old(state)@,
            key,
            playlist_name@,
            filtered@,
            has_filter,
        ),
{
    let mut actions = no_actions();
    let picked = real_index_exec(
        filtered,
        has_filter,
        state.library.tracks_selected,
        state.library.tracks.len(),
    );
    if key.code == KeyCode::Char('/') {
        state.filter.active = true;
        state.filter.query = String::new();
        state.library.tracks_selected = 0;
        state.library.tracks_scroll = 0;
    } else if key.code == KeyCode::Backspace && !state.filter.active && !has_filter {
        clear_filter(state);
        state.library.sub_view = LibrarySubView::Playlists;
    } else if key.code == KeyCode::Enter {
        if let Some(idx) = picked {
            state.queue.tracks = state.library.tracks.clone();
            assert(state.queue.tracks@ =~= old(state).library.tracks@);
            state.queue.playlist_name = playlist_name.clone();
            state.queue.selected = idx;
            state.queue.playing = Some(idx);
            if idx < state.queue.scroll || idx - state.queue.scroll >= PAGE_SIZE {
                state.queue.scroll = if idx >= 3 {
                    idx - 3
                } else {
                    0
                };
            }
            push_action(
                &mut actions,
                Action::SaveQueueState(playlist_name.clone(), idx, state.library.tracks.len()),
            );
            push_action(
                &mut actions,
                Action::FireAndRefresh(BackendCommand::PlayTrackInPlaylist(playlist_name, idx)),
            );
            state.filter.active = false;
        }
    } else if (key.code == KeyCode::Char('d') || key.code == KeyCode::Char('x'))
        && !state.filter.active {
        if let Some(idx) = picked {
            push_action(&mut actions, Action::RemoveFromPlaylist(playlist_name, idx));
            state.library.tracks.remove(idx);
            let new_filtered = filter_track_indices(
                state.library.tracks.as_slice(),
                state.filter.query.as_str(),
            );
            if state.library.tracks_selected >= new_filtered.len() && new_filtered.len() > 0 {
                state.library.tracks_selected = new_filtered.len() - 1;
            }
        }
    } else if key.code == KeyCode::Esc && has_filter {
        clear_filter(state);
    }
    actions
}

// ---------------------------------------------------------------------------
// Search tab
// ---------------------------------------------------------------------------

/// A search is started for queries of at least two characters.
pub open spec fn search_actions(q: Seq<char>) -> Seq<ActionView> {
    if q.len() < 2 {
        seq![]
    } else {
        seq![ActionView::Search(q)]
    }
}

/// What a key does in the Search tab.
pub open spec fn search_key_spec(s: AppView, key: KeyEvent) -> (AppView, Seq<ActionView>) {
    let sr = s.search;
    if sr.editing {
        if key.code == KeyCode::Esc || key.code == KeyCode::Enter {
            (AppView { search: SearchView { editing: false, ..sr }, ..s }, seq![])
        } else if key.code == KeyCode::Backspace {
            if sr.query.len() > 0 {
                let q = sr.query.drop_last();
                (AppView { search: SearchView { query: q, ..sr }, ..s }, search_actions(q))
            } else {
                (
                    AppView {
                        search: SearchView { results: Seq::empty(), selected: 0, scroll: 0, ..sr },
                        ..s
                    },
                    seq![],
                )
            }
        } else if key.code is Char && !key.control {
            let q = sr.query.push(key.code->Char_0);
            (
                AppView { search: SearchView { query: q, selected: 0, scroll: 0, ..sr }, ..s },
                search_actions(q),
            )
        } else {
            (s, seq![])
        }
    } else {
        match list_nav_spec(normalize_spec(key, true), sr.selected, sr.scroll, sr.results.len() as usize) {
            Some((sel, scr)) => (
                AppView { search: SearchView { selected: sel, scroll: scr, ..sr }, ..s },
                seq![],
            ),
            None => if key.code == KeyCode::Char('/') || key.code == KeyCode::Char('i') {
                (AppView { search: SearchView { editing: true, ..sr }, ..s }, seq![])
            } else if key.code == KeyCode::Enter {
                if sr.results.len() > 0 && sr.selected < sr.results.len() {
                    let hit = sr.results[sr.selected as int];
                    (
                        s,
                        seq![
                            ActionView::FireAndRefresh(
                                CommandView::PlayTrack(hit.name@, hit.artist@),
                            ),
                        ],
                    )
                } else {
                    (s, seq![])
                }
            } else if key.code == KeyCode::Backspace {
                (
                    AppView {
                        search: SearchView {
                            query: Seq::empty(),
                            results: Seq::empty(),
                            selected: 0,
                            scroll: 0,
                            editing: true,
                        },
                        ..s
                    },
                    seq![],
                )
            } else {
                (s, seq![])
            },
        }
    }
}

/// Starts a search for the current query when it is long enough.
fn perform_search(state: &AppState, actions: &mut Vec<Action>)
    ensures
        actions_view(final(actions)@) == actions_view(old(actions)@) + search_actions(
            state.search.query@,
        ),
{
    if state.search.query.as_str().unicode_len() < 2 {
        assert(actions_view(actions@) =~= actions_view(old(actions)@) + Seq::<ActionView>::empty());
        return;
    }
    push_action(actions, Action::Search(state.search.query.clone()));
    assert(actions_view(actions@) =~= actions_view(old(actions)@) + seq![
        ActionView::Search(state.search.query@),
    ]);
}

fn handle_search_key(key: KeyEvent, state: &mut AppState) -> (r: Vec<Action>)
    ensures
        (final(state)@, actions_view(r@)) == search_key_spec(old(state)@, key),
{
    let mut actions = no_actions();
    if state.search.editing {
        if key.code == KeyCode::Esc || key.code == KeyCode::Enter {
            state.search.editing = false;
        } else if key.code == KeyCode::Backspace {
            if !state.search.query.as_str().is_empty() {
                pop_char(&mut state.search.query);
                perform_search(state, &mut actions);
            } else {
                state.search.results = Vec::new();
                state.search.selected = 0;
                state.search.scroll = 0;
            }
        } else {
            match key.code {
                KeyCode::Char(ch) => {
                    if !key.control {
                        push_char(&mut state.search.query, ch);
                        state.search.selected = 0;
                        state.search.scroll = 0;
                        perform_search(state, &mut actions);
                    }
                },
                _ => {},
            }
        }
    } else {
        if let Some((sel, scr)) = list_nav(
            normalize_nav_key(&key, true),
            state.search.selected,
            state.search.scroll,
            state.search.results.len(),
        ) {
            state.search.selected = sel;
            state.search.scroll = scr;
            return actions;
        }
        if key.code == KeyCode::Char('/') || key.code == KeyCode::Char('i') {
            state.search.editing = true;
        } else if key.code == KeyCode::Enter {
            if state.search.results.len() > 0 && state.search.selected
                < state.search.results.len() {
                let hit = &state.search.results[state.search.selected];
                push_action(
                    &mut actions,
                    Action::FireAndRefresh(
                        BackendCommand::PlayTrack(hit.name.clone(), hit.artist.clone()),
                    ),
                );
            }
        } else if key.code == KeyCode::Backspace {
            state.search.query = String::new();
            state.search.results = Vec::new();
            state.search.selected = 0;
            state.search.scroll = 0;
            state.search.editing = true;
        }
    }
    actions
}

// ---------------------------------------------------------------------------
// Lyrics tab
// ---------------------------------------------------------------------------

/// What a key does in the Lyrics tab (which needs no side effects).
pub open spec fn lyrics_key_spec(l: LyricsView, key: KeyEvent) -> LyricsView {
    let code = normalize_spec(key, true);
    if code == KeyCode::Up {
        if l.scroll > 0 {
            LyricsView { scroll: (l.scroll - 1) as usize, manual_scroll: true, ..l }
        } else {
            l
        }
    } else if code == KeyCode::Down {
        LyricsView { scroll: (l.scroll + 1) as usize, manual_scroll: true, ..l }
    } else if code == KeyCode::Home {
        LyricsView { scroll: 0, manual_scroll: true, ..l }
    } else if code == KeyCode::End {
        LyricsView { scroll: (usize::MAX / 2) as usize, manual_scroll: true, ..l }
    } else if code == KeyCode::PageUp {
        LyricsView {
            scroll: if l.scroll >= PAGE_SIZE {
                (l.scroll - PAGE_SIZE) as usize
            } else {
                0
            },
            manual_scroll: true,
            ..l
        }
    } else if code == KeyCode::PageDown {
        LyricsView { scroll: (l.scroll + PAGE_SIZE) as usize, manual_scroll: true, ..l }
    } else if code == KeyCode::Char('0') {
        LyricsView { manual_scroll: false, ..l }
    } else {
        l
    }
}

fn handle_lyrics_key(key: KeyEvent, state: &mut AppState)
    requires
        lyrics_key_ok(old(state)@.lyrics, key),
    ensures
        final(state)@ == (AppView { lyrics: lyrics_key_spec(old(state)@.lyrics, key), ..old(state)@ }),
{
    let code = normalize_nav_key(&key, true);
    if code == KeyCode::Up {
        if state.lyrics.scroll > 0 {
            state.lyrics.scroll -= 1;
            state.lyrics.manual_scroll = true;
        }
    } else if code == KeyCode::Down {
        state.lyrics.scroll += 1;
        state.lyrics.manual_scroll = true;
    } else if code == KeyCode::Home {
        state.lyrics.scroll = 0;
        state.lyrics.manual_scroll = true;
    } else if code == KeyCode::End {
        state.lyrics.scroll = usize::MAX / 2;
        state.lyrics.manual_scroll = true;
    } else if code == KeyCode::PageUp {
        state.lyrics.scroll = if state.lyrics.scroll >= PAGE_SIZE {
            state.lyrics.scroll - PAGE_SIZE
        } else {
            0
        };
        state.lyrics.manual_scroll = true;
    } else if code == KeyCode::PageDown {
        state.lyrics.scroll += PAGE_SIZE;
        state.lyrics.manual_scroll = true;
    } else if code == KeyCode::Char('0') {
        state.lyrics.manual_scroll = false;
    }
}

// ---------------------------------------------------------------------------
// Theme picker and playlist picker overlays
// ---------------------------------------------------------------------------

/// The theme shown while browsing the picker: the highlighted one.
pub open spec fn preview_theme_spec(t: ThemeView, theme: Theme) -> Theme {
    if t.selected < t.all.len() {
        t.all[t.selected as int].1
    } else {
        theme
    }
}

/// The saved theme (by name), or `theme` when the name is unknown.
pub open spec fn restore_theme_spec(t: ThemeView, theme: Theme) -> Theme {
    match find_theme_spec(t.name, t.all) {
        Some((_, th)) => th,
        None => theme,
    }
}

fn preview_theme(state: &AppState, theme: &mut Theme)
    ensures
        *final(theme) == preview_theme_spec(state@.theme, *old(theme)),
{
    if state.theme.selected < state.theme.all.len() {
        *theme = state.theme.all[state.theme.selected].1;
    }
}

fn restore_saved_theme(state: &AppState, theme: &mut Theme)
    ensures
        *final(theme) == restore_theme_spec(state@.theme, *old(theme)),
{
    if let Some((_, t)) = find_theme(state.theme.name.as_str(), state.theme.all.as_slice()) {
        *theme = t;
    }
}

/// What a key does while the theme picker is open.
pub open spec fn theme_picker_spec(s: AppView, theme: Theme, key: KeyEvent) -> (AppView, Theme) {
    let t = s.theme;
    match list_nav_spec(normalize_spec(key, true), t.selected, t.scroll, t.all.len() as usize) {
        Some((sel, scr)) => {
            let t2 = ThemeView { selected: sel, scroll: scr, ..t };
            (AppView { theme: t2, ..s }, preview_theme_spec(t2, theme))
        },
        None => if key.code == KeyCode::Enter {
            if t.selected < t.all.len() {
                (
                    AppView {
                        theme: ThemeView {
                            name: t.all[t.selected as int].0@,
                            picker_visible: false,
                            ..t
                        },
                        ..s
                    },
                    t.all[t.selected as int].1,
                )
            } else {
                (s, theme)
            }
        } else if key.code == KeyCode::Esc || key.code == KeyCode::Char('t') || key.code
            == KeyCode::Char('q') {
            (
                AppView { theme: ThemeView { picker_visible: false, ..t }, ..s },
                restore_theme_spec(t, theme),
            )
        } else {
            (s, theme)
        },
    }
}

fn handle_theme_picker_key(key: KeyEvent, state: &mut AppState, theme: &mut Theme)
    ensures
        (final(state)@, *final(theme)) == theme_picker_spec(old(state)@, *old(theme), key),
{
    if let Some((sel, scr)) = list_nav(
        normalize_nav_key(&key, true),
        state.theme.selected,
        state.theme.scroll,
        state.theme.all.len(),
    ) {
        state.theme.selected = sel;
        state.theme.scroll = scr;
        preview_theme(state, theme);
        return;
    }
    if key.code == KeyCode::Enter {
        if state.theme.selected < state.theme.all.len() {
            let name = state.theme.all[state.theme.selected].0.clone();
            let t = state.theme.all[state.theme.selected].1;
            state.theme.name = name;
            *theme = t;
            state.theme.picker_visible = false;
        }
    } else if key.code == KeyCode::Esc || key.code == KeyCode::Char('t') || key.code
        == KeyCode::Char('q') {
        restore_saved_theme(state, theme);
        state.theme.picker_visible = false;
    }
}

/// What a key does while the add-to-playlist picker is open.
pub open spec fn playlist_picker_spec(s: AppView, key: KeyEvent) -> (AppView, Seq<ActionView>) {
    let o = s.overlays;
    let lists = s.library.playlists;
    match list_nav_spec(
        normalize_spec(key, true),
        o.playlist_picker_selected,
        o.playlist_picker_scroll,
        lists.len() as usize,
    ) {
        Some((sel, scr)) => (
            AppView {
                overlays: OverlayView {
                    playlist_picker_selected: sel,
                    playlist_picker_scroll: scr,
                    ..o
                },
                ..s
            },
            seq![],
        ),
        None => if key.code == KeyCode::Enter {
            if lists.len() > 0 && o.playlist_picker_selected < lists.len() {
                (
                    AppView { overlays: OverlayView { playlist_picker_visible: false, ..o }, ..s },
                    seq![ActionView::AddToPlaylist(lists[o.playlist_picker_selected as int]@)],
                )
            } else {
                (s, seq![])
            }
        } else if key.code == KeyCode::Esc || key.code == KeyCode::Backspace || key.code
            == KeyCode::Char('P') {
            (AppView { overlays: OverlayView { playlist_picker_visible: false, ..o }, ..s }, seq![])
        } else {
            (s, seq![])
        },
    }
}

fn handle_playlist_picker_key(key: KeyEvent, state: &mut AppState) -> (r: Vec<Action>)
    ensures
        (final(state)@, actions_view(r@)) == playlist_picker_spec(old(state)@, key),
{
    let mut actions = no_actions();
    if let Some((sel, scr)) = list_nav(
        normalize_nav_key(&key, true),
        state.overlays.playlist_picker_selected,
        state.overlays.playlist_picker_scroll,
        state.library.playlists.len(),
    ) {
        state.overlays.playlist_picker_selected = sel;
        state.overlays.playlist_picker_scroll = scr;
        return actions;
    }
    if key.code == KeyCode::Enter {
        if state.library.playlists.len() > 0 && state.overlays.playlist_picker_selected
            < state.library.playlists.len() {
            let name = state.library.playlists[state.overlays.playlist_picker_selected].clone();
            state.overlays.playlist_picker_visible = false;
            push_action(&mut actions, Action::AddToPlaylist(name));
        }
    } else if key.code == KeyCode::Esc || key.code == KeyCode::Backspace || key.code
        == KeyCode::Char('P') {
        state.overlays.playlist_picker_visible = false;
    }
    actions
}

// ---------------------------------------------------------------------------
// Global keys and dispatch
// ---------------------------------------------------------------------------

/// Whether keystrokes go to a text field (the search box or the filter).
pub open spec fn text_input(s: AppView) -> bool {
    (s.active_tab == Tab::Search && s.search.editing) || s.filter.active
}

/// Volume after one step up (capped at 100) or down (floored at 0).
pub open spec fn volume_up(v: i32) -> i32 {
    if v >= 95 {
        100
    } else {
        (v + 5) as i32
    }
}

pub open spec fn volume_down(v: i32) -> i32 {
    if v <= 5 {
        0
    } else {
        (v - 5) as i32
    }
}

/// Starting a search for a given text from outside the Search tab.
pub open spec fn search_for_spec(s: AppView, q: Seq<char>) -> (AppView, Seq<ActionView>) {
    (
        AppView {
            active_tab: Tab::Search,
            search: SearchView { editing: false, query: q, selected: 0, scroll: 0, ..s.search },
            ..s
        },
        search_actions(q),
    )
}

/// What a key means regardless of the tab; `None` when the key is left to
/// the active tab. The result is (state, theme, quit, side effects).
pub open spec fn global_key_spec(s: AppView, theme: Theme, key: KeyEvent) -> Option<(AppView, Theme, bool, Seq<ActionView>)> {
    match view_key_spec(s, theme, key) {
        Some(r) => Some(r),
        None => match player_key_spec(s, key) {
            Some(r) => Some((r.0, theme, false, r.1)),
            None => match track_key_spec(s, key) {
                Some(r) => Some((r.0, theme, false, r.1)),
                None => None,
            },
        },
    }
}

/// Global keys that quit, switch tabs or open the theme picker.
pub open spec fn view_key_spec(s: AppView, theme: Theme, key: KeyEvent) -> Option<(AppView, Theme, bool, Seq<ActionView>)> {
    let ti = text_input(s);
    let c = key.code;
    if c == KeyCode::Char('q') && !ti {
        Some((s, theme, true, seq![]))
    } else if c == KeyCode::Char('c') && key.control {
        Some((s, theme, true, seq![]))
    } else if c == KeyCode::Tab {
        Some((AppView { active_tab: tab_next(s.active_tab), ..clear_filter_view(s) }, theme, false, seq![]))
    } else if c == KeyCode::BackTab {
        Some((AppView { active_tab: tab_prev(s.active_tab), ..clear_filter_view(s) }, theme, false, seq![]))
    } else if c == KeyCode::Char('t') && !ti {
        if !s.theme.picker_visible {
            let sel: usize = match find_theme_spec(s.theme.name, s.theme.all) {
                Some((i, _)) => i,
                None => 0,
            };
            Some((
                AppView { theme: ThemeView { picker_visible: true, selected: sel, scroll: 0, ..s.theme }, ..s },
                theme,
                false,
                seq![],
            ))
        } else {
            Some((
                AppView { theme: ThemeView { picker_visible: false, ..s.theme }, ..s },
                restore_theme_spec(s.theme, theme),
                false,
                seq![],
            ))
        }
    } else if c == KeyCode::Char('l') && !ti {
        Some((AppView { active_tab: Tab::Library, ..clear_filter_view(s) }, theme, false, seq![]))
    } else if c == KeyCode::Char('L') && !ti {
        Some((AppView { active_tab: Tab::Lyrics, ..s }, theme, false, seq![]))
    } else if c == KeyCode::Char('/') && !(s.filter.active && (s.active_tab == Tab::Queue || s.active_tab
        == Tab::Library)) {
        Some((
            AppView { active_tab: Tab::Search, search: SearchView { editing: true, ..s.search }, ..s },
            theme,
            false,
            seq![],
        ))
    } else {
        None
    }
}

/// Global keys that control playback, the queue and the playlist picker.
pub open spec fn player_key_spec(s: AppView, key: KeyEvent) -> Option<(AppView, Seq<ActionView>)> {
    let ti = text_input(s);
    let c = key.code;
    let p = s.player;
    if c == KeyCode::Char(' ') && !ti {
        let pb = if p.playback == PlayerState::Playing {
            PlayerState::Paused
        } else {
            PlayerState::Playing
        };
        Some((
            AppView { player: PlayerView { playback: pb, ..p }, ..s },
            seq![ActionView::FireAndRefresh(CommandView::PlayPause)],
        ))
    } else if c == KeyCode::Char('n') && !ti {
        Some((s, seq![ActionView::FireAndRefresh(CommandView::NextTrack)]))
    } else if c == KeyCode::Char('p') && !ti {
        Some((s, seq![ActionView::FireAndRefresh(CommandView::PreviousTrack)]))
    } else if c == KeyCode::Char('+') || c == KeyCode::Char('=') {
        let v = volume_up(p.volume);
        Some((AppView { player: PlayerView { volume: v, ..p }, ..s }, seq![ActionView::SetVolume(v)]))
    } else if c == KeyCode::Char('-') && !ti {
        let v = volume_down(p.volume);
        Some((AppView { player: PlayerView { volume: v, ..p }, ..s }, seq![ActionView::SetVolume(v)]))
    } else if c == KeyCode::Char('s') && !ti {
        Some((
            AppView { player: PlayerView { shuffle_enabled: !p.shuffle_enabled, ..p }, ..s },
            seq![ActionView::FireAndRefresh(CommandView::ToggleShuffle)],
        ))
    } else if c == KeyCode::Char('r') && !ti {
        Some((
            AppView { player: PlayerView { repeat_mode: next_repeat(p.repeat_mode), ..p }, ..s },
            seq![ActionView::FireAndRefresh(CommandView::CycleRepeat)],
        ))
    } else if c == KeyCode::Char('C') && !ti {
        Some((
            AppView {
                queue: QueueView {
                    tracks: Seq::empty(),
                    selected: 0,
                    scroll: 0,
                    playing: None,
                    playlist_name: Seq::empty(),
                },
                ..s
            },
            seq![ActionView::ClearQueueState],
        ))
    } else if c == KeyCode::Char('f') && !ti && !key.control {
        Some((
            AppView { player: PlayerView { current_track_favorited: !p.current_track_favorited, ..p }, ..s },
            seq![ActionView::FireAndRefresh(CommandView::ToggleFavorite)],
        ))
    } else if c == KeyCode::Char('P') && !ti {
        Some((
            AppView {
                overlays: OverlayView {
                    playlist_picker_visible: !s.overlays.playlist_picker_visible,
                    playlist_picker_selected: 0,
                    playlist_picker_scroll: 0,
                    ..s.overlays
                },
                ..s
            },
            seq![],
        ))
    } else {
        None
    }
}

/// Global keys that act on the current track: search for or reveal its
/// artist or album.
pub open spec fn track_key_spec(s: AppView, key: KeyEvent) -> Option<(AppView, Seq<ActionView>)> {
    let ti = text_input(s);
    let c = key.code;
    let p = s.player;
    if c == KeyCode::Char('a') && !ti {
        match p.track {
            Some(t) => if t.artist@.len() > 0 {
                let r = search_for_spec(s, t.artist@);
                Some(r)
            } else {
                Some((s, seq![]))
            },
            None => Some((s, seq![])),
        }
    } else if c == KeyCode::Char('A') && !ti {
        match p.track {
            Some(t) => if t.album@.len() > 0 {
                let r = search_for_spec(s, t.album@);
                Some(r)
            } else {
                Some((s, seq![]))
            },
            None => Some((s, seq![])),
        }
    } else if c == KeyCode::Char('o') && !ti {
        match p.track {
            Some(t) => if t.artist@.len() > 0 {
                Some((s, seq![ActionView::RevealArtist(t.artist@)]))
            } else {
                Some((s, seq![]))
            },
            None => Some((s, seq![])),
        }
    } else if c == KeyCode::Char('O') && !ti {
        match p.track {
            Some(t) => if t.album@.len() > 0 {
                Some((s, seq![ActionView::RevealAlbum(t.album@, t.artist@)]))
            } else {
                Some((s, seq![]))
            },
            None => Some((s, seq![])),
        }
    } else {
        None
    }
}

/// What a key does in the active tab.
pub open spec fn tab_key_spec(s: AppView, key: KeyEvent) -> (AppView, Seq<ActionView>) {
    match s.active_tab {
        Tab::Queue => queue_key_spec(s, key),
        Tab::Library => library_key_spec(s, key),
        Tab::Search => search_key_spec(s, key),
        Tab::Lyrics => (AppView { lyrics: lyrics_key_spec(s.lyrics, key), ..s }, seq![]),
    }
}

/// What a key press does: overlays first (error message, help, theme
/// picker, playlist picker), then global keys, then the active tab. The
/// result is (state, theme, quit, side effects).
pub open spec fn handle_key_spec(s: AppView, theme: Theme, key: KeyEvent) -> (AppView, Theme, bool, Seq<ActionView>) {
    if s.overlays.error_message is Some {
        (AppView { overlays: OverlayView { error_message: None, ..s.overlays }, ..s }, theme, false, seq![])
    } else if key.code == KeyCode::Char('?') {
        (
            AppView { overlays: OverlayView { show_help: !s.overlays.show_help, ..s.overlays }, ..s },
            theme,
            false,
            seq![],
        )
    } else if s.overlays.show_help {
        (AppView { overlays: OverlayView { show_help: false, ..s.overlays }, ..s }, theme, false, seq![])
    } else if s.theme.picker_visible {
        let r = theme_picker_spec(s, theme, key);
        (r.0, r.1, false, seq![])
    } else if s.overlays.playlist_picker_visible {
        let r = playlist_picker_spec(s, key);
        (r.0, theme, false, r.1)
    } else {
        match global_key_spec(s, theme, key) {
            Some(r) => r,
            None => {
                let r = tab_key_spec(s, key);
                (r.0, theme, false, r.1)
            },
        }
    }
}

/// Whether a key in the Lyrics tab leaves the scroll offset in range: one
/// line down needs room for one more line, a page down for a page.
pub open spec fn lyrics_key_ok(l: LyricsView, key: KeyEvent) -> bool {
    &&& normalize_spec(key, true) == KeyCode::Down ==> l.scroll < usize::MAX
    &&& normalize_spec(key, true) == KeyCode::PageDown ==> l.scroll <= usize::MAX - PAGE_SIZE
}

/// Whether `handle_key` can take this key in this state: a key that reaches
/// the Lyrics tab (no overlay open, Lyrics tab active) must not scroll past
/// the largest offset. Keys that scroll down are never global keys.
pub open spec fn key_ready(s: AppView, key: KeyEvent) -> bool {
    (no_overlay(s) && s.active_tab == Tab::Lyrics) ==> lyrics_key_ok(s.lyrics, key)
}

/// Tests `key_ready`, for callers that cannot see specifications.
pub fn key_ready_check(state: &AppState, key: KeyEvent) -> (r: bool)
    ensures
        r == key_ready(state@, key),
{
    if state.overlays.error_message.is_some() || state.overlays.show_help || state.theme.picker_visible
        || state.overlays.playlist_picker_visible || state.active_tab != Tab::Lyrics {
        return true;
    }
    let code = normalize_nav_key(&key, true);
    if code == KeyCode::Down {
        state.lyrics.scroll < usize::MAX
    } else if code == KeyCode::PageDown {
        state.lyrics.scroll <= usize::MAX - PAGE_SIZE
    } else {
        true
    }
}

fn search_for(state: &mut AppState, q: String) -> (r: Vec<Action>)
    ensures
        (final(state)@, actions_view(r@)) == search_for_spec(old(state)@, q@),
{
    let mut actions = no_actions();
    state.active_tab = Tab::Search;
    state.search.editing = false;
    state.search.query = q;
    state.search.selected = 0;
    state.search.scroll = 0;
    perform_search(state, &mut actions);
    assert(actions_view(actions@) =~= search_actions(q@));
    actions
}

fn handle_view_key(key: KeyEvent, state: &mut AppState, theme: &mut Theme) -> (r: Option<(bool, Vec<Action>)>)
    ensures
        match view_key_spec(old(state)@, *old(theme), key) {
            Some(g) => r matches Some(x) && (final(state)@, *final(theme), x.0, actions_view(x.1@)) == g,
            None => r is None && final(state)@ == old(state)@ && *final(theme) == *old(theme),
        },
{
    let ti = (state.active_tab == Tab::Search && state.search.editing) || state.filter.active;
    let c = key.code;
    let mut actions = no_actions();
    if c == KeyCode::Char('q') && !ti {
        return Some((true, actions));
    } else if c == KeyCode::Char('c') && key.control {
        return Some((true, actions));
    } else if c == KeyCode::Tab {
        clear_filter(state);
        state.active_tab = state.active_tab.next();
    } else if c == KeyCode::BackTab {
        clear_filter(state);
        state.active_tab = state.active_tab.prev();
    } else if c == KeyCode::Char('t') && !ti {
        state.theme.picker_visible = !state.theme.picker_visible;
        if state.theme.picker_visible {
            if let Some((idx, _)) = find_theme(state.theme.name.as_str(), state.theme.all.as_slice()) {
                state.theme.selected = idx;
            } else {
                state.theme.selected = 0;
            }
            state.theme.scroll = 0;
        } else {
            restore_saved_theme(state, theme);
        }
    } else if c == KeyCode::Char('l') && !ti {
        clear_filter(state);
        state.active_tab = Tab::Library;
    } else if c == KeyCode::Char('L') && !ti {
        state.active_tab = Tab::Lyrics;
    } else if c == KeyCode::Char('/') && !(state.filter.active && (state.active_tab == Tab::Queue
        || state.active_tab == Tab::Library)) {
        state.active_tab = Tab::Search;
        state.search.editing = true;
    } else {
        return None;
    }
    Some((false, actions))
}

fn handle_player_key(key: KeyEvent, state: &mut AppState) -> (r: Option<Vec<Action>>)
    ensures
        match player_key_spec(old(state)@, key) {
            Some(g) => r matches Some(x) && (final(state)@, actions_view(x@)) == g,
            None => r is None && final(state)@ == old(state)@,
        },
{
    let ti = (state.active_tab == Tab::Search && state.search.editing) || state.filter.active;
    let c = key.code;
    let mut actions = no_actions();
    if c == KeyCode::Char(' ') && !ti {
        state.player.playback = if state.player.playback == PlayerState::Playing {
            PlayerState::Paused
        } else {
            PlayerState::Playing
        };
        push_action(&mut actions, Action::FireAndRefresh(BackendCommand::PlayPause));
    } else if c == KeyCode::Char('n') && !ti {
        push_action(&mut actions, Action::FireAndRefresh(BackendCommand::NextTrack));
    } else if c == KeyCode::Char('p') && !ti {
        push_action(&mut actions, Action::FireAndRefresh(BackendCommand::PreviousTrack));
    } else if c == KeyCode::Char('+') || c == KeyCode::Char('=') {
        let v = if state.player.volume >= 95 {
            100
        } else {
            state.player.volume + 5
        };
        state.player.volume = v;
        push_action(&mut actions, Action::SetVolume(v));
    } else if c == KeyCode::Char('-') && !ti {
        let v = if state.player.volume <= 5 {
            0
        } else {
            state.player.volume - 5
        };
        state.player.volume = v;
        push_action(&mut actions, Action::SetVolume(v));
    } else if c == KeyCode::Char('s') && !ti {
        state.player.shuffle_enabled = !state.player.shuffle_enabled;
        push_action(&mut actions, Action::FireAndRefresh(BackendCommand::ToggleShuffle));
    } else if c == KeyCode::Char('r') && !ti {
        state.player.repeat_mode = state.player.repeat_mode.cycled();
        push_action(&mut actions, Action::FireAndRefresh(BackendCommand::CycleRepeat));
    } else if c == KeyCode::Char('C') && !ti {
        state.queue.tracks = Vec::new();
        state.queue.selected = 0;
        state.queue.scroll = 0;
        state.queue.playing = None;
        state.queue.playlist_name = String::new();
        push_action(&mut actions, Action::ClearQueueState);
    } else if c == KeyCode::Char('f') && !ti && !key.control {
        state.player.current_track_favorited = !state.player.current_track_favorited;
        push_action(&mut actions, Action::FireAndRefresh(BackendCommand::ToggleFavorite));
    } else if c == KeyCode::Char('P') && !ti {
        state.overlays.playlist_picker_visible = !state.overlays.playlist_picker_visible;
        state.overlays.playlist_picker_selected = 0;
        state.overlays.playlist_picker_scroll = 0;
    } else {
        return None;
    }
    Some(actions)
}

fn handle_track_key(key: KeyEvent, state: &mut AppState) -> (r: Option<Vec<Action>>)
    ensures
        match track_key_spec(old(state)@, key) {
            Some(g) => r matches Some(x) && (final(state)@, actions_view(x@)) == g,
            None => r is None && final(state)@ == old(state)@,
        },
{
    let ti = (state.active_tab == Tab::Search && state.search.editing) || state.filter.active;
    let c = key.code;
    let mut actions = no_actions();
    if c == KeyCode::Char('a') && !ti {
        let artist = match &state.player.track {
            Some(t) => Some(t.artist.clone()),
            None => None,
        };
        if let Some(a) = artist {
            if !a.as_str().is_empty() {
                actions = search_for(state, a);
            }
        }
    } else if c == KeyCode::Char('A') && !ti {
        let album = match &state.player.track {
            Some(t) => Some(t.album.clone()),
            None => None,
        };
        if let Some(a) = album {
            if !a.as_str().is_empty() {
                actions = search_for(state, a);
            }
        }
    } else if c == KeyCode::Char('o') && !ti {
        if let Some(t) = &state.player.track {
            if !t.artist.as_str().is_empty() {
                push_action(&mut actions, Action::RevealArtist(t.artist.clone()));
            }
        }
    } else if c == KeyCode::Char('O') && !ti {
        if let Some(t) = &state.player.track {
            if !t.album.as_str().is_empty() {
                push_action(
                    &mut actions,
                    Action::RevealAlbum(t.album.clone(), t.artist.clone()),
                );
            }
        }
    } else {
        return None;
    }
    Some(actions)
}

fn handle_global_key(key: KeyEvent, state: &mut AppState, theme: &mut Theme) -> (r: Option<(bool, Vec<Action>)>)
    ensures
        match global_key_spec(old(state)@, *old(theme), key) {
            Some(g) => r matches Some(x) && (final(state)@, *final(theme), x.0, actions_view(x.1@)) == g,
            None => r is None && final(state)@ == old(state)@ && *final(theme) == *old(theme),
        },
{
    if let Some(r) = handle_view_key(key, state, theme) {
        return Some(r);
    }
    if let Some(a) = handle_player_key(key, state) {
        return Some((false, a));
    }
    if let Some(a) = handle_track_key(key, state) {
        return Some((false, a));
    }
    None
}

/// Handles one key press. Returns whether the application should quit,
/// and the side effects to perform, in order.
pub fn handle_key(key: KeyEvent, state: &mut AppState, theme: &mut Theme) -> (r: (bool, Vec<Action>))
    requires
        key_ready(old(state)@, key),
    ensures
        (final(state)@, *final(theme), r.0, actions_view(r.1@)) == handle_key_spec(
            old(state)@,
            *old(theme),
            key,
        ),
{
    if state.overlays.error_message.is_some() {
        state.overlays.error_message = None;
        return (false, no_actions());
    }
    if key.code == KeyCode::Char('?') {
        state.overlays.show_help = !state.overlays.show_help;
        return (false, no_actions());
    }
    if state.overlays.show_help {
        state.overlays.show_help = false;
        return (false, no_actions());
    }
    if state.theme.picker_visible {
        handle_theme_picker_key(key, state, theme);
        return (false, no_actions());
    }
    if state.overlays.playlist_picker_visible {
        let a = handle_playlist_picker_key(key, state);
        return (false, a);
    }
    if let Some(r) = handle_global_key(key, state, theme) {
        return r;
    }
    let actions = match state.active_tab {
        Tab::Queue => handle_queue_key(key, state),
        Tab::Library => handle_library_key(key, state),
        Tab::Search => handle_search_key(key, state),
        Tab::Lyrics => {
            handle_lyrics_key(key, state);
            no_actions()
        },
    };
    (false, actions)
}

/// Removing another queue entry keeps the playing entry playing: its new
/// index points at the same track.
pub proof fn lemma_remove_keeps_playing(s: AppView, removed: usize, p: usize)
    requires
        removed < s.queue.tracks.len(),
        p < s.queue.tracks.len(),
        p != removed,
        s.queue.playing == Some(p),
    ensures
        ({
            let after = queue_remove_spec(s, removed).0;
            after.queue.playing matches Some(q) && q < after.queue.tracks.len()
                && after.queue.tracks[q as int] == s.queue.tracks[p as int]
        }),
{
    let tracks = s.queue.tracks.remove(removed as int);
    assert(tracks.len() == s.queue.tracks.len() - 1);
    assert(tracks.len() > 0);
    if removed < p {
        assert(tracks[p - 1] == s.queue.tracks[p as int]);
    } else {
        assert(tracks[p as int] == s.queue.tracks[p as int]);
    }
}

/// The volume keys keep the volume within 0 to 100 and move it the way
/// they say.
pub proof fn lemma_volume_in_range(v: i32)
    requires
        0 <= v <= 100,
    ensures
        0 <= volume_up(v) <= 100,
        0 <= volume_down(v) <= 100,
        volume_down(v) <= v <= volume_up(v),
        v < 100 ==> volume_up(v) > v,
        v > 0 ==> volume_down(v) < v,
{
}

/// Search as you type: in the Search tab, while the query is being typed
/// and no overlay is open, a plain character other than the keys that act
/// everywhere (`?`, `/`, `+`, `=`) is added to the query, typing goes on, the
/// cursor returns to the top, and a search is asked for exactly when the
/// query then has at least two characters.
pub proof fn lemma_search_as_you_type(s: AppView, theme: Theme, c: char)
    requires
        s.overlays.error_message is None,
        !s.overlays.show_help,
        !s.theme.picker_visible,
        !s.overlays.playlist_picker_visible,
        s.active_tab == Tab::Search,
        s.search.editing,
        c != '?',
        c != '/',
        c != '+',
        c != '=',
    ensures
        ({
            let (after, t, quit, actions) = handle_key_spec(
                s,
                theme,
                KeyEvent { code: KeyCode::Char(c), control: false },
            );
            let q = s.search.query.push(c);
            &&& !quit
            &&& t == theme
            &&& after.search.query == q
            &&& after.search.editing
            &&& after.active_tab == Tab::Search
            &&& after.search.selected == 0
            &&& after.search.scroll == 0
            &&& (actions.len() > 0 <==> q.len() >= 2)
            &&& actions.len() > 0 ==> actions == seq![ActionView::Search(q)]
        }),
{
    let key = KeyEvent { code: KeyCode::Char(c), control: false };
    assert(text_input(s));
    assert(view_key_spec(s, theme, key) is None);
    assert(player_key_spec(s, key) is None);
    assert(track_key_spec(s, key) is None);
}


/// Whether no overlay is open: no error message, help, theme picker or
/// playlist picker.
pub open spec fn no_overlay(s: AppView) -> bool {
    &&& s.overlays.error_message is None
    &&& !s.overlays.show_help
    &&& !s.theme.picker_visible
    &&& !s.overlays.playlist_picker_visible
}

/// The quit rule: a key quits exactly when no overlay is open and it is
/// `q` outside text input, or Ctrl+C.
pub proof fn lemma_quit_rule(s: AppView, theme: Theme, key: KeyEvent)
    ensures
        handle_key_spec(s, theme, key).2 == (no_overlay(s) && ((key.code == KeyCode::Char('q')
            && !text_input(s)) || (key.code == KeyCode::Char('c') && key.control))),
{
}

/// Overlays come first: an error message is dismissed by any key, `?`
/// toggles the help, and any other key closes an open help; in each case
/// nothing else changes, nothing is asked of the player and the program
/// goes on.
pub proof fn lemma_overlays_first(s: AppView, theme: Theme, key: KeyEvent)
    requires
        s.overlays.error_message is Some || key.code == KeyCode::Char('?') || s.overlays.show_help,
    ensures
        ({
            let (after, t, quit, actions) = handle_key_spec(s, theme, key);
            &&& !quit
            &&& t == theme
            &&& actions.len() == 0
            &&& s.overlays.error_message is Some ==> after == (AppView {
                overlays: OverlayView { error_message: None, ..s.overlays },
                ..s
            })
            &&& (s.overlays.error_message is None && key.code == KeyCode::Char('?')) ==> after == (
            AppView { overlays: OverlayView { show_help: !s.overlays.show_help, ..s.overlays }, ..s })
            &&& (s.overlays.error_message is None && key.code != KeyCode::Char('?')
                && s.overlays.show_help) ==> after == (AppView {
                overlays: OverlayView { show_help: false, ..s.overlays },
                ..s
            })
        }),
{
}

/// Playback controls work from any tab: with no overlay open and no text
/// being typed, space, `n`, `p`, `s` and `r` send play/pause, next,
/// previous, shuffle and repeat to the player, whatever the active tab;
/// only the player part of the state changes, and the program goes on.
pub proof fn lemma_playback_keys_any_tab(s: AppView, theme: Theme, c: char)
    requires
        no_overlay(s),
        !text_input(s),
        c == ' ' || c == 'n' || c == 'p' || c == 's' || c == 'r',
    ensures
        ({
            let (after, t, quit, actions) = handle_key_spec(s, theme, KeyEvent { code: KeyCode::Char(c), control: false });
            &&& !quit
            &&& t == theme
            &&& after == (AppView { player: after.player, ..s })
            &&& actions == seq![ActionView::FireAndRefresh(
                if c == ' ' {
                    CommandView::PlayPause
                } else if c == 'n' {
                    CommandView::NextTrack
                } else if c == 'p' {
                    CommandView::PreviousTrack
                } else if c == 's' {
                    CommandView::ToggleShuffle
                } else {
                    CommandView::CycleRepeat
                },
            )]
        }),
{
    let key = KeyEvent { code: KeyCode::Char(c), control: false };
    assert(view_key_spec(s, theme, key) is None);
}

/// The row a filtered list shows at `sel` is an entry of the list whose
/// track matches the filter.
proof fn lemma_shown_row(tracks: Seq<PlaylistTrack>, query: Seq<char>, sel: usize)
    requires
        tracks.len() <= usize::MAX,
        query.len() > 0,
        sel < filter_tracks_spec(tracks, query).len(),
    ensures
        (filter_tracks_spec(tracks, query)[sel as int] as int) < tracks.len(),
        track_matches(tracks[filter_tracks_spec(tracks, query)[sel as int] as int], lowercase(query)),
{
    lemma_filter_tracks_exact(tracks, query);
    let shown = filter_tracks_spec(tracks, query);
    let i = shown[sel as int];
    assert(shown.contains(i));
    assert(shown.contains(i as int as usize));
}

/// Enter in the Queue tab plays the row the list shows at the cursor: with
/// a filter typed, the selected row of the filtered list, which is an
/// entry whose track matches the filter; without one, the selected entry.
/// The position is saved and the player asked to play that entry.
pub proof fn lemma_queue_enter_plays_shown_row(s: AppView, theme: Theme)
    requires
        no_overlay(s),
        s.active_tab == Tab::Queue,
        s.queue.tracks.len() <= usize::MAX,
    ensures
        ({
            let (after, _, quit, actions) = handle_key_spec(
                s,
                theme,
                KeyEvent { code: KeyCode::Enter, control: false },
            );
            let shown = filter_tracks_spec(s.queue.tracks, s.filter.query);
            let n = s.queue.playlist_name;
            let len = s.queue.tracks.len() as usize;
            let sel = s.queue.selected;
            &&& !quit
            &&& (s.filter.query.len() > 0 && sel < shown.len()) ==> {
                let i = shown[sel as int];
                &&& (i as int) < s.queue.tracks.len()
                &&& track_matches(s.queue.tracks[i as int], lowercase(s.filter.query))
                &&& after.queue.playing == Some(i)
                &&& actions == seq![
                    ActionView::SaveQueueState(n, i, len),
                    ActionView::FireAndRefresh(CommandView::PlayTrackInPlaylist(n, i)),
                ]
            }
            &&& (s.filter.query.len() == 0 && sel < s.queue.tracks.len()) ==> {
                &&& after.queue.playing == Some(sel)
                &&& actions == seq![
                    ActionView::SaveQueueState(n, sel, len),
                    ActionView::FireAndRefresh(CommandView::PlayTrackInPlaylist(n, sel)),
                ]
            }
        }),
{
    let key = KeyEvent { code: KeyCode::Enter, control: false };
    assert(view_key_spec(s, theme, key) is None);
    assert(player_key_spec(s, key) is None);
    assert(track_key_spec(s, key) is None);
    if s.filter.query.len() > 0 && s.queue.selected < filter_tracks_spec(s.queue.tracks, s.filter.query).len() {
        lemma_shown_row(s.queue.tracks, s.filter.query, s.queue.selected);
    }
}

/// `d` in the Queue tab, with no filter being typed, removes the entry the
/// list shows at the cursor: with a filter, the selected row of the
/// filtered list, an entry whose track matches the filter.
pub proof fn lemma_queue_remove_shown_row(s: AppView, theme: Theme)
    requires
        no_overlay(s),
        s.active_tab == Tab::Queue,
        !s.filter.active,
        s.queue.tracks.len() <= usize::MAX,
        s.filter.query.len() > 0,
        s.queue.selected < filter_tracks_spec(s.queue.tracks, s.filter.query).len(),
    ensures
        ({
            let (after, _, quit, _) = handle_key_spec(s, theme, KeyEvent { code: KeyCode::Char('d'), control: false });
            let i = filter_tracks_spec(s.queue.tracks, s.filter.query)[s.queue.selected as int];
            &&& !quit
            &&& (i as int) < s.queue.tracks.len()
            &&& track_matches(s.queue.tracks[i as int], lowercase(s.filter.query))
            &&& after.queue.tracks == s.queue.tracks.remove(i as int)
        }),
{
    let key = KeyEvent { code: KeyCode::Char('d'), control: false };
    assert(view_key_spec(s, theme, key) is None);
    assert(player_key_spec(s, key) is None);
    assert(track_key_spec(s, key) is None);
    lemma_shown_row(s.queue.tracks, s.filter.query, s.queue.selected);
}

/// Enter on a playlist's track list plays the row the list shows at the
/// cursor: with a filter typed, the selected row of the filtered list, a
/// track that matches the filter. The playlist becomes the queue, with
/// that entry playing.
pub proof fn lemma_library_enter_plays_shown_row(s: AppView, theme: Theme, name: Seq<char>)
    requires
        no_overlay(s),
        s.active_tab == Tab::Library,
        s.library.sub_view == SubViewView::Tracks(name),
        s.library.tracks.len() <= usize::MAX,
        s.filter.query.len() > 0,
        s.library.tracks_selected < filter_tracks_spec(s.library.tracks, s.filter.query).len(),
    ensures
        ({
            let (after, _, quit, actions) = handle_key_spec(
                s,
                theme,
                KeyEvent { code: KeyCode::Enter, control: false },
            );
            let i = filter_tracks_spec(s.library.tracks, s.filter.query)[s.library.tracks_selected as int];
            &&& !quit
            &&& (i as int) < s.library.tracks.len()
            &&& track_matches(s.library.tracks[i as int], lowercase(s.filter.query))
            &&& after.queue.tracks == s.library.tracks
            &&& after.queue.playlist_name == name
            &&& after.queue.playing == Some(i)
            &&& actions.last() == ActionView::FireAndRefresh(CommandView::PlayTrackInPlaylist(name, i))
        }),
{
    let key = KeyEvent { code: KeyCode::Enter, control: false };
    assert(view_key_spec(s, theme, key) is None);
    assert(player_key_spec(s, key) is None);
    assert(track_key_spec(s, key) is None);
    lemma_shown_row(s.library.tracks, s.filter.query, s.library.tracks_selected);
}

/// Enter in the playlist picker adds the current track to the highlighted
/// playlist, the one at the picker's cursor, and closes the picker.
pub proof fn lemma_picker_adds_highlighted(s: AppView, theme: Theme)
    requires
        s.overlays.error_message is None,
        !s.overlays.show_help,
        !s.theme.picker_visible,
        s.overlays.playlist_picker_visible,
        s.overlays.playlist_picker_selected < s.library.playlists.len(),
    ensures
        ({
            let (after, t, quit, actions) = handle_key_spec(
                s,
                theme,
                KeyEvent { code: KeyCode::Enter, control: false },
            );
            &&& !quit
            &&& t == theme
            &&& !after.overlays.playlist_picker_visible
            &&& actions == seq![
                ActionView::AddToPlaylist(s.library.playlists[s.overlays.playlist_picker_selected as int]@),
            ]
        }),
{
}

/// The lyrics view scrolls by hand: in the Lyrics tab with no overlay open,
/// PageUp (or Ctrl+B) moves up a page of `PAGE_SIZE` lines, stopping at the
/// top; PageDown (or Ctrl+F) moves down a page; Up and Down (or `k` and
/// `j`) move one line, Up stopping at the top. Only the lyrics view
/// changes, following the song stops, and nothing is asked of the player.
pub proof fn lemma_lyrics_scroll_keys(s: AppView, theme: Theme, key: KeyEvent)
    requires
        no_overlay(s),
        s.active_tab == Tab::Lyrics,
        key_ready(s, key),
        key == (KeyEvent { code: KeyCode::PageUp, control: false }) || key == (KeyEvent {
            code: KeyCode::Char('b'),
            control: true,
        }) || key == (KeyEvent { code: KeyCode::PageDown, control: false }) || key == (KeyEvent {
            code: KeyCode::Char('f'),
            control: true,
        }) || key == (KeyEvent { code: KeyCode::Up, control: false }) || key == (KeyEvent {
            code: KeyCode::Char('k'),
            control: false,
        }) || key == (KeyEvent { code: KeyCode::Down, control: false }) || key == (KeyEvent {
            code: KeyCode::Char('j'),
            control: false,
        }),
    ensures
        ({
            let (after, t, quit, actions) = handle_key_spec(s, theme, key);
            let old = s.lyrics.scroll;
            let up_page = key.code == KeyCode::PageUp || key.code == KeyCode::Char('b');
            let down_page = key.code == KeyCode::PageDown || key.code == KeyCode::Char('f');
            let up = key.code == KeyCode::Up || key.code == KeyCode::Char('k');
            &&& !quit
            &&& t == theme
            &&& actions.len() == 0
            &&& after == (AppView { lyrics: after.lyrics, ..s })
            &&& after.lyrics.lines == s.lyrics.lines
            &&& up_page ==> after.lyrics.scroll == (if old >= PAGE_SIZE { old - PAGE_SIZE } else { 0 })
                && after.lyrics.manual_scroll
            &&& down_page ==> after.lyrics.scroll == old + PAGE_SIZE && after.lyrics.manual_scroll
            &&& up ==> (old >= 1 ==> after.lyrics.scroll == old - 1 && after.lyrics.manual_scroll) && (old
                == 0 ==> after.lyrics == s.lyrics)
            &&& (key.code == KeyCode::Down || key.code == KeyCode::Char('j')) ==> after.lyrics.scroll
                == old + 1 && after.lyrics.manual_scroll
        }),
{
    assert(view_key_spec(s, theme, key) is None);
    assert(player_key_spec(s, key) is None);
    assert(track_key_spec(s, key) is None);
}

/// A page down then a page up in the lyrics comes back to the same line.
pub proof fn lemma_lyrics_page_roundtrip(l: LyricsView)
    requires
        l.scroll <= usize::MAX - PAGE_SIZE,
    ensures
        lyrics_key_spec(
            lyrics_key_spec(l, KeyEvent { code: KeyCode::PageDown, control: false }),
            KeyEvent { code: KeyCode::PageUp, control: false },
        ).scroll == l.scroll,
{
}
} // verus!
