//! What the list panels show: which entries, in which order, with which
//! marker and emphasis, or which message instead. Drawing them is left to
//! the terminal front end.

use vstd::prelude::*;
use crate::backend::{LyricsLine, PlaylistTrack, SearchResult};
use crate::display::{current_line, format_time, time_label};
use crate::nav::{filter_string_indices, filter_strings_spec, filter_track_indices, filter_tracks_spec};
use crate::state::{AppState, AppView, LibrarySubView, SubViewView, Tab};
use crate::text::{push_str, str_eq};
use crate::theme::Theme;

verus! {

broadcast use vstd::string::group_string_axioms;

/// How an entry stands out.
#[derive(Debug, Clone, Copy, PartialEq, Eq, Structural)]
pub enum Emphasis {
    /// The entry under the cursor.
    Selected,
    /// The entry being played.
    Playing,
    /// Set back (results while typing a query, lyrics not being sung).
    Dimmed,
    Normal,
}

/// One row of a list: its text, a trailing detail (may be empty) and its
/// emphasis.
pub struct ListRow {
    pub text: String,
    pub detail: String,
    pub emphasis: Emphasis,
}

/// A panel's content: a message in place of the list, or the rows with
/// the index of the first one shown.
pub enum ListContent {
    Message(String),
    Rows(Vec<ListRow>, usize),
}

/// The marker before an entry: an arrow at the cursor, a note at the
/// playing entry, blank otherwise.
pub open spec fn marker(selected: bool, playing: bool) -> Seq<char> {
    if selected {
        "\u{25b8} "@
    } else if playing {
        "\u{266b} "@
    } else {
        "  "@
    }
}

/// `marker name — artist`.
pub open spec fn entry_text(m: Seq<char>, name: Seq<char>, artist: Seq<char>) -> Seq<char> {
    m + name + " \u{2014} "@ + artist
}

/// The length shown after a track: two spaces and `m:ss`.
pub open spec fn duration_detail(duration_ms: u64) -> Seq<char> {
    "  "@ + time_label(duration_ms / 1000)
}

/// Whether the filter bar is shown: a filter is typed or being typed.
pub open spec fn filter_shown(s: AppView) -> bool {
    s.filter.query.len() > 0 || s.filter.active
}

pub fn has_filter_bar(state: &AppState) -> (r: bool)
    ensures
        r == filter_shown(state@),
{
    !state.filter.query.as_str().is_empty() || state.filter.active
}

fn marker_text(selected: bool, playing: bool) -> (r: &'static str)
    ensures
        r@ == marker(selected, playing),
{
    if selected {
        "\u{25b8} "
    } else if playing {
        "\u{266b} "
    } else {
        "  "
    }
}

fn entry(m: &str, name: &str, artist: &str) -> (r: String)
    ensures
        r@ == entry_text(m@, name@, artist@),
{
    let mut out = String::new();
    push_str(&mut out, m);
    push_str(&mut out, name);
    push_str(&mut out, " \u{2014} ");
    push_str(&mut out, artist);
    assert(out@ =~= entry_text(m@, name@, artist@));
    out
}

fn duration_text(duration_ms: u64) -> (r: String)
    ensures
        r@ == duration_detail(duration_ms),
{
    let mut out = String::new();
    push_str(&mut out, "  ");
    let t = format_time(duration_ms / 1000);
    push_str(&mut out, t.as_str());
    out
}

/// A track row: marker, name and artist, the length, and the emphasis.
pub open spec fn track_row_ok(row: ListRow, t: PlaylistTrack, selected: bool, playing: bool) -> bool {
    &&& row.text@ == entry_text(marker(selected, playing), t.name@, t.artist@)
    &&& row.detail@ == duration_detail(t.duration_ms)
    &&& row.emphasis == if selected {
        Emphasis::Selected
    } else if playing {
        Emphasis::Playing
    } else {
        Emphasis::Normal
    }
}

fn track_row(t: &PlaylistTrack, selected: bool, playing: bool) -> (r: ListRow)
    ensures
        track_row_ok(r, *t, selected, playing),
{
    let m = marker_text(selected, playing);
    ListRow {
        text: entry(m, t.name.as_str(), t.artist.as_str()),
        detail: duration_text(t.duration_ms),
        emphasis: if selected {
            Emphasis::Selected
        } else if playing {
            Emphasis::Playing
        } else {
            Emphasis::Normal
        },
    }
}

/// A named row: marker and name, no detail.
pub open spec fn name_row_ok(row: ListRow, name: Seq<char>, selected: bool) -> bool {
    &&& row.text@ == marker(selected, false) + name
    &&& row.detail@.len() == 0
    &&& row.emphasis == if selected {
        Emphasis::Selected
    } else {
        Emphasis::Normal
    }
}

fn name_row(name: &str, selected: bool) -> (r: ListRow)
    ensures
        name_row_ok(r, name@, selected),
{
    let mut text = String::new();
    push_str(&mut text, marker_text(selected, false));
    push_str(&mut text, name);
    ListRow {
        text,
        detail: String::new(),
        emphasis: if selected {
            Emphasis::Selected
        } else {
            Emphasis::Normal
        },
    }
}

fn message(text: &str) -> (r: ListContent)
    ensures
        r matches ListContent::Message(m) && m@ == text@,
{
    ListContent::Message(text.to_owned())
}

/// The Queue panel: a hint when the queue is empty, "No matches" when the
/// filter hides every entry, otherwise the matching entries with the
/// cursor and the playing entry marked.
pub fn queue_listing(state: &AppState) -> (r: ListContent)
    ensures
        ({
            let s = state@;
            let shown = filter_tracks_spec(s.queue.tracks, s.filter.query);
            if s.queue.tracks.len() == 0 {
                r matches ListContent::Message(m) && m@ == "No queue \u{2014} play a playlist to fill"@
            } else if shown.len() == 0 && filter_shown(s) {
                r matches ListContent::Message(m) && m@ == "No matches"@
            } else {
                r matches ListContent::Rows(rows, offset) && offset == s.queue.scroll && rows@.len()
                    == shown.len() && forall|d: int|
                    0 <= d < shown.len() ==> track_row_ok(
                        #[trigger] rows@[d],
                        s.queue.tracks[shown[d] as int],
                        d == s.queue.selected,
                        s.queue.playing == Some(shown[d]),
                    )
            }
        }),
{
    if state.queue.tracks.len() == 0 {
        return message("No queue \u{2014} play a playlist to fill");
    }
    let shown = filter_track_indices(state.queue.tracks.as_slice(), state.filter.query.as_str());
    if shown.len() == 0 && has_filter_bar(state) {
        return message("No matches");
    }
    proof {
        crate::nav::lemma_filter_tracks_exact(state.queue.tracks@, state.filter.query@);
    }
    let mut rows: Vec<ListRow> = Vec::new();
    for d in 0..shown.len()
        invariant
            shown@ == filter_tracks_spec(state@.queue.tracks, state@.filter.query),
            forall|k: int| 0 <= k < shown@.len() ==> shown@[k] < state.queue.tracks@.len(),
            rows@.len() == d,
            forall|j: int|
                0 <= j < d ==> track_row_ok(
                    #[trigger] rows@[j],
                    state@.queue.tracks[shown@[j] as int],
                    j == state@.queue.selected,
                    state@.queue.playing == Some(shown@[j]),
                ),
    {
        let at = shown[d];
        let playing = match state.queue.playing {
            Some(p) => p == at,
            None => false,
        };
        rows.push(track_row(&state.queue.tracks[at], d == state.queue.selected, playing));
    }
    ListContent::Rows(rows, state.queue.scroll)
}

/// The header of the Library panel: a way back to the playlists when a
/// playlist is open.
pub fn library_header(state: &AppState) -> (r: Option<String>)
    ensures
        match state@.library.sub_view {
            SubViewView::Tracks(name) => r matches Some(h) && h@ == "\u{2190} "@ + name,
            SubViewView::Playlists => r is None,
        },
{
    match &state.library.sub_view {
        LibrarySubView::Tracks(name) => {
            let mut h = String::new();
            push_str(&mut h, "\u{2190} ");
            push_str(&mut h, name.as_str());
            Some(h)
        },
        LibrarySubView::Playlists => None,
    }
}

/// The Library panel. The playlist list: "Loading playlists…" while none
/// are loaded, "No matches" when the filter hides all, else the matching
/// names with the cursor marked. An open playlist: "Loading…" while its
/// tracks load, "No matches" when the filter hides all, else the matching
/// tracks with the cursor marked.
pub fn library_listing(state: &AppState) -> (r: ListContent)
    ensures
        ({
            let s = state@;
            match s.library.sub_view {
                SubViewView::Playlists => {
                    let shown = filter_strings_spec(s.library.playlists, s.filter.query);
                    if s.library.playlists.len() == 0 {
                        r matches ListContent::Message(m) && m@ == "Loading playlists\u{2026}"@
                    } else if shown.len() == 0 && filter_shown(s) {
                        r matches ListContent::Message(m) && m@ == "No matches"@
                    } else {
                        r matches ListContent::Rows(rows, offset) && offset == s.library.scroll
                            && rows@.len() == shown.len() && forall|d: int|
                            0 <= d < shown.len() ==> name_row_ok(
                                #[trigger] rows@[d],
                                s.library.playlists[shown[d] as int]@,
                                d == s.library.selected,
                            )
                    }
                },
                SubViewView::Tracks(_) => {
                    let shown = filter_tracks_spec(s.library.tracks, s.filter.query);
                    if s.library.tracks.len() == 0 {
                        r matches ListContent::Message(m) && m@ == "Loading\u{2026}"@
                    } else if shown.len() == 0 && filter_shown(s) {
                        r matches ListContent::Message(m) && m@ == "No matches"@
                    } else {
                        r matches ListContent::Rows(rows, offset) && offset == s.library.tracks_scroll
                            && rows@.len() == shown.len() && forall|d: int|
                            0 <= d < shown.len() ==> track_row_ok(
                                #[trigger] rows@[d],
                                s.library.tracks[shown[d] as int],
                                d == s.library.tracks_selected,
                                false,
                            )
                    }
                },
            }
        }),
{
    match &state.library.sub_view {
        LibrarySubView::Playlists => {
            if state.library.playlists.len() == 0 {
                return message("Loading playlists\u{2026}");
            }
            let shown = filter_string_indices(
                state.library.playlists.as_slice(),
                state.filter.query.as_str(),
            );
            if shown.len() == 0 && has_filter_bar(state) {
                return message("No matches");
            }
            proof {
                crate::nav::lemma_filter_strings_exact(state.library.playlists@, state.filter.query@);
            }
            let mut rows: Vec<ListRow> = Vec::new();
            for d in 0..shown.len()
                invariant
                    shown@ == filter_strings_spec(state@.library.playlists, state@.filter.query),
                    forall|k: int| 0 <= k < shown@.len() ==> shown@[k] < state.library.playlists@.len(),
                    rows@.len() == d,
                    forall|j: int|
                        0 <= j < d ==> name_row_ok(
                            #[trigger] rows@[j],
                            state@.library.playlists[shown@[j] as int]@,
                            j == state@.library.selected,
                        ),
            {
                let at = shown[d];
                rows.push(name_row(state.library.playlists[at].as_str(), d == state.library.selected));
            }
            ListContent::Rows(rows, state.library.scroll)
        },
        LibrarySubView::Tracks(_) => {
            if state.library.tracks.len() == 0 {
                return message("Loading\u{2026}");
            }
            let shown = filter_track_indices(state.library.tracks.as_slice(), state.filter.query.as_str());
            if shown.len() == 0 && has_filter_bar(state) {
                return message("No matches");
            }
            proof {
                crate::nav::lemma_filter_tracks_exact(state.library.tracks@, state.filter.query@);
            }
            let mut rows: Vec<ListRow> = Vec::new();
            for d in 0..shown.len()
                invariant
                    shown@ == filter_tracks_spec(state@.library.tracks, state@.filter.query),
                    forall|k: int| 0 <= k < shown@.len() ==> shown@[k] < state.library.tracks@.len(),
                    rows@.len() == d,
                    forall|j: int|
                        0 <= j < d ==> track_row_ok(
                            #[trigger] rows@[j],
                            state@.library.tracks[shown@[j] as int],
                            j == state@.library.tracks_selected,
                            false,
                        ),
            {
                let at = shown[d];
                rows.push(track_row(&state.library.tracks[at], d == state.library.tracks_selected, false));
            }
            ListContent::Rows(rows, state.library.tracks_scroll)
        },
    }
}

/// A search hit's row: the cursor is shown only while browsing; while
/// typing every hit is set back.
pub open spec fn search_row_ok(row: ListRow, hit: SearchResult, i: int, selected: usize, editing: bool) -> bool {
    let at_cursor = !editing && i == selected;
    &&& row.text@ == entry_text(marker(at_cursor, false), hit.name@, hit.artist@)
    &&& row.detail@.len() == 0
    &&& row.emphasis == if editing {
        Emphasis::Dimmed
    } else if i == selected {
        Emphasis::Selected
    } else {
        Emphasis::Normal
    }
}

/// The Search panel's list: nothing before a query, "No results" for a
/// query without hits, otherwise the hits.
pub fn search_listing(state: &AppState) -> (r: Option<ListContent>)
    ensures
        ({
            let s = state@;
            if s.search.results.len() == 0 {
                if s.search.query.len() > 0 {
                    r matches Some(ListContent::Message(m)) && m@ == "No results"@
                } else {
                    r is None
                }
            } else {
                r matches Some(ListContent::Rows(rows, offset)) && offset == s.search.scroll
                    && rows@.len() == s.search.results.len() && forall|i: int|
                    0 <= i < rows@.len() ==> search_row_ok(
                        #[trigger] rows@[i],
                        s.search.results[i],
                        i,
                        s.search.selected,
                        s.search.editing,
                    )
            }
        }),
{
    let n = state.search.results.len();
    if n == 0 {
        if !state.search.query.as_str().is_empty() {
            return Some(message("No results"));
        }
        return None;
    }
    let editing = state.search.editing;
    let sel = state.search.selected;
    let mut rows: Vec<ListRow> = Vec::new();
    for i in 0..n
        invariant
            n == state.search.results@.len(),
            editing == state@.search.editing,
            sel == state@.search.selected,
            rows@.len() == i,
            forall|j: int|
                0 <= j < i ==> search_row_ok(#[trigger] rows@[j], state@.search.results[j], j, sel, editing),
    {
        let hit = &state.search.results[i];
        let at_cursor = !editing && i == sel;
        let m = marker_text(at_cursor, false);
        rows.push(
            ListRow {
                text: entry(m, hit.name.as_str(), hit.artist.as_str()),
                detail: String::new(),
                emphasis: if editing {
                    Emphasis::Dimmed
                } else if i == sel {
                    Emphasis::Selected
                } else {
                    Emphasis::Normal
                },
            },
        );
    }
    Some(ListContent::Rows(rows, state.search.scroll))
}

/// The lyric line being sung: for synced lyrics, the last line whose time
/// has come at the displayed position.
pub open spec fn sung_line(s: AppView, pos: Option<u64>) -> Option<int> {
    if s.lyrics.synced {
        match pos {
            Some(p) => current_line(s.lyrics.lines, p),
            None => None,
        }
    } else {
        None
    }
}

/// A lyric row: the line being sung stands out, the other synced lines
/// are set back while one is being sung.
pub open spec fn lyric_row_ok(row: ListRow, line: LyricsLine, i: int, sung: Option<int>, synced: bool) -> bool {
    &&& row.text@ == line.text@
    &&& row.detail@.len() == 0
    &&& row.emphasis == if sung == Some(i) {
        Emphasis::Selected
    } else if synced && sung is Some {
        Emphasis::Dimmed
    } else {
        Emphasis::Normal
    }
}

/// The Lyrics panel: a message without lyrics (whether they are missing or
/// switched off), otherwise every line from the scroll position on.
pub fn lyrics_listing(state: &AppState, position: Option<u64>) -> (r: ListContent)
    ensures
        ({
            let s = state@;
            if s.lyrics.lines.len() == 0 {
                r matches ListContent::Message(m) && m@ == if s.lyrics_enabled {
                    "No lyrics available"@
                } else {
                    "Lyrics disabled in config"@
                }
            } else {
                r matches ListContent::Rows(rows, offset) && offset == s.lyrics.scroll && rows@.len()
                    == s.lyrics.lines.len() && forall|i: int|
                    0 <= i < rows@.len() ==> lyric_row_ok(
                        #[trigger] rows@[i],
                        s.lyrics.lines[i],
                        i,
                        sung_line(s, position),
                        s.lyrics.synced,
                    )
            }
        }),
{
    let n = state.lyrics.lines.len();
    if n == 0 {
        if state.lyrics_enabled {
            return message("No lyrics available");
        } else {
            return message("Lyrics disabled in config");
        }
    }
    let sung: Option<usize> = if state.lyrics.synced {
        match position {
            Some(p) => find_sung(state.lyrics.lines.as_slice(), p),
            None => None,
        }
    } else {
        None
    };
    let synced = state.lyrics.synced;
    let mut rows: Vec<ListRow> = Vec::new();
    for i in 0..n
        invariant
            n == state.lyrics.lines@.len(),
            synced == state@.lyrics.synced,
            match sung {
                Some(k) => sung_line(state@, position) == Some(k as int),
                None => sung_line(state@, position) is None,
            },
            rows@.len() == i,
            forall|j: int|
                0 <= j < i ==> lyric_row_ok(
                    #[trigger] rows@[j],
                    state@.lyrics.lines[j],
                    j,
                    sung_line(state@, position),
                    synced,
                ),
    {
        let is_sung = match sung {
            Some(k) => k == i,
            None => false,
        };
        rows.push(
            ListRow {
                text: state.lyrics.lines[i].text.clone(),
                detail: String::new(),
                emphasis: if is_sung {
                    Emphasis::Selected
                } else if synced && sung.is_some() {
                    Emphasis::Dimmed
                } else {
                    Emphasis::Normal
                },
            },
        );
    }
    ListContent::Rows(rows, state.lyrics.scroll)
}

fn find_sung(lines: &[LyricsLine], pos: u64) -> (r: Option<usize>)
    ensures
        match r {
            Some(k) => current_line(lines@, pos) == Some(k as int),
            None => current_line(lines@, pos) is None,
        },
{
    let mut k = lines.len();
    assert(lines@.take(k as int) =~= lines@);
    while k > 0
        invariant
            k <= lines@.len(),
            current_line(lines@, pos) == current_line(lines@.take(k as int), pos),
        decreases k,
    {
        let ghost t = lines@.take(k as int);
        assert(t.drop_last() =~= lines@.take(k - 1));
        assert(t.last() == lines@[k - 1]);
        let hit = match lines[k - 1].time_ms {
            Some(t) => t <= pos,
            None => false,
        };
        if hit {
            return Some(k - 1);
        }
        k = k - 1;
    }
    None
}

/// A theme picker row: marker, name, and a check mark at the active theme.
pub open spec fn theme_row_ok(row: ListRow, name: Seq<char>, selected: bool, active: bool) -> bool {
    &&& row.text@ == marker(selected, false) + name + if active {
        " \u{2713}"@
    } else {
        ""@
    }
    &&& row.detail@.len() == 0
    &&& row.emphasis == if selected {
        Emphasis::Selected
    } else {
        Emphasis::Normal
    }
}

/// The theme picker: every theme, the cursor marked, the active theme
/// checked.
pub fn theme_picker_listing(state: &AppState) -> (r: ListContent)
    ensures
        r matches ListContent::Rows(rows, offset) && offset == state@.theme.scroll && rows@.len()
            == state@.theme.all.len() && forall|i: int|
            0 <= i < rows@.len() ==> theme_row_ok(
                #[trigger] rows@[i],
                state@.theme.all[i].0@,
                i == state@.theme.selected,
                state@.theme.all[i].0@ == state@.theme.name,
            ),
{
    let n = state.theme.all.len();
    let mut rows: Vec<ListRow> = Vec::new();
    for i in 0..n
        invariant
            n == state.theme.all@.len(),
            rows@.len() == i,
            forall|j: int|
                0 <= j < i ==> theme_row_ok(
                    #[trigger] rows@[j],
                    state@.theme.all[j].0@,
                    j == state@.theme.selected,
                    state@.theme.all[j].0@ == state@.theme.name,
                ),
    {
        let name = state.theme.all[i].0.as_str();
        let selected = i == state.theme.selected;
        let mut text = String::new();
        push_str(&mut text, marker_text(selected, false));
        push_str(&mut text, name);
        if str_eq(name, state.theme.name.as_str()) {
            push_str(&mut text, " \u{2713}");
        } else {
            push_str(&mut text, "");
        }
        rows.push(
            ListRow {
                text,
                detail: String::new(),
                emphasis: if selected {
                    Emphasis::Selected
                } else {
                    Emphasis::Normal
                },
            },
        );
    }
    ListContent::Rows(rows, state.theme.scroll)
}

/// The "add to playlist" picker: "No playlists" without playlists,
/// otherwise every playlist with the cursor marked.
pub fn playlist_picker_listing(state: &AppState) -> (r: ListContent)
    ensures
        if state@.library.playlists.len() == 0 {
            r matches ListContent::Message(m) && m@ == "No playlists"@
        } else {
            r matches ListContent::Rows(rows, offset) && offset == state@.overlays.playlist_picker_scroll
                && rows@.len() == state@.library.playlists.len() && forall|i: int|
                0 <= i < rows@.len() ==> name_row_ok(
                    #[trigger] rows@[i],
                    state@.library.playlists[i]@,
                    i == state@.overlays.playlist_picker_selected,
                )
        },
{
    let n = state.library.playlists.len();
    if n == 0 {
        return message("No playlists");
    }
    let mut rows: Vec<ListRow> = Vec::new();
    for i in 0..n
        invariant
            n == state.library.playlists@.len(),
            rows@.len() == i,
            forall|j: int|
                0 <= j < i ==> name_row_ok(
                    #[trigger] rows@[j],
                    state@.library.playlists[j]@,
                    j == state@.overlays.playlist_picker_selected,
                ),
    {
        rows.push(
            name_row(state.library.playlists[i].as_str(), i == state.overlays.playlist_picker_selected),
        );
    }
    ListContent::Rows(rows, state.overlays.playlist_picker_scroll)
}

/// The key hint at the bottom: how to leave the search field while typing
/// a query, otherwise help and quit.
pub fn help_hint(state: &AppState) -> (r: &'static str)
    ensures
        r@ == if state@.active_tab == Tab::Search && state@.search.editing {
            "Enter browse \u{b7} Esc stop editing"@
        } else {
            "? Help \u{b7} q Quit"@
        },
{
    if state.active_tab == Tab::Search && state.search.editing {
        "Enter browse \u{b7} Esc stop editing"
    } else {
        "? Help \u{b7} q Quit"
    }
}

} // verus!
