//! Layout decisions of the terminal view that do not depend on the
//! drawing library: panel sizes, the interpolated playback position, lyric
//! auto-scrolling and time labels.

use vstd::prelude::*;
use crate::backend::{repeat_label, LyricsLine, PlayerState};
use crate::state::{AppState, AppView, LyricsView};
use crate::text::{decimal, i32_to_string, push_char, push_chars, push_str, signed_decimal, u64_to_decimal};

verus! {

broadcast use vstd::string::group_string_axioms;

/// Rows of the player panel: 3 when the player is not running, 10 with a
/// track, 2 without.
pub fn player_height(state: &AppState) -> (r: u16)
    ensures
        r == if !state@.player.music_running {
            3u16
        } else if state@.player.track is Some {
            10u16
        } else {
            2u16
        },
{
    if !state.player.music_running {
        3
    } else if state.player.track.is_some() {
        10
    } else {
        2
    }
}

/// The content box: as wide as the terminal when the width setting is 0,
/// else at most that wide; centered.
pub fn content_box(area_width: u16, ui_width: u16) -> (r: (u16, u16))
    ensures
        r.0 == if ui_width == 0 || area_width <= ui_width {
            area_width
        } else {
            ui_width
        },
        r.1 == (area_width - r.0) / 2,
{
    let box_w = if ui_width == 0 || area_width <= ui_width {
        area_width
    } else {
        ui_width
    };
    (box_w, (area_width - box_w) / 2)
}

/// The displayed position: while playing, the last reported position plus
/// the time since, capped at the track's length.
pub open spec fn effective_position_spec(s: AppView, elapsed_ms: u64) -> Option<u64> {
    match s.player.track {
        None => None,
        Some(t) => if s.player.playback == PlayerState::Playing {
            if t.position_ms + elapsed_ms <= t.duration_ms {
                Some((t.position_ms + elapsed_ms) as u64)
            } else {
                Some(t.duration_ms)
            }
        } else {
            Some(t.position_ms)
        },
    }
}

pub fn effective_track_position(state: &AppState, elapsed_ms: u64) -> (r: Option<u64>)
    ensures
        r == effective_position_spec(state@, elapsed_ms),
{
    match &state.player.track {
        None => None,
        Some(t) => if state.player.playback == PlayerState::Playing {
            if t.position_ms <= t.duration_ms && elapsed_ms <= t.duration_ms - t.position_ms {
                Some(t.position_ms + elapsed_ms)
            } else {
                Some(t.duration_ms)
            }
        } else {
            Some(t.position_ms)
        },
    }
}

/// The last line whose time has come at `pos`.
pub open spec fn current_line(lines: Seq<LyricsLine>, pos: u64) -> Option<int>
    decreases lines.len(),
{
    if lines.len() == 0 {
        None
    } else if lines.last().time_ms matches Some(t) && t <= pos {
        Some(lines.len() - 1)
    } else {
        current_line(lines.drop_last(), pos)
    }
}

/// Rows assumed for the lyrics view when scrolling it.
pub const LYRICS_ROWS: usize = 20;

/// The scroll position that keeps the current line in the middle of the
/// view, without scrolling past the end.
pub open spec fn autoscroll_target(idx: int, len: int) -> usize {
    let target = if idx >= 10 { idx - 10 } else { 0 };
    let max_scroll = if len >= 20 { len - 20 } else { 0 };
    (if target <= max_scroll { target } else { max_scroll }) as usize
}

/// Synced lyrics follow the song unless scrolled by hand: the view is
/// scrolled to the line being sung.
pub open spec fn autoscroll_spec(s: AppView, pos: Option<u64>) -> AppView {
    if !s.lyrics.synced || s.lyrics.manual_scroll {
        s
    } else {
        match pos {
            None => s,
            Some(p) => match current_line(s.lyrics.lines, p) {
                None => s,
                Some(i) => AppView {
                    lyrics: LyricsView { scroll: autoscroll_target(i, s.lyrics.lines.len() as int), ..s.lyrics },
                    ..s
                },
            },
        }
    }
}

pub fn apply_lyrics_autoscroll(state: &mut AppState, effective_position: Option<u64>)
    ensures
        final(state)@ == autoscroll_spec(old(state)@, effective_position),
{
    if !state.lyrics.synced || state.lyrics.manual_scroll {
        return;
    }
    let pos = match effective_position {
        Some(p) => p,
        None => return,
    };
    let n = state.lyrics.lines.len();
    let mut k = n;
    let mut found: Option<usize> = None;
    assert(state.lyrics.lines@.take(n as int) =~= state.lyrics.lines@);
    while k > 0
        invariant_except_break
            k <= n,
            n == state.lyrics.lines@.len(),
            current_line(state.lyrics.lines@, pos) == current_line(state.lyrics.lines@.take(k as int), pos),
            found is None,
        ensures
            match found {
                Some(i) => current_line(state.lyrics.lines@, pos) == Some(i as int) && i < n,
                None => current_line(state.lyrics.lines@, pos) is None,
            },
        decreases k,
    {
        let ghost t = state.lyrics.lines@.take(k as int);
        assert(t.drop_last() =~= state.lyrics.lines@.take(k - 1));
        assert(t.last() == state.lyrics.lines@[k - 1]);
        let hit = match state.lyrics.lines[k - 1].time_ms {
            Some(t) => t <= pos,
            None => false,
        };
        if hit {
            found = Some(k - 1);
            break;
        }
        k = k - 1;
    }
    let idx = match found {
        Some(i) => i,
        None => return,
    };
    let target = if idx >= 10 {
        idx - 10
    } else {
        0
    };
    let max_scroll = if n >= LYRICS_ROWS {
        n - LYRICS_ROWS
    } else {
        0
    };
    state.lyrics.scroll = if target <= max_scroll {
        target
    } else {
        max_scroll
    };
}

/// `m:ss` for a whole number of seconds.
pub open spec fn time_label(total: u64) -> Seq<char> {
    let s = total % 60;
    decimal((total / 60) as nat) + seq![':'] + seq![
        crate::text::digit_char((s / 10) as nat),
        crate::text::digit_char((s % 10) as nat),
    ]
}

/// Formats whole seconds as minutes and two-digit seconds.
pub fn format_time(total_secs: u64) -> (r: String)
    ensures
        r@ == time_label(total_secs),
{
    let m = total_secs / 60;
    let s = total_secs % 60;
    let digits = u64_to_decimal(m);
    let mut out = String::new();
    push_chars(&mut out, digits.as_slice());
    push_char(&mut out, ':');
    push_char(&mut out, crate::text::char_from_ascii((48 + s / 10) as u32));
    push_char(&mut out, crate::text::char_from_ascii((48 + s % 10) as u32));
    assert(out@ =~= time_label(total_secs));
    out
}

/// Auto-scrolling keeps the line being sung inside the lyrics view: the
/// view of 20 rows starting at the new scroll position holds it.
pub proof fn lemma_autoscroll_visible(s: AppView, p: u64)
    requires
        s.lyrics.synced,
        !s.lyrics.manual_scroll,
        current_line(s.lyrics.lines, p) is Some,
        s.lyrics.lines.len() <= usize::MAX,
    ensures
        ({
            let i = current_line(s.lyrics.lines, p).unwrap();
            let scroll = autoscroll_spec(s, Some(p)).lyrics.scroll;
            scroll <= i < scroll + LYRICS_ROWS
        }),
{
    lemma_current_line_bound(s.lyrics.lines, p);
}

proof fn lemma_current_line_bound(lines: Seq<LyricsLine>, p: u64)
    ensures
        current_line(lines, p) matches Some(i) ==> 0 <= i < lines.len(),
    decreases lines.len(),
{
    if lines.len() > 0 {
        lemma_current_line_bound(lines.drop_last(), p);
    }
}

/// The texts of the player panel while a track is shown.
pub struct PlayerText {
    /// The track's name, with a heart when it is a favorite.
    pub title: String,
    /// `artist — album`.
    pub subtitle: String,
    /// The position shown, `m:ss` and a space.
    pub elapsed: String,
    /// A space and the length, `m:ss`.
    pub total: String,
    /// Shuffle, repeat and volume.
    pub controls: String,
}

/// What the player panel shows.
pub enum PlayerPanel {
    NotRunning,
    NoTrack,
    Playing(PlayerText),
}

/// The player panel's texts for the displayed position (the reported one
/// when none is given).
pub open spec fn player_text_ok(r: PlayerText, s: AppView, position: Option<u64>) -> bool {
    let t = s.player.track.unwrap();
    let shown: u64 = match position {
        Some(p) => p,
        None => t.position_ms,
    };
    &&& r.title@ == t.name@ + if s.player.current_track_favorited {
        " \u{2665}"@
    } else {
        ""@
    }
    &&& r.subtitle@ == t.artist@ + " \u{2014} "@ + t.album@
    &&& r.elapsed@ == time_label(shown / 1000) + " "@
    &&& r.total@ == " "@ + time_label(t.duration_ms / 1000)
    &&& r.controls@ == (if s.player.shuffle_enabled {
        "\u{292e} on "@
    } else {
        "\u{292e} off"@
    }) + "  \u{27f3} "@ + repeat_label(s.player.repeat_mode) + "  Vol: "@ + signed_decimal(
        s.player.volume as int,
    ) + "%"@
}

pub fn player_panel(state: &AppState, position: Option<u64>) -> (r: PlayerPanel)
    ensures
        !state@.player.music_running ==> r is NotRunning,
        state@.player.music_running && state@.player.track is None ==> r is NoTrack,
        state@.player.music_running && state@.player.track is Some ==> (r matches PlayerPanel::Playing(
            t,
        ) && player_text_ok(t, state@, position)),
{
    if !state.player.music_running {
        return PlayerPanel::NotRunning;
    }
    let t = match &state.player.track {
        Some(t) => t,
        None => return PlayerPanel::NoTrack,
    };
    let shown = match position {
        Some(p) => p,
        None => t.position_ms,
    };
    let mut title = String::new();
    push_str(&mut title, t.name.as_str());
    if state.player.current_track_favorited {
        push_str(&mut title, " \u{2665}");
    } else {
        push_str(&mut title, "");
    }
    let mut subtitle = String::new();
    push_str(&mut subtitle, t.artist.as_str());
    push_str(&mut subtitle, " \u{2014} ");
    push_str(&mut subtitle, t.album.as_str());
    let mut elapsed = format_time(shown / 1000);
    push_str(&mut elapsed, " ");
    let mut total = String::new();
    push_str(&mut total, " ");
    let tt = format_time(t.duration_ms / 1000);
    push_str(&mut total, tt.as_str());
    let mut controls = String::new();
    if state.player.shuffle_enabled {
        push_str(&mut controls, "\u{292e} on ");
    } else {
        push_str(&mut controls, "\u{292e} off");
    }
    push_str(&mut controls, "  \u{27f3} ");
    push_str(&mut controls, state.player.repeat_mode.label());
    push_str(&mut controls, "  Vol: ");
    let v = i32_to_string(state.player.volume);
    push_str(&mut controls, v.as_str());
    push_str(&mut controls, "%");
    let r = PlayerText { title, subtitle, elapsed, total, controls };
    assert(player_text_ok(r, state@, position));
    PlayerPanel::Playing(r)
}

} // verus!
