//! Keys, list navigation and list filtering.

use vstd::prelude::*;
use crate::backend::PlaylistTrack;
use crate::text::{chars_of, contains_chars, contains_seq, lowercase, to_lowercase};

verus! {

/// Rows a list page holds.
pub const PAGE_SIZE: usize = 20;

/// The keys the application reacts to.
#[derive(Debug, Clone, Copy, PartialEq, Eq, Structural)]
pub enum KeyCode {
    Char(char),
    Up,
    Down,
    Left,
    Right,
    Home,
    End,
    PageUp,
    PageDown,
    Enter,
    Esc,
    Backspace,
    Tab,
    BackTab,
    Other,
}

/// A key press: the key and whether Control was held.
#[derive(Debug, Clone, Copy, PartialEq, Eq, Structural)]
pub struct KeyEvent {
    pub code: KeyCode,
    pub control: bool,
}

pub open spec fn normalize_spec(key: KeyEvent, vim_letters: bool) -> KeyCode {
    if key.control {
        match key.code {
            KeyCode::Char('f') => KeyCode::PageDown,
            KeyCode::Char('b') => KeyCode::PageUp,
            _ => key.code,
        }
    } else if vim_letters {
        match key.code {
            KeyCode::Char('j') => KeyCode::Down,
            KeyCode::Char('k') => KeyCode::Up,
            KeyCode::Char('g') => KeyCode::Home,
            KeyCode::Char('G') => KeyCode::End,
            _ => key.code,
        }
    } else {
        key.code
    }
}

/// Maps vim-style keys to navigation keys: Ctrl+F / Ctrl+B page down / up,
/// and, when `vim_letters` is set, j/k/g/G move down / up / to the top /
/// to the bottom.
pub fn normalize_nav_key(key: &KeyEvent, vim_letters: bool) -> (r: KeyCode)
    ensures
        r == normalize_spec(*key, vim_letters),
{
    if key.control {
        match key.code {
            KeyCode::Char('f') => KeyCode::PageDown,
            KeyCode::Char('b') => KeyCode::PageUp,
            _ => key.code,
        }
    } else if vim_letters {
        match key.code {
            KeyCode::Char('j') => KeyCode::Down,
            KeyCode::Char('k') => KeyCode::Up,
            KeyCode::Char('g') => KeyCode::Home,
            KeyCode::Char('G') => KeyCode::End,
            _ => key.code,
        }
    } else {
        key.code
    }
}

/// The selection a navigation key moves to in a list of `len > 0` rows.
pub open spec fn nav_target(code: KeyCode, selected: int, len: int) -> Option<int> {
    let last = len - 1;
    match code {
        KeyCode::Up => Some(if selected >= 1 { selected - 1 } else { 0 }),
        KeyCode::Down => Some(if selected + 1 <= last { selected + 1 } else { last }),
        KeyCode::Home => Some(0),
        KeyCode::End => Some(last),
        KeyCode::PageUp => Some(if selected >= PAGE_SIZE { selected - PAGE_SIZE } else { 0 }),
        KeyCode::PageDown => Some(
            if selected + PAGE_SIZE <= last {
                selected + PAGE_SIZE
            } else {
                last
            },
        ),
        _ => None,
    }
}

/// The scroll offset that keeps row `sel` in a page starting at `scroll`.
pub open spec fn scroll_for(sel: int, scroll: int) -> int {
    if sel < scroll {
        sel
    } else if sel >= scroll + PAGE_SIZE {
        sel - (PAGE_SIZE - 1)
    } else {
        scroll
    }
}

pub open spec fn list_nav_spec(code: KeyCode, selected: usize, scroll: usize, len: usize) -> Option<(usize, usize)> {
    if len == 0 {
        None
    } else {
        match nav_target(code, selected as int, len as int) {
            Some(sel) => Some((sel as usize, scroll_for(sel, scroll as int) as usize)),
            None => None,
        }
    }
}

/// Moves a list selection for a navigation key; `None` for an empty list
/// or a key that does not navigate. The returned selection is a row of the
/// list and lies in the page that starts at the returned scroll offset.
pub fn list_nav(code: KeyCode, selected: usize, scroll: usize, len: usize) -> (r: Option<(usize, usize)>)
    ensures
        r == list_nav_spec(code, selected, scroll, len),
        r matches Some((sel, scr)) ==> (selected < len ==> sel < len) && scr <= sel && sel < scr
            + PAGE_SIZE,
{
    if len == 0 {
        return None;
    }
    let last = len - 1;
    let visible = PAGE_SIZE;
    let new_sel = match code {
        KeyCode::Up => {
            if selected >= 1 {
                selected - 1
            } else {
                0
            }
        },
        KeyCode::Down => {
            if selected < last {
                selected + 1
            } else {
                last
            }
        },
        KeyCode::Home => 0,
        KeyCode::End => last,
        KeyCode::PageUp => {
            if selected >= visible {
                selected - visible
            } else {
                0
            }
        },
        KeyCode::PageDown => {
            if selected < last && last - selected >= visible {
                selected + visible
            } else {
                last
            }
        },
        _ => {
            return None;
        },
    };
    let new_scroll = if new_sel < scroll {
        new_sel
    } else if new_sel - scroll >= visible {
        new_sel - (visible - 1)
    } else {
        scroll
    };
    assert(new_scroll <= new_sel && new_sel < new_scroll + PAGE_SIZE);
    Some((new_sel, new_scroll))
}

/// Indices `0..n` that satisfy `pred`, in increasing order.
pub open spec fn matching_indices(n: nat, pred: spec_fn(int) -> bool) -> Seq<usize>
    decreases n,
{
    if n == 0 {
        Seq::empty()
    } else {
        let prev = matching_indices((n - 1) as nat, pred);
        if pred(n - 1) {
            prev.push((n - 1) as usize)
        } else {
            prev
        }
    }
}

/// Every index in `matching_indices` is below `n`, satisfies the predicate,
/// and the indices strictly increase.
pub proof fn lemma_matching_indices(n: nat, pred: spec_fn(int) -> bool)
    requires
        n <= usize::MAX + 1,
    ensures
        forall|i: int|
            0 <= i < matching_indices(n, pred).len() ==> (#[trigger] matching_indices(n, pred)[i]
                as int) < n && pred(matching_indices(n, pred)[i] as int),
        forall|i: int, j: int|
            0 <= i < j < matching_indices(n, pred).len() ==> matching_indices(n, pred)[i]
                < matching_indices(n, pred)[j],
        forall|k: int| 0 <= k < n && #[trigger] pred(k) ==> matching_indices(n, pred).contains(k as usize),
    decreases n,
{
    if n > 0 {
        lemma_matching_indices((n - 1) as nat, pred);
        let prev = matching_indices((n - 1) as nat, pred);
        if pred(n - 1) {
            assert(matching_indices(n, pred)[prev.len() as int] == (n - 1) as usize);
        }
        assert forall|k: int| 0 <= k < n && #[trigger] pred(k) implies matching_indices(n, pred).contains(
            k as usize,
        ) by {
            if k < n - 1 {
                let w = choose|x: int| 0 <= x < prev.len() && prev[x] == k as usize;
                assert(matching_indices(n, pred)[w] == k as usize);
            } else {
                assert(matching_indices(n, pred)[prev.len() as int] == k as usize);
            }
        }
    }
}

/// A playlist entry matches a lowercased filter when its lowercased name
/// or artist contains it.
pub open spec fn track_matches(t: PlaylistTrack, q: Seq<char>) -> bool {
    contains_seq(lowercase(t.name@), q) || contains_seq(lowercase(t.artist@), q)
}

pub open spec fn filter_tracks_spec(tracks: Seq<PlaylistTrack>, query: Seq<char>) -> Seq<usize> {
    if query.len() == 0 {
        matching_indices(tracks.len(), |i: int| true)
    } else {
        matching_indices(tracks.len(), |i: int| track_matches(tracks[i], lowercase(query)))
    }
}

pub open spec fn filter_strings_spec(items: Seq<String>, query: Seq<char>) -> Seq<usize> {
    if query.len() == 0 {
        matching_indices(items.len(), |i: int| true)
    } else {
        matching_indices(
            items.len(),
            |i: int| contains_seq(lowercase(items[i]@), lowercase(query)),
        )
    }
}

proof fn lemma_matching_step(n: nat, pred: spec_fn(int) -> bool)
    requires
        n > 0,
    ensures
        matching_indices(n, pred) == (if pred(n - 1) {
            matching_indices((n - 1) as nat, pred).push((n - 1) as usize)
        } else {
            matching_indices((n - 1) as nat, pred)
        }),
{
}

/// Indices of the playlist entries whose name or artist contains the filter
/// text, ignoring case; all indices for an empty filter.
pub fn filter_track_indices(tracks: &[PlaylistTrack], query: &str) -> (r: Vec<usize>)
    ensures
        r@ == filter_tracks_spec(tracks@, query@),
{
    let ghost pred: spec_fn(int) -> bool = if query@.len() == 0 {
        |i: int| true
    } else {
        |i: int| track_matches(tracks@[i], lowercase(query@))
    };
    let empty = query.is_empty();
    let q = chars_of(to_lowercase(query).as_str());
    let mut r: Vec<usize> = Vec::new();
    for i in 0..tracks.len()
        invariant
            empty == (query@.len() == 0),
            q@ == lowercase(query@),
            pred == (if query@.len() == 0 {
                |i: int| true
            } else {
                |i: int| track_matches(tracks@[i], lowercase(query@))
            }),
            r@ == matching_indices(i as nat, pred),
    {
        proof {
            lemma_matching_step((i + 1) as nat, pred);
        }
        let keep = if empty {
            true
        } else {
            let t = &tracks[i];
            let name = chars_of(to_lowercase(t.name.as_str()).as_str());
            let artist = chars_of(to_lowercase(t.artist.as_str()).as_str());
            contains_chars(name.as_slice(), q.as_slice()) || contains_chars(
                artist.as_slice(),
                q.as_slice(),
            )
        };
        if keep {
            r.push(i);
        }
    }
    r
}

/// Indices of the strings that contain the filter text, ignoring case; all
/// indices for an empty filter.
pub fn filter_string_indices(items: &[String], query: &str) -> (r: Vec<usize>)
    ensures
        r@ == filter_strings_spec(items@, query@),
{
    let ghost pred: spec_fn(int) -> bool = if query@.len() == 0 {
        |i: int| true
    } else {
        |i: int| contains_seq(lowercase(items@[i]@), lowercase(query@))
    };
    let empty = query.is_empty();
    let q = chars_of(to_lowercase(query).as_str());
    let mut r: Vec<usize> = Vec::new();
    for i in 0..items.len()
        invariant
            empty == (query@.len() == 0),
            q@ == lowercase(query@),
            pred == (if query@.len() == 0 {
                |i: int| true
            } else {
                |i: int| contains_seq(lowercase(items@[i]@), lowercase(query@))
            }),
            r@ == matching_indices(i as nat, pred),
    {
        proof {
            lemma_matching_step((i + 1) as nat, pred);
        }
        let keep = if empty {
            true
        } else {
            let s = chars_of(to_lowercase(items[i].as_str()).as_str());
            contains_chars(s.as_slice(), q.as_slice())
        };
        if keep {
            r.push(i);
        }
    }
    r
}

/// The filtered indices are exactly the matching rows, each once, in order.
pub proof fn lemma_filter_tracks_exact(tracks: Seq<PlaylistTrack>, query: Seq<char>)
    requires
        tracks.len() <= usize::MAX,
    ensures
        forall|i: int|
            0 <= i < filter_tracks_spec(tracks, query).len() ==> (#[trigger] filter_tracks_spec(
                tracks,
                query,
            )[i] as int) < tracks.len(),
        forall|i: int, j: int|
            0 <= i < j < filter_tracks_spec(tracks, query).len() ==> filter_tracks_spec(
                tracks,
                query,
            )[i] < filter_tracks_spec(tracks, query)[j],
        forall|k: int|
            0 <= k < tracks.len() ==> (#[trigger] filter_tracks_spec(tracks, query).contains(
                k as usize,
            ) <==> (query.len() == 0 || track_matches(tracks[k], lowercase(query)))),
{
    let pred: spec_fn(int) -> bool = if query.len() == 0 {
        |i: int| true
    } else {
        |i: int| track_matches(tracks[i], lowercase(query))
    };
    let m = matching_indices(tracks.len(), pred);
    assert(filter_tracks_spec(tracks, query) == m);
    lemma_matching_indices(tracks.len(), pred);
    assert forall|k: int|
        0 <= k < tracks.len() implies (#[trigger] filter_tracks_spec(tracks, query).contains(k as usize) <==> (query.len() == 0
        || track_matches(tracks[k], lowercase(query)))) by {
        assert(pred(k) == (query.len() == 0 || track_matches(tracks[k], lowercase(query))));
        if m.contains(k as usize) {
            let x = choose|x: int| 0 <= x < m.len() && m[x] == k as usize;
            assert(pred(m[x] as int));
        }
        if query.len() == 0 || track_matches(tracks[k], lowercase(query)) {
            assert(pred(k));
        }
    }
}

/// The filtered names are exactly the matching ones, each once, in order.
pub proof fn lemma_filter_strings_exact(items: Seq<String>, query: Seq<char>)
    requires
        items.len() <= usize::MAX,
    ensures
        forall|i: int|
            0 <= i < filter_strings_spec(items, query).len() ==> (#[trigger] filter_strings_spec(
                items,
                query,
            )[i] as int) < items.len(),
        forall|i: int, j: int|
            0 <= i < j < filter_strings_spec(items, query).len() ==> filter_strings_spec(
                items,
                query,
            )[i] < filter_strings_spec(items, query)[j],
        forall|k: int|
            0 <= k < items.len() ==> (#[trigger] filter_strings_spec(items, query).contains(
                k as usize,
            ) <==> (query.len() == 0 || contains_seq(lowercase(items[k]@), lowercase(query)))),
{
    let pred: spec_fn(int) -> bool = if query.len() == 0 {
        |i: int| true
    } else {
        |i: int| contains_seq(lowercase(items[i]@), lowercase(query))
    };
    let m = matching_indices(items.len(), pred);
    assert(filter_strings_spec(items, query) == m);
    lemma_matching_indices(items.len(), pred);
    assert forall|k: int|
        0 <= k < items.len() implies (#[trigger] filter_strings_spec(items, query).contains(k as usize) <==> (query.len() == 0
        || contains_seq(lowercase(items[k]@), lowercase(query)))) by {
        assert(pred(k) == (query.len() == 0 || contains_seq(lowercase(items[k]@), lowercase(query))));
        if m.contains(k as usize) {
            let x = choose|x: int| 0 <= x < m.len() && m[x] == k as usize;
            assert(pred(m[x] as int));
        }
        if query.len() == 0 || contains_seq(lowercase(items[k]@), lowercase(query)) {
            assert(pred(k));
        }
    }
}


/// How each navigation key moves the selection in a non-empty list of
/// `len` rows with row `s` selected: Up one row towards the top (staying
/// on the first), Down one row towards the bottom (staying on the last),
/// PageUp and PageDown a page of `PAGE_SIZE` rows (stopping at the first
/// and last rows), Home to the first row and End to the last. The new row
/// is always in the list and in the page that starts at the new scroll
/// offset; other keys do not navigate.
pub proof fn lemma_list_nav_moves(s: usize, sc: usize, len: usize)
    requires
        0 < len,
        s < len,
    ensures
        list_nav_spec(KeyCode::Up, s, sc, len) matches Some((n, _)) && (s >= 1 ==> n == s - 1) && (s
            == 0 ==> n == 0),
        list_nav_spec(KeyCode::Down, s, sc, len) matches Some((n, _)) && (s + 1 < len ==> n == s + 1)
            && (s + 1 == len ==> n == s),
        list_nav_spec(KeyCode::PageUp, s, sc, len) matches Some((n, _)) && (s >= PAGE_SIZE ==> n == s
            - PAGE_SIZE) && (s < PAGE_SIZE ==> n == 0),
        list_nav_spec(KeyCode::PageDown, s, sc, len) matches Some((n, _)) && (s + PAGE_SIZE < len
            ==> n == s + PAGE_SIZE) && (s + PAGE_SIZE >= len ==> n == len - 1),
        list_nav_spec(KeyCode::Home, s, sc, len) matches Some((n, _)) && n == 0,
        list_nav_spec(KeyCode::End, s, sc, len) matches Some((n, _)) && n == len - 1,
        forall|code: KeyCode| #[trigger]
            list_nav_spec(code, s, sc, len) matches Some((n, m)) ==> n < len && m <= n && n < m
                + PAGE_SIZE,
        list_nav_spec(KeyCode::Enter, s, sc, len) is None,
        list_nav_spec(KeyCode::Up, s, sc, 0) is None,
{
}

/// Up and Down undo each other away from the ends of the list: one row
/// down then one row up comes back to the same row, and so does one row
/// up then one row down.
pub proof fn lemma_list_nav_up_down(s: usize, sc: usize, len: usize)
    requires
        s < len,
    ensures
        s + 1 < len ==> (list_nav_spec(KeyCode::Down, s, sc, len) matches Some((d, dsc)) && list_nav_spec(
            KeyCode::Up,
            d,
            dsc,
            len,
        ) matches Some((u, _)) && u == s),
        s >= 1 ==> (list_nav_spec(KeyCode::Up, s, sc, len) matches Some((u, usc)) && list_nav_spec(
            KeyCode::Down,
            u,
            usc,
            len,
        ) matches Some((d, _)) && d == s),
{
}
} // verus!
