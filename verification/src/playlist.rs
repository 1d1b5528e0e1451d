//! Queue-state persistence format, playlist-aware next/previous for the
//! command line, and matching the playing track to a queue entry.

use vstd::prelude::*;
use crate::backend::PlaylistTrack;
use crate::text::{
    all_digits, chars_of, decimal, digit_char, digits_value, is_digit, lines_of, lines_spec,
    parse_usize, parse_usize_spec, push_chars, push_str, split_on, str_eq, string_from_chars,
    strip_cr, u64_to_decimal,
};

verus! {

broadcast use vstd::string::group_string_axioms;

/// The persisted queue state: playlist name, selected index and track
/// count, one per line.
pub open spec fn queue_state_text_spec(name: Seq<char>, selected: usize, total: usize) -> Seq<char> {
    name + seq!['\n'] + decimal(selected as nat) + seq!['\n'] + decimal(total as nat)
}

/// What a queue-state file holds, read back: its first three lines, the
/// second and third parsed as numbers; `None` when a line is missing, a
/// number does not parse, or the name is empty.
pub open spec fn parse_queue_state_spec(content: Seq<char>) -> Option<(Seq<char>, usize, usize)> {
    let ls = lines_spec(content);
    if ls.len() >= 3 && parse_usize_spec(ls[1]) is Some && parse_usize_spec(ls[2]) is Some
        && ls[0].len() > 0 {
        Some((ls[0], parse_usize_spec(ls[1])->Some_0, parse_usize_spec(ls[2])->Some_0))
    } else {
        None
    }
}

/// The text to persist for a queue position.
pub fn queue_state_text(playlist_name: &str, selected: usize, total: usize) -> (r: String)
    ensures
        r@ == queue_state_text_spec(playlist_name@, selected, total),
{
    let mut s = String::new();
    push_str(&mut s, playlist_name);
    crate::text::push_char(&mut s, '\n');
    let a = u64_to_decimal(selected as u64);
    push_chars(&mut s, a.as_slice());
    crate::text::push_char(&mut s, '\n');
    let b = u64_to_decimal(total as u64);
    push_chars(&mut s, b.as_slice());
    s
}

/// Reads a persisted queue position: (playlist name, selected, total).
pub fn load_queue_state(content: &str) -> (r: Option<(String, usize, usize)>)
    ensures
        match parse_queue_state_spec(content@) {
            Some((n, s, t)) => r matches Some(x) && x.0@ == n && x.1 == s && x.2 == t,
            None => r is None,
        },
{
    let chars = chars_of(content);
    let ls = lines_of(chars.as_slice());
    if ls.len() < 3 {
        return None;
    }
    let selected = match parse_usize(ls[1].as_slice()) {
        Some(v) => v,
        None => {
            return None;
        },
    };
    let total = match parse_usize(ls[2].as_slice()) {
        Some(v) => v,
        None => {
            return None;
        },
    };
    if ls[0].len() == 0 {
        return None;
    }
    Some((string_from_chars(ls[0].as_slice()), selected, total))
}

// ---------------------------------------------------------------------------
// Round trip of the persisted format
// ---------------------------------------------------------------------------

proof fn lemma_decimal_digits(n: nat)
    ensures
        decimal(n).len() > 0,
        all_digits(decimal(n)),
        digits_value(decimal(n)) == n,
    decreases n,
{
    assert(digit_char(n % 10) as u32 == 48 + n % 10);
    assert(crate::text::digit_value(digit_char(n % 10)) == n % 10);
    if n < 10 {
        let d = decimal(n);
        assert(d.drop_last() =~= Seq::<char>::empty());
        assert(is_digit(d[0]));
        assert(d.last() == digit_char(n % 10));
        assert(digits_value(d) == digits_value(d.drop_last()) * 10 + crate::text::digit_value(d.last()));
    } else {
        lemma_decimal_digits(n / 10);
        let d = decimal(n);
        assert(d.drop_last() == decimal(n / 10));
        assert(d.last() == digit_char(n % 10));
        assert(digits_value(d) == digits_value(d.drop_last()) * 10 + crate::text::digit_value(d.last()));
        assert(n / 10 * 10 + n % 10 == n);
        assert forall|i: int| 0 <= i < d.len() implies is_digit(#[trigger] d[i]) by {
            if i < d.len() - 1 {
                assert(d[i] == decimal(n / 10)[i]);
            }
        }
    }
}

proof fn lemma_split_no_sep(s: Seq<char>, sep: char)
    requires
        !s.contains(sep),
    ensures
        split_on(s, sep) == seq![s],
    decreases s.len(),
{
    if s.len() > 0 {
        assert(!s.drop_last().contains(sep)) by {
            if s.drop_last().contains(sep) {
                let i = choose|i: int| 0 <= i < s.drop_last().len() && s.drop_last()[i] == sep;
                assert(s[i] == sep);
            }
        }
        lemma_split_no_sep(s.drop_last(), sep);
        assert(s.last() != sep) by {
            assert(s[s.len() - 1] == s.last());
        }
        assert(s.drop_last().push(s.last()) == s);
    } else {
        assert(s == Seq::<char>::empty());
    }
}

/// Splitting text that continues with a separator-free tail extends the
/// last piece.
proof fn lemma_split_append(x: Seq<char>, y: Seq<char>, sep: char)
    requires
        !y.contains(sep),
    ensures
        split_on(x + y, sep).len() == split_on(x, sep).len(),
        split_on(x + y, sep).drop_last() == split_on(x, sep).drop_last(),
        split_on(x + y, sep).last() == split_on(x, sep).last() + y,
    decreases y.len(),
{
    if y.len() == 0 {
        assert(x + y == x);
        assert(split_on(x, sep).last() + y == split_on(x, sep).last());
    } else {
        let y0 = y.drop_last();
        assert(!y0.contains(sep)) by {
            if y0.contains(sep) {
                let i = choose|i: int| 0 <= i < y0.len() && y0[i] == sep;
                assert(y[i] == sep);
            }
        }
        lemma_split_append(x, y0, sep);
        let xy = x + y;
        assert(xy.drop_last() == x + y0);
        assert(xy.last() == y.last());
        assert(y.last() != sep) by {
            assert(y[y.len() - 1] == y.last());
        }
        lemma_split_len(x + y0, sep);
        assert(split_on(x, sep).last() + y0 + seq![y.last()] == split_on(x, sep).last() + y);
    }
}

proof fn lemma_split_len(s: Seq<char>, sep: char)
    ensures
        split_on(s, sep).len() >= 1,
    decreases s.len(),
{
    if s.len() > 0 {
        lemma_split_len(s.drop_last(), sep);
    }
}

proof fn lemma_split_sep(x: Seq<char>, sep: char)
    ensures
        split_on(x.push(sep), sep) == split_on(x, sep).push(Seq::<char>::empty()),
{
    assert(x.push(sep).drop_last() == x);
}

proof fn lemma_no_newline_in_decimal(n: nat)
    ensures
        !decimal(n).contains('\n'),
        !decimal(n).contains('\r'),
        decimal(n).len() > 0,
{
    lemma_decimal_digits(n);
    let d = decimal(n);
    if d.contains('\n') {
        let i = choose|i: int| 0 <= i < d.len() && d[i] == '\n';
        assert(is_digit(d[i]));
    }
    if d.contains('\r') {
        let i = choose|i: int| 0 <= i < d.len() && d[i] == '\r';
        assert(is_digit(d[i]));
    }
}

proof fn lemma_parse_decimal(n: usize)
    ensures
        parse_usize_spec(decimal(n as nat)) == Some(n),
{
    lemma_decimal_digits(n as nat);
    let d = decimal(n as nat);
    if d[0] == '+' {
        assert(is_digit(d[0]));
    }
}

/// Reading back a saved queue position gives the saved values, for a
/// playlist name without line breaks that does not end in a carriage
/// return; a position saved with an empty name reads back as nothing.
pub proof fn lemma_queue_state_roundtrip(name: Seq<char>, selected: usize, total: usize)
    requires
        !name.contains('\n'),
        name.len() > 0 ==> name.last() != '\r',
    ensures
        parse_queue_state_spec(queue_state_text_spec(name, selected, total)) == if name.len() > 0 {
            Some((name, selected, total))
        } else {
            None::<(Seq<char>, usize, usize)>
        },
{
    let d1 = decimal(selected as nat);
    let d2 = decimal(total as nat);
    lemma_no_newline_in_decimal(selected as nat);
    lemma_no_newline_in_decimal(total as nat);
    let a = name.push('\n');
    let b = (a + d1).push('\n');
    let text = b + d2;
    assert(queue_state_text_spec(name, selected, total) == text);
    lemma_split_no_sep(name, '\n');
    lemma_split_sep(name, '\n');
    assert(split_on(a, '\n') == seq![name, Seq::<char>::empty()]);
    lemma_split_append(a, d1, '\n');
    assert(Seq::<char>::empty() + d1 == d1);
    let s1 = split_on(a + d1, '\n');
    assert(s1.len() == 2);
    assert(s1[0] == s1.drop_last()[0]);
    assert(s1[1] == s1.last());
    assert(s1 =~= seq![name, d1]);
    lemma_split_sep(a + d1, '\n');
    assert(split_on(b, '\n') == seq![name, d1, Seq::<char>::empty()]);
    lemma_split_append(b, d2, '\n');
    assert(Seq::<char>::empty() + d2 == d2);
    let s2 = split_on(text, '\n');
    assert(s2.len() == 3);
    assert(s2[0] == s2.drop_last()[0]);
    assert(s2[1] == s2.drop_last()[1]);
    assert(s2[2] == s2.last());
    assert(s2 =~= seq![name, d1, d2]);
    assert(text.last() == d2.last());
    assert(d2.last() != '\n') by {
        assert(d2[d2.len() - 1] == d2.last());
    }
    assert(d1.last() != '\r') by {
        assert(d1[d1.len() - 1] == d1.last());
    }
    let ls = lines_spec(text);
    assert(ls.len() == 3);
    assert(ls[0] == strip_cr(name));
    assert(strip_cr(name) == name);
    assert(ls[1] == d1);
    assert(ls[2] == d2);
    lemma_parse_decimal(selected);
    lemma_parse_decimal(total);
}

// ---------------------------------------------------------------------------
// Command-line next / previous
// ---------------------------------------------------------------------------

/// A step of the `next` / `prev` commands.
pub enum CliAction {
    /// Play the track at an index of a playlist.
    PlayTrackInPlaylist(String, usize),
    /// Persist the queue position (playlist, selected index, track count).
    SaveQueueState(String, usize, usize),
    /// The player's own next track.
    NextTrack,
    /// The player's own previous track.
    PreviousTrack,
}

pub enum CliActionView {
    PlayTrackInPlaylist(Seq<char>, usize),
    SaveQueueState(Seq<char>, usize, usize),
    NextTrack,
    PreviousTrack,
}

impl View for CliAction {
    type V = CliActionView;

    open spec fn view(&self) -> CliActionView {
        match self {
            CliAction::PlayTrackInPlaylist(p, i) => CliActionView::PlayTrackInPlaylist(p@, *i),
            CliAction::SaveQueueState(p, s, t) => CliActionView::SaveQueueState(p@, *s, *t),
            CliAction::NextTrack => CliActionView::NextTrack,
            CliAction::PreviousTrack => CliActionView::PreviousTrack,
        }
    }
}

pub open spec fn cli_view(v: Seq<CliAction>) -> Seq<CliActionView> {
    v.map_values(|a: CliAction| a@)
}

/// `muse next`: with a saved queue position, the following entry of that
/// playlist (nothing at its end); without one, the player's next track.
pub open spec fn cli_next_spec(saved: Option<Seq<char>>) -> Seq<CliActionView> {
    match saved {
        Some(text) => match parse_queue_state_spec(text) {
            Some((p, sel, total)) => if sel + 1 < total {
                seq![
                    CliActionView::PlayTrackInPlaylist(p, (sel + 1) as usize),
                    CliActionView::SaveQueueState(p, (sel + 1) as usize, total),
                ]
            } else {
                seq![]
            },
            None => seq![CliActionView::NextTrack],
        },
        None => seq![CliActionView::NextTrack],
    }
}

/// `muse prev`: with a saved queue position, the preceding entry of that
/// playlist (nothing at its start); without one, the player's previous
/// track.
pub open spec fn cli_prev_spec(saved: Option<Seq<char>>) -> Seq<CliActionView> {
    match saved {
        Some(text) => match parse_queue_state_spec(text) {
            Some((p, sel, total)) => if sel > 0 {
                seq![
                    CliActionView::PlayTrackInPlaylist(p, (sel - 1) as usize),
                    CliActionView::SaveQueueState(p, (sel - 1) as usize, total),
                ]
            } else {
                seq![]
            },
            None => seq![CliActionView::PreviousTrack],
        },
        None => seq![CliActionView::PreviousTrack],
    }
}

/// Steps of `muse next`, given the saved queue-state text (`None` when it
/// could not be read).
pub fn cli_next(saved: Option<&str>) -> (r: Vec<CliAction>)
    ensures
        cli_view(r@) == cli_next_spec(
            match saved {
                Some(t) => Some(t@),
                None => None,
            },
        ),
{
    let mut r: Vec<CliAction> = Vec::new();
    let loaded = match saved {
        Some(t) => load_queue_state(t),
        None => None,
    };
    match loaded {
        Some((playlist, selected, total)) => {
            if selected < total && total - selected > 1 {
                let next_idx = selected + 1;
                r.push(CliAction::PlayTrackInPlaylist(playlist.clone(), next_idx));
                r.push(CliAction::SaveQueueState(playlist, next_idx, total));
            }
        },
        None => {
            r.push(CliAction::NextTrack);
        },
    }
    assert(cli_view(r@) =~= cli_next_spec(
        match saved {
            Some(t) => Some(t@),
            None => None,
        },
    ));
    r
}

/// Steps of `muse prev`, given the saved queue-state text (`None` when it
/// could not be read).
pub fn cli_prev(saved: Option<&str>) -> (r: Vec<CliAction>)
    ensures
        cli_view(r@) == cli_prev_spec(
            match saved {
                Some(t) => Some(t@),
                None => None,
            },
        ),
{
    let mut r: Vec<CliAction> = Vec::new();
    let loaded = match saved {
        Some(t) => load_queue_state(t),
        None => None,
    };
    match loaded {
        Some((playlist, selected, total)) => {
            if selected > 0 {
                let prev_idx = selected - 1;
                r.push(CliAction::PlayTrackInPlaylist(playlist.clone(), prev_idx));
                r.push(CliAction::SaveQueueState(playlist, prev_idx, total));
            }
        },
        None => {
            r.push(CliAction::PreviousTrack);
        },
    }
    assert(cli_view(r@) =~= cli_prev_spec(
        match saved {
            Some(t) => Some(t@),
            None => None,
        },
    ));
    r
}

// ---------------------------------------------------------------------------
// Matching the playing track to the queue
// ---------------------------------------------------------------------------

/// An entry is the given track when name and artist agree.
pub open spec fn is_entry(t: PlaylistTrack, name: Seq<char>, artist: Seq<char>) -> bool {
    t.name@ == name && t.artist@ == artist
}

/// Position of the first queue entry that is the given track.
pub open spec fn queue_position(tracks: Seq<PlaylistTrack>, name: Seq<char>, artist: Seq<char>) -> Option<usize> {
    if exists|i: int| 0 <= i < tracks.len() && is_entry(tracks[i], name, artist) {
        Some(
            (choose|i: int|
                0 <= i < tracks.len() && is_entry(tracks[i], name, artist) && forall|j: int|
                    0 <= j < i ==> !is_entry(tracks[j], name, artist)) as usize,
        )
    } else {
        None
    }
}

/// Finds the queue entry matching a newly reported track (first match by
/// name and artist) and gives it with the step that persists the queue
/// position: (playlist, that index, queue length). `None`, with nothing to
/// persist, when no entry matches.
pub fn sync_queue_selection(
    queue_tracks: &[PlaylistTrack],
    queue_playlist_name: &str,
    track_name: &str,
    track_artist: &str,
) -> (r: Option<(usize, CliAction)>)
    ensures
        match queue_position(queue_tracks@, track_name@, track_artist@) {
            Some(i) => r matches Some((j, a)) && j == i && a@ == CliActionView::SaveQueueState(
                queue_playlist_name@,
                i,
                queue_tracks@.len() as usize,
            ),
            None => r is None,
        },
        r matches Some((i, _)) ==> i < queue_tracks@.len() && is_entry(
            queue_tracks@[i as int],
            track_name@,
            track_artist@,
        ) && forall|j: int| 0 <= j < i ==> !is_entry(#[trigger] queue_tracks@[j], track_name@, track_artist@),
        r is None ==> forall|j: int|
            0 <= j < queue_tracks@.len() ==> !is_entry(#[trigger] queue_tracks@[j], track_name@, track_artist@),
{
    for i in 0..queue_tracks.len()
        invariant
            forall|j: int| 0 <= j < i ==> !is_entry(queue_tracks@[j], track_name@, track_artist@),
    {
        let t = &queue_tracks[i];
        if str_eq(t.name.as_str(), track_name) && str_eq(t.artist.as_str(), track_artist) {
            proof {
                let w = choose|k: int|
                    0 <= k < queue_tracks@.len() && is_entry(
                        queue_tracks@[k],
                        track_name@,
                        track_artist@,
                    ) && forall|j: int|
                        0 <= j < k ==> !is_entry(queue_tracks@[j], track_name@, track_artist@);
                assert(is_entry(queue_tracks@[i as int], track_name@, track_artist@));
                if w < i {
                } else if w > i {
                }
            }
            let save = CliAction::SaveQueueState(queue_playlist_name.to_owned(), i, queue_tracks.len());
            return Some((i, save));
        }
    }
    None
}

} // verus!
