//! Last.fm scrobbling rules: when a track counts as played, when "now
//! playing" is sent, and the arguments handed to the `muse-scrobble` tool.
//!
//! Time is counted in milliseconds of the wall clock; the `_at` methods take
//! the current time, the others read the clock.

use vstd::prelude::*;
use crate::backend::NotificationInfo;
use crate::clock::now_unix_millis;
use crate::events::lyrics_key_of;
use crate::text::{decimal, push_char, push_str, str_eq, u64_to_string};

verus! {

broadcast use vstd::string::group_string_axioms;

/// Name of the helper tool that talks to Last.fm.
pub fn scrobble_tool() -> (r: &'static str)
    ensures
        r@ == "muse-scrobble"@,
{
    "muse-scrobble"
}

/// Playing time after which a track of any length is scrobbled (4 minutes).
pub const MAX_THRESHOLD_MS: u64 = 240000;

/// Tracks shorter than this (30 seconds) are never scrobbled.
pub const MIN_DURATION_MS: u64 = 30000;

/// Follows the current track's playing time to decide when to scrobble it.
pub struct ScrobbleTracker {
    current_key: String,
    started_playing: Option<u64>,
    accumulated_ms: u64,
    scrobbled: bool,
    sent_now_playing: bool,
    start_timestamp: u64,
    pub artist: String,
    pub track_name: String,
    pub album: String,
    pub duration_ms: u64,
}

/// The tracker's state as plain values.
pub struct TrackerView {
    /// `artist\tname` of the current track; empty before the first track.
    pub key: Seq<char>,
    /// When the current stretch of playing began, if playing.
    pub started: Option<u64>,
    /// Playing time of earlier stretches.
    pub accumulated: u64,
    pub scrobbled: bool,
    pub sent_now_playing: bool,
    /// Unix time (seconds) at which the track started.
    pub start_timestamp: u64,
    pub artist: Seq<char>,
    pub track_name: Seq<char>,
    pub album: Seq<char>,
    pub duration_ms: u64,
}

impl View for ScrobbleTracker {
    type V = TrackerView;

    closed spec fn view(&self) -> TrackerView {
        TrackerView {
            key: self.current_key@,
            started: self.started_playing,
            accumulated: self.accumulated_ms,
            scrobbled: self.scrobbled,
            sent_now_playing: self.sent_now_playing,
            start_timestamp: self.start_timestamp,
            artist: self.artist@,
            track_name: self.track_name@,
            album: self.album@,
            duration_ms: self.duration_ms,
        }
    }
}

/// Addition that stops at `u64::MAX`.
pub open spec fn sat_add(a: u64, b: int) -> u64 {
    if a + b > u64::MAX {
        u64::MAX
    } else {
        (a + b) as u64
    }
}

/// Time elapsed from `start` to `now` (none if the clock went back).
pub open spec fn elapsed(start: u64, now: u64) -> int {
    if now >= start {
        now - start
    } else {
        0
    }
}

/// Total playing time of the current track at `now`.
pub open spec fn total_play_spec(t: TrackerView, now: u64) -> u64 {
    match t.started {
        Some(s) => sat_add(t.accumulated, elapsed(s, now)),
        None => t.accumulated,
    }
}

/// A track is scrobbled once, when it lasts at least 30 s and has played
/// for half its length or 4 minutes, whichever comes first.
pub open spec fn should_scrobble_spec(t: TrackerView, now: u64) -> bool {
    &&& !t.scrobbled
    &&& t.key.len() > 0
    &&& t.duration_ms >= MIN_DURATION_MS
    &&& (2 * total_play_spec(t, now) >= t.duration_ms || total_play_spec(t, now) >= MAX_THRESHOLD_MS)
}

/// The tracker after a track change to `name` by `artist` at `now` (Unix
/// time `unix_secs`): a new key resets the counts and starts the clock; the
/// same key changes nothing.
pub open spec fn track_change_spec(
    t: TrackerView,
    name: Seq<char>,
    artist: Seq<char>,
    album: Seq<char>,
    duration_ms: u64,
    now: u64,
    unix_secs: u64,
) -> TrackerView {
    let key = lyrics_key_of(artist, name);
    if key == t.key {
        t
    } else {
        TrackerView {
            key: key,
            started: Some(now),
            accumulated: 0,
            scrobbled: false,
            sent_now_playing: false,
            start_timestamp: unix_secs,
            artist: artist,
            track_name: name,
            album: album,
        duration_ms: duration_ms,
        }
    }
}

/// The tracker when playback resumes at `now`: the clock starts unless it
/// runs.
pub open spec fn play_spec(t: TrackerView, now: u64) -> TrackerView {
    match t.started {
        Some(_) => t,
        None => TrackerView { started: Some(now), ..t },
    }
}

/// The tracker when playback pauses at `now`: the running stretch is added
/// to the played time and the clock stops.
pub open spec fn pause_spec(t: TrackerView, now: u64) -> TrackerView {
    match t.started {
        Some(s) => TrackerView { started: None, accumulated: sat_add(t.accumulated, elapsed(s, now)), ..t },
        None => t,
    }
}

/// A timer tick at `now` takes the tracker from `t` to `t2` and answers
/// `r`: with Last.fm available and the track played long enough, the track
/// is marked scrobbled and its scrobble request (duration in whole seconds,
/// the track's start time) is returned; otherwise nothing changes and
/// nothing is returned.
pub open spec fn tick_spec(
    t: TrackerView,
    t2: TrackerView,
    r: Option<LastfmRequest>,
    available: bool,
    now: u64,
) -> bool {
    if available && should_scrobble_spec(t, now) {
        &&& t2 == (TrackerView { scrobbled: true, ..t })
        &&& r matches Some(LastfmRequest::Scrobble(a, n, al, d, ts))
        &&& a@ == t.artist
        &&& n@ == t.track_name
        &&& al@ == t.album
        &&& d == t.duration_ms / 1000
        &&& ts == t.start_timestamp
    } else {
        t2 == t && r is None
    }
}

impl ScrobbleTracker {
    pub fn new() -> (r: Self)
        ensures
            r@.key.len() == 0,
            r@.started is None,
            r@.accumulated == 0,
            !r@.scrobbled,
            !r@.sent_now_playing,
            r@.start_timestamp == 0,
            r@.artist.len() == 0,
            r@.track_name.len() == 0,
            r@.album.len() == 0,
            r@.duration_ms == 0,
    {
        ScrobbleTracker {
            current_key: String::new(),
            started_playing: None,
            accumulated_ms: 0,
            scrobbled: false,
            sent_now_playing: false,
            start_timestamp: 0,
            artist: String::new(),
            track_name: String::new(),
            album: String::new(),
            duration_ms: 0,
        }
    }

    /// Switches to a new track at time `now_ms` (Unix time `unix_secs`).
    pub fn on_track_change_at(
        &mut self,
        name: &str,
        artist: &str,
        album: &str,
        duration_ms: u64,
        now_ms: u64,
        unix_secs: u64,
    )
        ensures
            final(self)@ == track_change_spec(old(self)@, name@, artist@, album@, duration_ms, now_ms, unix_secs),
    {
        let mut key = String::new();
        push_str(&mut key, artist);
        push_char(&mut key, '\t');
        push_str(&mut key, name);
        assert(key@ =~= lyrics_key_of(artist@, name@));
        if str_eq(key.as_str(), self.current_key.as_str()) {
            return;
        }
        self.current_key = key;
        self.artist = artist.to_owned();
        self.track_name = name.to_owned();
        self.album = album.to_owned();
        self.duration_ms = duration_ms;
        self.accumulated_ms = 0;
        self.scrobbled = false;
        self.sent_now_playing = false;
        self.started_playing = Some(now_ms);
        self.start_timestamp = unix_secs;
    }

    /// Switches to a new track now.
    pub fn on_track_change(&mut self, name: &str, artist: &str, album: &str, duration_ms: u64)
        ensures
            exists|now: u64|
                final(self)@ == #[trigger] track_change_spec(
                    old(self)@,
                    name@,
                    artist@,
                    album@,
                    duration_ms,
                    now,
                    now / 1000,
                ),
    {
        let now = now_unix_millis();
        self.on_track_change_at(name, artist, album, duration_ms, now, now / 1000);
    }

    /// Playback resumed at `now_ms`: the clock starts unless it runs.
    pub fn on_play_at(&mut self, now_ms: u64)
        ensures
            final(self)@ == play_spec(old(self)@, now_ms),
    {
        if self.started_playing.is_none() {
            self.started_playing = Some(now_ms);
        }
    }

    /// Playback resumed now.
    pub fn on_play(&mut self)
        ensures
            exists|now: u64| final(self)@ == #[trigger] play_spec(old(self)@, now),
    {
        let now = now_unix_millis();
        self.on_play_at(now);
    }

    /// Playback paused at `now_ms`: the running stretch is added to the
    /// played time and the clock stops.
    pub fn on_pause_at(&mut self, now_ms: u64)
        ensures
            final(self)@ == pause_spec(old(self)@, now_ms),
    {
        if let Some(start) = self.started_playing {
            let e = now_ms.saturating_sub(start);
            self.accumulated_ms = self.accumulated_ms.saturating_add(e);
            self.started_playing = None;
        }
    }

    /// Playback paused now.
    pub fn on_pause(&mut self)
        ensures
            exists|now: u64| final(self)@ == #[trigger] pause_spec(old(self)@, now),
    {
        let now = now_unix_millis();
        self.on_pause_at(now);
    }

    /// "Now playing" is sent once per track.
    pub fn should_send_now_playing(&self) -> (r: bool)
        ensures
            r == (!self@.sent_now_playing && self@.key.len() > 0),
    {
        !self.sent_now_playing && !self.current_key.as_str().is_empty()
    }

    pub fn mark_now_playing_sent(&mut self)
        ensures
            final(self)@ == (TrackerView { sent_now_playing: true, ..old(self)@ }),
    {
        self.sent_now_playing = true;
    }

    /// Total playing time at `now_ms`.
    pub fn total_play_time_at(&self, now_ms: u64) -> (r: u64)
        ensures
            r == total_play_spec(self@, now_ms),
    {
        match self.started_playing {
            Some(s) => self.accumulated_ms.saturating_add(now_ms.saturating_sub(s)),
            None => self.accumulated_ms,
        }
    }

    /// Whether the track should be scrobbled at `now_ms`.
    pub fn should_scrobble_at(&self, now_ms: u64) -> (r: bool)
        ensures
            r == should_scrobble_spec(self@, now_ms),
    {
        if self.scrobbled || self.current_key.as_str().is_empty() || self.duration_ms < MIN_DURATION_MS {
            return false;
        }
        let total = self.total_play_time_at(now_ms);
        let half = self.duration_ms / 2 + self.duration_ms % 2;
        total >= half || total >= MAX_THRESHOLD_MS
    }

    pub fn should_scrobble(&self) -> (r: bool)
        ensures
            r ==> !self@.scrobbled && self@.key.len() > 0 && self@.duration_ms >= MIN_DURATION_MS,
            exists|now: u64| r == #[trigger] should_scrobble_spec(self@, now),
    {
        let now = now_unix_millis();
        self.should_scrobble_at(now)
    }

    pub fn mark_scrobbled(&mut self)
        ensures
            final(self)@ == (TrackerView { scrobbled: true, ..old(self)@ }),
    {
        self.scrobbled = true;
    }

    /// Unix time (seconds) at which the current track started.
    pub fn start_timestamp(&self) -> (r: u64)
        ensures
            r == self@.start_timestamp,
    {
        self.start_timestamp
    }
}

// ---------------------------------------------------------------------------
// Requests to the scrobbling tool
// ---------------------------------------------------------------------------

/// A call of the scrobbling tool.
pub enum LastfmRequest {
    /// `now-playing`: artist, track, album, duration in seconds.
    NowPlaying(String, String, String, u64),
    /// `scrobble`: artist, track, album, duration in seconds, start time.
    Scrobble(String, String, String, u64, u64),
}

/// The tool's command line for a request (after the tool's name).
pub open spec fn request_args_spec(artist: Seq<char>, track: Seq<char>, album: Seq<char>, duration: u64, timestamp: Option<u64>) -> Seq<Seq<char>> {
    let head = seq![
        match timestamp {
            Some(_) => "scrobble"@,
            None => "now-playing"@,
        },
        "--artist"@,
        artist,
        "--track"@,
        track,
        "--album"@,
        album,
        "--duration"@,
        decimal(duration as nat),
    ];
    match timestamp {
        Some(ts) => head + seq!["--timestamp"@, decimal(ts as nat)],
        None => head,
    }
}

pub open spec fn strings_view(v: Seq<String>) -> Seq<Seq<char>> {
    v.map_values(|s: String| s@)
}

/// The arguments for `muse-scrobble` that carry out a request.
pub fn request_args(req: &LastfmRequest) -> (r: Vec<String>)
    ensures
        strings_view(r@) == match req {
            LastfmRequest::NowPlaying(a, t, al, d) => request_args_spec(a@, t@, al@, *d, None),
            LastfmRequest::Scrobble(a, t, al, d, ts) => request_args_spec(a@, t@, al@, *d, Some(*ts)),
        },
{
    let mut v: Vec<String> = Vec::new();
    let (artist, track, album, dur) = match req {
        LastfmRequest::NowPlaying(a, t, al, d) => {
            v.push(String::from_str("now-playing"));
            (a, t, al, *d)
        },
        LastfmRequest::Scrobble(a, t, al, d, _) => {
            v.push(String::from_str("scrobble"));
            (a, t, al, *d)
        },
    };
    v.push(String::from_str("--artist"));
    v.push(artist.clone());
    v.push(String::from_str("--track"));
    v.push(track.clone());
    v.push(String::from_str("--album"));
    v.push(album.clone());
    v.push(String::from_str("--duration"));
    v.push(u64_to_string(dur));
    if let LastfmRequest::Scrobble(_, _, _, _, ts) = req {
        v.push(String::from_str("--timestamp"));
        v.push(u64_to_string(*ts));
    }
    proof {
        let spec_args = match req {
            LastfmRequest::NowPlaying(a, t, al, d) => request_args_spec(a@, t@, al@, *d, None),
            LastfmRequest::Scrobble(a, t, al, d, ts) => request_args_spec(a@, t@, al@, *d, Some(*ts)),
        };
        assert(strings_view(v@) =~= spec_args);
    }
    v
}

/// What the tracker does with a playback notification at `now_ms` (Unix
/// time `unix_secs`): playing starts the clock, paused stops it; a named
/// track that differs from the tracked one by name or artist becomes the
/// tracked track; with Last.fm available, "now playing" is requested once.
pub open spec fn notification_step(
    t: TrackerView,
    info: NotificationInfo,
    available: bool,
    now: u64,
    unix_secs: u64,
) -> (TrackerView, bool) {
    let t1 = if info.player_state@ == "Playing"@ {
        match t.started {
            Some(_) => t,
            None => TrackerView { started: Some(now), ..t },
        }
    } else if info.player_state@ == "Paused"@ {
        match t.started {
            Some(s) => TrackerView { started: None, accumulated: sat_add(t.accumulated, elapsed(s, now)), ..t },
            None => t,
        }
    } else {
        t
    };
    if info.name@.len() == 0 {
        (t1, false)
    } else {
        let t2 = if t1.track_name != info.name@ || t1.artist != info.artist@ {
            track_change_spec(t1, info.name@, info.artist@, info.album@, info.total_time_ms, now, unix_secs)
        } else {
            t1
        };
        if available && !t2.sent_now_playing && t2.key.len() > 0 {
            (TrackerView { sent_now_playing: true, ..t2 }, true)
        } else {
            (t2, false)
        }
    }
}

impl ScrobbleTracker {
    /// Follows a playback notification at `now_ms`; returns the "now
    /// playing" request to send, if any (duration in whole seconds).
    pub fn on_notification_at(
        &mut self,
        info: &NotificationInfo,
        available: bool,
        now_ms: u64,
        unix_secs: u64,
    ) -> (r: Option<LastfmRequest>)
        ensures
            ({
                let (t, send) = notification_step(old(self)@, *info, available, now_ms, unix_secs);
                &&& final(self)@ == t
                &&& send ==> (r matches Some(LastfmRequest::NowPlaying(a, n, al, d)) && a@ == info.artist@
                    && n@ == info.name@ && al@ == info.album@ && d == info.total_time_ms / 1000)
                &&& !send ==> r is None
            }),
    {
        if str_eq(info.player_state.as_str(), "Playing") {
            self.on_play_at(now_ms);
        } else if str_eq(info.player_state.as_str(), "Paused") {
            self.on_pause_at(now_ms);
        }
        if info.name.as_str().is_empty() {
            return None;
        }
        if !str_eq(self.track_name.as_str(), info.name.as_str()) || !str_eq(
            self.artist.as_str(),
            info.artist.as_str(),
        ) {
            self.on_track_change_at(
                info.name.as_str(),
                info.artist.as_str(),
                info.album.as_str(),
                info.total_time_ms,
                now_ms,
                unix_secs,
            );
        }
        if available && self.should_send_now_playing() {
            self.mark_now_playing_sent();
            Some(
                LastfmRequest::NowPlaying(
                    info.artist.clone(),
                    info.name.clone(),
                    info.album.clone(),
                    info.total_time_ms / 1000,
                ),
            )
        } else {
            None
        }
    }

    /// Follows a playback notification now.
    pub fn on_notification(&mut self, info: &NotificationInfo, available: bool) -> (r: Option<LastfmRequest>)
        ensures
            exists|now: u64|
                #[trigger] notification_step(old(self)@, *info, available, now, now / 1000) == (
                    final(self)@,
                    r is Some,
                ),
    {
        let now = now_unix_millis();
        self.on_notification_at(info, available, now, now / 1000)
    }

    /// On a timer tick at `now_ms`, with Last.fm available: when the track
    /// has played long enough, mark it scrobbled and return the scrobble
    /// request (duration in whole seconds, the track's start time).
    pub fn on_tick_at(&mut self, available: bool, now_ms: u64) -> (r: Option<LastfmRequest>)
        ensures
            tick_spec(old(self)@, final(self)@, r, available, now_ms),
    {
        if available && self.should_scrobble_at(now_ms) {
            self.mark_scrobbled();
            Some(
                LastfmRequest::Scrobble(
                    self.artist.clone(),
                    self.track_name.clone(),
                    self.album.clone(),
                    self.duration_ms / 1000,
                    self.start_timestamp,
                ),
            )
        } else {
            None
        }
    }

    /// On a timer tick now (see `on_tick_at`). A track whose time played
    /// before the clock last started already reaches the threshold is
    /// scrobbled whatever the clock reads.
    pub fn on_tick(&mut self, available: bool) -> (r: Option<LastfmRequest>)
        ensures
            exists|now: u64| #[trigger] tick_spec(old(self)@, final(self)@, r, available, now),
            !available ==> final(self)@ == old(self)@ && r is None,
            (available && !old(self)@.scrobbled && old(self)@.key.len() > 0 && old(self)@.duration_ms
                >= MIN_DURATION_MS && (2 * old(self)@.accumulated >= old(self)@.duration_ms
                || old(self)@.accumulated >= MAX_THRESHOLD_MS)) ==> r is Some,
    {
        let now = now_unix_millis();
        let r = self.on_tick_at(available, now);
        proof {
            assert(total_play_spec(old(self)@, now) >= old(self)@.accumulated);
        }
        r
    }
}

/// A track is scrobbled at most once: after a scrobble, no later tick asks
/// for another until the track changes.
pub proof fn lemma_scrobble_once(t: TrackerView, now: u64, later: u64)
    requires
        should_scrobble_spec(t, now),
    ensures
        !should_scrobble_spec(TrackerView { scrobbled: true, ..t }, later),
{
}

/// Changing to a different track restarts the count: the new track is not
/// scrobbled, "now playing" is pending, and no time has been played yet.
pub proof fn lemma_track_change_resets(
    t: TrackerView,
    name: Seq<char>,
    artist: Seq<char>,
    album: Seq<char>,
    duration_ms: u64,
    now: u64,
    secs: u64,
)
    requires
        lyrics_key_of(artist, name) != t.key,
    ensures
        ({
            let u = track_change_spec(t, name, artist, album, duration_ms, now, secs);
            &&& !u.scrobbled && !u.sent_now_playing
            &&& total_play_spec(u, now) == 0
            &&& u.key.len() > 0
        }),
{
}

/// Played time never decreases as the clock advances.
pub proof fn lemma_play_time_monotone(t: TrackerView, a: u64, b: u64)
    requires
        a <= b,
    ensures
        total_play_spec(t, a) <= total_play_spec(t, b),
{
}

} // verus!
