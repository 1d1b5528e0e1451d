//! Shared types describing what a music backend reports.
//!
//! Times are whole milliseconds: the player's position and duration, a
//! lyric line's timestamp.

use vstd::prelude::*;

verus! {

#[derive(Debug, Clone, Copy, PartialEq, Eq, Structural)]
pub enum PlayerState {
    Stopped,
    Playing,
    Paused,
}

#[derive(Debug, Clone, Copy, PartialEq, Eq, Structural)]
pub enum RepeatMode {
    Off,
    All,
    One,
}

/// The label shown for a repeat mode.
pub open spec fn repeat_label(m: RepeatMode) -> Seq<char> {
    match m {
        RepeatMode::Off => "off"@,
        RepeatMode::All => "all"@,
        RepeatMode::One => "one"@,
    }
}

/// The mode that follows `m` when repeat is cycled: off, all, one, off.
pub open spec fn next_repeat(m: RepeatMode) -> RepeatMode {
    match m {
        RepeatMode::Off => RepeatMode::All,
        RepeatMode::All => RepeatMode::One,
        RepeatMode::One => RepeatMode::Off,
    }
}

impl RepeatMode {
    pub fn label(&self) -> (r: &'static str)
        ensures
            r@ == repeat_label(*self),
    {
        match self {
            RepeatMode::Off => "off",
            RepeatMode::All => "all",
            RepeatMode::One => "one",
        }
    }

    /// The next mode in the cycle off, all, one.
    pub fn cycled(&self) -> (r: RepeatMode)
        ensures
            r == next_repeat(*self),
    {
        match self {
            RepeatMode::Off => RepeatMode::All,
            RepeatMode::All => RepeatMode::One,
            RepeatMode::One => RepeatMode::Off,
        }
    }
}

/// Cycling the repeat mode three times returns to the starting mode, and
/// the three modes in between are pairwise distinct.
pub proof fn lemma_repeat_cycle(m: RepeatMode)
    ensures
        next_repeat(next_repeat(next_repeat(m))) == m,
        next_repeat(m) != m,
        next_repeat(next_repeat(m)) != m,
{
}

/// The currently playing track.
pub struct Track {
    pub name: String,
    pub artist: String,
    pub album: String,
    pub duration_ms: u64,
    pub position_ms: u64,
}

impl Clone for Track {
    fn clone(&self) -> (r: Self)
        ensures
            r == *self,
    {
        Track {
            name: self.name.clone(),
            artist: self.artist.clone(),
            album: self.album.clone(),
            duration_ms: self.duration_ms,
            position_ms: self.position_ms,
        }
    }
}

/// Everything a backend reports in one state poll.
pub struct FullState {
    pub music_running: bool,
    pub player_state: PlayerState,
    pub volume: i32,
    pub shuffle_enabled: bool,
    pub repeat_mode: RepeatMode,
    pub track: Option<Track>,
    pub track_favorited: bool,
}

/// One entry of a playlist.
pub struct PlaylistTrack {
    pub name: String,
    pub artist: String,
    pub album: String,
    pub duration_ms: u64,
}

impl Clone for PlaylistTrack {
    fn clone(&self) -> (r: Self)
        ensures
            r == *self,
    {
        PlaylistTrack {
            name: self.name.clone(),
            artist: self.artist.clone(),
            album: self.album.clone(),
            duration_ms: self.duration_ms,
        }
    }
}

/// One search hit.
pub struct SearchResult {
    pub name: String,
    pub artist: String,
    pub album: String,
}

impl Clone for SearchResult {
    fn clone(&self) -> (r: Self)
        ensures
            r == *self,
    {
        SearchResult { name: self.name.clone(), artist: self.artist.clone(), album: self.album.clone() }
    }
}

/// One line of lyrics, with its timestamp when the lyrics are synced.
pub struct LyricsLine {
    pub text: String,
    pub time_ms: Option<u64>,
}

impl Clone for LyricsLine {
    fn clone(&self) -> (r: Self)
        ensures
            r == *self,
    {
        LyricsLine { text: self.text.clone(), time_ms: self.time_ms }
    }
}

pub struct LyricsResult {
    pub lines: Vec<LyricsLine>,
    pub synced: bool,
}

/// A playback-change notification.
pub struct NotificationInfo {
    pub player_state: String,
    pub name: String,
    pub artist: String,
    pub album: String,
    pub total_time_ms: u64,
}

} // verus!
