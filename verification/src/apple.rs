//! The Apple Music backend's own logic: reading the status codes that the
//! Music bridge reports.

use vstd::prelude::*;
use crate::backend::{FullState, PlayerState, RepeatMode, Track};

verus! {

/// The Apple Music backend (its calls go through the Music bridge).
pub struct AppleMusicBackend {}

/// The player state a bridge code stands for: 1 playing, 2 paused,
/// anything else stopped.
pub open spec fn player_state_of(code: i32) -> PlayerState {
    if code == 1 {
        PlayerState::Playing
    } else if code == 2 {
        PlayerState::Paused
    } else {
        PlayerState::Stopped
    }
}

/// The repeat mode a bridge code stands for: 1 all, 2 one, anything else
/// off.
pub open spec fn repeat_mode_of(code: i32) -> RepeatMode {
    if code == 1 {
        RepeatMode::All
    } else if code == 2 {
        RepeatMode::One
    } else {
        RepeatMode::Off
    }
}

impl AppleMusicBackend {
    pub fn new() -> (r: Self) {
        AppleMusicBackend {  }
    }

    pub fn name(&self) -> (r: &'static str)
        ensures
            r@ == "Apple Music"@,
    {
        "Apple Music"
    }

    /// Apple Music does not move on through the app's queue by itself.
    pub fn needs_queue_advance(&self) -> (r: bool)
        ensures
            r,
    {
        true
    }
}

pub fn player_state_from_code(code: i32) -> (r: PlayerState)
    ensures
        r == player_state_of(code),
        code == 1 ==> r == PlayerState::Playing,
        code == 2 ==> r == PlayerState::Paused,
        code != 1 && code != 2 ==> r == PlayerState::Stopped,
{
    if code == 1 {
        PlayerState::Playing
    } else if code == 2 {
        PlayerState::Paused
    } else {
        PlayerState::Stopped
    }
}

pub fn repeat_mode_from_code(code: i32) -> (r: RepeatMode)
    ensures
        r == repeat_mode_of(code),
        code == 1 ==> r == RepeatMode::All,
        code == 2 ==> r == RepeatMode::One,
        code != 1 && code != 2 ==> r == RepeatMode::Off,
{
    if code == 1 {
        RepeatMode::All
    } else if code == 2 {
        RepeatMode::One
    } else {
        RepeatMode::Off
    }
}

/// The player state from the bridge's report.
pub fn state_from_bridge(
    music_running: bool,
    player_code: i32,
    volume: i32,
    shuffle_enabled: bool,
    repeat_code: i32,
    track: Option<Track>,
    track_favorited: bool,
) -> (r: FullState)
    ensures
        r.music_running == music_running,
        r.player_state == player_state_of(player_code),
        r.volume == volume,
        r.shuffle_enabled == shuffle_enabled,
        r.repeat_mode == repeat_mode_of(repeat_code),
        repeat_code == 1 ==> r.repeat_mode == RepeatMode::All,
        repeat_code == 2 ==> r.repeat_mode == RepeatMode::One,
        repeat_code != 1 && repeat_code != 2 ==> r.repeat_mode == RepeatMode::Off,
        player_code == 1 ==> r.player_state == PlayerState::Playing,
        player_code == 2 ==> r.player_state == PlayerState::Paused,
        player_code != 1 && player_code != 2 ==> r.player_state == PlayerState::Stopped,
        r.track == track,
        r.track_favorited == track_favorited,
{
    FullState {
        music_running,
        player_state: player_state_from_code(player_code),
        volume,
        shuffle_enabled,
        repeat_mode: repeat_mode_from_code(repeat_code),
        track,
        track_favorited,
    }
}


/// The Music bridge's codes: player state 1 is playing, 2 paused and any
/// other code stopped; repeat code 1 is repeat all (shown as "all"), 2 is
/// repeat one (shown as "one") and any other code repeat off. The three
/// codes of each kind give three different modes.
pub proof fn lemma_bridge_codes(code: i32)
    ensures
        player_state_of(1) == PlayerState::Playing,
        player_state_of(2) == PlayerState::Paused,
        code != 1 && code != 2 ==> player_state_of(code) == PlayerState::Stopped,
        repeat_mode_of(1) == RepeatMode::All,
        repeat_mode_of(2) == RepeatMode::One,
        code != 1 && code != 2 ==> repeat_mode_of(code) == RepeatMode::Off,
        crate::backend::repeat_label(repeat_mode_of(1)) == "all"@,
        crate::backend::repeat_label(repeat_mode_of(2)) == "one"@,
        repeat_mode_of(1) != repeat_mode_of(2),
        player_state_of(1) != player_state_of(2),
{
}
} // verus!
