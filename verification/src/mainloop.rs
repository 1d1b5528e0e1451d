//! Timing decisions of the main loop: when the player state is polled
//! again, how the state is fetched after a command, and when Last.fm's
//! availability is checked again.

use vstd::prelude::*;
use crate::state::{AppState, AppView};

verus! {

broadcast use vstd::string::group_string_axioms;

/// The player state is polled every 2 seconds.
pub const REFRESH_INTERVAL_MS: u64 = 2000;

/// An unavailable Last.fm is checked again every minute.
pub const LASTFM_RECHECK_MS: u64 = 60000;

/// The waits before each state fetch that follows a player command, so the
/// view catches up with the player: 500, 800 and 800 ms.
pub open spec fn refresh_delay_spec(attempt: usize) -> Option<u64> {
    if attempt == 0 {
        Some(500)
    } else if attempt == 1 || attempt == 2 {
        Some(800)
    } else {
        None
    }
}

/// How long to wait before the state fetch numbered `attempt` (from 0)
/// after a player command; `None` once all three have been made.
pub fn refresh_delay_ms(attempt: usize) -> (r: Option<u64>)
    ensures
        r == refresh_delay_spec(attempt),
{
    if attempt == 0 {
        Some(500)
    } else if attempt == 1 || attempt == 2 {
        Some(800)
    } else {
        None
    }
}

/// When things last happened, in milliseconds of a clock that only moves
/// forward.
pub struct LoopTimers {
    pub last_refresh_ms: u64,
    pub lastfm_available: bool,
    pub lastfm_last_check_ms: u64,
}

/// What a timer tick asks for.
pub struct TickPlan {
    /// Poll the player state in the background.
    pub refresh_state: bool,
    /// Check whether Last.fm has become available.
    pub recheck_lastfm: bool,
}

/// Time from `start` to `now` (none if the clock went back).
pub open spec fn since(start: u64, now: u64) -> int {
    if now >= start {
        now - start
    } else {
        0
    }
}

impl LoopTimers {
    /// Timers started at `now_ms`, with Last.fm's availability at start.
    pub fn new(now_ms: u64, lastfm_available: bool) -> (r: Self)
        ensures
            r.last_refresh_ms == now_ms,
            r.lastfm_available == lastfm_available,
            r.lastfm_last_check_ms == now_ms,
    {
        LoopTimers { last_refresh_ms: now_ms, lastfm_available, lastfm_last_check_ms: now_ms }
    }

    /// A tick at `now_ms`: poll when the refresh interval has passed, and
    /// recheck an unavailable Last.fm when a minute has passed; each timer
    /// restarts when it fires.
    pub fn tick_at(&mut self, now_ms: u64) -> (r: TickPlan)
        ensures
            r.refresh_state == (since(old(self).last_refresh_ms, now_ms) >= REFRESH_INTERVAL_MS),
            r.recheck_lastfm == (!old(self).lastfm_available && since(old(self).lastfm_last_check_ms, now_ms)
                >= LASTFM_RECHECK_MS),
            final(self).last_refresh_ms == if r.refresh_state {
                now_ms
            } else {
                old(self).last_refresh_ms
            },
            final(self).lastfm_last_check_ms == if r.recheck_lastfm {
                now_ms
            } else {
                old(self).lastfm_last_check_ms
            },
            final(self).lastfm_available == old(self).lastfm_available,
    {
        let refresh_state = now_ms.saturating_sub(self.last_refresh_ms) >= REFRESH_INTERVAL_MS;
        if refresh_state {
            self.last_refresh_ms = now_ms;
        }
        let recheck_lastfm = !self.lastfm_available && now_ms.saturating_sub(self.lastfm_last_check_ms)
            >= LASTFM_RECHECK_MS;
        if recheck_lastfm {
            self.lastfm_last_check_ms = now_ms;
        }
        TickPlan { refresh_state, recheck_lastfm }
    }

    /// The result of a recheck: when Last.fm is available the status line
    /// says so.
    pub fn lastfm_checked(&mut self, available: bool, state: &mut AppState)
        ensures
            final(self).lastfm_available == available,
            final(self).last_refresh_ms == old(self).last_refresh_ms,
            final(self).lastfm_last_check_ms == old(self).lastfm_last_check_ms,
            available ==> final(state)@ == (AppView { lastfm_status: "last.fm"@, ..old(state)@ }),
            !available ==> final(state)@ == old(state)@,
    {
        self.lastfm_available = available;
        if available {
            state.lastfm_status = String::from_str("last.fm");
        }
    }

    /// A failed submission at `now_ms`: Last.fm counts as unavailable and
    /// is checked again at the next tick.
    pub fn lastfm_failed_at(&mut self, now_ms: u64)
        ensures
            !final(self).lastfm_available,
            final(self).lastfm_last_check_ms == if now_ms >= LASTFM_RECHECK_MS {
                (now_ms - LASTFM_RECHECK_MS) as u64
            } else {
                0
            },
            final(self).last_refresh_ms == old(self).last_refresh_ms,
    {
        self.lastfm_available = false;
        self.lastfm_last_check_ms = now_ms.saturating_sub(LASTFM_RECHECK_MS);
    }
}

/// After a failure, the very next tick rechecks Last.fm.
pub proof fn lemma_failure_rechecks_next_tick(failed_at: u64, next: u64)
    requires
        failed_at >= LASTFM_RECHECK_MS,
        next >= failed_at,
    ensures
        since((failed_at - LASTFM_RECHECK_MS) as u64, next) >= LASTFM_RECHECK_MS,
{
}

} // verus!
