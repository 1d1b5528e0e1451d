//! Core logic of the `muse` terminal music player: key handling, queue and
//! library navigation, state reconciliation, what each panel shows,
//! Spotify request and reply shaping, OAuth with PKCE, Last.fm scrobbling
//! rules, theme and configuration interpretation.

pub mod text;
pub mod backend;
pub mod state;
pub mod theme;
pub mod nav;
pub mod handlers;
pub mod playlist;
pub mod events;
pub mod crypto;
pub mod spotify;
pub mod config;
pub mod clock;
pub mod lastfm;
pub mod apple;
pub mod display;
pub mod listing;
pub mod mainloop;
