use muse::backend::NotificationInfo;
use muse::lastfm::{request_args, scrobble_tool, LastfmRequest, ScrobbleTracker};

fn s(x: &str) -> String {
    x.to_string()
}

fn info(state: &str, name: &str, artist: &str, total_ms: u64) -> NotificationInfo {
    NotificationInfo {
        player_state: s(state),
        name: s(name),
        artist: s(artist),
        album: s("Album"),
        total_time_ms: total_ms,
    }
}

#[test]
fn scrobble_after_half_the_track() {
    let mut t = ScrobbleTracker::new();
    t.on_track_change_at("Song", "Artist", "Album", 200_000, 0, 1_700_000_000);
    assert_eq!(t.track_name, "Song");
    assert_eq!(t.artist, "Artist");
    assert_eq!(t.start_timestamp(), 1_700_000_000);
    assert!(!t.should_scrobble_at(99_999));
    assert!(t.should_scrobble_at(100_000));
    t.mark_scrobbled();
    assert!(!t.should_scrobble_at(500_000));
}

#[test]
fn scrobble_after_four_minutes_of_a_long_track() {
    let mut t = ScrobbleTracker::new();
    t.on_track_change_at("Long", "Artist", "Album", 1_000_000, 10, 0);
    assert!(!t.should_scrobble_at(240_009));
    assert!(t.should_scrobble_at(240_010));
}

#[test]
fn short_tracks_are_never_scrobbled() {
    let mut t = ScrobbleTracker::new();
    t.on_track_change_at("Jingle", "Artist", "Album", 29_999, 0, 0);
    assert!(!t.should_scrobble_at(10_000_000));
    assert!(!ScrobbleTracker::new().should_scrobble_at(10_000_000));
}

#[test]
fn paused_time_does_not_count() {
    let mut t = ScrobbleTracker::new();
    t.on_track_change_at("Song", "Artist", "Album", 200_000, 0, 0);
    t.on_pause_at(60_000);
    assert_eq!(t.total_play_time_at(500_000), 60_000);
    assert!(!t.should_scrobble_at(500_000));
    t.on_play_at(500_000);
    t.on_play_at(510_000);
    assert_eq!(t.total_play_time_at(530_000), 90_000);
    assert!(!t.should_scrobble_at(539_999));
    assert!(t.should_scrobble_at(540_000));
}

#[test]
fn same_track_change_is_ignored() {
    let mut t = ScrobbleTracker::new();
    t.on_track_change_at("Song", "Artist", "Album", 200_000, 0, 5);
    t.mark_now_playing_sent();
    t.on_track_change_at("Song", "Artist", "Other", 1, 50_000, 9);
    assert_eq!(t.album, "Album");
    assert_eq!(t.start_timestamp(), 5);
    assert!(!t.should_send_now_playing());
    t.on_track_change_at("Next", "Artist", "Album", 1, 50_000, 9);
    assert!(t.should_send_now_playing());
    assert_eq!(t.total_play_time_at(50_000), 0);
}

#[test]
fn now_playing_is_requested_once_per_track() {
    let mut t = ScrobbleTracker::new();
    assert!(!t.should_send_now_playing());
    let r = t.on_notification_at(&info("Playing", "Song", "Artist", 200_500), true, 0, 100);
    match r {
        Some(LastfmRequest::NowPlaying(a, n, al, d)) => {
            assert_eq!((a.as_str(), n.as_str(), al.as_str(), d), ("Artist", "Song", "Album", 200));
        }
        _ => panic!("expected a now-playing request"),
    }
    assert!(t.on_notification_at(&info("Playing", "Song", "Artist", 200_500), true, 1_000, 101).is_none());
    assert!(t.on_notification_at(&info("Paused", "", "", 0), true, 2_000, 102).is_none());
    assert_eq!(t.total_play_time_at(9_999_999), 2_000);
}

#[test]
fn nothing_is_sent_without_lastfm() {
    let mut t = ScrobbleTracker::new();
    assert!(t.on_notification_at(&info("Playing", "Song", "Artist", 200_000), false, 0, 0).is_none());
    assert!(t.should_send_now_playing());
    assert!(t.on_tick_at(false, 150_000).is_none());
    assert!(t.should_scrobble_at(150_000));
}

#[test]
fn tick_asks_for_the_scrobble() {
    let mut t = ScrobbleTracker::new();
    t.on_track_change_at("Song", "Artist", "Album", 200_999, 0, 1234);
    assert!(t.on_tick_at(true, 10_000).is_none());
    match t.on_tick_at(true, 150_000) {
        Some(LastfmRequest::Scrobble(a, n, al, d, ts)) => {
            assert_eq!((a.as_str(), n.as_str(), al.as_str(), d, ts), ("Artist", "Song", "Album", 200, 1234));
        }
        _ => panic!("expected a scrobble request"),
    }
    assert!(t.on_tick_at(true, 160_000).is_none());
}

#[test]
fn tool_arguments() {
    assert_eq!(scrobble_tool(), "muse-scrobble");
    let args = request_args(&LastfmRequest::NowPlaying(s("A"), s("T"), s("L"), 215));
    assert_eq!(args, vec!["now-playing", "--artist", "A", "--track", "T", "--album", "L", "--duration", "215"]);
    let args = request_args(&LastfmRequest::Scrobble(s("A"), s("T"), s("L"), 0, 1700000000));
    assert_eq!(
        args,
        vec!["scrobble", "--artist", "A", "--track", "T", "--album", "L", "--duration", "0", "--timestamp", "1700000000"]
    );
}

#[test]
fn clock_based_methods_run() {
    let mut t = ScrobbleTracker::new();
    t.on_track_change("Song", "Artist", "Album", 180_000);
    t.on_pause();
    t.on_play();
    assert!(!t.should_scrobble());
    assert!(t.on_tick(true).is_none());
    assert!(t.on_notification(&info("Playing", "Song", "Artist", 180_000), true).is_some());
}
