use muse::backend::{FullState, PlayerState, PlaylistTrack, RepeatMode, Track};
use muse::spotify::{
    add_track_request, album_lookup_path, api_url, api_write_url, artist_lookup_path,
    artists_joined, authorize_url, bearer, extract_auth_code, favorite_check_path,
    favorite_request, find_playlist_step, lrclib_url, lyrics_from_reply, next_track_request,
    parse_token_response, parse_token_response_at, play_in_playlist_request, play_pause_request,
    play_uri_request, playlist_tracks_path, playlists_page_step, playlists_path,
    poll_notification, previous_track_request, refresh_body, remove_lookup_path,
    remove_track_request, repeat_request, search_path, search_results_from, shuffle_request,
    state_from_reply, synced_entries, token_exchange_body, track_lookup_path, tracks_page_step,
    volume_request, ItemReply, Method, NamedItem, PageSearch, PlayerReply, PlaylistPage,
    PollMemory, RequestBody, SpotifyBackend, SpotifyToken, TokenReply, TokenStep, TracksPage,
};

fn s(x: &str) -> String {
    x.to_string()
}

fn item(name: &str, artists: &[&str], album: &str, dur: u64) -> ItemReply {
    ItemReply {
        name: Some(s(name)),
        artists: Some(artists.iter().map(|a| Some(s(a))).collect()),
        album_name: Some(s(album)),
        duration_ms: Some(dur),
    }
}

fn state_with(player_state: PlayerState, shuffle: bool, repeat: RepeatMode) -> FullState {
    FullState {
        music_running: true,
        player_state,
        volume: 50,
        shuffle_enabled: shuffle,
        repeat_mode: repeat,
        track: None,
        track_favorited: false,
    }
}

#[test]
fn authorize_url_is_exact() {
    let url = authorize_url("cid", "chal");
    assert_eq!(
        url,
        "https://accounts.spotify.com/authorize?client_id=cid&response_type=code&redirect_uri=http%3A%2F%2Flocalhost%3A18234%2Fcallback&code_challenge_method=S256&code_challenge=chal&scope=user-read-playback-state%20user-modify-playback-state%20user-read-currently-playing%20user-library-read%20user-library-modify%20playlist-read-private%20playlist-modify-public%20playlist-modify-private"
    );
}

#[test]
fn auth_code_from_callback_line() {
    assert_eq!(extract_auth_code("GET /callback?code=abc123&state=x HTTP/1.1"), Ok(s("abc123")));
    assert_eq!(extract_auth_code("GET  /callback?state=x&code=Q-9 HTTP/1.1"), Ok(s("Q-9")));
    assert_eq!(extract_auth_code("GET /callback?code=code=zz HTTP/1.1"), Ok(s("zz")));
}

#[test]
fn auth_code_missing_is_an_error() {
    let err = Err(s("No auth code in callback"));
    assert_eq!(extract_auth_code("GET /callback?error=access_denied HTTP/1.1"), err);
    assert_eq!(extract_auth_code("GET /callback HTTP/1.1"), err);
    assert_eq!(extract_auth_code("GET"), err);
    assert_eq!(extract_auth_code(""), err);
}

#[test]
fn token_bodies_are_form_encoded() {
    assert_eq!(
        token_exchange_body("a b", "cid", "ver"),
        "grant_type=authorization_code&code=a%20b&redirect_uri=http%3A%2F%2Flocalhost%3A18234%2Fcallback&client_id=cid&code_verifier=ver"
    );
    assert_eq!(
        refresh_body("r/t", "cid"),
        "grant_type=refresh_token&refresh_token=r%2Ft&client_id=cid"
    );
}

#[test]
fn token_reply_with_default_lifetime() {
    let reply = TokenReply { access_token: Some(s("a")), refresh_token: Some(s("r")), expires_in: None };
    let t = parse_token_response_at(&reply, 1000).unwrap();
    assert_eq!(t.access_token, "a");
    assert_eq!(t.refresh_token, "r");
    assert_eq!(t.expires_at, 4600);
    let reply = TokenReply { access_token: Some(s("a")), refresh_token: Some(s("r")), expires_in: Some(60) };
    assert_eq!(parse_token_response_at(&reply, 1000).unwrap().expires_at, 1060);
}

#[test]
fn token_reply_missing_fields() {
    let reply = TokenReply { access_token: None, refresh_token: Some(s("r")), expires_in: None };
    assert_eq!(parse_token_response_at(&reply, 0).err(), Some(s("No access_token in response")));
    assert_eq!(parse_token_response(&reply).err(), Some(s("No access_token in response")));
    let reply = TokenReply { access_token: Some(s("a")), refresh_token: None, expires_in: None };
    assert_eq!(parse_token_response(&reply).err(), Some(s("No refresh_token in response")));
}

#[test]
fn token_read_by_the_clock_expires_later() {
    let reply = TokenReply { access_token: Some(s("a")), refresh_token: Some(s("r")), expires_in: Some(3600) };
    let t = parse_token_response(&reply).unwrap();
    assert!(t.expires_at > 3600);
    assert!(!t.is_expired());
}

#[test]
fn token_expires_sixty_seconds_early() {
    let t = SpotifyToken { access_token: s("a"), refresh_token: s("r"), expires_at: 1000 };
    assert!(!t.is_expired_at(939));
    assert!(t.is_expired_at(940));
    assert!(t.is_expired_at(5000));
    let t = SpotifyToken { access_token: s("a"), refresh_token: s("r"), expires_at: 30 };
    assert!(t.is_expired_at(0));
    assert!(t.is_expired());
}

#[test]
fn token_steps() {
    let mut b = SpotifyBackend::new("cid", None);
    assert!(!b.is_authenticated());
    assert_eq!(b.name(), "Spotify");
    assert!(!b.needs_queue_advance());
    assert!(matches!(b.token_step_at(0), Err(e) if e == "Not authenticated"));
    b.install_token(SpotifyToken { access_token: s("a"), refresh_token: s("r"), expires_at: 1000 });
    assert!(b.is_authenticated());
    assert!(matches!(b.token_step_at(100), Ok(TokenStep::Ready(a)) if a == "a"));
    assert!(matches!(b.token_step_at(950), Ok(TokenStep::Refresh(r)) if r == "r"));
    let fresh = SpotifyToken { access_token: s("b"), refresh_token: s("r2"), expires_at: 9000 };
    assert_eq!(b.finish_refresh(Ok(fresh)), Ok(s("b")));
    assert!(matches!(b.token_step_at(950), Ok(TokenStep::Ready(a)) if a == "b"));
    assert_eq!(b.finish_refresh(Err(s("Token refresh failed"))), Err(s("Token refresh failed")));
    assert_eq!(b.token.as_ref().unwrap().access_token, "b");
    assert_eq!(b.client_id, "cid");
}

#[test]
fn artists_are_joined_with_commas() {
    assert_eq!(artists_joined(&None), "");
    assert_eq!(artists_joined(&Some(vec![Some(s("A")), None, Some(s("B")), Some(s("C"))])), "A, B, C");
    assert_eq!(artists_joined(&Some(vec![None, Some(s("Solo"))])), "Solo");
}

#[test]
fn player_reply_to_state() {
    let reply = PlayerReply {
        is_playing: Some(true),
        volume_percent: Some(70),
        shuffle_state: Some(true),
        repeat_state: Some(s("context")),
        item: Some(item("Song", &["A", "B"], "Album", 200000)),
        progress_ms: Some(12345),
    };
    let st = state_from_reply(true, Some(&reply));
    assert!(st.music_running);
    assert_eq!(st.player_state, PlayerState::Playing);
    assert_eq!(st.volume, 70);
    assert!(st.shuffle_enabled);
    assert_eq!(st.repeat_mode, RepeatMode::All);
    let t: Track = st.track.unwrap();
    assert_eq!(t.name, "Song");
    assert_eq!(t.artist, "A, B");
    assert_eq!(t.album, "Album");
    assert_eq!(t.duration_ms, 200000);
    assert_eq!(t.position_ms, 12345);
    assert!(!st.track_favorited);
}

#[test]
fn player_reply_defaults() {
    let reply = PlayerReply {
        is_playing: None,
        volume_percent: None,
        shuffle_state: None,
        repeat_state: Some(s("track")),
        item: None,
        progress_ms: None,
    };
    let st = state_from_reply(false, Some(&reply));
    assert!(st.music_running);
    assert_eq!(st.player_state, PlayerState::Paused);
    assert_eq!(st.volume, 50);
    assert_eq!(st.repeat_mode, RepeatMode::One);
    assert!(st.track.is_none());
    let st = state_from_reply(false, None);
    assert!(!st.music_running);
    assert_eq!(st.player_state, PlayerState::Stopped);
    assert_eq!(st.volume, 50);
    assert_eq!(st.repeat_mode, RepeatMode::Off);
}

#[test]
fn player_volume_is_truncated_to_32_bits() {
    let reply = PlayerReply {
        is_playing: Some(false),
        volume_percent: Some(4294967396),
        shuffle_state: None,
        repeat_state: Some(s("off")),
        item: None,
        progress_ms: None,
    };
    assert_eq!(state_from_reply(true, Some(&reply)).volume, 100);
}

#[test]
fn search_hits_from_reply() {
    assert!(search_results_from(None).is_empty());
    let items = vec![item("One", &["X"], "Al", 1), ItemReply { name: None, artists: None, album_name: None, duration_ms: None }];
    let r = search_results_from(Some(&items));
    assert_eq!(r.len(), 2);
    assert_eq!(r[0].name, "One");
    assert_eq!(r[0].artist, "X");
    assert_eq!(r[0].album, "Al");
    assert_eq!(r[1].name, "");
    assert_eq!(r[1].artist, "");
}

#[test]
fn playlist_paging() {
    assert_eq!(playlists_path(0), "/me/playlists?limit=50&offset=0");
    assert_eq!(playlists_path(150), "/me/playlists?limit=50&offset=150");
    let mut acc: Vec<String> = Vec::new();
    let page = PlaylistPage {
        items: Some(vec![
            NamedItem { name: Some(s("Mix")), id: Some(s("1")) },
            NamedItem { name: None, id: Some(s("2")) },
        ]),
        total: Some(5),
    };
    assert_eq!(playlists_page_step(&mut acc, 0, Some(&page)), Some(2));
    assert_eq!(acc, vec![s("Mix")]);
    let page = PlaylistPage {
        items: Some(vec![
            NamedItem { name: Some(s("A")), id: None },
            NamedItem { name: Some(s("B")), id: None },
            NamedItem { name: Some(s("C")), id: None },
        ]),
        total: Some(5),
    };
    assert_eq!(playlists_page_step(&mut acc, 2, Some(&page)), None);
    assert_eq!(acc, vec![s("Mix"), s("A"), s("B"), s("C")]);
    assert_eq!(playlists_page_step(&mut acc, 5, None), None);
    let empty = PlaylistPage { items: Some(vec![]), total: Some(9) };
    assert_eq!(playlists_page_step(&mut acc, 5, Some(&empty)), None);
    assert_eq!(acc.len(), 4);
}

#[test]
fn finding_a_playlist_by_name() {
    let page = PlaylistPage {
        items: Some(vec![
            NamedItem { name: Some(s("Mix")), id: Some(s("id1")) },
            NamedItem { name: Some(s("Road")), id: Some(s("id2")) },
        ]),
        total: Some(10),
    };
    assert!(matches!(find_playlist_step("Road", 0, Some(&page)), PageSearch::Done(Some(id)) if id == "id2"));
    assert!(matches!(find_playlist_step("Gone", 0, Some(&page)), PageSearch::Continue(2)));
    assert!(matches!(find_playlist_step("Gone", 8, Some(&page)), PageSearch::Done(None)));
    assert!(matches!(find_playlist_step("Mix", 0, None), PageSearch::Done(None)));
    let no_id = PlaylistPage { items: Some(vec![NamedItem { name: Some(s("Mix")), id: None }]), total: Some(3) };
    assert!(matches!(find_playlist_step("Mix", 0, Some(&no_id)), PageSearch::Done(None)));
}

#[test]
fn playlist_tracks_paging_skips_missing_tracks() {
    assert_eq!(
        playlist_tracks_path("pid", 100),
        "/playlists/pid/tracks?limit=100&offset=100&fields=items(track(name,artists,album(name),duration_ms)),total"
    );
    let mut acc: Vec<PlaylistTrack> = Vec::new();
    let page = TracksPage {
        items: Some(vec![Some(item("A", &["X"], "L", 1000)), None, Some(item("B", &[], "", 0))]),
        total: Some(3),
    };
    assert_eq!(tracks_page_step(&mut acc, 0, Some(&page)), None);
    assert_eq!(acc.len(), 2);
    assert_eq!(acc[0].name, "A");
    assert_eq!(acc[0].artist, "X");
    assert_eq!(acc[0].duration_ms, 1000);
    assert_eq!(acc[1].name, "B");
    assert_eq!(acc[1].artist, "");
}

#[test]
fn playback_requests() {
    let r = play_pause_request(&state_with(PlayerState::Playing, false, RepeatMode::Off));
    assert_eq!((r.method, r.path.as_str()), (Method::Put, "/me/player/pause"));
    let r = play_pause_request(&state_with(PlayerState::Paused, false, RepeatMode::Off));
    assert_eq!((r.method, r.path.as_str()), (Method::Put, "/me/player/play"));
    let r = next_track_request();
    assert_eq!((r.method, r.path.as_str()), (Method::Post, "/me/player/next"));
    let r = previous_track_request();
    assert_eq!((r.method, r.path.as_str()), (Method::Post, "/me/player/previous"));
    assert_eq!(volume_request(150).path, "/me/player/volume?volume_percent=100");
    assert_eq!(volume_request(-5).path, "/me/player/volume?volume_percent=0");
    assert_eq!(volume_request(35).path, "/me/player/volume?volume_percent=35");
    assert_eq!(shuffle_request(&state_with(PlayerState::Paused, false, RepeatMode::Off)).path, "/me/player/shuffle?state=true");
    assert_eq!(shuffle_request(&state_with(PlayerState::Paused, true, RepeatMode::Off)).path, "/me/player/shuffle?state=false");
    assert_eq!(repeat_request(&state_with(PlayerState::Paused, false, RepeatMode::Off)).path, "/me/player/repeat?state=context");
    assert_eq!(repeat_request(&state_with(PlayerState::Paused, false, RepeatMode::All)).path, "/me/player/repeat?state=track");
    assert_eq!(repeat_request(&state_with(PlayerState::Paused, false, RepeatMode::One)).path, "/me/player/repeat?state=off");
}

#[test]
fn favorite_requests() {
    assert_eq!(favorite_check_path("t1"), "/me/tracks/contains?ids=t1");
    let r = favorite_request("t1", Some(&vec![Some(true)]));
    assert_eq!(r.method, Method::Delete);
    assert_eq!(r.path, "/me/tracks");
    assert!(matches!(r.body, Some(RequestBody::Ids(ids)) if ids == vec![s("t1")]));
    assert_eq!(favorite_request("t1", Some(&vec![Some(false)])).method, Method::Put);
    assert_eq!(favorite_request("t1", Some(&vec![None, Some(true)])).method, Method::Put);
    assert_eq!(favorite_request("t1", None).method, Method::Put);
}

#[test]
fn playlist_and_track_requests() {
    let r = play_in_playlist_request("pid", 4);
    assert_eq!((r.method, r.path.as_str()), (Method::Put, "/me/player/play"));
    assert!(matches!(r.body, Some(RequestBody::PlayContext(uri, 4)) if uri == "spotify:playlist:pid"));
    let r = play_uri_request("spotify:track:1");
    assert!(matches!(r.body, Some(RequestBody::Uris(u)) if u == vec![s("spotify:track:1")]));
    let r = add_track_request("pid", "u");
    assert_eq!((r.method, r.path.as_str()), (Method::Post, "/playlists/pid/tracks"));
    assert_eq!(remove_lookup_path("pid", 7), "/playlists/pid/tracks?limit=1&offset=7&fields=items(track(uri))");
    let r = remove_track_request("pid", "u", 7);
    assert_eq!((r.method, r.path.as_str()), (Method::Delete, "/playlists/pid/tracks"));
    assert!(matches!(r.body, Some(RequestBody::RemoveTrack(u, 7)) if u == "u"));
}

#[test]
fn search_paths() {
    assert_eq!(search_path("a b"), "/search?q=a%20b&type=track&limit=20");
    assert_eq!(track_lookup_path("Song", "Art"), "/search?q=track%3ASong%20artist%3AArt&type=track&limit=1");
    assert_eq!(artist_lookup_path("Art"), "/search?q=Art&type=artist&limit=1");
    assert_eq!(album_lookup_path("Al", "Art"), "/search?q=album%3AAl%20artist%3AArt&type=album&limit=1");
}

#[test]
fn api_addresses() {
    assert_eq!(api_url("/me/player"), "https://api.spotify.com/v1/me/player");
    assert_eq!(api_url("https://api.spotify.com/v1/next?x=1"), "https://api.spotify.com/v1/next?x=1");
    assert_eq!(api_write_url("/me/tracks"), "https://api.spotify.com/v1/me/tracks");
    assert_eq!(bearer("tok"), "Bearer tok");
    assert_eq!(lrclib_url("A B", "C&D"), "https://lrclib.net/api/get?track_name=A%20B&artist_name=C%26D");
}

#[test]
fn synced_lyrics_are_split() {
    let e = synced_entries("[00:01.00]Hello\n[00:02.50]World]\nno stamp\n[broken\n[]\r\n");
    assert_eq!(
        e,
        vec![
            (s("00:01.00"), s("Hello")),
            (s("00:02.50"), s("World]")),
            (s(""), s("")),
        ]
    );
}

#[test]
fn lyrics_prefer_synced_then_plain() {
    let text = "[00:01.00]Hello\n[00:02.50]World";
    let r = lyrics_from_reply(Some(text), &[Some(1000), Some(2500)], Some("plain")).unwrap();
    assert!(r.synced);
    assert_eq!(r.lines.len(), 2);
    assert_eq!(r.lines[1].text, "World");
    assert_eq!(r.lines[1].time_ms, Some(2500));
    let r = lyrics_from_reply(Some(""), &[], Some("a\nb\n")).unwrap();
    assert!(!r.synced);
    assert_eq!(r.lines.len(), 2);
    assert_eq!(r.lines[0].text, "a");
    assert_eq!(r.lines[0].time_ms, None);
    let r = lyrics_from_reply(Some("no stamps"), &[], Some("x")).unwrap();
    assert!(!r.synced);
    assert!(lyrics_from_reply(None, &[], Some("")).is_none());
    assert!(lyrics_from_reply(None, &[], None).is_none());
}

#[test]
fn polling_reports_changes_only() {
    let mut mem = PollMemory::new();
    let mut st = state_with(PlayerState::Playing, false, RepeatMode::Off);
    st.track = Some(Track { name: s("Song"), artist: s("Art"), album: s("Al"), duration_ms: 180000, position_ms: 0 });
    let info = poll_notification(&mut mem, &st).unwrap();
    assert_eq!(info.player_state, "Playing");
    assert_eq!(info.name, "Song");
    assert_eq!(info.artist, "Art");
    assert_eq!(info.album, "Al");
    assert_eq!(info.total_time_ms, 180000);
    assert!(poll_notification(&mut mem, &st).is_none());
    st.player_state = PlayerState::Paused;
    assert_eq!(poll_notification(&mut mem, &st).unwrap().player_state, "Paused");
    st.track = None;
    let info = poll_notification(&mut mem, &st).unwrap();
    assert_eq!(info.name, "");
    assert_eq!(info.total_time_ms, 0);
}
