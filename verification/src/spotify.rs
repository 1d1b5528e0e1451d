//! The Spotify backend's own logic: percent-encoding, the PKCE pair and
//! authorization URL, reading the OAuth callback, token expiry, and
//! turning Web API replies (already decoded into plain values) into player
//! state, playlists and search results.

use vstd::prelude::*;
use vstd::utf8::encode_utf8;
use vstd::wrapping::u64_specs::{wrapping_add, wrapping_mul};
use crate::backend::{
    FullState, LyricsLine, LyricsResult, NotificationInfo, PlayerState, PlaylistTrack, RepeatMode,
    SearchResult, Track,
};
use crate::clock::now_unix_millis;
use crate::crypto::{b64url_spec, base64url_encode, lemma_b64url_shape, sha256, sha256_spec};
use crate::text::{
    chars_of, char_seqs, decimal, push_char, u64_to_string, push_chars, push_str, split_chars, split_on,
    split_whitespace, starts_with_chars, first_index_of, find_char, lines_of, lines_spec, slice_range,
    str_eq, starts_with_seq, string_from_chars, trim_start_matches,
    trim_start_matches_chars, words,
};

verus! {

broadcast use vstd::string::group_string_axioms;

/// Characters that need no escaping in a URL component.
pub open spec fn url_safe(c: char) -> bool {
    ('A' <= c <= 'Z') || ('a' <= c <= 'z') || ('0' <= c <= '9') || c == '-' || c == '_' || c == '.'
        || c == '~'
}

/// Bytes that pass through percent-encoding unchanged.
pub open spec fn unreserved(b: u8) -> bool {
    (65 <= b <= 90) || (97 <= b <= 122) || (48 <= b <= 57) || b == 45 || b == 95 || b == 46 || b
        == 126
}

/// Uppercase hexadecimal digit.
pub open spec fn hex_upper(d: int) -> char {
    if d < 10 {
        (48 + d) as char
    } else {
        (55 + d) as char
    }
}

/// Encoding of one byte: itself when unreserved, `%20` for a space,
/// otherwise `%` and two uppercase hex digits.
pub open spec fn encode_byte(b: u8) -> Seq<char> {
    if unreserved(b) {
        seq![b as char]
    } else if b == 32 {
        seq!['%', '2', '0']
    } else {
        seq!['%', hex_upper(b as int / 16), hex_upper(b as int % 16)]
    }
}

/// Percent-encoding of a byte string, byte by byte.
pub open spec fn url_encode_bytes(bs: Seq<u8>) -> Seq<char>
    decreases bs.len(),
{
    if bs.len() == 0 {
        Seq::empty()
    } else {
        url_encode_bytes(bs.drop_last()) + encode_byte(bs.last())
    }
}

/// Percent-encoding of a text, over its UTF-8 bytes.
pub open spec fn urlencoded_spec(s: Seq<char>) -> Seq<char> {
    url_encode_bytes(vstd::utf8::encode_utf8(s))
}

fn hex_upper_exec(d: u8) -> (c: char)
    requires
        d < 16,
    ensures
        c == hex_upper(d as int),
{
    let b: u8 = if d < 10 {
        48 + d
    } else {
        55 + d
    };
    b as char
}

/// Percent-encodes a text for use in a URL query.
pub fn urlencoded(s: &str) -> (r: String)
    ensures
        r@ == urlencoded_spec(s@),
{
    let bytes = s.as_bytes();
    let mut out: Vec<char> = Vec::new();
    for i in 0..bytes.len()
        invariant
            out@ == url_encode_bytes(bytes@.take(i as int)),
    {
        let b = bytes[i];
        let ghost before = out@;
        if (65 <= b && b <= 90) || (97 <= b && b <= 122) || (48 <= b && b <= 57) || b == 45 || b
            == 95 || b == 46 || b == 126 {
            out.push(b as char);
        } else if b == 32 {
            out.push('%');
            out.push('2');
            out.push('0');
        } else {
            out.push('%');
            out.push(hex_upper_exec(b / 16));
            out.push(hex_upper_exec(b % 16));
        }
        assert(bytes@.take(i + 1).drop_last() =~= bytes@.take(i as int));
        assert(out@ =~= before + encode_byte(b));
    }
    assert(bytes@.take(bytes@.len() as int) =~= bytes@);
    crate::text::string_from_chars(out.as_slice())
}

/// Percent-encoded text holds only URL-safe characters and `%`.
pub proof fn lemma_urlencoded_safe(bs: Seq<u8>)
    ensures
        forall|i: int|
            0 <= i < url_encode_bytes(bs).len() ==> url_safe(#[trigger] url_encode_bytes(bs)[i])
                || url_encode_bytes(bs)[i] == '%',
    decreases bs.len(),
{
    if bs.len() > 0 {
        lemma_urlencoded_safe(bs.drop_last());
        let front = url_encode_bytes(bs.drop_last());
        let e = encode_byte(bs.last());
        let whole = url_encode_bytes(bs);
        assert forall|i: int| 0 <= i < whole.len() implies url_safe(#[trigger] whole[i]) || whole[i]
            == '%' by {
            if i < front.len() {
                assert(whole[i] == front[i]);
            } else {
                assert(whole[i] == e[i - front.len()]);
            }
        }
    }
}

// ---------------------------------------------------------------------------
// OAuth tokens
// ---------------------------------------------------------------------------

/// An OAuth access token with its refresh token and expiry (Unix seconds).
pub struct SpotifyToken {
    pub access_token: String,
    pub refresh_token: String,
    pub expires_at: u64,
}

impl Clone for SpotifyToken {
    fn clone(&self) -> (r: Self)
        ensures
            r == *self,
    {
        SpotifyToken {
            access_token: self.access_token.clone(),
            refresh_token: self.refresh_token.clone(),
            expires_at: self.expires_at,
        }
    }
}

/// A token counts as expired from 60 seconds before its expiry on.
pub open spec fn expired_at(t: SpotifyToken, now: u64) -> bool {
    now >= (if t.expires_at >= 60 {
        t.expires_at - 60
    } else {
        0
    })
}

impl SpotifyToken {
    pub fn is_expired_at(&self, now: u64) -> (r: bool)
        ensures
            r == expired_at(*self, now),
    {
        now >= self.expires_at.saturating_sub(60)
    }

    /// Whether the token has expired by the clock.
    pub fn is_expired(&self) -> (r: bool)
        ensures
            exists|now: u64| r == #[trigger] expired_at(*self, now),
            self.expires_at <= 60 ==> r,
    {
        let now = now_unix_millis() / 1000;
        self.is_expired_at(now)
    }
}

/// The fields of a token endpoint reply that are read.
pub struct TokenReply {
    pub access_token: Option<String>,
    pub refresh_token: Option<String>,
    pub expires_in: Option<u64>,
}

/// Lifetime of a token whose reply gives none (one hour).
pub open spec fn lifetime(r: TokenReply) -> u64 {
    match r.expires_in {
        Some(e) => e,
        None => 3600,
    }
}

/// The token a reply describes at Unix time `now`, or why there is none.
pub open spec fn token_from_reply(r: TokenReply, now: u64) -> Result<SpotifyToken, Seq<char>> {
    match r.access_token {
        None => Err("No access_token in response"@),
        Some(a) => match r.refresh_token {
            None => Err("No refresh_token in response"@),
            Some(f) => Ok(
                SpotifyToken { access_token: a, refresh_token: f, expires_at: (now + lifetime(r)) as u64 },
            ),
        },
    }
}

pub open spec fn result_view<T>(r: Result<T, String>) -> Result<T, Seq<char>> {
    match r {
        Ok(t) => Ok(t),
        Err(e) => Err(e@),
    }
}

/// Reads a token reply received at Unix time `now`.
pub fn parse_token_response_at(resp: &TokenReply, now: u64) -> (r: Result<SpotifyToken, String>)
    requires
        now + lifetime(*resp) <= u64::MAX,
    ensures
        result_view(r) == token_from_reply(*resp, now),
{
    let access_token = match &resp.access_token {
        Some(a) => a.clone(),
        None => return Err(String::from_str("No access_token in response")),
    };
    let refresh_token = match &resp.refresh_token {
        Some(f) => f.clone(),
        None => return Err(String::from_str("No refresh_token in response")),
    };
    let expires_in = match resp.expires_in {
        Some(e) => e,
        None => 3600,
    };
    Ok(SpotifyToken { access_token, refresh_token, expires_at: now + expires_in })
}

/// Reads a token reply received now. A clock so far ahead that the expiry
/// does not fit in 64 bits is reported as an error.
pub fn parse_token_response(resp: &TokenReply) -> (r: Result<SpotifyToken, String>)
    ensures
        resp.access_token is None ==> result_view(r) == Err::<SpotifyToken, Seq<char>>(
            "No access_token in response"@,
        ),
        resp.access_token is Some && resp.refresh_token is None ==> result_view(r) == Err::<
            SpotifyToken,
            Seq<char>,
        >("No refresh_token in response"@),
        r matches Ok(t) ==> exists|now: u64| result_view(r) == #[trigger] token_from_reply(*resp, now),
{
    let now = now_unix_millis() / 1000;
    let lifetime: u64 = match resp.expires_in {
        Some(e) => e,
        None => 3600,
    };
    if now > u64::MAX - lifetime {
        // The expiry would not fit in 64 bits: only a clock set some
        // hundred billion years ahead gets here.
        return match (&resp.access_token, &resp.refresh_token) {
            (None, _) => Err(String::from_str("No access_token in response")),
            (Some(_), None) => Err(String::from_str("No refresh_token in response")),
            _ => Err(String::from_str("Clock out of range for token expiry")),
        };
    }
    parse_token_response_at(resp, now)
}

// ---------------------------------------------------------------------------
// The backend's own state
// ---------------------------------------------------------------------------

/// The Spotify backend: the app's client id and the current token.
pub struct SpotifyBackend {
    pub client_id: String,
    pub token: Option<SpotifyToken>,
}

/// What to do before an API call.
pub enum TokenStep {
    /// Use this access token.
    Ready(String),
    /// Refresh the token with this refresh token first.
    Refresh(String),
}

/// What to do before an API call at Unix time `now` with `token`: an error
/// without a token, a refresh for an expired one, otherwise the access token.
pub open spec fn token_step_spec(token: Option<SpotifyToken>, now: u64, r: Result<TokenStep, String>) -> bool {
    match token {
        None => r matches Err(e) && e@ == "Not authenticated"@,
        Some(t) => if expired_at(t, now) {
            r matches Ok(TokenStep::Refresh(f)) && f@ == t.refresh_token@
        } else {
            r matches Ok(TokenStep::Ready(a)) && a@ == t.access_token@
        },
    }
}

impl SpotifyBackend {
    /// A backend for `client_id`, starting from a cached token if one was
    /// saved.
    pub fn new(client_id: &str, cached: Option<SpotifyToken>) -> (r: Self)
        ensures
            r.client_id@ == client_id@,
            r.token == cached,
    {
        SpotifyBackend { client_id: client_id.to_owned(), token: cached }
    }

    pub fn name(&self) -> (r: &'static str)
        ensures
            r@ == "Spotify"@,
    {
        "Spotify"
    }

    pub fn is_authenticated(&self) -> (r: bool)
        ensures
            r == self.token is Some,
    {
        self.token.is_some()
    }

    /// Spotify advances its own queue.
    pub fn needs_queue_advance(&self) -> (r: bool)
        ensures
            !r,
    {
        false
    }

    /// Before an API call at Unix time `now`: an error without a token, a
    /// refresh for an expired one, otherwise the access token.
    pub fn token_step_at(&self, now: u64) -> (r: Result<TokenStep, String>)
        ensures
            token_step_spec(self.token, now, r),
    {
        match &self.token {
            None => Err(String::from_str("Not authenticated")),
            Some(t) => if t.is_expired_at(now) {
                Ok(TokenStep::Refresh(t.refresh_token.clone()))
            } else {
                Ok(TokenStep::Ready(t.access_token.clone()))
            },
        }
    }

    /// The same, by the clock.
    pub fn token_step(&self) -> (r: Result<TokenStep, String>)
        ensures
            exists|now: u64| #[trigger] token_step_spec(self.token, now, r),
    {
        let now = now_unix_millis() / 1000;
        self.token_step_at(now)
    }

    /// After a refresh: a new token replaces the old one and its access
    /// token is used; a failed refresh leaves the token as it was.
    pub fn finish_refresh(&mut self, refreshed: Result<SpotifyToken, String>) -> (r: Result<String, String>)
        ensures
            match refreshed {
                Ok(t) => final(self).token == Some(t) && final(self).client_id == old(self).client_id
                    && (r matches Ok(a) && a@ == t.access_token@),
                Err(e) => *final(self) == *old(self) && (r matches Err(x) && x@ == e@),
            },
    {
        match refreshed {
            Ok(t) => {
                let a = t.access_token.clone();
                self.token = Some(t);
                Ok(a)
            },
            Err(e) => Err(e),
        }
    }

    /// Installs the token obtained by signing in.
    pub fn install_token(&mut self, t: SpotifyToken)
        ensures
            final(self).token == Some(t),
            final(self).client_id == old(self).client_id,
    {
        self.token = Some(t);
    }
}

// ---------------------------------------------------------------------------
// Signing in (OAuth with PKCE)
// ---------------------------------------------------------------------------

/// Where the browser is sent back after signing in.
pub fn redirect_uri() -> (r: &'static str)
    ensures
        r@ == "http://localhost:18234/callback"@,
{
    "http://localhost:18234/callback"
}

/// The permissions asked for.
pub fn oauth_scopes() -> (r: &'static str)
    ensures
        r@ == "user-read-playback-state user-modify-playback-state user-read-currently-playing user-library-read user-library-modify playlist-read-private playlist-modify-public playlist-modify-private"@,
{
    "user-read-playback-state user-modify-playback-state user-read-currently-playing user-library-read user-library-modify playlist-read-private playlist-modify-public playlist-modify-private"
}

/// The sign-in page address for a client and a PKCE challenge.
pub open spec fn authorize_url_spec(client_id: Seq<char>, challenge: Seq<char>) -> Seq<char> {
    "https://accounts.spotify.com/authorize?client_id="@ + client_id
        + "&response_type=code&redirect_uri="@ + urlencoded_spec(
        "http://localhost:18234/callback"@,
    ) + "&code_challenge_method=S256&code_challenge="@ + challenge + "&scope="@ + urlencoded_spec(
        "user-read-playback-state user-modify-playback-state user-read-currently-playing user-library-read user-library-modify playlist-read-private playlist-modify-public playlist-modify-private"@,
    )
}

/// Builds the sign-in page address.
pub fn authorize_url(client_id: &str, challenge: &str) -> (r: String)
    ensures
        r@ == authorize_url_spec(client_id@, challenge@),
{
    let mut out = String::new();
    push_str(&mut out, "https://accounts.spotify.com/authorize?client_id=");
    push_str(&mut out, client_id);
    push_str(&mut out, "&response_type=code&redirect_uri=");
    let redirect = urlencoded(redirect_uri());
    push_str(&mut out, redirect.as_str());
    push_str(&mut out, "&code_challenge_method=S256&code_challenge=");
    push_str(&mut out, challenge);
    push_str(&mut out, "&scope=");
    let scopes = urlencoded(oauth_scopes());
    push_str(&mut out, scopes.as_str());
    assert(out@ =~= authorize_url_spec(client_id@, challenge@));
    out
}

/// The first piece that starts with `p`.
pub open spec fn first_with_prefix(pieces: Seq<Seq<char>>, p: Seq<char>) -> Option<Seq<char>>
    decreases pieces.len(),
{
    if pieces.len() == 0 {
        None
    } else if starts_with_seq(pieces[0], p) {
        Some(pieces[0])
    } else {
        first_with_prefix(pieces.drop_first(), p)
    }
}

/// The authorization code in the callback's request line
/// (`GET /callback?code=XXXX HTTP/1.1`): the query of the second word, its
/// first `&`-separated piece starting with `code=`, without the prefix.
pub open spec fn auth_code_spec(request_line: Seq<char>) -> Option<Seq<char>> {
    let ws = words(request_line);
    if ws.len() < 2 {
        None
    } else {
        let parts = split_on(ws[1], '?');
        if parts.len() < 2 {
            None
        } else {
            match first_with_prefix(split_on(parts[1], '&'), "code="@) {
                Some(piece) => Some(trim_start_matches(piece, "code="@)),
                None => None,
            }
        }
    }
}

/// Reads the authorization code from the callback's request line.
pub fn extract_auth_code(request_line: &str) -> (r: Result<String, String>)
    ensures
        match auth_code_spec(request_line@) {
            Some(c) => r matches Ok(x) && x@ == c,
            None => r matches Err(e) && e@ == "No auth code in callback"@,
        },
{
    let line = chars_of(request_line);
    let ws = split_whitespace(line.as_slice());
    if ws.len() < 2 {
        return Err(String::from_str("No auth code in callback"));
    }
    assert(ws@[1]@ == words(request_line@)[1]);
    let parts = split_chars(ws[1].as_slice(), '?');
    if parts.len() < 2 {
        return Err(String::from_str("No auth code in callback"));
    }
    let pieces = split_chars(parts[1].as_slice(), '&');
    let ghost pv = split_on(parts@[1]@, '&');
    assert(char_seqs(pieces@) =~= pv);
    let prefix = chars_of("code=");
    assert(pv.skip(0) =~= pv);
    assert(parts@[1]@ == split_on(ws@[1]@, '?')[1]);
    assert(auth_code_spec(request_line@) == match first_with_prefix(pv, "code="@) {
        Some(piece) => Some(trim_start_matches(piece, "code="@)),
        None => None,
    });
    let ghost target = auth_code_spec(request_line@);
    for i in 0..pieces.len()
        invariant
            target == auth_code_spec(request_line@),
            target == match first_with_prefix(pv, "code="@) {
                Some(piece) => Some(trim_start_matches(piece, "code="@)),
                None => None,
            },
            pieces@.len() == pv.len(),
            forall|j: int| 0 <= j < pieces@.len() ==> #[trigger] pieces@[j]@ == pv[j],
            prefix@ == "code="@,
            first_with_prefix(pv, "code="@) == first_with_prefix(pv.skip(i as int), "code="@),
    {
        let ghost rest = pv.skip(i as int);
        assert(rest[0] == pv[i as int]);
        assert(rest.drop_first() =~= pv.skip(i + 1));
        if starts_with_chars(pieces[i].as_slice(), prefix.as_slice()) {
            let code = trim_start_matches_chars(pieces[i].as_slice(), prefix.as_slice());
            return Ok(string_from_chars(code.as_slice()));
        }
    }
    assert(pv.skip(pv.len() as int).len() == 0);
    Err(String::from_str("No auth code in callback"))
}

/// The form body that exchanges an authorization code for a token.
pub open spec fn exchange_body_spec(code: Seq<char>, client_id: Seq<char>, verifier: Seq<char>) -> Seq<char> {
    "grant_type=authorization_code&code="@ + urlencoded_spec(code) + "&redirect_uri="@
        + urlencoded_spec("http://localhost:18234/callback"@) + "&client_id="@ + client_id
        + "&code_verifier="@ + verifier
}

pub fn token_exchange_body(code: &str, client_id: &str, verifier: &str) -> (r: String)
    ensures
        r@ == exchange_body_spec(code@, client_id@, verifier@),
{
    let mut out = String::new();
    push_str(&mut out, "grant_type=authorization_code&code=");
    let c = urlencoded(code);
    push_str(&mut out, c.as_str());
    push_str(&mut out, "&redirect_uri=");
    let redirect = urlencoded(redirect_uri());
    push_str(&mut out, redirect.as_str());
    push_str(&mut out, "&client_id=");
    push_str(&mut out, client_id);
    push_str(&mut out, "&code_verifier=");
    push_str(&mut out, verifier);
    assert(out@ =~= exchange_body_spec(code@, client_id@, verifier@));
    out
}

/// The form body that refreshes a token.
pub open spec fn refresh_body_spec(refresh_token: Seq<char>, client_id: Seq<char>) -> Seq<char> {
    "grant_type=refresh_token&refresh_token="@ + urlencoded_spec(refresh_token) + "&client_id="@
        + client_id
}

pub fn refresh_body(refresh_token: &str, client_id: &str) -> (r: String)
    ensures
        r@ == refresh_body_spec(refresh_token@, client_id@),
{
    let mut out = String::new();
    push_str(&mut out, "grant_type=refresh_token&refresh_token=");
    let t = urlencoded(refresh_token);
    push_str(&mut out, t.as_str());
    push_str(&mut out, "&client_id=");
    push_str(&mut out, client_id);
    assert(out@ =~= refresh_body_spec(refresh_token@, client_id@));
    out
}

/// One step of the generator that draws the verifier's bytes.
pub open spec fn lcg_step(s: u64) -> u64 {
    wrapping_add(wrapping_mul(s, 6364136223846793005), 1)
}

/// The generator's state after `k` steps from `seed`.
pub open spec fn lcg_state(seed: u64, k: nat) -> u64
    decreases k,
{
    if k == 0 {
        seed
    } else {
        lcg_step(lcg_state(seed, (k - 1) as nat))
    }
}

/// The 64 verifier bytes drawn from a seed: bits 33 to 40 of each state.
pub open spec fn verifier_bytes_spec(seed: u64) -> Seq<u8> {
    Seq::new(64, |k: int| (lcg_state(seed, (k + 1) as nat) >> 33u64) as u8)
}

/// The 64 bytes of a PKCE verifier drawn from `seed`.
pub fn pkce_verifier_bytes(seed: u64) -> (r: Vec<u8>)
    ensures
        r@ == verifier_bytes_spec(seed),
{
    let mut state = seed;
    let mut bytes: Vec<u8> = Vec::new();
    for k in 0..64usize
        invariant
            state == lcg_state(seed, k as nat),
            bytes@ == verifier_bytes_spec(seed).take(k as int),
    {
        state = state.wrapping_mul(6364136223846793005).wrapping_add(1);
        bytes.push((state >> 33u64) as u8);
        assert(bytes@ =~= verifier_bytes_spec(seed).take(k + 1));
    }
    assert(verifier_bytes_spec(seed).take(64) =~= verifier_bytes_spec(seed));
    bytes
}

/// The PKCE verifier for a seed: its bytes in base64url.
pub open spec fn pkce_verifier_spec(seed: u64) -> Seq<char> {
    b64url_spec(verifier_bytes_spec(seed))
}

/// The challenge for a verifier: base64url of the SHA-256 of its text.
pub open spec fn pkce_challenge_spec(verifier: Seq<char>) -> Seq<char> {
    b64url_spec(sha256_spec(encode_utf8(verifier)))
}

/// A verifier is 86 URL-safe characters; its challenge is 43.
pub proof fn lemma_pkce_shape(seed: u64)
    ensures
        pkce_verifier_spec(seed).len() == 86,
        forall|i: int|
            0 <= i < pkce_verifier_spec(seed).len() ==> url_safe(#[trigger] pkce_verifier_spec(seed)[i]),
        encode_utf8(pkce_verifier_spec(seed)).len() == 86,
        pkce_challenge_spec(pkce_verifier_spec(seed)).len() == 43,
        forall|i: int|
            0 <= i < pkce_challenge_spec(pkce_verifier_spec(seed)).len() ==> url_safe(
                #[trigger] pkce_challenge_spec(pkce_verifier_spec(seed))[i],
            ),
{
    let v = pkce_verifier_spec(seed);
    lemma_b64url_shape(verifier_bytes_spec(seed));
    assert(vstd::utf8::is_ascii_chars(v)) by {
        assert forall|i: int| 0 <= i < v.len() implies '\0' <= #[trigger] v[i] <= '\u{7f}' by {
            assert(url_safe(v[i]));
        }
    }
    vstd::utf8::is_ascii_chars_encode_utf8(v);
    lemma_b64url_shape(sha256_spec(encode_utf8(v)));
}

/// A PKCE pair (verifier, challenge) drawn from `seed`.
pub fn pkce_pair(seed: u64) -> (r: (String, String))
    ensures
        r.0@ == pkce_verifier_spec(seed),
        r.1@ == pkce_challenge_spec(r.0@),
{
    let bytes = pkce_verifier_bytes(seed);
    let verifier = base64url_encode(bytes.as_slice());
    proof {
        lemma_pkce_shape(seed);
    }
    let hash = sha256(verifier.as_str().as_bytes());
    let challenge = base64url_encode(hash.as_slice());
    (verifier, challenge)
}

// ---------------------------------------------------------------------------
// Web API replies, decoded into plain values
// ---------------------------------------------------------------------------

/// The fields of a track object that are read. `artists` holds each
/// artist's name where it has one.
pub struct ItemReply {
    pub name: Option<String>,
    pub artists: Option<Vec<Option<String>>>,
    pub album_name: Option<String>,
    pub duration_ms: Option<u64>,
}

/// The text of an optional string, empty when absent.
pub open spec fn text_or_empty(o: Option<String>) -> Seq<char> {
    match o {
        Some(s) => s@,
        None => Seq::empty(),
    }
}

/// The names that are present, in order.
pub open spec fn present_names(v: Seq<Option<String>>) -> Seq<Seq<char>>
    decreases v.len(),
{
    if v.len() == 0 {
        seq![]
    } else {
        let prev = present_names(v.drop_last());
        match v.last() {
            Some(n) => prev.push(n@),
            None => prev,
        }
    }
}

/// Texts joined with a separator between them.
pub open spec fn join_sep(xs: Seq<Seq<char>>, sep: Seq<char>) -> Seq<char>
    decreases xs.len(),
{
    if xs.len() == 0 {
        seq![]
    } else if xs.len() == 1 {
        xs[0]
    } else {
        join_sep(xs.drop_last(), sep) + sep + xs.last()
    }
}

/// The artists of a track, joined with `, `.
pub open spec fn artists_text(a: Option<Vec<Option<String>>>) -> Seq<char> {
    match a {
        Some(v) => join_sep(present_names(v@), seq![',', ' ']),
        None => Seq::empty(),
    }
}

fn text_of(o: &Option<String>) -> (r: String)
    ensures
        r@ == text_or_empty(*o),
{
    match o {
        Some(s) => s.clone(),
        None => String::new(),
    }
}

/// Joins the artist names that are present with `, `.
pub fn artists_joined(a: &Option<Vec<Option<String>>>) -> (r: String)
    ensures
        r@ == artists_text(*a),
{
    let v = match a {
        Some(v) => v,
        None => return String::new(),
    };
    let mut out = String::new();
    let mut count: usize = 0;
    for i in 0..v.len()
        invariant
            count == present_names(v@.take(i as int)).len(),
            out@ == join_sep(present_names(v@.take(i as int)), seq![',', ' ']),
            count <= i,
    {
        let ghost pre = v@.take(i as int);
        assert(v@.take(i + 1).drop_last() =~= pre);
        assert(v@.take(i + 1).last() == v@[i as int]);
        if let Some(n) = &v[i] {
            let ghost names = present_names(pre);
            if count > 0 {
                push_char(&mut out, ',');
                push_char(&mut out, ' ');
            }
            push_str(&mut out, n.as_str());
            proof {
                let now = names.push(n@);
                if count > 0 {
                    assert(now.drop_last() =~= names);
                    assert(out@ =~= join_sep(names, seq![',', ' ']) + seq![',', ' '] + n@);
                } else {
                    assert(out@ =~= now[0]);
                }
            }
            count = count + 1;
        }
    }
    assert(v@.take(v@.len() as int) =~= v@);
    out
}

/// The player's reply to a state poll (fields that are read).
pub struct PlayerReply {
    pub is_playing: Option<bool>,
    pub volume_percent: Option<i64>,
    pub shuffle_state: Option<bool>,
    pub repeat_state: Option<String>,
    pub item: Option<ItemReply>,
    pub progress_ms: Option<u64>,
}

/// Spotify's repeat state names: `track` repeats one, `context` all.
pub open spec fn repeat_from_name(n: Option<String>) -> RepeatMode {
    match n {
        Some(s) => if s@ == "track"@ {
            RepeatMode::One
        } else if s@ == "context"@ {
            RepeatMode::All
        } else {
            RepeatMode::Off
        },
        None => RepeatMode::Off,
    }
}

/// A track built from a reply item and the playback position.
pub open spec fn item_track(t: Track, it: ItemReply, progress: Option<u64>) -> bool {
    &&& t.name@ == text_or_empty(it.name)
    &&& t.artist@ == artists_text(it.artists)
    &&& t.album@ == text_or_empty(it.album_name)
    &&& t.duration_ms == match it.duration_ms {
        Some(d) => d,
        None => 0,
    }
    &&& t.position_ms == match progress {
        Some(p) => p,
        None => 0,
    }
}

fn track_from_item(it: &ItemReply, progress: Option<u64>) -> (r: Track)
    ensures
        item_track(r, *it, progress),
{
    Track {
        name: text_of(&it.name),
        artist: artists_joined(&it.artists),
        album: text_of(&it.album_name),
        duration_ms: match it.duration_ms {
            Some(d) => d,
            None => 0,
        },
        position_ms: match progress {
            Some(p) => p,
            None => 0,
        },
    }
}

/// The state shown when the player cannot be read: running as far as the
/// backend is signed in, stopped, volume 50.
pub open spec fn default_state(s: FullState, authenticated: bool) -> bool {
    &&& s.music_running == authenticated
    &&& s.player_state == PlayerState::Stopped
    &&& s.volume == 50
    &&& !s.shuffle_enabled
    &&& s.repeat_mode == RepeatMode::Off
    &&& s.track is None
    &&& !s.track_favorited
}

/// The state a player reply describes.
pub open spec fn reply_state(s: FullState, p: PlayerReply) -> bool {
    &&& s.music_running
    &&& s.player_state == if p.is_playing == Some(true) {
        PlayerState::Playing
    } else {
        PlayerState::Paused
    }
    &&& s.volume == (match p.volume_percent {
        Some(v) => v,
        None => 50,
    }) as i32
    &&& s.shuffle_enabled == (p.shuffle_state == Some(true))
    &&& s.repeat_mode == repeat_from_name(p.repeat_state)
    &&& match p.item {
        Some(it) => s.track matches Some(t) && item_track(t, it, p.progress_ms),
        None => s.track is None,
    }
    &&& !s.track_favorited
}

/// The player state from a poll: the default when the request failed or
/// nothing is playing (`None`), otherwise what the reply says.
pub fn state_from_reply(authenticated: bool, reply: Option<&PlayerReply>) -> (r: FullState)
    ensures
        match reply {
            None => default_state(r, authenticated),
            Some(p) => reply_state(r, *p),
        },
{
    let p = match reply {
        None => return FullState {
            music_running: authenticated,
            player_state: PlayerState::Stopped,
            volume: 50,
            shuffle_enabled: false,
            repeat_mode: RepeatMode::Off,
            track: None,
            track_favorited: false,
        },
        Some(p) => p,
    };
    let is_playing = match p.is_playing {
        Some(b) => b,
        None => false,
    };
    let volume = match p.volume_percent {
        Some(v) => v,
        None => 50,
    };
    let repeat = match &p.repeat_state {
        Some(n) => if crate::text::str_eq(n.as_str(), "track") {
            RepeatMode::One
        } else if crate::text::str_eq(n.as_str(), "context") {
            RepeatMode::All
        } else {
            RepeatMode::Off
        },
        None => RepeatMode::Off,
    };
    let track = match &p.item {
        Some(it) => Some(track_from_item(it, p.progress_ms)),
        None => None,
    };
    FullState {
        music_running: true,
        player_state: if is_playing {
            PlayerState::Playing
        } else {
            PlayerState::Paused
        },
        volume: volume as i32,
        shuffle_enabled: match p.shuffle_state {
            Some(b) => b,
            None => false,
        },
        repeat_mode: repeat,
        track,
        track_favorited: false,
    }
}

/// A playlist entry built from a reply item.
pub open spec fn item_playlist_track(t: PlaylistTrack, it: ItemReply) -> bool {
    &&& t.name@ == text_or_empty(it.name)
    &&& t.artist@ == artists_text(it.artists)
    &&& t.album@ == text_or_empty(it.album_name)
    &&& t.duration_ms == match it.duration_ms {
        Some(d) => d,
        None => 0,
    }
}

fn playlist_track_from_item(it: &ItemReply) -> (r: PlaylistTrack)
    ensures
        item_playlist_track(r, *it),
{
    PlaylistTrack {
        name: text_of(&it.name),
        artist: artists_joined(&it.artists),
        album: text_of(&it.album_name),
        duration_ms: match it.duration_ms {
            Some(d) => d,
            None => 0,
        },
    }
}

/// A search hit built from a reply item.
pub open spec fn item_search_result(r: SearchResult, it: ItemReply) -> bool {
    &&& r.name@ == text_or_empty(it.name)
    &&& r.artist@ == artists_text(it.artists)
    &&& r.album@ == text_or_empty(it.album_name)
}

/// The search hits of a reply: one per item; none when the request failed
/// or the reply has no item list.
pub fn search_results_from(items: Option<&Vec<ItemReply>>) -> (r: Vec<SearchResult>)
    ensures
        match items {
            Some(v) => r@.len() == v@.len() && forall|i: int|
                0 <= i < v@.len() ==> item_search_result(#[trigger] r@[i], v@[i]),
            None => r@.len() == 0,
        },
{
    let v = match items {
        Some(v) => v,
        None => return Vec::new(),
    };
    let mut out: Vec<SearchResult> = Vec::new();
    for i in 0..v.len()
        invariant
            out@.len() == i,
            forall|j: int| 0 <= j < i ==> item_search_result(#[trigger] out@[j], v@[j]),
    {
        let it = &v[i];
        out.push(
            SearchResult {
                name: text_of(&it.name),
                artist: artists_joined(&it.artists),
                album: text_of(&it.album_name),
            },
        );
    }
    out
}

// ---------------------------------------------------------------------------
// Paging through lists
// ---------------------------------------------------------------------------

/// One entry of a page of playlists.
pub struct NamedItem {
    pub name: Option<String>,
    pub id: Option<String>,
}

/// A page of playlists: its entries and the total count.
pub struct PlaylistPage {
    pub items: Option<Vec<NamedItem>>,
    pub total: Option<u64>,
}

/// A page of playlist tracks; `None` entries are tracks that are gone.
pub struct TracksPage {
    pub items: Option<Vec<Option<ItemReply>>>,
    pub total: Option<u64>,
}

/// The offset of the next page after a page of `n` entries at `offset`,
/// unless the total has been reached.
pub open spec fn next_offset(offset: usize, n: nat, total: Option<u64>) -> Option<usize> {
    let t = match total {
        Some(t) => t,
        None => 0,
    };
    if offset + n >= (t as usize) {
        None
    } else {
        Some((offset + n) as usize)
    }
}

/// The names of a page's playlists that have one.
pub open spec fn page_names(items: Seq<NamedItem>) -> Seq<Seq<char>>
    decreases items.len(),
{
    if items.len() == 0 {
        seq![]
    } else {
        let prev = page_names(items.drop_last());
        match items.last().name {
            Some(n) => prev.push(n@),
            None => prev,
        }
    }
}

pub open spec fn texts(v: Seq<String>) -> Seq<Seq<char>> {
    v.map_values(|s: String| s@)
}

/// The path of the page of playlists at `offset`.
pub fn playlists_path(offset: usize) -> (r: String)
    ensures
        r@ == "/me/playlists?limit=50&offset="@ + decimal(offset as nat),
{
    let mut out = String::new();
    push_str(&mut out, "/me/playlists?limit=50&offset=");
    let n = u64_to_string(offset as u64);
    push_str(&mut out, n.as_str());
    out
}

/// Adds a page of playlists to the names collected so far and returns the
/// next offset, or `None` when the listing ends (failed request, no or
/// empty list, total reached).
pub fn playlists_page_step(acc: &mut Vec<String>, offset: usize, page: Option<&PlaylistPage>) -> (r: Option<usize>)
    requires
        page matches Some(p) ==> (p.items matches Some(v) ==> offset + v@.len() <= usize::MAX),
    ensures
        match page {
            Some(p) => match p.items {
                Some(v) => if v@.len() == 0 {
                    r is None && final(acc)@ == old(acc)@
                } else {
                    r == next_offset(offset, v@.len(), p.total) && texts(final(acc)@) == texts(
                        old(acc)@,
                    ) + page_names(v@)
                },
                None => r is None && final(acc)@ == old(acc)@,
            },
            None => r is None && final(acc)@ == old(acc)@,
        },
{
    let p = match page {
        Some(p) => p,
        None => return None,
    };
    let items = match &p.items {
        Some(v) => v,
        None => return None,
    };
    if items.len() == 0 {
        return None;
    }
    let ghost start = texts(acc@);
    for i in 0..items.len()
        invariant
            texts(acc@) == start + page_names(items@.take(i as int)),
    {
        assert(items@.take(i + 1).drop_last() =~= items@.take(i as int));
        assert(items@.take(i + 1).last() == items@[i as int]);
        if let Some(n) = &items[i].name {
            let ghost before = texts(acc@);
            acc.push(n.clone());
            assert(texts(acc@) =~= before.push(n@));
        }
    }
    assert(items@.take(items@.len() as int) =~= items@);
    let total: u64 = match p.total {
        Some(t) => t,
        None => 0,
    };
    let next = offset + items.len();
    if next >= total as usize {
        None
    } else {
        Some(next)
    }
}

/// Looking for a playlist: finished (with its id, if it has one), or go
/// on with the page at an offset.
pub enum PageSearch {
    Done(Option<String>),
    Continue(usize),
}

/// The position of the first entry named `name`.
pub open spec fn named_index(items: Seq<NamedItem>, name: Seq<char>) -> Option<int>
    decreases items.len(),
{
    if items.len() == 0 {
        None
    } else if items[0].name matches Some(n) && n@ == name {
        Some(0)
    } else {
        match named_index(items.drop_first(), name) {
            Some(i) => Some(i + 1),
            None => None,
        }
    }
}

/// Whether an item is named `name`.
pub open spec fn is_named(item: NamedItem, name: Seq<char>) -> bool {
    item.name matches Some(n) && n@ == name
}

/// The playlist found is the first one of that name: `named_index` points
/// at an item named `name` with none before it, and finds nothing exactly
/// when no item has that name.
pub proof fn lemma_first_named(items: Seq<NamedItem>, name: Seq<char>)
    ensures
        named_index(items, name) matches Some(i) ==> 0 <= i < items.len() && is_named(items[i], name)
            && forall|j: int| 0 <= j < i ==> !is_named(#[trigger] items[j], name),
        named_index(items, name) is None ==> forall|j: int|
            0 <= j < items.len() ==> !is_named(#[trigger] items[j], name),
    decreases items.len(),
{
    if items.len() > 0 {
        let rest = items.drop_first();
        lemma_first_named(rest, name);
        assert forall|j: int| 1 <= j < items.len() implies items[j] == #[trigger] rest[j - 1] by {}
        if !is_named(items[0], name) {
            match named_index(rest, name) {
                Some(i) => {
                    assert forall|j: int| 0 <= j < i + 1 implies !is_named(#[trigger] items[j], name) by {
                        if j > 0 {
                            assert(items[j] == rest[j - 1]);
                        }
                    }
                },
                None => {
                    assert forall|j: int| 0 <= j < items.len() implies !is_named(#[trigger] items[j], name) by {
                        if j > 0 {
                            assert(items[j] == rest[j - 1]);
                        }
                    }
                },
            }
        }
    }
}

/// `named_index` over two lists in a row: a match in the first list wins;
/// otherwise a match in the second, shifted past the first.
proof fn lemma_named_index_concat(a: Seq<NamedItem>, b: Seq<NamedItem>, name: Seq<char>)
    ensures
        named_index(a + b, name) == match named_index(a, name) {
            Some(i) => Some(i),
            None => match named_index(b, name) {
                Some(j) => Some(a.len() + j),
                None => None,
            },
        },
    decreases a.len(),
{
    if a.len() == 0 {
        assert(a + b =~= b);
    } else {
        lemma_named_index_concat(a.drop_first(), b, name);
        assert((a + b).drop_first() =~= a.drop_first() + b);
        assert((a + b)[0] == a[0]);
    }
}

/// The items of pages read in order, one list.
pub open spec fn pages_items(pages: Seq<Seq<NamedItem>>) -> Seq<NamedItem>
    decreases pages.len(),
{
    if pages.len() == 0 {
        Seq::empty()
    } else {
        pages[0] + pages_items(pages.drop_first())
    }
}

/// The search page by page, as `find_playlist_step` takes it: the first
/// page with an item named `name` stops it with that page's first such
/// item; a page without one passes on to the next.
pub open spec fn page_walk(pages: Seq<Seq<NamedItem>>, name: Seq<char>) -> Option<NamedItem>
    decreases pages.len(),
{
    if pages.len() == 0 {
        None
    } else {
        match named_index(pages[0], name) {
            Some(i) => Some(pages[0][i]),
            None => page_walk(pages.drop_first(), name),
        }
    }
}

/// Searching page by page finds the first item named `name` over all the
/// pages read, in order: a later item of the same name, on the same page
/// or a later one, is never chosen, and nothing is found exactly when no
/// item read has that name.
pub proof fn lemma_page_walk_first(pages: Seq<Seq<NamedItem>>, name: Seq<char>)
    ensures
        page_walk(pages, name) == match named_index(pages_items(pages), name) {
            Some(i) => Some(pages_items(pages)[i]),
            None => None,
        },
    decreases pages.len(),
{
    if pages.len() > 0 {
        let rest = pages.drop_first();
        lemma_page_walk_first(rest, name);
        lemma_named_index_concat(pages[0], pages_items(rest), name);
        lemma_first_named(pages[0], name);
        lemma_first_named(pages_items(rest), name);
        let all = pages_items(pages);
        assert(all == pages[0] + pages_items(rest));
        match named_index(pages[0], name) {
            Some(i) => {
                assert(all[i] == pages[0][i]);
            },
            None => {
                match named_index(pages_items(rest), name) {
                    Some(j) => {
                        assert(all[pages[0].len() + j] == pages_items(rest)[j]);
                    },
                    None => {},
                }
            },
        }
    }
}

/// Looks for the playlist named `name` in a page at `offset`.
pub fn find_playlist_step(name: &str, offset: usize, page: Option<&PlaylistPage>) -> (r: PageSearch)
    requires
        page matches Some(p) ==> (p.items matches Some(v) ==> offset + v@.len() <= usize::MAX),
    ensures
        match page {
            Some(p) => match p.items {
                Some(v) => if v@.len() == 0 {
                    r matches PageSearch::Done(None)
                } else {
                    match named_index(v@, name@) {
                        Some(i) => r matches PageSearch::Done(id) && match v@[i].id {
                            Some(x) => id matches Some(y) && y@ == x@,
                            None => id is None,
                        },
                        None => match next_offset(offset, v@.len(), p.total) {
                            Some(n) => r matches PageSearch::Continue(m) && m == n,
                            None => r matches PageSearch::Done(None),
                        },
                    }
                },
                None => r matches PageSearch::Done(None),
            },
            None => r matches PageSearch::Done(None),
        },
{
    let p = match page {
        Some(p) => p,
        None => return PageSearch::Done(None),
    };
    let items = match &p.items {
        Some(v) => v,
        None => return PageSearch::Done(None),
    };
    if items.len() == 0 {
        return PageSearch::Done(None);
    }
    assert(items@.skip(0) =~= items@);
    for i in 0..items.len()
        invariant
            page == Some(p),
            p.items == Some(*items),
            items@.len() > 0,
            named_index(items@, name@) == match named_index(items@.skip(i as int), name@) {
                Some(k) => Some(k + i),
                None => None,
            },
    {
        let ghost rest = items@.skip(i as int);
        assert(rest[0] == items@[i as int]);
        assert(rest.drop_first() =~= items@.skip(i + 1));
        let hit = match &items[i].name {
            Some(n) => crate::text::str_eq(n.as_str(), name),
            None => false,
        };
        if hit {
            assert(named_index(rest, name@) == Some(0int));
            assert(named_index(items@, name@) == Some(i as int));
            let id: Option<String> = match &items[i].id {
                Some(x) => Some(x.clone()),
                None => None,
            };
            assert(match items@[i as int].id {
                Some(x) => id matches Some(y) && y@ == x@,
                None => id is None,
            });
            return PageSearch::Done(id);
        }
    }
    assert(items@.skip(items@.len() as int).len() == 0);
    let total: u64 = match p.total {
        Some(t) => t,
        None => 0,
    };
    let next = offset + items.len();
    if next >= total as usize {
        PageSearch::Done(None)
    } else {
        PageSearch::Continue(next)
    }
}

/// The path of the page of a playlist's tracks at `offset`.
pub fn playlist_tracks_path(id: &str, offset: usize) -> (r: String)
    ensures
        r@ == "/playlists/"@ + id@ + "/tracks?limit=100&offset="@ + decimal(offset as nat)
            + "&fields=items(track(name,artists,album(name),duration_ms)),total"@,
{
    let mut out = String::new();
    push_str(&mut out, "/playlists/");
    push_str(&mut out, id);
    push_str(&mut out, "/tracks?limit=100&offset=");
    let n = u64_to_string(offset as u64);
    push_str(&mut out, n.as_str());
    push_str(&mut out, "&fields=items(track(name,artists,album(name),duration_ms)),total");
    out
}

/// The entries of a page of tracks that are still there.
pub open spec fn present_items(v: Seq<Option<ItemReply>>) -> Seq<ItemReply>
    decreases v.len(),
{
    if v.len() == 0 {
        seq![]
    } else {
        let prev = present_items(v.drop_last());
        match v.last() {
            Some(it) => prev.push(it),
            None => prev,
        }
    }
}

/// Adds a page of a playlist's tracks (skipping tracks that are gone) and
/// returns the next offset, or `None` when the listing ends.
pub fn tracks_page_step(acc: &mut Vec<PlaylistTrack>, offset: usize, page: Option<&TracksPage>) -> (r: Option<usize>)
    requires
        page matches Some(p) ==> (p.items matches Some(v) ==> offset + v@.len() <= usize::MAX),
    ensures
        match page {
            Some(p) => match p.items {
                Some(v) => if v@.len() == 0 {
                    r is None && final(acc)@ == old(acc)@
                } else {
                    r == next_offset(offset, v@.len(), p.total) && final(acc)@.len() == old(acc)@.len()
                        + present_items(v@).len() && (forall|j: int|
                        0 <= j < old(acc)@.len() ==> #[trigger] final(acc)@[j] == old(acc)@[j]) && (
                    forall|j: int|
                        0 <= j < present_items(v@).len() ==> item_playlist_track(
                            #[trigger] final(acc)@[old(acc)@.len() + j],
                            present_items(v@)[j],
                        ))
                },
                None => r is None && final(acc)@ == old(acc)@,
            },
            None => r is None && final(acc)@ == old(acc)@,
        },
{
    let p = match page {
        Some(p) => p,
        None => return None,
    };
    let items = match &p.items {
        Some(v) => v,
        None => return None,
    };
    if items.len() == 0 {
        return None;
    }
    let ghost start = acc@;
    for i in 0..items.len()
        invariant
            acc@.len() == start.len() + present_items(items@.take(i as int)).len(),
            forall|j: int| 0 <= j < start.len() ==> #[trigger] acc@[j] == start[j],
            forall|j: int|
                0 <= j < present_items(items@.take(i as int)).len() ==> item_playlist_track(
                    #[trigger] acc@[start.len() + j],
                    present_items(items@.take(i as int))[j],
                ),
    {
        assert(items@.take(i + 1).drop_last() =~= items@.take(i as int));
        assert(items@.take(i + 1).last() == items@[i as int]);
        if let Some(it) = &items[i] {
            acc.push(playlist_track_from_item(it));
        }
    }
    assert(items@.take(items@.len() as int) =~= items@);
    let total: u64 = match p.total {
        Some(t) => t,
        None => 0,
    };
    let next = offset + items.len();
    if next >= total as usize {
        None
    } else {
        Some(next)
    }
}

// ---------------------------------------------------------------------------
// Requests to the Web API
// ---------------------------------------------------------------------------

#[derive(Debug, Clone, Copy, PartialEq, Eq, Structural)]
pub enum Method {
    Get,
    Put,
    Post,
    Delete,
}

/// The JSON body of a request.
pub enum RequestBody {
    /// `{"uris": [...]}`
    Uris(Vec<String>),
    /// `{"ids": [...]}`
    Ids(Vec<String>),
    /// `{"context_uri": ..., "offset": {"position": ...}}`
    PlayContext(String, usize),
    /// `{"tracks": [{"uri": ..., "positions": [...]}]}`
    RemoveTrack(String, usize),
}

pub enum BodyView {
    Uris(Seq<Seq<char>>),
    Ids(Seq<Seq<char>>),
    PlayContext(Seq<char>, usize),
    RemoveTrack(Seq<char>, usize),
}

impl View for RequestBody {
    type V = BodyView;

    open spec fn view(&self) -> BodyView {
        match self {
            RequestBody::Uris(v) => BodyView::Uris(texts(v@)),
            RequestBody::Ids(v) => BodyView::Ids(texts(v@)),
            RequestBody::PlayContext(c, p) => BodyView::PlayContext(c@, *p),
            RequestBody::RemoveTrack(u, p) => BodyView::RemoveTrack(u@, *p),
        }
    }
}

/// A request: method, path below the API root, optional JSON body.
pub struct ApiRequest {
    pub method: Method,
    pub path: String,
    pub body: Option<RequestBody>,
}

/// The request as plain values.
pub open spec fn request_is(r: ApiRequest, m: Method, path: Seq<char>, body: Option<BodyView>) -> bool {
    &&& r.method == m
    &&& r.path@ == path
    &&& match body {
        Some(b) => r.body matches Some(x) && x@ == b,
        None => r.body is None,
    }
}

fn request(method: Method, path: &str, body: Option<RequestBody>) -> (r: ApiRequest)
    ensures
        r.method == method,
        r.path@ == path@,
        r.body == body,
{
    ApiRequest { method, path: path.to_owned(), body }
}

fn single(s: &str) -> (r: Vec<String>)
    ensures
        texts(r@) == seq![s@],
{
    let mut v: Vec<String> = Vec::new();
    v.push(s.to_owned());
    assert(texts(v@) =~= seq![s@]);
    v
}

/// The full address of a path read with GET: absolute addresses are kept.
pub open spec fn api_url_spec(path: Seq<char>) -> Seq<char> {
    if starts_with_seq(path, "https://"@) {
        path
    } else {
        "https://api.spotify.com/v1"@ + path
    }
}

pub fn api_url(path: &str) -> (r: String)
    ensures
        r@ == api_url_spec(path@),
{
    let p = chars_of(path);
    let pre = chars_of("https://");
    if starts_with_chars(p.as_slice(), pre.as_slice()) {
        path.to_owned()
    } else {
        let mut out = String::new();
        push_str(&mut out, "https://api.spotify.com/v1");
        push_str(&mut out, path);
        out
    }
}

/// The full address of a path written with PUT, POST or DELETE.
pub fn api_write_url(path: &str) -> (r: String)
    ensures
        r@ == "https://api.spotify.com/v1"@ + path@,
{
    let mut out = String::new();
    push_str(&mut out, "https://api.spotify.com/v1");
    push_str(&mut out, path);
    out
}

/// The authorization header value for an access token.
pub fn bearer(token: &str) -> (r: String)
    ensures
        r@ == "Bearer "@ + token@,
{
    let mut out = String::new();
    push_str(&mut out, "Bearer ");
    push_str(&mut out, token);
    out
}

/// Pause when playing, play otherwise.
pub fn play_pause_request(state: &FullState) -> (r: ApiRequest)
    ensures
        request_is(
            r,
            Method::Put,
            if state.player_state == PlayerState::Playing {
                "/me/player/pause"@
            } else {
                "/me/player/play"@
            },
            None,
        ),
{
    if state.player_state == PlayerState::Playing {
        request(Method::Put, "/me/player/pause", None)
    } else {
        request(Method::Put, "/me/player/play", None)
    }
}

pub fn next_track_request() -> (r: ApiRequest)
    ensures
        request_is(r, Method::Post, "/me/player/next"@, None),
{
    request(Method::Post, "/me/player/next", None)
}

pub fn previous_track_request() -> (r: ApiRequest)
    ensures
        request_is(r, Method::Post, "/me/player/previous"@, None),
{
    request(Method::Post, "/me/player/previous", None)
}

/// The volume clamped to 0..=100.
pub open spec fn clamp_volume(v: i32) -> i32 {
    if v < 0 {
        0
    } else if v > 100 {
        100
    } else {
        v
    }
}

pub fn volume_request(vol: i32) -> (r: ApiRequest)
    ensures
        request_is(
            r,
            Method::Put,
            "/me/player/volume?volume_percent="@ + decimal(clamp_volume(vol) as nat),
            None,
        ),
{
    let v: i32 = if vol < 0 {
        0
    } else if vol > 100 {
        100
    } else {
        vol
    };
    let mut path = String::new();
    push_str(&mut path, "/me/player/volume?volume_percent=");
    let n = u64_to_string(v as u64);
    push_str(&mut path, n.as_str());
    ApiRequest { method: Method::Put, path, body: None }
}

/// Turns shuffle to the opposite of its current state.
pub fn shuffle_request(state: &FullState) -> (r: ApiRequest)
    ensures
        request_is(
            r,
            Method::Put,
            "/me/player/shuffle?state="@ + if state.shuffle_enabled {
                "false"@
            } else {
                "true"@
            },
            None,
        ),
{
    let mut path = String::new();
    push_str(&mut path, "/me/player/shuffle?state=");
    if state.shuffle_enabled {
        push_str(&mut path, "false");
    } else {
        push_str(&mut path, "true");
    }
    ApiRequest { method: Method::Put, path, body: None }
}

/// Spotify's name for the repeat state that follows `m`.
pub open spec fn next_repeat_name(m: RepeatMode) -> Seq<char> {
    match m {
        RepeatMode::Off => "context"@,
        RepeatMode::All => "track"@,
        RepeatMode::One => "off"@,
    }
}

/// Moves repeat on: off to all (`context`), all to one (`track`), one to off.
pub fn repeat_request(state: &FullState) -> (r: ApiRequest)
    ensures
        request_is(r, Method::Put, "/me/player/repeat?state="@ + next_repeat_name(state.repeat_mode), None),
{
    let mut path = String::new();
    push_str(&mut path, "/me/player/repeat?state=");
    match state.repeat_mode {
        RepeatMode::Off => push_str(&mut path, "context"),
        RepeatMode::All => push_str(&mut path, "track"),
        RepeatMode::One => push_str(&mut path, "off"),
    }
    ApiRequest { method: Method::Put, path, body: None }
}

/// The path that asks whether a track is saved.
pub fn favorite_check_path(id: &str) -> (r: String)
    ensures
        r@ == "/me/tracks/contains?ids="@ + id@,
{
    let mut out = String::new();
    push_str(&mut out, "/me/tracks/contains?ids=");
    push_str(&mut out, id);
    out
}

/// Whether the check reply says the track is saved: its first entry, when
/// it is a boolean.
pub open spec fn is_saved(reply: Option<Vec<Option<bool>>>) -> bool {
    match reply {
        Some(v) => v@.len() > 0 && v@[0] == Some(true),
        None => false,
    }
}

/// Removes a saved track from the library, saves an unsaved one.
pub fn favorite_request(id: &str, saved: Option<&Vec<Option<bool>>>) -> (r: ApiRequest)
    ensures
        request_is(
            r,
            if is_saved(
                match saved {
                    Some(v) => Some(*v),
                    None => None,
                },
            ) {
                Method::Delete
            } else {
                Method::Put
            },
            "/me/tracks"@,
            Some(BodyView::Ids(seq![id@])),
        ),
{
    let is_saved = match saved {
        Some(v) => v.len() > 0 && match v[0] {
            Some(b) => b,
            None => false,
        },
        None => false,
    };
    let body = RequestBody::Ids(single(id));
    if is_saved {
        request(Method::Delete, "/me/tracks", Some(body))
    } else {
        request(Method::Put, "/me/tracks", Some(body))
    }
}

/// Plays a playlist from one of its entries.
pub fn play_in_playlist_request(id: &str, index: usize) -> (r: ApiRequest)
    ensures
        request_is(
            r,
            Method::Put,
            "/me/player/play"@,
            Some(BodyView::PlayContext("spotify:playlist:"@ + id@, index)),
        ),
{
    let mut uri = String::new();
    push_str(&mut uri, "spotify:playlist:");
    push_str(&mut uri, id);
    request(Method::Put, "/me/player/play", Some(RequestBody::PlayContext(uri, index)))
}

/// Plays one track by its URI.
pub fn play_uri_request(uri: &str) -> (r: ApiRequest)
    ensures
        request_is(r, Method::Put, "/me/player/play"@, Some(BodyView::Uris(seq![uri@]))),
{
    request(Method::Put, "/me/player/play", Some(RequestBody::Uris(single(uri))))
}

/// Adds the current track (by URI) to a playlist.
pub fn add_track_request(playlist_id: &str, uri: &str) -> (r: ApiRequest)
    ensures
        request_is(
            r,
            Method::Post,
            "/playlists/"@ + playlist_id@ + "/tracks"@,
            Some(BodyView::Uris(seq![uri@])),
        ),
{
    let mut path = String::new();
    push_str(&mut path, "/playlists/");
    push_str(&mut path, playlist_id);
    push_str(&mut path, "/tracks");
    ApiRequest { method: Method::Post, path, body: Some(RequestBody::Uris(single(uri))) }
}

/// The path that reads the URI of a playlist's entry.
pub fn remove_lookup_path(playlist_id: &str, index: usize) -> (r: String)
    ensures
        r@ == "/playlists/"@ + playlist_id@ + "/tracks?limit=1&offset="@ + decimal(index as nat)
            + "&fields=items(track(uri))"@,
{
    let mut out = String::new();
    push_str(&mut out, "/playlists/");
    push_str(&mut out, playlist_id);
    push_str(&mut out, "/tracks?limit=1&offset=");
    let n = u64_to_string(index as u64);
    push_str(&mut out, n.as_str());
    push_str(&mut out, "&fields=items(track(uri))");
    out
}

/// Removes the entry at `index` (with that URI) from a playlist.
pub fn remove_track_request(playlist_id: &str, uri: &str, index: usize) -> (r: ApiRequest)
    ensures
        request_is(
            r,
            Method::Delete,
            "/playlists/"@ + playlist_id@ + "/tracks"@,
            Some(BodyView::RemoveTrack(uri@, index)),
        ),
{
    let mut path = String::new();
    push_str(&mut path, "/playlists/");
    push_str(&mut path, playlist_id);
    push_str(&mut path, "/tracks");
    ApiRequest { method: Method::Delete, path, body: Some(RequestBody::RemoveTrack(uri.to_owned(), index)) }
}

/// A search path: the encoded query, a kind and a limit.
pub open spec fn search_path_spec(query: Seq<char>, kind: Seq<char>, limit: Seq<char>) -> Seq<char> {
    "/search?q="@ + urlencoded_spec(query) + "&type="@ + kind + "&limit="@ + limit
}

fn search_path_for(query: &str, kind: &str, limit: &str) -> (r: String)
    ensures
        r@ == search_path_spec(query@, kind@, limit@),
{
    let mut out = String::new();
    push_str(&mut out, "/search?q=");
    let q = urlencoded(query);
    push_str(&mut out, q.as_str());
    push_str(&mut out, "&type=");
    push_str(&mut out, kind);
    push_str(&mut out, "&limit=");
    push_str(&mut out, limit);
    assert(out@ =~= search_path_spec(query@, kind@, limit@));
    out
}

/// Searching tracks (twenty results).
pub fn search_path(query: &str) -> (r: String)
    ensures
        r@ == search_path_spec(query@, "track"@, "20"@),
{
    search_path_for(query, "track", "20")
}

/// A field query: `field:value artist:artist`.
pub open spec fn field_query(field: Seq<char>, value: Seq<char>, artist: Seq<char>) -> Seq<char> {
    field + seq![':'] + value + " artist:"@ + artist
}

fn field_query_exec(field: &str, value: &str, artist: &str) -> (r: String)
    ensures
        r@ == field_query(field@, value@, artist@),
{
    let mut q = String::new();
    push_str(&mut q, field);
    push_char(&mut q, ':');
    push_str(&mut q, value);
    push_str(&mut q, " artist:");
    push_str(&mut q, artist);
    assert(q@ =~= field_query(field@, value@, artist@));
    q
}

/// Looking up one track by name and artist, to play it.
pub fn track_lookup_path(name: &str, artist: &str) -> (r: String)
    ensures
        r@ == search_path_spec(field_query("track"@, name@, artist@), "track"@, "1"@),
{
    let q = field_query_exec("track", name, artist);
    search_path_for(q.as_str(), "track", "1")
}

/// Looking up one artist, to show it.
pub fn artist_lookup_path(artist: &str) -> (r: String)
    ensures
        r@ == search_path_spec(artist@, "artist"@, "1"@),
{
    search_path_for(artist, "artist", "1")
}

/// Looking up one album by name and artist, to show it.
pub fn album_lookup_path(album: &str, artist: &str) -> (r: String)
    ensures
        r@ == search_path_spec(field_query("album"@, album@, artist@), "album"@, "1"@),
{
    let q = field_query_exec("album", album, artist);
    search_path_for(q.as_str(), "album", "1")
}

// ---------------------------------------------------------------------------
// Lyrics from LRCLIB
// ---------------------------------------------------------------------------

/// The LRCLIB lookup address for a track.
pub fn lrclib_url(track_name: &str, artist: &str) -> (r: String)
    ensures
        r@ == "https://lrclib.net/api/get?track_name="@ + urlencoded_spec(track_name@)
            + "&artist_name="@ + urlencoded_spec(artist@),
{
    let mut out = String::new();
    push_str(&mut out, "https://lrclib.net/api/get?track_name=");
    let t = urlencoded(track_name);
    push_str(&mut out, t.as_str());
    push_str(&mut out, "&artist_name=");
    let a = urlencoded(artist);
    push_str(&mut out, a.as_str());
    assert(out@ =~= "https://lrclib.net/api/get?track_name="@ + urlencoded_spec(track_name@)
        + "&artist_name="@ + urlencoded_spec(artist@));
    out
}

/// A synced lyrics line `[timestamp]text` split into its timestamp and
/// text; other lines carry none.
pub open spec fn synced_entry(line: Seq<char>) -> Option<(Seq<char>, Seq<char>)> {
    if line.len() > 0 && line[0] == '[' {
        let rest = line.drop_first();
        match first_index_of(rest, ']') {
            Some(b) => Some((rest.take(b), rest.skip(b + 1))),
            None => None,
        }
    } else {
        None
    }
}

/// The (timestamp, text) entries of synced lyrics, line by line.
pub open spec fn synced_entries_spec(lines: Seq<Seq<char>>) -> Seq<(Seq<char>, Seq<char>)>
    decreases lines.len(),
{
    if lines.len() == 0 {
        seq![]
    } else {
        let prev = synced_entries_spec(lines.drop_last());
        match synced_entry(lines.last()) {
            Some(e) => prev.push(e),
            None => prev,
        }
    }
}

pub open spec fn pairs_view(v: Seq<(String, String)>) -> Seq<(Seq<char>, Seq<char>)> {
    v.map_values(|p: (String, String)| (p.0@, p.1@))
}

/// Splits synced lyrics (LRC) into timestamps and texts; the timestamps
/// are read by the caller.
pub fn synced_entries(text: &str) -> (r: Vec<(String, String)>)
    ensures
        pairs_view(r@) == synced_entries_spec(lines_spec(text@)),
{
    let chars = chars_of(text);
    let ls = lines_of(chars.as_slice());
    let ghost lsv = lines_spec(text@);
    let mut out: Vec<(String, String)> = Vec::new();
    for i in 0..ls.len()
        invariant
            lsv == lines_spec(text@),
            ls@.len() == lsv.len(),
            forall|j: int| 0 <= j < ls@.len() ==> #[trigger] ls@[j]@ == lsv[j],
            pairs_view(out@) == synced_entries_spec(lsv.take(i as int)),
    {
        assert(lsv.take(i + 1).drop_last() =~= lsv.take(i as int));
        assert(lsv.take(i + 1).last() == ls@[i as int]@);
        let line = &ls[i];
        if line.len() > 0 && line[0] == '[' {
            let rest = slice_range(line.as_slice(), 1, line.len());
            assert(rest@ =~= line@.drop_first());
            if let Some(b) = find_char(rest.as_slice(), ']') {
                let ts = slice_range(rest.as_slice(), 0, b);
                let tx = slice_range(rest.as_slice(), b + 1, rest.len());
                assert(ts@ =~= rest@.take(b as int));
                assert(tx@ =~= rest@.skip(b + 1));
                let ghost before = pairs_view(out@);
                out.push((string_from_chars(ts.as_slice()), string_from_chars(tx.as_slice())));
                assert(pairs_view(out@) =~= before.push((ts@, tx@)));
            }
        }
    }
    assert(lsv.take(lsv.len() as int) =~= lsv);
    out
}

/// Lines of lyrics as shown: synced entries with their times, or plain
/// lines without times.
pub open spec fn timed_lines(entries: Seq<(Seq<char>, Seq<char>)>, times: Seq<Option<u64>>, l: LyricsLine, i: int) -> bool {
    l.text@ == entries[i].1 && l.time_ms == times[i]
}

/// What an LRCLIB reply gives: synced lyrics when the synced text is
/// present, not empty and has entries; otherwise the plain text's lines
/// when present and not empty; otherwise nothing. `times` holds the
/// timestamps of the synced entries as read by the caller.
pub fn lyrics_from_reply(synced: Option<&str>, times: &[Option<u64>], plain: Option<&str>) -> (r: Option<LyricsResult>)
    requires
        synced matches Some(t) ==> (t@.len() > 0 ==> times@.len() == synced_entries_spec(lines_spec(t@)).len()),
    ensures
        ({
            let use_synced = synced matches Some(t) && t@.len() > 0 && synced_entries_spec(lines_spec(t@)).len() > 0;
            if use_synced {
                let es = synced_entries_spec(lines_spec(synced.unwrap()@));
                r matches Some(res) && res.synced && res.lines@.len() == es.len() && forall|i: int|
                    0 <= i < es.len() ==> timed_lines(es, times@, #[trigger] res.lines@[i], i)
            } else if plain matches Some(p) && p@.len() > 0 {
                let ls = lines_spec(plain.unwrap()@);
                r matches Some(res) && !res.synced && res.lines@.len() == ls.len() && forall|i: int|
                    0 <= i < ls.len() ==> (#[trigger] res.lines@[i]).text@ == ls[i] && res.lines@[i].time_ms is None
            } else {
                r is None
            }
        }),
{
    if let Some(t) = synced {
        if !t.is_empty() {
            let entries = synced_entries(t);
            if entries.len() > 0 {
                let ghost es = synced_entries_spec(lines_spec(t@));
                let mut lines: Vec<LyricsLine> = Vec::new();
                for i in 0..entries.len()
                    invariant
                        es == synced_entries_spec(lines_spec(t@)),
                        pairs_view(entries@) == es,
                        times@.len() == es.len(),
                        lines@.len() == i,
                        forall|j: int| 0 <= j < i ==> timed_lines(es, times@, #[trigger] lines@[j], j),
                {
                    assert(pairs_view(entries@)[i as int] == (entries@[i as int].0@, entries@[i as int].1@));
                    lines.push(LyricsLine { text: entries[i].1.clone(), time_ms: times[i] });
                }
                return Some(LyricsResult { lines, synced: true });
            }
        }
    }
    if let Some(p) = plain {
        if !p.is_empty() {
            let chars = chars_of(p);
            let ls = lines_of(chars.as_slice());
            let mut lines: Vec<LyricsLine> = Vec::new();
            for i in 0..ls.len()
                invariant
                    ls@.len() == lines_spec(p@).len(),
                    forall|j: int| 0 <= j < ls@.len() ==> #[trigger] ls@[j]@ == lines_spec(p@)[j],
                    lines@.len() == i,
                    forall|j: int|
                        0 <= j < i ==> (#[trigger] lines@[j]).text@ == lines_spec(p@)[j]
                            && lines@[j].time_ms is None,
            {
                lines.push(LyricsLine { text: string_from_chars(ls[i].as_slice()), time_ms: None });
            }
            return Some(LyricsResult { lines, synced: false });
        }
    }
    None
}

// ---------------------------------------------------------------------------
// Playback notifications by polling
// ---------------------------------------------------------------------------

/// What the last notification said: track name and player state.
pub struct PollMemory {
    pub last_track: String,
    pub last_state: String,
}

impl PollMemory {
    pub fn new() -> (r: Self)
        ensures
            r.last_track@.len() == 0,
            r.last_state@.len() == 0,
    {
        PollMemory { last_track: String::new(), last_state: String::new() }
    }
}

/// The name a notification gives a player state.
pub open spec fn state_name(s: PlayerState) -> Seq<char> {
    match s {
        PlayerState::Playing => "Playing"@,
        PlayerState::Paused => "Paused"@,
        PlayerState::Stopped => "Stopped"@,
    }
}

/// After a poll: a notification when the track name or the player state
/// changed since the last one (which is then remembered), nothing
/// otherwise. Without a track, name, artist and album are empty and the
/// length 0.
pub fn poll_notification(mem: &mut PollMemory, state: &FullState) -> (r: Option<NotificationInfo>)
    ensures
        ({
            let name = match state.track {
                Some(t) => t.name@,
                None => Seq::empty(),
            };
            let st = state_name(state.player_state);
            if name != old(mem).last_track@ || st != old(mem).last_state@ {
                &&& final(mem).last_track@ == name
                &&& final(mem).last_state@ == st
                &&& r matches Some(info) && info.player_state@ == st && info.name@ == name
                    && info.artist@ == match state.track {
                    Some(t) => t.artist@,
                    None => Seq::empty(),
                } && info.album@ == match state.track {
                    Some(t) => t.album@,
                    None => Seq::empty(),
                } && info.total_time_ms == match state.track {
                    Some(t) => t.duration_ms,
                    None => 0,
                }
            } else {
                &&& final(mem).last_track@ == old(mem).last_track@
                &&& final(mem).last_state@ == old(mem).last_state@
                &&& r is None
            }
        }),
{
    let st = match state.player_state {
        PlayerState::Playing => String::from_str("Playing"),
        PlayerState::Paused => String::from_str("Paused"),
        PlayerState::Stopped => String::from_str("Stopped"),
    };
    let (name, artist, album, duration_ms) = match &state.track {
        Some(t) => (t.name.clone(), t.artist.clone(), t.album.clone(), t.duration_ms),
        None => (String::new(), String::new(), String::new(), 0),
    };
    if !str_eq(name.as_str(), mem.last_track.as_str()) || !str_eq(st.as_str(), mem.last_state.as_str()) {
        mem.last_track = name.clone();
        mem.last_state = st.clone();
        Some(NotificationInfo { player_state: st, name, artist, album, total_time_ms: duration_ms })
    } else {
        None
    }
}

/// Once a token counts as expired it stays expired as time goes on.
pub proof fn lemma_expiry_monotone(t: SpotifyToken, now: u64, later: u64)
    requires
        expired_at(t, now),
        now <= later,
    ensures
        expired_at(t, later),
{
}

/// Paging makes progress: a next page starts after the current one and
/// before the total.
pub proof fn lemma_paging_progress(offset: usize, n: nat, total: Option<u64>)
    requires
        n > 0,
        next_offset(offset, n, total) is Some,
    ensures
        next_offset(offset, n, total).unwrap() > offset,
        next_offset(offset, n, total).unwrap() < (match total {
            Some(t) => t,
            None => 0,
        }) as usize,
{
}

} // verus!
