//! OAuth with PKCE against Spotify: where the client ID comes from, the random
//! state and verifier, the authorization address, the token request forms, and
//! the session that holds the token, the verifier and the expected state.
use vstd::prelude::*;

use crate::encoding::{
    base64_url_encode, BASE64_URL_ALPHABET, base64_url_nopad, form_urlencode, pairs_view, sha256, sha256_digest,
    urlencoded_form,
};
use crate::text::{
    chars_eq, chars_of, lines, lines_of, split_once, split_once_chars, str_eq, string_of, trim,
    trim_chars, trim_matches, trim_matches_chars,
};
use crate::time::{now_utc, UtcTime};
use crate::types::TokenResponse;

verus! {

/// Spotify's authorization endpoint.
pub const SPOTIFY_AUTH_URL: &'static str = "https://accounts.spotify.com/authorize";

/// Spotify's token endpoint.
pub const SPOTIFY_TOKEN_URL: &'static str = "https://accounts.spotify.com/api/token";

/// The redirect address registered for the app (a loopback IP literal: Spotify
/// refuses `localhost`).
pub const REDIRECT_URI: &'static str = "http://127.0.0.1:8000/callback";

/// The scopes the backend asks for.
pub const SCOPES: &'static str = "user-read-playback-state user-modify-playback-state user-read-currently-playing streaming user-read-email user-read-private user-library-read user-top-read playlist-read-private playlist-read-collaborative";

/// The example value shipped in configuration templates; it never counts as a client ID.
pub const CLIENT_ID_PLACEHOLDER: &'static str = "your-client-id-here";

/// The name of the configuration key that holds the client ID.
pub const CLIENT_ID_KEY: &'static str = "client_id";

/// Characters of the OAuth `state` parameter.
pub const STATE_ALPHABET: &'static str = "ABCDEFGHIJKLMNOPQRSTUVWXYZabcdefghijklmnopqrstuvwxyz0123456789";

/// Characters of the PKCE code verifier (the unreserved URL characters).
pub const VERIFIER_ALPHABET: &'static str = "ABCDEFGHIJKLMNOPQRSTUVWXYZabcdefghijklmnopqrstuvwxyz0123456789-._~";

/// Length of the OAuth `state` parameter.
pub const STATE_LENGTH: usize = 32usize;

/// Length of the PKCE code verifier.
pub const VERIFIER_LENGTH: usize = 128usize;

/// A text that can serve as a client ID: not empty and not the placeholder.
pub open spec fn usable_client_id(id: Seq<char>) -> bool {
    id.len() > 0 && id != CLIENT_ID_PLACEHOLDER@
}

/// The client ID an environment value gives: the value trimmed, if usable.
pub open spec fn env_client_id(value: Seq<char>) -> Option<Seq<char>> {
    if usable_client_id(trim(value)) {
        Some(trim(value))
    } else {
        None
    }
}

/// The client ID one configuration line gives: on a trimmed line `key = value`
/// whose trimmed key is `client_id`, the trimmed value without surrounding
/// double quotes, if usable.
pub open spec fn config_line_client_id(line: Seq<char>) -> Option<Seq<char>> {
    match split_once(trim(line), '=') {
        Some((key, value)) => {
            let id = trim_matches(trim(value), '"');
            if trim(key) == CLIENT_ID_KEY@ && usable_client_id(id) {
                Some(id)
            } else {
                None
            }
        },
        None => None,
    }
}

/// The client ID of the first line that gives one.
pub open spec fn first_client_id(ls: Seq<Seq<char>>) -> Option<Seq<char>>
    decreases ls.len(),
{
    if ls.len() == 0 {
        None
    } else {
        match config_line_client_id(ls[0]) {
            Some(id) => Some(id),
            None => first_client_id(ls.drop_first()),
        }
    }
}

/// The client ID a configuration file gives.
pub open spec fn config_client_id(contents: Seq<char>) -> Option<Seq<char>> {
    first_client_id(lines(contents))
}

/// Every character of `s` is one of `alphabet`.
pub open spec fn drawn_from(s: Seq<char>, alphabet: Seq<char>) -> bool {
    forall|i: int| 0 <= i < s.len() ==> alphabet.contains(#[trigger] s[i])
}

/// The PKCE `S256` challenge of a verifier: URL-safe unpadded Base64 of the
/// SHA-256 of its UTF-8 bytes.
pub open spec fn pkce_challenge(verifier: Seq<char>) -> Seq<char> {
    base64_url_nopad(sha256_digest(vstd::utf8::encode_utf8(verifier)))
}

/// The query of the authorization address, in order.
pub open spec fn authorize_pairs(client_id: Seq<char>, challenge: Seq<char>, state: Seq<char>) -> Seq<
    (Seq<char>, Seq<char>),
> {
    seq![
        ("client_id"@, client_id),
        ("response_type"@, "code"@),
        ("redirect_uri"@, REDIRECT_URI@),
        ("scope"@, SCOPES@),
        ("code_challenge_method"@, "S256"@),
        ("code_challenge"@, challenge),
        ("state"@, state),
        ("show_dialog"@, "true"@),
    ]
}

/// The authorization address: the endpoint, `?`, and the form-encoded query.
pub open spec fn authorize_url_text(client_id: Seq<char>, challenge: Seq<char>, state: Seq<char>) -> Seq<
    char,
> {
    SPOTIFY_AUTH_URL@ + seq!['?'] + urlencoded_form(authorize_pairs(client_id, challenge, state))
}

/// The form that exchanges an authorization code for a token.
pub open spec fn exchange_pairs(code: Seq<char>, client_id: Seq<char>, verifier: Seq<char>) -> Seq<
    (Seq<char>, Seq<char>),
> {
    seq![
        ("grant_type"@, "authorization_code"@),
        ("code"@, code),
        ("redirect_uri"@, REDIRECT_URI@),
        ("client_id"@, client_id),
        ("code_verifier"@, verifier),
    ]
}

/// The form that refreshes a token.
pub open spec fn refresh_pairs(refresh_token: Seq<char>, client_id: Seq<char>) -> Seq<
    (Seq<char>, Seq<char>),
> {
    seq![
        ("grant_type"@, "refresh_token"@),
        ("refresh_token"@, refresh_token),
        ("client_id"@, client_id),
    ]
}

/// A random index below `n` (`rand::thread_rng().gen_range(0..n)`); which one is left open.
#[verifier::external_body]
fn random_below(n: usize) -> (r: usize)
    requires
        n > 0,
    ensures
        r < n,
{
    rand::Rng::gen_range(&mut rand::thread_rng(), 0..n)
}

fn concat(a: &str, b: &str) -> (r: String)
    ensures
        r@ == a@ + b@,
{
    let mut s = a.to_string();
    s.append(b);
    s
}

fn pair(name: &str, value: &str) -> (r: (String, String))
    ensures
        r.0@ == name@,
        r.1@ == value@,
{
    (name.to_string(), value.to_string())
}

/// The text whose `k`-th character is `alphabet[draws[k]]`.
pub fn text_from_draws(alphabet: &str, draws: &Vec<usize>) -> (r: String)
    requires
        forall|k: int| 0 <= k < draws.len() ==> draws[k] < alphabet@.len(),
    ensures
        r@.len() == draws.len(),
        forall|k: int| 0 <= k < draws.len() ==> r@[k] == alphabet@[draws[k] as int],
{
    let chars = chars_of(alphabet);
    let mut out: Vec<char> = Vec::new();
    let mut k: usize = 0;
    while k < draws.len()
        invariant
            k <= draws.len(),
            out@.len() == k,
            chars@ == alphabet@,
            forall|i: int| 0 <= i < draws.len() ==> draws[i] < alphabet@.len(),
            forall|i: int| 0 <= i < k ==> out@[i] == alphabet@[draws[i] as int],
        decreases draws.len() - k,
    {
        out.push(chars[draws[k]]);
        k += 1;
    }
    string_of(out.as_slice())
}

/// `len` characters drawn at random from `alphabet`: `len` random indices below
/// its length, each taken to its character.
fn random_text(alphabet: &str, len: usize) -> (r: String)
    requires
        alphabet@.len() > 0,
    ensures
        r@.len() == len,
        drawn_from(r@, alphabet@),
{
    let n = chars_of(alphabet).len();
    let mut draws: Vec<usize> = Vec::new();
    let mut k: usize = 0;
    while k < len
        invariant
            k <= len,
            draws@.len() == k,
            n == alphabet@.len(),
            n > 0,
            forall|i: int| 0 <= i < k ==> draws[i] < alphabet@.len(),
        decreases len - k,
    {
        draws.push(random_below(n));
        k += 1;
    }
    let r = text_from_draws(alphabet, &draws);
    assert forall|i: int| 0 <= i < r@.len() implies alphabet@.contains(#[trigger] r@[i]) by {
        assert(r@[i] == alphabet@[draws[i] as int]);
    }
    r
}

/// A fresh OAuth `state`: 32 characters drawn at random from `STATE_ALPHABET`.
pub fn generate_state() -> (r: String)
    ensures
        r@.len() == STATE_LENGTH,
        drawn_from(r@, STATE_ALPHABET@),
{
    proof {
        reveal_strlit("ABCDEFGHIJKLMNOPQRSTUVWXYZabcdefghijklmnopqrstuvwxyz0123456789");
    }
    random_text(STATE_ALPHABET, STATE_LENGTH)
}

/// Length of a PKCE challenge: unpadded Base64 of a 32-byte digest.
pub const CHALLENGE_LENGTH: usize = 43usize;

/// A fresh PKCE pair: a verifier of 128 characters drawn at random from
/// `VERIFIER_ALPHABET`, and its `S256` challenge: 43 characters of the URL-safe
/// Base64 alphabet, without padding.
pub fn generate_pkce() -> (r: (String, String))
    ensures
        r.0@.len() == VERIFIER_LENGTH,
        drawn_from(r.0@, VERIFIER_ALPHABET@),
        r.1@ == pkce_challenge(r.0@),
        r.1@.len() == CHALLENGE_LENGTH,
        drawn_from(r.1@, BASE64_URL_ALPHABET@),
        !r.1@.contains('='),
{
    proof {
        reveal_strlit("ABCDEFGHIJKLMNOPQRSTUVWXYZabcdefghijklmnopqrstuvwxyz0123456789-._~");
    }
    let verifier = random_text(VERIFIER_ALPHABET, VERIFIER_LENGTH);
    let digest = sha256(verifier.as_str().as_bytes());
    let challenge = base64_url_encode(digest.as_slice());
    proof {
        reveal_strlit("ABCDEFGHIJKLMNOPQRSTUVWXYZabcdefghijklmnopqrstuvwxyz0123456789-_");
        assert(!BASE64_URL_ALPHABET@.contains('=')) by {
            assert forall|i: int| 0 <= i < BASE64_URL_ALPHABET@.len() implies BASE64_URL_ALPHABET@[i]
                != '=' by {
                assert(BASE64_URL_ALPHABET@[i] == strslice_get_char(BASE64_URL_ALPHABET, i));
            }
        }
        assert forall|i: int| 0 <= i < challenge@.len() implies BASE64_URL_ALPHABET@.contains(#[trigger] challenge@[i]) by {}
        if challenge@.contains('=') {
            let k = choose|k: int| 0 <= k < challenge@.len() && challenge@[k] == '=';
            assert(BASE64_URL_ALPHABET@.contains(challenge@[k]));
        }
    }
    (verifier, challenge)
}

/// The authorization address for a client ID, PKCE challenge and state.
pub fn authorize_url(client_id: &str, challenge: &str, state: &str) -> (r: String)
    ensures
        r@ == authorize_url_text(client_id@, challenge@, state@),
{
    let mut pairs: Vec<(String, String)> = Vec::new();
    pairs.push(pair("client_id", client_id));
    pairs.push(pair("response_type", "code"));
    pairs.push(pair("redirect_uri", REDIRECT_URI));
    pairs.push(pair("scope", SCOPES));
    pairs.push(pair("code_challenge_method", "S256"));
    pairs.push(pair("code_challenge", challenge));
    pairs.push(pair("state", state));
    pairs.push(pair("show_dialog", "true"));
    assert(pairs_view(pairs@) =~= authorize_pairs(client_id@, challenge@, state@));
    let query = form_urlencode(&pairs);
    let mut url = concat(SPOTIFY_AUTH_URL, "?");
    url.append(query.as_str());
    proof {
        reveal_strlit("?");
        assert("?"@ =~= seq!['?']);
    }
    url
}

fn is_usable(id: &Vec<char>) -> (r: bool)
    ensures
        r == usable_client_id(id@),
{
    let placeholder = chars_of(CLIENT_ID_PLACEHOLDER);
    id.len() > 0 && !chars_eq(id, placeholder.as_slice())
}

/// The client ID an environment value gives (`SPOTIFY_CLIENT_ID`).
pub fn client_id_from_env(value: &str) -> (r: Option<String>)
    ensures
        match r {
            Some(id) => env_client_id(value@) == Some(id@),
            None => env_client_id(value@) is None,
        },
{
    let chars = chars_of(value);
    let id = trim_chars(&chars);
    if is_usable(&id) {
        Some(string_of(id.as_slice()))
    } else {
        None
    }
}

fn line_client_id(line: &Vec<char>) -> (r: Option<Vec<char>>)
    ensures
        match r {
            Some(id) => config_line_client_id(line@) == Some(id@),
            None => config_line_client_id(line@) is None,
        },
{
    let trimmed = trim_chars(line);
    match split_once_chars(&trimmed, '=') {
        Some((key, value)) => {
            let key = trim_chars(&key);
            let id = trim_matches_chars(&trim_chars(&value), '"');
            let wanted = chars_of(CLIENT_ID_KEY);
            if chars_eq(&key, wanted.as_slice()) && is_usable(&id) {
                Some(id)
            } else {
                None
            }
        },
        None => None,
    }
}

/// The client ID a configuration file's text gives: from the first line of the
/// form `client_id = value` whose value, trimmed and unquoted, is usable.
pub fn client_id_from_config(contents: &str) -> (r: Option<String>)
    ensures
        match r {
            Some(id) => config_client_id(contents@) == Some(id@),
            None => config_client_id(contents@) is None,
        },
{
    let chars = chars_of(contents);
    let ls = lines_of(&chars);
    let ghost all = lines(chars@);
    let mut i: usize = 0;
    assert(all.skip(0) =~= all);
    while i < ls.len()
        invariant
            i <= ls@.len() == all.len(),
            all == lines(contents@),
            forall|k: int| 0 <= k < ls@.len() ==> (#[trigger] ls@[k])@ == all[k],
            first_client_id(all) == first_client_id(all.skip(i as int)),
        decreases ls.len() - i,
    {
        assert(all.skip(i as int).drop_first() =~= all.skip(i + 1));
        assert(all.skip(i as int)[0] == all[i as int]);
        match line_client_id(&ls[i]) {
            Some(id) => {
                return Some(string_of(id.as_slice()));
            },
            None => {},
        }
        i += 1;
    }
    assert(all.skip(i as int).len() == 0);
    None
}

/// Errors of the OAuth flow.
#[derive(Clone, Copy, Debug, PartialEq, Eq, Structural)]
pub enum OAuthError {
    /// A code arrived without an authorization started on this session.
    NoPkceVerifier,
    /// A refresh was asked for without any token.
    NoTokenToRefresh,
    /// The token holds no refresh token.
    NoRefreshToken,
    /// The session holds no token even after a refresh.
    TokenUnavailableAfterRefresh,
}

impl OAuthError {
    /// The message the backend reports for the error.
    pub fn message(&self) -> (r: String)
        ensures
            r@ == match *self {
                OAuthError::NoPkceVerifier => "No PKCE verifier. Call auth_url() before exchanging the code."@,
                OAuthError::NoTokenToRefresh => "No token to refresh"@,
                OAuthError::NoRefreshToken => "No refresh token"@,
                OAuthError::TokenUnavailableAfterRefresh => "Token not available after refresh"@,
            },
    {
        match self {
            OAuthError::NoPkceVerifier => "No PKCE verifier. Call auth_url() before exchanging the code.".to_string(),
            OAuthError::NoTokenToRefresh => "No token to refresh".to_string(),
            OAuthError::NoRefreshToken => "No refresh token".to_string(),
            OAuthError::TokenUnavailableAfterRefresh => "Token not available after refresh".to_string(),
        }
    }
}

/// The state `given` passes the CSRF check against the stored one: a state was
/// stored, it is not empty, and it equals `given`.
pub open spec fn state_accepted(stored: Option<String>, given: Seq<char>) -> bool {
    match stored {
        Some(s) => s@.len() > 0 && s@ == given,
        None => false,
    }
}

/// A token with a fresh obtained instant; every other field kept.
pub open spec fn stamped(token: TokenResponse, at: UtcTime) -> TokenResponse {
    TokenResponse { obtained_at: Some(at), ..token }
}

/// A refreshed token: stamped, and keeping the previous refresh token when the
/// reply carries none.
pub open spec fn refreshed(new_token: TokenResponse, previous: String, at: UtcTime) -> TokenResponse {
    TokenResponse {
        obtained_at: Some(at),
        refresh_token: match new_token.refresh_token {
            Some(r) => Some(r),
            None => Some(previous),
        },
        ..new_token
    }
}

/// What to do for a request that needs an access token.
#[derive(Debug)]
pub enum TokenDecision {
    /// Send the request with this access token.
    Use(String),
    /// Refresh the token first.
    Refresh,
}

/// The OAuth state of one client: the current token, and while an authorization
/// is under way, the PKCE verifier and the expected `state`.
#[derive(Debug)]
pub struct OAuthSession {
    pub token: Option<TokenResponse>,
    pub pkce_verifier: Option<String>,
    pub oauth_state: Option<String>,
}

impl OAuthSession {
    /// A session without token and without authorization under way.
    pub fn new() -> (r: OAuthSession)
        ensures
            r.token is None,
            r.pkce_verifier is None,
            r.oauth_state is None,
    {
        OAuthSession { token: None, pkce_verifier: None, oauth_state: None }
    }

    /// Takes a token loaded from the cache, expired or not (its refresh token
    /// still serves); nothing changes when none was cached.
    pub fn initialize(&mut self, cached: Option<TokenResponse>)
        ensures
            final(self).token == (match cached {
                Some(t) => Some(t),
                None => old(self).token,
            }),
            final(self).pkce_verifier == old(self).pkce_verifier,
            final(self).oauth_state == old(self).oauth_state,
    {
        if let Some(t) = cached {
            self.token = Some(t);
        }
    }

    /// Starts an authorization: draws a fresh PKCE verifier and state, keeps both,
    /// and returns the address the user is sent to.
    pub fn start_authorization(&mut self, client_id: &str) -> (r: String)
        ensures
            final(self).token == old(self).token,
            final(self).pkce_verifier matches Some(v) && v@.len() == VERIFIER_LENGTH && drawn_from(
                v@,
                VERIFIER_ALPHABET@,
            ),
            final(self).oauth_state matches Some(s) && s@.len() == STATE_LENGTH && drawn_from(
                s@,
                STATE_ALPHABET@,
            ),
            r@ == authorize_url_text(
                client_id@,
                pkce_challenge(final(self).pkce_verifier->0@),
                final(self).oauth_state->0@,
            ),
    {
        let (verifier, challenge) = generate_pkce();
        let state = generate_state();
        let url = authorize_url(client_id, challenge.as_str(), state.as_str());
        self.pkce_verifier = Some(verifier);
        self.oauth_state = Some(state);
        url
    }

    /// The CSRF check of the `state` a callback brings.
    pub fn validate_state(&self, state: &str) -> (r: bool)
        ensures
            r == state_accepted(self.oauth_state, state@),
    {
        match &self.oauth_state {
            Some(s) => !s.as_str().is_empty() && str_eq(s.as_str(), state),
            None => false,
        }
    }

    /// The form that exchanges `code`; fails when no authorization was started.
    pub fn exchange_form(&self, code: &str, client_id: &str) -> (r: Result<
        Vec<(String, String)>,
        OAuthError,
    >)
        ensures
            match self.pkce_verifier {
                Some(v) => r matches Ok(f) && pairs_view(f@) == exchange_pairs(
                    code@,
                    client_id@,
                    v@,
                ),
                None => r == Err::<Vec<(String, String)>, OAuthError>(OAuthError::NoPkceVerifier),
            },
    {
        match &self.pkce_verifier {
            Some(v) => {
                let mut f: Vec<(String, String)> = Vec::new();
                f.push(pair("grant_type", "authorization_code"));
                f.push(pair("code", code));
                f.push(pair("redirect_uri", REDIRECT_URI));
                f.push(pair("client_id", client_id));
                f.push(pair("code_verifier", v.as_str()));
                assert(pairs_view(f@) =~= exchange_pairs(code@, client_id@, v@));
                Ok(f)
            },
            None => Err(OAuthError::NoPkceVerifier),
        }
    }

    /// Installs the token an exchange obtained and ends the authorization: the
    /// verifier and the state are used once. Returns the new access token.
    pub fn finish_exchange(&mut self, token: TokenResponse) -> (r: String)
        ensures
            final(self).token == Some(token),
            final(self).pkce_verifier is None,
            final(self).oauth_state is None,
            r@ == token.access_token@,
    {
        let access = token.access_token.clone();
        self.token = Some(token);
        self.pkce_verifier = None;
        self.oauth_state = None;
        access
    }

    /// The refresh token and the form that refreshes it.
    pub fn refresh_form(&self, client_id: &str) -> (r: Result<
        (String, Vec<(String, String)>),
        OAuthError,
    >)
        ensures
            match self.token {
                None => r matches Err(e) && e == OAuthError::NoTokenToRefresh,
                Some(t) => match t.refresh_token {
                    None => r matches Err(e) && e == OAuthError::NoRefreshToken,
                    Some(rt) => r matches Ok(p) && p.0@ == rt@ && pairs_view(p.1@)
                        == refresh_pairs(rt@, client_id@),
                },
            },
    {
        match &self.token {
            None => Err(OAuthError::NoTokenToRefresh),
            Some(t) => match &t.refresh_token {
                None => Err(OAuthError::NoRefreshToken),
                Some(rt) => {
                    let mut f: Vec<(String, String)> = Vec::new();
                    f.push(pair("grant_type", "refresh_token"));
                    f.push(pair("refresh_token", rt.as_str()));
                    f.push(pair("client_id", client_id));
                    assert(pairs_view(f@) =~= refresh_pairs(rt@, client_id@));
                    Ok((rt.clone(), f))
                },
            },
        }
    }

    /// Installs a token (after a refresh). Returns the new access token.
    pub fn install_token(&mut self, token: TokenResponse) -> (r: String)
        ensures
            final(self).token == Some(token),
            final(self).pkce_verifier == old(self).pkce_verifier,
            final(self).oauth_state == old(self).oauth_state,
            r@ == token.access_token@,
    {
        let access = token.access_token.clone();
        self.token = Some(token);
        access
    }

    /// The current access token, expired or not.
    pub fn access_token(&self) -> (r: Option<String>)
        ensures
            match self.token {
                Some(t) => r matches Some(a) && a@ == t.access_token@,
                None => r is None,
            },
    {
        match &self.token {
            Some(t) => Some(t.access_token.clone()),
            None => None,
        }
    }

    /// The access token once a refresh has completed.
    pub fn access_after_refresh(&self) -> (r: Result<String, OAuthError>)
        ensures
            match self.token {
                Some(t) => r matches Ok(a) && a@ == t.access_token@,
                None => r matches Err(e) && e == OAuthError::TokenUnavailableAfterRefresh,
            },
    {
        match &self.token {
            Some(t) => Ok(t.access_token.clone()),
            None => Err(OAuthError::TokenUnavailableAfterRefresh),
        }
    }

    /// Whether the token can be used at `now`: a token that is present and not
    /// expired is used; otherwise it is refreshed.
    pub fn token_decision_at(&self, now: UtcTime) -> (r: TokenDecision)
        requires
            self.token matches Some(t) ==> t.expiry_defined(),
        ensures
            match self.token {
                Some(t) => if t.expired_at(now) {
                    r is Refresh
                } else {
                    r matches TokenDecision::Use(a) && a@ == t.access_token@
                },
                None => r is Refresh,
            },
    {
        match &self.token {
            Some(t) => {
                if t.is_expired_at(now) {
                    TokenDecision::Refresh
                } else {
                    TokenDecision::Use(t.access_token.clone())
                }
            },
            None => TokenDecision::Refresh,
        }
    }

    /// `token_decision_at` for the instant read from the clock.
    pub fn token_decision(&self) -> (r: TokenDecision)
        requires
            self.token matches Some(t) ==> t.expiry_defined(),
        ensures
            exists|now: UtcTime|
                now.wf() && match self.token {
                    Some(t) => if t.expired_at(now) {
                        r is Refresh
                    } else {
                        r matches TokenDecision::Use(a) && a@ == t.access_token@
                    },
                    None => r is Refresh,
                },
    {
        let now = now_utc();
        self.token_decision_at(now)
    }
}

/// The token with the instant it was obtained set to now.
pub fn stamp_obtained(token: TokenResponse) -> (r: TokenResponse)
    ensures
        r.obtained_at matches Some(at) && at.wf() && at.nanos < 1_000_000_000 && r == stamped(
            token,
            at,
        ),
        r.access_token == token.access_token,
        r.token_type == token.token_type,
        r.expires_in == token.expires_in,
        r.refresh_token == token.refresh_token,
        r.scope == token.scope,
{
    let at = now_utc();
    TokenResponse { obtained_at: Some(at), ..token }
}

/// A refreshed token, stamped now, keeping `previous` as refresh token when the
/// reply has none.
pub fn refreshed_token(new_token: TokenResponse, previous: String) -> (r: TokenResponse)
    ensures
        r.obtained_at matches Some(at) && at.wf() && at.nanos < 1_000_000_000 && r == refreshed(
            new_token,
            previous,
            at,
        ),
{
    let at = now_utc();
    let refresh_token = match new_token.refresh_token {
        Some(r) => Some(r),
        None => Some(previous),
    };
    TokenResponse { obtained_at: Some(at), refresh_token, ..new_token }
}

/// The value of the first query parameter named `key`.
pub open spec fn query_param(params: Seq<(String, String)>, key: Seq<char>) -> Option<Seq<char>>
    decreases params.len(),
{
    if params.len() == 0 {
        None
    } else if params[0].0@ == key {
        Some(params[0].1@)
    } else {
        query_param(params.drop_first(), key)
    }
}

fn find_param<'a>(params: &'a Vec<(String, String)>, key: &str) -> (r: Option<&'a String>)
    ensures
        match r {
            Some(v) => query_param(params@, key@) == Some(v@),
            None => query_param(params@, key@) is None,
        },
{
    let mut i: usize = 0;
    assert(params@.skip(0) =~= params@);
    while i < params.len()
        invariant
            i <= params@.len(),
            query_param(params@, key@) == query_param(params@.skip(i as int), key@),
        decreases params.len() - i,
    {
        assert(params@.skip(i as int).drop_first() =~= params@.skip(i + 1));
        assert(params@.skip(i as int)[0] == params@[i as int]);
        if str_eq(params[i].0.as_str(), key) {
            return Some(&params[i].1);
        }
        i += 1;
    }
    assert(params@.skip(i as int).len() == 0);
    None
}

/// What the OAuth callback does.
#[derive(Debug)]
pub enum CallbackStep {
    /// Answer with this page and stop.
    Respond(String),
    /// Exchange this authorization code for a token.
    Exchange(String),
}

/// The plain contents of a [`CallbackStep`].
pub enum CallbackStepView {
    Respond(Seq<char>),
    Exchange(Seq<char>),
}

impl View for CallbackStep {
    type V = CallbackStepView;

    open spec fn view(&self) -> CallbackStepView {
        match self {
            CallbackStep::Respond(p) => CallbackStepView::Respond(p@),
            CallbackStep::Exchange(c) => CallbackStepView::Exchange(c@),
        }
    }
}

/// The step for a callback with these query parameters: an `error` is shown; a
/// missing `code` is refused; a `state` that fails the CSRF check is refused
/// (as is one without `state`); otherwise the code is exchanged.
pub open spec fn callback_for(params: Seq<(String, String)>, stored_state: Option<String>) -> CallbackStepView {
    match query_param(params, "error"@) {
        Some(e) => CallbackStepView::Respond("OAuth error: "@ + e),
        None => match query_param(params, "code"@) {
            None => CallbackStepView::Respond("Missing code parameter"@),
            Some(code) => match query_param(params, "state"@) {
                Some(s) => if state_accepted(stored_state, s) {
                    CallbackStepView::Exchange(code)
                } else {
                    CallbackStepView::Respond("Invalid state parameter (CSRF protection)"@)
                },
                None => CallbackStepView::Respond("Invalid state parameter (CSRF protection)"@),
            },
        },
    }
}

/// The step for an OAuth callback.
pub fn callback_step(params: &Vec<(String, String)>, session: &OAuthSession) -> (r: CallbackStep)
    ensures
        r@ == callback_for(params@, session.oauth_state),
{
    if let Some(e) = find_param(params, "error") {
        return CallbackStep::Respond(concat("OAuth error: ", e.as_str()));
    }
    let code = match find_param(params, "code") {
        Some(c) => c,
        None => {
            return CallbackStep::Respond("Missing code parameter".to_string());
        },
    };
    match find_param(params, "state") {
        Some(s) => {
            if !session.validate_state(s.as_str()) {
                return CallbackStep::Respond(
                    "Invalid state parameter (CSRF protection)".to_string(),
                );
            }
        },
        None => {
            return CallbackStep::Respond("Invalid state parameter (CSRF protection)".to_string());
        },
    }
    CallbackStep::Exchange(code.clone())
}

/// The page shown once the code exchange has finished.
pub fn exchange_result_page(result: &Result<(), String>) -> (r: String)
    ensures
        match result {
            Ok(_) => r@ == "Authentication successful! You can close this window."@,
            Err(e) => r@ == "Authentication failed: "@ + e@,
        },
{
    match result {
        Ok(_) => "Authentication successful! You can close this window.".to_string(),
        Err(e) => concat("Authentication failed: ", e.as_str()),
    }
}

/// The page shown by `/login` when no authorization address can be made.
pub fn login_error_page(message: &str) -> (r: String)
    ensures
        r@ == "Configuration error: "@ + message@ + ".<br>Set SPOTIFY_CLIENT_ID and restart the backend."@,
{
    let mut page = concat("Configuration error: ", message);
    page.append(".<br>Set SPOTIFY_CLIENT_ID and restart the backend.");
    page
}

/// Once an authorization has started, the callback's CSRF check accepts the
/// state that was issued and no other.
pub proof fn law_only_issued_state_accepted(session: OAuthSession, given: Seq<char>)
    requires
        session.oauth_state matches Some(s) && s@.len() == STATE_LENGTH,
    ensures
        state_accepted(session.oauth_state, given) <==> given == session.oauth_state->0@,
{
}

/// An authorization is used once: after the code exchange every callback is
/// refused, whatever it carries.
pub proof fn law_callback_refused_after_exchange(session: OAuthSession, params: Seq<(String, String)>)
    requires
        session.oauth_state is None,
    ensures
        callback_for(params, session.oauth_state) is Respond,
{
}

/// Stamping a token sets the instant it was obtained and changes nothing else:
/// the access token, its type, lifetime, scope and refresh token stay as they were.
pub proof fn law_stamp_changes_only_obtained(token: TokenResponse, at: UtcTime)
    ensures
        stamped(token, at).obtained_at == Some(at),
        stamped(token, at).access_token == token.access_token,
        stamped(token, at).token_type == token.token_type,
        stamped(token, at).expires_in == token.expires_in,
        stamped(token, at).refresh_token == token.refresh_token,
        stamped(token, at).scope == token.scope,
{
}

/// A refreshed token always has a refresh token: the new one when Spotify sends
/// one, else the one it replaces; its other fields are those of the reply.
pub proof fn law_refresh_keeps_refresh_token(new_token: TokenResponse, previous: String, at: UtcTime)
    ensures
        refreshed(new_token, previous, at).refresh_token == (match new_token.refresh_token {
            Some(r) => Some(r),
            None => Some(previous),
        }),
        refreshed(new_token, previous, at).access_token == new_token.access_token,
        refreshed(new_token, previous, at).expires_in == new_token.expires_in,
        refreshed(new_token, previous, at).obtained_at == Some(at),
        refreshed(new_token, previous, at).token_type == new_token.token_type,
        refreshed(new_token, previous, at).scope == new_token.scope,
{
}

/// A client ID taken from configuration is never empty and never the placeholder.
pub proof fn law_config_client_id_usable(contents: Seq<char>)
    ensures
        config_client_id(contents) matches Some(id) ==> usable_client_id(id),
{
    lemma_first_client_id_usable(lines(contents));
}

proof fn lemma_first_client_id_usable(ls: Seq<Seq<char>>)
    ensures
        first_client_id(ls) matches Some(id) ==> usable_client_id(id),
    decreases ls.len(),
{
    if ls.len() > 0 {
        lemma_first_client_id_usable(ls.drop_first());
    }
}

/// A code is exchanged only when the callback brings the stored, non-empty
/// state and no error.
pub proof fn law_exchange_needs_matching_state(params: Seq<(String, String)>, stored_state: Option<String>)
    requires
        callback_for(params, stored_state) is Exchange,
    ensures
        query_param(params, "error"@) is None,
        query_param(params, "state"@) matches Some(s) && state_accepted(stored_state, s),
{
}

} // verus!
