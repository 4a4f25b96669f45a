//! What the SQLite cache stores and reads back: token rows and the time stamps
//! of cached responses, as RFC 3339 text.
use vstd::prelude::*;

use crate::time::{
    add_in_range, add_seconds, can_add_seconds, MAX_FOUR_DIGIT_YEAR, MIN_FOUR_DIGIT_YEAR, now_utc, parse_rfc3339, plus_seconds,
    rfc3339_parse, rfc3339_text, to_rfc3339, UtcTime,
};
use crate::types::TokenResponse;

verus! {

/// Key under which the OAuth token is stored.
pub const TOKEN_CACHE_KEY: &'static str = "spotify_oauth_token";

/// A stored token row cannot be read back.
#[derive(Clone, Copy, Debug, PartialEq, Eq, Structural)]
pub enum CacheError {
    /// The `obtained_at` column is not RFC 3339 text.
    BadObtainedAt,
}

/// The current instant as RFC 3339 text (the cut-off for expired rows); up to
/// year 9999 the text reads back as that instant.
pub fn now_text() -> (r: String)
    ensures
        exists|t: UtcTime|
            t.wf() && t.secs >= 0 && t.nanos < 1_000_000_000 && r@ == rfc3339_text(t) && (t.secs
                <= MAX_FOUR_DIGIT_YEAR ==> rfc3339_parse(r@) == Some(t)),
{
    let t = now_utc();
    to_rfc3339(t)
}

/// The instant recorded for a token stored at `now`: its obtained instant, or
/// `now` when it has none.
pub open spec fn stored_instant(token: TokenResponse, now: UtcTime) -> UtcTime {
    match token.obtained_at {
        Some(o) => o,
        None => now,
    }
}

/// What reading back the row of a token stored at `now` gives: the token with
/// the instant its `obtained_at` text parses to, or an error when it does not parse.
pub open spec fn read_back(token: TokenResponse, now: UtcTime) -> Result<TokenResponse, CacheError> {
    match rfc3339_parse(rfc3339_text(stored_instant(token, now))) {
        Some(t) => Ok(TokenResponse { obtained_at: Some(t), ..token }),
        None => Err(CacheError::BadObtainedAt),
    }
}

/// The instant lies in the years 0000 to 9999.
pub open spec fn four_digit_year(t: UtcTime) -> bool {
    MIN_FOUR_DIGIT_YEAR <= t.secs <= MAX_FOUR_DIGIT_YEAR
}

/// The `obtained_at` column for a token stored at `now`: its obtained instant, or
/// `now` when it has none. In the years 0000 to 9999 the text reads back as that instant.
pub fn token_obtained_text_at(token: &TokenResponse, now: UtcTime) -> (r: String)
    requires
        now.wf(),
        token.obtained_at matches Some(o) ==> o.wf(),
    ensures
        r@ == rfc3339_text(stored_instant(*token, now)),
        four_digit_year(stored_instant(*token, now)) ==> rfc3339_parse(r@) == Some(
            stored_instant(*token, now),
        ),
{
    match token.obtained_at {
        Some(o) => to_rfc3339(o),
        None => to_rfc3339(now),
    }
}

/// The `obtained_at` column for a token stored now (`token_obtained_text_at` for
/// the instant read from the clock).
pub fn token_obtained_text(token: &TokenResponse) -> (r: String)
    requires
        token.obtained_at matches Some(o) ==> o.wf(),
    ensures
        exists|now: UtcTime|
            now.wf() && now.secs >= 0 && now.nanos < 1_000_000_000 && r@ == rfc3339_text(
                stored_instant(*token, now),
            ) && (four_digit_year(stored_instant(*token, now)) ==> rfc3339_parse(r@) == Some(
                stored_instant(*token, now),
            )),
{
    let now = now_utc();
    token_obtained_text_at(token, now)
}

/// The token read back from the row written for it at `now`; in the years 0000
/// to 9999 this is the token itself, with the stored instant as `obtained_at`.
pub fn token_round_trip_at(token: TokenResponse, now: UtcTime) -> (r: Result<TokenResponse, CacheError>)
    requires
        now.wf(),
        token.obtained_at matches Some(o) ==> o.wf(),
    ensures
        r == read_back(token, now),
        four_digit_year(stored_instant(token, now)) ==> r == Ok::<TokenResponse, CacheError>(
            TokenResponse { obtained_at: Some(stored_instant(token, now)), ..token },
        ),
{
    let text = token_obtained_text_at(&token, now);
    token_from_row(
        token.access_token,
        token.token_type,
        token.expires_in,
        token.refresh_token,
        token.scope,
        text.as_str(),
    )
}

/// A stored token reads back unchanged: the row written for a token whose
/// obtained instant has a four-digit year gives the same token again; a token
/// without one reads back as `token_round_trip_at` gives for the instant it was
/// stored at.
pub fn token_round_trip(token: TokenResponse) -> (r: Result<TokenResponse, CacheError>)
    requires
        token.obtained_at matches Some(o) ==> o.wf() && MIN_FOUR_DIGIT_YEAR <= o.secs
            <= MAX_FOUR_DIGIT_YEAR,
    ensures
        token.obtained_at is Some ==> r == Ok::<TokenResponse, CacheError>(token),
        exists|now: UtcTime|
            now.wf() && now.secs >= 0 && now.nanos < 1_000_000_000 && r == read_back(token, now)
                && (four_digit_year(now) ==> r == Ok::<TokenResponse, CacheError>(
                TokenResponse { obtained_at: Some(stored_instant(token, now)), ..token },
            )),
{
    let now = now_utc();
    token_round_trip_at(token, now)
}

/// A token read back from its row; fails when `obtained_at` is not RFC 3339 text.
pub fn token_from_row(
    access_token: String,
    token_type: String,
    expires_in: i64,
    refresh_token: Option<String>,
    scope: String,
    obtained_at: &str,
) -> (r: Result<TokenResponse, CacheError>)
    ensures
        match rfc3339_parse(obtained_at@) {
            None => r == Err::<TokenResponse, CacheError>(CacheError::BadObtainedAt),
            Some(t) => r matches Ok(tok) && tok == (TokenResponse {
                access_token,
                token_type,
                expires_in,
                refresh_token,
                scope,
                obtained_at: Some(t),
            }),
        },
{
    match parse_rfc3339(obtained_at) {
        None => Err(CacheError::BadObtainedAt),
        Some(t) => Ok(
            TokenResponse {
                access_token,
                token_type,
                expires_in,
                refresh_token,
                scope,
                obtained_at: Some(t),
            },
        ),
    }
}

/// The instant `ttl_seconds` after `now`, as chrono's `+` computes it.
pub open spec fn expiry_instant(now: UtcTime, ttl_seconds: int) -> UtcTime {
    UtcTime {
        secs: add_seconds(now, ttl_seconds).0 as i64,
        nanos: add_seconds(now, ttl_seconds).1 as u32,
    }
}

/// The `expires_at` and `created_at` columns of a response cached at `now` for
/// `ttl_seconds`.
pub fn cache_stamps_at(now: UtcTime, ttl_seconds: i64) -> (r: (String, String))
    requires
        now.wf(),
        add_in_range(now, ttl_seconds as int),
    ensures
        r.0@ == rfc3339_text(expiry_instant(now, ttl_seconds as int)),
        r.1@ == rfc3339_text(now),
{
    let expires = plus_seconds(now, ttl_seconds);
    assert(expires == expiry_instant(now, ttl_seconds as int));
    (to_rfc3339(expires), to_rfc3339(now))
}

/// The column pair for a response cached at `now` for `ttl_seconds`; `None`
/// exactly when the expiry falls outside chrono's range (where computing it panics).
pub fn cache_stamps_for(now: UtcTime, ttl_seconds: i64) -> (r: Option<(String, String)>)
    requires
        now.wf(),
    ensures
        r is Some <==> add_in_range(now, ttl_seconds as int),
        r matches Some(p) ==> p.0@ == rfc3339_text(expiry_instant(now, ttl_seconds as int))
            && p.1@ == rfc3339_text(now),
{
    if can_add_seconds(now, ttl_seconds) {
        Some(cache_stamps_at(now, ttl_seconds))
    } else {
        None
    }
}

/// The column pair for a response cached now (`cache_stamps_for` for the
/// instant read from the clock).
pub fn cache_stamps(ttl_seconds: i64) -> (r: Option<(String, String)>)
    ensures
        exists|now: UtcTime|
            now.wf() && now.secs >= 0 && now.nanos < 1_000_000_000 && (r is Some <==> add_in_range(
                now,
                ttl_seconds as int,
            )) && (r matches Some(p) ==> p.0@ == rfc3339_text(
                expiry_instant(now, ttl_seconds as int),
            ) && p.1@ == rfc3339_text(now)),
{
    let now = now_utc();
    cache_stamps_for(now, ttl_seconds)
}

} // verus!
