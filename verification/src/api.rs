//! The Web API calls the backend makes (method, endpoint, query) and what it
//! does with each HTTP reply.
use vstd::prelude::*;

use crate::encoding::pairs_view;
use crate::playback::{repeat_state, repeat_state_for};
use crate::text::{bool_text, chars_of, decimal, trim, trim_chars, u64_to_decimal};

verus! {

/// Base address of the Spotify Web API.
pub const SPOTIFY_API_BASE: &'static str = "https://api.spotify.com/v1";

/// HTTP methods the backend uses.
#[derive(Clone, Copy, Debug, PartialEq, Eq, Structural)]
pub enum HttpMethod {
    Get,
    Put,
    Post,
}

/// One Web API call: method, endpoint below the API base, and query parameters.
#[derive(Debug)]
pub struct ApiCall {
    pub method: HttpMethod,
    pub endpoint: String,
    pub query: Vec<(String, String)>,
}

/// The plain contents of an [`ApiCall`].
pub struct ApiCallView {
    pub method: HttpMethod,
    pub endpoint: Seq<char>,
    pub query: Seq<(Seq<char>, Seq<char>)>,
}

impl View for ApiCall {
    type V = ApiCallView;

    open spec fn view(&self) -> ApiCallView {
        ApiCallView { method: self.method, endpoint: self.endpoint@, query: pairs_view(self.query@) }
    }
}

/// A call without query parameters.
pub open spec fn bare_call(method: HttpMethod, endpoint: Seq<char>) -> ApiCallView {
    ApiCallView { method, endpoint, query: seq![] }
}

/// A call with one query parameter.
pub open spec fn call_with(
    method: HttpMethod,
    endpoint: Seq<char>,
    name: Seq<char>,
    value: Seq<char>,
) -> ApiCallView {
    ApiCallView { method, endpoint, query: seq![(name, value)] }
}

fn bare(method: HttpMethod, endpoint: &str) -> (r: ApiCall)
    ensures
        r@ == bare_call(method, endpoint@),
{
    let query: Vec<(String, String)> = Vec::new();
    let r = ApiCall { method, endpoint: endpoint.to_string(), query };
    assert(r@.query =~= Seq::<(Seq<char>, Seq<char>)>::empty());
    r
}

fn with_param(method: HttpMethod, endpoint: &str, name: &str, value: String) -> (r: ApiCall)
    ensures
        r@ == call_with(method, endpoint@, name@, value@),
{
    let mut query: Vec<(String, String)> = Vec::new();
    query.push((name.to_string(), value));
    let r = ApiCall { method, endpoint: endpoint.to_string(), query };
    assert(r@.query =~= seq![(name@, value@)]);
    r
}

/// Resume (`play`) or pause playback.
pub fn play_pause_call(play: bool) -> (r: ApiCall)
    ensures
        r@ == bare_call(
            HttpMethod::Put,
            if play { "/me/player/play"@ } else { "/me/player/pause"@ },
        ),
{
    if play {
        bare(HttpMethod::Put, "/me/player/play")
    } else {
        bare(HttpMethod::Put, "/me/player/pause")
    }
}

/// Skip to the next track.
pub fn next_call() -> (r: ApiCall)
    ensures
        r@ == bare_call(HttpMethod::Post, "/me/player/next"@),
{
    bare(HttpMethod::Post, "/me/player/next")
}

/// Skip to the previous track.
pub fn previous_call() -> (r: ApiCall)
    ensures
        r@ == bare_call(HttpMethod::Post, "/me/player/previous"@),
{
    bare(HttpMethod::Post, "/me/player/previous")
}

/// Seek to a position given in milliseconds.
pub fn seek_call(position_ms: u64) -> (r: ApiCall)
    ensures
        r@ == call_with(
            HttpMethod::Put,
            "/me/player/seek"@,
            "position_ms"@,
            decimal(position_ms as nat),
        ),
{
    with_param(HttpMethod::Put, "/me/player/seek", "position_ms", u64_to_decimal(position_ms))
}

/// Set the volume to a percentage.
pub fn volume_call(volume_percent: u32) -> (r: ApiCall)
    ensures
        r@ == call_with(
            HttpMethod::Put,
            "/me/player/volume"@,
            "volume_percent"@,
            decimal(volume_percent as nat),
        ),
{
    with_param(
        HttpMethod::Put,
        "/me/player/volume",
        "volume_percent",
        u64_to_decimal(volume_percent as u64),
    )
}

/// Turn shuffle on or off.
pub fn shuffle_call(shuffle: bool) -> (r: ApiCall)
    ensures
        r@ == call_with(
            HttpMethod::Put,
            "/me/player/shuffle"@,
            "state"@,
            if shuffle { "true"@ } else { "false"@ },
        ),
{
    with_param(HttpMethod::Put, "/me/player/shuffle", "state", bool_text(shuffle))
}

/// Set the repeat mode from a plugin loop status ("Track", "Playlist", or other).
pub fn repeat_call(mode: &str) -> (r: ApiCall)
    ensures
        r@ == call_with(HttpMethod::Put, "/me/player/repeat"@, "state"@, repeat_state_for(mode@)),
{
    with_param(HttpMethod::Put, "/me/player/repeat", "state", repeat_state(mode))
}

/// Read the current playback state.
pub fn playback_state_call() -> (r: ApiCall)
    ensures
        r@ == bare_call(HttpMethod::Get, "/me/player"@),
{
    bare(HttpMethod::Get, "/me/player")
}

/// Read the user profile.
pub fn user_profile_call() -> (r: ApiCall)
    ensures
        r@ == bare_call(HttpMethod::Get, "/me"@),
{
    bare(HttpMethod::Get, "/me")
}

/// The full address of an endpoint.
pub fn request_url(endpoint: &str) -> (r: String)
    ensures
        r@ == SPOTIFY_API_BASE@ + endpoint@,
{
    let mut url = SPOTIFY_API_BASE.to_string();
    url.append(endpoint);
    url
}

/// Whether a request goes out with an explicit empty body (`Content-Length: 0`):
/// Spotify answers a bodyless PUT or POST without it with 411.
pub fn sends_empty_body(method: HttpMethod) -> (r: bool)
    ensures
        r == (method == HttpMethod::Put || method == HttpMethod::Post),
{
    match method {
        HttpMethod::Get => false,
        HttpMethod::Put => true,
        HttpMethod::Post => true,
    }
}

/// A 2xx status.
pub fn is_success(status: u16) -> (r: bool)
    ensures
        r == (200 <= status <= 299),
{
    200 <= status && status <= 299
}

/// What to do with an HTTP reply.
#[derive(Clone, Copy, Debug, PartialEq, Eq, Structural)]
pub enum ReplyPlan {
    /// 401: refresh the token once and send the request again.
    RefreshAndRetry,
    /// Another non-2xx status: fail with the status and the body text.
    Fail,
    /// Success of a control command: the result is JSON `null`, the body unread.
    NullValue,
    /// Success: read the body (a blank one, see [`body_is_blank`], gives `null`).
    ReadBody,
}

/// The plan for a reply with HTTP status `status`; `expects_unit` marks the
/// control commands, whose successful replies are not parsed.
pub fn reply_plan(status: u16, expects_unit: bool) -> (r: ReplyPlan)
    ensures
        status == 401 ==> r == ReplyPlan::RefreshAndRetry,
        status != 401 && !(200 <= status <= 299) ==> r == ReplyPlan::Fail,
        200 <= status <= 299 && expects_unit ==> r == ReplyPlan::NullValue,
        200 <= status <= 299 && !expects_unit ==> r == ReplyPlan::ReadBody,
{
    if status == 401 {
        ReplyPlan::RefreshAndRetry
    } else if status < 200 || status > 299 {
        ReplyPlan::Fail
    } else if expects_unit {
        ReplyPlan::NullValue
    } else {
        ReplyPlan::ReadBody
    }
}

/// Whether a successful reply body is to be read as JSON `null` (it is blank)
/// rather than parsed.
pub fn body_is_blank(body: &str) -> (r: bool)
    ensures
        r == (trim(body@).len() == 0),
{
    let chars = chars_of(body);
    let t = trim_chars(&chars);
    t.len() == 0
}

/// Where a Web API request stands.
#[derive(Clone, Copy, Debug, PartialEq, Eq, Structural)]
pub enum RequestState {
    /// Waiting for a valid access token; `retry` once the first reply was 401.
    AwaitToken { retry: bool },
    /// The request went out; waiting for its status.
    AwaitReply { retry: bool },
    /// Waiting for a token refresh after a 401.
    AwaitRefresh,
    /// Nothing more to do.
    Finished,
}

/// What the outside work of the last step produced.
#[derive(Debug)]
pub enum RequestEvent {
    /// A valid access token.
    TokenReady(String),
    /// The HTTP status of the reply.
    Replied(u16),
    /// The token was refreshed.
    Refreshed,
}

/// How a finished request produces its result.
#[derive(Clone, Copy, Debug, PartialEq, Eq, Structural)]
pub enum Completion {
    /// Fail with the status and the body text.
    Fail,
    /// The result is JSON `null`; the body is not read.
    Null,
    /// Read the body: blank gives `null`, anything else is parsed.
    ReadBody,
    /// The reply to a retried request that expects data: its body is parsed as
    /// JSON, whatever its status.
    ParseRetried,
}

/// The next piece of outside work.
#[derive(Debug)]
pub enum RequestAction {
    /// Obtain a valid access token (refreshing it when expired).
    GetToken,
    /// Send the request with this access token.
    Send(String),
    /// Refresh the token.
    Refresh,
    /// Produce the result.
    Complete(Completion),
    /// The event does not fit the state; the request is abandoned.
    Invalid,
}

/// The plain contents of a [`RequestEvent`].
pub enum RequestEventView {
    TokenReady(Seq<char>),
    Replied(u16),
    Refreshed,
}

/// The plain contents of a [`RequestAction`].
pub enum RequestActionView {
    GetToken,
    Send(Seq<char>),
    Refresh,
    Complete(Completion),
    Invalid,
}

impl View for RequestEvent {
    type V = RequestEventView;

    open spec fn view(&self) -> RequestEventView {
        match self {
            RequestEvent::TokenReady(t) => RequestEventView::TokenReady(t@),
            RequestEvent::Replied(s) => RequestEventView::Replied(*s),
            RequestEvent::Refreshed => RequestEventView::Refreshed,
        }
    }
}

impl View for RequestAction {
    type V = RequestActionView;

    open spec fn view(&self) -> RequestActionView {
        match self {
            RequestAction::GetToken => RequestActionView::GetToken,
            RequestAction::Send(t) => RequestActionView::Send(t@),
            RequestAction::Refresh => RequestActionView::Refresh,
            RequestAction::Complete(c) => RequestActionView::Complete(*c),
            RequestAction::Invalid => RequestActionView::Invalid,
        }
    }
}

/// The completion for a first reply that is not 401.
pub open spec fn completion_for(status: u16, expects_unit: bool) -> Completion {
    if !(200 <= status <= 299) {
        Completion::Fail
    } else if expects_unit {
        Completion::Null
    } else {
        Completion::ReadBody
    }
}

/// The completion for the reply to a retried request: a control command is
/// never parsed (2xx gives `null`, anything else fails); a request that expects
/// data parses the body whatever the status.
pub open spec fn retried_completion_for(status: u16, expects_unit: bool) -> Completion {
    if expects_unit {
        if 200 <= status <= 299 {
            Completion::Null
        } else {
            Completion::Fail
        }
    } else {
        Completion::ParseRetried
    }
}

/// One step of a request: a token is sent with; a 401 on the first attempt
/// leads to one refresh and one more attempt; any other first reply, and every
/// reply to the second attempt, ends the request.
pub open spec fn next_step(state: RequestState, event: RequestEventView, expects_unit: bool) -> (
    RequestState,
    RequestActionView,
) {
    match (state, event) {
        (RequestState::AwaitToken { retry }, RequestEventView::TokenReady(t)) => (
            RequestState::AwaitReply { retry },
            RequestActionView::Send(t),
        ),
        (RequestState::AwaitReply { retry }, RequestEventView::Replied(s)) => if retry {
            (RequestState::Finished, RequestActionView::Complete(retried_completion_for(s, expects_unit)))
        } else if s == 401 {
            (RequestState::AwaitRefresh, RequestActionView::Refresh)
        } else {
            (RequestState::Finished, RequestActionView::Complete(completion_for(s, expects_unit)))
        },
        (RequestState::AwaitRefresh, RequestEventView::Refreshed) => (
            RequestState::AwaitToken { retry: true },
            RequestActionView::GetToken,
        ),
        _ => (RequestState::Finished, RequestActionView::Invalid),
    }
}

/// The state a request starts in, with its first action (get a token).
pub fn request_start() -> (r: (RequestState, RequestAction))
    ensures
        r.0 == (RequestState::AwaitToken { retry: false }),
        r.1 is GetToken,
{
    (RequestState::AwaitToken { retry: false }, RequestAction::GetToken)
}

/// One step of a request (see `next_step`).
pub fn request_step(state: RequestState, event: RequestEvent, expects_unit: bool) -> (r: (
    RequestState,
    RequestAction,
))
    ensures
        (r.0, r.1@) == next_step(state, event@, expects_unit),
{
    match (state, event) {
        (RequestState::AwaitToken { retry }, RequestEvent::TokenReady(t)) => (
            RequestState::AwaitReply { retry },
            RequestAction::Send(t),
        ),
        (RequestState::AwaitReply { retry }, RequestEvent::Replied(s)) => {
            if retry {
                let completion = if !expects_unit {
                    Completion::ParseRetried
                } else if is_success(s) {
                    Completion::Null
                } else {
                    Completion::Fail
                };
                (RequestState::Finished, RequestAction::Complete(completion))
            } else {
                match reply_plan(s, expects_unit) {
                    ReplyPlan::RefreshAndRetry => (RequestState::AwaitRefresh, RequestAction::Refresh),
                    ReplyPlan::Fail => (RequestState::Finished, RequestAction::Complete(Completion::Fail)),
                    ReplyPlan::NullValue => (
                        RequestState::Finished,
                        RequestAction::Complete(Completion::Null),
                    ),
                    ReplyPlan::ReadBody => (
                        RequestState::Finished,
                        RequestAction::Complete(Completion::ReadBody),
                    ),
                }
            }
        },
        (RequestState::AwaitRefresh, RequestEvent::Refreshed) => (
            RequestState::AwaitToken { retry: true },
            RequestAction::GetToken,
        ),
        _ => (RequestState::Finished, RequestAction::Invalid),
    }
}

/// Whether a request has already been retried.
pub open spec fn retried(state: RequestState) -> bool {
    match state {
        RequestState::AwaitToken { retry } => retry,
        RequestState::AwaitReply { retry } => retry,
        _ => false,
    }
}

/// The token is refreshed at most once per request: from a retried request no
/// event leads to a refresh, and every state reached is retried or finished.
pub proof fn law_refresh_at_most_once(state: RequestState, event: RequestEventView, expects_unit: bool)
    requires
        retried(state),
    ensures
        !(next_step(state, event, expects_unit).1 is Refresh),
        retried(next_step(state, event, expects_unit).0) || next_step(state, event, expects_unit).0
            == RequestState::Finished,
{
}

/// A control command's reply is never parsed as JSON, on the first attempt or
/// on the retry.
pub proof fn law_control_reply_not_parsed(state: RequestState, event: RequestEventView)
    ensures
        next_step(state, event, true).1 != RequestActionView::Complete(Completion::ParseRetried),
        next_step(state, event, true).1 != RequestActionView::Complete(Completion::ReadBody),
{
}

/// A request is sent again only after a 401 to its first attempt and a refresh.
pub proof fn law_retry_only_after_unauthorized(state: RequestState, event: RequestEventView, expects_unit: bool)
    requires
        next_step(state, event, expects_unit).1 is Refresh,
    ensures
        state == (RequestState::AwaitReply { retry: false }),
        event == RequestEventView::Replied(401),
{
}

/// What the reply to a request's first attempt leads to: a 401 to a token
/// refresh; any other status outside 2xx to a failure, for a control command as
/// for a request that expects data; a 2xx status to `null` for a control command
/// and to reading the body otherwise.
pub proof fn law_first_reply_outcome(status: u16, expects_unit: bool)
    ensures
        status == 401 ==> next_step(
            RequestState::AwaitReply { retry: false },
            RequestEventView::Replied(status),
            expects_unit,
        ) == (RequestState::AwaitRefresh, RequestActionView::Refresh),
        status != 401 && (status < 200 || status > 299) ==> next_step(
            RequestState::AwaitReply { retry: false },
            RequestEventView::Replied(status),
            expects_unit,
        ) == (RequestState::Finished, RequestActionView::Complete(Completion::Fail)),
        200 <= status <= 299 && expects_unit ==> next_step(
            RequestState::AwaitReply { retry: false },
            RequestEventView::Replied(status),
            expects_unit,
        ) == (RequestState::Finished, RequestActionView::Complete(Completion::Null)),
        200 <= status <= 299 && !expects_unit ==> next_step(
            RequestState::AwaitReply { retry: false },
            RequestEventView::Replied(status),
            expects_unit,
        ) == (RequestState::Finished, RequestActionView::Complete(Completion::ReadBody)),
{
}

/// What the reply to the second attempt (after a 401 and a refresh) leads to:
/// the request always ends; a control command gets `null` on 2xx and fails
/// otherwise; a request that expects data parses the body whatever the status.
pub proof fn law_retried_reply_outcome(status: u16, expects_unit: bool)
    ensures
        expects_unit && 200 <= status <= 299 ==> next_step(
            RequestState::AwaitReply { retry: true },
            RequestEventView::Replied(status),
            expects_unit,
        ) == (RequestState::Finished, RequestActionView::Complete(Completion::Null)),
        expects_unit && (status < 200 || status > 299) ==> next_step(
            RequestState::AwaitReply { retry: true },
            RequestEventView::Replied(status),
            expects_unit,
        ) == (RequestState::Finished, RequestActionView::Complete(Completion::Fail)),
        !expects_unit ==> next_step(
            RequestState::AwaitReply { retry: true },
            RequestEventView::Replied(status),
            expects_unit,
        ) == (RequestState::Finished, RequestActionView::Complete(Completion::ParseRetried)),
{
}

} // verus!
