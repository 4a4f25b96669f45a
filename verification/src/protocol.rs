//! The plugin's socket protocol (JSON lines, version 1): how a request is
//! routed, and the reply each outcome gets.
use vstd::prelude::*;

use crate::json::{field_of, text_or_empty, JsonNumber, JsonValue};
use crate::text::{chars_of, str_eq, trim, trim_chars};
use crate::types::PlayerState;

verus! {

/// Version number carried by every reply.
pub const PROTOCOL_VERSION: u64 = 1u64;

/// A player command that the socket forwards and acknowledges at once.
#[derive(Debug)]
pub enum SocketCommand {
    PlayPause,
    Next,
    Previous,
    /// Position in microseconds.
    Seek(u64),
    /// The `volume` number given, if any (the plugin's 0.0–1.0 level; 0.5 when absent).
    SetVolume(Option<JsonNumber>),
    Shuffle(bool),
    Repeat(String),
}

/// Where a request goes.
#[derive(Debug)]
pub enum Route {
    GetState,
    Forward(SocketCommand),
    Authenticate,
    Ping,
    Unknown(String),
}

/// A request's id with its route.
#[derive(Debug)]
pub struct RoutedRequest {
    pub id: u64,
    pub route: Route,
}

/// The plain contents of a [`SocketCommand`].
pub enum SocketCommandView {
    PlayPause,
    Next,
    Previous,
    Seek(u64),
    SetVolume(Option<JsonNumber>),
    Shuffle(bool),
    Repeat(Seq<char>),
}

/// The plain contents of a [`Route`].
pub enum RouteView {
    GetState,
    Forward(SocketCommandView),
    Authenticate,
    Ping,
    Unknown(Seq<char>),
}

impl View for SocketCommand {
    type V = SocketCommandView;

    open spec fn view(&self) -> SocketCommandView {
        match self {
            SocketCommand::PlayPause => SocketCommandView::PlayPause,
            SocketCommand::Next => SocketCommandView::Next,
            SocketCommand::Previous => SocketCommandView::Previous,
            SocketCommand::Seek(p) => SocketCommandView::Seek(*p),
            SocketCommand::SetVolume(v) => SocketCommandView::SetVolume(*v),
            SocketCommand::Shuffle(b) => SocketCommandView::Shuffle(*b),
            SocketCommand::Repeat(m) => SocketCommandView::Repeat(m@),
        }
    }
}

impl View for Route {
    type V = RouteView;

    open spec fn view(&self) -> RouteView {
        match self {
            Route::GetState => RouteView::GetState,
            Route::Forward(c) => RouteView::Forward(c@),
            Route::Authenticate => RouteView::Authenticate,
            Route::Ping => RouteView::Ping,
            Route::Unknown(c) => RouteView::Unknown(c@),
        }
    }
}

/// The request id: `id` as an unsigned integer, else 0.
pub open spec fn request_id(req: JsonValue) -> u64 {
    match req.field("id"@) {
        Some(v) => match v.unsigned() {
            Some(n) => n,
            None => 0,
        },
        None => 0,
    }
}

/// The command name: `command` as a string, else empty.
pub open spec fn command_name(req: JsonValue) -> Seq<char> {
    text_or_empty(req.field("command"@))
}

/// The argument `name` under `args`.
pub open spec fn argument(req: JsonValue, name: Seq<char>) -> Option<JsonValue> {
    field_of(req.field("args"@), name)
}

/// The route of a request.
pub open spec fn route_for(req: JsonValue) -> RouteView {
    let c = command_name(req);
    if c == "get_state"@ {
        RouteView::GetState
    } else if c == "play_pause"@ {
        RouteView::Forward(SocketCommandView::PlayPause)
    } else if c == "next"@ {
        RouteView::Forward(SocketCommandView::Next)
    } else if c == "previous"@ {
        RouteView::Forward(SocketCommandView::Previous)
    } else if c == "seek"@ {
        RouteView::Forward(
            SocketCommandView::Seek(
                match argument(req, "position"@) {
                    Some(v) => match v.unsigned() {
                        Some(n) => n,
                        None => 0,
                    },
                    None => 0,
                },
            ),
        )
    } else if c == "set_volume"@ {
        RouteView::Forward(
            SocketCommandView::SetVolume(
                match argument(req, "volume"@) {
                    Some(v) => v.number(),
                    None => None,
                },
            ),
        )
    } else if c == "shuffle"@ {
        RouteView::Forward(
            SocketCommandView::Shuffle(
                match argument(req, "enabled"@) {
                    Some(v) => match v.boolean() {
                        Some(b) => b,
                        None => false,
                    },
                    None => false,
                },
            ),
        )
    } else if c == "repeat"@ {
        RouteView::Forward(
            SocketCommandView::Repeat(
                match argument(req, "mode"@) {
                    Some(v) => match v.text() {
                        Some(m) => m,
                        None => "None"@,
                    },
                    None => "None"@,
                },
            ),
        )
    } else if c == "authenticate"@ {
        RouteView::Authenticate
    } else if c == "ping"@ {
        RouteView::Ping
    } else {
        RouteView::Unknown(c)
    }
}

/// How a request is routed: by its `command` string, each known command to its
/// own route; a forwarded command carries the value found under `args` (the
/// `position` as an unsigned integer, the `volume` number, the `enabled` flag, the
/// `mode` string), with the defaults 0, none, off and "None" where it is missing
/// or of another type; any other command is unknown and keeps its name. The id
/// is `id` as an unsigned integer, else 0.
pub proof fn law_route_by_command(req: JsonValue)
    ensures
        req.field("id"@) is Some && req.field("id"@).unwrap().unsigned() is Some ==> request_id(req)
            == req.field("id"@).unwrap().unsigned().unwrap(),
        !(req.field("id"@) is Some && req.field("id"@).unwrap().unsigned() is Some) ==> request_id(req)
            == 0,
        command_name(req) == "get_state"@ ==> route_for(req) == RouteView::GetState,
        command_name(req) == "play_pause"@ ==> route_for(req) == RouteView::Forward(
            SocketCommandView::PlayPause,
        ),
        command_name(req) == "next"@ ==> route_for(req) == RouteView::Forward(SocketCommandView::Next),
        command_name(req) == "previous"@ ==> route_for(req) == RouteView::Forward(
            SocketCommandView::Previous,
        ),
        command_name(req) == "authenticate"@ ==> route_for(req) == RouteView::Authenticate,
        command_name(req) == "ping"@ ==> route_for(req) == RouteView::Ping,
        command_name(req) != "get_state"@ && command_name(req) != "play_pause"@ && command_name(req)
            != "next"@ && command_name(req) != "previous"@ && command_name(req) != "seek"@
            && command_name(req) != "set_volume"@ && command_name(req) != "shuffle"@
            && command_name(req) != "repeat"@ && command_name(req) != "authenticate"@
            && command_name(req) != "ping"@ ==> route_for(req) == RouteView::Unknown(
            command_name(req),
        ),
        command_name(req) == "shuffle"@ ==> route_for(req) == RouteView::Forward(
            SocketCommandView::Shuffle(
                argument(req, "enabled"@) is Some && argument(req, "enabled"@).unwrap().boolean()
                    == Some(true),
            ),
        ),
        command_name(req) == "seek"@ && argument(req, "position"@) is Some && argument(
            req,
            "position"@,
        ).unwrap().unsigned() is Some ==> route_for(req) == RouteView::Forward(
            SocketCommandView::Seek(argument(req, "position"@).unwrap().unsigned().unwrap()),
        ),
        command_name(req) == "seek"@ && !(argument(req, "position"@) is Some && argument(
            req,
            "position"@,
        ).unwrap().unsigned() is Some) ==> route_for(req) == RouteView::Forward(
            SocketCommandView::Seek(0),
        ),
        command_name(req) == "set_volume"@ && argument(req, "volume"@) is Some ==> route_for(req)
            == RouteView::Forward(
            SocketCommandView::SetVolume(argument(req, "volume"@).unwrap().number()),
        ),
        command_name(req) == "set_volume"@ && argument(req, "volume"@) is None ==> route_for(req)
            == RouteView::Forward(SocketCommandView::SetVolume(None)),
        command_name(req) == "repeat"@ && argument(req, "mode"@) is Some && argument(
            req,
            "mode"@,
        ).unwrap().text() is Some ==> route_for(req) == RouteView::Forward(
            SocketCommandView::Repeat(argument(req, "mode"@).unwrap().text().unwrap()),
        ),
        command_name(req) == "repeat"@ && !(argument(req, "mode"@) is Some && argument(
            req,
            "mode"@,
        ).unwrap().text() is Some) ==> route_for(req) == RouteView::Forward(
            SocketCommandView::Repeat("None"@),
        ),
{
    reveal_strlit("get_state");
    reveal_strlit("play_pause");
    reveal_strlit("next");
    reveal_strlit("previous");
    reveal_strlit("seek");
    reveal_strlit("set_volume");
    reveal_strlit("shuffle");
    reveal_strlit("repeat");
    reveal_strlit("authenticate");
    reveal_strlit("ping");
    assert("get_state"@.len() == 9 && "previous"@.len() == 8 && "shuffle"@.len() == 7);
    assert("repeat"@.len() == 6 && "authenticate"@.len() == 12 && "next"@.len() == 4);
    assert("play_pause"@.len() == 10 && "set_volume"@.len() == 10 && "seek"@.len() == 4);
    assert("ping"@.len() == 4);
    assert("next"@[0] != "seek"@[0]);
    assert("next"@[0] != "ping"@[0]);
    assert("seek"@[0] != "ping"@[0]);
    assert("play_pause"@[0] != "set_volume"@[0]);
}

fn arg<'a>(req: &'a JsonValue, name: &str) -> (r: Option<&'a JsonValue>)
    ensures
        match r {
            Some(v) => argument(*req, name@) == Some(*v),
            None => argument(*req, name@) is None,
        },
{
    match req.get("args") {
        Some(a) => a.get(name),
        None => None,
    }
}

/// Routes a parsed request.
pub fn route_request(req: &JsonValue) -> (r: RoutedRequest)
    ensures
        r.id == request_id(*req),
        r.route@ == route_for(*req),
{
    let id: u64 = match req.get("id") {
        Some(v) => match v.as_u64() {
            Some(n) => n,
            None => 0,
        },
        None => 0,
    };
    let empty = String::new();
    let command: &String = match req.get("command") {
        Some(v) => match v.as_str() {
            Some(s) => s,
            None => &empty,
        },
        None => &empty,
    };
    let c = command.as_str();
    let route = if str_eq(c, "get_state") {
        Route::GetState
    } else if str_eq(c, "play_pause") {
        Route::Forward(SocketCommand::PlayPause)
    } else if str_eq(c, "next") {
        Route::Forward(SocketCommand::Next)
    } else if str_eq(c, "previous") {
        Route::Forward(SocketCommand::Previous)
    } else if str_eq(c, "seek") {
        let position: u64 = match arg(req, "position") {
            Some(v) => match v.as_u64() {
                Some(n) => n,
                None => 0,
            },
            None => 0,
        };
        Route::Forward(SocketCommand::Seek(position))
    } else if str_eq(c, "set_volume") {
        let volume = match arg(req, "volume") {
            Some(v) => v.as_number(),
            None => None,
        };
        Route::Forward(SocketCommand::SetVolume(volume))
    } else if str_eq(c, "shuffle") {
        let enabled = match arg(req, "enabled") {
            Some(v) => match v.as_bool() {
                Some(b) => b,
                None => false,
            },
            None => false,
        };
        Route::Forward(SocketCommand::Shuffle(enabled))
    } else if str_eq(c, "repeat") {
        let mode = match arg(req, "mode") {
            Some(v) => match v.as_str() {
                Some(m) => m.clone(),
                None => "None".to_string(),
            },
            None => "None".to_string(),
        };
        Route::Forward(SocketCommand::Repeat(mode))
    } else if str_eq(c, "authenticate") {
        Route::Authenticate
    } else if str_eq(c, "ping") {
        Route::Ping
    } else {
        Route::Unknown(command.clone())
    };
    RoutedRequest { id, route }
}

/// Error codes of failed replies.
#[derive(Clone, Copy, Debug, PartialEq, Eq, Structural)]
pub enum ErrorCode {
    ParseError,
    InternalError,
    ConfigError,
    UnknownCommand,
}

/// The wire text of an error code.
pub open spec fn code_text(code: ErrorCode) -> Seq<char> {
    match code {
        ErrorCode::ParseError => "parse_error"@,
        ErrorCode::InternalError => "internal_error"@,
        ErrorCode::ConfigError => "config_error"@,
        ErrorCode::UnknownCommand => "unknown_command"@,
    }
}

impl ErrorCode {
    /// The wire text of the code.
    pub fn as_text(&self) -> (r: String)
        ensures
            r@ == code_text(*self),
    {
        match self {
            ErrorCode::ParseError => "parse_error".to_string(),
            ErrorCode::InternalError => "internal_error".to_string(),
            ErrorCode::ConfigError => "config_error".to_string(),
            ErrorCode::UnknownCommand => "unknown_command".to_string(),
        }
    }
}

/// What a reply reports.
#[derive(Debug)]
pub enum Outcome {
    /// `ok: true` without data.
    Done,
    /// `ok: true` with the player state (or `null`) as data.
    State(Option<PlayerState>),
    /// `ok: true` with `{ "auth_url": ... }` as data.
    AuthUrl(String),
    /// `ok: false` with an error code and message.
    Failed(ErrorCode, String),
}

/// One reply line.
#[derive(Debug)]
pub struct Reply {
    pub id: u64,
    pub outcome: Outcome,
}

/// The result of asking the player for its state.
#[derive(Debug)]
pub enum StateFetch {
    /// The player answered.
    Received(Option<PlayerState>),
    /// The command went out but no answer came back.
    ReplyLost,
    /// The command could not be sent.
    CommandChannelClosed,
}

/// A line that holds nothing but white space is skipped.
pub fn is_blank_line(line: &str) -> (r: bool)
    ensures
        r == (trim(line@).len() == 0),
{
    let chars = chars_of(line);
    trim_chars(&chars).len() == 0
}

/// The reply to a line that is not JSON: id 0, `parse_error`, the parser's message.
pub fn parse_error_reply(message: String) -> (r: Reply)
    ensures
        r.id == 0,
        r.outcome matches Outcome::Failed(code, m) && code == ErrorCode::ParseError && m@
            == message@,
{
    Reply { id: 0, outcome: Outcome::Failed(ErrorCode::ParseError, message) }
}

fn concat(a: &str, b: &str) -> (r: String)
    ensures
        r@ == a@ + b@,
{
    let mut s = a.to_string();
    s.append(b);
    s
}

/// The reply a route gets without outside work: forwarded commands and pings
/// are acknowledged, unknown commands refused; state and authentication
/// requests wait for their outcome.
pub fn immediate_reply(req: &RoutedRequest) -> (r: Option<Reply>)
    ensures
        match req.route@ {
            RouteView::Forward(_) | RouteView::Ping => r matches Some(rep) && rep.id == req.id
                && rep.outcome is Done,
            RouteView::Unknown(c) => r matches Some(rep) && rep.id == req.id && (
            rep.outcome matches Outcome::Failed(code, m) && code == ErrorCode::UnknownCommand && m@
                == "Unknown command: "@ + c),
            RouteView::GetState | RouteView::Authenticate => r is None,
        },
{
    match &req.route {
        Route::Forward(_) => Some(Reply { id: req.id, outcome: Outcome::Done }),
        Route::Ping => Some(Reply { id: req.id, outcome: Outcome::Done }),
        Route::Unknown(c) => Some(
            Reply {
                id: req.id,
                outcome: Outcome::Failed(
                    ErrorCode::UnknownCommand,
                    concat("Unknown command: ", c.as_str()),
                ),
            },
        ),
        Route::GetState => None,
        Route::Authenticate => None,
    }
}

/// The reply to a state request.
pub fn state_reply(id: u64, fetched: StateFetch) -> (r: Reply)
    ensures
        r.id == id,
        match fetched {
            StateFetch::Received(s) => r.outcome == Outcome::State(s),
            StateFetch::ReplyLost => r.outcome matches Outcome::Failed(code, m) && code
                == ErrorCode::InternalError && m@ == "State channel closed"@,
            StateFetch::CommandChannelClosed => r.outcome matches Outcome::Failed(code, m) && code
                == ErrorCode::InternalError && m@ == "Command channel closed"@,
        },
{
    match fetched {
        StateFetch::Received(s) => Reply { id, outcome: Outcome::State(s) },
        StateFetch::ReplyLost => Reply {
            id,
            outcome: Outcome::Failed(ErrorCode::InternalError, "State channel closed".to_string()),
        },
        StateFetch::CommandChannelClosed => Reply {
            id,
            outcome: Outcome::Failed(ErrorCode::InternalError, "Command channel closed".to_string()),
        },
    }
}

/// The reply to an authentication request: the authorization address, or the
/// configuration error's message.
pub fn auth_reply(id: u64, result: Result<String, String>) -> (r: Reply)
    ensures
        r.id == id,
        match result {
            Ok(url) => r.outcome matches Outcome::AuthUrl(u) && u@ == url@,
            Err(msg) => r.outcome matches Outcome::Failed(code, m) && code == ErrorCode::ConfigError
                && m@ == msg@,
        },
{
    match result {
        Ok(url) => Reply { id, outcome: Outcome::AuthUrl(url) },
        Err(msg) => Reply { id, outcome: Outcome::Failed(ErrorCode::ConfigError, msg) },
    }
}

} // verus!
