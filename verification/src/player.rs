//! The player command loop: what each plugin command does, given the last
//! polled player state, and how a poll updates that state.
use vstd::prelude::*;

use crate::api::{
    bare_call, call_with, next_call, play_pause_call, previous_call, repeat_call, seek_call,
    shuffle_call, volume_call, ApiCall, ApiCallView, HttpMethod,
};
use crate::playback::repeat_state_for;
use crate::text::{decimal, str_eq};
use crate::types::PlayerState;

verus! {

/// Seconds between two polls of the playback state.
pub const POLL_INTERVAL_SECONDS: u64 = 2u64;

/// A command for the player. Seek positions are in microseconds; the volume is
/// the percentage sent to Spotify (the plugin's 0.0–1.0 level times 100, rounded).
#[derive(Debug)]
pub enum PlayerCommand {
    GetState,
    PlayPause,
    Next,
    Previous,
    Seek(u64),
    SetVolume(u32),
    Shuffle(bool),
    Repeat(String),
    Authenticate(String),
}

/// What the loop does for a command.
#[derive(Debug)]
pub enum PlayerAction {
    /// Answer with the last polled state.
    ReplyState,
    /// Make this Web API call (a failure is logged, the loop goes on).
    Call(ApiCall),
    /// Note that authentication was asked for; the OAuth server handles it.
    NoteAuthentication,
}

/// The plain contents of a [`PlayerAction`].
pub enum PlayerActionView {
    ReplyState,
    Call(ApiCallView),
    NoteAuthentication,
}

impl View for PlayerAction {
    type V = PlayerActionView;

    open spec fn view(&self) -> PlayerActionView {
        match self {
            PlayerAction::ReplyState => PlayerActionView::ReplyState,
            PlayerAction::Call(c) => PlayerActionView::Call(c@),
            PlayerAction::NoteAuthentication => PlayerActionView::NoteAuthentication,
        }
    }
}

/// Play/pause resumes unless the last polled state says "Playing"; with no
/// state known it resumes.
pub open spec fn resumes(state: Option<PlayerState>) -> bool {
    match state {
        Some(s) => s.status@ != "Playing"@,
        None => true,
    }
}

/// The action for a command given the last polled state.
pub open spec fn action_for(cmd: PlayerCommand, state: Option<PlayerState>) -> PlayerActionView {
    match cmd {
        PlayerCommand::GetState => PlayerActionView::ReplyState,
        PlayerCommand::PlayPause => PlayerActionView::Call(
            bare_call(
                HttpMethod::Put,
                if resumes(state) { "/me/player/play"@ } else { "/me/player/pause"@ },
            ),
        ),
        PlayerCommand::Next => PlayerActionView::Call(bare_call(HttpMethod::Post, "/me/player/next"@)),
        PlayerCommand::Previous => PlayerActionView::Call(
            bare_call(HttpMethod::Post, "/me/player/previous"@),
        ),
        PlayerCommand::Seek(us) => PlayerActionView::Call(
            call_with(HttpMethod::Put, "/me/player/seek"@, "position_ms"@, decimal((us / 1000) as nat)),
        ),
        PlayerCommand::SetVolume(p) => PlayerActionView::Call(
            call_with(HttpMethod::Put, "/me/player/volume"@, "volume_percent"@, decimal(p as nat)),
        ),
        PlayerCommand::Shuffle(b) => PlayerActionView::Call(
            call_with(
                HttpMethod::Put,
                "/me/player/shuffle"@,
                "state"@,
                if b { "true"@ } else { "false"@ },
            ),
        ),
        PlayerCommand::Repeat(mode) => PlayerActionView::Call(
            call_with(HttpMethod::Put, "/me/player/repeat"@, "state"@, repeat_state_for(mode@)),
        ),
        PlayerCommand::Authenticate(_) => PlayerActionView::NoteAuthentication,
    }
}

/// Whether play/pause resumes playback, given the last polled state.
pub fn should_resume(state: &Option<PlayerState>) -> (r: bool)
    ensures
        r == resumes(*state),
{
    match state {
        Some(s) => !str_eq(s.status.as_str(), "Playing"),
        None => true,
    }
}

/// The action for a command given the last polled state.
pub fn command_action(cmd: &PlayerCommand, state: &Option<PlayerState>) -> (r: PlayerAction)
    ensures
        r@ == action_for(*cmd, *state),
{
    match cmd {
        PlayerCommand::GetState => PlayerAction::ReplyState,
        PlayerCommand::PlayPause => PlayerAction::Call(play_pause_call(should_resume(state))),
        PlayerCommand::Next => PlayerAction::Call(next_call()),
        PlayerCommand::Previous => PlayerAction::Call(previous_call()),
        PlayerCommand::Seek(us) => PlayerAction::Call(seek_call(*us / 1000)),
        PlayerCommand::SetVolume(p) => PlayerAction::Call(volume_call(*p)),
        PlayerCommand::Shuffle(b) => PlayerAction::Call(shuffle_call(*b)),
        PlayerCommand::Repeat(mode) => PlayerAction::Call(repeat_call(mode.as_str())),
        PlayerCommand::Authenticate(_) => PlayerAction::NoteAuthentication,
    }
}

/// The state after one poll: a state found replaces the held one; a failed poll
/// or one without playback (`None`) keeps it.
pub open spec fn after_poll(state: Option<PlayerState>, polled: Option<PlayerState>) -> Option<
    PlayerState,
> {
    match polled {
        Some(s) => Some(s),
        None => state,
    }
}

/// The state after a sequence of polls, in order.
pub open spec fn after_polls(state: Option<PlayerState>, polls: Seq<Option<PlayerState>>) -> Option<
    PlayerState,
>
    decreases polls.len(),
{
    if polls.len() == 0 {
        state
    } else {
        after_poll(after_polls(state, polls.drop_last()), polls.last())
    }
}

/// The state after a poll: a successful poll that found a state replaces the
/// last one; a failed poll or one without playback keeps it.
pub fn apply_poll(state: &mut Option<PlayerState>, polled: Option<PlayerState>)
    ensures
        *final(state) == after_poll(*old(state), polled),
{
    if let Some(s) = polled {
        *state = Some(s);
    }
}

/// What the player answers to a state request after any sequence of polls: the
/// state of the latest poll that found one, and the state held before (`None` at
/// start) while no poll has found one.
pub proof fn law_latest_polled_state(state: Option<PlayerState>, polls: Seq<Option<PlayerState>>)
    ensures
        (forall|i: int| 0 <= i < polls.len() ==> polls[i] is None) ==> after_polls(state, polls)
            == state,
        forall|j: int|
            0 <= j < polls.len() && polls[j] is Some && (forall|i: int|
                j < i < polls.len() ==> polls[i] is None) ==> after_polls(state, polls) == polls[j],
    decreases polls.len(),
{
    if polls.len() > 0 {
        let init = polls.drop_last();
        law_latest_polled_state(state, init);
        assert forall|j: int|
            0 <= j < polls.len() && polls[j] is Some && (forall|i: int|
                j < i < polls.len() ==> polls[i] is None) implies after_polls(state, polls)
            == polls[j] by {
            if j < polls.len() - 1 {
                assert(polls[polls.len() - 1] is None);
                assert forall|i: int| j < i < init.len() implies init[i] is None by {
                    assert(init[i] == polls[i]);
                }
                assert(init[j] == polls[j]);
            }
        }
        if forall|i: int| 0 <= i < polls.len() ==> polls[i] is None {
            assert forall|i: int| 0 <= i < init.len() implies init[i] is None by {
                assert(init[i] == polls[i]);
            }
            assert(polls[polls.len() - 1] is None);
        }
    }
}

/// Play/pause toggles: with playback running it pauses, otherwise it resumes.
pub proof fn law_play_pause_toggles(state: PlayerState)
    ensures
        state.status@ == "Playing"@ ==> action_for(PlayerCommand::PlayPause, Some(state))
            == PlayerActionView::Call(bare_call(HttpMethod::Put, "/me/player/pause"@)),
        state.status@ != "Playing"@ ==> action_for(PlayerCommand::PlayPause, Some(state))
            == PlayerActionView::Call(bare_call(HttpMethod::Put, "/me/player/play"@)),
        action_for(PlayerCommand::PlayPause, None) == PlayerActionView::Call(
            bare_call(HttpMethod::Put, "/me/player/play"@),
        ),
{
}

/// The Web API call each player command makes. Shuffle puts `state=true` exactly
/// when shuffle is turned on and `state=false` exactly when it is turned off; seek
/// puts the position in whole milliseconds; volume puts the percentage; repeat
/// puts `track` for "Track", `context` for "Playlist" and `off` for any other
/// mode; next and previous are bare POSTs. A state request is answered from the
/// polled state and an authentication request is only noted: neither makes a call.
pub proof fn law_command_calls(
    state: Option<PlayerState>,
    on: bool,
    position_us: u64,
    percent: u32,
    mode: String,
    auth: String,
)
    ensures
        action_for(PlayerCommand::Shuffle(on), state) matches PlayerActionView::Call(c) && c.method
            == HttpMethod::Put && c.endpoint == "/me/player/shuffle"@ && c.query.len() == 1
            && c.query[0].0 == "state"@ && (c.query[0].1 == "true"@ <==> on) && (c.query[0].1
            == "false"@ <==> !on),
        action_for(PlayerCommand::Seek(position_us), state) matches PlayerActionView::Call(c)
            && c.method == HttpMethod::Put && c.endpoint == "/me/player/seek"@ && c.query.len() == 1
            && c.query[0].0 == "position_ms"@ && c.query[0].1 == decimal((position_us / 1000) as nat),
        action_for(PlayerCommand::SetVolume(percent), state) matches PlayerActionView::Call(c)
            && c.method == HttpMethod::Put && c.endpoint == "/me/player/volume"@ && c.query.len() == 1
            && c.query[0].0 == "volume_percent"@ && c.query[0].1 == decimal(percent as nat),
        action_for(PlayerCommand::Repeat(mode), state) matches PlayerActionView::Call(c) && c.method
            == HttpMethod::Put && c.endpoint == "/me/player/repeat"@ && c.query.len() == 1
            && c.query[0].0 == "state"@ && (mode@ == "Track"@ ==> c.query[0].1 == "track"@) && (
        mode@ == "Playlist"@ ==> c.query[0].1 == "context"@) && (mode@ != "Track"@ && mode@
            != "Playlist"@ ==> c.query[0].1 == "off"@),
        action_for(PlayerCommand::Next, state) == PlayerActionView::Call(
            bare_call(HttpMethod::Post, "/me/player/next"@),
        ),
        action_for(PlayerCommand::Previous, state) == PlayerActionView::Call(
            bare_call(HttpMethod::Post, "/me/player/previous"@),
        ),
        action_for(PlayerCommand::GetState, state) == PlayerActionView::ReplyState,
        action_for(PlayerCommand::Authenticate(auth), state) == PlayerActionView::NoteAuthentication,
{
    reveal_strlit("true");
    reveal_strlit("false");
    reveal_strlit("Track");
    reveal_strlit("Playlist");
    assert("true"@.len() == 4 && "false"@.len() == 5);
    assert("Track"@.len() == 5 && "Playlist"@.len() == 8);
}

} // verus!
