//! The Spotify Connect device: its id, and the playback events of the librespot
//! player turned into state updates.
use vstd::prelude::*;

use crate::encoding::{hex_digit, hex_encode, hex_lower, lemma_hex_lower_len, sha1, sha1_digest};

verus! {

/// Name under which the device appears in Spotify apps.
pub const DEVICE_NAME: &'static str = "Noctalia";

/// Volume the device starts at (the top of librespot's 16-bit scale).
pub const INITIAL_VOLUME: u16 = 65535u16;

/// A track id as 32 lower-case hex digits, most significant first.
pub open spec fn spotify_hex(id: u128) -> Seq<char> {
    Seq::new(
        32,
        |k: int| hex_digit(((id as nat) / (vstd::arithmetic::power::pow(16, (31 - k) as nat) as nat)) % 16),
    )
}

/// librespot's `SpotifyId::to_base16`: the id's 16 big-endian bytes in
/// lower-case hex (it never fails: the digits are ASCII).
#[verifier::external_body]
pub(crate) fn spotify_id_base16(id: u128) -> (r: Option<String>)
    ensures
        r is Some,
        r matches Some(s) ==> s@ == spotify_hex(id),
{
    librespot::core::spotify_id::SpotifyId {
        id,
        audio_type: librespot::core::spotify_id::SpotifyAudioType::Track,
    }.to_base16().ok()
}

/// The device id for a device name: the SHA-1 of the name's UTF-8 bytes, in
/// lower-case hex (40 digits).
pub fn device_id(device_name: &str) -> (r: String)
    ensures
        r@ == hex_lower(sha1_digest(vstd::utf8::encode_utf8(device_name@))),
        r@.len() == 40,
{
    let digest = sha1(device_name.as_bytes());
    let r = hex_encode(digest.as_slice());
    proof {
        lemma_hex_lower_len(digest@);
    }
    r
}

/// A playback event of the librespot player, with the track's numeric id.
#[derive(Clone, Copy, Debug, PartialEq, Eq, Structural)]
pub enum EngineEvent {
    Playing { track_id: u128, position_ms: u32 },
    Paused { track_id: u128, position_ms: u32 },
    Stopped { track_id: u128 },
    Loading { track_id: u128, position_ms: u32 },
    /// Any other event (started, preloading, end of track, volume, ...).
    Other,
}

/// The track id in hex, or empty if librespot cannot render it.
fn track_hex(id: u128) -> (r: String)
    ensures
        r@ == spotify_hex(id),
{
    match spotify_id_base16(id) {
        Some(s) => s,
        None => String::new(),
    }
}

/// The state update an event brings: status, position in milliseconds and
/// track id in hex; `None` for events that do not change the playback state.
pub fn player_event_to_state(event: &EngineEvent) -> (r: Option<(String, u32, String)>)
    ensures
        match *event {
            EngineEvent::Playing { track_id, position_ms } => r matches Some(t) && t.0@ == "Playing"@
                && t.1 == position_ms && t.2@ == spotify_hex(track_id),
            EngineEvent::Paused { track_id, position_ms } => r matches Some(t) && t.0@ == "Paused"@
                && t.1 == position_ms && t.2@ == spotify_hex(track_id),
            EngineEvent::Stopped { track_id } => r matches Some(t) && t.0@ == "Stopped"@ && t.1 == 0
                && t.2@ == spotify_hex(track_id),
            EngineEvent::Loading { track_id, position_ms } => r matches Some(t) && t.0@ == "Loading"@
                && t.1 == position_ms && t.2@ == spotify_hex(track_id),
            EngineEvent::Other => r is None,
        },
{
    match event {
        EngineEvent::Playing { track_id, position_ms } => Some(
            ("Playing".to_string(), *position_ms, track_hex(*track_id)),
        ),
        EngineEvent::Paused { track_id, position_ms } => Some(
            ("Paused".to_string(), *position_ms, track_hex(*track_id)),
        ),
        EngineEvent::Stopped { track_id } => Some(("Stopped".to_string(), 0, track_hex(*track_id))),
        EngineEvent::Loading { track_id, position_ms } => Some(
            ("Loading".to_string(), *position_ms, track_hex(*track_id)),
        ),
        EngineEvent::Other => None,
    }
}

} // verus!
