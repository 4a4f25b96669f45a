//! The `/me/player` reply of the Web API and the player state derived from it;
//! the mapping between Spotify repeat states and plugin loop states.
use vstd::prelude::*;

use crate::json::{
    field_of, first_in, first_of, get_in, signed_in, signed_or, text_in, text_or_empty, JsonValue,
};
use crate::text::str_eq;
use crate::types::PlayerState;

verus! {

/// Largest millisecond count whose microsecond value fits in a `u64`.
pub const MAX_SCALABLE_MS: i64 = 18_446_744_073_709_551i64;

/// The fields of the `/me/player` reply that the backend reads; the device,
/// context and item are kept as JSON documents.
#[derive(Debug)]
pub struct PlaybackResponse {
    pub device: Option<JsonValue>,
    pub repeat_state: String,
    pub shuffle_state: bool,
    pub context: Option<JsonValue>,
    pub timestamp: i64,
    pub progress_ms: Option<i64>,
    pub is_playing: bool,
    pub item: Option<JsonValue>,
}

/// The plugin's loop status for a Spotify repeat state.
pub open spec fn loop_status_for(repeat_state: Seq<char>) -> Seq<char> {
    if repeat_state == "track"@ {
        "Track"@
    } else if repeat_state == "context"@ {
        "Playlist"@
    } else {
        "None"@
    }
}

/// The Spotify repeat state for a plugin loop status.
pub open spec fn repeat_state_for(mode: Seq<char>) -> Seq<char> {
    if mode == "Track"@ {
        "track"@
    } else if mode == "Playlist"@ {
        "context"@
    } else {
        "off"@
    }
}

/// Milliseconds to microseconds as `(ms as u64) * 1000` computes them, for the
/// counts on which that product fits.
pub open spec fn ms_scalable(ms: i64) -> bool {
    0 <= ms <= MAX_SCALABLE_MS
}

impl PlaybackResponse {
    /// The progress in milliseconds (0 when absent).
    pub open spec fn progress(self) -> i64 {
        match self.progress_ms {
            Some(p) => p,
            None => 0,
        }
    }

    /// The track duration in milliseconds (0 when absent).
    pub open spec fn duration_ms(self) -> i64 {
        signed_or(field_of(self.item, "duration_ms"@), 0)
    }

    /// Both times convert to microseconds without overflow; on other replies
    /// the conversion overflows (and panics in a checked build).
    pub open spec fn times_in_range(self) -> bool {
        ms_scalable(self.progress()) && ms_scalable(self.duration_ms())
    }

    /// Whether both times convert to microseconds without overflow.
    pub fn times_fit(&self) -> (r: bool)
        ensures
            r == self.times_in_range(),
    {
        let progress = match self.progress_ms {
            Some(p) => p,
            None => 0,
        };
        let duration = signed_in(get_in(self.item.as_ref(), "duration_ms"), 0);
        0 <= progress && progress <= MAX_SCALABLE_MS && 0 <= duration && duration
            <= MAX_SCALABLE_MS
    }
}

/// The plugin's loop status for a Spotify repeat state.
pub fn loop_status(repeat_state: &str) -> (r: String)
    ensures
        r@ == loop_status_for(repeat_state@),
{
    if str_eq(repeat_state, "track") {
        "Track".to_string()
    } else if str_eq(repeat_state, "context") {
        "Playlist".to_string()
    } else {
        "None".to_string()
    }
}

/// The Spotify repeat state for a plugin loop status.
pub fn repeat_state(mode: &str) -> (r: String)
    ensures
        r@ == repeat_state_for(mode@),
{
    if str_eq(mode, "Track") {
        "track".to_string()
    } else if str_eq(mode, "Playlist") {
        "context".to_string()
    } else {
        "off".to_string()
    }
}

/// The player state for a `/me/player` reply: status from `is_playing`, track
/// title, first artist, album, first album image, track id and duration from the
/// item (empty or 0 where absent), progress, volume (50 where absent), shuffle and
/// loop status.
pub fn player_state_from_playback(resp: &PlaybackResponse) -> (r: PlayerState)
    requires
        resp.times_in_range(),
    ensures
        r.status@ == (if resp.is_playing { "Playing"@ } else { "Paused"@ }),
        r.title@ == text_or_empty(field_of(resp.item, "name"@)),
        r.artist@ == text_or_empty(field_of(first_of(field_of(resp.item, "artists"@)), "name"@)),
        r.album@ == text_or_empty(field_of(field_of(resp.item, "album"@), "name"@)),
        r.art_url@ == text_or_empty(
            field_of(first_of(field_of(field_of(resp.item, "album"@), "images"@)), "url"@),
        ),
        r.track_id@ == text_or_empty(field_of(resp.item, "id"@)),
        r.position == resp.progress() * 1000,
        r.duration == resp.duration_ms() * 1000,
        r.volume_percent == signed_or(field_of(resp.device, "volume_percent"@), 50),
        r.shuffle == resp.shuffle_state,
        r.loop_status@ == loop_status_for(resp.repeat_state@),
{
    let item = resp.item.as_ref();
    let status = if resp.is_playing {
        "Playing".to_string()
    } else {
        "Paused".to_string()
    };
    let title = text_in(get_in(item, "name"));
    let artist = text_in(get_in(first_in(get_in(item, "artists")), "name"));
    let album_node = get_in(item, "album");
    let album = text_in(get_in(album_node, "name"));
    let art_url = text_in(get_in(first_in(get_in(album_node, "images")), "url"));
    let track_id = text_in(get_in(item, "id"));
    let progress: i64 = match resp.progress_ms {
        Some(p) => p,
        None => 0,
    };
    let duration: i64 = signed_in(get_in(item, "duration_ms"), 0);
    let volume_percent = signed_in(get_in(resp.device.as_ref(), "volume_percent"), 50);
    PlayerState {
        status,
        title,
        artist,
        album,
        art_url,
        track_id,
        position: (progress as u64) * 1000,
        duration: (duration as u64) * 1000,
        volume_percent,
        shuffle: resp.shuffle_state,
        loop_status: loop_status(resp.repeat_state.as_str()),
    }
}

/// A loop status set through the plugin reads back unchanged from the repeat
/// state it is sent as: "Track" and "Playlist" come back as themselves, and
/// every other mode as "None".
pub proof fn law_loop_status_round_trip(mode: Seq<char>)
    ensures
        mode == "Track"@ ==> loop_status_for(repeat_state_for(mode)) == mode,
        mode == "Playlist"@ ==> loop_status_for(repeat_state_for(mode)) == mode,
        mode != "Track"@ && mode != "Playlist"@ ==> loop_status_for(repeat_state_for(mode))
            == "None"@,
{
    reveal_strlit("Track");
    reveal_strlit("Playlist");
    reveal_strlit("track");
    reveal_strlit("context");
    reveal_strlit("off");
    reveal_strlit("None");
    assert("Track"@ != "Playlist"@) by {
        assert("Track"@.len() != "Playlist"@.len());
    }
    assert("track"@ != "context"@) by {
        assert("track"@.len() != "context"@.len());
    }
    assert("off"@ != "track"@ && "off"@ != "context"@) by {
        assert("off"@.len() != "track"@.len());
        assert("off"@.len() != "context"@.len());
    }
    assert("None"@ != "Track"@ && "None"@ != "Playlist"@) by {
        assert("None"@.len() != "Track"@.len());
        assert("None"@.len() != "Playlist"@.len());
    }
}

/// A repeat state reported by Spotify survives the trip through the plugin's loop
/// status: "track" and "context" come back as themselves, anything else as "off".
pub proof fn law_repeat_state_round_trip(state: Seq<char>)
    ensures
        state == "track"@ || state == "context"@ ==> repeat_state_for(loop_status_for(state))
            == state,
        state != "track"@ && state != "context"@ ==> repeat_state_for(loop_status_for(state))
            == "off"@,
{
    reveal_strlit("Track");
    reveal_strlit("Playlist");
    reveal_strlit("track");
    reveal_strlit("context");
    reveal_strlit("off");
    reveal_strlit("None");
    assert("Track"@ != "Playlist"@) by {
        assert("Track"@.len() != "Playlist"@.len());
    }
    assert("track"@ != "context"@) by {
        assert("track"@.len() != "context"@.len());
    }
    assert("off"@ != "track"@ && "off"@ != "context"@) by {
        assert("off"@.len() != "track"@.len());
        assert("off"@.len() != "context"@.len());
    }
    assert("None"@ != "Track"@ && "None"@ != "Playlist"@) by {
        assert("None"@.len() != "Track"@.len());
        assert("None"@.len() != "Playlist"@.len());
    }
}

} // verus!
