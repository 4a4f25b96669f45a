//! Spotify Web API data: the OAuth token with its expiry rule, the player
//! state handed to the plugin, and the plain records of the Web API.
use std::collections::HashMap;
use vstd::prelude::*;

use crate::time::{add_in_range, add_seconds, can_add_seconds, checked_add_seconds, now_utc, UtcTime};

verus! {

/// Seconds before the nominal expiry at which a token already counts as expired.
pub const EXPIRY_MARGIN_SECONDS: i64 = 60i64;

/// OAuth token response from Spotify, with the instant it was obtained.
#[derive(Clone, Debug)]
pub struct TokenResponse {
    pub access_token: String,
    pub token_type: String,
    pub expires_in: i64,
    pub refresh_token: Option<String>,
    pub scope: String,
    pub obtained_at: Option<UtcTime>,
}

impl TokenResponse {
    /// The expiry instant can be computed: the obtained instant is one chrono holds,
    /// `expires_in - 60` does not overflow, and adding it stays within chrono's range.
    /// (On other tokens the expiry check panics.)
    pub open spec fn expiry_defined(self) -> bool {
        match self.obtained_at {
            None => true,
            Some(o) => {
                &&& o.wf()
                &&& self.expires_in >= i64::MIN + EXPIRY_MARGIN_SECONDS
                &&& add_in_range(o, self.expires_in - EXPIRY_MARGIN_SECONDS)
            },
        }
    }

    /// The instant from which the token counts as expired: 60 seconds before
    /// `obtained_at + expires_in`.
    pub open spec fn expiry(self) -> (int, int)
        recommends
            self.obtained_at is Some,
    {
        add_seconds(self.obtained_at->0, self.expires_in - EXPIRY_MARGIN_SECONDS)
    }

    /// The token is expired at `now`: it has no obtained instant, or `now` is at or
    /// past its expiry.
    pub open spec fn expired_at(self, now: UtcTime) -> bool {
        match self.obtained_at {
            None => true,
            Some(o) => {
                let e = self.expiry();
                e.0 < now.secs || (e.0 == now.secs && e.1 <= now.nanos)
            },
        }
    }

    /// Whether the expiry of this token can be computed without overflow.
    pub fn can_check_expiry(&self) -> (r: bool)
        ensures
            r == self.expiry_defined(),
    {
        match self.obtained_at {
            None => true,
            Some(o) => {
                if !o.is_wf() {
                    return false;
                }
                if self.expires_in < i64::MIN + EXPIRY_MARGIN_SECONDS {
                    return false;
                }
                can_add_seconds(o, self.expires_in - EXPIRY_MARGIN_SECONDS)
            },
        }
    }

    /// Whether the token is expired at the instant `now`.
    pub fn is_expired_at(&self, now: UtcTime) -> (r: bool)
        requires
            self.expiry_defined(),
        ensures
            r == self.expired_at(now),
    {
        match self.obtained_at {
            None => true,
            Some(o) => {
                match checked_add_seconds(o, self.expires_in - EXPIRY_MARGIN_SECONDS) {
                    Some(e) => e.le(&now),
                    None => true,
                }
            },
        }
    }

    /// Whether the token is expired now. A token without an obtained instant
    /// always is; otherwise the answer is `expired_at` of the instant read from
    /// the clock, which the contract does not fix.
    pub fn is_expired(&self) -> (r: bool)
        requires
            self.expiry_defined(),
        ensures
            self.obtained_at is None ==> r,
            exists|now: UtcTime| now.wf() && now.secs >= 0 && r == self.expired_at(now),
    {
        let now = now_utc();
        self.is_expired_at(now)
    }
}

/// Once a token is expired it stays expired: expiry holds at every later instant.
pub proof fn law_expiry_is_monotone(token: TokenResponse, earlier: UtcTime, later: UtcTime)
    requires
        earlier.no_later_than(later),
    ensures
        token.expired_at(earlier) ==> token.expired_at(later),
{
}

/// A token that lives longer than the 60-second margin is not expired at the
/// instant it was obtained (outside a leap second).
pub proof fn law_fresh_token_not_expired(token: TokenResponse)
    requires
        token.obtained_at matches Some(o) && o.nanos < 1_000_000_000,
        token.expires_in > EXPIRY_MARGIN_SECONDS,
    ensures
        !token.expired_at(token.obtained_at->0),
{
}

/// A token obtained at `o` (outside a leap second) with a lifetime of `expires_in`
/// seconds counts as expired from 60 seconds before `o + expires_in` on, and
/// only from then.
pub proof fn law_expired_sixty_seconds_early(token: TokenResponse, now: UtcTime)
    requires
        token.obtained_at matches Some(o) && o.nanos < 1_000_000_000,
    ensures
        token.expired_at(now) <==> (now.secs > token.obtained_at->0.secs + token.expires_in - 60 || (
        now.secs == token.obtained_at->0.secs + token.expires_in - 60 && now.nanos
            >= token.obtained_at->0.nanos)),
{
}

/// A token without an obtained instant is expired at every instant.
pub proof fn law_unstamped_token_expired(token: TokenResponse, now: UtcTime)
    requires
        token.obtained_at is None,
    ensures
        token.expired_at(now),
{
}

/// A cached Web API response row; the id is the 128-bit value of its UUID.
#[derive(Clone, Debug)]
pub struct CachedResponse {
    pub id: u128,
    pub endpoint: String,
    pub params_hash: String,
    pub response_json: String,
    pub expires_at: UtcTime,
    pub created_at: UtcTime,
}

/// Player state as the plugin sees it. The volume is kept as the integer
/// percentage Spotify reports; the plugin's 0.0–1.0 value is that over 100.
#[derive(Clone, Debug)]
pub struct PlayerState {
    pub status: String,
    pub title: String,
    pub artist: String,
    pub album: String,
    pub art_url: String,
    pub track_id: String,
    pub position: u64,
    pub duration: u64,
    pub volume_percent: i64,
    pub shuffle: bool,
    pub loop_status: String,
}

/// Currently playing track state.
#[derive(Clone, Debug)]
pub struct PlaybackState {
    pub device: Option<Device>,
    pub repeat_state: String,
    pub shuffle_state: bool,
    pub context: Option<Context>,
    pub timestamp: i64,
    pub progress_ms: Option<i64>,
    pub is_playing: bool,
    pub item: Option<Track>,
    pub actions: PlaybackActions,
}

/// Device info.
#[derive(Clone, Debug)]
pub struct Device {
    pub id: String,
    pub is_active: bool,
    pub is_private_session: bool,
    pub is_restricted: bool,
    pub name: String,
    pub type_: String,
    pub volume_percent: Option<i32>,
    pub supports_volume: bool,
}

/// Playback context (album, playlist, ...).
#[derive(Clone, Debug)]
pub struct Context {
    pub uri: String,
    pub href: String,
    pub external_urls: HashMap<String, String>,
    pub type_: String,
}

/// Playback actions available.
#[derive(Clone, Debug)]
pub struct PlaybackActions {
    pub interrupting_playback: bool,
    pub pausing: bool,
    pub resuming: bool,
    pub seeking: bool,
    pub skipping_next: bool,
    pub skipping_prev: bool,
    pub toggling_repeat_context: bool,
    pub toggling_shuffle: bool,
    pub toggling_repeat_track: bool,
    pub transferring_playback: bool,
}

/// Track object.
#[derive(Clone, Debug)]
pub struct Track {
    pub id: String,
    pub name: String,
    pub artists: Vec<Artist>,
    pub album: Album,
    pub duration_ms: i32,
    pub explicit: bool,
    pub external_ids: HashMap<String, String>,
    pub external_urls: HashMap<String, String>,
    pub href: String,
    pub uri: String,
    pub preview_url: Option<String>,
    pub track_number: i32,
    pub disc_number: i32,
    pub is_playable: Option<bool>,
    pub popularity: i32,
}

/// Artist object.
#[derive(Clone, Debug)]
pub struct Artist {
    pub id: String,
    pub name: String,
    pub external_urls: HashMap<String, String>,
    pub href: String,
    pub uri: String,
}

/// Album object.
#[derive(Clone, Debug)]
pub struct Album {
    pub id: String,
    pub name: String,
    pub artists: Vec<Artist>,
    pub images: Vec<Image>,
    pub external_urls: HashMap<String, String>,
    pub href: String,
    pub uri: String,
    pub release_date: String,
    pub total_tracks: i32,
    pub album_type: String,
}

/// Image object.
#[derive(Clone, Debug)]
pub struct Image {
    pub url: String,
    pub height: Option<i32>,
    pub width: Option<i32>,
}

/// User profile.
#[derive(Clone, Debug)]
pub struct UserProfile {
    pub id: String,
    pub display_name: Option<String>,
    pub email: Option<String>,
    pub external_urls: HashMap<String, String>,
    pub followers: Followers,
    pub href: String,
    pub images: Vec<Image>,
    pub product: String,
    pub uri: String,
}

/// Followers object.
#[derive(Clone, Debug)]
pub struct Followers {
    pub href: Option<String>,
    pub total: i64,
}

/// Top tracks response.
#[derive(Clone, Debug)]
pub struct TopTracksResponse {
    pub items: Vec<Track>,
    pub total: i32,
    pub limit: i32,
    pub offset: i32,
    pub href: String,
    pub next: Option<String>,
    pub previous: Option<String>,
}

/// Recently played response.
#[derive(Clone, Debug)]
pub struct RecentlyPlayedResponse {
    pub items: Vec<PlayHistoryItem>,
    pub total: i32,
    pub limit: i32,
    pub offset: i32,
    pub href: String,
    pub next: Option<String>,
    pub previous: Option<String>,
}

/// Play history item.
#[derive(Clone, Debug)]
pub struct PlayHistoryItem {
    pub track: Track,
    pub played_at: UtcTime,
    pub context: Option<Context>,
}

/// Search response.
#[derive(Clone, Debug)]
pub struct SearchResponse {
    pub tracks: SearchResult<Track>,
    pub artists: SearchResult<Artist>,
    pub albums: SearchResult<Album>,
    pub playlists: SearchResult<Playlist>,
}

/// Generic search result.
#[derive(Clone, Debug)]
pub struct SearchResult<T> {
    pub items: Vec<T>,
    pub total: i32,
    pub limit: i32,
    pub offset: i32,
    pub href: String,
    pub next: Option<String>,
    pub previous: Option<String>,
}

/// Playlist object.
#[derive(Clone, Debug)]
pub struct Playlist {
    pub id: String,
    pub name: String,
    pub description: Option<String>,
    pub external_urls: HashMap<String, String>,
    pub href: String,
    pub uri: String,
    pub images: Vec<Image>,
    pub owner: UserProfile,
    pub public: bool,
    pub collaborative: bool,
    pub tracks: PlaylistTracks,
}

/// Playlist tracks object.
#[derive(Clone, Debug)]
pub struct PlaylistTracks {
    pub href: String,
    pub total: i32,
}

} // verus!
