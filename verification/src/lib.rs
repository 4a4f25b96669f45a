//! Decision logic of a Spotify Connect backend: OAuth session handling,
//! Web API request planning, playback-state mapping, the socket protocol
//! and the player command loop, each with its contract.
pub mod text;
pub mod time;
pub mod types;
pub mod json;
pub mod playback;
pub mod encoding;
pub mod api;
pub mod oauth;
pub mod player;
pub mod protocol;
pub mod engine;
pub mod cache;
