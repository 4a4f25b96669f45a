use spotify_backend::json::{JsonNumber, JsonValue};
use spotify_backend::playback::{loop_status, player_state_from_playback, repeat_state, PlaybackResponse};

fn s(x: &str) -> JsonValue {
    JsonValue::Str(x.to_string())
}

fn num(n: u64) -> JsonValue {
    JsonValue::Number(JsonNumber::PosInt(n))
}

fn obj(members: Vec<(&str, JsonValue)>) -> JsonValue {
    JsonValue::Object(members.into_iter().map(|(k, v)| (k.to_string(), v)).collect())
}

fn full_item() -> JsonValue {
    obj(vec![
        ("id", s("track42")),
        ("name", s("Song")),
        ("artists", JsonValue::Array(vec![obj(vec![("name", s("First"))]), obj(vec![("name", s("Second"))])])),
        (
            "album",
            obj(vec![
                ("name", s("Record")),
                ("images", JsonValue::Array(vec![obj(vec![("url", s("https://i/1.jpg"))])])),
            ]),
        ),
        ("duration_ms", num(200_000)),
    ])
}

fn response(item: Option<JsonValue>, device: Option<JsonValue>) -> PlaybackResponse {
    PlaybackResponse {
        device,
        repeat_state: "context".to_string(),
        shuffle_state: true,
        context: None,
        timestamp: 1,
        progress_ms: Some(1234),
        is_playing: true,
        item,
    }
}

#[test]
fn full_reply_maps_every_field() {
    let r = response(Some(full_item()), Some(obj(vec![("volume_percent", num(73))])));
    assert!(r.times_fit());
    let st = player_state_from_playback(&r);
    assert_eq!(st.status, "Playing");
    assert_eq!(st.title, "Song");
    assert_eq!(st.artist, "First");
    assert_eq!(st.album, "Record");
    assert_eq!(st.art_url, "https://i/1.jpg");
    assert_eq!(st.track_id, "track42");
    assert_eq!(st.position, 1_234_000);
    assert_eq!(st.duration, 200_000_000);
    assert_eq!(st.volume_percent, 73);
    assert!(st.shuffle);
    assert_eq!(st.loop_status, "Playlist");
}

#[test]
fn missing_item_and_device_give_defaults() {
    let mut r = response(None, None);
    r.is_playing = false;
    r.progress_ms = None;
    r.repeat_state = "off".to_string();
    let st = player_state_from_playback(&r);
    assert_eq!(st.status, "Paused");
    assert_eq!(st.title, "");
    assert_eq!(st.artist, "");
    assert_eq!(st.album, "");
    assert_eq!(st.art_url, "");
    assert_eq!(st.track_id, "");
    assert_eq!(st.position, 0);
    assert_eq!(st.duration, 0);
    assert_eq!(st.volume_percent, 50);
    assert_eq!(st.loop_status, "None");
}

#[test]
fn wrong_types_fall_back() {
    let item = obj(vec![
        ("name", num(5)),
        ("artists", JsonValue::Array(vec![])),
        ("album", s("not an object")),
        ("duration_ms", JsonValue::Number(JsonNumber::Float(1.5f64.to_bits()))),
    ]);
    let device = obj(vec![("volume_percent", JsonValue::Null)]);
    let st = player_state_from_playback(&response(Some(item), Some(device)));
    assert_eq!(st.title, "");
    assert_eq!(st.artist, "");
    assert_eq!(st.album, "");
    assert_eq!(st.duration, 0);
    assert_eq!(st.volume_percent, 50);
}

#[test]
fn negative_progress_does_not_fit() {
    let mut r = response(None, None);
    r.progress_ms = Some(-1);
    assert!(!r.times_fit());
    r.progress_ms = Some(18_446_744_073_709_551);
    assert!(r.times_fit());
    r.progress_ms = Some(18_446_744_073_709_552);
    assert!(!r.times_fit());
}

#[test]
fn negative_volume_is_kept() {
    let dev = obj(vec![("volume_percent", JsonValue::Number(JsonNumber::NegInt(-3)))]);
    assert_eq!(player_state_from_playback(&response(None, Some(dev))).volume_percent, -3);
}

#[test]
fn loop_status_mapping() {
    assert_eq!(loop_status("track"), "Track");
    assert_eq!(loop_status("context"), "Playlist");
    assert_eq!(loop_status("off"), "None");
    assert_eq!(loop_status("Track"), "None");
}

#[test]
fn repeat_state_mapping() {
    assert_eq!(repeat_state("Track"), "track");
    assert_eq!(repeat_state("Playlist"), "context");
    assert_eq!(repeat_state("None"), "off");
    assert_eq!(repeat_state("track"), "off");
}

#[test]
fn loop_status_round_trip() {
    for m in ["Track", "Playlist", "None"] {
        assert_eq!(loop_status(&repeat_state(m)), m);
    }
}
