use spotify_backend::api::HttpMethod;
use spotify_backend::player::{apply_poll, command_action, should_resume, PlayerAction, PlayerCommand};
use spotify_backend::types::PlayerState;

fn state(status: &str) -> PlayerState {
    PlayerState {
        status: status.to_string(),
        title: String::new(),
        artist: String::new(),
        album: String::new(),
        art_url: String::new(),
        track_id: String::new(),
        position: 0,
        duration: 0,
        volume_percent: 50,
        shuffle: false,
        loop_status: "None".to_string(),
    }
}

fn call(a: PlayerAction) -> (HttpMethod, String, Vec<(String, String)>) {
    match a {
        PlayerAction::Call(c) => (c.method, c.endpoint, c.query),
        _ => panic!("expected a call"),
    }
}

#[test]
fn play_pause_toggles() {
    assert!(!should_resume(&Some(state("Playing"))));
    assert!(should_resume(&Some(state("Paused"))));
    assert!(should_resume(&None));
    let (m, e, q) = call(command_action(&PlayerCommand::PlayPause, &Some(state("Playing"))));
    assert_eq!((m, e.as_str(), q.len()), (HttpMethod::Put, "/me/player/pause", 0));
    let (_, e, _) = call(command_action(&PlayerCommand::PlayPause, &Some(state("Stopped"))));
    assert_eq!(e, "/me/player/play");
    let (_, e, _) = call(command_action(&PlayerCommand::PlayPause, &None));
    assert_eq!(e, "/me/player/play");
}

#[test]
fn seek_converts_micro_to_milliseconds() {
    let (m, e, q) = call(command_action(&PlayerCommand::Seek(12_345_678), &None));
    assert_eq!(m, HttpMethod::Put);
    assert_eq!(e, "/me/player/seek");
    assert_eq!(q, vec![("position_ms".to_string(), "12345".to_string())]);
}

#[test]
fn other_commands() {
    let (m, e, _) = call(command_action(&PlayerCommand::Next, &None));
    assert_eq!((m, e.as_str()), (HttpMethod::Post, "/me/player/next"));
    let (m, e, _) = call(command_action(&PlayerCommand::Previous, &None));
    assert_eq!((m, e.as_str()), (HttpMethod::Post, "/me/player/previous"));
    let (_, e, q) = call(command_action(&PlayerCommand::SetVolume(42), &None));
    assert_eq!(e, "/me/player/volume");
    assert_eq!(q, vec![("volume_percent".to_string(), "42".to_string())]);
    let (_, _, q) = call(command_action(&PlayerCommand::Shuffle(true), &None));
    assert_eq!(q, vec![("state".to_string(), "true".to_string())]);
    let (_, e, q) = call(command_action(&PlayerCommand::Repeat("Playlist".to_string()), &None));
    assert_eq!(e, "/me/player/repeat");
    assert_eq!(q, vec![("state".to_string(), "context".to_string())]);
    assert!(matches!(command_action(&PlayerCommand::GetState, &None), PlayerAction::ReplyState));
    assert!(matches!(
        command_action(&PlayerCommand::Authenticate("u".to_string()), &None),
        PlayerAction::NoteAuthentication
    ));
}

#[test]
fn poll_updates_only_on_state() {
    let mut st = Some(state("Playing"));
    apply_poll(&mut st, None);
    assert_eq!(st.as_ref().unwrap().status, "Playing");
    apply_poll(&mut st, Some(state("Paused")));
    assert_eq!(st.as_ref().unwrap().status, "Paused");
    let mut none: Option<PlayerState> = None;
    apply_poll(&mut none, None);
    assert!(none.is_none());
}

#[test]
fn polls_keep_the_latest_found_state() {
    let mut st: Option<PlayerState> = None;
    let polls = vec![None, Some(state("Playing")), None, Some(state("Paused")), None];
    for p in polls {
        apply_poll(&mut st, p);
    }
    assert_eq!(st.unwrap().status, "Paused");
    let mut st: Option<PlayerState> = None;
    for _ in 0..3 {
        apply_poll(&mut st, None);
    }
    assert!(st.is_none());
}
