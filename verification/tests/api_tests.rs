use spotify_backend::api::{
    body_is_blank, is_success, next_call, playback_state_call, reply_plan, request_url, sends_empty_body,
    shuffle_call, user_profile_call, volume_call, HttpMethod, ReplyPlan,
};
use spotify_backend::text::u64_to_decimal;

#[test]
fn urls() {
    assert_eq!(request_url("/me/player"), "https://api.spotify.com/v1/me/player");
    assert_eq!(playback_state_call().endpoint, "/me/player");
    assert_eq!(playback_state_call().method, HttpMethod::Get);
    assert_eq!(user_profile_call().endpoint, "/me");
    assert_eq!(next_call().method, HttpMethod::Post);
}

#[test]
fn empty_body_for_put_and_post() {
    assert!(sends_empty_body(HttpMethod::Put));
    assert!(sends_empty_body(HttpMethod::Post));
    assert!(!sends_empty_body(HttpMethod::Get));
}

#[test]
fn reply_plans() {
    assert_eq!(reply_plan(401, false), ReplyPlan::RefreshAndRetry);
    assert_eq!(reply_plan(401, true), ReplyPlan::RefreshAndRetry);
    assert_eq!(reply_plan(404, false), ReplyPlan::Fail);
    assert_eq!(reply_plan(199, true), ReplyPlan::Fail);
    assert_eq!(reply_plan(300, true), ReplyPlan::Fail);
    assert_eq!(reply_plan(204, true), ReplyPlan::NullValue);
    assert_eq!(reply_plan(200, false), ReplyPlan::ReadBody);
    assert_eq!(reply_plan(299, false), ReplyPlan::ReadBody);
}

#[test]
fn blank_bodies() {
    assert!(body_is_blank(""));
    assert!(body_is_blank("  \n"));
    assert!(!body_is_blank("{}"));
}

#[test]
fn decimal_text() {
    assert_eq!(u64_to_decimal(0), "0");
    assert_eq!(u64_to_decimal(7), "7");
    assert_eq!(u64_to_decimal(1000), "1000");
    assert_eq!(u64_to_decimal(u64::MAX), u64::MAX.to_string());
}

#[test]
fn parameter_values() {
    assert_eq!(volume_call(100).query[0].1, "100");
    assert_eq!(shuffle_call(false).query[0].1, "false");
}

#[test]
fn success_statuses() {
    assert!(is_success(200));
    assert!(is_success(299));
    assert!(!is_success(300));
    assert!(!is_success(401));
    assert!(!is_success(199));
}

use spotify_backend::api::{request_start, request_step, Completion, RequestAction, RequestEvent, RequestState};

#[test]
fn request_flow_without_retry() {
    let (s, a) = request_start();
    assert!(matches!(a, RequestAction::GetToken));
    let (s, a) = request_step(s, RequestEvent::TokenReady("tok".to_string()), true);
    match a {
        RequestAction::Send(t) => assert_eq!(t, "tok"),
        _ => panic!("expected send"),
    }
    let (s, a) = request_step(s, RequestEvent::Replied(204), true);
    assert_eq!(s, RequestState::Finished);
    assert!(matches!(a, RequestAction::Complete(Completion::Null)));
}

#[test]
fn request_flow_retries_once_after_401() {
    let (s, _) = request_start();
    let (s, _) = request_step(s, RequestEvent::TokenReady("old".to_string()), false);
    let (s, a) = request_step(s, RequestEvent::Replied(401), false);
    assert_eq!(s, RequestState::AwaitRefresh);
    assert!(matches!(a, RequestAction::Refresh));
    let (s, a) = request_step(s, RequestEvent::Refreshed, false);
    assert_eq!(s, RequestState::AwaitToken { retry: true });
    assert!(matches!(a, RequestAction::GetToken));
    let (s, _) = request_step(s, RequestEvent::TokenReady("new".to_string()), false);
    let (s, a) = request_step(s, RequestEvent::Replied(401), false);
    assert_eq!(s, RequestState::Finished);
    assert!(matches!(a, RequestAction::Complete(Completion::ParseRetried)));
}

#[test]
fn retried_control_command_is_not_parsed() {
    let retried = RequestState::AwaitReply { retry: true };
    assert!(matches!(request_step(retried, RequestEvent::Replied(204), true).1, RequestAction::Complete(Completion::Null)));
    assert!(matches!(request_step(retried, RequestEvent::Replied(200), true).1, RequestAction::Complete(Completion::Null)));
    assert!(matches!(request_step(retried, RequestEvent::Replied(401), true).1, RequestAction::Complete(Completion::Fail)));
    assert!(matches!(request_step(retried, RequestEvent::Replied(500), false).1, RequestAction::Complete(Completion::ParseRetried)));
}

#[test]
fn request_flow_failures_and_bodies() {
    let start = RequestState::AwaitReply { retry: false };
    assert!(matches!(request_step(start, RequestEvent::Replied(500), false).1, RequestAction::Complete(Completion::Fail)));
    assert!(matches!(request_step(start, RequestEvent::Replied(200), false).1, RequestAction::Complete(Completion::ReadBody)));
    assert!(matches!(request_step(RequestState::Finished, RequestEvent::Refreshed, false).1, RequestAction::Invalid));
}
