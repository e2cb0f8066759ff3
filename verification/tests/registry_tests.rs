use rust_spotify_web_playback_sdk::facade::{Dispatch, EventPayload, Facade};
use rust_spotify_web_playback_sdk::{
    event_check, EventKind, ForeignCall, SdkError, SubscribeResult, UnsubscribeResult, Value,
};

fn s(x: &str) -> Value {
    Value::Str(x.to_string())
}

fn obj(fields: Vec<(&str, Value)>) -> Value {
    Value::Obj(fields.into_iter().map(|(k, v)| (k.to_string(), v)).collect())
}

fn error_payload(msg: &str) -> Value {
    obj(vec![("message", s(msg))])
}

fn initialized() -> Facade {
    let mut f = Facade::new();
    assert!(f.init("player".to_string(), 1_000_000, false).is_some());
    f
}

#[test]
fn event_check_accepts_exactly_the_known_names() {
    assert!(event_check("ready"));
    assert!(event_check("not_ready"));
    assert!(event_check("player_state_changed"));
    assert!(event_check("autoplay_failed"));
    assert!(event_check("initialization_error"));
    assert!(event_check("authentication_error"));
    assert!(event_check("account_error"));
    assert!(event_check("playback_error"));
    assert!(!event_check("Ready"));
    assert!(!event_check("playback error"));
    assert!(!event_check(""));
}

#[test]
fn unknown_event_names_are_refused() {
    let mut f = initialized();
    assert_eq!(f.add_listener("bogus", 1), Err(SdkError::UnknownEventKind));
    assert_eq!(f.remove_listener("bogus"), Err(SdkError::UnknownEventKind));
}

#[test]
fn first_subscription_owes_the_foreign_add() {
    let mut f = initialized();
    match f.add_listener("playback_error", 7).unwrap() {
        SubscribeResult::Applied { unique, foreign, .. } => {
            assert!(unique);
            assert_eq!(foreign, Some(ForeignCall::AddListener(EventKind::PlaybackError)));
        },
        other => panic!("expected an applied subscription, got {:?}", other),
    }
    // replacing the handler needs no further foreign registration
    match f.add_listener("playback_error", 8).unwrap() {
        SubscribeResult::Applied { unique, foreign, .. } => {
            assert!(!unique);
            assert_eq!(foreign, None);
        },
        other => panic!("expected an applied subscription, got {:?}", other),
    }
}

#[test]
fn removing_the_last_handler_owes_the_foreign_remove() {
    let mut f = initialized();
    f.add_listener("playback_error", 7).unwrap();
    match f.remove_listener("playback_error").unwrap() {
        UnsubscribeResult::Applied { removed, foreign } => {
            assert!(removed);
            assert_eq!(foreign, Some(ForeignCall::RemoveListener(EventKind::PlaybackError)));
        },
        other => panic!("expected an applied removal, got {:?}", other),
    }
    match f.remove_listener("playback_error").unwrap() {
        UnsubscribeResult::Applied { removed, foreign } => {
            assert!(!removed);
            assert_eq!(foreign, None);
        },
        other => panic!("expected an applied removal, got {:?}", other),
    }
}

#[test]
fn bootstrap_kinds_keep_their_foreign_listener() {
    let mut f = initialized();
    // init already attached the foreign listener for the guard
    match f.add_listener("ready", 5).unwrap() {
        SubscribeResult::Applied { unique, foreign, .. } => {
            assert!(!unique);
            assert_eq!(foreign, None);
        },
        other => panic!("expected an applied subscription, got {:?}", other),
    }
    match f.remove_listener("ready").unwrap() {
        UnsubscribeResult::Applied { removed, foreign } => {
            assert!(removed);
            // the guard still listens: no foreign removal
            assert_eq!(foreign, None);
        },
        other => panic!("expected an applied removal, got {:?}", other),
    }
}

#[test]
fn stale_handle_removes_nothing() {
    let mut f = initialized();
    let first = match f.add_listener("account_error", 1).unwrap() {
        SubscribeResult::Applied { handle, .. } => handle,
        other => panic!("expected an applied subscription, got {:?}", other),
    };
    let second = match f.add_listener("account_error", 2).unwrap() {
        SubscribeResult::Applied { handle, .. } => handle,
        other => panic!("expected an applied subscription, got {:?}", other),
    };
    match f.remove_specific_listener(first).unwrap() {
        UnsubscribeResult::Applied { removed, foreign } => {
            assert!(!removed);
            assert_eq!(foreign, None);
        },
        other => panic!("expected an applied removal, got {:?}", other),
    }
    match f.remove_specific_listener(second).unwrap() {
        UnsubscribeResult::Applied { removed, foreign } => {
            assert!(removed);
            assert_eq!(foreign, Some(ForeignCall::RemoveListener(EventKind::AccountError)));
        },
        other => panic!("expected an applied removal, got {:?}", other),
    }
}

#[test]
fn unsubscribed_handler_is_never_invoked() {
    let mut f = initialized();
    let handle = match f.add_listener("playback_error", 7).unwrap() {
        SubscribeResult::Applied { handle, .. } => handle,
        other => panic!("expected an applied subscription, got {:?}", other),
    };
    match f.remove_specific_listener(handle).unwrap() {
        UnsubscribeResult::Applied { removed, .. } => assert!(removed),
        other => panic!("expected an applied removal, got {:?}", other),
    }
    for i in 0..3 {
        let d = f.handle_notification(
            EventKind::PlaybackError,
            Some(error_payload(&format!("fault {}", i))),
        );
        assert!(matches!(d, Dispatch::Dropped));
    }
}

#[test]
fn resubscribing_replaces_the_handler() {
    let mut f = initialized();
    f.add_listener("account_error", 1).unwrap();
    f.add_listener("account_error", 2).unwrap();
    let d = f.handle_notification(EventKind::AccountError, Some(error_payload("no account")));
    match d {
        Dispatch::Invoke(handler, EventPayload::EngineFault(e)) => {
            assert_eq!(handler, 2);
            assert_eq!(e.message, "no account");
        },
        other => panic!("expected handler 2 to be invoked, got {:?}", other),
    }
    let calls = f.end_dispatch();
    assert!(calls.is_empty());
}

#[test]
fn autoplay_failed_carries_no_payload() {
    let mut f = initialized();
    f.add_listener("autoplay_failed", 4).unwrap();
    let d = f.handle_notification(EventKind::AutoplayFailed, None);
    match d {
        Dispatch::Invoke(handler, EventPayload::NoPayload) => assert_eq!(handler, 4),
        other => panic!("expected the handler with no payload, got {:?}", other),
    }
    f.end_dispatch();
}

#[test]
fn notification_without_any_handler_is_dropped_before_decoding() {
    let mut f = initialized();
    // a payload that would not decode: without a handler it is never examined
    let d = f.handle_notification(EventKind::PlaybackError, Some(Value::Int(3)));
    assert!(matches!(d, Dispatch::Dropped));
}

#[test]
fn mutations_during_dispatch_are_deferred_to_its_end() {
    let mut f = initialized();
    f.add_listener("playback_error", 1).unwrap();
    let d = f.handle_notification(EventKind::PlaybackError, Some(error_payload("boom")));
    assert!(matches!(d, Dispatch::Invoke(1, _)));

    // the handler would now run; meanwhile its own mutations queue up
    match f.add_listener("playback_error", 2).unwrap() {
        SubscribeResult::Queued { .. } => {},
        other => panic!("expected a queued subscription, got {:?}", other),
    }
    // a different kind is not mid-dispatch: applied immediately
    match f.add_listener("account_error", 3).unwrap() {
        SubscribeResult::Applied { .. } => {},
        other => panic!("expected an applied subscription, got {:?}", other),
    }
    match f.remove_listener("playback_error").unwrap() {
        UnsubscribeResult::Queued => {},
        other => panic!("expected a queued removal, got {:?}", other),
    }

    // subscribe of 2 replaces (slot already foreign-attached), then the
    // removal empties the slot and owes the foreign removal
    let calls = f.end_dispatch();
    assert_eq!(calls, vec![ForeignCall::RemoveListener(EventKind::PlaybackError)]);

    let d = f.handle_notification(EventKind::PlaybackError, Some(error_payload("again")));
    assert!(matches!(d, Dispatch::Dropped));
}

#[test]
fn state_change_reaches_its_subscriber_decoded() {
    let mut f = initialized();
    f.add_listener("player_state_changed", 11).unwrap();
    let payload = obj(vec![
        ("context", obj(vec![])),
        ("disallows", obj(vec![])),
        ("paused", Value::Bool(true)),
        ("position", Value::Int(0)),
        ("repeat_mode", Value::Int(2)),
        ("shuffle", Value::Bool(false)),
        ("duration", Value::Int(1000)),
        ("loading", Value::Bool(true)),
        ("playback_id", s("p")),
        ("playback_quality", s("q")),
        ("playback_speed", Value::Int(1)),
        (
            "playback_features",
            obj(vec![
                ("hifi_status", s("none")),
                (
                    "playback_speed",
                    obj(vec![
                        ("current", Value::Int(1)),
                        ("restricted", Value::Bool(false)),
                        ("selected", Value::Int(1)),
                    ]),
                ),
                ("signal_ids", Value::Arr(vec![])),
            ]),
        ),
        ("restrictions", obj(vec![])),
        ("shuffle_mode", Value::Int(0)),
        ("timestamp", Value::Int(42)),
        (
            "track_window",
            obj(vec![
                (
                    "current_track",
                    obj(vec![
                        ("uri", s("t:9")),
                        ("track_type", s("episode")),
                        ("media_type", s("video")),
                        ("name", s("Show")),
                        ("is_playable", Value::Bool(true)),
                        (
                            "album",
                            obj(vec![
                                ("uri", s("a:9")),
                                ("name", s("Season")),
                                ("images", Value::Arr(vec![])),
                            ]),
                        ),
                        ("artists", Value::Arr(vec![])),
                    ]),
                ),
                ("previous_tracks", Value::Arr(vec![])),
                ("next_tracks", Value::Arr(vec![])),
            ]),
        ),
    ]);
    let d = f.handle_notification(EventKind::PlayerStateChanged, Some(payload));
    match d {
        Dispatch::Invoke(11, EventPayload::StateChanged(x)) => {
            assert_eq!(x.timestamp, 42);
            assert_eq!(x.track_window.current_track.name, "Show");
        },
        other => panic!("expected the state-change handler, got {:?}", other),
    }
    f.end_dispatch();
}
