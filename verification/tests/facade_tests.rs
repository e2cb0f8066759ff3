use rust_spotify_web_playback_sdk::facade::{
    connect_settled, get_current_state_settled, get_volume_settled, unit_settled, Action, Dispatch,
    Facade, Settled,
};
use rust_spotify_web_playback_sdk::{
    EventKind, ReadinessState, SdkError, SubscriptionHandle, Value,
};

fn s(x: &str) -> Value {
    Value::Str(x.to_string())
}

fn obj(fields: Vec<(&str, Value)>) -> Value {
    Value::Obj(fields.into_iter().map(|(k, v)| (k.to_string(), v)).collect())
}

fn arr(items: Vec<Value>) -> Value {
    Value::Arr(items)
}

fn ready_payload(device: &str) -> Value {
    obj(vec![("device_id", s(device))])
}

fn minimal_state() -> Value {
    obj(vec![
        ("context", obj(vec![])),
        ("disallows", obj(vec![])),
        ("paused", Value::Bool(true)),
        ("position", Value::Int(0)),
        ("repeat_mode", Value::Int(0)),
        ("shuffle", Value::Bool(false)),
        (
            "track_window",
            obj(vec![
                (
                    "current_track",
                    obj(vec![
                        ("uri", s("t:1")),
                        ("track_type", s("track")),
                        ("media_type", s("audio")),
                        ("name", s("Song")),
                        ("is_playable", Value::Bool(true)),
                        (
                            "album",
                            obj(vec![
                                ("uri", s("a:1")),
                                ("name", s("Album")),
                                ("images", arr(vec![])),
                            ]),
                        ),
                        ("artists", arr(vec![])),
                    ]),
                ),
                ("previous_tracks", arr(vec![])),
                ("next_tracks", arr(vec![])),
            ]),
        ),
    ])
}

fn initialized() -> Facade {
    let mut f = Facade::new();
    let act = f.init("player".to_string(), 500_000, false);
    assert!(act.is_some());
    f
}

#[test]
fn every_operation_without_engine_is_not_ready() {
    let mut f = Facade::new();
    assert_eq!(f.connect(), Err(SdkError::NotReady));
    assert_eq!(f.disconnect(), Err(SdkError::NotReady));
    assert_eq!(f.get_current_state(), Err(SdkError::NotReady));
    assert_eq!(f.set_name("n".to_string()), Err(SdkError::NotReady));
    assert_eq!(f.get_volume(), Err(SdkError::NotReady));
    assert_eq!(f.set_volume(500_000), Err(SdkError::NotReady));
    assert_eq!(f.pause(), Err(SdkError::NotReady));
    assert_eq!(f.resume(), Err(SdkError::NotReady));
    assert_eq!(f.toggle_play(), Err(SdkError::NotReady));
    assert_eq!(f.seek(0), Err(SdkError::NotReady));
    assert_eq!(f.previous_track(), Err(SdkError::NotReady));
    assert_eq!(f.next_track(), Err(SdkError::NotReady));
    assert_eq!(f.activate_element(), Err(SdkError::NotReady));
    assert_eq!(f.add_listener("ready", 1), Err(SdkError::NotReady));
    assert_eq!(f.remove_listener("ready"), Err(SdkError::NotReady));
    assert_eq!(
        f.remove_specific_listener(SubscriptionHandle { kind: EventKind::Ready, serial: 0 }),
        Err(SdkError::NotReady)
    );
}

#[test]
fn init_constructs_once_and_only_once() {
    let mut f = Facade::new();
    assert_eq!(f.state(), ReadinessState::Uninitialized);
    let act = f.init("example player".to_string(), 1_000_000, true).unwrap();
    assert_eq!(act.name, "example player");
    assert_eq!(act.volume_micros, 1_000_000);
    assert!(act.enable_media_session);
    assert_eq!(f.state(), ReadinessState::Constructing);
    // while the engine exists a second init is a no-op
    assert!(f.init("again".to_string(), 0, false).is_none());
    assert_eq!(f.state(), ReadinessState::Constructing);
}

#[test]
fn ready_notification_opens_the_guard_and_connect_succeeds() {
    let mut f = initialized();
    let d = f.handle_notification(EventKind::Ready, Some(ready_payload("abc123")));
    // no host handler is subscribed: the guard consumed it, nothing to invoke
    assert!(matches!(d, Dispatch::Dropped));
    assert_eq!(f.state(), ReadinessState::Ready);
    assert_eq!(f.connect(), Ok(Action::Connect));
    assert_eq!(connect_settled(Settled::Resolved(Value::Bool(true))), Ok(true));
}

#[test]
fn not_ready_before_the_first_ready_announces_nothing() {
    let mut f = initialized();
    f.handle_notification(EventKind::NotReady, Some(ready_payload("d")));
    assert_eq!(f.state(), ReadinessState::Constructing);
}

#[test]
fn guard_cycles_between_ready_and_disconnected() {
    let mut f = initialized();
    f.handle_notification(EventKind::Ready, Some(ready_payload("d")));
    assert_eq!(f.state(), ReadinessState::Ready);
    f.handle_notification(EventKind::NotReady, Some(ready_payload("d")));
    assert_eq!(f.state(), ReadinessState::Disconnected);
    f.handle_notification(EventKind::Ready, Some(ready_payload("d")));
    assert_eq!(f.state(), ReadinessState::Ready);
    // commands keep working while disconnected: only existence is guarded
    f.handle_notification(EventKind::NotReady, Some(ready_payload("d")));
    assert_eq!(f.pause(), Ok(Action::Pause));
}

#[test]
fn malformed_ready_payload_reports_and_leaves_the_guard_alone() {
    let mut f = initialized();
    let d = f.handle_notification(EventKind::Ready, Some(obj(vec![("wrong", s("x"))])));
    match d {
        Dispatch::DecodeFailed(e) => assert_eq!(e.path, "device_id"),
        _ => panic!("expected a decode failure"),
    }
    assert_eq!(f.state(), ReadinessState::Constructing);
}

#[test]
fn malformed_state_change_does_not_reach_the_handler() {
    let mut f = initialized();
    match f.add_listener("player_state_changed", 9).unwrap() {
        rust_spotify_web_playback_sdk::SubscribeResult::Applied { .. } => {},
        other => panic!("expected an applied subscription, got {:?}", other),
    }
    let bad = obj(vec![("paused", Value::Bool(true))]);
    let d = f.handle_notification(EventKind::PlayerStateChanged, Some(bad));
    match d {
        Dispatch::DecodeFailed(e) => assert_eq!(e.path, "context"),
        _ => panic!("expected a decode failure"),
    }
    assert_eq!(f.state(), ReadinessState::Constructing);
}

#[test]
fn set_volume_round_trips_through_the_foreign_value() {
    let f = initialized();
    let vol: f32 = 0.42;
    let micros = (vol as f64 * 1_000_000.0).round() as i64;
    match f.set_volume(micros) {
        Ok(Action::SetVolume(m)) => assert_eq!(m, 420_000),
        other => panic!("expected a volume action, got {:?}", other),
    }
    // the foreign call round-trips the value unchanged
    let got = get_volume_settled(Settled::Resolved(Some(micros))).unwrap();
    let back = got as f64 / 1_000_000.0;
    assert!((back - 0.42f64).abs() < 1e-6);
}

#[test]
fn set_volume_out_of_range_is_refused_locally() {
    let f = initialized();
    let micros = (1.5f64 * 1_000_000.0).round() as i64;
    assert_eq!(f.set_volume(micros), Err(SdkError::InvalidArgument));
    assert_eq!(f.set_volume(-1), Err(SdkError::InvalidArgument));
    assert_eq!(f.set_volume(1_000_000), Ok(Action::SetVolume(1_000_000)));
    assert_eq!(f.set_volume(0), Ok(Action::SetVolume(0)));
}

#[test]
fn set_name_requires_a_non_empty_name() {
    let f = initialized();
    assert_eq!(f.set_name(String::new()), Err(SdkError::InvalidArgument));
    assert_eq!(
        f.set_name("radio".to_string()),
        Ok(Action::SetName("radio".to_string()))
    );
}

#[test]
fn seek_refuses_negative_positions() {
    let f = initialized();
    assert_eq!(f.seek(-5), Err(SdkError::InvalidArgument));
    assert_eq!(f.seek(0), Ok(Action::Seek(0)));
    assert_eq!(f.seek(90_000), Ok(Action::Seek(90_000)));
}

#[test]
fn transport_commands_describe_their_calls() {
    let f = initialized();
    assert_eq!(f.disconnect(), Ok(Action::Disconnect));
    assert_eq!(f.get_current_state(), Ok(Action::GetCurrentState));
    assert_eq!(f.get_volume(), Ok(Action::GetVolume));
    assert_eq!(f.resume(), Ok(Action::Resume));
    assert_eq!(f.toggle_play(), Ok(Action::TogglePlay));
    assert_eq!(f.previous_track(), Ok(Action::PreviousTrack));
    assert_eq!(f.next_track(), Ok(Action::NextTrack));
    assert_eq!(f.activate_element(), Ok(Action::ActivateElement));
}

#[test]
fn connect_settlement_classification() {
    assert_eq!(connect_settled(Settled::Resolved(Value::Bool(false))), Ok(false));
    match connect_settled(Settled::Resolved(Value::Int(1))) {
        Err(SdkError::Decode(d)) => assert_eq!(d.path, ""),
        other => panic!("expected a decode error, got {:?}", other),
    }
    assert_eq!(
        connect_settled(Settled::Rejected("offline".to_string())),
        Err(SdkError::ExternalRejection("offline".to_string()))
    );
}

#[test]
fn unit_settlement_classification() {
    assert_eq!(unit_settled(Settled::Resolved(Value::Null)), Ok(()));
    assert_eq!(
        unit_settled(Settled::Rejected("nope".to_string())),
        Err(SdkError::ExternalRejection("nope".to_string()))
    );
}

#[test]
fn state_query_settlement_classification() {
    match get_current_state_settled(Settled::Resolved(Value::Null)) {
        Ok(None) => {},
        other => panic!("expected no state, got {:?}", other),
    }
    match get_current_state_settled(Settled::Resolved(minimal_state())) {
        Ok(Some(state)) => {
            assert!(state.paused);
            assert_eq!(state.track_window.current_track.uri, "t:1");
        },
        other => panic!("expected a decoded state, got {:?}", other),
    }
    match get_current_state_settled(Settled::Resolved(Value::Int(7))) {
        Err(SdkError::Decode(d)) => assert_eq!(d.path, ""),
        other => panic!("expected a decode error, got {:?}", other),
    }
    match get_current_state_settled(Settled::Rejected("gone".to_string())) {
        Err(SdkError::ExternalRejection(m)) => assert_eq!(m, "gone"),
        other => panic!("expected a rejection, got {:?}", other),
    }
}

#[test]
fn volume_query_settlement_classification() {
    assert_eq!(get_volume_settled(Settled::Resolved(Some(250_000))), Ok(250_000));
    match get_volume_settled(Settled::Resolved(None)) {
        Err(SdkError::Decode(_)) => {},
        other => panic!("expected a decode error, got {:?}", other),
    }
    assert_eq!(
        get_volume_settled(Settled::Rejected("x".to_string())),
        Err(SdkError::ExternalRejection("x".to_string()))
    );
}
