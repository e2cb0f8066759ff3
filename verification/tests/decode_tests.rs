use rust_spotify_web_playback_sdk::decode::{
    decode_engine_error, decode_image, decode_player, decode_playback_state, decode_state_change,
    decode_track,
};
use rust_spotify_web_playback_sdk::structs::{MediaType, RepeatMode, TrackType};
use rust_spotify_web_playback_sdk::value::Value;

fn s(x: &str) -> Value {
    Value::Str(x.to_string())
}

fn obj(fields: Vec<(&str, Value)>) -> Value {
    Value::Obj(fields.into_iter().map(|(k, v)| (k.to_string(), v)).collect())
}

fn arr(items: Vec<Value>) -> Value {
    Value::Arr(items)
}

fn track_full(uri: &str) -> Value {
    obj(vec![
        ("uri", s(uri)),
        ("id", s("id1")),
        ("track_type", s("track")),
        ("media_type", s("audio")),
        ("name", s("Song")),
        ("is_playable", Value::Bool(true)),
        (
            "album",
            obj(vec![
                ("uri", s("album:1")),
                ("name", s("Album")),
                (
                    "images",
                    arr(vec![obj(vec![
                        ("url", s("http://img")),
                        ("size", s("small")),
                        ("width", Value::Int(64)),
                        ("height", Value::Int(64)),
                    ])]),
                ),
            ]),
        ),
        (
            "artists",
            arr(vec![obj(vec![
                ("uri", s("artist:1")),
                ("name", s("Artist")),
                ("url", s("http://artist")),
            ])]),
        ),
        (
            "linked_from",
            obj(vec![("uri", s("linked:1")), ("id", s("lid"))]),
        ),
        ("metadata", obj(vec![("anything", Value::Int(1))])),
    ])
}

fn track_min(uri: &str) -> Value {
    obj(vec![
        ("uri", s(uri)),
        // the alternate wire key for the track kind
        ("type", s("track")),
        ("media_type", s("audio")),
        ("name", s("Song")),
        ("is_playable", Value::Bool(true)),
        (
            "album",
            obj(vec![
                ("uri", s("album:1")),
                ("name", s("Album")),
                ("images", arr(vec![obj(vec![("url", s("http://img"))])])),
            ]),
        ),
        (
            "artists",
            arr(vec![obj(vec![("uri", s("artist:1")), ("name", s("Artist"))])]),
        ),
    ])
}

fn state_with_track(track: Value, full: bool) -> Value {
    let context = if full {
        obj(vec![
            ("uri", s("ctx:1")),
            ("metadata", obj(vec![("context_description", s("desc"))])),
        ])
    } else {
        obj(vec![])
    };
    let disallows = if full {
        obj(vec![
            ("pausing", Value::Bool(false)),
            ("peeking_next", Value::Bool(true)),
            ("peeking_prev", Value::Bool(false)),
            ("resuming", Value::Bool(false)),
            ("seeking", Value::Bool(false)),
            ("skipping_next", Value::Bool(false)),
            ("skipping_prev", Value::Bool(true)),
        ])
    } else {
        obj(vec![])
    };
    obj(vec![
        ("context", context),
        ("disallows", disallows),
        ("paused", Value::Bool(true)),
        ("position", Value::Int(1234)),
        ("repeat_mode", Value::Int(1)),
        ("shuffle", Value::Bool(false)),
        (
            "track_window",
            obj(vec![
                ("current_track", track),
                ("previous_tracks", arr(vec![])),
                ("next_tracks", arr(vec![])),
            ]),
        ),
    ])
}

#[test]
fn player_decodes() {
    let p = decode_player(obj(vec![("device_id", s("abc123"))]), "").unwrap();
    assert_eq!(p.device_id, "abc123");
}

#[test]
fn player_missing_device_id() {
    let e = decode_player(obj(vec![("other", s("x"))]), "").unwrap_err();
    assert_eq!(e.path, "device_id");
}

#[test]
fn player_not_an_object() {
    let e = decode_player(Value::Int(3), "").unwrap_err();
    assert_eq!(e.path, "");
}

#[test]
fn player_first_duplicate_key_wins() {
    let v = Value::Obj(vec![
        ("device_id".to_string(), s("first")),
        ("device_id".to_string(), s("second")),
    ]);
    let p = decode_player(v, "").unwrap();
    assert_eq!(p.device_id, "first");
}

#[test]
fn engine_error_decodes() {
    let e = decode_engine_error(obj(vec![("message", s("boom"))]), "").unwrap();
    assert_eq!(e.message, "boom");
}

#[test]
fn engine_error_wrong_type() {
    let e = decode_engine_error(obj(vec![("message", Value::Int(1))]), "").unwrap_err();
    assert_eq!(e.path, "message");
}

#[test]
fn image_optionals_absent_read_as_none() {
    let im = decode_image(obj(vec![("url", s("u"))]), "").unwrap();
    assert_eq!(im.url, "u");
    assert!(im.size.is_none());
    assert!(im.width.is_none());
    assert!(im.height.is_none());
}

#[test]
fn image_wrong_typed_optional_fails() {
    let e = decode_image(obj(vec![("url", s("u")), ("size", Value::Int(2))]), "pfx").unwrap_err();
    assert_eq!(e.path, "pfx.size");
}

#[test]
fn track_full_decodes() {
    let t = decode_track(track_full("track:1"), "").unwrap();
    assert_eq!(t.uri, "track:1");
    assert_eq!(t.id.as_deref(), Some("id1"));
    assert_eq!(t.track_type, TrackType::Track);
    assert_eq!(t.media_type, MediaType::Audio);
    assert!(t.is_playable);
    assert_eq!(t.album.images.len(), 1);
    assert_eq!(t.album.images[0].width, Some(64));
    assert_eq!(t.artists.len(), 1);
    assert_eq!(t.artists[0].url.as_deref(), Some("http://artist"));
    assert!(t.linked_from.is_some());
    assert!(t.metadata.is_some());
}

#[test]
fn track_min_decodes_with_alternate_type_key() {
    let t = decode_track(track_min("track:1"), "").unwrap();
    assert_eq!(t.uri, "track:1");
    assert!(t.id.is_none());
    assert_eq!(t.track_type, TrackType::Track);
    assert!(t.linked_from.is_none());
    assert!(t.metadata.is_none());
}

#[test]
fn track_type_key_takes_precedence_over_type() {
    let mut fields = vec![("track_type", s("episode")), ("type", s("ad"))];
    fields.extend(vec![
        ("uri", s("u")),
        ("media_type", s("video")),
        ("name", s("n")),
        ("is_playable", Value::Bool(false)),
        (
            "album",
            obj(vec![("uri", s("a")), ("name", s("an")), ("images", arr(vec![]))]),
        ),
        ("artists", arr(vec![])),
    ]);
    let t = decode_track(obj(fields), "").unwrap();
    assert_eq!(t.track_type, TrackType::Episode);
    assert_eq!(t.media_type, MediaType::Video);
}

#[test]
fn track_unknown_kind_fails() {
    let mut v = vec![("uri", s("u")), ("track_type", s("mystery"))];
    v.push(("media_type", s("audio")));
    let e = decode_track(obj(v), "").unwrap_err();
    assert_eq!(e.path, "track_type");
}

#[test]
fn bad_list_element_fails_whole_list() {
    let album = obj(vec![
        ("uri", s("a")),
        ("name", s("n")),
        (
            "images",
            arr(vec![
                obj(vec![("url", s("ok"))]),
                obj(vec![("size", s("no url"))]),
            ]),
        ),
    ]);
    let e = rust_spotify_web_playback_sdk::decode::decode_album(album, "").unwrap_err();
    assert_eq!(e.path, "images.url");
}

#[test]
fn playback_state_full_and_minimal_agree_on_required_fields() {
    let full = decode_playback_state(state_with_track(track_full("t:1"), true), "").unwrap();
    let min = decode_playback_state(state_with_track(track_min("t:1"), false), "").unwrap();

    assert_eq!(full.paused, min.paused);
    assert_eq!(full.position, min.position);
    assert_eq!(full.repeat_mode, min.repeat_mode);
    assert_eq!(full.shuffle, min.shuffle);
    assert_eq!(
        full.track_window.current_track.uri,
        min.track_window.current_track.uri
    );
    assert_eq!(
        full.track_window.current_track.name,
        min.track_window.current_track.name
    );
    assert_eq!(
        full.track_window.current_track.track_type,
        min.track_window.current_track.track_type
    );
    assert_eq!(full.position, 1234);
    assert_eq!(full.repeat_mode, RepeatMode::Context);

    // the optional sides differ as populated vs. absent
    assert_eq!(full.context.uri.as_deref(), Some("ctx:1"));
    assert!(min.context.uri.is_none());
    assert_eq!(full.disallows.peeking_next, Some(true));
    assert!(min.disallows.peeking_next.is_none());
}

#[test]
fn missing_required_nested_field_names_its_path() {
    let mut track = track_full("t:1");
    if let Value::Obj(ref mut fields) = track {
        fields.retain(|(k, _)| k != "uri");
    }
    let e = decode_playback_state(state_with_track(track, true), "").unwrap_err();
    assert_eq!(e.path, "track_window.current_track.uri");
}

#[test]
fn position_must_fit_32_bits() {
    let mut state = state_with_track(track_min("t"), false);
    if let Value::Obj(ref mut fields) = state {
        for f in fields.iter_mut() {
            if f.0 == "position" {
                f.1 = Value::Int(1 << 40);
            }
        }
    }
    let e = decode_playback_state(state, "").unwrap_err();
    assert_eq!(e.path, "position");
}

#[test]
fn position_accepts_the_32_bit_extremes() {
    for extreme in [i32::MIN as i64, i32::MAX as i64] {
        let mut state = state_with_track(track_min("t"), false);
        if let Value::Obj(ref mut fields) = state {
            for f in fields.iter_mut() {
                if f.0 == "position" {
                    f.1 = Value::Int(extreme);
                }
            }
        }
        let decoded = decode_playback_state(state, "").unwrap();
        assert_eq!(decoded.position as i64, extreme);
    }
}

#[test]
fn repeat_mode_outside_range_fails() {
    let mut state = state_with_track(track_min("t"), false);
    if let Value::Obj(ref mut fields) = state {
        for f in fields.iter_mut() {
            if f.0 == "repeat_mode" {
                f.1 = Value::Int(3);
            }
        }
    }
    let e = decode_playback_state(state, "").unwrap_err();
    assert_eq!(e.path, "repeat_mode");
}

fn state_change_fixture() -> Value {
    obj(vec![
        ("context", obj(vec![("uri", s("ctx:2"))])),
        ("disallows", obj(vec![("seeking", Value::Bool(true))])),
        ("paused", Value::Bool(false)),
        ("position", Value::Int(500)),
        ("repeat_mode", Value::Int(0)),
        ("shuffle", Value::Bool(true)),
        ("duration", Value::Int(180000)),
        ("loading", Value::Bool(false)),
        ("playback_id", s("pb1")),
        ("playback_quality", s("high")),
        ("playback_speed", Value::Int(1)),
        (
            "playback_features",
            obj(vec![
                ("hifi_status", s("none")),
                (
                    "playback_speed",
                    obj(vec![
                        ("current", Value::Int(1)),
                        ("restricted", Value::Bool(false)),
                        ("selected", Value::Int(1)),
                    ]),
                ),
                ("signal_ids", arr(vec![s("sig1"), s("sig2")])),
            ]),
        ),
        (
            "restrictions",
            obj(vec![(
                "disallow_seeking_reasons",
                arr(vec![s("ad_playing")]),
            )]),
        ),
        ("shuffle_mode", Value::Int(1)),
        ("timestamp", Value::Int(1700000000000)),
        (
            "track_window",
            obj(vec![
                ("current_track", track_full("t:2")),
                ("previous_tracks", arr(vec![track_min("t:0")])),
                ("next_tracks", arr(vec![track_min("t:3")])),
            ]),
        ),
    ])
}

#[test]
fn state_change_decodes() {
    let x = decode_state_change(state_change_fixture(), "").unwrap();
    assert!(!x.paused);
    assert_eq!(x.duration, 180000);
    assert_eq!(x.playback_id, "pb1");
    assert_eq!(x.playback_quality, "high");
    assert_eq!(x.timestamp, 1700000000000);
    assert_eq!(x.playback_features.signal_ids, vec!["sig1", "sig2"]);
    assert_eq!(
        x.restrictions.disallow_seeking_reasons,
        vec!["ad_playing"]
    );
    // an absent reasons list reads as empty
    assert!(x.restrictions.disallow_peeking_next_reasons.is_empty());
    assert_eq!(x.track_window.previous_tracks.len(), 1);
    assert_eq!(x.track_window.next_tracks[0].uri, "t:3");
}

#[test]
fn state_change_missing_required_field_fails() {
    let mut v = state_change_fixture();
    if let Value::Obj(ref mut fields) = v {
        fields.retain(|(k, _)| k != "timestamp");
    }
    let e = decode_state_change(v, "").unwrap_err();
    assert_eq!(e.path, "timestamp");
}

#[test]
fn null_optional_reads_as_absent() {
    let t = decode_track(
        {
            let mut v = track_full("t");
            if let Value::Obj(ref mut fields) = v {
                for f in fields.iter_mut() {
                    if f.0 == "id" || f.0 == "metadata" {
                        f.1 = Value::Null;
                    }
                }
            }
            v
        },
        "",
    )
    .unwrap();
    assert!(t.id.is_none());
    assert!(t.metadata.is_none());
}
