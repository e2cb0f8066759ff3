//! The schema decoder.
//!
//! One decode function per payload record. Each accepts an opaque foreign
//! [`Value`], validates that required fields are present and of the expected
//! primitive type, fills absent optional fields with `None`, and returns
//! either the typed record or a [`DecodeError`] naming the dotted path of
//! the first offending field. Lists decode element-wise; one bad element
//! fails the whole list. Nothing here panics.

use vstd::prelude::*;
use vstd::string::StringExecFns;
use crate::errors::DecodeError;
use crate::structs::{
    Player, PlayerV, EngineError, EngineErrorV, Image, ImageV, Artist, ArtistV, Album, AlbumV,
    TrackType, MediaType, LinkedFrom, LinkedFromV, Track, TrackV, ContextMetadata,
    ContextMetadataV, Context, ContextV, Disallows, TrackWindow, TrackWindowV, RepeatMode,
    PlaybackState, PlaybackStateV, SpeedSetting, PlaybackFeatures, PlaybackFeaturesV,
    Restrictions, RestrictionsV, PlaybackStateChange, PlaybackStateChangeV,
};
use crate::value::{spec_get, obj_get, take_field, str_eq, Value};

verus! {

/// `path.key`: the dotted path of a child field.
pub open spec fn spec_child(path: Seq<char>, key: Seq<char>) -> Seq<char> {
    if path.len() == 0 {
        key
    } else {
        path + "."@ + key
    }
}

pub fn child_path(path: &str, key: &str) -> (r: String)
    ensures
        r@ == spec_child(path@, key@),
{
    if path.is_empty() {
        key.to_owned()
    } else {
        let mut s: String = path.to_owned();
        s.append(".");
        s.append(key);
        proof {
            assert(s@ =~= path@ + "."@ + key@);
        }
        s
    }
}

/// A required string field.
pub open spec fn spec_req_str(f: Seq<(String, Value)>, path: Seq<char>, key: Seq<char>) -> Result<
    Seq<char>,
    Seq<char>,
> {
    match spec_get(f, key) {
        Some(Value::Str(s)) => Ok(s@),
        _ => Err(spec_child(path, key)),
    }
}

/// An optional string field: absent or null reads as `None`.
pub open spec fn spec_opt_str(f: Seq<(String, Value)>, path: Seq<char>, key: Seq<char>) -> Result<
    Option<Seq<char>>,
    Seq<char>,
> {
    match spec_get(f, key) {
        None => Ok(None),
        Some(Value::Null) => Ok(None),
        Some(Value::Str(s)) => Ok(Some(s@)),
        Some(_) => Err(spec_child(path, key)),
    }
}

/// A required boolean field.
pub open spec fn spec_req_bool(f: Seq<(String, Value)>, path: Seq<char>, key: Seq<char>) -> Result<
    bool,
    Seq<char>,
> {
    match spec_get(f, key) {
        Some(Value::Bool(b)) => Ok(b),
        _ => Err(spec_child(path, key)),
    }
}

/// An optional boolean field: absent or null reads as `None`.
pub open spec fn spec_opt_bool(f: Seq<(String, Value)>, path: Seq<char>, key: Seq<char>) -> Result<
    Option<bool>,
    Seq<char>,
> {
    match spec_get(f, key) {
        None => Ok(None),
        Some(Value::Null) => Ok(None),
        Some(Value::Bool(b)) => Ok(Some(b)),
        Some(_) => Err(spec_child(path, key)),
    }
}

/// A required integral field.
pub open spec fn spec_req_i64(f: Seq<(String, Value)>, path: Seq<char>, key: Seq<char>) -> Result<
    i64,
    Seq<char>,
> {
    match spec_get(f, key) {
        Some(Value::Int(i)) => Ok(i),
        _ => Err(spec_child(path, key)),
    }
}

/// An optional integral field: absent or null reads as `None`.
pub open spec fn spec_opt_i64(f: Seq<(String, Value)>, path: Seq<char>, key: Seq<char>) -> Result<
    Option<i64>,
    Seq<char>,
> {
    match spec_get(f, key) {
        None => Ok(None),
        Some(Value::Null) => Ok(None),
        Some(Value::Int(i)) => Ok(Some(i)),
        Some(_) => Err(spec_child(path, key)),
    }
}

/// A required integral field that must fit a 32-bit value.
pub open spec fn spec_req_i32(f: Seq<(String, Value)>, path: Seq<char>, key: Seq<char>) -> Result<
    i32,
    Seq<char>,
> {
    match spec_get(f, key) {
        Some(Value::Int(i)) => if i32::MIN as i64 <= i && i <= i32::MAX as i64 {
            Ok(i as i32)
        } else {
            Err(spec_child(path, key))
        },
        _ => Err(spec_child(path, key)),
    }
}

pub fn req_str(fields: &Vec<(String, Value)>, path: &str, key: &str) -> (r: Result<
    String,
    DecodeError,
>)
    ensures
        match r {
            Ok(s) => spec_req_str(fields@, path@, key@) matches Ok(sv) && sv == s@,
            Err(e) => spec_req_str(fields@, path@, key@) matches Err(p) && p == e.path@,
        },
{
    match obj_get(fields, key) {
        Some(Value::Str(s)) => Ok(s.clone()),
        _ => Err(DecodeError { path: child_path(path, key) }),
    }
}

pub fn opt_str(fields: &Vec<(String, Value)>, path: &str, key: &str) -> (r: Result<
    Option<String>,
    DecodeError,
>)
    ensures
        match r {
            Ok(s) => spec_opt_str(fields@, path@, key@) matches Ok(sv) && sv == s.deep_view(),
            Err(e) => spec_opt_str(fields@, path@, key@) matches Err(p) && p == e.path@,
        },
{
    match obj_get(fields, key) {
        None => Ok(None),
        Some(Value::Null) => Ok(None),
        Some(Value::Str(s)) => Ok(Some(s.clone())),
        Some(_) => Err(DecodeError { path: child_path(path, key) }),
    }
}

pub fn req_bool(fields: &Vec<(String, Value)>, path: &str, key: &str) -> (r: Result<
    bool,
    DecodeError,
>)
    ensures
        match r {
            Ok(b) => spec_req_bool(fields@, path@, key@) matches Ok(bv) && bv == b,
            Err(e) => spec_req_bool(fields@, path@, key@) matches Err(p) && p == e.path@,
        },
{
    match obj_get(fields, key) {
        Some(Value::Bool(b)) => Ok(*b),
        _ => Err(DecodeError { path: child_path(path, key) }),
    }
}

pub fn opt_bool(fields: &Vec<(String, Value)>, path: &str, key: &str) -> (r: Result<
    Option<bool>,
    DecodeError,
>)
    ensures
        match r {
            Ok(b) => spec_opt_bool(fields@, path@, key@) matches Ok(bv) && bv == b,
            Err(e) => spec_opt_bool(fields@, path@, key@) matches Err(p) && p == e.path@,
        },
{
    match obj_get(fields, key) {
        None => Ok(None),
        Some(Value::Null) => Ok(None),
        Some(Value::Bool(b)) => Ok(Some(*b)),
        Some(_) => Err(DecodeError { path: child_path(path, key) }),
    }
}

pub fn req_i64(fields: &Vec<(String, Value)>, path: &str, key: &str) -> (r: Result<
    i64,
    DecodeError,
>)
    ensures
        match r {
            Ok(i) => spec_req_i64(fields@, path@, key@) matches Ok(iv) && iv == i,
            Err(e) => spec_req_i64(fields@, path@, key@) matches Err(p) && p == e.path@,
        },
{
    match obj_get(fields, key) {
        Some(Value::Int(i)) => Ok(*i),
        _ => Err(DecodeError { path: child_path(path, key) }),
    }
}

pub fn opt_i64(fields: &Vec<(String, Value)>, path: &str, key: &str) -> (r: Result<
    Option<i64>,
    DecodeError,
>)
    ensures
        match r {
            Ok(i) => spec_opt_i64(fields@, path@, key@) matches Ok(iv) && iv == i,
            Err(e) => spec_opt_i64(fields@, path@, key@) matches Err(p) && p == e.path@,
        },
{
    match obj_get(fields, key) {
        None => Ok(None),
        Some(Value::Null) => Ok(None),
        Some(Value::Int(i)) => Ok(Some(*i)),
        Some(_) => Err(DecodeError { path: child_path(path, key) }),
    }
}

pub fn req_i32(fields: &Vec<(String, Value)>, path: &str, key: &str) -> (r: Result<
    i32,
    DecodeError,
>)
    ensures
        match r {
            Ok(i) => spec_req_i32(fields@, path@, key@) matches Ok(iv) && iv == i,
            Err(e) => spec_req_i32(fields@, path@, key@) matches Err(p) && p == e.path@,
        },
{
    match obj_get(fields, key) {
        Some(Value::Int(i)) => {
            let n = *i;
            if i32::MIN as i64 <= n && n <= i32::MAX as i64 {
                Ok(n as i32)
            } else {
                Err(DecodeError { path: child_path(path, key) })
            }
        },
        _ => Err(DecodeError { path: child_path(path, key) }),
    }
}

/// What one artwork entry decodes to.
pub open spec fn spec_decode_image(v: Value, path: Seq<char>) -> Result<ImageV, Seq<char>> {
    match v {
        Value::Obj(fields) => {
            let f = fields@;
            match spec_req_str(f, path, "url"@) {
                Err(e) => Err(e),
                Ok(url) => match spec_opt_str(f, path, "size"@) {
                    Err(e) => Err(e),
                    Ok(size) => match spec_opt_i64(f, path, "width"@) {
                        Err(e) => Err(e),
                        Ok(width) => match spec_opt_i64(f, path, "height"@) {
                            Err(e) => Err(e),
                            Ok(height) => Ok(ImageV { url, size, width, height }),
                        },
                    },
                },
            }
        },
        _ => Err(path),
    }
}

/// Decode one artwork entry.
pub fn decode_image(v: Value, path: &str) -> (r: Result<Image, DecodeError>)
    ensures
        match r {
            Ok(x) => spec_decode_image(v, path@) matches Ok(xv) && xv == x.deep_view(),
            Err(e) => spec_decode_image(v, path@) matches Err(p) && p == e.path@,
        },
{
    let fields = match v {
        Value::Obj(f) => f,
        _ => {
            return Err(DecodeError { path: path.to_owned() });
        },
    };
    let url = match req_str(&fields, path, "url") {
        Ok(s) => s,
        Err(e) => {
            return Err(e);
        },
    };
    let size = match opt_str(&fields, path, "size") {
        Ok(s) => s,
        Err(e) => {
            return Err(e);
        },
    };
    let width = match opt_i64(&fields, path, "width") {
        Ok(i) => i,
        Err(e) => {
            return Err(e);
        },
    };
    let height = match opt_i64(&fields, path, "height") {
        Ok(i) => i,
        Err(e) => {
            return Err(e);
        },
    };
    Ok(Image { url, size, width, height })
}

/// What a list of artwork entries decodes to; one bad element fails the list.
pub open spec fn spec_decode_images(s: Seq<Value>, path: Seq<char>) -> Result<
    Seq<ImageV>,
    Seq<char>,
>
    decreases s.len(),
{
    if s.len() == 0 {
        Ok(Seq::empty())
    } else {
        match spec_decode_image(s[0], path) {
            Err(e) => Err(e),
            Ok(x) => match spec_decode_images(s.drop_first(), path) {
                Err(e) => Err(e),
                Ok(rest) => Ok(seq![x] + rest),
            },
        }
    }
}

/// Decode a list of artwork entries.
pub fn decode_images(items: Vec<Value>, path: &str) -> (r: Result<Vec<Image>, DecodeError>)
    ensures
        match r {
            Ok(xs) => spec_decode_images(items@, path@) matches Ok(vs) && vs == xs.deep_view(),
            Err(e) => spec_decode_images(items@, path@) matches Err(p) && p == e.path@,
        },
{
    let ghost orig: Seq<Value> = items@;
    let mut rest = items;
    let mut out: Vec<Image> = Vec::new();
    proof {
        match spec_decode_images(rest@, path@) {
            Ok(tail) => {
                assert(Seq::<ImageV>::empty() + tail =~= tail);
            },
            Err(_) => {},
        }
    }
    while rest.len() > 0
        invariant
            orig == items@,
            match spec_decode_images(rest@, path@) {
                Ok(tail) => spec_decode_images(orig, path@) matches Ok(whole) && whole
                    == out.deep_view() + tail,
                Err(p) => spec_decode_images(orig, path@) matches Err(q) && q == p,
            },
        decreases rest@.len(),
    {
        let ghost before: Seq<Value> = rest@;
        let el = rest.remove(0);
        proof {
            assert(rest@ =~= before.drop_first());
        }
        match decode_image(el, path) {
            Err(e) => {
                proof {
                    assert(spec_decode_images(before, path@) matches Err(p) && p == e.path@);
                }
                return Err(e);
            },
            Ok(x) => {
                let ghost out_before: Seq<ImageV> = out.deep_view();
                out.push(x);
                proof {
                    assert(out.deep_view() =~= out_before.push(x.deep_view()));
                    match spec_decode_images(rest@, path@) {
                        Ok(tail) => {
                            assert(out_before + (seq![x.deep_view()] + tail) =~= out.deep_view()
                                + tail);
                        },
                        Err(_) => {},
                    }
                }
            },
        }
    }
    Ok(out)
}

/// What one artist entry decodes to.
pub open spec fn spec_decode_artist(v: Value, path: Seq<char>) -> Result<ArtistV, Seq<char>> {
    match v {
        Value::Obj(fields) => {
            let f = fields@;
            match spec_req_str(f, path, "uri"@) {
                Err(e) => Err(e),
                Ok(uri) => match spec_req_str(f, path, "name"@) {
                    Err(e) => Err(e),
                    Ok(name) => match spec_opt_str(f, path, "url"@) {
                        Err(e) => Err(e),
                        Ok(url) => Ok(ArtistV { uri, name, url }),
                    },
                },
            }
        },
        _ => Err(path),
    }
}

/// Decode one artist entry.
pub fn decode_artist(v: Value, path: &str) -> (r: Result<Artist, DecodeError>)
    ensures
        match r {
            Ok(x) => spec_decode_artist(v, path@) matches Ok(xv) && xv == x.deep_view(),
            Err(e) => spec_decode_artist(v, path@) matches Err(p) && p == e.path@,
        },
{
    let fields = match v {
        Value::Obj(f) => f,
        _ => {
            return Err(DecodeError { path: path.to_owned() });
        },
    };
    let uri = match req_str(&fields, path, "uri") {
        Ok(s) => s,
        Err(e) => {
            return Err(e);
        },
    };
    let name = match req_str(&fields, path, "name") {
        Ok(s) => s,
        Err(e) => {
            return Err(e);
        },
    };
    let url = match opt_str(&fields, path, "url") {
        Ok(s) => s,
        Err(e) => {
            return Err(e);
        },
    };
    Ok(Artist { uri, name, url })
}

/// What a list of artist entries decodes to; one bad element fails the list.
pub open spec fn spec_decode_artists(s: Seq<Value>, path: Seq<char>) -> Result<
    Seq<ArtistV>,
    Seq<char>,
>
    decreases s.len(),
{
    if s.len() == 0 {
        Ok(Seq::empty())
    } else {
        match spec_decode_artist(s[0], path) {
            Err(e) => Err(e),
            Ok(x) => match spec_decode_artists(s.drop_first(), path) {
                Err(e) => Err(e),
                Ok(rest) => Ok(seq![x] + rest),
            },
        }
    }
}

/// Decode a list of artist entries.
pub fn decode_artists(items: Vec<Value>, path: &str) -> (r: Result<Vec<Artist>, DecodeError>)
    ensures
        match r {
            Ok(xs) => spec_decode_artists(items@, path@) matches Ok(vs) && vs == xs.deep_view(),
            Err(e) => spec_decode_artists(items@, path@) matches Err(p) && p == e.path@,
        },
{
    let ghost orig: Seq<Value> = items@;
    let mut rest = items;
    let mut out: Vec<Artist> = Vec::new();
    proof {
        match spec_decode_artists(rest@, path@) {
            Ok(tail) => {
                assert(Seq::<ArtistV>::empty() + tail =~= tail);
            },
            Err(_) => {},
        }
    }
    while rest.len() > 0
        invariant
            orig == items@,
            match spec_decode_artists(rest@, path@) {
                Ok(tail) => spec_decode_artists(orig, path@) matches Ok(whole) && whole
                    == out.deep_view() + tail,
                Err(p) => spec_decode_artists(orig, path@) matches Err(q) && q == p,
            },
        decreases rest@.len(),
    {
        let ghost before: Seq<Value> = rest@;
        let el = rest.remove(0);
        proof {
            assert(rest@ =~= before.drop_first());
        }
        match decode_artist(el, path) {
            Err(e) => {
                proof {
                    assert(spec_decode_artists(before, path@) matches Err(p) && p == e.path@);
                }
                return Err(e);
            },
            Ok(x) => {
                let ghost out_before: Seq<ArtistV> = out.deep_view();
                out.push(x);
                proof {
                    assert(out.deep_view() =~= out_before.push(x.deep_view()));
                    match spec_decode_artists(rest@, path@) {
                        Ok(tail) => {
                            assert(out_before + (seq![x.deep_view()] + tail) =~= out.deep_view()
                                + tail);
                        },
                        Err(_) => {},
                    }
                }
            },
        }
    }
    Ok(out)
}

/// What an album decodes to.
pub open spec fn spec_decode_album(v: Value, path: Seq<char>) -> Result<AlbumV, Seq<char>> {
    match v {
        Value::Obj(fields) => {
            let f = fields@;
            match spec_req_str(f, path, "uri"@) {
                Err(e) => Err(e),
                Ok(uri) => match spec_req_str(f, path, "name"@) {
                    Err(e) => Err(e),
                    Ok(name) => match spec_get(f, "images"@) {
                        Some(Value::Arr(items)) => match spec_decode_images(
                            items@,
                            spec_child(path, "images"@),
                        ) {
                            Err(e) => Err(e),
                            Ok(images) => Ok(AlbumV { uri, name, images }),
                        },
                        _ => Err(spec_child(path, "images"@)),
                    },
                },
            }
        },
        _ => Err(path),
    }
}

/// Decode an album.
pub fn decode_album(v: Value, path: &str) -> (r: Result<Album, DecodeError>)
    ensures
        match r {
            Ok(x) => spec_decode_album(v, path@) matches Ok(xv) && xv == x.deep_view(),
            Err(e) => spec_decode_album(v, path@) matches Err(p) && p == e.path@,
        },
{
    let mut fields = match v {
        Value::Obj(f) => f,
        _ => {
            return Err(DecodeError { path: path.to_owned() });
        },
    };
    let uri = match req_str(&fields, path, "uri") {
        Ok(s) => s,
        Err(e) => {
            return Err(e);
        },
    };
    let name = match req_str(&fields, path, "name") {
        Ok(s) => s,
        Err(e) => {
            return Err(e);
        },
    };
    let images = match take_field(&mut fields, "images") {
        Some(Value::Arr(items)) => {
            let sub = child_path(path, "images");
            match decode_images(items, sub.as_str()) {
                Ok(xs) => xs,
                Err(e) => {
                    return Err(e);
                },
            }
        },
        _ => {
            return Err(DecodeError { path: child_path(path, "images") });
        },
    };
    Ok(Album { uri, name, images })
}

/// What the `ready` / `not_ready` payload decodes to.
pub open spec fn spec_decode_player(v: Value, path: Seq<char>) -> Result<PlayerV, Seq<char>> {
    match v {
        Value::Obj(fields) => match spec_req_str(fields@, path, "device_id"@) {
            Ok(d) => Ok(PlayerV { device_id: d }),
            Err(e) => Err(e),
        },
        _ => Err(path),
    }
}

/// Decode the `ready` / `not_ready` payload.
pub fn decode_player(v: Value, path: &str) -> (r: Result<Player, DecodeError>)
    ensures
        match r {
            Ok(p) => spec_decode_player(v, path@) matches Ok(pv) && pv == p.deep_view(),
            Err(e) => spec_decode_player(v, path@) matches Err(pe) && pe == e.path@,
        },
{
    let fields = match v {
        Value::Obj(f) => f,
        _ => {
            return Err(DecodeError { path: path.to_owned() });
        },
    };
    let device_id = match req_str(&fields, path, "device_id") {
        Ok(s) => s,
        Err(e) => {
            return Err(e);
        },
    };
    Ok(Player { device_id })
}

/// What an error-kind payload decodes to.
pub open spec fn spec_decode_engine_error(v: Value, path: Seq<char>) -> Result<
    EngineErrorV,
    Seq<char>,
> {
    match v {
        Value::Obj(fields) => match spec_req_str(fields@, path, "message"@) {
            Ok(m) => Ok(EngineErrorV { message: m }),
            Err(e) => Err(e),
        },
        _ => Err(path),
    }
}

/// Decode the payload of the four error notification kinds.
pub fn decode_engine_error(v: Value, path: &str) -> (r: Result<EngineError, DecodeError>)
    ensures
        match r {
            Ok(p) => spec_decode_engine_error(v, path@) matches Ok(pv) && pv == p.deep_view(),
            Err(e) => spec_decode_engine_error(v, path@) matches Err(pe) && pe == e.path@,
        },
{
    let fields = match v {
        Value::Obj(f) => f,
        _ => {
            return Err(DecodeError { path: path.to_owned() });
        },
    };
    let message = match req_str(&fields, path, "message") {
        Ok(s) => s,
        Err(e) => {
            return Err(e);
        },
    };
    Ok(EngineError { message })
}

/// The track kind a wire string stands for.
pub open spec fn spec_track_type_of(s: Seq<char>) -> Option<TrackType> {
    if s == "track"@ {
        Some(TrackType::Track)
    } else if s == "episode"@ {
        Some(TrackType::Episode)
    } else if s == "ad"@ {
        Some(TrackType::Ad)
    } else {
        None
    }
}

/// The media kind a wire string stands for.
pub open spec fn spec_media_type_of(s: Seq<char>) -> Option<MediaType> {
    if s == "audio"@ {
        Some(MediaType::Audio)
    } else if s == "video"@ {
        Some(MediaType::Video)
    } else {
        None
    }
}

/// The raw track-kind field: some payload revisions write `track_type`,
/// others `type`; the first present wins.
pub open spec fn spec_raw_track_type(f: Seq<(String, Value)>) -> Option<Value> {
    if spec_get(f, "track_type"@) is Some {
        spec_get(f, "track_type"@)
    } else {
        spec_get(f, "type"@)
    }
}

/// The required track-kind field.
pub open spec fn spec_req_track_type(f: Seq<(String, Value)>, path: Seq<char>) -> Result<
    TrackType,
    Seq<char>,
> {
    match spec_raw_track_type(f) {
        Some(Value::Str(s)) => match spec_track_type_of(s@) {
            Some(t) => Ok(t),
            None => Err(spec_child(path, "track_type"@)),
        },
        _ => Err(spec_child(path, "track_type"@)),
    }
}

/// The required media-kind field.
pub open spec fn spec_req_media_type(f: Seq<(String, Value)>, path: Seq<char>) -> Result<
    MediaType,
    Seq<char>,
> {
    match spec_get(f, "media_type"@) {
        Some(Value::Str(s)) => match spec_media_type_of(s@) {
            Some(t) => Ok(t),
            None => Err(spec_child(path, "media_type"@)),
        },
        _ => Err(spec_child(path, "media_type"@)),
    }
}

fn req_track_type(fields: &Vec<(String, Value)>, path: &str) -> (r: Result<TrackType, DecodeError>)
    ensures
        match r {
            Ok(t) => spec_req_track_type(fields@, path@) matches Ok(tv) && tv == t,
            Err(e) => spec_req_track_type(fields@, path@) matches Err(p) && p == e.path@,
        },
{
    let raw = match obj_get(fields, "track_type") {
        Some(v) => Some(v),
        None => obj_get(fields, "type"),
    };
    match raw {
        Some(Value::Str(s)) => {
            if str_eq(s.as_str(), "track") {
                Ok(TrackType::Track)
            } else if str_eq(s.as_str(), "episode") {
                Ok(TrackType::Episode)
            } else if str_eq(s.as_str(), "ad") {
                Ok(TrackType::Ad)
            } else {
                Err(DecodeError { path: child_path(path, "track_type") })
            }
        },
        _ => Err(DecodeError { path: child_path(path, "track_type") }),
    }
}

fn req_media_type(fields: &Vec<(String, Value)>, path: &str) -> (r: Result<MediaType, DecodeError>)
    ensures
        match r {
            Ok(t) => spec_req_media_type(fields@, path@) matches Ok(tv) && tv == t,
            Err(e) => spec_req_media_type(fields@, path@) matches Err(p) && p == e.path@,
        },
{
    match obj_get(fields, "media_type") {
        Some(Value::Str(s)) => {
            if str_eq(s.as_str(), "audio") {
                Ok(MediaType::Audio)
            } else if str_eq(s.as_str(), "video") {
                Ok(MediaType::Video)
            } else {
                Err(DecodeError { path: child_path(path, "media_type") })
            }
        },
        _ => Err(DecodeError { path: child_path(path, "media_type") }),
    }
}

/// What a relink record decodes to.
pub open spec fn spec_decode_linked_from(v: Value, path: Seq<char>) -> Result<
    LinkedFromV,
    Seq<char>,
> {
    match v {
        Value::Obj(fields) => {
            let f = fields@;
            match spec_opt_str(f, path, "uri"@) {
                Err(e) => Err(e),
                Ok(uri) => match spec_opt_str(f, path, "id"@) {
                    Err(e) => Err(e),
                    Ok(id) => Ok(LinkedFromV { uri, id }),
                },
            }
        },
        _ => Err(path),
    }
}

/// Decode a relink record.
pub fn decode_linked_from(v: Value, path: &str) -> (r: Result<LinkedFrom, DecodeError>)
    ensures
        match r {
            Ok(x) => spec_decode_linked_from(v, path@) matches Ok(xv) && xv == x.deep_view(),
            Err(e) => spec_decode_linked_from(v, path@) matches Err(p) && p == e.path@,
        },
{
    let fields = match v {
        Value::Obj(f) => f,
        _ => {
            return Err(DecodeError { path: path.to_owned() });
        },
    };
    let uri = match opt_str(&fields, path, "uri") {
        Ok(s) => s,
        Err(e) => {
            return Err(e);
        },
    };
    let id = match opt_str(&fields, path, "id") {
        Ok(s) => s,
        Err(e) => {
            return Err(e);
        },
    };
    Ok(LinkedFrom { uri, id })
}

/// What a track decodes to.
pub open spec fn spec_decode_track(v: Value, path: Seq<char>) -> Result<TrackV, Seq<char>> {
    match v {
        Value::Obj(fields) => {
            let f = fields@;
            match spec_req_str(f, path, "uri"@) {
                Err(e) => Err(e),
                Ok(uri) => match spec_opt_str(f, path, "id"@) {
                    Err(e) => Err(e),
                    Ok(id) => match spec_req_track_type(f, path) {
                        Err(e) => Err(e),
                        Ok(track_type) => match spec_req_media_type(f, path) {
                            Err(e) => Err(e),
                            Ok(media_type) => match spec_req_str(f, path, "name"@) {
                                Err(e) => Err(e),
                                Ok(name) => match spec_req_bool(f, path, "is_playable"@) {
                                    Err(e) => Err(e),
                                    Ok(is_playable) => match spec_get(f, "album"@) {
                                        Some(av) => match spec_decode_album(
                                            av,
                                            spec_child(path, "album"@),
                                        ) {
                                            Err(e) => Err(e),
                                            Ok(album) => match spec_get(f, "artists"@) {
                                                Some(Value::Arr(items)) => match spec_decode_artists(
                                                    items@,
                                                    spec_child(path, "artists"@),
                                                ) {
                                                    Err(e) => Err(e),
                                                    Ok(artists) => match spec_opt_linked_from(
                                                        f,
                                                        path,
                                                    ) {
                                                        Err(e) => Err(e),
                                                        Ok(linked_from) => Ok(
                                                            TrackV {
                                                                uri,
                                                                id,
                                                                track_type,
                                                                media_type,
                                                                name,
                                                                is_playable,
                                                                album,
                                                                artists,
                                                                linked_from,
                                                                has_metadata: spec_has_metadata(f),
                                                            },
                                                        ),
                                                    },
                                                },
                                                _ => Err(spec_child(path, "artists"@)),
                                            },
                                        },
                                        None => Err(spec_child(path, "album"@)),
                                    },
                                },
                            },
                        },
                    },
                },
            }
        },
        _ => Err(path),
    }
}

/// The optional relink field of a track.
pub open spec fn spec_opt_linked_from(f: Seq<(String, Value)>, path: Seq<char>) -> Result<
    Option<LinkedFromV>,
    Seq<char>,
> {
    match spec_get(f, "linked_from"@) {
        None => Ok(None),
        Some(Value::Null) => Ok(None),
        Some(v) => match spec_decode_linked_from(v, spec_child(path, "linked_from"@)) {
            Ok(l) => Ok(Some(l)),
            Err(e) => Err(e),
        },
    }
}

/// Whether a track carries an opaque metadata attachment.
pub open spec fn spec_has_metadata(f: Seq<(String, Value)>) -> bool {
    match spec_get(f, "metadata"@) {
        None => false,
        Some(Value::Null) => false,
        Some(_) => true,
    }
}

/// Decode a track.
///
/// The opaque `metadata` attachment is kept as the raw foreign value; only
/// its presence is promised.
pub fn decode_track(v: Value, path: &str) -> (r: Result<Track, DecodeError>)
    ensures
        match r {
            Ok(x) => spec_decode_track(v, path@) matches Ok(xv) && xv == x.deep_view(),
            Err(e) => spec_decode_track(v, path@) matches Err(p) && p == e.path@,
        },
{
    let mut fields = match v {
        Value::Obj(f) => f,
        _ => {
            return Err(DecodeError { path: path.to_owned() });
        },
    };
    let ghost f0: Seq<(String, Value)> = fields@;
    proof {
        reveal_strlit("album");
        reveal_strlit("artists");
        reveal_strlit("linked_from");
        reveal_strlit("metadata");
    }
    let uri = match req_str(&fields, path, "uri") {
        Ok(s) => s,
        Err(e) => {
            return Err(e);
        },
    };
    let id = match opt_str(&fields, path, "id") {
        Ok(s) => s,
        Err(e) => {
            return Err(e);
        },
    };
    let track_type = match req_track_type(&fields, path) {
        Ok(t) => t,
        Err(e) => {
            return Err(e);
        },
    };
    let media_type = match req_media_type(&fields, path) {
        Ok(t) => t,
        Err(e) => {
            return Err(e);
        },
    };
    let name = match req_str(&fields, path, "name") {
        Ok(s) => s,
        Err(e) => {
            return Err(e);
        },
    };
    let is_playable = match req_bool(&fields, path, "is_playable") {
        Ok(b) => b,
        Err(e) => {
            return Err(e);
        },
    };
    let album = match take_field(&mut fields, "album") {
        Some(av) => {
            let sub = child_path(path, "album");
            match decode_album(av, sub.as_str()) {
                Ok(a) => a,
                Err(e) => {
                    return Err(e);
                },
            }
        },
        None => {
            return Err(DecodeError { path: child_path(path, "album") });
        },
    };
    let artists = match take_field(&mut fields, "artists") {
        Some(Value::Arr(items)) => {
            let sub = child_path(path, "artists");
            match decode_artists(items, sub.as_str()) {
                Ok(a) => a,
                Err(e) => {
                    return Err(e);
                },
            }
        },
        _ => {
            return Err(DecodeError { path: child_path(path, "artists") });
        },
    };
    let linked_from = match take_field(&mut fields, "linked_from") {
        None => None,
        Some(Value::Null) => None,
        Some(lv) => {
            let sub = child_path(path, "linked_from");
            match decode_linked_from(lv, sub.as_str()) {
                Ok(l) => Some(l),
                Err(e) => {
                    return Err(e);
                },
            }
        },
    };
    let metadata = match take_field(&mut fields, "metadata") {
        None => None,
        Some(Value::Null) => None,
        Some(m) => Some(m),
    };
    Ok(Track { uri, id, track_type, media_type, name, is_playable, album, artists, linked_from, metadata })
}

/// What a list of tracks decodes to; one bad element fails the list.
pub open spec fn spec_decode_tracks(s: Seq<Value>, path: Seq<char>) -> Result<
    Seq<TrackV>,
    Seq<char>,
>
    decreases s.len(),
{
    if s.len() == 0 {
        Ok(Seq::empty())
    } else {
        match spec_decode_track(s[0], path) {
            Err(e) => Err(e),
            Ok(x) => match spec_decode_tracks(s.drop_first(), path) {
                Err(e) => Err(e),
                Ok(rest) => Ok(seq![x] + rest),
            },
        }
    }
}

/// Decode a list of tracks.
pub fn decode_tracks(items: Vec<Value>, path: &str) -> (r: Result<Vec<Track>, DecodeError>)
    ensures
        match r {
            Ok(xs) => spec_decode_tracks(items@, path@) matches Ok(vs) && vs == xs.deep_view(),
            Err(e) => spec_decode_tracks(items@, path@) matches Err(p) && p == e.path@,
        },
{
    let ghost orig: Seq<Value> = items@;
    let mut rest = items;
    let mut out: Vec<Track> = Vec::new();
    proof {
        match spec_decode_tracks(rest@, path@) {
            Ok(tail) => {
                assert(Seq::<TrackV>::empty() + tail =~= tail);
            },
            Err(_) => {},
        }
    }
    while rest.len() > 0
        invariant
            orig == items@,
            match spec_decode_tracks(rest@, path@) {
                Ok(tail) => spec_decode_tracks(orig, path@) matches Ok(whole) && whole
                    == out.deep_view() + tail,
                Err(p) => spec_decode_tracks(orig, path@) matches Err(q) && q == p,
            },
        decreases rest@.len(),
    {
        let ghost before: Seq<Value> = rest@;
        let el = rest.remove(0);
        proof {
            assert(rest@ =~= before.drop_first());
        }
        match decode_track(el, path) {
            Err(e) => {
                proof {
                    assert(spec_decode_tracks(before, path@) matches Err(p) && p == e.path@);
                }
                return Err(e);
            },
            Ok(x) => {
                let ghost out_before: Seq<TrackV> = out.deep_view();
                out.push(x);
                proof {
                    assert(out.deep_view() =~= out_before.push(x.deep_view()));
                    match spec_decode_tracks(rest@, path@) {
                        Ok(tail) => {
                            assert(out_before + (seq![x.deep_view()] + tail) =~= out.deep_view()
                                + tail);
                        },
                        Err(_) => {},
                    }
                }
            },
        }
    }
    Ok(out)
}

/// What a playback context decodes to.
pub open spec fn spec_decode_context(v: Value, path: Seq<char>) -> Result<ContextV, Seq<char>> {
    match v {
        Value::Obj(fields) => {
            let f = fields@;
            match spec_opt_str(f, path, "uri"@) {
                Err(e) => Err(e),
                Ok(uri) => match spec_get(f, "metadata"@) {
                    None => Ok(ContextV { uri, metadata: None }),
                    Some(Value::Null) => Ok(ContextV { uri, metadata: None }),
                    Some(Value::Obj(mf)) => match spec_opt_str(
                        mf@,
                        spec_child(path, "metadata"@),
                        "context_description"@,
                    ) {
                        Err(e) => Err(e),
                        Ok(d) => Ok(
                            ContextV {
                                uri,
                                metadata: Some(ContextMetadataV { context_description: d }),
                            },
                        ),
                    },
                    Some(_) => Err(spec_child(path, "metadata"@)),
                },
            }
        },
        _ => Err(path),
    }
}

/// Decode a playback context.
pub fn decode_context(v: &Value, path: &str) -> (r: Result<Context, DecodeError>)
    ensures
        match r {
            Ok(x) => spec_decode_context(*v, path@) matches Ok(xv) && xv == x.deep_view(),
            Err(e) => spec_decode_context(*v, path@) matches Err(p) && p == e.path@,
        },
{
    let fields = match v {
        Value::Obj(f) => f,
        _ => {
            return Err(DecodeError { path: path.to_owned() });
        },
    };
    let uri = match opt_str(fields, path, "uri") {
        Ok(s) => s,
        Err(e) => {
            return Err(e);
        },
    };
    let metadata = match obj_get(fields, "metadata") {
        None => None,
        Some(Value::Null) => None,
        Some(Value::Obj(mf)) => {
            let sub = child_path(path, "metadata");
            match opt_str(mf, sub.as_str(), "context_description") {
                Ok(d) => Some(ContextMetadata { context_description: d }),
                Err(e) => {
                    return Err(e);
                },
            }
        },
        Some(_) => {
            return Err(DecodeError { path: child_path(path, "metadata") });
        },
    };
    Ok(Context { uri, metadata })
}

/// What the forbidden-operations block decodes to.
pub open spec fn spec_decode_disallows(v: Value, path: Seq<char>) -> Result<Disallows, Seq<char>> {
    match v {
        Value::Obj(fields) => {
            let f = fields@;
            match spec_opt_bool(f, path, "pausing"@) {
                Err(e) => Err(e),
                Ok(pausing) => match spec_opt_bool(f, path, "peeking_next"@) {
                    Err(e) => Err(e),
                    Ok(peeking_next) => match spec_opt_bool(f, path, "peeking_prev"@) {
                        Err(e) => Err(e),
                        Ok(peeking_prev) => match spec_opt_bool(f, path, "resuming"@) {
                            Err(e) => Err(e),
                            Ok(resuming) => match spec_opt_bool(f, path, "seeking"@) {
                                Err(e) => Err(e),
                                Ok(seeking) => match spec_opt_bool(f, path, "skipping_next"@) {
                                    Err(e) => Err(e),
                                    Ok(skipping_next) => match spec_opt_bool(
                                        f,
                                        path,
                                        "skipping_prev"@,
                                    ) {
                                        Err(e) => Err(e),
                                        Ok(skipping_prev) => Ok(
                                            Disallows {
                                                pausing,
                                                peeking_next,
                                                peeking_prev,
                                                resuming,
                                                seeking,
                                                skipping_next,
                                                skipping_prev,
                                            },
                                        ),
                                    },
                                },
                            },
                        },
                    },
                },
            }
        },
        _ => Err(path),
    }
}

/// Decode the forbidden-operations block.
pub fn decode_disallows(v: &Value, path: &str) -> (r: Result<Disallows, DecodeError>)
    ensures
        match r {
            Ok(x) => spec_decode_disallows(*v, path@) matches Ok(xv) && xv == x,
            Err(e) => spec_decode_disallows(*v, path@) matches Err(p) && p == e.path@,
        },
{
    let fields = match v {
        Value::Obj(f) => f,
        _ => {
            return Err(DecodeError { path: path.to_owned() });
        },
    };
    let pausing = match opt_bool(fields, path, "pausing") {
        Ok(b) => b,
        Err(e) => {
            return Err(e);
        },
    };
    let peeking_next = match opt_bool(fields, path, "peeking_next") {
        Ok(b) => b,
        Err(e) => {
            return Err(e);
        },
    };
    let peeking_prev = match opt_bool(fields, path, "peeking_prev") {
        Ok(b) => b,
        Err(e) => {
            return Err(e);
        },
    };
    let resuming = match opt_bool(fields, path, "resuming") {
        Ok(b) => b,
        Err(e) => {
            return Err(e);
        },
    };
    let seeking = match opt_bool(fields, path, "seeking") {
        Ok(b) => b,
        Err(e) => {
            return Err(e);
        },
    };
    let skipping_next = match opt_bool(fields, path, "skipping_next") {
        Ok(b) => b,
        Err(e) => {
            return Err(e);
        },
    };
    let skipping_prev = match opt_bool(fields, path, "skipping_prev") {
        Ok(b) => b,
        Err(e) => {
            return Err(e);
        },
    };
    Ok(Disallows {
        pausing,
        peeking_next,
        peeking_prev,
        resuming,
        seeking,
        skipping_next,
        skipping_prev,
    })
}

/// What the playback window decodes to.
pub open spec fn spec_decode_track_window(v: Value, path: Seq<char>) -> Result<
    TrackWindowV,
    Seq<char>,
> {
    match v {
        Value::Obj(fields) => {
            let f = fields@;
            match spec_get(f, "current_track"@) {
                None => Err(spec_child(path, "current_track"@)),
                Some(cv) => match spec_decode_track(cv, spec_child(path, "current_track"@)) {
                    Err(e) => Err(e),
                    Ok(current_track) => match spec_get(f, "previous_tracks"@) {
                        Some(Value::Arr(pv)) => match spec_decode_tracks(
                            pv@,
                            spec_child(path, "previous_tracks"@),
                        ) {
                            Err(e) => Err(e),
                            Ok(previous_tracks) => match spec_get(f, "next_tracks"@) {
                                Some(Value::Arr(nv)) => match spec_decode_tracks(
                                    nv@,
                                    spec_child(path, "next_tracks"@),
                                ) {
                                    Err(e) => Err(e),
                                    Ok(next_tracks) => Ok(
                                        TrackWindowV { current_track, previous_tracks, next_tracks },
                                    ),
                                },
                                _ => Err(spec_child(path, "next_tracks"@)),
                            },
                        },
                        _ => Err(spec_child(path, "previous_tracks"@)),
                    },
                },
            }
        },
        _ => Err(path),
    }
}

/// Decode the playback window.
pub fn decode_track_window(v: Value, path: &str) -> (r: Result<TrackWindow, DecodeError>)
    ensures
        match r {
            Ok(x) => spec_decode_track_window(v, path@) matches Ok(xv) && xv == x.deep_view(),
            Err(e) => spec_decode_track_window(v, path@) matches Err(p) && p == e.path@,
        },
{
    let mut fields = match v {
        Value::Obj(f) => f,
        _ => {
            return Err(DecodeError { path: path.to_owned() });
        },
    };
    proof {
        reveal_strlit("current_track");
        reveal_strlit("previous_tracks");
        reveal_strlit("next_tracks");
    }
    let current_track = match take_field(&mut fields, "current_track") {
        Some(cv) => {
            let sub = child_path(path, "current_track");
            match decode_track(cv, sub.as_str()) {
                Ok(t) => t,
                Err(e) => {
                    return Err(e);
                },
            }
        },
        None => {
            return Err(DecodeError { path: child_path(path, "current_track") });
        },
    };
    let previous_tracks = match take_field(&mut fields, "previous_tracks") {
        Some(Value::Arr(items)) => {
            let sub = child_path(path, "previous_tracks");
            match decode_tracks(items, sub.as_str()) {
                Ok(t) => t,
                Err(e) => {
                    return Err(e);
                },
            }
        },
        _ => {
            return Err(DecodeError { path: child_path(path, "previous_tracks") });
        },
    };
    let next_tracks = match take_field(&mut fields, "next_tracks") {
        Some(Value::Arr(items)) => {
            let sub = child_path(path, "next_tracks");
            match decode_tracks(items, sub.as_str()) {
                Ok(t) => t,
                Err(e) => {
                    return Err(e);
                },
            }
        },
        _ => {
            return Err(DecodeError { path: child_path(path, "next_tracks") });
        },
    };
    Ok(TrackWindow { current_track, previous_tracks, next_tracks })
}

/// The required repeat-mode field: 0 is off, 1 repeats the context, 2 the track.
pub open spec fn spec_req_repeat_mode(f: Seq<(String, Value)>, path: Seq<char>) -> Result<
    RepeatMode,
    Seq<char>,
> {
    match spec_get(f, "repeat_mode"@) {
        Some(Value::Int(i)) => if i == 0 {
            Ok(RepeatMode::Off)
        } else if i == 1 {
            Ok(RepeatMode::Context)
        } else if i == 2 {
            Ok(RepeatMode::Track)
        } else {
            Err(spec_child(path, "repeat_mode"@))
        },
        _ => Err(spec_child(path, "repeat_mode"@)),
    }
}

fn req_repeat_mode(fields: &Vec<(String, Value)>, path: &str) -> (r: Result<
    RepeatMode,
    DecodeError,
>)
    ensures
        match r {
            Ok(m) => spec_req_repeat_mode(fields@, path@) matches Ok(mv) && mv == m,
            Err(e) => spec_req_repeat_mode(fields@, path@) matches Err(p) && p == e.path@,
        },
{
    match obj_get(fields, "repeat_mode") {
        Some(Value::Int(i)) => {
            let n = *i;
            if n == 0 {
                Ok(RepeatMode::Off)
            } else if n == 1 {
                Ok(RepeatMode::Context)
            } else if n == 2 {
                Ok(RepeatMode::Track)
            } else {
                Err(DecodeError { path: child_path(path, "repeat_mode") })
            }
        },
        _ => Err(DecodeError { path: child_path(path, "repeat_mode") }),
    }
}

/// What the on-demand state query's resolution decodes to.
pub open spec fn spec_decode_playback_state(v: Value, path: Seq<char>) -> Result<
    PlaybackStateV,
    Seq<char>,
> {
    match v {
        Value::Obj(fields) => {
            let f = fields@;
            match spec_get(f, "context"@) {
                None => Err(spec_child(path, "context"@)),
                Some(cv) => match spec_decode_context(cv, spec_child(path, "context"@)) {
                    Err(e) => Err(e),
                    Ok(context) => match spec_get(f, "disallows"@) {
                        None => Err(spec_child(path, "disallows"@)),
                        Some(dv) => match spec_decode_disallows(dv, spec_child(path, "disallows"@)) {
                            Err(e) => Err(e),
                            Ok(disallows) => match spec_req_bool(f, path, "paused"@) {
                                Err(e) => Err(e),
                                Ok(paused) => match spec_req_i32(f, path, "position"@) {
                                    Err(e) => Err(e),
                                    Ok(position) => match spec_req_repeat_mode(f, path) {
                                        Err(e) => Err(e),
                                        Ok(repeat_mode) => match spec_req_bool(f, path, "shuffle"@) {
                                            Err(e) => Err(e),
                                            Ok(shuffle) => match spec_get(f, "track_window"@) {
                                                None => Err(spec_child(path, "track_window"@)),
                                                Some(wv) => match spec_decode_track_window(
                                                    wv,
                                                    spec_child(path, "track_window"@),
                                                ) {
                                                    Err(e) => Err(e),
                                                    Ok(track_window) => Ok(
                                                        PlaybackStateV {
                                                            context,
                                                            disallows,
                                                            paused,
                                                            position,
                                                            repeat_mode,
                                                            shuffle,
                                                            track_window,
                                                        },
                                                    ),
                                                },
                                            },
                                        },
                                    },
                                },
                            },
                        },
                    },
                },
            }
        },
        _ => Err(path),
    }
}

/// Decode the record the on-demand state query resolves to.
pub fn decode_playback_state(v: Value, path: &str) -> (r: Result<PlaybackState, DecodeError>)
    ensures
        match r {
            Ok(x) => spec_decode_playback_state(v, path@) matches Ok(xv) && xv == x.deep_view(),
            Err(e) => spec_decode_playback_state(v, path@) matches Err(p) && p == e.path@,
        },
{
    let mut fields = match v {
        Value::Obj(f) => f,
        _ => {
            return Err(DecodeError { path: path.to_owned() });
        },
    };
    let context = match obj_get(&fields, "context") {
        Some(cv) => {
            let sub = child_path(path, "context");
            match decode_context(cv, sub.as_str()) {
                Ok(c) => c,
                Err(e) => {
                    return Err(e);
                },
            }
        },
        None => {
            return Err(DecodeError { path: child_path(path, "context") });
        },
    };
    let disallows = match obj_get(&fields, "disallows") {
        Some(dv) => {
            let sub = child_path(path, "disallows");
            match decode_disallows(dv, sub.as_str()) {
                Ok(d) => d,
                Err(e) => {
                    return Err(e);
                },
            }
        },
        None => {
            return Err(DecodeError { path: child_path(path, "disallows") });
        },
    };
    let paused = match req_bool(&fields, path, "paused") {
        Ok(b) => b,
        Err(e) => {
            return Err(e);
        },
    };
    let position = match req_i32(&fields, path, "position") {
        Ok(i) => i,
        Err(e) => {
            return Err(e);
        },
    };
    let repeat_mode = match req_repeat_mode(&fields, path) {
        Ok(m) => m,
        Err(e) => {
            return Err(e);
        },
    };
    let shuffle = match req_bool(&fields, path, "shuffle") {
        Ok(b) => b,
        Err(e) => {
            return Err(e);
        },
    };
    let track_window = match take_field(&mut fields, "track_window") {
        Some(wv) => {
            let sub = child_path(path, "track_window");
            match decode_track_window(wv, sub.as_str()) {
                Ok(w) => w,
                Err(e) => {
                    return Err(e);
                },
            }
        },
        None => {
            return Err(DecodeError { path: child_path(path, "track_window") });
        },
    };
    Ok(PlaybackState { context, disallows, paused, position, repeat_mode, shuffle, track_window })
}

/// What a list of plain strings decodes to; one bad element fails the list.
pub open spec fn spec_decode_strings(s: Seq<Value>, path: Seq<char>) -> Result<
    Seq<Seq<char>>,
    Seq<char>,
>
    decreases s.len(),
{
    if s.len() == 0 {
        Ok(Seq::empty())
    } else {
        match s[0] {
            Value::Str(st) => match spec_decode_strings(s.drop_first(), path) {
                Err(e) => Err(e),
                Ok(rest) => Ok(seq![st@] + rest),
            },
            _ => Err(path),
        }
    }
}

/// Decode a list of plain strings.
pub fn decode_strings(items: &Vec<Value>, path: &str) -> (r: Result<Vec<String>, DecodeError>)
    ensures
        match r {
            Ok(xs) => spec_decode_strings(items@, path@) matches Ok(vs) && vs == xs.deep_view(),
            Err(e) => spec_decode_strings(items@, path@) matches Err(p) && p == e.path@,
        },
{
    let mut out: Vec<String> = Vec::new();
    let mut i: usize = 0;
    proof {
        assert(items@.skip(0) =~= items@);
        match spec_decode_strings(items@, path@) {
            Ok(tail) => {
                assert(Seq::<Seq<char>>::empty() + tail =~= tail);
            },
            Err(_) => {},
        }
    }
    while i < items.len()
        invariant
            i <= items@.len(),
            match spec_decode_strings(items@.skip(i as int), path@) {
                Ok(tail) => spec_decode_strings(items@, path@) matches Ok(whole) && whole
                    == out.deep_view() + tail,
                Err(p) => spec_decode_strings(items@, path@) matches Err(q) && q == p,
            },
        decreases items@.len() - i,
    {
        proof {
            assert(items@.skip(i as int).drop_first() =~= items@.skip(i as int + 1));
        }
        match &items[i] {
            Value::Str(st) => {
                let ghost out_before: Seq<Seq<char>> = out.deep_view();
                out.push(st.clone());
                proof {
                    assert(out.deep_view() =~= out_before.push(st@));
                    match spec_decode_strings(items@.skip(i as int + 1), path@) {
                        Ok(tail) => {
                            assert(out_before + (seq![st@] + tail) =~= out.deep_view() + tail);
                        },
                        Err(_) => {},
                    }
                }
            },
            _ => {
                return Err(DecodeError { path: path.to_owned() });
            },
        }
        i = i + 1;
    }
    proof {
        assert(items@.skip(i as int).len() == 0);
    }
    Ok(out)
}

/// An optional list-of-strings field: absent or null reads as the empty list.
pub open spec fn spec_opt_str_list(
    f: Seq<(String, Value)>,
    path: Seq<char>,
    key: Seq<char>,
) -> Result<Seq<Seq<char>>, Seq<char>> {
    match spec_get(f, key) {
        None => Ok(Seq::empty()),
        Some(Value::Null) => Ok(Seq::empty()),
        Some(Value::Arr(items)) => spec_decode_strings(items@, spec_child(path, key)),
        Some(_) => Err(spec_child(path, key)),
    }
}

pub fn opt_str_list(fields: &Vec<(String, Value)>, path: &str, key: &str) -> (r: Result<
    Vec<String>,
    DecodeError,
>)
    ensures
        match r {
            Ok(xs) => spec_opt_str_list(fields@, path@, key@) matches Ok(vs) && vs
                == xs.deep_view(),
            Err(e) => spec_opt_str_list(fields@, path@, key@) matches Err(p) && p == e.path@,
        },
{
    match obj_get(fields, key) {
        None => Ok(Vec::new()),
        Some(Value::Null) => Ok(Vec::new()),
        Some(Value::Arr(items)) => {
            let sub = child_path(path, key);
            decode_strings(items, sub.as_str())
        },
        Some(_) => Err(DecodeError { path: child_path(path, key) }),
    }
}

/// A required list-of-strings field.
pub open spec fn spec_req_str_list(
    f: Seq<(String, Value)>,
    path: Seq<char>,
    key: Seq<char>,
) -> Result<Seq<Seq<char>>, Seq<char>> {
    match spec_get(f, key) {
        Some(Value::Arr(items)) => spec_decode_strings(items@, spec_child(path, key)),
        _ => Err(spec_child(path, key)),
    }
}

pub fn req_str_list(fields: &Vec<(String, Value)>, path: &str, key: &str) -> (r: Result<
    Vec<String>,
    DecodeError,
>)
    ensures
        match r {
            Ok(xs) => spec_req_str_list(fields@, path@, key@) matches Ok(vs) && vs
                == xs.deep_view(),
            Err(e) => spec_req_str_list(fields@, path@, key@) matches Err(p) && p == e.path@,
        },
{
    match obj_get(fields, key) {
        Some(Value::Arr(items)) => {
            let sub = child_path(path, key);
            decode_strings(items, sub.as_str())
        },
        _ => Err(DecodeError { path: child_path(path, key) }),
    }
}

/// What the speed-setting block decodes to.
pub open spec fn spec_decode_speed_setting(v: Value, path: Seq<char>) -> Result<
    SpeedSetting,
    Seq<char>,
> {
    match v {
        Value::Obj(fields) => {
            let f = fields@;
            match spec_req_i64(f, path, "current"@) {
                Err(e) => Err(e),
                Ok(current) => match spec_req_bool(f, path, "restricted"@) {
                    Err(e) => Err(e),
                    Ok(restricted) => match spec_req_i64(f, path, "selected"@) {
                        Err(e) => Err(e),
                        Ok(selected) => Ok(SpeedSetting { current, restricted, selected }),
                    },
                },
            }
        },
        _ => Err(path),
    }
}

/// Decode the speed-setting block.
pub fn decode_speed_setting(v: &Value, path: &str) -> (r: Result<SpeedSetting, DecodeError>)
    ensures
        match r {
            Ok(x) => spec_decode_speed_setting(*v, path@) matches Ok(xv) && xv == x,
            Err(e) => spec_decode_speed_setting(*v, path@) matches Err(p) && p == e.path@,
        },
{
    let fields = match v {
        Value::Obj(f) => f,
        _ => {
            return Err(DecodeError { path: path.to_owned() });
        },
    };
    let current = match req_i64(fields, path, "current") {
        Ok(i) => i,
        Err(e) => {
            return Err(e);
        },
    };
    let restricted = match req_bool(fields, path, "restricted") {
        Ok(b) => b,
        Err(e) => {
            return Err(e);
        },
    };
    let selected = match req_i64(fields, path, "selected") {
        Ok(i) => i,
        Err(e) => {
            return Err(e);
        },
    };
    Ok(SpeedSetting { current, restricted, selected })
}

/// What the capability block decodes to.
pub open spec fn spec_decode_playback_features(v: Value, path: Seq<char>) -> Result<
    PlaybackFeaturesV,
    Seq<char>,
> {
    match v {
        Value::Obj(fields) => {
            let f = fields@;
            match spec_req_str(f, path, "hifi_status"@) {
                Err(e) => Err(e),
                Ok(hifi_status) => match spec_get(f, "playback_speed"@) {
                    None => Err(spec_child(path, "playback_speed"@)),
                    Some(sv) => match spec_decode_speed_setting(
                        sv,
                        spec_child(path, "playback_speed"@),
                    ) {
                        Err(e) => Err(e),
                        Ok(playback_speed) => match spec_req_str_list(f, path, "signal_ids"@) {
                            Err(e) => Err(e),
                            Ok(signal_ids) => Ok(
                                PlaybackFeaturesV { hifi_status, playback_speed, signal_ids },
                            ),
                        },
                    },
                },
            }
        },
        _ => Err(path),
    }
}

/// Decode the capability block.
pub fn decode_playback_features(v: &Value, path: &str) -> (r: Result<
    PlaybackFeatures,
    DecodeError,
>)
    ensures
        match r {
            Ok(x) => spec_decode_playback_features(*v, path@) matches Ok(xv) && xv
                == x.deep_view(),
            Err(e) => spec_decode_playback_features(*v, path@) matches Err(p) && p == e.path@,
        },
{
    let fields = match v {
        Value::Obj(f) => f,
        _ => {
            return Err(DecodeError { path: path.to_owned() });
        },
    };
    let hifi_status = match req_str(fields, path, "hifi_status") {
        Ok(s) => s,
        Err(e) => {
            return Err(e);
        },
    };
    let playback_speed = match obj_get(fields, "playback_speed") {
        Some(sv) => {
            let sub = child_path(path, "playback_speed");
            match decode_speed_setting(sv, sub.as_str()) {
                Ok(x) => x,
                Err(e) => {
                    return Err(e);
                },
            }
        },
        None => {
            return Err(DecodeError { path: child_path(path, "playback_speed") });
        },
    };
    let signal_ids = match req_str_list(fields, path, "signal_ids") {
        Ok(x) => x,
        Err(e) => {
            return Err(e);
        },
    };
    Ok(PlaybackFeatures { hifi_status, playback_speed, signal_ids })
}

/// What the per-operation reason lists decode to.
pub open spec fn spec_decode_restrictions(v: Value, path: Seq<char>) -> Result<
    RestrictionsV,
    Seq<char>,
> {
    match v {
        Value::Obj(fields) => {
            let f = fields@;
            match spec_opt_str_list(f, path, "disallow_peeking_next_reasons"@) {
                Err(e) => Err(e),
                Ok(pn) => match spec_opt_str_list(f, path, "disallow_peeking_prev_reasons"@) {
                    Err(e) => Err(e),
                    Ok(pp) => match spec_opt_str_list(f, path, "disallow_seeking_reasons"@) {
                        Err(e) => Err(e),
                        Ok(se) => match spec_opt_str_list(f, path, "disallow_skipping_next_reasons"@) {
                            Err(e) => Err(e),
                            Ok(sn) => match spec_opt_str_list(
                                f,
                                path,
                                "disallow_skipping_prev_reasons"@,
                            ) {
                                Err(e) => Err(e),
                                Ok(sp) => match spec_opt_str_list(
                                    f,
                                    path,
                                    "disallow_toggling_repeat_context_reasons"@,
                                ) {
                                    Err(e) => Err(e),
                                    Ok(tc) => match spec_opt_str_list(
                                        f,
                                        path,
                                        "disallow_toggling_repeat_track_reasons"@,
                                    ) {
                                        Err(e) => Err(e),
                                        Ok(tt) => match spec_opt_str_list(
                                            f,
                                            path,
                                            "disallow_toggling_shuffle_reasons"@,
                                        ) {
                                            Err(e) => Err(e),
                                            Ok(ts) => Ok(
                                                RestrictionsV {
                                                    disallow_peeking_next_reasons: pn,
                                                    disallow_peeking_prev_reasons: pp,
                                                    disallow_seeking_reasons: se,
                                                    disallow_skipping_next_reasons: sn,
                                                    disallow_skipping_prev_reasons: sp,
                                                    disallow_toggling_repeat_context_reasons: tc,
                                                    disallow_toggling_repeat_track_reasons: tt,
                                                    disallow_toggling_shuffle_reasons: ts,
                                                },
                                            ),
                                        },
                                    },
                                },
                            },
                        },
                    },
                },
            }
        },
        _ => Err(path),
    }
}

/// Decode the per-operation reason lists.
pub fn decode_restrictions(v: &Value, path: &str) -> (r: Result<Restrictions, DecodeError>)
    ensures
        match r {
            Ok(x) => spec_decode_restrictions(*v, path@) matches Ok(xv) && xv == x.deep_view(),
            Err(e) => spec_decode_restrictions(*v, path@) matches Err(p) && p == e.path@,
        },
{
    let fields = match v {
        Value::Obj(f) => f,
        _ => {
            return Err(DecodeError { path: path.to_owned() });
        },
    };
    let pn = match opt_str_list(fields, path, "disallow_peeking_next_reasons") {
        Ok(x) => x,
        Err(e) => {
            return Err(e);
        },
    };
    let pp = match opt_str_list(fields, path, "disallow_peeking_prev_reasons") {
        Ok(x) => x,
        Err(e) => {
            return Err(e);
        },
    };
    let se = match opt_str_list(fields, path, "disallow_seeking_reasons") {
        Ok(x) => x,
        Err(e) => {
            return Err(e);
        },
    };
    let sn = match opt_str_list(fields, path, "disallow_skipping_next_reasons") {
        Ok(x) => x,
        Err(e) => {
            return Err(e);
        },
    };
    let sp = match opt_str_list(fields, path, "disallow_skipping_prev_reasons") {
        Ok(x) => x,
        Err(e) => {
            return Err(e);
        },
    };
    let tc = match opt_str_list(fields, path, "disallow_toggling_repeat_context_reasons") {
        Ok(x) => x,
        Err(e) => {
            return Err(e);
        },
    };
    let tt = match opt_str_list(fields, path, "disallow_toggling_repeat_track_reasons") {
        Ok(x) => x,
        Err(e) => {
            return Err(e);
        },
    };
    let ts = match opt_str_list(fields, path, "disallow_toggling_shuffle_reasons") {
        Ok(x) => x,
        Err(e) => {
            return Err(e);
        },
    };
    Ok(Restrictions {
        disallow_peeking_next_reasons: pn,
        disallow_peeking_prev_reasons: pp,
        disallow_seeking_reasons: se,
        disallow_skipping_next_reasons: sn,
        disallow_skipping_prev_reasons: sp,
        disallow_toggling_repeat_context_reasons: tc,
        disallow_toggling_repeat_track_reasons: tt,
        disallow_toggling_shuffle_reasons: ts,
    })
}

/// What the `player_state_changed` payload decodes to.
pub open spec fn spec_decode_state_change(v: Value, path: Seq<char>) -> Result<
    PlaybackStateChangeV,
    Seq<char>,
> {
    match v {
        Value::Obj(fields) => {
            let f = fields@;
            match spec_get(f, "context"@) {
                None => Err(spec_child(path, "context"@)),
                Some(cv) => match spec_decode_context(cv, spec_child(path, "context"@)) {
                    Err(e) => Err(e),
                    Ok(context) => match spec_get(f, "disallows"@) {
                        None => Err(spec_child(path, "disallows"@)),
                        Some(dv) => match spec_decode_disallows(dv, spec_child(path, "disallows"@)) {
                            Err(e) => Err(e),
                            Ok(disallows) => match spec_req_bool(f, path, "paused"@) {
                                Err(e) => Err(e),
                                Ok(paused) => match spec_req_i32(f, path, "position"@) {
                                    Err(e) => Err(e),
                                    Ok(position) => match spec_req_repeat_mode(f, path) {
                                        Err(e) => Err(e),
                                        Ok(repeat_mode) => match spec_req_bool(f, path, "shuffle"@) {
                                            Err(e) => Err(e),
                                            Ok(shuffle) => match spec_req_i64(f, path, "duration"@) {
                                                Err(e) => Err(e),
                                                Ok(duration) => match spec_req_bool(
                                                    f,
                                                    path,
                                                    "loading"@,
                                                ) {
                                                    Err(e) => Err(e),
                                                    Ok(loading) => match spec_req_str(
                                                        f,
                                                        path,
                                                        "playback_id"@,
                                                    ) {
                                                        Err(e) => Err(e),
                                                        Ok(playback_id) => match spec_req_str(
                                                            f,
                                                            path,
                                                            "playback_quality"@,
                                                        ) {
                                                            Err(e) => Err(e),
                                                            Ok(playback_quality) => match spec_req_i64(
                                                                f,
                                                                path,
                                                                "playback_speed"@,
                                                            ) {
                                                                Err(e) => Err(e),
                                                                Ok(playback_speed) => match spec_get(
                                                                    f,
                                                                    "playback_features"@,
                                                                ) {
                                                                    None => Err(
                                                                        spec_child(
                                                                            path,
                                                                            "playback_features"@,
                                                                        ),
                                                                    ),
                                                                    Some(fv) => match spec_decode_playback_features(
                                                                        fv,
                                                                        spec_child(
                                                                            path,
                                                                            "playback_features"@,
                                                                        ),
                                                                    ) {
                                                                        Err(e) => Err(e),
                                                                        Ok(playback_features) => match spec_get(
                                                                            f,
                                                                            "restrictions"@,
                                                                        ) {
                                                                            None => Err(
                                                                                spec_child(
                                                                                    path,
                                                                                    "restrictions"@,
                                                                                ),
                                                                            ),
                                                                            Some(rv) => match spec_decode_restrictions(
                                                                                rv,
                                                                                spec_child(
                                                                                    path,
                                                                                    "restrictions"@,
                                                                                ),
                                                                            ) {
                                                                                Err(e) => Err(e),
                                                                                Ok(restrictions) => match spec_req_i64(
                                                                                    f,
                                                                                    path,
                                                                                    "shuffle_mode"@,
                                                                                ) {
                                                                                    Err(e) => Err(e),
                                                                                    Ok(shuffle_mode) => match spec_req_i64(
                                                                                        f,
                                                                                        path,
                                                                                        "timestamp"@,
                                                                                    ) {
                                                                                        Err(e) => Err(
                                                                                            e,
                                                                                        ),
                                                                                        Ok(timestamp) => match spec_get(
                                                                                            f,
                                                                                            "track_window"@,
                                                                                        ) {
                                                                                            None => Err(
                                                                                                spec_child(
                                                                                                    path,
                                                                                                    "track_window"@,
                                                                                                ),
                                                                                            ),
                                                                                            Some(wv) => match spec_decode_track_window(
                                                                                                wv,
                                                                                                spec_child(
                                                                                                    path,
                                                                                                    "track_window"@,
                                                                                                ),
                                                                                            ) {
                                                                                                Err(e) => Err(
                                                                                                    e,
                                                                                                ),
                                                                                                Ok(track_window) => Ok(
                                                                                                    PlaybackStateChangeV {
                                                                                                        context,
                                                                                                        disallows,
                                                                                                        paused,
                                                                                                        position,
                                                                                                        repeat_mode,
                                                                                                        shuffle,
                                                                                                        track_window,
                                                                                                        duration,
                                                                                                        loading,
                                                                                                        playback_id,
                                                                                                        playback_quality,
                                                                                                        playback_speed,
                                                                                                        playback_features,
                                                                                                        restrictions,
                                                                                                        shuffle_mode,
                                                                                                        timestamp,
                                                                                                    },
                                                                                                ),
                                                                                            },
                                                                                        },
                                                                                    },
                                                                                },
                                                                            },
                                                                        },
                                                                    },
                                                                },
                                                            },
                                                        },
                                                    },
                                                },
                                            },
                                        },
                                    },
                                },
                            },
                        },
                    },
                },
            }
        },
        _ => Err(path),
    }
}

/// Decode the `player_state_changed` payload.
pub fn decode_state_change(v: Value, path: &str) -> (r: Result<PlaybackStateChange, DecodeError>)
    ensures
        match r {
            Ok(x) => spec_decode_state_change(v, path@) matches Ok(xv) && xv == x.deep_view(),
            Err(e) => spec_decode_state_change(v, path@) matches Err(p) && p == e.path@,
        },
{
    let mut fields = match v {
        Value::Obj(f) => f,
        _ => {
            return Err(DecodeError { path: path.to_owned() });
        },
    };
    let context = match obj_get(&fields, "context") {
        Some(cv) => {
            let sub = child_path(path, "context");
            match decode_context(cv, sub.as_str()) {
                Ok(c) => c,
                Err(e) => {
                    return Err(e);
                },
            }
        },
        None => {
            return Err(DecodeError { path: child_path(path, "context") });
        },
    };
    let disallows = match obj_get(&fields, "disallows") {
        Some(dv) => {
            let sub = child_path(path, "disallows");
            match decode_disallows(dv, sub.as_str()) {
                Ok(d) => d,
                Err(e) => {
                    return Err(e);
                },
            }
        },
        None => {
            return Err(DecodeError { path: child_path(path, "disallows") });
        },
    };
    let paused = match req_bool(&fields, path, "paused") {
        Ok(b) => b,
        Err(e) => {
            return Err(e);
        },
    };
    let position = match req_i32(&fields, path, "position") {
        Ok(i) => i,
        Err(e) => {
            return Err(e);
        },
    };
    let repeat_mode = match req_repeat_mode(&fields, path) {
        Ok(m) => m,
        Err(e) => {
            return Err(e);
        },
    };
    let shuffle = match req_bool(&fields, path, "shuffle") {
        Ok(b) => b,
        Err(e) => {
            return Err(e);
        },
    };
    let duration = match req_i64(&fields, path, "duration") {
        Ok(i) => i,
        Err(e) => {
            return Err(e);
        },
    };
    let loading = match req_bool(&fields, path, "loading") {
        Ok(b) => b,
        Err(e) => {
            return Err(e);
        },
    };
    let playback_id = match req_str(&fields, path, "playback_id") {
        Ok(s) => s,
        Err(e) => {
            return Err(e);
        },
    };
    let playback_quality = match req_str(&fields, path, "playback_quality") {
        Ok(s) => s,
        Err(e) => {
            return Err(e);
        },
    };
    let playback_speed = match req_i64(&fields, path, "playback_speed") {
        Ok(i) => i,
        Err(e) => {
            return Err(e);
        },
    };
    let playback_features = match obj_get(&fields, "playback_features") {
        Some(fv) => {
            let sub = child_path(path, "playback_features");
            match decode_playback_features(fv, sub.as_str()) {
                Ok(x) => x,
                Err(e) => {
                    return Err(e);
                },
            }
        },
        None => {
            return Err(DecodeError { path: child_path(path, "playback_features") });
        },
    };
    let restrictions = match obj_get(&fields, "restrictions") {
        Some(rv) => {
            let sub = child_path(path, "restrictions");
            match decode_restrictions(rv, sub.as_str()) {
                Ok(x) => x,
                Err(e) => {
                    return Err(e);
                },
            }
        },
        None => {
            return Err(DecodeError { path: child_path(path, "restrictions") });
        },
    };
    let shuffle_mode = match req_i64(&fields, path, "shuffle_mode") {
        Ok(i) => i,
        Err(e) => {
            return Err(e);
        },
    };
    let timestamp = match req_i64(&fields, path, "timestamp") {
        Ok(i) => i,
        Err(e) => {
            return Err(e);
        },
    };
    let track_window = match take_field(&mut fields, "track_window") {
        Some(wv) => {
            let sub = child_path(path, "track_window");
            match decode_track_window(wv, sub.as_str()) {
                Ok(w) => w,
                Err(e) => {
                    return Err(e);
                },
            }
        },
        None => {
            return Err(DecodeError { path: child_path(path, "track_window") });
        },
    };
    Ok(PlaybackStateChange {
        context,
        disallows,
        paused,
        position,
        repeat_mode,
        shuffle,
        track_window,
        duration,
        loading,
        playback_id,
        playback_quality,
        playback_speed,
        playback_features,
        restrictions,
        shuffle_mode,
        timestamp,
    })
}

} // verus!
