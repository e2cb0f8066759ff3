//! The closed set of notification kinds the foreign engine emits.

use vstd::prelude::*;
use crate::value::str_eq;

verus! {

/// An event kind, one per wire name the engine knows.
#[derive(Clone, Copy, PartialEq, Eq, Structural, Debug)]
pub enum EventKind {
    Ready,
    NotReady,
    PlayerStateChanged,
    AutoplayFailed,
    InitializationError,
    AuthenticationError,
    AccountError,
    PlaybackError,
}

/// The wire name of a kind.
pub open spec fn spec_kind_name(k: EventKind) -> Seq<char> {
    match k {
        EventKind::Ready => "ready"@,
        EventKind::NotReady => "not_ready"@,
        EventKind::PlayerStateChanged => "player_state_changed"@,
        EventKind::AutoplayFailed => "autoplay_failed"@,
        EventKind::InitializationError => "initialization_error"@,
        EventKind::AuthenticationError => "authentication_error"@,
        EventKind::AccountError => "account_error"@,
        EventKind::PlaybackError => "playback_error"@,
    }
}

/// The kind a wire name stands for, if any.
pub open spec fn spec_parse_kind(s: Seq<char>) -> Option<EventKind> {
    if s == "ready"@ {
        Some(EventKind::Ready)
    } else if s == "not_ready"@ {
        Some(EventKind::NotReady)
    } else if s == "player_state_changed"@ {
        Some(EventKind::PlayerStateChanged)
    } else if s == "autoplay_failed"@ {
        Some(EventKind::AutoplayFailed)
    } else if s == "initialization_error"@ {
        Some(EventKind::InitializationError)
    } else if s == "authentication_error"@ {
        Some(EventKind::AuthenticationError)
    } else if s == "account_error"@ {
        Some(EventKind::AccountError)
    } else if s == "playback_error"@ {
        Some(EventKind::PlaybackError)
    } else {
        None
    }
}

/// The slot a kind occupies in per-kind tables.
pub open spec fn spec_kind_index(k: EventKind) -> int {
    match k {
        EventKind::Ready => 0,
        EventKind::NotReady => 1,
        EventKind::PlayerStateChanged => 2,
        EventKind::AutoplayFailed => 3,
        EventKind::InitializationError => 4,
        EventKind::AuthenticationError => 5,
        EventKind::AccountError => 6,
        EventKind::PlaybackError => 7,
    }
}

/// How many kinds there are.
pub open spec fn kind_count() -> int {
    8
}

pub fn kind_name(k: EventKind) -> (r: &'static str)
    ensures
        r@ == spec_kind_name(k),
{
    match k {
        EventKind::Ready => "ready",
        EventKind::NotReady => "not_ready",
        EventKind::PlayerStateChanged => "player_state_changed",
        EventKind::AutoplayFailed => "autoplay_failed",
        EventKind::InitializationError => "initialization_error",
        EventKind::AuthenticationError => "authentication_error",
        EventKind::AccountError => "account_error",
        EventKind::PlaybackError => "playback_error",
    }
}

pub fn parse_kind(event: &str) -> (r: Option<EventKind>)
    ensures
        r == spec_parse_kind(event@),
{
    if str_eq(event, "ready") {
        Some(EventKind::Ready)
    } else if str_eq(event, "not_ready") {
        Some(EventKind::NotReady)
    } else if str_eq(event, "player_state_changed") {
        Some(EventKind::PlayerStateChanged)
    } else if str_eq(event, "autoplay_failed") {
        Some(EventKind::AutoplayFailed)
    } else if str_eq(event, "initialization_error") {
        Some(EventKind::InitializationError)
    } else if str_eq(event, "authentication_error") {
        Some(EventKind::AuthenticationError)
    } else if str_eq(event, "account_error") {
        Some(EventKind::AccountError)
    } else if str_eq(event, "playback_error") {
        Some(EventKind::PlaybackError)
    } else {
        None
    }
}

pub fn kind_index(k: EventKind) -> (r: usize)
    ensures
        r == spec_kind_index(k),
        r < kind_count(),
{
    match k {
        EventKind::Ready => 0,
        EventKind::NotReady => 1,
        EventKind::PlayerStateChanged => 2,
        EventKind::AutoplayFailed => 3,
        EventKind::InitializationError => 4,
        EventKind::AuthenticationError => 5,
        EventKind::AccountError => 6,
        EventKind::PlaybackError => 7,
    }
}

/// Whether `event` is a wire name of the closed set.
pub fn event_check(event: &str) -> (r: bool)
    ensures
        r == (spec_parse_kind(event@) is Some),
{
    parse_kind(event).is_some()
}

} // verus!
