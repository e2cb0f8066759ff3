//! The readiness guard and the command facade.
//!
//! The facade owns the model of the one page-global engine: whether it has
//! been constructed and whether it has announced readiness, together with
//! the subscription registry. Every command consults the guard first: while
//! the engine does not exist, the command returns [`SdkError::NotReady`]
//! and no foreign call is described.
//!
//! The host performs the asynchronous foreign calls themselves. A command
//! method here returns the [`Action`] the host must issue; when the call
//! settles, the host hands the outcome to the matching `*_settled`
//! classifier, whose contract fixes the result for every outcome.

use vstd::prelude::*;
use vstd::string::StringExecFns;
use crate::errors::{DecodeError, SdkError};
use crate::events::{EventKind, spec_kind_index, kind_count, parse_kind, spec_parse_kind};
use crate::registry::{
    Registry, Slot, SlotEntry, SubscriptionHandle, SubscribeResult, UnsubscribeResult, ForeignCall,
    PendingOp, spec_apply_op, spec_apply_pending,
};
use crate::structs::{Player, PlayerV, EngineError, EngineErrorV, PlaybackState, PlaybackStateChange, PlaybackStateChangeV};
use crate::decode::{
    decode_player, decode_engine_error, decode_state_change, decode_playback_state,
    spec_decode_player, spec_decode_engine_error, spec_decode_state_change,
    spec_decode_playback_state,
};
use crate::value::Value;

verus! {

/// Whether the engine exists and has announced readiness.
#[derive(Debug, Clone, Copy, PartialEq, Eq, Structural)]
pub enum ReadinessState {
    /// No engine object exists yet.
    Uninitialized,
    /// `init` ran: the engine object exists, readiness not yet announced.
    Constructing,
    /// The engine announced `ready`.
    Ready,
    /// The engine announced `not_ready`; the object still exists.
    Disconnected,
}

/// What the host must do to create the engine: build it with these
/// parameters, wire the token-supplying and on-ready callbacks, and install
/// the two bootstrap listeners (`ready`, `not_ready`) that feed the guard.
#[derive(Debug, Clone, PartialEq, Eq)]
pub struct InitAction {
    pub name: String,
    /// Initial volume in millionths: one million stands for full volume.
    pub volume_micros: i64,
    pub enable_media_session: bool,
}

/// One asynchronous foreign call the host must issue against the engine.
#[derive(Debug, Clone, PartialEq, Eq)]
pub enum Action {
    Connect,
    Disconnect,
    GetCurrentState,
    SetName(String),
    GetVolume,
    /// Volume in millionths, already validated to lie in [0, 1000000].
    SetVolume(i64),
    Pause,
    Resume,
    TogglePlay,
    /// Position in milliseconds, already validated to be non-negative.
    Seek(i64),
    PreviousTrack,
    NextTrack,
    ActivateElement,
}

/// How a foreign asynchronous call settled, as the host reports it.
#[derive(Debug, Clone, PartialEq, Eq)]
pub enum Settled<T> {
    Resolved(T),
    /// The promise rejected; carries the raw foreign error text.
    Rejected(String),
}

/// The facade over the one page-global engine.
pub struct Facade {
    state: ReadinessState,
    registry: Registry,
}

impl Facade {
    pub closed spec fn spec_state(&self) -> ReadinessState {
        self.state
    }

    pub closed spec fn reg(&self) -> Registry {
        self.registry
    }

    /// The guard every command consults: the engine object exists once
    /// construction began, whatever the connection status.
    pub open spec fn engine_exists(&self) -> bool {
        !(self.spec_state() is Uninitialized)
    }

    pub open spec fn wf(&self) -> bool {
        self.reg().wf()
    }

    /// Nothing observable changed.
    pub open spec fn same_as(&self, other: &Facade) -> bool {
        &&& self.spec_state() == other.spec_state()
        &&& self.reg().spec_slots() == other.reg().spec_slots()
        &&& self.reg().spec_pending() == other.reg().spec_pending()
        &&& self.reg().spec_dispatching() == other.reg().spec_dispatching()
        &&& self.reg().spec_next_serial() == other.reg().spec_next_serial()
    }

    /// A fresh facade: no engine, nothing subscribed.
    pub fn new() -> (r: Facade)
        ensures
            r.wf(),
            r.spec_state() is Uninitialized,
            !r.engine_exists(),
            r.reg().spec_dispatching() is None,
            r.reg().spec_next_serial() == 0,
            forall|k: EventKind| (#[trigger] r.reg().spec_slot(k)) == (Slot {
                foreign_attached: false,
                bootstrap: false,
                entry: None,
            }),
    {
        Facade { state: ReadinessState::Uninitialized, registry: Registry::new() }
    }

    /// Whether the engine object exists.
    pub fn player_ready(&self) -> (r: bool)
        ensures
            r == self.engine_exists(),
    {
        match self.state {
            ReadinessState::Uninitialized => false,
            _ => true,
        }
    }

    /// The guard's current state.
    pub fn state(&self) -> (r: ReadinessState)
        ensures
            r == self.spec_state(),
    {
        self.state
    }

    /// Create the engine. Valid only once: while the engine exists the call
    /// is a no-op and returns `None`. On success the guard moves to
    /// `Constructing` and the two bootstrap listeners are recorded as
    /// installed; the returned action tells the host to build the engine.
    pub fn init(&mut self, name: String, volume_micros: i64, enable_media_session: bool) -> (r:
        Option<InitAction>)
        requires
            old(self).wf(),
        ensures
            final(self).wf(),
            old(self).engine_exists() ==> r is None && final(self).same_as(old(self)),
            !old(self).engine_exists() ==> {
                &&& r == Some(
                    InitAction { name, volume_micros, enable_media_session },
                )
                &&& final(self).spec_state() is Constructing
                &&& final(self).reg().spec_slot(EventKind::Ready) == (Slot {
                    foreign_attached: true,
                    bootstrap: true,
                    entry: old(self).reg().spec_slot(EventKind::Ready).entry,
                })
                &&& final(self).reg().spec_slot(EventKind::NotReady) == (Slot {
                    foreign_attached: true,
                    bootstrap: true,
                    entry: old(self).reg().spec_slot(EventKind::NotReady).entry,
                })
                &&& forall|k: EventKind|
                    spec_kind_index(k) != spec_kind_index(EventKind::Ready) && spec_kind_index(k)
                        != spec_kind_index(EventKind::NotReady)
                        ==> #[trigger] final(self).reg().spec_slot(k) == old(self).reg().spec_slot(
                        k,
                    )
                &&& final(self).reg().spec_dispatching() == old(self).reg().spec_dispatching()
                &&& final(self).reg().spec_pending() == old(self).reg().spec_pending()
                &&& final(self).reg().spec_next_serial() == old(self).reg().spec_next_serial()
            },
    {
        match self.state {
            ReadinessState::Uninitialized => {
                self.state = ReadinessState::Constructing;
                self.registry.attach_bootstrap(EventKind::Ready);
                self.registry.attach_bootstrap(EventKind::NotReady);
                Some(InitAction { name, volume_micros, enable_media_session })
            },
            _ => None,
        }
    }

    /// Ask for a session with the remote service. Needs only the engine
    /// object, not an established session.
    pub fn connect(&self) -> (r: Result<Action, SdkError>)
        ensures
            self.engine_exists() ==> r == Ok::<Action, SdkError>(Action::Connect),
            !self.engine_exists() ==> r == Err::<Action, SdkError>(SdkError::NotReady),
    {
        if self.player_ready() {
            Ok(Action::Connect)
        } else {
            Err(SdkError::NotReady)
        }
    }

    /// Close the engine's session; fire-and-forget on the foreign side.
    pub fn disconnect(&self) -> (r: Result<Action, SdkError>)
        ensures
            self.engine_exists() ==> r == Ok::<Action, SdkError>(Action::Disconnect),
            !self.engine_exists() ==> r == Err::<Action, SdkError>(SdkError::NotReady),
    {
        if self.player_ready() {
            Ok(Action::Disconnect)
        } else {
            Err(SdkError::NotReady)
        }
    }

    /// Ask for the current playback state.
    pub fn get_current_state(&self) -> (r: Result<Action, SdkError>)
        ensures
            self.engine_exists() ==> r == Ok::<Action, SdkError>(Action::GetCurrentState),
            !self.engine_exists() ==> r == Err::<Action, SdkError>(SdkError::NotReady),
    {
        if self.player_ready() {
            Ok(Action::GetCurrentState)
        } else {
            Err(SdkError::NotReady)
        }
    }

    /// Rename the device. The name must not be empty.
    pub fn set_name(&self, name: String) -> (r: Result<Action, SdkError>)
        ensures
            !self.engine_exists() ==> r == Err::<Action, SdkError>(SdkError::NotReady),
            self.engine_exists() && name@.len() == 0 ==> r == Err::<Action, SdkError>(
                SdkError::InvalidArgument,
            ),
            self.engine_exists() && name@.len() > 0 ==> r == Ok::<Action, SdkError>(
                Action::SetName(name),
            ),
    {
        if !self.player_ready() {
            Err(SdkError::NotReady)
        } else if name.as_str().is_empty() {
            Err(SdkError::InvalidArgument)
        } else {
            Ok(Action::SetName(name))
        }
    }

    /// Ask for the local volume.
    pub fn get_volume(&self) -> (r: Result<Action, SdkError>)
        ensures
            self.engine_exists() ==> r == Ok::<Action, SdkError>(Action::GetVolume),
            !self.engine_exists() ==> r == Err::<Action, SdkError>(SdkError::NotReady),
    {
        if self.player_ready() {
            Ok(Action::GetVolume)
        } else {
            Err(SdkError::NotReady)
        }
    }

    /// Set the local volume, given in millionths of full volume. A value
    /// outside [0, 1000000] is refused locally, before any foreign call.
    pub fn set_volume(&self, volume_micros: i64) -> (r: Result<Action, SdkError>)
        ensures
            !self.engine_exists() ==> r == Err::<Action, SdkError>(SdkError::NotReady),
            self.engine_exists() && !(0 <= volume_micros <= 1000000) ==> r == Err::<
                Action,
                SdkError,
            >(SdkError::InvalidArgument),
            self.engine_exists() && 0 <= volume_micros <= 1000000 ==> r == Ok::<Action, SdkError>(
                Action::SetVolume(volume_micros),
            ),
    {
        if !self.player_ready() {
            Err(SdkError::NotReady)
        } else if volume_micros < 0 || volume_micros > 1000000 {
            Err(SdkError::InvalidArgument)
        } else {
            Ok(Action::SetVolume(volume_micros))
        }
    }

    /// Pause local playback.
    pub fn pause(&self) -> (r: Result<Action, SdkError>)
        ensures
            self.engine_exists() ==> r == Ok::<Action, SdkError>(Action::Pause),
            !self.engine_exists() ==> r == Err::<Action, SdkError>(SdkError::NotReady),
    {
        if self.player_ready() {
            Ok(Action::Pause)
        } else {
            Err(SdkError::NotReady)
        }
    }

    /// Resume local playback.
    pub fn resume(&self) -> (r: Result<Action, SdkError>)
        ensures
            self.engine_exists() ==> r == Ok::<Action, SdkError>(Action::Resume),
            !self.engine_exists() ==> r == Err::<Action, SdkError>(SdkError::NotReady),
    {
        if self.player_ready() {
            Ok(Action::Resume)
        } else {
            Err(SdkError::NotReady)
        }
    }

    /// Toggle between playing and paused.
    pub fn toggle_play(&self) -> (r: Result<Action, SdkError>)
        ensures
            self.engine_exists() ==> r == Ok::<Action, SdkError>(Action::TogglePlay),
            !self.engine_exists() ==> r == Err::<Action, SdkError>(SdkError::NotReady),
    {
        if self.player_ready() {
            Ok(Action::TogglePlay)
        } else {
            Err(SdkError::NotReady)
        }
    }

    /// Seek to a position in the current track. A negative position is
    /// refused locally, before any foreign call.
    pub fn seek(&self, position_ms: i64) -> (r: Result<Action, SdkError>)
        ensures
            !self.engine_exists() ==> r == Err::<Action, SdkError>(SdkError::NotReady),
            self.engine_exists() && position_ms < 0 ==> r == Err::<Action, SdkError>(
                SdkError::InvalidArgument,
            ),
            self.engine_exists() && position_ms >= 0 ==> r == Ok::<Action, SdkError>(
                Action::Seek(position_ms),
            ),
    {
        if !self.player_ready() {
            Err(SdkError::NotReady)
        } else if position_ms < 0 {
            Err(SdkError::InvalidArgument)
        } else {
            Ok(Action::Seek(position_ms))
        }
    }

    /// Switch to the previous track.
    pub fn previous_track(&self) -> (r: Result<Action, SdkError>)
        ensures
            self.engine_exists() ==> r == Ok::<Action, SdkError>(Action::PreviousTrack),
            !self.engine_exists() ==> r == Err::<Action, SdkError>(SdkError::NotReady),
    {
        if self.player_ready() {
            Ok(Action::PreviousTrack)
        } else {
            Err(SdkError::NotReady)
        }
    }

    /// Skip to the next track.
    pub fn next_track(&self) -> (r: Result<Action, SdkError>)
        ensures
            self.engine_exists() ==> r == Ok::<Action, SdkError>(Action::NextTrack),
            !self.engine_exists() ==> r == Err::<Action, SdkError>(SdkError::NotReady),
    {
        if self.player_ready() {
            Ok(Action::NextTrack)
        } else {
            Err(SdkError::NotReady)
        }
    }

    /// Unlock playback in browsers that guard autoplay on a user gesture.
    /// Whether the surrounding context counts as such a gesture is the
    /// host's concern; this layer only requires that the engine exists.
    pub fn activate_element(&self) -> (r: Result<Action, SdkError>)
        ensures
            self.engine_exists() ==> r == Ok::<Action, SdkError>(Action::ActivateElement),
            !self.engine_exists() ==> r == Err::<Action, SdkError>(SdkError::NotReady),
    {
        if self.player_ready() {
            Ok(Action::ActivateElement)
        } else {
            Err(SdkError::NotReady)
        }
    }
}

/// The typed payload a handler receives, one variant per payload shape.
#[derive(Debug)]
pub enum EventPayload {
    /// `ready` / `not_ready` carry the connected device.
    PlayerInfo(Player),
    /// `player_state_changed` carries the richer state-change record.
    StateChanged(PlaybackStateChange),
    /// The four error kinds carry an engine error.
    EngineFault(EngineError),
    /// `autoplay_failed` carries nothing.
    NoPayload,
}

pub enum EventPayloadV {
    PlayerInfo(PlayerV),
    StateChanged(PlaybackStateChangeV),
    EngineFault(EngineErrorV),
    NoPayload,
}

impl DeepView for EventPayload {
    type V = EventPayloadV;

    open spec fn deep_view(&self) -> EventPayloadV {
        match self {
            EventPayload::PlayerInfo(p) => EventPayloadV::PlayerInfo(p.deep_view()),
            EventPayload::StateChanged(x) => EventPayloadV::StateChanged(x.deep_view()),
            EventPayload::EngineFault(e) => EventPayloadV::EngineFault(e.deep_view()),
            EventPayload::NoPayload => EventPayloadV::NoPayload,
        }
    }
}

/// What one delivery asks of the host.
#[derive(Debug)]
pub enum Dispatch {
    /// Run this handler with the decoded payload, then call `end_dispatch`.
    Invoke(u64, EventPayload),
    /// No handler holds the kind: the notification is dropped.
    Dropped,
    /// The payload did not decode: report this through diagnostics and do
    /// not run any handler.
    DecodeFailed(DecodeError),
}

/// What a notification of `kind` decodes to.
pub open spec fn spec_decode_event(kind: EventKind, payload: Option<Value>) -> Result<
    EventPayloadV,
    Seq<char>,
> {
    match kind {
        EventKind::Ready => match payload {
            Some(v) => match spec_decode_player(v, ""@) {
                Ok(p) => Ok(EventPayloadV::PlayerInfo(p)),
                Err(e) => Err(e),
            },
            None => Err(""@),
        },
        EventKind::NotReady => match payload {
            Some(v) => match spec_decode_player(v, ""@) {
                Ok(p) => Ok(EventPayloadV::PlayerInfo(p)),
                Err(e) => Err(e),
            },
            None => Err(""@),
        },
        EventKind::PlayerStateChanged => match payload {
            Some(v) => match spec_decode_state_change(v, ""@) {
                Ok(x) => Ok(EventPayloadV::StateChanged(x)),
                Err(e) => Err(e),
            },
            None => Err(""@),
        },
        EventKind::AutoplayFailed => Ok(EventPayloadV::NoPayload),
        _ => match payload {
            Some(v) => match spec_decode_engine_error(v, ""@) {
                Ok(x) => Ok(EventPayloadV::EngineFault(x)),
                Err(e) => Err(e),
            },
            None => Err(""@),
        },
    }
}

/// How the guard moves on a notification: only a well-decoded `ready` or
/// `not_ready` changes it, and only while the engine exists. Readiness
/// advances `Constructing` to `Ready`, and `Ready` and `Disconnected` may
/// cycle; a `not_ready` before the first `ready` announces nothing.
pub open spec fn spec_next_state(s: ReadinessState, kind: EventKind, decode_ok: bool) -> ReadinessState {
    if !decode_ok {
        s
    } else {
        match kind {
            EventKind::Ready => if s is Uninitialized {
                s
            } else {
                ReadinessState::Ready
            },
            EventKind::NotReady => if s is Ready || s is Disconnected {
                ReadinessState::Disconnected
            } else {
                s
            },
            _ => s,
        }
    }
}

/// The handler one notification invokes, if any: the kind's current holder,
/// and only when the payload decodes.
pub open spec fn spec_invokes(entry: Option<SlotEntry>, kind: EventKind, payload: Option<Value>) -> Option<u64> {
    match entry {
        Some(e) => if spec_decode_event(kind, payload) is Ok {
            Some(e.handler)
        } else {
            None
        },
        None => None,
    }
}

/// Classify how `connect` settled: a boolean resolution is the session
/// verdict, anything else is a malformed resolution, and a rejection
/// carries the foreign error text.
pub fn connect_settled(s: Settled<Value>) -> (r: Result<bool, SdkError>)
    ensures
        match s {
            Settled::Resolved(Value::Bool(b)) => r == Ok::<bool, SdkError>(b),
            Settled::Resolved(_) => r matches Err(SdkError::Decode(d)) && d.path@ == ""@,
            Settled::Rejected(m) => r == Err::<bool, SdkError>(SdkError::ExternalRejection(m)),
        },
{
    match s {
        Settled::Resolved(Value::Bool(b)) => Ok(b),
        Settled::Resolved(_) => Err(SdkError::Decode(DecodeError { path: "".to_owned() })),
        Settled::Rejected(m) => Err(SdkError::ExternalRejection(m)),
    }
}

/// Classify how a unit-valued call settled: any resolution is success, a
/// rejection carries the foreign error text.
pub fn unit_settled(s: Settled<Value>) -> (r: Result<(), SdkError>)
    ensures
        match s {
            Settled::Resolved(_) => r is Ok,
            Settled::Rejected(m) => r == Err::<(), SdkError>(SdkError::ExternalRejection(m)),
        },
{
    match s {
        Settled::Resolved(_) => Ok(()),
        Settled::Rejected(m) => Err(SdkError::ExternalRejection(m)),
    }
}

/// Classify how the state query settled: null means nothing is playing
/// locally, an object must decode as a playback state.
pub fn get_current_state_settled(s: Settled<Value>) -> (r: Result<Option<PlaybackState>, SdkError>)
    ensures
        match s {
            Settled::Resolved(Value::Null) => r == Ok::<Option<PlaybackState>, SdkError>(None),
            Settled::Resolved(v) => match spec_decode_playback_state(v, ""@) {
                Ok(sv) => r matches Ok(Some(ps)) && ps.deep_view() == sv,
                Err(p) => r matches Err(SdkError::Decode(d)) && d.path@ == p,
            },
            Settled::Rejected(m) => r == Err::<Option<PlaybackState>, SdkError>(
                SdkError::ExternalRejection(m),
            ),
        },
{
    match s {
        Settled::Resolved(Value::Null) => Ok(None),
        Settled::Resolved(v) => match decode_playback_state(v, "") {
            Ok(ps) => Ok(Some(ps)),
            Err(d) => Err(SdkError::Decode(d)),
        },
        Settled::Rejected(m) => Err(SdkError::ExternalRejection(m)),
    }
}

/// Classify how the volume query settled. The host reports the resolved
/// volume in millionths, or `None` where the resolution was not a number.
pub fn get_volume_settled(s: Settled<Option<i64>>) -> (r: Result<i64, SdkError>)
    ensures
        match s {
            Settled::Resolved(Some(m)) => r == Ok::<i64, SdkError>(m),
            Settled::Resolved(None) => r matches Err(SdkError::Decode(d)) && d.path@ == ""@,
            Settled::Rejected(m) => r == Err::<i64, SdkError>(SdkError::ExternalRejection(m)),
        },
{
    match s {
        Settled::Resolved(Some(m)) => Ok(m),
        Settled::Resolved(None) => Err(SdkError::Decode(DecodeError { path: "".to_owned() })),
        Settled::Rejected(m) => Err(SdkError::ExternalRejection(m)),
    }
}

impl Facade {
    /// Subscribe a handler (by its host key) to the kind `event` names,
    /// replacing any current one. The result reports whether the foreign
    /// registration was unique and which foreign call the host now owes;
    /// during a dispatch of the same kind it is queued instead.
    pub fn add_listener(&mut self, event: &str, handler: u64) -> (r: Result<
        SubscribeResult,
        SdkError,
    >)
        requires
            old(self).wf(),
        ensures
            final(self).wf(),
            final(self).spec_state() == old(self).spec_state(),
            !old(self).engine_exists() ==> r == Err::<SubscribeResult, SdkError>(SdkError::NotReady)
                && final(self).same_as(old(self)),
            old(self).engine_exists() && spec_parse_kind(event@) is None ==> r == Err::<
                SubscribeResult,
                SdkError,
            >(SdkError::UnknownEventKind) && final(self).same_as(old(self)),
            match spec_parse_kind(event@) {
                None => true,
                Some(k) => old(self).engine_exists() ==> {
                &&& r matches Ok(sr)
                &&& final(self).reg().spec_dispatching() == old(self).reg().spec_dispatching()
                &&& final(self).reg().spec_next_serial() == if old(self).reg().spec_next_serial()
                    < u64::MAX {
                    (old(self).reg().spec_next_serial() + 1) as u64
                } else {
                    u64::MAX
                }
                &&& ((sr is Queued) <==> old(self).reg().spec_dispatching() == Some(k))
                &&& match sr {
                    SubscribeResult::Queued { handle } => {
                        &&& handle == (SubscriptionHandle {
                            kind: k,
                            serial: old(self).reg().spec_next_serial(),
                        })
                        &&& final(self).reg().spec_slots() == old(self).reg().spec_slots()
                        &&& final(self).reg().spec_pending() == old(self).reg().spec_pending().push(
                            PendingOp::Subscribe(k, handler, old(self).reg().spec_next_serial()),
                        )
                    },
                    SubscribeResult::Applied { handle, unique, foreign } => {
                        &&& handle == (SubscriptionHandle {
                            kind: k,
                            serial: old(self).reg().spec_next_serial(),
                        })
                        &&& unique == !old(self).reg().spec_slot(k).foreign_attached
                        &&& (final(self).reg().spec_slots(), foreign) == spec_apply_op(
                            old(self).reg().spec_slots(),
                            PendingOp::Subscribe(k, handler, old(self).reg().spec_next_serial()),
                        )
                        &&& final(self).reg().spec_pending() == old(self).reg().spec_pending()
                    },
                }
                },
            },
    {
        if !self.player_ready() {
            return Err(SdkError::NotReady);
        }
        match parse_kind(event) {
            None => Err(SdkError::UnknownEventKind),
            Some(k) => Ok(self.registry.subscribe(k, handler)),
        }
    }

    /// Drop whatever subscription the kind `event` names holds. The result
    /// reports whether one was removed and which foreign call the host now
    /// owes; during a dispatch of the same kind it is queued instead.
    pub fn remove_listener(&mut self, event: &str) -> (r: Result<UnsubscribeResult, SdkError>)
        requires
            old(self).wf(),
        ensures
            final(self).wf(),
            final(self).spec_state() == old(self).spec_state(),
            !old(self).engine_exists() ==> r == Err::<UnsubscribeResult, SdkError>(
                SdkError::NotReady,
            ) && final(self).same_as(old(self)),
            old(self).engine_exists() && spec_parse_kind(event@) is None ==> r == Err::<
                UnsubscribeResult,
                SdkError,
            >(SdkError::UnknownEventKind) && final(self).same_as(old(self)),
            match spec_parse_kind(event@) {
                None => true,
                Some(k) => old(self).engine_exists() ==> {
                &&& r matches Ok(ur)
                &&& final(self).reg().spec_dispatching() == old(self).reg().spec_dispatching()
                &&& final(self).reg().spec_next_serial() == old(self).reg().spec_next_serial()
                &&& ((ur is Queued) <==> old(self).reg().spec_dispatching() == Some(k))
                &&& match ur {
                    UnsubscribeResult::Queued => {
                        &&& final(self).reg().spec_slots() == old(self).reg().spec_slots()
                        &&& final(self).reg().spec_pending() == old(self).reg().spec_pending().push(
                            PendingOp::UnsubscribeKind(k),
                        )
                    },
                    UnsubscribeResult::Applied { removed, foreign } => {
                        &&& removed == (old(self).reg().spec_entry(k) is Some)
                        &&& (final(self).reg().spec_slots(), foreign) == spec_apply_op(
                            old(self).reg().spec_slots(),
                            PendingOp::UnsubscribeKind(k),
                        )
                        &&& final(self).reg().spec_pending() == old(self).reg().spec_pending()
                    },
                }
                },
            },
    {
        if !self.player_ready() {
            return Err(SdkError::NotReady);
        }
        match parse_kind(event) {
            None => Err(SdkError::UnknownEventKind),
            Some(k) => Ok(self.registry.unsubscribe_kind(k)),
        }
    }

    /// Drop the one subscription a handle names, if it is still current.
    /// The result reports whether it was removed and which foreign call the
    /// host now owes; during a dispatch of the same kind it is queued.
    pub fn remove_specific_listener(&mut self, handle: SubscriptionHandle) -> (r: Result<
        UnsubscribeResult,
        SdkError,
    >)
        requires
            old(self).wf(),
        ensures
            final(self).wf(),
            final(self).spec_state() == old(self).spec_state(),
            !old(self).engine_exists() ==> r == Err::<UnsubscribeResult, SdkError>(
                SdkError::NotReady,
            ) && final(self).same_as(old(self)),
            old(self).engine_exists() ==> {
                &&& r matches Ok(ur)
                &&& final(self).reg().spec_dispatching() == old(self).reg().spec_dispatching()
                &&& final(self).reg().spec_next_serial() == old(self).reg().spec_next_serial()
                &&& ((ur is Queued) <==> old(self).reg().spec_dispatching() == Some(handle.kind))
                &&& match ur {
                    UnsubscribeResult::Queued => {
                        &&& final(self).reg().spec_slots() == old(self).reg().spec_slots()
                        &&& final(self).reg().spec_pending() == old(self).reg().spec_pending().push(
                            PendingOp::Unsubscribe(handle),
                        )
                    },
                    UnsubscribeResult::Applied { removed, foreign } => {
                        &&& removed == (old(self).reg().spec_entry(handle.kind) matches Some(e)
                            && e.serial == handle.serial)
                        &&& (final(self).reg().spec_slots(), foreign) == spec_apply_op(
                            old(self).reg().spec_slots(),
                            PendingOp::Unsubscribe(handle),
                        )
                        &&& final(self).reg().spec_pending() == old(self).reg().spec_pending()
                    },
                }
            },
    {
        if !self.player_ready() {
            return Err(SdkError::NotReady);
        }
        Ok(self.registry.unsubscribe(handle))
    }

    /// Deliver one foreign notification.
    ///
    /// The payload is decoded before any handler runs; a failure is
    /// reported, never thrown into a handler. A well-decoded `ready` or
    /// `not_ready` moves the guard. Without a handler for the kind the
    /// notification is dropped — for the non-bootstrap kinds even before
    /// decoding. When a handler is named, the dispatch stays open until
    /// [`Facade::end_dispatch`]; mutations of this kind queue up meanwhile.
    pub fn handle_notification(&mut self, kind: EventKind, payload: Option<Value>) -> (r: Dispatch)
        requires
            old(self).wf(),
            old(self).reg().spec_dispatching() is None,
        ensures
            final(self).wf(),
            final(self).reg().spec_slots() == old(self).reg().spec_slots(),
            final(self).reg().spec_pending() == old(self).reg().spec_pending(),
            final(self).reg().spec_next_serial() == old(self).reg().spec_next_serial(),
            final(self).spec_state() == spec_next_state(
                old(self).spec_state(),
                kind,
                spec_decode_event(kind, payload) is Ok,
            ),
            match r {
                Dispatch::Invoke(h, pl) => {
                    &&& spec_invokes(old(self).reg().spec_entry(kind), kind, payload) == Some(h)
                    &&& spec_decode_event(kind, payload) matches Ok(pv) && pl.deep_view() == pv
                    &&& final(self).reg().spec_dispatching() == Some(kind)
                },
                Dispatch::Dropped => {
                    &&& old(self).reg().spec_entry(kind) is None
                    &&& final(self).reg().spec_dispatching() is None
                },
                Dispatch::DecodeFailed(d) => {
                    &&& spec_decode_event(kind, payload) matches Err(p) && d.path@ == p
                    &&& spec_invokes(old(self).reg().spec_entry(kind), kind, payload) is None
                    &&& final(self).reg().spec_dispatching() is None
                },
            },
            ((r is Invoke) <==> spec_invokes(old(self).reg().spec_entry(kind), kind, payload)
                is Some),
    {
        let handler = self.registry.current_handler(kind);
        match kind {
            EventKind::Ready | EventKind::NotReady => {
                let pv = match payload {
                    Some(v) => v,
                    None => {
                        return Dispatch::DecodeFailed(DecodeError { path: "".to_owned() });
                    },
                };
                match decode_player(pv, "") {
                    Ok(p) => {
                        match kind {
                            EventKind::Ready => {
                                if self.player_ready() {
                                    self.state = ReadinessState::Ready;
                                }
                            },
                            _ => {
                                match self.state {
                                    ReadinessState::Ready | ReadinessState::Disconnected => {
                                        self.state = ReadinessState::Disconnected;
                                    },
                                    _ => {},
                                }
                            },
                        }
                        match handler {
                            Some(h) => {
                                let _ = self.registry.begin_dispatch(kind);
                                Dispatch::Invoke(h, EventPayload::PlayerInfo(p))
                            },
                            None => Dispatch::Dropped,
                        }
                    },
                    Err(e) => Dispatch::DecodeFailed(e),
                }
            },
            EventKind::PlayerStateChanged => {
                match handler {
                    None => Dispatch::Dropped,
                    Some(h) => {
                        let pv = match payload {
                            Some(v) => v,
                            None => {
                                return Dispatch::DecodeFailed(DecodeError { path: "".to_owned() });
                            },
                        };
                        match decode_state_change(pv, "") {
                            Ok(x) => {
                                let _ = self.registry.begin_dispatch(kind);
                                Dispatch::Invoke(h, EventPayload::StateChanged(x))
                            },
                            Err(e) => Dispatch::DecodeFailed(e),
                        }
                    },
                }
            },
            EventKind::AutoplayFailed => {
                match handler {
                    None => Dispatch::Dropped,
                    Some(h) => {
                        let _ = self.registry.begin_dispatch(kind);
                        Dispatch::Invoke(h, EventPayload::NoPayload)
                    },
                }
            },
            _ => {
                match handler {
                    None => Dispatch::Dropped,
                    Some(h) => {
                        let pv = match payload {
                            Some(v) => v,
                            None => {
                                return Dispatch::DecodeFailed(DecodeError { path: "".to_owned() });
                            },
                        };
                        match decode_engine_error(pv, "") {
                            Ok(x) => {
                                let _ = self.registry.begin_dispatch(kind);
                                Dispatch::Invoke(h, EventPayload::EngineFault(x))
                            },
                            Err(e) => Dispatch::DecodeFailed(e),
                        }
                    },
                }
            },
        }
    }

    /// End the running dispatch: apply the mutations its handler queued, in
    /// order, and name the foreign calls the host now owes, in order.
    pub fn end_dispatch(&mut self) -> (r: Vec<ForeignCall>)
        requires
            old(self).wf(),
            old(self).reg().spec_dispatching() is Some,
        ensures
            final(self).wf(),
            final(self).spec_state() == old(self).spec_state(),
            final(self).reg().spec_dispatching() is None,
            final(self).reg().spec_pending().len() == 0,
            final(self).reg().spec_next_serial() == old(self).reg().spec_next_serial(),
            (final(self).reg().spec_slots(), r@) == spec_apply_pending(
                old(self).reg().spec_slots(),
                old(self).reg().spec_pending(),
            ),
    {
        self.registry.end_dispatch()
    }
}

/// The guard only moves along the allowed edges: `init` is the only way
/// out of `Uninitialized`, readiness is first announced by `ready`, and
/// afterwards `ready` and `not_ready` cycle the two connected states.
pub proof fn lemma_guard_moves_only_forward(s: ReadinessState, kind: EventKind, ok: bool)
    ensures
        ({
            let n = spec_next_state(s, kind, ok);
            &&& (s is Uninitialized ==> n is Uninitialized)
            &&& (n is Uninitialized ==> s is Uninitialized)
            &&& (s is Constructing ==> n is Constructing || n is Ready)
            &&& (s is Ready ==> n is Ready || n is Disconnected)
            &&& (s is Disconnected ==> n is Ready || n is Disconnected)
        }),
{
}

/// Law: a removed subscription is never invoked again. Dispatch of kind
/// `k` names a handler only while the slot holds one, and delivering a
/// notification leaves every slot as it was (see
/// [`Facade::handle_notification`]); after subscribing a handler to `k`
/// and unsubscribing it by its handle, `k`'s slot holds none — so each of
/// the `payloads` later synthesized for `k`, however many, invokes nothing.
pub proof fn lemma_removed_handler_never_invoked(
    slots: Seq<Slot>,
    k: EventKind,
    h: u64,
    serial: u64,
    payloads: Seq<Option<Value>>,
)
    requires
        slots.len() == kind_count(),
    ensures
        ({
            let s1 = spec_apply_op(slots, PendingOp::Subscribe(k, h, serial)).0;
            let s2 = spec_apply_op(
                s1,
                PendingOp::Unsubscribe(SubscriptionHandle { kind: k, serial }),
            ).0;
            &&& s2[spec_kind_index(k)].entry is None
            &&& forall|i: int|
                0 <= i < payloads.len() ==> #[trigger] spec_invokes(
                    s2[spec_kind_index(k)].entry,
                    k,
                    payloads[i],
                ) is None
        }),
{
}

/// Law: replace semantics. Subscribing handler `hb` to a kind already held
/// by `ha` replaces it: one later notification of that kind invokes `hb`
/// (when its payload decodes) and never `ha`.
pub proof fn lemma_resubscribe_replaces(
    slots: Seq<Slot>,
    k: EventKind,
    ha: u64,
    sa: u64,
    hb: u64,
    sb: u64,
    payload: Option<Value>,
)
    requires
        slots.len() == kind_count(),
        ha != hb,
    ensures
        ({
            let s1 = spec_apply_op(slots, PendingOp::Subscribe(k, ha, sa)).0;
            let s2 = spec_apply_op(s1, PendingOp::Subscribe(k, hb, sb)).0;
            &&& (spec_decode_event(k, payload) is Ok ==> spec_invokes(
                s2[spec_kind_index(k)].entry,
                k,
                payload,
            ) == Some(hb))
            &&& spec_invokes(s2[spec_kind_index(k)].entry, k, payload) != Some(ha)
        }),
{
}

} // verus!
