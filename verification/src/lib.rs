//! A typed, guarded access layer over a page-global media-playback engine.
//!
//! The engine itself lives behind an asynchronous, loosely typed object
//! boundary; this crate owns everything on the near side of that boundary:
//! a readiness guard that every command consults, a per-kind event
//! subscription registry with replace semantics and deferred reentrant
//! mutation, and a tolerant schema decoder that turns loosely shaped
//! foreign payloads into well-typed records without ever panicking.
//!
//! The host performs the actual foreign calls. A command method returns
//! the [`facade::Action`] the host must issue; when the call settles the
//! host hands the outcome back to the matching classifier. Incoming
//! notifications enter through [`facade::Facade::handle_notification`].

pub mod decode;
pub mod errors;
pub mod events;
pub mod facade;
pub mod registry;
pub mod structs;
pub mod value;

pub use errors::{DecodeError, SdkError};
pub use events::{event_check, EventKind};
pub use facade::{Action, Dispatch, EventPayload, Facade, InitAction, ReadinessState, Settled};
pub use registry::{ForeignCall, SubscribeResult, SubscriptionHandle, UnsubscribeResult};
pub use structs::{EngineError, Player, PlaybackState, PlaybackStateChange};
pub use value::Value;
