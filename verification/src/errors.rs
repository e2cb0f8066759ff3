//! The closed error taxonomy.
//!
//! Every failure is returned as a typed value from the operation that
//! detected it; nothing in the library panics or aborts.

use vstd::prelude::*;

verus! {

/// A payload or query result did not match its expected schema.
#[derive(Debug, Clone, PartialEq, Eq)]
pub struct DecodeError {
    /// Dotted path of the first offending field, e.g. `track_window.current_track.uri`.
    pub path: String,
}

/// Everything an operation of this library can fail with.
#[derive(Debug, Clone, PartialEq, Eq)]
pub enum SdkError {
    /// Guard violation: the engine object has not been constructed.
    NotReady,
    /// A subscribe/unsubscribe named an event kind outside the closed set.
    UnknownEventKind,
    /// The foreign asynchronous call rejected; carries the raw foreign error text.
    ExternalRejection(String),
    /// A notification or query result did not match its expected schema.
    Decode(DecodeError),
    /// An input was refused locally, before any foreign call was attempted.
    InvalidArgument,
}

} // verus!
