//! A verified delegation-and-merge engine for a shell property handler.
//!
//! The handler wraps the platform's own, format-specific property handler
//! (the *delegate*) and presents a unified property space: every property the
//! delegate reports, plus one synthetic keyword-list property extracted from
//! the file's embedded metadata.  This crate holds the logic of that merge —
//! delegate resolution, the one-way initialization state machine, and the
//! count / enumeration / value queries over the unified space.  The platform
//! calls themselves (component activation, registry reads, metadata
//! extraction) are performed by the unverified host around this library,
//! which reports their outcomes to the functions here as plain values.

use vstd::prelude::*;

pub mod activation;
pub mod guid;
pub mod handler;
pub mod registration;
pub mod resolver;
pub mod tags;

verus! {

/// The errors a merge view can report.
///
/// Resolution and activation failures abort initialization; a delegate's own
/// failure is passed through verbatim, carrying the delegate's error code;
/// write operations are never supported; and every query before a successful
/// initialization is rejected.
#[derive(Clone, Copy, Debug, PartialEq, Eq, Structural)]
pub enum HandlerError {
    /// No delegate identity could be found for the file's type.
    ResolutionFailure,
    /// The resolved delegate could not be instantiated, or it lacks a
    /// required capability; carries the platform's error code.
    ActivationFailure(i32),
    /// An already-open delegate's own call failed; carries the delegate's
    /// error code unchanged.
    DelegateCall(i32),
    /// Write operations are rejected unconditionally.
    UnsupportedOperation,
    /// A query arrived before a successful initialization.
    NotInitialized,
    /// A second initialization was attempted; the state machine is one-way.
    AlreadyInitialized,
}

} // verus!
