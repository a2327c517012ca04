//! The activation boundary: from a requested object identity and capability
//! to a concrete merge view, or a refusal.
//!
//! The host runtime asks the component's factory for an object by class
//! identity and capability.  The decisions behind those requests are here;
//! the host performs the object construction they call for.  Each class
//! identity this component registers stands for one file-type
//! specialization and carries the delegate identity its merge views resolve
//! against.

use vstd::prelude::*;

verus! {

/// The class identity under which the general, image-type specialization of
/// this handler is registered.
pub const DEFAULT_CLASS_ID: u128 = 0x33C20ECF_3E11_42C6_9285_AF2DC3CB40D8;

/// The class identity under which the JPEG XL specialization is registered.
pub const JXL_CLASS_ID: u128 = 0xEE305C51_C1DD_4121_466A_117D67574BBA;

/// The delegate the general specialization wraps: the platform's own photo
/// metadata handler.
pub const DEFAULT_DELEGATE_ID: u128 = 0xA38B883C_1682_497E_97B0_0A3A9E801682;

/// The delegate the JPEG XL specialization wraps.
pub const JXL_DELEGATE_ID: u128 = 0x95FFE0F8_AB15_4751_A2F3_CFAFDBF13664;

/// The delegate identity behind a registered class identity; an identity
/// this component never registered has none.
pub open spec fn spec_delegate_for_class(class_id: u128) -> Option<u128> {
    if class_id == DEFAULT_CLASS_ID {
        Some(DEFAULT_DELEGATE_ID)
    } else if class_id == JXL_CLASS_ID {
        Some(JXL_DELEGATE_ID)
    } else {
        None
    }
}

/// Maps a requested class identity to the delegate identity its merge views
/// wrap.  Only the registered class identities resolve; a request for any
/// other identity is not supported and yields nothing.
pub fn delegate_for_class(class_id: u128) -> (d: Option<u128>)
    ensures
        d == spec_delegate_for_class(class_id),
{
    if class_id == DEFAULT_CLASS_ID {
        Some(DEFAULT_DELEGATE_ID)
    } else if class_id == JXL_CLASS_ID {
        Some(JXL_DELEGATE_ID)
    } else {
        None
    }
}

/// The capability a caller requests of a new object: the closed set this
/// component exposes, or anything else.
#[derive(Clone, Copy, Debug, PartialEq, Eq, Structural)]
pub enum CapabilityRequest {
    /// Reading the merged property space.
    PropertyStore,
    /// Initialization from a byte stream.
    InitializeWithStream,
    /// Initialization from a file path.
    InitializeWithFile,
    /// Any capability outside the closed set.
    Other,
}

/// The factory's answer to an object request.
#[derive(Clone, Copy, Debug, PartialEq, Eq, Structural)]
pub enum ActivationDecision {
    /// Construct a merge view exposing the requested capability.
    Create,
    /// Aggregation was requested; it is never supported.
    NoAggregation,
    /// The requested capability is outside the closed set.
    NotSupported,
}

/// What `create_instance_decision` answers.
pub open spec fn spec_create_instance_decision(
    aggregation_requested: bool,
    requested: CapabilityRequest,
) -> ActivationDecision {
    if aggregation_requested {
        ActivationDecision::NoAggregation
    } else if requested is Other {
        ActivationDecision::NotSupported
    } else {
        ActivationDecision::Create
    }
}

/// Decides an object request at the factory: aggregation is always refused,
/// a capability of the closed set — read the properties, initialize by
/// stream, initialize by path — yields a new merge view exposing it, and
/// anything else is not supported.
pub fn create_instance_decision(
    aggregation_requested: bool,
    requested: CapabilityRequest,
) -> (d: ActivationDecision)
    ensures
        d == spec_create_instance_decision(aggregation_requested, requested),
{
    if aggregation_requested {
        ActivationDecision::NoAggregation
    } else {
        match requested {
            CapabilityRequest::Other => ActivationDecision::NotSupported,
            _ => ActivationDecision::Create,
        }
    }
}

/// The module's answer to a class-object request.
#[derive(Clone, Copy, Debug, PartialEq, Eq, Structural)]
pub enum ClassObjectDecision {
    /// Hand out a factory whose views wrap this delegate.
    Factory(u128),
    /// The requested class identity is not one this component registers:
    /// the class is not available here.
    ClassNotAvailable,
    /// Something other than a factory was requested.
    UnexpectedRequest,
}

/// What `class_object_decision` answers.
pub open spec fn spec_class_object_decision(
    factory_requested: bool,
    class_id: u128,
) -> ClassObjectDecision {
    if !factory_requested {
        ClassObjectDecision::UnexpectedRequest
    } else {
        match spec_delegate_for_class(class_id) {
            Some(d) => ClassObjectDecision::Factory(d),
            None => ClassObjectDecision::ClassNotAvailable,
        }
    }
}

/// Decides a class-object request: only a factory can be asked for; a
/// registered class identity yields a factory bound to that class's
/// delegate, and any other identity is refused as not available.
pub fn class_object_decision(factory_requested: bool, class_id: u128) -> (d: ClassObjectDecision)
    ensures
        d == spec_class_object_decision(factory_requested, class_id),
{
    if !factory_requested {
        ClassObjectDecision::UnexpectedRequest
    } else {
        match delegate_for_class(class_id) {
            Some(d) => ClassObjectDecision::Factory(d),
            None => ClassObjectDecision::ClassNotAvailable,
        }
    }
}

} // verus!
