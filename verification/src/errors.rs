//! Error taxonomy of the adapter.
//!
//! Every fallible conversion in this crate returns one of these variants;
//! nothing here panics, retries or logs. The caller decides what to do with
//! a failure.

use vstd::prelude::*;

verus! {

/// A local, synchronous failure of one adapter conversion.
#[derive(Debug, Clone)]
pub enum ConnectorError {
    /// The credential carrier supplied by the host is not the header-key
    /// shape this provider requires.
    FailedToObtainAuthType,
    /// The provider sent a status tag outside the closed enumeration
    /// (or one that needs the payout capability while it is disabled).
    /// Carries the offending tag so the caller can log and decide.
    UnknownStatusTag { tag: String },
    /// The provider response carried no status at all.
    MissingStatus,
    /// A wire document does not have the shape of an eligibility request.
    MalformedWireDocument,
}

} // verus!
