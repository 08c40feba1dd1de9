//! The generic outbound envelope: a normalized amount paired with an
//! arbitrary provider-specific payload.
//!
//! The pairing is pure data restructuring and never fails; the signature
//! keeps an error channel only for symmetry with the adapter's other
//! conversions.

use vstd::prelude::*;

use crate::errors::ConnectorError;
use crate::types::MinorUnit;

verus! {

/// An outbound request envelope: the amount to move plus whatever payload
/// the concrete call needs.
pub struct AdyenPlatformRouterData<T> {
    pub amount: MinorUnit,
    pub router_data: T,
}

impl<T> AdyenPlatformRouterData<T> {
    /// Builds the envelope from an amount/payload pair.
    ///
    /// Total: every pair yields `Ok`, and the result carries both inputs
    /// unchanged.
    pub fn try_from(amount: MinorUnit, router_data: T) -> (r: Result<
        AdyenPlatformRouterData<T>,
        ConnectorError,
    >)
        ensures
            r matches Ok(d) && d.amount == amount && d.router_data == router_data,
    {
        Ok(AdyenPlatformRouterData { amount, router_data })
    }
}

} // verus!
