//! Authentication extraction.
//!
//! The host hands the adapter a polymorphic credential carrier; this provider
//! accepts exactly the header-key shape. Extraction is a total match over the
//! closed union with an explicit mismatch error for every other shape.

use vstd::prelude::*;

use crate::errors::ConnectorError;
use crate::secret::Secret;

verus! {

/// The host's closed union of credential shapes. The adapter never inspects
/// any key beyond moving it; which shapes exist is the host's decision.
#[derive(Clone)]
pub enum ConnectorAuthType {
    TemporaryAuth,
    HeaderKey { api_key: Secret },
    BodyKey { api_key: Secret, key1: Secret },
    SignatureKey { api_key: Secret, key1: Secret, api_secret: Secret },
    MultiAuthKey { api_key: Secret, key1: Secret, api_secret: Secret, key2: Secret },
    NoKey,
}

/// The credential material this provider's calls carry: a single API key.
/// Constructed per outbound call and discarded; never persisted or logged.
pub struct AdyenplatformAuthType {
    api_key: Secret,
}

impl View for AdyenplatformAuthType {
    type V = Seq<char>;

    /// The auth context is, mathematically, the extracted key.
    closed spec fn view(&self) -> Seq<char> {
        self.api_key@
    }
}

impl AdyenplatformAuthType {
    /// The extracted API key, for the transport layer to place in a header.
    pub fn api_key(&self) -> (r: &Secret)
        ensures
            r@ == self@,
    {
        &self.api_key
    }

    /// Extracts the provider's auth context from the host's credential union.
    ///
    /// Succeeds exactly on the header-key shape, and then carries that shape's
    /// key unchanged; every other shape fails with the auth-shape-mismatch
    /// error. Total over the union: no input panics or half-constructs.
    pub fn try_from(auth_type: &ConnectorAuthType) -> (r: Result<Self, ConnectorError>)
        ensures
            match *auth_type {
                ConnectorAuthType::HeaderKey { api_key } => (r matches Ok(a)
                    && a@ == api_key@),
                _ => r matches Err(e) && e is FailedToObtainAuthType,
            },
    {
        match auth_type {
            ConnectorAuthType::HeaderKey { api_key } => Ok(AdyenplatformAuthType {
                api_key: Secret::new(api_key.peek().clone()),
            }),
            _ => Err(ConnectorError::FailedToObtainAuthType),
        }
    }
}

} // verus!
