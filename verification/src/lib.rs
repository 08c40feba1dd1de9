//! Connector adapter for a payment platform's payout API.
//!
//! The adapter translates between a host system's normalized payment domain
//! model and one external provider's wire schema: it extracts authentication
//! material from the host's credential union, builds outbound request shapes
//! from a normalized amount/currency/card representation, and parses inbound
//! responses into a closed status enumeration. Every operation is a pure,
//! stateless value-to-value conversion; transport, retries and credential
//! storage belong to the surrounding system.

pub mod auth;
pub mod envelope;
pub mod errors;
pub mod request;
pub mod response;
pub mod secret;
pub mod status;
mod strutil;
pub mod types;
pub mod wire;

pub use auth::AdyenplatformAuthType;
pub use auth::ConnectorAuthType;
pub use envelope::AdyenPlatformRouterData;
pub use errors::ConnectorError;
pub use request::AdyenPlatformPayoutEligibilityRequest;
pub use request::PayoutCardDetails;
pub use response::AdditionalData;
pub use response::AdyenPayoutResponse;
pub use response::AdyenRecurringModel;
pub use response::AuthType;
pub use response::NormalizedResponse;
pub use response::PayoutEligibility;
pub use secret::Secret;
pub use status::AdyenStatus;
pub use types::Amount;
pub use types::Currency;
pub use types::MinorUnit;
pub use wire::WireDoc;
pub use wire::WireLeaf;
pub use wire::WireValue;
