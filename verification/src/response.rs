//! The provider's inbound response shape and its normalization.
//!
//! A response is received once per call, mapped to a state from the closed
//! enumeration plus passthrough metadata, and discarded. A response whose
//! status tag is unknown fails normalization rather than defaulting: treating
//! an unrecognized payout state as a known one would corrupt settlement
//! decisions downstream.

use vstd::prelude::*;
use vstd::string::StringExecFns;

use crate::errors::ConnectorError;
use crate::secret::Secret;
use crate::status::AdyenStatus;
use crate::status::status_of_wire;
use crate::strutil::str_eq;
use crate::types::Amount;

verus! {

/// Pre-authorisation versus final authorisation; the provider assumes
/// pre-authorisation when the field is absent.
#[derive(Debug, Clone, Copy, PartialEq, Eq, Structural)]
pub enum AuthType {
    PreAuth,
    FinalAuth,
}

impl Default for AuthType {
    /// The provider's default authorisation type.
    fn default() -> (r: Self)
        ensures
            r is PreAuth,
    {
        AuthType::PreAuth
    }
}

/// The provider's closed set of recurring-processing models.
#[derive(Debug, Clone, Copy, PartialEq, Eq, Structural)]
pub enum AdyenRecurringModel {
    Subscription,
    UnscheduledCardOnFile,
    CardOnFile,
}

impl AdyenRecurringModel {
    /// The tag the provider writes for this model.
    pub open spec fn wire_view(self) -> Seq<char> {
        match self {
            AdyenRecurringModel::Subscription => "Subscription"@,
            AdyenRecurringModel::UnscheduledCardOnFile => "UnscheduledCardOnFile"@,
            AdyenRecurringModel::CardOnFile => "CardOnFile"@,
        }
    }

    /// The tag the provider writes for this model, as an owned string.
    pub fn wire_name(&self) -> (r: String)
        ensures
            r@ == self.wire_view(),
    {
        match self {
            AdyenRecurringModel::Subscription => String::from_str("Subscription"),
            AdyenRecurringModel::UnscheduledCardOnFile => String::from_str(
                "UnscheduledCardOnFile",
            ),
            AdyenRecurringModel::CardOnFile => String::from_str("CardOnFile"),
        }
    }

    /// Parses a recurring-model tag; tags outside the closed set yield none.
    pub fn from_wire(s: &str) -> (r: Option<AdyenRecurringModel>)
        ensures
            r == recurring_model_of_wire(s@),
    {
        if str_eq(s, "Subscription") {
            Some(AdyenRecurringModel::Subscription)
        } else if str_eq(s, "UnscheduledCardOnFile") {
            Some(AdyenRecurringModel::UnscheduledCardOnFile)
        } else if str_eq(s, "CardOnFile") {
            Some(AdyenRecurringModel::CardOnFile)
        } else {
            None
        }
    }
}

/// Which recurring-processing model, if any, a tag denotes.
pub open spec fn recurring_model_of_wire(s: Seq<char>) -> Option<AdyenRecurringModel> {
    if s == "Subscription"@ {
        Some(AdyenRecurringModel::Subscription)
    } else if s == "UnscheduledCardOnFile"@ {
        Some(AdyenRecurringModel::UnscheduledCardOnFile)
    } else if s == "CardOnFile"@ {
        Some(AdyenRecurringModel::CardOnFile)
    } else {
        None
    }
}

/// Law: every recurring-processing model's own tag parses back to it.
pub proof fn lemma_recurring_model_round_trip(m: AdyenRecurringModel)
    ensures
        recurring_model_of_wire(m.wire_view()) == Some(m),
{
    reveal_strlit("Subscription");
    reveal_strlit("UnscheduledCardOnFile");
    reveal_strlit("CardOnFile");
    assert("Subscription"@.len() == 12);
    assert("UnscheduledCardOnFile"@.len() == 21);
    assert("CardOnFile"@.len() == 10);
}

/// The provider's payout-eligibility verdict, written as a one-letter code.
/// Absent or unparsable verdicts default to "no".
#[derive(Debug, Clone, Copy, PartialEq, Eq, Structural)]
pub enum PayoutEligibility {
    Yes,
    No,
    Domestic,
    Unknown,
}

impl Default for PayoutEligibility {
    /// The conservative default verdict.
    fn default() -> (r: Self)
        ensures
            r is No,
    {
        PayoutEligibility::No
    }
}

impl PayoutEligibility {
    /// The one-letter code the provider writes for this verdict.
    pub open spec fn wire_view(self) -> Seq<char> {
        match self {
            PayoutEligibility::Yes => "Y"@,
            PayoutEligibility::No => "N"@,
            PayoutEligibility::Domestic => "D"@,
            PayoutEligibility::Unknown => "U"@,
        }
    }

    /// The one-letter code the provider writes for this verdict, as an owned
    /// string.
    pub fn wire_code(&self) -> (r: String)
        ensures
            r@ == self.wire_view(),
    {
        match self {
            PayoutEligibility::Yes => String::from_str("Y"),
            PayoutEligibility::No => String::from_str("N"),
            PayoutEligibility::Domestic => String::from_str("D"),
            PayoutEligibility::Unknown => String::from_str("U"),
        }
    }

    /// Parses a verdict code; codes outside the closed set yield none.
    pub fn from_wire_code(s: &str) -> (r: Option<PayoutEligibility>)
        ensures
            r == eligibility_of_code(s@),
    {
        if str_eq(s, "Y") {
            Some(PayoutEligibility::Yes)
        } else if str_eq(s, "N") {
            Some(PayoutEligibility::No)
        } else if str_eq(s, "D") {
            Some(PayoutEligibility::Domestic)
        } else if str_eq(s, "U") {
            Some(PayoutEligibility::Unknown)
        } else {
            None
        }
    }
}

/// Which verdict, if any, a one-letter code denotes.
pub open spec fn eligibility_of_code(s: Seq<char>) -> Option<PayoutEligibility> {
    if s == "Y"@ {
        Some(PayoutEligibility::Yes)
    } else if s == "N"@ {
        Some(PayoutEligibility::No)
    } else if s == "D"@ {
        Some(PayoutEligibility::Domestic)
    } else if s == "U"@ {
        Some(PayoutEligibility::Unknown)
    } else {
        None
    }
}

/// Law: every verdict's own code parses back to it.
pub proof fn lemma_eligibility_code_round_trip(p: PayoutEligibility)
    ensures
        eligibility_of_code(p.wire_view()) == Some(p),
{
    reveal_strlit("Y");
    reveal_strlit("N");
    reveal_strlit("D");
    reveal_strlit("U");
    assert("Y"@[0] == 'Y');
    assert("N"@[0] == 'N');
    assert("D"@[0] == 'D');
    assert("U"@[0] == 'U');
    assert("Y"@.len() == 1);
    assert("N"@.len() == 1);
    assert("D"@.len() == 1);
    assert("U"@.len() == 1);
}

/// Optional side-channel metadata echoed by the provider. The
/// payout-eligibility verdict only arrives on payout flows; the field is
/// optional like every other, and which status tags a deployment recognizes
/// is governed at parse time by the capability flag.
pub struct AdditionalData {
    pub authorisation_type: Option<AuthType>,
    pub manual_capture: Option<String>,
    pub execute_three_d: Option<String>,
    pub recurring_processing_model: Option<AdyenRecurringModel>,
    pub recurring_detail_reference: Option<Secret>,
    pub recurring_shopper_reference: Option<String>,
    pub network_tx_reference: Option<Secret>,
    pub payout_eligible: Option<PayoutEligibility>,
    pub funds_availability: Option<String>,
}

impl Default for AdditionalData {
    /// Metadata with every side channel absent.
    fn default() -> (r: Self)
        ensures
            r.authorisation_type is None,
            r.manual_capture is None,
            r.execute_three_d is None,
            r.recurring_processing_model is None,
            r.recurring_detail_reference is None,
            r.recurring_shopper_reference is None,
            r.network_tx_reference is None,
            r.payout_eligible is None,
            r.funds_availability is None,
    {
        AdditionalData {
            authorisation_type: None,
            manual_capture: None,
            execute_three_d: None,
            recurring_processing_model: None,
            recurring_detail_reference: None,
            recurring_shopper_reference: None,
            network_tx_reference: None,
            payout_eligible: None,
            funds_availability: None,
        }
    }
}

/// One decoded provider response, with every field the provider may omit
/// kept optional. The status tags arrive as raw wire strings; recognizing
/// them is this adapter's job, not the decoder's.
pub struct AdyenPayoutResponse {
    pub psp_reference: String,
    pub result_code: Option<String>,
    pub response: Option<String>,
    pub amount: Option<Amount>,
    pub merchant_reference: Option<String>,
    pub refusal_reason: Option<String>,
    pub refusal_reason_code: Option<String>,
    pub additional_data: Option<AdditionalData>,
    pub auth_code: Option<String>,
}

/// What normalization hands the orchestrating engine: one state from the
/// closed enumeration plus the passthrough metadata.
pub struct NormalizedResponse {
    pub status: AdyenStatus,
    pub psp_reference: String,
    pub merchant_reference: Option<String>,
    pub refusal_reason: Option<String>,
    pub refusal_reason_code: Option<String>,
}

/// Clones an optional string, keeping its content.
fn clone_opt_string(o: &Option<String>) -> (r: Option<String>)
    ensures
        r.deep_view() == o.deep_view(),
{
    match o {
        Some(s) => Some(s.clone()),
        None => None,
    }
}

impl AdyenPayoutResponse {
    /// The status tag this response carries: the result code when present,
    /// else the echoed status, else nothing.
    pub open spec fn wire_status_tag(self) -> Option<Seq<char>> {
        match self.result_code {
            Some(s) => Some(s@),
            None => match self.response {
                Some(s) => Some(s@),
                None => None,
            },
        }
    }

    /// Maps the response to a normalized status plus passthrough metadata.
    ///
    /// Fails with an unknown-status error when the carried tag is outside
    /// the closed enumeration (or needs the disabled payout capability), and
    /// with a missing-status error when the response carries no tag at all.
    pub fn normalize(&self, payouts_enabled: bool) -> (r: Result<
        NormalizedResponse,
        ConnectorError,
    >)
        ensures
            match r {
                Ok(n) => {
                    &&& self.wire_status_tag() matches Some(tag) && status_of_wire(
                        tag,
                        payouts_enabled,
                    ) == Some(n.status)
                    &&& n.psp_reference@ == self.psp_reference@
                    &&& n.merchant_reference.deep_view() == self.merchant_reference.deep_view()
                    &&& n.refusal_reason.deep_view() == self.refusal_reason.deep_view()
                    &&& n.refusal_reason_code.deep_view()
                        == self.refusal_reason_code.deep_view()
                },
                Err(e) => match self.wire_status_tag() {
                    Some(tag) => status_of_wire(tag, payouts_enabled) is None && (e matches
                        ConnectorError::UnknownStatusTag { tag: t } && t@ == tag),
                    None => e is MissingStatus,
                },
            },
    {
        let tag: &String = match (&self.result_code, &self.response) {
            (Some(s), _) => s,
            (None, Some(s)) => s,
            (None, None) => {
                return Err(ConnectorError::MissingStatus);
            },
        };
        let status = match AdyenStatus::from_wire(tag.as_str(), payouts_enabled) {
            Ok(st) => st,
            Err(e) => {
                return Err(e);
            },
        };
        Ok(
            NormalizedResponse {
                status,
                psp_reference: self.psp_reference.clone(),
                merchant_reference: clone_opt_string(&self.merchant_reference),
                refusal_reason: clone_opt_string(&self.refusal_reason),
                refusal_reason_code: clone_opt_string(&self.refusal_reason_code),
            },
        )
    }
}

} // verus!
