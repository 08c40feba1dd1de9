//! The provider's result-code enumeration and its wire-tag codec.
//!
//! The enumeration is closed: a wire tag outside it must fail parsing rather
//! than coerce to a known state, since a silently mislabelled payout would
//! corrupt downstream settlement logic. Three tags belong to the optional
//! payout capability and are recognized only while that capability is
//! enabled.

use vstd::prelude::*;

use crate::errors::ConnectorError;
use crate::strutil::str_eq;
use vstd::string::StringExecFns;

verus! {

/// The provider's closed set of lifecycle states.
#[derive(Debug, Clone, Copy, PartialEq, Eq, Structural)]
pub enum AdyenStatus {
    AuthenticationFinished,
    AuthenticationNotRequired,
    Authorised,
    Cancelled,
    ChallengeShopper,
    Error,
    IdentifyShopper,
    PartiallyAuthorised,
    Pending,
    Received,
    RedirectShopper,
    Refused,
    PresentToShopper,
    PayoutConfirmReceived,
    PayoutDeclineReceived,
    PayoutSubmitReceived,
}

impl AdyenStatus {
    /// The exact tag the provider writes for this state.
    pub open spec fn wire_view(self) -> Seq<char> {
        match self {
            AdyenStatus::AuthenticationFinished => "AuthenticationFinished"@,
            AdyenStatus::AuthenticationNotRequired => "AuthenticationNotRequired"@,
            AdyenStatus::Authorised => "Authorised"@,
            AdyenStatus::Cancelled => "Cancelled"@,
            AdyenStatus::ChallengeShopper => "ChallengeShopper"@,
            AdyenStatus::Error => "Error"@,
            AdyenStatus::IdentifyShopper => "IdentifyShopper"@,
            AdyenStatus::PartiallyAuthorised => "PartiallyAuthorised"@,
            AdyenStatus::Pending => "Pending"@,
            AdyenStatus::Received => "Received"@,
            AdyenStatus::RedirectShopper => "RedirectShopper"@,
            AdyenStatus::Refused => "Refused"@,
            AdyenStatus::PresentToShopper => "PresentToShopper"@,
            AdyenStatus::PayoutConfirmReceived => "[payout-confirm-received]"@,
            AdyenStatus::PayoutDeclineReceived => "[payout-decline-received]"@,
            AdyenStatus::PayoutSubmitReceived => "[payout-submit-received]"@,
        }
    }

    /// The three states that exist only under the payout capability.
    pub open spec fn requires_payout_capability(self) -> bool {
        match self {
            AdyenStatus::PayoutConfirmReceived => true,
            AdyenStatus::PayoutDeclineReceived => true,
            AdyenStatus::PayoutSubmitReceived => true,
            _ => false,
        }
    }

    /// The exact tag the provider writes for this state, as an owned string.
    pub fn wire_name(&self) -> (r: String)
        ensures
            r@ == self.wire_view(),
    {
        match self {
            AdyenStatus::AuthenticationFinished => String::from_str("AuthenticationFinished"),
            AdyenStatus::AuthenticationNotRequired => String::from_str("AuthenticationNotRequired"),
            AdyenStatus::Authorised => String::from_str("Authorised"),
            AdyenStatus::Cancelled => String::from_str("Cancelled"),
            AdyenStatus::ChallengeShopper => String::from_str("ChallengeShopper"),
            AdyenStatus::Error => String::from_str("Error"),
            AdyenStatus::IdentifyShopper => String::from_str("IdentifyShopper"),
            AdyenStatus::PartiallyAuthorised => String::from_str("PartiallyAuthorised"),
            AdyenStatus::Pending => String::from_str("Pending"),
            AdyenStatus::Received => String::from_str("Received"),
            AdyenStatus::RedirectShopper => String::from_str("RedirectShopper"),
            AdyenStatus::Refused => String::from_str("Refused"),
            AdyenStatus::PresentToShopper => String::from_str("PresentToShopper"),
            AdyenStatus::PayoutConfirmReceived => String::from_str("[payout-confirm-received]"),
            AdyenStatus::PayoutDeclineReceived => String::from_str("[payout-decline-received]"),
            AdyenStatus::PayoutSubmitReceived => String::from_str("[payout-submit-received]"),
        }
    }

    /// Parses a wire tag into a state.
    ///
    /// Succeeds exactly on the tags of [`status_of_wire`]; any other tag
    /// comes back as an unknown-status error carrying the offending tag.
    pub fn from_wire(s: &str, payouts_enabled: bool) -> (r: Result<AdyenStatus, ConnectorError>)
        ensures
            match r {
                Ok(st) => status_of_wire(s@, payouts_enabled) == Some(st),
                Err(e) => status_of_wire(s@, payouts_enabled) is None && (e matches
                    ConnectorError::UnknownStatusTag { tag } && tag@ == s@),
            },
    {
        if str_eq(s, "AuthenticationFinished") {
            Ok(AdyenStatus::AuthenticationFinished)
        } else if str_eq(s, "AuthenticationNotRequired") {
            Ok(AdyenStatus::AuthenticationNotRequired)
        } else if str_eq(s, "Authorised") {
            Ok(AdyenStatus::Authorised)
        } else if str_eq(s, "Cancelled") {
            Ok(AdyenStatus::Cancelled)
        } else if str_eq(s, "ChallengeShopper") {
            Ok(AdyenStatus::ChallengeShopper)
        } else if str_eq(s, "Error") {
            Ok(AdyenStatus::Error)
        } else if str_eq(s, "IdentifyShopper") {
            Ok(AdyenStatus::IdentifyShopper)
        } else if str_eq(s, "PartiallyAuthorised") {
            Ok(AdyenStatus::PartiallyAuthorised)
        } else if str_eq(s, "Pending") {
            Ok(AdyenStatus::Pending)
        } else if str_eq(s, "Received") {
            Ok(AdyenStatus::Received)
        } else if str_eq(s, "RedirectShopper") {
            Ok(AdyenStatus::RedirectShopper)
        } else if str_eq(s, "Refused") {
            Ok(AdyenStatus::Refused)
        } else if str_eq(s, "PresentToShopper") {
            Ok(AdyenStatus::PresentToShopper)
        } else if payouts_enabled && str_eq(s, "[payout-confirm-received]") {
            Ok(AdyenStatus::PayoutConfirmReceived)
        } else if payouts_enabled && str_eq(s, "[payout-decline-received]") {
            Ok(AdyenStatus::PayoutDeclineReceived)
        } else if payouts_enabled && str_eq(s, "[payout-submit-received]") {
            Ok(AdyenStatus::PayoutSubmitReceived)
        } else {
            Err(ConnectorError::UnknownStatusTag { tag: s.to_owned() })
        }
    }
}

/// The wire-tag recognizer: which state, if any, a tag denotes under the
/// given capability setting.
pub open spec fn status_of_wire(s: Seq<char>, payouts_enabled: bool) -> Option<AdyenStatus> {
    if s == "AuthenticationFinished"@ {
        Some(AdyenStatus::AuthenticationFinished)
    } else if s == "AuthenticationNotRequired"@ {
        Some(AdyenStatus::AuthenticationNotRequired)
    } else if s == "Authorised"@ {
        Some(AdyenStatus::Authorised)
    } else if s == "Cancelled"@ {
        Some(AdyenStatus::Cancelled)
    } else if s == "ChallengeShopper"@ {
        Some(AdyenStatus::ChallengeShopper)
    } else if s == "Error"@ {
        Some(AdyenStatus::Error)
    } else if s == "IdentifyShopper"@ {
        Some(AdyenStatus::IdentifyShopper)
    } else if s == "PartiallyAuthorised"@ {
        Some(AdyenStatus::PartiallyAuthorised)
    } else if s == "Pending"@ {
        Some(AdyenStatus::Pending)
    } else if s == "Received"@ {
        Some(AdyenStatus::Received)
    } else if s == "RedirectShopper"@ {
        Some(AdyenStatus::RedirectShopper)
    } else if s == "Refused"@ {
        Some(AdyenStatus::Refused)
    } else if s == "PresentToShopper"@ {
        Some(AdyenStatus::PresentToShopper)
    } else if payouts_enabled && s == "[payout-confirm-received]"@ {
        Some(AdyenStatus::PayoutConfirmReceived)
    } else if payouts_enabled && s == "[payout-decline-received]"@ {
        Some(AdyenStatus::PayoutDeclineReceived)
    } else if payouts_enabled && s == "[payout-submit-received]"@ {
        Some(AdyenStatus::PayoutSubmitReceived)
    } else {
        None
    }
}

/// Law: with the payout capability enabled, every state's own wire tag parses
/// back to exactly that state.
pub proof fn lemma_status_wire_round_trip(st: AdyenStatus)
    ensures
        status_of_wire(st.wire_view(), true) == Some(st),
{
    // The tags are pairwise distinct: their lengths separate most pairs, the
    // first character the equal-length pairs, and a later character the two
    // payout tags of equal length.
    reveal_strlit("AuthenticationFinished");
    reveal_strlit("AuthenticationNotRequired");
    reveal_strlit("Authorised");
    reveal_strlit("Cancelled");
    reveal_strlit("ChallengeShopper");
    reveal_strlit("Error");
    reveal_strlit("IdentifyShopper");
    reveal_strlit("PartiallyAuthorised");
    reveal_strlit("Pending");
    reveal_strlit("Received");
    reveal_strlit("RedirectShopper");
    reveal_strlit("Refused");
    reveal_strlit("PresentToShopper");
    reveal_strlit("[payout-confirm-received]");
    reveal_strlit("[payout-decline-received]");
    reveal_strlit("[payout-submit-received]");
    assert("AuthenticationFinished"@.len() == 22);
    assert("AuthenticationNotRequired"@.len() == 25);
    assert("Authorised"@.len() == 10);
    assert("Cancelled"@.len() == 9);
    assert("ChallengeShopper"@.len() == 16);
    assert("Error"@.len() == 5);
    assert("IdentifyShopper"@.len() == 15);
    assert("PartiallyAuthorised"@.len() == 19);
    assert("Pending"@.len() == 7);
    assert("Received"@.len() == 8);
    assert("RedirectShopper"@.len() == 15);
    assert("Refused"@.len() == 7);
    assert("PresentToShopper"@.len() == 16);
    assert("[payout-confirm-received]"@.len() == 25);
    assert("[payout-decline-received]"@.len() == 25);
    assert("[payout-submit-received]"@.len() == 24);
    assert("AuthenticationFinished"@[0] == 'A');
    assert("AuthenticationNotRequired"@[0] == 'A');
    assert("Authorised"@[0] == 'A');
    assert("Cancelled"@[0] == 'C');
    assert("ChallengeShopper"@[0] == 'C');
    assert("Error"@[0] == 'E');
    assert("IdentifyShopper"@[0] == 'I');
    assert("PartiallyAuthorised"@[0] == 'P');
    assert("Pending"@[0] == 'P');
    assert("Received"@[0] == 'R');
    assert("RedirectShopper"@[0] == 'R');
    assert("Refused"@[0] == 'R');
    assert("PresentToShopper"@[0] == 'P');
    assert("[payout-confirm-received]"@[0] == '[');
    assert("[payout-decline-received]"@[0] == '[');
    assert("[payout-submit-received]"@[0] == '[');
    assert("[payout-confirm-received]"@[8] == 'c');
    assert("[payout-decline-received]"@[8] == 'd');
    assert("[payout-submit-received]"@[8] == 's');
}

/// Law: a successful parse only ever returns the state whose wire tag was
/// given, and returns a payout-capability state only while that capability
/// is enabled. Hence every tag outside the closed enumeration fails.
pub proof fn lemma_parse_stays_in_enumeration(s: Seq<char>, payouts_enabled: bool)
    ensures
        status_of_wire(s, payouts_enabled) matches Some(st) ==> s == st.wire_view() && (
        st.requires_payout_capability() ==> payouts_enabled),
{
}

/// Law: a tag that is no state's wire tag never parses, under either
/// capability setting.
pub proof fn lemma_unknown_tag_never_parses(s: Seq<char>, payouts_enabled: bool)
    requires
        forall|st: AdyenStatus| s != #[trigger] st.wire_view(),
    ensures
        status_of_wire(s, payouts_enabled) is None,
{
    lemma_parse_stays_in_enumeration(s, payouts_enabled);
}

/// Law: with the payout capability disabled, the three payout-specific wire
/// tags do not parse.
pub proof fn lemma_payout_tags_need_capability(st: AdyenStatus)
    requires
        st.requires_payout_capability(),
    ensures
        status_of_wire(st.wire_view(), false) is None,
{
    // The tags are pairwise distinct: their lengths separate most pairs, the
    // first character the equal-length pairs, and a later character the two
    // payout tags of equal length.
    reveal_strlit("AuthenticationFinished");
    reveal_strlit("AuthenticationNotRequired");
    reveal_strlit("Authorised");
    reveal_strlit("Cancelled");
    reveal_strlit("ChallengeShopper");
    reveal_strlit("Error");
    reveal_strlit("IdentifyShopper");
    reveal_strlit("PartiallyAuthorised");
    reveal_strlit("Pending");
    reveal_strlit("Received");
    reveal_strlit("RedirectShopper");
    reveal_strlit("Refused");
    reveal_strlit("PresentToShopper");
    reveal_strlit("[payout-confirm-received]");
    reveal_strlit("[payout-decline-received]");
    reveal_strlit("[payout-submit-received]");
    assert("AuthenticationFinished"@.len() == 22);
    assert("AuthenticationNotRequired"@.len() == 25);
    assert("Authorised"@.len() == 10);
    assert("Cancelled"@.len() == 9);
    assert("ChallengeShopper"@.len() == 16);
    assert("Error"@.len() == 5);
    assert("IdentifyShopper"@.len() == 15);
    assert("PartiallyAuthorised"@.len() == 19);
    assert("Pending"@.len() == 7);
    assert("Received"@.len() == 8);
    assert("RedirectShopper"@.len() == 15);
    assert("Refused"@.len() == 7);
    assert("PresentToShopper"@.len() == 16);
    assert("[payout-confirm-received]"@.len() == 25);
    assert("[payout-decline-received]"@.len() == 25);
    assert("[payout-submit-received]"@.len() == 24);
    assert("AuthenticationFinished"@[0] == 'A');
    assert("AuthenticationNotRequired"@[0] == 'A');
    assert("Authorised"@[0] == 'A');
    assert("Cancelled"@[0] == 'C');
    assert("ChallengeShopper"@[0] == 'C');
    assert("Error"@[0] == 'E');
    assert("IdentifyShopper"@[0] == 'I');
    assert("PartiallyAuthorised"@[0] == 'P');
    assert("Pending"@[0] == 'P');
    assert("Received"@[0] == 'R');
    assert("RedirectShopper"@[0] == 'R');
    assert("Refused"@[0] == 'R');
    assert("PresentToShopper"@[0] == 'P');
    assert("[payout-confirm-received]"@[0] == '[');
    assert("[payout-decline-received]"@[0] == '[');
    assert("[payout-submit-received]"@[0] == '[');
    assert("[payout-confirm-received]"@[8] == 'c');
    assert("[payout-decline-received]"@[8] == 'd');
    assert("[payout-submit-received]"@[8] == 's');
}

} // verus!
