//! The provider-specific payout eligibility request.
//!
//! One instance stands for one outbound eligibility check: it is built from
//! caller-validated fields by a one-to-one structural mapping, rendered into
//! the provider's camel-case wire shape, and discarded. No business-rule
//! validation happens here; the card number in particular is validated by an
//! external collaborator before it reaches this type.

use vstd::prelude::*;

use crate::secret::Secret;
use crate::types::Amount;
use crate::types::Currency;

verus! {

/// Card details as the provider's payout schema carries them. Expiry and
/// holder name are secret-wrapped so diagnostics cannot render them.
pub struct PayoutCardDetails {
    pub payment_method_type: String,
    pub number: String,
    pub expiry_month: Secret,
    pub expiry_year: Secret,
    pub holder_name: Secret,
}

/// The mathematical content of [`PayoutCardDetails`].
#[verifier::ext_equal]
pub struct CardDetailsView {
    pub payment_method_type: Seq<char>,
    pub number: Seq<char>,
    pub expiry_month: Seq<char>,
    pub expiry_year: Seq<char>,
    pub holder_name: Seq<char>,
}

impl View for PayoutCardDetails {
    type V = CardDetailsView;

    open spec fn view(&self) -> CardDetailsView {
        CardDetailsView {
            payment_method_type: self.payment_method_type@,
            number: self.number@,
            expiry_month: self.expiry_month@,
            expiry_year: self.expiry_year@,
            holder_name: self.holder_name@,
        }
    }
}

impl PayoutCardDetails {
    /// Gathers the card fields; a pure structural pairing.
    pub fn new(
        payment_method_type: String,
        number: String,
        expiry_month: Secret,
        expiry_year: Secret,
        holder_name: Secret,
    ) -> (r: PayoutCardDetails)
        ensures
            r@.payment_method_type == payment_method_type@,
            r@.number == number@,
            r@.expiry_month == expiry_month@,
            r@.expiry_year == expiry_year@,
            r@.holder_name == holder_name@,
    {
        PayoutCardDetails { payment_method_type, number, expiry_month, expiry_year, holder_name }
    }
}

/// One outbound eligibility check, in the provider's shape.
pub struct AdyenPlatformPayoutEligibilityRequest {
    pub amount: Amount,
    pub merchant_account: Secret,
    pub payment_method: PayoutCardDetails,
    pub reference: String,
    pub shopper_reference: String,
}

/// The mathematical content of [`AdyenPlatformPayoutEligibilityRequest`].
#[verifier::ext_equal]
pub struct EligibilityRequestView {
    pub currency: Currency,
    pub value: i64,
    pub merchant_account: Seq<char>,
    pub payment_method: CardDetailsView,
    pub reference: Seq<char>,
    pub shopper_reference: Seq<char>,
}

impl EligibilityRequestView {
    /// Well-formedness follows the minor-unit invariant.
    pub open spec fn wf(self) -> bool {
        self.value >= 0
    }
}

impl View for AdyenPlatformPayoutEligibilityRequest {
    type V = EligibilityRequestView;

    open spec fn view(&self) -> EligibilityRequestView {
        EligibilityRequestView {
            currency: self.amount.currency,
            value: self.amount.value.spec_get(),
            merchant_account: self.merchant_account@,
            payment_method: self.payment_method@,
            reference: self.reference@,
            shopper_reference: self.shopper_reference@,
        }
    }
}

impl AdyenPlatformPayoutEligibilityRequest {
    /// Builds one eligibility request: a one-to-one structural mapping from
    /// the caller's pre-validated fields, with no validation of its own.
    pub fn new(
        amount: Amount,
        merchant_account: Secret,
        payment_method: PayoutCardDetails,
        reference: String,
        shopper_reference: String,
    ) -> (r: AdyenPlatformPayoutEligibilityRequest)
        ensures
            r.amount == amount,
            r@.merchant_account == merchant_account@,
            r@.payment_method == payment_method@,
            r@.reference == reference@,
            r@.shopper_reference == shopper_reference@,
            amount.wf() ==> r@.wf(),
    {
        AdyenPlatformPayoutEligibilityRequest {
            amount,
            merchant_account,
            payment_method,
            reference,
            shopper_reference,
        }
    }
}

} // verus!
