//! The provider's camel-case wire shape for the eligibility request, as a
//! small key/value document, with a verified encoder and decoder.
//!
//! The document is the adapter's own model of the provider schema: a
//! two-level object of string and integer leaves. Turning it into JSON text
//! is mechanical serialization and happens outside the verified library; the
//! field names, the nesting and the round trip are the logic owned here.

use vstd::prelude::*;
use vstd::string::StringExecFns;

use crate::errors::ConnectorError;
use crate::request::AdyenPlatformPayoutEligibilityRequest;
use crate::request::CardDetailsView;
use crate::request::EligibilityRequestView;
use crate::request::PayoutCardDetails;
use crate::secret::Secret;
use crate::strutil::str_eq;
use crate::types::Amount;
use crate::types::Currency;
use crate::types::MinorUnit;
use crate::types::currency_of_code;

verus! {

/// A scalar wire field: a string or an integer.
pub enum WireLeaf {
    Str(String),
    Int(i64),
}

/// The mathematical content of a [`WireLeaf`].
#[verifier::ext_equal]
pub enum LeafView {
    Str(Seq<char>),
    Int(i64),
}

impl View for WireLeaf {
    type V = LeafView;

    open spec fn view(&self) -> LeafView {
        match self {
            WireLeaf::Str(s) => LeafView::Str(s@),
            WireLeaf::Int(i) => LeafView::Int(*i),
        }
    }
}

/// A wire field value: a scalar or a nested object of scalars.
pub enum WireValue {
    Leaf(WireLeaf),
    Obj(Vec<(String, WireLeaf)>),
}

/// The mathematical content of a [`WireValue`].
#[verifier::ext_equal]
pub enum WireValueView {
    Leaf(LeafView),
    Obj(Seq<(Seq<char>, LeafView)>),
}

impl View for WireValue {
    type V = WireValueView;

    open spec fn view(&self) -> WireValueView {
        match self {
            WireValue::Leaf(l) => WireValueView::Leaf(l@),
            WireValue::Obj(entries) => WireValueView::Obj(
                entries@.map_values(|e: (String, WireLeaf)| (e.0@, e.1@)),
            ),
        }
    }
}

/// A top-level wire document: the ordered fields of one request body.
pub struct WireDoc {
    pub entries: Vec<(String, WireValue)>,
}

impl View for WireDoc {
    type V = Seq<(Seq<char>, WireValueView)>;

    open spec fn view(&self) -> Seq<(Seq<char>, WireValueView)> {
        self.entries@.map_values(|e: (String, WireValue)| (e.0@, e.1@))
    }
}

/// The provider's camel-case schema: what the wire document of a request
/// holds, field by field.
pub open spec fn wire_of(rv: EligibilityRequestView) -> Seq<(Seq<char>, WireValueView)> {
    seq![
        (
            "amount"@,
            WireValueView::Obj(
                seq![
                    ("currency"@, LeafView::Str(rv.currency.code_view())),
                    ("value"@, LeafView::Int(rv.value)),
                ],
            ),
        ),
        ("merchantAccount"@, WireValueView::Leaf(LeafView::Str(rv.merchant_account))),
        (
            "paymentMethod"@,
            WireValueView::Obj(
                seq![
                    ("type"@, LeafView::Str(rv.payment_method.payment_method_type)),
                    ("number"@, LeafView::Str(rv.payment_method.number)),
                    ("expiryMonth"@, LeafView::Str(rv.payment_method.expiry_month)),
                    ("expiryYear"@, LeafView::Str(rv.payment_method.expiry_year)),
                    ("holderName"@, LeafView::Str(rv.payment_method.holder_name)),
                ],
            ),
        ),
        ("reference"@, WireValueView::Leaf(LeafView::Str(rv.reference))),
        ("shopperReference"@, WireValueView::Leaf(LeafView::Str(rv.shopper_reference))),
    ]
}

/// Which request, if any, a wire document decodes to: the document must have
/// exactly the schema's five fields in canonical order, a currency code from
/// the closed set, and a non-negative minor-unit value.
pub open spec fn request_of_wire(d: Seq<(Seq<char>, WireValueView)>) -> Option<
    EligibilityRequestView,
> {
    if d.len() != 5 {
        None
    } else if d[0].0 != "amount"@ || d[1].0 != "merchantAccount"@ || d[2].0 != "paymentMethod"@
        || d[3].0 != "reference"@ || d[4].0 != "shopperReference"@ {
        None
    } else {
        match (d[0].1, d[1].1, d[2].1, d[3].1, d[4].1) {
            (
                WireValueView::Obj(ae),
                WireValueView::Leaf(LeafView::Str(ma)),
                WireValueView::Obj(pe),
                WireValueView::Leaf(LeafView::Str(rf)),
                WireValueView::Leaf(LeafView::Str(sr)),
            ) => {
                if ae.len() == 2 && ae[0].0 == "currency"@ && ae[1].0 == "value"@ && pe.len() == 5
                    && pe[0].0 == "type"@ && pe[1].0 == "number"@ && pe[2].0 == "expiryMonth"@
                    && pe[3].0 == "expiryYear"@ && pe[4].0 == "holderName"@ {
                    match (ae[0].1, ae[1].1, pe[0].1, pe[1].1, pe[2].1, pe[3].1, pe[4].1) {
                        (
                            LeafView::Str(code),
                            LeafView::Int(v),
                            LeafView::Str(ty),
                            LeafView::Str(num),
                            LeafView::Str(em),
                            LeafView::Str(ey),
                            LeafView::Str(hn),
                        ) => {
                            match currency_of_code(code) {
                                Some(currency) => {
                                    if v >= 0 {
                                        Some(
                                            EligibilityRequestView {
                                                currency,
                                                value: v,
                                                merchant_account: ma,
                                                payment_method: CardDetailsView {
                                                    payment_method_type: ty,
                                                    number: num,
                                                    expiry_month: em,
                                                    expiry_year: ey,
                                                    holder_name: hn,
                                                },
                                                reference: rf,
                                                shopper_reference: sr,
                                            },
                                        )
                                    } else {
                                        None
                                    }
                                },
                                None => None,
                            }
                        },
                        _ => None,
                    }
                } else {
                    None
                }
            },
            _ => None,
        }
    }
}

impl AdyenPlatformPayoutEligibilityRequest {
    /// Renders the request into the provider's camel-case wire document.
    pub fn to_wire(&self) -> (r: WireDoc)
        ensures
            r@ == wire_of(self@),
    {
        let mut amount_entries: Vec<(String, WireLeaf)> = Vec::new();
        amount_entries.push(
            (String::from_str("currency"), WireLeaf::Str(self.amount.currency.code())),
        );
        amount_entries.push((String::from_str("value"), WireLeaf::Int(self.amount.value.get())));

        proof {
            assert(amount_entries@.map_values(|e: (String, WireLeaf)| (e.0@, e.1@)) =~= seq![
                ("currency"@, LeafView::Str(self.amount.currency.code_view())),
                ("value"@, LeafView::Int(self.amount.value.spec_get())),
            ]);
        }
        let mut card_entries: Vec<(String, WireLeaf)> = Vec::new();
        card_entries.push(
            (String::from_str("type"), WireLeaf::Str(self.payment_method.payment_method_type.clone())),
        );
        card_entries.push(
            (String::from_str("number"), WireLeaf::Str(self.payment_method.number.clone())),
        );
        card_entries.push(
            (
                String::from_str("expiryMonth"),
                WireLeaf::Str(self.payment_method.expiry_month.peek().clone()),
            ),
        );
        card_entries.push(
            (
                String::from_str("expiryYear"),
                WireLeaf::Str(self.payment_method.expiry_year.peek().clone()),
            ),
        );
        card_entries.push(
            (
                String::from_str("holderName"),
                WireLeaf::Str(self.payment_method.holder_name.peek().clone()),
            ),
        );

        proof {
            assert(card_entries@.map_values(|e: (String, WireLeaf)| (e.0@, e.1@)) =~= seq![
                ("type"@, LeafView::Str(self@.payment_method.payment_method_type)),
                ("number"@, LeafView::Str(self@.payment_method.number)),
                ("expiryMonth"@, LeafView::Str(self@.payment_method.expiry_month)),
                ("expiryYear"@, LeafView::Str(self@.payment_method.expiry_year)),
                ("holderName"@, LeafView::Str(self@.payment_method.holder_name)),
            ]);
        }
        let mut entries: Vec<(String, WireValue)> = Vec::new();
        entries.push((String::from_str("amount"), WireValue::Obj(amount_entries)));
        entries.push(
            (
                String::from_str("merchantAccount"),
                WireValue::Leaf(WireLeaf::Str(self.merchant_account.peek().clone())),
            ),
        );
        entries.push((String::from_str("paymentMethod"), WireValue::Obj(card_entries)));
        entries.push(
            (String::from_str("reference"), WireValue::Leaf(WireLeaf::Str(self.reference.clone()))),
        );
        entries.push(
            (
                String::from_str("shopperReference"),
                WireValue::Leaf(WireLeaf::Str(self.shopper_reference.clone())),
            ),
        );
        let r = WireDoc { entries };
        proof {
            assert(r@ =~~= wire_of(self@));
        }
        r
    }

    /// Decodes a canonical wire document back into a request. Succeeds on
    /// exactly the documents [`request_of_wire`] accepts; anything else is a
    /// malformed-document error.
    pub fn from_wire(doc: &WireDoc) -> (r: Result<
        AdyenPlatformPayoutEligibilityRequest,
        ConnectorError,
    >)
        ensures
            match r {
                Ok(req) => request_of_wire(doc@) == Some(req@),
                Err(e) => request_of_wire(doc@) is None && e is MalformedWireDocument,
            },
    {
        if doc.entries.len() != 5 {
            return Err(ConnectorError::MalformedWireDocument);
        }
        let e0 = &doc.entries[0];
        let e1 = &doc.entries[1];
        let e2 = &doc.entries[2];
        let e3 = &doc.entries[3];
        let e4 = &doc.entries[4];
        if !(str_eq(e0.0.as_str(), "amount") && str_eq(e1.0.as_str(), "merchantAccount") && str_eq(
            e2.0.as_str(),
            "paymentMethod",
        ) && str_eq(e3.0.as_str(), "reference") && str_eq(e4.0.as_str(), "shopperReference")) {
            return Err(ConnectorError::MalformedWireDocument);
        }
        match (&e0.1, &e1.1, &e2.1, &e3.1, &e4.1) {
            (
                WireValue::Obj(ae),
                WireValue::Leaf(WireLeaf::Str(ma)),
                WireValue::Obj(pe),
                WireValue::Leaf(WireLeaf::Str(rf)),
                WireValue::Leaf(WireLeaf::Str(sr)),
            ) => {
                if !(ae.len() == 2 && pe.len() == 5) {
                    return Err(ConnectorError::MalformedWireDocument);
                }
                let a0 = &ae[0];
                let a1 = &ae[1];
                let p0 = &pe[0];
                let p1 = &pe[1];
                let p2 = &pe[2];
                let p3 = &pe[3];
                let p4 = &pe[4];
                if !(str_eq(a0.0.as_str(), "currency") && str_eq(a1.0.as_str(), "value") && str_eq(
                    p0.0.as_str(),
                    "type",
                ) && str_eq(p1.0.as_str(), "number") && str_eq(p2.0.as_str(), "expiryMonth")
                    && str_eq(p3.0.as_str(), "expiryYear") && str_eq(p4.0.as_str(), "holderName")) {
                    return Err(ConnectorError::MalformedWireDocument);
                }
                match (&a0.1, &a1.1, &p0.1, &p1.1, &p2.1, &p3.1, &p4.1) {
                    (
                        WireLeaf::Str(code),
                        WireLeaf::Int(v),
                        WireLeaf::Str(ty),
                        WireLeaf::Str(num),
                        WireLeaf::Str(em),
                        WireLeaf::Str(ey),
                        WireLeaf::Str(hn),
                    ) => {
                        let currency = match Currency::from_code(code.as_str()) {
                            Some(c) => c,
                            None => {
                                return Err(ConnectorError::MalformedWireDocument);
                            },
                        };
                        if *v < 0 {
                            return Err(ConnectorError::MalformedWireDocument);
                        }
                        Ok(
                            AdyenPlatformPayoutEligibilityRequest {
                                amount: Amount {
                                    currency,
                                    value: MinorUnit::new(*v),
                                },
                                merchant_account: Secret::new(ma.clone()),
                                payment_method: PayoutCardDetails {
                                    payment_method_type: ty.clone(),
                                    number: num.clone(),
                                    expiry_month: Secret::new(em.clone()),
                                    expiry_year: Secret::new(ey.clone()),
                                    holder_name: Secret::new(hn.clone()),
                                },
                                reference: rf.clone(),
                                shopper_reference: sr.clone(),
                            },
                        )
                    },
                    _ => Err(ConnectorError::MalformedWireDocument),
                }
            },
            _ => Err(ConnectorError::MalformedWireDocument),
        }
    }
}

/// Law: rendering a well-formed request into the wire document and decoding
/// that document recovers the request's field values exactly.
pub proof fn lemma_wire_round_trip(rv: EligibilityRequestView)
    requires
        rv.wf(),
    ensures
        request_of_wire(wire_of(rv)) == Some(rv),
{
    crate::types::lemma_currency_code_round_trip(rv.currency);
    assert(request_of_wire(wire_of(rv)) matches Some(x) && x =~= rv);
}

} // verus!
