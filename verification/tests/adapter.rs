use adyenplatform::AdyenPlatformRouterData;
use adyenplatform::AdyenPayoutResponse;
use adyenplatform::AdyenRecurringModel;
use adyenplatform::AdyenStatus;
use adyenplatform::AdyenplatformAuthType;
use adyenplatform::AuthType;
use adyenplatform::ConnectorAuthType;
use adyenplatform::ConnectorError;
use adyenplatform::Currency;
use adyenplatform::MinorUnit;
use adyenplatform::PayoutEligibility;
use adyenplatform::Secret;

fn secret(s: &str) -> Secret {
    Secret::new(s.to_string())
}

fn empty_response(result_code: Option<&str>, response: Option<&str>) -> AdyenPayoutResponse {
    AdyenPayoutResponse {
        psp_reference: "psp-1".to_string(),
        result_code: result_code.map(|s| s.to_string()),
        response: response.map(|s| s.to_string()),
        amount: None,
        merchant_reference: None,
        refusal_reason: None,
        refusal_reason_code: None,
        additional_data: None,
        auth_code: None,
    }
}

#[test]
fn auth_header_key_succeeds_and_keeps_key() {
    let auth = ConnectorAuthType::HeaderKey { api_key: secret("api-key-1") };
    let extracted = AdyenplatformAuthType::try_from(&auth).unwrap();
    assert_eq!(extracted.api_key().peek(), "api-key-1");
}

#[test]
fn auth_other_variants_fail() {
    let candidates = vec![
        ConnectorAuthType::TemporaryAuth,
        ConnectorAuthType::BodyKey { api_key: secret("a"), key1: secret("b") },
        ConnectorAuthType::SignatureKey {
            api_key: secret("a"),
            key1: secret("b"),
            api_secret: secret("c"),
        },
        ConnectorAuthType::MultiAuthKey {
            api_key: secret("a"),
            key1: secret("b"),
            api_secret: secret("c"),
            key2: secret("d"),
        },
        ConnectorAuthType::NoKey,
    ];
    for auth in candidates {
        let r = AdyenplatformAuthType::try_from(&auth);
        assert!(matches!(r, Err(ConnectorError::FailedToObtainAuthType)));
    }
}

#[test]
fn envelope_keeps_amount_and_payload() {
    let d = AdyenPlatformRouterData::try_from(MinorUnit::new(1234), "payload".to_string())
        .unwrap();
    assert_eq!(d.amount.get(), 1234);
    assert_eq!(d.router_data, "payload");
}

#[test]
fn envelope_is_total_for_zero_amount() {
    let d = AdyenPlatformRouterData::try_from(MinorUnit::new(0), 7u32).unwrap();
    assert_eq!(d.amount.get(), 0);
    assert_eq!(d.router_data, 7u32);
}

#[test]
fn all_status_tags_parse_with_payouts_enabled() {
    let cases = vec![
        ("AuthenticationFinished", AdyenStatus::AuthenticationFinished),
        ("AuthenticationNotRequired", AdyenStatus::AuthenticationNotRequired),
        ("Authorised", AdyenStatus::Authorised),
        ("Cancelled", AdyenStatus::Cancelled),
        ("ChallengeShopper", AdyenStatus::ChallengeShopper),
        ("Error", AdyenStatus::Error),
        ("IdentifyShopper", AdyenStatus::IdentifyShopper),
        ("PartiallyAuthorised", AdyenStatus::PartiallyAuthorised),
        ("Pending", AdyenStatus::Pending),
        ("Received", AdyenStatus::Received),
        ("RedirectShopper", AdyenStatus::RedirectShopper),
        ("Refused", AdyenStatus::Refused),
        ("PresentToShopper", AdyenStatus::PresentToShopper),
        ("[payout-confirm-received]", AdyenStatus::PayoutConfirmReceived),
        ("[payout-decline-received]", AdyenStatus::PayoutDeclineReceived),
        ("[payout-submit-received]", AdyenStatus::PayoutSubmitReceived),
    ];
    for (tag, expected) in cases {
        assert_eq!(AdyenStatus::from_wire(tag, true).unwrap(), expected);
    }
}

#[test]
fn status_wire_names_round_trip() {
    let all = vec![
        AdyenStatus::AuthenticationFinished,
        AdyenStatus::AuthenticationNotRequired,
        AdyenStatus::Authorised,
        AdyenStatus::Cancelled,
        AdyenStatus::ChallengeShopper,
        AdyenStatus::Error,
        AdyenStatus::IdentifyShopper,
        AdyenStatus::PartiallyAuthorised,
        AdyenStatus::Pending,
        AdyenStatus::Received,
        AdyenStatus::RedirectShopper,
        AdyenStatus::Refused,
        AdyenStatus::PresentToShopper,
        AdyenStatus::PayoutConfirmReceived,
        AdyenStatus::PayoutDeclineReceived,
        AdyenStatus::PayoutSubmitReceived,
    ];
    for st in all {
        let name = st.wire_name();
        assert_eq!(AdyenStatus::from_wire(name.as_str(), true).unwrap(), st);
    }
}

#[test]
fn unknown_status_tag_fails() {
    let r = AdyenStatus::from_wire("Authorized", true);
    match r {
        Err(ConnectorError::UnknownStatusTag { tag }) => assert_eq!(tag, "Authorized"),
        _ => panic!("an unknown tag must fail parsing"),
    }
    assert!(matches!(
        AdyenStatus::from_wire("", true),
        Err(ConnectorError::UnknownStatusTag { .. })
    ));
}

#[test]
fn payout_tags_fail_without_capability() {
    for tag in vec![
        "[payout-confirm-received]",
        "[payout-decline-received]",
        "[payout-submit-received]",
    ] {
        assert!(matches!(
            AdyenStatus::from_wire(tag, false),
            Err(ConnectorError::UnknownStatusTag { .. })
        ));
        assert!(AdyenStatus::from_wire(tag, true).is_ok());
    }
}

#[test]
fn non_payout_tags_parse_without_capability() {
    assert_eq!(
        AdyenStatus::from_wire("Authorised", false).unwrap(),
        AdyenStatus::Authorised
    );
    assert_eq!(AdyenStatus::from_wire("Refused", false).unwrap(), AdyenStatus::Refused);
}

#[test]
fn response_with_authorised_result_code_normalizes() {
    let resp = empty_response(Some("Authorised"), None);
    let n = resp.normalize(true).unwrap();
    assert_eq!(n.status, AdyenStatus::Authorised);
    assert_eq!(n.psp_reference, "psp-1");
    assert_eq!(n.refusal_reason, None);
}

#[test]
fn response_payout_confirm_depends_on_capability() {
    let resp = empty_response(Some("[payout-confirm-received]"), None);
    let n = resp.normalize(true).unwrap();
    assert_eq!(n.status, AdyenStatus::PayoutConfirmReceived);
    let resp2 = empty_response(Some("[payout-confirm-received]"), None);
    assert!(matches!(
        resp2.normalize(false),
        Err(ConnectorError::UnknownStatusTag { .. })
    ));
}

#[test]
fn response_falls_back_to_echoed_status() {
    let resp = empty_response(None, Some("Received"));
    let n = resp.normalize(true).unwrap();
    assert_eq!(n.status, AdyenStatus::Received);
}

#[test]
fn response_without_any_status_fails() {
    let resp = empty_response(None, None);
    assert!(matches!(resp.normalize(true), Err(ConnectorError::MissingStatus)));
}

#[test]
fn response_passes_refusal_metadata_through() {
    let mut resp = empty_response(Some("Refused"), None);
    resp.merchant_reference = Some("m-ref".to_string());
    resp.refusal_reason = Some("insufficient funds".to_string());
    resp.refusal_reason_code = Some("22".to_string());
    let n = resp.normalize(true).unwrap();
    assert_eq!(n.status, AdyenStatus::Refused);
    assert_eq!(n.merchant_reference, Some("m-ref".to_string()));
    assert_eq!(n.refusal_reason, Some("insufficient funds".to_string()));
    assert_eq!(n.refusal_reason_code, Some("22".to_string()));
}

#[test]
fn eligibility_codes_round_trip() {
    let all = vec![
        (PayoutEligibility::Yes, "Y"),
        (PayoutEligibility::No, "N"),
        (PayoutEligibility::Domestic, "D"),
        (PayoutEligibility::Unknown, "U"),
    ];
    for (v, code) in all {
        assert_eq!(v.wire_code(), code);
        assert_eq!(PayoutEligibility::from_wire_code(code), Some(v));
    }
    assert_eq!(PayoutEligibility::from_wire_code("X"), None);
    assert_eq!(PayoutEligibility::default(), PayoutEligibility::No);
}

#[test]
fn recurring_models_round_trip() {
    let all = vec![
        AdyenRecurringModel::Subscription,
        AdyenRecurringModel::UnscheduledCardOnFile,
        AdyenRecurringModel::CardOnFile,
    ];
    for m in all {
        let name = m.wire_name();
        assert_eq!(AdyenRecurringModel::from_wire(name.as_str()), Some(m));
    }
    assert_eq!(AdyenRecurringModel::from_wire("subscription"), None);
}

#[test]
fn auth_type_defaults_to_pre_auth() {
    assert_eq!(AuthType::default(), AuthType::PreAuth);
}

#[test]
fn minor_unit_rejects_negative_values() {
    assert_eq!(MinorUnit::try_new(-1), None);
    assert_eq!(MinorUnit::try_new(0).unwrap().get(), 0);
    assert_eq!(MinorUnit::try_new(i64::MAX).unwrap().get(), i64::MAX);
}

#[test]
fn currency_codes_round_trip() {
    let all = vec![
        Currency::AUD,
        Currency::CAD,
        Currency::CHF,
        Currency::EUR,
        Currency::GBP,
        Currency::INR,
        Currency::JPY,
        Currency::SEK,
        Currency::SGD,
        Currency::USD,
    ];
    for c in all {
        assert_eq!(Currency::from_code(c.code().as_str()), Some(c));
    }
    assert_eq!(Currency::from_code("usd"), None);
    assert_eq!(Currency::from_code("XXX"), None);
}
