use adyenplatform::AdyenPlatformPayoutEligibilityRequest;
use adyenplatform::Amount;
use adyenplatform::ConnectorError;
use adyenplatform::Currency;
use adyenplatform::MinorUnit;
use adyenplatform::PayoutCardDetails;
use adyenplatform::Secret;
use adyenplatform::WireDoc;
use adyenplatform::WireLeaf;
use adyenplatform::WireValue;

fn leaf_to_json(leaf: &WireLeaf) -> serde_json::Value {
    match leaf {
        WireLeaf::Str(s) => serde_json::Value::String(s.clone()),
        WireLeaf::Int(i) => serde_json::Value::Number(serde_json::Number::from(*i)),
    }
}

fn value_to_json(v: &WireValue) -> serde_json::Value {
    match v {
        WireValue::Leaf(l) => leaf_to_json(l),
        WireValue::Obj(entries) => {
            let mut m = serde_json::Map::new();
            for (k, l) in entries {
                m.insert(k.clone(), leaf_to_json(l));
            }
            serde_json::Value::Object(m)
        }
    }
}

fn doc_to_json(doc: &WireDoc) -> serde_json::Value {
    let mut m = serde_json::Map::new();
    for (k, v) in &doc.entries {
        m.insert(k.clone(), value_to_json(v));
    }
    serde_json::Value::Object(m)
}

fn sample_request() -> AdyenPlatformPayoutEligibilityRequest {
    AdyenPlatformPayoutEligibilityRequest::new(
        Amount::new(Currency::USD, MinorUnit::new(1000)),
        Secret::new("M1".to_string()),
        PayoutCardDetails::new(
            "scheme".to_string(),
            "4111111111111111".to_string(),
            Secret::new("03".to_string()),
            Secret::new("2030".to_string()),
            Secret::new("J Doe".to_string()),
        ),
        "ref-1".to_string(),
        "sh-1".to_string(),
    )
}

#[test]
fn request_serializes_to_camel_case_schema() {
    let req = sample_request();
    let json = doc_to_json(&req.to_wire());
    let expected_amount: serde_json::Value =
        serde_json::from_str("{\"currency\":\"USD\",\"value\":1000}").unwrap();
    assert_eq!(json["amount"], expected_amount);
    assert_eq!(
        json["paymentMethod"]["number"],
        serde_json::Value::String("4111111111111111".to_string())
    );
    let expected: serde_json::Value = serde_json::from_str(
        "{\"amount\":{\"currency\":\"USD\",\"value\":1000},\
          \"merchantAccount\":\"M1\",\
          \"paymentMethod\":{\"type\":\"scheme\",\"number\":\"4111111111111111\",\
          \"expiryMonth\":\"03\",\"expiryYear\":\"2030\",\"holderName\":\"J Doe\"},\
          \"reference\":\"ref-1\",\"shopperReference\":\"sh-1\"}",
    )
    .unwrap();
    assert_eq!(json, expected);
}

#[test]
fn wire_document_lists_fields_in_canonical_order() {
    let req = sample_request();
    let doc = req.to_wire();
    let keys: Vec<&str> = doc.entries.iter().map(|e| e.0.as_str()).collect();
    assert_eq!(
        keys,
        vec!["amount", "merchantAccount", "paymentMethod", "reference", "shopperReference"]
    );
}

#[test]
fn wire_round_trip_recovers_every_field() {
    let req = sample_request();
    let doc = req.to_wire();
    let back = AdyenPlatformPayoutEligibilityRequest::from_wire(&doc).unwrap();
    assert_eq!(back.amount, Amount::new(Currency::USD, MinorUnit::new(1000)));
    assert_eq!(back.merchant_account.peek(), "M1");
    assert_eq!(back.payment_method.payment_method_type, "scheme");
    assert_eq!(back.payment_method.number, "4111111111111111");
    assert_eq!(back.payment_method.expiry_month.peek(), "03");
    assert_eq!(back.payment_method.expiry_year.peek(), "2030");
    assert_eq!(back.payment_method.holder_name.peek(), "J Doe");
    assert_eq!(back.reference, "ref-1");
    assert_eq!(back.shopper_reference, "sh-1");
}

#[test]
fn malformed_wire_document_is_rejected() {
    let empty = WireDoc { entries: Vec::new() };
    assert!(matches!(
        AdyenPlatformPayoutEligibilityRequest::from_wire(&empty),
        Err(ConnectorError::MalformedWireDocument)
    ));

    let mut doc = sample_request().to_wire();
    doc.entries[0].0 = "Amount".to_string();
    assert!(matches!(
        AdyenPlatformPayoutEligibilityRequest::from_wire(&doc),
        Err(ConnectorError::MalformedWireDocument)
    ));

    let mut doc2 = sample_request().to_wire();
    doc2.entries[1].1 = WireValue::Leaf(WireLeaf::Int(3));
    assert!(matches!(
        AdyenPlatformPayoutEligibilityRequest::from_wire(&doc2),
        Err(ConnectorError::MalformedWireDocument)
    ));
}
