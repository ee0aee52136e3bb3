use invoice::datetime::DateTime;
use invoice::foreign_types::{User, VendorAddress};
use invoice::http_event_service::dispatch_event;
use invoice::decode::{
    decode_order, decode_user, decode_user_address, decode_user_address_archived,
    decode_validation_succeeded, decode_vendor_address, Value,
};
use invoice::errors::ProcessingError;
use invoice::http_event_service::{Event, PaymentAuthorizationEventData};
use invoice::order::{OrderStatus, RejectionReason};
use invoice::store::Store;

fn obj(fields: Vec<(&str, Value)>) -> Value {
    Value::Obj(fields.into_iter().map(|(k, v)| (k.to_string(), v)).collect())
}

fn s(text: &str) -> Value {
    Value::Str(text.to_string())
}

fn order_payload() -> Value {
    obj(vec![
        ("id", s("O1")),
        ("userId", s("U1")),
        ("createdAt", s("2024-05-17T10:30:00Z")),
        ("orderStatus", s("Placed")),
        ("placedAt", Value::Null),
        ("rejectionReason", Value::Null),
        (
            "orderItems",
            Value::Arr(vec![obj(vec![
                ("id", s("I1")),
                ("createdAt", s("2024-05-17T10:30:00Z")),
                ("productVariantId", s("P1")),
                ("productVariantVersionId", s("PV1")),
                ("taxRateVersionId", s("T1")),
                ("shoppingCartItemId", s("S1")),
                ("count", Value::UInt(2)),
                ("compensatableAmount", Value::UInt(2000)),
                ("shipmentMethodId", s("SM1")),
                ("discountIds", Value::Arr(vec![s("D1"), s("D2")])),
            ])]),
        ),
        ("shipmentAddressId", s("A1")),
        ("invoiceAddressId", s("A1")),
        ("compensatableOrderAmount", Value::UInt(5000)),
        ("paymentInformationId", s("PI1")),
        ("paymentAuthorization", obj(vec![("CVC", Value::UInt(123))])),
        ("vatNumber", s("VAT-7")),
    ])
}

#[test]
fn vendor_payload_decodes_all_fields() {
    let v = obj(vec![
        ("id", s("V1")),
        ("street1", s("Vendor Way 1")),
        ("street2", s("Suite 2")),
        ("city", s("Vendortown")),
        ("postal_code", s("12345")),
        ("country", s("Utopia")),
        ("company_name", s("Acme")),
    ]);
    let d = decode_vendor_address(&v).expect("decodes");
    assert_eq!(d.id, "V1");
    assert_eq!(d.postal_code, "12345");
    assert_eq!(d.company_name, "Acme");
}

#[test]
fn missing_required_field_fails_decoding() {
    let v = obj(vec![("id", s("V1"))]);
    assert_eq!(decode_vendor_address(&v).err(), Some(ProcessingError::DecodeError));
    let v = obj(vec![("id", s("U1")), ("first_name", s("Ada"))]);
    assert_eq!(decode_user(&v).err(), Some(ProcessingError::DecodeError));
}

#[test]
fn wrongly_typed_field_fails_decoding() {
    let v = obj(vec![
        ("id", Value::UInt(7)),
        ("first_name", s("Ada")),
        ("last_name", s("Lovelace")),
    ]);
    assert_eq!(decode_user(&v).err(), Some(ProcessingError::DecodeError));
}

#[test]
fn user_payload_decodes() {
    let v = obj(vec![
        ("id", s("U1")),
        ("first_name", s("Ada")),
        ("last_name", s("Lovelace")),
    ]);
    let d = decode_user(&v).expect("decodes");
    assert_eq!((d.id.as_str(), d.first_name.as_str(), d.last_name.as_str()), ("U1", "Ada", "Lovelace"));
}

fn user_address_fields(company: Option<Value>) -> Value {
    let mut fields = vec![
        ("id", s("A1")),
        ("street1", s("Main St")),
        ("street2", s("Floor 3")),
        ("city", s("Town")),
        ("postalCode", s("99999")),
        ("country", s("Utopia")),
        ("userId", s("U1")),
    ];
    if let Some(c) = company {
        fields.push(("companyName", c));
    }
    obj(fields)
}

#[test]
fn user_address_company_name_defaults_to_absent() {
    let d = decode_user_address(&user_address_fields(None)).expect("decodes without company");
    assert_eq!(d.company_name, None);
    let d = decode_user_address(&user_address_fields(Some(s("Home"))))
        .expect("decodes with company");
    assert_eq!(d.company_name, Some("Home".to_string()));
    let d = decode_user_address(&user_address_fields(Some(Value::Null)))
        .expect("decodes with null company");
    assert_eq!(d.company_name, None);
}

#[test]
fn archive_payload_decodes_both_ids() {
    let v = obj(vec![("id", s("A1")), ("userId", s("U1"))]);
    let d = decode_user_address_archived(&v).expect("decodes");
    assert_eq!(d.id, "A1");
    assert_eq!(d.user_id, "U1");
}

#[test]
fn order_payload_decodes_with_parsed_timestamps() {
    let d = decode_order(&order_payload()).expect("decodes");
    assert_eq!(d.id, "O1");
    assert_eq!(d.user_id, "U1");
    assert_eq!(
        d.created_at,
        DateTime { year: 2024, month: 5, day: 17, hour: 10, minute: 30, second: 0 }
    );
    assert_eq!(d.order_status, OrderStatus::Placed);
    assert_eq!(d.placed_at, None);
    assert_eq!(d.rejection_reason, None);
    assert_eq!(d.order_items.len(), 1);
    assert_eq!(d.order_items[0].count, 2);
    assert_eq!(d.order_items[0].compensatable_amount, 2000);
    assert_eq!(d.order_items[0].discount_ids, vec!["D1".to_string(), "D2".to_string()]);
    assert_eq!(d.compensatable_order_amount, 5000);
    assert_eq!(d.payment_authorization, Some(PaymentAuthorizationEventData::CVC(123)));
    assert_eq!(d.vat_number, Some("VAT-7".to_string()));
}

#[test]
fn order_timestamp_offsets_are_normalized() {
    let mut fields = vec![
        ("id", s("O2")),
        ("userId", s("U1")),
        ("createdAt", s("2024-05-17T10:30:00+02:00")),
        ("orderStatus", s("Rejected")),
        ("rejectionReason", s("InvalidOrderData")),
        ("orderItems", Value::Arr(vec![])),
        ("shipmentAddressId", s("A1")),
        ("invoiceAddressId", s("A1")),
        ("compensatableOrderAmount", Value::UInt(0)),
        ("paymentInformationId", s("PI1")),
    ];
    fields.push(("placedAt", s("2024-05-17T23:30:00-02:30")));
    let d = decode_order(&obj(fields)).expect("decodes");
    assert_eq!(d.created_at.hour, 8);
    assert_eq!(d.order_status, OrderStatus::Rejected);
    assert_eq!(d.rejection_reason, Some(RejectionReason::InvalidOrderData));
    let placed = d.placed_at.expect("placed at present");
    assert_eq!((placed.month, placed.day, placed.hour, placed.minute), (5, 18, 2, 0));
}

#[test]
fn malformed_timestamp_fails_decoding() {
    let mut fields = order_payload();
    if let Value::Obj(ref mut pairs) = fields {
        for pair in pairs.iter_mut() {
            if pair.0 == "createdAt" {
                pair.1 = s("yesterday at noon");
            }
        }
    }
    assert_eq!(decode_order(&fields).err(), Some(ProcessingError::DecodeError));
}

#[test]
fn unknown_order_status_fails_decoding() {
    let mut fields = order_payload();
    if let Value::Obj(ref mut pairs) = fields {
        for pair in pairs.iter_mut() {
            if pair.0 == "orderStatus" {
                pair.1 = s("Lost");
            }
        }
    }
    assert_eq!(decode_order(&fields).err(), Some(ProcessingError::DecodeError));
}

#[test]
fn validation_payload_wraps_an_order() {
    let v = obj(vec![("order", order_payload())]);
    let d = decode_validation_succeeded(&v).expect("decodes");
    assert_eq!(d.order.id, "O1");
    let empty = obj(vec![]);
    assert_eq!(decode_validation_succeeded(&empty).err(), Some(ProcessingError::DecodeError));
}

#[test]
fn dispatch_routes_by_topic_and_rejects_unknown() {
    let mut store = Store::new();
    store.add_user(User {
        _id: "U1".to_string(),
        first_name: "Ada".to_string(),
        last_name: "Lovelace".to_string(),
        addresses: vec![],
    });
    store.create_or_update_vendor_address(VendorAddress {
        _id: "V1".to_string(),
        street1: "Vendor Way 1".to_string(),
        street2: "Suite 2".to_string(),
        city: "Vendortown".to_string(),
        postal_code: "12345".to_string(),
        country: "Utopia".to_string(),
        company_name: "Acme".to_string(),
    });

    let address_event = Event {
        topic: "address/user-address/created".to_string(),
        data: obj(vec![
            ("id", s("A1")),
            ("street1", s("Main St")),
            ("street2", s("Floor 3")),
            ("city", s("Town")),
            ("postalCode", s("99999")),
            ("country", s("Utopia")),
            ("userId", s("U1")),
        ]),
    };
    let (resp, dto) = dispatch_event(&mut store, address_event).expect("address push routed");
    assert_eq!(resp.status, 0);
    assert!(dto.is_none());
    assert_eq!(store.users[0].addresses.len(), 1);

    let validation = Event {
        topic: "discount/order/validation-succeeded".to_string(),
        data: obj(vec![("order", order_payload())]),
    };
    let (resp, dto) = dispatch_event(&mut store, validation).expect("validation routed");
    assert_eq!(resp.status, 0);
    let dto = dto.expect("validation returns the outbound event");
    assert_eq!(dto.invoice.order_id, "O1");
    assert_eq!(store.invoices.len(), 1);

    let unknown = Event { topic: "unknown/topic".to_string(), data: Value::Null };
    assert_eq!(dispatch_event(&mut store, unknown).err(), Some(ProcessingError::TopicMismatch));

    let undecodable = Event {
        topic: "user/user/created".to_string(),
        data: obj(vec![("id", s("U9"))]),
    };
    assert_eq!(dispatch_event(&mut store, undecodable).err(), Some(ProcessingError::DecodeError));
    assert_eq!(store.users.len(), 1);
}

#[test]
fn dispatch_handles_vendor_and_archive_topics() {
    let mut store = Store::new();
    let vendor = Event {
        topic: "address/vendor-address/created".to_string(),
        data: obj(vec![
            ("id", s("V1")),
            ("street1", s("Vendor Way 1")),
            ("street2", s("Suite 2")),
            ("city", s("Vendortown")),
            ("postal_code", s("12345")),
            ("country", s("Utopia")),
            ("company_name", s("Acme")),
        ]),
    };
    let (resp, dto) = dispatch_event(&mut store, vendor).expect("vendor routed");
    assert_eq!(resp.status, 0);
    assert!(dto.is_none());
    assert_eq!(store.vendor_address.as_ref().map(|v| v.company_name.as_str()), Some("Acme"));

    store.add_user(User {
        _id: "U1".to_string(),
        first_name: "Ada".to_string(),
        last_name: "Lovelace".to_string(),
        addresses: vec![],
    });
    let created = Event {
        topic: "address/user-address/created".to_string(),
        data: user_address_fields(None),
    };
    assert!(dispatch_event(&mut store, created).is_ok());
    assert_eq!(store.users[0].addresses.len(), 1);
    let archived = Event {
        topic: "address/user-address/archived".to_string(),
        data: obj(vec![("id", s("A1")), ("userId", s("U1"))]),
    };
    assert!(dispatch_event(&mut store, archived).is_ok());
    assert_eq!(store.users[0].addresses.len(), 0);
}
