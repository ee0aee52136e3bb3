use invoice::datetime::DateTime;
use invoice::errors::ProcessingError;
use invoice::foreign_types::{User, UserAddress, VendorAddress};
use invoice::http_event_service::{
    list_topic_subscriptions, on_discount_order_validation_succeeded_event,
    on_user_address_archived_event, on_user_address_creation_event, on_user_created_event,
    on_vendor_address_created_event, DiscountValidationSucceededEventData, Event, OrderEventData,
    OrderItemEventData, TopicEventResponse, UserAddressArchivedEventData, UserAddressEventData,
    UserEventData, VendorAddressEventData,
};
use invoice::order::OrderStatus;
use invoice::query::{
    project_user_to_user_address, query_invoice_by_order_id, query_user_address_user,
    query_vendor_address, Query,
};
use invoice::stage::RequestStage;
use invoice::store::Store;

fn sample_datetime() -> DateTime {
    DateTime { year: 2024, month: 5, day: 17, hour: 10, minute: 30, second: 0 }
}

fn vendor_event_data() -> VendorAddressEventData {
    VendorAddressEventData {
        id: "V1".to_string(),
        street1: "Vendor Way 1".to_string(),
        street2: "Suite 2".to_string(),
        city: "Vendortown".to_string(),
        postal_code: "12345".to_string(),
        country: "Utopia".to_string(),
        company_name: "Acme".to_string(),
    }
}

fn user_u1() -> User {
    User {
        _id: "U1".to_string(),
        first_name: "Ada".to_string(),
        last_name: "Lovelace".to_string(),
        addresses: vec![address_a1()],
    }
}

fn address_a1() -> UserAddress {
    UserAddress {
        _id: "A1".to_string(),
        street1: "Main St".to_string(),
        street2: "Floor 3".to_string(),
        city: "Town".to_string(),
        postal_code: "99999".to_string(),
        country: "Utopia".to_string(),
        company_name: None,
        user_id: "U1".to_string(),
    }
}

fn order_o1() -> OrderEventData {
    OrderEventData {
        id: "O1".to_string(),
        user_id: "U1".to_string(),
        created_at: sample_datetime(),
        order_status: OrderStatus::Placed,
        placed_at: None,
        rejection_reason: None,
        order_items: vec![OrderItemEventData {
            id: "I1".to_string(),
            created_at: sample_datetime(),
            product_variant_id: "P1".to_string(),
            product_variant_version_id: "PV1".to_string(),
            tax_rate_version_id: "T1".to_string(),
            shopping_cart_item_id: "S1".to_string(),
            count: 2,
            compensatable_amount: 2000,
            shipment_method_id: "SM1".to_string(),
            discount_ids: vec![],
        }],
        shipment_address_id: "A1".to_string(),
        invoice_address_id: "A1".to_string(),
        compensatable_order_amount: 5000,
        payment_information_id: "PI1".to_string(),
        payment_authorization: None,
        vat_number: None,
    }
}

fn populated_store() -> Store {
    let mut store = Store::new();
    store.add_user(user_u1());
    store.create_or_update_vendor_address(VendorAddress {
        _id: "V1".to_string(),
        street1: "Vendor Way 1".to_string(),
        street2: "Suite 2".to_string(),
        city: "Vendortown".to_string(),
        postal_code: "12345".to_string(),
        country: "Utopia".to_string(),
        company_name: "Acme".to_string(),
    });
    store
}

fn validation_event() -> Event<DiscountValidationSucceededEventData> {
    Event {
        topic: "discount/order/validation-succeeded".to_string(),
        data: DiscountValidationSucceededEventData { order: order_o1() },
    }
}

#[test]
fn subscription_list_has_five_topics() {
    let subs = list_topic_subscriptions();
    assert_eq!(subs.len(), 5);
    let topics: Vec<&str> = subs.iter().map(|p| p.topic.as_str()).collect();
    assert_eq!(
        topics,
        vec![
            "discount/order/validation-succeeded",
            "address/vendor-address/created",
            "user/user/created",
            "address/user-address/created",
            "address/user-address/archived",
        ]
    );
    for p in &subs {
        assert_eq!(p.pubsubname, "pubsub");
        assert!(p.route.starts_with('/'));
    }
    assert_eq!(subs[0].route, "/on-discount-validation-succeded");
}

#[test]
fn default_response_acknowledges() {
    let resp = TopicEventResponse::default();
    assert_eq!(resp.status, 0);
}

#[test]
fn topic_mismatch_is_rejected_without_side_effects() {
    let mut store = Store::new();
    let event = Event { topic: "address/user-address/created".to_string(), data: vendor_event_data() };
    let r = on_vendor_address_created_event(&mut store, event);
    assert_eq!(r.err(), Some(ProcessingError::TopicMismatch));
    assert!(store.vendor_address.is_none());
    assert_eq!(store.invoices.len(), 0);
    assert_eq!(store.users.len(), 0);

    let mut store = populated_store();
    let mut event = validation_event();
    event.topic = "something/else".to_string();
    let r = on_discount_order_validation_succeeded_event(&mut store, event);
    assert_eq!(r.err(), Some(ProcessingError::TopicMismatch));
    assert_eq!(store.invoices.len(), 0);
}

#[test]
fn vendor_upserts_converge_to_last_delivery() {
    let mut store = Store::new();
    let first = Event { topic: "address/vendor-address/created".to_string(), data: vendor_event_data() };
    assert!(on_vendor_address_created_event(&mut store, first).is_ok());
    let mut second_data = vendor_event_data();
    second_data.city = "Newtown".to_string();
    let second = Event { topic: "address/vendor-address/created".to_string(), data: second_data };
    assert!(on_vendor_address_created_event(&mut store, second).is_ok());
    let va = store.vendor_address.as_ref().expect("vendor address must exist");
    assert_eq!(va.city, "Newtown");
    assert_eq!(va.company_name, "Acme");
    assert_eq!(store.invoices.len(), 0);
    assert_eq!(store.users.len(), 0);
}

#[test]
fn user_creation_starts_with_no_addresses() {
    let mut store = Store::new();
    let event = Event {
        topic: "user/user/created".to_string(),
        data: UserEventData {
            id: "U7".to_string(),
            first_name: "Grace".to_string(),
            last_name: "Hopper".to_string(),
        },
    };
    assert!(on_user_created_event(&mut store, event).is_ok());
    assert_eq!(store.users.len(), 1);
    assert_eq!(store.users[0]._id, "U7");
    assert!(store.users[0].addresses.is_empty());
}

#[test]
fn address_push_duplicates_on_redelivery() {
    let mut store = Store::new();
    store.add_user(User {
        _id: "U1".to_string(),
        first_name: "Ada".to_string(),
        last_name: "Lovelace".to_string(),
        addresses: vec![],
    });
    let data = UserAddressEventData {
        id: "A1".to_string(),
        street1: "Main St".to_string(),
        street2: "Floor 3".to_string(),
        city: "Town".to_string(),
        postal_code: "99999".to_string(),
        country: "Utopia".to_string(),
        company_name: Some("Home".to_string()),
        user_id: "U1".to_string(),
    };
    let event = Event { topic: "address/user-address/created".to_string(), data };
    assert!(on_user_address_creation_event(&mut store, event).is_ok());
    assert_eq!(store.users[0].addresses.len(), 1);
    assert_eq!(store.users[0].addresses[0]._id, "A1");
    let data = UserAddressEventData {
        id: "A1".to_string(),
        street1: "Main St".to_string(),
        street2: "Floor 3".to_string(),
        city: "Town".to_string(),
        postal_code: "99999".to_string(),
        country: "Utopia".to_string(),
        company_name: Some("Home".to_string()),
        user_id: "U1".to_string(),
    };
    let event = Event { topic: "address/user-address/created".to_string(), data };
    assert!(on_user_address_creation_event(&mut store, event).is_ok());
    assert_eq!(store.users[0].addresses.len(), 2);
}

#[test]
fn address_push_without_owner_is_noop() {
    let mut store = Store::new();
    let data = UserAddressEventData {
        id: "A1".to_string(),
        street1: "Main St".to_string(),
        street2: "".to_string(),
        city: "Town".to_string(),
        postal_code: "99999".to_string(),
        country: "Utopia".to_string(),
        company_name: None,
        user_id: "UNKNOWN".to_string(),
    };
    let event = Event { topic: "address/user-address/created".to_string(), data };
    assert!(on_user_address_creation_event(&mut store, event).is_ok());
    assert_eq!(store.users.len(), 0);
}

#[test]
fn archive_removes_exactly_the_matching_address() {
    let mut store = Store::new();
    let mut user = user_u1();
    let mut a2 = address_a1();
    a2._id = "A2".to_string();
    a2.street1 = "Second St".to_string();
    user.addresses.push(a2);
    store.add_user(user);

    let event = Event {
        topic: "address/user-address/archived".to_string(),
        data: UserAddressArchivedEventData { id: "A1".to_string(), user_id: "U1".to_string() },
    };
    assert!(on_user_address_archived_event(&mut store, event).is_ok());
    assert_eq!(store.users[0].addresses.len(), 1);
    assert_eq!(store.users[0].addresses[0]._id, "A2");
    assert_eq!(store.users[0].addresses[0].street1, "Second St");
    assert_eq!(store.users[0].first_name, "Ada");
}

#[test]
fn archiving_an_absent_id_is_a_noop() {
    let mut store = Store::new();
    store.add_user(user_u1());
    let event = Event {
        topic: "address/user-address/archived".to_string(),
        data: UserAddressArchivedEventData { id: "A9".to_string(), user_id: "U1".to_string() },
    };
    assert!(on_user_address_archived_event(&mut store, event).is_ok());
    assert_eq!(store.users[0].addresses.len(), 1);
    assert_eq!(store.users[0].addresses[0]._id, "A1");
}

#[test]
fn validation_event_synthesizes_and_persists_one_invoice() {
    let mut store = populated_store();
    let r = on_discount_order_validation_succeeded_event(&mut store, validation_event());
    let (resp, dto) = r.expect("pipeline must succeed");
    assert_eq!(resp.status, 0);
    assert_eq!(store.invoices.len(), 1);
    let inv = &store.invoices[0];
    assert_eq!(inv.order_id, "O1");
    assert_eq!(inv._id.len(), 36);
    assert_eq!(inv.vat_number, None);
    assert_eq!(inv.user_address._id, "A1");
    assert_eq!(inv.vendor_address.company_name, "Acme");
    for needle in ["Acme", "Main St", "I1", "P1", "2", "2000", "5000"] {
        assert!(inv.content.contains(needle), "content misses {needle}: {}", inv.content);
    }
    assert!(inv.content.contains("VAT number: -"));
    assert!(inv.content.contains("Ada"));
    assert!(inv.content.contains("Total compensatable amount: 5000"));
    assert_eq!(dto.order.id, "O1");
    assert_eq!(dto.order.compensatable_order_amount, 5000);
    assert_eq!(dto.invoice.order_id, "O1");
    assert_eq!(dto.invoice.content, inv.content);
}

#[test]
fn redelivering_the_same_validation_event_yields_two_invoices() {
    let mut store = populated_store();
    assert!(on_discount_order_validation_succeeded_event(&mut store, validation_event()).is_ok());
    assert!(on_discount_order_validation_succeeded_event(&mut store, validation_event()).is_ok());
    assert_eq!(store.invoices.len(), 2);
    assert_eq!(store.invoices[0].order_id, "O1");
    assert_eq!(store.invoices[1].order_id, "O1");
}

#[test]
fn missing_address_owner_aborts_with_not_found() {
    let mut store = populated_store();
    let mut event = validation_event();
    event.data.order.invoice_address_id = "A404".to_string();
    let r = on_discount_order_validation_succeeded_event(&mut store, event);
    assert_eq!(r.err(), Some(ProcessingError::NotFound));
    assert_eq!(store.invoices.len(), 0);
}

#[test]
fn missing_vendor_address_aborts_with_not_found() {
    let mut store = Store::new();
    store.add_user(user_u1());
    let r = on_discount_order_validation_succeeded_event(&mut store, validation_event());
    assert_eq!(r.err(), Some(ProcessingError::NotFound));
    assert_eq!(store.invoices.len(), 0);
}

#[test]
fn owner_lookup_projects_single_address() {
    let store = populated_store();
    let projected = query_user_address_user(&store.users, &"A1".to_string()).expect("owner");
    assert_eq!(projected._id, "U1");
    assert_eq!(projected.first_name, "");
    assert_eq!(projected.last_name, "");
    assert_eq!(projected.addresses.len(), 1);
    assert_eq!(projected.addresses[0]._id, "A1");
    let addr = project_user_to_user_address(&projected).expect("projection");
    assert_eq!(addr.street1, "Main St");

    let missing = query_user_address_user(&store.users, &"A404".to_string());
    assert_eq!(missing.err(), Some(ProcessingError::NotFound));
}

#[test]
fn vendor_lookup_fails_until_created() {
    let store = Store::new();
    assert_eq!(query_vendor_address(&store).err(), Some(ProcessingError::NotFound));
    let store = populated_store();
    let va = query_vendor_address(&store).expect("vendor address");
    assert_eq!(va.company_name, "Acme");
}

#[test]
fn query_surface_resolves_invoices_and_orders() {
    let mut store = populated_store();
    assert!(on_discount_order_validation_succeeded_event(&mut store, validation_event()).is_ok());
    let inv = query_invoice_by_order_id(&store.invoices, &"O1".to_string()).expect("invoice");
    let invoice_id = inv._id.clone();
    let q = Query;
    let by_id = q.invoice(&store, &invoice_id).expect("invoice by id");
    assert_eq!(by_id.order_id, "O1");
    let by_entity = q.invoice_entity_resolver(&store, &invoice_id).expect("entity");
    assert_eq!(by_entity._id, invoice_id);
    let order = q.order_entity_resolver(&store, &"O1".to_string()).expect("order");
    assert_eq!(order._id, "O1");
    assert_eq!(order.invoice.order_id, "O1");
    assert_eq!(
        q.order_entity_resolver(&store, &"O404".to_string()).err(),
        Some(ProcessingError::NotFound)
    );
}

#[test]
fn request_stages_advance_in_order_and_failure_is_terminal() {
    let mut stage = RequestStage::Received;
    for expected in [
        RequestStage::Decoded,
        RequestStage::Aggregated,
        RequestStage::Synthesized,
        RequestStage::Persisted,
        RequestStage::Published,
        RequestStage::Acknowledged,
    ] {
        stage = stage.advance(Ok(()));
        assert_eq!(stage, expected);
    }
    let failed = RequestStage::Aggregated.advance(Err(ProcessingError::NotFound));
    assert_eq!(failed, RequestStage::Failed(ProcessingError::NotFound));
    let still_failed = failed.advance(Ok(()));
    assert_eq!(still_failed, RequestStage::Failed(ProcessingError::NotFound));
    let still_failed = still_failed.advance(Err(ProcessingError::PublishError));
    assert_eq!(still_failed, RequestStage::Failed(ProcessingError::NotFound));
}

#[test]
fn error_messages_name_each_kind() {
    assert!(ProcessingError::TopicMismatch.message().contains("topic"));
    assert!(ProcessingError::DecodeError.message().contains("decoded"));
    assert!(ProcessingError::NotFound.message().contains("not found"));
    assert!(ProcessingError::PersistenceError.message().contains("store"));
    assert!(ProcessingError::PublishError.message().contains("publish"));
}
