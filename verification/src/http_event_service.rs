//! Inbound event handling: the envelope, the payload carried by each topic,
//! the static subscription list, and one handler per topic.

use vstd::prelude::*;
use crate::datetime::DateTime;
use crate::errors::ProcessingError;
use crate::foreign_types::{User, UserAddress, UserAddressView, UserView, VendorAddress, VendorAddressView};
use crate::invoice::{
    spec_aggregation_possible, spec_invoice_for_order, Invoice, InvoiceCreatedDTO,
    InvoiceCreatedDTOView, InvoiceDTO, InvoiceDTOView,
};
use crate::order::{OrderStatus, RejectionReason};
use crate::decode::{
    decode_user, decode_user_address, decode_user_address_archived, decode_validation_succeeded,
    decode_vendor_address, spec_archive_event_decodable, spec_archive_event_ok,
    spec_user_address_event_decodable, spec_user_address_event_ok, spec_user_event_decodable,
    spec_user_event_ok, spec_validation_event_decodable, spec_validation_event_ok,
    spec_vendor_event_decodable, spec_vendor_event_ok, Value,
};
use crate::query::{spec_find_owner, spec_first_user};
use crate::store::{
    spec_add_user, spec_pushed_into_first_match, spec_removed_from_first_match,
    spec_upsert_vendor_address, Store,
};
use crate::text::{clone_opt_string, clone_string_vec, lemma_deep_view_push};

verus! {

/// Data to send to the broker in order to describe a subscription.
pub struct Pubsub {
    pub pubsubname: String,
    pub topic: String,
    pub route: String,
}

/// Response data to send to the broker when receiving an event; status `0`
/// acknowledges the delivery.
pub struct TopicEventResponse {
    pub status: u8,
}

impl Default for TopicEventResponse {
    /// The acknowledging response.
    fn default() -> (r: Self)
        ensures
            r.status == 0,
    {
        TopicEventResponse { status: 0 }
    }
}

/// The relevant part of a broker event wrapped in a cloud envelope.
pub struct Event<T> {
    pub topic: String,
    pub data: T,
}

/// The topic that carries successful order validations.
pub open spec fn order_validation_topic() -> Seq<char> {
    "discount/order/validation-succeeded"@
}

/// The topic that carries vendor address creations.
pub open spec fn vendor_address_topic() -> Seq<char> {
    "address/vendor-address/created"@
}

/// The topic that carries user creations.
pub open spec fn user_created_topic() -> Seq<char> {
    "user/user/created"@
}

/// The topic that carries user address creations.
pub open spec fn user_address_created_topic() -> Seq<char> {
    "address/user-address/created"@
}

/// The topic that carries user address archivals.
pub open spec fn user_address_archived_topic() -> Seq<char> {
    "address/user-address/archived"@
}

/// The relevant part of a vendor address creation event.
pub struct VendorAddressEventData {
    pub id: String,
    pub street1: String,
    pub street2: String,
    pub city: String,
    pub postal_code: String,
    pub country: String,
    pub company_name: String,
}

/// The relevant part of a user creation event.
pub struct UserEventData {
    pub id: String,
    pub first_name: String,
    pub last_name: String,
}

/// The relevant part of a user address creation event.
pub struct UserAddressEventData {
    pub id: String,
    pub street1: String,
    pub street2: String,
    pub city: String,
    pub postal_code: String,
    pub country: String,
    pub company_name: Option<String>,
    pub user_id: String,
}

/// The relevant part of a user address archive event.
pub struct UserAddressArchivedEventData {
    pub id: String,
    pub user_id: String,
}

/// Optional payment authorization information attached to an order. Decoded
/// and carried along, but never consulted by invoice synthesis.
#[derive(Clone, Copy, Debug, PartialEq, Eq, Structural)]
pub enum PaymentAuthorizationEventData {
    /// CVC/CVV number of 3-4 digits.
    CVC(u16),
}

/// The mathematical value of an [`OrderItemEventData`].
pub struct OrderItemEventDataView {
    pub id: Seq<char>,
    pub created_at: DateTime,
    pub product_variant_id: Seq<char>,
    pub product_variant_version_id: Seq<char>,
    pub tax_rate_version_id: Seq<char>,
    pub shopping_cart_item_id: Seq<char>,
    pub count: u64,
    pub compensatable_amount: u64,
    pub shipment_method_id: Seq<char>,
    pub discount_ids: Seq<Seq<char>>,
}

/// The relevant part of an order item in an order event.
pub struct OrderItemEventData {
    pub id: String,
    pub created_at: DateTime,
    pub product_variant_id: String,
    pub product_variant_version_id: String,
    pub tax_rate_version_id: String,
    pub shopping_cart_item_id: String,
    pub count: u64,
    pub compensatable_amount: u64,
    pub shipment_method_id: String,
    pub discount_ids: Vec<String>,
}

impl View for OrderItemEventData {
    type V = OrderItemEventDataView;

    open spec fn view(&self) -> OrderItemEventDataView {
        OrderItemEventDataView {
            id: self.id@,
            created_at: self.created_at,
            product_variant_id: self.product_variant_id@,
            product_variant_version_id: self.product_variant_version_id@,
            tax_rate_version_id: self.tax_rate_version_id@,
            shopping_cart_item_id: self.shopping_cart_item_id@,
            count: self.count,
            compensatable_amount: self.compensatable_amount,
            shipment_method_id: self.shipment_method_id@,
            discount_ids: self.discount_ids.deep_view(),
        }
    }
}

impl DeepView for OrderItemEventData {
    type V = OrderItemEventDataView;

    open spec fn deep_view(&self) -> OrderItemEventDataView {
        self.view()
    }
}

impl Clone for OrderItemEventData {
    fn clone(&self) -> (res: Self)
        ensures
            res@ == self@,
    {
        OrderItemEventData {
            id: self.id.clone(),
            created_at: self.created_at,
            product_variant_id: self.product_variant_id.clone(),
            product_variant_version_id: self.product_variant_version_id.clone(),
            tax_rate_version_id: self.tax_rate_version_id.clone(),
            shopping_cart_item_id: self.shopping_cart_item_id.clone(),
            count: self.count,
            compensatable_amount: self.compensatable_amount,
            shipment_method_id: self.shipment_method_id.clone(),
            discount_ids: clone_string_vec(&self.discount_ids),
        }
    }
}

/// The mathematical value of an [`OrderEventData`].
pub struct OrderEventDataView {
    pub id: Seq<char>,
    pub user_id: Seq<char>,
    pub created_at: DateTime,
    pub order_status: OrderStatus,
    pub placed_at: Option<DateTime>,
    pub rejection_reason: Option<RejectionReason>,
    pub order_items: Seq<OrderItemEventDataView>,
    pub shipment_address_id: Seq<char>,
    pub invoice_address_id: Seq<char>,
    pub compensatable_order_amount: u64,
    pub payment_information_id: Seq<char>,
    pub payment_authorization: Option<PaymentAuthorizationEventData>,
    pub vat_number: Option<Seq<char>>,
}

/// The order snapshot carried by a discount validation succeeded event. It
/// lives only inside a request and is never persisted verbatim.
pub struct OrderEventData {
    pub id: String,
    pub user_id: String,
    pub created_at: DateTime,
    pub order_status: OrderStatus,
    pub placed_at: Option<DateTime>,
    pub rejection_reason: Option<RejectionReason>,
    pub order_items: Vec<OrderItemEventData>,
    pub shipment_address_id: String,
    pub invoice_address_id: String,
    pub compensatable_order_amount: u64,
    pub payment_information_id: String,
    pub payment_authorization: Option<PaymentAuthorizationEventData>,
    pub vat_number: Option<String>,
}

impl View for OrderEventData {
    type V = OrderEventDataView;

    open spec fn view(&self) -> OrderEventDataView {
        OrderEventDataView {
            id: self.id@,
            user_id: self.user_id@,
            created_at: self.created_at,
            order_status: self.order_status,
            placed_at: self.placed_at,
            rejection_reason: self.rejection_reason,
            order_items: self.order_items.deep_view(),
            shipment_address_id: self.shipment_address_id@,
            invoice_address_id: self.invoice_address_id@,
            compensatable_order_amount: self.compensatable_order_amount,
            payment_information_id: self.payment_information_id@,
            payment_authorization: self.payment_authorization,
            vat_number: self.vat_number.deep_view(),
        }
    }
}

impl DeepView for OrderEventData {
    type V = OrderEventDataView;

    open spec fn deep_view(&self) -> OrderEventDataView {
        self.view()
    }
}

impl Clone for OrderEventData {
    fn clone(&self) -> (res: Self)
        ensures
            res@ == self@,
    {
        let mut order_items: Vec<OrderItemEventData> = Vec::new();
        let mut i: usize = 0;
        while i < self.order_items.len()
            invariant
                i <= self.order_items.len(),
                order_items.deep_view() == self.order_items.deep_view().take(i as int),
            decreases self.order_items.len() - i,
        {
            let item = self.order_items[i].clone();
            let ghost item_snap = item;
            let ghost pre = order_items;
            order_items.push(item);
            proof {
                lemma_deep_view_push(pre, order_items, item_snap);
                assert(order_items.deep_view() =~= self.order_items.deep_view().take(
                    i + 1 as int,
                ));
            }
            i += 1;
        }
        proof {
            assert(order_items.deep_view() =~= self.order_items.deep_view());
        }
        OrderEventData {
            id: self.id.clone(),
            user_id: self.user_id.clone(),
            created_at: self.created_at,
            order_status: self.order_status,
            placed_at: self.placed_at,
            rejection_reason: self.rejection_reason,
            order_items,
            shipment_address_id: self.shipment_address_id.clone(),
            invoice_address_id: self.invoice_address_id.clone(),
            compensatable_order_amount: self.compensatable_order_amount,
            payment_information_id: self.payment_information_id.clone(),
            payment_authorization: self.payment_authorization,
            vat_number: clone_opt_string(&self.vat_number),
        }
    }
}

/// The relevant part of a discount validation succeeded event.
pub struct DiscountValidationSucceededEventData {
    /// The order for which the discount validation succeeded.
    pub order: OrderEventData,
}

/// The subscriptions the broker should register for this service: one
/// (pubsub name, topic, route) triple per handled topic. Static
/// configuration, not computed from state.
pub fn list_topic_subscriptions() -> (r: Vec<Pubsub>)
    ensures
        r@.len() == 5,
        r@[0].pubsubname@ == "pubsub"@ && r@[0].topic@ == order_validation_topic()
            && r@[0].route@ == "/on-discount-validation-succeded"@,
        r@[1].pubsubname@ == "pubsub"@ && r@[1].topic@ == vendor_address_topic()
            && r@[1].route@ == "/on-vendor-address-creation-event"@,
        r@[2].pubsubname@ == "pubsub"@ && r@[2].topic@ == user_created_topic()
            && r@[2].route@ == "/on-id-creation-event"@,
        r@[3].pubsubname@ == "pubsub"@ && r@[3].topic@ == user_address_created_topic()
            && r@[3].route@ == "/on-user-address-creation-event"@,
        r@[4].pubsubname@ == "pubsub"@ && r@[4].topic@ == user_address_archived_topic()
            && r@[4].route@ == "/on-user-address-archived-event"@,
{
    let pubsub_order = Pubsub {
        pubsubname: String::from_str("pubsub"),
        topic: String::from_str("discount/order/validation-succeeded"),
        route: String::from_str("/on-discount-validation-succeded"),
    };
    let pubsub_vendor_address = Pubsub {
        pubsubname: String::from_str("pubsub"),
        topic: String::from_str("address/vendor-address/created"),
        route: String::from_str("/on-vendor-address-creation-event"),
    };
    let pubsub_user = Pubsub {
        pubsubname: String::from_str("pubsub"),
        topic: String::from_str("user/user/created"),
        route: String::from_str("/on-id-creation-event"),
    };
    let pubsub_user_address = Pubsub {
        pubsubname: String::from_str("pubsub"),
        topic: String::from_str("address/user-address/created"),
        route: String::from_str("/on-user-address-creation-event"),
    };
    let pubsub_user_address_archived = Pubsub {
        pubsubname: String::from_str("pubsub"),
        topic: String::from_str("address/user-address/archived"),
        route: String::from_str("/on-user-address-archived-event"),
    };
    let mut r: Vec<Pubsub> = Vec::new();
    r.push(pubsub_order);
    r.push(pubsub_vendor_address);
    r.push(pubsub_user);
    r.push(pubsub_user_address);
    r.push(pubsub_user_address_archived);
    r
}


/// The successful outcome of a validation-succeeded delivery: exactly one
/// invoice was appended, synthesized for the order against the prior store;
/// users and vendor address are untouched; the outbound payload carries the
/// original order snapshot and the invoice's id, timestamp and content.
pub open spec fn spec_validation_success(
    s0: crate::store::StoreView,
    s1: crate::store::StoreView,
    order: OrderEventDataView,
    dto: InvoiceCreatedDTOView,
) -> bool {
    &&& s1.users == s0.users
    &&& s1.vendor_address == s0.vendor_address
    &&& s1.invoices.len() == s0.invoices.len() + 1
    &&& s1.invoices == s0.invoices.push(s1.invoices.last())
    &&& spec_invoice_for_order(s0, order, s1.invoices.last())
    &&& dto.order == order
    &&& dto.invoice == (InvoiceDTOView {
        order_id: s1.invoices.last().order_id,
        issued_at: s1.invoices.last().issued_at,
        content: s1.invoices.last().content,
    })
}

/// Receives a discount order validation succeeded event: synthesizes the
/// invoice, persists it, and hands back the downstream created-event to
/// publish. A mismatching topic or a failing lookup leaves the store
/// untouched.
pub fn on_discount_order_validation_succeeded_event(
    store: &mut Store,
    event: Event<DiscountValidationSucceededEventData>,
) -> (r: Result<(TopicEventResponse, InvoiceCreatedDTO), ProcessingError>)
    ensures
        match r {
            Ok(pair) => event.topic@ == order_validation_topic() && pair.0.status == 0
                && spec_validation_success(
                old(store)@,
                final(store)@,
                event.data.order@,
                pair.1@,
            ),
            Err(e) => final(store)@ == old(store)@ && ((e == ProcessingError::TopicMismatch
                && event.topic@ != order_validation_topic()) || (e == ProcessingError::NotFound
                && event.topic@ == order_validation_topic() && !spec_aggregation_possible(
                old(store)@,
                event.data.order@,
            ))),
        },
{
    let bound = String::from_str("discount/order/validation-succeeded");
    if !(event.topic == bound) {
        return Err(ProcessingError::TopicMismatch);
    }
    let order = event.data.order;
    let invoice = match Invoice::new(&order, store) {
        Ok(i) => i,
        Err(e) => {
            return Err(e);
        },
    };
    let invoice_dto = InvoiceDTO::from_invoice(&invoice);
    let invoice_created_dto = InvoiceCreatedDTO::from_parts(order, invoice_dto);
    let ghost inv_view = invoice@;
    store.insert_invoice(invoice);
    proof {
        assert(store@.invoices.last() == inv_view);
    }
    Ok((TopicEventResponse::default(), invoice_created_dto))
}

/// Receives a vendor address creation event: overwrites the vendor address
/// slot wholesale. A mismatching topic leaves the store untouched.
pub fn on_vendor_address_created_event(
    store: &mut Store,
    event: Event<VendorAddressEventData>,
) -> (r: Result<TopicEventResponse, ProcessingError>)
    ensures
        match r {
            Ok(resp) => event.topic@ == vendor_address_topic() && resp.status == 0 && final(store)@ == spec_upsert_vendor_address(
                old(store)@,
                (VendorAddressView {
                    id: event.data.id@,
                    street1: event.data.street1@,
                    street2: event.data.street2@,
                    city: event.data.city@,
                    postal_code: event.data.postal_code@,
                    country: event.data.country@,
                    company_name: event.data.company_name@,
                }),
            ),
            Err(e) => e == ProcessingError::TopicMismatch && event.topic@
                != vendor_address_topic() && final(store)@ == old(store)@,
        },
{
    let bound = String::from_str("address/vendor-address/created");
    if !(event.topic == bound) {
        return Err(ProcessingError::TopicMismatch);
    }
    let vendor_address = VendorAddress::from_event(event.data);
    store.create_or_update_vendor_address(vendor_address);
    Ok(TopicEventResponse::default())
}

/// Receives a user address creation event: pushes the address into the
/// owning user's collection; no user matching is a no-op. A mismatching
/// topic leaves the store untouched.
pub fn on_user_address_creation_event(
    store: &mut Store,
    event: Event<UserAddressEventData>,
) -> (r: Result<TopicEventResponse, ProcessingError>)
    ensures
        match r {
            Ok(resp) => event.topic@ == user_address_created_topic() && resp.status == 0 && final(store)@.invoices == old(store)@.invoices && final(store)@.vendor_address == old(
                store,
            )@.vendor_address && spec_pushed_into_first_match(
                old(store)@.users,
                final(store)@.users,
                (UserAddressView {
                    id: event.data.id@,
                    street1: event.data.street1@,
                    street2: event.data.street2@,
                    city: event.data.city@,
                    postal_code: event.data.postal_code@,
                    country: event.data.country@,
                    company_name: event.data.company_name.deep_view(),
                    user_id: event.data.user_id@,
                }),
            ),
            Err(e) => e == ProcessingError::TopicMismatch && event.topic@
                != user_address_created_topic() && final(store)@ == old(store)@,
        },
{
    let bound = String::from_str("address/user-address/created");
    if !(event.topic == bound) {
        return Err(ProcessingError::TopicMismatch);
    }
    let user_address = UserAddress::from_event(event.data);
    let ghost av = user_address@;
    let matched = store.insert_user_address(user_address);
    proof {
        match matched {
            Some(i) => {
                assert(crate::store::spec_has_user(old(store)@.users, av.user_id));
            },
            None => {
                assert(!crate::store::spec_has_user(old(store)@.users, av.user_id));
            },
        }
    }
    Ok(TopicEventResponse::default())
}

/// Receives a user address archive event: removes the matching address from
/// the owning user's collection; an absent id or user is a no-op. A
/// mismatching topic leaves the store untouched.
pub fn on_user_address_archived_event(
    store: &mut Store,
    event: Event<UserAddressArchivedEventData>,
) -> (r: Result<TopicEventResponse, ProcessingError>)
    ensures
        match r {
            Ok(resp) => event.topic@ == user_address_archived_topic() && resp.status == 0 && final(store)@.invoices == old(store)@.invoices && final(store)@.vendor_address == old(
                store,
            )@.vendor_address && spec_removed_from_first_match(
                old(store)@.users,
                final(store)@.users,
                event.data.user_id@,
                event.data.id@,
            ),
            Err(e) => e == ProcessingError::TopicMismatch && event.topic@
                != user_address_archived_topic() && final(store)@ == old(store)@,
        },
{
    let bound = String::from_str("address/user-address/archived");
    if !(event.topic == bound) {
        return Err(ProcessingError::TopicMismatch);
    }
    let matched = store.remove_user_address(&event.data.user_id, &event.data.id);
    proof {
        match matched {
            Some(i) => {
                assert(crate::store::spec_has_user(old(store)@.users, event.data.user_id@));
            },
            None => {
                assert(!crate::store::spec_has_user(old(store)@.users, event.data.user_id@));
            },
        }
    }
    Ok(TopicEventResponse::default())
}

/// Receives a user creation event: inserts the user with an empty address
/// collection; no deduplication by user id happens. A mismatching topic
/// leaves the store untouched.
pub fn on_user_created_event(store: &mut Store, event: Event<UserEventData>) -> (r: Result<
    TopicEventResponse,
    ProcessingError,
>)
    ensures
        match r {
            Ok(resp) => event.topic@ == user_created_topic() && resp.status == 0 && final(store)@
                == spec_add_user(
                old(store)@,
                (UserView {
                    id: event.data.id@,
                    first_name: event.data.first_name@,
                    last_name: event.data.last_name@,
                    addresses: Seq::<UserAddressView>::empty(),
                }),
            ),
            Err(e) => e == ProcessingError::TopicMismatch && event.topic@ != user_created_topic()
                && final(store)@ == old(store)@,
        },
{
    let bound = String::from_str("user/user/created");
    if !(event.topic == bound) {
        return Err(ProcessingError::TopicMismatch);
    }
    let user = User::from_event(event.data);
    store.add_user(user);
    Ok(TopicEventResponse::default())
}


/// The topic is one the service subscribes to.
pub open spec fn spec_known_topic(topic: Seq<char>) -> bool {
    ||| topic == order_validation_topic()
    ||| topic == vendor_address_topic()
    ||| topic == user_created_topic()
    ||| topic == user_address_created_topic()
    ||| topic == user_address_archived_topic()
}

/// The payload decodes under the schema its topic expects.
pub open spec fn spec_topic_payload_decodable(topic: Seq<char>, payload: Value) -> bool {
    if topic == order_validation_topic() {
        spec_validation_event_decodable(payload)
    } else if topic == vendor_address_topic() {
        spec_vendor_event_decodable(payload)
    } else if topic == user_created_topic() {
        spec_user_event_decodable(payload)
    } else if topic == user_address_created_topic() {
        spec_user_address_event_decodable(payload)
    } else if topic == user_address_archived_topic() {
        spec_archive_event_decodable(payload)
    } else {
        false
    }
}

/// Routes an envelope to the handler its topic is bound to: decodes the
/// payload, applies the topic's store operation, and — for a validation
/// event — hands back the downstream created-event to publish. An unknown
/// topic, an undecodable payload or a failing lookup leaves the store
/// untouched.
pub fn dispatch_event(store: &mut Store, event: Event<Value>) -> (r: Result<
    (TopicEventResponse, Option<InvoiceCreatedDTO>),
    ProcessingError,
>)
    ensures
        match r {
            Ok(pair) => pair.0.status == 0 && ({
                ||| (event.topic@ == order_validation_topic() && (pair.1 matches Some(dto)
                    && exists|d: OrderEventDataView|
                    #[trigger] spec_validation_event_ok(event.data, d)
                        && spec_validation_success(old(store)@, final(store)@, d, dto@)))
                ||| (event.topic@ == vendor_address_topic() && pair.1 is None
                    && exists|a: VendorAddressView|
                    #[trigger] spec_vendor_event_ok(event.data, a) && final(store)@
                        == spec_upsert_vendor_address(old(store)@, a))
                ||| (event.topic@ == user_created_topic() && pair.1 is None
                    && exists|u: UserView|
                    #[trigger] spec_user_event_ok(event.data, u) && final(store)@
                        == spec_add_user(old(store)@, u))
                ||| (event.topic@ == user_address_created_topic() && pair.1 is None
                    && final(store)@.invoices == old(store)@.invoices && final(store)@.vendor_address
                    == old(store)@.vendor_address && exists|a: UserAddressView|
                    #[trigger] spec_user_address_event_ok(event.data, a)
                        && spec_pushed_into_first_match(
                        old(store)@.users,
                        final(store)@.users,
                        a,
                    ))
                ||| (event.topic@ == user_address_archived_topic() && pair.1 is None
                    && final(store)@.invoices == old(store)@.invoices && final(store)@.vendor_address
                    == old(store)@.vendor_address && exists|p: (Seq<char>, Seq<char>)|
                    #[trigger] spec_archive_event_ok(event.data, p.0, p.1)
                        && spec_removed_from_first_match(
                        old(store)@.users,
                        final(store)@.users,
                        p.1,
                        p.0,
                    ))
            }),
            Err(e) => final(store)@ == old(store)@ && ({
                ||| (e == ProcessingError::TopicMismatch && !spec_known_topic(event.topic@))
                ||| (e == ProcessingError::DecodeError && spec_known_topic(event.topic@)
                    && !spec_topic_payload_decodable(event.topic@, event.data))
                ||| (e == ProcessingError::NotFound && event.topic@ == order_validation_topic()
                    && exists|d: OrderEventDataView|
                    #[trigger] spec_validation_event_ok(event.data, d)
                        && !crate::invoice::spec_aggregation_possible(old(store)@, d))
            }),
        },
{
    proof {
        reveal_strlit("discount/order/validation-succeeded");
        reveal_strlit("address/vendor-address/created");
        reveal_strlit("user/user/created");
        reveal_strlit("address/user-address/created");
        reveal_strlit("address/user-address/archived");
    }
    if event.topic == String::from_str("discount/order/validation-succeeded") {
        let data = match decode_validation_succeeded(&event.data) {
            Ok(d) => d,
            Err(e) => {
                return Err(e);
            },
        };
        let ghost order_view = data.order@;
        match on_discount_order_validation_succeeded_event(
            store,
            Event { topic: event.topic, data },
        ) {
            Ok(pair) => {
                proof {
                    assert(spec_validation_event_ok(event.data, order_view));
                }
                Ok((pair.0, Some(pair.1)))
            },
            Err(e) => {
                proof {
                    assert(spec_validation_event_ok(event.data, order_view));
                }
                Err(e)
            },
        }
    } else if event.topic == String::from_str("address/vendor-address/created") {
        let data = match decode_vendor_address(&event.data) {
            Ok(d) => d,
            Err(e) => {
                return Err(e);
            },
        };
        let ghost address_view = (VendorAddressView {
            id: data.id@,
            street1: data.street1@,
            street2: data.street2@,
            city: data.city@,
            postal_code: data.postal_code@,
            country: data.country@,
            company_name: data.company_name@,
        });
        match on_vendor_address_created_event(store, Event { topic: event.topic, data }) {
            Ok(resp) => {
                proof {
                    assert(spec_vendor_event_ok(event.data, address_view));
                }
                Ok((resp, None))
            },
            Err(e) => Err(e),
        }
    } else if event.topic == String::from_str("user/user/created") {
        let data = match decode_user(&event.data) {
            Ok(d) => d,
            Err(e) => {
                return Err(e);
            },
        };
        let ghost user_view = (UserView {
            id: data.id@,
            first_name: data.first_name@,
            last_name: data.last_name@,
            addresses: Seq::<UserAddressView>::empty(),
        });
        match on_user_created_event(store, Event { topic: event.topic, data }) {
            Ok(resp) => {
                proof {
                    assert(spec_user_event_ok(event.data, user_view));
                }
                Ok((resp, None))
            },
            Err(e) => Err(e),
        }
    } else if event.topic == String::from_str("address/user-address/created") {
        let data = match decode_user_address(&event.data) {
            Ok(d) => d,
            Err(e) => {
                return Err(e);
            },
        };
        let ghost address_view = (UserAddressView {
            id: data.id@,
            street1: data.street1@,
            street2: data.street2@,
            city: data.city@,
            postal_code: data.postal_code@,
            country: data.country@,
            company_name: data.company_name.deep_view(),
            user_id: data.user_id@,
        });
        match on_user_address_creation_event(store, Event { topic: event.topic, data }) {
            Ok(resp) => {
                proof {
                    assert(spec_user_address_event_ok(event.data, address_view));
                }
                Ok((resp, None))
            },
            Err(e) => Err(e),
        }
    } else if event.topic == String::from_str("address/user-address/archived") {
        let data = match decode_user_address_archived(&event.data) {
            Ok(d) => d,
            Err(e) => {
                return Err(e);
            },
        };
        let ghost ids = (data.id@, data.user_id@);
        match on_user_address_archived_event(store, Event { topic: event.topic, data }) {
            Ok(resp) => {
                proof {
                    assert(spec_archive_event_ok(event.data, ids.0, ids.1));
                }
                Ok((resp, None))
            },
            Err(e) => Err(e),
        }
    } else {
        Err(ProcessingError::TopicMismatch)
    }
}


/// Law: a successful validation-succeeded delivery persists exactly one new
/// invoice, its order id equals the order's, and its rendered content lists
/// every order item's id and compensatable amount and the order's total.
pub proof fn lemma_persisted_invoice_lists_items(
    s0: crate::store::StoreView,
    s1: crate::store::StoreView,
    order: OrderEventDataView,
    dto: InvoiceCreatedDTOView,
)
    requires
        spec_validation_success(s0, s1, order, dto),
    ensures
        s1.invoices.len() == s0.invoices.len() + 1,
        s1.invoices.last().order_id == order.id,
        forall|k: int|
            0 <= k < order.order_items.len() ==> crate::text::contains_seq(
                s1.invoices.last().content,
                (#[trigger] order.order_items[k]).id,
            ) && crate::text::contains_seq(
                s1.invoices.last().content,
                crate::text::dec_rep(order.order_items[k].compensatable_amount as nat),
            ),
        crate::text::contains_seq(
            s1.invoices.last().content,
            crate::text::dec_rep(order.compensatable_order_amount as nat),
        ),
{
    let inv = s1.invoices.last();
    match spec_find_owner(s0.users, order.invoice_address_id) {
        Some(owner) => match s0.vendor_address {
            Some(vendor) => match spec_first_user(s0.users, order.user_id) {
                Some(buyer) => {
                    crate::invoice::lemma_invoice_content_lists_items(
                        order,
                        owner.1,
                        vendor,
                        buyer,
                        inv.id,
                        inv.issued_at,
                    );
                },
                None => {},
            },
            None => {},
        },
        None => {},
    }
}

} // verus!
