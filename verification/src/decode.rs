//! The event decoder: a payload arrives as a structured value; one decoder
//! per topic validates the required fields and defaults the optional ones to
//! absent. Decode failure aborts before any lookup or write occurs.

use vstd::prelude::*;
use crate::datetime::{parse_rfc3339, rfc3339_datetime, DateTime};
use crate::errors::ProcessingError;
use crate::foreign_types::{UserAddressView, UserView, VendorAddressView};
use crate::http_event_service::{
    OrderEventData, OrderEventDataView, OrderItemEventData, OrderItemEventDataView,
    PaymentAuthorizationEventData, UserAddressArchivedEventData, UserAddressEventData,
    UserEventData, VendorAddressEventData,
};
use crate::order::{OrderStatus, RejectionReason};
use crate::text::lemma_deep_view_push;

verus! {

/// A structured payload value, as the transport hands it over.
pub enum Value {
    Null,
    Bool(bool),
    UInt(u64),
    Str(String),
    Arr(Vec<Value>),
    Obj(Vec<(String, Value)>),
}

/// The value of the first field named `key`, if any.
pub open spec fn spec_lookup(fields: Seq<(String, Value)>, key: Seq<char>) -> Option<Value>
    decreases fields.len(),
{
    if fields.len() == 0 {
        None
    } else if fields[0].0@ == key {
        Some(fields[0].1)
    } else {
        spec_lookup(fields.drop_first(), key)
    }
}

/// The field named `key` of object `v`, where it is a string.
pub open spec fn spec_str_field(v: Value, key: Seq<char>) -> Option<Seq<char>> {
    match v {
        Value::Obj(fields) => match spec_lookup(fields@, key) {
            Some(Value::Str(s)) => Some(s@),
            _ => None,
        },
        _ => None,
    }
}

/// The field named `key` of object `v`, where it is an unsigned integer.
pub open spec fn spec_u64_field(v: Value, key: Seq<char>) -> Option<u64> {
    match v {
        Value::Obj(fields) => match spec_lookup(fields@, key) {
            Some(Value::UInt(n)) => Some(n),
            _ => None,
        },
        _ => None,
    }
}

/// The optional string field named `key` of object `v`: absent or null
/// defaults to nothing, a string is taken, any other shape is a failure.
pub open spec fn spec_opt_str_field(v: Value, key: Seq<char>) -> Option<Option<Seq<char>>> {
    match v {
        Value::Obj(fields) => match spec_lookup(fields@, key) {
            None => Some(None),
            Some(Value::Null) => Some(None),
            Some(Value::Str(s)) => Some(Some(s@)),
            Some(_) => None,
        },
        _ => None,
    }
}

/// The field named `key` of object `v`, where it is a timestamp string the
/// RFC 3339 parser accepts.
pub open spec fn spec_datetime_field(v: Value, key: Seq<char>) -> Option<DateTime> {
    match spec_str_field(v, key) {
        Some(s) => rfc3339_datetime(s),
        None => None,
    }
}

/// The optional timestamp field named `key` of object `v`: absent or null
/// defaults to nothing, a parsable timestamp string is taken, anything else
/// is a failure.
pub open spec fn spec_opt_datetime_field(v: Value, key: Seq<char>) -> Option<Option<DateTime>> {
    match spec_opt_str_field(v, key) {
        Some(None) => Some(None),
        Some(Some(s)) => match rfc3339_datetime(s) {
            Some(d) => Some(Some(d)),
            None => None,
        },
        None => None,
    }
}

/// The field named `key` of object `v`, where it is an array.
pub open spec fn spec_array_field(v: Value, key: Seq<char>) -> Option<Seq<Value>> {
    match v {
        Value::Obj(fields) => match spec_lookup(fields@, key) {
            Some(Value::Arr(vals)) => Some(vals@),
            _ => None,
        },
        _ => None,
    }
}

/// A reference to the first field named `key`, if any.
fn lookup_field<'a>(fields: &'a Vec<(String, Value)>, key: &String) -> (r: Option<&'a Value>)
    ensures
        match r {
            Some(val) => spec_lookup(fields@, key@) == Some(*val),
            None => spec_lookup(fields@, key@) is None,
        },
{
    let ghost fs = fields@;
    proof {
        assert(fs.skip(0) =~= fs);
    }
    let mut i: usize = 0;
    while i < fields.len()
        invariant
            i <= fields.len(),
            fs == fields@,
            spec_lookup(fs, key@) == spec_lookup(fs.skip(i as int), key@),
        decreases fields.len() - i,
    {
        proof {
            assert(fs.skip(i as int)[0] == fs[i as int]);
        }
        let pair = &fields[i];
        if pair.0 == *key {
            return Some(&pair.1);
        }
        proof {
            assert(fs.skip(i as int).drop_first() =~= fs.skip(i as int + 1));
        }
        i += 1;
    }
    proof {
        assert(fs.skip(fields@.len() as int) =~= Seq::<(String, Value)>::empty());
    }
    None
}

/// Reads a required string field.
fn get_str_field(v: &Value, key: &String) -> (r: Option<String>)
    ensures
        match r {
            Some(s) => spec_str_field(*v, key@) == Some(s@),
            None => spec_str_field(*v, key@) is None,
        },
{
    match v {
        Value::Obj(fields) => match lookup_field(fields, key) {
            Some(val) => match val {
                Value::Str(s) => Some(s.clone()),
                _ => None,
            },
            None => None,
        },
        _ => None,
    }
}

/// Reads a required unsigned integer field.
fn get_u64_field(v: &Value, key: &String) -> (r: Option<u64>)
    ensures
        match r {
            Some(n) => spec_u64_field(*v, key@) == Some(n),
            None => spec_u64_field(*v, key@) is None,
        },
{
    match v {
        Value::Obj(fields) => match lookup_field(fields, key) {
            Some(val) => match val {
                Value::UInt(n) => Some(*n),
                _ => None,
            },
            None => None,
        },
        _ => None,
    }
}

/// Reads an optional string field, defaulting absent and null to nothing.
fn get_opt_str_field(v: &Value, key: &String) -> (r: Option<Option<String>>)
    ensures
        match r {
            Some(o) => spec_opt_str_field(*v, key@) == Some(o.deep_view()),
            None => spec_opt_str_field(*v, key@) is None,
        },
{
    match v {
        Value::Obj(fields) => match lookup_field(fields, key) {
            None => Some(None),
            Some(val) => match val {
                Value::Null => Some(None),
                Value::Str(s) => Some(Some(s.clone())),
                _ => None,
            },
        },
        _ => None,
    }
}

/// Reads a required timestamp field.
fn get_datetime_field(v: &Value, key: &String) -> (r: Option<DateTime>)
    ensures
        match r {
            Some(d) => spec_datetime_field(*v, key@) == Some(d),
            None => spec_datetime_field(*v, key@) is None,
        },
{
    match get_str_field(v, key) {
        Some(s) => parse_rfc3339(s.as_str()),
        None => None,
    }
}

/// Reads an optional timestamp field, defaulting absent and null to nothing.
fn get_opt_datetime_field(v: &Value, key: &String) -> (r: Option<Option<DateTime>>)
    ensures
        match r {
            Some(o) => spec_opt_datetime_field(*v, key@) == Some(o),
            None => spec_opt_datetime_field(*v, key@) is None,
        },
{
    match get_opt_str_field(v, key) {
        None => None,
        Some(None) => Some(None),
        Some(Some(s)) => match parse_rfc3339(s.as_str()) {
            Some(d) => Some(Some(d)),
            None => None,
        },
    }
}


/// The order status a payload string denotes, if any.
pub open spec fn spec_order_status_of(s: Seq<char>) -> Option<OrderStatus> {
    if s == "Pending"@ {
        Some(OrderStatus::Pending)
    } else if s == "Placed"@ {
        Some(OrderStatus::Placed)
    } else if s == "Rejected"@ {
        Some(OrderStatus::Rejected)
    } else {
        None
    }
}

/// The rejection reason a payload string denotes, if any.
pub open spec fn spec_rejection_of(s: Seq<char>) -> Option<RejectionReason> {
    if s == "InvalidOrderData"@ {
        Some(RejectionReason::InvalidOrderData)
    } else if s == "InventoryReservationFailed"@ {
        Some(RejectionReason::InventoryReservationFailed)
    } else {
        None
    }
}

/// The field named `key` of object `v`, where it denotes an order status.
pub open spec fn spec_status_field(v: Value, key: Seq<char>) -> Option<OrderStatus> {
    match spec_str_field(v, key) {
        Some(s) => spec_order_status_of(s),
        None => None,
    }
}

/// The optional rejection-reason field named `key` of object `v`.
pub open spec fn spec_opt_rejection_field(v: Value, key: Seq<char>) -> Option<
    Option<RejectionReason>,
> {
    match spec_opt_str_field(v, key) {
        Some(None) => Some(None),
        Some(Some(s)) => match spec_rejection_of(s) {
            Some(reason) => Some(Some(reason)),
            None => None,
        },
        None => None,
    }
}

/// The optional payment-authorization field named `key` of object `v`: a
/// one-field object tagging the variant, as the transport encodes it.
pub open spec fn spec_opt_payment_auth_field(v: Value, key: Seq<char>) -> Option<
    Option<PaymentAuthorizationEventData>,
> {
    match v {
        Value::Obj(fields) => match spec_lookup(fields@, key) {
            None => Some(None),
            Some(Value::Null) => Some(None),
            Some(Value::Obj(inner)) => match spec_lookup(inner@, "CVC"@) {
                Some(Value::UInt(n)) => if n <= 0xffff {
                    Some(Some(PaymentAuthorizationEventData::CVC(n as u16)))
                } else {
                    None
                },
                _ => None,
            },
            Some(_) => None,
        },
        _ => None,
    }
}

/// Reads a required order-status field.
fn get_status_field(v: &Value, key: &String) -> (r: Option<OrderStatus>)
    ensures
        match r {
            Some(st) => spec_status_field(*v, key@) == Some(st),
            None => spec_status_field(*v, key@) is None,
        },
{
    match get_str_field(v, key) {
        Some(s) => {
            if s == String::from_str("Pending") {
                Some(OrderStatus::Pending)
            } else if s == String::from_str("Placed") {
                Some(OrderStatus::Placed)
            } else if s == String::from_str("Rejected") {
                Some(OrderStatus::Rejected)
            } else {
                None
            }
        },
        None => None,
    }
}

/// Reads an optional rejection-reason field.
fn get_opt_rejection_field(v: &Value, key: &String) -> (r: Option<Option<RejectionReason>>)
    ensures
        match r {
            Some(o) => spec_opt_rejection_field(*v, key@) == Some(o),
            None => spec_opt_rejection_field(*v, key@) is None,
        },
{
    match get_opt_str_field(v, key) {
        None => None,
        Some(None) => Some(None),
        Some(Some(s)) => {
            if s == String::from_str("InvalidOrderData") {
                Some(Some(RejectionReason::InvalidOrderData))
            } else if s == String::from_str("InventoryReservationFailed") {
                Some(Some(RejectionReason::InventoryReservationFailed))
            } else {
                None
            }
        },
    }
}

/// Reads an optional payment-authorization field.
fn get_opt_payment_auth_field(v: &Value, key: &String) -> (r: Option<
    Option<PaymentAuthorizationEventData>,
>)
    ensures
        match r {
            Some(o) => spec_opt_payment_auth_field(*v, key@) == Some(o),
            None => spec_opt_payment_auth_field(*v, key@) is None,
        },
{
    match v {
        Value::Obj(fields) => match lookup_field(fields, key) {
            None => Some(None),
            Some(val) => match val {
                Value::Null => Some(None),
                Value::Obj(inner) => match lookup_field(inner, &String::from_str("CVC")) {
                    Some(tag) => match tag {
                        Value::UInt(n) => {
                            let n = *n;
                            if n <= 0xffff {
                                Some(Some(PaymentAuthorizationEventData::CVC(n as u16)))
                            } else {
                                None
                            }
                        },
                        _ => None,
                    },
                    _ => None,
                },
                _ => None,
            },
        },
        _ => None,
    }
}

/// `v` carries a vendor-address creation payload denoting `a`.
pub open spec fn spec_vendor_event_ok(v: Value, a: VendorAddressView) -> bool {
    &&& spec_str_field(v, "id"@) == Some(a.id)
    &&& spec_str_field(v, "street1"@) == Some(a.street1)
    &&& spec_str_field(v, "street2"@) == Some(a.street2)
    &&& spec_str_field(v, "city"@) == Some(a.city)
    &&& spec_str_field(v, "postal_code"@) == Some(a.postal_code)
    &&& spec_str_field(v, "country"@) == Some(a.country)
    &&& spec_str_field(v, "company_name"@) == Some(a.company_name)
}

/// Every field a vendor-address creation payload requires is present.
pub open spec fn spec_vendor_event_decodable(v: Value) -> bool {
    &&& spec_str_field(v, "id"@) is Some
    &&& spec_str_field(v, "street1"@) is Some
    &&& spec_str_field(v, "street2"@) is Some
    &&& spec_str_field(v, "city"@) is Some
    &&& spec_str_field(v, "postal_code"@) is Some
    &&& spec_str_field(v, "country"@) is Some
    &&& spec_str_field(v, "company_name"@) is Some
}

/// Decodes a vendor-address creation payload.
pub fn decode_vendor_address(v: &Value) -> (r: Result<VendorAddressEventData, ProcessingError>)
    ensures
        match r {
            Ok(d) => spec_vendor_event_ok(
                *v,
                (VendorAddressView {
                    id: d.id@,
                    street1: d.street1@,
                    street2: d.street2@,
                    city: d.city@,
                    postal_code: d.postal_code@,
                    country: d.country@,
                    company_name: d.company_name@,
                }),
            ),
            Err(e) => e == ProcessingError::DecodeError && !spec_vendor_event_decodable(*v),
        },
{
    let id = match get_str_field(v, &String::from_str("id")) {
        Some(s) => s,
        None => {
            return Err(ProcessingError::DecodeError);
        },
    };
    let street1 = match get_str_field(v, &String::from_str("street1")) {
        Some(s) => s,
        None => {
            return Err(ProcessingError::DecodeError);
        },
    };
    let street2 = match get_str_field(v, &String::from_str("street2")) {
        Some(s) => s,
        None => {
            return Err(ProcessingError::DecodeError);
        },
    };
    let city = match get_str_field(v, &String::from_str("city")) {
        Some(s) => s,
        None => {
            return Err(ProcessingError::DecodeError);
        },
    };
    let postal_code = match get_str_field(v, &String::from_str("postal_code")) {
        Some(s) => s,
        None => {
            return Err(ProcessingError::DecodeError);
        },
    };
    let country = match get_str_field(v, &String::from_str("country")) {
        Some(s) => s,
        None => {
            return Err(ProcessingError::DecodeError);
        },
    };
    let company_name = match get_str_field(v, &String::from_str("company_name")) {
        Some(s) => s,
        None => {
            return Err(ProcessingError::DecodeError);
        },
    };
    Ok(VendorAddressEventData { id, street1, street2, city, postal_code, country, company_name })
}

/// `v` carries a user creation payload denoting `u`.
pub open spec fn spec_user_event_ok(v: Value, u: UserView) -> bool {
    &&& spec_str_field(v, "id"@) == Some(u.id)
    &&& spec_str_field(v, "first_name"@) == Some(u.first_name)
    &&& spec_str_field(v, "last_name"@) == Some(u.last_name)
    &&& u.addresses == Seq::<UserAddressView>::empty()
}

/// Every field a user creation payload requires is present.
pub open spec fn spec_user_event_decodable(v: Value) -> bool {
    &&& spec_str_field(v, "id"@) is Some
    &&& spec_str_field(v, "first_name"@) is Some
    &&& spec_str_field(v, "last_name"@) is Some
}

/// Decodes a user creation payload.
pub fn decode_user(v: &Value) -> (r: Result<UserEventData, ProcessingError>)
    ensures
        match r {
            Ok(d) => spec_user_event_ok(
                *v,
                (UserView {
                    id: d.id@,
                    first_name: d.first_name@,
                    last_name: d.last_name@,
                    addresses: Seq::<UserAddressView>::empty(),
                }),
            ),
            Err(e) => e == ProcessingError::DecodeError && !spec_user_event_decodable(*v),
        },
{
    let id = match get_str_field(v, &String::from_str("id")) {
        Some(s) => s,
        None => {
            return Err(ProcessingError::DecodeError);
        },
    };
    let first_name = match get_str_field(v, &String::from_str("first_name")) {
        Some(s) => s,
        None => {
            return Err(ProcessingError::DecodeError);
        },
    };
    let last_name = match get_str_field(v, &String::from_str("last_name")) {
        Some(s) => s,
        None => {
            return Err(ProcessingError::DecodeError);
        },
    };
    Ok(UserEventData { id, first_name, last_name })
}

/// `v` carries a user-address creation payload denoting `a`.
pub open spec fn spec_user_address_event_ok(v: Value, a: UserAddressView) -> bool {
    &&& spec_str_field(v, "id"@) == Some(a.id)
    &&& spec_str_field(v, "street1"@) == Some(a.street1)
    &&& spec_str_field(v, "street2"@) == Some(a.street2)
    &&& spec_str_field(v, "city"@) == Some(a.city)
    &&& spec_str_field(v, "postalCode"@) == Some(a.postal_code)
    &&& spec_str_field(v, "country"@) == Some(a.country)
    &&& spec_opt_str_field(v, "companyName"@) == Some(a.company_name)
    &&& spec_str_field(v, "userId"@) == Some(a.user_id)
}

/// Every field a user-address creation payload requires is present.
pub open spec fn spec_user_address_event_decodable(v: Value) -> bool {
    &&& spec_str_field(v, "id"@) is Some
    &&& spec_str_field(v, "street1"@) is Some
    &&& spec_str_field(v, "street2"@) is Some
    &&& spec_str_field(v, "city"@) is Some
    &&& spec_str_field(v, "postalCode"@) is Some
    &&& spec_str_field(v, "country"@) is Some
    &&& spec_opt_str_field(v, "companyName"@) is Some
    &&& spec_str_field(v, "userId"@) is Some
}

/// Decodes a user-address creation payload; the company name defaults to
/// absent.
pub fn decode_user_address(v: &Value) -> (r: Result<UserAddressEventData, ProcessingError>)
    ensures
        match r {
            Ok(d) => spec_user_address_event_ok(
                *v,
                (UserAddressView {
                    id: d.id@,
                    street1: d.street1@,
                    street2: d.street2@,
                    city: d.city@,
                    postal_code: d.postal_code@,
                    country: d.country@,
                    company_name: d.company_name.deep_view(),
                    user_id: d.user_id@,
                }),
            ),
            Err(e) => e == ProcessingError::DecodeError && !spec_user_address_event_decodable(*v),
        },
{
    let id = match get_str_field(v, &String::from_str("id")) {
        Some(s) => s,
        None => {
            return Err(ProcessingError::DecodeError);
        },
    };
    let street1 = match get_str_field(v, &String::from_str("street1")) {
        Some(s) => s,
        None => {
            return Err(ProcessingError::DecodeError);
        },
    };
    let street2 = match get_str_field(v, &String::from_str("street2")) {
        Some(s) => s,
        None => {
            return Err(ProcessingError::DecodeError);
        },
    };
    let city = match get_str_field(v, &String::from_str("city")) {
        Some(s) => s,
        None => {
            return Err(ProcessingError::DecodeError);
        },
    };
    let postal_code = match get_str_field(v, &String::from_str("postalCode")) {
        Some(s) => s,
        None => {
            return Err(ProcessingError::DecodeError);
        },
    };
    let country = match get_str_field(v, &String::from_str("country")) {
        Some(s) => s,
        None => {
            return Err(ProcessingError::DecodeError);
        },
    };
    let company_name = match get_opt_str_field(v, &String::from_str("companyName")) {
        Some(o) => o,
        None => {
            return Err(ProcessingError::DecodeError);
        },
    };
    let user_id = match get_str_field(v, &String::from_str("userId")) {
        Some(s) => s,
        None => {
            return Err(ProcessingError::DecodeError);
        },
    };
    Ok(
        UserAddressEventData {
            id,
            street1,
            street2,
            city,
            postal_code,
            country,
            company_name,
            user_id,
        },
    )
}

/// `v` carries a user-address archive payload denoting the address id and
/// the owning user id.
pub open spec fn spec_archive_event_ok(v: Value, id: Seq<char>, user_id: Seq<char>) -> bool {
    &&& spec_str_field(v, "id"@) == Some(id)
    &&& spec_str_field(v, "userId"@) == Some(user_id)
}

/// Every field a user-address archive payload requires is present.
pub open spec fn spec_archive_event_decodable(v: Value) -> bool {
    &&& spec_str_field(v, "id"@) is Some
    &&& spec_str_field(v, "userId"@) is Some
}

/// Decodes a user-address archive payload.
pub fn decode_user_address_archived(v: &Value) -> (r: Result<
    UserAddressArchivedEventData,
    ProcessingError,
>)
    ensures
        match r {
            Ok(d) => spec_archive_event_ok(*v, d.id@, d.user_id@),
            Err(e) => e == ProcessingError::DecodeError && !spec_archive_event_decodable(*v),
        },
{
    let id = match get_str_field(v, &String::from_str("id")) {
        Some(s) => s,
        None => {
            return Err(ProcessingError::DecodeError);
        },
    };
    let user_id = match get_str_field(v, &String::from_str("userId")) {
        Some(s) => s,
        None => {
            return Err(ProcessingError::DecodeError);
        },
    };
    Ok(UserAddressArchivedEventData { id, user_id })
}


/// `v` carries an order-item payload denoting `item`.
pub open spec fn spec_item_event_ok(v: Value, item: OrderItemEventDataView) -> bool {
    &&& spec_str_field(v, "id"@) == Some(item.id)
    &&& spec_datetime_field(v, "createdAt"@) == Some(item.created_at)
    &&& spec_str_field(v, "productVariantId"@) == Some(item.product_variant_id)
    &&& spec_str_field(v, "productVariantVersionId"@) == Some(item.product_variant_version_id)
    &&& spec_str_field(v, "taxRateVersionId"@) == Some(item.tax_rate_version_id)
    &&& spec_str_field(v, "shoppingCartItemId"@) == Some(item.shopping_cart_item_id)
    &&& spec_u64_field(v, "count"@) == Some(item.count)
    &&& spec_u64_field(v, "compensatableAmount"@) == Some(item.compensatable_amount)
    &&& spec_str_field(v, "shipmentMethodId"@) == Some(item.shipment_method_id)
    &&& (match spec_array_field(v, "discountIds"@) {
        Some(vals) => item.discount_ids.len() == vals.len() && (forall|i: int|
            0 <= i < vals.len() ==> (#[trigger] vals[i] matches Value::Str(s) && s@
                == item.discount_ids[i])),
        None => false,
    })
}

/// Every field an order-item payload requires is present.
pub open spec fn spec_item_event_decodable(v: Value) -> bool {
    &&& spec_str_field(v, "id"@) is Some
    &&& spec_datetime_field(v, "createdAt"@) is Some
    &&& spec_str_field(v, "productVariantId"@) is Some
    &&& spec_str_field(v, "productVariantVersionId"@) is Some
    &&& spec_str_field(v, "taxRateVersionId"@) is Some
    &&& spec_str_field(v, "shoppingCartItemId"@) is Some
    &&& spec_u64_field(v, "count"@) is Some
    &&& spec_u64_field(v, "compensatableAmount"@) is Some
    &&& spec_str_field(v, "shipmentMethodId"@) is Some
    &&& (match spec_array_field(v, "discountIds"@) {
        Some(vals) => forall|i: int| 0 <= i < vals.len() ==> #[trigger] vals[i] is Str,
        None => false,
    })
}

/// Decodes one order item of an order payload.
fn decode_order_item(v: &Value) -> (r: Result<OrderItemEventData, ProcessingError>)
    ensures
        match r {
            Ok(d) => spec_item_event_ok(*v, d@),
            Err(e) => e == ProcessingError::DecodeError && !spec_item_event_decodable(*v),
        },
{
    let id = match get_str_field(v, &String::from_str("id")) {
        Some(s) => s,
        None => {
            return Err(ProcessingError::DecodeError);
        },
    };
    let created_at = match get_datetime_field(v, &String::from_str("createdAt")) {
        Some(d) => d,
        None => {
            return Err(ProcessingError::DecodeError);
        },
    };
    let product_variant_id = match get_str_field(v, &String::from_str("productVariantId")) {
        Some(s) => s,
        None => {
            return Err(ProcessingError::DecodeError);
        },
    };
    let product_variant_version_id = match get_str_field(
        v,
        &String::from_str("productVariantVersionId"),
    ) {
        Some(s) => s,
        None => {
            return Err(ProcessingError::DecodeError);
        },
    };
    let tax_rate_version_id = match get_str_field(v, &String::from_str("taxRateVersionId")) {
        Some(s) => s,
        None => {
            return Err(ProcessingError::DecodeError);
        },
    };
    let shopping_cart_item_id = match get_str_field(v, &String::from_str("shoppingCartItemId")) {
        Some(s) => s,
        None => {
            return Err(ProcessingError::DecodeError);
        },
    };
    let count = match get_u64_field(v, &String::from_str("count")) {
        Some(n) => n,
        None => {
            return Err(ProcessingError::DecodeError);
        },
    };
    let compensatable_amount = match get_u64_field(v, &String::from_str("compensatableAmount")) {
        Some(n) => n,
        None => {
            return Err(ProcessingError::DecodeError);
        },
    };
    let shipment_method_id = match get_str_field(v, &String::from_str("shipmentMethodId")) {
        Some(s) => s,
        None => {
            return Err(ProcessingError::DecodeError);
        },
    };
    let discount_vals = match v {
        Value::Obj(fields) => match lookup_field(fields, &String::from_str("discountIds")) {
            Some(val) => match val {
                Value::Arr(vals) => vals,
                _ => {
                    return Err(ProcessingError::DecodeError);
                },
            },
            None => {
                return Err(ProcessingError::DecodeError);
            },
        },
        _ => {
            return Err(ProcessingError::DecodeError);
        },
    };
    let mut discount_ids: Vec<String> = Vec::new();
    let mut i: usize = 0;
    while i < discount_vals.len()
        invariant
            i <= discount_vals.len(),
            spec_array_field(*v, "discountIds"@) == Some(discount_vals@),
            discount_ids.deep_view().len() == i,
            forall|j: int|
                0 <= j < i ==> (#[trigger] discount_vals@[j] matches Value::Str(s) && s@
                    == discount_ids.deep_view()[j]),
        decreases discount_vals.len() - i,
    {
        match &discount_vals[i] {
            Value::Str(s) => {
                let item = s.clone();
                let ghost item_snap = item;
                let ghost pre = discount_ids;
                discount_ids.push(item);
                proof {
                    lemma_deep_view_push(pre, discount_ids, item_snap);
                }
            },
            _ => {
                proof {
                    assert(spec_array_field(*v, "discountIds"@) == Some(discount_vals@));
                    assert(!spec_item_event_decodable(*v)) by {
                        assert(0 <= i < discount_vals@.len() && !(discount_vals@[i as int]
                            is Str));
                    }
                }
                return Err(ProcessingError::DecodeError);
            },
        }
        i += 1;
    }
    Ok(
        OrderItemEventData {
            id,
            created_at,
            product_variant_id,
            product_variant_version_id,
            tax_rate_version_id,
            shopping_cart_item_id,
            count,
            compensatable_amount,
            shipment_method_id,
            discount_ids,
        },
    )
}

/// `v` carries an order payload denoting `d`.
pub open spec fn spec_order_event_ok(v: Value, d: OrderEventDataView) -> bool {
    &&& spec_str_field(v, "id"@) == Some(d.id)
    &&& spec_str_field(v, "userId"@) == Some(d.user_id)
    &&& spec_datetime_field(v, "createdAt"@) == Some(d.created_at)
    &&& spec_status_field(v, "orderStatus"@) == Some(d.order_status)
    &&& spec_opt_datetime_field(v, "placedAt"@) == Some(d.placed_at)
    &&& spec_opt_rejection_field(v, "rejectionReason"@) == Some(d.rejection_reason)
    &&& (match spec_array_field(v, "orderItems"@) {
        Some(vals) => d.order_items.len() == vals.len() && (forall|i: int|
            0 <= i < vals.len() ==> spec_item_event_ok(vals[i], #[trigger] d.order_items[i])),
        None => false,
    })
    &&& spec_str_field(v, "shipmentAddressId"@) == Some(d.shipment_address_id)
    &&& spec_str_field(v, "invoiceAddressId"@) == Some(d.invoice_address_id)
    &&& spec_u64_field(v, "compensatableOrderAmount"@) == Some(d.compensatable_order_amount)
    &&& spec_str_field(v, "paymentInformationId"@) == Some(d.payment_information_id)
    &&& spec_opt_payment_auth_field(v, "paymentAuthorization"@) == Some(d.payment_authorization)
    &&& spec_opt_str_field(v, "vatNumber"@) == Some(d.vat_number)
}

/// Every item of the array is decodable.
pub open spec fn spec_items_decodable(vals: Seq<Value>) -> bool {
    forall|i: int| 0 <= i < vals.len() ==> spec_item_event_decodable(#[trigger] vals[i])
}

/// Every field an order payload requires is present, every item included.
pub open spec fn spec_order_event_decodable(v: Value) -> bool {
    &&& spec_str_field(v, "id"@) is Some
    &&& spec_str_field(v, "userId"@) is Some
    &&& spec_datetime_field(v, "createdAt"@) is Some
    &&& spec_status_field(v, "orderStatus"@) is Some
    &&& spec_opt_datetime_field(v, "placedAt"@) is Some
    &&& spec_opt_rejection_field(v, "rejectionReason"@) is Some
    &&& (match spec_array_field(v, "orderItems"@) {
        Some(vals) => spec_items_decodable(vals),
        None => false,
    })
    &&& spec_str_field(v, "shipmentAddressId"@) is Some
    &&& spec_str_field(v, "invoiceAddressId"@) is Some
    &&& spec_u64_field(v, "compensatableOrderAmount"@) is Some
    &&& spec_str_field(v, "paymentInformationId"@) is Some
    &&& spec_opt_payment_auth_field(v, "paymentAuthorization"@) is Some
    &&& spec_opt_str_field(v, "vatNumber"@) is Some
}

/// Decodes an order payload: the order snapshot a validation-succeeded event
/// carries.
pub fn decode_order(v: &Value) -> (r: Result<OrderEventData, ProcessingError>)
    ensures
        match r {
            Ok(d) => spec_order_event_ok(*v, d@),
            Err(e) => e == ProcessingError::DecodeError && !spec_order_event_decodable(*v),
        },
{
    let id = match get_str_field(v, &String::from_str("id")) {
        Some(s) => s,
        None => {
            return Err(ProcessingError::DecodeError);
        },
    };
    let user_id = match get_str_field(v, &String::from_str("userId")) {
        Some(s) => s,
        None => {
            return Err(ProcessingError::DecodeError);
        },
    };
    let created_at = match get_datetime_field(v, &String::from_str("createdAt")) {
        Some(d) => d,
        None => {
            return Err(ProcessingError::DecodeError);
        },
    };
    let order_status = match get_status_field(v, &String::from_str("orderStatus")) {
        Some(st) => st,
        None => {
            return Err(ProcessingError::DecodeError);
        },
    };
    let placed_at = match get_opt_datetime_field(v, &String::from_str("placedAt")) {
        Some(o) => o,
        None => {
            return Err(ProcessingError::DecodeError);
        },
    };
    let rejection_reason = match get_opt_rejection_field(v, &String::from_str("rejectionReason")) {
        Some(o) => o,
        None => {
            return Err(ProcessingError::DecodeError);
        },
    };
    let item_vals = match v {
        Value::Obj(fields) => match lookup_field(fields, &String::from_str("orderItems")) {
            Some(val) => match val {
                Value::Arr(vals) => vals,
                _ => {
                    return Err(ProcessingError::DecodeError);
                },
            },
            None => {
                return Err(ProcessingError::DecodeError);
            },
        },
        _ => {
            return Err(ProcessingError::DecodeError);
        },
    };
    let mut order_items: Vec<OrderItemEventData> = Vec::new();
    let mut i: usize = 0;
    while i < item_vals.len()
        invariant
            i <= item_vals.len(),
            spec_array_field(*v, "orderItems"@) == Some(item_vals@),
            order_items.deep_view().len() == i,
            forall|j: int|
                0 <= j < i ==> spec_item_event_ok(
                    item_vals@[j],
                    #[trigger] order_items.deep_view()[j],
                ),
        decreases item_vals.len() - i,
    {
        match decode_order_item(&item_vals[i]) {
            Ok(item) => {
                let ghost item_snap = item;
                let ghost pre = order_items;
                order_items.push(item);
                proof {
                    lemma_deep_view_push(pre, order_items, item_snap);
                }
            },
            Err(e) => {
                proof {
                    assert(spec_array_field(*v, "orderItems"@) == Some(item_vals@));
                    assert(!spec_item_event_decodable(item_vals@[i as int]));
                    assert(!spec_items_decodable(item_vals@)) by {
                        if spec_items_decodable(item_vals@) {
                            assert(spec_item_event_decodable(item_vals@[i as int]));
                        }
                    }
                    assert(!spec_order_event_decodable(*v));
                }
                return Err(e);
            },
        }
        i += 1;
    }
    let shipment_address_id = match get_str_field(v, &String::from_str("shipmentAddressId")) {
        Some(s) => s,
        None => {
            return Err(ProcessingError::DecodeError);
        },
    };
    let invoice_address_id = match get_str_field(v, &String::from_str("invoiceAddressId")) {
        Some(s) => s,
        None => {
            return Err(ProcessingError::DecodeError);
        },
    };
    let compensatable_order_amount = match get_u64_field(
        v,
        &String::from_str("compensatableOrderAmount"),
    ) {
        Some(n) => n,
        None => {
            return Err(ProcessingError::DecodeError);
        },
    };
    let payment_information_id = match get_str_field(v, &String::from_str("paymentInformationId")) {
        Some(s) => s,
        None => {
            return Err(ProcessingError::DecodeError);
        },
    };
    let payment_authorization = match get_opt_payment_auth_field(
        v,
        &String::from_str("paymentAuthorization"),
    ) {
        Some(o) => o,
        None => {
            return Err(ProcessingError::DecodeError);
        },
    };
    let vat_number = match get_opt_str_field(v, &String::from_str("vatNumber")) {
        Some(o) => o,
        None => {
            return Err(ProcessingError::DecodeError);
        },
    };
    Ok(
        OrderEventData {
            id,
            user_id,
            created_at,
            order_status,
            placed_at,
            rejection_reason,
            order_items,
            shipment_address_id,
            invoice_address_id,
            compensatable_order_amount,
            payment_information_id,
            payment_authorization,
            vat_number,
        },
    )
}

/// The order payload inside a validation-succeeded payload, if any.
pub open spec fn spec_order_payload(v: Value) -> Option<Value> {
    match v {
        Value::Obj(fields) => spec_lookup(fields@, "order"@),
        _ => None,
    }
}

/// `v` carries a validation-succeeded payload whose order denotes `d`.
pub open spec fn spec_validation_event_ok(v: Value, d: OrderEventDataView) -> bool {
    match spec_order_payload(v) {
        Some(ov) => spec_order_event_ok(ov, d),
        None => false,
    }
}

/// The validation-succeeded payload carries a decodable order.
pub open spec fn spec_validation_event_decodable(v: Value) -> bool {
    match spec_order_payload(v) {
        Some(ov) => spec_order_event_decodable(ov),
        None => false,
    }
}

/// Decodes a discount validation succeeded payload.
pub fn decode_validation_succeeded(v: &Value) -> (r: Result<
    crate::http_event_service::DiscountValidationSucceededEventData,
    ProcessingError,
>)
    ensures
        match r {
            Ok(d) => spec_validation_event_ok(*v, d.order@),
            Err(e) => e == ProcessingError::DecodeError && !spec_validation_event_decodable(*v),
        },
{
    let order_val = match v {
        Value::Obj(fields) => match lookup_field(fields, &String::from_str("order")) {
            Some(val) => val,
            None => {
                return Err(ProcessingError::DecodeError);
            },
        },
        _ => {
            return Err(ProcessingError::DecodeError);
        },
    };
    match decode_order(order_val) {
        Ok(order) => Ok(crate::http_event_service::DiscountValidationSucceededEventData { order }),
        Err(e) => Err(e),
    }
}

} // verus!
