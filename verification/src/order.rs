//! Order status vocabulary and the order entity the query surface projects.

use vstd::prelude::*;
use crate::invoice::Invoice;

verus! {

/// Describes if an order is placed, or yet pending. An order can be rejected
/// during its lifetime.
#[derive(Clone, Copy, Debug, PartialEq, Eq, Structural)]
pub enum OrderStatus {
    Pending,
    Placed,
    Rejected,
}

/// Describes the reason why an order was rejected, in case of rejection.
#[derive(Clone, Copy, Debug, PartialEq, Eq, Structural)]
pub enum RejectionReason {
    InvalidOrderData,
    InventoryReservationFailed,
}

/// An order as the query surface exposes it: its id together with the
/// invoice that was synthesized for it.
pub struct Order {
    pub _id: String,
    pub invoice: Invoice,
}

} // verus!
