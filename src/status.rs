use vstd::prelude::*;

verus! {

/// Where an order stands in its lifecycle.
#[derive(Clone, Copy, PartialEq, Eq, Structural, Debug)]
pub enum OrderStatus {
    /// Reserved for a staged-payment flow; no entry point enters it.
    Pending,
    Paid,
    Confirmed,
    Completed,
    Cancelled,
}

/// The operator may overwrite the status of any order that is not cancelled,
/// with any target status.
pub open spec fn operator_may_set(current: OrderStatus, target: OrderStatus) -> bool {
    current != OrderStatus::Cancelled
}

/// The buyer may cancel only an order that is still merely paid.
pub open spec fn buyer_may_cancel(current: OrderStatus) -> bool {
    current == OrderStatus::Paid
}

impl OrderStatus {
    /// Whether the operator may move an order from this status to `target`.
    pub fn allows_operator_update(&self, target: OrderStatus) -> (r: bool)
        ensures
            r == operator_may_set(*self, target),
    {
        !matches!(self, OrderStatus::Cancelled)
    }

    /// Whether the order's buyer may still cancel it from this status.
    pub fn allows_buyer_cancel(&self) -> (r: bool)
        ensures
            r == buyer_may_cancel(*self),
    {
        matches!(self, OrderStatus::Paid)
    }
}

} // verus!
