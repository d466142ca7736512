use vstd::prelude::*;
use crate::error::OrderError;
use crate::identity::{has_signed, signed_by, Identity};
use crate::status::{buyer_may_cancel, operator_may_set, OrderStatus};

verus! {

/// Surcharge added to every order's subtotal, in the asset's smallest unit.
pub const TRANSACTION_FEE: i128 = 10_000_000;

/// Seconds after creation during which the buyer may still cancel.
pub const CANCEL_WINDOW: u64 = 300;

/// The record of an order that every status check reads.
#[derive(Clone, Debug)]
pub struct Order {
    pub buyer: Identity,
    /// Amount captured from the buyer: the declared subtotal plus the fee.
    pub total: i128,
    /// Ledger time at creation; the anchor of the cancellation window.
    pub timestamp: u64,
    pub status: OrderStatus,
}

/// The line items and delivery destination of an order, kept apart from
/// [`Order`] so that status checks do not load them.
#[derive(Clone, Debug)]
pub struct OrderDetails {
    pub delivery_info: String,
    pub product_ids: Vec<String>,
    pub product_names: Vec<String>,
    pub prices: Vec<i128>,
    pub quantities: Vec<i128>,
}

/// Items are present, the four item sequences run in parallel, the subtotal is
/// positive and the delivery destination is not empty.
pub open spec fn details_valid(d: OrderDetails, subtotal: int) -> bool {
    &&& d.product_ids@.len() > 0
    &&& d.product_names@.len() == d.product_ids@.len()
    &&& d.prices@.len() == d.product_ids@.len()
    &&& d.quantities@.len() == d.product_ids@.len()
    &&& subtotal > 0
    &&& d.delivery_info@.len() > 0
}

/// What `validate_order` answers for these details and subtotal.
pub open spec fn order_total_result(d: OrderDetails, subtotal: int) -> Result<i128, OrderError> {
    if !details_valid(d, subtotal) {
        Err(OrderError::ValidationError)
    } else if subtotal + TRANSACTION_FEE > i128::MAX {
        Err(OrderError::Overflow)
    } else {
        Ok((subtotal + TRANSACTION_FEE) as i128)
    }
}

/// Checks an order's details and subtotal, and computes the total to capture.
pub fn validate_order(details: &OrderDetails, subtotal: i128) -> (r: Result<i128, OrderError>)
    ensures
        r == order_total_result(*details, subtotal as int),
{
    let n = details.product_ids.len();
    if n == 0 {
        return Err(OrderError::ValidationError);
    }
    if n != details.product_names.len() || n != details.prices.len() || n
        != details.quantities.len() {
        return Err(OrderError::ValidationError);
    }
    if subtotal <= 0 {
        return Err(OrderError::ValidationError);
    }
    if details.delivery_info.as_str().is_empty() {
        return Err(OrderError::ValidationError);
    }
    if subtotal > i128::MAX - TRANSACTION_FEE {
        return Err(OrderError::Overflow);
    }
    Ok(subtotal + TRANSACTION_FEE)
}

/// Seconds from `created` to `now`, or zero where the clock reads earlier.
pub open spec fn elapsed(created: u64, now: u64) -> int {
    if now >= created {
        now - created
    } else {
        0
    }
}

/// The cancellation window is still open at `now`; its last second included.
pub open spec fn window_open(created: u64, now: u64) -> bool {
    elapsed(created, now) <= CANCEL_WINDOW
}

/// Whether the cancellation window of an order created at `created` is still
/// open at `now`.
pub fn within_cancel_window(created: u64, now: u64) -> (r: bool)
    ensures
        r == window_open(created, now),
{
    let waited = now.saturating_sub(created);
    waited <= CANCEL_WINDOW
}

/// What a cancellation request on `order` comes to: `Ok` where it is granted.
pub open spec fn cancel_result(order: Order, signers: Seq<Identity>, now: u64) -> Result<(), OrderError> {
    if !signed_by(signers, order.buyer@) {
        Err(OrderError::NotAuthorized)
    } else if !buyer_may_cancel(order.status) {
        Err(OrderError::InvalidStateTransition)
    } else if !window_open(order.timestamp, now) {
        Err(OrderError::WindowExpired)
    } else {
        Ok(())
    }
}

/// `post` is `pre` with only its status replaced by `status`.
pub open spec fn restatused(pre: Order, post: Order, status: OrderStatus) -> bool {
    post == Order { status, ..pre }
}

impl Order {
    /// A second value of the same record.
    pub fn duplicate(&self) -> (r: Order)
        ensures
            r == *self,
    {
        Order {
            buyer: self.buyer.duplicate(),
            total: self.total,
            timestamp: self.timestamp,
            status: self.status,
        }
    }

    /// A new order, paid in full at `timestamp`.
    pub fn paid(buyer: Identity, total: i128, timestamp: u64) -> (r: Order)
        ensures
            r == (Order { buyer, total, timestamp, status: OrderStatus::Paid }),
    {
        Order { buyer, total, timestamp, status: OrderStatus::Paid }
    }

    /// The buyer's own cancellation: granted only to the order's buyer, while
    /// the order is merely paid and its window is open. Marks it cancelled.
    pub fn cancel(&mut self, signers: &Vec<Identity>, now: u64) -> (r: Result<(), OrderError>)
        ensures
            r == cancel_result(*old(self), signers@, now),
            r is Ok ==> restatused(*old(self), *final(self), OrderStatus::Cancelled),
            r is Err ==> *final(self) == *old(self),
    {
        if !has_signed(signers, &self.buyer) {
            return Err(OrderError::NotAuthorized);
        }
        if !self.status.allows_buyer_cancel() {
            return Err(OrderError::InvalidStateTransition);
        }
        if !within_cancel_window(self.timestamp, now) {
            return Err(OrderError::WindowExpired);
        }
        self.status = OrderStatus::Cancelled;
        Ok(())
    }

    /// The operator's status change: any target, unless the order is cancelled.
    pub fn set_status(&mut self, target: OrderStatus) -> (r: Result<(), OrderError>)
        ensures
            r is Ok <==> operator_may_set(old(self).status, target),
            r is Err ==> r == Err::<(), OrderError>(OrderError::InvalidStateTransition),
            r is Ok ==> restatused(*old(self), *final(self), target),
            r is Err ==> *final(self) == *old(self),
    {
        if !self.status.allows_operator_update(target) {
            return Err(OrderError::InvalidStateTransition);
        }
        self.status = target;
        Ok(())
    }
}

} // verus!
