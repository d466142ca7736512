use vstd::prelude::*;
use crate::identity::Identity;
use crate::status::OrderStatus;

verus! {

/// A movement of the payment asset that an entry point asks the host to make,
/// as one with the rest of the invocation.
#[derive(Clone, Debug)]
pub enum Transfer {
    /// From `from`'s account into the contract's custody.
    IntoCustody { from: Identity, amount: i128 },
    /// From the contract's custody to `to`'s account.
    OutOfCustody { to: Identity, amount: i128 },
}

/// The custody balance once `t` has been made on a custody balance `balance`.
pub open spec fn custody_after(balance: int, t: Transfer) -> int {
    match t {
        Transfer::IntoCustody { amount, .. } => balance + amount,
        Transfer::OutOfCustody { amount, .. } => balance - amount,
    }
}

/// A notification that an entry point publishes on success.
#[derive(Clone, Debug)]
pub enum Notice {
    OrderCreated { order_id: u64, buyer: Identity, total: i128, timestamp: u64 },
    StatusChanged { order_id: u64, status: OrderStatus },
    OrderCancelled { order_id: u64, buyer: Identity },
    Withdrawal { owner: Identity, amount: i128 },
}

/// What the host carries out for an entry point that succeeded: at most one
/// transfer, then the notification.
#[derive(Clone, Debug)]
pub struct Effect {
    pub transfer: Option<Transfer>,
    pub notice: Notice,
}

/// Where the contract keeps each part of its state in the host's storage.
#[derive(Clone, Copy, PartialEq, Eq, Structural, Debug)]
pub enum DataKey {
    Owner,
    OrderCounter,
    /// The [`Order`](crate::Order) record of an identifier.
    Order(u64),
    /// The [`OrderDetails`](crate::OrderDetails) record of an identifier.
    OrderDetails(u64),
    /// The payment asset's contract.
    TokenAddress,
}

} // verus!
