use vstd::prelude::*;

verus! {

/// Why an entry point rejected an invocation. A rejected invocation changes
/// nothing, moves no funds and emits nothing.
#[derive(Clone, Copy, PartialEq, Eq, Structural, Debug)]
pub enum OrderError {
    /// `init` was called on a contract that already has an owner.
    AlreadyInitialized,
    /// The contract has not been initialised yet.
    NotInitialized,
    /// The identity whose consent the action needs did not authorise it.
    NotAuthorized,
    /// The order's items, subtotal or delivery information are malformed.
    ValidationError,
    /// No order was ever assigned this identifier.
    NotFound,
    /// The order's current status forbids the requested change.
    InvalidStateTransition,
    /// The cancellation window of the order has closed.
    WindowExpired,
    /// There is nothing in custody to withdraw.
    NoFunds,
    /// An amount or the order counter would leave its integer range.
    Overflow,
}

} // verus!
