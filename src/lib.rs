//! Escrow for a pay-now, deliver-later order flow over a single payment asset.
//!
//! The library is the contract's state machine: orders are created already
//! paid, move through their statuses under the operator's authority, and may be
//! cancelled by their own buyer within a short window for a full refund. The
//! host keeps the records: it hands each entry point the singleton state and
//! the order record it concerns, and stores what comes back. The value
//! transfer an entry point calls for and the notification it emits are handed
//! back as plain values too.

mod effect;
mod error;
mod escrow;
mod identity;
pub mod laws;
mod order;
mod status;

pub use effect::{DataKey, Effect, Notice, Transfer};
pub use error::OrderError;
pub use escrow::{with_status, ChowFastOrder};
pub use identity::{has_signed, Identity};
pub use order::{validate_order, within_cancel_window, Order, OrderDetails, CANCEL_WINDOW, TRANSACTION_FEE};
pub use status::OrderStatus;
