use vstd::prelude::*;
use crate::effect::{Effect, Notice, Transfer};
use crate::error::OrderError;
use crate::identity::{has_signed, signed_by, Identity};
use crate::order::{cancel_result, order_total_result, validate_order, Order, OrderDetails};
use crate::status::{operator_may_set, OrderStatus};

verus! {

/// The escrow contract's singleton state: its owner, the payment asset, and
/// how many orders were created. Order `id` exists exactly for `id` in
/// `1..=counter`; its records are kept by the host, which hands the one an
/// entry point needs to it and stores the one it returns.
pub struct ChowFastOrder {
    owner: Option<Identity>,
    payment_asset: Option<Identity>,
    order_counter: u64,
}

/// The record of an order whose status became `status`, all else kept.
pub open spec fn with_status(order: Order, status: OrderStatus) -> Order {
    Order { status, ..order }
}

impl ChowFastOrder {
    /// The identity allowed to administer the contract, once initialised.
    pub closed spec fn owner_spec(self) -> Option<Identity> {
        self.owner
    }

    /// The payment asset's contract, once initialised.
    pub closed spec fn asset_spec(self) -> Option<Identity> {
        self.payment_asset
    }

    /// How many orders were created; also the last identifier assigned.
    pub closed spec fn counter(self) -> u64 {
        self.order_counter
    }

    pub open spec fn initialized(self) -> bool {
        self.owner_spec() is Some
    }

    /// `id` was assigned to an order.
    pub open spec fn has_order(self, id: u64) -> bool {
        1 <= id <= self.counter()
    }

    /// What `init` answers.
    pub open spec fn init_result(self, signers: Seq<Identity>, owner: Identity) -> Result<(), OrderError> {
        if self.initialized() {
            Err(OrderError::AlreadyInitialized)
        } else if !signed_by(signers, owner@) {
            Err(OrderError::NotAuthorized)
        } else {
            Ok(())
        }
    }

    /// `post` and `r` are what `init` may leave and return on `pre`.
    pub open spec fn init_post(
        pre: ChowFastOrder,
        signers: Seq<Identity>,
        owner: Identity,
        payment_asset: Identity,
        post: ChowFastOrder,
        r: Result<(), OrderError>,
    ) -> bool {
        &&& r == pre.init_result(signers, owner)
        &&& r is Ok ==> {
            &&& post.owner_spec() == Some(owner)
            &&& post.asset_spec() == Some(payment_asset)
            &&& post.counter() == 0
        }
        &&& r is Err ==> post == pre
    }

    /// Why `create_order` refuses, if it does.
    pub open spec fn create_error(
        self,
        signers: Seq<Identity>,
        buyer: Identity,
        details: OrderDetails,
        subtotal: i128,
    ) -> Option<OrderError> {
        if !signed_by(signers, buyer@) {
            Some(OrderError::NotAuthorized)
        } else if order_total_result(details, subtotal as int) is Err {
            Some(order_total_result(details, subtotal as int)->Err_0)
        } else if !self.initialized() {
            Some(OrderError::NotInitialized)
        } else if self.counter() == u64::MAX {
            Some(OrderError::Overflow)
        } else {
            None
        }
    }

    /// `post` and `r` are what `create_order` may leave and return on `pre`:
    /// the new identifier, the order record and the details record to store
    /// under it, and the capture of the total into custody with its notice.
    pub open spec fn create_post(
        pre: ChowFastOrder,
        signers: Seq<Identity>,
        buyer: Identity,
        details: OrderDetails,
        subtotal: i128,
        now: u64,
        post: ChowFastOrder,
        r: Result<(u64, Order, OrderDetails, Effect), OrderError>,
    ) -> bool {
        match pre.create_error(signers, buyer, details, subtotal) {
            Some(e) => r == Err::<(u64, Order, OrderDetails, Effect), OrderError>(e) && post == pre,
            None => {
                let id = (pre.counter() + 1) as u64;
                let total = (subtotal + crate::order::TRANSACTION_FEE) as i128;
                &&& post.counter() == id
                &&& post.owner_spec() == pre.owner_spec()
                &&& post.asset_spec() == pre.asset_spec()
                &&& r == Ok::<(u64, Order, OrderDetails, Effect), OrderError>(
                    (
                        id,
                        Order { buyer, total, timestamp: now, status: OrderStatus::Paid },
                        details,
                        Effect {
                            transfer: Some(Transfer::IntoCustody { from: buyer, amount: total }),
                            notice: Notice::OrderCreated {
                                order_id: id,
                                buyer,
                                total,
                                timestamp: now,
                            },
                        },
                    ),
                )
            },
        }
    }

    /// What `update_order_status` answers, given the record `stored` that the
    /// host keeps under `order_id`, if any.
    pub open spec fn update_result(
        self,
        signers: Seq<Identity>,
        order_id: u64,
        stored: Option<Order>,
        status: OrderStatus,
    ) -> Result<(Order, Effect), OrderError> {
        if !self.initialized() {
            Err(OrderError::NotInitialized)
        } else if !signed_by(signers, self.owner_spec()->Some_0@) {
            Err(OrderError::NotAuthorized)
        } else if !self.has_order(order_id) || stored is None {
            Err(OrderError::NotFound)
        } else if !operator_may_set(stored->Some_0.status, status) {
            Err(OrderError::InvalidStateTransition)
        } else {
            Ok(
                (
                    with_status(stored->Some_0, status),
                    Effect { transfer: None, notice: Notice::StatusChanged { order_id, status } },
                ),
            )
        }
    }

    /// What `cancel_order` answers, given the record `stored` that the host
    /// keeps under `order_id`, if any.
    pub open spec fn cancel_outcome(
        self,
        signers: Seq<Identity>,
        order_id: u64,
        stored: Option<Order>,
        now: u64,
    ) -> Result<(Order, Effect), OrderError> {
        if !self.has_order(order_id) || stored is None {
            Err(OrderError::NotFound)
        } else {
            let order = stored->Some_0;
            match cancel_result(order, signers, now) {
                Err(e) => Err(e),
                Ok(_) => Ok(
                    (
                        with_status(order, OrderStatus::Cancelled),
                        Effect {
                            transfer: Some(
                                Transfer::OutOfCustody { to: order.buyer, amount: order.total },
                            ),
                            notice: Notice::OrderCancelled { order_id, buyer: order.buyer },
                        },
                    ),
                ),
            }
        }
    }

    /// What `withdraw` answers when the custody balance is `balance`.
    pub open spec fn withdraw_result(self, signers: Seq<Identity>, balance: i128) -> Result<Effect, OrderError> {
        if !self.initialized() {
            Err(OrderError::NotInitialized)
        } else if !signed_by(signers, self.owner_spec()->Some_0@) {
            Err(OrderError::NotAuthorized)
        } else if balance <= 0 {
            Err(OrderError::NoFunds)
        } else {
            let owner = self.owner_spec()->Some_0;
            Ok(
                Effect {
                    transfer: Some(Transfer::OutOfCustody { to: owner, amount: balance }),
                    notice: Notice::Withdrawal { owner, amount: balance },
                },
            )
        }
    }

    /// What `transfer_ownership` answers.
    pub open spec fn transfer_ownership_result(self, signers: Seq<Identity>, new_owner: Identity) -> Result<(), OrderError> {
        if !self.initialized() {
            Err(OrderError::NotInitialized)
        } else if !signed_by(signers, self.owner_spec()->Some_0@) || !signed_by(
            signers,
            new_owner@,
        ) {
            Err(OrderError::NotAuthorized)
        } else {
            Ok(())
        }
    }

    /// A freshly deployed contract, not initialised yet.
    pub fn new() -> (r: ChowFastOrder)
        ensures
            r.owner_spec() is None,
            r.asset_spec() is None,
            r.counter() == 0,
    {
        ChowFastOrder { owner: None, payment_asset: None, order_counter: 0 }
    }

    /// The state as the host keeps it.
    pub fn from_stored(owner: Option<Identity>, payment_asset: Option<Identity>, order_counter: u64) -> (r:
        ChowFastOrder)
        ensures
            r.owner_spec() == owner,
            r.asset_spec() == payment_asset,
            r.counter() == order_counter,
    {
        ChowFastOrder { owner, payment_asset, order_counter }
    }

    /// Sets the owner and the payment asset, once, with the owner's consent.
    pub fn init(&mut self, signers: &Vec<Identity>, owner: Identity, token_address: Identity) -> (r:
        Result<(), OrderError>)
        ensures
            Self::init_post(*old(self), signers@, owner, token_address, *final(self), r),
    {
        if self.owner.is_some() {
            return Err(OrderError::AlreadyInitialized);
        }
        if !has_signed(signers, &owner) {
            return Err(OrderError::NotAuthorized);
        }
        self.owner = Some(owner);
        self.payment_asset = Some(token_address);
        self.order_counter = 0;
        Ok(())
    }

    /// Assigns the next identifier to a new order paid by `buyer` at ledger
    /// time `now`. Returns the identifier, the order record and the details
    /// record to store under it, and the capture of its total into custody.
    pub fn create_order(
        &mut self,
        signers: &Vec<Identity>,
        buyer: Identity,
        item_product_ids: Vec<String>,
        item_product_names: Vec<String>,
        item_prices: Vec<i128>,
        item_quantities: Vec<i128>,
        subtotal: i128,
        delivery_info: String,
        now: u64,
    ) -> (r: Result<(u64, Order, OrderDetails, Effect), OrderError>)
        ensures
            Self::create_post(
                *old(self),
                signers@,
                buyer,
                OrderDetails {
                    delivery_info,
                    product_ids: item_product_ids,
                    product_names: item_product_names,
                    prices: item_prices,
                    quantities: item_quantities,
                },
                subtotal,
                now,
                *final(self),
                r,
            ),
    {
        let details = OrderDetails {
            delivery_info,
            product_ids: item_product_ids,
            product_names: item_product_names,
            prices: item_prices,
            quantities: item_quantities,
        };
        if !has_signed(signers, &buyer) {
            return Err(OrderError::NotAuthorized);
        }
        let total = match validate_order(&details, subtotal) {
            Ok(t) => t,
            Err(e) => {
                return Err(e);
            },
        };
        if self.owner.is_none() {
            return Err(OrderError::NotInitialized);
        }
        if self.order_counter == u64::MAX {
            return Err(OrderError::Overflow);
        }
        let id = self.order_counter + 1;
        let transfer = Transfer::IntoCustody { from: buyer.duplicate(), amount: total };
        let notice = Notice::OrderCreated {
            order_id: id,
            buyer: buyer.duplicate(),
            total,
            timestamp: now,
        };
        self.order_counter = id;
        Ok((id, Order::paid(buyer, total, now), details, Effect { transfer: Some(transfer), notice }))
    }

    /// The buyer's cancellation of order `order_id`, whose stored record is
    /// `stored`, at ledger time `now`. Returns the cancelled record to store
    /// and the refund of its whole total out of custody.
    pub fn cancel_order(&self, signers: &Vec<Identity>, order_id: u64, stored: Option<Order>, now: u64) -> (r:
        Result<(Order, Effect), OrderError>)
        ensures
            r == self.cancel_outcome(signers@, order_id, stored, now),
    {
        if order_id == 0 || order_id > self.order_counter {
            return Err(OrderError::NotFound);
        }
        let mut order = match stored {
            Some(o) => o,
            None => {
                return Err(OrderError::NotFound);
            },
        };
        match order.cancel(signers, now) {
            Ok(()) => {},
            Err(e) => {
                return Err(e);
            },
        }
        let transfer = Transfer::OutOfCustody { to: order.buyer.duplicate(), amount: order.total };
        let notice = Notice::OrderCancelled { order_id, buyer: order.buyer.duplicate() };
        Ok((order, Effect { transfer: Some(transfer), notice }))
    }

    /// The operator's overwrite of the status of order `order_id`, whose
    /// stored record is `stored`. Returns the record to store.
    pub fn update_order_status(
        &self,
        signers: &Vec<Identity>,
        order_id: u64,
        stored: Option<Order>,
        new_status: OrderStatus,
    ) -> (r: Result<(Order, Effect), OrderError>)
        ensures
            r == self.update_result(signers@, order_id, stored, new_status),
    {
        match &self.owner {
            None => {
                return Err(OrderError::NotInitialized);
            },
            Some(owner) => {
                if !has_signed(signers, owner) {
                    return Err(OrderError::NotAuthorized);
                }
            },
        }
        if order_id == 0 || order_id > self.order_counter {
            return Err(OrderError::NotFound);
        }
        let mut order = match stored {
            Some(o) => o,
            None => {
                return Err(OrderError::NotFound);
            },
        };
        match order.set_status(new_status) {
            Ok(()) => {},
            Err(e) => {
                return Err(e);
            },
        }
        Ok(
            (
                order,
                Effect {
                    transfer: None,
                    notice: Notice::StatusChanged { order_id, status: new_status },
                },
            ),
        )
    }

    /// The operator's sweep of the whole custody balance, `balance`, as the
    /// payment asset reports it. The contract's own state does not change.
    pub fn withdraw(&self, signers: &Vec<Identity>, balance: i128) -> (r: Result<Effect, OrderError>)
        ensures
            r == self.withdraw_result(signers@, balance),
    {
        match &self.owner {
            None => Err(OrderError::NotInitialized),
            Some(owner) => {
                if !has_signed(signers, owner) {
                    return Err(OrderError::NotAuthorized);
                }
                if balance <= 0 {
                    return Err(OrderError::NoFunds);
                }
                Ok(
                    Effect {
                        transfer: Some(
                            Transfer::OutOfCustody { to: owner.duplicate(), amount: balance },
                        ),
                        notice: Notice::Withdrawal { owner: owner.duplicate(), amount: balance },
                    },
                )
            },
        }
    }

    /// Hands administration to `new_owner`, with the consent of both the
    /// current owner and `new_owner`.
    pub fn transfer_ownership(&mut self, signers: &Vec<Identity>, new_owner: Identity) -> (r: Result<
        (),
        OrderError,
    >)
        ensures
            r == old(self).transfer_ownership_result(signers@, new_owner),
            r is Ok ==> final(self).owner_spec() == Some(new_owner),
            r is Ok ==> final(self).asset_spec() == old(self).asset_spec(),
            r is Ok ==> final(self).counter() == old(self).counter(),
            r is Err ==> *final(self) == *old(self),
    {
        match &self.owner {
            None => {
                return Err(OrderError::NotInitialized);
            },
            Some(owner) => {
                if !has_signed(signers, owner) || !has_signed(signers, &new_owner) {
                    return Err(OrderError::NotAuthorized);
                }
            },
        }
        self.owner = Some(new_owner);
        Ok(())
    }

    /// The owner.
    pub fn get_owner(&self) -> (r: Result<Identity, OrderError>)
        ensures
            match self.owner_spec() {
                Some(o) => r == Ok::<Identity, OrderError>(o),
                None => r == Err::<Identity, OrderError>(OrderError::NotInitialized),
            },
    {
        match &self.owner {
            Some(o) => Ok(o.duplicate()),
            None => Err(OrderError::NotInitialized),
        }
    }

    /// The payment asset's contract.
    pub fn get_token_address(&self) -> (r: Result<Identity, OrderError>)
        ensures
            match self.asset_spec() {
                Some(a) => r == Ok::<Identity, OrderError>(a),
                None => r == Err::<Identity, OrderError>(OrderError::NotInitialized),
            },
    {
        match &self.payment_asset {
            Some(a) => Ok(a.duplicate()),
            None => Err(OrderError::NotInitialized),
        }
    }

    /// How many orders were created.
    pub fn get_total_orders(&self) -> (r: u64)
        ensures
            r == self.counter(),
    {
        self.order_counter
    }

    /// The record of order `order_id`, given what the host keeps under it.
    pub fn get_order(&self, order_id: u64, stored: Option<Order>) -> (r: Result<Order, OrderError>)
        ensures
            self.has_order(order_id) && stored is Some ==> r == Ok::<Order, OrderError>(
                stored->Some_0,
            ),
            !(self.has_order(order_id) && stored is Some) ==> r == Err::<Order, OrderError>(
                OrderError::NotFound,
            ),
    {
        if order_id == 0 || order_id > self.order_counter {
            return Err(OrderError::NotFound);
        }
        match stored {
            Some(o) => Ok(o),
            None => Err(OrderError::NotFound),
        }
    }

    /// The line items and delivery destination of order `order_id`, given
    /// the details record that the host keeps under it.
    pub fn get_order_details(&self, order_id: u64, stored: Option<OrderDetails>) -> (r: Result<
        OrderDetails,
        OrderError,
    >)
        ensures
            self.has_order(order_id) && stored is Some ==> r == Ok::<OrderDetails, OrderError>(
                stored->Some_0,
            ),
            !(self.has_order(order_id) && stored is Some) ==> r == Err::<OrderDetails, OrderError>(
                OrderError::NotFound,
            ),
    {
        if order_id == 0 || order_id > self.order_counter {
            return Err(OrderError::NotFound);
        }
        match stored {
            Some(d) => Ok(d),
            None => Err(OrderError::NotFound),
        }
    }
}

} // verus!
