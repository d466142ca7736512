use fast_chow::{
    has_signed, validate_order, within_cancel_window, ChowFastOrder, DataKey, Effect, Identity,
    Notice, Order, OrderDetails, OrderError, OrderStatus, Transfer, CANCEL_WINDOW,
    TRANSACTION_FEE,
};

fn id(s: &str) -> Identity {
    Identity::new(String::from(s))
}

fn signed(who: &[&str]) -> Vec<Identity> {
    who.iter().map(|w| id(w)).collect()
}

/// Custody balance after the effect's transfer, if any.
fn apply(custody: i128, effect: &Effect) -> i128 {
    match &effect.transfer {
        Some(Transfer::IntoCustody { amount, .. }) => custody + amount,
        Some(Transfer::OutOfCustody { amount, .. }) => custody - amount,
        None => custody,
    }
}

/// The contract's state together with the order records a host would keep.
struct Host {
    state: ChowFastOrder,
    orders: Vec<Order>,
    details: Vec<OrderDetails>,
}

impl Host {
    fn stored(&self, order_id: u64) -> Option<Order> {
        if order_id == 0 {
            return None;
        }
        self.orders.get((order_id - 1) as usize).cloned()
    }

    fn put(&mut self, order_id: u64, order: Order) {
        let i = (order_id - 1) as usize;
        if i == self.orders.len() {
            self.orders.push(order);
        } else {
            self.orders[i] = order;
        }
    }

    fn cancel(&mut self, who: &[&str], order_id: u64, now: u64) -> Result<Effect, OrderError> {
        let (order, effect) = self.state.cancel_order(&signed(who), order_id, self.stored(order_id), now)?;
        self.put(order_id, order);
        Ok(effect)
    }

    fn update(&mut self, who: &[&str], order_id: u64, status: OrderStatus) -> Result<Effect, OrderError> {
        let (order, effect) =
            self.state.update_order_status(&signed(who), order_id, self.stored(order_id), status)?;
        self.put(order_id, order);
        Ok(effect)
    }

    fn order(&self, order_id: u64) -> Result<Order, OrderError> {
        self.state.get_order(order_id, self.stored(order_id))
    }

    fn order_details(&self, order_id: u64) -> Result<OrderDetails, OrderError> {
        let kept = if order_id == 0 {
            None
        } else {
            self.details.get((order_id - 1) as usize).cloned()
        };
        self.state.get_order_details(order_id, kept)
    }
}

fn ready() -> Host {
    let mut state = ChowFastOrder::new();
    state.init(&signed(&["ownerA"]), id("ownerA"), id("tokenT")).unwrap();
    Host { state, orders: Vec::new(), details: Vec::new() }
}

fn widget_order(h: &mut Host, buyer: &str, now: u64) -> Result<(u64, Effect), OrderError> {
    let (oid, order, details, effect) = h.state.create_order(
        &signed(&[buyer]),
        id(buyer),
        vec![String::from("p1")],
        vec![String::from("Widget")],
        vec![1000],
        vec![2],
        2000,
        String::from("123 Main St"),
        now,
    )?;
    h.put(oid, order);
    h.details.push(details);
    Ok((oid, effect))
}

#[test]
fn example_scenario_create_then_cancel() {
    let mut c = ready();
    let mut custody: i128 = 0;
    let mut buyer_balance: i128 = 2000 + TRANSACTION_FEE;
    let (oid, effect) = widget_order(&mut c, "buyerB", 1_000).unwrap();
    assert_eq!(oid, 1);
    custody = apply(custody, &effect);
    buyer_balance -= 2000 + TRANSACTION_FEE;
    assert_eq!(custody, 2000 + TRANSACTION_FEE);
    assert_eq!(c.order(1).unwrap().status, OrderStatus::Paid);
    assert_eq!(c.order(1).unwrap().total, 2000 + TRANSACTION_FEE);

    let effect = c.cancel(&["buyerB"], 1, 1_100).unwrap();
    custody = apply(custody, &effect);
    match &effect.transfer {
        Some(Transfer::OutOfCustody { to, amount }) => {
            assert_eq!(*to, id("buyerB"));
            buyer_balance += amount;
        }
        other => panic!("unexpected transfer {:?}", other),
    }
    assert_eq!(c.order(1).unwrap().status, OrderStatus::Cancelled);
    assert_eq!(custody, 0);
    assert_eq!(buyer_balance, 2000 + TRANSACTION_FEE);
    match effect.notice {
        Notice::OrderCancelled { order_id, buyer } => {
            assert_eq!(order_id, 1);
            assert_eq!(buyer, id("buyerB"));
        }
        other => panic!("unexpected notice {:?}", other),
    }
}

#[test]
fn second_init_is_refused() {
    let mut c = ready();
    assert_eq!(
        c.state.init(&signed(&["ownerA"]), id("ownerA"), id("tokenT")),
        Err(OrderError::AlreadyInitialized)
    );
    assert_eq!(
        c.state.init(&signed(&["other"]), id("other"), id("tokenU")),
        Err(OrderError::AlreadyInitialized)
    );
    assert_eq!(c.state.get_owner().unwrap(), id("ownerA"));
    assert_eq!(c.state.get_token_address().unwrap(), id("tokenT"));
}

#[test]
fn init_needs_owner_consent() {
    let mut c = ChowFastOrder::new();
    assert_eq!(c.get_owner(), Err(OrderError::NotInitialized));
    assert_eq!(
        c.init(&signed(&["someone"]), id("ownerA"), id("tokenT")),
        Err(OrderError::NotAuthorized)
    );
    assert_eq!(c.get_owner(), Err(OrderError::NotInitialized));
}

#[test]
fn create_captures_subtotal_plus_fee() {
    let mut c = ready();
    let (oid, effect) = widget_order(&mut c, "buyerB", 5).unwrap();
    assert_eq!(oid, c.state.get_total_orders());
    match effect.transfer {
        Some(Transfer::IntoCustody { from, amount }) => {
            assert_eq!(from, id("buyerB"));
            assert_eq!(amount, 2000 + 10_000_000);
        }
        other => panic!("unexpected transfer {:?}", other),
    }
    match effect.notice {
        Notice::OrderCreated { order_id, buyer, total, timestamp } => {
            assert_eq!((order_id, total, timestamp), (1, 10_002_000, 5));
            assert_eq!(buyer, id("buyerB"));
        }
        other => panic!("unexpected notice {:?}", other),
    }
    let o = c.order(1).unwrap();
    assert_eq!(o.buyer, id("buyerB"));
    assert_eq!((o.total, o.timestamp, o.status), (10_002_000, 5, OrderStatus::Paid));
    let d = c.order_details(1).unwrap();
    assert_eq!(d.delivery_info, "123 Main St");
    assert_eq!(d.product_ids, vec![String::from("p1")]);
    assert_eq!(d.product_names, vec![String::from("Widget")]);
    assert_eq!(d.prices, vec![1000]);
    assert_eq!(d.quantities, vec![2]);
}

#[test]
fn ids_are_dense() {
    let mut c = ready();
    for n in 1..=3u64 {
        let refused = c.state.create_order(
            &signed(&["buyerB"]),
            id("buyerB"),
            vec![],
            vec![],
            vec![],
            vec![],
            5,
            String::from("x"),
            0,
        );
        assert_eq!(refused.unwrap_err(), OrderError::ValidationError);
        let (oid, _) = widget_order(&mut c, "buyerB", n).unwrap();
        assert_eq!(oid, n);
    }
    assert_eq!(c.state.get_total_orders(), 3);
    assert!(c.order(0).is_err());
    assert_eq!(c.order(0).unwrap_err(), OrderError::NotFound);
    assert_eq!(c.order(4).unwrap_err(), OrderError::NotFound);
    assert_eq!(c.order_details(0).unwrap_err(), OrderError::NotFound);
    assert_eq!(c.order_details(4).unwrap_err(), OrderError::NotFound);
    let stray = c.order_details(1).unwrap();
    assert_eq!(c.state.get_order_details(4, Some(stray)).unwrap_err(), OrderError::NotFound);
    assert_eq!(c.state.get_order_details(2, None).unwrap_err(), OrderError::NotFound);
    assert_eq!(c.state.get_order(2, None).unwrap_err(), OrderError::NotFound);
    for n in 1..=3u64 {
        assert_eq!(c.order(n).unwrap().timestamp, n);
    }
}

#[test]
fn create_validation_errors() {
    let mut c = ready();
    let s = signed(&["b"]);
    let one = || vec![String::from("x")];
    let err = |r: Result<(u64, Order, OrderDetails, Effect), OrderError>| r.unwrap_err();
    assert_eq!(
        err(c.state.create_order(&s, id("b"), vec![], vec![], vec![], vec![], 10, String::from("d"), 0)),
        OrderError::ValidationError
    );
    assert_eq!(
        err(c.state.create_order(&s, id("b"), one(), vec![], vec![1], vec![1], 10, String::from("d"), 0)),
        OrderError::ValidationError
    );
    assert_eq!(
        err(c.state.create_order(&s, id("b"), one(), one(), vec![1], vec![1], 0, String::from("d"), 0)),
        OrderError::ValidationError
    );
    assert_eq!(
        err(c.state.create_order(&s, id("b"), one(), one(), vec![1], vec![1], -5, String::from("d"), 0)),
        OrderError::ValidationError
    );
    assert_eq!(
        err(c.state.create_order(&s, id("b"), one(), one(), vec![1], vec![1], 10, String::new(), 0)),
        OrderError::ValidationError
    );
    assert_eq!(
        err(c.state.create_order(&s, id("b"), one(), one(), vec![1], vec![1], i128::MAX, String::from("d"), 0)),
        OrderError::Overflow
    );
    assert_eq!(
        err(c.state.create_order(&signed(&["ownerA"]), id("b"), one(), one(), vec![1], vec![1], 10, String::from("d"), 0)),
        OrderError::NotAuthorized
    );
    assert_eq!(c.state.get_total_orders(), 0);
}

#[test]
fn create_before_init_is_refused() {
    let mut c = Host { state: ChowFastOrder::new(), orders: Vec::new(), details: Vec::new() };
    assert_eq!(widget_order(&mut c, "b", 0).unwrap_err(), OrderError::NotInitialized);
}

#[test]
fn cancel_at_window_edge() {
    let mut c = ready();
    widget_order(&mut c, "b", 1_000).unwrap();
    widget_order(&mut c, "b", 1_000).unwrap();
    assert!(c.cancel(&["b"], 1, 1_300).is_ok());
    assert_eq!(
        c.cancel(&["b"], 2, 1_301).unwrap_err(),
        OrderError::WindowExpired
    );
    assert_eq!(c.order(2).unwrap().status, OrderStatus::Paid);
}

#[test]
fn cancel_with_clock_behind_creation() {
    let mut c = ready();
    widget_order(&mut c, "b", 1_000).unwrap();
    assert!(c.cancel(&["b"], 1, 10).is_ok());
}

#[test]
fn cancel_needs_paid_status() {
    let mut c = ready();
    widget_order(&mut c, "b", 0).unwrap();
    c.update(&["ownerA"], 1, OrderStatus::Confirmed).unwrap();
    assert_eq!(
        c.cancel(&["b"], 1, 1).unwrap_err(),
        OrderError::InvalidStateTransition
    );
    assert_eq!(c.cancel(&["b"], 2, 1).unwrap_err(), OrderError::NotFound);
}

#[test]
fn only_buyer_cancels() {
    let mut c = ready();
    widget_order(&mut c, "b", 0).unwrap();
    assert_eq!(
        c.cancel(&["ownerA"], 1, 1).unwrap_err(),
        OrderError::NotAuthorized
    );
    assert_eq!(
        c.cancel(&["intruder"], 1, 1).unwrap_err(),
        OrderError::NotAuthorized
    );
    assert_eq!(c.order(1).unwrap().status, OrderStatus::Paid);
}

#[test]
fn cancelled_order_is_final_for_operator() {
    let mut c = ready();
    widget_order(&mut c, "b", 0).unwrap();
    c.cancel(&["b"], 1, 0).unwrap();
    for target in [
        OrderStatus::Pending,
        OrderStatus::Paid,
        OrderStatus::Confirmed,
        OrderStatus::Completed,
        OrderStatus::Cancelled,
    ] {
        assert_eq!(
            c.update(&["ownerA"], 1, target).unwrap_err(),
            OrderError::InvalidStateTransition
        );
    }
    assert_eq!(c.order(1).unwrap().status, OrderStatus::Cancelled);
}

#[test]
fn operator_updates_status() {
    let mut c = ready();
    widget_order(&mut c, "b", 0).unwrap();
    let e = c.update(&["ownerA"], 1, OrderStatus::Completed).unwrap();
    assert!(e.transfer.is_none());
    match e.notice {
        Notice::StatusChanged { order_id, status } => {
            assert_eq!((order_id, status), (1, OrderStatus::Completed));
        }
        other => panic!("unexpected notice {:?}", other),
    }
    c.update(&["ownerA"], 1, OrderStatus::Confirmed).unwrap();
    assert_eq!(c.order(1).unwrap().status, OrderStatus::Confirmed);
    assert_eq!(
        c.update(&["b"], 1, OrderStatus::Completed).unwrap_err(),
        OrderError::NotAuthorized
    );
    assert_eq!(
        c.update(&["ownerA"], 9, OrderStatus::Completed).unwrap_err(),
        OrderError::NotFound
    );
    let fresh = ChowFastOrder::new();
    assert_eq!(
        fresh.update_order_status(&signed(&["ownerA"]), 1, None, OrderStatus::Paid).unwrap_err(),
        OrderError::NotInitialized
    );
}

#[test]
fn withdraw_sweeps_custody() {
    let c = ready();
    assert_eq!(c.state.withdraw(&signed(&["ownerA"]), 0).unwrap_err(), OrderError::NoFunds);
    assert_eq!(c.state.withdraw(&signed(&["ownerA"]), -3).unwrap_err(), OrderError::NoFunds);
    assert_eq!(c.state.withdraw(&signed(&["b"]), 50).unwrap_err(), OrderError::NotAuthorized);
    let e = c.state.withdraw(&signed(&["ownerA"]), 50).unwrap();
    assert_eq!(apply(50, &e), 0);
    match e.transfer {
        Some(Transfer::OutOfCustody { to, amount }) => {
            assert_eq!(to, id("ownerA"));
            assert_eq!(amount, 50);
        }
        other => panic!("unexpected transfer {:?}", other),
    }
    assert_eq!(ChowFastOrder::new().withdraw(&signed(&["ownerA"]), 5).unwrap_err(), OrderError::NotInitialized);
}

#[test]
fn ownership_needs_both_consents() {
    let mut c = ready();
    assert_eq!(
        c.state.transfer_ownership(&signed(&["ownerA"]), id("n")),
        Err(OrderError::NotAuthorized)
    );
    assert_eq!(c.state.transfer_ownership(&signed(&["n"]), id("n")), Err(OrderError::NotAuthorized));
    c.state.transfer_ownership(&signed(&["ownerA", "n"]), id("n")).unwrap();
    assert_eq!(c.state.get_owner().unwrap(), id("n"));
    assert_eq!(c.state.withdraw(&signed(&["ownerA"]), 5).unwrap_err(), OrderError::NotAuthorized);
    assert!(c.state.withdraw(&signed(&["n"]), 5).is_ok());
}

#[test]
fn restored_state_decides_on_loaded_records() {
    let state = ChowFastOrder::from_stored(Some(id("o")), Some(id("t")), 2);
    assert_eq!(state.get_total_orders(), 2);
    assert_eq!(state.get_owner().unwrap(), id("o"));
    assert_eq!(state.get_token_address().unwrap(), id("t"));
    let paid = Order::paid(id("b"), 70, 10);
    let (cancelled, e) = state.cancel_order(&signed(&["b"]), 2, Some(paid.clone()), 20).unwrap();
    assert_eq!(cancelled.status, OrderStatus::Cancelled);
    assert_eq!((cancelled.total, cancelled.timestamp), (70, 10));
    assert_eq!(apply(70, &e), 0);
    assert_eq!(
        state.cancel_order(&signed(&["b"]), 3, Some(paid.clone()), 20).unwrap_err(),
        OrderError::NotFound
    );
    assert_eq!(state.cancel_order(&signed(&["b"]), 1, None, 20).unwrap_err(), OrderError::NotFound);
    let mut again = ChowFastOrder::from_stored(Some(id("o")), Some(id("t")), 0);
    assert_eq!(
        again.init(&signed(&["x"]), id("x"), id("y")),
        Err(OrderError::AlreadyInitialized)
    );
}

#[test]
fn init_starts_with_no_order() {
    let mut state = ChowFastOrder::from_stored(None, None, 5);
    state.init(&signed(&["o"]), id("o"), id("t")).unwrap();
    assert_eq!(state.get_total_orders(), 0);
    assert_eq!(state.get_order(1, Some(Order::paid(id("b"), 1, 1))).unwrap_err(), OrderError::NotFound);
}

#[test]
fn building_blocks() {
    assert!(within_cancel_window(100, 100 + CANCEL_WINDOW));
    assert!(!within_cancel_window(100, 101 + CANCEL_WINDOW));
    assert!(within_cancel_window(u64::MAX, 0));
    assert!(has_signed(&signed(&["a", "b"]), &id("b")));
    assert!(!has_signed(&signed(&["a", "b"]), &id("c")));
    let d = OrderDetails {
        delivery_info: String::from("here"),
        product_ids: vec![String::from("p")],
        product_names: vec![String::from("n")],
        prices: vec![3],
        quantities: vec![1],
    };
    assert_eq!(validate_order(&d, 7), Ok(7 + TRANSACTION_FEE));
    let mut o = Order::paid(id("b"), 9, 4);
    assert_eq!(o.set_status(OrderStatus::Completed), Ok(()));
    assert_eq!(o.status, OrderStatus::Completed);
    assert_eq!(o.cancel(&signed(&["b"]), 4), Err(OrderError::InvalidStateTransition));
    assert_eq!(DataKey::Order(3), DataKey::Order(3));
    assert_ne!(DataKey::Order(3), DataKey::OrderDetails(3));
}
