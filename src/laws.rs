//! Properties that relate the entry points to one another, proved from their
//! contracts alone.
use vstd::prelude::*;
use crate::effect::{custody_after, Effect, Transfer};
use crate::error::OrderError;
use crate::escrow::{with_status, ChowFastOrder};
use crate::identity::{signed_by, Identity};
use crate::order::{details_valid, elapsed, Order, OrderDetails, CANCEL_WINDOW, TRANSACTION_FEE};
use crate::status::OrderStatus;

verus! {

/// Initialisation happens once: after an `init` that succeeded, every later
/// `init` is refused as already initialised, whoever authorises it and whatever
/// it names, and changes nothing.
pub proof fn lemma_init_once(
    s0: ChowFastOrder,
    signers1: Seq<Identity>,
    owner1: Identity,
    asset1: Identity,
    s1: ChowFastOrder,
    signers2: Seq<Identity>,
    owner2: Identity,
    asset2: Identity,
    s2: ChowFastOrder,
    r2: Result<(), OrderError>,
)
    requires
        ChowFastOrder::init_post(s0, signers1, owner1, asset1, s1, Ok(())),
        ChowFastOrder::init_post(s1, signers2, owner2, asset2, s2, r2),
    ensures
        r2 == Err::<(), OrderError>(OrderError::AlreadyInitialized),
        s2 == s1,
{
}

/// A valid order on an initialised contract is accepted, unless the counter
/// has reached the largest identifier: the counter grows by one, the new
/// identifier is the new counter, the stored record holds the subtotal plus
/// the fee and is paid, and the custody balance grows by exactly that total.
pub proof fn lemma_create_captures_total(
    pre: ChowFastOrder,
    signers: Seq<Identity>,
    buyer: Identity,
    details: OrderDetails,
    subtotal: i128,
    now: u64,
    post: ChowFastOrder,
    r: Result<(u64, Order, OrderDetails, Effect), OrderError>,
    custody: int,
)
    requires
        ChowFastOrder::create_post(pre, signers, buyer, details, subtotal, now, post, r),
        pre.initialized(),
        pre.counter() < u64::MAX,
        signed_by(signers, buyer@),
        details_valid(details, subtotal as int),
        subtotal + TRANSACTION_FEE <= i128::MAX,
    ensures
        r is Ok,
        post.counter() == pre.counter() + 1,
        r->Ok_0.0 == post.counter(),
        r->Ok_0.1.total == subtotal + TRANSACTION_FEE,
        r->Ok_0.1.status == OrderStatus::Paid,
        r->Ok_0.2 == details,
        r->Ok_0.3.transfer is Some,
        custody_after(custody, r->Ok_0.3.transfer->Some_0) == custody + subtotal + TRANSACTION_FEE,
{
}

/// One step of the contract's history, as far as identifiers go: a creation
/// that assigned `id` one above the counter before and left it as the counter,
/// or (`None`) a step that left the counter as it was.
pub open spec fn step(pre: ChowFastOrder, post: ChowFastOrder, outcome: Option<u64>) -> bool {
    match outcome {
        Some(id) => id == pre.counter() + 1 && post.counter() == id,
        None => post.counter() == pre.counter(),
    }
}

/// How many of the steps were creations.
pub open spec fn creations(outcomes: Seq<Option<u64>>) -> nat
    decreases outcomes.len(),
{
    if outcomes.len() == 0 {
        0
    } else {
        creations(outcomes.drop_last()) + if outcomes.last() is Some {
            1nat
        } else {
            0nat
        }
    }
}

/// Every call of `create_order` is a step: a creation where it succeeded, one
/// that changed nothing where it was refused.
pub proof fn lemma_create_is_step(
    pre: ChowFastOrder,
    signers: Seq<Identity>,
    buyer: Identity,
    details: OrderDetails,
    subtotal: i128,
    now: u64,
    post: ChowFastOrder,
    r: Result<(u64, Order, OrderDetails, Effect), OrderError>,
)
    requires
        ChowFastOrder::create_post(pre, signers, buyer, details, subtotal, now, post, r),
    ensures
        step(pre, post, if r is Ok { Some(r->Ok_0.0) } else { None }),
{
}

/// A refused `init` is a step that leaves the counter alone; one that
/// succeeded starts the history afresh, with no order.
pub proof fn lemma_init_is_step(
    pre: ChowFastOrder,
    signers: Seq<Identity>,
    owner: Identity,
    payment_asset: Identity,
    post: ChowFastOrder,
    r: Result<(), OrderError>,
)
    requires
        ChowFastOrder::init_post(pre, signers, owner, payment_asset, post, r),
    ensures
        r is Err ==> step(pre, post, None),
        r is Ok ==> post.counter() == 0,
        r is Ok ==> forall|id: u64| !#[trigger] post.has_order(id),
{
}

/// Identifiers are dense and sequential: over any history that starts with no
/// order, the successful creations, refused calls and other steps between them
/// included, the `k`-th creation is handed identifier `k`, and at the end an
/// identifier names an order exactly when it lies in `1..=N`, `N` the number
/// of creations.
pub proof fn lemma_ids_dense(states: Seq<ChowFastOrder>, outcomes: Seq<Option<u64>>)
    requires
        states.len() == outcomes.len() + 1,
        states[0].counter() == 0,
        forall|i: int|
            0 <= i < outcomes.len() ==> #[trigger] step(states[i], states[i + 1], outcomes[i]),
    ensures
        states.last().counter() == creations(outcomes),
        forall|i: int|
            0 <= i < outcomes.len() && (#[trigger] outcomes[i]) is Some ==> outcomes[i]->Some_0
                == creations(outcomes.take(i)) + 1,
        forall|id: u64| states.last().has_order(id) <==> 1 <= id <= creations(outcomes),
    decreases outcomes.len(),
{
    if outcomes.len() > 0 {
        let k = outcomes.len() - 1;
        let ps = states.subrange(0, k + 1);
        let po = outcomes.subrange(0, k);
        assert forall|i: int| 0 <= i < po.len() implies #[trigger] step(ps[i], ps[i + 1], po[i]) by {
            assert(ps[i] == states[i]);
            assert(ps[i + 1] == states[i + 1]);
            assert(po[i] == outcomes[i]);
            assert(step(states[i], states[i + 1], outcomes[i]));
        }
        lemma_ids_dense(ps, po);
        assert(po == outcomes.drop_last());
        assert(ps.last() == states[k]);
        assert(step(states[k], states[k + 1], outcomes[k]));
        assert forall|i: int|
            0 <= i < outcomes.len() && (#[trigger] outcomes[i]) is Some implies outcomes[i]->Some_0
                == creations(outcomes.take(i)) + 1 by {
            if i < k {
                assert(po[i] == outcomes[i]);
                assert(po.take(i) == outcomes.take(i));
            } else {
                assert(outcomes.take(k) == po);
            }
        }
    }
}

/// The details record that a creation hands over to be stored is the one it
/// was given, under an identifier that names an order from then on; read back
/// under that identifier, it is returned as it was.
pub proof fn lemma_details_kept(
    pre: ChowFastOrder,
    signers: Seq<Identity>,
    buyer: Identity,
    details: OrderDetails,
    subtotal: i128,
    now: u64,
    post: ChowFastOrder,
    order_id: u64,
    order: Order,
    stored_details: OrderDetails,
    effect: Effect,
)
    requires
        ChowFastOrder::create_post(
            pre,
            signers,
            buyer,
            details,
            subtotal,
            now,
            post,
            Ok((order_id, order, stored_details, effect)),
        ),
    ensures
        stored_details == details,
        post.has_order(order_id),
        order.buyer == buyer,
        order.timestamp == now,
{
}

/// The buyer's cancellation of an existing order succeeds exactly when the
/// order is still paid and at most the window's length has elapsed since its
/// creation; a paid order past the window is refused as expired.
pub proof fn lemma_cancel_window(
    s: ChowFastOrder,
    signers: Seq<Identity>,
    order_id: u64,
    order: Order,
    now: u64,
)
    requires
        s.has_order(order_id),
        signed_by(signers, order.buyer@),
    ensures
        s.cancel_outcome(signers, order_id, Some(order), now) is Ok <==> (order.status
            == OrderStatus::Paid && elapsed(order.timestamp, now) <= CANCEL_WINDOW),
        order.status == OrderStatus::Paid && elapsed(order.timestamp, now) > CANCEL_WINDOW
            ==> s.cancel_outcome(signers, order_id, Some(order), now) == Err::<
            (Order, Effect),
            OrderError,
        >(OrderError::WindowExpired),
{
}

/// A cancellation of the record that a creation produced refunds exactly what
/// that creation captured, to the buyer who paid it: the custody balance
/// returns to where it stood before.
pub proof fn lemma_refund_is_captured_total(
    s0: ChowFastOrder,
    signers: Seq<Identity>,
    buyer: Identity,
    details: OrderDetails,
    subtotal: i128,
    created: u64,
    s1: ChowFastOrder,
    order_id: u64,
    order: Order,
    stored_details: OrderDetails,
    e1: Effect,
    cancel_signers: Seq<Identity>,
    now: u64,
    custody: int,
)
    requires
        ChowFastOrder::create_post(
            s0,
            signers,
            buyer,
            details,
            subtotal,
            created,
            s1,
            Ok((order_id, order, stored_details, e1)),
        ),
        s1.cancel_outcome(cancel_signers, order_id, Some(order), now) is Ok,
    ensures
        ({
            let (cancelled, e2) = s1.cancel_outcome(cancel_signers, order_id, Some(order), now)->Ok_0;
            &&& e2.transfer == Some(
                Transfer::OutOfCustody { to: buyer, amount: (subtotal + TRANSACTION_FEE) as i128 },
            )
            &&& custody_after(custody_after(custody, e1.transfer->Some_0), e2.transfer->Some_0)
                == custody
            &&& cancelled.status == OrderStatus::Cancelled
        }),
{
}

/// The operator's status changes keep an order's buyer, total and creation
/// time, so a later refund is still the total captured at creation.
pub proof fn lemma_update_keeps_records(
    s: ChowFastOrder,
    signers: Seq<Identity>,
    order_id: u64,
    order: Order,
    status: OrderStatus,
)
    requires
        s.update_result(signers, order_id, Some(order), status) is Ok,
    ensures
        ({
            let updated = s.update_result(signers, order_id, Some(order), status)->Ok_0.0;
            &&& updated.buyer == order.buyer
            &&& updated.total == order.total
            &&& updated.timestamp == order.timestamp
            &&& updated == with_status(order, status)
        }),
{
}

/// A cancelled order is final for the operator: every status update of it is
/// refused, whatever the target, `Cancelled` included.
pub proof fn lemma_cancelled_is_final(
    s: ChowFastOrder,
    signers: Seq<Identity>,
    order_id: u64,
    order: Order,
    status: OrderStatus,
)
    requires
        order.status == OrderStatus::Cancelled,
    ensures
        s.update_result(signers, order_id, Some(order), status) is Err,
        s.initialized() && signed_by(signers, s.owner_spec()->Some_0@) && s.has_order(order_id)
            ==> s.update_result(signers, order_id, Some(order), status) == Err::<
            (Order, Effect),
            OrderError,
        >(OrderError::InvalidStateTransition),
{
}

/// With the owner's consent, a withdrawal from an empty custody is refused for
/// want of funds, and one from a custody of `balance` pays exactly `balance`
/// to the owner and leaves the custody empty.
pub proof fn lemma_withdraw_sweeps(s: ChowFastOrder, signers: Seq<Identity>, balance: i128)
    requires
        s.initialized(),
        signed_by(signers, s.owner_spec()->Some_0@),
    ensures
        balance == 0 ==> s.withdraw_result(signers, balance) == Err::<Effect, OrderError>(
            OrderError::NoFunds,
        ),
        balance > 0 ==> s.withdraw_result(signers, balance) is Ok,
        balance > 0 ==> s.withdraw_result(signers, balance)->Ok_0.transfer == Some(
            Transfer::OutOfCustody { to: s.owner_spec()->Some_0, amount: balance },
        ),
        balance > 0 ==> custody_after(
            balance as int,
            s.withdraw_result(signers, balance)->Ok_0.transfer->Some_0,
        ) == 0,
{
}

/// Only the order's own buyer can cancel it: without the buyer's consent the
/// request is refused as unauthorised, whoever else consented, the owner
/// included.
pub proof fn lemma_only_buyer_cancels(
    s: ChowFastOrder,
    signers: Seq<Identity>,
    order_id: u64,
    order: Order,
    now: u64,
)
    requires
        s.has_order(order_id),
        !signed_by(signers, order.buyer@),
    ensures
        s.cancel_outcome(signers, order_id, Some(order), now) == Err::<(Order, Effect), OrderError>(
            OrderError::NotAuthorized,
        ),
{
}

} // verus!
