//! What holds of the operations taken together.

use vstd::prelude::*;
use crate::amm::Swap;
use crate::errors::ErrorCode;
use crate::identity::Identity;
use crate::orders::{committed_amount, CancelOrder, PlaceOrder};
use crate::state::{Exchange, Order, OrderSide, OrderType, Record};

verus! {

/// The exchange as it is with the pause flag set to `paused`.
pub open spec fn with_pause(exchange: Record<Exchange>, paused: bool) -> Record<Exchange> {
    Record { key: exchange.key, data: Exchange { is_paused: paused, ..exchange.data } }
}

/// While the exchange is paused every order and every swap is refused as
/// such, whatever else is wrong with it. Cancellation does not look at the
/// flag: with it set or cleared, the same request meets the same refusal or
/// gives the same refund and the same order. And no operation of the core
/// changes the flag, so a paused exchange stays paused.
pub proof fn lemma_pause_gates_trading_only(
    order: PlaceOrder,
    order_type: OrderType,
    side: OrderSide,
    amount: u64,
    price: u64,
    swap: Swap,
    amount_in: u64,
    minimum_amount_out: u64,
    cancel: CancelOrder,
    paused: bool,
)
    ensures
        order.exchange.data.is_paused ==> order.refusal(side, amount, price) == Some(
            ErrorCode::ExchangePaused,
        ),
        swap.exchange.data.is_paused ==> swap.refusal(amount_in, minimum_amount_out) == Some(
            ErrorCode::ExchangePaused,
        ),
        ({
            let other = CancelOrder { exchange: with_pause(cancel.exchange, paused), ..cancel };
            &&& other.refusal() == cancel.refusal()
            &&& other.refund() == cancel.refund()
            &&& other.staged().order == cancel.staged().order
        }),
        swap.staged(amount_in).exchange.data.is_paused == swap.exchange.data.is_paused,
        cancel.staged().exchange == cancel.exchange,
{
}

/// The order that `caller`'s request to cancel leaves behind: cancelled if
/// the request is granted, untouched if it is refused.
pub open spec fn after_cancel_request(order: Order, caller: Identity) -> Order {
    if order.is_active && order.user == caller && order.filled_amount <= order.amount {
        Order { is_active: false, ..order }
    } else {
        order
    }
}

/// The order that a series of requests to cancel leaves behind.
pub open spec fn after_cancel_requests(order: Order, callers: Seq<Identity>) -> Order
    decreases callers.len(),
{
    if callers.len() == 0 {
        order
    } else {
        after_cancel_request(after_cancel_requests(order, callers.drop_last()), callers.last())
    }
}

/// How many of a series of requests to cancel are granted.
pub open spec fn cancellations_granted(order: Order, callers: Seq<Identity>) -> nat
    decreases callers.len(),
{
    if callers.len() == 0 {
        0
    } else {
        let before = after_cancel_requests(order, callers.drop_last());
        let granted: nat = if after_cancel_request(before, callers.last()) != before {
            1
        } else {
            0
        };
        cancellations_granted(order, callers.drop_last()) + granted
    }
}

/// A request to cancel, as `cancel_order` decides it, leaves the order that
/// `after_cancel_request` describes.
pub proof fn lemma_cancel_request(ctx: CancelOrder)
    ensures
        ctx.refusal() is None ==> ctx.staged().order.data == after_cancel_request(
            ctx.order.data,
            ctx.user,
        ) && ctx.staged().order.data != ctx.order.data,
        ctx.refusal() is Some ==> ctx.order.data == after_cancel_request(ctx.order.data, ctx.user),
{
}

/// An order keeps the terms it was placed with: however many requests to
/// cancel it meets, and from whomever, its size, price, side, type, owner,
/// pair, fill and time stay as they were. It goes from active to cancelled at
/// most once, and never back.
pub proof fn lemma_order_terms_fixed(order: Order, callers: Seq<Identity>)
    ensures
        ({
            let after = after_cancel_requests(order, callers);
            &&& after == Order { is_active: after.is_active, ..order }
            &&& after.amount == order.amount
            &&& after.price == order.price
            &&& after.is_active ==> order.is_active
            &&& order.wf() ==> after.wf()
        }),
        cancellations_granted(order, callers) <= 1,
        cancellations_granted(order, callers) == 1 ==> order.is_active && !after_cancel_requests(
            order,
            callers,
        ).is_active,
        !order.is_active ==> cancellations_granted(order, callers) == 0,
    decreases callers.len(),
{
    if callers.len() > 0 {
        lemma_order_terms_fixed(order, callers.drop_last());
    }
}

/// An order that is placed and cancelled by its owner before anything is
/// filled gets its whole size back. That is what was escrowed for every sell
/// order, and for a buy order exactly when its cost equals its size, as it
/// does at a price of one quote token per base token.
pub proof fn lemma_round_trip(
    place: PlaceOrder,
    order_type: OrderType,
    side: OrderSide,
    amount: u64,
    price: u64,
    cancel: CancelOrder,
)
    requires
        place.refusal(side, amount, price) is None,
        cancel.order.data == place.placed(order_type, side, amount, price),
        cancel.user == place.user,
    ensures
        cancel.refusal() is None,
        cancel.refund() is Some,
        cancel.refund()->0.amount == amount,
        cancel.refund()->0.amount == place.escrow(side, amount, price).amount <==> committed_amount(
            side,
            amount as int,
            price as int,
        ) == amount,
        side == OrderSide::Sell || price == 1_000_000 ==> cancel.refund()->0.amount
            == place.escrow(side, amount, price).amount,
{
    if price == 1_000_000 {
        assert(amount * 1_000_000 / 1_000_000 == amount);
        assert(amount * price == amount * 1_000_000);
    }
}

/// Every operation keeps what must hold of the records: the fee rate stays
/// within 100%, the totals of the exchange never fall, and an order stays
/// well formed.
pub proof fn lemma_invariants_kept(
    swap: Swap,
    amount_in: u64,
    minimum_amount_out: u64,
    place: PlaceOrder,
    order_type: OrderType,
    side: OrderSide,
    amount: u64,
    price: u64,
    cancel: CancelOrder,
)
    ensures
        swap.refusal(amount_in, minimum_amount_out) is None ==> {
            let after = swap.staged(amount_in).exchange.data;
            &&& after.fee_basis_points == swap.exchange.data.fee_basis_points
            &&& after.total_volume >= swap.exchange.data.total_volume
            &&& after.total_fees_collected >= swap.exchange.data.total_fees_collected
            &&& after.total_volume == swap.exchange.data.total_volume + amount_in
            &&& after.total_fees_collected == swap.exchange.data.total_fees_collected + swap.fee(
                amount_in,
            )
        },
        place.refusal(side, amount, price) is None ==> place.placed(
            order_type,
            side,
            amount,
            price,
        ).wf(),
        cancel.order.data.wf() ==> cancel.staged().order.data.wf(),
{
    if swap.refusal(amount_in, minimum_amount_out) is None {
        let rate = swap.exchange.data.fee_basis_points as int;
        assert(0 <= swap.fee(amount_in)) by (nonlinear_arith)
            requires
                swap.fee(amount_in) == (amount_in as int) * rate / 10_000,
                0 <= rate,
        ;
    }
}

/// A request for a swap: the accounts it names, the amount paid in, and the
/// least amount wanted out. The exchange record inside the accounts is of no
/// account here.
pub struct SwapRequest {
    pub accounts: Swap,
    pub amount_in: u64,
    pub minimum_amount_out: u64,
}

/// The exchange that a request for a swap leaves behind: with grown totals
/// if the swap goes through, untouched if it is refused.
pub open spec fn after_swap_request(exchange: Record<Exchange>, request: SwapRequest) -> Record<
    Exchange,
> {
    let ctx = Swap { exchange, ..request.accounts };
    if ctx.refusal(request.amount_in, request.minimum_amount_out) is None {
        ctx.staged(request.amount_in).exchange
    } else {
        exchange
    }
}

/// The exchange that a series of requests for swaps leaves behind.
pub open spec fn after_swap_requests(exchange: Record<Exchange>, requests: Seq<SwapRequest>)
    -> Record<Exchange>
    decreases requests.len(),
{
    if requests.len() == 0 {
        exchange
    } else {
        after_swap_request(after_swap_requests(exchange, requests.drop_last()), requests.last())
    }
}

/// Through any series of swaps, granted or refused, on any pairs, the totals
/// of the exchange never fall, and its key, authority, fee rate and pause flag
/// stay as they were.
pub proof fn lemma_totals_never_fall(exchange: Record<Exchange>, requests: Seq<SwapRequest>)
    ensures
        ({
            let after = after_swap_requests(exchange, requests);
            &&& after.data.total_volume >= exchange.data.total_volume
            &&& after.data.total_fees_collected >= exchange.data.total_fees_collected
            &&& after.key == exchange.key
            &&& after.data.authority == exchange.data.authority
            &&& after.data.fee_basis_points == exchange.data.fee_basis_points
            &&& after.data.is_paused == exchange.data.is_paused
            &&& exchange.data.wf() ==> after.data.wf()
        }),
    decreases requests.len(),
{
    if requests.len() > 0 {
        lemma_totals_never_fall(exchange, requests.drop_last());
        let before = after_swap_requests(exchange, requests.drop_last());
        let request = requests.last();
        let ctx = Swap { exchange: before, ..request.accounts };
        let rate = ctx.exchange.data.fee_basis_points as int;
        assert(0 <= ctx.fee(request.amount_in)) by (nonlinear_arith)
            requires
                ctx.fee(request.amount_in) == (request.amount_in as int) * rate / 10_000,
                0 <= rate,
        ;
    }
}

} // verus!
