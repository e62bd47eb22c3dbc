//! The order lifecycle: an order is placed with its funds committed in full,
//! and stays active until its owner cancels it.

use vstd::prelude::*;
use crate::custody::{Authorization, Transfer};
use crate::errors::ErrorCode;
use crate::identity::{CustodyCapability, Identity};
use crate::state::{Clock, Exchange, Order, OrderSide, OrderType, Record, TradingPair};

verus! {

/// Prices are quote tokens per base token, times this scale.
pub const PRICE_SCALE: u64 = 1_000_000;

/// What an order commits when it is placed: a buy commits the quote tokens
/// that `amount` costs at `price`, rounded down; a sell commits `amount` base
/// tokens.
pub open spec fn committed_amount(side: OrderSide, amount: int, price: int) -> int {
    match side {
        OrderSide::Buy => amount * price / (PRICE_SCALE as int),
        OrderSide::Sell => amount,
    }
}

/// Computes what an order commits, or nothing where that does not fit in 64
/// bits. The product is formed in 128 bits.
pub fn commitment(side: OrderSide, amount: u64, price: u64) -> (committed: Option<u64>)
    ensures
        committed is Some <==> committed_amount(side, amount as int, price as int) <= u64::MAX,
        committed matches Some(c) ==> c == committed_amount(side, amount as int, price as int),
{
    match side {
        OrderSide::Buy => {
            assert(0 <= amount * price <= 0xffff_ffff_ffff_ffff * 0xffff_ffff_ffff_ffff)
                by (nonlinear_arith);
            let scale: u128 = PRICE_SCALE as u128;
            let cost: u128 = (amount as u128) * (price as u128) / scale;
            if cost > u64::MAX as u128 {
                None
            } else {
                Some(cost as u64)
            }
        },
        OrderSide::Sell => Some(amount),
    }
}

/// The records and accounts for placing an order.
#[derive(Clone, Copy, Debug, PartialEq, Eq)]
pub struct PlaceOrder {
    pub exchange: Record<Exchange>,
    pub pair: Record<TradingPair>,
    /// The slot of the order. What it holds before is of no account.
    pub order: Record<Order>,
    /// Who places the order, and who authorizes the escrow.
    pub user: Identity,
    /// The user's account that funds the order.
    pub user_token_account: Identity,
    pub base_vault: Identity,
    pub quote_vault: Identity,
    /// The ledger time.
    pub clock: Clock,
}

impl PlaceOrder {
    /// Why the order is refused, if it is. The first check that fails
    /// decides.
    pub open spec fn refusal(self, side: OrderSide, amount: u64, price: u64) -> Option<ErrorCode> {
        if self.exchange.data.is_paused {
            Some(ErrorCode::ExchangePaused)
        } else if !self.pair.data.is_active {
            Some(ErrorCode::PairInactive)
        } else if amount == 0 {
            Some(ErrorCode::InvalidAmount)
        } else if price == 0 {
            Some(ErrorCode::InvalidPrice)
        } else if committed_amount(side, amount as int, price as int) > u64::MAX {
            Some(ErrorCode::ArithmeticOverflow)
        } else {
            None
        }
    }

    /// The order as it is placed: nothing filled, active, stamped with the
    /// ledger time.
    pub open spec fn placed(self, order_type: OrderType, side: OrderSide, amount: u64, price: u64)
        -> Order {
        Order {
            user: self.user,
            pair: self.pair.key,
            order_type,
            side,
            amount,
            filled_amount: 0,
            price,
            timestamp: self.clock.unix_timestamp,
            is_active: true,
        }
    }

    /// The transfer that escrows the order: all that it commits, from the
    /// user into the quote vault for a buy and into the base vault for a
    /// sell, on the user's authority.
    pub open spec fn escrow(self, side: OrderSide, amount: u64, price: u64) -> Transfer {
        Transfer {
            from: self.user_token_account,
            to: match side {
                OrderSide::Buy => self.quote_vault,
                OrderSide::Sell => self.base_vault,
            },
            authority: Authorization::Signer(self.user),
            amount: committed_amount(side, amount as int, price as int) as u64,
        }
    }
}

/// Places an order of `amount` at `price` and names the transfer that funds
/// it in full.
///
/// The order is refused, with nothing staged and no transfer named, if the
/// exchange is paused, the pair is inactive, the amount or the price is zero,
/// or what the order commits does not fit in 64 bits; the first of these that
/// applies decides the error.
pub fn place_order(
    ctx: &mut PlaceOrder,
    order_type: OrderType,
    side: OrderSide,
    amount: u64,
    price: u64,
) -> (result: Result<Transfer, ErrorCode>)
    ensures
        match result {
            Ok(escrow) => {
                &&& old(ctx).refusal(side, amount, price) is None
                &&& escrow == old(ctx).escrow(side, amount, price)
                &&& escrow.amount == committed_amount(side, amount as int, price as int)
                &&& *final(ctx) == (PlaceOrder {
                    order: Record {
                        key: old(ctx).order.key,
                        data: old(ctx).placed(order_type, side, amount, price),
                    },
                    ..*old(ctx)
                })
                &&& final(ctx).order.data.wf()
            },
            Err(e) => {
                &&& old(ctx).refusal(side, amount, price) == Some(e)
                &&& *final(ctx) == *old(ctx)
            },
        },
{
    if ctx.exchange.data.is_paused {
        return Err(ErrorCode::ExchangePaused);
    }
    if !ctx.pair.data.is_active {
        return Err(ErrorCode::PairInactive);
    }
    if amount == 0 {
        return Err(ErrorCode::InvalidAmount);
    }
    if price == 0 {
        return Err(ErrorCode::InvalidPrice);
    }
    let committed: u64 = match commitment(side, amount, price) {
        Some(c) => c,
        None => {
            return Err(ErrorCode::ArithmeticOverflow);
        },
    };
    let to: Identity = match side {
        OrderSide::Buy => ctx.quote_vault,
        OrderSide::Sell => ctx.base_vault,
    };
    let placed = Order {
        user: ctx.user,
        pair: ctx.pair.key,
        order_type,
        side,
        amount,
        filled_amount: 0,
        price,
        timestamp: ctx.clock.unix_timestamp,
        is_active: true,
    };
    ctx.order.data = placed;
    Ok(
        Transfer {
            from: ctx.user_token_account,
            to,
            authority: Authorization::Signer(ctx.user),
            amount: committed,
        },
    )
}

/// The records and accounts for cancelling an order.
#[derive(Clone, Copy, Debug, PartialEq, Eq)]
pub struct CancelOrder {
    pub exchange: Record<Exchange>,
    pub order: Record<Order>,
    /// Who asks for the cancellation.
    pub user: Identity,
    /// The user's account that takes the refund.
    pub user_token_account: Identity,
    /// The vault that holds the order's escrow.
    pub vault: Identity,
}

impl CancelOrder {
    /// Why the cancellation is refused, if it is. The first check that fails
    /// decides: an order that is not active is refused as such whoever asks.
    pub open spec fn refusal(self) -> Option<ErrorCode> {
        if !self.order.data.is_active {
            Some(ErrorCode::OrderNotActive)
        } else if self.order.data.user != self.user {
            Some(ErrorCode::Unauthorized)
        } else if self.order.data.filled_amount > self.order.data.amount {
            Some(ErrorCode::ArithmeticOverflow)
        } else {
            None
        }
    }

    /// The refund of a cancellation that is not refused: what is unfilled,
    /// from the vault back to the user on the authority of the exchange, or
    /// no transfer where nothing is unfilled.
    pub open spec fn refund(self) -> Option<Transfer> {
        if self.order.data.unfilled() > 0 {
            Some(
                Transfer {
                    from: self.vault,
                    to: self.user_token_account,
                    authority: Authorization::Custodial(
                        CustodyCapability::derived_from(self.exchange.key),
                    ),
                    amount: self.order.data.unfilled() as u64,
                },
            )
        } else {
            None
        }
    }

    /// The records after a cancellation that is not refused: the order is no
    /// longer active, and nothing else has changed.
    pub open spec fn staged(self) -> CancelOrder {
        CancelOrder {
            order: Record {
                key: self.order.key,
                data: Order { is_active: false, ..self.order.data },
            },
            ..self
        }
    }
}

/// Cancels an active order at its owner's request and names the refund of
/// what is unfilled.
///
/// The cancellation is refused, with nothing staged and no transfer named, if
/// the order is not active (`OrderNotActive`, whoever asks), if the caller is
/// not the order's owner (`Unauthorized`), or if the order records more filled
/// than its size (`ArithmeticOverflow`).
pub fn cancel_order(ctx: &mut CancelOrder) -> (result: Result<Option<Transfer>, ErrorCode>)
    ensures
        match result {
            Ok(refund) => {
                &&& old(ctx).refusal() is None
                &&& refund == old(ctx).refund()
                &&& *final(ctx) == old(ctx).staged()
            },
            Err(e) => {
                &&& old(ctx).refusal() == Some(e)
                &&& *final(ctx) == *old(ctx)
            },
        },
        !old(ctx).order.data.is_active ==> result == Err::<Option<Transfer>, ErrorCode>(
            ErrorCode::OrderNotActive,
        ),
        old(ctx).order.data.is_active && old(ctx).order.data.user != old(ctx).user ==> result
            == Err::<Option<Transfer>, ErrorCode>(ErrorCode::Unauthorized),
        final(ctx).order.data.amount == old(ctx).order.data.amount,
        final(ctx).order.data.price == old(ctx).order.data.price,
        final(ctx).order.data.is_active ==> old(ctx).order.data.is_active,
        old(ctx).order.data.wf() ==> final(ctx).order.data.wf(),
{
    if !ctx.order.data.is_active {
        return Err(ErrorCode::OrderNotActive);
    }
    if ctx.order.data.user != ctx.user {
        return Err(ErrorCode::Unauthorized);
    }
    let unfilled: u64 = match ctx.order.data.amount.checked_sub(ctx.order.data.filled_amount) {
        Some(rest) => rest,
        None => {
            return Err(ErrorCode::ArithmeticOverflow);
        },
    };
    let refund: Option<Transfer> = if unfilled > 0 {
        Some(
            Transfer {
                from: ctx.vault,
                to: ctx.user_token_account,
                authority: Authorization::Custodial(CustodyCapability::derive(ctx.exchange.key)),
                amount: unfilled,
            },
        )
    } else {
        None
    };
    ctx.order.data.is_active = false;
    Ok(refund)
}

} // verus!
