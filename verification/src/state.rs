//! The records of the ledger.

use vstd::prelude::*;
use crate::identity::Identity;

verus! {

/// Largest fee rate, in basis points: 100%.
pub const MAX_FEE_BASIS_POINTS: u16 = 10_000;

/// How an order is to be executed.
#[derive(Clone, Copy, Debug, PartialEq, Eq, Structural)]
pub enum OrderType {
    Limit,
    Market,
}

/// Which side of the pair an order takes.
#[derive(Clone, Copy, Debug, PartialEq, Eq, Structural)]
pub enum OrderSide {
    /// Pays quote tokens for base tokens.
    Buy,
    /// Pays base tokens for quote tokens.
    Sell,
}

/// The ledger time at which an operation runs.
#[derive(Clone, Copy, Debug, PartialEq, Eq, Structural)]
pub struct Clock {
    pub unix_timestamp: i64,
}

/// A record together with the key under which the ledger stores it.
#[derive(Clone, Copy, Debug, PartialEq, Eq)]
pub struct Record<T> {
    pub key: Identity,
    pub data: T,
}

/// Configuration and running totals of the exchange. There is one per
/// deployment.
#[derive(Clone, Copy, Debug, PartialEq, Eq)]
pub struct Exchange {
    /// Who administers the exchange.
    pub authority: Identity,
    /// Fee charged on the input of a swap, in basis points.
    pub fee_basis_points: u16,
    /// Sum of the inputs of all swaps.
    pub total_volume: u64,
    /// Sum of the fees of all swaps.
    pub total_fees_collected: u64,
    /// While set, no order is placed and no swap runs.
    pub is_paused: bool,
}

impl Exchange {
    /// The fee rate is at most 100%.
    pub open spec fn wf(self) -> bool {
        self.fee_basis_points <= MAX_FEE_BASIS_POINTS
    }
}

/// Reserves and state of one (base, quote) pair.
#[derive(Clone, Copy, Debug, PartialEq, Eq)]
pub struct TradingPair {
    /// The exchange that the pair belongs to.
    pub exchange: Identity,
    pub base_mint: Identity,
    pub quote_mint: Identity,
    /// Custody account that holds the pooled base tokens.
    pub base_vault: Identity,
    /// Custody account that holds the pooled quote tokens.
    pub quote_vault: Identity,
    /// Chosen by the creator; need not be unique.
    pub pair_id: u64,
    pub base_reserve: u64,
    pub quote_reserve: u64,
    pub total_volume: u64,
    pub is_active: bool,
}

/// An order and the funds it has committed.
#[derive(Clone, Copy, Debug, PartialEq, Eq)]
pub struct Order {
    /// Who placed the order, and who alone may cancel it.
    pub user: Identity,
    /// Key of the pair the order was placed on.
    pub pair: Identity,
    pub order_type: OrderType,
    pub side: OrderSide,
    /// Total size, fixed when the order is placed.
    pub amount: u64,
    /// How much of `amount` has been settled.
    pub filled_amount: u64,
    /// Quote tokens per base token, scaled by 1,000,000; fixed when the
    /// order is placed.
    pub price: u64,
    /// Ledger time at which the order was placed.
    pub timestamp: i64,
    /// Set until the order is cancelled.
    pub is_active: bool,
}

impl Order {
    /// Size and price are positive, and no more than the size is filled.
    pub open spec fn wf(self) -> bool {
        &&& self.amount > 0
        &&& self.price > 0
        &&& self.filled_amount <= self.amount
    }

    /// What has not been settled yet.
    pub open spec fn unfilled(self) -> int {
        self.amount - self.filled_amount
    }
}

} // verus!
