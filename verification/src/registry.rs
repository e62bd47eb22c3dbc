//! The exchange registry and the pair registry: how records come to be.
//!
//! Both operations write into a slot that the record store has allocated for
//! them. That the slot was vacant is the store's to check, not theirs.

use vstd::prelude::*;
use crate::errors::ErrorCode;
use crate::identity::Identity;
use crate::state::{Exchange, Record, TradingPair, MAX_FEE_BASIS_POINTS};

verus! {

/// The slot and the signer for setting up the exchange.
#[derive(Clone, Copy, Debug, PartialEq, Eq)]
pub struct InitializeExchange {
    /// The slot of the exchange. What it holds before is of no account.
    pub exchange: Record<Exchange>,
    /// Who sets the exchange up, and who administers it from then on.
    pub authority: Identity,
}

impl InitializeExchange {
    /// The exchange as it is set up: no volume, no fees, not paused.
    pub open spec fn fresh(self, fee_basis_points: u16) -> Exchange {
        Exchange {
            authority: self.authority,
            fee_basis_points,
            total_volume: 0,
            total_fees_collected: 0,
            is_paused: false,
        }
    }
}

/// Sets up the exchange with the caller as its authority and the given fee
/// rate. A rate above 100% is refused as an invalid amount, and the slot is
/// then left as it was.
pub fn initialize_exchange(ctx: &mut InitializeExchange, fee_basis_points: u16) -> (result: Result<
    (),
    ErrorCode,
>)
    ensures
        result is Ok <==> fee_basis_points <= MAX_FEE_BASIS_POINTS,
        result is Ok ==> {
            &&& final(ctx).exchange.data == old(ctx).fresh(fee_basis_points)
            &&& final(ctx).exchange.data.wf()
            &&& final(ctx).exchange.key == old(ctx).exchange.key
            &&& final(ctx).authority == old(ctx).authority
        },
        result matches Err(e) ==> e == ErrorCode::InvalidAmount && *final(ctx) == *old(ctx),
{
    if fee_basis_points > MAX_FEE_BASIS_POINTS {
        return Err(ErrorCode::InvalidAmount);
    }
    let fresh = Exchange {
        authority: ctx.authority,
        fee_basis_points,
        total_volume: 0,
        total_fees_collected: 0,
        is_paused: false,
    };
    ctx.exchange.data = fresh;
    Ok(())
}

/// The exchange, the slot and the accounts for setting up a trading pair.
#[derive(Clone, Copy, Debug, PartialEq, Eq)]
pub struct CreatePair {
    pub exchange: Record<Exchange>,
    /// The slot of the pair. What it holds before is of no account.
    pub pair: Record<TradingPair>,
    pub base_mint: Identity,
    pub quote_mint: Identity,
    pub base_vault: Identity,
    pub quote_vault: Identity,
    /// Who pays for the slot.
    pub authority: Identity,
}

impl CreatePair {
    /// The pair as it is set up: bound to the exchange, the token types and
    /// the vaults named, with empty reserves, no volume, and active.
    pub open spec fn fresh(self, pair_id: u64) -> TradingPair {
        TradingPair {
            exchange: self.exchange.key,
            base_mint: self.base_mint,
            quote_mint: self.quote_mint,
            base_vault: self.base_vault,
            quote_vault: self.quote_vault,
            pair_id,
            base_reserve: 0,
            quote_reserve: 0,
            total_volume: 0,
            is_active: true,
        }
    }
}

/// Sets up a trading pair of the exchange under the identifier that the
/// caller chose. Nothing is checked of the vaults or the token types, and
/// the identifier need not be new. This always succeeds.
pub fn create_pair(ctx: &mut CreatePair, pair_id: u64) -> (result: Result<(), ErrorCode>)
    ensures
        result is Ok,
        *final(ctx) == (CreatePair {
            pair: Record { key: old(ctx).pair.key, data: old(ctx).fresh(pair_id) },
            ..*old(ctx)
        }),
{
    let fresh = TradingPair {
        exchange: ctx.exchange.key,
        base_mint: ctx.base_mint,
        quote_mint: ctx.quote_mint,
        base_vault: ctx.base_vault,
        quote_vault: ctx.quote_vault,
        pair_id,
        base_reserve: 0,
        quote_reserve: 0,
        total_volume: 0,
        is_active: true,
    };
    ctx.pair.data = fresh;
    Ok(())
}

} // verus!
