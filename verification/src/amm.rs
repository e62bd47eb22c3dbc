//! The pricing engine: constant-product swaps against the reserves of a pair.

use vstd::prelude::*;
use crate::custody::{Authorization, Transfer};
use crate::errors::ErrorCode;
use crate::identity::{CustodyCapability, Identity};
use crate::state::{Exchange, Record, TradingPair};

verus! {

/// One basis point is 1/10,000 of the input.
pub const BASIS_POINT_SCALE: u64 = 10_000;

/// The fee on `amount_in` at a rate of `fee_basis_points`, rounded down.
pub open spec fn swap_fee(amount_in: int, fee_basis_points: int) -> int {
    amount_in * fee_basis_points / (BASIS_POINT_SCALE as int)
}

/// What `net_in`, the input less the fee, buys from a pool that holds
/// `reserve_in` of the token paid and `reserve_out` of the token bought,
/// rounded down. The product of the two reserves does not fall.
pub open spec fn swap_output(net_in: int, reserve_in: int, reserve_out: int) -> int {
    net_in * reserve_out / (reserve_in + net_in)
}

/// Whether a swap of `amount_in` has a price: the fee does not exceed the
/// input, and the pool is not empty once the input has arrived.
pub open spec fn priced(amount_in: int, fee_basis_points: int, reserve_in: int) -> bool {
    &&& swap_fee(amount_in, fee_basis_points) <= amount_in
    &&& reserve_in + amount_in - swap_fee(amount_in, fee_basis_points) > 0
}

/// At a rate of at most 100% the fee is between nothing and the whole input.
pub proof fn lemma_fee_bounded(amount_in: int, fee_basis_points: int)
    requires
        0 <= amount_in,
        0 <= fee_basis_points <= 10_000,
    ensures
        0 <= swap_fee(amount_in, fee_basis_points) <= amount_in,
{
    assert(0 <= amount_in * fee_basis_points <= amount_in * 10_000) by (nonlinear_arith)
        requires
            0 <= amount_in,
            0 <= fee_basis_points <= 10_000,
    ;
}

/// A swap never pays out more than the pool holds, and while both reserves
/// are positive it never empties the pool.
pub proof fn lemma_output_bounded(net_in: int, reserve_in: int, reserve_out: int)
    requires
        0 <= net_in,
        0 <= reserve_in,
        0 <= reserve_out,
        0 < reserve_in + net_in,
    ensures
        0 <= swap_output(net_in, reserve_in, reserve_out) <= reserve_out,
        reserve_in > 0 && reserve_out > 0 ==> swap_output(net_in, reserve_in, reserve_out)
            < reserve_out,
{
    let d = reserve_in + net_in;
    let n = net_in * reserve_out;
    assert(0 <= n <= d * reserve_out) by (nonlinear_arith)
        requires
            n == net_in * reserve_out,
            d == reserve_in + net_in,
            0 <= net_in,
            0 <= reserve_in,
            0 <= reserve_out,
    ;
    assert(0 <= n / d <= reserve_out) by (nonlinear_arith)
        requires
            0 <= n <= d * reserve_out,
            0 < d,
    ;
    if reserve_in > 0 && reserve_out > 0 {
        assert(n < d * reserve_out) by (nonlinear_arith)
            requires
                n == net_in * reserve_out,
                d == reserve_in + net_in,
                0 <= net_in,
                0 < reserve_in,
                0 < reserve_out,
        ;
        assert(n / d < reserve_out) by (nonlinear_arith)
            requires
                0 <= n < d * reserve_out,
                0 < d,
        ;
    }
}

/// The constant-product rule: after the net input has joined one reserve and
/// the output has left the other, the product of the reserves is no smaller
/// than before.
pub proof fn lemma_constant_product(net_in: int, reserve_in: int, reserve_out: int)
    requires
        0 <= net_in,
        0 <= reserve_in,
        0 <= reserve_out,
        0 < reserve_in + net_in,
    ensures
        (reserve_in + net_in) * (reserve_out - swap_output(net_in, reserve_in, reserve_out))
            >= reserve_in * reserve_out,
{
    let d = reserve_in + net_in;
    let n = net_in * reserve_out;
    let out = n / d;
    assert(out * d <= n) by (nonlinear_arith)
        requires
            out == n / d,
            0 < d,
    ;
    assert(d * (reserve_out - out) >= reserve_in * reserve_out) by (nonlinear_arith)
        requires
            out * d <= n,
            n == net_in * reserve_out,
            d == reserve_in + net_in,
    ;
}

/// Fee and output of a swap.
#[derive(Clone, Copy, Debug, PartialEq, Eq, Structural)]
pub struct Quote {
    pub fee: u64,
    pub amount_out: u64,
}

/// Prices a swap of `amount_in` against the given reserves. Products are
/// formed in 128 bits, so the result is exact wherever the swap has a price.
pub fn quote(amount_in: u64, fee_basis_points: u16, reserve_in: u64, reserve_out: u64) -> (q:
    Option<Quote>)
    ensures
        q is Some <==> priced(amount_in as int, fee_basis_points as int, reserve_in as int),
        q matches Some(q) ==> {
            &&& q.fee == swap_fee(amount_in as int, fee_basis_points as int)
            &&& q.amount_out == swap_output(
                amount_in - q.fee,
                reserve_in as int,
                reserve_out as int,
            )
        },
{
    assert(amount_in * fee_basis_points <= 0xffff_ffff_ffff_ffff * 0xffff) by (nonlinear_arith);
    let scale: u128 = BASIS_POINT_SCALE as u128;
    let wide_fee: u128 = (amount_in as u128) * (fee_basis_points as u128) / scale;
    if wide_fee > amount_in as u128 {
        return None;
    }
    let fee: u64 = wide_fee as u64;
    let net_in: u64 = amount_in - fee;
    let pool: u128 = reserve_in as u128 + net_in as u128;
    if pool == 0 {
        return None;
    }
    assert(net_in * reserve_out <= 0xffff_ffff_ffff_ffff * 0xffff_ffff_ffff_ffff)
        by (nonlinear_arith);
    let amount_out: u128 = (net_in as u128) * (reserve_out as u128) / pool;
    proof {
        lemma_output_bounded(net_in as int, reserve_in as int, reserve_out as int);
    }
    Some(Quote { fee, amount_out: amount_out as u64 })
}

/// The records and accounts that a swap works on.
#[derive(Clone, Copy, Debug, PartialEq, Eq)]
pub struct Swap {
    pub exchange: Record<Exchange>,
    pub pair: Record<TradingPair>,
    /// Who swaps, and who authorizes the deposit.
    pub user: Identity,
    /// The user's account for the token paid.
    pub user_source: Identity,
    /// The user's account for the token bought.
    pub user_destination: Identity,
    /// The vault of the pair that takes the token paid.
    pub vault_source: Identity,
    /// The vault of the pair that gives the token bought.
    pub vault_destination: Identity,
}

impl Swap {
    /// The direction of the swap, which the caller chooses by the vault it
    /// names as the source: quote to base where that is the quote vault of
    /// the pair (and not its base vault as well), base to quote otherwise.
    pub open spec fn base_to_quote(self) -> bool {
        self.vault_source == self.pair.data.base_vault || self.vault_source
            != self.pair.data.quote_vault
    }

    /// The reserve of the token paid.
    pub open spec fn reserve_in(self) -> u64 {
        if self.base_to_quote() {
            self.pair.data.base_reserve
        } else {
            self.pair.data.quote_reserve
        }
    }

    /// The reserve of the token bought.
    pub open spec fn reserve_out(self) -> u64 {
        if self.base_to_quote() {
            self.pair.data.quote_reserve
        } else {
            self.pair.data.base_reserve
        }
    }

    /// The fee on a swap of `amount_in`.
    pub open spec fn fee(self, amount_in: u64) -> int {
        swap_fee(amount_in as int, self.exchange.data.fee_basis_points as int)
    }

    /// What a swap of `amount_in` pays out.
    pub open spec fn amount_out(self, amount_in: u64) -> int {
        swap_output(
            amount_in - self.fee(amount_in),
            self.reserve_in() as int,
            self.reserve_out() as int,
        )
    }

    /// Whether a swap of `amount_in` has a price.
    pub open spec fn priced(self, amount_in: u64) -> bool {
        priced(
            amount_in as int,
            self.exchange.data.fee_basis_points as int,
            self.reserve_in() as int,
        )
    }

    /// Whether a swap of `amount_in` is valid: the exchange is not paused,
    /// the pair is active, the amount is positive, and the swap has a price.
    pub open spec fn valid(self, amount_in: u64) -> bool {
        &&& !self.exchange.data.is_paused
        &&& self.pair.data.is_active
        &&& amount_in > 0
        &&& self.priced(amount_in)
    }

    /// Why a swap is refused, if it is. The first check that fails decides.
    pub open spec fn refusal(self, amount_in: u64, minimum_amount_out: u64) -> Option<ErrorCode> {
        if self.exchange.data.is_paused {
            Some(ErrorCode::ExchangePaused)
        } else if !self.pair.data.is_active {
            Some(ErrorCode::PairInactive)
        } else if amount_in == 0 {
            Some(ErrorCode::InvalidAmount)
        } else if !self.priced(amount_in) {
            Some(ErrorCode::ArithmeticOverflow)
        } else if self.amount_out(amount_in) < minimum_amount_out {
            Some(ErrorCode::SlippageExceeded)
        } else if self.exchange.data.total_volume + amount_in > u64::MAX
            || self.exchange.data.total_fees_collected + self.fee(amount_in) > u64::MAX {
            Some(ErrorCode::ArithmeticOverflow)
        } else {
            None
        }
    }

    /// The transfers of a swap that is not refused: the whole input from the
    /// user into the source vault, on the user's authority, and then the
    /// output from the destination vault to the user, on the authority of
    /// the exchange.
    pub open spec fn settlement(self, amount_in: u64) -> SwapSettlement {
        SwapSettlement {
            deposit: Transfer {
                from: self.user_source,
                to: self.vault_source,
                authority: Authorization::Signer(self.user),
                amount: amount_in,
            },
            payout: Transfer {
                from: self.vault_destination,
                to: self.user_destination,
                authority: Authorization::Custodial(
                    CustodyCapability::derived_from(self.exchange.key),
                ),
                amount: self.amount_out(amount_in) as u64,
            },
            fee: self.fee(amount_in) as u64,
        }
    }

    /// The records after a swap that is not refused: the totals of the
    /// exchange have grown by the input and by the fee. Nothing else has
    /// changed; in particular the reserves of the pair stay as they were.
    pub open spec fn staged(self, amount_in: u64) -> Swap {
        Swap {
            exchange: Record {
                key: self.exchange.key,
                data: Exchange {
                    total_volume: (self.exchange.data.total_volume + amount_in) as u64,
                    total_fees_collected: (self.exchange.data.total_fees_collected + self.fee(
                        amount_in,
                    )) as u64,
                    ..self.exchange.data
                },
            },
            ..self
        }
    }
}

/// What the host has to carry out for a swap.
#[derive(Clone, Copy, Debug, PartialEq, Eq)]
pub struct SwapSettlement {
    /// First: the input, from the user into the pool.
    pub deposit: Transfer,
    /// Second: the output, from the pool to the user.
    pub payout: Transfer,
    /// The part of the input that is the fee.
    pub fee: u64,
}

/// Swaps `amount_in` of one token of the pair for the other at the
/// constant-product price, provided that at least `minimum_amount_out` comes
/// out.
///
/// The swap is refused, with nothing staged and no transfer named, if the
/// exchange is paused, the pair is inactive, the amount is zero, the swap has
/// no price, the output is below the minimum, or a total of the exchange
/// would pass 64 bits; the first of these that applies decides the error.
/// Otherwise the totals of the exchange grow by exactly the input and the
/// fee, and the result names the deposit and the payout.
///
/// The reserves of the pair are read and never written: a swap prices
/// against the reserves as recorded, and keeping them in step with the vaults
/// is left to whoever maintains the pair.
pub fn swap(ctx: &mut Swap, amount_in: u64, minimum_amount_out: u64) -> (result: Result<
    SwapSettlement,
    ErrorCode,
>)
    ensures
        match result {
            Ok(settlement) => {
                &&& old(ctx).refusal(amount_in, minimum_amount_out) is None
                &&& settlement == old(ctx).settlement(amount_in)
                &&& *final(ctx) == old(ctx).staged(amount_in)
            },
            Err(e) => {
                &&& old(ctx).refusal(amount_in, minimum_amount_out) == Some(e)
                &&& *final(ctx) == *old(ctx)
            },
        },
        old(ctx).valid(amount_in) ==> (result == Err::<SwapSettlement, ErrorCode>(
            ErrorCode::SlippageExceeded,
        ) <==> old(ctx).amount_out(amount_in) < minimum_amount_out),
        result matches Ok(settlement) ==> {
            &&& settlement.payout.amount == old(ctx).amount_out(amount_in)
            &&& settlement.payout.amount >= minimum_amount_out
            &&& settlement.fee == old(ctx).fee(amount_in)
            &&& final(ctx).exchange.data.total_volume == old(ctx).exchange.data.total_volume
                + amount_in
            &&& final(ctx).exchange.data.total_fees_collected
                == old(ctx).exchange.data.total_fees_collected + settlement.fee
            &&& final(ctx).pair == old(ctx).pair
        },
        old(ctx).exchange.data.wf() ==> final(ctx).exchange.data.wf(),
{
    if ctx.exchange.data.is_paused {
        return Err(ErrorCode::ExchangePaused);
    }
    if !ctx.pair.data.is_active {
        return Err(ErrorCode::PairInactive);
    }
    if amount_in == 0 {
        return Err(ErrorCode::InvalidAmount);
    }
    let base_to_quote: bool = ctx.vault_source == ctx.pair.data.base_vault || ctx.vault_source
        != ctx.pair.data.quote_vault;
    let reserve_in: u64 = if base_to_quote {
        ctx.pair.data.base_reserve
    } else {
        ctx.pair.data.quote_reserve
    };
    let reserve_out: u64 = if base_to_quote {
        ctx.pair.data.quote_reserve
    } else {
        ctx.pair.data.base_reserve
    };
    let fee_basis_points: u16 = ctx.exchange.data.fee_basis_points;
    let priced = match quote(amount_in, fee_basis_points, reserve_in, reserve_out) {
        Some(q) => q,
        None => {
            return Err(ErrorCode::ArithmeticOverflow);
        },
    };
    if priced.amount_out < minimum_amount_out {
        return Err(ErrorCode::SlippageExceeded);
    }
    let total_volume: u64 = match ctx.exchange.data.total_volume.checked_add(amount_in) {
        Some(sum) => sum,
        None => {
            return Err(ErrorCode::ArithmeticOverflow);
        },
    };
    let total_fees: u64 = match ctx.exchange.data.total_fees_collected.checked_add(priced.fee) {
        Some(sum) => sum,
        None => {
            return Err(ErrorCode::ArithmeticOverflow);
        },
    };
    let settlement = SwapSettlement {
        deposit: Transfer {
            from: ctx.user_source,
            to: ctx.vault_source,
            authority: Authorization::Signer(ctx.user),
            amount: amount_in,
        },
        payout: Transfer {
            from: ctx.vault_destination,
            to: ctx.user_destination,
            authority: Authorization::Custodial(CustodyCapability::derive(ctx.exchange.key)),
            amount: priced.amount_out,
        },
        fee: priced.fee,
    };
    ctx.exchange.data.total_volume = total_volume;
    ctx.exchange.data.total_fees_collected = total_fees;
    Ok(settlement)
}

} // verus!
