use solbase_dex::{
    swap, Authorization, CustodyError, ErrorCode, Exchange, Identity, Record, Swap, TradingPair,
};

fn id(n: u8) -> Identity {
    Identity { bytes: [n; 32] }
}

fn exchange(fee_basis_points: u16) -> Record<Exchange> {
    Record {
        key: id(1),
        data: Exchange {
            authority: id(2),
            fee_basis_points,
            total_volume: 0,
            total_fees_collected: 0,
            is_paused: false,
        },
    }
}

fn pair(base_reserve: u64, quote_reserve: u64) -> Record<TradingPair> {
    Record {
        key: id(3),
        data: TradingPair {
            exchange: id(1),
            base_mint: id(4),
            quote_mint: id(5),
            base_vault: id(6),
            quote_vault: id(7),
            pair_id: 42,
            base_reserve,
            quote_reserve,
            total_volume: 0,
            is_active: true,
        },
    }
}

/// A swap of base for quote.
fn base_to_quote(fee_basis_points: u16, base_reserve: u64, quote_reserve: u64) -> Swap {
    Swap {
        exchange: exchange(fee_basis_points),
        pair: pair(base_reserve, quote_reserve),
        user: id(10),
        user_source: id(11),
        user_destination: id(12),
        vault_source: id(6),
        vault_destination: id(7),
    }
}

/// A swap of quote for base.
fn quote_to_base(fee_basis_points: u16, base_reserve: u64, quote_reserve: u64) -> Swap {
    Swap {
        vault_source: id(7),
        vault_destination: id(6),
        ..base_to_quote(fee_basis_points, base_reserve, quote_reserve)
    }
}

fn floor_fee(amount_in: u64, fee_basis_points: u16) -> u128 {
    amount_in as u128 * fee_basis_points as u128 / 10_000
}

fn floor_out(net_in: u128, reserve_in: u64, reserve_out: u64) -> u128 {
    net_in * reserve_out as u128 / (reserve_in as u128 + net_in)
}

#[test]
fn swap_of_ten_thousand_at_thirty_basis_points() {
    let mut ctx = base_to_quote(30, 1_000_000, 1_000_000);
    let settlement = swap(&mut ctx, 10_000, 0).unwrap();
    assert_eq!(settlement.fee, 30);
    assert_eq!(settlement.deposit.amount, 10_000);
    // floor(9,970 * 1,000,000 / 1,009,970)
    assert_eq!(settlement.payout.amount, 9_871);
    assert_eq!(ctx.exchange.data.total_volume, 10_000);
    assert_eq!(ctx.exchange.data.total_fees_collected, 30);
}

#[test]
fn swap_succeeds_exactly_up_to_the_floor_of_the_output() {
    let mut at_floor = base_to_quote(30, 1_000_000, 1_000_000);
    let settlement = swap(&mut at_floor, 10_000, 9_871).unwrap();
    assert_eq!(settlement.payout.amount, 9_871);

    let mut above_floor = base_to_quote(30, 1_000_000, 1_000_000);
    let before = above_floor;
    assert_eq!(swap(&mut above_floor, 10_000, 9_872), Err(ErrorCode::SlippageExceeded));
    assert_eq!(above_floor, before);
}

#[test]
fn swap_output_is_the_floor_of_the_constant_product_formula() {
    let cases: [(u64, u16, u64, u64); 8] = [
        (1, 0, 1, 1),
        (1, 30, 1_000, 1_000),
        (999, 25, 123_456, 654_321),
        (10_000, 30, 1_000_000, 1_000_000),
        (5_000_000, 100, 1_000, 7),
        (77, 9_999, 3, 1_000_000_000),
        (u64::MAX, 10_000, 5, u64::MAX),
        (u64::MAX, 1, u64::MAX, u64::MAX),
    ];
    for (amount_in, fee_basis_points, reserve_in, reserve_out) in cases {
        let fee = floor_fee(amount_in, fee_basis_points);
        let out = floor_out(amount_in as u128 - fee, reserve_in, reserve_out);
        let mut ctx = base_to_quote(fee_basis_points, reserve_in, reserve_out);
        let settlement = swap(&mut ctx, amount_in, 0).unwrap();
        assert_eq!(settlement.fee as u128, fee);
        assert_eq!(settlement.payout.amount as u128, out);
        if out < u64::MAX as u128 {
            let mut refused = base_to_quote(fee_basis_points, reserve_in, reserve_out);
            assert_eq!(
                swap(&mut refused, amount_in, out as u64 + 1),
                Err(ErrorCode::SlippageExceeded)
            );
        }
        let mut exact = base_to_quote(fee_basis_points, reserve_in, reserve_out);
        assert!(swap(&mut exact, amount_in, out as u64).is_ok());
    }
}

#[test]
fn swap_adds_input_and_fee_to_the_totals_and_nothing_else() {
    let mut ctx = base_to_quote(250, 40_000, 90_000);
    ctx.exchange.data.total_volume = 1_000;
    ctx.exchange.data.total_fees_collected = 17;
    ctx.pair.data.total_volume = 5;
    let before = ctx;
    let settlement = swap(&mut ctx, 2_000, 1).unwrap();
    assert_eq!(settlement.fee, 50);
    assert_eq!(ctx.exchange.data.total_volume, 3_000);
    assert_eq!(ctx.exchange.data.total_fees_collected, 67);
    assert_eq!(ctx.exchange.data.fee_basis_points, 250);
    assert_eq!(ctx.exchange.data.authority, before.exchange.data.authority);
    assert!(!ctx.exchange.data.is_paused);
    assert_eq!(ctx.exchange.key, before.exchange.key);
    assert_eq!(ctx.pair, before.pair);
    assert_eq!(ctx.pair.data.total_volume, 5);
}

#[test]
fn swap_leaves_the_reserves_as_recorded() {
    let mut ctx = base_to_quote(30, 1_000_000, 2_000_000);
    let first = swap(&mut ctx, 10_000, 0).unwrap();
    assert_eq!(ctx.pair.data.base_reserve, 1_000_000);
    assert_eq!(ctx.pair.data.quote_reserve, 2_000_000);
    let second = swap(&mut ctx, 10_000, 0).unwrap();
    assert_eq!(first.payout.amount, second.payout.amount);
    assert_eq!(ctx.exchange.data.total_volume, 20_000);
}

#[test]
fn swap_names_deposit_then_payout() {
    let mut ctx = base_to_quote(30, 1_000_000, 1_000_000);
    let settlement = swap(&mut ctx, 10_000, 0).unwrap();
    assert_eq!(settlement.deposit.from, id(11));
    assert_eq!(settlement.deposit.to, id(6));
    assert_eq!(settlement.deposit.authority, Authorization::Signer(id(10)));
    assert_eq!(settlement.deposit.amount, 10_000);
    assert_eq!(settlement.payout.from, id(7));
    assert_eq!(settlement.payout.to, id(12));
    match settlement.payout.authority {
        Authorization::Custodial(capability) => {
            assert_eq!(capability.exchange(), id(1));
            let seeds = capability.signer_seeds();
            assert_eq!(seeds, vec![b"exchange".to_vec(), vec![1u8; 32]]);
        }
        Authorization::Signer(_) => panic!("the payout is authorized by the exchange"),
    }
}

#[test]
fn swap_prices_by_the_direction_of_the_vaults() {
    let mut forward = base_to_quote(0, 1_000, 4_000);
    // floor(100 * 4,000 / 1,100)
    assert_eq!(swap(&mut forward, 100, 0).unwrap().payout.amount, 363);

    let mut backward = quote_to_base(0, 1_000, 4_000);
    let settlement = swap(&mut backward, 100, 0).unwrap();
    // floor(100 * 1,000 / 4,100)
    assert_eq!(settlement.payout.amount, 24);
    assert_eq!(settlement.deposit.to, id(7));
    assert_eq!(settlement.payout.from, id(6));
}

#[test]
fn swap_through_a_vault_unknown_to_the_pair_is_priced_base_to_quote() {
    let mut ctx = base_to_quote(0, 1_000, 4_000);
    ctx.vault_source = id(99);
    assert_eq!(swap(&mut ctx, 100, 0).unwrap().payout.amount, 363);
}

#[test]
fn swap_on_a_paused_exchange_is_refused() {
    let mut ctx = base_to_quote(30, 1_000_000, 1_000_000);
    ctx.exchange.data.is_paused = true;
    let before = ctx;
    assert_eq!(swap(&mut ctx, 10_000, 0), Err(ErrorCode::ExchangePaused));
    assert_eq!(ctx, before);
}

#[test]
fn swap_on_a_paused_exchange_is_refused_before_anything_else() {
    let mut ctx = base_to_quote(30, 0, 0);
    ctx.exchange.data.is_paused = true;
    ctx.pair.data.is_active = false;
    assert_eq!(swap(&mut ctx, 0, u64::MAX), Err(ErrorCode::ExchangePaused));
}

#[test]
fn swap_on_an_inactive_pair_is_refused() {
    let mut ctx = base_to_quote(30, 1_000_000, 1_000_000);
    ctx.pair.data.is_active = false;
    let before = ctx;
    assert_eq!(swap(&mut ctx, 0, 0), Err(ErrorCode::PairInactive));
    assert_eq!(ctx, before);
}

#[test]
fn swap_of_nothing_is_refused() {
    let mut ctx = base_to_quote(30, 1_000_000, 1_000_000);
    let before = ctx;
    assert_eq!(swap(&mut ctx, 0, 0), Err(ErrorCode::InvalidAmount));
    assert_eq!(ctx, before);
}

#[test]
fn swap_against_empty_reserves_pays_nothing() {
    let mut ctx = base_to_quote(30, 0, 0);
    assert_eq!(swap(&mut ctx, 500, 0).unwrap().payout.amount, 0);
    let mut wanting = base_to_quote(30, 0, 0);
    assert_eq!(swap(&mut wanting, 500, 1), Err(ErrorCode::SlippageExceeded));
}

#[test]
fn swap_without_a_price_is_refused() {
    // The whole input is fee, and nothing is in the pool to divide by.
    let mut ctx = base_to_quote(10_000, 0, 1_000);
    let before = ctx;
    assert_eq!(swap(&mut ctx, 500, 0), Err(ErrorCode::ArithmeticOverflow));
    assert_eq!(ctx, before);
}

#[test]
fn swap_at_a_fee_above_the_input_is_refused() {
    let mut ctx = base_to_quote(20_000, 1_000, 1_000);
    let before = ctx;
    assert_eq!(swap(&mut ctx, 500, 0), Err(ErrorCode::ArithmeticOverflow));
    assert_eq!(ctx, before);
}

#[test]
fn swap_that_would_overflow_the_volume_is_refused() {
    let mut ctx = base_to_quote(30, 1_000_000, 1_000_000);
    ctx.exchange.data.total_volume = u64::MAX - 9_999;
    let before = ctx;
    assert_eq!(swap(&mut ctx, 10_000, 0), Err(ErrorCode::ArithmeticOverflow));
    assert_eq!(ctx, before);
    assert_eq!(swap(&mut ctx, 9_999, 0).unwrap().deposit.amount, 9_999);
    assert_eq!(ctx.exchange.data.total_volume, u64::MAX);
}

#[test]
fn swap_that_would_overflow_the_fees_is_refused() {
    let mut ctx = base_to_quote(30, 1_000_000, 1_000_000);
    ctx.exchange.data.total_fees_collected = u64::MAX - 29;
    let before = ctx;
    assert_eq!(swap(&mut ctx, 10_000, 0), Err(ErrorCode::ArithmeticOverflow));
    assert_eq!(ctx, before);
}

#[test]
fn swap_reports_slippage_before_overflowing_totals() {
    let mut ctx = base_to_quote(30, 1_000_000, 1_000_000);
    ctx.exchange.data.total_volume = u64::MAX;
    assert_eq!(swap(&mut ctx, 10_000, 9_872), Err(ErrorCode::SlippageExceeded));
}

#[test]
fn swap_of_the_largest_amount_is_exact() {
    let mut ctx = base_to_quote(10_000, 1, u64::MAX);
    let settlement = swap(&mut ctx, u64::MAX, 0).unwrap();
    assert_eq!(settlement.fee, u64::MAX);
    assert_eq!(settlement.payout.amount, 0);

    let mut free = base_to_quote(0, 1, u64::MAX);
    let settlement = swap(&mut free, u64::MAX, 0).unwrap();
    // floor((2^64 - 1)^2 / 2^64) = 2^64 - 2
    assert_eq!(settlement.payout.amount, u64::MAX - 1);
}

#[test]
fn gateway_refusals_surface_as_errors_of_the_operation() {
    assert_eq!(CustodyError::InsufficientFunds.surface(), ErrorCode::InsufficientFunds);
    assert_eq!(CustodyError::InvalidAuthorization.surface(), ErrorCode::Unauthorized);
}

#[test]
fn swap_never_pays_more_than_the_pool_holds_nor_lowers_its_product() {
    let pools: [(u64, u64); 5] =
        [(1, 1), (1_000, 4_000), (1_000_000, 1_000_000), (7, u64::MAX), (u64::MAX, 3)];
    let inputs: [u64; 6] = [1, 2, 999, 10_000, 123_456_789, u64::MAX];
    let fees: [u16; 4] = [0, 30, 500, 10_000];
    for (reserve_in, reserve_out) in pools {
        for amount_in in inputs {
            for fee_basis_points in fees {
                let mut ctx = base_to_quote(fee_basis_points, reserve_in, reserve_out);
                let settlement = swap(&mut ctx, amount_in, 0).unwrap();
                let out = settlement.payout.amount;
                assert!(out < reserve_out || (out == 0 && reserve_out == 0));
                let net_in = (amount_in - settlement.fee) as u128;
                let before = reserve_in as u128 * reserve_out as u128;
                let after = (reserve_in as u128 + net_in) * (reserve_out - out) as u128;
                assert!(after >= before);
                assert!(settlement.fee <= amount_in);
            }
        }
    }
}

#[test]
fn capabilities_of_different_exchanges_present_different_seeds() {
    let mut first = base_to_quote(30, 1_000, 1_000);
    let mut second = base_to_quote(30, 1_000, 1_000);
    second.exchange.key.bytes[17] = 200;
    let one = swap(&mut first, 10, 0).unwrap().payout.authority;
    let other = swap(&mut second, 10, 0).unwrap().payout.authority;
    match (one, other) {
        (Authorization::Custodial(a), Authorization::Custodial(b)) => {
            assert_ne!(a, b);
            assert_ne!(a.signer_seeds(), b.signer_seeds());
            assert_eq!(a.signer_seeds()[0], b.signer_seeds()[0]);
            assert_eq!(b.exchange(), second.exchange.key);
        }
        _ => panic!("payouts are authorized by the exchange"),
    }
    let mut again = base_to_quote(30, 1_000, 1_000);
    assert_eq!(swap(&mut again, 10, 0).unwrap().payout.authority, one);
}
