//! Constant-product pricing: swap quotes and proportional withdrawals.
use vstd::prelude::*;

use crate::error::AmmError;

verus! {

/// Decimal precision pools are configured with.
pub const POOL_PRECISION: u8 = 6;

/// Basis points in one whole (100%).
pub const BPS_DENOMINATOR: u64 = 10000;

/// Input left for the curve once the fee is taken: `amount_in * (10000 - fee_bps) / 10000`.
pub open spec fn amount_after_fee(amount_in: int, fee_bps: int) -> int {
    amount_in * (10000 - fee_bps) / 10000
}

/// Output of the constant-product curve for an input `net_in` that has
/// already paid its fee. It is `reserve_out - ceil(k / (reserve_in + net_in))`
/// with `k = reserve_in * reserve_out`, written as one floor division so the
/// rounding remainder stays in the pool.
pub open spec fn curve_output(reserve_in: int, reserve_out: int, net_in: int) -> int {
    if reserve_in + net_in == 0 {
        0
    } else {
        reserve_out * net_in / (reserve_in + net_in)
    }
}

/// Output owed for a swap of `amount_in` against the given reserves.
pub open spec fn swap_output(reserve_in: int, reserve_out: int, fee_bps: int, amount_in: int) -> int {
    curve_output(reserve_in, reserve_out, amount_after_fee(amount_in, fee_bps))
}

/// Share of `reserve` that `shares` out of `supply` redeem, rounded down.
pub open spec fn withdraw_share(reserve: int, shares: int, supply: int) -> int {
    reserve * shares / supply
}

/// A quoted swap: what the pool takes in and what it gives out.
#[derive(Clone, Copy, Debug, PartialEq, Eq, Structural)]
pub struct SwapQuote {
    pub amount_in_taken: u64,
    pub amount_out_given: u64,
}

/// A quoted withdrawal: the amounts of each asset that the shares redeem.
#[derive(Clone, Copy, Debug, PartialEq, Eq, Structural)]
pub struct WithdrawQuote {
    pub amount_x: u64,
    pub amount_y: u64,
}

/// What a swap quote owes: `InvalidAmount` for a zero input, `Overflow`
/// when the reserve plus the net input leaves `u64`, `SlippageExceeded` when
/// the output is below `min_amount_out`, and the quote otherwise.
pub open spec fn swap_quote(
    reserve_in: u64,
    reserve_out: u64,
    fee_bps: u16,
    amount_in: u64,
    min_amount_out: u64,
) -> Result<SwapQuote, AmmError> {
    let out = swap_output(reserve_in as int, reserve_out as int, fee_bps as int, amount_in as int);
    if amount_in == 0 {
        Err(AmmError::InvalidAmount)
    } else if reserve_in + amount_after_fee(amount_in as int, fee_bps as int) > u64::MAX {
        Err(AmmError::Overflow)
    } else if out < min_amount_out {
        Err(AmmError::SlippageExceeded)
    } else {
        Ok(SwapQuote { amount_in_taken: amount_in, amount_out_given: out as u64 })
    }
}

/// What a withdrawal quote owes: `InvalidAmount` for an empty supply or zero
/// shares, `Overflow` when a share leaves `u64`, and the two shares otherwise.
pub open spec fn withdraw_quote(
    reserve_x: u64,
    reserve_y: u64,
    lp_supply: u64,
    shares_in: u64,
) -> Result<WithdrawQuote, AmmError> {
    let x = withdraw_share(reserve_x as int, shares_in as int, lp_supply as int);
    let y = withdraw_share(reserve_y as int, shares_in as int, lp_supply as int);
    if lp_supply == 0 || shares_in == 0 {
        Err(AmmError::InvalidAmount)
    } else if x > u64::MAX || y > u64::MAX {
        Err(AmmError::Overflow)
    } else {
        Ok(WithdrawQuote { amount_x: x as u64, amount_y: y as u64 })
    }
}

pub(crate) proof fn lemma_after_fee_bounds(amount_in: int, fee_bps: int)
    requires
        0 <= amount_in,
        0 <= fee_bps < 10000,
    ensures
        0 <= amount_after_fee(amount_in, fee_bps) <= amount_in,
        fee_bps > 0 && amount_in > 0 ==> amount_after_fee(amount_in, fee_bps) < amount_in,
{
    assert(0 <= amount_in * (10000 - fee_bps) <= amount_in * 10000) by (nonlinear_arith)
        requires 0 <= amount_in, 0 <= fee_bps < 10000;
    if fee_bps > 0 && amount_in > 0 {
        assert(amount_in * (10000 - fee_bps) < amount_in * 10000) by (nonlinear_arith)
            requires 0 < amount_in, 0 < fee_bps < 10000;
    }
}

pub(crate) proof fn lemma_curve_output_bounded(reserve_in: int, reserve_out: int, net_in: int)
    requires
        0 <= reserve_in,
        0 <= reserve_out,
        0 <= net_in,
    ensures
        0 <= curve_output(reserve_in, reserve_out, net_in) <= reserve_out,
{
    if reserve_in + net_in != 0 {
        let d = reserve_in + net_in;
        assert(0 <= reserve_out * net_in <= reserve_out * d) by (nonlinear_arith)
            requires 0 <= reserve_out, 0 <= net_in <= d;
        assert(0 <= reserve_out * net_in / d <= reserve_out) by (nonlinear_arith)
            requires 0 <= reserve_out * net_in <= reserve_out * d, d > 0;
    }
}

/// Quotes a swap of `amount_in` from the side holding `reserve_in` into the
/// side holding `reserve_out`. The fee is taken from the input, and the
/// output is rounded down. `lp_supply` and `precision` describe the pool the
/// quote is for; the integer formulas are exact and do not depend on them.
pub fn quote_swap(
    reserve_in: u64,
    reserve_out: u64,
    lp_supply: u64,
    fee_bps: u16,
    amount_in: u64,
    min_amount_out: u64,
    precision: u8,
) -> (r: Result<SwapQuote, AmmError>)
    requires
        fee_bps < 10000,
    ensures
        r == swap_quote(reserve_in, reserve_out, fee_bps, amount_in, min_amount_out),
{
    if amount_in == 0 {
        return Err(AmmError::InvalidAmount);
    }
    proof {
        lemma_after_fee_bounds(amount_in as int, fee_bps as int);
    }
    let scaled: u128 = (amount_in as u128) * ((BPS_DENOMINATOR - fee_bps as u64) as u128);
    let net_in: u128 = scaled / (BPS_DENOMINATOR as u128);
    let denominator: u128 = (reserve_in as u128) + net_in;
    if denominator > u64::MAX as u128 {
        return Err(AmmError::Overflow);
    }
    proof {
        lemma_curve_output_bounded(reserve_in as int, reserve_out as int, net_in as int);
    }
    let amount_out: u64 = if denominator == 0 {
        0
    } else {
        assert((reserve_out as u128) * net_in <= u64::MAX * u64::MAX) by (nonlinear_arith)
            requires reserve_out <= u64::MAX, net_in <= u64::MAX;
        ((reserve_out as u128) * net_in / denominator) as u64
    };
    if amount_out < min_amount_out {
        return Err(AmmError::SlippageExceeded);
    }
    Ok(SwapQuote { amount_in_taken: amount_in, amount_out_given: amount_out })
}

/// Quotes the redemption of `shares_in` liquidity shares out of
/// `lp_supply`: each asset is paid its pro-rata part of the reserve, rounded
/// down. `precision` describes the pool; the integer formulas are exact and
/// do not depend on it.
pub fn quote_withdraw(
    reserve_x: u64,
    reserve_y: u64,
    lp_supply: u64,
    shares_in: u64,
    precision: u8,
) -> (r: Result<WithdrawQuote, AmmError>)
    ensures
        r == withdraw_quote(reserve_x, reserve_y, lp_supply, shares_in),
{
    if lp_supply == 0 || shares_in == 0 {
        return Err(AmmError::InvalidAmount);
    }
    assert((reserve_x as u128) * (shares_in as u128) <= u64::MAX * u64::MAX) by (nonlinear_arith)
        requires reserve_x <= u64::MAX, shares_in <= u64::MAX;
    assert((reserve_y as u128) * (shares_in as u128) <= u64::MAX * u64::MAX) by (nonlinear_arith)
        requires reserve_y <= u64::MAX, shares_in <= u64::MAX;
    let amount_x: u128 = (reserve_x as u128) * (shares_in as u128) / (lp_supply as u128);
    let amount_y: u128 = (reserve_y as u128) * (shares_in as u128) / (lp_supply as u128);
    if amount_x > u64::MAX as u128 || amount_y > u64::MAX as u128 {
        return Err(AmmError::Overflow);
    }
    Ok(WithdrawQuote { amount_x: amount_x as u64, amount_y: amount_y as u64 })
}

/// A swap never leaves the pool with a smaller product of reserves: the
/// reserve paid into grows by the whole input, the other shrinks by the
/// quoted output, and the product after is at least the product before. When
/// a fee is charged on a non-zero input into a pool that holds both assets,
/// the product strictly grows.
pub proof fn lemma_swap_product_never_decreases(
    reserve_in: u64,
    reserve_out: u64,
    fee_bps: u16,
    amount_in: u64,
)
    requires
        fee_bps < 10000,
    ensures
        ({
            let out = swap_output(reserve_in as int, reserve_out as int, fee_bps as int, amount_in as int);
            &&& (reserve_in + amount_in) * (reserve_out - out) >= reserve_in * reserve_out
            &&& fee_bps > 0 && amount_in > 0 && reserve_in > 0 && reserve_out > 0 ==> (reserve_in
                + amount_in) * (reserve_out - out) > reserve_in * reserve_out
        }),
{
    let a = reserve_in as int;
    let b = reserve_out as int;
    let x = amount_in as int;
    let n = amount_after_fee(x, fee_bps as int);
    lemma_after_fee_bounds(x, fee_bps as int);
    lemma_curve_output_bounded(a, b, n);
    let out = swap_output(a, b, fee_bps as int, x);
    if a + n == 0 {
        assert(out == 0);
        assert((a + x) * b >= a * b) by (nonlinear_arith)
            requires a >= 0, x >= 0, b >= 0;
        if fee_bps > 0 && x > 0 && a > 0 && b > 0 {
            assert(false);
        }
    } else {
        let d = a + n;
        let q = b * n / d;
        assert(out == q);
        // q * d <= b * n, so (b - q) * d >= b * d - b * n = a * b.
        assert((b - q) * d >= a * b) by (nonlinear_arith)
            requires d == a + n, d > 0, q == b * n / d, b >= 0, n >= 0;
        assert((a + x) * (b - q) >= a * b) by (nonlinear_arith)
            requires (b - q) * d >= a * b, d == a + n, 0 <= n <= x, a >= 0, b >= 0, b - q >= 0, d > 0;
        if fee_bps > 0 && x > 0 && a > 0 && b > 0 {
            assert((a + x) * (b - q) > a * b) by (nonlinear_arith)
                requires (b - q) * d >= a * b, d == a + n, 0 <= n < x, a > 0, b > 0, b - q >= 0, d > 0;
        }
    }
}

/// The quoted output of a swap never exceeds the reserve it is paid from.
pub proof fn lemma_swap_output_within_reserve(
    reserve_in: u64,
    reserve_out: u64,
    fee_bps: u16,
    amount_in: u64,
    min_amount_out: u64,
)
    requires
        fee_bps < 10000,
    ensures
        0 <= swap_output(reserve_in as int, reserve_out as int, fee_bps as int, amount_in as int)
            <= reserve_out,
        swap_quote(reserve_in, reserve_out, fee_bps, amount_in, min_amount_out) matches Ok(q)
            ==> q.amount_out_given <= reserve_out,
{
    lemma_after_fee_bounds(amount_in as int, fee_bps as int);
    lemma_curve_output_bounded(
        reserve_in as int,
        reserve_out as int,
        amount_after_fee(amount_in as int, fee_bps as int),
    );
}

/// Swapping back the whole output of a swap, against the reserves that swap
/// left behind, never returns more than the original input: rounding offers
/// no round-trip profit.
pub proof fn lemma_swap_round_trip_no_gain(
    reserve_in: u64,
    reserve_out: u64,
    fee_bps: u16,
    amount_in: u64,
)
    requires
        fee_bps < 10000,
    ensures
        ({
            let out = swap_output(reserve_in as int, reserve_out as int, fee_bps as int, amount_in as int);
            swap_output(reserve_out - out, reserve_in + amount_in, fee_bps as int, out) <= amount_in
        }),
{
    let a = reserve_in as int;
    let b = reserve_out as int;
    let x = amount_in as int;
    let f = fee_bps as int;
    let n = amount_after_fee(x, f);
    lemma_after_fee_bounds(x, f);
    lemma_curve_output_bounded(a, b, n);
    let y = swap_output(a, b, f, x);
    let m = amount_after_fee(y, f);
    lemma_after_fee_bounds(y, f);
    // The first output is at most b * x / (a + x): y * (a + x) <= b * x.
    if a + n == 0 {
        assert(y == 0);
        assert(y * (a + x) <= b * x) by (nonlinear_arith)
            requires y == 0, b >= 0, x >= 0;
    } else {
        let d = a + n;
        assert(y * (a + x) <= b * x) by (nonlinear_arith)
            requires y == b * n / d, d == a + n, d > 0, 0 <= n <= x, a >= 0, b >= 0;
    }
    let c = b - y;
    let e = a + x;
    let z = curve_output(c, e, m);
    if c + m != 0 {
        // a * m <= a * y <= x * (b - y), hence e * m <= x * (c + m).
        assert(e * m <= x * (c + m)) by (nonlinear_arith)
            requires y * (a + x) <= b * x, c == b - y, e == a + x, 0 <= m <= y, a >= 0, x >= 0;
        assert(z <= x) by (nonlinear_arith)
            requires z == e * m / (c + m), e * m <= x * (c + m), c + m > 0, e >= 0, m >= 0, x >= 0;
    }
}

/// The same law for two quotes: when a swap is quoted and its whole
/// output is quoted back against the reserves the first swap leaves, the
/// second quote pays out no more than the first took in.
pub proof fn lemma_quote_round_trip_no_gain(
    reserve_in: u64,
    reserve_out: u64,
    fee_bps: u16,
    amount_in: u64,
    min_out: u64,
    min_back: u64,
)
    requires
        fee_bps < 10000,
        reserve_in + amount_in <= u64::MAX,
    ensures
        swap_quote(reserve_in, reserve_out, fee_bps, amount_in, min_out) matches Ok(q) ==> (
        swap_quote(
            (reserve_out - q.amount_out_given) as u64,
            (reserve_in + amount_in) as u64,
            fee_bps,
            q.amount_out_given,
            min_back,
        ) matches Ok(back) ==> back.amount_out_given <= amount_in),
{
    lemma_swap_round_trip_no_gain(reserve_in, reserve_out, fee_bps, amount_in);
    lemma_swap_output_within_reserve(reserve_in, reserve_out, fee_bps, amount_in, min_out);
}

/// Redeeming every outstanding share pays out both reserves in full.
pub proof fn lemma_withdraw_all_shares(reserve_x: u64, reserve_y: u64, lp_supply: u64)
    requires
        lp_supply > 0,
    ensures
        withdraw_share(reserve_x as int, lp_supply as int, lp_supply as int) == reserve_x,
        withdraw_share(reserve_y as int, lp_supply as int, lp_supply as int) == reserve_y,
        withdraw_quote(reserve_x, reserve_y, lp_supply, lp_supply) == Ok::<WithdrawQuote, AmmError>(
            WithdrawQuote { amount_x: reserve_x, amount_y: reserve_y },
        ),
{
    let l = lp_supply as int;
    assert((reserve_x as int) * l / l == reserve_x) by (nonlinear_arith)
        requires l > 0;
    assert((reserve_y as int) * l / l == reserve_y) by (nonlinear_arith)
        requires l > 0;
}

} // verus!
