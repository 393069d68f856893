//! Return on investment in basis points, and the prices at which it says
//! win or loss.

use vstd::prelude::*;

verus! {

/// Basis points in one whole: a return of 100% is `BPS_SCALE` basis points.
pub const BPS_SCALE: u64 = 10000;

/// The least return, in basis points, that counts as a win: a gain of 50%.
pub const WIN_THRESHOLD_BPS: i64 = 5000;

/// Quotient of `n` by a positive `d`, rounded toward zero.
pub open spec fn div_toward_zero(n: int, d: int) -> int
    recommends
        d > 0,
{
    if n >= 0 {
        n / d
    } else {
        -((-n) / d)
    }
}

/// The exact return in basis points of a position entered at `entry_price`
/// and left at `exit_price`: `(exit - entry) * 10000 / entry`, rounded toward
/// zero, and 0 where the entry price is 0.
pub open spec fn roi_exact(entry_price: u64, exit_price: u64) -> int {
    if entry_price == 0 {
        0
    } else {
        div_toward_zero((exit_price - entry_price) * BPS_SCALE, entry_price as int)
    }
}

/// The return as it is recorded: the exact return, and `i64::MAX` in place
/// of one that is higher. No return is too low to be recorded.
pub open spec fn roi_bps_of(entry_price: u64, exit_price: u64) -> i64 {
    let exact = roi_exact(entry_price, exit_price);
    if exact > i64::MAX {
        i64::MAX
    } else {
        exact as i64
    }
}

/// Whether leaving at `exit_price` is a gain of half the entry price or
/// more.
pub open spec fn gains_half(entry_price: u64, exit_price: u64) -> bool {
    entry_price > 0 && 2 * exit_price >= 3 * entry_price
}

/// Whether leaving at `exit_price` is a fall of at least one basis point of
/// the entry price.
pub open spec fn falls_a_point(entry_price: u64, exit_price: u64) -> bool {
    entry_price > 0 && (entry_price - exit_price) * BPS_SCALE >= entry_price
}

/// For a quotient of a number that is not negative by a positive one: it
/// reaches `k` exactly when the number reaches `k` times the divisor.
proof fn lemma_quotient_reaches(n: int, d: int, k: int)
    requires
        n >= 0,
        d > 0,
    ensures
        n / d >= k <==> n >= k * d,
{
    vstd::arithmetic::div_mod::lemma_fundamental_div_mod(n, d);
    vstd::arithmetic::div_mod::lemma_mod_pos_bound(n, d);
    let q = n / d;
    let r = n % d;
    assert(q >= k ==> d * q >= k * d) by (nonlinear_arith)
        requires
            d > 0,
    ;
    assert(d * q + r >= k * d && r < d ==> q >= k) by (nonlinear_arith)
        requires
            d > 0,
    ;
}

/// The exact return is never below a total loss, `-BPS_SCALE`, so the
/// recorded return is the exact one wherever that is at most `i64::MAX`.
pub proof fn lemma_roi_is_recorded(entry_price: u64, exit_price: u64)
    ensures
        roi_exact(entry_price, exit_price) >= -BPS_SCALE,
        roi_exact(entry_price, exit_price) <= i64::MAX ==> roi_bps_of(entry_price, exit_price)
            == roi_exact(entry_price, exit_price),
        roi_exact(entry_price, exit_price) > i64::MAX ==> roi_bps_of(entry_price, exit_price)
            == i64::MAX,
{
    if entry_price > 0 && exit_price < entry_price {
        let n = (entry_price - exit_price) * BPS_SCALE;
        lemma_quotient_reaches(n, entry_price as int, BPS_SCALE + 1);
        assert((BPS_SCALE + 1) * entry_price > n) by (nonlinear_arith)
            requires
                n == (entry_price - exit_price) * BPS_SCALE,
                entry_price > 0,
                exit_price >= 0,
        ;
    } else if entry_price > 0 {
        let n = (exit_price - entry_price) * BPS_SCALE;
        lemma_quotient_reaches(n, entry_price as int, 0);
    }
}

/// The recorded return says win or loss as the prices do: it reaches
/// `WIN_THRESHOLD_BPS` exactly on a gain of half or more, and is negative
/// exactly on a fall of at least one basis point. A price that did not fall
/// is never a loss.
pub proof fn lemma_roi_follows_prices(entry_price: u64, exit_price: u64)
    ensures
        roi_bps_of(entry_price, exit_price) >= WIN_THRESHOLD_BPS <==> roi_exact(
            entry_price,
            exit_price,
        ) >= WIN_THRESHOLD_BPS,
        roi_bps_of(entry_price, exit_price) < 0 <==> roi_exact(entry_price, exit_price) < 0,
        roi_bps_of(entry_price, exit_price) >= WIN_THRESHOLD_BPS <==> gains_half(
            entry_price,
            exit_price,
        ),
        roi_bps_of(entry_price, exit_price) < 0 <==> falls_a_point(entry_price, exit_price),
        falls_a_point(entry_price, exit_price) ==> exit_price < entry_price,
{
    lemma_roi_is_recorded(entry_price, exit_price);
    if entry_price > 0 {
        if exit_price >= entry_price {
            let n = (exit_price - entry_price) * BPS_SCALE;
            lemma_quotient_reaches(n, entry_price as int, WIN_THRESHOLD_BPS as int);
            lemma_quotient_reaches(n, entry_price as int, 0);
        } else {
            let n = (entry_price - exit_price) * BPS_SCALE;
            lemma_quotient_reaches(n, entry_price as int, 1);
        }
    }
}

/// Computes the return in basis points in 128 bits, and records it in 64:
/// the exact return, or `i64::MAX` where that is higher.
pub fn compute_roi_bps(entry_price: u64, exit_price: u64) -> (roi_bps: i64)
    ensures
        roi_bps == roi_bps_of(entry_price, exit_price),
        roi_exact(entry_price, exit_price) <= i64::MAX ==> roi_bps == roi_exact(
            entry_price,
            exit_price,
        ),
        roi_exact(entry_price, exit_price) > i64::MAX ==> roi_bps == i64::MAX,
        roi_bps >= WIN_THRESHOLD_BPS <==> gains_half(entry_price, exit_price),
        roi_bps < 0 <==> falls_a_point(entry_price, exit_price),
{
    proof {
        lemma_roi_is_recorded(entry_price, exit_price);
        lemma_roi_follows_prices(entry_price, exit_price);
    }
    if entry_price > 0 {
        let roi: i128 = ((exit_price as i128 - entry_price as i128) * 10000) / entry_price as i128;
        if roi > i64::MAX as i128 {
            i64::MAX
        } else {
            roi as i64
        }
    } else {
        0
    }
}

} // verus!
