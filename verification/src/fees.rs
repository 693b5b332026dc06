//! The proceeds split between the protocol and the treasury.
//!
//! The protocol keeps `floor(total * fee / 100)` and the treasury takes the
//! rest, so the two payouts always sum exactly to the total: the rounding
//! remainder goes to the treasury by design, never leaking funds.

use vstd::prelude::*;

use vstd::arithmetic::div_mod::{
    lemma_div_by_multiple,
    lemma_div_is_ordered,
    lemma_div_pos_is_pos,
    lemma_fundamental_div_mod,
    lemma_hoist_over_denominator,
    lemma_mod_bound,
};
use vstd::arithmetic::mul::{lemma_mul_inequality, lemma_mul_nonnegative};

verus! {

/// The protocol's share of a purchase: `floor(total * fee / 100)`.
pub open spec fn spec_fee_amount(total: int, fee: int) -> int {
    total * fee / 100
}

/// The treasury's share: the total minus the protocol's share.
pub open spec fn spec_treasury_amount(total: int, fee: int) -> int {
    total - spec_fee_amount(total, fee)
}

/// The split never leaks or conjures funds: the two shares are individually
/// within `0..=total`, and they sum exactly to the total, for every fee
/// percentage from 0 to 100.
pub proof fn lemma_fee_split(total: int, fee: int)
    requires
        0 <= total,
        0 <= fee <= 100,
    ensures
        0 <= spec_fee_amount(total, fee) <= total,
        0 <= spec_treasury_amount(total, fee) <= total,
        spec_fee_amount(total, fee) + spec_treasury_amount(total, fee) == total,
{
    lemma_mul_nonnegative(total, fee);
    lemma_div_pos_is_pos(total * fee, 100);
    lemma_mul_inequality(fee, 100, total);
    assert(total * fee == fee * total) by (nonlinear_arith);
    assert(total * 100 == 100 * total) by (nonlinear_arith);
    lemma_div_is_ordered(total * fee, total * 100, 100);
    lemma_div_by_multiple(total, 100);
}

/// Computing the share as `q * fee + (r * fee) / 100`, with `q` and `r` the
/// quotient and remainder of the total by 100, gives exactly
/// `floor(total * fee / 100)` while keeping every intermediate product small.
pub proof fn lemma_fee_amount_split_form(total: int, fee: int)
    requires
        0 <= total,
        0 <= fee <= 100,
    ensures
        (total / 100) * fee + (total % 100) * fee / 100 == spec_fee_amount(total, fee),
{
    let q = total / 100;
    let r = total % 100;
    lemma_fundamental_div_mod(total, 100);
    assert(total * fee == r * fee + (q * fee) * 100) by (nonlinear_arith)
        requires
            total == 100 * q + r,
    ;
    lemma_hoist_over_denominator(r * fee, q * fee, 100);
}

/// The protocol's share of `total` at `fee` percent, computed exactly and
/// without overflow.
pub fn fee_amount(total: u128, fee: u8) -> (r: u128)
    requires
        fee <= 100,
    ensures
        r == spec_fee_amount(total as int, fee as int),
        r <= total,
{
    let q = total / 100;
    let rem = total % 100;
    proof {
        lemma_fundamental_div_mod(total as int, 100);
        lemma_mod_bound(total as int, 100);
        assert(q * (fee as u128) <= total) by (nonlinear_arith)
            requires
                total == 100 * q + rem,
                0 <= q,
                0 <= rem,
                fee <= 100,
        ;
        lemma_fee_amount_split_form(total as int, fee as int);
        lemma_fee_split(total as int, fee as int);
        lemma_div_pos_is_pos(rem as int * fee as int, 100);
        lemma_mul_nonnegative(rem as int, fee as int);
        assert(rem * (fee as u128) <= 100 * 100) by (nonlinear_arith)
            requires
                0 <= rem < 100,
                fee <= 100,
        ;
    }
    let fee_wide: u128 = fee as u128;
    q * fee_wide + (rem * fee_wide) / 100
}

} // verus!
