//! Share-price arithmetic for the pooled escrow.
//!
//! The share price of a session is `available / total_shares`, where
//! `available` is the escrow balance minus the locked part and the
//! reserved minimum.  A deposit mints `floor(deposit * total_shares /
//! available)` shares; burning shares pays `floor(shares * available /
//! total_shares)`.  On an empty pool the price is fixed at one unit per
//! share.  All arithmetic is exact fixed-point over 128-bit integers
//! with floor rounding; nothing is ever silently clamped.

use vstd::arithmetic::div_mod::{
    lemma_div_is_ordered, lemma_div_multiples_vanish, lemma_div_pos_is_pos,
    lemma_fundamental_div_mod, lemma_mod_bound,
};
use vstd::arithmetic::mul::{lemma_mul_inequality, lemma_mul_is_commutative};
use vstd::prelude::*;

use crate::errors::ErrorCode;

verus! {

/// Shares minted for a deposit at the current pool state, before any
/// range check: `deposit` on an empty pool, else
/// `floor(deposit * total_shares / available)`.
pub open spec fn spec_minted_shares(deposit: u64, total_shares: u64, available: u64) -> int {
    if total_shares == 0 {
        deposit as int
    } else {
        (deposit * total_shares) / (available as int)
    }
}

/// Payout for burning shares: `floor(shares * available / total_shares)`.
pub open spec fn spec_withdraw_amount(shares: u64, total_shares: u64, available: u64) -> int {
    (shares * available) / (total_shares as int)
}

/// What minting computes, range checks included: minting fails on a
/// priced pool whose available balance is zero, and when the minted
/// count would be zero or would not fit in 64 bits.
pub open spec fn spec_compute_minted(deposit: u64, total_shares: u64, available: u64) -> Result<
    u64,
    ErrorCode,
> {
    if total_shares == 0 {
        Ok(deposit)
    } else if available == 0 {
        Err(ErrorCode::Overflow)
    } else {
        let m = spec_minted_shares(deposit, total_shares, available);
        if m == 0 || m > u64::MAX {
            Err(ErrorCode::Overflow)
        } else {
            Ok(m as u64)
        }
    }
}

/// Mint shares for a deposit at the current pool state.
pub fn compute_minted_shares(deposit: u64, total_shares: u64, available: u64) -> (r: Result<
    u64,
    ErrorCode,
>)
    ensures
        r == spec_compute_minted(deposit, total_shares, available),
{
    if total_shares == 0 {
        return Ok(deposit);
    }
    if available == 0 {
        return Err(ErrorCode::Overflow);
    }
    proof {
        assert((deposit as int) * (total_shares as int) <= (u64::MAX as int) * (u64::MAX as int))
            by (nonlinear_arith)
            requires
                deposit <= u64::MAX,
                total_shares <= u64::MAX,
        ;
    }
    let product: u128 = (deposit as u128) * (total_shares as u128);
    let minted: u128 = product / (available as u128);
    if minted == 0 || minted > u64::MAX as u128 {
        return Err(ErrorCode::Overflow);
    }
    Ok(minted as u64)
}

/// Pay out for burned shares at the current pool state.  The payout
/// never exceeds the available balance.
pub fn compute_withdraw_amount(shares: u64, total_shares: u64, available: u64) -> (r: u64)
    requires
        total_shares > 0,
        shares <= total_shares,
    ensures
        r == spec_withdraw_amount(shares, total_shares, available),
        r <= available,
{
    proof {
        assert((shares as int) * (available as int) <= (u64::MAX as int) * (u64::MAX as int))
            by (nonlinear_arith)
            requires
                shares <= u64::MAX,
                available <= u64::MAX,
        ;
        lemma_withdraw_amount_bounded(shares, total_shares, available);
    }
    let product: u128 = (shares as u128) * (available as u128);
    let amount: u128 = product / (total_shares as u128);
    amount as u64
}

/// Burning at most every share never pays more than what is available.
pub proof fn lemma_withdraw_amount_bounded(shares: u64, total_shares: u64, available: u64)
    requires
        total_shares > 0,
        shares <= total_shares,
    ensures
        0 <= spec_withdraw_amount(shares, total_shares, available) <= available,
{
    let s = shares as int;
    let t = total_shares as int;
    let a = available as int;
    lemma_mul_inequality(s, t, a);
    lemma_div_is_ordered(s * a, t * a, t);
    lemma_mul_is_commutative(t, a);
    lemma_div_multiples_vanish(a, t);
    assert(t * a == t * a);
    assert((t * a) / t == a);
    lemma_div_pos_is_pos(s * a, t);
    assert(s * a >= 0) by (nonlinear_arith)
        requires
            s >= 0,
            a >= 0,
    ;
}

/// A deposit-then-withdraw round trip at an otherwise unchanged escrow
/// never returns more than was deposited: minting `s` shares for a
/// deposit `d` and at once burning those `s` shares pays at most `d`.
pub proof fn lemma_round_trip_no_gain(d: u64, t: u64, a: u64, s: u64)
    requires
        d > 0,
        t > 0,
        a > 0,
        s == spec_minted_shares(d, t, a),
        t + s <= u64::MAX,
        a + d <= u64::MAX,
    ensures
        spec_withdraw_amount(s, (t + s) as u64, (a + d) as u64) <= d,
{
    let di = d as int;
    let ti = t as int;
    let ai = a as int;
    let si = s as int;
    // si * ai <= di * ti, since si is the floor of (di * ti) / ai.
    lemma_fundamental_div_mod(di * ti, ai);
    lemma_mod_bound(di * ti, ai);
    assert(ai * si <= di * ti);
    lemma_mul_is_commutative(ai, si);
    // Hence si * (ai + di) <= di * (ti + si).
    assert(si * (ai + di) == si * ai + si * di) by (nonlinear_arith);
    assert(di * (ti + si) == di * ti + di * si) by (nonlinear_arith);
    assert(si * di == di * si) by (nonlinear_arith);
    assert(si * (ai + di) <= di * (ti + si));
    // Divide both sides by (ti + si).
    lemma_div_is_ordered(si * (ai + di), di * (ti + si), ti + si);
    lemma_mul_is_commutative(di, ti + si);
    lemma_div_multiples_vanish(di, ti + si);
    assert(((ti + si) * di) / (ti + si) == di);
    assert(spec_withdraw_amount(s, (t + s) as u64, (a + d) as u64) == (si * (ai + di)) / (ti
        + si));
}

/// At par — when the pool holds exactly one available unit per share —
/// the round trip is exact: the deposit mints one share per unit and
/// burning them pays back the deposit in full.
pub proof fn lemma_round_trip_exact_at_par(d: u64, t: u64)
    requires
        d > 0,
        t > 0,
        t + d <= u64::MAX,
    ensures
        spec_minted_shares(d, t, t) == d,
        spec_withdraw_amount(d, (t + d) as u64, (t + d) as u64) == d,
{
    let di = d as int;
    let ti = t as int;
    lemma_mul_is_commutative(di, ti);
    lemma_div_multiples_vanish(di, ti);
    assert((ti * di) / ti == di);
    assert(spec_minted_shares(d, t, t) == (di * ti) / ti);
    lemma_mul_is_commutative(di, ti + di);
    lemma_div_multiples_vanish(di, ti + di);
    assert(((ti + di) * di) / (ti + di) == di);
    assert(spec_withdraw_amount(d, (t + d) as u64, (t + d) as u64) == (di * (ti + di)) / (ti
        + di));
}

} // verus!
