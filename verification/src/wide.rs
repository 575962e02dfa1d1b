//! Wide integer arithmetic: `(a * b + e) / d` over `u128` values whose
//! intermediate product needs 256 bits.  The single trusted function defers
//! to cosmwasm_std's 256-bit integer type; everything else is verified
//! against its exact contract.

use vstd::prelude::*;

verus! {

/// Relies on cosmwasm_std: `Uint128::full_mul` is the exact 256-bit product
/// of two 128-bit values, `Uint256::checked_add` cannot overflow here since
/// `(2^128 - 1)^2 + (2^128 - 1) < 2^256`, `Uint256::checked_div` is floor
/// division failing exactly on a zero divisor, and `Uint128::try_from` fails
/// exactly when the value exceeds `u128::MAX`.
#[verifier::external_body]
pub(crate) fn mul_add_div(a: u128, b: u128, e: u128, d: u128) -> (r: Option<u128>)
    ensures
        r matches Some(q) ==> d != 0 && q == (a * b + e) / (d as int),
        r is None ==> d == 0 || (a * b + e) / (d as int) > u128::MAX,
{
    let p = cosmwasm_std::Uint128::new(a).full_mul(b);
    let s = p.checked_add(cosmwasm_std::Uint256::from(e)).ok()?;
    let q = s.checked_div(cosmwasm_std::Uint256::from(d)).ok()?;
    cosmwasm_std::Uint128::try_from(q).ok().map(|v| v.u128())
}

/// Floor of `a * b / d`, `None` exactly when `d` is zero or the quotient
/// does not fit in a `u128`.
pub(crate) fn mul_div(a: u128, b: u128, d: u128) -> (r: Option<u128>)
    ensures
        r matches Some(q) ==> d != 0 && q == (a * b) / (d as int),
        r is None ==> d == 0 || (a * b) / (d as int) > u128::MAX,
{
    mul_add_div(a, b, 0, d)
}

/// Floor division is monotone in the numerator and cancels a full divisor:
/// a factor bounded by the divisor keeps the quotient at or below the other
/// factor.
pub proof fn lemma_mul_div_le(a: int, b: int, d: int)
    requires
        0 <= a,
        0 <= b,
        0 < d,
        b <= d,
    ensures
        (a * b) / d <= a,
{
    vstd::arithmetic::mul::lemma_mul_inequality(b, d, a);
    vstd::arithmetic::mul::lemma_mul_is_commutative(b, a);
    vstd::arithmetic::mul::lemma_mul_is_commutative(d, a);
    vstd::arithmetic::div_mod::lemma_div_is_ordered(a * b, d * a, d);
    vstd::arithmetic::div_mod::lemma_div_multiples_vanish(a, d);
}

/// Splitting a numerator can only lose floor remainders: the sum of the
/// parts' quotients is at most the quotient of the sum.
pub proof fn lemma_div_add_le(x: int, y: int, d: int)
    requires
        0 <= x,
        0 <= y,
        0 < d,
    ensures
        x / d + y / d <= (x + y) / d,
{
    let q1 = x / d;
    let q2 = y / d;
    vstd::arithmetic::div_mod::lemma_fundamental_div_mod(x, d);
    vstd::arithmetic::div_mod::lemma_fundamental_div_mod(y, d);
    vstd::arithmetic::div_mod::lemma_mod_bound(x, d);
    vstd::arithmetic::div_mod::lemma_mod_bound(y, d);
    assert(d * (q1 + q2) <= x + y) by {
        vstd::arithmetic::mul::lemma_mul_is_distributive_add(d, q1, q2);
    }
    vstd::arithmetic::div_mod::lemma_div_is_ordered(d * (q1 + q2), x + y, d);
    vstd::arithmetic::div_mod::lemma_div_multiples_vanish(q1 + q2, d);
}

} // verus!
