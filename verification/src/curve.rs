//! The invariant solver: Newton iteration for the StableSwap invariant `D`
//! and for a single unknown reserve at a fixed `D`.  Works for pools of 2 or
//! 3 assets.  Every step is exact unsigned integer arithmetic; any checked
//! operation that fails surfaces as an overflow error and running out of the
//! iteration bound as a convergence failure, never as a panic.
//!
//! Each executable function returns exactly the value of its specification
//! mirror, which pins down every intermediate floor division of the
//! iteration.

use vstd::prelude::*;
use crate::error::ContractError;
use crate::wide::{mul_div, mul_add_div};

verus! {

/// Bound on the number of Newton steps before the solve is abandoned.
pub const NEWTON_ITERATIONS: u64 = 256;

/// Sum of the first `k` entries.
pub open spec fn spec_sum_prefix(xs: Seq<u128>, k: int) -> int
    decreases k,
{
    if k <= 0 {
        0
    } else {
        spec_sum_prefix(xs, k - 1) + xs[k - 1]
    }
}

/// Sum of all entries.
pub open spec fn spec_sum(xs: Seq<u128>) -> int {
    spec_sum_prefix(xs, xs.len() as int)
}

pub proof fn lemma_sum_prefix_mono(xs: Seq<u128>, j: int, k: int)
    requires
        0 <= j <= k <= xs.len(),
    ensures
        spec_sum_prefix(xs, j) <= spec_sum_prefix(xs, k),
    decreases k,
{
    if j < k {
        lemma_sum_prefix_mono(xs, j, k - 1);
    }
}

/// The chain of floor divisions `acc <- acc * d / (n * xs[k])` from entry
/// `k` on; `None` as soon as a divisor overflows or is zero or a quotient
/// leaves the 128-bit range.
pub open spec fn spec_prod_chain(xs: Seq<u128>, d: u128, n: int, acc: u128, k: int) -> Option<
    u128,
>
    decreases xs.len() - k,
{
    if k >= xs.len() {
        Some(acc)
    } else {
        let divisor = n * xs[k];
        if divisor > u128::MAX || divisor == 0 {
            None
        } else if (acc * d) / divisor > u128::MAX {
            None
        } else {
            spec_prod_chain(xs, d, n, ((acc * d) / divisor) as u128, k + 1)
        }
    }
}

/// One Newton step for `D` on the reserve vector `xs`:
/// `d <- d * (n * d_prod + ann * sum) / ((ann - 1) * d + (n + 1) * d_prod)`
/// where `ann = amp * n` and `d_prod = d^(n+1) / (n^n * prod(xs))` comes
/// from the chain above; `None` on any checked failure.
pub open spec fn spec_d_step(xs: Seq<u128>, sum_x: u128, amp: u64, n: int, d: u128) -> Option<
    u128,
> {
    match spec_prod_chain(xs, d, n, d, 0) {
        None => None,
        Some(d_prod) => {
            let ann = amp * n;
            let leverage = sum_x * ann;
            if leverage > u128::MAX {
                None
            } else {
                let numer = n * d_prod + leverage;
                if numer > u128::MAX {
                    None
                } else {
                    let denom = (ann - 1) * d + (n + 1) * d_prod;
                    if denom > u128::MAX {
                        None
                    } else if denom == 0 || (d * numer) / denom > u128::MAX {
                        None
                    } else {
                        Some(((d * numer) / denom) as u128)
                    }
                }
            }
        },
    }
}

/// The Newton iteration for `D` from the current estimate `d`, with `fuel`
/// steps left.  It stops as soon as two consecutive estimates differ by at
/// most one smallest unit, returning the newer one.
pub open spec fn spec_newton_d(xs: Seq<u128>, sum_x: u128, amp: u64, n: int, d: u128, fuel: nat) -> Result<
    u128,
    ContractError,
>
    decreases fuel,
{
    if fuel == 0 {
        Err(ContractError::ConvergenceFailure)
    } else {
        match spec_d_step(xs, sum_x, amp, n, d) {
            None => Err(ContractError::OverflowError),
            Some(d_next) => {
                let diff = if d_next >= d {
                    d_next - d
                } else {
                    d - d_next
                };
                if diff <= 1 {
                    Ok(d_next)
                } else {
                    spec_newton_d(xs, sum_x, amp, n, d_next, (fuel - 1) as nat)
                }
            },
        }
    }
}

/// The StableSwap invariant `D` of the reserve vector `xs` at amplification
/// `amp`: zero for an empty pool, otherwise the Newton iteration started at
/// the reserve sum.
pub open spec fn spec_compute_d(xs: Seq<u128>, amp: u64) -> Result<u128, ContractError> {
    let total = spec_sum(xs);
    if total > u128::MAX {
        Err(ContractError::OverflowError)
    } else if total == 0 {
        Ok(0)
    } else {
        spec_newton_d(xs, total as u128, amp, xs.len() as int, total as u128, NEWTON_ITERATIONS as nat)
    }
}

/// One Newton step for the unknown reserve `y` at fixed `D`:
/// `y <- (y^2 + c) / (2 y + b - d)`; `None` on any checked failure.
pub open spec fn spec_next_y(c: u128, b: u128, d: u128, y: u128) -> Option<u128> {
    if 2 * y + b > u128::MAX {
        None
    } else if 2 * y + b - d < 0 {
        None
    } else {
        let denom = 2 * y + b - d;
        if denom == 0 || (y * y + c) / denom > u128::MAX {
            None
        } else {
            Some(((y * y + c) / denom) as u128)
        }
    }
}

/// The Newton iteration for the unknown reserve, with the same convergence
/// rule as the `D` iteration.
pub open spec fn spec_newton_y(c: u128, b: u128, d: u128, y: u128, fuel: nat) -> Result<
    u128,
    ContractError,
>
    decreases fuel,
{
    if fuel == 0 {
        Err(ContractError::ConvergenceFailure)
    } else {
        match spec_next_y(c, b, d, y) {
            None => Err(ContractError::OverflowError),
            Some(y_next) => {
                let diff = if y_next >= y {
                    y_next - y
                } else {
                    y - y_next
                };
                if diff <= 1 {
                    Ok(y_next)
                } else {
                    spec_newton_y(c, b, d, y_next, (fuel - 1) as nat)
                }
            },
        }
    }
}

/// The reserve that the asset left out of `others` must hold so that the
/// pool meets invariant `d` at amplification `amp`: the Newton iteration on
/// `y^2 + y (b - d) = c` with
/// `c = d^(n+1) / (n^n * prod(others) * ann)` and `b = sum(others) + d / ann`.
pub open spec fn spec_compute_new_reserve(others: Seq<u128>, d: u128, amp: u64) -> Result<
    u128,
    ContractError,
> {
    let n = others.len() + 1;
    let ann = amp * n;
    match spec_prod_chain(others, d, n as int, d, 0) {
        None => Err(ContractError::OverflowError),
        Some(a) => {
            if (a * d) / (ann * n) > u128::MAX {
                Err(ContractError::OverflowError)
            } else {
                let c = ((a * d) / (ann * n)) as u128;
                let b = (d as int) / (ann as int) + spec_sum(others);
                if b > u128::MAX {
                    Err(ContractError::OverflowError)
                } else {
                    spec_newton_y(c, b as u128, d, d, NEWTON_ITERATIONS as nat)
                }
            }
        },
    }
}

proof fn lemma_sum_prefix_const(xs: Seq<u128>, x: u128, k: int)
    requires
        0 <= k <= xs.len(),
        forall|i: int| #![trigger xs[i]] 0 <= i < xs.len() ==> xs[i] == x,
    ensures
        spec_sum_prefix(xs, k) == k * x,
    decreases k,
{
    if k > 0 {
        lemma_sum_prefix_const(xs, x, k - 1);
        assert(xs[k - 1] == x);
        assert((k - 1) * x + x == k * x) by (nonlinear_arith);
    } else {
        assert(0 * x == 0) by (nonlinear_arith);
    }
}

proof fn lemma_prod_chain_const(xs: Seq<u128>, d: u128, n: int, x: u128, k: int)
    requires
        0 <= k <= xs.len(),
        n == xs.len(),
        2 <= n <= 3,
        1 <= x,
        d == n * x,
        forall|i: int| #![trigger xs[i]] 0 <= i < xs.len() ==> xs[i] == x,
    ensures
        spec_prod_chain(xs, d, n, d, k) == Some(d),
    decreases xs.len() - k,
{
    if k < xs.len() {
        assert(d >= 2) by (nonlinear_arith)
            requires
                d == n * x,
                n >= 2,
                x >= 1,
        ;
        vstd::arithmetic::div_mod::lemma_div_multiples_vanish(d as int, d as int);
        lemma_prod_chain_const(xs, d, n, x, k + 1);
    }
}

/// The convergence law on a balanced pool: with every reserve equal to
/// the same positive value, and the Newton step's intermediates in the
/// 128-bit range, the solve for `D` converges at its very first step and
/// returns exactly the reserve sum — which dominates every reserve.
pub proof fn lemma_compute_d_balanced(xs: Seq<u128>, x: u128, amp: u64)
    requires
        2 <= xs.len() <= 3,
        1 <= x,
        1 <= amp,
        forall|i: int| #![trigger xs[i]] 0 <= i < xs.len() ==> xs[i] == x,
        (amp * xs.len() + xs.len() + 1) * (xs.len() * x) <= u128::MAX,
    ensures
        spec_compute_d(xs, amp) == Ok::<u128, ContractError>((xs.len() * x) as u128),
        spec_compute_d(xs, amp)->Ok_0 >= x,
{
    let n = xs.len() as int;
    let sum = n * x;
    lemma_sum_prefix_const(xs, x, n);
    assert(x <= sum <= u128::MAX && 2 <= sum) by (nonlinear_arith)
        requires
            sum == n * x,
            2 <= n <= 3,
            1 <= x,
            1 <= amp,
            (amp * n + n + 1) * sum <= u128::MAX,
    ;
    let d = sum as u128;
    let ann = amp * n;
    lemma_prod_chain_const(xs, d, n, x, 0);

    // one Newton step from the sum maps it to itself
    let numer = n * d + sum * ann;
    let denom = (ann - 1) * d + (n + 1) * d;
    assert(sum * ann <= u128::MAX && numer <= u128::MAX && denom <= u128::MAX && numer == (n + ann)
        * d && denom == (n + ann) * d && denom >= 1) by (nonlinear_arith)
        requires
            d == sum,
            sum == n * x,
            numer == n * d + sum * ann,
            denom == (ann - 1) * d + (n + 1) * d,
            ann == amp * n,
            2 <= n <= 3,
            1 <= x,
            1 <= amp,
            (amp * n + n + 1) * sum <= u128::MAX,
    ;
    assert((d * numer) / denom == d) by {
        vstd::arithmetic::mul::lemma_mul_is_commutative(d as int, numer);
        vstd::arithmetic::div_mod::lemma_div_multiples_vanish(d as int, denom);
    }
    assert(spec_d_step(xs, d, amp, n, d) == Some(d));
    assert(spec_newton_d(xs, d, amp, n, d, NEWTON_ITERATIONS as nat) == Ok::<u128, ContractError>(
        d,
    ));
}

/// One executable Newton step for `D`.
#[verifier::loop_isolation(false)]
fn d_step(
    reserves: &Vec<u128>,
    sum_x: u128,
    ann: u128,
    n: u128,
    d: u128,
    Ghost(amp): Ghost<u64>,
) -> (r: Option<u128>)
    requires
        n == reserves@.len(),
        2 <= n <= 3,
        1 <= amp,
        ann == amp * n,
    ensures
        r == spec_d_step(reserves@, sum_x, amp, n as int, d),
{
    let ghost xs = reserves@;
    proof {
        assert(ann >= 2) by (nonlinear_arith)
            requires
                ann == amp * n,
                amp >= 1,
                n >= 2,
        ;
    }
    let mut acc: u128 = d;
    let mut k: usize = 0;
    while k < reserves.len()
        invariant
            0 <= k <= reserves.len(),
            spec_prod_chain(xs, d, n as int, d, 0) == spec_prod_chain(xs, d, n as int, acc, k as int),
        decreases reserves.len() - k,
    {
        let divisor = match reserves[k].checked_mul(n) {
            Some(v) => v,
            None => {
                proof {
                    assert(spec_prod_chain(xs, d, n as int, acc, k as int) is None);
                }
                return None;
            },
        };
        acc = match mul_div(acc, d, divisor) {
            Some(v) => v,
            None => {
                proof {
                    assert(spec_prod_chain(xs, d, n as int, acc, k as int) is None);
                }
                return None;
            },
        };
        k += 1;
    }
    let d_prod = acc;
    proof {
        assert(spec_prod_chain(xs, d, n as int, d, 0) == Some(d_prod));
    }

    let leverage = match sum_x.checked_mul(ann) {
        Some(v) => v,
        None => return None,
    };
    proof {
        vstd::arithmetic::mul::lemma_mul_is_commutative(d_prod as int, n as int);
    }
    let numer = match d_prod.checked_mul(n) {
        Some(v) => v,
        None => return None,
    };
    let numer = match numer.checked_add(leverage) {
        Some(v) => v,
        None => return None,
    };
    let t1 = match (ann - 1).checked_mul(d) {
        Some(v) => v,
        None => return None,
    };
    proof {
        vstd::arithmetic::mul::lemma_mul_is_commutative(d_prod as int, n as int + 1);
    }
    let t2 = match d_prod.checked_mul(n + 1) {
        Some(v) => v,
        None => return None,
    };
    let denom = match t1.checked_add(t2) {
        Some(v) => v,
        None => return None,
    };
    mul_div(d, numer, denom)
}

/// Solves the invariant equation for `D` by Newton iteration starting from
/// the reserve sum.
#[verifier::loop_isolation(false)]
pub fn compute_d(reserves: &Vec<u128>, amp: u64) -> (r: Result<u128, ContractError>)
    requires
        1 <= amp,
        2 <= reserves@.len() <= 3,
    ensures
        r == spec_compute_d(reserves@, amp),
{
    let ghost xs = reserves@;
    let n: u128 = reserves.len() as u128;
    proof {
        assert((amp as u128) * n <= 3 * 0xffff_ffff_ffff_ffffu128) by (nonlinear_arith)
            requires
                amp <= 0xffff_ffff_ffff_ffffu64,
                n <= 3,
        ;
    }
    let ann: u128 = (amp as u128) * n;

    let mut sum: u128 = 0;
    let mut i: usize = 0;
    while i < reserves.len()
        invariant
            0 <= i <= reserves.len(),
            sum == spec_sum_prefix(xs, i as int),
        decreases reserves.len() - i,
    {
        sum = match sum.checked_add(reserves[i]) {
            Some(v) => v,
            None => {
                proof {
                    lemma_sum_prefix_mono(xs, i + 1, xs.len() as int);
                }
                return Err(ContractError::OverflowError);
            },
        };
        i += 1;
    }
    if sum == 0 {
        return Ok(0);
    }

    let mut d: u128 = sum;
    let mut iter: u64 = 0;
    while iter < NEWTON_ITERATIONS
        invariant
            iter <= NEWTON_ITERATIONS,
            spec_compute_d(xs, amp) == spec_newton_d(
                xs,
                sum,
                amp,
                n as int,
                d,
                (NEWTON_ITERATIONS - iter) as nat,
            ),
        decreases NEWTON_ITERATIONS - iter,
    {
        let d_next = match d_step(reserves, sum, ann, n, d, Ghost(amp)) {
            Some(v) => v,
            None => return Err(ContractError::OverflowError),
        };
        let diff = if d_next >= d {
            d_next - d
        } else {
            d - d_next
        };
        if diff <= 1 {
            return Ok(d_next);
        }
        d = d_next;
        iter += 1;
    }
    Err(ContractError::ConvergenceFailure)
}

/// Solves the invariant equation for the one reserve left out of `others`,
/// at fixed invariant `d` and amplification `amp`.
#[verifier::loop_isolation(false)]
pub fn compute_new_reserve(others: &Vec<u128>, d: u128, amp: u64) -> (r: Result<
    u128,
    ContractError,
>)
    requires
        1 <= amp,
        1 <= others@.len() <= 2,
    ensures
        r == spec_compute_new_reserve(others@, d, amp),
{
    let ghost os = others@;
    let n: u128 = others.len() as u128 + 1;
    proof {
        assert((amp as u128) * n <= 3 * 0xffff_ffff_ffff_ffffu128 && ((amp as u128) * n) * n <= 9
            * 0xffff_ffff_ffff_ffffu128 && (amp as u128) * n >= 2 && ((amp as u128) * n) * n
            >= 4) by (nonlinear_arith)
            requires
                1 <= amp <= 0xffff_ffff_ffff_ffffu64,
                2 <= n <= 3,
        ;
    }
    let ann: u128 = (amp as u128) * n;

    // c = d^(n+1) / (n^n * prod(others) * ann)
    let mut acc: u128 = d;
    let mut k: usize = 0;
    while k < others.len()
        invariant
            0 <= k <= others.len(),
            spec_prod_chain(os, d, n as int, d, 0) == spec_prod_chain(os, d, n as int, acc, k as int),
        decreases others.len() - k,
    {
        let ghost acc_old = acc;
        let divisor = match others[k].checked_mul(n) {
            Some(v) => v,
            None => {
                proof {
                    vstd::arithmetic::mul::lemma_mul_is_commutative(os[k as int] as int, n as int);
                    assert(spec_prod_chain(os, d, n as int, acc, k as int) is None);
                }
                return Err(ContractError::OverflowError);
            },
        };
        acc = match mul_div(acc, d, divisor) {
            Some(v) => v,
            None => {
                proof {
                    vstd::arithmetic::mul::lemma_mul_is_commutative(os[k as int] as int, n as int);
                    assert(spec_prod_chain(os, d, n as int, acc, k as int) is None);
                }
                return Err(ContractError::OverflowError);
            },
        };
        proof {
            vstd::arithmetic::mul::lemma_mul_is_commutative(os[k as int] as int, n as int);
            assert(spec_prod_chain(os, d, n as int, acc_old, k as int) == spec_prod_chain(
                os,
                d,
                n as int,
                acc,
                k as int + 1,
            ));
        }
        k += 1;
    }
    proof {
        assert(spec_prod_chain(os, d, n as int, d, 0) == Some(acc));
    }
    let c = match mul_div(acc, d, ann * n) {
        Some(v) => v,
        None => return Err(ContractError::OverflowError),
    };

    // b = sum(others) + d / ann
    let mut b: u128 = d / ann;
    let ghost b0 = b;
    let mut i: usize = 0;
    while i < others.len()
        invariant
            0 <= i <= others.len(),
            b == b0 + spec_sum_prefix(os, i as int),
        decreases others.len() - i,
    {
        b = match b.checked_add(others[i]) {
            Some(v) => v,
            None => {
                proof {
                    lemma_sum_prefix_mono(os, i + 1, os.len() as int);
                }
                return Err(ContractError::OverflowError);
            },
        };
        i += 1;
    }

    // Newton iteration for y
    let mut y: u128 = d;
    let mut iter: u64 = 0;
    while iter < NEWTON_ITERATIONS
        invariant
            iter <= NEWTON_ITERATIONS,
            spec_compute_new_reserve(os, d, amp) == spec_newton_y(
                c,
                b,
                d,
                y,
                (NEWTON_ITERATIONS - iter) as nat,
            ),
        decreases NEWTON_ITERATIONS - iter,
    {
        let t = match (2u128).checked_mul(y) {
            Some(v) => v,
            None => return Err(ContractError::OverflowError),
        };
        let t = match t.checked_add(b) {
            Some(v) => v,
            None => return Err(ContractError::OverflowError),
        };
        let denom = match t.checked_sub(d) {
            Some(v) => v,
            None => return Err(ContractError::OverflowError),
        };
        let y_next = match mul_add_div(y, y, c, denom) {
            Some(v) => v,
            None => return Err(ContractError::OverflowError),
        };
        let diff = if y_next >= y {
            y_next - y
        } else {
            y - y_next
        };
        if diff <= 1 {
            return Ok(y_next);
        }
        y = y_next;
        iter += 1;
    }
    Err(ContractError::ConvergenceFailure)
}

} // verus!
