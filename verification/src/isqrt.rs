use vstd::prelude::*;
use vstd::arithmetic::div_mod::{lemma_fundamental_div_mod, lemma_div_is_ordered_by_denominator, lemma_div_pos_is_pos};

verus! {

/// `r` is the integer square root of `x`: the largest natural number whose
/// square does not exceed `x`.
pub open spec fn is_integer_sqrt(x: int, r: int) -> bool {
    &&& 0 <= r
    &&& r * r <= x
    &&& x < (r + 1) * (r + 1)
}

/// One Newton step `(c + x / c) / 2` never falls below the integer square root
/// of `x`: its successor squared still exceeds `x`.
proof fn lemma_newton_step_stays_above(x: int, c: int)
    requires
        x >= 0,
        c >= 1,
    ensures
        x < ((c + x / c) / 2 + 1) * ((c + x / c) / 2 + 1),
{
    let q = x / c;
    let m = (c + q) / 2 + 1;
    lemma_fundamental_div_mod(x, c);
    assert(x < c * (q + 1)) by (nonlinear_arith)
        requires
            x == c * q + x % c,
            0 <= x % c < c,
    {}
    assert(q + 1 <= 2 * m - c);
    if m * m <= x {
        assert(c * (q + 1) <= c * (2 * m - c)) by (nonlinear_arith)
            requires
                c >= 1,
                q + 1 <= 2 * m - c,
        {}
        assert(c * (2 * m - c) <= m * m) by (nonlinear_arith) {
            assert(m * m - c * (2 * m - c) == (m - c) * (m - c));
            assert((m - c) * (m - c) >= 0);
        }
        assert(false);
    }
}

/// When a Newton step does not go below `c`, then `c` squared is at most `x`.
proof fn lemma_newton_fixpoint_below(x: int, c: int)
    requires
        x >= 0,
        c >= 1,
        (c + x / c) / 2 >= c,
    ensures
        c * c <= x,
{
    let q = x / c;
    assert(q >= c);
    lemma_fundamental_div_mod(x, c);
    assert(c * c <= c * q) by (nonlinear_arith)
        requires
            c >= 1,
            q >= c,
    {}
}

/// Integer square root of a signed 128-bit value by Newton iteration.
///
/// Returns `None` for a negative input; otherwise the largest `r` with
/// `r * r <= x`, computed without overflow for every non-negative `i128`.
pub fn verify_sqrt_bounds(x: i128) -> (res: Option<i128>)
    ensures
        x < 0 ==> res is None,
        x >= 0 ==> (res matches Some(r) && is_integer_sqrt(x as int, r as int)),
{
    if x < 0 {
        return None;
    }
    let x_u128 = x as u128;
    if x_u128 == 0 {
        return Some(0);
    }
    let mut curr: u128 = x_u128;
    let mut next: u128 = x_u128 / 2 + x_u128 % 2;
    proof {
        vstd::arithmetic::div_mod::lemma_div_by_self(x_u128 as int);
        assert((x_u128 as int) < (x_u128 + 1) * (x_u128 + 1)) by (nonlinear_arith)
            requires
                x_u128 >= 1,
        {}
    }
    while next < curr
        invariant
            1 <= curr <= x_u128,
            x_u128 == x,
            x_u128 <= i128::MAX,
            next == (curr + x_u128 / curr) / 2,
            (x_u128 as int) < (curr + 1) * (curr + 1),
        decreases curr,
    {
        proof {
            lemma_newton_step_stays_above(x_u128 as int, curr as int);
        }
        curr = next;
        proof {
            if curr == 0 {
                assert(false);
            }
            lemma_div_is_ordered_by_denominator(x_u128 as int, 1, curr as int);
            vstd::arithmetic::div_mod::lemma_div_basics(x_u128 as int);
        }
        next = (curr + x_u128 / curr) / 2;
    }
    proof {
        lemma_newton_fixpoint_below(x_u128 as int, curr as int);
    }
    let result = curr as i128;
    if result < 0 {
        return None;
    }
    Some(result)
}

/// A value has exactly one integer square root, so the result of
/// [`verify_sqrt_bounds`] is determined by its input.
pub proof fn law_integer_sqrt_is_unique(x: int, r1: int, r2: int)
    requires
        is_integer_sqrt(x, r1),
        is_integer_sqrt(x, r2),
    ensures
        r1 == r2,
{
    if r1 < r2 {
        assert((r1 + 1) * (r1 + 1) <= r2 * r2) by (nonlinear_arith)
            requires
                0 <= r1,
                r1 + 1 <= r2,
        {}
    }
    if r2 < r1 {
        assert((r2 + 1) * (r2 + 1) <= r1 * r1) by (nonlinear_arith)
            requires
                0 <= r2,
                r2 + 1 <= r1,
        {}
    }
}

} // verus!
