//! Division that rounds down, with the remainder kept, so that an average
//! loses nothing.

use vstd::prelude::*;

verus! {

/// A number is its quotient by a positive divisor times that divisor, plus
/// its remainder, and the quotient is no larger than the number.
pub proof fn lemma_division_parts(number: int, divisor: int)
    requires
        number >= 0,
        divisor > 0,
    ensures
        (number / divisor) * divisor + number % divisor == number,
        0 <= number % divisor < divisor,
        0 <= number / divisor <= number,
{
    vstd::arithmetic::div_mod::lemma_fundamental_div_mod(number, divisor);
    vstd::arithmetic::div_mod::lemma_mod_bound(number, divisor);
    vstd::arithmetic::div_mod::lemma_div_pos_is_pos(number, divisor);
    let quotient = number / divisor;
    assert(quotient * divisor == divisor * quotient) by (nonlinear_arith);
    assert(quotient <= quotient * divisor) by (nonlinear_arith)
        requires
            quotient >= 0,
            divisor >= 1,
    ;
}

/// A whole part and a remainder below the divisor are fixed by the number
/// they stand for.
pub proof fn lemma_parts_are_unique(
    whole: int,
    rest: int,
    other_whole: int,
    other_rest: int,
    divisor: int,
)
    requires
        divisor >= 1,
        0 <= rest < divisor,
        0 <= other_rest < divisor,
        whole * divisor + rest == other_whole * divisor + other_rest,
    ensures
        whole == other_whole,
        rest == other_rest,
{
    assert(whole == other_whole) by (nonlinear_arith)
        requires
            divisor >= 1,
            0 <= rest < divisor,
            0 <= other_rest < divisor,
            whole * divisor + rest == other_whole * divisor + other_rest,
    ;
}

/// A number of magnitude at most `divisor * bound` has a whole part of
/// magnitude at most `bound`.
pub proof fn lemma_whole_part_bounds(whole: int, rest: int, divisor: int, bound: int)
    requires
        divisor >= 1,
        0 <= rest < divisor,
        -(divisor * bound) <= whole * divisor + rest <= divisor * bound,
    ensures
        -bound <= whole <= bound,
{
    assert(whole <= bound) by (nonlinear_arith)
        requires
            divisor >= 1,
            0 <= rest,
            whole * divisor + rest <= divisor * bound,
    ;
    assert(-bound <= whole) by (nonlinear_arith)
        requires
            divisor >= 1,
            rest < divisor,
            -(divisor * bound) <= whole * divisor + rest,
    ;
}

/// Divides `number` by `divisor`, rounding down: the whole part and the
/// remainder, which is never negative.
pub fn div_floor(number: i128, divisor: usize) -> (parts: (i128, usize))
    requires
        divisor >= 1,
    ensures
        parts.0 * divisor + parts.1 == number,
        0 <= parts.1 < divisor,
{
    let wide = divisor as u128;
    if number >= 0 {
        let magnitude = number as u128;
        let whole = magnitude / wide;
        let rest = magnitude % wide;
        proof {
            lemma_division_parts(magnitude as int, wide as int);
        }
        (whole as i128, rest as usize)
    } else {
        let below = (-(number + 1)) as u128;
        let whole = below / wide;
        let rest = below % wide;
        proof {
            lemma_division_parts(below as int, wide as int);
            assert((-(whole as int) - 1) * wide + (wide - 1 - rest) == -(whole * wide + rest) - 1)
                by (nonlinear_arith);
        }
        (-(whole as i128) - 1, (wide - 1 - rest) as usize)
    }
}

/// Adds `delta` to the number that `whole` and `rest` stand for when it is
/// divided by `window`: the whole part and the remainder of the result, whose
/// magnitude is at most `window * bound`.
pub(crate) fn shifted(whole: i128, rest: usize, delta: i128, window: usize, Ghost(bound): Ghost<int>) -> (parts:
    (i128, usize))
    requires
        window >= 1,
        rest < window,
        0 <= bound <= i128::MAX,
        -(window * bound) <= whole * window + rest + delta <= window * bound,
    ensures
        parts.0 * window + parts.1 == whole * window + rest + delta,
        0 <= parts.1 < window,
        -bound <= parts.0 <= bound,
{
    let (delta_whole, delta_rest) = div_floor(delta, window);
    let wide: u128 = rest as u128 + delta_rest as u128;
    let carry: i128 = if wide >= window as u128 {
        1
    } else {
        0
    };
    let new_rest: usize = if wide >= window as u128 {
        (wide - window as u128) as usize
    } else {
        wide as usize
    };
    proof {
        let new_whole = whole + delta_whole + carry;
        assert(new_whole * window + new_rest == whole * window + rest + delta) by (nonlinear_arith)
            requires
                new_whole == whole + delta_whole + carry,
                new_rest + carry * window == rest + delta_rest,
                delta_whole * window + delta_rest == delta,
        ;
        lemma_whole_part_bounds(new_whole, new_rest as int, window as int, bound);
    }
    (whole + delta_whole + carry, new_rest)
}

} // verus!
