//! Rounding an offset or a size up to a multiple of an alignment.

use vstd::prelude::*;

verus! {

/// `x` rounded up to the next multiple of `a`.
pub open spec fn round_up(x: int, a: int) -> int
    recommends
        a >= 1,
{
    ((x + a - 1) / a) * a
}

/// The basic facts about `round_up`: the result is a multiple of `a`,
/// is at least `x`, and overshoots `x` by less than `a`.
pub proof fn lemma_round_up_properties(x: int, a: int)
    by (nonlinear_arith)
    requires
        a >= 1,
        x >= 0,
    ensures
        round_up(x, a) % a == 0,
        x <= round_up(x, a) < x + a,
{
}

/// A multiple of `a` is its own rounding.
pub proof fn lemma_round_up_exact(x: int, a: int)
    by (nonlinear_arith)
    requires
        a >= 1,
        x >= 0,
        x % a == 0,
    ensures
        round_up(x, a) == x,
{
}

/// The sum of two multiples of `a` is a multiple of `a`.
pub proof fn lemma_mod_sum_zero(x: int, y: int, a: int)
    requires
        a >= 1,
        x % a == 0,
        y % a == 0,
    ensures
        (x + y) % a == 0,
{
    vstd::arithmetic::div_mod::lemma_add_mod_noop(x, y, a);
    vstd::arithmetic::div_mod::lemma_small_mod(0, a as nat);
}

/// Rounds `size` up to the next multiple of `align`.
pub fn align_to(size: usize, align: usize) -> (r: usize)
    requires
        align >= 1,
        round_up(size as int, align as int) <= usize::MAX,
    ensures
        r == round_up(size as int, align as int),
{
    proof {
        lemma_round_up_properties(size as int, align as int);
    }
    let rem = size % align;
    if rem == 0 {
        proof {
            lemma_round_up_exact(size as int, align as int);
        }
        size
    } else {
        proof {
            lemma_round_up_step(size as int, align as int);
            vstd::arithmetic::div_mod::lemma_mod_decreases(size as nat, align as nat);
        }
        size - rem + align
    }
}

/// Rounding a non-multiple of `a` lands on the next multiple above.
proof fn lemma_round_up_step(x: int, a: int)
    by (nonlinear_arith)
    requires
        a >= 1,
        x >= 0,
        x % a != 0,
    ensures
        round_up(x, a) == x - (x % a) + a,
{
}

} // verus!
