//! The laws of the arena, stated over a whole sequence of allocation
//! requests rather than one call: disjointness of the served ranges,
//! alignment of the served addresses, and how the offset grows.

use vstd::prelude::*;

use crate::align::{lemma_mod_sum_zero, lemma_round_up_properties, round_up};
use crate::bump::{consumed, served_address};
use vstd::arithmetic::power2::is_pow2;

verus! {

/// An allocation request the arena accepts: a non-negative size and a
/// power-of-two alignment.
pub open spec fn valid_request(r: (int, int)) -> bool {
    r.0 >= 0 && is_pow2(r.1)
}

/// The arena's offset after the first `i` of the requests in `reqs`
/// have been served, starting from offset `start`.
pub open spec fn offset_after(start: int, reqs: Seq<(int, int)>, i: int) -> int
    recommends
        0 <= i <= reqs.len(),
    decreases i,
{
    if i <= 0 {
        start
    } else {
        offset_after(start, reqs, i - 1) + consumed(reqs[i - 1].0, reqs[i - 1].1)
    }
}

/// The address request `i` of `reqs` is served from, in an arena
/// based at `base` whose offset started at `start`.
pub open spec fn request_address(base: int, start: int, reqs: Seq<(int, int)>, i: int) -> int
    recommends
        0 <= i < reqs.len(),
{
    served_address(base, offset_after(start, reqs, i), reqs[i].1)
}

/// A power of two is positive.
pub proof fn lemma_pow2_positive(a: int)
    requires
        is_pow2(a),
    ensures
        a >= 1,
{
    reveal(vstd::arithmetic::power2::is_pow2);
}

/// A request consumes at least `size + align` bytes of offset and at
/// most `align - 1` more than that.
pub proof fn lemma_consumed_bounds(size: int, align: int)
    requires
        size >= 0,
        align >= 1,
    ensures
        size + align <= consumed(size, align) <= size + 2 * align - 1,
        consumed(size, align) % align == 0,
{
    lemma_round_up_properties(size + align, align);
}

/// The offset never decreases as requests are served (monotonicity
/// across the arena's lifetime), and never drops below its start.
pub proof fn lemma_offset_nondecreasing(start: int, reqs: Seq<(int, int)>, i: int, j: int)
    requires
        start >= 0,
        forall|k: int| 0 <= k < reqs.len() ==> valid_request(#[trigger] reqs[k]),
        0 <= i <= j <= reqs.len(),
    ensures
        start <= offset_after(start, reqs, i) <= offset_after(start, reqs, j),
    decreases j,
{
    if j > 0 {
        if i == j {
            lemma_offset_nondecreasing(start, reqs, i - 1, j - 1);
        } else {
            lemma_offset_nondecreasing(start, reqs, i, j - 1);
        }
        lemma_pow2_positive(reqs[j - 1].1);
        lemma_consumed_bounds(reqs[j - 1].0, reqs[j - 1].1);
    }
}

/// The range served for request `i` ends at or before the offset that
/// the next request starts from: no request reaches into the bytes a
/// later one will be served from.
pub proof fn lemma_request_end_within(start: int, reqs: Seq<(int, int)>, i: int)
    requires
        start >= 0,
        forall|k: int| 0 <= k < reqs.len() ==> valid_request(#[trigger] reqs[k]),
        0 <= i < reqs.len(),
    ensures
        round_up(offset_after(start, reqs, i), reqs[i].1) + reqs[i].0 <= offset_after(
            start,
            reqs,
            i + 1,
        ),
{
    let off = offset_after(start, reqs, i);
    lemma_offset_nondecreasing(start, reqs, 0, i);
    lemma_pow2_positive(reqs[i].1);
    lemma_round_up_properties(off, reqs[i].1);
    lemma_consumed_bounds(reqs[i].0, reqs[i].1);
}

/// Disjointness: of any two successful requests, the earlier one's
/// range of `size` bytes ends at or before the later one's begins, so
/// the served ranges are pairwise non-overlapping.
pub proof fn lemma_disjointness(base: int, start: int, reqs: Seq<(int, int)>, i: int, j: int)
    requires
        start >= 0,
        forall|k: int| 0 <= k < reqs.len() ==> valid_request(#[trigger] reqs[k]),
        0 <= i < j < reqs.len(),
    ensures
        request_address(base, start, reqs, i) + reqs[i].0 <= request_address(base, start, reqs, j),
{
    let off_j = offset_after(start, reqs, j);
    lemma_request_end_within(start, reqs, i);
    lemma_offset_nondecreasing(start, reqs, i + 1, j);
    lemma_pow2_positive(reqs[j].1);
    lemma_round_up_properties(off_j, reqs[j].1);
}

/// Alignment: the address a request is served from is a multiple of
/// the requested alignment relative to the arena's base, and an
/// absolute multiple of it whenever the base itself is aligned.
pub proof fn lemma_alignment(base: int, start: int, reqs: Seq<(int, int)>, i: int)
    requires
        base >= 0,
        start >= 0,
        forall|k: int| 0 <= k < reqs.len() ==> valid_request(#[trigger] reqs[k]),
        0 <= i < reqs.len(),
    ensures
        (request_address(base, start, reqs, i) - base) % reqs[i].1 == 0,
        base % reqs[i].1 == 0 ==> request_address(base, start, reqs, i) % reqs[i].1 == 0,
{
    let off = offset_after(start, reqs, i);
    let align = reqs[i].1;
    lemma_offset_nondecreasing(start, reqs, 0, i);
    lemma_pow2_positive(align);
    lemma_round_up_properties(off, align);
    if base % align == 0 {
        lemma_mod_sum_zero(base, round_up(off, align), align);
    }
}

/// The offset stays within the capacity: a request with headroom of
/// `size + 2 * align - 1` bytes below the capacity both succeeds and
/// leaves the offset at or below the capacity. (Without that headroom
/// a request can succeed while the offset overshoots the capacity by
/// up to `2 * align - 1` spare bytes, which is why the premise is
/// needed.)
pub proof fn lemma_offset_within_capacity(off: int, size: int, align: int, capacity: int)
    requires
        off >= 0,
        size >= 0,
        align >= 1,
        off + size + 2 * align - 1 <= capacity,
    ensures
        round_up(off, align) + size <= capacity,
        off + consumed(size, align) <= capacity,
{
    lemma_round_up_properties(off, align);
    lemma_consumed_bounds(size, align);
}

/// Uniform requests: serving any number of requests of one size `s`
/// at alignment 1 advances the offset by exactly `s + 1` bytes per
/// request, and the served ranges are pairwise disjoint.
pub proof fn lemma_uniform_requests(
    base: int,
    start: int,
    reqs: Seq<(int, int)>,
    s: int,
    n: int,
)
    requires
        start >= 0,
        s >= 0,
        0 <= n <= reqs.len(),
        forall|k: int| 0 <= k < reqs.len() ==> #[trigger] reqs[k] == (s, 1int),
    ensures
        offset_after(start, reqs, n) == start + n * (s + 1),
        forall|i: int, j: int|
            0 <= i < j < reqs.len() ==> request_address(base, start, reqs, i) + s
                <= request_address(base, start, reqs, j),
    decreases n,
{
    reveal(vstd::arithmetic::power2::is_pow2);
    assert(forall|k: int| 0 <= k < reqs.len() ==> valid_request(#[trigger] reqs[k]));
    if n > 0 {
        lemma_uniform_requests(base, start, reqs, s, n - 1);
        assert(reqs[n - 1] == (s, 1int));
        assert(consumed(s, 1) == s + 1);
        assert(offset_after(start, reqs, n) == offset_after(start, reqs, n - 1) + (s + 1));
        assert(n * (s + 1) == (n - 1) * (s + 1) + (s + 1)) by (nonlinear_arith);
    } else {
        assert(n * (s + 1) == 0) by (nonlinear_arith)
            requires
                n == 0,
        ;
    }
    assert forall|i: int, j: int| 0 <= i < j < reqs.len() implies request_address(
        base,
        start,
        reqs,
        i,
    ) + s <= request_address(base, start, reqs, j) by {
        lemma_disjointness(base, start, reqs, i, j);
    }
}

} // verus!
