//! Stride/offset partition of the nonce space.
//!
//! Worker `i` of `n` walks the arithmetic progression `i, i + n, i + 2n, ...`.
//! The lemmas here show that these progressions tile the non-negative
//! integers: every nonce belongs to exactly one worker.

use vstd::prelude::*;
use vstd::arithmetic::div_mod::{lemma_fundamental_div_mod, lemma_mod_multiples_basic,
    lemma_fundamental_div_mod_converse};

verus! {

/// `nonce` lies on the progression that starts at `offset` and advances by
/// `stride`.
pub open spec fn visits(offset: int, stride: int, nonce: int) -> bool {
    offset <= nonce && (nonce - offset) % stride == 0
}

/// The `k`-th element of a progression is visited.
pub proof fn lemma_visits_nth(offset: int, stride: int, k: int)
    requires
        stride >= 1,
        k >= 0,
    ensures
        visits(offset, stride, offset + k * stride),
{
    lemma_mod_multiples_basic(k, stride);
    assert(k * stride >= 0) by (nonlinear_arith)
        requires
            k >= 0,
            stride >= 1,
    ;
}

/// A visited nonce is the element of the progression at index
/// `(nonce - offset) / stride`.
pub proof fn lemma_visits_index(offset: int, stride: int, nonce: int)
    requires
        stride >= 1,
        visits(offset, stride, nonce),
    ensures
        (nonce - offset) / stride >= 0,
        nonce == offset + ((nonce - offset) / stride) * stride,
{
    let d: int = nonce - offset;
    lemma_fundamental_div_mod(d, stride);
    assert(d / stride >= 0) by (nonlinear_arith)
        requires
            d >= 0,
            stride >= 1,
            d == stride * (d / stride) + d % stride,
            d % stride == 0,
    ;
    assert(stride * (d / stride) == (d / stride) * stride) by (nonlinear_arith);
}

/// Two visited nonces of one progression differ by at least one stride.
pub proof fn lemma_visits_gap(offset: int, stride: int, a: int, b: int)
    requires
        stride >= 1,
        visits(offset, stride, a),
        visits(offset, stride, b),
        a < b,
    ensures
        a + stride <= b,
{
    lemma_visits_index(offset, stride, a);
    lemma_visits_index(offset, stride, b);
    let qa: int = (a - offset) / stride;
    let qb: int = (b - offset) / stride;
    assert(qa < qb) by (nonlinear_arith)
        requires
            stride >= 1,
            a == offset + qa * stride,
            b == offset + qb * stride,
            a < b,
    ;
    assert(qa * stride + stride <= qb * stride) by (nonlinear_arith)
        requires
            stride >= 1,
            qa + 1 <= qb,
    ;
}

/// A progression restarted at one of its own elements visits the same
/// nonces from there on.
pub proof fn lemma_visits_restart(offset: int, stride: int, start: int, nonce: int)
    requires
        stride >= 1,
        visits(offset, stride, start),
        start <= nonce,
    ensures
        visits(offset, stride, nonce) <==> visits(start, stride, nonce),
{
    lemma_visits_index(offset, stride, start);
    let qs: int = (start - offset) / stride;
    if visits(offset, stride, nonce) {
        lemma_visits_index(offset, stride, nonce);
        let qn: int = (nonce - offset) / stride;
        assert(nonce - start == (qn - qs) * stride) by (nonlinear_arith)
            requires
                nonce == offset + qn * stride,
                start == offset + qs * stride,
        ;
        lemma_mod_multiples_basic(qn - qs, stride);
    }
    if visits(start, stride, nonce) {
        lemma_visits_index(start, stride, nonce);
        let q: int = (nonce - start) / stride;
        assert(nonce - offset == (q + qs) * stride) by (nonlinear_arith)
            requires
                nonce == start + q * stride,
                start == offset + qs * stride,
        ;
        lemma_mod_multiples_basic(q + qs, stride);
    }
}

/// Partition coverage: with `workers` workers, worker `i` taking offset `i`
/// and stride `workers`, the nonce `nonce` is visited by worker
/// `nonce % workers` and by no other.
pub proof fn lemma_partition_coverage(workers: int, nonce: int)
    requires
        workers >= 1,
        nonce >= 0,
    ensures
        0 <= nonce % workers < workers,
        visits(nonce % workers, workers, nonce),
        forall|i: int| 0 <= i < workers && visits(i, workers, nonce) ==> i == nonce % workers,
{
    lemma_fundamental_div_mod(nonce, workers);
    let q: int = nonce / workers;
    let r: int = nonce % workers;
    assert(nonce - r == q * workers) by (nonlinear_arith)
        requires
            nonce == workers * q + r,
    ;
    lemma_mod_multiples_basic(q, workers);
    assert forall|i: int| 0 <= i < workers && visits(i, workers, nonce) implies i == r by {
        lemma_visits_index(i, workers, nonce);
        let qi: int = (nonce - i) / workers;
        assert(nonce == qi * workers + i);
        lemma_fundamental_div_mod_converse(nonce, workers, qi, i);
    }
}

/// Disjointness: two different workers never visit the same nonce.
pub proof fn lemma_partition_disjoint(workers: int, i: int, j: int, nonce: int)
    requires
        workers >= 1,
        0 <= i < workers,
        0 <= j < workers,
        i != j,
    ensures
        !(visits(i, workers, nonce) && visits(j, workers, nonce)),
{
    if visits(i, workers, nonce) && visits(j, workers, nonce) {
        lemma_partition_coverage(workers, nonce);
    }
}

} // verus!
