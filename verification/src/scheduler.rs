//! Partitioning of the framebuffer into contiguous worker chunks.
//!
//! The scheduler hands each worker a contiguous range of flat pixel
//! indices; the ranges cover the framebuffer exactly once, so workers
//! never share a pixel and no index is left unrendered.

use vstd::prelude::*;

verus! {

/// The first flat pixel index of chunk `k` when chunks hold `cs` pixels.
pub open spec fn chunk_lo(cs: int, k: int) -> int {
    k * cs
}

/// One past the last flat pixel index of chunk `k`: a full chunk, or the
/// shorter tail of the framebuffer.
pub open spec fn chunk_hi(total: int, cs: int, k: int) -> int {
    if k * cs + cs <= total {
        k * cs + cs
    } else {
        total
    }
}

/// Number of chunks: the total rounded up to whole chunks.
pub open spec fn num_chunks(total: int, cs: int) -> int {
    (total + cs - 1) / cs
}

/// Index `i` lies in chunk `k`.
pub open spec fn in_chunk(total: int, cs: int, k: int, i: int) -> bool {
    chunk_lo(cs, k) <= i < chunk_hi(total, cs, k)
}

/// The chunk size the scheduler hands each worker: the pixel total
/// divided by the worker count, rounded down; the tail chunk takes what
/// remains.
pub fn chunk_size(total: usize, workers: usize) -> (r: usize)
    requires
        1 <= workers <= total,
    ensures
        r as int == total as int / workers as int,
        r >= 1,
{
    proof {
        vstd::arithmetic::div_mod::lemma_div_is_ordered(
            workers as int,
            total as int,
            workers as int,
        );
        vstd::arithmetic::div_mod::lemma_div_multiples_vanish(1, workers as int);
        assert((workers as int) * 1 == workers as int) by (nonlinear_arith);
    }
    total / workers
}

/// The chunks cover the framebuffer exactly once: every flat index below
/// `total` lies in exactly one chunk, the one its quotient by the chunk
/// size names, whatever chunk size a worker count produced.
pub proof fn lemma_chunks_partition(total: int, cs: int)
    requires
        0 < cs,
        0 <= total,
    ensures
        forall|i: int|
            0 <= i < total ==> #[trigger] in_chunk(total, cs, i / cs, i) && 0 <= i / cs
                < num_chunks(total, cs),
        forall|k: int, i: int|
            0 <= k && #[trigger] in_chunk(total, cs, k, i) ==> 0 <= i < total && k == i / cs,
{
    assert forall|i: int| 0 <= i < total implies #[trigger] in_chunk(total, cs, i / cs, i) && 0
        <= i / cs < num_chunks(total, cs) by {
        let k = i / cs;
        vstd::arithmetic::div_mod::lemma_fundamental_div_mod(i, cs);
        vstd::arithmetic::div_mod::lemma_mod_pos_bound(i, cs);
        vstd::arithmetic::div_mod::lemma_div_pos_is_pos(i, cs);
        assert(cs * k == k * cs) by (nonlinear_arith);
        assert(chunk_lo(cs, k) <= i < k * cs + cs);
        vstd::arithmetic::div_mod::lemma_div_is_ordered(i, total - 1, cs);
        vstd::arithmetic::div_mod::lemma_div_plus_one(total - 1, cs);
        assert(total + cs - 1 == cs + (total - 1));
        assert(i / cs < num_chunks(total, cs));
    }
    assert forall|k: int, i: int| 0 <= k && #[trigger] in_chunk(total, cs, k, i) implies 0 <= i
        < total && k == i / cs by {
        assert(k * cs <= i < k * cs + cs);
        assert(k * cs >= 0) by (nonlinear_arith)
            requires
                k >= 0,
                cs > 0,
        {}
        assert(cs * k + (i - k * cs) == i) by (nonlinear_arith);
        vstd::arithmetic::div_mod::lemma_div_multiples_vanish_fancy(k, i - k * cs, cs);
    }
}

} // verus!
