//! Splitting a corpus into bulk batches.

use vstd::prelude::*;

verus! {

/// The half-open range `[start, end)` of corpus positions sent in one request.
#[derive(Clone, Copy, Debug, PartialEq, Eq, Structural)]
pub struct Batch {
    pub start: usize,
    pub end: usize,
}

/// Number of batches for a corpus: the least `k` with `k * size >= total`.
pub open spec fn batch_count(total: nat, size: nat) -> nat
    recommends
        size > 0,
{
    ((total + size - 1) as nat) / size
}

/// Batch `k` of a corpus: positions `k * size` up to the next multiple of
/// `size` or the end of the corpus, whichever comes first.
pub open spec fn batch_at(total: nat, size: nat, k: nat) -> (nat, nat) {
    let start = k * size;
    let end = if start + size <= total {
        start + size
    } else {
        total
    };
    (start, end)
}

/// The batches are exactly those of `batch_at`, in order.
pub open spec fn is_batch_plan(plan: Seq<Batch>, total: nat, size: nat) -> bool {
    &&& plan.len() == batch_count(total, size)
    &&& forall|k: int|
        0 <= k < plan.len() ==> ((#[trigger] plan[k]).start as nat, plan[k].end as nat)
            == batch_at(total, size, k as nat)
}

proof fn lemma_count_bounds(total: nat, size: nat, k: nat)
    requires
        size > 0,
        k * size >= total,
        k == 0 || (k - 1) * size < total,
    ensures
        k == batch_count(total, size),
{
    let c = batch_count(total, size);
    let n = (total + size - 1) as nat;
    vstd::arithmetic::div_mod::lemma_fundamental_div_mod(n as int, size as int);
    vstd::arithmetic::div_mod::lemma_mod_bound(n as int, size as int);
    assert(n == size * c + n % size);
    if k < c {
        assert(k * size + size <= c * size) by (nonlinear_arith)
            requires
                k < c,
                size > 0,
        ;
        assert(c * size == size * c) by (nonlinear_arith);
    } else if k > c {
        assert((k - 1) * size >= c * size) by (nonlinear_arith)
            requires
                k - 1 >= c,
                size > 0,
        ;
        assert(c * size == size * c) by (nonlinear_arith);
    }
}

/// No batch of a plan is empty: every batch carries at least one document, so
/// no request is ever sent for nothing, and an empty corpus has no batch.
pub proof fn lemma_no_empty_batch(total: nat, size: nat, k: nat)
    requires
        size > 0,
        k < batch_count(total, size),
    ensures
        batch_at(total, size, k).0 < batch_at(total, size, k).1,
        total == 0 ==> batch_count(total, size) == 0,
{
    let c = batch_count(total, size);
    let n = (total + size - 1) as nat;
    vstd::arithmetic::div_mod::lemma_fundamental_div_mod(n as int, size as int);
    vstd::arithmetic::div_mod::lemma_mod_bound(n as int, size as int);
    assert(k * size + size <= size * c) by (nonlinear_arith)
        requires
            k < c,
            size > 0,
    ;
    if total == 0 {
        vstd::arithmetic::div_mod::lemma_fundamental_div_mod_converse(
            n as int,
            size as int,
            0,
            n as int,
        );
    }
}

/// A corpus that the batch size divides exactly is sent in `total / size`
/// batches that are all full: there is no trailing partial or empty batch.
pub proof fn lemma_divisible_corpus_has_full_batches(total: nat, size: nat, k: nat)
    requires
        size > 0,
        total % size == 0,
        k < batch_count(total, size),
    ensures
        batch_count(total, size) == total / size,
        batch_at(total, size, k).1 == batch_at(total, size, k).0 + size,
{
    let m = total / size;
    vstd::arithmetic::div_mod::lemma_fundamental_div_mod(total as int, size as int);
    assert(total == size * m);
    vstd::arithmetic::div_mod::lemma_fundamental_div_mod_converse(
        (total + size - 1) as int,
        size as int,
        m as int,
        size - 1,
    );
    assert(k * size + size <= size * m) by (nonlinear_arith)
        requires
            k < m,
            size > 0,
    ;
}

/// Splits a corpus of `total` documents into batches of `size`; no batch is
/// empty and the last one holds what remains.
pub fn plan_batches(total: usize, size: usize) -> (plan: Vec<Batch>)
    requires
        size > 0,
    ensures
        is_batch_plan(plan@, total as nat, size as nat),
        forall|k: int| 0 <= k < plan@.len() ==> (#[trigger] plan@[k]).start < plan@[k].end,
{
    let mut plan: Vec<Batch> = Vec::new();
    let mut start: usize = 0;
    let mut done: bool = total == 0;
    assert(0 * size == 0);
    while !done
        invariant
            size > 0,
            !done ==> start == plan@.len() * size,
            !done ==> start < total,
            done ==> plan@.len() * size >= total,
            done ==> (plan@.len() == 0 || (plan@.len() - 1) * size < total),
            forall|k: int|
                0 <= k < plan@.len() ==> ((#[trigger] plan@[k]).start as nat, plan@[k].end as nat)
                    == batch_at(total as nat, size as nat, k as nat),
            forall|k: int| 0 <= k < plan@.len() ==> (#[trigger] plan@[k]).start < plan@[k].end,
        decreases (if done { 0 } else { total - start + 1 }),
    {
        let ghost k = plan@.len();
        assert((k + 1) * size == k * size + size) by (nonlinear_arith);
        if total - start > size {
            plan.push(Batch { start, end: start + size });
            start = start + size;
        } else {
            plan.push(Batch { start, end: total });
            done = true;
        }
    }
    proof {
        lemma_count_bounds(total as nat, size as nat, plan@.len());
    }
    plan
}

} // verus!
