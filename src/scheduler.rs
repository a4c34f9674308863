use vstd::prelude::*;

verus! {

/// The default number of bodies refreshed per tick.
pub const DEFAULT_BATCH_SIZE: usize = 50;

/// The cursor of the batched refresh: where the next tick starts in the
/// catalog order, and how many bodies a tick refreshes at most.
#[derive(Debug, Clone, Copy, PartialEq, Eq, Structural)]
pub struct BatchedPositionUpdate {
    pub current_index: usize,
    pub batch_size: usize,
}

/// Where a tick over `total` bodies starts: the cursor, or the start of a new
/// pass once the cursor has reached the end.
pub open spec fn batch_start(s: BatchedPositionUpdate, total: nat) -> nat {
    if s.current_index >= total {
        0
    } else {
        s.current_index as nat
    }
}

/// Where a tick over `total` bodies ends (exclusive).
pub open spec fn batch_end(s: BatchedPositionUpdate, total: nat) -> nat {
    if batch_start(s, total) + s.batch_size <= total {
        (batch_start(s, total) + s.batch_size) as nat
    } else {
        total
    }
}

/// The cursor after one tick over `total` bodies; with no bodies a tick does
/// nothing.
pub open spec fn tick(s: BatchedPositionUpdate, total: nat) -> BatchedPositionUpdate {
    if total == 0 {
        s
    } else {
        BatchedPositionUpdate { current_index: batch_end(s, total) as usize, ..s }
    }
}

/// The cursor after `n` ticks over `total` bodies.
pub open spec fn run(s: BatchedPositionUpdate, total: nat, n: nat) -> BatchedPositionUpdate
    decreases n,
{
    if n == 0 {
        s
    } else {
        tick(run(s, total, (n - 1) as nat), total)
    }
}

/// Body `i` is refreshed by one of the first `n` ticks.
pub open spec fn visited(s: BatchedPositionUpdate, total: nat, n: nat, i: nat) -> bool {
    exists|k: nat|
        k < n && batch_start(#[trigger] run(s, total, k), total) <= i < batch_end(
            run(s, total, k),
            total,
        )
}

/// The number of ticks of a full pass: `ceil(total / batch_size)`.
pub open spec fn ticks_per_pass(total: nat, batch_size: nat) -> nat
    recommends
        batch_size > 0,
{
    ((total + batch_size - 1) / (batch_size as int)) as nat
}

impl BatchedPositionUpdate {
    /// A cursor at the start of the catalog.
    pub fn new(batch_size: usize) -> (r: BatchedPositionUpdate)
        ensures
            r.current_index == 0,
            r.batch_size == batch_size,
    {
        BatchedPositionUpdate { current_index: 0, batch_size }
    }

    /// Advances the cursor by one tick over a catalog of `total` bodies and
    /// returns the range `[start, end)` of the bodies to refresh; with no
    /// bodies there is nothing to refresh and the cursor stays.
    pub fn next_batch(&mut self, total: usize) -> (r: Option<(usize, usize)>)
        ensures
            *final(self) == tick(*old(self), total as nat),
            total == 0 ==> r is None,
            total > 0 ==> r == Some(
                (
                    batch_start(*old(self), total as nat) as usize,
                    batch_end(*old(self), total as nat) as usize,
                ),
            ),
    {
        if total == 0 {
            return None;
        }
        if self.current_index >= total {
            self.current_index = 0;
        }
        let start = self.current_index;
        let end = if self.batch_size <= total - start {
            start + self.batch_size
        } else {
            total
        };
        self.current_index = end;
        Some((start, end))
    }
}

impl Default for BatchedPositionUpdate {
    fn default() -> (r: BatchedPositionUpdate)
        ensures
            r.current_index == 0,
            r.batch_size == DEFAULT_BATCH_SIZE,
    {
        BatchedPositionUpdate { current_index: 0, batch_size: DEFAULT_BATCH_SIZE }
    }
}

/// What a published slot holds after a batch whose results start at `start`:
/// the result where the batch produced one, and the previous value otherwise.
pub open spec fn published_after<T>(
    old_slots: Seq<Option<T>>,
    start: int,
    results: Seq<Option<T>>,
    i: int,
) -> Option<T> {
    if start <= i < start + results.len() && results[i - start] is Some {
        results[i - start]
    } else {
        old_slots[i]
    }
}

/// Publishes the results of one batch into the slots of the catalog order:
/// slot `start + k` takes result `k` where that computation succeeded, and a
/// body whose computation failed keeps the value published before. Results
/// past the last slot are dropped.
pub fn publish_batch<T>(published: &mut Vec<Option<T>>, start: usize, results: Vec<Option<T>>)
    ensures
        final(published).len() == old(published).len(),
        forall|i: int|
            0 <= i < old(published).len() ==> #[trigger] final(published)[i] == published_after(
                old(published)@,
                start as int,
                results@,
                i,
            ),
{
    let ghost all = results@;
    let ghost before = published@;
    if start >= published.len() {
        return;
    }
    let mut k: usize = start;
    for result in it: results.into_iter()
        invariant
            it.seq() == all,
            published.len() == before.len(),
            start <= k <= published.len(),
            k as int == start + it.index() || (k == published.len() && start + it.index()
                >= published.len()),
            forall|i: int|
                0 <= i < before.len() ==> #[trigger] published[i] == if start <= i < k {
                    published_after(before, start as int, all, i)
                } else {
                    before[i]
                },
    {
        if k < published.len() {
            match result {
                Some(v) => {
                    published.set(k, Some(v));
                },
                None => {},
            }
            k = k + 1;
        }
    }
}

/// While a pass from the start of the catalog lasts, the cursor after `k > 0`
/// ticks stands at `min(k * batch_size, total)`.
proof fn lemma_run_index(s: BatchedPositionUpdate, total: nat, k: nat)
    requires
        s.batch_size > 0,
        s.current_index == 0 || s.current_index >= total,
        0 < total <= usize::MAX,
        k <= ticks_per_pass(total, s.batch_size as nat),
    ensures
        run(s, total, k).batch_size == s.batch_size,
        k > 0 ==> run(s, total, k).current_index as nat == if k * s.batch_size <= total {
            k * s.batch_size
        } else {
            total as int
        },
    decreases k,
{
    let b = s.batch_size as nat;
    if k > 0 {
        let j = (k - 1) as nat;
        lemma_run_index(s, total, j);
        let n = ticks_per_pass(total, b);
        assert(j * b < total) by (nonlinear_arith)
            requires
                j < n,
                n as int == (total + b - 1) / (b as int),
                b > 0,
        {
            assert(n * b <= total + b - 1);
            assert(j * b + b <= n * b);
        }
        assert(k * b == j * b + b) by (nonlinear_arith)
            requires
                k == j + 1,
        ;
        let r = run(s, total, j);
        assert(run(s, total, k) == tick(r, total));
        if j == 0 {
            assert(r == s);
        }
        assert(batch_start(r, total) == j * b);
        assert(run(s, total, k).current_index as nat == batch_end(r, total));
    }
}

/// A full pass from the start of the catalog: with a static catalog of `total`
/// bodies, the first `ceil(total / batch_size)` ticks refresh every body at
/// least once, tick `k` refreshing `[k * batch_size, min((k + 1) * batch_size,
/// total))`, and leave the cursor at the end of the catalog, so that the next
/// tick starts a new pass at 0.
pub proof fn lemma_full_pass(s: BatchedPositionUpdate, total: nat)
    requires
        s.batch_size > 0,
        s.current_index == 0 || s.current_index >= total,
        0 < total <= usize::MAX,
    ensures
        forall|k: nat|
            k < ticks_per_pass(total, s.batch_size as nat) ==> batch_start(
                #[trigger] run(s, total, k),
                total,
            ) == k * s.batch_size && batch_end(run(s, total, k), total) == if (k + 1)
                * s.batch_size <= total {
                (k + 1) * s.batch_size
            } else {
                total as int
            },
        forall|i: nat| i < total ==> visited(s, total, ticks_per_pass(total, s.batch_size as nat), i),
        run(s, total, ticks_per_pass(total, s.batch_size as nat)).current_index == total,
        batch_start(run(s, total, ticks_per_pass(total, s.batch_size as nat)), total) == 0,
{
    let b = s.batch_size as nat;
    let n = ticks_per_pass(total, b);
    assert forall|k: nat| k < n implies batch_start(#[trigger] run(s, total, k), total) == k * b
        && batch_end(run(s, total, k), total) == if (k + 1) * b <= total {
        (k + 1) * b
    } else {
        total
    } by {
        lemma_run_index(s, total, k);
        if k == 0 {
            assert(run(s, total, k) == s);
        }
        assert(k * b < total) by (nonlinear_arith)
            requires
                k < n,
                n as int == (total + b - 1) / (b as int),
                b > 0,
        {
            assert(n * b <= total + b - 1);
            assert(k * b + b <= n * b);
        }
        assert((k + 1) * b == k * b + b) by (nonlinear_arith);
    }
    assert forall|i: nat| i < total implies visited(s, total, n, i) by {
        let k = i / b;
        assert(k * b <= i && i < k * b + b) by (nonlinear_arith)
            requires
                k == i / b,
                b > 0,
        ;
        assert(k < n) by (nonlinear_arith)
            requires
                k == i / b,
                i < total,
                n as int == (total + b - 1) / (b as int),
                b > 0,
        {
            assert(i + b <= total + b - 1);
            assert(k * b <= i);
            assert((k + 1) * b <= total + b - 1);
        }
        assert((k + 1) * b == k * b + b) by (nonlinear_arith);
        assert(batch_start(run(s, total, k), total) <= i < batch_end(run(s, total, k), total));
    }
    assert(n > 0) by (nonlinear_arith)
        requires
            n as int == (total + b - 1) / (b as int),
            b > 0,
            total > 0,
    {
        assert(total + b - 1 >= b);
    }
    lemma_run_index(s, total, n);
    assert(n * b >= total) by (nonlinear_arith)
        requires
            n as int == (total + b - 1) / (b as int),
            b > 0,
    {
        assert((total + b - 1) < n * b + b);
    }
}

} // verus!
