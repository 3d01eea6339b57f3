use vstd::prelude::*;

use crate::accumulation::{effective_window, flushes_at, lemma_window_step};
use crate::epoch::{action_for, updates, GradientAction, TrainRun};

verus! {

/// Number of optimizer updates among the items numbered `1..=n` of a pass
/// with the given accumulation window (`None`: no window).
pub open spec fn count_updates(window: Option<nat>, n: nat) -> nat
    decreases n,
{
    if n == 0 {
        0
    } else {
        count_updates(window, (n - 1) as nat) + if updates(action_for(window, n)) {
            1nat
        } else {
            0nat
        }
    }
}

/// Number of sources, of the given lengths, that still hold an item for the
/// lock-step iteration `k` (counting from 0).
pub open spec fn fetched_at(lens: Seq<nat>, k: nat) -> nat
    decreases lens.len(),
{
    if lens.len() == 0 {
        0
    } else {
        fetched_at(lens.drop_last(), k) + if k < lens.last() {
            1nat
        } else {
            0nat
        }
    }
}

/// Length of the shortest source.
pub open spec fn shortest(lens: Seq<nat>) -> nat
    decreases lens.len(),
{
    if lens.len() <= 1 {
        if lens.len() == 0 {
            0
        } else {
            lens[0]
        }
    } else {
        let s = shortest(lens.drop_last());
        if lens.last() < s {
            lens.last()
        } else {
            s
        }
    }
}

/// Without an accumulation window, every processed item is followed by an
/// optimizer update with its own gradients: `n` items, `n` updates.
pub proof fn lemma_no_window_updates_every_item(n: nat)
    ensures
        forall|i: nat| 1 <= i <= n ==> #[trigger] action_for(None, i) == GradientAction::ApplyNow,
        count_updates(None, n) == n,
    decreases n,
{
    if n > 0 {
        lemma_no_window_updates_every_item((n - 1) as nat);
    }
}

/// With an accumulation window `w` (on several devices, the configured
/// window times the device count), the optimizer is updated after the items
/// numbered `w`, `2w`, ..., so `n / w` times over `n` items; the last
/// `n % w` contributions are never applied.
pub proof fn lemma_window_updates(w: nat, n: nat)
    ensures
        forall|i: nat|
            1 <= i <= n ==> (updates(#[trigger] action_for(Some(w), i)) <==> i
                % effective_window(w) == 0),
        count_updates(Some(w), n) == n / effective_window(w),
        n - (n / effective_window(w)) * effective_window(w) == n % effective_window(w),
    decreases n,
{
    let ew = effective_window(w);
    vstd::arithmetic::div_mod::lemma_fundamental_div_mod(n as int, ew as int);
    assert(n as int - (n as int / ew as int) * ew as int == n as int % ew as int)
        by (nonlinear_arith)
        requires
            n as int == ew as int * (n as int / ew as int) + n as int % ew as int,
    ;
    if n > 0 {
        lemma_window_updates(w, (n - 1) as nat);
        lemma_window_step(ew, (n - 1) as nat);
        assert(flushes_at(w, n) == (n % ew == 0));
    }
}

/// In a training pass with a window, the contributions not yet applied are
/// the remainder of the processed items by the window: what is left at the
/// end of the pass is that remainder, and it is dropped with the run.
pub proof fn lemma_pending_is_remainder(run: &TrainRun)
    requires
        run.wf(),
    ensures
        run.window() matches Some(w) ==> w >= 1 && run.pending() == run.iteration() % w,
        run.window() is None ==> run.pending() == 0,
{
    run.lemma_wf_pending();
}

/// In lock-step over sources of the given lengths, iteration `k` gets an
/// item from every source exactly when `k` is below the shortest length; so
/// the pass runs `shortest(lens)` full iterations of `lens.len()` items
/// each, and drops the ragged iteration after them.
pub proof fn lemma_lockstep_full_iterations(lens: Seq<nat>, k: nat)
    requires
        lens.len() >= 1,
    ensures
        fetched_at(lens, k) <= lens.len(),
        (fetched_at(lens, k) == lens.len()) <==> k < shortest(lens),
    decreases lens.len(),
{
    let d = lens.drop_last();
    assert(fetched_at(lens, k) == fetched_at(d, k) + if k < lens.last() {
        1nat
    } else {
        0nat
    });
    if lens.len() > 1 {
        lemma_lockstep_full_iterations(d, k);
        assert(shortest(lens) == if lens.last() < shortest(d) {
            lens.last()
        } else {
            shortest(d)
        });
    } else {
        assert(d.len() == 0);
        assert(fetched_at(d, k) == 0);
        assert(shortest(lens) == lens.last());
    }
}

/// Sources of one common length `n` give `n` full lock-step iterations, so
/// `lens.len() * n` items.
pub proof fn lemma_lockstep_equal_lengths(lens: Seq<nat>, n: nat)
    requires
        lens.len() >= 1,
        forall|i: int| 0 <= i < lens.len() ==> lens[i] == n,
    ensures
        shortest(lens) == n,
        forall|k: nat| (fetched_at(lens, k) == lens.len()) <==> k < n,
    decreases lens.len(),
{
    if lens.len() > 1 {
        let d = lens.drop_last();
        assert forall|i: int| 0 <= i < d.len() implies d[i] == n by {
            assert(d[i] == lens[i]);
        }
        lemma_lockstep_equal_lengths(d, n);
    }
    assert forall|k: nat| (fetched_at(lens, k) == lens.len()) <==> k < n by {
        lemma_lockstep_full_iterations(lens, k);
    }
}

} // verus!
