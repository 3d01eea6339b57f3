use vstd::prelude::*;

verus! {

/// The window actually used: a configured window of zero behaves as one.
pub open spec fn effective_window(window: nat) -> nat {
    if window == 0 {
        1
    } else {
        window
    }
}

/// Whether the `n`-th accumulated contribution of an epoch (counting from 1)
/// completes a window of size `window` and so triggers an optimizer update.
pub open spec fn flushes_at(window: nat, n: nat) -> bool {
    n % effective_window(window) == 0
}

/// One more item raises `n / w` by one exactly when it completes a window.
pub(crate) proof fn lemma_window_step(w: nat, n: nat)
    requires
        w >= 1,
    ensures
        (n + 1) / w == n / w + if (n + 1) % w == 0 {
            1int
        } else {
            0int
        },
        (n + 1) % w == if n % w + 1 == w {
            0
        } else {
            n % w + 1
        },
{
    vstd::arithmetic::div_mod::lemma_fundamental_div_mod(n as int, w as int);
    vstd::arithmetic::div_mod::lemma_mod_pos_bound(n as int, w as int);
    let q = n as int / w as int;
    let r = n as int % w as int;
    if r + 1 == w {
        assert((n + 1) as int == (q + 1) * w + 0) by (nonlinear_arith)
            requires
                n as int == w * q + r,
                r + 1 == w,
        ;
        vstd::arithmetic::div_mod::lemma_fundamental_div_mod_converse(
            (n + 1) as int,
            w as int,
            q + 1,
            0,
        );
    } else {
        assert((n + 1) as int == q * w + (r + 1)) by (nonlinear_arith)
            requires
                n as int == w * q + r,
        ;
        vstd::arithmetic::div_mod::lemma_fundamental_div_mod_converse(
            (n + 1) as int,
            w as int,
            q,
            r + 1,
        );
    }
}

/// Counter of the gradient contributions merged since the last optimizer
/// update.
#[derive(Clone, Copy)]
pub struct Accumulation {
    window: usize,
    pending: usize,
}

impl Accumulation {
    /// Size of the window: the number of contributions merged before one update.
    pub closed spec fn window(&self) -> nat {
        self.window as nat
    }

    /// Contributions merged since the last update.
    pub closed spec fn pending(&self) -> nat {
        self.pending as nat
    }

    pub open spec fn wf(&self) -> bool {
        1 <= self.window() && self.pending() < self.window()
    }

    /// Starts an empty accumulation; a window of zero is taken as one.
    pub fn new(window: usize) -> (r: Accumulation)
        ensures
            r.wf(),
            r.window() == effective_window(window as nat),
            r.pending() == 0,
    {
        let w: usize = if window == 0 {
            1
        } else {
            window
        };
        Accumulation { window: w, pending: 0 }
    }

    pub fn window_size(&self) -> (r: usize)
        ensures
            r == self.window(),
    {
        self.window
    }

    pub fn pending_count(&self) -> (r: usize)
        ensures
            r == self.pending(),
    {
        self.pending
    }

    /// Records one merged contribution. Returns whether the window is now
    /// full: the caller then applies the accumulated sum in one optimizer
    /// update, and the count starts over from zero.
    pub fn record(&mut self) -> (flush: bool)
        requires
            old(self).wf(),
        ensures
            final(self).wf(),
            final(self).window() == old(self).window(),
            flush == (old(self).pending() + 1 == old(self).window()),
            final(self).pending() == (if flush {
                0
            } else {
                old(self).pending() + 1
            }),
    {
        self.pending = self.pending + 1;
        if self.pending == self.window {
            self.pending = 0;
            true
        } else {
            false
        }
    }
}

} // verus!
