//! The per-task batch aggregation state machine.
//!
//! Each aggregator keeps one accumulator per batch window: the number of
//! verified reports folded in, their output shares, and a flag that flips
//! once, permanently, when the window is collected. A report whose window is
//! already collected is stale and is never folded in; a collect spends the
//! one-shot privacy budget of every window it covers.

use vstd::prelude::*;

use crate::problem::PpmError;
use crate::{Interval, Time};

verus! {

/// The start of the batch window holding instant `t`, for windows of
/// `window` seconds: `t` rounded down to a multiple of `window`.
pub open spec fn spec_window_of(window: int, t: int) -> int {
    t - t % window
}

/// Running state of one batch window on one aggregator.
pub struct Accumulator<A> {
    /// The window's start; always a multiple of the task's batch window.
    pub start: Time,
    /// How many verified reports have been folded into this window.
    pub count: u64,
    /// The folded reports' output shares, held until collection.
    pub shares: Vec<A>,
    /// Whether this window's one-shot budget has been spent.
    pub collected: bool,
}

/// Per-task accumulation state of one aggregator: a batch window length and
/// one accumulator per window that has seen a verified report or a collect.
pub struct BatchState<A> {
    /// The task's batch window, in seconds.
    pub window: u64,
    /// The live accumulators, one per distinct window.
    pub accumulators: Vec<Accumulator<A>>,
}

impl<A> BatchState<A> {
    /// Well-formedness: the window is positive, every accumulator sits on a
    /// window boundary, no two accumulators share a window, and an
    /// uncollected accumulator's count equals the shares it holds.
    pub open spec fn wf(self) -> bool {
        &&& self.window > 0
        &&& forall|i: int|
            0 <= i < self.accumulators@.len() ==> (#[trigger] self.accumulators@[i]).start.0 as int
                % self.window as int == 0
        &&& forall|i: int, j: int|
            0 <= i < self.accumulators@.len() && 0 <= j < self.accumulators@.len() && i != j
                ==> (#[trigger] self.accumulators@[i]).start.0 != (
            #[trigger] self.accumulators@[j]).start.0
        &&& forall|i: int|
            0 <= i < self.accumulators@.len() && !(#[trigger] self.accumulators@[i]).collected
                ==> self.accumulators@[i].count == self.accumulators@[i].shares@.len()
    }

    /// Whether some accumulator sits at window start `ws`.
    pub open spec fn spec_has_window(self, ws: int) -> bool {
        exists|i: int|
            0 <= i < self.accumulators@.len() && (#[trigger] self.accumulators@[i]).start.0 == ws
    }

    /// The index of the accumulator at window start `ws`.
    pub open spec fn spec_acc_index(self, ws: int) -> int {
        choose|i: int|
            0 <= i < self.accumulators@.len() && (#[trigger] self.accumulators@[i]).start.0 == ws
    }

    /// The verified-report count of the window starting at `ws`.
    pub open spec fn spec_count_at(self, ws: int) -> int {
        if self.spec_has_window(ws) {
            self.accumulators@[self.spec_acc_index(ws)].count as int
        } else {
            0
        }
    }

    /// Whether the window starting at `ws` has had its budget spent.
    pub open spec fn spec_collected_at(self, ws: int) -> bool {
        self.spec_has_window(ws) && self.accumulators@[self.spec_acc_index(ws)].collected
    }

    /// The output shares held for the window starting at `ws`.
    pub open spec fn spec_shares_at(self, ws: int) -> Seq<A> {
        if self.spec_has_window(ws) {
            self.accumulators@[self.spec_acc_index(ws)].shares@
        } else {
            Seq::empty()
        }
    }

    /// A report at instant `t` is stale when its window is already collected.
    pub open spec fn spec_stale(self, t: int) -> bool {
        self.spec_collected_at(spec_window_of(self.window as int, t))
    }

    /// Whether the interval overlaps any window whose budget is spent.
    pub open spec fn spec_overlaps_collected(self, iv: Interval) -> bool {
        exists|i: int|
            0 <= i < self.accumulators@.len() && (#[trigger] self.accumulators@[i]).collected
                && iv.spec_contains(self.accumulators@[i].start.0 as int)
    }

    /// The number of verified reports in the `k` windows starting at `lo`.
    pub open spec fn spec_count_windows(self, lo: int, k: nat) -> int
        decreases k,
    {
        if k == 0 {
            0
        } else {
            self.spec_count_at(lo) + self.spec_count_windows(lo + self.window, (k - 1) as nat)
        }
    }

    /// The output shares held by the `k` windows starting at `lo`, in
    /// window order.
    pub open spec fn spec_shares_in_windows(self, lo: int, k: nat) -> Seq<A>
        decreases k,
    {
        if k == 0 {
            Seq::empty()
        } else {
            self.spec_shares_at(lo) + self.spec_shares_in_windows(lo + self.window, (k - 1) as nat)
        }
    }

    /// The output shares held by the interval's windows, in window order.
    pub open spec fn spec_shares_in(self, iv: Interval) -> Seq<A> {
        self.spec_shares_in_windows(
            iv.start.0 as int,
            (iv.duration.0 as int / self.window as int) as nat,
        )
    }

    /// The number of verified reports whose windows lie in the interval.
    pub open spec fn spec_count_in(self, iv: Interval) -> int {
        self.spec_count_windows(
            iv.start.0 as int,
            (iv.duration.0 as int / self.window as int) as nat,
        )
    }

    /// A fresh batch state with no accumulators.
    pub fn new(window: u64) -> (s: BatchState<A>)
        requires
            window > 0,
        ensures
            s.wf(),
            s.window == window,
            s.accumulators@.len() == 0,
    {
        BatchState { window, accumulators: Vec::new() }
    }

    /// The start of the batch window holding instant `t`.
    pub fn window_of(&self, t: Time) -> (ws: u64)
        requires
            self.wf(),
        ensures
            ws as int == spec_window_of(self.window as int, t.0 as int),
            ws as int % self.window as int == 0,
            ws <= t.0,
    {
        let r = t.0 % self.window;
        proof {
            assert(t.0 % self.window <= t.0 && (t.0 - t.0 % self.window) as int % self.window as int
                == 0) by (nonlinear_arith)
                requires
                    self.window > 0,
            ;
        }
        t.0 - r
    }

    /// Looks up the accumulator at window start `ws`.
    pub(crate) fn find_index(&self, ws: u64) -> (r: Option<usize>)
        requires
            self.wf(),
        ensures
            match r {
                Some(i) => i < self.accumulators@.len() && self.accumulators@[i as int].start.0
                    == ws && self.spec_has_window(ws as int) && self.spec_acc_index(ws as int)
                    == i,
                None => !self.spec_has_window(ws as int),
            },
    {
        let mut i: usize = 0;
        while i < self.accumulators.len()
            invariant
                self.wf(),
                i <= self.accumulators@.len(),
                forall|j: int|
                    0 <= j < i ==> (#[trigger] self.accumulators@[j]).start.0 != ws,
            decreases self.accumulators@.len() - i,
        {
            if self.accumulators[i].start.0 == ws {
                proof {
                    self.lemma_acc_index(i as int, ws as int);
                }
                return Some(i);
            }
            i += 1;
        }
        None
    }

    /// The unique index holding window `ws` is the one the specs name.
    proof fn lemma_acc_index(self, i: int, ws: int)
        requires
            self.wf(),
            0 <= i < self.accumulators@.len(),
            self.accumulators@[i].start.0 == ws,
        ensures
            self.spec_has_window(ws),
            self.spec_acc_index(ws) == i,
    {
        assert(self.spec_has_window(ws));
        let j = self.spec_acc_index(ws);
        assert(0 <= j < self.accumulators@.len() && self.accumulators@[j].start.0 == ws);
    }

    /// The verified-report count of the window starting at `ws`.
    pub fn count_at(&self, ws: u64) -> (n: u64)
        requires
            self.wf(),
        ensures
            n as int == self.spec_count_at(ws as int),
    {
        match self.find_index(ws) {
            Some(i) => self.accumulators[i].count,
            None => 0,
        }
    }

    /// Whether a report at instant `t` is stale: its window already collected.
    pub fn is_stale(&self, t: Time) -> (b: bool)
        requires
            self.wf(),
        ensures
            b == self.spec_stale(t.0 as int),
    {
        let ws = self.window_of(t);
        match self.find_index(ws) {
            Some(i) => self.accumulators[i].collected,
            None => false,
        }
    }

    /// Whether the interval overlaps any window whose budget is spent.
    pub fn overlaps_collected(&self, iv: Interval) -> (b: bool)
        requires
            self.wf(),
        ensures
            b == self.spec_overlaps_collected(iv),
    {
        let mut i: usize = 0;
        while i < self.accumulators.len()
            invariant
                self.wf(),
                i <= self.accumulators@.len(),
                forall|j: int|
                    0 <= j < i ==> !((#[trigger] self.accumulators@[j]).collected
                        && iv.spec_contains(self.accumulators@[j].start.0 as int)),
            decreases self.accumulators@.len() - i,
        {
            if self.accumulators[i].collected && iv.contains(self.accumulators[i].start) {
                return true;
            }
            i += 1;
        }
        false
    }

    /// Folds one verified report's output share into its window.
    ///
    /// A report whose window is already collected is rejected as stale and
    /// nothing changes; otherwise the window's accumulator (created on first
    /// use) gains the share and its count rises by one.
    pub fn fold_verified_report(&mut self, t: Time, share: A) -> (r: Result<(), PpmError>)
        requires
            old(self).wf(),
        ensures
            final(self).wf(),
            final(self).window == old(self).window,
            r is Err <==> old(self).spec_stale(t.0 as int),
            r matches Err(e) ==> e == PpmError::StaleReport && *final(self) == *old(self),
            r is Ok ==> final(self).spec_has_window(
                spec_window_of(old(self).window as int, t.0 as int),
            ) && !final(self).spec_collected_at(
                spec_window_of(old(self).window as int, t.0 as int),
            ),
            r is Ok ==> final(self).spec_count_at(
                spec_window_of(old(self).window as int, t.0 as int),
            ) == old(self).spec_count_at(spec_window_of(old(self).window as int, t.0 as int)) + 1,
            r is Ok ==> final(self).spec_shares_at(
                spec_window_of(old(self).window as int, t.0 as int),
            ) == old(self).spec_shares_at(
                spec_window_of(old(self).window as int, t.0 as int),
            ).push(share),
            r is Ok ==> forall|w2: int|
                w2 != spec_window_of(old(self).window as int, t.0 as int)
                    ==> #[trigger] final(self).spec_count_at(w2) == old(self).spec_count_at(w2),
            r is Ok ==> forall|w2: int|
                w2 != spec_window_of(old(self).window as int, t.0 as int)
                    ==> #[trigger] final(self).spec_collected_at(w2) == old(
                    self,
                ).spec_collected_at(w2),
            r is Ok ==> forall|w2: int|
                w2 != spec_window_of(old(self).window as int, t.0 as int)
                    ==> #[trigger] final(self).spec_has_window(w2) == old(self).spec_has_window(
                    w2,
                ),
    {
        let ws = self.window_of(t);
        let ghost pre = *self;
        match self.find_index(ws) {
            Some(i) => {
                if self.accumulators[i].collected {
                    return Err(PpmError::StaleReport);
                }
                let acc = &mut self.accumulators[i];
                acc.shares.push(share);
                acc.count = acc.shares.len() as u64;
                proof {
                    assert(self.accumulators@ =~= pre.accumulators@.update(
                        i as int,
                        self.accumulators@[i as int],
                    ));
                    assert(self.wf());
                    self.lemma_acc_index(i as int, ws as int);
                    assert(self.spec_shares_at(ws as int) =~= pre.spec_shares_at(ws as int).push(
                        share,
                    ));
                    assert(self.spec_shares_at(ws as int) == pre.spec_shares_at(ws as int).push(
                        share,
                    ));
                    assert forall|w2: int|
                        w2 != spec_window_of(old(self).window as int, t.0 as int) implies (
                    #[trigger] self.spec_count_at(w2)) == old(self).spec_count_at(w2) by {
                        self.lemma_window_views_agree(*old(self), w2);
                    }
                    assert forall|w2: int|
                        w2 != spec_window_of(old(self).window as int, t.0 as int) implies (
                    #[trigger] self.spec_collected_at(w2)) == old(self).spec_collected_at(w2) by {
                        self.lemma_window_views_agree(*old(self), w2);
                    }
                    assert forall|w2: int|
                        w2 != spec_window_of(old(self).window as int, t.0 as int) implies (
                    #[trigger] self.spec_has_window(w2)) == old(self).spec_has_window(w2) by {
                        self.lemma_window_views_agree(*old(self), w2);
                    }
                }
                Ok(())
            },
            None => {
                self.accumulators.push(
                    Accumulator { start: Time(ws), count: 1, shares: vec_of_one(share), collected: false },
                );
                proof {
                    let n = pre.accumulators@.len() as int;
                    assert forall|j: int| 0 <= j < n implies (
                    #[trigger] pre.accumulators@[j]).start.0 != ws by {
                        if pre.accumulators@[j].start.0 == ws {
                            assert(pre.spec_has_window(ws as int));
                        }
                    }
                    assert(self.wf());
                    self.lemma_acc_index(n, ws as int);
                    assert(self.spec_shares_at(ws as int) =~= pre.spec_shares_at(ws as int).push(
                        share,
                    ));
                    assert(self.spec_shares_at(ws as int) == pre.spec_shares_at(ws as int).push(
                        share,
                    ));
                    assert forall|w2: int|
                        w2 != spec_window_of(old(self).window as int, t.0 as int) implies (
                    #[trigger] self.spec_count_at(w2)) == old(self).spec_count_at(w2) by {
                        self.lemma_window_views_agree(*old(self), w2);
                    }
                    assert forall|w2: int|
                        w2 != spec_window_of(old(self).window as int, t.0 as int) implies (
                    #[trigger] self.spec_collected_at(w2)) == old(self).spec_collected_at(w2) by {
                        self.lemma_window_views_agree(*old(self), w2);
                    }
                    assert forall|w2: int|
                        w2 != spec_window_of(old(self).window as int, t.0 as int) implies (
                    #[trigger] self.spec_has_window(w2)) == old(self).spec_has_window(w2) by {
                        self.lemma_window_views_agree(*old(self), w2);
                    }
                }
                Ok(())
            },
        }
    }

    /// Two states whose accumulators agree at a window's index agree on that
    /// window's per-window views.
    proof fn lemma_window_views_agree(self, other: BatchState<A>, ws: int)
        requires
            self.wf(),
            other.wf(),
            forall|i: int|
                0 <= i < self.accumulators@.len() && (#[trigger] self.accumulators@[i]).start.0
                    == ws ==> i < other.accumulators@.len() && other.accumulators@[i]
                    == self.accumulators@[i],
            forall|i: int|
                0 <= i < other.accumulators@.len() && (#[trigger] other.accumulators@[i]).start.0
                    == ws ==> i < self.accumulators@.len() && self.accumulators@[i]
                    == other.accumulators@[i],
        ensures
            self.spec_has_window(ws) == other.spec_has_window(ws),
            self.spec_count_at(ws) == other.spec_count_at(ws),
            self.spec_collected_at(ws) == other.spec_collected_at(ws),
            self.spec_shares_at(ws) == other.spec_shares_at(ws),
    {
        if self.spec_has_window(ws) {
            let i = self.spec_acc_index(ws);
            assert(0 <= i < self.accumulators@.len() && self.accumulators@[i].start.0 == ws);
            other.lemma_acc_index(i, ws);
            self.lemma_acc_index(i, ws);
        } else if other.spec_has_window(ws) {
            let i = other.spec_acc_index(ws);
            assert(0 <= i < other.accumulators@.len() && other.accumulators@[i].start.0 == ws);
            self.lemma_acc_index(i, ws);
        }
    }
}

impl<A> BatchState<A> {
    /// If a window inside the interval is collected, the interval overlaps
    /// spent budget.
    pub proof fn lemma_collected_window_overlaps(self, iv: Interval, ws: int)
        requires
            self.wf(),
            iv.spec_contains(ws),
            self.spec_collected_at(ws),
        ensures
            self.spec_overlaps_collected(iv),
    {
        let i = self.spec_acc_index(ws);
        assert(0 <= i < self.accumulators@.len() && self.accumulators@[i].start.0 == ws);
        assert(self.accumulators@[i].collected && iv.spec_contains(
            self.accumulators@[i].start.0 as int,
        ));
    }

    /// Counts the verified reports whose windows lie in the interval.
    pub fn count_in(&self, iv: Interval) -> (n: u128)
        requires
            self.wf(),
            iv.spec_end() <= u64::MAX,
        ensures
            n as int == self.spec_count_in(iv),
    {
        let k_total: u64 = iv.duration.0 / self.window;
        proof {
            assert(k_total * self.window <= iv.duration.0) by (nonlinear_arith)
                requires
                    self.window > 0,
                    k_total == iv.duration.0 as int / self.window as int,
            ;
        }
        let mut partial: u128 = 0;
        let mut ws: u64 = iv.start.0;
        let mut k: u64 = k_total;
        while k > 0
            invariant
                self.wf(),
                k <= k_total,
                k_total <= u64::MAX,
                ws as int + k as int * self.window as int <= iv.start.0 as int
                    + iv.duration.0 as int <= u64::MAX,
                partial as int + self.spec_count_windows(ws as int, k as nat)
                    == self.spec_count_in(iv),
                partial as int <= (k_total - k) as int * (u64::MAX as int),
            decreases k,
        {
            proof {
                assert(ws as int + self.window as int <= ws as int + k as int
                    * self.window as int) by (nonlinear_arith)
                    requires
                        k >= 1,
                        self.window > 0,
                ;
            }
            let c = self.count_at(ws);
            proof {
                assert(partial as int + c as int <= (k_total - k + 1) as int * (u64::MAX as int)
                    && (k_total - k + 1) as int * (u64::MAX as int) + u64::MAX <= u128::MAX
                    && (ws + self.window) as int + (k - 1) as int * self.window as int == ws as int
                    + k as int * self.window as int) by (nonlinear_arith)
                    requires
                        partial as int <= (k_total - k) as int * (u64::MAX as int),
                        c <= u64::MAX,
                        0 < k <= k_total <= u64::MAX,
                        self.window > 0,
                        ws + self.window <= u64::MAX,
                ;
            }
            partial = partial + c as u128;
            ws = ws + self.window;
            k = k - 1;
        }
        partial
    }

    /// Spends the interval's one-shot budget: marks every window it covers as
    /// collected (creating empty collected accumulators for windows that never
    /// saw a report) and takes out the output shares folded into them. Counts
    /// are retained; windows outside the interval are untouched.
    pub fn collect_windows(&mut self, iv: Interval) -> (taken: Vec<A>)
        requires
            old(self).wf(),
            iv.spec_aligned(old(self).window as int),
            !old(self).spec_overlaps_collected(iv),
        ensures
            final(self).wf(),
            final(self).window == old(self).window,
            taken@.len() == old(self).spec_count_in(iv),
            forall|w2: int|
                iv.spec_contains(w2) && w2 % old(self).window as int == 0
                    ==> #[trigger] final(self).spec_collected_at(w2),
            forall|w2: int|
                #[trigger] final(self).spec_count_at(w2) == old(self).spec_count_at(w2),
            forall|w2: int|
                !iv.spec_contains(w2) ==> #[trigger] final(self).spec_collected_at(w2) == old(
                    self,
                ).spec_collected_at(w2),
            forall|w2: int|
                !iv.spec_contains(w2) ==> #[trigger] final(self).spec_has_window(w2) == old(
                    self,
                ).spec_has_window(w2),
    {
        let k_total: u64 = iv.duration.0 / self.window;
        proof {
            assert(k_total * self.window == iv.duration.0) by (nonlinear_arith)
                requires
                    self.window > 0,
                    iv.duration.0 as int % self.window as int == 0,
                    k_total == iv.duration.0 as int / self.window as int,
            ;
        }
        let mut taken: Vec<A> = Vec::new();
        let mut ws: u64 = iv.start.0;
        let mut k: u64 = k_total;
        let ghost orig = *self;
        while k > 0
            invariant
                self.wf(),
                self.window == orig.window,
                orig.wf(),
                iv.spec_aligned(orig.window as int),
                !orig.spec_overlaps_collected(iv),
                k <= k_total,
                iv.start.0 <= ws,
                ws as int % self.window as int == 0,
                ws as int + k as int * self.window as int == iv.spec_end(),
                iv.spec_end() <= u64::MAX,
                taken@.len() as int + orig.spec_count_windows(ws as int, k as nat)
                    == orig.spec_count_in(iv),
                forall|w2: int|
                    #[trigger] self.spec_count_at(w2) == orig.spec_count_at(w2),
                forall|w2: int|
                    iv.start.0 <= w2 < ws && w2 % orig.window as int == 0
                        ==> #[trigger] self.spec_collected_at(w2),
                forall|w2: int|
                    !(iv.start.0 <= w2 < ws) ==> #[trigger] self.spec_collected_at(w2)
                        == orig.spec_collected_at(w2),
                forall|w2: int|
                    !(iv.start.0 <= w2 < ws) ==> #[trigger] self.spec_has_window(w2)
                        == orig.spec_has_window(w2),
            decreases k,
        {
            proof {
                assert(ws as int + self.window as int <= ws as int + k as int
                    * self.window as int && (ws + self.window) as int + (k - 1) as int
                    * self.window as int == ws as int + k as int * self.window as int
                    && (ws as int + self.window as int) % self.window as int == 0)
                    by (nonlinear_arith)
                    requires
                        k >= 1,
                        self.window > 0,
                        ws as int % self.window as int == 0,
                        ws as int + k as int * self.window as int <= u64::MAX,
                ;
            }
            let ghost prev = *self;
            match self.find_index(ws) {
                Some(i) => {
                    proof {
                        if prev.spec_collected_at(ws as int) {
                            orig.lemma_collected_window_overlaps(iv, ws as int);
                        }
                    }
                    let acc = &mut self.accumulators[i];
                    acc.collected = true;
                    taken.append(&mut acc.shares);
                    proof {
                        assert(self.accumulators@ =~= prev.accumulators@.update(
                            i as int,
                            self.accumulators@[i as int],
                        ));
                        assert(self.wf());
                        self.lemma_acc_index(i as int, ws as int);
                        assert(self.spec_count_at(ws as int) == prev.spec_count_at(ws as int));
                        assert(self.spec_collected_at(ws as int));
                    }
                },
                None => {
                    self.accumulators.push(
                        Accumulator {
                            start: Time(ws),
                            count: 0,
                            shares: Vec::new(),
                            collected: true,
                        },
                    );
                    proof {
                        let n = prev.accumulators@.len() as int;
                        assert forall|j: int| 0 <= j < n implies (
                        #[trigger] prev.accumulators@[j]).start.0 != ws by {
                            if prev.accumulators@[j].start.0 == ws {
                                assert(prev.spec_has_window(ws as int));
                            }
                        }
                        assert(self.wf());
                        self.lemma_acc_index(n, ws as int);
                        assert(self.spec_count_at(ws as int) == 0 && prev.spec_count_at(ws as int)
                            == 0);
                        assert(self.spec_collected_at(ws as int));
                    }
                },
            }
            proof {
                assert forall|w2: int| w2 != ws implies (#[trigger] self.spec_count_at(w2))
                    == prev.spec_count_at(w2) by {
                    self.lemma_window_views_agree(prev, w2);
                }
                assert forall|w2: int| w2 != ws implies (#[trigger] self.spec_collected_at(w2))
                    == prev.spec_collected_at(w2) by {
                    self.lemma_window_views_agree(prev, w2);
                }
                assert forall|w2: int| w2 != ws implies (#[trigger] self.spec_has_window(w2))
                    == prev.spec_has_window(w2) by {
                    self.lemma_window_views_agree(prev, w2);
                }
                assert(prev.spec_count_at(ws as int) == orig.spec_count_at(ws as int));
                assert forall|w2: int| #[trigger] self.spec_count_at(w2) == orig.spec_count_at(
                    w2,
                ) by {
                    if w2 != ws {
                        assert(self.spec_count_at(w2) == prev.spec_count_at(w2));
                        assert(prev.spec_count_at(w2) == orig.spec_count_at(w2));
                    }
                }
                assert forall|w2: int| !(iv.start.0 <= w2 < ws + self.window) implies (
                #[trigger] self.spec_collected_at(w2)) == orig.spec_collected_at(w2) by {
                    assert(self.spec_collected_at(w2) == prev.spec_collected_at(w2));
                    assert(prev.spec_collected_at(w2) == orig.spec_collected_at(w2));
                }
                assert forall|w2: int| !(iv.start.0 <= w2 < ws + self.window) implies (
                #[trigger] self.spec_has_window(w2)) == orig.spec_has_window(w2) by {
                    assert(self.spec_has_window(w2) == prev.spec_has_window(w2));
                    assert(prev.spec_has_window(w2) == orig.spec_has_window(w2));
                }
                assert forall|w2: int|
                    iv.start.0 <= w2 < ws + self.window && w2 % orig.window as int == 0 implies (
                #[trigger] self.spec_collected_at(w2)) by {
                    if w2 != ws {
                        assert(!(ws < w2 < ws as int + self.window as int)) by (nonlinear_arith)
                            requires
                                ws as int % self.window as int == 0,
                                w2 % self.window as int == 0,
                                self.window > 0,
                                w2 != ws as int,
                        ;
                        assert(w2 < ws);
                        assert(prev.spec_collected_at(w2));
                        assert(self.spec_collected_at(w2) == prev.spec_collected_at(w2));
                    }
                }
                assert(taken@.len() as int + orig.spec_count_windows(
                    ws as int + self.window as int,
                    (k - 1) as nat,
                ) == orig.spec_count_in(iv));
            }
            ws = ws + self.window;
            k = k - 1;
        }
        proof {
            assert(ws as int == iv.spec_end()) by (nonlinear_arith)
                requires
                    ws as int + k as int * self.window as int == iv.spec_end(),
                    k == 0,
            ;
        }
        taken
    }
}

/// Whether the `k` windows `lo, lo + w, ...` include the window start `ws`.
pub open spec fn spec_range_steps_on(lo: int, k: nat, w: int, ws: int) -> bool
    decreases k,
{
    if k == 0 {
        false
    } else {
        lo == ws || spec_range_steps_on(lo + w, (k - 1) as nat, w, ws)
    }
}

/// A window the range steps on lies at or after the range's start.
proof fn lemma_steps_on_lower_bound(lo: int, k: nat, w: int, ws: int)
    requires
        w > 0,
        spec_range_steps_on(lo, k, w, ws),
    ensures
        ws >= lo,
    decreases k,
{
    if k > 0 && lo != ws {
        lemma_steps_on_lower_bound(lo + w, (k - 1) as nat, w, ws);
    }
}

/// A window the range steps on lies less than `k` windows beyond its start.
proof fn lemma_steps_on_upper_bound(lo: int, k: nat, w: int, ws: int)
    requires
        w > 0,
        spec_range_steps_on(lo, k, w, ws),
    ensures
        ws - lo < k * w,
    decreases k,
{
    if lo == ws {
        assert(0 < k * w) by (nonlinear_arith)
            requires
                w > 0,
                k >= 1,
        ;
    } else {
        lemma_steps_on_upper_bound(lo + w, (k - 1) as nat, w, ws);
        assert(ws - lo < k * w) by (nonlinear_arith)
            requires
                ws - (lo + w) < (k - 1) as int * w,
        ;
    }
}

/// The range of `k` windows from `lo` steps on every aligned `ws` less than
/// `k` windows beyond it.
proof fn lemma_steps_on_member(lo: int, k: nat, w: int, ws: int)
    requires
        w > 0,
        lo <= ws,
        (ws - lo) % w == 0,
        ws - lo < k * w,
    ensures
        spec_range_steps_on(lo, k, w, ws),
    decreases k,
{
    assert(k > 0) by (nonlinear_arith)
        requires
            w > 0,
            0 <= ws - lo < k * w,
    ;
    if lo != ws {
        assert(ws - lo >= w && (ws - (lo + w)) % w == 0 && ws - (lo + w) < (k - 1) * w)
            by (nonlinear_arith)
            requires
                w > 0,
                lo < ws || lo == ws,
                lo != ws,
                lo <= ws,
                (ws - lo) % w == 0,
                ws - lo < k * w,
                k >= 1,
        ;
        lemma_steps_on_member(lo + w, (k - 1) as nat, w, ws);
    }
}

/// Counting over a range of windows sees only the per-window counts: if one
/// state differs from another by `d` at window `ws` and nowhere else, the
/// range count differs by `d` exactly when the range steps on `ws`.
proof fn lemma_count_windows_delta<A>(
    a: BatchState<A>,
    b: BatchState<A>,
    lo: int,
    k: nat,
    ws: int,
    d: int,
)
    requires
        a.window == b.window,
        a.window > 0,
        b.spec_count_at(ws) == a.spec_count_at(ws) + d,
        forall|w2: int| w2 != ws ==> #[trigger] b.spec_count_at(w2) == a.spec_count_at(w2),
    ensures
        b.spec_count_windows(lo, k) == a.spec_count_windows(lo, k) + (if spec_range_steps_on(
            lo,
            k,
            a.window as int,
            ws,
        ) {
            d
        } else {
            0
        }),
    decreases k,
{
    if k > 0 {
        lemma_count_windows_delta(a, b, lo + a.window, (k - 1) as nat, ws, d);
        if lo == ws {
            if spec_range_steps_on(lo + a.window, (k - 1) as nat, a.window as int, ws) {
                lemma_steps_on_lower_bound(lo + a.window, (k - 1) as nat, a.window as int, ws);
            }
        }
    }
}

/// Counts accumulate one report at a time: folding one verified report whose
/// time falls inside an aligned interval raises that interval's verified
/// count by exactly one, and folding one outside leaves it unchanged. So N
/// verified reports inside a collected interval are counted as exactly N.
pub proof fn lemma_fold_raises_count_in<A>(
    pre: BatchState<A>,
    post: BatchState<A>,
    t: int,
    iv: Interval,
)
    requires
        pre.window == post.window,
        pre.window > 0,
        0 <= t,
        iv.spec_aligned(pre.window as int),
        post.spec_count_at(spec_window_of(pre.window as int, t)) == pre.spec_count_at(
            spec_window_of(pre.window as int, t),
        ) + 1,
        forall|w2: int|
            w2 != spec_window_of(pre.window as int, t) ==> #[trigger] post.spec_count_at(w2)
                == pre.spec_count_at(w2),
    ensures
        iv.spec_contains(t) ==> post.spec_count_in(iv) == pre.spec_count_in(iv) + 1,
        !iv.spec_contains(t) ==> post.spec_count_in(iv) == pre.spec_count_in(iv),
{
    let w = pre.window as int;
    let lo = iv.start.0 as int;
    let ws = spec_window_of(w, t);
    let k = (iv.duration.0 as int / w) as nat;
    assert(k * w == iv.duration.0 as int) by (nonlinear_arith)
        requires
            w > 0,
            iv.duration.0 as int % w == 0,
            k == iv.duration.0 as int / w,
    ;
    lemma_count_windows_delta(pre, post, lo, k, ws, 1);
    assert(ws % w == 0 && ws <= t < ws + w) by (nonlinear_arith)
        requires
            w > 0,
            0 <= t,
            ws == t - t % w,
    ;
    if iv.spec_contains(t) {
        assert(lo <= ws) by (nonlinear_arith)
            requires
                w > 0,
                lo % w == 0,
                lo <= t,
                ws == t - t % w,
        ;
        vstd::arithmetic::div_mod::lemma_sub_mod_noop(ws, lo, w);
        assert((ws - lo) % w == 0) by (nonlinear_arith)
            requires
                w > 0,
                ((ws % w) - (lo % w)) % w == (ws - lo) % w,
                lo % w == 0,
                ws % w == 0,
        ;
        lemma_steps_on_member(lo, k, w, ws);
    } else {
        if spec_range_steps_on(lo, k, w, ws) {
            lemma_steps_on_lower_bound(lo, k, w, ws);
            lemma_steps_on_upper_bound(lo, k, w, ws);
            vstd::arithmetic::div_mod::lemma_sub_mod_noop(ws, lo, w);
            assert((ws - lo) % w == 0) by (nonlinear_arith)
                requires
                    w > 0,
                    ((ws % w) - (lo % w)) % w == (ws - lo) % w,
                    lo % w == 0,
                    ws % w == 0,
            ;
            assert(ws - lo + w <= k * w) by (nonlinear_arith)
                requires
                    w > 0,
                    (ws - lo) % w == 0,
                    ws - lo < k * w,
            ;
            assert(lo <= t < lo + k * w);
            assert(iv.spec_contains(t));
        }
    }
}

/// A vector holding exactly one element.
fn vec_of_one<A>(x: A) -> (v: Vec<A>)
    ensures
        v@ =~= seq![x],
{
    let mut v: Vec<A> = Vec::new();
    v.push(x);
    v
}

} // verus!
