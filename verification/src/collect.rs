//! The collector workflow.
//!
//! A collect request against the leader validates the interval's alignment,
//! enforces the one-shot privacy budget, checks that both aggregators hold
//! enough verified reports, combines the two partial aggregate shares into
//! the decoded sum, and only then — atomically with respect to the checks —
//! spends the interval's budget on both aggregators.

use vstd::prelude::*;

use crate::aggregator::Aggregator;
use crate::batch::BatchState;
use crate::problem::{problem_document, PpmError, ProblemDocument};
use crate::vdaf::{vdaf_aggregate, vdaf_unshard, SumOutputShare, SumVdaf};
use crate::Interval;

verus! {

/// The decoded aggregate sum a successful collect returns.
#[derive(Clone, Copy, Debug, PartialEq, Eq, Structural)]
pub struct AggregateResult(pub u64);

/// A collect failure: either a problem document for the collector, or an
/// internal aggregation failure that leaves the budget unspent.
#[derive(Clone, Debug, PartialEq, Eq)]
pub enum CollectError {
    ProblemDocument(ProblemDocument),
    Aggregation,
}

/// Which check a collect request fails, in the order the workflow applies
/// them: interval alignment first, then the one-shot privacy budget, then
/// the minimum batch size on either aggregator; `None` when all pass.
pub open spec fn spec_collect_check<A>(
    leader: BatchState<A>,
    helper: BatchState<A>,
    batch_size: int,
    iv: Interval,
) -> Option<PpmError> {
    if !iv.spec_aligned(leader.window as int) {
        Some(PpmError::InvalidBatchInterval)
    } else if leader.spec_overlaps_collected(iv) || helper.spec_overlaps_collected(iv) {
        Some(PpmError::PrivacyBudgetExceeded)
    } else if leader.spec_count_in(iv) < batch_size || helper.spec_count_in(iv) < batch_size {
        Some(PpmError::InsufficientBatchSize)
    } else {
        None
    }
}

impl BatchState<SumOutputShare> {
    /// Clones the output shares of every window inside the interval without
    /// changing anything: exactly the shares the interval's windows hold, in
    /// window order. Used to combine an aggregate before the budget is
    /// spent, so a failed combination leaves the state untouched.
    pub fn cloned_shares_in(&self, iv: Interval) -> (r: Vec<SumOutputShare>)
        requires
            self.wf(),
            iv.spec_aligned(self.window as int),
            !self.spec_overlaps_collected(iv),
        ensures
            r@ == self.spec_shares_in(iv),
            r@.len() == self.spec_count_in(iv),
    {
        let k_total: u64 = iv.duration.0 / self.window;
        proof {
            assert(k_total * self.window == iv.duration.0 && k_total >= 1) by (nonlinear_arith)
                requires
                    self.window > 0,
                    iv.duration.0 as int % self.window as int == 0,
                    iv.duration.0 >= self.window,
                    k_total == iv.duration.0 as int / self.window as int,
            ;
        }
        let mut r: Vec<SumOutputShare> = Vec::new();
        let mut ws: u64 = iv.start.0;
        let mut k: u64 = k_total;
        while k > 0
            invariant
                self.wf(),
                iv.spec_aligned(self.window as int),
                !self.spec_overlaps_collected(iv),
                iv.start.0 <= ws,
                ws as int + k as int * self.window as int <= iv.spec_end() <= u64::MAX,
                iv.spec_contains(ws as int) || k == 0,
                r@ + self.spec_shares_in_windows(ws as int, k as nat) == self.spec_shares_in(iv),
                r@.len() as int + self.spec_count_windows(ws as int, k as nat)
                    == self.spec_count_in(iv),
            decreases k,
        {
            proof {
                assert(ws as int + self.window as int <= ws as int + k as int
                    * self.window as int && (ws + self.window) as int + (k - 1) as int
                    * self.window as int == ws as int + k as int * self.window as int)
                    by (nonlinear_arith)
                    requires
                        k >= 1,
                        self.window > 0,
                ;
            }
            let ghost r_base = r@;
            match self.find_index(ws) {
                Some(i) => {
                    proof {
                        if self.spec_collected_at(ws as int) {
                            self.lemma_collected_window_overlaps(iv, ws as int);
                        }
                        assert(self.accumulators@[i as int].count
                            == self.accumulators@[i as int].shares@.len());
                    }
                    let acc = &self.accumulators[i];
                    let m = acc.shares.len();
                    let mut j: usize = 0;
                    while j < m
                        invariant
                            j <= m,
                            m == acc.shares@.len(),
                            r@ == r_base + acc.shares@.take(j as int),
                        decreases m - j,
                    {
                        r.push(acc.shares[j].clone());
                        proof {
                            assert(r@ =~= r_base + acc.shares@.take(j as int + 1));
                        }
                        j += 1;
                    }
                    proof {
                        assert(acc.shares@.take(m as int) =~= acc.shares@);
                        assert(r@ =~= r_base + self.spec_shares_at(ws as int));
                    }
                },
                None => {
                    proof {
                        assert(self.spec_shares_at(ws as int) =~= Seq::<SumOutputShare>::empty());
                        assert(r@ =~= r_base + self.spec_shares_at(ws as int));
                    }
                },
            }
            proof {
                assert(r@ + self.spec_shares_in_windows(ws as int + self.window as int, (k
                    - 1) as nat) =~= (r_base + self.spec_shares_at(ws as int))
                    + self.spec_shares_in_windows(ws as int + self.window as int, (k - 1) as nat));
                assert((r_base + self.spec_shares_at(ws as int)) + self.spec_shares_in_windows(
                    ws as int + self.window as int,
                    (k - 1) as nat,
                ) =~= r_base + self.spec_shares_in_windows(ws as int, k as nat));
            }
            ws = ws + self.window;
            k = k - 1;
            proof {
                if k > 0 {
                    assert(ws as int + self.window as int <= ws as int + k as int
                        * self.window as int) by (nonlinear_arith)
                        requires
                            k >= 1,
                            self.window as int > 0,
                    ;
                    assert(iv.spec_contains(ws as int));
                }
            }
        }
        proof {
            assert(r@ + self.spec_shares_in_windows(ws as int, 0) =~= r@);
        }
        r
    }
}

/// Handles one collect request against the leader. Exactly the failing
/// check of `spec_collect_check` is reported as a problem document naming
/// the collect endpoint; on success both aggregators' windows inside the
/// interval are marked collected, so the interval's budget is spent at most
/// once, and every report in it is thereafter stale. A failed internal
/// combination leaves both aggregators untouched.
pub fn run_collect(
    leader: &mut Aggregator,
    helper: &mut Aggregator,
    vdaf: &SumVdaf,
    iv: Interval,
) -> (r: Result<AggregateResult, CollectError>)
    requires
        old(leader).wf(),
        old(helper).wf(),
        old(leader).batch.window == old(helper).batch.window,
    ensures
        final(leader).wf(),
        final(helper).wf(),
        final(leader).same_identity(*old(leader)),
        final(helper).same_identity(*old(helper)),
        final(leader).batch.window == old(leader).batch.window,
        final(helper).batch.window == old(helper).batch.window,
        final(leader).pending@ == old(leader).pending@,
        final(helper).pending@ == old(helper).pending@,
        r matches Err(CollectError::ProblemDocument(d)) ==> spec_collect_check(
            old(leader).batch,
            old(helper).batch,
            old(leader).batch_size as int,
            iv,
        ) matches Some(e) && (d.type_url matches Some(u) && u@ == e.spec_type_url()) && d.status
            == Some(400u16) && (d.instance matches Some(s) && s@ == "collect"@),
        r is Err ==> *final(leader) == *old(leader) && *final(helper) == *old(helper),
        r matches Err(CollectError::Aggregation) ==> spec_collect_check(
            old(leader).batch,
            old(helper).batch,
            old(leader).batch_size as int,
            iv,
        ) is None,
        r is Ok ==> spec_collect_check(
            old(leader).batch,
            old(helper).batch,
            old(leader).batch_size as int,
            iv,
        ) is None,
        spec_collect_check(
            old(leader).batch,
            old(helper).batch,
            old(leader).batch_size as int,
            iv,
        ) matches Some(e) ==> r matches Err(CollectError::ProblemDocument(d)) && d.type_url
            matches Some(u) && u@ == e.spec_type_url(),
        r is Ok ==> forall|w2: int|
            iv.spec_contains(w2) && w2 % old(leader).batch.window as int == 0 ==> (
            #[trigger] final(leader).batch.spec_collected_at(w2)) && final(helper).batch.spec_collected_at(w2),
        r is Ok ==> forall|w2: int|
            (#[trigger] final(leader).batch.spec_count_at(w2)) == old(leader).batch.spec_count_at(w2) && final(helper).batch.spec_count_at(w2) == old(helper).batch.spec_count_at(w2),
        r is Ok ==> forall|w2: int|
            !iv.spec_contains(w2) ==> (#[trigger] final(leader).batch.spec_collected_at(w2))
                == old(leader).batch.spec_collected_at(w2) && final(helper).batch.spec_collected_at(w2) == old(helper).batch.spec_collected_at(w2),
{
    let window = leader.batch.window;
    if !iv.aligned(window) {
        return Err(
            CollectError::ProblemDocument(problem_document(PpmError::InvalidBatchInterval, "collect")),
        );
    }
    if leader.batch.overlaps_collected(iv) || helper.batch.overlaps_collected(iv) {
        return Err(
            CollectError::ProblemDocument(problem_document(PpmError::PrivacyBudgetExceeded, "collect")),
        );
    }
    let leader_count = leader.batch.count_in(iv);
    let helper_count = helper.batch.count_in(iv);
    if leader_count < leader.batch_size as u128 || helper_count < leader.batch_size as u128 {
        return Err(
            CollectError::ProblemDocument(problem_document(PpmError::InsufficientBatchSize, "collect")),
        );
    }

    let leader_shares = leader.batch.cloned_shares_in(iv);
    let helper_shares = helper.batch.cloned_shares_in(iv);
    let num_measurements = leader_shares.len();

    let leader_agg = match vdaf_aggregate(vdaf, leader_shares) {
        Ok(a) => a,
        Err(_) => {
            return Err(CollectError::Aggregation);
        },
    };
    let helper_agg = match vdaf_aggregate(vdaf, helper_shares) {
        Ok(a) => a,
        Err(_) => {
            return Err(CollectError::Aggregation);
        },
    };
    let sum = match vdaf_unshard(vdaf, leader_agg, helper_agg, num_measurements) {
        Ok(s) => s,
        Err(_) => {
            return Err(CollectError::Aggregation);
        },
    };

    let _leader_taken = leader.batch.collect_windows(iv);
    let _helper_taken = helper.batch.collect_windows(iv);
    Ok(AggregateResult(sum))
}

/// The privacy budget is one-shot. Once a collect has spent an interval's
/// budget — every window it covers is marked collected — any further
/// collect whose aligned interval overlaps it fails the budget check, and
/// with it, before the batch size is even considered.
pub proof fn lemma_budget_is_one_shot<A>(
    leader: BatchState<A>,
    helper: BatchState<A>,
    batch_size: int,
    iv1: Interval,
    iv2: Interval,
)
    requires
        leader.wf(),
        iv1.spec_aligned(leader.window as int),
        iv2.spec_aligned(leader.window as int),
        iv1.start.0 < iv2.spec_end() && iv2.start.0 < iv1.spec_end(),
        forall|ws: int|
            iv1.spec_contains(ws) && ws % leader.window as int == 0
                ==> #[trigger] leader.spec_collected_at(ws),
    ensures
        spec_collect_check(leader, helper, batch_size, iv2) == Some(
            PpmError::PrivacyBudgetExceeded,
        ),
{
    let w = if iv1.start.0 >= iv2.start.0 {
        iv1.start.0 as int
    } else {
        iv2.start.0 as int
    };
    assert(iv1.spec_contains(w) && iv2.spec_contains(w));
    assert(w % leader.window as int == 0);
    assert(leader.spec_collected_at(w));
    leader.lemma_collected_window_overlaps(iv2, w);
}

/// Staleness after collection: once a collect has spent an interval's
/// budget, every report whose time falls inside the interval is stale on
/// that aggregator and is refused at upload.
pub proof fn lemma_stale_after_collect<A>(s: BatchState<A>, iv: Interval, t: int)
    requires
        s.wf(),
        iv.spec_aligned(s.window as int),
        iv.spec_contains(t),
        forall|ws: int|
            iv.spec_contains(ws) && ws % s.window as int == 0 ==> #[trigger] s.spec_collected_at(
                ws,
            ),
    ensures
        s.spec_stale(t),
{
    let w = s.window as int;
    let ws = crate::batch::spec_window_of(w, t);
    assert(ws % w == 0 && ws <= t < ws + w && iv.start.0 <= ws) by (nonlinear_arith)
        requires
            w > 0,
            iv.start.0 as int % w == 0,
            iv.start.0 <= t,
            ws == t - t % w,
    ;
    assert(iv.spec_contains(ws));
    assert(s.spec_collected_at(ws));
}

/// Tamper tolerance ends in an undersized batch: reports dropped by failed
/// verification are never folded, so an otherwise valid interval into which
/// nothing was folded fails with insufficientBatchSize — the very error an
/// honestly undersized batch gets, with no distinct bad-proof signal.
pub proof fn lemma_tampered_batch_is_undersized<A>(
    leader: BatchState<A>,
    helper: BatchState<A>,
    batch_size: int,
    iv: Interval,
)
    requires
        iv.spec_aligned(leader.window as int),
        !leader.spec_overlaps_collected(iv),
        !helper.spec_overlaps_collected(iv),
        leader.spec_count_in(iv) == 0,
        batch_size >= 1,
    ensures
        spec_collect_check(leader, helper, batch_size, iv) == Some(
            PpmError::InsufficientBatchSize,
        ),
{
}

} // verus!
