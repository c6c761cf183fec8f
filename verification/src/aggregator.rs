//! One aggregator's state and request handling.
//!
//! The leader ingests uploaded reports, rejecting stale ones; the
//! verification exchange then decrypts each side's input share, runs the
//! one-round proof check between leader and helper, and folds verified
//! output shares into both aggregators' batch accumulators. A report that
//! fails decryption, decoding or proof verification on either side is
//! silently dropped, indistinguishable from one never submitted.

use vstd::prelude::*;

use crate::batch::{spec_window_of, BatchState};
use crate::hpke_transport;
use crate::hpke_transport::{hpke_open_result, spec_share_aad};
use crate::parameters::{Parameters, TaskId};
use crate::problem::{problem_document, PpmError, ProblemDocument};
use crate::upload::{task_id_bytes, task_id_equal, Report, NUM_AGGREGATORS};
use crate::vdaf::{
    decode_input_share, decode_public_share, vdaf_verifier_message, vdaf_verify_init,
    vdaf_verify_next, SumOutputShare, SumVdaf,
};
use crate::Role;

verus! {

/// One aggregator's per-task state: its role, the task's identity and
/// batching policy, its HPKE key material, the shared verification key, the
/// batch accumulators, and (on the leader) reports awaiting verification.
pub struct Aggregator {
    pub role: Role,
    pub task_id: TaskId,
    pub batch_size: u64,
    pub hpke_config: hpke_transport::Config,
    pub verify_key: [u8; 32],
    pub batch: BatchState<SumOutputShare>,
    pub pending: Vec<Report>,
}

impl Aggregator {
    /// Well-formedness: the accumulator state is well-formed and the task
    /// demands at least one report per batch.
    pub open spec fn wf(self) -> bool {
        &&& self.batch.wf()
        &&& self.batch_size > 0
    }

    /// Everything but the batch state and the pending queue is unchanged.
    pub open spec fn same_identity(self, other: Aggregator) -> bool {
        &&& self.role == other.role
        &&& self.task_id == other.task_id
        &&& self.batch_size == other.batch_size
        &&& self.hpke_config == other.hpke_config
        &&& self.verify_key == other.verify_key
    }

    /// Sets up one aggregator for a task, with no reports folded yet.
    pub fn new(
        role: Role,
        params: &Parameters,
        hpke_config: hpke_transport::Config,
        verify_key: [u8; 32],
    ) -> (a: Aggregator)
        requires
            params.wf(),
        ensures
            a.wf(),
            a.role == role,
            a.task_id@ == params.nonce@ + Seq::new(16, |i: int| 0u8),
            a.batch_size == params.batch_size,
            a.hpke_config == hpke_config,
            a.verify_key == verify_key,
            a.batch.window == params.batch_window.0,
            a.batch.accumulators@.len() == 0,
            a.pending@.len() == 0,
    {
        Aggregator {
            role,
            task_id: params.task_id(),
            batch_size: params.batch_size,
            hpke_config,
            verify_key,
            batch: BatchState::new(params.batch_window.0),
            pending: Vec::new(),
        }
    }

    /// The leader's upload endpoint. A report for another task is refused;
    /// a report whose time falls in an already-collected window is refused
    /// as stale; any other report is queued for verification. Failures are
    /// rendered as problem documents naming the upload endpoint.
    pub fn handle_upload(&mut self, report: Report) -> (r: Result<(), ProblemDocument>)
        requires
            old(self).wf(),
        ensures
            final(self).wf(),
            final(self).same_identity(*old(self)),
            final(self).batch == old(self).batch,
            r is Ok <==> (report.task_id@ == old(self).task_id@ && !old(self).batch.spec_stale(
                report.time.0 as int,
            )),
            r is Ok ==> final(self).pending@ == old(self).pending@.push(report),
            r is Err ==> final(self).pending@ == old(self).pending@,
            r matches Err(d) ==> d.status == Some(400u16) && (d.instance matches Some(i) && i@
                == "upload"@) && (d.type_url matches Some(u) && u@ == (if report.task_id@ != old(
                self,
            ).task_id@ {
                PpmError::UnrecognizedTask
            } else {
                PpmError::StaleReport
            }).spec_type_url()),
    {
        if !task_id_equal(&report.task_id, &self.task_id) {
            return Err(problem_document(PpmError::UnrecognizedTask, "upload"));
        }
        if self.batch.is_stale(report.time) {
            return Err(problem_document(PpmError::StaleReport, "upload"));
        }
        self.pending.push(report);
        Ok(())
    }
}

/// Runs the two-party verification exchange for one report and, when both
/// sides accept it, folds the two output shares into the leader's and the
/// helper's accumulators. Returns whether the report was folded. A report
/// is folded only when it is well-formed, names both aggregators' task, is
/// not stale on either side, both its shares decrypt under their target
/// configs, and prio's proof check accepts on both sides — that last,
/// outside decision is the one the contract does not name. A report that
/// fails any of these leaves both accumulators untouched: at the protocol
/// surface nothing distinguishes why.
pub fn verify_and_fold(
    leader: &mut Aggregator,
    helper: &mut Aggregator,
    vdaf: &SumVdaf,
    report: &Report,
) -> (folded: bool)
    requires
        old(leader).wf(),
        old(helper).wf(),
        old(leader).verify_key == old(helper).verify_key,
    ensures
        final(leader).wf(),
        final(helper).wf(),
        final(leader).same_identity(*old(leader)),
        final(helper).same_identity(*old(helper)),
        final(leader).pending@ == old(leader).pending@,
        final(helper).pending@ == old(helper).pending@,
        final(leader).batch.window == old(leader).batch.window,
        final(helper).batch.window == old(helper).batch.window,
        !folded ==> final(leader).batch == old(leader).batch && final(helper).batch == old(
            helper,
        ).batch,
        folded ==> !old(leader).batch.spec_stale(report.time.0 as int) && !old(
            helper,
        ).batch.spec_stale(report.time.0 as int),
        folded ==> report.encrypted_input_shares@.len() == NUM_AGGREGATORS && report.task_id@
            == old(leader).task_id@ && report.task_id@ == old(helper).task_id@,
        folded ==> report.encrypted_input_shares@[0].config_id == old(leader).hpke_config.id
            && hpke_open_result(
            old(leader).hpke_config.secret_key@,
            report.encrypted_input_shares@[0].encapsulated_context@,
            report.task_id@,
            spec_share_aad(report.task_id@, Role::Leader),
            report.encrypted_input_shares@[0].payload@,
        ) is Some,
        folded ==> report.encrypted_input_shares@[1].config_id == old(helper).hpke_config.id
            && hpke_open_result(
            old(helper).hpke_config.secret_key@,
            report.encrypted_input_shares@[1].encapsulated_context@,
            report.task_id@,
            spec_share_aad(report.task_id@, Role::Helper),
            report.encrypted_input_shares@[1].payload@,
        ) is Some,
        folded ==> final(leader).batch.spec_count_at(
            spec_window_of(old(leader).batch.window as int, report.time.0 as int),
        ) == old(leader).batch.spec_count_at(
            spec_window_of(old(leader).batch.window as int, report.time.0 as int),
        ) + 1,
        folded ==> final(helper).batch.spec_count_at(
            spec_window_of(old(helper).batch.window as int, report.time.0 as int),
        ) == old(helper).batch.spec_count_at(
            spec_window_of(old(helper).batch.window as int, report.time.0 as int),
        ) + 1,
        folded ==> forall|w2: int|
            w2 != spec_window_of(old(leader).batch.window as int, report.time.0 as int)
                ==> #[trigger] final(leader).batch.spec_count_at(w2) == old(
                leader,
            ).batch.spec_count_at(w2),
        folded ==> forall|w2: int|
            w2 != spec_window_of(old(helper).batch.window as int, report.time.0 as int)
                ==> #[trigger] final(helper).batch.spec_count_at(w2) == old(
                helper,
            ).batch.spec_count_at(w2),
        forall|w2: int|
            #[trigger] final(leader).batch.spec_collected_at(w2) == old(
                leader,
            ).batch.spec_collected_at(w2),
        forall|w2: int|
            #[trigger] final(helper).batch.spec_collected_at(w2) == old(
                helper,
            ).batch.spec_collected_at(w2),
{
    if report.encrypted_input_shares.len() != NUM_AGGREGATORS {
        return false;
    }
    if !task_id_equal(&report.task_id, &leader.task_id) {
        return false;
    }
    if !task_id_equal(&report.task_id, &helper.task_id) {
        return false;
    }
    if leader.batch.is_stale(report.time) || helper.batch.is_stale(report.time) {
        return false;
    }
    let ctx = task_id_bytes(&report.task_id);

    let leader_plain = match leader.hpke_config.decrypt_input_share(
        &report.task_id,
        Role::Leader,
        &report.encrypted_input_shares[0],
    ) {
        Ok(p) => p,
        Err(_) => {
            return false;
        },
    };
    let helper_plain = match helper.hpke_config.decrypt_input_share(
        &report.task_id,
        Role::Helper,
        &report.encrypted_input_shares[1],
    ) {
        Ok(p) => p,
        Err(_) => {
            return false;
        },
    };

    let leader_input = match decode_input_share(vdaf, 0, leader_plain.as_slice()) {
        Ok(s) => s,
        Err(_) => {
            return false;
        },
    };
    let helper_input = match decode_input_share(vdaf, 1, helper_plain.as_slice()) {
        Ok(s) => s,
        Err(_) => {
            return false;
        },
    };
    let empty: Vec<u8> = Vec::new();
    let public_share = match decode_public_share(vdaf, empty.as_slice()) {
        Ok(p) => p,
        Err(_) => {
            return false;
        },
    };

    let (leader_state, leader_verifier) = match vdaf_verify_init(
        vdaf,
        &leader.verify_key,
        ctx.as_slice(),
        0,
        &report.nonce,
        &public_share,
        &leader_input,
    ) {
        Ok(p) => p,
        Err(_) => {
            return false;
        },
    };
    let (helper_state, helper_verifier) = match vdaf_verify_init(
        vdaf,
        &helper.verify_key,
        ctx.as_slice(),
        1,
        &report.nonce,
        &public_share,
        &helper_input,
    ) {
        Ok(p) => p,
        Err(_) => {
            return false;
        },
    };

    let message = match vdaf_verifier_message(vdaf, ctx.as_slice(), leader_verifier, helper_verifier)
        {
        Ok(m) => m,
        Err(_) => {
            return false;
        },
    };

    let leader_out = match vdaf_verify_next(vdaf, ctx.as_slice(), leader_state, message.clone()) {
        Ok(Some(out)) => out,
        _ => {
            return false;
        },
    };
    let helper_out = match vdaf_verify_next(vdaf, ctx.as_slice(), helper_state, message) {
        Ok(Some(out)) => out,
        _ => {
            return false;
        },
    };

    match leader.batch.fold_verified_report(report.time, leader_out) {
        Ok(_) => {},
        Err(_) => {
            proof {
                assert(false);
            }
            return false;
        },
    }
    match helper.batch.fold_verified_report(report.time, helper_out) {
        Ok(_) => {},
        Err(_) => {
            proof {
                assert(false);
            }
            return false;
        },
    }
    proof {
        assert forall|w2: int| #[trigger] leader.batch.spec_collected_at(w2) == old(
            leader,
        ).batch.spec_collected_at(w2) by {
            if w2 == spec_window_of(old(leader).batch.window as int, report.time.0 as int) {
                assert(!old(leader).batch.spec_collected_at(w2));
                assert(!leader.batch.spec_collected_at(w2));
            }
        }
        assert forall|w2: int| #[trigger] helper.batch.spec_collected_at(w2) == old(
            helper,
        ).batch.spec_collected_at(w2) by {
            if w2 == spec_window_of(old(helper).batch.window as int, report.time.0 as int) {
                assert(!old(helper).batch.spec_collected_at(w2));
                assert(!helper.batch.spec_collected_at(w2));
            }
        }
    }
    true
}

/// How many of the given reports fall in the window starting at `w2`, for
/// a batch window of `window` seconds.
pub open spec fn spec_pending_in_window(reports: Seq<Report>, window: int, w2: int) -> int
    decreases reports.len(),
{
    if reports.len() == 0 {
        0
    } else {
        spec_pending_in_window(reports.drop_last(), window, w2) + if spec_window_of(
            window,
            reports.last().time.0 as int,
        ) == w2 {
            1int
        } else {
            0
        }
    }
}

/// Appending one report raises its window's pending count by one and no
/// other's.
proof fn lemma_pending_in_window_snoc(s: Seq<Report>, x: Report, window: int, w2: int)
    ensures
        spec_pending_in_window(s.push(x), window, w2) == spec_pending_in_window(s, window, w2) + (
        if spec_window_of(window, x.time.0 as int) == w2 {
            1int
        } else {
            0
        }),
{
    assert(s.push(x).drop_last() =~= s);
    assert(s.push(x).last() == x);
}

/// Runs the verification exchange for every report the leader has queued,
/// in upload order, leaving the queue empty. Each report is folded into
/// both accumulators or into neither, so the two accumulators advance in
/// lockstep: every window's count grows by the same amount on the leader
/// and on the helper, and aggregators that start with matching counts end
/// with matching counts. Counts never shrink and no budget is spent here.
pub fn run_aggregate(leader: &mut Aggregator, helper: &mut Aggregator, vdaf: &SumVdaf)
    requires
        old(leader).wf(),
        old(helper).wf(),
        old(leader).verify_key == old(helper).verify_key,
        old(leader).batch.window == old(helper).batch.window,
    ensures
        final(leader).wf(),
        final(helper).wf(),
        final(leader).same_identity(*old(leader)),
        final(helper).same_identity(*old(helper)),
        final(leader).pending@.len() == 0,
        final(helper).pending@ == old(helper).pending@,
        final(leader).batch.window == old(leader).batch.window,
        final(helper).batch.window == old(helper).batch.window,
        forall|w2: int|
            #[trigger] final(leader).batch.spec_collected_at(w2) == old(
                leader,
            ).batch.spec_collected_at(w2),
        forall|w2: int|
            #[trigger] final(helper).batch.spec_collected_at(w2) == old(
                helper,
            ).batch.spec_collected_at(w2),
        forall|w2: int|
            #[trigger] final(leader).batch.spec_count_at(w2) >= old(leader).batch.spec_count_at(
                w2,
            ),
        forall|w2: int|
            #[trigger] final(helper).batch.spec_count_at(w2) >= old(helper).batch.spec_count_at(
                w2,
            ),
        forall|w2: int|
            (#[trigger] final(leader).batch.spec_count_at(w2)) - old(leader).batch.spec_count_at(
                w2,
            ) == final(helper).batch.spec_count_at(w2) - old(helper).batch.spec_count_at(w2),
        forall|w2: int|
            #[trigger] final(leader).batch.spec_count_at(w2) <= old(leader).batch.spec_count_at(
                w2,
            ) + spec_pending_in_window(
                old(leader).pending@,
                old(leader).batch.window as int,
                w2,
            ),
        forall|w2: int|
            #[trigger] final(helper).batch.spec_count_at(w2) <= old(helper).batch.spec_count_at(
                w2,
            ) + spec_pending_in_window(
                old(leader).pending@,
                old(leader).batch.window as int,
                w2,
            ),
{
    let mut i: usize = 0;
    let n = leader.pending.len();
    while i < n
        invariant
            leader.wf(),
            helper.wf(),
            leader.same_identity(*old(leader)),
            helper.same_identity(*old(helper)),
            leader.verify_key == helper.verify_key,
            leader.batch.window == old(leader).batch.window,
            helper.batch.window == old(helper).batch.window,
            leader.batch.window == helper.batch.window,
            n == old(leader).pending@.len(),
            i <= n,
            leader.pending@ == old(leader).pending@.skip(i as int),
            helper.pending@ == old(helper).pending@,
            forall|w2: int|
                #[trigger] leader.batch.spec_collected_at(w2) == old(
                    leader,
                ).batch.spec_collected_at(w2),
            forall|w2: int|
                #[trigger] helper.batch.spec_collected_at(w2) == old(
                    helper,
                ).batch.spec_collected_at(w2),
            forall|w2: int|
                #[trigger] leader.batch.spec_count_at(w2) >= old(leader).batch.spec_count_at(w2),
            forall|w2: int|
                #[trigger] helper.batch.spec_count_at(w2) >= old(helper).batch.spec_count_at(w2),
            forall|w2: int|
                (#[trigger] leader.batch.spec_count_at(w2)) - old(leader).batch.spec_count_at(w2)
                    == helper.batch.spec_count_at(w2) - old(helper).batch.spec_count_at(w2),
            forall|w2: int|
                #[trigger] leader.batch.spec_count_at(w2) <= old(leader).batch.spec_count_at(w2)
                    + spec_pending_in_window(
                    old(leader).pending@.take(i as int),
                    old(leader).batch.window as int,
                    w2,
                ),
        decreases n - i,
    {
        let ghost lpre = *leader;
        let ghost hpre = *helper;
        let report = leader.pending.remove(0);
        proof {
            assert(report == old(leader).pending@[i as int]);
            assert(leader.pending@ =~= old(leader).pending@.skip(i as int + 1));
        }
        let folded = verify_and_fold(leader, helper, vdaf, &report);
        proof {
            assert forall|w2: int| #[trigger] leader.batch.spec_collected_at(w2)
                == old(leader).batch.spec_collected_at(w2) by {
                assert(leader.batch.spec_collected_at(w2) == lpre.batch.spec_collected_at(w2));
            }
            assert forall|w2: int| #[trigger] helper.batch.spec_collected_at(w2)
                == old(helper).batch.spec_collected_at(w2) by {
                assert(helper.batch.spec_collected_at(w2) == hpre.batch.spec_collected_at(w2));
            }
            let ws = spec_window_of(lpre.batch.window as int, report.time.0 as int);
            assert forall|w2: int| #[trigger] leader.batch.spec_count_at(w2) >= old(
                leader,
            ).batch.spec_count_at(w2) by {
                if !(folded && w2 == ws) {
                    assert(leader.batch.spec_count_at(w2) == lpre.batch.spec_count_at(w2));
                }
            }
            assert forall|w2: int| #[trigger] helper.batch.spec_count_at(w2) >= old(
                helper,
            ).batch.spec_count_at(w2) by {
                if !(folded && w2 == ws) {
                    assert(helper.batch.spec_count_at(w2) == hpre.batch.spec_count_at(w2));
                }
            }
            assert forall|w2: int| (#[trigger] leader.batch.spec_count_at(w2)) - old(
                leader,
            ).batch.spec_count_at(w2) == helper.batch.spec_count_at(w2) - old(
                helper,
            ).batch.spec_count_at(w2) by {
                if !(folded && w2 == ws) {
                    assert(leader.batch.spec_count_at(w2) == lpre.batch.spec_count_at(w2));
                    assert(helper.batch.spec_count_at(w2) == hpre.batch.spec_count_at(w2));
                }
            }
            assert(old(leader).pending@.take(i as int + 1) =~= old(leader).pending@.take(
                i as int,
            ).push(report));
            assert forall|w2: int| #[trigger] leader.batch.spec_count_at(w2) <= old(
                leader,
            ).batch.spec_count_at(w2) + spec_pending_in_window(
                old(leader).pending@.take(i as int + 1),
                old(leader).batch.window as int,
                w2,
            ) by {
                lemma_pending_in_window_snoc(
                    old(leader).pending@.take(i as int),
                    report,
                    old(leader).batch.window as int,
                    w2,
                );
                if !(folded && w2 == ws) {
                    assert(leader.batch.spec_count_at(w2) == lpre.batch.spec_count_at(w2));
                }
            }
        }
        i += 1;
    }
    proof {
        assert(old(leader).pending@.take(n as int) =~= old(leader).pending@);
        assert(leader.pending@ =~= Seq::<Report>::empty());
        assert forall|w2: int| #[trigger] helper.batch.spec_count_at(w2) <= old(
            helper,
        ).batch.spec_count_at(w2) + spec_pending_in_window(
            old(leader).pending@,
            old(leader).batch.window as int,
            w2,
        ) by {
            assert(leader.batch.spec_count_at(w2) <= old(leader).batch.spec_count_at(w2)
                + spec_pending_in_window(
                old(leader).pending@.take(n as int),
                old(leader).batch.window as int,
                w2,
            ));
            assert(leader.batch.spec_count_at(w2) - old(leader).batch.spec_count_at(w2)
                == helper.batch.spec_count_at(w2) - old(helper).batch.spec_count_at(w2));
        }
    }
}

} // verus!
