//! The report model: the wire entity carrying one client submission.

use vstd::prelude::*;

use crate::parameters::TaskId;
use crate::problem::PpmError;
use crate::Time;

verus! {

/// The number of aggregators a task runs: the leader and the helper.
pub const NUM_AGGREGATORS: usize = 2;

/// One aggregator's opaque encrypted share of a report. The config id picks
/// the decryption key; the encapsulated context carries the KEM output; the
/// payload is the AEAD ciphertext of the plaintext input share.
#[derive(Clone, Debug, PartialEq, Eq)]
pub struct EncryptedInputShare {
    pub config_id: u8,
    pub encapsulated_context: Vec<u8>,
    pub payload: Vec<u8>,
}

/// An optional extension attached to a report.
#[derive(Clone, Debug, PartialEq, Eq)]
pub struct Extension {
    pub extension_type: u16,
    pub data: Vec<u8>,
}

/// One client submission: consumed exactly once by the leader's ingestion,
/// immutable after creation.
#[derive(Clone, Debug, PartialEq, Eq)]
pub struct Report {
    pub task_id: TaskId,
    pub time: Time,
    pub nonce: [u8; 16],
    pub extensions: Vec<Extension>,
    pub encrypted_input_shares: Vec<EncryptedInputShare>,
}

/// Assembles a report, yielding a complete, immutable `Report` only once one
/// encrypted share per aggregator is attached; a partially encrypted report
/// is never observable.
pub struct ReportBuilder {
    pub task_id: TaskId,
    pub time: Time,
    pub nonce: [u8; 16],
    pub extensions: Vec<Extension>,
    pub shares: Vec<EncryptedInputShare>,
}

impl ReportBuilder {
    /// Starts a report with no shares attached.
    pub fn new(task_id: TaskId, time: Time, nonce: [u8; 16]) -> (b: ReportBuilder)
        ensures
            b.task_id == task_id,
            b.time == time,
            b.nonce == nonce,
            b.extensions@.len() == 0,
            b.shares@.len() == 0,
    {
        ReportBuilder { task_id, time, nonce, extensions: Vec::new(), shares: Vec::new() }
    }

    /// Attaches the next aggregator's encrypted share.
    pub fn attach_share(&mut self, share: EncryptedInputShare)
        ensures
            final(self).task_id == old(self).task_id,
            final(self).time == old(self).time,
            final(self).nonce == old(self).nonce,
            final(self).extensions@ == old(self).extensions@,
            final(self).shares@ == old(self).shares@.push(share),
    {
        self.shares.push(share);
    }

    /// Yields the finished report, exactly when one share per aggregator is
    /// attached; otherwise the report stays unobservable.
    pub fn build(self) -> (r: Result<Report, PpmError>)
        ensures
            r is Ok <==> self.shares@.len() == NUM_AGGREGATORS,
            r matches Ok(rep) ==> rep.task_id == self.task_id && rep.time == self.time
                && rep.nonce == self.nonce && rep.extensions@ == self.extensions@
                && rep.encrypted_input_shares@ == self.shares@,
            r matches Err(e) ==> e == PpmError::Codec,
    {
        if self.shares.len() == NUM_AGGREGATORS {
            Ok(
                Report {
                    task_id: self.task_id,
                    time: self.time,
                    nonce: self.nonce,
                    extensions: self.extensions,
                    encrypted_input_shares: self.shares,
                },
            )
        } else {
            Err(PpmError::Codec)
        }
    }
}

/// Whether two task ids hold the same bytes.
pub fn task_id_equal(a: &TaskId, b: &TaskId) -> (r: bool)
    ensures
        r == (a@ == b@),
{
    let mut i: usize = 0;
    while i < 32
        invariant
            i <= 32,
            forall|j: int| 0 <= j < i ==> a@[j] == b@[j],
        decreases 32 - i,
    {
        if a[i] != b[i] {
            return false;
        }
        i += 1;
    }
    proof {
        assert(a@ =~= b@);
    }
    true
}

/// The task id as a byte vector, for use as cryptographic context.
pub fn task_id_bytes(t: &TaskId) -> (v: Vec<u8>)
    ensures
        v@ == t@,
{
    let mut v: Vec<u8> = Vec::new();
    let mut i: usize = 0;
    while i < 32
        invariant
            i <= 32,
            v@ =~= t@.take(i as int),
        decreases 32 - i,
    {
        v.push(t[i]);
        i += 1;
    }
    proof {
        assert(v@ =~= t@);
    }
    v
}

} // verus!
