//! Task parameters.
//!
//! The static, out-of-band agreement that identifies a measurement task and
//! fixes its batching policy. Every role must hold the same parameters.

use vstd::prelude::*;

use crate::Duration;

verus! {

/// Identifies a measurement task. Fixed-width opaque bytes; identical across
/// client, leader, helper and collector for a given task.
pub type TaskId = [u8; 32];

/// The private-aggregation protocol variants a task can run.
#[derive(Clone, Copy, Debug, PartialEq, Eq, Structural)]
pub enum Protocol {
    /// Verifiable additive secret sharing of a scalar sum.
    Prio,
    /// Heavy hitters.
    HeavyHitters,
}

/// The published HPKE parameters of one participant: the config id picks the
/// matching secret key on decrypt, the algorithm ids name the ciphersuite, and
/// the public key is the recipient's KEM key in serialized form.
#[derive(Clone, Debug, PartialEq, Eq)]
pub struct HpkeConfig {
    pub id: u8,
    pub kem_id: u16,
    pub kdf_id: u16,
    pub aead_id: u16,
    pub public_key: Vec<u8>,
}

impl HpkeConfig {
    /// Packages published HPKE parameters.
    pub fn new(id: u8, kem_id: u16, kdf_id: u16, aead_id: u16, public_key: Vec<u8>) -> (c:
        HpkeConfig)
        ensures
            c.id == id,
            c.kem_id == kem_id,
            c.kdf_id == kdf_id,
            c.aead_id == aead_id,
            c.public_key@ == public_key@,
    {
        HpkeConfig { id, kem_id, kdf_id, aead_id, public_key }
    }
}

/// The configuration parameters for one measurement task.
#[derive(Clone, Debug, PartialEq, Eq)]
pub struct Parameters {
    pub nonce: [u8; 16],
    pub leader_url: String,
    pub helper_url: String,
    pub collector_config: HpkeConfig,
    pub batch_size: u64,
    pub batch_window: Duration,
    pub protocol: Protocol,
}

impl Parameters {
    /// Usable task parameters have a positive batch window (the granularity
    /// every collectible interval aligns to) and a positive minimum batch size.
    pub open spec fn wf(self) -> bool {
        &&& self.batch_window.0 > 0
        &&& self.batch_size > 0
    }

    /// The task id these parameters denote: the 16-byte task nonce,
    /// zero-padded to the fixed 32-byte width. The id is treated as opaque
    /// fixed-width bytes everywhere; no hashing property is assumed of it.
    pub fn task_id(&self) -> (t: TaskId)
        ensures
            t@ == self.nonce@ + Seq::new(16, |i: int| 0u8),
    {
        let t: TaskId = [
            self.nonce[0],
            self.nonce[1],
            self.nonce[2],
            self.nonce[3],
            self.nonce[4],
            self.nonce[5],
            self.nonce[6],
            self.nonce[7],
            self.nonce[8],
            self.nonce[9],
            self.nonce[10],
            self.nonce[11],
            self.nonce[12],
            self.nonce[13],
            self.nonce[14],
            self.nonce[15],
            0,
            0,
            0,
            0,
            0,
            0,
            0,
            0,
            0,
            0,
            0,
            0,
            0,
            0,
            0,
            0,
        ];
        proof {
            assert(t@ =~= self.nonce@ + Seq::new(16, |i: int| 0u8));
        }
        t
    }
}

} // verus!
