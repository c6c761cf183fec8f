//! The client's side of the protocol.
//!
//! A client splits its private measurement into one verifiable input share
//! per aggregator, encrypts each share to the target aggregator's published
//! HPKE key, and assembles the wire report. The measurement never leaves
//! the client in the clear: only encrypted shares do.

use vstd::prelude::*;

use crate::hpke_transport::{hpke_key_match, hpke_open_result, spec_share_aad, Config};
use crate::parameters::Parameters;
use crate::problem::PpmError;
use crate::upload::{task_id_bytes, Report, ReportBuilder, NUM_AGGREGATORS};
use crate::vdaf::{encode_input_share, vdaf_shard, SumVdaf};
use crate::{Role, Time};

verus! {

/// Builds one report for the given measurement at the given time: shards
/// the measurement, encrypts the leader's share to the leader's config and
/// the helper's share to the helper's config, and yields the complete
/// report. On success the report names the parameters' task, carries the
/// given time and nonce, no extensions, and exactly one encrypted share per
/// aggregator, each under its target's config id and decryptable by any
/// holder of the secret key matching that target's public key; sharding and
/// encryption failures surface as a crypto error.
pub fn prepare_report(
    params: &Parameters,
    leader_config: &Config,
    helper_config: &Config,
    vdaf: &SumVdaf,
    measurement: u64,
    time: Time,
    nonce: [u8; 16],
) -> (r: Result<Report, PpmError>)
    ensures
        r matches Ok(rep) ==> rep.task_id@ == params.nonce@ + Seq::new(16, |i: int| 0u8)
            && rep.time == time && rep.nonce == nonce && rep.extensions@.len() == 0
            && rep.encrypted_input_shares@.len() == NUM_AGGREGATORS
            && rep.encrypted_input_shares@[0].config_id == leader_config.id
            && rep.encrypted_input_shares@[1].config_id == helper_config.id,
        r matches Ok(rep) ==> forall|sk: Seq<u8>|
            hpke_key_match(sk, leader_config.public_key@) ==> hpke_open_result(
                sk,
                rep.encrypted_input_shares@[0].encapsulated_context@,
                rep.task_id@,
                spec_share_aad(rep.task_id@, Role::Leader),
                rep.encrypted_input_shares@[0].payload@,
            ) is Some,
        r matches Ok(rep) ==> forall|sk: Seq<u8>|
            hpke_key_match(sk, helper_config.public_key@) ==> hpke_open_result(
                sk,
                rep.encrypted_input_shares@[1].encapsulated_context@,
                rep.task_id@,
                spec_share_aad(rep.task_id@, Role::Helper),
                rep.encrypted_input_shares@[1].payload@,
            ) is Some,
{
    let task_id = params.task_id();
    let ctx = task_id_bytes(&task_id);

    let (_public_share, input_shares) = match vdaf_shard(vdaf, ctx.as_slice(), measurement, &nonce)
        {
        Ok(p) => p,
        Err(_) => {
            return Err(PpmError::Crypto);
        },
    };
    if input_shares.len() != NUM_AGGREGATORS {
        return Err(PpmError::Crypto);
    }

    let leader_plain = match encode_input_share(&input_shares[0]) {
        Ok(b) => b,
        Err(_) => {
            return Err(PpmError::Codec);
        },
    };
    let helper_plain = match encode_input_share(&input_shares[1]) {
        Ok(b) => b,
        Err(_) => {
            return Err(PpmError::Codec);
        },
    };

    let leader_share = match leader_config.encrypt_input_share(&task_id, Role::Leader, &leader_plain)
        {
        Ok(s) => s,
        Err(e) => {
            return Err(e);
        },
    };
    let helper_share = match helper_config.encrypt_input_share(&task_id, Role::Helper, &helper_plain)
        {
        Ok(s) => s,
        Err(e) => {
            return Err(e);
        },
    };

    let mut builder = ReportBuilder::new(task_id, time, nonce);
    builder.attach_share(leader_share);
    builder.attach_share(helper_share);
    builder.build()
}

} // verus!
