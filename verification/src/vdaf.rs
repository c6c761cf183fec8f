//! The verifiable secret-sharing engine.
//!
//! The underlying VDAF arithmetic is the outside prio library's Prio3 sum,
//! consumed as an opaque cryptographic primitive: the client splits a
//! measurement into one input share per aggregator plus proof material, the
//! two aggregators run a one-round verification exchange, and verified
//! output shares are aggregated and finally combined into the decoded sum.
//! Everything this module declares is a typed window onto prio; the
//! orchestration around it is verified elsewhere.

use vstd::prelude::*;

use prio::codec::{CodecError, Encode, ParameterizedDecode};
use prio::field::Field64;
use prio::flp::types::Sum;
use prio::vdaf::prio3::{
    Prio3, Prio3InputShare, Prio3PublicShare, Prio3VerifierMessage, Prio3VerifierShare,
    Prio3VerifyState,
};
use prio::vdaf::xof::XofTurboShake128;
use prio::vdaf::{AggregateShare, OutputShare, VdafError, VerifyTransition};

verus! {

#[verifier::external_type_specification]
#[verifier::external_body]
pub struct ExVdafError(VdafError);

#[verifier::external_type_specification]
#[verifier::external_body]
pub struct ExCodecError(CodecError);

#[verifier::external_type_specification]
#[verifier::external_body]
pub struct ExField64(Field64);

#[verifier::external_type_specification]
#[verifier::external_body]
#[verifier::reject_recursive_types(F)]
pub struct ExPrio3InputShare<F, const SEED_SIZE: usize>(Prio3InputShare<F, SEED_SIZE>);

#[verifier::external_type_specification]
#[verifier::external_body]
pub struct ExPrio3PublicShare<const SEED_SIZE: usize>(Prio3PublicShare<SEED_SIZE>);

#[verifier::external_type_specification]
#[verifier::external_body]
#[verifier::reject_recursive_types(F)]
pub struct ExPrio3VerifyState<F, const SEED_SIZE: usize>(Prio3VerifyState<F, SEED_SIZE>);

#[verifier::external_type_specification]
#[verifier::external_body]
#[verifier::reject_recursive_types(F)]
pub struct ExPrio3VerifierShare<F, const SEED_SIZE: usize>(Prio3VerifierShare<F, SEED_SIZE>);

#[verifier::external_type_specification]
#[verifier::external_body]
pub struct ExPrio3VerifierMessage<const SEED_SIZE: usize>(Prio3VerifierMessage<SEED_SIZE>);

#[verifier::external_type_specification]
#[verifier::external_body]
#[verifier::reject_recursive_types(F)]
pub struct ExOutputShare<F>(OutputShare<F>);

#[verifier::external_type_specification]
#[verifier::external_body]
#[verifier::reject_recursive_types(F)]
pub struct ExAggregateShare<F>(AggregateShare<F>);

/// The task's VDAF: a two-party Prio3 sum over the 64-bit field. The
/// underlying prio object carries outside trait bounds that Verus refuses
/// to declare, so it is held whole in an opaque field.
#[verifier::external_body]
pub struct SumVdaf {
    inner: Prio3<Sum<Field64>, XofTurboShake128, 32>,
}

impl SumVdaf {
    /// Relies on prio's Prio3Sum::new_sum: a two-aggregator sum of
    /// measurements in `[0, max_measurement]`; errs when the bound is zero.
    #[verifier::external_body]
    pub fn new_sum(max_measurement: u64) -> (r: Result<SumVdaf, VdafError>) {
        Ok(SumVdaf { inner: prio::vdaf::prio3::Prio3Sum::new_sum(2, max_measurement)? })
    }
}

/// One aggregator's input share of a sum measurement.
pub type SumInputShare = Prio3InputShare<Field64, 32>;

/// The client's public share, broadcast to both aggregators.
pub type SumPublicShare = Prio3PublicShare<32>;

/// One aggregator's state between the verification rounds.
pub type SumVerifyState = Prio3VerifyState<Field64, 32>;

/// One aggregator's verifier-share message.
pub type SumVerifierShare = Prio3VerifierShare<Field64, 32>;

/// The combined verifier message both aggregators consume.
pub type SumVerifierMessage = Prio3VerifierMessage<32>;

/// One verified report's output share on one aggregator.
pub type SumOutputShare = OutputShare<Field64>;

/// One aggregator's partial aggregate over an interval.
pub type SumAggregateShare = AggregateShare<Field64>;

/// Relies on the derived clone of prio's output share, a plain vector of
/// field elements: the clone equals its source as a value.
pub assume_specification<F: Clone>[ <OutputShare<F> as Clone>::clone ](v: &OutputShare<F>) -> (r:
    OutputShare<F>)
    ensures
        r == *v,
;

/// Relies on the derived clone of prio's verifier message; the same message
/// must be fed to both aggregators' final verification step.
pub assume_specification<const SEED_SIZE: usize>[ <Prio3VerifierMessage<
    SEED_SIZE,
> as Clone>::clone ](m: &Prio3VerifierMessage<SEED_SIZE>) -> Prio3VerifierMessage<SEED_SIZE>;

/// Relies on prio's Client::shard: splits one measurement into a public
/// share and one input share per aggregator, with fresh randomness, so
/// nothing is assumed of the result.
#[verifier::external_body]
pub(crate) fn vdaf_shard(vdaf: &SumVdaf, ctx: &[u8], measurement: u64, nonce: &[u8; 16]) -> (r:
    Result<(SumPublicShare, Vec<SumInputShare>), VdafError>) {
    <Prio3<Sum<Field64>, XofTurboShake128, 32> as prio::vdaf::Client<16>>::shard(&vdaf.inner, ctx, &measurement, nonce)
}

/// Relies on prio's codec (Encode::get_encoded): serializes an input share.
#[verifier::external_body]
pub(crate) fn encode_input_share(share: &SumInputShare) -> (r: Result<Vec<u8>, CodecError>) {
    Encode::get_encoded(share)
}

/// Relies on prio's codec (ParameterizedDecode::get_decoded_with_param):
/// parses the input share addressed to the aggregator at the given index.
#[verifier::external_body]
pub(crate) fn decode_input_share(vdaf: &SumVdaf, agg_index: usize, bytes: &[u8]) -> (r: Result<
    SumInputShare,
    CodecError,
>) {
    SumInputShare::get_decoded_with_param(&(&vdaf.inner, agg_index), bytes)
}

/// Relies on prio's codec (ParameterizedDecode::get_decoded_with_param):
/// parses the client's public share. The sum circuit uses no joint
/// randomness, so its public share is the empty byte string.
#[verifier::external_body]
pub(crate) fn decode_public_share(vdaf: &SumVdaf, bytes: &[u8]) -> (r: Result<
    SumPublicShare,
    CodecError,
>) {
    SumPublicShare::get_decoded_with_param(&vdaf.inner, bytes)
}

/// Relies on prio's Aggregator::verify_init: starts one aggregator's side
/// of the verification exchange for one report.
#[verifier::external_body]
pub(crate) fn vdaf_verify_init(
    vdaf: &SumVdaf,
    verify_key: &[u8; 32],
    ctx: &[u8],
    agg_index: usize,
    nonce: &[u8; 16],
    public_share: &SumPublicShare,
    input_share: &SumInputShare,
) -> (r: Result<(SumVerifyState, SumVerifierShare), VdafError>) {
    <Prio3<Sum<Field64>, XofTurboShake128, 32> as prio::vdaf::Aggregator<32, 16>>::verify_init(
        &vdaf.inner,
        verify_key,
        ctx,
        agg_index,
        &(),
        nonce,
        public_share,
        input_share,
    )
}

/// Relies on prio's Aggregator::verifier_shares_to_message: combines the
/// two verifier shares into the message both sides consume.
#[verifier::external_body]
pub(crate) fn vdaf_verifier_message(
    vdaf: &SumVdaf,
    ctx: &[u8],
    leader_share: SumVerifierShare,
    helper_share: SumVerifierShare,
) -> (r: Result<SumVerifierMessage, VdafError>) {
    <Prio3<Sum<Field64>, XofTurboShake128, 32> as prio::vdaf::Aggregator<32, 16>>::verifier_shares_to_message(
        &vdaf.inner,
        ctx,
        &(),
        [leader_share, helper_share],
    )
}

/// Relies on prio's Aggregator::verify_next: finishes one aggregator's side
/// of the one-round exchange. `Some` carries the output share of a report
/// that verified; `None` stands for a transition that did not finish.
#[verifier::external_body]
pub(crate) fn vdaf_verify_next(
    vdaf: &SumVdaf,
    ctx: &[u8],
    state: SumVerifyState,
    message: SumVerifierMessage,
) -> (r: Result<Option<SumOutputShare>, VdafError>) {
    match <Prio3<Sum<Field64>, XofTurboShake128, 32> as prio::vdaf::Aggregator<32, 16>>::verify_next(&vdaf.inner, ctx, state, message)? {
        VerifyTransition::Finish(out) => Ok(Some(out)),
        VerifyTransition::Continue(_, _) => Ok(None),
    }
}

/// Relies on prio's Aggregator::aggregate: folds output shares into one
/// aggregate share.
#[verifier::external_body]
pub(crate) fn vdaf_aggregate(vdaf: &SumVdaf, shares: Vec<SumOutputShare>) -> (r: Result<
    SumAggregateShare,
    VdafError,
>) {
    <Prio3<Sum<Field64>, XofTurboShake128, 32> as prio::vdaf::Aggregator<32, 16>>::aggregate(&vdaf.inner, &(), shares)
}

/// Relies on prio's Collector::unshard: combines the leader's and helper's
/// aggregate shares into the decoded sum.
#[verifier::external_body]
pub(crate) fn vdaf_unshard(
    vdaf: &SumVdaf,
    leader_share: SumAggregateShare,
    helper_share: SumAggregateShare,
    num_measurements: usize,
) -> (r: Result<u64, VdafError>) {
    <Prio3<Sum<Field64>, XofTurboShake128, 32> as prio::vdaf::Collector>::unshard(
        &vdaf.inner,
        &(),
        [leader_share, helper_share],
        num_measurements,
    )
}

} // verus!
