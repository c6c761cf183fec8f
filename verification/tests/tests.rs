use hpke::kem::{Kem, X25519HkdfSha256};
use hpke::Serializable;
use prio::codec::Encode;

use ppm_prototype::aggregator::{run_aggregate, verify_and_fold, Aggregator};
use ppm_prototype::client::prepare_report;
use ppm_prototype::collect::{run_collect, CollectError};
use ppm_prototype::hpke_transport::Config;
use ppm_prototype::parameters::{HpkeConfig, Parameters, Protocol};
use ppm_prototype::upload::ReportBuilder;
use ppm_prototype::vdaf::SumVdaf;
use ppm_prototype::{Duration, Interval, Role, Time};

const INTERVAL_START: u64 = 1631907500;

fn test_parameters() -> Parameters {
    Parameters {
        nonce: [0, 1, 2, 3, 4, 5, 6, 7, 8, 9, 10, 11, 12, 13, 14, 15],
        leader_url: String::from("https://leader.fake"),
        helper_url: String::from("https://helper.fake"),
        collector_config: HpkeConfig::new(0, 32, 2, 3, vec![0, 1, 2, 3]),
        batch_size: 100,
        batch_window: Duration(50),
        protocol: Protocol::Prio,
    }
}

fn gen_config(id: u8) -> Config {
    let (sk, pk) = X25519HkdfSha256::gen_keypair();
    Config::new(
        id,
        pk.to_bytes().as_slice().to_vec(),
        sk.to_bytes().as_slice().to_vec(),
    )
}

struct TestCase {
    parameters: Parameters,
    leader_config: Config,
    helper_config: Config,
    vdaf: SumVdaf,
    leader: Aggregator,
    helper: Aggregator,
}

/// Uploads 100 reports of value 1 at one-second spacing and runs the
/// verification exchange, optionally corrupting one side's ciphertext so
/// its proof cannot verify.
fn new_test_case(tamper_leader_proof: bool, tamper_helper_proof: bool) -> TestCase {
    let parameters = test_parameters();
    let leader_config = gen_config(0);
    let helper_config = gen_config(1);
    let vdaf = SumVdaf::new_sum(255).unwrap();
    let verify_key = [7u8; 32];

    let mut leader = Aggregator::new(
        Role::Leader,
        &parameters,
        leader_config.clone(),
        verify_key,
    );
    let mut helper = Aggregator::new(
        Role::Helper,
        &parameters,
        helper_config.clone(),
        verify_key,
    );

    for count in 0..100u64 {
        let mut nonce = [0u8; 16];
        nonce[..8].copy_from_slice(&count.to_le_bytes());
        let mut report = prepare_report(
            &parameters,
            &leader_config,
            &helper_config,
            &vdaf,
            1,
            Time(INTERVAL_START + count),
            nonce,
        )
        .unwrap();
        if tamper_leader_proof {
            report.encrypted_input_shares[0].payload[0] ^= 0xff;
        }
        if tamper_helper_proof {
            report.encrypted_input_shares[1].payload[0] ^= 0xff;
        }
        leader.handle_upload(report).unwrap();
    }

    run_aggregate(&mut leader, &mut helper, &vdaf);

    TestCase {
        parameters,
        leader_config,
        helper_config,
        vdaf,
        leader,
        helper,
    }
}

fn expect_problem(err: CollectError) -> ppm_prototype::problem::ProblemDocument {
    match err {
        CollectError::ProblemDocument(d) => d,
        CollectError::Aggregation => panic!("expected a problem document"),
    }
}

#[test]
fn task_id() {
    let params = Parameters {
        nonce: [0, 1, 2, 3, 4, 5, 6, 7, 8, 9, 10, 11, 12, 13, 14, 15],
        leader_url: String::from("https://leader.fake"),
        helper_url: String::from("https://helper.fake"),
        collector_config: HpkeConfig::new(
            0,
            <X25519HkdfSha256 as hpke::kem::Kem>::KEM_ID,
            <hpke::kdf::HkdfSha384 as hpke::kdf::Kdf>::KDF_ID,
            <hpke::aead::ChaCha20Poly1305 as hpke::aead::Aead>::AEAD_ID,
            vec![0, 1, 2, 3],
        ),
        batch_size: 100,
        batch_window: Duration(100),
        protocol: Protocol::Prio,
    };

    let other_params = Parameters {
        nonce: [1, 2, 3, 4, 5, 6, 7, 8, 9, 10, 11, 12, 13, 14, 15, 16],
        leader_url: String::from("https://leader.fake"),
        helper_url: String::from("https://helper.fake"),
        collector_config: HpkeConfig::new(
            0,
            <X25519HkdfSha256 as hpke::kem::Kem>::KEM_ID,
            <hpke::kdf::HkdfSha384 as hpke::kdf::Kdf>::KDF_ID,
            <hpke::aead::ChaCha20Poly1305 as hpke::aead::Aead>::AEAD_ID,
            vec![4, 5, 6, 7],
        ),
        batch_size: 100,
        batch_window: Duration(100),
        protocol: Protocol::Prio,
    };

    assert_ne!(params.task_id(), other_params.task_id());
}

#[test]
fn successful_aggregate() {
    let mut t = new_test_case(false, false);

    let collect_interval = Interval {
        start: Time(INTERVAL_START),
        duration: Duration(100),
    };

    let sum = run_collect(&mut t.leader, &mut t.helper, &t.vdaf, collect_interval).unwrap();

    assert_eq!(sum.0, 100);
}

#[test]
fn insufficient_batch_size() {
    let mut t = new_test_case(false, false);

    let err = run_collect(
        &mut t.leader,
        &mut t.helper,
        &t.vdaf,
        Interval {
            start: Time(INTERVAL_START),
            duration: Duration(50),
        },
    )
    .unwrap_err();

    let d = expect_problem(err);
    assert_eq!(d.instance, Some("collect".to_string()));
    assert_eq!(d.status, Some(400));
    assert_eq!(
        d.type_url,
        Some("urn:ietf:params:ppm:error:insufficientBatchSize".to_string())
    );
}

#[test]
fn exceed_privacy_budget() {
    let mut t = new_test_case(false, false);

    let collect_interval = Interval {
        start: Time(INTERVAL_START),
        duration: Duration(100),
    };

    let sum = run_collect(&mut t.leader, &mut t.helper, &t.vdaf, collect_interval).unwrap();
    assert_eq!(sum.0, 100);

    let err = run_collect(&mut t.leader, &mut t.helper, &t.vdaf, collect_interval).unwrap_err();

    let d = expect_problem(err);
    assert_eq!(d.instance, Some("collect".to_string()));
    assert_eq!(d.status, Some(400));
    assert_eq!(
        d.type_url,
        Some("urn:ietf:params:ppm:error:privacyBudgetExceeded".to_string())
    );
}

#[test]
fn unaligned_batch_interval() {
    let mut t = new_test_case(false, false);

    let err = run_collect(
        &mut t.leader,
        &mut t.helper,
        &t.vdaf,
        Interval {
            start: Time(INTERVAL_START),
            duration: Duration(99),
        },
    )
    .unwrap_err();

    let d = expect_problem(err);
    assert_eq!(d.instance, Some("collect".to_string()));
    assert_eq!(d.status, Some(400));
    assert_eq!(
        d.type_url,
        Some("urn:ietf:params:ppm:error:invalidBatchInterval".to_string())
    );
}

#[test]
fn batch_interval_too_short() {
    let mut t = new_test_case(false, false);

    let err = run_collect(
        &mut t.leader,
        &mut t.helper,
        &t.vdaf,
        Interval {
            start: Time(INTERVAL_START),
            duration: Duration(25),
        },
    )
    .unwrap_err();

    let d = expect_problem(err);
    assert_eq!(d.instance, Some("collect".to_string()));
    assert_eq!(d.status, Some(400));
    assert_eq!(
        d.type_url,
        Some("urn:ietf:params:ppm:error:invalidBatchInterval".to_string())
    );
}

#[test]
fn invalid_helper_proof() {
    let mut t = new_test_case(false, true);

    let err = run_collect(
        &mut t.leader,
        &mut t.helper,
        &t.vdaf,
        Interval {
            start: Time(INTERVAL_START),
            duration: Duration(100),
        },
    )
    .unwrap_err();

    let d = expect_problem(err);
    assert_eq!(d.instance, Some("collect".to_string()));
    assert_eq!(d.status, Some(400));
    // There is no explicit error from proof rejection. Inputs whose proofs
    // were bad are simply never aggregated, so the collect request fails
    // with insufficient batch size.
    assert_eq!(
        d.type_url,
        Some("urn:ietf:params:ppm:error:insufficientBatchSize".to_string())
    );
}

#[test]
fn invalid_leader_proof() {
    let mut t = new_test_case(true, false);

    let err = run_collect(
        &mut t.leader,
        &mut t.helper,
        &t.vdaf,
        Interval {
            start: Time(INTERVAL_START),
            duration: Duration(100),
        },
    )
    .unwrap_err();

    let d = expect_problem(err);
    assert_eq!(d.instance, Some("collect".to_string()));
    assert_eq!(d.status, Some(400));
    // Same designed indistinguishability as for a tampered helper proof.
    assert_eq!(
        d.type_url,
        Some("urn:ietf:params:ppm:error:insufficientBatchSize".to_string())
    );
}

#[test]
fn report_uploaded_after_interval_collected() {
    let mut t = new_test_case(false, false);

    let collect_interval = Interval {
        start: Time(INTERVAL_START),
        duration: Duration(100),
    };

    let sum = run_collect(&mut t.leader, &mut t.helper, &t.vdaf, collect_interval).unwrap();
    assert_eq!(sum.0, 100);

    let report = prepare_report(
        &t.parameters,
        &t.leader_config,
        &t.helper_config,
        &t.vdaf,
        1,
        Time(INTERVAL_START),
        [42u8; 16],
    )
    .unwrap();
    let d = t.leader.handle_upload(report).unwrap_err();

    assert_eq!(d.instance, Some("upload".to_string()));
    assert_eq!(d.status, Some(400));
    assert_eq!(
        d.type_url,
        Some("urn:ietf:params:ppm:error:staleReport".to_string())
    );
}

#[test]
fn upload_for_unknown_task_is_refused() {
    let mut t = new_test_case(false, false);

    let mut report = prepare_report(
        &t.parameters,
        &t.leader_config,
        &t.helper_config,
        &t.vdaf,
        1,
        Time(INTERVAL_START),
        [43u8; 16],
    )
    .unwrap();
    report.task_id[0] ^= 0xff;
    let d = t.leader.handle_upload(report).unwrap_err();

    assert_eq!(d.instance, Some("upload".to_string()));
    assert_eq!(d.status, Some(400));
    assert_eq!(
        d.type_url,
        Some("urn:ietf:params:ppm:error:unrecognizedTask".to_string())
    );
}

#[test]
fn decrypt_is_idempotent() {
    let parameters = test_parameters();
    let leader_config = gen_config(0);
    let task_id = parameters.task_id();

    let plaintext = b"plaintext input share".to_vec();
    let share = leader_config
        .encrypt_input_share(&task_id, Role::Leader, &plaintext)
        .unwrap();

    let first = leader_config
        .decrypt_input_share(&task_id, Role::Leader, &share)
        .unwrap();
    let second = leader_config
        .decrypt_input_share(&task_id, Role::Leader, &share)
        .unwrap();

    assert_eq!(first, plaintext);
    assert_eq!(first, second);
}

#[test]
fn decrypt_with_wrong_key_fails() {
    let parameters = test_parameters();
    let leader_config = gen_config(0);
    let other_config = Config::new(0, leader_config.public_key.clone(), gen_config(0).secret_key);
    let task_id = parameters.task_id();

    let plaintext = b"plaintext input share".to_vec();
    let share = leader_config
        .encrypt_input_share(&task_id, Role::Leader, &plaintext)
        .unwrap();

    assert!(other_config
        .decrypt_input_share(&task_id, Role::Leader, &share)
        .is_err());
}

#[test]
fn decrypt_refuses_swapped_role() {
    let parameters = test_parameters();
    let leader_config = gen_config(0);
    let task_id = parameters.task_id();

    let plaintext = b"plaintext input share".to_vec();
    let share = leader_config
        .encrypt_input_share(&task_id, Role::Leader, &plaintext)
        .unwrap();

    // The associated data binds the ciphertext to the target role, so the
    // same config cannot open it as the helper's share.
    assert!(leader_config
        .decrypt_input_share(&task_id, Role::Helper, &share)
        .is_err());
}

#[test]
fn report_builder_needs_both_shares() {
    let parameters = test_parameters();
    let leader_config = gen_config(0);
    let task_id = parameters.task_id();

    let plaintext = b"plaintext input share".to_vec();
    let share = leader_config
        .encrypt_input_share(&task_id, Role::Leader, &plaintext)
        .unwrap();

    let mut builder = ReportBuilder::new(task_id, Time(INTERVAL_START), [1u8; 16]);
    builder.attach_share(share);
    assert!(builder.build().is_err());
}

#[test]
fn tampered_plaintext_proof_is_rejected() {
    let parameters = test_parameters();
    let leader_config = gen_config(0);
    let helper_config = gen_config(1);
    let vdaf = SumVdaf::new_sum(255).unwrap();
    let verify_key = [9u8; 32];
    let mut leader = Aggregator::new(Role::Leader, &parameters, leader_config.clone(), verify_key);
    let mut helper = Aggregator::new(Role::Helper, &parameters, helper_config.clone(), verify_key);

    let task_id = parameters.task_id();
    let prio_vdaf = prio::vdaf::prio3::Prio3Sum::new_sum(2, 255).unwrap();
    let nonce = [5u8; 16];
    let (_public_share, input_shares) =
        prio::vdaf::Client::shard(&prio_vdaf, &task_id, &1u64, &nonce).unwrap();
    let mut leader_bytes = input_shares[0].get_encoded().unwrap();
    let helper_bytes = input_shares[1].get_encoded().unwrap();
    // Flip one low-order bit of the leader's plaintext share before
    // encryption: the ciphertext still decrypts and decodes, but the VDAF
    // proof check must reject the share.
    leader_bytes[0] ^= 0x01;
    let leader_share = leader_config
        .encrypt_input_share(&task_id, Role::Leader, &leader_bytes)
        .unwrap();
    let helper_share = helper_config
        .encrypt_input_share(&task_id, Role::Helper, &helper_bytes)
        .unwrap();
    let mut builder = ReportBuilder::new(task_id, Time(INTERVAL_START), nonce);
    builder.attach_share(leader_share);
    builder.attach_share(helper_share);
    let report = builder.build().unwrap();

    let folded = verify_and_fold(&mut leader, &mut helper, &vdaf, &report);
    assert!(!folded);
    assert_eq!(leader.batch.accumulators.len(), 0);
    assert_eq!(helper.batch.accumulators.len(), 0);

    // An untampered report through the same pipeline does fold.
    let good = prepare_report(
        &parameters,
        &leader_config,
        &helper_config,
        &vdaf,
        1,
        Time(INTERVAL_START),
        [6u8; 16],
    )
    .unwrap();
    assert!(verify_and_fold(&mut leader, &mut helper, &vdaf, &good));
    assert_eq!(leader.batch.accumulators.len(), 1);
}

#[test]
fn tampered_report_is_dropped_silently() {
    let parameters = test_parameters();
    let leader_config = gen_config(0);
    let helper_config = gen_config(1);
    let vdaf = SumVdaf::new_sum(255).unwrap();
    let verify_key = [9u8; 32];
    let mut leader = Aggregator::new(Role::Leader, &parameters, leader_config.clone(), verify_key);
    let mut helper = Aggregator::new(Role::Helper, &parameters, helper_config.clone(), verify_key);

    let mut report = prepare_report(
        &parameters,
        &leader_config,
        &helper_config,
        &vdaf,
        1,
        Time(INTERVAL_START),
        [5u8; 16],
    )
    .unwrap();
    report.encrypted_input_shares[1].payload[0] ^= 0xff;

    let folded = verify_and_fold(&mut leader, &mut helper, &vdaf, &report);
    assert!(!folded);
    assert_eq!(leader.batch.accumulators.len(), 0);
    assert_eq!(helper.batch.accumulators.len(), 0);
}
