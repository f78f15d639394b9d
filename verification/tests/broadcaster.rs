use ampd::account_client::GasEstimatorError;
use ampd::broadcaster::{BroadcastAction, BroadcastEvent, BroadcastStage, Broadcaster, BroadcasterError};
use ampd::helpers::{generate_sim_tx, generate_tx};
use ampd::msg::{Any, Fee};
use cosmrs::crypto::secp256k1::SigningKey;
use std::hash::{BuildHasher, Hasher};

const CHAIN_ID: &str = "axelar-unit-test";

fn random_secret() -> Vec<u8> {
    let mut seed = Vec::new();
    for i in 0..4u8 {
        let mut h = std::collections::hash_map::RandomState::new().build_hasher();
        h.write_u8(i);
        seed.extend_from_slice(&h.finish().to_le_bytes());
    }
    cosmrs::bip32::XPrv::new(&seed).unwrap().private_key().to_bytes().to_vec()
}

fn public_key_any(secret: &[u8]) -> Any {
    let any = SigningKey::from_bytes(secret).unwrap().public_key().to_any().unwrap();
    Any { type_url: any.type_url, value: any.value }
}

fn some_msgs() -> Vec<Any> {
    vec![Any { type_url: "/cosmos.bank.v1beta1.MsgSend".to_string(), value: vec![10, 3, 97, 98, 99] }]
}

fn fee() -> Fee {
    Fee::new(150, "uaxl".to_string(), 1500)
}

#[test]
fn successful_broadcast_advances_sequence_once() {
    let secret = random_secret();
    let mut b = Broadcaster::new(3, 5, 3, secret.clone(), CHAIN_ID.to_string());
    let (mut attempt, action) = b.broadcast(some_msgs());
    let sim = generate_sim_tx(&some_msgs(), 5, &public_key_any(&secret)).unwrap();
    assert_eq!(action, BroadcastAction::EstimateGas(sim));
    assert_eq!(attempt.stage(), BroadcastStage::EstimatingGas);

    let action = b.advance(&mut attempt, BroadcastEvent::GasEstimated(Ok(1000)));
    assert_eq!(action, BroadcastAction::PriceFee(1000));

    let action = b.advance(&mut attempt, BroadcastEvent::FeePriced(fee()));
    let tx = generate_tx(&some_msgs(), &secret, 3, 5, &fee(), &CHAIN_ID.to_string()).unwrap();
    assert_eq!(action, BroadcastAction::Submit(tx));

    let action = b.advance(&mut attempt, BroadcastEvent::Submitted(true));
    assert_eq!(action, BroadcastAction::SleepThenPoll);
    let action = b.advance(&mut attempt, BroadcastEvent::InclusionPolled(false));
    assert_eq!(action, BroadcastAction::SleepThenPoll);
    assert_eq!(b.acc_sequence(), 5);
    let action = b.advance(&mut attempt, BroadcastEvent::InclusionPolled(true));
    assert_eq!(action, BroadcastAction::Finish(Ok(())));
    assert_eq!(b.acc_sequence(), 6);
    assert_eq!(b.acc_number(), 3);
    assert_eq!(attempt.stage(), BroadcastStage::Finished);
    assert!(!attempt.accepts(&BroadcastEvent::InclusionPolled(true)));
}

#[test]
fn next_broadcast_signs_with_the_advanced_sequence() {
    let secret = random_secret();
    let mut b = Broadcaster::new(3, 0, 1, secret.clone(), CHAIN_ID.to_string());
    let (mut attempt, _) = b.broadcast(some_msgs());
    b.advance(&mut attempt, BroadcastEvent::GasEstimated(Ok(10)));
    b.advance(&mut attempt, BroadcastEvent::FeePriced(fee()));
    b.advance(&mut attempt, BroadcastEvent::Submitted(true));
    assert_eq!(b.advance(&mut attempt, BroadcastEvent::InclusionPolled(true)), BroadcastAction::Finish(Ok(())));
    let (_, action) = b.broadcast(some_msgs());
    let sim = generate_sim_tx(&some_msgs(), 1, &public_key_any(&secret)).unwrap();
    assert_eq!(action, BroadcastAction::EstimateGas(sim));
}

#[test]
fn gas_estimation_failure_ends_broadcast() {
    let mut b = Broadcaster::new(3, 5, 3, random_secret(), CHAIN_ID.to_string());
    let (mut attempt, _) = b.broadcast(some_msgs());
    let action = b.advance(&mut attempt, BroadcastEvent::GasEstimated(Err(GasEstimatorError::AccountSequenceMismatch)));
    assert_eq!(action, BroadcastAction::Finish(Err(BroadcasterError::GasEstimationFailed)));
    assert_eq!(b.acc_sequence(), 5);
    assert_eq!(attempt.stage(), BroadcastStage::Finished);
}

#[test]
fn connection_failure_ends_broadcast() {
    let mut b = Broadcaster::new(3, 5, 3, random_secret(), CHAIN_ID.to_string());
    let (mut attempt, _) = b.broadcast(some_msgs());
    b.advance(&mut attempt, BroadcastEvent::GasEstimated(Ok(1)));
    b.advance(&mut attempt, BroadcastEvent::FeePriced(fee()));
    let action = b.advance(&mut attempt, BroadcastEvent::Submitted(false));
    assert_eq!(action, BroadcastAction::Finish(Err(BroadcasterError::ConnectionFailed)));
    assert_eq!(b.acc_sequence(), 5);
}

#[test]
fn inclusion_timeout_ends_broadcast() {
    let mut b = Broadcaster::new(3, 5, 2, random_secret(), CHAIN_ID.to_string());
    let (mut attempt, _) = b.broadcast(some_msgs());
    b.advance(&mut attempt, BroadcastEvent::GasEstimated(Ok(1)));
    b.advance(&mut attempt, BroadcastEvent::FeePriced(fee()));
    assert_eq!(b.advance(&mut attempt, BroadcastEvent::Submitted(true)), BroadcastAction::SleepThenPoll);
    assert_eq!(b.advance(&mut attempt, BroadcastEvent::InclusionPolled(false)), BroadcastAction::SleepThenPoll);
    let action = b.advance(&mut attempt, BroadcastEvent::InclusionPolled(false));
    assert_eq!(action, BroadcastAction::Finish(Err(BroadcasterError::BlockInclusionTimeout)));
    assert_eq!(b.acc_sequence(), 5);
}

#[test]
fn no_retries_times_out_after_submission() {
    let mut b = Broadcaster::new(3, 5, 0, random_secret(), CHAIN_ID.to_string());
    let (mut attempt, _) = b.broadcast(some_msgs());
    b.advance(&mut attempt, BroadcastEvent::GasEstimated(Ok(1)));
    b.advance(&mut attempt, BroadcastEvent::FeePriced(fee()));
    let action = b.advance(&mut attempt, BroadcastEvent::Submitted(true));
    assert_eq!(action, BroadcastAction::Finish(Err(BroadcasterError::BlockInclusionTimeout)));
    assert_eq!(b.acc_sequence(), 5);
}

#[test]
fn unsignable_transaction_ends_broadcast() {
    let mut b = Broadcaster::new(3, 5, 3, random_secret(), String::new());
    let (mut attempt, _) = b.broadcast(some_msgs());
    b.advance(&mut attempt, BroadcastEvent::GasEstimated(Ok(1)));
    let action = b.advance(&mut attempt, BroadcastEvent::FeePriced(fee()));
    assert_eq!(action, BroadcastAction::Finish(Err(BroadcasterError::TxMarshalingFailed)));
}

#[test]
fn invalid_key_fails_before_simulation() {
    let b = Broadcaster::new(3, 5, 3, vec![0u8; 32], CHAIN_ID.to_string());
    let (attempt, action) = b.broadcast(some_msgs());
    assert_eq!(action, BroadcastAction::Finish(Err(BroadcasterError::TxMarshalingFailed)));
    assert_eq!(attempt.stage(), BroadcastStage::Finished);
}

#[test]
fn attempt_accepts_only_the_awaited_event() {
    let b = Broadcaster::new(3, 5, 3, random_secret(), CHAIN_ID.to_string());
    let (attempt, _) = b.broadcast(some_msgs());
    assert!(attempt.accepts(&BroadcastEvent::GasEstimated(Ok(1))));
    assert!(!attempt.accepts(&BroadcastEvent::Submitted(true)));
    assert!(!attempt.accepts(&BroadcastEvent::FeePriced(fee())));
    assert!(!attempt.accepts(&BroadcastEvent::InclusionPolled(true)));
}
