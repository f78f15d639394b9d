use ampd::broadcaster::BroadcasterError;
use ampd::helpers::{generate_sim_tx, generate_tx};
use ampd::msg::{Any, Fee};
use cosmrs::bank::MsgSend;
use cosmrs::crypto::secp256k1::SigningKey;
use cosmrs::tx::{AccountNumber, Msg, Raw};
use cosmrs::Coin;
use std::hash::{BuildHasher, Hasher};

const CHAIN_ID: &str = "axelar-unit-test";
const ACC_NUMBER: AccountNumber = 1;
const ACC_PREFIX: &str = "axelar";
const DENOM: &str = "uaxl";

fn random_secret() -> Vec<u8> {
    let mut seed = Vec::new();
    for i in 0..4u8 {
        let mut h = std::collections::hash_map::RandomState::new().build_hasher();
        h.write_u8(i);
        seed.extend_from_slice(&h.finish().to_le_bytes());
    }
    cosmrs::bip32::XPrv::new(&seed).unwrap().private_key().to_bytes().to_vec()
}

fn public_key_any(secret: &[u8]) -> Any {
    let any = SigningKey::from_bytes(secret).unwrap().public_key().to_any().unwrap();
    Any { type_url: any.type_url, value: any.value }
}

fn msg_send(secret: &[u8]) -> Any {
    let account_id = SigningKey::from_bytes(secret).unwrap().public_key().account_id(ACC_PREFIX).unwrap();
    let recipient_account_id = SigningKey::from_bytes(&random_secret())
        .unwrap()
        .public_key()
        .account_id(ACC_PREFIX)
        .unwrap();
    let amount = Coin { amount: 1u8.into(), denom: DENOM.parse().unwrap() };
    let msg = MsgSend { from_address: account_id, to_address: recipient_account_id, amount: vec![amount] }
        .to_any()
        .unwrap();
    Any { type_url: msg.type_url, value: msg.value }
}

#[test]
fn marshal_sim_tx_success() {
    let priv_key = random_secret();
    let msg = msg_send(&priv_key);
    let res = generate_sim_tx(&vec![msg], 0, &public_key_any(&priv_key));
    assert!(res.is_ok());
}

#[test]
fn marshal_tx_success() {
    let priv_key = random_secret();
    let msg = msg_send(&priv_key);
    let seq_number = 0;
    let gas = 100_000u64;
    let fee = Fee::new(1, DENOM.to_string(), gas);
    let res = generate_tx(&vec![msg], &priv_key, ACC_NUMBER, seq_number, &fee, &CHAIN_ID.to_string());
    assert!(res.is_ok());
}

#[test]
fn sim_tx_holds_messages_zero_fee_and_one_empty_signature() {
    let priv_key = random_secret();
    let msg = msg_send(&priv_key);
    let bytes = generate_sim_tx(&vec![msg.clone()], 7, &public_key_any(&priv_key)).unwrap();
    let tx = cosmrs::Tx::from_bytes(&bytes).unwrap();
    assert_eq!(tx.signatures, vec![Vec::<u8>::new()]);
    assert_eq!(tx.body.messages.len(), 1);
    assert_eq!(tx.body.messages[0].type_url, msg.type_url);
    assert_eq!(tx.body.messages[0].value, msg.value);
    assert_eq!(tx.auth_info.signer_infos.len(), 1);
    assert_eq!(tx.auth_info.signer_infos[0].sequence, 7);
    assert_eq!(tx.auth_info.fee.gas_limit, 0);
    assert_eq!(tx.auth_info.fee.amount.len(), 1);
    assert_eq!(tx.auth_info.fee.amount[0].amount, 0);
    assert_eq!(tx.auth_info.fee.amount[0].denom.to_string(), "");
}

#[test]
fn sim_tx_is_deterministic() {
    let priv_key = random_secret();
    let msgs = vec![msg_send(&priv_key), msg_send(&priv_key)];
    let key = public_key_any(&priv_key);
    assert_eq!(generate_sim_tx(&msgs, 3, &key), generate_sim_tx(&msgs, 3, &key));
}

#[test]
fn signed_tx_shares_body_with_sim_tx() {
    let priv_key = random_secret();
    let msgs = vec![msg_send(&priv_key)];
    let sim = generate_sim_tx(&msgs, 4, &public_key_any(&priv_key)).unwrap();
    let fee = Fee::new(25, DENOM.to_string(), 1234);
    let signed = generate_tx(&msgs, &priv_key, 9, 4, &fee, &CHAIN_ID.to_string()).unwrap();
    let sim_raw: cosmrs::proto::cosmos::tx::v1beta1::TxRaw = Raw::from_bytes(&sim).unwrap().into();
    let signed_raw: cosmrs::proto::cosmos::tx::v1beta1::TxRaw = Raw::from_bytes(&signed).unwrap().into();
    assert_eq!(sim_raw.body_bytes, signed_raw.body_bytes);
    assert_eq!(signed_raw.signatures.len(), 1);
    assert!(!signed_raw.signatures[0].is_empty());
    let tx = cosmrs::Tx::from_bytes(&signed).unwrap();
    assert_eq!(tx.auth_info.signer_infos[0].sequence, 4);
    assert_eq!(tx.auth_info.fee.gas_limit, 1234);
    assert_eq!(tx.auth_info.fee.amount[0].amount, 25);
    assert_eq!(tx.auth_info.fee.amount[0].denom.to_string(), DENOM);
}

#[test]
fn signed_tx_is_deterministic() {
    let priv_key = random_secret();
    let msgs = vec![msg_send(&priv_key)];
    let fee = Fee::new(1, DENOM.to_string(), 10);
    let a = generate_tx(&msgs, &priv_key, 1, 2, &fee, &CHAIN_ID.to_string());
    let b = generate_tx(&msgs, &priv_key, 1, 2, &fee, &CHAIN_ID.to_string());
    assert!(a.is_ok());
    assert_eq!(a, b);
}

#[test]
fn invalid_chain_id_fails_marshaling() {
    let priv_key = random_secret();
    let msgs = vec![msg_send(&priv_key)];
    let fee = Fee::new(1, DENOM.to_string(), 10);
    let res = generate_tx(&msgs, &priv_key, 1, 0, &fee, &String::new());
    assert_eq!(res, Err(BroadcasterError::TxMarshalingFailed));
}

#[test]
fn invalid_denom_fails_marshaling() {
    let priv_key = random_secret();
    let msgs = vec![msg_send(&priv_key)];
    let fee = Fee::new(1, "u-axl".to_string(), 10);
    let res = generate_tx(&msgs, &priv_key, 1, 0, &fee, &CHAIN_ID.to_string());
    assert_eq!(res, Err(BroadcasterError::TxMarshalingFailed));
}

#[test]
fn invalid_secret_key_fails_marshaling() {
    let priv_key = random_secret();
    let msgs = vec![msg_send(&priv_key)];
    let fee = Fee::new(1, DENOM.to_string(), 10);
    let res = generate_tx(&msgs, &vec![0u8; 32], 1, 0, &fee, &CHAIN_ID.to_string());
    assert_eq!(res, Err(BroadcasterError::TxMarshalingFailed));
}

#[test]
fn unknown_public_key_type_fails_marshaling() {
    let priv_key = random_secret();
    let msgs = vec![msg_send(&priv_key)];
    let mut key = public_key_any(&priv_key);
    key.type_url = "/not.a.Key".to_string();
    assert_eq!(generate_sim_tx(&msgs, 0, &key), Err(BroadcasterError::TxMarshalingFailed));
}
