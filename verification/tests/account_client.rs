use ampd::account_client::{
    contains_bytes, gas_from_simulation, wrong_sequence_description_bytes, AccountClientError, AccountInfo,
    GasEstimatorError, GrpcAccountClient,
};
use cosmos_sdk_proto::traits::Message;

fn encoded_account(account_number: u64, sequence: u64) -> Vec<u8> {
    cosmos_sdk_proto::cosmos::auth::v1beta1::BaseAccount {
        address: "axelar1abc".to_string(),
        pub_key: None,
        account_number,
        sequence,
    }
    .encode_to_vec()
}

#[test]
fn simulation_gas_used_is_the_estimate() {
    assert_eq!(gas_from_simulation(Ok(Some(84_000))), Ok(84_000));
}

#[test]
fn simulation_without_gas_info_fails() {
    assert_eq!(gas_from_simulation(Ok(None)), Err(GasEstimatorError::TxSimulationFailed));
}

#[test]
fn sequence_mismatch_refusal_is_reported() {
    let message = "account sequence mismatch, expected 5, got 4: incorrect account sequence With gas wanted: '0' and gas used: '1234' ";
    assert_eq!(
        gas_from_simulation(Err(message.as_bytes().to_vec())),
        Err(GasEstimatorError::AccountSequenceMismatch)
    );
}

#[test]
fn other_sdk_refusals_are_simulation_failures() {
    let out_of_gas = "out of gas in location: ReadFlat; gasWanted: 0, gasUsed: 1001: out of gas";
    let insufficient_fee = "insufficient fees; got: 0uaxl required: 100uaxl: insufficient fee";
    assert_eq!(gas_from_simulation(Err(out_of_gas.as_bytes().to_vec())), Err(GasEstimatorError::TxSimulationFailed));
    assert_eq!(
        gas_from_simulation(Err(insufficient_fee.as_bytes().to_vec())),
        Err(GasEstimatorError::TxSimulationFailed)
    );
    assert_eq!(gas_from_simulation(Err(Vec::new())), Err(GasEstimatorError::TxSimulationFailed));
}

#[test]
fn wrong_sequence_description_is_the_sdk_text() {
    assert_eq!(wrong_sequence_description_bytes(), b"incorrect account sequence".to_vec());
}

#[test]
fn contains_bytes_finds_occurrences() {
    assert!(contains_bytes(&b"abcdef".to_vec(), &b"cde".to_vec()));
    assert!(contains_bytes(&b"abcdef".to_vec(), &b"abcdef".to_vec()));
    assert!(contains_bytes(&b"abc".to_vec(), &Vec::new()));
    assert!(contains_bytes(&Vec::new(), &Vec::new()));
    assert!(!contains_bytes(&b"abcdef".to_vec(), &b"cdf".to_vec()));
    assert!(!contains_bytes(&b"ab".to_vec(), &b"abc".to_vec()));
    assert!(contains_bytes(&b"aab".to_vec(), &b"ab".to_vec()));
}

#[test]
fn new_client_knows_nothing() {
    let c = GrpcAccountClient::new("axelar1abc".to_string(), "http://localhost:9090".to_string());
    assert_eq!(c.address(), "axelar1abc");
    assert_eq!(c.grpc_url(), "http://localhost:9090");
    assert_eq!(c.sequence(), 0);
    assert_eq!(c.account_number(), 0);
    assert!(c.needs_synch());
}

#[test]
fn synch_stores_the_decoded_account() {
    let mut c = GrpcAccountClient::new("axelar1abc".to_string(), "http://localhost:9090".to_string());
    assert_eq!(c.synch(Ok(Some(encoded_account(42, 7)))), Ok(()));
    assert_eq!(c.account_number(), 42);
    assert_eq!(c.sequence(), 7);
    assert!(!c.needs_synch());
}

#[test]
fn synch_is_idempotent() {
    let mut c = GrpcAccountClient::new("axelar1abc".to_string(), "http://localhost:9090".to_string());
    assert_eq!(c.synch(Ok(Some(encoded_account(42, 7)))), Ok(()));
    assert_eq!(c.synch(Ok(Some(encoded_account(1, 1)))), Ok(()));
    assert_eq!(c.synch(Err(AccountClientError::ConnectionFailed)), Ok(()));
    assert_eq!(c.account_number(), 42);
    assert_eq!(c.sequence(), 7);
}

#[test]
fn synch_without_account_fails_unmarshaling() {
    let mut c = GrpcAccountClient::new("a".to_string(), "u".to_string());
    assert_eq!(c.synch(Ok(None)), Err(AccountClientError::UnmarshalingFailed));
    assert!(c.needs_synch());
}

#[test]
fn synch_with_garbage_fails_unmarshaling() {
    let mut c = GrpcAccountClient::new("a".to_string(), "u".to_string());
    assert_eq!(c.synch(Ok(Some(vec![0xff, 0xff, 0xff]))), Err(AccountClientError::UnmarshalingFailed));
    assert_eq!(c.sequence(), 0);
}

#[test]
fn synch_passes_fetch_errors_on() {
    let mut c = GrpcAccountClient::new("a".to_string(), "u".to_string());
    assert_eq!(c.synch(Err(AccountClientError::RemoteCallFailed)), Err(AccountClientError::RemoteCallFailed));
    assert_eq!(c.synch(Err(AccountClientError::ConnectionFailed)), Err(AccountClientError::ConnectionFailed));
    assert!(c.needs_synch());
}
