//! The account that the broadcaster signs for, as the chain's auth module
//! records it, and the interpretation of the node's answers about it.
use vstd::prelude::*;
use crate::cosmos::{base_account_decoding, decode_base_account};
use crate::msg::BaseAccount;

verus! {

/// The description under which the Cosmos SDK registers its error code 32
/// (`ErrWrongSequence`): the ASCII bytes of "incorrect account sequence". A
/// node that refuses a simulation for that error carries this description in
/// the message of its refusal; no other SDK error carries it.
pub open spec fn wrong_sequence_description() -> Seq<u8> {
    seq![105u8, 110u8, 99u8, 111u8, 114u8, 114u8, 101u8, 99u8, 116u8, 32u8, 97u8, 99u8, 99u8, 111u8, 117u8, 110u8, 116u8, 32u8, 115u8, 101u8, 113u8, 117u8, 101u8, 110u8, 99u8, 101u8]
}

/// The bytes of `wrong_sequence_description`.
pub fn wrong_sequence_description_bytes() -> (r: Vec<u8>)
    ensures
        r@ == wrong_sequence_description(),
{
    let r: Vec<u8> = vec![105u8, 110u8, 99u8, 111u8, 114u8, 114u8, 101u8, 99u8, 116u8, 32u8, 97u8, 99u8, 99u8, 111u8, 117u8, 110u8, 116u8, 32u8, 115u8, 101u8, 113u8, 117u8, 101u8, 110u8, 99u8, 101u8];
    assert(r@ =~= wrong_sequence_description());
    r
}

/// `needle` occurs in `haystack` starting at position `i`.
pub open spec fn occurs_at(haystack: Seq<u8>, needle: Seq<u8>, i: int) -> bool {
    &&& 0 <= i
    &&& i + needle.len() <= haystack.len()
    &&& haystack.subrange(i, i + needle.len()) == needle
}

/// `needle` occurs somewhere in `haystack`.
pub open spec fn occurs_in(haystack: Seq<u8>, needle: Seq<u8>) -> bool {
    exists|i: int| occurs_at(haystack, needle, i)
}

/// Whether `needle` occurs in `haystack`.
pub fn contains_bytes(haystack: &Vec<u8>, needle: &Vec<u8>) -> (r: bool)
    ensures
        r == occurs_in(haystack@, needle@),
{
    let n = needle.len();
    if n > haystack.len() {
        assert forall|k: int| !occurs_at(haystack@, needle@, k) by {}
        return false;
    }
    let last = haystack.len() - n;
    let mut i: usize = 0;
    loop
        invariant
            n == needle@.len(),
            n <= haystack@.len(),
            last == haystack@.len() - n,
            i <= last,
            forall|k: int| 0 <= k < i ==> !occurs_at(haystack@, needle@, k),
        decreases last - i,
    {
        let mut j: usize = 0;
        let mut same = true;
        while j < n
            invariant
                n == needle@.len(),
                n <= haystack@.len(),
                haystack@.len() == haystack.len(),
                i <= last,
                last == haystack@.len() - n,
                j <= n,
                same ==> forall|m: int| 0 <= m < j ==> haystack@[i + m] == needle@[m],
                !same ==> !occurs_at(haystack@, needle@, i as int),
            decreases n - j,
        {
            if haystack[i + j] != needle[j] {
                if same {
                    assert(haystack@.subrange(i as int, i + n)[j as int] != needle@[j as int]);
                }
                same = false;
            }
            j = j + 1;
        }
        if same {
            assert(haystack@.subrange(i as int, i + n) =~= needle@);
            assert(occurs_at(haystack@, needle@, i as int));
            return true;
        }
        if i == last {
            assert forall|k: int| !occurs_at(haystack@, needle@, k) by {
                if 0 <= k && k > i {
                    assert(k + n > haystack@.len());
                }
            }
            return false;
        }
        i = i + 1;
    }
}

/// Why a gas estimate failed.
#[derive(Debug, PartialEq, Eq, Structural, Clone, Copy)]
pub enum GasEstimatorError {
    /// The node could not be reached.
    ConnectionFailed,
    /// The node's answer could not be obtained.
    RemoteCallFailed,
    /// The simulated transaction carried the wrong account sequence.
    AccountSequenceMismatch,
    /// The node could not simulate the transaction.
    TxSimulationFailed,
}

/// Why fetching the account record failed.
#[derive(Debug, PartialEq, Eq, Structural, Clone, Copy)]
pub enum AccountClientError {
    /// The node could not be reached.
    ConnectionFailed,
    /// The node's answer could not be obtained.
    RemoteCallFailed,
    /// The answer did not hold a decodable account record.
    UnmarshalingFailed,
}

/// What a client knows of the account it signs for.
pub trait AccountInfo {
    /// The account's address.
    fn address(&self) -> String;

    /// The sequence number that the account's next transaction carries.
    fn sequence(&self) -> u64;

    /// The account's number on the chain.
    fn account_number(&self) -> u64;
}

/// The gas that a simulation reports, as the estimate reads it: the gas used
/// where the node answered with gas information, `TxSimulationFailed` where
/// the answer had none, and, where the node refused the call with a message,
/// `AccountSequenceMismatch` exactly when the message reports the SDK's wrong
/// sequence error (code 32, see `wrong_sequence_description`) and
/// `TxSimulationFailed` for every other refusal.
pub open spec fn simulated_gas(outcome: Result<Option<u64>, Seq<u8>>) -> Result<u64, GasEstimatorError> {
    match outcome {
        Ok(Some(gas_used)) => Ok(gas_used),
        Ok(None) => Err(GasEstimatorError::TxSimulationFailed),
        Err(message) => if occurs_in(message, wrong_sequence_description()) {
            Err(GasEstimatorError::AccountSequenceMismatch)
        } else {
            Err(GasEstimatorError::TxSimulationFailed)
        },
    }
}

/// A simulation answer with gas information gives exactly the gas used; one
/// without gives `TxSimulationFailed`. A refusal whose message holds the wrong
/// sequence description anywhere gives `AccountSequenceMismatch`; a refusal
/// whose message is too short to hold it gives `TxSimulationFailed`; and no
/// refusal ever gives a gas amount.
pub proof fn lemma_simulated_gas(
    gas_used: u64,
    before: Seq<u8>,
    after: Seq<u8>,
    short: Seq<u8>,
    message: Seq<u8>,
    raw_message: Vec<u8>,
)
    requires
        short.len() < wrong_sequence_description().len(),
    ensures
        simulated_gas(simulation_view(Ok(Some(gas_used)))) == Ok::<u64, GasEstimatorError>(gas_used),
        simulated_gas(simulation_view(Ok(None))) == Err::<u64, GasEstimatorError>(
            GasEstimatorError::TxSimulationFailed,
        ),
        simulated_gas(simulation_view(Err(raw_message))) == simulated_gas(Err(raw_message@)),
        simulated_gas(Err(before + wrong_sequence_description() + after)) == Err::<u64, GasEstimatorError>(
            GasEstimatorError::AccountSequenceMismatch,
        ),
        simulated_gas(Err(short)) == Err::<u64, GasEstimatorError>(GasEstimatorError::TxSimulationFailed),
        simulated_gas(Err(message)) == Err::<u64, GasEstimatorError>(GasEstimatorError::AccountSequenceMismatch)
            || simulated_gas(Err(message)) == Err::<u64, GasEstimatorError>(GasEstimatorError::TxSimulationFailed),
{
    let d = wrong_sequence_description();
    let m = before + d + after;
    assert(m.subrange(before.len() as int, (before.len() + d.len()) as int) =~= d);
    assert(occurs_at(m, d, before.len() as int));
    assert forall|i: int| !occurs_at(short, d, i) by {}
}

/// The view of a simulation answer.
pub open spec fn simulation_view(outcome: Result<Option<u64>, Vec<u8>>) -> Result<Option<u64>, Seq<u8>> {
    match outcome {
        Ok(gas) => Ok(gas),
        Err(message) => Err(message@),
    }
}

/// Reads the node's answer to a simulation request: `Ok` with the gas used, if
/// the answer holds gas information, or `Err` with the bytes of the message
/// with which the node refused the request. See `simulated_gas`.
pub fn gas_from_simulation(outcome: Result<Option<u64>, Vec<u8>>) -> (r: Result<u64, GasEstimatorError>)
    ensures
        r == simulated_gas(simulation_view(outcome)),
{
    match outcome {
        Ok(Some(gas_used)) => Ok(gas_used),
        Ok(None) => Err(GasEstimatorError::TxSimulationFailed),
        Err(message) => if contains_bytes(&message, &wrong_sequence_description_bytes()) {
            Err(GasEstimatorError::AccountSequenceMismatch)
        } else {
            Err(GasEstimatorError::TxSimulationFailed)
        },
    }
}

/// A client for the account at `address`, talking to the node at `grpc_url`;
/// it keeps the account record once it has fetched it.
#[derive(Debug, Clone)]
pub struct GrpcAccountClient {
    grpc_url: String,
    address: String,
    account_info: Option<BaseAccount>,
}

/// The mathematical view of a `GrpcAccountClient`.
pub ghost struct AccountClientView {
    pub grpc_url: Seq<char>,
    pub address: Seq<char>,
    pub account_info: Option<(Seq<char>, Option<(Seq<char>, Seq<u8>)>, u64, u64)>,
}

impl View for GrpcAccountClient {
    type V = AccountClientView;

    closed spec fn view(&self) -> AccountClientView {
        AccountClientView {
            grpc_url: self.grpc_url@,
            address: self.address@,
            account_info: match self.account_info {
                Some(a) => Some(a@),
                None => None,
            },
        }
    }
}

/// The outcome of a synchronisation of a client whose record stands at
/// `known`, when the node's answer was `fetched`: nothing to do where the
/// record is known already; otherwise the error of the fetch, or
/// `UnmarshalingFailed` where the answer held no account or its bytes do not
/// decode as an account record.
pub open spec fn synch_result(
    known: Option<(Seq<char>, Option<(Seq<char>, Seq<u8>)>, u64, u64)>,
    fetched: Result<Option<Seq<u8>>, AccountClientError>,
) -> (Option<(Seq<char>, Option<(Seq<char>, Seq<u8>)>, u64, u64)>, Result<(), AccountClientError>) {
    if known is Some {
        (known, Ok(()))
    } else {
        match fetched {
            Err(e) => (known, Err(e)),
            Ok(None) => (known, Err(AccountClientError::UnmarshalingFailed)),
            Ok(Some(bytes)) => match base_account_decoding(bytes) {
                Some(account) => (Some(account), Ok(())),
                None => (known, Err(AccountClientError::UnmarshalingFailed)),
            },
        }
    }
}

/// The view of an optional fetched account payload.
pub open spec fn fetched_view(
    fetched: Result<Option<Vec<u8>>, AccountClientError>,
) -> Result<Option<Seq<u8>>, AccountClientError> {
    match fetched {
        Ok(Some(b)) => Ok(Some(b@)),
        Ok(None) => Ok(None),
        Err(e) => Err(e),
    }
}

impl GrpcAccountClient {
    /// A client for the account at `address`, served by `grpc_url`, that knows
    /// nothing of the account yet.
    pub fn new(address: String, grpc_url: String) -> (c: GrpcAccountClient)
        ensures
            c@ == (AccountClientView { grpc_url: grpc_url@, address: address@, account_info: None }),
    {
        GrpcAccountClient { grpc_url, address, account_info: None }
    }

    /// The URL of the node that serves this client.
    pub fn grpc_url(&self) -> (r: String)
        ensures
            r@ == self@.grpc_url,
    {
        self.grpc_url.clone()
    }

    /// Whether the account record still has to be fetched.
    pub fn needs_synch(&self) -> (r: bool)
        ensures
            r == (self@.account_info is None),
    {
        self.account_info.is_none()
    }

    /// Completes a synchronisation with the node's answer `fetched`: the encoded
    /// account record that the node returned (if it returned one), or the error
    /// of the fetch. A client that knows its record already keeps it and
    /// succeeds. See `synch_result`.
    pub fn synch(&mut self, fetched: Result<Option<Vec<u8>>, AccountClientError>) -> (r: Result<(), AccountClientError>)
        ensures
            final(self)@.grpc_url == old(self)@.grpc_url,
            final(self)@.address == old(self)@.address,
            (final(self)@.account_info, r) == synch_result(old(self)@.account_info, fetched_view(fetched)),
    {
        if self.account_info.is_some() {
            return Ok(());
        }
        match fetched {
            Err(e) => Err(e),
            Ok(None) => Err(AccountClientError::UnmarshalingFailed),
            Ok(Some(bytes)) => match decode_base_account(&bytes) {
                Ok(account) => {
                    self.account_info = Some(account);
                    Ok(())
                },
                Err(_) => Err(AccountClientError::UnmarshalingFailed),
            },
        }
    }
}

impl AccountInfo for GrpcAccountClient {
    /// The address that the client was made for.
    fn address(&self) -> (r: String)
        ensures
            r@ == self@.address,
    {
        self.address.clone()
    }

    /// The fetched record's sequence, or 0 before the record is fetched.
    fn sequence(&self) -> (r: u64)
        ensures
            r == match self@.account_info {
                Some(a) => a.3,
                None => 0,
            },
    {
        match &self.account_info {
            Some(info) => info.sequence,
            None => 0,
        }
    }

    /// The fetched record's account number, or 0 before the record is fetched.
    fn account_number(&self) -> (r: u64)
        ensures
            r == match self@.account_info {
                Some(a) => a.2,
                None => 0,
            },
    {
        match &self.account_info {
            Some(info) => info.account_number,
            None => 0,
        }
    }
}

/// A client that knows no record yet and gets bytes that decode as an account
/// record succeeds and keeps exactly that record, whatever the record holds
/// (its public key included). Bytes that do not decode, an answer without an
/// account, or a failed fetch leave it without a record, with
/// `UnmarshalingFailed` for the first two and the fetch's own error for the
/// last.
pub proof fn lemma_synch_from_nothing(bytes: Vec<u8>, e: AccountClientError)
    ensures
        base_account_decoding(bytes@) is Some ==> synch_result(None, fetched_view(Ok(Some(bytes)))) == (
            base_account_decoding(bytes@),
            Ok::<(), AccountClientError>(()),
        ),
        base_account_decoding(bytes@) is None ==> synch_result(None, fetched_view(Ok(Some(bytes)))) == (
            None::<(Seq<char>, Option<(Seq<char>, Seq<u8>)>, u64, u64)>,
            Err::<(), AccountClientError>(AccountClientError::UnmarshalingFailed),
        ),
        synch_result(None, fetched_view(Ok(None))) == (
            None::<(Seq<char>, Option<(Seq<char>, Seq<u8>)>, u64, u64)>,
            Err::<(), AccountClientError>(AccountClientError::UnmarshalingFailed),
        ),
        synch_result(None, fetched_view(Err(e))) == (
            None::<(Seq<char>, Option<(Seq<char>, Seq<u8>)>, u64, u64)>,
            Err::<(), AccountClientError>(e),
        ),
{
}

/// Once a client knows its account record, synchronising again changes
/// nothing and succeeds, whatever the node answers.
pub proof fn lemma_synch_idempotent(
    known: (Seq<char>, Option<(Seq<char>, Seq<u8>)>, u64, u64),
    fetched: Result<Option<Seq<u8>>, AccountClientError>,
)
    ensures
        synch_result(Some(known), fetched) == (Some(known), Ok::<(), AccountClientError>(())),
{
}

/// A synchronisation either fails and leaves the client as it was, or
/// succeeds and leaves it knowing a record: the record it knew already, or the
/// one decoded from the node's answer.
pub proof fn lemma_synch_outcome(
    known: Option<(Seq<char>, Option<(Seq<char>, Seq<u8>)>, u64, u64)>,
    fetched: Result<Option<Seq<u8>>, AccountClientError>,
)
    ensures
        synch_result(known, fetched).1 is Err ==> synch_result(known, fetched).0 == known,
        synch_result(known, fetched).1 is Ok ==> synch_result(known, fetched).0 is Some,
        synch_result(known, fetched).1 is Ok && known is None ==> (fetched matches Ok(Some(bytes))
            && base_account_decoding(bytes) == synch_result(known, fetched).0),
{
}

} // verus!
