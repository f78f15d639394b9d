//! Building the transactions that the broadcaster simulates and submits, and
//! the decisions of the wait for a submitted transaction to land in a block.
use vstd::prelude::*;
use crate::broadcaster::BroadcasterError;
use crate::cosmos::{
    auth_info_encoding, encode_auth_info, encode_raw_tx, encode_tx_body, public_key_of,
    raw_tx_encoding, secp256k1_public_key, sign_tx, signed_tx_encoding, tx_body_encoding,
};
use crate::msg::{Any, Fee, anys_view, byte_strings_view, zero_fee};

verus! {

/// The bytes of the unsigned transaction used to simulate `msgs`: the body
/// holding the messages, auth info for the signer `pub_key` at `sequence`
/// paying the zero fee, and a single empty signature.
pub open spec fn sim_tx_encoding(
    msgs: Seq<(Seq<char>, Seq<u8>)>,
    sequence: u64,
    pub_key: (Seq<char>, Seq<u8>),
) -> Option<Seq<u8>> {
    match (tx_body_encoding(msgs), auth_info_encoding(pub_key, sequence, zero_fee())) {
        (Some(body), Some(auth_info)) => raw_tx_encoding(body, auth_info, seq![Seq::<u8>::empty()]),
        _ => None,
    }
}

/// The bytes of the transaction that carries `msgs`, signed with the secret
/// key `secret` for `account_number` at `sequence`, paying `fee`, on `chain_id`.
pub open spec fn signed_tx_of(
    msgs: Seq<(Seq<char>, Seq<u8>)>,
    secret: Seq<u8>,
    account_number: u64,
    sequence: u64,
    fee: (u128, Seq<char>, u64),
    chain_id: Seq<char>,
) -> Option<Seq<u8>> {
    match secp256k1_public_key(secret) {
        Some(pub_key) => match (tx_body_encoding(msgs), auth_info_encoding(pub_key, sequence, fee)) {
            (Some(body), Some(auth_info)) => signed_tx_encoding(
                body,
                auth_info,
                chain_id,
                account_number,
                secret,
            ),
            _ => None,
        },
        None => None,
    }
}

/// `tx` is the raw encoding of the body holding `msgs` and of the auth info of
/// the key `secret` at `sequence` paying `fee`, with exactly one signature.
pub open spec fn signed_shape(
    tx: Seq<u8>,
    msgs: Seq<(Seq<char>, Seq<u8>)>,
    secret: Seq<u8>,
    sequence: u64,
    fee: (u128, Seq<char>, u64),
) -> bool {
    &&& secp256k1_public_key(secret) is Some
    &&& tx_body_encoding(msgs) is Some
    &&& auth_info_encoding(secp256k1_public_key(secret).unwrap(), sequence, fee) is Some
    &&& exists|sig: Seq<u8>|
        #[trigger] raw_tx_encoding(
            tx_body_encoding(msgs).unwrap(),
            auth_info_encoding(secp256k1_public_key(secret).unwrap(), sequence, fee).unwrap(),
            seq![sig],
        ) == Some(tx)
}

/// The transaction that is submitted for `msgs` and the one that was simulated
/// for them hold the same body bytes, and auth info for the same key and
/// sequence; they differ only in the fee and in the signature.
pub proof fn lemma_same_body(
    msgs: Seq<(Seq<char>, Seq<u8>)>,
    secret: Seq<u8>,
    sequence: u64,
    fee: (u128, Seq<char>, u64),
    sim: Seq<u8>,
    tx: Seq<u8>,
)
    requires
        sim_tx_encoding(msgs, sequence, secp256k1_public_key(secret).unwrap()) == Some(sim),
        signed_shape(tx, msgs, secret, sequence, fee),
    ensures
        tx_body_encoding(msgs) is Some,
        auth_info_encoding(secp256k1_public_key(secret).unwrap(), sequence, zero_fee()) is Some,
        auth_info_encoding(secp256k1_public_key(secret).unwrap(), sequence, fee) is Some,
        raw_tx_encoding(
            tx_body_encoding(msgs).unwrap(),
            auth_info_encoding(secp256k1_public_key(secret).unwrap(), sequence, zero_fee()).unwrap(),
            seq![Seq::<u8>::empty()],
        ) == Some(sim),
        exists|sig: Seq<u8>|
            #[trigger] raw_tx_encoding(
                tx_body_encoding(msgs).unwrap(),
                auth_info_encoding(secp256k1_public_key(secret).unwrap(), sequence, fee).unwrap(),
                seq![sig],
            ) == Some(tx),
{
}

/// The simulation transaction exists exactly when its three parts encode, for
/// any number of messages: the body holding all of `msgs`, the auth info of
/// `pub_key` at `sequence` paying nothing, and the raw transaction of these two
/// with one empty signature; and then it is that raw transaction.
pub proof fn lemma_sim_tx_built_from_parts(
    msgs: Seq<(Seq<char>, Seq<u8>)>,
    sequence: u64,
    pub_key: (Seq<char>, Seq<u8>),
)
    ensures
        (tx_body_encoding(msgs) is Some && auth_info_encoding(pub_key, sequence, zero_fee()) is Some
            && raw_tx_encoding(
            tx_body_encoding(msgs).unwrap(),
            auth_info_encoding(pub_key, sequence, zero_fee()).unwrap(),
            seq![Seq::<u8>::empty()],
        ) is Some) ==> sim_tx_encoding(msgs, sequence, pub_key) == raw_tx_encoding(
            tx_body_encoding(msgs).unwrap(),
            auth_info_encoding(pub_key, sequence, zero_fee()).unwrap(),
            seq![Seq::<u8>::empty()],
        ),
        sim_tx_encoding(msgs, sequence, pub_key) is Some ==> {
            &&& tx_body_encoding(msgs) is Some
            &&& auth_info_encoding(pub_key, sequence, zero_fee()) is Some
            &&& raw_tx_encoding(
                tx_body_encoding(msgs).unwrap(),
                auth_info_encoding(pub_key, sequence, zero_fee()).unwrap(),
                seq![Seq::<u8>::empty()],
            ) == sim_tx_encoding(msgs, sequence, pub_key)
        },
{
}

/// The signed transaction exists exactly when the key gives a public key, the
/// body of `msgs` and the auth info of that key at `sequence` paying `fee`
/// encode, and signing succeeds; and then it is the signature of the sign doc
/// made of these body and auth info bytes, the given `chain_id` and the given
/// `account_number`, with the key `secret`.
pub proof fn lemma_signed_tx_built_from_parts(
    msgs: Seq<(Seq<char>, Seq<u8>)>,
    secret: Seq<u8>,
    account_number: u64,
    sequence: u64,
    fee: (u128, Seq<char>, u64),
    chain_id: Seq<char>,
)
    ensures
        (secp256k1_public_key(secret) is Some && tx_body_encoding(msgs) is Some
            && auth_info_encoding(secp256k1_public_key(secret).unwrap(), sequence, fee) is Some)
            ==> signed_tx_of(msgs, secret, account_number, sequence, fee, chain_id)
            == signed_tx_encoding(
            tx_body_encoding(msgs).unwrap(),
            auth_info_encoding(secp256k1_public_key(secret).unwrap(), sequence, fee).unwrap(),
            chain_id,
            account_number,
            secret,
        ),
        signed_tx_of(msgs, secret, account_number, sequence, fee, chain_id) is Some ==> {
            &&& secp256k1_public_key(secret) is Some
            &&& tx_body_encoding(msgs) is Some
            &&& auth_info_encoding(secp256k1_public_key(secret).unwrap(), sequence, fee) is Some
        },
{
}

/// A transaction result as the broadcaster reports it: the bytes, or
/// `TxMarshalingFailed` where they could not be made.
pub open spec fn marshaled(bytes: Option<Seq<u8>>, r: Result<Vec<u8>, BroadcasterError>) -> bool {
    match r {
        Ok(b) => bytes == Some(b@),
        Err(e) => e == BroadcasterError::TxMarshalingFailed && bytes is None,
    }
}

/// A transaction result reports the bytes exactly when there are bytes to
/// report, and `TxMarshalingFailed` exactly when there are none.
pub proof fn lemma_marshaled(bytes: Option<Seq<u8>>, r: Result<Vec<u8>, BroadcasterError>)
    ensures
        marshaled(bytes, r) && bytes is Some ==> (r matches Ok(v) && v@ == bytes.unwrap()),
        marshaled(bytes, r) && bytes is None ==> r == Err::<Vec<u8>, BroadcasterError>(
            BroadcasterError::TxMarshalingFailed,
        ),
        forall|v: Vec<u8>| bytes == Some(v@) ==> marshaled(bytes, Ok(v)),
        bytes is None ==> marshaled(bytes, Err(BroadcasterError::TxMarshalingFailed)),
{
}

/// Encodes the transaction used to estimate the gas of `msgs` when signed by
/// `pub_key` at `sequence`: zero fee, one empty signature.
pub fn generate_sim_tx(msgs: &Vec<Any>, sequence: u64, pub_key: &Any) -> (r: Result<
    Vec<u8>,
    BroadcasterError,
>)
    ensures
        marshaled(sim_tx_encoding(anys_view(msgs@), sequence, pub_key@), r),
{
    let body_bytes = match encode_tx_body(msgs) {
        Ok(b) => b,
        Err(_) => return Err(BroadcasterError::TxMarshalingFailed),
    };
    let fee = Fee::new(0, String::new(), 0);
    let auth_info_bytes = match encode_auth_info(pub_key, sequence, &fee) {
        Ok(b) => b,
        Err(_) => return Err(BroadcasterError::TxMarshalingFailed),
    };
    let mut signatures: Vec<Vec<u8>> = Vec::new();
    signatures.push(Vec::new());
    assert(byte_strings_view(signatures@) =~= seq![Seq::<u8>::empty()]);
    match encode_raw_tx(body_bytes, auth_info_bytes, signatures) {
        Ok(b) => Ok(b),
        Err(_) => Err(BroadcasterError::TxMarshalingFailed),
    }
}

/// Encodes `msgs` as a transaction of `account_number` at `sequence` that pays
/// `fee` on `chain_id`, signed with the secp256k1 secret key `priv_key`.
///
/// The transaction holds the same body bytes that the simulated transaction
/// for the same messages holds, and exactly one signature.
pub fn generate_tx(
    msgs: &Vec<Any>,
    priv_key: &Vec<u8>,
    account_number: u64,
    sequence: u64,
    fee: &Fee,
    chain_id: &String,
) -> (r: Result<Vec<u8>, BroadcasterError>)
    ensures
        marshaled(
            signed_tx_of(anys_view(msgs@), priv_key@, account_number, sequence, fee@, chain_id@),
            r,
        ),
        r matches Ok(tx) ==> signed_shape(tx@, anys_view(msgs@), priv_key@, sequence, fee@),
{
    let pub_key = match public_key_of(priv_key) {
        Ok(k) => k,
        Err(_) => return Err(BroadcasterError::TxMarshalingFailed),
    };
    let auth_info_bytes = match encode_auth_info(&pub_key, sequence, fee) {
        Ok(b) => b,
        Err(_) => return Err(BroadcasterError::TxMarshalingFailed),
    };
    let body_bytes = match encode_tx_body(msgs) {
        Ok(b) => b,
        Err(_) => return Err(BroadcasterError::TxMarshalingFailed),
    };
    match sign_tx(body_bytes, auth_info_bytes, chain_id, account_number, priv_key) {
        Ok(b) => Ok(b),
        Err(_) => Err(BroadcasterError::TxMarshalingFailed),
    }
}

/// What the wait for block inclusion asks of its driver next.
#[derive(Debug, PartialEq, Eq, Clone, Copy)]
pub enum WaitAction {
    /// Sleep for the fetch interval, then ask the node for the transaction.
    SleepThenPoll,
    /// The wait is over, with this outcome.
    Finish(Result<(), BroadcasterError>),
}

/// The state of a wait for a transaction to be included in a block: the
/// driver polls the node at most `max_retries` times, sleeping before each poll.
#[derive(Debug, Clone, Copy, PartialEq, Eq)]
pub struct BlockInclusionWait {
    pub max_retries: u32,
    pub polls: u32,
    pub done: bool,
}

impl BlockInclusionWait {
    /// The counters are consistent: no more polls than allowed, and a wait that
    /// is not over still has a poll left.
    pub open spec fn wf(self) -> bool {
        &&& self.polls <= self.max_retries
        &&& !self.done ==> self.polls < self.max_retries
    }

    /// The wait right after the transaction was submitted.
    pub open spec fn initial(max_retries: u32) -> (BlockInclusionWait, WaitAction) {
        if max_retries == 0 {
            (
                BlockInclusionWait { max_retries, polls: 0, done: true },
                WaitAction::Finish(Err(BroadcasterError::BlockInclusionTimeout)),
            )
        } else {
            (BlockInclusionWait { max_retries, polls: 0, done: false }, WaitAction::SleepThenPoll)
        }
    }

    /// One poll's outcome applied to a wait that is not over.
    pub open spec fn step(self, included: bool) -> (BlockInclusionWait, WaitAction) {
        let polls = (self.polls + 1) as u32;
        if included {
            (BlockInclusionWait { polls, done: true, ..self }, WaitAction::Finish(Ok(())))
        } else if polls == self.max_retries {
            (
                BlockInclusionWait { polls, done: true, ..self },
                WaitAction::Finish(Err(BroadcasterError::BlockInclusionTimeout)),
            )
        } else {
            (BlockInclusionWait { polls, ..self }, WaitAction::SleepThenPoll)
        }
    }

    /// Starts waiting with room for `max_retries` polls. With no room at all the
    /// wait is over at once: the transaction was not seen in a block.
    pub fn start(max_retries: u32) -> (r: (BlockInclusionWait, WaitAction))
        ensures
            r == BlockInclusionWait::initial(max_retries),
            r.0.wf(),
    {
        if max_retries == 0 {
            (
                BlockInclusionWait { max_retries, polls: 0, done: true },
                WaitAction::Finish(Err(BroadcasterError::BlockInclusionTimeout)),
            )
        } else {
            (BlockInclusionWait { max_retries, polls: 0, done: false }, WaitAction::SleepThenPoll)
        }
    }

    /// Records the outcome of a poll: `included` when the node knew the
    /// transaction's block height. The first success ends the wait; a failure
    /// on the last allowed poll ends it with `BlockInclusionTimeout`.
    pub fn on_poll(&mut self, included: bool) -> (action: WaitAction)
        requires
            old(self).wf(),
            !old(self).done,
        ensures
            (*final(self), action) == old(self).step(included),
            final(self).wf(),
    {
        self.polls = self.polls + 1;
        if included {
            self.done = true;
            WaitAction::Finish(Ok(()))
        } else if self.polls == self.max_retries {
            self.done = true;
            WaitAction::Finish(Err(BroadcasterError::BlockInclusionTimeout))
        } else {
            WaitAction::SleepThenPoll
        }
    }
}

/// The wait after the driver has reported `outcomes`, one per poll, in order;
/// outcomes that arrive after the wait is over change nothing. The second
/// component is the outcome of the wait once it is over.
pub open spec fn wait_run(max_retries: u32, outcomes: Seq<bool>) -> (
    BlockInclusionWait,
    Option<Result<(), BroadcasterError>>,
)
    decreases outcomes.len(),
{
    if outcomes.len() == 0 {
        let (w, a) = BlockInclusionWait::initial(max_retries);
        (w, match a {
            WaitAction::Finish(r) => Some(r),
            WaitAction::SleepThenPoll => None,
        })
    } else {
        let (w, fin) = wait_run(max_retries, outcomes.drop_last());
        if fin is Some {
            (w, fin)
        } else {
            let (w2, a) = w.step(outcomes.last());
            (w2, match a {
                WaitAction::Finish(r) => Some(r),
                WaitAction::SleepThenPoll => None,
            })
        }
    }
}

/// Whether one of the first `n` outcomes is a success.
pub open spec fn seen_within(outcomes: Seq<bool>, n: int) -> bool {
    exists|i: int| 0 <= i < n && i < outcomes.len() && outcomes[i]
}

/// The number of polls that a wait takes on these outcomes: up to and
/// including the first success, and never more than `max_retries`.
pub open spec fn polls_taken(max_retries: u32, outcomes: Seq<bool>) -> int
    decreases outcomes.len(),
{
    if outcomes.len() == 0 {
        0
    } else {
        let before = polls_taken(max_retries, outcomes.drop_last());
        if seen_within(outcomes.drop_last(), outcomes.len() - 1) || before >= max_retries {
            before
        } else {
            before + 1
        }
    }
}

/// The wait for block inclusion succeeds exactly when one of the first
/// `max_retries` polls finds the transaction; it times out exactly when
/// `max_retries` polls have failed; otherwise it is still waiting. It never
/// polls more than `max_retries` times, and stops polling after the first
/// success.
pub proof fn lemma_wait_outcome(max_retries: u32, outcomes: Seq<bool>)
    ensures
        wait_run(max_retries, outcomes).0.wf(),
        wait_run(max_retries, outcomes).0.max_retries == max_retries,
        wait_run(max_retries, outcomes).0.polls == polls_taken(max_retries, outcomes),
        wait_run(max_retries, outcomes).1 == Some(Ok::<(), BroadcasterError>(()))
            <==> seen_within(outcomes, max_retries as int),
        wait_run(max_retries, outcomes).1 == Some(
            Err::<(), BroadcasterError>(BroadcasterError::BlockInclusionTimeout),
        ) <==> (outcomes.len() >= max_retries && !seen_within(outcomes, max_retries as int)),
        wait_run(max_retries, outcomes).1 is None <==> (outcomes.len() < max_retries
            && !seen_within(outcomes, outcomes.len() as int)),
        wait_run(max_retries, outcomes).0.done <==> wait_run(max_retries, outcomes).1 is Some,
        wait_run(max_retries, outcomes).1 == Some(
            Err::<(), BroadcasterError>(BroadcasterError::BlockInclusionTimeout),
        ) ==> wait_run(max_retries, outcomes).0.polls == max_retries,
        wait_run(max_retries, outcomes).1 is None ==> wait_run(max_retries, outcomes).0.polls
            == outcomes.len(),
    decreases outcomes.len(),
{
    if outcomes.len() > 0 {
        let prev = outcomes.drop_last();
        lemma_wait_outcome(max_retries, prev);
        let n = outcomes.len() - 1;
        assert forall|i: int| 0 <= i < n implies prev[i] == outcomes[i] by {}
        if seen_within(prev, max_retries as int) {
            let i = choose|i: int| 0 <= i < max_retries && i < prev.len() && prev[i];
            assert(outcomes[i]);
        }
        if seen_within(outcomes, max_retries as int) && !seen_within(prev, max_retries as int) {
            let i = choose|i: int| 0 <= i < max_retries && i < outcomes.len() && outcomes[i];
            assert(i == n);
        }
        if seen_within(prev, n) {
            let i = choose|i: int| 0 <= i < n && i < prev.len() && prev[i];
            assert(outcomes[i]);
        }
        if seen_within(outcomes, outcomes.len() as int) && !seen_within(prev, n) {
            let i = choose|i: int| 0 <= i < outcomes.len() && outcomes[i];
            assert(i == n);
        }
        if !seen_within(prev, n) && outcomes[n] {
            assert(seen_within(outcomes, outcomes.len() as int));
        }
    }
}

} // verus!
