//! Plain values that travel between the broadcaster and the Cosmos SDK encoders.
use vstd::prelude::*;

verus! {

/// A protobuf `Any`: the type URL of a message and its encoded bytes.
///
/// Transaction messages are carried in this form, and so are public keys.
#[derive(Clone, Debug, PartialEq, Eq)]
pub struct Any {
    pub type_url: String,
    pub value: Vec<u8>,
}

impl View for Any {
    type V = (Seq<char>, Seq<u8>);

    open spec fn view(&self) -> (Seq<char>, Seq<u8>) {
        (self.type_url@, self.value@)
    }
}

/// The view of a list of messages, element by element.
pub open spec fn anys_view(msgs: Seq<Any>) -> Seq<(Seq<char>, Seq<u8>)> {
    msgs.map_values(|m: Any| m@)
}

/// Viewing a list of messages keeps their number and order, each message
/// viewed on its own.
pub proof fn lemma_anys_view(msgs: Seq<Any>)
    ensures
        anys_view(msgs).len() == msgs.len(),
        forall|i: int| 0 <= i < msgs.len() ==> #[trigger] anys_view(msgs)[i] == msgs[i]@,
{
}

/// Viewing a list of byte strings keeps their number and order.
pub proof fn lemma_byte_strings_view(v: Seq<Vec<u8>>)
    ensures
        byte_strings_view(v).len() == v.len(),
        forall|i: int| 0 <= i < v.len() ==> #[trigger] byte_strings_view(v)[i] == v[i]@,
{
}

/// The view of an optional `Any`.
pub open spec fn opt_any_view(a: Option<Any>) -> Option<(Seq<char>, Seq<u8>)> {
    match a {
        Some(k) => Some(k@),
        None => None,
    }
}

/// The view of a list of byte strings.
pub open spec fn byte_strings_view(v: Seq<Vec<u8>>) -> Seq<Seq<u8>> {
    v.map_values(|s: Vec<u8>| s@)
}

/// A transaction fee: a single coin (amount and denomination) and a gas limit.
#[derive(Clone, Debug, PartialEq, Eq)]
pub struct Fee {
    pub amount: u128,
    pub denom: String,
    pub gas_limit: u64,
}

impl View for Fee {
    type V = (u128, Seq<char>, u64);

    open spec fn view(&self) -> (u128, Seq<char>, u64) {
        (self.amount, self.denom@, self.gas_limit)
    }
}

impl Fee {
    /// A fee of `amount` coins of `denom`, with room for `gas_limit` gas.
    pub fn new(amount: u128, denom: String, gas_limit: u64) -> (fee: Fee)
        ensures
            fee@ == (amount, denom@, gas_limit),
    {
        Fee { amount, denom, gas_limit }
    }
}

/// The fee that a simulated transaction carries: no coins of the empty denomination, no gas.
pub open spec fn zero_fee() -> (u128, Seq<char>, u64) {
    (0u128, Seq::<char>::empty(), 0u64)
}

/// The on-chain record of an account, as the auth module keeps it.
#[derive(Clone, Debug, PartialEq, Eq)]
pub struct BaseAccount {
    pub address: String,
    pub pub_key: Option<Any>,
    pub account_number: u64,
    pub sequence: u64,
}

impl View for BaseAccount {
    type V = (Seq<char>, Option<(Seq<char>, Seq<u8>)>, u64, u64);

    open spec fn view(&self) -> (Seq<char>, Option<(Seq<char>, Seq<u8>)>, u64, u64) {
        (self.address@, opt_any_view(self.pub_key), self.account_number, self.sequence)
    }
}

} // verus!
