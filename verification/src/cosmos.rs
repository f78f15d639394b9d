//! The calls into the Cosmos SDK crates (`cosmrs`, `cosmos-sdk-proto`) that the
//! broadcaster makes: protobuf encoding of transaction parts, key handling,
//! signing, and decoding of account records. Each is a function of its
//! arguments alone, so its result is named here and not written out.
use vstd::prelude::*;
use crate::msg::{Any, Fee, BaseAccount, anys_view, byte_strings_view};
use cosmos_sdk_proto::traits::Message;
use cosmrs::crypto::secp256k1::SigningKey;
use cosmrs::tx::{BodyBuilder, SignDoc, SignerInfo, Raw};

verus! {

/// The error report that `cosmrs` returns (`eyre::Report`).
#[verifier::external_type_specification]
#[verifier::external_body]
pub struct ExErrorReport(cosmrs::ErrorReport);

/// The error that protobuf decoding returns.
#[verifier::external_type_specification]
#[verifier::external_body]
pub struct ExDecodeError(cosmos_sdk_proto::prost::DecodeError);

/// The protobuf encoding of a transaction body that holds `msgs` (in order),
/// an empty memo, no timeout height and no extension options; `None` where
/// encoding fails.
pub uninterp spec fn tx_body_encoding(msgs: Seq<(Seq<char>, Seq<u8>)>) -> Option<Seq<u8>>;

/// Builds a transaction body from `msgs` with `cosmrs::tx::BodyBuilder`
/// (`new`, `msgs`, `finish`) and encodes it with `cosmrs::tx::Body::into_bytes`.
/// Claimed: the result is `tx_body_encoding` of the messages.
#[verifier::external_body]
pub(crate) fn encode_tx_body(msgs: &Vec<Any>) -> (r: Result<Vec<u8>, cosmrs::ErrorReport>)
    ensures
        match r {
            Ok(bytes) => tx_body_encoding(anys_view(msgs@)) == Some(bytes@),
            Err(_) => tx_body_encoding(anys_view(msgs@)) is None,
        },
{
    let msgs = msgs.iter().map(|m| cosmrs::Any { type_url: m.type_url.clone(), value: m.value.clone() });
    BodyBuilder::new().msgs(msgs).finish().into_bytes()
}

/// The protobuf encoding of the auth info of a transaction with one signer,
/// given by its public key (in `Any` form) and sequence number, in direct sign
/// mode, that pays `fee` (amount, denomination, gas limit); `None` where the
/// key or the denomination is refused or encoding fails.
pub uninterp spec fn auth_info_encoding(
    pub_key: (Seq<char>, Seq<u8>),
    sequence: u64,
    fee: (u128, Seq<char>, u64),
) -> Option<Seq<u8>>;

/// Decodes the key with `cosmrs::crypto::PublicKey::try_from`, makes the fee
/// with `cosmrs::Coin::new` and `cosmrs::tx::Fee::from_amount_and_gas`, builds
/// the auth info with `SignerInfo::single_direct(..).auth_info(..)` and encodes
/// it with `AuthInfo::into_bytes`. Claimed: the result is `auth_info_encoding`
/// of the arguments.
#[verifier::external_body]
pub(crate) fn encode_auth_info(pub_key: &Any, sequence: u64, fee: &Fee) -> (r: Result<Vec<u8>, cosmrs::ErrorReport>)
    ensures
        match r {
            Ok(bytes) => auth_info_encoding(pub_key@, sequence, fee@) == Some(bytes@),
            Err(_) => auth_info_encoding(pub_key@, sequence, fee@) is None,
        },
{
    let key = cosmrs::Any { type_url: pub_key.type_url.clone(), value: pub_key.value.clone() };
    let key = cosmrs::crypto::PublicKey::try_from(key)?;
    let coin = cosmrs::Coin::new(fee.amount, &fee.denom)?;
    let fee = cosmrs::tx::Fee::from_amount_and_gas(coin, fee.gas_limit);
    SignerInfo::single_direct(Some(key), sequence).auth_info(fee).into_bytes()
}

/// The protobuf encoding of a `TxRaw` with these body bytes, auth info bytes
/// and signatures; `None` where encoding fails.
pub uninterp spec fn raw_tx_encoding(
    body: Seq<u8>,
    auth_info: Seq<u8>,
    signatures: Seq<Seq<u8>>,
) -> Option<Seq<u8>>;

/// Wraps a `TxRaw` in `cosmrs::tx::Raw` and encodes it with `Raw::to_bytes`.
/// Claimed: the result is `raw_tx_encoding` of the three parts.
#[verifier::external_body]
pub(crate) fn encode_raw_tx(
    body_bytes: Vec<u8>,
    auth_info_bytes: Vec<u8>,
    signatures: Vec<Vec<u8>>,
) -> (r: Result<Vec<u8>, cosmrs::ErrorReport>)
    ensures
        match r {
            Ok(bytes) => raw_tx_encoding(body_bytes@, auth_info_bytes@, byte_strings_view(signatures@))
                == Some(bytes@),
            Err(_) => raw_tx_encoding(body_bytes@, auth_info_bytes@, byte_strings_view(signatures@)) is None,
        },
{
    let tx = cosmos_sdk_proto::cosmos::tx::v1beta1::TxRaw { body_bytes, auth_info_bytes, signatures };
    Raw::from(tx).to_bytes()
}

/// The public key (in `Any` form: type URL and encoded key) of the secp256k1
/// secret key `secret`; `None` where `secret` is not a valid secret key.
pub uninterp spec fn secp256k1_public_key(secret: Seq<u8>) -> Option<(Seq<char>, Seq<u8>)>;

/// Reads the secret key with `cosmrs::crypto::secp256k1::SigningKey::from_bytes`,
/// takes its `public_key` and encodes that with `PublicKey::to_any`.
/// Claimed: the result is `secp256k1_public_key` of the secret.
#[verifier::external_body]
pub(crate) fn public_key_of(secret: &Vec<u8>) -> (r: Result<Any, cosmrs::ErrorReport>)
    ensures
        match r {
            Ok(key) => secp256k1_public_key(secret@) == Some(key@),
            Err(_) => secp256k1_public_key(secret@) is None,
        },
{
    let key = SigningKey::from_bytes(secret)?.public_key().to_any()?;
    Ok(Any { type_url: key.type_url, value: key.value })
}

/// The encoded signed transaction that signing a sign doc made of these body
/// bytes, auth info bytes, chain id and account number with the secp256k1 key
/// `secret` gives; `None` where the chain id or the key is refused or a step
/// fails.
pub uninterp spec fn signed_tx_encoding(
    body: Seq<u8>,
    auth_info: Seq<u8>,
    chain_id: Seq<char>,
    account_number: u64,
    secret: Seq<u8>,
) -> Option<Seq<u8>>;

/// Parses the chain id as a `tendermint::chain::Id`, reads the key with
/// `SigningKey::from_bytes`, signs the `cosmrs::tx::SignDoc` with
/// `SignDoc::sign` and encodes the result with `Raw::to_bytes`.
/// Claimed: the result is `signed_tx_encoding` of the arguments, and, as the
/// source of `SignDoc::sign` shows, it is the `TxRaw` encoding of the same body
/// and auth info bytes with exactly one signature.
#[verifier::external_body]
pub(crate) fn sign_tx(
    body_bytes: Vec<u8>,
    auth_info_bytes: Vec<u8>,
    chain_id: &String,
    account_number: u64,
    secret: &Vec<u8>,
) -> (r: Result<Vec<u8>, cosmrs::ErrorReport>)
    ensures
        match r {
            Ok(bytes) => {
                &&& signed_tx_encoding(body_bytes@, auth_info_bytes@, chain_id@, account_number, secret@)
                    == Some(bytes@)
                &&& exists|sig: Seq<u8>|
                    raw_tx_encoding(body_bytes@, auth_info_bytes@, seq![sig]) == Some(bytes@)
            },
            Err(_) => signed_tx_encoding(body_bytes@, auth_info_bytes@, chain_id@, account_number, secret@)
                is None,
        },
{
    let chain_id: cosmrs::tendermint::chain::Id = chain_id.parse()?;
    let key = SigningKey::from_bytes(secret)?;
    let doc = SignDoc { body_bytes, auth_info_bytes, chain_id: chain_id.to_string(), account_number };
    doc.sign(&key)?.to_bytes()
}

/// The account record that decoding `bytes` as a protobuf `BaseAccount` gives;
/// `None` where decoding fails.
pub uninterp spec fn base_account_decoding(bytes: Seq<u8>) -> Option<
    (Seq<char>, Option<(Seq<char>, Seq<u8>)>, u64, u64),
>;

/// Decodes `bytes` with `prost::Message::decode` for
/// `cosmos_sdk_proto::cosmos::auth::v1beta1::BaseAccount`.
/// Claimed: the result is `base_account_decoding` of the bytes.
#[verifier::external_body]
pub(crate) fn decode_base_account(bytes: &Vec<u8>) -> (r: Result<BaseAccount, cosmos_sdk_proto::prost::DecodeError>)
    ensures
        match r {
            Ok(account) => base_account_decoding(bytes@) == Some(account@),
            Err(_) => base_account_decoding(bytes@) is None,
        },
{
    let a = cosmos_sdk_proto::cosmos::auth::v1beta1::BaseAccount::decode(bytes.as_slice())?;
    let pub_key = a.pub_key.map(|k| Any { type_url: k.type_url, value: k.value });
    Ok(BaseAccount { address: a.address, pub_key, account_number: a.account_number, sequence: a.sequence })
}

} // verus!
