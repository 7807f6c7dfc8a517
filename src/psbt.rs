use crate::error::WalletError;
use bdk::bitcoin::consensus::deserialize;
use bdk::bitcoin::util::psbt::PartiallySignedTransaction;
use vstd::prelude::*;

verus! {

#[verifier::external_type_specification]
#[verifier::external_body]
pub struct ExPartiallySignedTransaction(PartiallySignedTransaction);

/// The bytes that `s` encodes in standard, padded base64, or `None` when `s` is
/// no such encoding.
pub uninterp spec fn base64_decoded(s: Seq<char>) -> Option<Seq<u8>>;

/// Whether the bytes are exactly one consensus-encoded PSBT.
pub uninterp spec fn is_psbt_encoding(bytes: Seq<u8>) -> bool;

/// Whether `s` is base64 text of a consensus-encoded PSBT.
pub open spec fn is_psbt_base64(s: Seq<char>) -> bool {
    match base64_decoded(s) {
        Some(bytes) => is_psbt_encoding(bytes),
        None => false,
    }
}

/// Relies on base64::decode (standard alphabet): the decoded bytes, or an error
/// when the text is not base64.
#[verifier::external_body]
fn decode_base64(s: &str) -> (r: Option<Vec<u8>>)
    ensures
        r matches Some(b) ==> base64_decoded(s@) == Some(b@),
        r is None ==> base64_decoded(s@) is None,
{
    base64::decode(s).ok()
}

/// Relies on bitcoin's consensus::deserialize for PartiallySignedTransaction:
/// it succeeds exactly on the bytes of one whole PSBT.
#[verifier::external_body]
fn psbt_from_bytes(bytes: &Vec<u8>) -> (r: Option<PartiallySignedTransaction>)
    ensures
        r is Some <==> is_psbt_encoding(bytes@),
{
    deserialize::<PartiallySignedTransaction>(bytes.as_slice()).ok()
}

/// Reads a PSBT from its base64 text, or reports `MalformedPsbt`.
pub fn deserialize_psbt_b64(b64: &str) -> (r: Result<PartiallySignedTransaction, WalletError>)
    ensures
        r is Ok <==> is_psbt_base64(b64@),
        r matches Err(e) ==> e == WalletError::MalformedPsbt,
{
    match decode_base64(b64) {
        Some(bytes) => match psbt_from_bytes(&bytes) {
            Some(psbt) => Ok(psbt),
            None => Err(WalletError::MalformedPsbt),
        },
        None => Err(WalletError::MalformedPsbt),
    }
}

/// Takes a device's answer to a signing request into the working PSBT. On a
/// refusal or transport error (`None`), or an answer that is not a base64 PSBT,
/// it reports `UserCanceledOrDeviceError` and leaves the PSBT as it was; else it
/// replaces the PSBT with the device's.
pub fn accept_signed_reply(psbt: &mut PartiallySignedTransaction, reply: Option<String>) -> (r: Result<(), WalletError>)
    ensures
        r is Ok <==> (reply matches Some(s) && is_psbt_base64(s@)),
        r matches Err(e) ==> e == WalletError::UserCanceledOrDeviceError,
        r is Err ==> *final(psbt) == *old(psbt),
{
    match reply {
        Some(text) => match deserialize_psbt_b64(text.as_str()) {
            Ok(signed) => {
                *psbt = signed;
                Ok(())
            },
            Err(_) => Err(WalletError::UserCanceledOrDeviceError),
        },
        None => Err(WalletError::UserCanceledOrDeviceError),
    }
}

} // verus!
