//! Calls into the hex and base64 crates and into std's UTF-8 decoding,
//! each behind a contract that states what the called function returns.
use base64::Engine;
use vstd::prelude::*;
use vstd::utf8::{decode_utf8, valid_utf8};
use crate::text::{hex_decode, hex_upper};

verus! {

/// What `base64::engine::general_purpose::STANDARD.decode` makes of the
/// characters of its input: the decoded bytes, or, where that engine
/// rejects the input, the text of its `DecodeError` (its `Display`).
pub uninterp spec fn base64_standard_decode(input: Seq<char>) -> Result<Seq<u8>, Seq<char>>;

/// The text (the `Display`) of the error that `String::from_utf8` gives for
/// bytes that are not valid UTF-8.
pub uninterp spec fn utf8_error_text(bytes: Seq<u8>) -> Seq<char>;

/// Calls `hex::FromHex::from_hex` for `Vec<u8>` on the bytes of `s`. Its
/// source reads the digits two by two, in either case, and fails on an odd
/// length or on a byte that is not a hexadecimal digit; a character outside
/// ASCII is encoded as bytes that are not digits. So the result is the
/// bytes that the pairs of digit characters of `s` stand for, or none.
#[verifier::external_body]
pub(crate) fn hex_from_str(s: &str) -> (r: Option<Vec<u8>>)
    ensures
        match hex_decode(s@) {
            Some(b) => r matches Some(v) && v@ == b,
            None => r is None,
        },
{
    <Vec<u8> as hex::FromHex>::from_hex(s).ok()
}

/// Calls `hex::encode_upper`, which writes each byte as two upper-case
/// hexadecimal digits, high half first.
#[verifier::external_body]
pub(crate) fn hex_encode_upper(bytes: &[u8]) -> (r: String)
    ensures
        r@ == hex_upper(bytes@),
{
    hex::encode_upper(bytes)
}

/// Calls `STANDARD.decode` of the base64 crate's general-purpose engine on
/// the bytes of `s`; the result, and the text of the error where there is
/// one, are named by `base64_standard_decode`.
#[verifier::external_body]
pub(crate) fn base64_decode_standard(s: &str) -> (r: Result<Vec<u8>, String>)
    ensures
        match base64_standard_decode(s@) {
            Ok(b) => r matches Ok(v) && v@ == b,
            Err(t) => r matches Err(e) && e@ == t,
        },
{
    match base64::engine::general_purpose::STANDARD.decode(s) {
        Ok(v) => Ok(v),
        Err(e) => Err(e.to_string()),
    }
}

/// Calls `String::from_utf8`, which accepts exactly the valid UTF-8 byte
/// sequences and decodes them; the text of its error is named by
/// `utf8_error_text`.
#[verifier::external_body]
pub(crate) fn string_from_utf8(bytes: Vec<u8>) -> (r: Result<String, String>)
    ensures
        r is Ok <==> valid_utf8(bytes@),
        r matches Ok(s) ==> s@ == decode_utf8(bytes@),
        r matches Err(e) ==> e@ == utf8_error_text(bytes@),
{
    match String::from_utf8(bytes) {
        Ok(s) => Ok(s),
        Err(e) => Err(e.to_string()),
    }
}

} // verus!
