use vstd::prelude::*;
use vstd::utf8::{decode_utf8, valid_utf8};

use crate::session::WhisperSessionError;

verus! {

/// The error that std reports for bytes that are not well-formed UTF-8.
#[verifier::external_type_specification]
#[verifier::external_body]
pub struct ExUtf8Error(std::str::Utf8Error);

/// Relies on `std::str::from_utf8`: it succeeds exactly on well-formed UTF-8,
/// and the string then holds the characters that the bytes encode.
#[verifier::external_body]
fn utf8_to_string(bytes: &[u8]) -> (r: Result<String, std::str::Utf8Error>)
    ensures
        r is Ok <==> valid_utf8(bytes@),
        r matches Ok(s) ==> s@ == decode_utf8(bytes@),
{
    match std::str::from_utf8(bytes) {
        Ok(s) => Ok(s.to_string()),
        Err(e) => Err(e),
    }
}

/// The text of a segment, from the bytes of the native string (without its
/// terminator). Fails with [`WhisperSessionError::CStr`] exactly when the
/// bytes are not well-formed UTF-8.
pub fn text_from_bytes(bytes: &[u8]) -> (r: Result<String, WhisperSessionError>)
    ensures
        r is Ok <==> valid_utf8(bytes@),
        r matches Ok(s) ==> s@ == decode_utf8(bytes@),
        r matches Err(e) ==> e is CStr,
{
    match utf8_to_string(bytes) {
        Ok(s) => Ok(s),
        Err(e) => Err(WhisperSessionError::CStr(e)),
    }
}

/// A string field read back from a native block: its text where the bytes are
/// well-formed UTF-8, the empty string otherwise.
pub fn string_or_empty(bytes: &[u8]) -> (r: String)
    ensures
        valid_utf8(bytes@) ==> r@ == decode_utf8(bytes@),
        !valid_utf8(bytes@) ==> r@ == Seq::<char>::empty(),
{
    match utf8_to_string(bytes) {
        Ok(s) => s,
        Err(_) => String::new(),
    }
}

} // verus!
