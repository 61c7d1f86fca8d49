//! Text read out of the host's memory.
use vstd::prelude::*;
use vstd::utf8::{decode_utf8, valid_utf8};

verus! {

/// Why a string could not be read.
#[derive(Clone, Copy, Debug, PartialEq, Eq, Structural)]
pub enum TextError {
    /// No zero byte ends the string inside the memory at hand.
    Unterminated,
    /// The bytes are not well-formed UTF-8.
    InvalidUtf8,
}

/// Relies on `String::from_utf8`, which accepts exactly the well-formed UTF-8
/// byte sequences and then holds the characters they encode.
#[verifier::external_body]
fn string_from_utf8(bytes: Vec<u8>) -> (r: Option<String>)
    ensures
        r is Some <==> valid_utf8(bytes@),
        r matches Some(s) ==> s@ == decode_utf8(bytes@),
{
    String::from_utf8(bytes).ok()
}

/// The text that `bytes` encode in UTF-8.
pub fn decode_text(bytes: Vec<u8>) -> (r: Result<String, TextError>)
    ensures
        valid_utf8(bytes@) ==> (r matches Ok(s) && s@ == decode_utf8(bytes@)),
        !valid_utf8(bytes@) ==> r == Err::<String, TextError>(TextError::InvalidUtf8),
{
    match string_from_utf8(bytes) {
        Some(s) => Ok(s),
        None => Err(TextError::InvalidUtf8),
    }
}

} // verus!
