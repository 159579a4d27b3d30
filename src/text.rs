use vstd::prelude::*;
use vstd::utf8::{valid_utf8, decode_utf8};

verus! {

/// Argument bytes that are not well-formed UTF-8.
#[derive(Clone, Copy, Debug, PartialEq, Eq, Structural)]
pub struct DecodeError {
    /// Length of the longest prefix of the input that is well-formed.
    pub valid_up_to: usize,
}

/// Relies on `std::str::from_utf8`: it succeeds exactly on well-formed UTF-8
/// and then holds the characters the bytes encode; on failure
/// `Utf8Error::valid_up_to` is the length of a well-formed prefix (the
/// longest one), which is shorter than the input.
#[verifier::external_body]
pub(crate) fn from_utf8(bytes: &[u8]) -> (r: Result<String, DecodeError>)
    ensures
        r is Ok <==> valid_utf8(bytes@),
        r matches Ok(s) ==> s@ == decode_utf8(bytes@),
        r matches Err(e) ==> e.valid_up_to < bytes@.len() && valid_utf8(
            bytes@.take(e.valid_up_to as int),
        ),
{
    match std::str::from_utf8(bytes) {
        Ok(s) => Ok(s.to_string()),
        Err(e) => Err(DecodeError { valid_up_to: e.valid_up_to() }),
    }
}

} // verus!
