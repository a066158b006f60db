//! Text interpretation of byte buffers.

use vstd::prelude::*;
use vstd::utf8::{decode_utf8, valid_utf8};

verus! {

/// `std::string::FromUtf8Error`, the error of `String::from_utf8`. Trusted as
/// an opaque type: nothing is read from it.
#[verifier::external_type_specification]
#[verifier::external_body]
pub struct ExFromUtf8Error(std::string::FromUtf8Error);

/// `String::from_utf8` of the standard library. Trusted: it succeeds exactly
/// on the buffers that are well-formed UTF-8, and the text it then returns is
/// the one that those bytes encode.
pub assume_specification[ String::from_utf8 ](vec: Vec<u8>) -> (r: Result<
    String,
    std::string::FromUtf8Error,
>)
    ensures
        r.is_ok() == valid_utf8(vec@),
        r matches Ok(s) ==> s@ == decode_utf8(vec@),
;

/// The text that a buffer holds, if it is well-formed UTF-8.
pub open spec fn text_of(bytes: Seq<u8>) -> Option<Seq<char>> {
    if valid_utf8(bytes) {
        Some(decode_utf8(bytes))
    } else {
        None
    }
}

/// Reads a buffer as UTF-8 text. `None` exactly when the buffer is not
/// well-formed UTF-8.
pub fn read_text(bytes: &Vec<u8>) -> (text: Option<String>)
    ensures
        match text {
            Some(s) => text_of(bytes@) == Some(s@),
            None => text_of(bytes@).is_none(),
        },
{
    match String::from_utf8(bytes.clone()) {
        Ok(s) => Some(s),
        Err(_) => None,
    }
}

} // verus!
