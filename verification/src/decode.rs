//! Decoding of the bytes that the tool wrote into text.

use vstd::prelude::*;
use vstd::utf8::{decode_utf8, valid_utf8};
use crate::whitespace::{trim, trimmed};

verus! {

/// The error of `String::from_utf8`. Nothing is read from it.
#[verifier::external_type_specification]
#[verifier::external_body]
pub struct ExFromUtf8Error(std::string::FromUtf8Error);

/// `String::from_utf8` succeeds exactly on well-formed UTF-8, and the
/// string it then gives holds the characters that the bytes encode.
pub assume_specification[ String::from_utf8 ](vec: Vec<u8>) -> (r: Result<
    String,
    std::string::FromUtf8Error,
>)
    ensures
        r is Ok <==> valid_utf8(vec@),
        r matches Ok(s) ==> s@ == decode_utf8(vec@),
;

/// The text that `bytes` stand for, trimmed, or `None` where they are not
/// well-formed UTF-8.
pub open spec fn text_of(bytes: Seq<u8>) -> Option<Seq<char>> {
    if valid_utf8(bytes) {
        Some(trimmed(decode_utf8(bytes)))
    } else {
        None
    }
}

/// Decodes `bytes` as UTF-8 and trims the text. Bytes that are not
/// well-formed UTF-8 give `None`: nothing is replaced or cut short.
pub fn decode_trimmed(bytes: Vec<u8>) -> (r: Option<String>)
    ensures
        r.deep_view() == text_of(bytes@),
{
    match String::from_utf8(bytes) {
        Ok(text) => Some(trim(text.as_str()).to_owned()),
        Err(_) => None,
    }
}

} // verus!
