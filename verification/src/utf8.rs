//! Decoding UTF-8 text received from the robot.

use std::string::FromUtf8Error;

use vstd::prelude::*;

verus! {

/// The error of a failed UTF-8 conversion (`std::string::FromUtf8Error`).
#[verifier::external_type_specification]
#[verifier::external_body]
pub struct ExFromUtf8Error(FromUtf8Error);

/// `String::from_utf8`: succeeds exactly when the bytes are valid UTF-8, and the
/// text is then the characters that they encode.
#[verifier::external_body]
pub(crate) fn string_from_utf8(bytes: Vec<u8>) -> (r: Result<String, FromUtf8Error>)
    ensures
        r is Ok <==> vstd::utf8::valid_utf8(bytes@),
        r matches Ok(s) ==> s@ == vstd::utf8::decode_utf8(bytes@),
{
    String::from_utf8(bytes)
}

/// `FromUtf8Error`'s `Display` text (through `to_string`); what the text says is not
/// stated here.
#[verifier::external_body]
pub(crate) fn utf8_error_text(e: &FromUtf8Error) -> String {
    e.to_string()
}

} // verus!
