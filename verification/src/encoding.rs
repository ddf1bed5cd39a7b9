//! Text carried as Base64.

use base64::engine::general_purpose;
use base64::{DecodeError, Engine};
use std::string::FromUtf8Error;
use vstd::prelude::*;
#[allow(unused_imports)]
use vstd::utf8::{decode_utf8, valid_utf8};

verus! {

/// The error of the `base64` crate's decoders; nothing is claimed of it.
#[verifier::external_type_specification]
#[verifier::external_body]
pub struct ExDecodeError(DecodeError);

/// The error of `String::from_utf8`; nothing is claimed of it.
#[verifier::external_type_specification]
#[verifier::external_body]
pub struct ExFromUtf8Error(FromUtf8Error);

/// The bytes that a text denotes in Base64 with the standard alphabet and padding,
/// if it denotes any.
pub uninterp spec fn base64_decoded(text: Seq<char>) -> Option<Seq<u8>>;

/// `Engine::decode` of the `base64` crate, with the engine
/// `general_purpose::STANDARD`. Claimed without proof: whether it succeeds, and the
/// bytes that it returns, depend on the text alone.
#[verifier::external_body]
pub(crate) fn base64_decode(text: &str) -> (bytes: Result<Vec<u8>, DecodeError>)
    ensures
        match bytes {
            Ok(read) => base64_decoded(text@) == Some(read@),
            Err(_) => base64_decoded(text@) is None,
        },
{
    general_purpose::STANDARD.decode(text)
}

/// `String::from_utf8` of the standard library. Claimed without proof: it succeeds
/// exactly on valid UTF-8, and returns the characters that the bytes encode.
#[verifier::external_body]
fn string_from_utf8(bytes: Vec<u8>) -> (text: Result<String, FromUtf8Error>)
    ensures
        match text {
            Ok(read) => valid_utf8(bytes@) && read@ == decode_utf8(bytes@),
            Err(_) => !valid_utf8(bytes@),
        },
{
    String::from_utf8(bytes)
}

/// The text that bytes encode, if they are valid UTF-8.
pub fn text_of_bytes(bytes: Vec<u8>) -> (text: Result<String, ()>)
    ensures
        match text {
            Ok(read) => valid_utf8(bytes@) && read@ == decode_utf8(bytes@),
            Err(_) => !valid_utf8(bytes@),
        },
{
    match string_from_utf8(bytes) {
        Ok(read) => Ok(read),
        Err(_) => Err(()),
    }
}

} // verus!
