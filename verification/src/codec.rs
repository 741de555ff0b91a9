//! Bytes as text: standard base64 with padding, by the `base64` crate, and
//! UTF-8, by std.
//!
//! Of the calls into `base64` and std nothing is proved: their contracts say
//! what the documentation shows.

use crate::error::{text_of, ErrorKind};
use base64::Engine;
use vstd::prelude::*;
use vstd::utf8::*;

verus! {

/// Why text was not base64.
#[verifier::external_type_specification]
#[verifier::external_body]
pub struct ExDecodeError(base64::DecodeError);

/// Why bytes were not UTF-8.
#[verifier::external_type_specification]
#[verifier::external_body]
pub struct ExFromUtf8Error(std::string::FromUtf8Error);

/// The standard base64 text of the bytes, with padding.
pub uninterp spec fn base64_text(bytes: Seq<u8>) -> Seq<char>;

/// The bytes that standard base64 text stands for, or `None` where the text is
/// not canonical base64.
pub uninterp spec fn base64_bytes(text: Seq<char>) -> Option<Seq<u8>>;

/// `Engine::encode` of `base64::engine::general_purpose::STANDARD`. The
/// contract claims that the text depends on the bytes alone, and that
/// `Engine::decode` of the same engine gives the bytes back.
#[verifier::external_body]
pub(crate) fn encode_base64(bytes: &[u8]) -> (text: String)
    ensures
        text@ == base64_text(bytes@),
        base64_bytes(text@) == Some(bytes@),
{
    base64::engine::general_purpose::STANDARD.encode(bytes)
}

/// `Engine::decode` of `base64::engine::general_purpose::STANDARD`. The
/// contract claims that the outcome depends on the text alone: the bytes that
/// the text stands for, or the decoder's error.
#[verifier::external_body]
pub(crate) fn decode_base64(text: &str) -> (res: Result<Vec<u8>, base64::DecodeError>)
    ensures
        match res {
            Ok(bytes) => base64_bytes(text@) == Some(bytes@),
            Err(_) => base64_bytes(text@) is None,
        },
{
    base64::engine::general_purpose::STANDARD.decode(text)
}

/// `String::from_utf8`. The contract claims that it succeeds exactly on valid
/// UTF-8, and that the string then holds the bytes it was given.
#[verifier::external_body]
fn string_from_utf8(bytes: Vec<u8>) -> (res: Result<String, std::string::FromUtf8Error>)
    ensures
        res is Ok <==> valid_utf8(bytes@),
        res matches Ok(text) ==> encode_utf8(text@) == bytes@,
{
    String::from_utf8(bytes)
}

/// Bytes read as text: their characters where they are UTF-8.
pub open spec fn utf8_text(bytes: Seq<u8>) -> Result<Seq<char>, ErrorKind> {
    if valid_utf8(bytes) {
        Ok(decode_utf8(bytes))
    } else {
        Err(ErrorKind::Encoding)
    }
}

/// The text that the bytes encode. Fails with `Encoding` where they are not
/// UTF-8.
pub fn text_from_utf8(bytes: Vec<u8>) -> (res: Result<String, ErrorKind>)
    ensures
        text_of(res) == utf8_text(bytes@),
{
    match string_from_utf8(bytes) {
        Ok(text) => {
            proof {
                encode_utf8_decode_utf8(text@);
            }
            Ok(text)
        },
        Err(_) => Err(ErrorKind::Encoding),
    }
}

} // verus!
