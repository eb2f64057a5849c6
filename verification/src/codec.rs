//! Text to base64 and back.

use crate::base64_model::{base64_bytes, base64_text, lemma_base64_bytes_of_text};
use crate::error::SignalError;
use base64::Engine;
use vstd::prelude::*;
use vstd::string::StringSliceAdditionalSpecFns;
use vstd::utf8::{
    decode_utf8, encode_utf8, encode_utf8_decode_utf8, encode_utf8_valid_utf8, valid_utf8,
};

verus! {

/// base64's `DecodeError`, of which nothing is read.
#[verifier::external_type_specification]
#[verifier::external_body]
pub struct ExBase64DecodeError(base64::DecodeError);

/// std's `FromUtf8Error`, of which nothing is read.
#[verifier::external_type_specification]
#[verifier::external_body]
pub struct ExFromUtf8Error(std::string::FromUtf8Error);

/// Whether the base64 text of `len` bytes is short enough to be held in
/// memory.
pub open spec fn base64_fits(len: nat) -> bool {
    4 * ((len + 2) / 3) <= isize::MAX
}

/// `Engine::encode` of base64's `STANDARD` engine. The contract claims that
/// the string it returns is the padded standard base64 text of the input.
/// The call panics where that text is too long to be allocated, which
/// `requires` rules out.
#[verifier::external_body]
fn base64_encode(input: &[u8]) -> (text: String)
    requires
        base64_fits(input@.len()),
    ensures
        text@ == base64_text(input@),
{
    base64::prelude::BASE64_STANDARD.encode(input)
}

/// `Engine::decode` of base64's `STANDARD` engine, which asks for canonical
/// padding and refuses stray trailing bits. The contract claims that it
/// accepts exactly the texts that are the padded standard base64 text of some
/// byte sequence, and returns that sequence.
#[verifier::external_body]
fn base64_decode(text: &str) -> (r: Result<Vec<u8>, base64::DecodeError>)
    ensures
        r matches Ok(bytes) ==> base64_text(bytes@) == text@,
        r is Err ==> forall|bytes: Seq<u8>| base64_text(bytes) != text@,
{
    base64::prelude::BASE64_STANDARD.decode(text)
}

/// `String::from_utf8`. The contract claims that it accepts exactly the valid
/// UTF-8 sequences, and that the string it returns holds the bytes it was
/// given.
#[verifier::external_body]
fn string_from_utf8(bytes: Vec<u8>) -> (r: Result<String, std::string::FromUtf8Error>)
    ensures
        r is Ok <==> valid_utf8(bytes@),
        r matches Ok(s) ==> encode_utf8(s@) == bytes@,
{
    String::from_utf8(bytes)
}

/// Whether `encode` takes the text: whether its base64 text is short enough
/// to be held in memory.
pub fn can_encode(b: &str) -> (r: bool)
    ensures
        r == base64_fits(encode_utf8(b@).len()),
{
    let len = b.as_bytes().len();
    let groups = len / 3 + if len % 3 == 0 {
        0
    } else {
        1
    };
    groups <= (isize::MAX as usize) / 4
}

/// The base64 text of a string: that of its UTF-8 bytes.
pub open spec fn encode_spec(text: Seq<char>) -> Seq<char> {
    base64_text(encode_utf8(text))
}

/// The text in base64.
pub fn encode(b: &str) -> (r: String)
    requires
        base64_fits(encode_utf8(b@).len()),
    ensures
        r@ == encode_spec(b@),
{
    base64_encode(b.as_bytes())
}

/// What `try_encode` gives for a text.
pub open spec fn try_encode_spec(text: Seq<char>) -> Result<Seq<char>, SignalError> {
    if base64_fits(encode_utf8(text).len()) {
        Ok(encode_spec(text))
    } else {
        Err(SignalError::TooLong)
    }
}

/// The text in base64 where `encode` takes it, and `TooLong` where not.
pub fn try_encode(b: &str) -> (r: Result<String, SignalError>)
    ensures
        text_result(r) == try_encode_spec(b@),
{
    if can_encode(b) {
        Ok(encode(b))
    } else {
        Err(SignalError::TooLong)
    }
}

/// The text that a byte sequence holds, where it is UTF-8.
pub open spec fn utf8_text(bytes: Seq<u8>) -> Result<Seq<char>, SignalError> {
    if valid_utf8(bytes) {
        Ok(decode_utf8(bytes))
    } else {
        Err(SignalError::InvalidUtf8)
    }
}

/// The text that a base64 text stands for.
pub open spec fn decode_spec(text: Seq<char>) -> Result<Seq<char>, SignalError> {
    match base64_bytes(text) {
        None => Err(SignalError::InvalidBase64),
        Some(bytes) => utf8_text(bytes),
    }
}

/// A result that holds a string, read as one that holds its characters.
pub open spec fn text_result(r: Result<String, SignalError>) -> Result<Seq<char>, SignalError> {
    match r {
        Ok(s) => Ok(s@),
        Err(e) => Err(e),
    }
}

/// Reads bytes as UTF-8 text.
pub fn text_from_utf8(bytes: Vec<u8>) -> (r: Result<String, SignalError>)
    ensures
        text_result(r) == utf8_text(bytes@),
{
    match string_from_utf8(bytes) {
        Ok(s) => {
            proof {
                encode_utf8_decode_utf8(s@);
            }
            Ok(s)
        },
        Err(_) => Err(SignalError::InvalidUtf8),
    }
}

/// The text that a base64 text stands for, or the reason why it stands for
/// none: `InvalidBase64` where it is not the base64 text of any bytes, and
/// `InvalidUtf8` where it is that of bytes that are no text.
pub fn decode(s: &str) -> (r: Result<String, SignalError>)
    ensures
        text_result(r) == decode_spec(s@),
{
    match base64_decode(s) {
        Ok(bytes) => {
            proof {
                lemma_base64_bytes_of_text(bytes@);
            }
            text_from_utf8(bytes)
        },
        Err(_) => Err(SignalError::InvalidBase64),
    }
}

/// Decoding what `encode` made gives the text back, whatever the text.
pub proof fn lemma_decode_encode(text: Seq<char>)
    ensures
        decode_spec(encode_spec(text)) == Ok::<Seq<char>, SignalError>(text),
{
    lemma_base64_bytes_of_text(encode_utf8(text));
    encode_utf8_valid_utf8(text);
    encode_utf8_decode_utf8(text);
}

} // verus!
