//! Text and the bytes that stand for it.
//!
//! A value is sealed as its UTF-8 bytes and read back from them. vstd says
//! what those bytes are (`encode_utf8`, `decode_utf8`, `valid_utf8`); this
//! file adds what it leaves out of std: reading a `String` from bytes.

use std::string::FromUtf8Error;
use vstd::prelude::*;
use vstd::utf8::{decode_utf8, encode_utf8, valid_utf8};

verus! {

/// The error of `String::from_utf8`, carried through and never looked into.
#[verifier::external_type_specification]
#[verifier::external_body]
pub struct ExFromUtf8Error(FromUtf8Error);

/// Taken on trust of `String::from_utf8`, as std documents it: it accepts
/// exactly the byte strings that are UTF-8, and gives the text that they
/// encode.
pub assume_specification[ String::from_utf8 ](vec: Vec<u8>) -> (text: Result<String, FromUtf8Error>)
    ensures
        text is Ok <==> valid_utf8(vec@),
        text matches Ok(s) ==> s@ == decode_utf8(vec@),
;

/// A text that may be missing, taken as its characters.
pub open spec fn view_some(text: Option<String>) -> Option<Seq<char>> {
    match text {
        Some(text) => Some(text@),
        None => None,
    }
}

/// A result that holds a text, with the text taken as its characters.
pub open spec fn view_ok<E>(outcome: Result<String, E>) -> Result<Seq<char>, E> {
    match outcome {
        Ok(text) => Ok(text@),
        Err(error) => Err(error),
    }
}

/// The bytes of a text are UTF-8, and read back they give the text.
pub proof fn lemma_bytes_of_text(text: Seq<char>)
    ensures
        valid_utf8(encode_utf8(text)),
        decode_utf8(encode_utf8(text)) == text,
{
    vstd::utf8::encode_utf8_valid_utf8(text);
    vstd::utf8::encode_utf8_decode_utf8(text);
}

} // verus!
