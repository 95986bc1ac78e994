//! The run-time side: from a representation back to the text.

use vstd::prelude::*;
use vstd::utf8::{decode_utf8, encode_utf8, valid_utf8};

use crate::cipher::{can_seal, open, opened, sealable, view_bytes};
use crate::layout::{
    blob_of, frame, framed, key_of, lemma_frame_split, lemma_split_frame, nonce_of, split,
    HEADER_LEN, KEY_LEN, MIN_LEN, NONCE_LEN, TAG_LEN,
};
use crate::text::{lemma_bytes_of_text, view_ok};

verus! {

/// Why a representation gives no text. None of these arises from what the
/// matching build step produced: each one means that the embedded bytes and
/// the program reading them do not belong together, and the program must not
/// go on with a value.
#[derive(Clone, Copy, Debug, PartialEq, Eq, Structural)]
pub enum Fault {
    /// The bytes are too few to hold a key, a nonce and a tag.
    Malformed,
    /// The bytes are more than the representation of the longest text that
    /// the cipher seals.
    TooLong,
    /// The cipher does not accept the sealed bytes under the key and nonce
    /// given: they were altered, or sealed under others.
    Rejected,
    /// The blob opened, but what it held is not UTF-8.
    NotText,
}

impl Fault {
    /// The words in which the fault is reported.
    pub open spec fn diagnostic_spec(self) -> Seq<char> {
        match self {
            Fault::Malformed =>
                "internal consistency failure: embedded value is too short to hold a key, a nonce and a tag"@,
            Fault::TooLong =>
                "internal consistency failure: embedded value is longer than any that is sealed"@,
            Fault::Rejected =>
                "internal consistency failure: embedded value was altered or sealed by another build"@,
            Fault::NotText => "internal consistency failure: embedded value is not UTF-8 text"@,
        }
    }

    /// The words in which the fault is reported.
    pub fn diagnostic(&self) -> (words: &'static str)
        ensures
            words@ == self.diagnostic_spec(),
    {
        match self {
            Fault::Malformed =>
                "internal consistency failure: embedded value is too short to hold a key, a nonce and a tag",
            Fault::TooLong =>
                "internal consistency failure: embedded value is longer than any that is sealed",
            Fault::Rejected =>
                "internal consistency failure: embedded value was altered or sealed by another build",
            Fault::NotText => "internal consistency failure: embedded value is not UTF-8 text",
        }
    }
}

/// What opened bytes are read as: the text they encode, or a fault where the
/// cipher gave none or they are not UTF-8.
pub open spec fn interpreted(text: Option<Seq<u8>>) -> Result<Seq<char>, Fault> {
    match text {
        None => Err(Fault::Rejected),
        Some(bytes) => if valid_utf8(bytes) {
            Ok(decode_utf8(bytes))
        } else {
            Err(Fault::NotText)
        },
    }
}

/// Whether `data` is no longer than the representation of the longest text
/// that the cipher seals.
pub open spec fn bounded(data: Seq<u8>) -> bool {
    data.len() < MIN_LEN || sealable((data.len() - MIN_LEN) as nat)
}

/// The text that a representation stands for, or the fault in it. The
/// lengths are judged first, and the cipher is asked only about a blob whose
/// text it could have sealed.
pub open spec fn recovered(data: Seq<u8>) -> Result<Seq<char>, Fault> {
    if !framed(data) {
        Err(Fault::Malformed)
    } else if !bounded(data) {
        Err(Fault::TooLong)
    } else {
        interpreted(opened(key_of(data), nonce_of(data), blob_of(data)))
    }
}

/// A representation laid out from a key, a nonce and a blob that opens
/// under them to the UTF-8 bytes of a text stands for that text.
pub proof fn lemma_round_trip(key: Seq<u8>, nonce: Seq<u8>, blob: Seq<u8>, text: Seq<char>)
    requires
        key.len() == KEY_LEN,
        nonce.len() == NONCE_LEN,
        blob.len() >= TAG_LEN,
        sealable((blob.len() - TAG_LEN) as nat),
        opened(key, nonce, blob) == Some(encode_utf8(text)),
    ensures
        recovered(frame(key, nonce, blob)) == Ok::<Seq<char>, Fault>(text),
{
    lemma_split_frame(key, nonce, blob);
    lemma_bytes_of_text(text);
}

/// Only such a representation stands for a text: where one does, it is its
/// key, its nonce and its blob laid out, and the blob opens under them to
/// exactly the UTF-8 bytes of that text.
pub proof fn lemma_recovered_text(data: Seq<u8>, text: Seq<char>)
    requires
        recovered(data) == Ok::<Seq<char>, Fault>(text),
    ensures
        framed(data),
        bounded(data),
        data == frame(key_of(data), nonce_of(data), blob_of(data)),
        opened(key_of(data), nonce_of(data), blob_of(data)) == Some(encode_utf8(text)),
{
    lemma_frame_split(data);
    let bytes = opened(key_of(data), nonce_of(data), blob_of(data))->0;
    vstd::utf8::decode_utf8_encode_utf8(bytes);
}

/// Reads what the cipher gave for a blob: the last step of `decrypt`, for
/// every outcome of the opening.
pub fn interpret(text: Option<Vec<u8>>) -> (value: Result<String, Fault>)
    ensures
        view_ok(value) == interpreted(view_bytes(text)),
{
    match text {
        None => Err(Fault::Rejected),
        Some(bytes) => match String::from_utf8(bytes) {
            Ok(s) => Ok(s),
            Err(_) => Err(Fault::NotText),
        },
    }
}

/// Recovers the text that `data` was made from.
///
/// The bytes are taken apart at their fixed places, the blob's length is
/// held against what the cipher can seal, the blob is opened under the key
/// and nonce found, which checks its tag, and the bytes that come out are
/// read as UTF-8. The text is returned to the caller and kept nowhere.
///
/// A text comes back only where the cipher vouches for the blob, and then it
/// is the text whose bytes the blob was sealed from: no altered blob gives
/// another text unless the cipher accepts it.
pub fn decrypt(data: &[u8]) -> (text: Result<String, Fault>)
    ensures
        view_ok(text) == recovered(data@),
        text matches Ok(s) ==> opened(key_of(data@), nonce_of(data@), blob_of(data@)) == Some(
            encode_utf8(s@),
        ),
{
    let text = match split(data) {
        None => Err(Fault::Malformed),
        Some(parts) => {
            if can_seal(parts.blob.len() - TAG_LEN) {
                interpret(open(parts.key, parts.nonce, parts.blob))
            } else {
                Err(Fault::TooLong)
            }
        },
    };
    proof {
        if text is Ok {
            lemma_recovered_text(data@, text->Ok_0@);
        }
    }
    text
}

/// `data` with bit `bit` of its byte at `index` turned over.
pub open spec fn flipped(data: Seq<u8>, index: int, bit: u8) -> Seq<u8>
    recommends
        0 <= index < data.len(),
        bit < 8,
{
    data.update(index, data[index] ^ (1u8 << bit))
}

/// A bit turned over in the blob of a representation reaches the cipher:
/// key and nonce stay as they were, the blob differs in that bit, and what
/// is recovered is what the cipher makes of the altered blob under them. So
/// no text comes back unless the cipher accepts the altered blob; whether it
/// does is the cipher's matter and is not proved here.
pub proof fn lemma_altered_blob_reaches_cipher(data: Seq<u8>, index: int, bit: u8)
    requires
        framed(data),
        bounded(data),
        HEADER_LEN <= index < data.len(),
        bit < 8,
    ensures
        flipped(blob_of(data), index - HEADER_LEN, bit) != blob_of(data),
        framed(flipped(data, index, bit)),
        bounded(flipped(data, index, bit)),
        key_of(flipped(data, index, bit)) == key_of(data),
        nonce_of(flipped(data, index, bit)) == nonce_of(data),
        blob_of(flipped(data, index, bit)) == flipped(blob_of(data), index - HEADER_LEN, bit),
        recovered(flipped(data, index, bit)) == interpreted(
            opened(
                key_of(data),
                nonce_of(data),
                flipped(blob_of(data), index - HEADER_LEN, bit),
            ),
        ),
{
    let altered = flipped(data, index, bit);
    let blob = flipped(blob_of(data), index - HEADER_LEN, bit);
    let byte = data[index];
    assert((byte ^ (1u8 << bit)) != byte) by (bit_vector)
        requires
            bit < 8,
    ;
    assert(blob[index - HEADER_LEN] != blob_of(data)[index - HEADER_LEN]);
    assert(key_of(altered) =~= key_of(data));
    assert(nonce_of(altered) =~= nonce_of(data));
    assert(blob_of(altered) =~= blob);
}

} // verus!
