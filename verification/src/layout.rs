//! The representation: one byte string that holds the key, the nonce and the
//! sealed bytes, each at a fixed place.
//!
//! ```text
//! +----------------+--------------+---------------------------+
//! | key (32 bytes) | nonce (12)   | blob (text, then tag: 16) |
//! +----------------+--------------+---------------------------+
//! ```
//!
//! The layout is frozen: what one build lays out, every later reader takes
//! apart in the same way.

use vstd::prelude::*;
use vstd::slice::slice_subrange;

verus! {

/// Length of a key in bytes.
pub const KEY_LEN: usize = 32;

/// Length of a nonce in bytes.
pub const NONCE_LEN: usize = 12;

/// Length of the tag that ends every blob.
pub const TAG_LEN: usize = 16;

/// Length of what stands before the blob.
pub const HEADER_LEN: usize = 44;

/// Length of the shortest representation, that of the empty text.
pub const MIN_LEN: usize = 60;

/// Key, nonce and blob laid out one after the other.
pub open spec fn frame(key: Seq<u8>, nonce: Seq<u8>, blob: Seq<u8>) -> Seq<u8> {
    key + nonce + blob
}

/// Whether `data` is long enough to hold a key, a nonce and a tag.
pub open spec fn framed(data: Seq<u8>) -> bool {
    data.len() >= MIN_LEN
}

/// The key that `data` holds.
pub open spec fn key_of(data: Seq<u8>) -> Seq<u8>
    recommends
        framed(data),
{
    data.subrange(0, KEY_LEN as int)
}

/// The nonce that `data` holds.
pub open spec fn nonce_of(data: Seq<u8>) -> Seq<u8>
    recommends
        framed(data),
{
    data.subrange(KEY_LEN as int, HEADER_LEN as int)
}

/// The sealed bytes that `data` holds.
pub open spec fn blob_of(data: Seq<u8>) -> Seq<u8>
    recommends
        framed(data),
{
    data.subrange(HEADER_LEN as int, data.len() as int)
}

/// The three parts of a representation, borrowed from it.
pub struct Parts<'a> {
    pub key: &'a [u8],
    pub nonce: &'a [u8],
    pub blob: &'a [u8],
}

/// Lays out a key, a nonce and a blob as one representation.
pub fn assemble(key: &[u8], nonce: &[u8], blob: &[u8]) -> (data: Vec<u8>)
    ensures
        data@ == frame(key@, nonce@, blob@),
{
    let mut data: Vec<u8> = Vec::new();
    data.extend_from_slice(key);
    data.extend_from_slice(nonce);
    data.extend_from_slice(blob);
    data
}

/// Takes a representation apart, or finds it too short to be one.
pub fn split<'a>(data: &'a [u8]) -> (parts: Option<Parts<'a>>)
    ensures
        parts is Some <==> framed(data@),
        parts matches Some(p) ==> {
            &&& p.key@ == key_of(data@)
            &&& p.nonce@ == nonce_of(data@)
            &&& p.blob@ == blob_of(data@)
        },
{
    if data.len() < MIN_LEN {
        None
    } else {
        Some(
            Parts {
                key: slice_subrange(data, 0, KEY_LEN),
                nonce: slice_subrange(data, KEY_LEN, HEADER_LEN),
                blob: slice_subrange(data, HEADER_LEN, data.len()),
            },
        )
    }
}

/// Taking apart what was laid out gives back the three parts.
pub proof fn lemma_split_frame(key: Seq<u8>, nonce: Seq<u8>, blob: Seq<u8>)
    requires
        key.len() == KEY_LEN,
        nonce.len() == NONCE_LEN,
    ensures
        frame(key, nonce, blob).len() == HEADER_LEN + blob.len(),
        key_of(frame(key, nonce, blob)) == key,
        nonce_of(frame(key, nonce, blob)) == nonce,
        blob_of(frame(key, nonce, blob)) == blob,
{
    let data = frame(key, nonce, blob);
    assert(key_of(data) =~= key);
    assert(nonce_of(data) =~= nonce);
    assert(blob_of(data) =~= blob);
}

/// Laying out the three parts of a representation gives the representation
/// back.
pub proof fn lemma_frame_split(data: Seq<u8>)
    requires
        data.len() >= HEADER_LEN,
    ensures
        frame(key_of(data), nonce_of(data), blob_of(data)) == data,
        key_of(data).len() == KEY_LEN,
        nonce_of(data).len() == NONCE_LEN,
        blob_of(data).len() == data.len() - HEADER_LEN,
{
    assert(frame(key_of(data), nonce_of(data), blob_of(data)) =~= data);
}

} // verus!
