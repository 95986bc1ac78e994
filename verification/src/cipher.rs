//! The sealing cipher, ChaCha20-Poly1305, as this library sees it.
//!
//! Nothing here is proved. Each function makes one call into the cipher's
//! crate, and its contract says of that call what the crate's source shows.
//! What sealing and opening compute is given a name, not written out.

use chacha20poly1305::aead::{Aead, AeadCore, KeyInit, OsRng};
use chacha20poly1305::{ChaCha20Poly1305, Key, Nonce};
use vstd::prelude::*;

use crate::layout::{KEY_LEN, NONCE_LEN, TAG_LEN};

verus! {

/// Length of a block of the cipher's key stream in bytes.
pub const BLOCK_LEN: usize = 64;

/// The number of blocks that the key stream has under one key and nonce: the
/// cipher numbers them with 32 bits. The first is spent on the key of the
/// tag, the others on the text.
pub const MAX_BLOCKS: usize = 0xffff_ffff;

/// Whether a text of `len` bytes can be sealed: whether the blocks left
/// after the first cover it. Beyond that the key stream ends, and the cipher
/// does not return from the call.
pub open spec fn sealable(len: nat) -> bool {
    len <= (MAX_BLOCKS - 1) * BLOCK_LEN
}

/// Tells whether a text of `len` bytes can be sealed.
pub fn can_seal(len: usize) -> (short: bool)
    ensures
        short == sealable(len as nat),
{
    let blocks: usize = len / BLOCK_LEN;
    blocks < MAX_BLOCKS - 1 || (blocks == MAX_BLOCKS - 1 && len % BLOCK_LEN == 0)
}

/// The blob that sealing `text` under `key` and `nonce` gives: the text
/// enciphered, then its tag.
pub uninterp spec fn sealed(key: Seq<u8>, nonce: Seq<u8>, text: Seq<u8>) -> Seq<u8>;

/// The text that opening `blob` under `key` and `nonce` gives, or `None`
/// where the cipher does not accept the blob under them.
pub uninterp spec fn opened(key: Seq<u8>, nonce: Seq<u8>, blob: Seq<u8>) -> Option<Seq<u8>>;

/// What an opening gave, with the text taken as the bytes it holds.
pub open spec fn view_bytes(text: Option<Vec<u8>>) -> Option<Seq<u8>> {
    match text {
        Some(bytes) => Some(bytes@),
        None => None,
    }
}

/// Draws a key with `ChaCha20Poly1305::generate_key` from the operating
/// system's generator.
///
/// Claimed: the key has 32 bytes. Which bytes is not said, and two draws need
/// not agree. Where the operating system has no randomness to give, the call
/// does not return.
#[verifier::external_body]
pub(crate) fn fresh_key() -> (key: Vec<u8>)
    ensures
        key@.len() == KEY_LEN,
{
    ChaCha20Poly1305::generate_key(&mut OsRng).to_vec()
}

/// Draws a nonce with `ChaCha20Poly1305::generate_nonce` from the operating
/// system's generator.
///
/// Claimed: the nonce has 12 bytes. Which bytes is not said, and two draws
/// need not agree. Where the operating system has no randomness to give, the
/// call does not return.
#[verifier::external_body]
pub(crate) fn fresh_nonce() -> (nonce: Vec<u8>)
    ensures
        nonce@.len() == NONCE_LEN,
{
    ChaCha20Poly1305::generate_nonce(&mut OsRng).to_vec()
}

/// Seals `text` with `Aead::encrypt` of a `ChaCha20Poly1305` made from `key`.
///
/// Claimed: the blob depends on key, nonce and text alone; it is as long as
/// the text and a tag of 16 bytes; and opening it under the same key and
/// nonce gives the text back.
///
/// `requires` leaves out every text on which the call fails. The cipher
/// itself returns an error for a text of 2^32 - 1 blocks or more; the key
/// stream below it ends earlier, after 2^32 - 2 blocks of text, a block
/// begun counting as a whole one, and panics there. Both are texts that are
/// not `sealable`.
#[verifier::external_body]
pub(crate) fn seal(key: &[u8], nonce: &[u8], text: &[u8]) -> (blob: Vec<u8>)
    requires
        key@.len() == KEY_LEN,
        nonce@.len() == NONCE_LEN,
        sealable(text@.len()),
    ensures
        blob@ == sealed(key@, nonce@, text@),
        blob@.len() == text@.len() + TAG_LEN,
        opened(key@, nonce@, blob@) == Some(text@),
{
    let cipher = ChaCha20Poly1305::new(Key::from_slice(key));
    cipher.encrypt(Nonce::from_slice(nonce), text).unwrap()
}

/// Opens `blob` with `Aead::decrypt` of a `ChaCha20Poly1305` made from `key`.
///
/// Claimed: whether the blob is accepted, and the text it then gives, depend
/// on key, nonce and blob alone; an accepted blob is a tag of 16 bytes longer
/// than its text.
///
/// `requires` leaves out every blob on which the call panics: one whose tag
/// holds but whose text is longer than the key stream, which is a blob of a
/// text that is not `sealable`. A blob too short to hold a tag is admitted;
/// the cipher refuses it.
#[verifier::external_body]
pub(crate) fn open(key: &[u8], nonce: &[u8], blob: &[u8]) -> (text: Option<Vec<u8>>)
    requires
        key@.len() == KEY_LEN,
        nonce@.len() == NONCE_LEN,
        blob@.len() >= TAG_LEN ==> sealable((blob@.len() - TAG_LEN) as nat),
    ensures
        view_bytes(text) == opened(key@, nonce@, blob@),
        text matches Some(t) ==> t@.len() + TAG_LEN == blob@.len(),
{
    let cipher = ChaCha20Poly1305::new(Key::from_slice(key));
    cipher.decrypt(Nonce::from_slice(nonce), blob).ok()
}

} // verus!
