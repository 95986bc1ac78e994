//! The earlier format: key, initialization vector and sealed bytes as three
//! separate values, sealed with AES-256 in CBC mode.
//!
//! That cipher carries no tag, so altered bytes are noticed only where they
//! break the padding or the text's encoding. The build step of the macros
//! does not use this format; it stays so that what was embedded with it can
//! still be read, and written for programs that still read it.

use magic_crypt::{MagicCrypt256, MagicCryptTrait};
use rand::distributions::{DistString, Standard};
use rand::rngs::OsRng;
use vstd::prelude::*;
use vstd::utf8::encode_utf8;

use crate::cipher::view_bytes;
use crate::decrypt::{interpret, interpreted, Fault};
use crate::text::{lemma_bytes_of_text, view_ok};

verus! {

/// Number of characters in a key and in an initialization vector.
pub const SECRET_LEN: usize = 256;

/// Length of a cipher block in bytes.
pub const BLOCK_LEN: usize = 16;

/// The bytes that sealing `text` under `key` and `iv` gives.
pub uninterp spec fn cbc_sealed(key: Seq<char>, iv: Seq<char>, text: Seq<char>) -> Seq<u8>;

/// The bytes that opening `encrypted` under `key` and `iv` gives, or `None`
/// where the cipher does not accept them.
pub uninterp spec fn cbc_opened(key: Seq<char>, iv: Seq<char>, encrypted: Seq<u8>) -> Option<
    Seq<u8>,
>;

/// Length of what sealing a text of `len` bytes gives: the text padded to
/// the next whole block, a full block of padding where it already ends on
/// one.
pub open spec fn padded_len(len: nat) -> nat {
    (len / (BLOCK_LEN as nat) + 1) * (BLOCK_LEN as nat)
}

/// Draws a secret with `DistString::sample_string` of rand's `Standard`
/// distribution, from the operating system's generator.
///
/// Claimed: the secret has 256 characters. Which characters is not said,
/// and two draws need not agree. Where the operating system has no
/// randomness to give, the call does not return.
#[verifier::external_body]
pub(crate) fn random_secret() -> (secret: String)
    ensures
        secret@.len() == SECRET_LEN,
{
    Standard.sample_string(&mut OsRng, SECRET_LEN)
}

/// Seals `text` with `MagicCryptTrait::encrypt_str_to_bytes` of a
/// `MagicCrypt256` made from `key` and `iv`.
///
/// Claimed: the bytes depend on key, vector and text alone; they are the
/// text's UTF-8 bytes padded to whole blocks; and opening them under the
/// same key and vector gives the text's bytes back.
#[verifier::external_body]
pub(crate) fn cbc_seal(key: &str, iv: &str, text: &str) -> (encrypted: Vec<u8>)
    ensures
        encrypted@ == cbc_sealed(key@, iv@, text@),
        encrypted@.len() == padded_len(encode_utf8(text@).len()),
        cbc_opened(key@, iv@, encrypted@) == Some(encode_utf8(text@)),
{
    MagicCrypt256::new(key, Some(iv)).encrypt_str_to_bytes(text)
}

/// Opens `encrypted` with `MagicCryptTrait::decrypt_bytes_to_bytes` of a
/// `MagicCrypt256` made from `key` and `iv`.
///
/// Claimed: whether the bytes are accepted, and what they then give,
/// depend on key, vector and bytes alone.
#[verifier::external_body]
pub(crate) fn cbc_open(key: &str, iv: &str, encrypted: &[u8]) -> (text: Option<Vec<u8>>)
    ensures
        view_bytes(text) == cbc_opened(key@, iv@, encrypted@),
{
    MagicCrypt256::new(key, Some(iv)).decrypt_bytes_to_bytes(encrypted).ok()
}

/// A variable as it is embedded in this format.
#[derive(Clone, Debug, PartialEq, Eq)]
pub struct EncryptedVariable {
    /// The key under which the variable was sealed.
    pub key: String,
    /// The initialization vector under which the variable was sealed.
    pub iv: String,
    /// The sealed value of the variable.
    pub encrypted: Vec<u8>,
}

/// The text that three embedded values stand for, or the fault in them.
pub open spec fn recovered(key: Seq<char>, iv: Seq<char>, encrypted: Seq<u8>) -> Result<
    Seq<char>,
    Fault,
> {
    interpreted(cbc_opened(key, iv, encrypted))
}

/// Whether `embedded` is `text` sealed under the key and vector that it
/// carries, and gives the text back.
pub open spec fn embeds(embedded: EncryptedVariable, text: Seq<char>) -> bool {
    &&& embedded.encrypted@ == cbc_sealed(embedded.key@, embedded.iv@, text)
    &&& embedded.encrypted@.len() == padded_len(encode_utf8(text).len())
    &&& recovered(embedded.key@, embedded.iv@, embedded.encrypted@) == Ok::<Seq<char>, Fault>(
        text,
    )
}

/// Seals `variable` under the key and vector given.
///
/// This is `encrypt` for a key and a vector already drawn: the same
/// arguments always give the same bytes.
pub fn encrypt_with(key: String, iv: String, variable: String) -> (embedded: EncryptedVariable)
    ensures
        embedded.key@ == key@,
        embedded.iv@ == iv@,
        embeds(embedded, variable@),
{
    let encrypted = cbc_seal(key.as_str(), iv.as_str(), variable.as_str());
    proof {
        lemma_bytes_of_text(variable@);
    }
    EncryptedVariable { key, iv, encrypted }
}

/// Seals `variable` under a key and a vector drawn for it alone.
pub fn encrypt(variable: String) -> (embedded: EncryptedVariable)
    ensures
        embedded.key@.len() == SECRET_LEN,
        embedded.iv@.len() == SECRET_LEN,
        embeds(embedded, variable@),
{
    let key = random_secret();
    let iv = random_secret();
    encrypt_with(key, iv, variable)
}

/// Recovers the text that was sealed under `key` and `iv`.
pub fn decrypt(key: &str, iv: &str, encrypted_value: &[u8]) -> (text: Result<String, Fault>)
    ensures
        view_ok(text) == recovered(key@, iv@, encrypted_value@),
{
    interpret(cbc_open(key, iv, encrypted_value))
}

} // verus!
