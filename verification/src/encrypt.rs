//! The build-time side: from a value to what is embedded for it.

use vstd::prelude::*;
use vstd::std_specs::convert::IntoSpec;
use vstd::utf8::encode_utf8;

use crate::cipher::{can_seal, fresh_key, fresh_nonce, seal, sealable, sealed};
use crate::decrypt::{lemma_round_trip, recovered, Fault};
use crate::layout::{
    assemble, blob_of, frame, key_of, lemma_split_frame, nonce_of, KEY_LEN, MIN_LEN, NONCE_LEN,
};
use crate::variable::{UnencryptedVariable, Variable};

verus! {

/// What the build writes in place of a variable: an expression that the
/// program evaluates when it first needs the value.
#[derive(Clone, Debug, PartialEq, Eq)]
pub enum Expansion {
    /// A call that recovers the text from the representation given.
    Decrypt(Vec<u8>),
    /// The same call, given as the value that an optional variable has.
    SomeDecrypt(Vec<u8>),
    /// The sign that an optional variable has no value.
    Absent,
}

/// An expansion, with its representation taken as a sequence of bytes.
pub enum Emitted {
    Decrypt(Seq<u8>),
    SomeDecrypt(Seq<u8>),
    Absent,
}

impl Emitted {
    /// The representation that the expansion carries, where it carries one.
    pub open spec fn representation(self) -> Option<Seq<u8>> {
        match self {
            Emitted::Decrypt(data) => Some(data),
            Emitted::SomeDecrypt(data) => Some(data),
            Emitted::Absent => None,
        }
    }
}

impl View for Expansion {
    type V = Emitted;

    open spec fn view(&self) -> Emitted {
        match self {
            Expansion::Decrypt(data) => Emitted::Decrypt(data@),
            Expansion::SomeDecrypt(data) => Emitted::SomeDecrypt(data@),
            Expansion::Absent => Emitted::Absent,
        }
    }
}

/// The representation of `text` under `key` and `nonce`: key, nonce, and the
/// UTF-8 bytes of the text sealed under them.
pub open spec fn representation_of(key: Seq<u8>, nonce: Seq<u8>, text: Seq<char>) -> Seq<u8> {
    frame(key, nonce, sealed(key, nonce, encode_utf8(text)))
}

/// What is written for `variable` once `key` and `nonce` are drawn. A
/// variable without a value is written as absent, and nothing is sealed for
/// it.
pub open spec fn expansion_of(key: Seq<u8>, nonce: Seq<u8>, variable: Variable) -> Emitted {
    match variable.value {
        None => Emitted::Absent,
        Some(text) => if variable.optional {
            Emitted::SomeDecrypt(representation_of(key, nonce, text))
        } else {
            Emitted::Decrypt(representation_of(key, nonce, text))
        },
    }
}

/// Whether `emitted` is what is written for `variable` under some key and
/// some nonce of the lengths that the layout fixes.
pub open spec fn drawn(emitted: Emitted, variable: Variable) -> bool {
    exists|key: Seq<u8>, nonce: Seq<u8>|
        key.len() == KEY_LEN && nonce.len() == NONCE_LEN && emitted == #[trigger] expansion_of(
            key,
            nonce,
            variable,
        )
}

/// Whether the value of `variable`, where it has one, is short enough to be
/// sealed.
pub open spec fn fits(variable: Variable) -> bool {
    variable.value matches Some(text) ==> sealable(encode_utf8(text).len())
}

/// Whether `emitted` gives back exactly what `variable` holds: its text
/// where it has one, recovered from a representation that is a key, a nonce
/// and a tag longer than the text's bytes, and absence where it has none.
pub open spec fn gives_back(emitted: Emitted, variable: Variable) -> bool {
    match variable.value {
        Some(text) => {
            &&& emitted.representation() matches Some(data)
            &&& data.len() == MIN_LEN + encode_utf8(text).len()
            &&& recovered(data) == Ok::<Seq<char>, Fault>(text)
        },
        None => emitted == Emitted::Absent,
    }
}

/// A representation holds the key and the nonce that it was made with, at
/// their places: two representations made with two keys differ in their
/// keys, and two made with two nonces differ in their nonces, whatever the
/// texts. Whether the sealed bytes differ as well is the cipher's matter.
pub proof fn lemma_representation_holds_its_draws(key: Seq<u8>, nonce: Seq<u8>, text: Seq<char>)
    requires
        key.len() == KEY_LEN,
        nonce.len() == NONCE_LEN,
    ensures
        key_of(representation_of(key, nonce, text)) == key,
        nonce_of(representation_of(key, nonce, text)) == nonce,
        blob_of(representation_of(key, nonce, text)) == sealed(key, nonce, encode_utf8(text)),
{
    lemma_split_frame(key, nonce, sealed(key, nonce, encode_utf8(text)));
}

/// Tells whether the value of `variable` is short enough to be sealed. A
/// variable without a value always is.
pub fn can_encrypt(variable: &UnencryptedVariable) -> (short: bool)
    ensures
        short == fits(variable@),
{
    match variable.inner() {
        Some(text) => can_seal(text.as_str().as_bytes().len()),
        None => true,
    }
}

/// Seals the value of `variable` under the key and nonce given and lays the
/// three out as its representation.
///
/// This is `encrypt` for a key and a nonce already drawn: the same
/// arguments always give the same expansion.
pub fn encrypt_with(key: &[u8], nonce: &[u8], variable: &UnencryptedVariable) -> (expansion:
    Expansion)
    requires
        key@.len() == KEY_LEN,
        nonce@.len() == NONCE_LEN,
        fits(variable@),
    ensures
        expansion@ == expansion_of(key@, nonce@, variable@),
        gives_back(expansion@, variable@),
{
    match variable.inner() {
        Some(text) => {
            let encrypted_variable = seal(key, nonce, text.as_str().as_bytes());
            let data = assemble(key, nonce, encrypted_variable.as_slice());
            proof {
                lemma_round_trip(key@, nonce@, encrypted_variable@, text@);
            }
            if variable.is_optional() {
                Expansion::SomeDecrypt(data)
            } else {
                Expansion::Decrypt(data)
            }
        },
        None => Expansion::Absent,
    }
}

/// Seals the value of a variable under a key and a nonce drawn for it alone,
/// and gives what the build writes in its place.
///
/// Each call that finds a value draws once for the key and once for the
/// nonce; nothing drawn is kept for another call. Whatever was drawn, the
/// expansion gives the value back.
pub fn encrypt<V: Into<UnencryptedVariable>>(v: V) -> (expansion: Expansion)
    requires
        V::obeys_into_spec(),
        fits(v.into_spec()@),
    ensures
        drawn(expansion@, v.into_spec()@),
        gives_back(expansion@, v.into_spec()@),
{
    let unencrypted_variable: UnencryptedVariable = v.into();
    if unencrypted_variable.inner().is_some() {
        let key = fresh_key();
        let nonce = fresh_nonce();
        encrypt_with(key.as_slice(), nonce.as_slice(), &unencrypted_variable)
    } else {
        proof {
            let key = Seq::new(KEY_LEN as nat, |i: int| 0u8);
            let nonce = Seq::new(NONCE_LEN as nat, |i: int| 0u8);
            assert(Emitted::Absent == expansion_of(key, nonce, unencrypted_variable@));
        }
        Expansion::Absent
    }
}

} // verus!
