//! Secrets that a build embeds in a program without leaving them readable in
//! the artifact.
//!
//! At build time a named value is sealed under a key and a nonce drawn for it
//! alone, and key, nonce and sealed bytes are laid out as one byte string, the
//! representation. At run time that byte string is taken apart again, opened
//! and read back as text.
//!
//! Every function here is verified. What the ciphers compute is not: each call
//! into them stands behind a small function whose contract is taken on trust,
//! and whose doc comment says what it claims.

pub mod cipher;
pub mod decrypt;
pub mod diagnostic;
pub mod encrypt;
pub mod expand;
pub mod layout;
pub mod legacy;
pub mod syntax;
pub mod text;
pub mod variable;
