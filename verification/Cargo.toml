[package]
name = "envcrypt"
version = "0.1.0"
edition = "2021"
publish = false

[dependencies]
chacha20poly1305 = "0.10"
magic-crypt = "3.1"
rand = "0.8"
proc-macro2 = "1"
quote = "1"
proc-macro-error = "1"

[dev-dependencies]
regex = "1"
