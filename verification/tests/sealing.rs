//! Sealing and recovering with the cipher of the current format.

use chacha20poly1305::aead::{Aead, KeyInit};
use chacha20poly1305::{ChaCha20Poly1305, Key, Nonce};
use envcrypt::cipher::{can_seal, BLOCK_LEN, MAX_BLOCKS};
use envcrypt::decrypt::{decrypt, interpret, Fault};
use envcrypt::encrypt::{can_encrypt, encrypt, encrypt_with, Expansion};
use envcrypt::layout::assemble;
use envcrypt::variable::UnencryptedVariable;

fn key() -> Vec<u8> {
    (0u8..32).collect()
}

fn nonce() -> Vec<u8> {
    (100u8..112).collect()
}

fn representation(expansion: Expansion) -> Vec<u8> {
    match expansion {
        Expansion::Decrypt(data) => data,
        Expansion::SomeDecrypt(data) => data,
        Expansion::Absent => panic!("nothing was sealed"),
    }
}

#[test]
fn round_trip_of_plain_text() {
    let data = representation(encrypt("hello".to_string()));
    assert_eq!(decrypt(&data), Ok("hello".to_string()));
}

#[test]
fn round_trip_of_the_empty_string() {
    let data = representation(encrypt(String::new()));
    assert_eq!(data.len(), 60);
    assert_eq!(decrypt(&data), Ok(String::new()));
}

#[test]
fn round_trip_of_multi_byte_code_points() {
    let text = "héllo wörld ✓ 日本語 🦀\u{0}\n".to_string();
    let data = representation(encrypt(text.clone()));
    assert_eq!(data.len(), 60 + text.len());
    assert_eq!(decrypt(&data), Ok(text));
}

#[test]
fn round_trip_of_a_few_kilobytes() {
    let mut text = String::new();
    for i in 0..4096 {
        text.push(char::from_u32(0x20 + (i % 0x250)).unwrap());
    }
    assert!(text.len() > 4096);
    let data = representation(encrypt(text.clone()));
    assert_eq!(data.len(), 60 + text.len());
    assert_eq!(decrypt(&data), Ok(text));
}

#[test]
fn round_trip_of_an_optional_variable() {
    let expansion = encrypt(Some("hello".to_string()));
    assert!(matches!(expansion, Expansion::SomeDecrypt(_)));
    assert_eq!(decrypt(&representation(expansion)), Ok("hello".to_string()));
}

#[test]
fn a_required_variable_is_written_as_a_plain_call() {
    assert!(matches!(encrypt("hello".to_string()), Expansion::Decrypt(_)));
    assert!(matches!(
        encrypt(UnencryptedVariable::Required("hello".to_string())),
        Expansion::Decrypt(_)
    ));
}

#[test]
fn a_missing_variable_is_written_as_absent() {
    assert_eq!(encrypt(None::<String>), Expansion::Absent);
    assert_eq!(
        encrypt_with(&key(), &nonce(), &UnencryptedVariable::Optional(None)),
        Expansion::Absent
    );
}

#[test]
fn encrypt_with_gives_the_known_bytes() {
    let sealed_hello: [u8; 21] = [
        92, 116, 215, 166, 247, 135, 138, 29, 169, 29, 5, 192, 40, 182, 39, 185, 83, 88, 117, 147,
        113,
    ];
    let mut expected = key();
    expected.extend_from_slice(&nonce());
    expected.extend_from_slice(&sealed_hello);
    let variable = UnencryptedVariable::Required("hello".to_string());
    assert_eq!(encrypt_with(&key(), &nonce(), &variable), Expansion::Decrypt(expected.clone()));
    let variable = UnencryptedVariable::Optional(Some("hello".to_string()));
    assert_eq!(encrypt_with(&key(), &nonce(), &variable), Expansion::SomeDecrypt(expected));
}

#[test]
fn encrypt_with_seals_the_empty_string_as_a_bare_tag() {
    let tag: [u8; 16] = [163, 49, 38, 152, 111, 203, 19, 18, 194, 71, 108, 18, 80, 89, 255, 228];
    let variable = UnencryptedVariable::Required(String::new());
    let data = representation(encrypt_with(&key(), &nonce(), &variable));
    assert_eq!(&data[44..], &tag[..]);
}

#[test]
fn encrypt_with_seals_the_utf8_bytes_of_the_text() {
    let sealed: [u8; 33] = [
        92, 210, 18, 166, 244, 202, 86, 37, 56, 104, 103, 19, 150, 169, 58, 15, 227, 185, 47, 201,
        143, 137, 31, 106, 229, 64, 54, 168, 193, 154, 217, 176, 165,
    ];
    let variable = UnencryptedVariable::Required("héllo wörld ✓".to_string());
    let data = representation(encrypt_with(&key(), &nonce(), &variable));
    assert_eq!(&data[44..], &sealed[..]);
}

#[test]
fn encrypt_with_agrees_with_the_cipher_called_directly() {
    let text = "a value of some length, sealed twice";
    let cipher = ChaCha20Poly1305::new(Key::from_slice(&key()));
    let blob = cipher.encrypt(Nonce::from_slice(&nonce()), text.as_bytes()).unwrap();
    let variable = UnencryptedVariable::Required(text.to_string());
    let data = representation(encrypt_with(&key(), &nonce(), &variable));
    assert_eq!(&data[..32], &key()[..]);
    assert_eq!(&data[32..44], &nonce()[..]);
    assert_eq!(&data[44..], &blob[..]);
}

#[test]
fn encrypt_with_is_a_function_of_its_arguments() {
    let variable = UnencryptedVariable::Required("same".to_string());
    let first = encrypt_with(&key(), &nonce(), &variable);
    let second = encrypt_with(&key(), &nonce(), &variable);
    assert_eq!(first, second);
    let other_nonce = [7u8; 12];
    assert_ne!(first, encrypt_with(&key(), &other_nonce, &variable));
}

#[test]
fn decrypt_reads_the_known_bytes() {
    let mut data = key();
    data.extend_from_slice(&nonce());
    data.extend_from_slice(&[
        113, 95, 248, 152, 193, 245, 34, 23, 191, 129, 67, 62, 190, 220, 157, 69, 3, 134, 176, 101,
        27, 165, 78, 217, 51, 64, 9, 194, 88, 143, 143,
    ]);
    assert_eq!(decrypt(&data), Ok("ENCRYPTED_VALUE".to_string()));
}

#[test]
fn the_sealed_bytes_are_not_the_text() {
    let text = "a secret that must not be readable";
    let variable = UnencryptedVariable::Required(text.to_string());
    let data = representation(encrypt_with(&key(), &nonce(), &variable));
    assert_ne!(&data[44..44 + text.len()], text.as_bytes());
    assert!(!data.windows(text.len()).any(|window| window == text.as_bytes()));
    let data = representation(encrypt(text.to_string()));
    assert!(!data.windows(text.len()).any(|window| window == text.as_bytes()));
}

#[test]
fn two_calls_draw_two_keys_and_two_nonces() {
    let first = representation(encrypt("same value".to_string()));
    let second = representation(encrypt("same value".to_string()));
    let third = representation(encrypt("another value".to_string()));
    assert_ne!(&first[..32], &second[..32]);
    assert_ne!(&first[32..44], &second[32..44]);
    assert_ne!(&first[..32], &third[..32]);
    assert_ne!(&first[32..44], &third[32..44]);
    assert_ne!(&second[..32], &third[..32]);
    assert_ne!(&second[32..44], &third[32..44]);
    assert_ne!(&first[44..], &second[44..]);
}

#[test]
fn any_bit_turned_over_in_the_blob_is_noticed() {
    let variable = UnencryptedVariable::Required("tamper with me".to_string());
    let data = representation(encrypt_with(&key(), &nonce(), &variable));
    assert_eq!(decrypt(&data), Ok("tamper with me".to_string()));
    for index in 44..data.len() {
        for bit in 0..8 {
            let mut altered = data.clone();
            altered[index] ^= 1 << bit;
            assert_eq!(decrypt(&altered), Err(Fault::Rejected), "byte {} bit {}", index, bit);
        }
    }
}

#[test]
fn any_bit_turned_over_in_key_or_nonce_is_noticed() {
    let data = representation(encrypt("tamper with me".to_string()));
    for index in 0..44 {
        for bit in 0..8 {
            let mut altered = data.clone();
            altered[index] ^= 1 << bit;
            assert_eq!(decrypt(&altered), Err(Fault::Rejected), "byte {} bit {}", index, bit);
        }
    }
}

#[test]
fn a_blob_cut_short_or_drawn_out_is_noticed() {
    let data = representation(encrypt("some text".to_string()));
    let mut longer = data.clone();
    longer.push(0);
    assert_eq!(decrypt(&longer), Err(Fault::Rejected));
    assert_eq!(decrypt(&data[..data.len() - 1]), Err(Fault::Rejected));
}

#[test]
fn too_few_bytes_are_malformed() {
    assert_eq!(decrypt(&[]), Err(Fault::Malformed));
    assert_eq!(decrypt(&[0u8; 31]), Err(Fault::Malformed));
    assert_eq!(decrypt(&[0u8; 44]), Err(Fault::Malformed));
    assert_eq!(decrypt(&[0u8; 59]), Err(Fault::Malformed));
    assert_eq!(decrypt(&[0u8; 60]), Err(Fault::Rejected));
}

#[test]
fn sealed_bytes_that_are_not_utf8_are_not_text() {
    let cipher = ChaCha20Poly1305::new(Key::from_slice(&key()));
    let blob = cipher.encrypt(Nonce::from_slice(&nonce()), &[0xffu8, 0xfe][..]).unwrap();
    let data = assemble(&key(), &nonce(), &blob);
    assert_eq!(decrypt(&data), Err(Fault::NotText));
}

#[test]
fn interpret_reads_every_outcome_of_an_opening() {
    assert_eq!(interpret(None), Err(Fault::Rejected));
    assert_eq!(interpret(Some(vec![])), Ok(String::new()));
    assert_eq!(interpret(Some(b"hello".to_vec())), Ok("hello".to_string()));
    assert_eq!(interpret(Some(vec![0xe2, 0x9c, 0x93])), Ok("✓".to_string()));
    assert_eq!(interpret(Some(vec![0xe2, 0x9c])), Err(Fault::NotText));
    assert_eq!(interpret(Some(vec![0xc0, 0x80])), Err(Fault::NotText));
    assert_eq!(interpret(Some(vec![0xed, 0xa0, 0x80])), Err(Fault::NotText));
}

#[test]
fn every_fault_has_its_words() {
    assert_eq!(
        Fault::Malformed.diagnostic(),
        "internal consistency failure: embedded value is too short to hold a key, a nonce and a tag"
    );
    assert_eq!(
        Fault::TooLong.diagnostic(),
        "internal consistency failure: embedded value is longer than any that is sealed"
    );
    assert_eq!(
        Fault::Rejected.diagnostic(),
        "internal consistency failure: embedded value was altered or sealed by another build"
    );
    assert_eq!(
        Fault::NotText.diagnostic(),
        "internal consistency failure: embedded value is not UTF-8 text"
    );
}

#[test]
fn ordinary_values_can_be_encrypted() {
    assert!(can_encrypt(&UnencryptedVariable::Required(String::new())));
    assert!(can_encrypt(&UnencryptedVariable::Required("x".repeat(10_000))));
    assert!(can_encrypt(&UnencryptedVariable::Optional(None)));
    assert!(can_encrypt(&UnencryptedVariable::Optional(Some("value".to_string()))));
}

#[test]
fn sealing_ends_where_the_key_stream_ends() {
    assert_eq!(BLOCK_LEN, 64);
    assert_eq!(MAX_BLOCKS, 0xffff_ffff);
    let longest: usize = 274_877_906_816;
    assert_eq!(longest, (MAX_BLOCKS - 1) * BLOCK_LEN);
    assert!(can_seal(0));
    assert!(can_seal(1));
    assert!(can_seal(64));
    assert!(can_seal(longest - 64));
    assert!(can_seal(longest - 1));
    assert!(can_seal(longest));
    assert!(!can_seal(longest + 1));
    assert!(!can_seal(longest + 63));
    assert!(!can_seal(longest + 64));
    assert!(!can_seal(longest + 65));
    assert!(!can_seal(usize::MAX));
}
