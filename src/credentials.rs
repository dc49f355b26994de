//! Login key derivation.
//!
//! The server hands out a salt in the URL-safe Base64 alphabet without padding, but its own
//! client decodes it with a lookup table of the standard alphabet, where `-` and `_` are
//! missing and count as zero. To derive the same key, both characters are replaced by `A`
//! (the standard digit for zero) before a standard, unpadded decode. A URL-safe decode would
//! give different bytes for any salt that holds either character.
use crate::error::Error;
use vstd::prelude::*;
use vstd::string::StringSliceAdditionalSpecFns;

verus! {

/// PBKDF2 iterations of the login hash.
pub const PBKDF2_ITERATIONS: u32 = 200000;

/// Length in bytes of the login hash before encoding.
pub const PBKDF2_KEY_LENGTH: usize = 128;

/// What standard Base64 decoding without padding makes of `text`, if it is valid.
pub uninterp spec fn standard_no_pad_decoded(text: Seq<u8>) -> Option<Seq<u8>>;

/// Relies on `base64::decode_config` with `STANDARD_NO_PAD`: the outcome depends on the text
/// alone. It panics only when its buffer size computations overflow, which a text of at most
/// half the address space cannot cause.
#[verifier::external_body]
fn decode_standard_no_pad(text: &[u8]) -> (r: Result<Vec<u8>, base64::DecodeError>)
    requires
        text@.len() <= usize::MAX / 2,
    ensures
        r is Ok <==> standard_no_pad_decoded(text@) is Some,
        r matches Ok(v) ==> standard_no_pad_decoded(text@) == Some(v@),
{
    base64::decode_config(text, base64::STANDARD_NO_PAD)
}

/// Standard Base64 with padding of `bytes`.
pub uninterp spec fn standard_encoded(bytes: Seq<u8>) -> Seq<char>;

/// Relies on `base64::encode`: standard alphabet with padding, a function of the bytes alone.
/// It panics only when the encoded length overflows.
#[verifier::external_body]
fn encode_standard(bytes: &[u8]) -> (r: String)
    requires
        bytes@.len() < usize::MAX / 2,
    ensures
        r@ == standard_encoded(bytes@),
{
    base64::encode(bytes)
}

/// PBKDF2 with HMAC-SHA384 of `password` and `salt` over `rounds` iterations, `len` bytes long.
pub uninterp spec fn pbkdf2_hmac_sha384(password: Seq<u8>, salt: Seq<u8>, rounds: u32, len: nat) -> Seq<u8>;

/// Relies on `pbkdf2::pbkdf2` with `hmac::Hmac<sha2::Sha384>`: it fills the whole output buffer,
/// as a function of the password, salt, rounds and buffer length alone.
#[verifier::external_body]
fn pbkdf2_sha384(password: &[u8], salt: &[u8], rounds: u32, len: usize) -> (r: Vec<u8>)
    ensures
        r@ == pbkdf2_hmac_sha384(password@, salt@, rounds, len as nat),
        r@.len() == len,
{
    let mut out = vec![0u8; len];
    pbkdf2::pbkdf2::<hmac::Hmac<sha2::Sha384>>(password, salt, rounds, &mut out);
    out
}

/// A salt byte as the server's decoder sees it: `-` and `_` become `A`.
pub open spec fn salt_byte(b: u8) -> u8 {
    if b == 45 || b == 95 {
        65
    } else {
        b
    }
}

/// The salt text as the server's decoder sees it.
pub open spec fn substituted(text: Seq<u8>) -> Seq<u8> {
    text.map_values(|b: u8| salt_byte(b))
}

/// The bytes that a salt text decodes to, if any.
pub open spec fn salt_bytes(salt: Seq<u8>) -> Option<Seq<u8>> {
    standard_no_pad_decoded(substituted(salt))
}

/// The password hash over `rounds` iterations: PBKDF2 with HMAC-SHA384, 128 bytes, in
/// standard Base64.
pub open spec fn password_hash(password: Seq<u8>, salt: Seq<u8>, rounds: u32) -> Seq<char> {
    standard_encoded(pbkdf2_hmac_sha384(password, salt, rounds, PBKDF2_KEY_LENGTH as nat))
}

/// The login hash for a password and decoded salt.
pub open spec fn client_hash_of(password: Seq<u8>, salt: Seq<u8>) -> Seq<char> {
    password_hash(password, salt, PBKDF2_ITERATIONS)
}

/// Replaces `-` and `_` with `A`.
fn substitute(text: &[u8]) -> (r: Vec<u8>)
    ensures
        r@ == substituted(text@),
{
    let mut r: Vec<u8> = Vec::new();
    for i in 0..text.len()
        invariant
            r@ == substituted(text@.subrange(0, i as int)),
    {
        let b = text[i];
        r.push(if b == 45 || b == 95 { 65 } else { b });
        assert(substituted(text@.subrange(0, i + 1)) == substituted(text@.subrange(0, i as int)).push(salt_byte(b)));
    }
    assert(text@.subrange(0, text@.len() as int) == text@);
    r
}

/// Decodes a salt as the server does: `-` and `_` count as `A`, then standard Base64 without
/// padding.
pub fn decode_salt(salt: &str) -> (r: Result<Vec<u8>, Error>)
    requires
        salt.spec_bytes().len() <= usize::MAX / 2,
    ensures
        match salt_bytes(salt.spec_bytes()) {
            Some(b) => r matches Ok(v) && v@ == b,
            None => r matches Err(Error::Base64Decode(_)),
        },
{
    let text = substitute(salt.as_bytes());
    match decode_standard_no_pad(text.as_slice()) {
        Ok(v) => Ok(v),
        Err(e) => Err(Error::Base64Decode(e)),
    }
}

/// The hash of `password` with a decoded salt over `rounds` iterations: PBKDF2 with
/// HMAC-SHA384, 128 bytes, in standard Base64.
pub fn hash_password(password: &str, salt: &[u8], rounds: u32) -> (r: String)
    ensures
        r@ == password_hash(password.spec_bytes(), salt@, rounds),
{
    let key = pbkdf2_sha384(password.as_bytes(), salt, rounds, PBKDF2_KEY_LENGTH);
    encode_standard(key.as_slice())
}

/// The login hash of `password` with an already decoded salt: [`hash_password`] over
/// [`PBKDF2_ITERATIONS`] iterations.
pub fn derive_client_hash(password: &str, salt: &[u8]) -> (r: String)
    ensures
        r@ == client_hash_of(password.spec_bytes(), salt@),
{
    hash_password(password, salt, PBKDF2_ITERATIONS)
}

/// The login hash of `password` with the salt text that the server sent.
pub fn client_hash(password: &str, salt: &str) -> (r: Result<String, Error>)
    requires
        salt.spec_bytes().len() <= usize::MAX / 2,
    ensures
        match salt_bytes(salt.spec_bytes()) {
            Some(b) => r matches Ok(h) && h@ == client_hash_of(password.spec_bytes(), b),
            None => r matches Err(Error::Base64Decode(_)),
        },
{
    let salt = decode_salt(salt)?;
    Ok(derive_client_hash(password, salt.as_slice()))
}

} // verus!
