//! Trusted boundary to the cryptographic crates: RSA-OAEP key handling and
//! decryption, SHA-256, and base64 codecs. Deterministic results are given
//! names so that callers' contracts can speak about them exactly; nothing is
//! promised about key generation or decryption outcomes beyond their shape.

use vstd::prelude::*;

use base64::Engine;
use rsa::pkcs8::EncodePublicKey;
use sha2::Digest;

verus! {

#[verifier::external_type_specification]
#[verifier::external_body]
pub struct ExRsaPrivateKey(rsa::RsaPrivateKey);

#[verifier::external_type_specification]
#[verifier::external_body]
pub struct ExRsaPublicKey(rsa::RsaPublicKey);

/// The SHA-256 digest of a byte sequence.
pub uninterp spec fn sha256_of(b: Seq<u8>) -> Seq<u8>;

/// Standard-alphabet, padded base64 encoding of a byte sequence.
pub uninterp spec fn b64_standard_of(b: Seq<u8>) -> Seq<char>;

/// Standard-alphabet base64 decoding; `None` on malformed input.
pub uninterp spec fn b64_standard_decode_of(s: Seq<char>) -> Option<Seq<u8>>;

/// URL-safe-alphabet, unpadded base64 encoding of a byte sequence.
pub uninterp spec fn b64_url_nopad_of(b: Seq<u8>) -> Seq<char>;

/// UTF-8 decoding of a byte sequence; `None` when the bytes are not UTF-8.
pub uninterp spec fn utf8_decode_of(b: Seq<u8>) -> Option<Seq<char>>;

/// Relies on sha2's `Sha256::digest`: the digest is a function of the input
/// bytes alone and is 32 bytes long.
#[verifier::external_body]
pub fn sha256(b: &[u8]) -> (r: Vec<u8>)
    ensures
        r@ == sha256_of(b@),
        r@.len() == 32,
{
    sha2::Sha256::digest(b).to_vec()
}

/// Relies on base64's `Engine::encode` with the `STANDARD` engine: the text
/// depends on the input bytes alone, and no bytes encode to no text.
#[verifier::external_body]
pub fn b64_encode_standard(b: &[u8]) -> (r: String)
    ensures
        r@ == b64_standard_of(b@),
        b@.len() == 0 ==> r@.len() == 0,
{
    base64::engine::general_purpose::STANDARD.encode(b)
}

/// Relies on base64's `Engine::decode` with the `STANDARD` engine: success
/// and the decoded bytes depend on the input text alone.
#[verifier::external_body]
pub fn b64_decode_standard(s: &str) -> (r: Option<Vec<u8>>)
    ensures
        r is Some <==> b64_standard_decode_of(s@) is Some,
        r matches Some(v) ==> b64_standard_decode_of(s@) == Some(v@),
{
    base64::engine::general_purpose::STANDARD.decode(s).ok()
}

/// Relies on base64's `Engine::encode` with the `URL_SAFE_NO_PAD` engine:
/// the text depends on the input bytes alone.
#[verifier::external_body]
pub fn b64_encode_url_nopad(b: &[u8]) -> (r: String)
    ensures
        r@ == b64_url_nopad_of(b@),
{
    base64::engine::general_purpose::URL_SAFE_NO_PAD.encode(b)
}

/// Relies on `String::from_utf8`: it succeeds exactly on valid UTF-8 and
/// returns the decoded text, a function of the bytes alone.
#[verifier::external_body]
pub fn utf8_decode(b: Vec<u8>) -> (r: Option<String>)
    ensures
        r is Some <==> utf8_decode_of(b@) is Some,
        r matches Some(s) ==> utf8_decode_of(b@) == Some(s@),
{
    String::from_utf8(b).ok()
}

/// Relies on rsa's `RsaPrivateKey::new` with the operating-system RNG: the
/// key is random, so nothing is promised about it.
#[verifier::external_body]
pub fn rsa_generate(bits: usize) -> (r: Option<rsa::RsaPrivateKey>) {
    let mut rng = rsa::rand_core::OsRng;
    rsa::RsaPrivateKey::new(&mut rng, bits).ok()
}

/// Relies on rsa's `RsaPublicKey::from`: extracts the public half of a key.
#[verifier::external_body]
pub fn rsa_public_key(k: &rsa::RsaPrivateKey) -> (r: rsa::RsaPublicKey) {
    rsa::RsaPublicKey::from(k)
}

/// Relies on rsa's `EncodePublicKey::to_public_key_der`: the DER (SPKI)
/// encoding of the public key.
#[verifier::external_body]
pub fn rsa_spki_der(k: &rsa::RsaPublicKey) -> (r: Option<Vec<u8>>) {
    match k.to_public_key_der() {
        Ok(der) => Some(der.as_ref().to_vec()),
        Err(_) => None,
    }
}

/// Relies on rsa's `RsaPrivateKey::decrypt` with OAEP/SHA-256 padding:
/// `None` on any decryption failure (tampered or mismatched ciphertext).
#[verifier::external_body]
pub fn rsa_oaep_decrypt(k: &rsa::RsaPrivateKey, cipher: &[u8]) -> (r: Option<Vec<u8>>) {
    let padding = rsa::Oaep::new::<sha2::Sha256>();
    k.decrypt(padding, cipher).ok()
}

} // verus!
