//! Trusted boundary to the cryptographic primitives the signer rests on:
//! PKCS#1 v1.5 RSA-SHA256 signing and standard base64 encoding. Each
//! wrapper names its result so that callers' contracts stay exact without
//! restating the algorithms.

use vstd::prelude::*;

verus! {

/// The PKCS#1 v1.5 RSA-SHA256 signature that the key in `key_pem` (a
/// PKCS#8 PEM document) produces over `msg`, or nothing when the key does
/// not parse or signing fails. The scheme is deterministic, so this is a
/// function of the two byte strings alone.
pub uninterp spec fn rsa_sha256_signature(key_pem: Seq<u8>, msg: Seq<u8>) -> Option<Seq<u8>>;

/// Relies on rsa::RsaPrivateKey::from_pkcs8_pem and
/// rsa::pkcs1v15::SigningKey::<Sha256>::try_sign: PKCS#1 v1.5 signing is
/// deterministic, a function of key and message bytes alone; an unparsable
/// key or a failed signing attempt yields no signature.
#[verifier::external_body]
pub(crate) fn rsa_sha256_sign(key_pem: &[u8], msg: &[u8]) -> (r: Option<Vec<u8>>)
    ensures
        match r {
            Some(sig) => rsa_sha256_signature(key_pem@, msg@) == Some(sig@),
            None => rsa_sha256_signature(key_pem@, msg@) is None,
        },
{
    let pem = match core::str::from_utf8(key_pem) {
        Ok(p) => p,
        Err(_) => return None,
    };
    let key = match <rsa::RsaPrivateKey as rsa::pkcs8::DecodePrivateKey>::from_pkcs8_pem(pem) {
        Ok(k) => k,
        Err(_) => return None,
    };
    let signing_key = rsa::pkcs1v15::SigningKey::<rsa::sha2::Sha256>::new(key);
    match rsa::signature::Signer::try_sign(&signing_key, msg) {
        Ok(sig) => Some(rsa::signature::SignatureEncoding::to_vec(&sig)),
        Err(_) => None,
    }
}

/// The standard-alphabet, padded base64 encoding of a byte string: a
/// function of the bytes alone.
pub uninterp spec fn base64_standard(bytes: Seq<u8>) -> Seq<char>;

/// Relies on base64's general_purpose::STANDARD engine: the encoding is a
/// function of the input bytes alone.
#[verifier::external_body]
pub(crate) fn base64_encode(bytes: &Vec<u8>) -> (r: String)
    ensures
        r@ == base64_standard(bytes@),
{
    base64::Engine::encode(&base64::engine::general_purpose::STANDARD, bytes)
}

} // verus!
