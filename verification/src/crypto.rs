//! Digests, hexadecimal texts and keys, which outside crates compute.

use ring::rand::SystemRandom;
use ring::signature::{Ed25519KeyPair, KeyPair};
use sha2::{Digest, Sha256};
use vstd::prelude::*;

verus! {

/// The SHA-256 digest of `data`.
pub uninterp spec fn sha256(data: Seq<u8>) -> Seq<u8>;

/// `sha2::Sha256`: `new`, one `update` with `data`, `finalize`.
///
/// Trusted: the digest depends on `data` alone and has 32 bytes. (The hasher counts the bits of
/// its input in 64 bits; no target can hold an input that is long enough to overflow the count.)
#[verifier::external_body]
pub(crate) fn sha256_digest(data: &[u8]) -> (r: Vec<u8>)
    ensures
        r@ == sha256(data@),
        r@.len() == 32,
{
    let mut hasher = Sha256::new();
    hasher.update(data);
    hasher.finalize().to_vec()
}

/// The lower-case hexadecimal digit of `n`.
pub open spec fn hex_char(n: int) -> char
    recommends
        0 <= n < 16,
{
    if n < 10 {
        (48 + n) as char
    } else {
        (87 + n) as char
    }
}

/// Two lower-case hexadecimal digits for each byte, the high half first.
pub open spec fn hex_text(bytes: Seq<u8>) -> Seq<char> {
    Seq::new(
        2 * bytes.len(),
        |i: int|
            hex_char(
                if i % 2 == 0 {
                    bytes[i / 2] as int / 16
                } else {
                    bytes[i / 2] as int % 16
                },
            ),
    )
}

/// `hex::encode`.
///
/// Trusted: each byte becomes two lower-case hexadecimal digits, the high half first.
#[verifier::external_body]
pub(crate) fn hex_encode(bytes: &[u8]) -> (r: String)
    ensures
        r@ == hex_text(bytes@),
{
    hex::encode(bytes)
}

/// The public key of the Ed25519 key pair that a PKCS#8 document holds, or the printed reason
/// for which the document is rejected.
pub uninterp spec fn ed25519_public_key(pkcs8: Seq<u8>) -> Result<Seq<u8>, Seq<char>>;

/// `ring::signature::Ed25519KeyPair::from_pkcs8`, of whose result the public key is kept, and of
/// whose error the `{:?}` text.
///
/// Trusted: the outcome depends on the document alone, and a public key has 32 bytes.
#[verifier::external_body]
pub(crate) fn public_key_from_pkcs8(pkcs8: &[u8]) -> (r: Result<Vec<u8>, String>)
    ensures
        match r {
            Ok(key) => ed25519_public_key(pkcs8@) == Ok::<Seq<u8>, Seq<char>>(key@) && key@.len()
                == 32,
            Err(reason) => ed25519_public_key(pkcs8@) == Err::<Seq<u8>, Seq<char>>(reason@),
        },
{
    match Ed25519KeyPair::from_pkcs8(pkcs8) {
        Ok(pair) => Ok(pair.public_key().as_ref().to_vec()),
        Err(e) => Err(format!("{:?}", e)),
    }
}

/// `ring::signature::Ed25519KeyPair::generate_pkcs8` on a `ring::rand::SystemRandom`, of whose
/// error the `{:?}` text is kept.
///
/// Trusted: the document holds a key pair with its public key, in the form that `from_pkcs8`
/// reads back; the one error there is prints as `Unspecified`. Which pair it is stays open, since
/// the operating system's generator draws it; that it was drawn is what
/// [`given_by_generator`](crate::provenance::given_by_generator) keeps of it.
#[verifier::external_body]
pub(crate) fn generate_pkcs8() -> (r: Result<Vec<u8>, String>)
    ensures
        match r {
            Ok(document) => ed25519_public_key(document@) is Ok,
            Err(reason) => reason@ == "Unspecified"@,
        },
        crate::provenance::given_by_generator(
            match r {
                Ok(document) => Ok(document@),
                Err(reason) => Err(reason@),
            },
        ),
{
    match Ed25519KeyPair::generate_pkcs8(&SystemRandom::new()) {
        Ok(document) => Ok(document.as_ref().to_vec()),
        Err(e) => Err(format!("{:?}", e)),
    }
}

} // verus!
