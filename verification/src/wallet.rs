//! Wallets: an address is the public key of an Ed25519 key pair.

use crate::crypto::{generate_pkcs8, hex_encode, public_key_from_pkcs8};
use crate::error::{prefixed, BlockchainError, ErrorView};
use vstd::prelude::*;

verus! {

/// What becomes of the outcome of drawing a key pair: the address of the pair, or the error.
pub open spec fn wallet_outcome(drawn: Result<Seq<u8>, Seq<char>>) -> Result<
    Seq<char>,
    ErrorView,
> {
    match drawn {
        Err(reason) => Err(ErrorView::RingError("Key generation error: "@ + reason)),
        Ok(pkcs8) => match crate::crypto::ed25519_public_key(pkcs8) {
            Err(reason) => Err(ErrorView::RingError("Key pair error: "@ + reason)),
            Ok(key) => Ok(crate::crypto::hex_text(key)),
        },
    }
}

/// The model of the outcome of drawing a key pair.
pub open spec fn drawn_view(drawn: Result<Vec<u8>, String>) -> Result<Seq<u8>, Seq<char>> {
    match drawn {
        Ok(pkcs8) => Ok(pkcs8@),
        Err(reason) => Err(reason@),
    }
}

/// The model of a wallet result.
pub open spec fn wallet_view(r: Result<String, BlockchainError>) -> Result<Seq<char>, ErrorView> {
    match r {
        Ok(address) => Ok(address@),
        Err(e) => Err(e@),
    }
}

/// The address that belongs to a public key: its hexadecimal text.
pub fn wallet_address(public_key: &[u8]) -> (r: String)
    ensures
        r@ == crate::crypto::hex_text(public_key@),
{
    hex_encode(public_key)
}

/// The wallet that an outcome of drawing a key pair gives.
pub fn wallet_from_pkcs8(drawn: Result<Vec<u8>, String>) -> (r: Result<String, BlockchainError>)
    ensures
        wallet_view(r) == wallet_outcome(drawn_view(drawn)),
        match drawn {
            Err(reason) => r matches Err(e) && e matches BlockchainError::RingError(text) && text@
                == "Key generation error: "@ + reason@,
            Ok(pkcs8) => match crate::crypto::ed25519_public_key(pkcs8@) {
                Err(reason) => r matches Err(e) && e matches BlockchainError::RingError(text)
                    && text@ == "Key pair error: "@ + reason,
                Ok(key) => r matches Ok(address) && address@ == crate::crypto::hex_text(key),
            },
        },
        r matches Ok(address) ==> address@.len() == 64,
{
    match drawn {
        Err(reason) => Err(BlockchainError::RingError(prefixed("Key generation error: ", &reason))),
        Ok(pkcs8) => match public_key_from_pkcs8(pkcs8.as_slice()) {
            Err(reason) => Err(BlockchainError::RingError(prefixed("Key pair error: ", &reason))),
            Ok(key) => Ok(wallet_address(key.as_slice())),
        },
    }
}

/// Draws a new Ed25519 key pair and returns its address.
///
/// The pair is random: the result is that of [`wallet_from_pkcs8`] on what was drawn. The one
/// error there is comes from a generator that fails.
pub fn generate_wallet() -> (r: Result<String, BlockchainError>)
    ensures
        match r {
            Ok(address) => {
                &&& address@.len() == 64
                &&& exists|pkcs8: Seq<u8>|
                    #[trigger] crate::crypto::ed25519_public_key(pkcs8) is Ok && address@
                        == crate::crypto::hex_text(crate::crypto::ed25519_public_key(pkcs8)->Ok_0)
                        && crate::provenance::given_by_generator(Ok(pkcs8))
            },
            Err(e) => {
                &&& e@ == ErrorView::RingError("Key generation error: "@ + "Unspecified"@)
                &&& crate::provenance::given_by_generator(Err("Unspecified"@))
            },
        },
{
    let drawn = generate_pkcs8();
    wallet_from_pkcs8(drawn)
}

} // verus!
