//! Hashing and public-key recovery, both done by outside crates. Each result
//! has a name, so that what is computed from it can be stated exactly.

use vstd::prelude::*;

verus! {

/// The Keccak-256 digest that `keccak_hash::keccak` returns for `data`.
pub uninterp spec fn keccak_digest(data: Seq<u8>) -> Seq<u8>;

/// The Keccak-256 digest that `sha3::Keccak256` returns for `data`.
pub uninterp spec fn sha3_keccak256_digest(data: Seq<u8>) -> Seq<u8>;

/// The uncompressed public key, 65 bytes, that `libsecp256k1::recover` returns
/// for a message hash, a signature `r || s` and a recovery id, or `None` where
/// the signature does not parse or recovery fails.
pub uninterp spec fn secp256k1_recovered_key(
    message: Seq<u8>,
    signature: Seq<u8>,
    recovery_id: u8,
) -> Option<Seq<u8>>;

/// `keccak_hash::keccak`: the 32-byte digest of `data`.
#[verifier::external_body]
pub(crate) fn keccak(data: &[u8]) -> (r: [u8; 32])
    ensures
        r@ == keccak_digest(data@),
{
    keccak_hash::keccak(data).0
}

/// `Digest::digest` of `sha3::Keccak256`: the 32-byte digest of `data`.
#[verifier::external_body]
pub(crate) fn sha3_keccak256(data: &[u8]) -> (r: [u8; 32])
    ensures
        r@ == sha3_keccak256_digest(data@),
{
    <sha3::Keccak256 as sha3::Digest>::digest(data).into()
}

/// `libsecp256k1::recover`, on a message, a signature and a recovery id parsed
/// by the crate's own `Message::parse`, `Signature::parse_standard` and
/// `RecoveryId::parse`; the key comes back through `PublicKey::serialize`.
/// `None` stands for every error of the outside crate.
#[verifier::external_body]
pub(crate) fn recover_public_key(message: &[u8; 32], signature: &[u8; 64], recovery_id: u8) -> (r:
    Option<[u8; 65]>)
    ensures
        r is Some == secp256k1_recovered_key(message@, signature@, recovery_id) is Some,
        r is Some ==> secp256k1_recovered_key(message@, signature@, recovery_id) == Some(r->0@),
{
    let message = libsecp256k1::Message::parse(message);
    let Ok(signature) = libsecp256k1::Signature::parse_standard(signature) else {
        return None;
    };
    let Ok(recovery_id) = libsecp256k1::RecoveryId::parse(recovery_id) else {
        return None;
    };
    match libsecp256k1::recover(&message, &signature, &recovery_id) {
        Ok(key) => Some(key.serialize()),
        Err(_) => None,
    }
}

} // verus!
