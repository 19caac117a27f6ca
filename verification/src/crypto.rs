//! The hash function and public-key recovery that transactions rely on.
use sha3::Digest;
use vstd::prelude::*;

use crate::primitives::H256;

verus! {

/// The Keccak-256 digest of a byte string, as computed by the `sha3` crate.
pub uninterp spec fn keccak256(data: Seq<u8>) -> Seq<u8>;

/// Keccak-256 of `data`.
/// Trusted: calls `sha3::Keccak256::digest`; the result is a 32-byte digest that
/// depends on `data` alone.
#[verifier::external_body]
pub(crate) fn keccak_digest(data: &[u8]) -> (r: H256)
    ensures
        r@ == keccak256(data@),
{
    H256(sha3::Keccak256::digest(data).into())
}

#[verifier::external_type_specification]
#[verifier::external_body]
pub struct ExSecp256k1Error(secp256k1::Error);

/// The serialized uncompressed public key that secp256k1 recovers from a 32-byte
/// message hash and a 65-byte signature `r ++ s ++ recovery_id`, or `None` when
/// recovery fails.
pub uninterp spec fn secp256k1_recovery(hash: Seq<u8>, sig: Seq<u8>) -> Option<Seq<u8>>;

/// Recovers the public key that signed `hash`.
/// Trusted: calls, in the `secp256k1` crate, `RecoveryId::from_i32` on the last
/// signature byte, `RecoverableSignature::from_compact` on the first 64 bytes,
/// `Secp256k1::recover_ecdsa`, and `PublicKey::serialize_uncompressed`.
/// `from_i32` refuses a recovery id above 3; an uncompressed serialization starts
/// with the byte 4. Which signatures recover to which keys is left to the name
/// `secp256k1_recovery`.
#[verifier::external_body]
pub(crate) fn secp256k1_recover(hash: &[u8; 32], sig: &[u8; 65]) -> (r: Result<
    [u8; 65],
    secp256k1::Error,
>)
    ensures
        r is Ok <==> secp256k1_recovery(hash@, sig@) is Some,
        r matches Ok(k) ==> secp256k1_recovery(hash@, sig@) == Some(k@),
        r matches Ok(k) ==> k@[0] == 4,
        sig@[64] > 3 ==> r is Err,
{
    let recid = secp256k1::ecdsa::RecoveryId::from_i32(sig[64] as i32)?;
    let rsig = secp256k1::ecdsa::RecoverableSignature::from_compact(&sig[0..64], recid)?;
    let msg = secp256k1::Message::from_digest(*hash);
    let key = secp256k1::Secp256k1::verification_only().recover_ecdsa(&msg, &rsig)?;
    Ok(key.serialize_uncompressed())
}

} // verus!
