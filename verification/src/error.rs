//! Errors of the transaction types.
use vstd::prelude::*;

use crate::primitives::H256;

verus! {

/// A failure to recover the key that signed a transaction.
#[derive(Clone, Copy, Debug, PartialEq, Eq)]
pub enum CryptoError {
    /// The signature bytes are not `r ++ s ++ v` of 32, 32 and 1 bytes.
    InvalidSignatureLength,
    /// secp256k1 refused the signature or could not recover a key from it.
    Secp256k1(secp256k1::Error),
}

/// Errors of transaction checks and conversions.
#[derive(Clone, Debug, PartialEq, Eq)]
pub enum TypesError {
    /// The stored hash differs from the hash computed from the transaction.
    TxHashMismatch { origin: H256, calc: H256 },
    /// The transaction carries no signature where one is needed.
    MissingSignature,
    /// A signed transaction was requested from an unsigned one.
    Unsigned,
    /// Public-key recovery failed.
    Crypto(CryptoError),
}

} // verus!
