//! Fixed-size hashes and 256-bit unsigned integers, with their mathematical views.
use vstd::prelude::*;

verus! {

/// The largest value a `U256` can hold, 2^256 - 1.
pub open spec fn u256_max() -> nat {
    0xffff_ffff_ffff_ffff_ffff_ffff_ffff_ffff_ffff_ffff_ffff_ffff_ffff_ffff_ffff_ffffnat
}

/// The value of four little-endian 64-bit limbs.
pub open spec fn limbs_value(l0: u64, l1: u64, l2: u64, l3: u64) -> nat {
    (l0 + l1 * 0x1_0000_0000_0000_0000int + l2 * 0x1_0000_0000_0000_0000_0000_0000_0000_0000int
        + l3 * 0x1_0000_0000_0000_0000_0000_0000_0000_0000_0000_0000_0000_0000int) as nat
}

/// A 256-bit unsigned integer held as four little-endian 64-bit limbs.
#[derive(Clone, Copy, Debug, PartialEq, Eq, Default)]
pub struct U256(pub [u64; 4]);

impl View for U256 {
    type V = nat;

    open spec fn view(&self) -> nat {
        limbs_value(self.0@[0], self.0@[1], self.0@[2], self.0@[3])
    }
}

impl U256 {
    /// Every `U256` lies in `0 ..= 2^256 - 1`.
    pub proof fn lemma_bounded(self)
        ensures
            self@ <= u256_max(),
    {
        let l = self.0@;
        assert(l.len() == 4);
        assert(l[1] * 0x1_0000_0000_0000_0000int <= 0xffff_ffff_ffff_ffff * 0x1_0000_0000_0000_0000int);
        assert(l[2] * 0x1_0000_0000_0000_0000_0000_0000_0000_0000int
            <= 0xffff_ffff_ffff_ffff * 0x1_0000_0000_0000_0000_0000_0000_0000_0000int);
        assert(l[3] * 0x1_0000_0000_0000_0000_0000_0000_0000_0000_0000_0000_0000_0000int
            <= 0xffff_ffff_ffff_ffff * 0x1_0000_0000_0000_0000_0000_0000_0000_0000_0000_0000_0000_0000int);
    }

    /// Zero.
    pub fn zero() -> (r: U256)
        ensures
            r@ == 0,
    {
        U256([0u64, 0u64, 0u64, 0u64])
    }

    /// One.
    pub fn one() -> (r: U256)
        ensures
            r@ == 1,
    {
        U256([1u64, 0u64, 0u64, 0u64])
    }

    /// The value of a `u64`.
    pub fn from_u64(x: u64) -> (r: U256)
        ensures
            r@ == x,
    {
        U256([x, 0u64, 0u64, 0u64])
    }

    /// The largest value, 2^256 - 1.
    pub fn max_value() -> (r: U256)
        ensures
            r@ == u256_max(),
    {
        U256([u64::MAX, u64::MAX, u64::MAX, u64::MAX])
    }
}

/// Checked 256-bit multiplication: `None` exactly when the product exceeds 2^256 - 1.
/// Trusted: calls `primitive_types::U256::checked_mul` (uint crate), which returns
/// `None` on overflow and the product otherwise.
#[verifier::external_body]
pub(crate) fn u256_checked_mul(a: U256, b: U256) -> (r: Option<U256>)
    ensures
        match r {
            Some(c) => c@ == a@ * b@,
            None => a@ * b@ > u256_max(),
        },
{
    ethereum_types::U256(a.0).checked_mul(ethereum_types::U256(b.0)).map(|c| U256(c.0))
}

/// Checked 256-bit addition: `None` exactly when the sum exceeds 2^256 - 1.
/// Trusted: calls `primitive_types::U256::checked_add` (uint crate), which returns
/// `None` on overflow and the sum otherwise.
#[verifier::external_body]
pub(crate) fn u256_checked_add(a: U256, b: U256) -> (r: Option<U256>)
    ensures
        match r {
            Some(c) => c@ == a@ + b@,
            None => a@ + b@ > u256_max(),
        },
{
    ethereum_types::U256(a.0).checked_add(ethereum_types::U256(b.0)).map(|c| U256(c.0))
}

/// The smaller of two values.
/// Trusted: calls `Ord::min` on `primitive_types::U256`, whose `Ord` (uint crate)
/// compares the numeric values, most significant limb first.
#[verifier::external_body]
pub(crate) fn u256_min(a: U256, b: U256) -> (r: U256)
    ensures
        r@ == if a@ <= b@ { a@ } else { b@ },
{
    U256(ethereum_types::U256(a.0).min(ethereum_types::U256(b.0)).0)
}

/// A 160-bit hash, the size of an account address.
#[derive(Clone, Copy, Debug, PartialEq, Eq, Default)]
pub struct H160(pub [u8; 20]);

/// A 256-bit hash.
#[derive(Clone, Copy, Debug, PartialEq, Eq, Default)]
pub struct H256(pub [u8; 32]);

/// A 512-bit hash, the size of an uncompressed public key without its prefix byte.
#[derive(Clone, Copy, Debug, PartialEq, Eq)]
pub struct H512(pub [u8; 64]);

/// A 520-bit hash, the size of a serialized uncompressed public key.
#[derive(Clone, Copy, Debug, PartialEq, Eq)]
pub struct H520(pub [u8; 65]);

/// The root of a Merkle tree.
pub type MerkleRoot = H256;

/// A public key without its prefix byte.
pub type Public = H512;

/// An owned byte string.
pub type Bytes = Vec<u8>;

impl View for H160 {
    type V = Seq<u8>;

    open spec fn view(&self) -> Seq<u8> {
        self.0@
    }
}

impl View for H256 {
    type V = Seq<u8>;

    open spec fn view(&self) -> Seq<u8> {
        self.0@
    }
}

impl View for H512 {
    type V = Seq<u8>;

    open spec fn view(&self) -> Seq<u8> {
        self.0@
    }
}

impl View for H520 {
    type V = Seq<u8>;

    open spec fn view(&self) -> Seq<u8> {
        self.0@
    }
}

impl H160 {
    /// The all-zero address.
    pub fn zero() -> (r: H160)
        ensures
            r@ == Seq::new(20, |i: int| 0u8),
    {
        let r = H160([0u8; 20]);
        assert(r@ =~= Seq::new(20, |i: int| 0u8));
        r
    }
}

impl H256 {
    /// The all-zero hash.
    pub fn zero() -> (r: H256)
        ensures
            r@ == Seq::new(32, |i: int| 0u8),
    {
        let r = H256([0u8; 32]);
        assert(r@ =~= Seq::new(32, |i: int| 0u8));
        r
    }
}

/// Whether two byte strings are equal.
pub fn bytes_eq(a: &[u8], b: &[u8]) -> (r: bool)
    ensures
        r == (a@ == b@),
{
    if a.len() != b.len() {
        return false;
    }
    let mut i: usize = 0;
    while i < a.len()
        invariant
            a@.len() == b@.len(),
            i <= a@.len(),
            forall|j: int| 0 <= j < i ==> a@[j] == b@[j],
        decreases a@.len() - i,
    {
        if a[i] != b[i] {
            return false;
        }
        i = i + 1;
    }
    assert(a@ =~= b@);
    true
}

/// A copy of a byte string.
pub fn copy_bytes(a: &[u8]) -> (r: Vec<u8>)
    ensures
        r@ == a@,
{
    let mut r: Vec<u8> = Vec::new();
    let mut i: usize = 0;
    while i < a.len()
        invariant
            i <= a@.len(),
            r@ == a@.subrange(0, i as int),
        decreases a@.len() - i,
    {
        r.push(a[i]);
        i = i + 1;
        assert(r@ =~= a@.subrange(0, i as int));
    }
    assert(a@.subrange(0, a@.len() as int) =~= a@);
    r
}

/// Feeds a 256-bit integer to a hasher.
/// Trusted: calls the `Hash` impl of `primitive_types::U256` (derived in the uint
/// crate); nothing is promised of the hasher's state.
#[verifier::external_body]
pub(crate) fn hash_u256<S: core::hash::Hasher>(x: &U256, state: &mut S) {
    core::hash::Hash::hash(&ethereum_types::U256(x.0), state)
}

/// Feeds an optional 256-bit integer to a hasher.
/// Trusted: calls the `Hash` impl of `Option<primitive_types::U256>`; nothing is
/// promised of the hasher's state.
#[verifier::external_body]
pub(crate) fn hash_option_u256<S: core::hash::Hasher>(x: &Option<U256>, state: &mut S) {
    core::hash::Hash::hash(&x.map(|v| ethereum_types::U256(v.0)), state)
}

/// Feeds a 160-bit hash to a hasher.
/// Trusted: calls the `Hash` impl of `ethereum_types::H160` (fixed-hash, which
/// writes the bytes); nothing is promised of the hasher's state.
#[verifier::external_body]
pub(crate) fn hash_h160<S: core::hash::Hasher>(x: &H160, state: &mut S) {
    core::hash::Hash::hash(&ethereum_types::H160(x.0), state)
}

/// Feeds a 256-bit hash to a hasher.
/// Trusted: calls the `Hash` impl of `ethereum_types::H256` (fixed-hash, which
/// writes the bytes); nothing is promised of the hasher's state.
#[verifier::external_body]
pub(crate) fn hash_h256<S: core::hash::Hasher>(x: &H256, state: &mut S) {
    core::hash::Hash::hash(&ethereum_types::H256(x.0), state)
}

/// Feeds a 512-bit hash to a hasher.
/// Trusted: calls the `Hash` impl of `ethereum_types::H512` (fixed-hash, which
/// writes the bytes); nothing is promised of the hasher's state.
#[verifier::external_body]
pub(crate) fn hash_h512<S: core::hash::Hasher>(x: &H512, state: &mut S) {
    core::hash::Hash::hash(&ethereum_types::H512(x.0), state)
}

/// Feeds a 520-bit hash to a hasher.
/// Trusted: calls the `Hash` impl of `ethereum_types::H520` (fixed-hash, which
/// writes the bytes); nothing is promised of the hasher's state.
#[verifier::external_body]
pub(crate) fn hash_h520<S: core::hash::Hasher>(x: &H520, state: &mut S) {
    core::hash::Hash::hash(&ethereum_types::H520(x.0), state)
}

/// Feeds a byte string to a hasher.
/// Trusted: calls the `Hash` impl of `[u8]` in std, which `Vec<u8>` uses too;
/// nothing is promised of the hasher's state.
#[verifier::external_body]
pub(crate) fn hash_bytes<S: core::hash::Hasher>(x: &[u8], state: &mut S) {
    core::hash::Hash::hash(x, state)
}

/// Feeds a boolean to a hasher.
/// Trusted: calls the `Hash` impl of `bool` in std; nothing is promised of the
/// hasher's state.
#[verifier::external_body]
pub(crate) fn hash_bool<S: core::hash::Hasher>(x: bool, state: &mut S) {
    core::hash::Hash::hash(&x, state)
}

impl core::hash::Hash for U256 {
    fn hash<S: core::hash::Hasher>(&self, state: &mut S) {
        hash_u256(self, state)
    }
}

impl core::hash::Hash for H160 {
    fn hash<S: core::hash::Hasher>(&self, state: &mut S) {
        hash_h160(self, state)
    }
}

impl core::hash::Hash for H256 {
    fn hash<S: core::hash::Hasher>(&self, state: &mut S) {
        hash_h256(self, state)
    }
}

impl core::hash::Hash for H512 {
    fn hash<S: core::hash::Hasher>(&self, state: &mut S) {
        hash_h512(self, state)
    }
}

impl core::hash::Hash for H520 {
    fn hash<S: core::hash::Hasher>(&self, state: &mut S) {
        hash_h520(self, state)
    }
}

} // verus!
