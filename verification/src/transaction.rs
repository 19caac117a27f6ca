//! Transactions: their kinds, gas accounting, signatures, encoding and hashes.
use vstd::prelude::*;

use crate::crypto::{keccak256, keccak_digest, secp256k1_recover, secp256k1_recovery};
use crate::error::{CryptoError, TypesError};
use crate::primitives::{
    copy_bytes, hash_bool, hash_bytes, hash_h160, hash_h256, hash_option_u256, hash_u256, u256_checked_add, u256_checked_mul, u256_max, u256_min, Public, H160, H256, H512,
    H520, U256,
};
use crate::rlp_stream::{
    rlp_append_bytes, rlp_append_u256, rlp_append_u64, rlp_begin_unbounded_list, rlp_encoding,
    rlp_finalize_unbounded_list, rlp_out, rlp_stream_done, rlp_stream_new, rlp_stream_open,
    uint_item, RlpItem,
};

verus! {

pub const GAS_PER_ZERO_BYTE: u64 = 4;

pub const GAS_PER_NONZERO_BYTE: u64 = 68;

pub const GAS_CALL_TRANSACTION: u64 = 21_000;

pub const GAS_CREATE_TRANSACTION: u64 = 32_000;

pub const MAX_PRIORITY_FEE_PER_GAS: u64 = 1_337;

pub const MIN_TRANSACTION_GAS_LIMIT: u64 = 21_000;

pub const MIN_GAS_PRICE: u64 = 1_000_000_000_000;

// ---------------------------------------------------------------------------
// Actions and access lists
// ---------------------------------------------------------------------------

/// What a transaction does: call an account, or create a contract.
#[derive(Clone, Copy, Debug, PartialEq, Eq, Hash)]
pub enum TransactionAction {
    Call(H160),
    Create,
}

impl View for TransactionAction {
    /// The called address, or `None` for a creation.
    type V = Option<Seq<u8>>;

    open spec fn view(&self) -> Option<Seq<u8>> {
        match self {
            TransactionAction::Call(a) => Some(a@),
            TransactionAction::Create => None,
        }
    }
}

/// An address with the storage keys that a transaction declares it will touch.
#[derive(Clone, Debug, PartialEq, Eq, Hash)]
pub struct AccessListItem {
    pub address: H160,
    pub storage_keys: Vec<H256>,
}

/// The view of an access-list entry.
pub struct AccessListItemView {
    pub address: Seq<u8>,
    pub storage_keys: Seq<Seq<u8>>,
}

/// The views of a sequence of hashes.
pub open spec fn hashes_view(v: Seq<H256>) -> Seq<Seq<u8>> {
    v.map_values(|k: H256| k@)
}

impl View for AccessListItem {
    type V = AccessListItemView;

    open spec fn view(&self) -> AccessListItemView {
        AccessListItemView { address: self.address@, storage_keys: hashes_view(self.storage_keys@) }
    }
}

/// A declared list of accessed addresses and storage keys.
pub type AccessList = Vec<AccessListItem>;

/// The views of an access list.
pub open spec fn access_list_view(v: Seq<AccessListItem>) -> Seq<AccessListItemView> {
    v.map_values(|i: AccessListItem| i@)
}

/// A copy of a list of hashes.
fn copy_hashes(v: &Vec<H256>) -> (r: Vec<H256>)
    ensures
        r@ == v@,
{
    let mut r: Vec<H256> = Vec::new();
    let mut i: usize = 0;
    while i < v.len()
        invariant
            i <= v@.len(),
            r@ == v@.subrange(0, i as int),
        decreases v@.len() - i,
    {
        r.push(v[i]);
        i = i + 1;
        assert(r@ =~= v@.subrange(0, i as int));
    }
    assert(v@.subrange(0, v@.len() as int) =~= v@);
    r
}

/// A copy of an access list.
fn copy_access_list(v: &Vec<AccessListItem>) -> (r: Vec<AccessListItem>)
    ensures
        access_list_view(r@) == access_list_view(v@),
{
    let mut r: Vec<AccessListItem> = Vec::new();
    let mut i: usize = 0;
    while i < v.len()
        invariant
            i <= v@.len(),
            r@.len() == i,
            forall|j: int| 0 <= j < i ==> #[trigger] r@[j]@ == v@[j]@,
        decreases v@.len() - i,
    {
        let item = AccessListItem { address: v[i].address, storage_keys: copy_hashes(&v[i].storage_keys) };
        r.push(item);
        i = i + 1;
    }
    assert(access_list_view(r@) =~= access_list_view(v@));
    r
}

// ---------------------------------------------------------------------------
// The transaction kinds
// ---------------------------------------------------------------------------

/// A transaction in the pre-typed format, with a gas price.
#[derive(Clone, Debug, PartialEq, Eq)]
pub struct LegacyTransaction {
    pub nonce: U256,
    pub gas_price: U256,
    pub gas_limit: U256,
    pub action: TransactionAction,
    pub value: U256,
    pub data: Vec<u8>,
}

pub struct LegacyTransactionView {
    pub nonce: nat,
    pub gas_price: nat,
    pub gas_limit: nat,
    pub action: Option<Seq<u8>>,
    pub value: nat,
    pub data: Seq<u8>,
}

impl View for LegacyTransaction {
    type V = LegacyTransactionView;

    open spec fn view(&self) -> LegacyTransactionView {
        LegacyTransactionView {
            nonce: self.nonce@,
            gas_price: self.gas_price@,
            gas_limit: self.gas_limit@,
            action: self.action@,
            value: self.value@,
            data: self.data@,
        }
    }
}

/// A transaction with an access list (type 1).
#[derive(Clone, Debug, PartialEq, Eq)]
pub struct Eip2930Transaction {
    pub nonce: U256,
    pub gas_price: U256,
    pub gas_limit: U256,
    pub action: TransactionAction,
    pub value: U256,
    pub data: Vec<u8>,
    pub access_list: AccessList,
}

pub struct Eip2930TransactionView {
    pub nonce: nat,
    pub gas_price: nat,
    pub gas_limit: nat,
    pub action: Option<Seq<u8>>,
    pub value: nat,
    pub data: Seq<u8>,
    pub access_list: Seq<AccessListItemView>,
}

impl View for Eip2930Transaction {
    type V = Eip2930TransactionView;

    open spec fn view(&self) -> Eip2930TransactionView {
        Eip2930TransactionView {
            nonce: self.nonce@,
            gas_price: self.gas_price@,
            gas_limit: self.gas_limit@,
            action: self.action@,
            value: self.value@,
            data: self.data@,
            access_list: access_list_view(self.access_list@),
        }
    }
}

/// A transaction with a fee cap and a priority fee (type 2); `gas_price` is the
/// fee cap.
#[derive(Clone, Debug, PartialEq, Eq)]
pub struct Eip1559Transaction {
    pub nonce: U256,
    pub max_priority_fee_per_gas: U256,
    pub gas_price: U256,
    pub gas_limit: U256,
    pub action: TransactionAction,
    pub value: U256,
    pub data: Vec<u8>,
    pub access_list: AccessList,
}

pub struct Eip1559TransactionView {
    pub nonce: nat,
    pub max_priority_fee_per_gas: nat,
    pub gas_price: nat,
    pub gas_limit: nat,
    pub action: Option<Seq<u8>>,
    pub value: nat,
    pub data: Seq<u8>,
    pub access_list: Seq<AccessListItemView>,
}

impl View for Eip1559Transaction {
    type V = Eip1559TransactionView;

    open spec fn view(&self) -> Eip1559TransactionView {
        Eip1559TransactionView {
            nonce: self.nonce@,
            max_priority_fee_per_gas: self.max_priority_fee_per_gas@,
            gas_price: self.gas_price@,
            gas_limit: self.gas_limit@,
            action: self.action@,
            value: self.value@,
            data: self.data@,
            access_list: access_list_view(self.access_list@),
        }
    }
}

/// A deposit from the layer below (type 0x7e); it carries no signature.
#[derive(Clone, Debug, PartialEq, Eq)]
pub struct DepositTransaction {
    pub nonce: U256,
    pub source_hash: H256,
    pub from: H160,
    pub action: TransactionAction,
    pub mint: Option<U256>,
    pub value: U256,
    pub gas_limit: U256,
    pub is_system_tx: bool,
    pub data: Vec<u8>,
}

pub struct DepositTransactionView {
    pub nonce: nat,
    pub source_hash: Seq<u8>,
    pub from: Seq<u8>,
    pub action: Option<Seq<u8>>,
    pub mint: Option<nat>,
    pub value: nat,
    pub gas_limit: nat,
    pub is_system_tx: bool,
    pub data: Seq<u8>,
}

impl View for DepositTransaction {
    type V = DepositTransactionView;

    open spec fn view(&self) -> DepositTransactionView {
        DepositTransactionView {
            nonce: self.nonce@,
            source_hash: self.source_hash@,
            from: self.from@,
            action: self.action@,
            mint: match self.mint {
                Some(m) => Some(m@),
                None => None,
            },
            value: self.value@,
            gas_limit: self.gas_limit@,
            is_system_tx: self.is_system_tx,
            data: self.data@,
        }
    }
}

/// Feeds the addresses of an access list to a hasher, in order.
fn hash_access_addresses<S: core::hash::Hasher>(list: &Vec<AccessListItem>, state: &mut S) {
    let mut i: usize = 0;
    while i < list.len()
        decreases list@.len() - i,
    {
        hash_h160(&list[i].address, state);
        i = i + 1;
    }
}

/// Hashes the nonce, gas price, gas limit, value and data, then the called
/// address of a call.
impl core::hash::Hash for LegacyTransaction {
    fn hash<S: core::hash::Hasher>(&self, state: &mut S) {
        hash_u256(&self.nonce, state);
        hash_u256(&self.gas_price, state);
        hash_u256(&self.gas_limit, state);
        hash_u256(&self.value, state);
        hash_bytes(self.data.as_slice(), state);
        if let TransactionAction::Call(addr) = self.action {
            hash_h160(&addr, state);
        }
    }
}

/// Hashes the nonce, gas price, gas limit, value and data, then the called
/// address of a call, then the address of each access-list entry.
impl core::hash::Hash for Eip2930Transaction {
    fn hash<S: core::hash::Hasher>(&self, state: &mut S) {
        hash_u256(&self.nonce, state);
        hash_u256(&self.gas_price, state);
        hash_u256(&self.gas_limit, state);
        hash_u256(&self.value, state);
        hash_bytes(self.data.as_slice(), state);
        if let TransactionAction::Call(addr) = self.action {
            hash_h160(&addr, state);
        }
        hash_access_addresses(&self.access_list, state);
    }
}

/// Hashes the nonce, priority fee, gas price, gas limit, value and data, then the
/// called address of a call, then the address of each access-list entry.
impl core::hash::Hash for Eip1559Transaction {
    fn hash<S: core::hash::Hasher>(&self, state: &mut S) {
        hash_u256(&self.nonce, state);
        hash_u256(&self.max_priority_fee_per_gas, state);
        hash_u256(&self.gas_price, state);
        hash_u256(&self.gas_limit, state);
        hash_u256(&self.value, state);
        hash_bytes(self.data.as_slice(), state);
        if let TransactionAction::Call(addr) = self.action {
            hash_h160(&addr, state);
        }
        hash_access_addresses(&self.access_list, state);
    }
}

/// Hashes the nonce, source hash, sender, mint, value, gas limit, system flag and
/// data, then the called address of a call.
impl core::hash::Hash for DepositTransaction {
    fn hash<S: core::hash::Hasher>(&self, state: &mut S) {
        hash_u256(&self.nonce, state);
        hash_h256(&self.source_hash, state);
        hash_h160(&self.from, state);
        hash_option_u256(&self.mint, state);
        hash_u256(&self.value, state);
        hash_u256(&self.gas_limit, state);
        hash_bool(self.is_system_tx, state);
        hash_bytes(self.data.as_slice(), state);
        if let TransactionAction::Call(addr) = self.action {
            hash_h160(&addr, state);
        }
    }
}

/// The address that an action calls, if any.
fn action_to(action: &TransactionAction) -> (r: Option<H160>)
    ensures
        match r {
            Some(a) => action@ == Some(a@),
            None => action@ is None,
        },
{
    match action {
        TransactionAction::Call(to) => Some(*to),
        TransactionAction::Create => None,
    }
}

impl LegacyTransaction {
    /// The called address, `None` for a creation.
    pub fn get_to(&self) -> (r: Option<H160>)
        ensures
            match r {
                Some(a) => self@.action == Some(a@),
                None => self@.action is None,
            },
    {
        action_to(&self.action)
    }

    /// A copy of this transaction.
    fn duplicate(&self) -> (r: LegacyTransaction)
        ensures
            r@ == self@,
    {
        LegacyTransaction {
            nonce: self.nonce,
            gas_price: self.gas_price,
            gas_limit: self.gas_limit,
            action: self.action,
            value: self.value,
            data: copy_bytes(self.data.as_slice()),
        }
    }
}

impl Eip2930Transaction {
    /// The called address, `None` for a creation.
    pub fn get_to(&self) -> (r: Option<H160>)
        ensures
            match r {
                Some(a) => self@.action == Some(a@),
                None => self@.action is None,
            },
    {
        action_to(&self.action)
    }
}

impl Eip1559Transaction {
    /// The called address, `None` for a creation.
    pub fn get_to(&self) -> (r: Option<H160>)
        ensures
            match r {
                Some(a) => self@.action == Some(a@),
                None => self@.action is None,
            },
    {
        action_to(&self.action)
    }
}

impl DepositTransaction {
    /// The called address, `None` for a creation.
    pub fn get_to(&self) -> (r: Option<H160>)
        ensures
            match r {
                Some(a) => self@.action == Some(a@),
                None => self@.action is None,
            },
    {
        action_to(&self.action)
    }
}

// ---------------------------------------------------------------------------
// Unsigned transactions
// ---------------------------------------------------------------------------

/// A transaction of any kind, without its signature.
#[derive(Clone, Debug, PartialEq, Eq, Hash)]
pub enum UnsignedTransaction {
    Legacy(LegacyTransaction),
    Eip2930(Eip2930Transaction),
    Eip1559(Eip1559Transaction),
    Deposit(DepositTransaction),
}

pub enum UnsignedTransactionView {
    Legacy(LegacyTransactionView),
    Eip2930(Eip2930TransactionView),
    Eip1559(Eip1559TransactionView),
    Deposit(DepositTransactionView),
}

impl View for UnsignedTransaction {
    type V = UnsignedTransactionView;

    open spec fn view(&self) -> UnsignedTransactionView {
        match self {
            UnsignedTransaction::Legacy(tx) => UnsignedTransactionView::Legacy(tx@),
            UnsignedTransaction::Eip2930(tx) => UnsignedTransactionView::Eip2930(tx@),
            UnsignedTransaction::Eip1559(tx) => UnsignedTransactionView::Eip1559(tx@),
            UnsignedTransaction::Deposit(tx) => UnsignedTransactionView::Deposit(tx@),
        }
    }
}

/// The number of gas units charged for one byte of call data.
pub open spec fn byte_gas(b: u8) -> nat {
    if b == 0 {
        GAS_PER_ZERO_BYTE as nat
    } else {
        GAS_PER_NONZERO_BYTE as nat
    }
}

/// The gas charged for call data: 4 per zero byte and 68 per other byte.
pub open spec fn data_gas(data: Seq<u8>) -> nat
    decreases data.len(),
{
    if data.len() == 0 {
        0
    } else {
        data_gas(data.drop_last()) + byte_gas(data.last())
    }
}

impl UnsignedTransactionView {
    /// The transaction type number of the kind.
    pub open spec fn type_id(self) -> u64 {
        match self {
            UnsignedTransactionView::Legacy(_) => 0x00,
            UnsignedTransactionView::Eip2930(_) => 0x01,
            UnsignedTransactionView::Eip1559(_) => 0x02,
            UnsignedTransactionView::Deposit(_) => 0x7e,
        }
    }

    pub open spec fn data(self) -> Seq<u8> {
        match self {
            UnsignedTransactionView::Legacy(tx) => tx.data,
            UnsignedTransactionView::Eip2930(tx) => tx.data,
            UnsignedTransactionView::Eip1559(tx) => tx.data,
            UnsignedTransactionView::Deposit(tx) => tx.data,
        }
    }

    pub open spec fn action(self) -> Option<Seq<u8>> {
        match self {
            UnsignedTransactionView::Legacy(tx) => tx.action,
            UnsignedTransactionView::Eip2930(tx) => tx.action,
            UnsignedTransactionView::Eip1559(tx) => tx.action,
            UnsignedTransactionView::Deposit(tx) => tx.action,
        }
    }

    pub open spec fn value(self) -> nat {
        match self {
            UnsignedTransactionView::Legacy(tx) => tx.value,
            UnsignedTransactionView::Eip2930(tx) => tx.value,
            UnsignedTransactionView::Eip1559(tx) => tx.value,
            UnsignedTransactionView::Deposit(tx) => tx.value,
        }
    }

    pub open spec fn gas_limit(self) -> nat {
        match self {
            UnsignedTransactionView::Legacy(tx) => tx.gas_limit,
            UnsignedTransactionView::Eip2930(tx) => tx.gas_limit,
            UnsignedTransactionView::Eip1559(tx) => tx.gas_limit,
            UnsignedTransactionView::Deposit(tx) => tx.gas_limit,
        }
    }

    pub open spec fn nonce(self) -> nat {
        match self {
            UnsignedTransactionView::Legacy(tx) => tx.nonce,
            UnsignedTransactionView::Eip2930(tx) => tx.nonce,
            UnsignedTransactionView::Eip1559(tx) => tx.nonce,
            UnsignedTransactionView::Deposit(tx) => tx.nonce,
        }
    }

    /// The price per gas unit that the transaction pays: for a type-2 transaction
    /// the smaller of its fee cap and its priority fee; for a deposit the minimum
    /// gas price.
    pub open spec fn gas_price(self) -> nat {
        match self {
            UnsignedTransactionView::Legacy(tx) => tx.gas_price,
            UnsignedTransactionView::Eip2930(tx) => tx.gas_price,
            UnsignedTransactionView::Eip1559(tx) => if tx.gas_price <= tx.max_priority_fee_per_gas {
                tx.gas_price
            } else {
                tx.max_priority_fee_per_gas
            },
            UnsignedTransactionView::Deposit(_) => MIN_GAS_PRICE as nat,
        }
    }

    pub open spec fn max_priority_fee_per_gas(self) -> nat {
        match self {
            UnsignedTransactionView::Legacy(tx) => tx.gas_price,
            UnsignedTransactionView::Eip2930(tx) => tx.gas_price,
            UnsignedTransactionView::Eip1559(tx) => tx.max_priority_fee_per_gas,
            UnsignedTransactionView::Deposit(_) => MIN_GAS_PRICE as nat,
        }
    }

    pub open spec fn access_list(self) -> Seq<AccessListItemView> {
        match self {
            UnsignedTransactionView::Legacy(_) => Seq::empty(),
            UnsignedTransactionView::Eip2930(tx) => tx.access_list,
            UnsignedTransactionView::Eip1559(tx) => tx.access_list,
            UnsignedTransactionView::Deposit(_) => Seq::empty(),
        }
    }

    /// The same transaction with other call data.
    pub open spec fn with_data(self, data: Seq<u8>) -> UnsignedTransactionView {
        match self {
            UnsignedTransactionView::Legacy(tx) => UnsignedTransactionView::Legacy(
                LegacyTransactionView { data, ..tx },
            ),
            UnsignedTransactionView::Eip2930(tx) => UnsignedTransactionView::Eip2930(
                Eip2930TransactionView { data, ..tx },
            ),
            UnsignedTransactionView::Eip1559(tx) => UnsignedTransactionView::Eip1559(
                Eip1559TransactionView { data, ..tx },
            ),
            UnsignedTransactionView::Deposit(tx) => UnsignedTransactionView::Deposit(
                DepositTransactionView { data, ..tx },
            ),
        }
    }

    /// The same transaction with another action.
    pub open spec fn with_action(self, action: Option<Seq<u8>>) -> UnsignedTransactionView {
        match self {
            UnsignedTransactionView::Legacy(tx) => UnsignedTransactionView::Legacy(
                LegacyTransactionView { action, ..tx },
            ),
            UnsignedTransactionView::Eip2930(tx) => UnsignedTransactionView::Eip2930(
                Eip2930TransactionView { action, ..tx },
            ),
            UnsignedTransactionView::Eip1559(tx) => UnsignedTransactionView::Eip1559(
                Eip1559TransactionView { action, ..tx },
            ),
            UnsignedTransactionView::Deposit(tx) => UnsignedTransactionView::Deposit(
                DepositTransactionView { action, ..tx },
            ),
        }
    }

    /// The gas that every transaction of this shape pays before execution: the
    /// cost of a call, plus that of a creation where it creates, plus the cost of
    /// its data.
    pub open spec fn base_gas(self) -> nat {
        (if self.action() is Some {
            GAS_CALL_TRANSACTION as nat
        } else {
            (GAS_CREATE_TRANSACTION + GAS_CALL_TRANSACTION) as nat
        }) + data_gas(self.data())
    }

    /// The most the transaction may cost: gas price times gas limit, plus the
    /// value, saturated at 2^256 - 1.
    pub open spec fn may_cost(self) -> nat {
        if self.gas_price() * self.gas_limit() + self.value() <= u256_max() {
            self.gas_price() * self.gas_limit() + self.value()
        } else {
            u256_max()
        }
    }
}

/// The data-gas of a sequence extended by one byte.
proof fn lemma_data_gas_step(data: Seq<u8>, i: int)
    requires
        0 <= i < data.len(),
    ensures
        data_gas(data.take(i + 1)) == data_gas(data.take(i)) + byte_gas(data[i]),
{
    assert(data.take(i + 1).drop_last() =~= data.take(i));
}

/// Data gas adds up over concatenation.
pub proof fn lemma_data_gas_concat(a: Seq<u8>, b: Seq<u8>)
    ensures
        data_gas(a + b) == data_gas(a) + data_gas(b),
    decreases b.len(),
{
    if b.len() == 0 {
        assert(a + b =~= a);
    } else {
        lemma_data_gas_concat(a, b.drop_last());
        assert((a + b).drop_last() =~= a + b.drop_last());
    }
}

/// The data gas of a prefix is at most that of the whole.
proof fn lemma_data_gas_prefix(data: Seq<u8>, i: int)
    requires
        0 <= i <= data.len(),
    ensures
        data_gas(data.take(i)) <= data_gas(data),
{
    lemma_data_gas_concat(data.take(i), data.skip(i));
    assert(data.take(i) + data.skip(i) =~= data);
}

/// The gas charged for `data`: 4 per zero byte and 68 per other byte.
pub fn data_gas_cost(data: &[u8]) -> (r: u64)
    requires
        data_gas(data@) <= u64::MAX,
    ensures
        r == data_gas(data@),
{
    let mut ret: u64 = 0;
    let mut i: usize = 0;
    while i < data.len()
        invariant
            i <= data@.len(),
            ret == data_gas(data@.take(i as int)),
            data_gas(data@) <= u64::MAX,
        decreases data@.len() - i,
    {
        proof {
            lemma_data_gas_step(data@, i as int);
            lemma_data_gas_prefix(data@, i + 1);
        }
        if data[i] == 0u8 {
            ret = ret + GAS_PER_ZERO_BYTE;
        } else {
            ret = ret + GAS_PER_NONZERO_BYTE;
        }
        i = i + 1;
    }
    assert(data@.take(data@.len() as int) =~= data@);
    ret
}

impl UnsignedTransaction {
    /// The transaction type number: 0, 1, 2, or 0x7e for a deposit.
    pub fn type_(&self) -> (r: u64)
        ensures
            r == self@.type_id(),
    {
        match self {
            UnsignedTransaction::Legacy(_) => 0x00,
            UnsignedTransaction::Eip2930(_) => 0x01,
            UnsignedTransaction::Eip1559(_) => 0x02,
            UnsignedTransaction::Deposit(_) => 0x7e,
        }
    }

    /// The most the transaction may cost: gas price times gas limit, plus the
    /// value, or 2^256 - 1 where either step overflows.
    pub fn may_cost(&self) -> (r: U256)
        ensures
            r@ == self@.may_cost(),
    {
        let price = self.gas_price();
        if let Some(res) = u256_checked_mul(price, *self.gas_limit()) {
            match u256_checked_add(res, *self.value()) {
                Some(total) => total,
                None => U256::max_value(),
            }
        } else {
            U256::max_value()
        }
    }

    /// The gas charged before execution: 21000 for a call, 53000 for a creation,
    /// plus the data gas.
    pub fn base_gas(&self) -> (r: u64)
        requires
            self@.base_gas() <= u64::MAX,
        ensures
            r == self@.base_gas(),
    {
        let base = match self.action() {
            TransactionAction::Call(_) => GAS_CALL_TRANSACTION,
            TransactionAction::Create => GAS_CREATE_TRANSACTION + GAS_CALL_TRANSACTION,
        };
        base + data_gas_cost(self.data())
    }

    pub fn is_legacy(&self) -> (r: bool)
        ensures
            r == (self@ is Legacy),
    {
        matches!(self, UnsignedTransaction::Legacy(_))
    }

    pub fn is_eip1559(&self) -> (r: bool)
        ensures
            r == (self@ is Eip1559),
    {
        matches!(self, UnsignedTransaction::Eip1559(_))
    }

    pub fn is_deposit(&self) -> (r: bool)
        ensures
            r == (self@ is Deposit),
    {
        matches!(self, UnsignedTransaction::Deposit(_))
    }

    /// The call data.
    pub fn data(&self) -> (r: &[u8])
        ensures
            r@ == self@.data(),
    {
        match self {
            UnsignedTransaction::Legacy(tx) => tx.data.as_slice(),
            UnsignedTransaction::Eip2930(tx) => tx.data.as_slice(),
            UnsignedTransaction::Eip1559(tx) => tx.data.as_slice(),
            UnsignedTransaction::Deposit(tx) => tx.data.as_slice(),
        }
    }

    /// Replaces the action, leaving the rest unchanged.
    pub fn set_action(&mut self, action: TransactionAction)
        ensures
            final(self)@ == old(self)@.with_action(action@),
    {
        match self {
            UnsignedTransaction::Legacy(tx) => tx.action = action,
            UnsignedTransaction::Eip2930(tx) => tx.action = action,
            UnsignedTransaction::Eip1559(tx) => tx.action = action,
            UnsignedTransaction::Deposit(tx) => tx.action = action,
        }
    }

    /// Replaces the call data, leaving the rest unchanged.
    pub fn set_data(&mut self, data: Vec<u8>)
        ensures
            final(self)@ == old(self)@.with_data(data@),
    {
        match self {
            UnsignedTransaction::Legacy(tx) => tx.data = data,
            UnsignedTransaction::Eip2930(tx) => tx.data = data,
            UnsignedTransaction::Eip1559(tx) => tx.data = data,
            UnsignedTransaction::Deposit(tx) => tx.data = data,
        }
    }

    /// The price per gas unit paid: for a type-2 transaction the smaller of its fee
    /// cap and priority fee, for a deposit the minimum gas price.
    pub fn gas_price(&self) -> (r: U256)
        ensures
            r@ == self@.gas_price(),
    {
        match self {
            UnsignedTransaction::Legacy(tx) => tx.gas_price,
            UnsignedTransaction::Eip2930(tx) => tx.gas_price,
            UnsignedTransaction::Eip1559(tx) => u256_min(tx.gas_price, tx.max_priority_fee_per_gas),
            UnsignedTransaction::Deposit(_) => U256::from_u64(MIN_GAS_PRICE),
        }
    }

    pub fn max_priority_fee_per_gas(&self) -> (r: U256)
        ensures
            r@ == self@.max_priority_fee_per_gas(),
    {
        match self {
            UnsignedTransaction::Legacy(tx) => tx.gas_price,
            UnsignedTransaction::Eip2930(tx) => tx.gas_price,
            UnsignedTransaction::Eip1559(tx) => tx.max_priority_fee_per_gas,
            UnsignedTransaction::Deposit(_) => U256::from_u64(MIN_GAS_PRICE),
        }
    }

    /// A copy of the transaction when it is a legacy one.
    pub fn get_legacy(&self) -> (r: Option<LegacyTransaction>)
        ensures
            match r {
                Some(tx) => self@ == UnsignedTransactionView::Legacy(tx@),
                None => !(self@ is Legacy),
            },
    {
        match self {
            UnsignedTransaction::Legacy(tx) => Some(tx.duplicate()),
            _ => None,
        }
    }

    /// The transaction type number as a byte.
    pub fn as_u8(&self) -> (r: u8)
        ensures
            r == self@.type_id(),
    {
        match self {
            UnsignedTransaction::Legacy(_) => 0x00,
            UnsignedTransaction::Eip2930(_) => 0x01,
            UnsignedTransaction::Eip1559(_) => 0x02,
            UnsignedTransaction::Deposit(_) => 0x7e,
        }
    }

    /// The called address, `None` for a creation.
    pub fn to(&self) -> (r: Option<H160>)
        ensures
            match r {
                Some(a) => self@.action() == Some(a@),
                None => self@.action() is None,
            },
    {
        match self {
            UnsignedTransaction::Legacy(tx) => tx.get_to(),
            UnsignedTransaction::Eip2930(tx) => tx.get_to(),
            UnsignedTransaction::Eip1559(tx) => tx.get_to(),
            UnsignedTransaction::Deposit(tx) => tx.get_to(),
        }
    }

    pub fn value(&self) -> (r: &U256)
        ensures
            r@ == self@.value(),
    {
        match self {
            UnsignedTransaction::Legacy(tx) => &tx.value,
            UnsignedTransaction::Eip2930(tx) => &tx.value,
            UnsignedTransaction::Eip1559(tx) => &tx.value,
            UnsignedTransaction::Deposit(tx) => &tx.value,
        }
    }

    pub fn gas_limit(&self) -> (r: &U256)
        ensures
            r@ == self@.gas_limit(),
    {
        match self {
            UnsignedTransaction::Legacy(tx) => &tx.gas_limit,
            UnsignedTransaction::Eip2930(tx) => &tx.gas_limit,
            UnsignedTransaction::Eip1559(tx) => &tx.gas_limit,
            UnsignedTransaction::Deposit(tx) => &tx.gas_limit,
        }
    }

    pub fn nonce(&self) -> (r: &U256)
        ensures
            r@ == self@.nonce(),
    {
        match self {
            UnsignedTransaction::Legacy(tx) => &tx.nonce,
            UnsignedTransaction::Eip2930(tx) => &tx.nonce,
            UnsignedTransaction::Eip1559(tx) => &tx.nonce,
            UnsignedTransaction::Deposit(tx) => &tx.nonce,
        }
    }

    pub fn action(&self) -> (r: &TransactionAction)
        ensures
            r@ == self@.action(),
    {
        match self {
            UnsignedTransaction::Legacy(tx) => &tx.action,
            UnsignedTransaction::Eip2930(tx) => &tx.action,
            UnsignedTransaction::Eip1559(tx) => &tx.action,
            UnsignedTransaction::Deposit(tx) => &tx.action,
        }
    }

    /// The access list; empty for legacy and deposit transactions.
    pub fn access_list(&self) -> (r: AccessList)
        ensures
            access_list_view(r@) == self@.access_list(),
    {
        match self {
            UnsignedTransaction::Legacy(_) => {
                let r: AccessList = Vec::new();
                assert(access_list_view(r@) =~= Seq::<AccessListItemView>::empty());
                r
            },
            UnsignedTransaction::Eip2930(tx) => copy_access_list(&tx.access_list),
            UnsignedTransaction::Eip1559(tx) => copy_access_list(&tx.access_list),
            UnsignedTransaction::Deposit(_) => {
                let r: AccessList = Vec::new();
                assert(access_list_view(r@) =~= Seq::<AccessListItemView>::empty());
                r
            },
        }
    }
}

// ---------------------------------------------------------------------------
// Signatures
// ---------------------------------------------------------------------------

/// The components of a secp256k1 signature; `standard_v` is the recovery id.
#[derive(Clone, Debug, Default, Hash, PartialEq, Eq)]
pub struct SignatureComponents {
    pub r: Vec<u8>,
    pub s: Vec<u8>,
    pub standard_v: u8,
}

pub struct SignatureComponentsView {
    pub r: Seq<u8>,
    pub s: Seq<u8>,
    pub standard_v: u8,
}

impl View for SignatureComponents {
    type V = SignatureComponentsView;

    open spec fn view(&self) -> SignatureComponentsView {
        SignatureComponentsView { r: self.r@, s: self.s@, standard_v: self.standard_v }
    }
}

/// The view of an optional signature.
pub open spec fn signature_view(sig: Option<SignatureComponents>) -> Option<SignatureComponentsView> {
    match sig {
        Some(s) => Some(s@),
        None => None,
    }
}

/// The bytes of a signature: `r ++ s ++ [standard_v]`.
pub open spec fn signature_bytes(sig: SignatureComponentsView) -> Seq<u8> {
    sig.r + sig.s + seq![sig.standard_v]
}

/// The signature held by 65 bytes `r ++ s ++ [v]`.
pub open spec fn signature_from_bytes(b: Seq<u8>) -> SignatureComponentsView {
    SignatureComponentsView { r: b.subrange(0, 32), s: b.subrange(32, 64), standard_v: b[64] }
}

/// The `v` value with replay protection: `standard_v + 35 + 2 * chain_id` for a
/// chain, `standard_v + 27` without one.
pub open spec fn replay_protected_v(standard_v: u8, chain_id: Option<u64>) -> int {
    standard_v + match chain_id {
        Some(id) => 35 + 2 * id,
        None => 27int,
    }
}

/// The recovery id carried by a replay-protected `v`.
pub open spec fn standard_v_of(v: u64) -> Option<u8> {
    if v >= 35 {
        Some(((v - 1) % 2) as u8)
    } else {
        None
    }
}

/// The chain id carried by a replay-protected `v`.
pub open spec fn chain_id_of(v: u64) -> Option<u64> {
    if v >= 35 {
        Some(((v - 35) / 2) as u64)
    } else {
        None
    }
}

impl SignatureComponents {
    /// The length of a signature in Ethereum format.
    pub const ETHEREUM_TX_LEN: usize = 65;

    /// The signature held by 65 bytes `r ++ s ++ [v]`.
    pub fn from(bytes: Vec<u8>) -> (r: SignatureComponents)
        requires
            bytes@.len() == 65,
        ensures
            r@ == signature_from_bytes(bytes@),
    {
        let mut r: Vec<u8> = Vec::new();
        let mut s: Vec<u8> = Vec::new();
        let mut i: usize = 0;
        while i < 32
            invariant
                bytes@.len() == 65,
                i <= 32,
                r@ == bytes@.subrange(0, i as int),
                s@ == bytes@.subrange(32, 32 + i),
            decreases 32 - i,
        {
            r.push(bytes[i]);
            s.push(bytes[32 + i]);
            i = i + 1;
            assert(r@ =~= bytes@.subrange(0, i as int));
            assert(s@ =~= bytes@.subrange(32, 32 + i));
        }
        SignatureComponents { r, s, standard_v: bytes[64] }
    }

    /// The bytes `r ++ s ++ [standard_v]`.
    pub fn into_bytes(self) -> (r: Vec<u8>)
        ensures
            r@ == signature_bytes(self@),
    {
        self.as_bytes()
    }

    /// The bytes `r ++ s ++ [standard_v]`.
    pub fn as_bytes(&self) -> (r: Vec<u8>)
        ensures
            r@ == signature_bytes(self@),
    {
        let mut out = copy_bytes(self.r.as_slice());
        let mut i: usize = 0;
        while i < self.s.len()
            invariant
                i <= self.s@.len(),
                out@ == self.r@ + self.s@.subrange(0, i as int),
            decreases self.s@.len() - i,
        {
            out.push(self.s[i]);
            i = i + 1;
            assert(out@ =~= self.r@ + self.s@.subrange(0, i as int));
        }
        assert(self.s@.subrange(0, self.s@.len() as int) =~= self.s@);
        out.push(self.standard_v);
        assert(out@ =~= signature_bytes(self@));
        out
    }

    /// Whether `standard_v` is a plain recovery id, 0 or 1.
    pub fn is_eth_sig(&self) -> (r: bool)
        ensures
            r == (self.standard_v <= 1),
    {
        self.standard_v <= 1
    }

    /// The `v` value with replay protection for `chain_id`.
    pub fn add_chain_replay_protection(&self, chain_id: Option<u64>) -> (r: u64)
        requires
            replay_protected_v(self.standard_v, chain_id) <= u64::MAX,
        ensures
            r == replay_protected_v(self.standard_v, chain_id),
    {
        let id = if let Some(i) = chain_id {
            35 + i * 2
        } else {
            27
        };
        self.standard_v as u64 + id
    }

    /// The recovery id carried by a replay-protected `v`, `None` below 35.
    pub fn extract_standard_v(v: u64) -> (r: Option<u8>)
        ensures
            r == standard_v_of(v),
    {
        if v >= 35 {
            Some(((v - 1) % 2) as u8)
        } else {
            None
        }
    }

    /// The chain id carried by a replay-protected `v`, `None` below 35.
    pub fn extract_chain_id(v: u64) -> (r: Option<u64>)
        ensures
            r == chain_id_of(v),
    {
        if v >= 35 {
            Some((v - 35) / 2u64)
        } else {
            None
        }
    }

    /// The number of bytes of `r ++ s ++ [standard_v]`.
    #[allow(clippy::len_without_is_empty)]
    pub fn len(&self) -> (r: usize)
        requires
            self.r@.len() + self.s@.len() + 1 <= usize::MAX,
        ensures
            r == self.r@.len() + self.s@.len() + 1,
    {
        self.r.len() + self.s.len() + 1
    }
}

// ---------------------------------------------------------------------------
// Encoding
// ---------------------------------------------------------------------------

/// The RLP item of an action: the called address, or the empty string.
pub open spec fn action_item(a: Option<Seq<u8>>) -> RlpItem {
    match a {
        Some(addr) => RlpItem::Bytes(addr),
        None => RlpItem::Bytes(Seq::empty()),
    }
}

/// Byte strings as RLP items.
pub open spec fn bytes_items(v: Seq<Seq<u8>>) -> Seq<RlpItem> {
    v.map_values(|b: Seq<u8>| RlpItem::Bytes(b))
}

/// The RLP item of an access-list entry: `[address, [storage keys]]`.
pub open spec fn access_item(i: AccessListItemView) -> RlpItem {
    RlpItem::List(seq![RlpItem::Bytes(i.address), RlpItem::List(bytes_items(i.storage_keys))])
}

/// The RLP item of an access list.
pub open spec fn access_list_item(l: Seq<AccessListItemView>) -> RlpItem {
    RlpItem::List(l.map_values(|i: AccessListItemView| access_item(i)))
}

/// The fields of a legacy transaction, in encoding order.
pub open spec fn legacy_items(tx: LegacyTransactionView) -> Seq<RlpItem> {
    seq![
        uint_item(tx.nonce),
        uint_item(tx.gas_price),
        uint_item(tx.gas_limit),
        action_item(tx.action),
        uint_item(tx.value),
        RlpItem::Bytes(tx.data),
    ]
}

/// The fields of a type-1 transaction for a chain, in encoding order.
pub open spec fn eip2930_items(tx: Eip2930TransactionView, chain_id: u64) -> Seq<RlpItem> {
    seq![
        uint_item(chain_id as nat),
        uint_item(tx.nonce),
        uint_item(tx.gas_price),
        uint_item(tx.gas_limit),
        action_item(tx.action),
        uint_item(tx.value),
        RlpItem::Bytes(tx.data),
        access_list_item(tx.access_list),
    ]
}

/// The fields of a type-2 transaction for a chain, in encoding order.
pub open spec fn eip1559_items(tx: Eip1559TransactionView, chain_id: u64) -> Seq<RlpItem> {
    seq![
        uint_item(chain_id as nat),
        uint_item(tx.nonce),
        uint_item(tx.max_priority_fee_per_gas),
        uint_item(tx.gas_price),
        uint_item(tx.gas_limit),
        action_item(tx.action),
        uint_item(tx.value),
        RlpItem::Bytes(tx.data),
        access_list_item(tx.access_list),
    ]
}

/// The fields of a deposit, in encoding order; a missing mint counts as zero.
pub open spec fn deposit_items(tx: DepositTransactionView) -> Seq<RlpItem> {
    seq![
        RlpItem::Bytes(tx.source_hash),
        RlpItem::Bytes(tx.from),
        action_item(tx.action),
        uint_item(
            match tx.mint {
                Some(m) => m,
                None => 0,
            },
        ),
        uint_item(tx.value),
        uint_item(tx.gas_limit),
        uint_item(
            if tx.is_system_tx {
                1
            } else {
                0
            },
        ),
        RlpItem::Bytes(tx.data),
    ]
}

/// The trailing signature fields of a typed transaction: `[y parity, r, s]`, or
/// none when unsigned.
pub open spec fn signature_items(sig: Option<SignatureComponentsView>) -> Seq<RlpItem> {
    match sig {
        Some(s) => seq![uint_item(s.standard_v as nat), RlpItem::Bytes(s.r), RlpItem::Bytes(s.s)],
        None => Seq::empty(),
    }
}

/// The trailing fields of a legacy transaction for a chain: `[v, r, s]` with a
/// replay-protected `v` when signed, `[chain_id, 0, 0]` when not.
pub open spec fn legacy_signature_items(
    sig: Option<SignatureComponentsView>,
    chain_id: u64,
) -> Seq<RlpItem> {
    match sig {
        Some(s) => seq![
            uint_item(replay_protected_v(s.standard_v, Some(chain_id)) as nat),
            RlpItem::Bytes(s.r),
            RlpItem::Bytes(s.s),
        ],
        None => seq![uint_item(chain_id as nat), uint_item(0), uint_item(0)],
    }
}

/// Whether a transaction can be encoded for `chain_id` without overflowing the
/// replay-protected `v` of a signed legacy transaction.
pub open spec fn encodable(
    tx: UnsignedTransactionView,
    chain_id: u64,
    sig: Option<SignatureComponentsView>,
) -> bool {
    tx is Legacy && sig is Some ==> replay_protected_v(sig->0.standard_v, Some(chain_id))
        <= u64::MAX
}

/// The encoding of a transaction for a chain: the RLP list of its fields, after
/// its type byte when it has a type.
pub open spec fn encoding(
    tx: UnsignedTransactionView,
    chain_id: u64,
    sig: Option<SignatureComponentsView>,
) -> Seq<u8> {
    match tx {
        UnsignedTransactionView::Legacy(t) => rlp_encoding(
            RlpItem::List(legacy_items(t) + legacy_signature_items(sig, chain_id)),
        ),
        UnsignedTransactionView::Eip2930(t) => seq![1u8] + rlp_encoding(
            RlpItem::List(eip2930_items(t, chain_id) + signature_items(sig)),
        ),
        UnsignedTransactionView::Eip1559(t) => seq![2u8] + rlp_encoding(
            RlpItem::List(eip1559_items(t, chain_id) + signature_items(sig)),
        ),
        UnsignedTransactionView::Deposit(t) => seq![0x7eu8] + rlp_encoding(
            RlpItem::List(deposit_items(t)),
        ),
    }
}

/// Whether `s2` is `s1` with `item` appended to its innermost open list.
pub open spec fn list_appended(s1: rlp::RlpStream, s2: rlp::RlpStream, item: RlpItem) -> bool {
    &&& rlp_stream_done(s2) == rlp_stream_done(s1)
    &&& rlp_stream_open(s2).len() == rlp_stream_open(s1).len()
    &&& rlp_stream_open(s2).drop_last() == rlp_stream_open(s1).drop_last()
    &&& rlp_stream_open(s2).last() == rlp_stream_open(s1).last().push(item)
}

/// Whether `s2` is `s1` with `items` appended to its innermost open list.
pub open spec fn list_extended(s1: rlp::RlpStream, s2: rlp::RlpStream, items: Seq<RlpItem>) -> bool {
    &&& rlp_stream_done(s2) == rlp_stream_done(s1)
    &&& rlp_stream_open(s2).len() == rlp_stream_open(s1).len()
    &&& rlp_stream_open(s2).drop_last() == rlp_stream_open(s1).drop_last()
    &&& rlp_stream_open(s2).last() == rlp_stream_open(s1).last() + items
}

/// An appended item joins the innermost open list.
proof fn lemma_appended_in_list(s1: rlp::RlpStream, s2: rlp::RlpStream, item: RlpItem)
    requires
        rlp_stream_open(s1).len() > 0,
        crate::rlp_stream::appended(s1, s2, item),
    ensures
        list_appended(s1, s2, item),
{
    let o = rlp_stream_open(s1);
    assert(o.update(o.len() - 1, o.last().push(item)).drop_last() =~= o.drop_last());
}

/// Closing the list opened on top of `s0` puts its items, as one list, into the
/// innermost list open in `s0`.
proof fn lemma_closed_list(s0: rlp::RlpStream, s1: rlp::RlpStream, s2: rlp::RlpStream)
    requires
        rlp_stream_open(s0).len() > 0,
        rlp_stream_done(s1) == rlp_stream_done(s0),
        rlp_stream_open(s1).len() == rlp_stream_open(s0).len() + 1,
        rlp_stream_open(s1).drop_last() == rlp_stream_open(s0),
        (rlp_stream_done(s2), rlp_stream_open(s2)) == crate::rlp_stream::pushed(
            rlp_stream_done(s1),
            rlp_stream_open(s1).drop_last(),
            RlpItem::List(rlp_stream_open(s1).last()),
        ),
    ensures
        list_appended(s0, s2, RlpItem::List(rlp_stream_open(s1).last())),
{
    let o = rlp_stream_open(s0);
    let item = RlpItem::List(rlp_stream_open(s1).last());
    assert(o.update(o.len() - 1, o.last().push(item)).drop_last() =~= o.drop_last());
}

fn put_bytes(s: &mut rlp::RlpStream, b: &[u8])
    requires
        rlp_stream_open(*old(s)).len() > 0,
    ensures
        list_appended(*old(s), *final(s), RlpItem::Bytes(b@)),
{
    let ghost s0 = *s;
    rlp_append_bytes(s, b);
    proof {
        lemma_appended_in_list(s0, *s, RlpItem::Bytes(b@));
    }
}

fn put_u64(s: &mut rlp::RlpStream, x: u64)
    requires
        rlp_stream_open(*old(s)).len() > 0,
    ensures
        list_appended(*old(s), *final(s), uint_item(x as nat)),
{
    let ghost s0 = *s;
    rlp_append_u64(s, x);
    proof {
        lemma_appended_in_list(s0, *s, uint_item(x as nat));
    }
}

fn put_u256(s: &mut rlp::RlpStream, x: &U256)
    requires
        rlp_stream_open(*old(s)).len() > 0,
    ensures
        list_appended(*old(s), *final(s), uint_item(x@)),
{
    let ghost s0 = *s;
    rlp_append_u256(s, x);
    proof {
        lemma_appended_in_list(s0, *s, uint_item(x@));
    }
}

fn put_action(s: &mut rlp::RlpStream, a: &TransactionAction)
    requires
        rlp_stream_open(*old(s)).len() > 0,
    ensures
        list_appended(*old(s), *final(s), action_item(a@)),
{
    match a {
        TransactionAction::Call(addr) => put_bytes(s, addr.0.as_slice()),
        TransactionAction::Create => {
            let empty: Vec<u8> = Vec::new();
            assert(empty@ =~= Seq::<u8>::empty());
            put_bytes(s, empty.as_slice());
        },
    }
}

/// Appends the list of the storage keys of an access-list entry.
fn put_keys(s: &mut rlp::RlpStream, keys: &Vec<H256>)
    requires
        rlp_stream_open(*old(s)).len() > 0,
    ensures
        list_appended(*old(s), *final(s), RlpItem::List(bytes_items(hashes_view(keys@)))),
{
    let ghost s0 = *s;
    rlp_begin_unbounded_list(s);
    let mut i: usize = 0;
    while i < keys.len()
        invariant
            i <= keys@.len(),
            rlp_stream_open(s0).len() > 0,
            rlp_stream_done(*s) == rlp_stream_done(s0),
            rlp_stream_open(*s).len() == rlp_stream_open(s0).len() + 1,
            rlp_stream_open(*s).drop_last() == rlp_stream_open(s0),
            rlp_stream_open(*s).last() == bytes_items(hashes_view(keys@.take(i as int))),
        decreases keys@.len() - i,
    {
        put_bytes(s, keys[i].0.as_slice());
        i = i + 1;
        assert(bytes_items(hashes_view(keys@.take(i as int))) =~= bytes_items(
            hashes_view(keys@.take(i - 1)),
        ).push(RlpItem::Bytes(keys@[i - 1]@)));
    }
    assert(keys@.take(keys@.len() as int) =~= keys@);
    let ghost s1 = *s;
    rlp_finalize_unbounded_list(s);
    proof {
        lemma_closed_list(s0, s1, *s);
    }
}

/// Appends an access-list entry.
fn put_access_entry(s: &mut rlp::RlpStream, item: &AccessListItem)
    requires
        rlp_stream_open(*old(s)).len() > 0,
    ensures
        list_appended(*old(s), *final(s), access_item(item@)),
{
    let ghost s0 = *s;
    rlp_begin_unbounded_list(s);
    assert(rlp_stream_open(*s).drop_last() =~= rlp_stream_open(s0));
    put_bytes(s, item.address.0.as_slice());
    put_keys(s, &item.storage_keys);
    let ghost s1 = *s;
    assert(rlp_stream_open(s1).last() =~= seq![
        RlpItem::Bytes(item@.address),
        RlpItem::List(bytes_items(item@.storage_keys)),
    ]);
    rlp_finalize_unbounded_list(s);
    proof {
        lemma_closed_list(s0, s1, *s);
    }
}

/// Appends an access list.
fn put_access_list(s: &mut rlp::RlpStream, list: &Vec<AccessListItem>)
    requires
        rlp_stream_open(*old(s)).len() > 0,
    ensures
        list_appended(*old(s), *final(s), access_list_item(access_list_view(list@))),
{
    let ghost s0 = *s;
    rlp_begin_unbounded_list(s);
    assert(rlp_stream_open(*s).drop_last() =~= rlp_stream_open(s0));
    assert(access_list_view(list@.take(0)).map_values(|e: AccessListItemView| access_item(e))
        =~= Seq::<RlpItem>::empty());
    let mut i: usize = 0;
    while i < list.len()
        invariant
            i <= list@.len(),
            rlp_stream_open(s0).len() > 0,
            rlp_stream_done(*s) == rlp_stream_done(s0),
            rlp_stream_open(*s).len() == rlp_stream_open(s0).len() + 1,
            rlp_stream_open(*s).drop_last() == rlp_stream_open(s0),
            RlpItem::List(rlp_stream_open(*s).last()) == access_list_item(
                access_list_view(list@.take(i as int)),
            ),
        decreases list@.len() - i,
    {
        put_access_entry(s, &list[i]);
        i = i + 1;
        assert(access_list_view(list@.take(i as int)).map_values(
            |e: AccessListItemView| access_item(e),
        ) =~= access_list_view(list@.take(i - 1)).map_values(
            |e: AccessListItemView| access_item(e),
        ).push(access_item(list@[i - 1]@)));
    }
    assert(list@.take(list@.len() as int) =~= list@);
    let ghost s1 = *s;
    rlp_finalize_unbounded_list(s);
    proof {
        lemma_closed_list(s0, s1, *s);
    }
}

/// The bytes of `tag` followed by `body`.
fn prefixed(tag: u8, body: &[u8]) -> (r: Vec<u8>)
    ensures
        r@ == seq![tag] + body@,
{
    let mut out: Vec<u8> = Vec::new();
    out.push(tag);
    let mut i: usize = 0;
    while i < body.len()
        invariant
            i <= body@.len(),
            out@ == seq![tag] + body@.subrange(0, i as int),
        decreases body@.len() - i,
    {
        out.push(body[i]);
        i = i + 1;
        assert(out@ =~= seq![tag] + body@.subrange(0, i as int));
    }
    assert(body@.subrange(0, body@.len() as int) =~= body@);
    out
}

/// Appends the fields of a legacy transaction.
fn put_legacy_fields(s: &mut rlp::RlpStream, tx: &LegacyTransaction)
    requires
        rlp_stream_open(*old(s)).len() > 0,
    ensures
        list_extended(*old(s), *final(s), legacy_items(tx@)),
{
    let ghost s0 = *s;
    put_u256(s, &tx.nonce);
    put_u256(s, &tx.gas_price);
    put_u256(s, &tx.gas_limit);
    put_action(s, &tx.action);
    put_u256(s, &tx.value);
    put_bytes(s, tx.data.as_slice());
    assert(rlp_stream_open(*s).last() =~= rlp_stream_open(s0).last() + legacy_items(tx@));
}

/// Appends the trailing signature fields of a typed transaction.
fn put_signature(s: &mut rlp::RlpStream, sig: Option<&SignatureComponents>)
    requires
        rlp_stream_open(*old(s)).len() > 0,
    ensures
        list_extended(
            *old(s),
            *final(s),
            signature_items(
                match sig {
                    Some(x) => Some(x@),
                    None => None,
                },
            ),
        ),
{
    let ghost s0 = *s;
    match sig {
        Some(x) => {
            put_u64(s, x.standard_v as u64);
            put_bytes(s, x.r.as_slice());
            put_bytes(s, x.s.as_slice());
        },
        None => {},
    }
    assert(rlp_stream_open(*s).last() =~= rlp_stream_open(s0).last() + signature_items(
        match sig {
            Some(x) => Some(x@),
            None => None,
        },
    ));
}

/// The RLP list of the six fields of a legacy transaction, without chain id or
/// signature: the payload that pre-replay-protection signatures sign.
fn encode_legacy_unprotected(tx: &LegacyTransaction) -> (r: Vec<u8>)
    ensures
        r@ == rlp_encoding(RlpItem::List(legacy_items(tx@))),
{
    let mut s = rlp_stream_new();
    rlp_begin_unbounded_list(&mut s);
    let ghost s1 = s;
    put_legacy_fields(&mut s, tx);
    assert(rlp_stream_open(s).last() =~= legacy_items(tx@));
    rlp_finalize_unbounded_list(&mut s);
    assert(rlp_stream_done(s) =~= seq![RlpItem::List(legacy_items(tx@))]);
    rlp_out(s)
}

impl UnsignedTransaction {
    /// The encoding for `chain_id` with an optional signature, without copying it.
    fn encode_with(&self, chain_id: u64, signature: Option<&SignatureComponents>) -> (r: Vec<u8>)
        requires
            encodable(
                self@,
                chain_id,
                match signature {
                    Some(x) => Some(x@),
                    None => None,
                },
            ),
        ensures
            r@ == encoding(
                self@,
                chain_id,
                match signature {
                    Some(x) => Some(x@),
                    None => None,
                },
            ),
    {
        let ghost sig = match signature {
            Some(x) => Some(x@),
            None => None,
        };
        let mut s = rlp_stream_new();
        rlp_begin_unbounded_list(&mut s);
        let ghost s1 = s;
        let tag: u8 = match self {
            UnsignedTransaction::Legacy(tx) => {
                put_legacy_fields(&mut s, tx);
                let ghost s2 = s;
                match signature {
                    Some(x) => {
                        let v = x.add_chain_replay_protection(Some(chain_id));
                        put_u64(&mut s, v);
                        put_bytes(&mut s, x.r.as_slice());
                        put_bytes(&mut s, x.s.as_slice());
                    },
                    None => {
                        put_u64(&mut s, chain_id);
                        put_u64(&mut s, 0);
                        put_u64(&mut s, 0);
                    },
                }
                assert(rlp_stream_open(s).last() =~= legacy_items(tx@) + legacy_signature_items(
                    sig,
                    chain_id,
                ));
                0u8
            },
            UnsignedTransaction::Eip2930(tx) => {
                put_u64(&mut s, chain_id);
                put_u256(&mut s, &tx.nonce);
                put_u256(&mut s, &tx.gas_price);
                put_u256(&mut s, &tx.gas_limit);
                put_action(&mut s, &tx.action);
                put_u256(&mut s, &tx.value);
                put_bytes(&mut s, tx.data.as_slice());
                put_access_list(&mut s, &tx.access_list);
                let ghost s2 = s;
                assert(rlp_stream_open(s2).last() =~= eip2930_items(tx@, chain_id));
                put_signature(&mut s, signature);
                assert(rlp_stream_open(s).last() =~= eip2930_items(tx@, chain_id)
                    + signature_items(sig));
                1u8
            },
            UnsignedTransaction::Eip1559(tx) => {
                put_u64(&mut s, chain_id);
                put_u256(&mut s, &tx.nonce);
                put_u256(&mut s, &tx.max_priority_fee_per_gas);
                put_u256(&mut s, &tx.gas_price);
                put_u256(&mut s, &tx.gas_limit);
                put_action(&mut s, &tx.action);
                put_u256(&mut s, &tx.value);
                put_bytes(&mut s, tx.data.as_slice());
                put_access_list(&mut s, &tx.access_list);
                let ghost s2 = s;
                assert(rlp_stream_open(s2).last() =~= eip1559_items(tx@, chain_id));
                put_signature(&mut s, signature);
                assert(rlp_stream_open(s).last() =~= eip1559_items(tx@, chain_id)
                    + signature_items(sig));
                2u8
            },
            UnsignedTransaction::Deposit(tx) => {
                put_bytes(&mut s, tx.source_hash.0.as_slice());
                put_bytes(&mut s, tx.from.0.as_slice());
                put_action(&mut s, &tx.action);
                match &tx.mint {
                    Some(m) => put_u256(&mut s, m),
                    None => put_u64(&mut s, 0),
                }
                put_u256(&mut s, &tx.value);
                put_u256(&mut s, &tx.gas_limit);
                put_u64(
                    &mut s,
                    if tx.is_system_tx {
                        1
                    } else {
                        0
                    },
                );
                put_bytes(&mut s, tx.data.as_slice());
                assert(rlp_stream_open(s).last() =~= deposit_items(tx@));
                0x7eu8
            },
        };
        let ghost items = rlp_stream_open(s).last();
        rlp_finalize_unbounded_list(&mut s);
        assert(rlp_stream_done(s) =~= seq![RlpItem::List(items)]);
        let body = rlp_out(s);
        if tag == 0u8 {
            body
        } else {
            prefixed(tag, body.as_slice())
        }
    }

    /// The encoding of this transaction for `chain_id` with an optional signature:
    /// the RLP list of its fields, after its type byte when it has a type.
    pub fn encode(&self, chain_id: u64, signature: Option<SignatureComponents>) -> (r: Vec<u8>)
        requires
            encodable(self@, chain_id, signature_view(signature)),
        ensures
            r@ == encoding(self@, chain_id, signature_view(signature)),
    {
        match &signature {
            Some(x) => self.encode_with(chain_id, Some(x)),
            None => self.encode_with(chain_id, None),
        }
    }
}

// ---------------------------------------------------------------------------
// Hashes, signers and signed transactions
// ---------------------------------------------------------------------------

/// A transaction with its chain id, optional signature and stored hash.
#[derive(Clone, Debug, Hash, PartialEq, Eq)]
pub struct UnverifiedTransaction {
    pub unsigned: UnsignedTransaction,
    pub signature: Option<SignatureComponents>,
    pub chain_id: u64,
    pub hash: H256,
}

pub struct UnverifiedTransactionView {
    pub unsigned: UnsignedTransactionView,
    pub signature: Option<SignatureComponentsView>,
    pub chain_id: u64,
    pub hash: Seq<u8>,
}

impl View for UnverifiedTransaction {
    type V = UnverifiedTransactionView;

    open spec fn view(&self) -> UnverifiedTransactionView {
        UnverifiedTransactionView {
            unsigned: self.unsigned@,
            signature: signature_view(self.signature),
            chain_id: self.chain_id,
            hash: self.hash@,
        }
    }
}

impl UnverifiedTransactionView {
    /// Whether the transaction, with its own signature, can be encoded.
    pub open spec fn encodable(self) -> bool {
        encodable(self.unsigned, self.chain_id, self.signature)
    }

    /// The hash of the transaction: Keccak-256 of its encoding with its signature.
    pub open spec fn tx_hash(self) -> Seq<u8> {
        keccak256(encoding(self.unsigned, self.chain_id, self.signature))
    }

    /// The same transaction with another stored hash.
    pub open spec fn with_hash(self, hash: Seq<u8>) -> UnverifiedTransactionView {
        UnverifiedTransactionView { hash, ..self }
    }

    /// The hash that a signature signs: without a chain id, a legacy transaction
    /// signs its six plain fields; otherwise the unsigned encoding for the chain.
    pub open spec fn signing_hash(self, with_chain_id: bool) -> Seq<u8> {
        if !with_chain_id && self.unsigned is Legacy {
            keccak256(rlp_encoding(RlpItem::List(legacy_items(self.unsigned->Legacy_0))))
        } else {
            keccak256(encoding(self.unsigned, self.chain_id, None))
        }
    }

    /// The serialized public key recovered from the signature, if any.
    pub open spec fn recovered_key(self, with_chain_id: bool) -> Option<Seq<u8>> {
        match self.signature {
            Some(sig) => if signature_bytes(sig).len() == 65 {
                secp256k1_recovery(self.signing_hash(with_chain_id), signature_bytes(sig))
            } else {
                None
            },
            None => None,
        }
    }
}

/// The address of a public key: the last 20 bytes of its Keccak-256 hash.
pub open spec fn address_of(public: Seq<u8>) -> Seq<u8> {
    keccak256(public).subrange(12, 32)
}

/// The public key held by a serialized uncompressed key: the 64 bytes that follow
/// its prefix byte.
pub fn public_from_uncompressed(key: &[u8; 65]) -> (r: Public)
    ensures
        r@ == key@.subrange(1, 65),
{
    let mut out = [0u8; 64];
    let mut i: usize = 0;
    while i < 64
        invariant
            i <= 64,
            forall|j: int| 0 <= j < i ==> out@[j] == key@[j + 1],
        decreases 64 - i,
    {
        out[i] = key[i + 1];
        i = i + 1;
    }
    let r = H512(out);
    assert(r@ =~= key@.subrange(1, 65));
    r
}

/// The 65 bytes of a byte string of that length, as an array.
fn to_array_65(b: &[u8]) -> (r: [u8; 65])
    requires
        b@.len() == 65,
    ensures
        r@ == b@,
{
    let mut out = [0u8; 65];
    let mut i: usize = 0;
    while i < 65
        invariant
            i <= 65,
            b@.len() == 65,
            forall|j: int| 0 <= j < i ==> out@[j] == b@[j],
        decreases 65 - i,
    {
        out[i] = b[i];
        i = i + 1;
    }
    assert(out@ =~= b@);
    out
}

impl UnverifiedTransaction {
    /// Whether the transaction, with its own signature, can be encoded: a signed
    /// legacy transaction needs its replay-protected `v` to fit in 64 bits.
    pub fn is_encodable(&self) -> (r: bool)
        ensures
            r == self@.encodable(),
    {
        match (&self.unsigned, &self.signature) {
            (UnsignedTransaction::Legacy(_), Some(sig)) => {
                (sig.standard_v as u64) <= u64::MAX - 35 && self.chain_id <= (u64::MAX - 35
                    - sig.standard_v as u64) / 2
            },
            _ => true,
        }
    }

    /// The transaction with its stored hash set to its computed hash.
    pub fn calc_hash(self) -> (r: UnverifiedTransaction)
        requires
            self.signature is Some,
            self@.encodable(),
        ensures
            r@ == self@.with_hash(self@.tx_hash()),
    {
        let mut tx = self;
        let hash = tx.get_hash();
        tx.hash = hash;
        tx
    }

    /// Keccak-256 of the encoding with the transaction's own signature.
    pub fn get_hash(&self) -> (r: H256)
        requires
            self@.encodable(),
        ensures
            r@ == self@.tx_hash(),
    {
        let encoded = match &self.signature {
            Some(x) => self.unsigned.encode_with(self.chain_id, Some(x)),
            None => self.unsigned.encode_with(self.chain_id, None),
        };
        keccak_digest(encoded.as_slice())
    }

    /// Checks the stored hash against the computed one.
    pub fn check_hash(&self) -> (r: Result<(), TypesError>)
        requires
            self@.encodable(),
        ensures
            r is Ok <==> self@.hash == self@.tx_hash(),
            r matches Err(e) ==> e matches TypesError::TxHashMismatch { origin, calc } && origin
                == self.hash && calc@ == self@.tx_hash(),
    {
        let calc_hash = self.get_hash();
        if !crate::primitives::bytes_eq(self.hash.0.as_slice(), calc_hash.0.as_slice()) {
            return Err(TypesError::TxHashMismatch { origin: self.hash, calc: calc_hash });
        }
        Ok(())
    }

    /// The hash that the signature signs; see `signing_hash`.
    pub fn signature_hash(&self, with_chain_id: bool) -> (r: H256)
        ensures
            r@ == self@.signing_hash(with_chain_id),
    {
        if !with_chain_id {
            if let Some(legacy_tx) = self.unsigned.get_legacy() {
                let encoded = encode_legacy_unprotected(&legacy_tx);
                return keccak_digest(encoded.as_slice());
            }
        }
        let encoded = self.unsigned.encode_with(self.chain_id, None);
        keccak_digest(encoded.as_slice())
    }

    /// The public key that signed the transaction, recovered from its signature.
    pub fn recover_public(&self, with_chain_id: bool) -> (r: Result<Public, TypesError>)
        ensures
            self@.signature is None ==> r == Err::<Public, TypesError>(TypesError::MissingSignature),
            self@.signature is Some && signature_bytes(self@.signature->0).len() != 65 ==> r
                == Err::<Public, TypesError>(TypesError::Crypto(CryptoError::InvalidSignatureLength)),
            r is Ok <==> self@.recovered_key(with_chain_id) is Some,
            r matches Ok(p) ==> p@ == self@.recovered_key(with_chain_id)->0.subrange(1, 65),
            r matches Ok(p) ==> seq![4u8] + p@ == self@.recovered_key(with_chain_id)->0,
            self@.signature is Some && signature_bytes(self@.signature->0).len() == 65 && r is Err
                ==> r->Err_0 matches TypesError::Crypto(CryptoError::Secp256k1(_)),
    {
        let hash = self.signature_hash(with_chain_id);
        let sig = match &self.signature {
            Some(x) => x,
            None => return Err(TypesError::MissingSignature),
        };
        let bytes = sig.as_bytes();
        if bytes.len() != 65 {
            return Err(TypesError::Crypto(CryptoError::InvalidSignatureLength));
        }
        let arr = to_array_65(bytes.as_slice());
        match secp256k1_recover(&hash.0, &arr) {
            Ok(key) => {
                let p = public_from_uncompressed(&key);
                assert(seq![4u8] + p@ =~= key@);
                Ok(p)
            },
            Err(e) => Err(TypesError::Crypto(CryptoError::Secp256k1(e))),
        }
    }
}

/// A transaction whose signer is known.
#[derive(Clone, Debug, Hash, PartialEq, Eq)]
pub struct SignedTransaction {
    pub transaction: UnverifiedTransaction,
    pub sender: H160,
    pub public: Option<Public>,
}

pub struct SignedTransactionView {
    pub transaction: UnverifiedTransactionView,
    pub sender: Seq<u8>,
    pub public: Option<Seq<u8>>,
}

impl View for SignedTransaction {
    type V = SignedTransactionView;

    open spec fn view(&self) -> SignedTransactionView {
        SignedTransactionView {
            transaction: self.transaction@,
            sender: self.sender@,
            public: match self.public {
                Some(p) => Some(p@),
                None => None,
            },
        }
    }
}

impl SignedTransaction {
    /// Recovers the signer of a signed transaction and fixes its hash.
    pub fn try_from(utx: UnverifiedTransaction) -> (r: Result<SignedTransaction, TypesError>)
        requires
            utx@.encodable(),
        ensures
            utx@.signature is None ==> r == Err::<SignedTransaction, TypesError>(TypesError::Unsigned),
            utx@.signature is Some && signature_bytes(utx@.signature->0).len() != 65 ==> r
                == Err::<SignedTransaction, TypesError>(
                TypesError::Crypto(CryptoError::InvalidSignatureLength),
            ),
            r is Ok <==> utx@.recovered_key(true) is Some,
            r matches Ok(st) ==> {
                let public = utx@.recovered_key(true)->0.subrange(1, 65);
                &&& st@.transaction == utx@.with_hash(utx@.tx_hash())
                &&& st@.public == Some(public)
                &&& st@.sender == address_of(public)
                &&& seq![4u8] + public == utx@.recovered_key(true)->0
            },
            utx@.signature is Some && signature_bytes(utx@.signature->0).len() == 65 && r is Err
                ==> r->Err_0 matches TypesError::Crypto(CryptoError::Secp256k1(_)),
    {
        if utx.signature.is_none() {
            return Err(TypesError::Unsigned);
        }
        let public = match utx.recover_public(true) {
            Ok(p) => p,
            Err(e) => return Err(e),
        };
        let sender = public_to_address(&public);
        Ok(SignedTransaction { transaction: utx.calc_hash(), sender, public: Some(public) })
    }

    /// A deposit, for `chain_id`, whose sender is the deposit's `from` and whose
    /// hash is computed.
    pub fn from_deposit_tx(deposit_tx: DepositTransaction, chain_id: u64) -> (r: SignedTransaction)
        ensures
            r@.sender == deposit_tx@.from,
            r@.public is None,
            r@.transaction == (UnverifiedTransactionView {
                unsigned: UnsignedTransactionView::Deposit(deposit_tx@),
                signature: None,
                chain_id,
                hash: keccak256(
                    encoding(UnsignedTransactionView::Deposit(deposit_tx@), chain_id, None),
                ),
            }),
    {
        let sender = deposit_tx.from;
        let mut transaction = UnverifiedTransaction {
            unsigned: UnsignedTransaction::Deposit(deposit_tx),
            signature: None,
            chain_id,
            hash: H256::zero(),
        };
        transaction.hash = transaction.get_hash();
        SignedTransaction { transaction, sender, public: None }
    }

    /// The transaction type number.
    pub fn type_(&self) -> (r: u64)
        ensures
            r == self@.transaction.unsigned.type_id(),
    {
        self.transaction.unsigned.type_()
    }

    /// The called address, `None` for a creation.
    pub fn get_to(&self) -> (r: Option<H160>)
        ensures
            match r {
                Some(a) => self@.transaction.unsigned.action() == Some(a@),
                None => self@.transaction.unsigned.action() is None,
            },
    {
        self.transaction.unsigned.to()
    }
}

/// The address that a key hash designates: its last 20 bytes.
pub fn address_from_hash(hash: &H256) -> (r: H160)
    ensures
        r@ == hash@.subrange(12, 32),
{
    let mut ret = [0u8; 20];
    let mut i: usize = 0;
    while i < 20
        invariant
            i <= 20,
            forall|j: int| 0 <= j < i ==> ret@[j] == hash@[j + 12],
        decreases 20 - i,
    {
        ret[i] = hash.0[i + 12];
        i = i + 1;
    }
    let r = H160(ret);
    assert(r@ =~= hash@.subrange(12, 32));
    r
}

/// The address of a public key: the last 20 bytes of its Keccak-256 hash.
pub fn public_to_address(public: &Public) -> (r: H160)
    ensures
        r@ == address_of(public@),
{
    let hash = keccak_digest(public.0.as_slice());
    address_from_hash(&hash)
}

/// The serialized uncompressed key of a public key: the byte 4, then the key.
pub fn recover_intact_pub_key(public: &Public) -> (r: H520)
    ensures
        r@ == seq![4u8] + public@,
{
    let mut out = [0u8; 65];
    out[0] = 4u8;
    let mut i: usize = 0;
    while i < 64
        invariant
            i <= 64,
            out@[0] == 4u8,
            forall|j: int| 0 <= j < i ==> out@[j + 1] == public@[j],
        decreases 64 - i,
    {
        out[i + 1] = public.0[i];
        i = i + 1;
    }
    let r = H520(out);
    assert(r@ =~= seq![4u8] + public@);
    r
}

} // verus!
