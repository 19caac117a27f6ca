//! Properties that relate several operations of the transaction types.
use vstd::prelude::*;

use crate::crypto::keccak256;
use crate::primitives::u256_max;
use crate::crypto::secp256k1_recovery;
use crate::rlp_stream::{be_bytes, rlp_encoding, uint_item, RlpItem};
use crate::transaction::{
    access_item, access_list_item, action_item, AccessListItemView, Eip1559TransactionView,
    Eip2930TransactionView, LegacyTransactionView, MIN_GAS_PRICE,
    chain_id_of, data_gas, encoding, DepositTransactionView, lemma_data_gas_concat, replay_protected_v, signature_bytes,
    eip1559_items, eip2930_items, signature_from_bytes, signature_items, standard_v_of, SignatureComponents, SignatureComponentsView, UnsignedTransactionView,
    UnverifiedTransactionView, GAS_CREATE_TRANSACTION, address_of,
};

verus! {

/// Replay protection is undone by extraction: a `v` built from a recovery id of 0
/// or 1 and a chain id gives back both.
pub proof fn law_replay_protection_roundtrip(standard_v: u8, chain_id: u64)
    requires
        standard_v <= 1,
        replay_protected_v(standard_v, Some(chain_id)) <= u64::MAX,
    ensures
        standard_v_of(replay_protected_v(standard_v, Some(chain_id)) as u64) == Some(standard_v),
        chain_id_of(replay_protected_v(standard_v, Some(chain_id)) as u64) == Some(chain_id),
{
    let v = replay_protected_v(standard_v, Some(chain_id)) as u64;
    assert(v - 1 == standard_v + 2 * (chain_id + 17));
    assert((standard_v + 2 * (chain_id + 17)) % 2 == standard_v) by (nonlinear_arith)
        requires
            standard_v <= 1,
    ;
    assert((v - 35) / 2 == chain_id) by (nonlinear_arith)
        requires
            v - 35 == standard_v + 2 * chain_id,
            standard_v <= 1,
    ;
}

/// A `v` protected without a chain id (27 or 28) carries neither a chain id nor a
/// recovery id that extraction would report.
pub proof fn law_unprotected_v_extracts_nothing(standard_v: u8)
    requires
        standard_v <= 1,
    ensures
        chain_id_of(replay_protected_v(standard_v, None) as u64) is None,
        standard_v_of(replay_protected_v(standard_v, None) as u64) is None,
{
}

/// An extracted recovery id is always 0 or 1.
pub proof fn law_extracted_standard_v_is_parity(v: u64)
    ensures
        standard_v_of(v) matches Some(s) ==> s <= 1,
{
}

/// A signature with 32-byte `r` and `s` survives conversion to bytes and back.
pub proof fn law_signature_bytes_roundtrip(sig: SignatureComponentsView)
    requires
        sig.r.len() == 32,
        sig.s.len() == 32,
    ensures
        signature_from_bytes(signature_bytes(sig)) == sig,
{
    let b = signature_bytes(sig);
    assert(b.subrange(0, 32) =~= sig.r);
    assert(b.subrange(32, 64) =~= sig.s);
}

/// 65 bytes survive conversion to a signature and back.
pub proof fn law_bytes_signature_roundtrip(b: Seq<u8>)
    requires
        b.len() == 65,
    ensures
        signature_bytes(signature_from_bytes(b)) == b,
{
    assert(signature_bytes(signature_from_bytes(b)) =~= b);
}

/// The length of a signature is the length of its bytes.
pub proof fn law_signature_len(sig: SignatureComponentsView)
    ensures
        signature_bytes(sig).len() == sig.r.len() + sig.s.len() + 1,
        sig.r.len() == 32 && sig.s.len() == 32 ==> signature_bytes(sig).len()
            == SignatureComponents::ETHEREUM_TX_LEN,
{
}

/// Data gas adds up over concatenated data.
pub proof fn law_data_gas_additive(a: Seq<u8>, b: Seq<u8>)
    ensures
        data_gas(a + b) == data_gas(a) + data_gas(b),
{
    lemma_data_gas_concat(a, b);
}

/// Data gas lies between 4 and 68 per byte.
pub proof fn law_data_gas_bounds(data: Seq<u8>)
    ensures
        4 * data.len() <= data_gas(data) <= 68 * data.len(),
    decreases data.len(),
{
    if data.len() > 0 {
        law_data_gas_bounds(data.drop_last());
    }
}

/// Data gas counts the zero bytes and the other bytes.
pub proof fn law_data_gas_by_counts(data: Seq<u8>)
    ensures
        data_gas(data) == 4 * data.to_multiset().count(0u8) + 68 * (data.len()
            - data.to_multiset().count(0u8)),
    decreases data.len(),
{
    broadcast use vstd::seq_lib::group_to_multiset_ensures;

    if data.len() > 0 {
        let init = data.drop_last();
        law_data_gas_by_counts(init);
        assert(init.push(data.last()) =~= data);
    } else {
        assert(data.to_multiset() =~= vstd::multiset::Multiset::<u8>::empty());
    }
}

/// Reordering data keeps its gas: data with the same bytes, counted with
/// multiplicity, costs the same.
pub proof fn law_data_gas_permutation(a: Seq<u8>, b: Seq<u8>)
    requires
        a.to_multiset() == b.to_multiset(),
    ensures
        data_gas(a) == data_gas(b),
{
    broadcast use vstd::seq_lib::group_to_multiset_ensures;

    law_data_gas_by_counts(a);
    law_data_gas_by_counts(b);
    assert(a.len() == a.to_multiset().len());
    assert(b.len() == b.to_multiset().len());
}

/// A creation costs exactly 32000 gas more than a call with the same data.
pub proof fn law_create_costs_more(tx: UnsignedTransactionView, to: Seq<u8>)
    ensures
        tx.with_action(None).base_gas() == tx.with_action(Some(to)).base_gas()
            + GAS_CREATE_TRANSACTION,
{
}

/// After the data is replaced, the transaction has that data, and its kind,
/// action, value, gas limit, nonce and prices are unchanged.
pub proof fn law_set_data(tx: UnsignedTransactionView, data: Seq<u8>)
    ensures
        tx.with_data(data).data() == data,
        tx.with_data(data).type_id() == tx.type_id(),
        tx.with_data(data).action() == tx.action(),
        tx.with_data(data).value() == tx.value(),
        tx.with_data(data).gas_limit() == tx.gas_limit(),
        tx.with_data(data).nonce() == tx.nonce(),
        tx.with_data(data).gas_price() == tx.gas_price(),
        tx.with_data(data).max_priority_fee_per_gas() == tx.max_priority_fee_per_gas(),
        tx.with_data(data).access_list() == tx.access_list(),
{
}

/// After the action is replaced, the transaction has that action, and its kind,
/// data, value, gas limit, nonce and prices are unchanged.
pub proof fn law_set_action(tx: UnsignedTransactionView, action: Option<Seq<u8>>)
    ensures
        tx.with_action(action).action() == action,
        tx.with_action(action).type_id() == tx.type_id(),
        tx.with_action(action).data() == tx.data(),
        tx.with_action(action).value() == tx.value(),
        tx.with_action(action).gas_limit() == tx.gas_limit(),
        tx.with_action(action).nonce() == tx.nonce(),
        tx.with_action(action).gas_price() == tx.gas_price(),
        tx.with_action(action).max_priority_fee_per_gas() == tx.max_priority_fee_per_gas(),
        tx.with_action(action).access_list() == tx.access_list(),
{
}

/// The price paid per gas unit never exceeds the priority fee per gas.
pub proof fn law_gas_price_at_most_priority_fee(tx: UnsignedTransactionView)
    ensures
        tx.gas_price() <= tx.max_priority_fee_per_gas(),
{
}

/// The possible cost never exceeds 2^256 - 1, and is exact when it fits.
pub proof fn law_may_cost_saturates(tx: UnsignedTransactionView)
    ensures
        tx.may_cost() <= u256_max(),
        tx.gas_price() * tx.gas_limit() + tx.value() <= u256_max() ==> tx.may_cost()
            == tx.gas_price() * tx.gas_limit() + tx.value(),
{
}

/// The kind predicates agree with the type number.
pub proof fn law_kind_and_type(tx: UnsignedTransactionView)
    ensures
        tx is Legacy <==> tx.type_id() == 0,
        tx is Eip2930 <==> tx.type_id() == 1,
        tx is Eip1559 <==> tx.type_id() == 2,
        tx is Deposit <==> tx.type_id() == 0x7e,
{
}

/// The hash of a transaction does not depend on its stored hash.
pub proof fn law_hash_ignores_stored_hash(tx: UnverifiedTransactionView, h: Seq<u8>)
    ensures
        tx.with_hash(h).tx_hash() == tx.tx_hash(),
{
}

/// Once the hash is computed and stored, the stored hash checks out.
pub proof fn law_calc_hash_then_check(tx: UnverifiedTransactionView)
    ensures
        tx.with_hash(tx.tx_hash()).hash == tx.with_hash(tx.tx_hash()).tx_hash(),
{
}

/// A deposit made into a signed transaction carries a hash that checks out.
pub proof fn law_deposit_hash_checks(deposit: DepositTransactionView, chain_id: u64)
    ensures
        ({
            let tx = UnverifiedTransactionView {
                unsigned: UnsignedTransactionView::Deposit(deposit),
                signature: None,
                chain_id,
                hash: keccak256(
                    encoding(UnsignedTransactionView::Deposit(deposit), chain_id, None),
                ),
            };
            tx.hash == tx.tx_hash() && tx.encodable()
        }),
{
}

/// Only a legacy transaction signs a different payload without a chain id.
pub proof fn law_typed_signing_hash_ignores_flag(tx: UnverifiedTransactionView)
    requires
        !(tx.unsigned is Legacy),
    ensures
        tx.signing_hash(true) == tx.signing_hash(false),
{
}

/// An integer is encoded as the byte string of its big-endian digits without
/// leading zeros: none for zero, and otherwise the digits of the quotient by 256
/// followed by the remainder.
pub proof fn law_uint_item(n: nat)
    ensures
        uint_item(n) == RlpItem::Bytes(be_bytes(n)),
        be_bytes(0) == Seq::<u8>::empty(),
        n > 0 ==> be_bytes(n) == be_bytes(n / 256).push((n % 256) as u8),
        0 < n < 256 ==> be_bytes(n) == seq![n as u8],
{
    if 0 < n < 256 {
        assert(be_bytes(n / 256) == Seq::<u8>::empty());
        assert(be_bytes(n) =~= seq![n as u8]);
    }
}

/// A call is encoded as the called address, a creation as the empty string.
pub proof fn law_action_item(to: Seq<u8>)
    ensures
        action_item(Some(to)) == RlpItem::Bytes(to),
        action_item(None) == RlpItem::Bytes(Seq::<u8>::empty()),
{
}

/// An access list is encoded as a list with, for each entry in order, the list of
/// its address and the list of its storage keys.
pub proof fn law_access_list_item(l: Seq<AccessListItemView>)
    ensures
        access_list_item(l) is List,
        access_list_item(l)->List_0.len() == l.len(),
        forall|i: int|
            0 <= i < l.len() ==> #[trigger] access_list_item(l)->List_0[i] == RlpItem::List(
                seq![
                    RlpItem::Bytes(l[i].address),
                    RlpItem::List(
                        Seq::new(
                            l[i].storage_keys.len(),
                            |k: int| RlpItem::Bytes(l[i].storage_keys[k]),
                        ),
                    ),
                ],
            ),
{
    assert forall|i: int| 0 <= i < l.len() implies #[trigger] access_list_item(l)->List_0[i]
        == RlpItem::List(
        seq![
            RlpItem::Bytes(l[i].address),
            RlpItem::List(
                Seq::new(l[i].storage_keys.len(), |k: int| RlpItem::Bytes(l[i].storage_keys[k])),
            ),
        ],
    ) by {
        let keys = l[i].storage_keys;
        assert(keys.map_values(|b: Seq<u8>| RlpItem::Bytes(b)) =~= Seq::new(
            keys.len(),
            |k: int| RlpItem::Bytes(keys[k]),
        ));
        assert(access_item(l[i]) == access_list_item(l)->List_0[i]);
    }
}

/// A signed legacy transaction for chain `c` is the RLP list of its nonce, gas
/// price, gas limit, action, value and data, then `v = standard_v + 35 + 2c`, then
/// `r` and `s`; it has no type byte. Unsigned, the last three are `c, 0, 0`.
pub proof fn law_legacy_encoding(t: LegacyTransactionView, c: u64, sig: SignatureComponentsView)
    ensures
        encoding(UnsignedTransactionView::Legacy(t), c, Some(sig)) == rlp_encoding(
            RlpItem::List(
                seq![
                    uint_item(t.nonce),
                    uint_item(t.gas_price),
                    uint_item(t.gas_limit),
                    action_item(t.action),
                    uint_item(t.value),
                    RlpItem::Bytes(t.data),
                    uint_item((sig.standard_v + 35 + 2 * c) as nat),
                    RlpItem::Bytes(sig.r),
                    RlpItem::Bytes(sig.s),
                ],
            ),
        ),
        encoding(UnsignedTransactionView::Legacy(t), c, None) == rlp_encoding(
            RlpItem::List(
                seq![
                    uint_item(t.nonce),
                    uint_item(t.gas_price),
                    uint_item(t.gas_limit),
                    action_item(t.action),
                    uint_item(t.value),
                    RlpItem::Bytes(t.data),
                    uint_item(c as nat),
                    uint_item(0),
                    uint_item(0),
                ],
            ),
        ),
{
    let base = seq![
        uint_item(t.nonce),
        uint_item(t.gas_price),
        uint_item(t.gas_limit),
        action_item(t.action),
        uint_item(t.value),
        RlpItem::Bytes(t.data),
    ];
    assert(base + seq![
        uint_item((sig.standard_v + 35 + 2 * c) as nat),
        RlpItem::Bytes(sig.r),
        RlpItem::Bytes(sig.s),
    ] =~= seq![
        uint_item(t.nonce),
        uint_item(t.gas_price),
        uint_item(t.gas_limit),
        action_item(t.action),
        uint_item(t.value),
        RlpItem::Bytes(t.data),
        uint_item((sig.standard_v + 35 + 2 * c) as nat),
        RlpItem::Bytes(sig.r),
        RlpItem::Bytes(sig.s),
    ]);
    assert(base + seq![uint_item(c as nat), uint_item(0), uint_item(0)] =~= seq![
        uint_item(t.nonce),
        uint_item(t.gas_price),
        uint_item(t.gas_limit),
        action_item(t.action),
        uint_item(t.value),
        RlpItem::Bytes(t.data),
        uint_item(c as nat),
        uint_item(0),
        uint_item(0),
    ]);
}

/// A type-1 transaction for chain `c` is the byte 1, then the RLP list of the chain
/// id, nonce, gas price, gas limit, action, value, data and access list, followed,
/// when signed, by the y-parity, `r` and `s`, in that order.
pub proof fn law_eip2930_encoding(t: Eip2930TransactionView, c: u64, sig: SignatureComponentsView)
    ensures
        encoding(UnsignedTransactionView::Eip2930(t), c, Some(sig)) == seq![1u8] + rlp_encoding(
            RlpItem::List(
                seq![
                    uint_item(c as nat),
                    uint_item(t.nonce),
                    uint_item(t.gas_price),
                    uint_item(t.gas_limit),
                    action_item(t.action),
                    uint_item(t.value),
                    RlpItem::Bytes(t.data),
                    access_list_item(t.access_list),
                    uint_item(sig.standard_v as nat),
                    RlpItem::Bytes(sig.r),
                    RlpItem::Bytes(sig.s),
                ],
            ),
        ),
        encoding(UnsignedTransactionView::Eip2930(t), c, None) == seq![1u8] + rlp_encoding(
            RlpItem::List(
                seq![
                    uint_item(c as nat),
                    uint_item(t.nonce),
                    uint_item(t.gas_price),
                    uint_item(t.gas_limit),
                    action_item(t.action),
                    uint_item(t.value),
                    RlpItem::Bytes(t.data),
                    access_list_item(t.access_list),
                ],
            ),
        ),
{
    let full = seq![
        uint_item(c as nat),
        uint_item(t.nonce),
        uint_item(t.gas_price),
        uint_item(t.gas_limit),
        action_item(t.action),
        uint_item(t.value),
        RlpItem::Bytes(t.data),
        access_list_item(t.access_list),
        uint_item(sig.standard_v as nat),
        RlpItem::Bytes(sig.r),
        RlpItem::Bytes(sig.s),
    ];
    let base = seq![
        uint_item(c as nat),
        uint_item(t.nonce),
        uint_item(t.gas_price),
        uint_item(t.gas_limit),
        action_item(t.action),
        uint_item(t.value),
        RlpItem::Bytes(t.data),
        access_list_item(t.access_list),
    ];
    assert(eip2930_items(t, c) + signature_items(Some(sig)) =~= full);
    assert(eip2930_items(t, c) + signature_items(None) =~= base);
}

/// A type-2 transaction for chain `c` is the byte 2, then the RLP list of the chain
/// id, nonce, priority fee, fee cap, gas limit, action, value, data and access
/// list, followed, when signed, by the y-parity, `r` and `s`, in that order.
pub proof fn law_eip1559_encoding(t: Eip1559TransactionView, c: u64, sig: SignatureComponentsView)
    ensures
        encoding(UnsignedTransactionView::Eip1559(t), c, Some(sig)) == seq![2u8] + rlp_encoding(
            RlpItem::List(
                seq![
                    uint_item(c as nat),
                    uint_item(t.nonce),
                    uint_item(t.max_priority_fee_per_gas),
                    uint_item(t.gas_price),
                    uint_item(t.gas_limit),
                    action_item(t.action),
                    uint_item(t.value),
                    RlpItem::Bytes(t.data),
                    access_list_item(t.access_list),
                    uint_item(sig.standard_v as nat),
                    RlpItem::Bytes(sig.r),
                    RlpItem::Bytes(sig.s),
                ],
            ),
        ),
        encoding(UnsignedTransactionView::Eip1559(t), c, None) == seq![2u8] + rlp_encoding(
            RlpItem::List(
                seq![
                    uint_item(c as nat),
                    uint_item(t.nonce),
                    uint_item(t.max_priority_fee_per_gas),
                    uint_item(t.gas_price),
                    uint_item(t.gas_limit),
                    action_item(t.action),
                    uint_item(t.value),
                    RlpItem::Bytes(t.data),
                    access_list_item(t.access_list),
                ],
            ),
        ),
{
    let full = seq![
        uint_item(c as nat),
        uint_item(t.nonce),
        uint_item(t.max_priority_fee_per_gas),
        uint_item(t.gas_price),
        uint_item(t.gas_limit),
        action_item(t.action),
        uint_item(t.value),
        RlpItem::Bytes(t.data),
        access_list_item(t.access_list),
        uint_item(sig.standard_v as nat),
        RlpItem::Bytes(sig.r),
        RlpItem::Bytes(sig.s),
    ];
    let base = seq![
        uint_item(c as nat),
        uint_item(t.nonce),
        uint_item(t.max_priority_fee_per_gas),
        uint_item(t.gas_price),
        uint_item(t.gas_limit),
        action_item(t.action),
        uint_item(t.value),
        RlpItem::Bytes(t.data),
        access_list_item(t.access_list),
    ];
    assert(eip1559_items(t, c) + signature_items(Some(sig)) =~= full);
    assert(eip1559_items(t, c) + signature_items(None) =~= base);
}

/// A deposit is the byte 0x7e, then the RLP list of its source hash, sender,
/// action, mint (zero when absent), value, gas limit, system flag (1 or 0) and
/// data, whatever the chain and signature.
pub proof fn law_deposit_encoding(
    t: DepositTransactionView,
    c: u64,
    sig: Option<SignatureComponentsView>,
)
    ensures
        encoding(UnsignedTransactionView::Deposit(t), c, sig) == seq![0x7eu8] + rlp_encoding(
            RlpItem::List(
                seq![
                    RlpItem::Bytes(t.source_hash),
                    RlpItem::Bytes(t.from),
                    action_item(t.action),
                    uint_item(
                        match t.mint {
                            Some(m) => m,
                            None => 0,
                        },
                    ),
                    uint_item(t.value),
                    uint_item(t.gas_limit),
                    uint_item(
                        if t.is_system_tx {
                            1
                        } else {
                            0
                        },
                    ),
                    RlpItem::Bytes(t.data),
                ],
            ),
        ),
{
}

/// The hash of a transaction is Keccak-256 of its encoding with its own signature;
/// unsigned, it is the hash that a signature for its chain signs.
pub proof fn law_tx_hash_uses_own_signature(tx: UnverifiedTransactionView)
    ensures
        tx.tx_hash() == keccak256(encoding(tx.unsigned, tx.chain_id, tx.signature)),
        tx.signature is None ==> tx.tx_hash() == tx.signing_hash(true),
{
}

/// The hash of a signed type-1 transaction covers its y-parity, `r` and `s`.
pub proof fn law_signed_eip2930_hash(
    t: Eip2930TransactionView,
    c: u64,
    sig: SignatureComponentsView,
    stored: Seq<u8>,
)
    ensures
        (UnverifiedTransactionView {
            unsigned: UnsignedTransactionView::Eip2930(t),
            signature: Some(sig),
            chain_id: c,
            hash: stored,
        }).tx_hash() == keccak256(
            seq![1u8] + rlp_encoding(
                RlpItem::List(
                    seq![
                        uint_item(c as nat),
                        uint_item(t.nonce),
                        uint_item(t.gas_price),
                        uint_item(t.gas_limit),
                        action_item(t.action),
                        uint_item(t.value),
                        RlpItem::Bytes(t.data),
                        access_list_item(t.access_list),
                        uint_item(sig.standard_v as nat),
                        RlpItem::Bytes(sig.r),
                        RlpItem::Bytes(sig.s),
                    ],
                ),
            ),
        ),
{
    law_eip2930_encoding(t, c, sig);
}

/// The hash of a signed type-2 transaction covers its y-parity, `r` and `s`.
pub proof fn law_signed_eip1559_hash(
    t: Eip1559TransactionView,
    c: u64,
    sig: SignatureComponentsView,
    stored: Seq<u8>,
)
    ensures
        (UnverifiedTransactionView {
            unsigned: UnsignedTransactionView::Eip1559(t),
            signature: Some(sig),
            chain_id: c,
            hash: stored,
        }).tx_hash() == keccak256(
            seq![2u8] + rlp_encoding(
                RlpItem::List(
                    seq![
                        uint_item(c as nat),
                        uint_item(t.nonce),
                        uint_item(t.max_priority_fee_per_gas),
                        uint_item(t.gas_price),
                        uint_item(t.gas_limit),
                        action_item(t.action),
                        uint_item(t.value),
                        RlpItem::Bytes(t.data),
                        access_list_item(t.access_list),
                        uint_item(sig.standard_v as nat),
                        RlpItem::Bytes(sig.r),
                        RlpItem::Bytes(sig.s),
                    ],
                ),
            ),
        ),
{
    law_eip1559_encoding(t, c, sig);
}

/// The hash of a signed legacy transaction covers its replay-protected `v`, `r`
/// and `s`.
pub proof fn law_signed_legacy_hash(
    t: LegacyTransactionView,
    c: u64,
    sig: SignatureComponentsView,
    stored: Seq<u8>,
)
    ensures
        (UnverifiedTransactionView {
            unsigned: UnsignedTransactionView::Legacy(t),
            signature: Some(sig),
            chain_id: c,
            hash: stored,
        }).tx_hash() == keccak256(
            rlp_encoding(
                RlpItem::List(
                    seq![
                        uint_item(t.nonce),
                        uint_item(t.gas_price),
                        uint_item(t.gas_limit),
                        action_item(t.action),
                        uint_item(t.value),
                        RlpItem::Bytes(t.data),
                        uint_item((sig.standard_v + 35 + 2 * c) as nat),
                        RlpItem::Bytes(sig.r),
                        RlpItem::Bytes(sig.s),
                    ],
                ),
            ),
        ),
{
    law_legacy_encoding(t, c, sig);
}

/// A signature signs, with the chain id, the unsigned encoding for the chain; a
/// legacy transaction without the chain id signs the plain list of its six fields.
pub proof fn law_signing_hash(tx: UnverifiedTransactionView)
    ensures
        tx.signing_hash(true) == keccak256(encoding(tx.unsigned, tx.chain_id, None)),
        !(tx.unsigned is Legacy) ==> tx.signing_hash(false) == keccak256(
            encoding(tx.unsigned, tx.chain_id, None),
        ),
        tx.unsigned matches UnsignedTransactionView::Legacy(t) ==> tx.signing_hash(false)
            == keccak256(
            rlp_encoding(
                RlpItem::List(
                    seq![
                        uint_item(t.nonce),
                        uint_item(t.gas_price),
                        uint_item(t.gas_limit),
                        action_item(t.action),
                        uint_item(t.value),
                        RlpItem::Bytes(t.data),
                    ],
                ),
            ),
        ),
{
}

/// The key recovered for either choice of the chain-id flag is the secp256k1
/// recovery of the 65 signature bytes over the signing hash for that same choice;
/// for a legacy transaction without the flag, that is the hash of the plain list
/// of its six fields.
pub proof fn law_recovered_key(tx: UnverifiedTransactionView, sig: SignatureComponentsView)
    requires
        tx.signature == Some(sig),
        signature_bytes(sig).len() == 65,
    ensures
        tx.recovered_key(true) == secp256k1_recovery(
            keccak256(encoding(tx.unsigned, tx.chain_id, None)),
            signature_bytes(sig),
        ),
        !(tx.unsigned is Legacy) ==> tx.recovered_key(false) == tx.recovered_key(true),
        tx.unsigned is Legacy ==> tx.recovered_key(false) == secp256k1_recovery(
            keccak256(
                rlp_encoding(
                    RlpItem::List(
                        seq![
                            uint_item(tx.unsigned->Legacy_0.nonce),
                            uint_item(tx.unsigned->Legacy_0.gas_price),
                            uint_item(tx.unsigned->Legacy_0.gas_limit),
                            action_item(tx.unsigned->Legacy_0.action),
                            uint_item(tx.unsigned->Legacy_0.value),
                            RlpItem::Bytes(tx.unsigned->Legacy_0.data),
                        ],
                    ),
                ),
            ),
            signature_bytes(sig),
        ),
{
    law_signing_hash(tx);
}

/// Without a signature, or with signature bytes that are not 65 long, no key is
/// recovered.
pub proof fn law_no_key_without_signature(tx: UnverifiedTransactionView, with_chain_id: bool)
    requires
        tx.signature is None || signature_bytes(tx.signature->0).len() != 65,
    ensures
        tx.recovered_key(with_chain_id) is None,
{
}

/// The base gas is 21000 for a call and 53000 for a creation, plus the data gas,
/// whatever the kind: two transactions with the same action and data have the
/// same base gas.
pub proof fn law_base_gas(tx: UnsignedTransactionView, other: UnsignedTransactionView)
    ensures
        tx.base_gas() == (if tx.action() is Some {
            21000nat
        } else {
            53000nat
        }) + data_gas(tx.data()),
        tx.base_gas() >= data_gas(tx.data()) + 21000,
        tx.action() == other.action() && tx.data() == other.data() ==> tx.base_gas()
            == other.base_gas(),
{
}

/// Legacy and type-1 transactions pay their gas-price field per gas, which is
/// also their priority fee; a type-2 transaction pays the smaller of its fee cap
/// and priority fee; a deposit pays the minimum gas price.
pub proof fn law_gas_price(tx: UnsignedTransactionView)
    ensures
        tx matches UnsignedTransactionView::Legacy(t) ==> tx.gas_price() == t.gas_price
            && tx.max_priority_fee_per_gas() == t.gas_price,
        tx matches UnsignedTransactionView::Eip2930(t) ==> tx.gas_price() == t.gas_price
            && tx.max_priority_fee_per_gas() == t.gas_price,
        tx matches UnsignedTransactionView::Eip1559(t) ==> tx.max_priority_fee_per_gas()
            == t.max_priority_fee_per_gas && tx.gas_price() <= t.gas_price && tx.gas_price()
            <= t.max_priority_fee_per_gas && (tx.gas_price() == t.gas_price || tx.gas_price()
            == t.max_priority_fee_per_gas),
        tx is Deposit ==> tx.gas_price() == MIN_GAS_PRICE && tx.max_priority_fee_per_gas()
            == MIN_GAS_PRICE,
        tx.may_cost() == if tx.gas_price() * tx.gas_limit() + tx.value() <= u256_max() {
            tx.gas_price() * tx.gas_limit() + tx.value()
        } else {
            u256_max()
        },
{
}

/// The accessors read the fields of each kind: legacy and deposit transactions
/// have no access list.
pub proof fn law_accessors(tx: UnsignedTransactionView)
    ensures
        tx matches UnsignedTransactionView::Legacy(t) ==> tx.data() == t.data && tx.action()
            == t.action && tx.value() == t.value && tx.gas_limit() == t.gas_limit && tx.nonce()
            == t.nonce && tx.access_list() == Seq::<AccessListItemView>::empty(),
        tx matches UnsignedTransactionView::Eip2930(t) ==> tx.data() == t.data && tx.action()
            == t.action && tx.value() == t.value && tx.gas_limit() == t.gas_limit && tx.nonce()
            == t.nonce && tx.access_list() == t.access_list,
        tx matches UnsignedTransactionView::Eip1559(t) ==> tx.data() == t.data && tx.action()
            == t.action && tx.value() == t.value && tx.gas_limit() == t.gas_limit && tx.nonce()
            == t.nonce && tx.access_list() == t.access_list,
        tx matches UnsignedTransactionView::Deposit(t) ==> tx.data() == t.data && tx.action()
            == t.action && tx.value() == t.value && tx.gas_limit() == t.gas_limit && tx.nonce()
            == t.nonce && tx.access_list() == Seq::<AccessListItemView>::empty(),
{
}

/// The address of a public key is the 20 bytes that follow the first 12 of its
/// Keccak-256 hash.
pub proof fn law_address_of(public: Seq<u8>)
    ensures
        address_of(public) == keccak256(public).subrange(12, 32),
{
}

} // verus!
