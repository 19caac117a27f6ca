use std::hash::{Hash, Hasher};
use sha3::Digest;
use rt_evm_model::error::{CryptoError, TypesError};
use rt_evm_model::primitives::{H160, H256, H512, U256};
use rt_evm_model::transaction::{
    address_from_hash, data_gas_cost, public_from_uncompressed, public_to_address,
    recover_intact_pub_key, AccessListItem, DepositTransaction,
    Eip1559Transaction, Eip2930Transaction, LegacyTransaction, SignatureComponents,
    SignedTransaction, TransactionAction, UnsignedTransaction, UnverifiedTransaction,
    MIN_GAS_PRICE,
};

fn hex(s: &str) -> Vec<u8> {
    (0..s.len() / 2).map(|i| u8::from_str_radix(&s[2 * i..2 * i + 2], 16).unwrap()).collect()
}

fn h160(s: &str) -> H160 {
    let mut a = [0u8; 20];
    a.copy_from_slice(&hex(s));
    H160(a)
}

fn h256(s: &str) -> H256 {
    let mut a = [0u8; 32];
    a.copy_from_slice(&hex(s));
    H256(a)
}

fn u(x: u64) -> U256 {
    U256::from_u64(x)
}

fn eth_u(x: U256) -> ethereum_types::U256 {
    ethereum_types::U256(x.0)
}

/// The example of EIP-155: nonce 9, gas price 20 gwei, gas limit 21000, to
/// 0x3535..35, value 1 ether, no data.
fn eip155_tx() -> LegacyTransaction {
    LegacyTransaction {
        nonce: u(9),
        gas_price: u(20_000_000_000),
        gas_limit: u(21000),
        action: TransactionAction::Call(h160("3535353535353535353535353535353535353535")),
        value: u(1_000_000_000_000_000_000),
        data: vec![],
    }
}

fn eip155_signature() -> SignatureComponents {
    SignatureComponents {
        r: hex("28ef61340bd939bc2195fe537567866003e1a15d3c71ff63e1590620aa636276"),
        s: hex("67cbe9d8997f761aecb703304b3800ccf555c9f3dc64214b297fb1966a3b6d83"),
        standard_v: 0,
    }
}

fn sample_access_list() -> Vec<AccessListItem> {
    vec![AccessListItem {
        address: h160("00000000000000000000000000000000000000aa"),
        storage_keys: vec![h256(
            "0000000000000000000000000000000000000000000000000000000000000001",
        )],
    }]
}

fn sample_1559() -> Eip1559Transaction {
    Eip1559Transaction {
        nonce: u(3),
        max_priority_fee_per_gas: u(7),
        gas_price: u(100),
        gas_limit: u(50_000),
        action: TransactionAction::Call(h160("1111111111111111111111111111111111111111")),
        value: u(12345),
        data: vec![1, 0, 2],
        access_list: sample_access_list(),
    }
}

fn sample_deposit() -> DepositTransaction {
    DepositTransaction {
        nonce: u(0),
        source_hash: h256("0101010101010101010101010101010101010101010101010101010101010101"),
        from: h160("2222222222222222222222222222222222222222"),
        action: TransactionAction::Create,
        mint: Some(u(5)),
        value: u(6),
        gas_limit: u(70_000),
        is_system_tx: false,
        data: vec![0xfe],
    }
}

fn secret_key() -> libsecp256k1::SecretKey {
    let mut k = [0u8; 32];
    k.copy_from_slice(&hex("4646464646464646464646464646464646464646464646464646464646464646"));
    libsecp256k1::SecretKey::parse(&k).unwrap()
}

fn sign(hash: &H256) -> SignatureComponents {
    let (sig, recid) = libsecp256k1::sign(&libsecp256k1::Message::parse(&hash.0), &secret_key());
    let bytes = sig.serialize();
    SignatureComponents { r: bytes[..32].to_vec(), s: bytes[32..].to_vec(), standard_v: recid.serialize() }
}

#[test]
fn data_gas_cost_counts_zero_and_other_bytes() {
    assert_eq!(data_gas_cost(&[]), 0);
    assert_eq!(data_gas_cost(&[0, 1, 0]), 4 + 68 + 4);
    assert_eq!(data_gas_cost(&[0xff; 10]), 680);
}

#[test]
fn data_gas_cost_is_additive() {
    let a = [0u8, 7, 0, 0];
    let b = [9u8, 0];
    let ab: Vec<u8> = a.iter().chain(b.iter()).cloned().collect();
    assert_eq!(data_gas_cost(&ab), data_gas_cost(&a) + data_gas_cost(&b));
}

#[test]
fn base_gas_of_call_and_creation() {
    let mut tx = UnsignedTransaction::Legacy(LegacyTransaction { data: vec![0, 1], ..eip155_tx() });
    assert_eq!(tx.base_gas(), 21_000 + 4 + 68);
    tx.set_action(TransactionAction::Create);
    assert_eq!(tx.base_gas(), 53_000 + 4 + 68);
}

#[test]
fn type_numbers_and_kinds() {
    let kinds = [
        UnsignedTransaction::Legacy(eip155_tx()),
        UnsignedTransaction::Eip2930(Eip2930Transaction {
            nonce: u(1),
            gas_price: u(2),
            gas_limit: u(3),
            action: TransactionAction::Create,
            value: u(4),
            data: vec![],
            access_list: vec![],
        }),
        UnsignedTransaction::Eip1559(sample_1559()),
        UnsignedTransaction::Deposit(sample_deposit()),
    ];
    let expected = [0u64, 1, 2, 0x7e];
    for (tx, t) in kinds.iter().zip(expected.iter()) {
        assert_eq!(tx.type_(), *t);
        assert_eq!(tx.as_u8() as u64, *t);
        assert_eq!(tx.is_legacy(), *t == 0);
        assert_eq!(tx.is_eip1559(), *t == 2);
        assert_eq!(tx.is_deposit(), *t == 0x7e);
    }
}

#[test]
fn gas_prices_of_each_kind() {
    let legacy = UnsignedTransaction::Legacy(eip155_tx());
    assert_eq!(legacy.gas_price(), u(20_000_000_000));
    assert_eq!(legacy.max_priority_fee_per_gas(), u(20_000_000_000));
    let t1559 = UnsignedTransaction::Eip1559(sample_1559());
    assert_eq!(t1559.gas_price(), u(7));
    assert_eq!(t1559.max_priority_fee_per_gas(), u(7));
    let cheap_cap = UnsignedTransaction::Eip1559(Eip1559Transaction { gas_price: u(5), ..sample_1559() });
    assert_eq!(cheap_cap.gas_price(), u(5));
    let deposit = UnsignedTransaction::Deposit(sample_deposit());
    assert_eq!(deposit.gas_price(), u(MIN_GAS_PRICE));
    assert_eq!(deposit.max_priority_fee_per_gas(), u(MIN_GAS_PRICE));
}

#[test]
fn may_cost_exact_and_saturated() {
    let tx = UnsignedTransaction::Legacy(LegacyTransaction {
        gas_price: u(2),
        gas_limit: u(3),
        value: u(4),
        ..eip155_tx()
    });
    assert_eq!(tx.may_cost(), u(10));
    let big = UnsignedTransaction::Legacy(LegacyTransaction {
        gas_price: U256::max_value(),
        gas_limit: u(2),
        value: u(0),
        ..eip155_tx()
    });
    assert_eq!(big.may_cost(), U256::max_value());
    let big_value = UnsignedTransaction::Legacy(LegacyTransaction {
        gas_price: u(1),
        gas_limit: u(1),
        value: U256::max_value(),
        ..eip155_tx()
    });
    assert_eq!(big_value.may_cost(), U256::max_value());
    let wide = UnsignedTransaction::Legacy(LegacyTransaction {
        gas_price: U256([0, 1, 0, 0]),
        gas_limit: U256([0, 1, 0, 0]),
        value: u(1),
        ..eip155_tx()
    });
    assert_eq!(wide.may_cost(), U256([1, 0, 1, 0]));
}

#[test]
fn setters_and_getters() {
    let mut tx = UnsignedTransaction::Eip1559(sample_1559());
    assert_eq!(tx.data(), &[1, 0, 2][..]);
    tx.set_data(vec![9, 9]);
    assert_eq!(tx.data(), &[9, 9][..]);
    assert_eq!(tx.to(), Some(h160("1111111111111111111111111111111111111111")));
    tx.set_action(TransactionAction::Create);
    assert_eq!(tx.to(), None);
    assert_eq!(*tx.action(), TransactionAction::Create);
    assert_eq!(*tx.nonce(), u(3));
    assert_eq!(*tx.value(), u(12345));
    assert_eq!(*tx.gas_limit(), u(50_000));
    assert_eq!(tx.access_list(), sample_access_list());
    assert_eq!(UnsignedTransaction::Legacy(eip155_tx()).access_list(), vec![]);
    assert_eq!(UnsignedTransaction::Deposit(sample_deposit()).access_list(), vec![]);
}

#[test]
fn get_legacy_and_get_to() {
    let legacy = UnsignedTransaction::Legacy(eip155_tx());
    assert_eq!(legacy.get_legacy(), Some(eip155_tx()));
    assert_eq!(UnsignedTransaction::Eip1559(sample_1559()).get_legacy(), None);
    assert_eq!(eip155_tx().get_to(), Some(h160("3535353535353535353535353535353535353535")));
    assert_eq!(sample_deposit().get_to(), None);
    assert_eq!(sample_1559().get_to(), Some(h160("1111111111111111111111111111111111111111")));
    let t2930 = Eip2930Transaction {
        nonce: u(1),
        gas_price: u(2),
        gas_limit: u(3),
        action: TransactionAction::Create,
        value: u(4),
        data: vec![],
        access_list: vec![],
    };
    assert_eq!(t2930.get_to(), None);
}

#[test]
fn signature_components_bytes() {
    let bytes: Vec<u8> = (0u8..65).collect();
    let sig = SignatureComponents::from(bytes.clone());
    assert_eq!(sig.r, (0u8..32).collect::<Vec<u8>>());
    assert_eq!(sig.s, (32u8..64).collect::<Vec<u8>>());
    assert_eq!(sig.standard_v, 64);
    assert_eq!(sig.as_bytes(), bytes);
    assert_eq!(sig.len(), 65);
    assert_eq!(sig.clone().into_bytes(), bytes);
    assert_eq!(SignatureComponents::ETHEREUM_TX_LEN, 65);
    assert!(!sig.is_eth_sig());
    assert!(eip155_signature().is_eth_sig());
}

#[test]
fn replay_protection_roundtrip() {
    let sig = SignatureComponents { standard_v: 1, ..eip155_signature() };
    assert_eq!(sig.add_chain_replay_protection(Some(1)), 38);
    assert_eq!(sig.add_chain_replay_protection(None), 28);
    assert_eq!(eip155_signature().add_chain_replay_protection(Some(1)), 37);
    assert_eq!(SignatureComponents::extract_standard_v(38), Some(1));
    assert_eq!(SignatureComponents::extract_chain_id(38), Some(1));
    assert_eq!(SignatureComponents::extract_standard_v(37), Some(0));
    assert_eq!(SignatureComponents::extract_chain_id(1_000_035 + 1), Some(500_000));
    assert_eq!(SignatureComponents::extract_standard_v(34), None);
    assert_eq!(SignatureComponents::extract_chain_id(27), None);
}

#[test]
fn eip155_signing_payload() {
    let utx = UnverifiedTransaction {
        unsigned: UnsignedTransaction::Legacy(eip155_tx()),
        signature: None,
        chain_id: 1,
        hash: H256::zero(),
    };
    assert_eq!(
        utx.unsigned.encode(1, None),
        hex("ec098504a817c800825208943535353535353535353535353535353535353535880de0b6b3a764000080018080")
    );
    assert_eq!(
        utx.signature_hash(true),
        h256("daf5a779ae972f972197303d7b574746c7ef83eadac0f2791ad23db92e4c8e53")
    );
}

#[test]
fn eip155_signed_encoding() {
    let encoded = UnsignedTransaction::Legacy(eip155_tx()).encode(1, Some(eip155_signature()));
    assert_eq!(
        encoded,
        hex("f86c098504a817c800825208943535353535353535353535353535353535353535880de0b6b3a76400008025a028ef61340bd939bc2195fe537567866003e1a15d3c71ff63e1590620aa636276a067cbe9d8997f761aecb703304b3800ccf555c9f3dc64214b297fb1966a3b6d83")
    );
}

#[test]
fn legacy_hash_matches_ethereum_crate() {
    let tx = eip155_tx();
    let message = ethereum::LegacyTransactionMessage {
        nonce: eth_u(tx.nonce),
        gas_price: eth_u(tx.gas_price),
        gas_limit: eth_u(tx.gas_limit),
        action: ethereum::TransactionAction::Call(ethereum_types::H160(
            h160("3535353535353535353535353535353535353535").0,
        )),
        value: eth_u(tx.value),
        input: vec![],
        chain_id: None,
    };
    let utx = UnverifiedTransaction {
        unsigned: UnsignedTransaction::Legacy(tx),
        signature: None,
        chain_id: 1,
        hash: H256::zero(),
    };
    assert_eq!(utx.signature_hash(false).0, message.hash().0);
    let with_chain = ethereum::LegacyTransactionMessage { chain_id: Some(1), ..message };
    assert_eq!(utx.signature_hash(true).0, with_chain.hash().0);
}

#[test]
fn eip1559_hashes_match_ethereum_crate() {
    let tx = sample_1559();
    let access_list = vec![ethereum::AccessListItem {
        address: ethereum_types::H160(tx.access_list[0].address.0),
        storage_keys: vec![ethereum_types::H256(tx.access_list[0].storage_keys[0].0)],
    }];
    let message = ethereum::EIP1559TransactionMessage {
        chain_id: 5,
        nonce: eth_u(tx.nonce),
        max_priority_fee_per_gas: eth_u(tx.max_priority_fee_per_gas),
        max_fee_per_gas: eth_u(tx.gas_price),
        gas_limit: eth_u(tx.gas_limit),
        action: ethereum::TransactionAction::Call(ethereum_types::H160(
            h160("1111111111111111111111111111111111111111").0,
        )),
        value: eth_u(tx.value),
        input: tx.data.clone(),
        access_list: access_list.clone(),
    };
    let mut utx = UnverifiedTransaction {
        unsigned: UnsignedTransaction::Eip1559(tx.clone()),
        signature: None,
        chain_id: 5,
        hash: H256::zero(),
    };
    let signing = utx.signature_hash(true);
    assert_eq!(signing.0, message.hash().0);
    assert_eq!(utx.signature_hash(false), signing);
    let sig = sign(&signing);
    utx.signature = Some(sig.clone());
    let mut r = [0u8; 32];
    r.copy_from_slice(&sig.r);
    let mut s = [0u8; 32];
    s.copy_from_slice(&sig.s);
    let signed = ethereum::EIP1559Transaction {
        chain_id: 5,
        nonce: eth_u(tx.nonce),
        max_priority_fee_per_gas: eth_u(tx.max_priority_fee_per_gas),
        max_fee_per_gas: eth_u(tx.gas_price),
        gas_limit: eth_u(tx.gas_limit),
        action: message.action,
        value: eth_u(tx.value),
        input: tx.data.clone(),
        access_list,
        odd_y_parity: sig.standard_v == 1,
        r: ethereum_types::H256(r),
        s: ethereum_types::H256(s),
    };
    if r[0] != 0 && s[0] != 0 {
        assert_eq!(utx.get_hash().0, signed.hash().0);
    }
    let encoded = utx.unsigned.encode(5, Some(sig));
    assert_eq!(encoded[0], 2);
}

#[test]
fn eip2930_hash_matches_ethereum_crate() {
    let tx = Eip2930Transaction {
        nonce: u(1),
        gas_price: u(2),
        gas_limit: u(30_000),
        action: TransactionAction::Create,
        value: u(0),
        data: vec![0x60, 0x00],
        access_list: sample_access_list(),
    };
    let message = ethereum::EIP2930TransactionMessage {
        chain_id: 9,
        nonce: eth_u(tx.nonce),
        gas_price: eth_u(tx.gas_price),
        gas_limit: eth_u(tx.gas_limit),
        action: ethereum::TransactionAction::Create,
        value: eth_u(tx.value),
        input: tx.data.clone(),
        access_list: vec![ethereum::AccessListItem {
            address: ethereum_types::H160(tx.access_list[0].address.0),
            storage_keys: vec![ethereum_types::H256(tx.access_list[0].storage_keys[0].0)],
        }],
    };
    let utx = UnverifiedTransaction {
        unsigned: UnsignedTransaction::Eip2930(tx),
        signature: None,
        chain_id: 9,
        hash: H256::zero(),
    };
    assert_eq!(utx.signature_hash(true).0, message.hash().0);
    assert_eq!(utx.unsigned.encode(9, None)[0], 1);
}

#[test]
fn hash_calc_and_check() {
    let utx = UnverifiedTransaction {
        unsigned: UnsignedTransaction::Legacy(eip155_tx()),
        signature: Some(eip155_signature()),
        chain_id: 1,
        hash: H256::zero(),
    };
    match utx.check_hash() {
        Err(TypesError::TxHashMismatch { origin, calc }) => {
            assert_eq!(origin, H256::zero());
            assert_eq!(calc, utx.get_hash());
        }
        other => panic!("unexpected {:?}", other),
    }
    let fixed = utx.clone().calc_hash();
    assert_eq!(fixed.hash, utx.get_hash());
    assert_eq!(fixed.check_hash(), Ok(()));
    let full: [u8; 32] = {
        sha3::Keccak256::digest(UnsignedTransaction::Legacy(eip155_tx()).encode(1, Some(eip155_signature()))).into()
    };
    assert_eq!(fixed.hash, H256(full));
}

#[test]
fn recover_public_of_eip155_example() {
    let utx = UnverifiedTransaction {
        unsigned: UnsignedTransaction::Legacy(eip155_tx()),
        signature: Some(eip155_signature()),
        chain_id: 1,
        hash: H256::zero(),
    };
    let public = utx.recover_public(true).unwrap();
    let expected = libsecp256k1::PublicKey::from_secret_key(&secret_key()).serialize();
    assert_eq!(public.0[..], expected[1..]);
    assert_eq!(recover_intact_pub_key(&public).0[..], expected[..]);
    assert_eq!(public_to_address(&public), h160("9d8a62f656a8d1615c1294fd71e9cfb3e4855a4f"));
}

#[test]
fn recover_public_errors() {
    let unsigned = UnverifiedTransaction {
        unsigned: UnsignedTransaction::Legacy(eip155_tx()),
        signature: None,
        chain_id: 1,
        hash: H256::zero(),
    };
    assert_eq!(unsigned.recover_public(true), Err(TypesError::MissingSignature));
    let short = UnverifiedTransaction {
        signature: Some(SignatureComponents { r: vec![1; 31], ..eip155_signature() }),
        ..unsigned.clone()
    };
    assert_eq!(
        short.recover_public(true),
        Err(TypesError::Crypto(CryptoError::InvalidSignatureLength))
    );
    let bad_v = UnverifiedTransaction {
        signature: Some(SignatureComponents { standard_v: 5, ..eip155_signature() }),
        ..unsigned
    };
    assert!(matches!(
        bad_v.recover_public(true),
        Err(TypesError::Crypto(CryptoError::Secp256k1(_)))
    ));
}

#[test]
fn signed_transaction_from_unverified() {
    let utx = UnverifiedTransaction {
        unsigned: UnsignedTransaction::Legacy(eip155_tx()),
        signature: Some(eip155_signature()),
        chain_id: 1,
        hash: H256::zero(),
    };
    let stx = SignedTransaction::try_from(utx.clone()).unwrap();
    assert_eq!(stx.sender, h160("9d8a62f656a8d1615c1294fd71e9cfb3e4855a4f"));
    assert_eq!(stx.public, Some(utx.recover_public(true).unwrap()));
    assert_eq!(stx.transaction.hash, utx.get_hash());
    assert_eq!(stx.transaction.check_hash(), Ok(()));
    assert_eq!(stx.type_(), 0);
    assert_eq!(stx.get_to(), Some(h160("3535353535353535353535353535353535353535")));
    let unsigned = UnverifiedTransaction { signature: None, ..utx };
    assert_eq!(SignedTransaction::try_from(unsigned), Err(TypesError::Unsigned));
}

#[test]
fn signed_typed_transaction_sender() {
    let mut utx = UnverifiedTransaction {
        unsigned: UnsignedTransaction::Eip1559(sample_1559()),
        signature: None,
        chain_id: 5,
        hash: H256::zero(),
    };
    utx.signature = Some(sign(&utx.signature_hash(true)));
    let stx = SignedTransaction::try_from(utx).unwrap();
    assert_eq!(stx.sender, h160("9d8a62f656a8d1615c1294fd71e9cfb3e4855a4f"));
    assert_eq!(stx.type_(), 2);
}

#[test]
fn deposit_transaction() {
    let deposit = sample_deposit();
    let stx = SignedTransaction::from_deposit_tx(deposit.clone(), 7);
    assert_eq!(stx.sender, deposit.from);
    assert_eq!(stx.public, None);
    assert_eq!(stx.type_(), 0x7e);
    assert_eq!(stx.get_to(), None);
    assert_eq!(stx.transaction.check_hash(), Ok(()));
    let encoded = UnsignedTransaction::Deposit(deposit).encode(7, None);
    assert_eq!(encoded[0], 0x7e);
    assert_eq!(stx.transaction.recover_public(true), Err(TypesError::MissingSignature));
}

#[test]
fn deposit_encoding_fields() {
    let encoded = UnsignedTransaction::Deposit(sample_deposit()).encode(7, None);
    let mut expected = vec![0x7e, 0xf8, 0x40, 0xa0];
    expected.extend_from_slice(&[0x01; 32]);
    expected.push(0x94);
    expected.extend_from_slice(&[0x22; 20]);
    expected.extend_from_slice(&[0x80, 0x05, 0x06, 0x83, 0x01, 0x11, 0x70, 0x80, 0x81, 0xfe]);
    assert_eq!(expected.len() - 3, 0x40);
    assert_eq!(encoded, expected);
}

#[test]
fn public_key_helpers() {
    let public = H512([7u8; 64]);
    let intact = recover_intact_pub_key(&public);
    assert_eq!(intact.0[0], 4);
    assert_eq!(intact.0[1..], [7u8; 64][..]);
    let address = public_to_address(&public);
    let full: [u8; 32] = {
        sha3::Keccak256::digest([7u8; 64]).into()
    };
    assert_eq!(address.0[..], full[12..]);
}

#[test]
fn address_and_public_from_parts() {
    let mut hash = [0u8; 32];
    for (i, b) in hash.iter_mut().enumerate() {
        *b = i as u8;
    }
    let address = address_from_hash(&H256(hash));
    assert_eq!(address.0[..], hash[12..]);
    let mut key = [0u8; 65];
    for (i, b) in key.iter_mut().enumerate() {
        *b = (i as u8).wrapping_mul(3);
    }
    key[0] = 4;
    let public = public_from_uncompressed(&key);
    assert_eq!(public.0[..], key[1..]);
    assert_eq!(recover_intact_pub_key(&public).0, key);
}

#[test]
fn set_data_keeps_other_fields() {
    let original = UnsignedTransaction::Deposit(sample_deposit());
    let mut tx = original.clone();
    tx.set_data(vec![1, 2, 3]);
    assert_eq!(tx.data(), &[1, 2, 3][..]);
    assert_eq!(tx.type_(), original.type_());
    assert_eq!(tx.action(), original.action());
    assert_eq!(tx.value(), original.value());
    assert_eq!(tx.gas_limit(), original.gas_limit());
    assert_eq!(tx.nonce(), original.nonce());
    assert_eq!(tx.gas_price(), original.gas_price());
}

#[test]
fn gas_price_never_above_priority_fee() {
    for tx in [
        UnsignedTransaction::Legacy(eip155_tx()),
        UnsignedTransaction::Eip1559(sample_1559()),
        UnsignedTransaction::Eip1559(Eip1559Transaction { gas_price: u(1), ..sample_1559() }),
        UnsignedTransaction::Deposit(sample_deposit()),
    ] {
        let price = ethereum_types::U256(tx.gas_price().0);
        let fee = ethereum_types::U256(tx.max_priority_fee_per_gas().0);
        assert!(price <= fee);
    }
}

fn finish<T: Hash>(x: &T) -> u64 {
    let mut h = std::collections::hash_map::DefaultHasher::new();
    x.hash(&mut h);
    h.finish()
}

#[test]
fn legacy_hash_feeds_chosen_fields() {
    let tx = eip155_tx();
    let mut h = std::collections::hash_map::DefaultHasher::new();
    eth_u(tx.nonce).hash(&mut h);
    eth_u(tx.gas_price).hash(&mut h);
    eth_u(tx.gas_limit).hash(&mut h);
    eth_u(tx.value).hash(&mut h);
    tx.data.hash(&mut h);
    ethereum_types::H160([0x35; 20]).hash(&mut h);
    assert_eq!(finish(&tx), h.finish());
    let create = LegacyTransaction { action: TransactionAction::Create, ..eip155_tx() };
    let mut h2 = std::collections::hash_map::DefaultHasher::new();
    eth_u(tx.nonce).hash(&mut h2);
    eth_u(tx.gas_price).hash(&mut h2);
    eth_u(tx.gas_limit).hash(&mut h2);
    eth_u(tx.value).hash(&mut h2);
    tx.data.hash(&mut h2);
    assert_eq!(finish(&create), h2.finish());
}

#[test]
fn typed_hash_feeds_access_addresses_only() {
    let tx = sample_1559();
    let mut h = std::collections::hash_map::DefaultHasher::new();
    eth_u(tx.nonce).hash(&mut h);
    eth_u(tx.max_priority_fee_per_gas).hash(&mut h);
    eth_u(tx.gas_price).hash(&mut h);
    eth_u(tx.gas_limit).hash(&mut h);
    eth_u(tx.value).hash(&mut h);
    tx.data.hash(&mut h);
    ethereum_types::H160([0x11; 20]).hash(&mut h);
    ethereum_types::H160(tx.access_list[0].address.0).hash(&mut h);
    assert_eq!(finish(&tx), h.finish());
    let other_keys = Eip1559Transaction {
        access_list: vec![AccessListItem { storage_keys: vec![], ..sample_access_list()[0].clone() }],
        ..sample_1559()
    };
    assert_eq!(finish(&other_keys), finish(&tx));
}

#[test]
fn deposit_hash_feeds_its_fields() {
    let tx = sample_deposit();
    let mut h = std::collections::hash_map::DefaultHasher::new();
    eth_u(tx.nonce).hash(&mut h);
    ethereum_types::H256(tx.source_hash.0).hash(&mut h);
    ethereum_types::H160(tx.from.0).hash(&mut h);
    tx.mint.map(eth_u).hash(&mut h);
    eth_u(tx.value).hash(&mut h);
    eth_u(tx.gas_limit).hash(&mut h);
    tx.is_system_tx.hash(&mut h);
    tx.data.hash(&mut h);
    assert_eq!(finish(&tx), h.finish());
}

#[test]
fn data_gas_cost_ignores_order() {
    assert_eq!(data_gas_cost(&[0, 0, 5, 9, 0]), data_gas_cost(&[9, 0, 5, 0, 0]));
    assert_eq!(data_gas_cost(&[0, 0, 5, 9, 0]), 3 * 4 + 2 * 68);
}

#[test]
fn encodability_of_signed_legacy() {
    let utx = UnverifiedTransaction {
        unsigned: UnsignedTransaction::Legacy(eip155_tx()),
        signature: Some(eip155_signature()),
        chain_id: 1,
        hash: H256::zero(),
    };
    assert!(utx.is_encodable());
    let limit = (u64::MAX - 35) / 2;
    assert!(UnverifiedTransaction { chain_id: limit, ..utx.clone() }.is_encodable());
    assert!(!UnverifiedTransaction { chain_id: limit + 1, ..utx.clone() }.is_encodable());
    let odd = UnverifiedTransaction {
        signature: Some(SignatureComponents { standard_v: 1, ..eip155_signature() }),
        chain_id: limit,
        ..utx.clone()
    };
    assert!(!odd.is_encodable());
    assert!(UnverifiedTransaction { signature: None, chain_id: u64::MAX, ..utx.clone() }.is_encodable());
    let typed = UnverifiedTransaction {
        unsigned: UnsignedTransaction::Eip1559(sample_1559()),
        chain_id: u64::MAX,
        ..utx
    };
    assert!(typed.is_encodable());
}

#[test]
fn ethereum_length_signature() {
    let sig = SignatureComponents { r: vec![1; 32], s: vec![2; 32], standard_v: 1 };
    assert_eq!(sig.len(), SignatureComponents::ETHEREUM_TX_LEN);
    assert_eq!(sig.as_bytes().len(), sig.len());
}
