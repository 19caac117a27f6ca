use rt_evm_model::executor::{
    ExecutorContext, ExitError, ExitReason, ExitSucceed, TxResp, WORLD_STATE_META_KEY,
};
use rt_evm_model::primitives::{H160, U256};
use rt_evm_model::transaction::MIN_GAS_PRICE;

#[test]
fn invalid_nonce_response() {
    let resp = TxResp::invalid_nonce(21_000, U256::from_u64(42));
    assert_eq!(resp.exit_reason, ExitReason::Error(ExitError::Other("invalid nonce".to_string())));
    assert_eq!(resp.gas_used, 21_000);
    assert_eq!(resp.remain_gas, 0);
    assert_eq!(resp.fee_cost, U256::from_u64(42));
    assert!(!resp.removed);
    assert!(resp.ret.is_empty());
    assert!(resp.logs.is_empty());
    assert_eq!(resp.code_address, None);
}

#[test]
fn default_response_stopped() {
    let resp = TxResp::default();
    assert_eq!(resp.exit_reason, ExitReason::Succeed(ExitSucceed::Stopped));
    assert_eq!(resp.gas_used, 0);
    assert_eq!(resp.fee_cost, U256::zero());
    assert!(!resp.removed);
}

#[test]
fn context_from_block() {
    let proposer = H160([0x42; 20]);
    let ctx = ExecutorContext::from_block(
        10,
        &[],
        proposer,
        1_700_000_000,
        5,
        U256::from_u64(30_000_000),
        U256::from_u64(7),
    );
    assert_eq!(ctx.block_number, U256::from_u64(10));
    let empty_hash: Vec<u8> = (0..32)
        .map(|i| {
            u8::from_str_radix(
                &"c5d2460186f7233c927e7db2dcc703c0e500b653ca82273b7bfad8045d85a470"[2 * i..2 * i + 2],
                16,
            )
            .unwrap()
        })
        .collect();
    assert_eq!(ctx.block_hash.0.to_vec(), empty_hash);
    assert_eq!(ctx.block_coinbase, proposer);
    assert_eq!(ctx.origin, proposer);
    assert_eq!(ctx.block_timestamp, U256::from_u64(1_700_000_000));
    assert_eq!(ctx.chain_id, U256::from_u64(5));
    assert_eq!(ctx.difficulty, U256::one());
    assert_eq!(ctx.gas_price, U256::from_u64(MIN_GAS_PRICE));
    assert_eq!(ctx.block_gas_limit, U256::from_u64(30_000_000));
    assert_eq!(ctx.block_base_fee_per_gas, U256::from_u64(7));
    assert!(ctx.logs.is_empty());
    assert_eq!(WORLD_STATE_META_KEY, [0u8]);
}

#[test]
fn default_context_is_zero() {
    let ctx = ExecutorContext::default();
    assert_eq!(ctx.block_number, U256::zero());
    assert_eq!(ctx.difficulty, U256::zero());
    assert!(ctx.logs.is_empty());
}
