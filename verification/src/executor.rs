//! What the executor reports for a block and for each transaction, and the block
//! context it executes in.
use vstd::prelude::*;

use crate::crypto::{keccak256, keccak_digest};
use crate::primitives::{MerkleRoot, H160, H256, U256};
use crate::transaction::MIN_GAS_PRICE;

verus! {

/// The key under which the world-state metadata is stored.
pub const WORLD_STATE_META_KEY: [u8; 1] = [0u8];

/// How a successful execution ended.
#[derive(Clone, Copy, Debug, PartialEq, Eq)]
pub enum ExitSucceed {
    Stopped,
    Returned,
    Suicided,
}

/// How a reverted execution ended.
#[derive(Clone, Copy, Debug, PartialEq, Eq)]
pub enum ExitRevert {
    Reverted,
}

/// Why an execution failed.
#[derive(Clone, Debug, PartialEq, Eq)]
pub enum ExitError {
    StackUnderflow,
    StackOverflow,
    InvalidJump,
    InvalidRange,
    DesignatedInvalid,
    CallTooDeep,
    CreateCollision,
    CreateContractLimit,
    /// An invalid opcode.
    InvalidCode(u8),
    OutOfOffset,
    OutOfGas,
    OutOfFund,
    PCUnderflow,
    CreateEmpty,
    Other(String),
    MaxNonce,
}

/// Why an execution stopped the machine.
#[derive(Clone, Debug, PartialEq, Eq)]
pub enum ExitFatal {
    NotSupported,
    UnhandledInterrupt,
    CallErrorAsFatal(ExitError),
    Other(String),
}

/// How an execution ended.
#[derive(Clone, Debug, PartialEq, Eq)]
pub enum ExitReason {
    Succeed(ExitSucceed),
    Error(ExitError),
    Revert(ExitRevert),
    Fatal(ExitFatal),
}

/// A log entry emitted by a contract.
#[derive(Clone, Debug, PartialEq, Eq)]
pub struct Log {
    pub address: H160,
    pub topics: Vec<H256>,
    pub data: Vec<u8>,
}

/// The result of executing a block.
#[derive(Clone, Debug, PartialEq, Eq)]
pub struct ExecResp {
    pub state_root: MerkleRoot,
    pub transaction_root: MerkleRoot,
    pub receipt_root: MerkleRoot,
    pub gas_used: u64,
    /// The sum, over the transactions, of the gas used times the gas price.
    pub fee_used: U256,
    pub txs_resp: Vec<TxResp>,
}

/// The result of executing one transaction.
#[derive(Clone, Debug, PartialEq, Eq)]
pub struct TxResp {
    pub exit_reason: ExitReason,
    pub ret: Vec<u8>,
    pub gas_used: u64,
    pub remain_gas: u64,
    pub fee_cost: U256,
    pub logs: Vec<Log>,
    pub code_address: Option<H256>,
    pub removed: bool,
}

impl TxResp {
    /// The result of a transaction refused for its nonce: an error exit with the
    /// message "invalid nonce", the given gas and fee, and nothing else.
    pub fn invalid_nonce(gas_used: u64, fee_cost: U256) -> (r: TxResp)
        ensures
            r.exit_reason matches ExitReason::Error(ExitError::Other(msg)) && msg@
                == "invalid nonce"@,
            r.gas_used == gas_used,
            r.remain_gas == 0,
            r.fee_cost == fee_cost,
            !r.removed,
            r.ret@.len() == 0,
            r.logs@.len() == 0,
            r.code_address is None,
    {
        TxResp {
            exit_reason: ExitReason::Error(ExitError::Other("invalid nonce".to_owned())),
            gas_used,
            remain_gas: 0,
            fee_cost,
            removed: false,
            ret: Vec::new(),
            logs: Vec::new(),
            code_address: None,
        }
    }
}

impl Default for TxResp {
    /// A result that stopped successfully, with nothing used, returned or logged.
    fn default() -> (r: TxResp)
        ensures
            r.exit_reason == ExitReason::Succeed(ExitSucceed::Stopped),
            r.gas_used == 0,
            r.remain_gas == 0,
            r.fee_cost@ == 0,
            !r.removed,
            r.ret@.len() == 0,
            r.logs@.len() == 0,
            r.code_address is None,
    {
        TxResp {
            exit_reason: ExitReason::Succeed(ExitSucceed::Stopped),
            gas_used: 0,
            remain_gas: 0,
            fee_cost: U256::zero(),
            removed: false,
            ret: Vec::new(),
            logs: Vec::new(),
            code_address: None,
        }
    }
}

/// The block context that transactions execute in.
#[derive(Clone, Debug, Default, PartialEq, Eq)]
pub struct ExecutorContext {
    pub block_number: U256,
    pub block_hash: H256,
    pub block_coinbase: H160,
    pub block_timestamp: U256,
    pub chain_id: U256,
    pub difficulty: U256,
    pub origin: H160,
    pub gas_price: U256,
    pub block_gas_limit: U256,
    pub block_base_fee_per_gas: U256,
    pub logs: Vec<Log>,
}

impl ExecutorContext {
    /// The context of a block (a proposal or a header): its hash is Keccak-256 of
    /// its encoding `encoded`; its proposer is both coinbase and origin; the gas
    /// price is the minimum gas price; the difficulty is one; there are no logs.
    pub fn from_block(
        number: u64,
        encoded: &[u8],
        proposer: H160,
        timestamp: u64,
        chain_id: u64,
        gas_limit: U256,
        base_fee_per_gas: U256,
    ) -> (r: ExecutorContext)
        ensures
            r.block_number@ == number,
            r.block_hash@ == keccak256(encoded@),
            r.block_coinbase == proposer,
            r.block_timestamp@ == timestamp,
            r.chain_id@ == chain_id,
            r.difficulty@ == 1,
            r.origin == proposer,
            r.gas_price@ == MIN_GAS_PRICE,
            r.block_gas_limit == gas_limit,
            r.block_base_fee_per_gas == base_fee_per_gas,
            r.logs@.len() == 0,
    {
        let gas_price = U256::from_u64(MIN_GAS_PRICE);
        ExecutorContext {
            block_number: U256::from_u64(number),
            block_hash: keccak_digest(encoded),
            block_coinbase: proposer,
            block_timestamp: U256::from_u64(timestamp),
            chain_id: U256::from_u64(chain_id),
            difficulty: U256::one(),
            origin: proposer,
            gas_price,
            block_gas_limit: gas_limit,
            block_base_fee_per_gas: base_fee_per_gas,
            logs: Vec::new(),
        }
    }
}

} // verus!
