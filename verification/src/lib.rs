//! Transaction and executor model types of an EVM chain, with verified gas,
//! signature and encoding logic.
pub mod crypto;
pub mod error;
pub mod executor;
pub mod laws;
pub mod primitives;
pub mod rlp_stream;
pub mod transaction;
