//! Typed, transport-free core of a client for the Etherscan HTTP API.
//!
//! The crate builds the address of every request and says what an answer
//! amounts to; fetching the address is left to the caller.

pub mod api;
pub mod decimal;
pub mod envelope;
pub mod error;
pub mod exchange;
pub mod models;

pub use crate::api::{parse_block_range, API, BASE_URL, ETHERSCANIO_API_TOKEN};
pub use crate::decimal::CoercionError;
pub use crate::envelope::{Response, ResponseError, StatusCode};
pub use crate::error::{ConfigurationError, DecodeError, Error};
pub use crate::exchange::{conclude, conclude_decoded, conclude_list, unwrap_envelope, Reply};
pub use crate::models::{
    decode_all, Balance, ContractExecutionStatus, ContractExecutionStatusFields,
    ERC20TokenTransferEvent, ERC20TokenTransferEventFields, ERC721TokenTransferEvent,
    ERC721TokenTransferEventFields, ExecutionStatus, GasOracle, GasOracleFields,
    InternalTransaction, InternalTransactionFields, MinedBlock, MinedBlockFields, ReceiptStatus,
    Record, Transaction, TransactionFields, TransactionReceiptStatus,
    TransactionReceiptStatusFields,
};
