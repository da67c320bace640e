//! The records that the service returns. Each one arrives as text fields and
//! is decoded into typed fields.

use vstd::prelude::*;
use crate::decimal::{
    i64_of, is_i64, is_u128, is_u64, parse_i64, parse_u128, parse_u128_spec, parse_u64, u128_of,
    u64_of, CoercionError,
};
use crate::error::DecodeError;

verus! {

/// A record that is decoded from the text fields of a payload.
pub trait Record: Sized {
    /// The record as it arrives: every field is text.
    type Fields;

    /// Whether every numeric field holds a number of its type.
    spec fn decodable(fields: &Self::Fields) -> bool;

    /// The record that the text fields stand for.
    spec fn decoded(fields: &Self::Fields) -> Self;

    /// Decodes the record. One field that holds no number of its type fails
    /// the whole record.
    fn decode(fields: &Self::Fields) -> (r: Result<Self, DecodeError>)
        ensures
            Self::decodable(fields) ==> r == Ok::<Self, DecodeError>(Self::decoded(fields)),
            !Self::decodable(fields) ==> r == Err::<Self, DecodeError>(
                DecodeError::InvalidNumber,
            ),
    ;
}

/// Reads a field that holds an unsigned 64-bit integer.
fn field_u64(text: &String) -> (r: Result<u64, DecodeError>)
    ensures
        is_u64(text@) ==> r == Ok::<u64, DecodeError>(u64_of(text@)),
        !is_u64(text@) ==> r == Err::<u64, DecodeError>(DecodeError::InvalidNumber),
{
    match parse_u64(text.as_str()) {
        Ok(v) => Ok(v),
        Err(_) => Err(DecodeError::InvalidNumber),
    }
}

/// Reads a field that holds an unsigned 128-bit integer.
fn field_u128(text: &String) -> (r: Result<u128, DecodeError>)
    ensures
        is_u128(text@) ==> r == Ok::<u128, DecodeError>(u128_of(text@)),
        !is_u128(text@) ==> r == Err::<u128, DecodeError>(DecodeError::InvalidNumber),
{
    match parse_u128(text.as_str()) {
        Ok(v) => Ok(v),
        Err(_) => Err(DecodeError::InvalidNumber),
    }
}

/// Reads a field that holds a signed 64-bit integer.
fn field_i64(text: &String) -> (r: Result<i64, DecodeError>)
    ensures
        is_i64(text@) ==> r == Ok::<i64, DecodeError>(i64_of(text@)),
        !is_i64(text@) ==> r == Err::<i64, DecodeError>(DecodeError::InvalidNumber),
{
    match parse_i64(text.as_str()) {
        Ok(v) => Ok(v),
        Err(_) => Err(DecodeError::InvalidNumber),
    }
}

/// An amount, as the text that the service sent.
#[derive(Clone, Debug, PartialEq, Eq)]
pub struct Balance(pub String);

impl Balance {
    /// The amount as a number.
    pub fn value(&self) -> (r: Result<u128, CoercionError>)
        ensures
            r == parse_u128_spec(self.0@),
    {
        parse_u128(self.0.as_str())
    }
}

impl Record for Balance {
    type Fields = String;

    open spec fn decodable(fields: &String) -> bool {
        true
    }

    open spec fn decoded(fields: &String) -> Balance {
        Balance(*fields)
    }

    fn decode(fields: &String) -> (r: Result<Balance, DecodeError>) {
        Ok(Balance(fields.clone()))
    }
}

/// A block that an account mined, as text fields.
#[derive(Clone, Debug, PartialEq, Eq)]
pub struct MinedBlockFields {
    pub block_number: String,
    pub timestamp: String,
    pub block_rewards: String,
}

/// A block that an account mined.
#[derive(Clone, Debug, PartialEq, Eq)]
pub struct MinedBlock {
    pub block_number: u64,
    pub timestamp: u64,
    pub block_rewards: u128,
}

impl Record for MinedBlock {
    type Fields = MinedBlockFields;

    open spec fn decodable(fields: &MinedBlockFields) -> bool {
        &&& is_u64(fields.block_number@)
        &&& is_u64(fields.timestamp@)
        &&& is_u128(fields.block_rewards@)
    }

    open spec fn decoded(fields: &MinedBlockFields) -> MinedBlock {
        MinedBlock {
            block_number: u64_of(fields.block_number@),
            timestamp: u64_of(fields.timestamp@),
            block_rewards: u128_of(fields.block_rewards@),
        }
    }

    fn decode(fields: &MinedBlockFields) -> (r: Result<MinedBlock, DecodeError>) {
        let block_number = field_u64(&fields.block_number)?;
        let timestamp = field_u64(&fields.timestamp)?;
        let block_rewards = field_u128(&fields.block_rewards)?;
        Ok(MinedBlock { block_number, timestamp, block_rewards })
    }
}

/// A snapshot of the gas price oracle, as text fields.
#[derive(Clone, Debug, PartialEq, Eq)]
pub struct GasOracleFields {
    pub last_block: String,
    pub safe_gas_price: String,
    pub propose_gas_price: String,
}

/// A snapshot of the gas price oracle.
#[derive(Clone, Debug, PartialEq, Eq)]
pub struct GasOracle {
    pub last_block: u128,
    pub safe_gas_price: u128,
    pub propose_gas_price: u128,
}

impl Record for GasOracle {
    type Fields = GasOracleFields;

    open spec fn decodable(fields: &GasOracleFields) -> bool {
        &&& is_u128(fields.last_block@)
        &&& is_u128(fields.safe_gas_price@)
        &&& is_u128(fields.propose_gas_price@)
    }

    open spec fn decoded(fields: &GasOracleFields) -> GasOracle {
        GasOracle {
            last_block: u128_of(fields.last_block@),
            safe_gas_price: u128_of(fields.safe_gas_price@),
            propose_gas_price: u128_of(fields.propose_gas_price@),
        }
    }

    fn decode(fields: &GasOracleFields) -> (r: Result<GasOracle, DecodeError>) {
        let last_block = field_u128(&fields.last_block)?;
        let safe_gas_price = field_u128(&fields.safe_gas_price)?;
        let propose_gas_price = field_u128(&fields.propose_gas_price)?;
        Ok(
            GasOracle {
                last_block,
                safe_gas_price,
                propose_gas_price,
            },
        )
    }
}

/// The receipt status of a transaction, as text fields.
#[derive(Clone, Debug, PartialEq, Eq)]
pub struct TransactionReceiptStatusFields {
    pub status: String,
}

/// The receipt status of a transaction.
#[derive(Clone, Debug, PartialEq, Eq)]
pub struct TransactionReceiptStatus {
    pub status: u64,
}

impl Record for TransactionReceiptStatus {
    type Fields = TransactionReceiptStatusFields;

    open spec fn decodable(fields: &TransactionReceiptStatusFields) -> bool {
        is_u64(fields.status@)
    }

    open spec fn decoded(fields: &TransactionReceiptStatusFields) -> TransactionReceiptStatus {
        TransactionReceiptStatus { status: u64_of(fields.status@) }
    }

    fn decode(fields: &TransactionReceiptStatusFields) -> (r: Result<
        TransactionReceiptStatus,
        DecodeError,
    >) {
        let status = field_u64(&fields.status)?;
        Ok(
            TransactionReceiptStatus {
                status,
            },
        )
    }
}

/// The execution status of a contract call, as text fields.
#[derive(Clone, Debug, PartialEq, Eq)]
pub struct ContractExecutionStatusFields {
    pub is_error: String,
    pub err_description: String,
}

/// The execution status of a contract call.
#[derive(Clone, Debug, PartialEq, Eq)]
pub struct ContractExecutionStatus {
    pub is_error: u64,
    pub err_description: String,
}

impl Record for ContractExecutionStatus {
    type Fields = ContractExecutionStatusFields;

    open spec fn decodable(fields: &ContractExecutionStatusFields) -> bool {
        is_u64(fields.is_error@)
    }

    open spec fn decoded(fields: &ContractExecutionStatusFields) -> ContractExecutionStatus {
        ContractExecutionStatus {
            is_error: u64_of(fields.is_error@),
            err_description: fields.err_description,
        }
    }

    fn decode(fields: &ContractExecutionStatusFields) -> (r: Result<
        ContractExecutionStatus,
        DecodeError,
    >) {
        let is_error = field_u64(&fields.is_error)?;
        Ok(
            ContractExecutionStatus {
                is_error,
                err_description: fields.err_description.clone(),
            },
        )
    }
}

/// A transaction of an account, as text fields.
#[derive(Clone, Debug, PartialEq, Eq)]
pub struct TransactionFields {
    pub block_number: String,
    pub timestamp: String,
    pub hash: String,
    pub nonce: String,
    pub block_hash: String,
    pub transaction_index: String,
    pub from: String,
    pub to: String,
    pub value: String,
    pub gas: String,
    pub gas_price: String,
    pub is_error: String,
    pub tx_receipt_status: String,
    pub input: String,
    pub contract_address: String,
    pub cumulative_gas_used: String,
    pub gas_used: String,
    pub confirmations: String,
}

/// A transaction of an account.
#[derive(Clone, Debug, PartialEq, Eq)]
pub struct Transaction {
    pub block_number: u64,
    pub timestamp: u64,
    pub hash: String,
    pub nonce: u64,
    pub block_hash: String,
    pub transaction_index: u64,
    pub from: String,
    pub to: String,
    pub value: i64,
    pub gas: i64,
    pub gas_price: i64,
    pub is_error: String,
    pub tx_receipt_status: String,
    pub input: String,
    pub contract_address: String,
    pub cumulative_gas_used: u64,
    pub gas_used: String,
    pub confirmations: u64,
}

impl Record for Transaction {
    type Fields = TransactionFields;

    open spec fn decodable(fields: &TransactionFields) -> bool {
        &&& is_u64(fields.block_number@)
        &&& is_u64(fields.timestamp@)
        &&& is_u64(fields.nonce@)
        &&& is_u64(fields.transaction_index@)
        &&& is_i64(fields.value@)
        &&& is_i64(fields.gas@)
        &&& is_i64(fields.gas_price@)
        &&& is_u64(fields.cumulative_gas_used@)
        &&& is_u64(fields.confirmations@)
    }

    open spec fn decoded(fields: &TransactionFields) -> Transaction {
        Transaction {
            block_number: u64_of(fields.block_number@),
            timestamp: u64_of(fields.timestamp@),
            hash: fields.hash,
            nonce: u64_of(fields.nonce@),
            block_hash: fields.block_hash,
            transaction_index: u64_of(fields.transaction_index@),
            from: fields.from,
            to: fields.to,
            value: i64_of(fields.value@),
            gas: i64_of(fields.gas@),
            gas_price: i64_of(fields.gas_price@),
            is_error: fields.is_error,
            tx_receipt_status: fields.tx_receipt_status,
            input: fields.input,
            contract_address: fields.contract_address,
            cumulative_gas_used: u64_of(fields.cumulative_gas_used@),
            gas_used: fields.gas_used,
            confirmations: u64_of(fields.confirmations@),
        }
    }

    fn decode(fields: &TransactionFields) -> (r: Result<Transaction, DecodeError>) {
        let block_number = field_u64(&fields.block_number)?;
        let timestamp = field_u64(&fields.timestamp)?;
        let nonce = field_u64(&fields.nonce)?;
        let transaction_index = field_u64(&fields.transaction_index)?;
        let value = field_i64(&fields.value)?;
        let gas = field_i64(&fields.gas)?;
        let gas_price = field_i64(&fields.gas_price)?;
        let cumulative_gas_used = field_u64(&fields.cumulative_gas_used)?;
        let confirmations = field_u64(&fields.confirmations)?;
        Ok(
            Transaction {
                block_number,
                timestamp,
                hash: fields.hash.clone(),
                nonce,
                block_hash: fields.block_hash.clone(),
                transaction_index,
                from: fields.from.clone(),
                to: fields.to.clone(),
                value,
                gas,
                gas_price,
                is_error: fields.is_error.clone(),
                tx_receipt_status: fields.tx_receipt_status.clone(),
                input: fields.input.clone(),
                contract_address: fields.contract_address.clone(),
                cumulative_gas_used,
                gas_used: fields.gas_used.clone(),
                confirmations,
            },
        )
    }
}

/// A transaction that a contract made, as text fields.
#[derive(Clone, Debug, PartialEq, Eq)]
pub struct InternalTransactionFields {
    pub block_number: String,
    pub timestamp: String,
    pub hash: String,
    pub from: String,
    pub to: String,
    pub value: String,
    pub contract_address: String,
    pub input: String,
    pub tx_type: String,
    pub gas: String,
    pub gas_used: String,
    pub trace_id: String,
    pub is_error: String,
    pub err_code: String,
}

/// A transaction that a contract made.
#[derive(Clone, Debug, PartialEq, Eq)]
pub struct InternalTransaction {
    pub block_number: u64,
    pub timestamp: u64,
    pub hash: String,
    pub from: String,
    pub to: String,
    pub value: u128,
    pub contract_address: String,
    pub input: String,
    pub tx_type: String,
    pub gas: u64,
    pub gas_used: String,
    pub trace_id: u64,
    pub is_error: String,
    pub err_code: String,
}

impl Record for InternalTransaction {
    type Fields = InternalTransactionFields;

    open spec fn decodable(fields: &InternalTransactionFields) -> bool {
        &&& is_u64(fields.block_number@)
        &&& is_u64(fields.timestamp@)
        &&& is_u128(fields.value@)
        &&& is_u64(fields.gas@)
        &&& is_u64(fields.trace_id@)
    }

    open spec fn decoded(fields: &InternalTransactionFields) -> InternalTransaction {
        InternalTransaction {
            block_number: u64_of(fields.block_number@),
            timestamp: u64_of(fields.timestamp@),
            hash: fields.hash,
            from: fields.from,
            to: fields.to,
            value: u128_of(fields.value@),
            contract_address: fields.contract_address,
            input: fields.input,
            tx_type: fields.tx_type,
            gas: u64_of(fields.gas@),
            gas_used: fields.gas_used,
            trace_id: u64_of(fields.trace_id@),
            is_error: fields.is_error,
            err_code: fields.err_code,
        }
    }

    fn decode(fields: &InternalTransactionFields) -> (r: Result<InternalTransaction, DecodeError>) {
        let block_number = field_u64(&fields.block_number)?;
        let timestamp = field_u64(&fields.timestamp)?;
        let value = field_u128(&fields.value)?;
        let gas = field_u64(&fields.gas)?;
        let trace_id = field_u64(&fields.trace_id)?;
        Ok(
            InternalTransaction {
                block_number,
                timestamp,
                hash: fields.hash.clone(),
                from: fields.from.clone(),
                to: fields.to.clone(),
                value,
                contract_address: fields.contract_address.clone(),
                input: fields.input.clone(),
                tx_type: fields.tx_type.clone(),
                gas,
                gas_used: fields.gas_used.clone(),
                trace_id,
                is_error: fields.is_error.clone(),
                err_code: fields.err_code.clone(),
            },
        )
    }
}

/// A transfer of tokens, as text fields.
#[derive(Clone, Debug, PartialEq, Eq)]
pub struct ERC20TokenTransferEventFields {
    pub block_number: String,
    pub timestamp: String,
    pub hash: String,
    pub nonce: String,
    pub block_hash: String,
    pub from: String,
    pub contract_address: String,
    pub to: String,
    pub value: String,
    pub token_name: String,
    pub token_symbol: String,
    pub token_decimal: String,
    pub transaction_index: String,
    pub gas: String,
    pub gas_price: String,
    pub gas_used: String,
    pub cumulative_gas_used: String,
    pub input: String,
    pub confirmations: String,
}

/// A transfer of tokens.
#[derive(Clone, Debug, PartialEq, Eq)]
pub struct ERC20TokenTransferEvent {
    pub block_number: u64,
    pub timestamp: u64,
    pub hash: String,
    pub nonce: u64,
    pub block_hash: String,
    pub from: String,
    pub contract_address: String,
    pub to: String,
    pub value: u128,
    pub token_name: String,
    pub token_symbol: String,
    pub token_decimal: u64,
    pub transaction_index: u64,
    pub gas: u64,
    pub gas_price: u64,
    pub gas_used: String,
    pub cumulative_gas_used: u64,
    pub input: String,
    pub confirmations: u64,
}

impl Record for ERC20TokenTransferEvent {
    type Fields = ERC20TokenTransferEventFields;

    open spec fn decodable(fields: &ERC20TokenTransferEventFields) -> bool {
        &&& is_u64(fields.block_number@)
        &&& is_u64(fields.timestamp@)
        &&& is_u64(fields.nonce@)
        &&& is_u128(fields.value@)
        &&& is_u64(fields.token_decimal@)
        &&& is_u64(fields.transaction_index@)
        &&& is_u64(fields.gas@)
        &&& is_u64(fields.gas_price@)
        &&& is_u64(fields.cumulative_gas_used@)
        &&& is_u64(fields.confirmations@)
    }

    open spec fn decoded(fields: &ERC20TokenTransferEventFields) -> ERC20TokenTransferEvent {
        ERC20TokenTransferEvent {
            block_number: u64_of(fields.block_number@),
            timestamp: u64_of(fields.timestamp@),
            hash: fields.hash,
            nonce: u64_of(fields.nonce@),
            block_hash: fields.block_hash,
            from: fields.from,
            contract_address: fields.contract_address,
            to: fields.to,
            value: u128_of(fields.value@),
            token_name: fields.token_name,
            token_symbol: fields.token_symbol,
            token_decimal: u64_of(fields.token_decimal@),
            transaction_index: u64_of(fields.transaction_index@),
            gas: u64_of(fields.gas@),
            gas_price: u64_of(fields.gas_price@),
            gas_used: fields.gas_used,
            cumulative_gas_used: u64_of(fields.cumulative_gas_used@),
            input: fields.input,
            confirmations: u64_of(fields.confirmations@),
        }
    }

    fn decode(fields: &ERC20TokenTransferEventFields) -> (r: Result<
        ERC20TokenTransferEvent,
        DecodeError,
    >) {
        let block_number = field_u64(&fields.block_number)?;
        let timestamp = field_u64(&fields.timestamp)?;
        let nonce = field_u64(&fields.nonce)?;
        let value = field_u128(&fields.value)?;
        let token_decimal = field_u64(&fields.token_decimal)?;
        let transaction_index = field_u64(&fields.transaction_index)?;
        let gas = field_u64(&fields.gas)?;
        let gas_price = field_u64(&fields.gas_price)?;
        let cumulative_gas_used = field_u64(&fields.cumulative_gas_used)?;
        let confirmations = field_u64(&fields.confirmations)?;
        Ok(
            ERC20TokenTransferEvent {
                block_number,
                timestamp,
                hash: fields.hash.clone(),
                nonce,
                block_hash: fields.block_hash.clone(),
                from: fields.from.clone(),
                contract_address: fields.contract_address.clone(),
                to: fields.to.clone(),
                value,
                token_name: fields.token_name.clone(),
                token_symbol: fields.token_symbol.clone(),
                token_decimal,
                transaction_index,
                gas,
                gas_price,
                gas_used: fields.gas_used.clone(),
                cumulative_gas_used,
                input: fields.input.clone(),
                confirmations,
            },
        )
    }
}

/// The same shape serves for transfers of non-fungible tokens.
pub type ERC721TokenTransferEvent = ERC20TokenTransferEvent;

/// The text form of a transfer of non-fungible tokens.
pub type ERC721TokenTransferEventFields = ERC20TokenTransferEventFields;

/// Whether a transaction went through.
#[derive(Clone, Copy, Debug, PartialEq, Eq, Structural)]
pub enum ReceiptStatus {
    Pass,
    Fail,
}

impl TransactionReceiptStatus {
    /// The receipt status: a pass where the field holds 1, a failure for
    /// every other number.
    pub fn status(&self) -> (r: ReceiptStatus)
        ensures
            r == (if self.status == 1 {
                ReceiptStatus::Pass
            } else {
                ReceiptStatus::Fail
            }),
    {
        match self.status {
            1 => ReceiptStatus::Pass,
            _ => ReceiptStatus::Fail,
        }
    }
}

/// How a contract call ended.
#[derive(Clone, Debug, PartialEq, Eq)]
pub enum ExecutionStatus {
    Pass,
    Error { status_code: u64, description: String },
}

impl ContractExecutionStatus {
    /// The execution status: a pass where the error field holds 0, else the
    /// error with its code and description.
    pub fn status(self) -> (r: ExecutionStatus)
        ensures
            r == (if self.is_error == 0 {
                ExecutionStatus::Pass
            } else {
                ExecutionStatus::Error {
                    status_code: self.is_error,
                    description: self.err_description,
                }
            }),
    {
        match self.is_error {
            0 => ExecutionStatus::Pass,
            _ => ExecutionStatus::Error {
                status_code: self.is_error,
                description: self.err_description,
            },
        }
    }
}

/// Whether every one of the text records can be decoded.
pub open spec fn all_decodable<T: Record>(fields: Seq<T::Fields>) -> bool {
    forall|i: int| 0 <= i < fields.len() ==> #[trigger] T::decodable(&fields[i])
}

/// The records that a list of text records stands for, in the same order.
pub open spec fn all_decoded<T: Record>(fields: Seq<T::Fields>) -> Seq<T> {
    Seq::new(fields.len(), |i: int| T::decoded(&fields[i]))
}

/// Decodes a list of records, keeping their order. One record that cannot be
/// decoded fails the whole list.
pub fn decode_all<T: Record>(fields: &Vec<T::Fields>) -> (r: Result<Vec<T>, DecodeError>)
    ensures
        all_decodable::<T>(fields@) ==> r is Ok && r->Ok_0@ == all_decoded::<T>(fields@),
        !all_decodable::<T>(fields@) ==> r == Err::<Vec<T>, DecodeError>(
            DecodeError::InvalidNumber,
        ),
{
    let mut records: Vec<T> = Vec::new();
    let mut i: usize = 0;
    while i < fields.len()
        invariant
            0 <= i <= fields.len(),
            records@.len() == i,
            forall|j: int| 0 <= j < i ==> #[trigger] T::decodable(&fields@[j]),
            forall|j: int| 0 <= j < i ==> records@[j] == T::decoded(&fields@[j]),
        decreases fields.len() - i,
    {
        let record = T::decode(&fields[i])?;
        records.push(record);
        i = i + 1;
    }
    assert(records@ =~= all_decoded::<T>(fields@));
    Ok(records)
}

} // verus!
