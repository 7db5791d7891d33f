//! The host as a virtual machine sees it: its callback table, and how what
//! the table's entries hand back is read.

use crate::abi::{AbiTxContext, HostContext, HostOperation, HostRequest, HostResponse};
use crate::result::{ExecutionResult, ResultView};
use crate::types::{AccessStatus, Address, Bytes32, StorageStatus, Uint256};
use vstd::prelude::*;

verus! {

/// Why an operation of the execution context gave no value.
#[derive(Clone, Copy, Debug, PartialEq, Eq, Structural)]
pub enum HostError {
    /// The host's callback table has no entry for the operation.
    Unsupported,
    /// What the entry handed back is not what the ABI gives that entry: a
    /// value of another shape, or an integer that belongs to no member of the
    /// enumeration.
    Malformed,
}

/// The host's callback table. Each flag says whether the entry of that name
/// is set; `dispatch` invokes the entry that a request is for, with the
/// host's handle, and is only ever called for entries that are set.
pub struct HostInterface<F: Fn(HostContext, HostRequest) -> HostResponse> {
    pub account_exists: bool,
    pub get_storage: bool,
    pub set_storage: bool,
    pub get_balance: bool,
    pub get_code_size: bool,
    pub get_code_hash: bool,
    pub copy_code: bool,
    pub call: bool,
    pub get_tx_context: bool,
    pub get_block_hash: bool,
    pub emit_log: bool,
    pub access_account: bool,
    pub access_storage: bool,
    pub dispatch: F,
}

impl<F: Fn(HostContext, HostRequest) -> HostResponse> HostInterface<F> {
    /// Whether the table has an entry for `operation`.
    pub open spec fn spec_provides(&self, operation: HostOperation) -> bool {
        match operation {
            HostOperation::AccountExists => self.account_exists,
            HostOperation::GetStorage => self.get_storage,
            HostOperation::SetStorage => self.set_storage,
            HostOperation::GetBalance => self.get_balance,
            HostOperation::GetCodeSize => self.get_code_size,
            HostOperation::GetCodeHash => self.get_code_hash,
            HostOperation::CopyCode => self.copy_code,
            HostOperation::Call => self.call,
            HostOperation::GetTxContext => self.get_tx_context,
            HostOperation::GetBlockHash => self.get_block_hash,
            HostOperation::EmitLog => self.emit_log,
            HostOperation::AccessAccount => self.access_account,
            HostOperation::AccessStorage => self.access_storage,
        }
    }

    /// Whether the table has an entry for `operation`.
    #[verifier::when_used_as_spec(spec_provides)]
    pub fn provides(&self, operation: HostOperation) -> (provided: bool)
        ensures
            provided == self.spec_provides(operation),
    {
        match operation {
            HostOperation::AccountExists => self.account_exists,
            HostOperation::GetStorage => self.get_storage,
            HostOperation::SetStorage => self.set_storage,
            HostOperation::GetBalance => self.get_balance,
            HostOperation::GetCodeSize => self.get_code_size,
            HostOperation::GetCodeHash => self.get_code_hash,
            HostOperation::CopyCode => self.copy_code,
            HostOperation::Call => self.call,
            HostOperation::GetTxContext => self.get_tx_context,
            HostOperation::GetBlockHash => self.get_block_hash,
            HostOperation::EmitLog => self.emit_log,
            HostOperation::AccessAccount => self.access_account,
            HostOperation::AccessStorage => self.access_storage,
        }
    }

    /// Whether every entry that is set may be invoked with any handle and any
    /// arguments, as a callback across the boundary may be.
    pub open spec fn callable(&self) -> bool {
        forall|context: HostContext, request: HostRequest|
            self.provides(request.operation()) ==> call_requires(
                self.dispatch,
                (context, request),
            )
    }
}

/// The transaction and block data that the host gives.
#[derive(Clone, Copy, Debug)]
pub struct ExecutionTxContext {
    pub tx_gas_price: Uint256,
    pub tx_origin: Address,
    pub block_coinbase: Address,
    pub block_number: i64,
    pub block_timestamp: i64,
    pub block_gas_limit: i64,
    pub block_prev_randao: Uint256,
    pub chain_id: Uint256,
    pub block_base_fee: Uint256,
}

impl ExecutionTxContext {
    /// The data that the ABI value `raw` stands for.
    pub open spec fn of_abi(raw: AbiTxContext) -> Self {
        ExecutionTxContext {
            tx_gas_price: Uint256::of_abi(raw.tx_gas_price),
            tx_origin: Address::of_abi(raw.tx_origin),
            block_coinbase: Address::of_abi(raw.block_coinbase),
            block_number: raw.block_number,
            block_timestamp: raw.block_timestamp,
            block_gas_limit: raw.block_gas_limit,
            block_prev_randao: Uint256::of_abi(raw.block_prev_randao),
            chain_id: Uint256::of_abi(raw.chain_id),
            block_base_fee: Uint256::of_abi(raw.block_base_fee),
        }
    }

    /// The data in ABI shape.
    pub open spec fn abi(self) -> AbiTxContext {
        AbiTxContext {
            tx_gas_price: self.tx_gas_price.abi(),
            tx_origin: self.tx_origin.abi(),
            block_coinbase: self.block_coinbase.abi(),
            block_number: self.block_number,
            block_timestamp: self.block_timestamp,
            block_gas_limit: self.block_gas_limit,
            block_prev_randao: self.block_prev_randao.abi(),
            chain_id: self.chain_id.abi(),
            block_base_fee: self.block_base_fee.abi(),
        }
    }

    /// Takes the data over from its ABI shape, field by field.
    pub fn from_abi(raw: AbiTxContext) -> (value: Self)
        ensures
            value == Self::of_abi(raw),
    {
        ExecutionTxContext {
            tx_gas_price: Uint256::from_abi(raw.tx_gas_price),
            tx_origin: Address::from_abi(raw.tx_origin),
            block_coinbase: Address::from_abi(raw.block_coinbase),
            block_number: raw.block_number,
            block_timestamp: raw.block_timestamp,
            block_gas_limit: raw.block_gas_limit,
            block_prev_randao: Uint256::from_abi(raw.block_prev_randao),
            chain_id: Uint256::from_abi(raw.chain_id),
            block_base_fee: Uint256::from_abi(raw.block_base_fee),
        }
    }

    /// Hands the data out in ABI shape, field by field.
    pub fn to_abi(&self) -> (raw: AbiTxContext)
        ensures
            raw == self.abi(),
    {
        AbiTxContext {
            tx_gas_price: self.tx_gas_price.to_abi(),
            tx_origin: self.tx_origin.to_abi(),
            block_coinbase: self.block_coinbase.to_abi(),
            block_number: self.block_number,
            block_timestamp: self.block_timestamp,
            block_gas_limit: self.block_gas_limit,
            block_prev_randao: self.block_prev_randao.to_abi(),
            chain_id: self.chain_id.to_abi(),
            block_base_fee: self.block_base_fee.to_abi(),
        }
    }

    /// Marshaling to the ABI and back gives the data itself, and the other
    /// way round.
    pub proof fn lemma_abi_round_trip(value: Self, raw: AbiTxContext)
        ensures
            Self::of_abi(value.abi()) == value,
            Self::of_abi(raw).abi() == raw,
    {
    }
}

/// What [`read_flag`] returns.
pub open spec fn flag_of(response: HostResponse) -> Result<bool, HostError> {
    match response {
        HostResponse::Flag(flag) => Ok(flag),
        _ => Err(HostError::Malformed),
    }
}

/// Reads the answer of an entry that returns a truth value.
pub fn read_flag(response: HostResponse) -> (outcome: Result<bool, HostError>)
    ensures
        outcome == flag_of(response),
{
    match response {
        HostResponse::Flag(flag) => Ok(flag),
        _ => Err(HostError::Malformed),
    }
}

/// What [`read_word`] returns.
pub open spec fn word_of(response: HostResponse) -> Result<Bytes32, HostError> {
    match response {
        HostResponse::Word(word) => Ok(Bytes32::of_abi(word)),
        _ => Err(HostError::Malformed),
    }
}

/// Reads the answer of an entry that returns a storage word or a hash.
pub fn read_word(response: HostResponse) -> (outcome: Result<Bytes32, HostError>)
    ensures
        outcome == word_of(response),
{
    match response {
        HostResponse::Word(word) => Ok(Bytes32::from_abi(word)),
        _ => Err(HostError::Malformed),
    }
}

/// What [`read_amount`] returns.
pub open spec fn amount_of(response: HostResponse) -> Result<Uint256, HostError> {
    match response {
        HostResponse::Word(word) => Ok(Uint256::of_abi(word)),
        _ => Err(HostError::Malformed),
    }
}

/// Reads the answer of an entry that returns a 256-bit integer.
pub fn read_amount(response: HostResponse) -> (outcome: Result<Uint256, HostError>)
    ensures
        outcome == amount_of(response),
{
    match response {
        HostResponse::Word(word) => Ok(Uint256::from_abi(word)),
        _ => Err(HostError::Malformed),
    }
}

/// What [`read_size`] returns.
pub open spec fn size_of(response: HostResponse) -> Result<usize, HostError> {
    match response {
        HostResponse::Size(size) => Ok(size),
        _ => Err(HostError::Malformed),
    }
}

/// Reads the answer of an entry that returns a size.
pub fn read_size(response: HostResponse) -> (outcome: Result<usize, HostError>)
    ensures
        outcome == size_of(response),
{
    match response {
        HostResponse::Size(size) => Ok(size),
        _ => Err(HostError::Malformed),
    }
}

/// What [`read_storage_status`] returns.
pub open spec fn storage_status_of(response: HostResponse) -> Result<StorageStatus, HostError> {
    match response {
        HostResponse::Code(code) => match StorageStatus::of_code(code as int) {
            Some(status) => Ok(status),
            None => Err(HostError::Malformed),
        },
        _ => Err(HostError::Malformed),
    }
}

/// Reads the answer of the entry that writes to storage.
pub fn read_storage_status(response: HostResponse) -> (outcome: Result<StorageStatus, HostError>)
    ensures
        outcome == storage_status_of(response),
{
    match response {
        HostResponse::Code(code) => match StorageStatus::from_abi(code) {
            Some(status) => Ok(status),
            None => Err(HostError::Malformed),
        },
        _ => Err(HostError::Malformed),
    }
}

/// What [`read_access_status`] returns.
pub open spec fn access_status_of(response: HostResponse) -> Result<AccessStatus, HostError> {
    match response {
        HostResponse::Code(code) => match AccessStatus::of_code(code as int) {
            Some(status) => Ok(status),
            None => Err(HostError::Malformed),
        },
        _ => Err(HostError::Malformed),
    }
}

/// Reads the answer of an entry that tracks accesses.
pub fn read_access_status(response: HostResponse) -> (outcome: Result<AccessStatus, HostError>)
    ensures
        outcome == access_status_of(response),
{
    match response {
        HostResponse::Code(code) => match AccessStatus::from_abi(code) {
            Some(status) => Ok(status),
            None => Err(HostError::Malformed),
        },
        _ => Err(HostError::Malformed),
    }
}

/// What [`read_tx_context`] returns.
pub open spec fn tx_context_of(response: HostResponse) -> Result<ExecutionTxContext, HostError> {
    match response {
        HostResponse::TxContext(raw) => Ok(ExecutionTxContext::of_abi(raw)),
        _ => Err(HostError::Malformed),
    }
}

/// Reads the answer of the entry that gives the transaction and block data.
pub fn read_tx_context(response: HostResponse) -> (outcome: Result<ExecutionTxContext, HostError>)
    ensures
        outcome == tx_context_of(response),
{
    match response {
        HostResponse::TxContext(raw) => Ok(ExecutionTxContext::from_abi(raw)),
        _ => Err(HostError::Malformed),
    }
}

/// What [`read_done`] returns.
pub open spec fn done_of(response: HostResponse) -> Result<(), HostError> {
    match response {
        HostResponse::Done => Ok(()),
        _ => Err(HostError::Malformed),
    }
}

/// Reads the answer of an entry that returns nothing.
pub fn read_done(response: HostResponse) -> (outcome: Result<(), HostError>)
    ensures
        outcome == done_of(response),
{
    match response {
        HostResponse::Done => Ok(()),
        _ => Err(HostError::Malformed),
    }
}

/// What [`read_outcome`] returns, by its view.
pub open spec fn outcome_of(response: HostResponse) -> Result<ResultView, HostError> {
    match response {
        HostResponse::Outcome(raw) => match ResultView::of_abi(raw) {
            Some(result) => Ok(result),
            None => Err(HostError::Malformed),
        },
        _ => Err(HostError::Malformed),
    }
}

/// Reads the answer of the entry that makes a nested call.
pub fn read_outcome(response: HostResponse) -> (outcome: Result<ExecutionResult, HostError>)
    ensures
        match outcome {
            Ok(result) => outcome_of(response) == Ok::<ResultView, HostError>(result@),
            Err(error) => outcome_of(response) == Err::<ResultView, HostError>(error),
        },
{
    match response {
        HostResponse::Outcome(raw) => match ExecutionResult::from_abi(raw) {
            Some(result) => Ok(result),
            None => Err(HostError::Malformed),
        },
        _ => Err(HostError::Malformed),
    }
}

/// What [`read_code`] returns for a buffer of `capacity` bytes: the bytes
/// that the host copied out, which cannot be more than the buffer holds.
pub open spec fn code_of(response: HostResponse, capacity: nat) -> Result<Seq<u8>, HostError> {
    match response {
        HostResponse::Bytes(bytes) => if bytes@.len() <= capacity {
            Ok(bytes@)
        } else {
            Err(HostError::Malformed)
        },
        _ => Err(HostError::Malformed),
    }
}

/// Reads the answer of the entry that copies code: puts the bytes at the
/// start of `buffer`, leaves the rest of it as it was, and returns how many
/// bytes there are. On an error `buffer` is unchanged.
pub fn read_code(response: HostResponse, buffer: &mut [u8]) -> (outcome: Result<usize, HostError>)
    ensures
        final(buffer)@.len() == old(buffer)@.len(),
        match code_of(response, old(buffer)@.len()) {
            Ok(code) => outcome == Ok::<usize, HostError>(code.len() as usize) && final(buffer)@
                == code + old(buffer)@.skip(code.len() as int),
            Err(error) => outcome == Err::<usize, HostError>(error) && final(buffer)@ == old(
                buffer,
            )@,
        },
{
    match response {
        HostResponse::Bytes(bytes) => {
            let count = bytes.len();
            if count > buffer.len() {
                return Err(HostError::Malformed);
            }
            let mut i: usize = 0;
            while i < count
                invariant
                    i <= count,
                    count == bytes@.len(),
                    count <= buffer@.len(),
                    buffer@.len() == old(buffer)@.len(),
                    forall|j: int| 0 <= j < i ==> buffer@[j] == bytes@[j],
                    forall|j: int| i <= j < buffer@.len() ==> buffer@[j] == old(buffer)@[j],
                decreases count - i,
            {
                buffer[i] = bytes[i];
                i += 1;
            }
            assert(buffer@ =~= bytes@ + old(buffer)@.skip(count as int));
            Ok(count)
        },
        _ => Err(HostError::Malformed),
    }
}

} // verus!
