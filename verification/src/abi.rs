//! The ABI-shaped side of the connector, as plain values.
//!
//! What the ABI passes as a pointer with a length stands here as an optional
//! byte vector (`None` for the null pointer), what it passes as a function
//! pointer as a flag that says whether the pointer is set, and an enumeration
//! as its integer.

use vstd::prelude::*;

verus! {

/// The version of the ABI that this library speaks.
pub const ZVMC_ABI_VERSION: i32 = 10;

/// The bytes behind an ABI pointer with a length: none behind the null pointer.
pub open spec fn buffer_view(buffer: Option<Vec<u8>>) -> Option<Seq<u8>> {
    match buffer {
        Some(bytes) => Some(bytes@),
        None => None,
    }
}

/// What a reader of an ABI buffer gets: the bytes, or nothing where the
/// pointer is null or the length is zero.
pub open spec fn filled(buffer: Option<Seq<u8>>) -> Option<Seq<u8>> {
    match buffer {
        Some(bytes) => if bytes.len() > 0 {
            Some(bytes)
        } else {
            None
        },
        None => None,
    }
}

/// The instance header that a caller on the other side of the boundary reads:
/// the ABI version, the virtual machine's name and version, and which of the
/// four entry points are set.
#[derive(Debug)]
pub struct VmInstance {
    pub abi_version: i32,
    pub name: Option<String>,
    pub version: Option<String>,
    pub destroy: bool,
    pub execute: bool,
    pub get_capabilities: bool,
    pub set_option: bool,
}

/// A call as the ABI passes it.
#[derive(Debug)]
pub struct AbiMessage {
    pub kind: i32,
    pub flags: u32,
    pub depth: i32,
    pub gas: i64,
    pub recipient: [u8; 20],
    pub sender: [u8; 20],
    pub input_data: Option<Vec<u8>>,
    pub value: [u8; 32],
    pub create2_salt: [u8; 32],
    pub code_address: [u8; 20],
}

/// The outcome of a call as the ABI passes it.
#[derive(Debug)]
pub struct AbiResult {
    pub status_code: i32,
    pub gas_left: i64,
    pub gas_refund: i64,
    pub output_data: Option<Vec<u8>>,
    pub create_address: [u8; 20],
}

/// The transaction and block data as the ABI passes them.
#[derive(Clone, Copy, Debug)]
pub struct AbiTxContext {
    pub tx_gas_price: [u8; 32],
    pub tx_origin: [u8; 20],
    pub block_coinbase: [u8; 20],
    pub block_number: i64,
    pub block_timestamp: i64,
    pub block_gas_limit: i64,
    pub block_prev_randao: [u8; 32],
    pub chain_id: [u8; 32],
    pub block_base_fee: [u8; 32],
}

/// The host's own handle, which every callback gets back untouched. The
/// library never looks behind it.
#[derive(Clone, Copy, Debug, PartialEq, Eq, Structural)]
pub struct HostContext {
    pub address: usize,
}

impl HostContext {
    /// The null handle.
    pub fn null() -> (handle: Self)
        ensures
            handle.address == 0,
    {
        HostContext { address: 0 }
    }
}

/// The entries of the host's callback table.
#[derive(Clone, Copy, Debug, PartialEq, Eq, Structural)]
pub enum HostOperation {
    AccountExists,
    GetStorage,
    SetStorage,
    GetBalance,
    GetCodeSize,
    GetCodeHash,
    CopyCode,
    Call,
    GetTxContext,
    GetBlockHash,
    EmitLog,
    AccessAccount,
    AccessStorage,
}

/// One invocation of an entry of the host's callback table, with its
/// arguments in ABI shape.
#[derive(Debug)]
pub enum HostRequest {
    AccountExists { address: [u8; 20] },
    GetStorage { address: [u8; 20], key: [u8; 32] },
    SetStorage { address: [u8; 20], key: [u8; 32], value: [u8; 32] },
    GetBalance { address: [u8; 20] },
    GetCodeSize { address: [u8; 20] },
    GetCodeHash { address: [u8; 20] },
    CopyCode { address: [u8; 20], code_offset: usize, buffer_size: usize },
    Call { message: AbiMessage },
    GetTxContext,
    GetBlockHash { number: i64 },
    EmitLog { address: [u8; 20], data: Vec<u8>, topics: Vec<[u8; 32]> },
    AccessAccount { address: [u8; 20] },
    AccessStorage { address: [u8; 20], key: [u8; 32] },
}

impl HostRequest {
    /// The entry of the callback table that the request is for.
    pub open spec fn spec_operation(&self) -> HostOperation {
        match self {
            HostRequest::AccountExists { .. } => HostOperation::AccountExists,
            HostRequest::GetStorage { .. } => HostOperation::GetStorage,
            HostRequest::SetStorage { .. } => HostOperation::SetStorage,
            HostRequest::GetBalance { .. } => HostOperation::GetBalance,
            HostRequest::GetCodeSize { .. } => HostOperation::GetCodeSize,
            HostRequest::GetCodeHash { .. } => HostOperation::GetCodeHash,
            HostRequest::CopyCode { .. } => HostOperation::CopyCode,
            HostRequest::Call { .. } => HostOperation::Call,
            HostRequest::GetTxContext => HostOperation::GetTxContext,
            HostRequest::GetBlockHash { .. } => HostOperation::GetBlockHash,
            HostRequest::EmitLog { .. } => HostOperation::EmitLog,
            HostRequest::AccessAccount { .. } => HostOperation::AccessAccount,
            HostRequest::AccessStorage { .. } => HostOperation::AccessStorage,
        }
    }

    /// The entry of the callback table that the request is for.
    #[verifier::when_used_as_spec(spec_operation)]
    pub fn operation(&self) -> (operation: HostOperation)
        ensures
            operation == self.spec_operation(),
    {
        match self {
            HostRequest::AccountExists { .. } => HostOperation::AccountExists,
            HostRequest::GetStorage { .. } => HostOperation::GetStorage,
            HostRequest::SetStorage { .. } => HostOperation::SetStorage,
            HostRequest::GetBalance { .. } => HostOperation::GetBalance,
            HostRequest::GetCodeSize { .. } => HostOperation::GetCodeSize,
            HostRequest::GetCodeHash { .. } => HostOperation::GetCodeHash,
            HostRequest::CopyCode { .. } => HostOperation::CopyCode,
            HostRequest::Call { .. } => HostOperation::Call,
            HostRequest::GetTxContext => HostOperation::GetTxContext,
            HostRequest::GetBlockHash { .. } => HostOperation::GetBlockHash,
            HostRequest::EmitLog { .. } => HostOperation::EmitLog,
            HostRequest::AccessAccount { .. } => HostOperation::AccessAccount,
            HostRequest::AccessStorage { .. } => HostOperation::AccessStorage,
        }
    }
}

/// What an entry of the host's callback table hands back, in ABI shape.
#[derive(Debug)]
pub enum HostResponse {
    /// From entries that return nothing.
    Done,
    /// A truth value.
    Flag(bool),
    /// A 32-byte value: a storage word, a balance, a hash.
    Word([u8; 32]),
    /// The integer of an enumeration.
    Code(i32),
    /// A size in bytes.
    Size(usize),
    /// Bytes copied out by the host.
    Bytes(Vec<u8>),
    /// The outcome of a nested call.
    Outcome(AbiResult),
    /// The transaction and block data.
    TxContext(AbiTxContext),
}

} // verus!
