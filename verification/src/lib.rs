//! The VM side of the ZVMC connector.
//!
//! A host runs a virtual machine through a fixed C ABI. This library is what
//! stands between that ABI and a virtual machine written in Rust, in three
//! layers:
//!
//! - [`types`], [`message`] and [`result`] marshal values: each value type,
//!   the description of a call and its outcome have an ABI shape, given in
//!   [`abi`] as plain values, and an exact conversion to it and back.
//! - [`context`] gives a running virtual machine its way back into the host,
//!   over the callback table of [`host`]: one operation per entry, each of
//!   which says so where the entry is not set.
//! - [`container`] holds a virtual machine ([`vm`]) together with its instance
//!   header, and moves it across the boundary and back as a single owner.
//!
//! [`foo_vm`] is a small virtual machine to try all of this out with.

pub mod abi;
pub mod container;
pub mod context;
pub mod foo_vm;
pub mod host;
pub mod message;
pub mod result;
pub mod types;
pub mod vm;

pub use abi::{
    AbiMessage, AbiResult, AbiTxContext, HostContext, HostOperation, HostRequest, HostResponse,
    VmInstance, ZVMC_ABI_VERSION,
};
pub use container::{FfiPointer, ZvmcContainer};
pub use context::ExecutionContext;
pub use foo_vm::FooVM;
pub use host::{ExecutionTxContext, HostError, HostInterface};
pub use message::{ExecutionMessage, MessageView};
pub use result::{ExecutionResult, ResultView};
pub use types::{
    AccessStatus, Address, Bytes32, MessageFlags, MessageKind, Revision, StatusCode,
    StorageStatus, Uint256,
};
pub use vm::{SetOptionError, ZvmcVm};
