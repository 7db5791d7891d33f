//! The contract between the connector and a virtual machine.

use crate::abi::{HostContext, HostRequest, HostResponse};
use crate::context::ExecutionContext;
use crate::message::{ExecutionMessage, MessageView};
use crate::result::{ExecutionResult, ResultView};
use crate::types::Revision;
use vstd::prelude::*;

verus! {

/// Why a virtual machine turned an option down.
#[derive(Clone, Copy, Debug, PartialEq, Eq, Structural)]
pub enum SetOptionError {
    /// The virtual machine knows no option of that name.
    InvalidKey,
    /// The virtual machine knows the option and cannot take the value.
    InvalidValue,
}

/// What [`set_option_result_to_abi`] returns.
pub open spec fn set_option_result_code(outcome: Result<(), SetOptionError>) -> int {
    match outcome {
        Ok(()) => 0,
        Err(SetOptionError::InvalidKey) => 1,
        Err(SetOptionError::InvalidValue) => 2,
    }
}

/// The ABI integer for the outcome of setting an option: zero for success,
/// one for an unknown name, two for a value that cannot be taken.
pub fn set_option_result_to_abi(outcome: Result<(), SetOptionError>) -> (code: i32)
    ensures
        code == set_option_result_code(outcome),
{
    match outcome {
        Ok(()) => 0,
        Err(SetOptionError::InvalidKey) => 1,
        Err(SetOptionError::InvalidValue) => 2,
    }
}

/// A virtual machine, as the connector sees it.
pub trait ZvmcVm: Sized {
    /// Whether `result` is an outcome that `execute` may give for the code
    /// `code` and the call `message` under `revision`. A virtual machine says
    /// here as much of its outcomes as it wants its callers to know; what the
    /// host answers during the call is not part of it. A virtual machine
    /// that says nothing may give any outcome.
    open spec fn yields(
        &self,
        revision: Revision,
        code: Seq<u8>,
        message: MessageView,
        result: ResultView,
    ) -> bool {
        true
    }

    /// Makes the virtual machine. This cannot fail: what may fail belongs in
    /// [`ZvmcVm::set_option`].
    fn init() -> Self;

    /// Sets the option `key` to `value`. A virtual machine that has no options
    /// takes everything and changes nothing.
    fn set_option(&mut self, key: &str, value: &str) -> (outcome: Result<(), SetOptionError>)
        default_ensures
            outcome is Ok,
            *final(self) == *old(self),
    {
        Ok(())
    }

    /// Runs `code` for the call that `message` describes, under the rules of
    /// `revision`. Through `context`, where there is one, the virtual machine
    /// reaches the host.
    fn execute<F: Fn(HostContext, HostRequest) -> HostResponse>(
        &self,
        revision: Revision,
        code: &[u8],
        message: &ExecutionMessage,
        context: Option<&mut ExecutionContext<F>>,
    ) -> (result: ExecutionResult)
        ensures
            self.yields(revision, code@, message@, result@),
    ;
}

} // verus!
