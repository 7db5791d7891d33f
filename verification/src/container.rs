//! The container that carries a virtual machine across the boundary, and the
//! two moves that pass it to the other side and take it back.

use crate::abi::{AbiMessage, AbiResult, HostContext, HostRequest, HostResponse, VmInstance};
use crate::context::ExecutionContext;
use crate::host::HostInterface;
use crate::message::{ExecutionMessage, MessageView};
use crate::result::{ExecutionResult, ResultView};
use crate::types::{zero_bytes, Revision, StatusCode};
use crate::vm::{SetOptionError, ZvmcVm};
use std::ops::{Deref, DerefMut};
use vstd::prelude::*;

verus! {

/// One heap value that holds the instance header and exactly one virtual
/// machine. The header is set when the container is made and never changes
/// after that; only the virtual machine can be reached for change.
pub struct ZvmcContainer<T: ZvmcVm> {
    instance: VmInstance,
    vm: T,
}

/// What the other side of the boundary holds of a container: a pointer that is
/// either null or the one owner of a container that was handed off. It cannot
/// be copied, so what was handed off once can be reclaimed once.
pub struct FfiPointer<T: ZvmcVm> {
    target: Option<Box<ZvmcContainer<T>>>,
}

impl<T: ZvmcVm> FfiPointer<T> {
    /// The container behind the pointer: none behind the null pointer.
    pub closed spec fn pointee(&self) -> Option<ZvmcContainer<T>> {
        match self.target {
            Some(boxed) => Some(*boxed),
            None => None,
        }
    }

    /// Whether this is the null pointer.
    pub open spec fn spec_is_null(&self) -> bool {
        self.pointee() is None
    }

    /// The null pointer.
    pub fn null() -> (pointer: Self)
        ensures
            pointer.is_null(),
    {
        FfiPointer { target: None }
    }

    /// Whether this is the null pointer.
    #[verifier::when_used_as_spec(spec_is_null)]
    pub fn is_null(&self) -> (null: bool)
        ensures
            null == self.spec_is_null(),
    {
        self.target.is_none()
    }
}

impl<T: ZvmcVm> ZvmcContainer<T> {
    /// The instance header.
    pub closed spec fn instance(&self) -> VmInstance {
        self.instance
    }

    /// The virtual machine.
    pub closed spec fn vm(&self) -> T {
        self.vm
    }

    /// The pointer that [`ZvmcContainer::into_ffi_pointer`] gives for `boxed`.
    pub closed spec fn handed_off(boxed: Box<Self>) -> FfiPointer<T> {
        FfiPointer { target: Some(boxed) }
    }

    /// The container that [`ZvmcContainer::from_ffi_pointer`] gives for
    /// `pointer`.
    pub closed spec fn reclaimed(pointer: FfiPointer<T>) -> Box<Self>
        recommends
            !pointer.is_null(),
    {
        pointer.target->0
    }

    /// A container with the header `instance` and a virtual machine fresh
    /// from [`ZvmcVm::init`].
    pub fn new(instance: VmInstance) -> (container: Box<Self>)
        ensures
            container.instance() == instance,
            call_ensures(T::init, (), container.vm()),
    {
        Box::new(ZvmcContainer { instance, vm: T::init() })
    }

    /// Takes back a container that was handed off. The caller owns it again,
    /// and it is dropped when the caller lets go of it.
    ///
    /// The null pointer stands for no container and must not be passed.
    pub fn from_ffi_pointer(instance: FfiPointer<T>) -> (container: Box<Self>)
        requires
            !instance.is_null(),
        ensures
            container == Self::reclaimed(instance),
            instance.pointee() == Some(*container),
    {
        instance.target.unwrap()
    }

    /// Hands the container off to the other side of the boundary. The caller
    /// gives up the container; the pointer is never null and is the only way
    /// back to it.
    pub fn into_ffi_pointer(boxed: Box<Self>) -> (pointer: FfiPointer<T>)
        ensures
            pointer == Self::handed_off(boxed),
            pointer.pointee() == Some(*boxed),
    {
        FfiPointer { target: Some(boxed) }
    }

    /// The instance header.
    pub fn header(&self) -> (instance: &VmInstance)
        ensures
            *instance == self.instance(),
    {
        &self.instance
    }

    /// Sets an option of the virtual machine, as [`ZvmcVm::set_option`] does
    /// on the virtual machine itself. The header stays as it is.
    pub fn set_option(&mut self, key: &str, value: &str) -> (outcome: Result<(), SetOptionError>)
        ensures
            final(self).instance() == old(self).instance(),
            exists|vm: &mut T|
                {
                    &&& *vm == old(self).vm()
                    &&& *final(vm) == final(self).vm()
                    &&& #[trigger] call_ensures(T::set_option, (vm, key, value), outcome)
                },
    {
        self.vm.set_option(key, value)
    }

    /// Runs a call on the virtual machine, as [`ZvmcVm::execute`] does on the
    /// virtual machine itself.
    pub fn execute<F: Fn(HostContext, HostRequest) -> HostResponse>(
        &self,
        revision: Revision,
        code: &[u8],
        message: &ExecutionMessage,
        context: Option<&mut ExecutionContext<F>>,
    ) -> (result: ExecutionResult)
        ensures
            call_ensures(T::execute::<F>, (&self.vm(), revision, code, message, context), result),
            self.vm().yields(revision, code@, message@, result@),
    {
        self.vm.execute(revision, code, message, context)
    }

    /// Whether `raw` is an outcome, in ABI shape, that the virtual machine
    /// may give for a call that arrives in ABI shape.
    pub open spec fn yields_abi(
        &self,
        revision: int,
        code: Seq<u8>,
        message: AbiMessage,
        raw: AbiResult,
    ) -> bool {
        &&& Revision::of_code(revision) matches Some(revision)
        &&& MessageView::of_abi(message) matches Some(message)
        &&& exists|result: ResultView|
            #[trigger] self.vm().yields(revision, code, message, result) && result.marshals_to(
                raw,
            )
    }

    /// Runs a call that arrives in ABI shape: reads the revision and the
    /// message, runs the virtual machine on them, and hands the outcome back
    /// in ABI shape. Where `host` gives a callback table and the host's
    /// handle, the virtual machine gets an execution context over them, which
    /// lives for this call and no longer.
    ///
    /// `None` exactly where `revision` is no revision or the kind of
    /// `message` is no call kind; the virtual machine is not run then.
    pub fn execute_abi<F: Fn(HostContext, HostRequest) -> HostResponse>(
        &self,
        revision: i32,
        code: &[u8],
        message: &AbiMessage,
        host: Option<(&HostInterface<F>, HostContext)>,
    ) -> (outcome: Option<AbiResult>)
        requires
            host matches Some(given) ==> given.0.callable(),
        ensures
            match outcome {
                Some(raw) => self.yields_abi(revision as int, code@, *message, raw),
                None => Revision::of_code(revision as int) is None || MessageView::of_abi(
                    *message,
                ) is None,
            },
    {
        let revision = match Revision::from_abi(revision) {
            Some(revision) => revision,
            None => {
                return None;
            },
        };
        let message = match ExecutionMessage::from_abi(message) {
            Some(message) => message,
            None => {
                return None;
            },
        };
        let result = match host {
            Some((table, handle)) => {
                let mut context = ExecutionContext::new(table, handle);
                self.vm.execute(revision, code, &message, Some(&mut context))
            },
            None => self.vm.execute::<F>(revision, code, &message, None),
        };
        let ghost outcome = result@;
        let raw = result.to_abi();
        assert(self.vm().yields(revision, code@, message@, outcome) && outcome.marshals_to(raw));
        Some(raw)
    }
}

impl<T: ZvmcVm> Deref for ZvmcContainer<T> {
    type Target = T;

    /// The virtual machine, as if the container were the virtual machine.
    fn deref(&self) -> (vm: &T)
        ensures
            *vm == self.vm(),
    {
        &self.vm
    }
}

impl<T: ZvmcVm> DerefMut for ZvmcContainer<T> {
    /// The virtual machine, for change. Whatever is done to it, the header
    /// stays as it is.
    fn deref_mut(&mut self) -> (vm: &mut T)
        ensures
            *vm == old(self).vm(),
            final(self).vm() == *final(vm),
            final(self).instance() == old(self).instance(),
    {
        &mut self.vm
    }
}

/// Handing a container off and reclaiming it gives back the very container:
/// the same header and the same virtual machine, which therefore gives the
/// same outcomes as before.
pub proof fn lemma_hand_off_reclaim<T: ZvmcVm>(boxed: Box<ZvmcContainer<T>>)
    ensures
        !ZvmcContainer::handed_off(boxed).is_null(),
        ZvmcContainer::reclaimed(ZvmcContainer::handed_off(boxed)) == boxed,
        forall|revision: Revision, code: Seq<u8>, message: MessageView, result: ResultView|
            ZvmcContainer::reclaimed(ZvmcContainer::handed_off(boxed)).vm().yields(
                revision,
                code,
                message,
                result,
            ) == boxed.vm().yields(revision, code, message, result),
{
}

/// A pointer that is not null gives, when reclaimed and handed off again, the
/// same pointer: nothing is lost or added on the way.
pub proof fn lemma_reclaim_hand_off<T: ZvmcVm>(pointer: FfiPointer<T>)
    requires
        !pointer.is_null(),
    ensures
        ZvmcContainer::handed_off(ZvmcContainer::reclaimed(pointer)) == pointer,
{
}

/// A virtual machine whose only outcome is the canonical failure gives,
/// through its container, the failure status and no output.
pub proof fn lemma_failing_vm_fails<T: ZvmcVm>(
    container: ZvmcContainer<T>,
    revision: Revision,
    code: Seq<u8>,
    message: MessageView,
    result: ResultView,
)
    requires
        forall|revision: Revision, code: Seq<u8>, message: MessageView, result: ResultView|
            #[trigger] container.vm().yields(revision, code, message, result) ==> result
                == ResultView::failure(),
        container.vm().yields(revision, code, message, result),
    ensures
        result.status_code == StatusCode::ZVMC_FAILURE,
        result.output is None,
        result == ResultView::failure(),
{
}

/// The same in ABI shape: a virtual machine whose only outcome is the
/// canonical failure hands back the integer of the failure status, no gas,
/// the null pointer for the output and the zero address.
pub proof fn lemma_failing_vm_fails_abi<T: ZvmcVm>(
    container: ZvmcContainer<T>,
    revision: int,
    code: Seq<u8>,
    message: AbiMessage,
    raw: AbiResult,
)
    requires
        forall|revision: Revision, code: Seq<u8>, message: MessageView, result: ResultView|
            #[trigger] container.vm().yields(revision, code, message, result) ==> result
                == ResultView::failure(),
        container.yields_abi(revision, code, message, raw),
    ensures
        raw.status_code == StatusCode::ZVMC_FAILURE.code(),
        raw.status_code == 1,
        raw.gas_left == 0,
        raw.gas_refund == 0,
        raw.output_data is None,
        raw.create_address@ == zero_bytes(20),
{
}

} // verus!
