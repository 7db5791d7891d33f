//! The execution context: what a virtual machine may ask of the host while it
//! runs one call.
//!
//! Every operation takes the library's value types, puts them in ABI shape,
//! invokes the entry of the host's callback table once, and reads back what
//! the entry hands over. Where the table has no such entry the operation says
//! so and invokes nothing.

use crate::abi::{HostContext, HostRequest, HostResponse};
use crate::host::{
    access_status_of, amount_of, code_of, done_of, flag_of, outcome_of, read_access_status,
    read_amount, read_code, read_done, read_flag, read_outcome, read_size, read_storage_status,
    read_tx_context, read_word, size_of, storage_status_of, tx_context_of, word_of,
    ExecutionTxContext, HostError, HostInterface,
};
use crate::message::{ExecutionMessage, MessageView};
use crate::result::{ExecutionResult, ResultView};
use crate::types::{AccessStatus, Address, Bytes32, StorageStatus, Uint256};
use vstd::prelude::*;
use vstd::slice::slice_to_vec;

verus! {

/// The topics of a log in ABI shape.
pub open spec fn topics_abi(topics: Seq<Bytes32>) -> Seq<[u8; 32]> {
    topics.map_values(|topic: Bytes32| topic.abi())
}

/// Whether `request` asks for the nested call that `message` describes.
pub open spec fn asks_call(request: HostRequest, message: MessageView) -> bool {
    request matches HostRequest::Call { message: raw } && message.marshals_to(raw)
}

/// Whether `request` asks for a log of the account at `address` with the
/// given data and topics.
pub open spec fn asks_log(
    request: HostRequest,
    address: Address,
    data: Seq<u8>,
    topics: Seq<Bytes32>,
) -> bool {
    &&& request matches HostRequest::EmitLog {
        address: raw_address,
        data: raw_data,
        topics: raw_topics,
    }
    &&& raw_address == address.abi()
    &&& raw_data@ == data
    &&& raw_topics@ == topics_abi(topics)
}

/// The outcome of a nested call, by its view.
pub open spec fn outcome_view(outcome: Result<ExecutionResult, HostError>) -> Result<
    ResultView,
    HostError,
> {
    match outcome {
        Ok(result) => Ok(result@),
        Err(error) => Err(error),
    }
}

/// A view of the host for the time of one call: the host's callback table,
/// borrowed, and the host's own handle. It owns neither and keeps nothing of
/// what the host answers.
pub struct ExecutionContext<'a, F: Fn(HostContext, HostRequest) -> HostResponse> {
    host: &'a HostInterface<F>,
    context: HostContext,
}

impl<'a, F: Fn(HostContext, HostRequest) -> HostResponse> ExecutionContext<'a, F> {
    #[verifier::type_invariant]
    spec fn entries_callable(self) -> bool {
        self.host.callable()
    }

    /// The callback table.
    pub closed spec fn host(&self) -> &HostInterface<F> {
        self.host
    }

    /// The host's handle.
    pub closed spec fn context(&self) -> HostContext {
        self.context
    }

    /// Whether `response` is something that the host may hand back when the
    /// entry for `request` is invoked with the host's handle.
    pub open spec fn answers(&self, request: HostRequest, response: HostResponse) -> bool {
        call_ensures(self.host().dispatch, (self.context(), request), response)
    }

    /// What every operation does with its `request`: where the table has no
    /// entry for it, the outcome is [`HostError::Unsupported`]; where it has
    /// one, the outcome is what `read` makes of an answer of the host.
    pub open spec fn delegates<T>(
        &self,
        request: HostRequest,
        read: spec_fn(HostResponse) -> Result<T, HostError>,
        outcome: Result<T, HostError>,
    ) -> bool {
        if self.host().provides(request.operation()) {
            exists|response: HostResponse| #[trigger]
                self.answers(request, response) && outcome == read(response)
        } else {
            outcome == Err::<T, HostError>(HostError::Unsupported)
        }
    }

    /// A context over the callback table `host` and the host's handle
    /// `context`. Nothing is asked of the host yet.
    pub fn new(host: &'a HostInterface<F>, context: HostContext) -> (created: Self)
        requires
            host.callable(),
        ensures
            created.host() == host,
            created.context() == context,
    {
        ExecutionContext { host, context }
    }

    /// Invokes the entry for `request` once, if the table has it.
    fn invoke(&self, request: HostRequest) -> (answer: Result<HostResponse, HostError>)
        ensures
            match answer {
                Ok(response) => self.host().provides(request.operation()) && self.answers(
                    request,
                    response,
                ),
                Err(error) => !self.host().provides(request.operation()) && error
                    == HostError::Unsupported,
            },
    {
        proof {
            use_type_invariant(self);
        }
        if !self.host.provides(request.operation()) {
            return Err(HostError::Unsupported);
        }
        Ok((self.host.dispatch)(self.context, request))
    }

    /// The transaction and block data of the call.
    pub fn get_tx_context(&self) -> (outcome: Result<ExecutionTxContext, HostError>)
        ensures
            self.delegates(
                HostRequest::GetTxContext,
                |response: HostResponse| tx_context_of(response),
                outcome,
            ),
    {
        match self.invoke(HostRequest::GetTxContext) {
            Ok(response) => read_tx_context(response),
            Err(error) => Err(error),
        }
    }

    /// Whether the account at `address` exists.
    pub fn account_exists(&self, address: &Address) -> (outcome: Result<bool, HostError>)
        ensures
            self.delegates(
                HostRequest::AccountExists { address: address.abi() },
                |response: HostResponse| flag_of(response),
                outcome,
            ),
    {
        match self.invoke(HostRequest::AccountExists { address: address.to_abi() }) {
            Ok(response) => read_flag(response),
            Err(error) => Err(error),
        }
    }

    /// The storage word of the account at `address` under `key`.
    pub fn get_storage(&self, address: &Address, key: &Bytes32) -> (outcome: Result<
        Bytes32,
        HostError,
    >)
        ensures
            self.delegates(
                HostRequest::GetStorage { address: address.abi(), key: key.abi() },
                |response: HostResponse| word_of(response),
                outcome,
            ),
    {
        match self.invoke(
            HostRequest::GetStorage { address: address.to_abi(), key: key.to_abi() },
        ) {
            Ok(response) => read_word(response),
            Err(error) => Err(error),
        }
    }

    /// Writes `value` to the storage of the account at `address` under `key`.
    pub fn set_storage(&mut self, address: &Address, key: &Bytes32, value: &Bytes32) -> (outcome:
        Result<StorageStatus, HostError>)
        ensures
            *final(self) == *old(self),
            old(self).delegates(
                HostRequest::SetStorage {
                    address: address.abi(),
                    key: key.abi(),
                    value: value.abi(),
                },
                |response: HostResponse| storage_status_of(response),
                outcome,
            ),
    {
        match self.invoke(
            HostRequest::SetStorage {
                address: address.to_abi(),
                key: key.to_abi(),
                value: value.to_abi(),
            },
        ) {
            Ok(response) => read_storage_status(response),
            Err(error) => Err(error),
        }
    }

    /// The balance of the account at `address`.
    pub fn get_balance(&self, address: &Address) -> (outcome: Result<Uint256, HostError>)
        ensures
            self.delegates(
                HostRequest::GetBalance { address: address.abi() },
                |response: HostResponse| amount_of(response),
                outcome,
            ),
    {
        match self.invoke(HostRequest::GetBalance { address: address.to_abi() }) {
            Ok(response) => read_amount(response),
            Err(error) => Err(error),
        }
    }

    /// The size of the code of the account at `address`.
    pub fn get_code_size(&self, address: &Address) -> (outcome: Result<usize, HostError>)
        ensures
            self.delegates(
                HostRequest::GetCodeSize { address: address.abi() },
                |response: HostResponse| size_of(response),
                outcome,
            ),
    {
        match self.invoke(HostRequest::GetCodeSize { address: address.to_abi() }) {
            Ok(response) => read_size(response),
            Err(error) => Err(error),
        }
    }

    /// The hash of the code of the account at `address`.
    pub fn get_code_hash(&self, address: &Address) -> (outcome: Result<Bytes32, HostError>)
        ensures
            self.delegates(
                HostRequest::GetCodeHash { address: address.abi() },
                |response: HostResponse| word_of(response),
                outcome,
            ),
    {
        match self.invoke(HostRequest::GetCodeHash { address: address.to_abi() }) {
            Ok(response) => read_word(response),
            Err(error) => Err(error),
        }
    }

    /// Copies the code of the account at `address`, from `code_offset` on,
    /// to the start of `buffer`, as far as the buffer and the code reach, and
    /// returns how many bytes were copied. The rest of `buffer`, and all of
    /// it on an error, stays as it was.
    pub fn copy_code(&self, address: &Address, code_offset: usize, buffer: &mut [u8]) -> (outcome:
        Result<usize, HostError>)
        ensures
            final(buffer)@.len() == old(buffer)@.len(),
            self.delegates(
                HostRequest::CopyCode {
                    address: address.abi(),
                    code_offset,
                    buffer_size: old(buffer)@.len() as usize,
                },
                |response: HostResponse|
                    match code_of(response, old(buffer)@.len()) {
                        Ok(code) => Ok((code.len() as usize, code + old(buffer)@.skip(code.len() as int))),
                        Err(error) => Err(error),
                    },
                match outcome {
                    Ok(count) => Ok((count, final(buffer)@)),
                    Err(error) => Err(error),
                },
            ),
            outcome is Err ==> final(buffer)@ == old(buffer)@,
    {
        let buffer_size = buffer.len();
        let answer = self.invoke(
            HostRequest::CopyCode { address: address.to_abi(), code_offset, buffer_size },
        );
        match answer {
            Ok(response) => read_code(response, buffer),
            Err(error) => Err(error),
        }
    }

    /// Makes the nested call that `message` describes.
    pub fn call(&mut self, message: &ExecutionMessage) -> (outcome: Result<
        ExecutionResult,
        HostError,
    >)
        ensures
            *final(self) == *old(self),
            exists|request: HostRequest|
                {
                    &&& #[trigger] asks_call(request, message@)
                    &&& old(self).delegates(
                        request,
                        |response: HostResponse| outcome_of(response),
                        outcome_view(outcome),
                    )
                },
    {
        let request = HostRequest::Call { message: message.to_abi() };
        let ghost asked = request;
        let outcome = match self.invoke(request) {
            Ok(response) => read_outcome(response),
            Err(error) => Err(error),
        };
        assert(asks_call(asked, message@));
        assert(self.delegates(
            asked,
            |response: HostResponse| outcome_of(response),
            outcome_view(outcome),
        ));
        outcome
    }

    /// The hash of the block with the given number.
    pub fn get_block_hash(&self, number: i64) -> (outcome: Result<Bytes32, HostError>)
        ensures
            self.delegates(
                HostRequest::GetBlockHash { number },
                |response: HostResponse| word_of(response),
                outcome,
            ),
    {
        match self.invoke(HostRequest::GetBlockHash { number }) {
            Ok(response) => read_word(response),
            Err(error) => Err(error),
        }
    }

    /// Emits a log of the account at `address` with the given data and
    /// topics.
    pub fn emit_log(&mut self, address: &Address, data: &[u8], topics: &[Bytes32]) -> (outcome:
        Result<(), HostError>)
        ensures
            *final(self) == *old(self),
            exists|request: HostRequest|
                {
                    &&& #[trigger] asks_log(request, *address, data@, topics@)
                    &&& old(self).delegates(
                        request,
                        |response: HostResponse| done_of(response),
                        outcome,
                    )
                },
    {
        let mut raw_topics: Vec<[u8; 32]> = Vec::new();
        let mut i: usize = 0;
        while i < topics.len()
            invariant
                i <= topics@.len(),
                raw_topics@ == topics_abi(topics@.take(i as int)),
            decreases topics@.len() - i,
        {
            raw_topics.push(topics[i].to_abi());
            assert(topics@.take(i + 1) =~= topics@.take(i as int).push(topics@[i as int]));
            assert(raw_topics@ =~= topics_abi(topics@.take(i + 1)));
            i += 1;
        }
        assert(topics@.take(i as int) =~= topics@);
        let request = HostRequest::EmitLog {
            address: address.to_abi(),
            data: slice_to_vec(data),
            topics: raw_topics,
        };
        let ghost asked = request;
        let outcome = match self.invoke(request) {
            Ok(response) => read_done(response),
            Err(error) => Err(error),
        };
        assert(asks_log(asked, *address, data@, topics@));
        assert(self.delegates(asked, |response: HostResponse| done_of(response), outcome));
        outcome
    }

    /// Marks the account at `address` as touched and says whether it was
    /// touched before.
    pub fn access_account(&mut self, address: &Address) -> (outcome: Result<
        AccessStatus,
        HostError,
    >)
        ensures
            *final(self) == *old(self),
            old(self).delegates(
                HostRequest::AccessAccount { address: address.abi() },
                |response: HostResponse| access_status_of(response),
                outcome,
            ),
    {
        match self.invoke(HostRequest::AccessAccount { address: address.to_abi() }) {
            Ok(response) => read_access_status(response),
            Err(error) => Err(error),
        }
    }

    /// Marks the storage slot of the account at `address` under `key` as
    /// touched and says whether it was touched before.
    pub fn access_storage(&mut self, address: &Address, key: &Bytes32) -> (outcome: Result<
        AccessStatus,
        HostError,
    >)
        ensures
            *final(self) == *old(self),
            old(self).delegates(
                HostRequest::AccessStorage { address: address.abi(), key: key.abi() },
                |response: HostResponse| access_status_of(response),
                outcome,
            ),
    {
        match self.invoke(
            HostRequest::AccessStorage { address: address.to_abi(), key: key.to_abi() },
        ) {
            Ok(response) => read_access_status(response),
            Err(error) => Err(error),
        }
    }
}

} // verus!
