//! A small virtual machine that keeps the options it is given and runs
//! nothing: every call succeeds at once.

use crate::abi::{HostContext, HostRequest, HostResponse};
use crate::context::ExecutionContext;
use crate::message::{ExecutionMessage, MessageView};
use crate::result::{ExecutionResult, ResultView};
use crate::types::Revision;
use crate::vm::{SetOptionError, ZvmcVm};
use vstd::hash_map::StringHashMap;
use vstd::prelude::*;

verus! {

broadcast use vstd::string::to_string_from_display_ensures_for_str;

/// A virtual machine for trying the connector out.
pub struct FooVM {
    options: StringHashMap<String>,
}

impl View for FooVM {
    type V = Map<Seq<char>, Seq<char>>;

    /// The options that were set, each with its latest value.
    closed spec fn view(&self) -> Map<Seq<char>, Seq<char>> {
        self.options@.map_values(|value: String| value@)
    }
}

impl FooVM {
    /// The value of the option `key`, if it was set.
    pub fn get_option(&self, key: &str) -> (value: Option<&String>)
        ensures
            match value {
                Some(value) => self@.contains_key(key@) && self@[key@] == value@,
                None => !self@.contains_key(key@),
            },
    {
        self.options.get(key)
    }
}

impl ZvmcVm for FooVM {
    /// The one outcome of every call: success with 1337 gas left, 21
    /// refunded and no output.
    open spec fn yields(
        &self,
        revision: Revision,
        code: Seq<u8>,
        message: MessageView,
        result: ResultView,
    ) -> bool {
        result == ResultView::success(1337, 21, None)
    }

    /// A virtual machine with no option set.
    fn init() -> (vm: Self)
        ensures
            vm@ == Map::<Seq<char>, Seq<char>>::empty(),
    {
        let vm = FooVM { options: StringHashMap::new() };
        assert(vm@ =~= Map::<Seq<char>, Seq<char>>::empty());
        vm
    }

    /// Takes every option: `key` now has the value `value`, and the other
    /// options are as they were.
    fn set_option(&mut self, key: &str, value: &str) -> (outcome: Result<(), SetOptionError>)
        ensures
            outcome is Ok,
            final(self)@ == old(self)@.insert(key@, value@),
    {
        self.options.insert(key.to_string(), value.to_string());
        assert(self@ =~= old(self)@.insert(key@, value@));
        Ok(())
    }

    /// Succeeds at once, whatever the call. The host is not asked anything.
    fn execute<F: Fn(HostContext, HostRequest) -> HostResponse>(
        &self,
        revision: Revision,
        code: &[u8],
        message: &ExecutionMessage,
        context: Option<&mut ExecutionContext<F>>,
    ) -> (result: ExecutionResult)
    {
        ExecutionResult::success(1337, 21, None)
    }
}

} // verus!
