//! The fixed-width value types that cross the boundary, each with its ABI shape.
//!
//! A byte type crosses as its bytes. An enumeration crosses as the integer that
//! the ABI gives to each of its members; an integer that belongs to no member
//! is not a value of the type. The members of an enumeration are ordered as
//! their integers are.

use std::cmp::Ordering;
use vstd::prelude::*;
use vstd::std_specs::cmp::PartialOrdSpec;

verus! {

/// `n` zero bytes.
pub open spec fn zero_bytes(n: nat) -> Seq<u8> {
    Seq::new(n, |i: int| 0u8)
}

/// Whether two arrays hold the same bytes.
fn same_bytes<const N: usize>(a: &[u8; N], b: &[u8; N]) -> (r: bool)
    ensures
        r == (a@ == b@),
{
    let mut i: usize = 0;
    while i < N
        invariant
            i <= N,
            forall|j: int| 0 <= j < i ==> a[j] == b[j],
        decreases N - i,
    {
        if a[i] != b[i] {
            return false;
        }
        i += 1;
    }
    assert(a@ =~= b@);
    true
}

/// A 20-byte account address.
#[derive(Clone, Copy, Debug, Hash)]
pub struct Address {
    pub bytes: [u8; 20],
}

impl View for Address {
    type V = Seq<u8>;

    open spec fn view(&self) -> Seq<u8> {
        self.bytes@
    }
}

impl Address {
    /// The value that the ABI bytes `bytes` stand for.
    pub open spec fn of_abi(bytes: [u8; 20]) -> Self {
        Address { bytes }
    }

    /// The ABI bytes of the value.
    pub open spec fn abi(self) -> [u8; 20] {
        self.bytes
    }

    /// Takes an address over from its ABI bytes, unchanged.
    pub fn from_abi(bytes: [u8; 20]) -> (value: Self)
        ensures
            value == Self::of_abi(bytes),
    {
        Address { bytes }
    }

    /// Hands an address out as its ABI bytes, unchanged.
    pub fn to_abi(&self) -> (bytes: [u8; 20])
        ensures
            bytes == self.abi(),
    {
        self.bytes
    }

    /// Two values with the same bytes are the same value, and the other way round.
    pub proof fn lemma_equal_by_bytes(a: Self, b: Self)
        ensures
            (a@ == b@) <==> (a == b),
    {
        if a@ == b@ {
            assert(a.bytes =~= b.bytes);
        }
    }

    /// Marshaling to the ABI and back gives the value itself, and every array
    /// of ABI bytes is the shape of exactly one value.
    pub proof fn lemma_abi_round_trip(value: Self, bytes: [u8; 20])
        ensures
            Self::of_abi(value.abi()) == value,
            Self::of_abi(bytes).abi() == bytes,
    {
    }
}

impl Default for Address {
    /// The value whose bytes are all zero.
    fn default() -> (value: Self)
        ensures
            value@ == zero_bytes(20),
    {
        let value = Address { bytes: [0u8; 20] };
        assert(value@ =~= zero_bytes(20));
        value
    }
}

impl PartialEq for Address {
    fn eq(&self, other: &Self) -> (r: bool) {
        same_bytes(&self.bytes, &other.bytes)
    }
}

impl Eq for Address {
}

impl vstd::std_specs::cmp::PartialEqSpecImpl for Address {
    open spec fn obeys_eq_spec() -> bool {
        true
    }

    open spec fn eq_spec(&self, other: &Self) -> bool {
        self@ == other@
    }
}

/// A 32-byte value, used for hashes and storage words.
#[derive(Clone, Copy, Debug, Hash)]
pub struct Bytes32 {
    pub bytes: [u8; 32],
}

impl View for Bytes32 {
    type V = Seq<u8>;

    open spec fn view(&self) -> Seq<u8> {
        self.bytes@
    }
}

impl Bytes32 {
    /// The value that the ABI bytes `bytes` stand for.
    pub open spec fn of_abi(bytes: [u8; 32]) -> Self {
        Bytes32 { bytes }
    }

    /// The ABI bytes of the value.
    pub open spec fn abi(self) -> [u8; 32] {
        self.bytes
    }

    /// Takes a 32-byte value over from its ABI bytes, unchanged.
    pub fn from_abi(bytes: [u8; 32]) -> (value: Self)
        ensures
            value == Self::of_abi(bytes),
    {
        Bytes32 { bytes }
    }

    /// Hands a 32-byte value out as its ABI bytes, unchanged.
    pub fn to_abi(&self) -> (bytes: [u8; 32])
        ensures
            bytes == self.abi(),
    {
        self.bytes
    }

    /// Two values with the same bytes are the same value, and the other way round.
    pub proof fn lemma_equal_by_bytes(a: Self, b: Self)
        ensures
            (a@ == b@) <==> (a == b),
    {
        if a@ == b@ {
            assert(a.bytes =~= b.bytes);
        }
    }

    /// Marshaling to the ABI and back gives the value itself, and every array
    /// of ABI bytes is the shape of exactly one value.
    pub proof fn lemma_abi_round_trip(value: Self, bytes: [u8; 32])
        ensures
            Self::of_abi(value.abi()) == value,
            Self::of_abi(bytes).abi() == bytes,
    {
    }
}

impl Default for Bytes32 {
    /// The value whose bytes are all zero.
    fn default() -> (value: Self)
        ensures
            value@ == zero_bytes(32),
    {
        let value = Bytes32 { bytes: [0u8; 32] };
        assert(value@ =~= zero_bytes(32));
        value
    }
}

impl PartialEq for Bytes32 {
    fn eq(&self, other: &Self) -> (r: bool) {
        same_bytes(&self.bytes, &other.bytes)
    }
}

impl Eq for Bytes32 {
}

impl vstd::std_specs::cmp::PartialEqSpecImpl for Bytes32 {
    open spec fn obeys_eq_spec() -> bool {
        true
    }

    open spec fn eq_spec(&self, other: &Self) -> bool {
        self@ == other@
    }
}

/// A 256-bit unsigned integer, held as 32 bytes, most significant byte first.
#[derive(Clone, Copy, Debug, Hash)]
pub struct Uint256 {
    pub bytes: [u8; 32],
}

impl View for Uint256 {
    type V = Seq<u8>;

    open spec fn view(&self) -> Seq<u8> {
        self.bytes@
    }
}

impl Uint256 {
    /// The value that the ABI bytes `bytes` stand for.
    pub open spec fn of_abi(bytes: [u8; 32]) -> Self {
        Uint256 { bytes }
    }

    /// The ABI bytes of the value.
    pub open spec fn abi(self) -> [u8; 32] {
        self.bytes
    }

    /// Takes a 256-bit integer over from its ABI bytes, unchanged.
    pub fn from_abi(bytes: [u8; 32]) -> (value: Self)
        ensures
            value == Self::of_abi(bytes),
    {
        Uint256 { bytes }
    }

    /// Hands a 256-bit integer out as its ABI bytes, unchanged.
    pub fn to_abi(&self) -> (bytes: [u8; 32])
        ensures
            bytes == self.abi(),
    {
        self.bytes
    }

    /// Two values with the same bytes are the same value, and the other way round.
    pub proof fn lemma_equal_by_bytes(a: Self, b: Self)
        ensures
            (a@ == b@) <==> (a == b),
    {
        if a@ == b@ {
            assert(a.bytes =~= b.bytes);
        }
    }

    /// Marshaling to the ABI and back gives the value itself, and every array
    /// of ABI bytes is the shape of exactly one value.
    pub proof fn lemma_abi_round_trip(value: Self, bytes: [u8; 32])
        ensures
            Self::of_abi(value.abi()) == value,
            Self::of_abi(bytes).abi() == bytes,
    {
    }
}

impl Default for Uint256 {
    /// The value whose bytes are all zero.
    fn default() -> (value: Self)
        ensures
            value@ == zero_bytes(32),
    {
        let value = Uint256 { bytes: [0u8; 32] };
        assert(value@ =~= zero_bytes(32));
        value
    }
}

impl PartialEq for Uint256 {
    fn eq(&self, other: &Self) -> (r: bool) {
        same_bytes(&self.bytes, &other.bytes)
    }
}

impl Eq for Uint256 {
}

impl vstd::std_specs::cmp::PartialEqSpecImpl for Uint256 {
    open spec fn obeys_eq_spec() -> bool {
        true
    }

    open spec fn eq_spec(&self, other: &Self) -> bool {
        self@ == other@
    }
}

/// The kind of a call.
#[allow(non_camel_case_types)]
#[derive(Clone, Copy, Debug, PartialEq, Eq, Hash, Structural)]
pub enum MessageKind {
    /// A plain call.
    ZVMC_CALL,
    /// A call that runs foreign code on the caller's own state; the value is ignored.
    ZVMC_DELEGATECALL,
    /// A contract creation.
    ZVMC_CREATE,
    /// A contract creation at an address fixed by a salt.
    ZVMC_CREATE2,
}

impl MessageKind {
    /// The integer that the ABI gives to the member.
    pub open spec fn code(self) -> int {
        match self {
            MessageKind::ZVMC_CALL => 0,
            MessageKind::ZVMC_DELEGATECALL => 1,
            MessageKind::ZVMC_CREATE => 3,
            MessageKind::ZVMC_CREATE2 => 4,
        }
    }

    /// The member that the ABI integer `code` stands for, if there is one.
    pub open spec fn of_code(code: int) -> Option<Self> {
        if code == 0 {
            Some(MessageKind::ZVMC_CALL)
        } else if code == 1 {
            Some(MessageKind::ZVMC_DELEGATECALL)
        } else if code == 3 {
            Some(MessageKind::ZVMC_CREATE)
        } else if code == 4 {
            Some(MessageKind::ZVMC_CREATE2)
        } else {
            None
        }
    }

    /// Hands a call kind out as its ABI integer.
    pub fn to_abi(self) -> (code: i32)
        ensures
            code == self.code(),
    {
        match self {
            MessageKind::ZVMC_CALL => 0,
            MessageKind::ZVMC_DELEGATECALL => 1,
            MessageKind::ZVMC_CREATE => 3,
            MessageKind::ZVMC_CREATE2 => 4,
        }
    }

    /// Takes a call kind over from its ABI integer; `None` where the integer
    /// belongs to no member.
    pub fn from_abi(code: i32) -> (value: Option<Self>)
        ensures
            value == Self::of_code(code as int),
    {
        if code == 0 {
            Some(MessageKind::ZVMC_CALL)
        } else if code == 1 {
            Some(MessageKind::ZVMC_DELEGATECALL)
        } else if code == 3 {
            Some(MessageKind::ZVMC_CREATE)
        } else if code == 4 {
            Some(MessageKind::ZVMC_CREATE2)
        } else {
            None
        }
    }

    /// Marshaling to the ABI and back gives the member itself, and an ABI
    /// integer stands for at most one member, whose integer it is.
    pub proof fn lemma_abi_round_trip(value: Self, code: int)
        ensures
            Self::of_code(value.code()) == Some(value),
            Self::of_code(code) matches Some(member) ==> member.code() == code,
    {
    }

    /// Marshaling keeps the order: one member comes before another exactly
    /// where its ABI integer is the smaller one, and no two members share an
    /// integer.
    pub proof fn lemma_abi_keeps_order(a: Self, b: Self)
        ensures
            (a.partial_cmp_spec(&b) == Some(Ordering::Less)) <==> a.code() < b.code(),
            (a.partial_cmp_spec(&b) == Some(Ordering::Equal)) <==> a == b,
            (a.partial_cmp_spec(&b) == Some(Ordering::Greater)) <==> a.code() > b.code(),
    {
    }
}

impl PartialOrd for MessageKind {
    /// Members compare as their ABI integers do.
    fn partial_cmp(&self, other: &Self) -> (order: Option<Ordering>) {
        let left = self.to_abi();
        let right = other.to_abi();
        if left < right {
            Some(Ordering::Less)
        } else if left == right {
            Some(Ordering::Equal)
        } else {
            Some(Ordering::Greater)
        }
    }
}

impl vstd::std_specs::cmp::PartialOrdSpecImpl for MessageKind {
    open spec fn obeys_partial_cmp_spec() -> bool {
        true
    }

    open spec fn partial_cmp_spec(&self, other: &Self) -> Option<Ordering> {
        if self.code() < other.code() {
            Some(Ordering::Less)
        } else if self.code() == other.code() {
            Some(Ordering::Equal)
        } else {
            Some(Ordering::Greater)
        }
    }
}

impl Default for MessageKind {
    /// The member whose ABI integer is zero.
    fn default() -> (value: Self)
        ensures
            value == MessageKind::ZVMC_CALL,
            value.code() == 0,
    {
        MessageKind::ZVMC_CALL
    }
}

/// A flag bit of a call.
#[allow(non_camel_case_types)]
#[derive(Clone, Copy, Debug, PartialEq, Eq, Hash, Structural)]
pub enum MessageFlags {
    /// The call must not change any state.
    ZVMC_STATIC,
}

impl MessageFlags {
    /// The integer that the ABI gives to the member.
    pub open spec fn code(self) -> int {
        match self {
            MessageFlags::ZVMC_STATIC => 1,
        }
    }

    /// The member that the ABI integer `code` stands for, if there is one.
    pub open spec fn of_code(code: int) -> Option<Self> {
        if code == 1 {
            Some(MessageFlags::ZVMC_STATIC)
        } else {
            None
        }
    }

    /// Hands a flag out as its ABI integer.
    pub fn to_abi(self) -> (code: u32)
        ensures
            code == self.code(),
    {
        match self {
            MessageFlags::ZVMC_STATIC => 1,
        }
    }

    /// Takes a flag over from its ABI integer; `None` where the integer
    /// belongs to no member.
    pub fn from_abi(code: u32) -> (value: Option<Self>)
        ensures
            value == Self::of_code(code as int),
    {
        if code == 1 {
            Some(MessageFlags::ZVMC_STATIC)
        } else {
            None
        }
    }

    /// Marshaling to the ABI and back gives the member itself, and an ABI
    /// integer stands for at most one member, whose integer it is.
    pub proof fn lemma_abi_round_trip(value: Self, code: int)
        ensures
            Self::of_code(value.code()) == Some(value),
            Self::of_code(code) matches Some(member) ==> member.code() == code,
    {
    }

    /// Marshaling keeps the order: one member comes before another exactly
    /// where its ABI integer is the smaller one, and no two members share an
    /// integer.
    pub proof fn lemma_abi_keeps_order(a: Self, b: Self)
        ensures
            (a.partial_cmp_spec(&b) == Some(Ordering::Less)) <==> a.code() < b.code(),
            (a.partial_cmp_spec(&b) == Some(Ordering::Equal)) <==> a == b,
            (a.partial_cmp_spec(&b) == Some(Ordering::Greater)) <==> a.code() > b.code(),
    {
    }
}

impl PartialOrd for MessageFlags {
    /// Members compare as their ABI integers do.
    fn partial_cmp(&self, other: &Self) -> (order: Option<Ordering>) {
        let left = self.to_abi();
        let right = other.to_abi();
        if left < right {
            Some(Ordering::Less)
        } else if left == right {
            Some(Ordering::Equal)
        } else {
            Some(Ordering::Greater)
        }
    }
}

impl vstd::std_specs::cmp::PartialOrdSpecImpl for MessageFlags {
    open spec fn obeys_partial_cmp_spec() -> bool {
        true
    }

    open spec fn partial_cmp_spec(&self, other: &Self) -> Option<Ordering> {
        if self.code() < other.code() {
            Some(Ordering::Less)
        } else if self.code() == other.code() {
            Some(Ordering::Equal)
        } else {
            Some(Ordering::Greater)
        }
    }
}

/// How an execution ended.
#[allow(non_camel_case_types)]
#[derive(Clone, Copy, Debug, PartialEq, Eq, Hash, Structural)]
pub enum StatusCode {
    /// Execution finished with success.
    ZVMC_SUCCESS,
    /// Generic execution failure.
    ZVMC_FAILURE,
    /// Execution ended by a revert; gas and output are handed back.
    ZVMC_REVERT,
    /// The execution ran out of gas.
    ZVMC_OUT_OF_GAS,
    /// The designated invalid instruction was hit.
    ZVMC_INVALID_INSTRUCTION,
    /// An undefined instruction was met.
    ZVMC_UNDEFINED_INSTRUCTION,
    /// The stack would have grown over its limit.
    ZVMC_STACK_OVERFLOW,
    /// An instruction asked for more stack items than there are.
    ZVMC_STACK_UNDERFLOW,
    /// A jump to a place that is no jump destination.
    ZVMC_BAD_JUMP_DESTINATION,
    /// A read outside memory bounds.
    ZVMC_INVALID_MEMORY_ACCESS,
    /// The call depth went over its limit.
    ZVMC_CALL_DEPTH_EXCEEDED,
    /// A state change was tried in static mode.
    ZVMC_STATIC_MODE_VIOLATION,
    /// A call to a precompiled or system contract failed.
    ZVMC_PRECOMPILE_FAILURE,
    /// Contract validation failed.
    ZVMC_CONTRACT_VALIDATION_FAILURE,
    /// An argument to a state accessing method is out of range.
    ZVMC_ARGUMENT_OUT_OF_RANGE,
    /// A WebAssembly unreachable instruction was hit.
    ZVMC_WASM_UNREACHABLE_INSTRUCTION,
    /// A WebAssembly trap was hit.
    ZVMC_WASM_TRAP,
    /// The caller lacks the funds for the value transfer.
    ZVMC_INSUFFICIENT_BALANCE,
    /// The virtual machine failed for a reason of its own.
    ZVMC_INTERNAL_ERROR,
    /// The virtual machine refused to run the code.
    ZVMC_REJECTED,
    /// The virtual machine could not allocate the memory it needs.
    ZVMC_OUT_OF_MEMORY,
}

impl StatusCode {
    /// The integer that the ABI gives to the member.
    pub open spec fn code(self) -> int {
        match self {
            StatusCode::ZVMC_SUCCESS => 0,
            StatusCode::ZVMC_FAILURE => 1,
            StatusCode::ZVMC_REVERT => 2,
            StatusCode::ZVMC_OUT_OF_GAS => 3,
            StatusCode::ZVMC_INVALID_INSTRUCTION => 4,
            StatusCode::ZVMC_UNDEFINED_INSTRUCTION => 5,
            StatusCode::ZVMC_STACK_OVERFLOW => 6,
            StatusCode::ZVMC_STACK_UNDERFLOW => 7,
            StatusCode::ZVMC_BAD_JUMP_DESTINATION => 8,
            StatusCode::ZVMC_INVALID_MEMORY_ACCESS => 9,
            StatusCode::ZVMC_CALL_DEPTH_EXCEEDED => 10,
            StatusCode::ZVMC_STATIC_MODE_VIOLATION => 11,
            StatusCode::ZVMC_PRECOMPILE_FAILURE => 12,
            StatusCode::ZVMC_CONTRACT_VALIDATION_FAILURE => 13,
            StatusCode::ZVMC_ARGUMENT_OUT_OF_RANGE => 14,
            StatusCode::ZVMC_WASM_UNREACHABLE_INSTRUCTION => 15,
            StatusCode::ZVMC_WASM_TRAP => 16,
            StatusCode::ZVMC_INSUFFICIENT_BALANCE => 17,
            StatusCode::ZVMC_INTERNAL_ERROR => -1,
            StatusCode::ZVMC_REJECTED => -2,
            StatusCode::ZVMC_OUT_OF_MEMORY => -3,
        }
    }

    /// The member that the ABI integer `code` stands for, if there is one.
    pub open spec fn of_code(code: int) -> Option<Self> {
        if code == 0 {
            Some(StatusCode::ZVMC_SUCCESS)
        } else if code == 1 {
            Some(StatusCode::ZVMC_FAILURE)
        } else if code == 2 {
            Some(StatusCode::ZVMC_REVERT)
        } else if code == 3 {
            Some(StatusCode::ZVMC_OUT_OF_GAS)
        } else if code == 4 {
            Some(StatusCode::ZVMC_INVALID_INSTRUCTION)
        } else if code == 5 {
            Some(StatusCode::ZVMC_UNDEFINED_INSTRUCTION)
        } else if code == 6 {
            Some(StatusCode::ZVMC_STACK_OVERFLOW)
        } else if code == 7 {
            Some(StatusCode::ZVMC_STACK_UNDERFLOW)
        } else if code == 8 {
            Some(StatusCode::ZVMC_BAD_JUMP_DESTINATION)
        } else if code == 9 {
            Some(StatusCode::ZVMC_INVALID_MEMORY_ACCESS)
        } else if code == 10 {
            Some(StatusCode::ZVMC_CALL_DEPTH_EXCEEDED)
        } else if code == 11 {
            Some(StatusCode::ZVMC_STATIC_MODE_VIOLATION)
        } else if code == 12 {
            Some(StatusCode::ZVMC_PRECOMPILE_FAILURE)
        } else if code == 13 {
            Some(StatusCode::ZVMC_CONTRACT_VALIDATION_FAILURE)
        } else if code == 14 {
            Some(StatusCode::ZVMC_ARGUMENT_OUT_OF_RANGE)
        } else if code == 15 {
            Some(StatusCode::ZVMC_WASM_UNREACHABLE_INSTRUCTION)
        } else if code == 16 {
            Some(StatusCode::ZVMC_WASM_TRAP)
        } else if code == 17 {
            Some(StatusCode::ZVMC_INSUFFICIENT_BALANCE)
        } else if code == -1 {
            Some(StatusCode::ZVMC_INTERNAL_ERROR)
        } else if code == -2 {
            Some(StatusCode::ZVMC_REJECTED)
        } else if code == -3 {
            Some(StatusCode::ZVMC_OUT_OF_MEMORY)
        } else {
            None
        }
    }

    /// Hands a status code out as its ABI integer.
    pub fn to_abi(self) -> (code: i32)
        ensures
            code == self.code(),
    {
        match self {
            StatusCode::ZVMC_SUCCESS => 0,
            StatusCode::ZVMC_FAILURE => 1,
            StatusCode::ZVMC_REVERT => 2,
            StatusCode::ZVMC_OUT_OF_GAS => 3,
            StatusCode::ZVMC_INVALID_INSTRUCTION => 4,
            StatusCode::ZVMC_UNDEFINED_INSTRUCTION => 5,
            StatusCode::ZVMC_STACK_OVERFLOW => 6,
            StatusCode::ZVMC_STACK_UNDERFLOW => 7,
            StatusCode::ZVMC_BAD_JUMP_DESTINATION => 8,
            StatusCode::ZVMC_INVALID_MEMORY_ACCESS => 9,
            StatusCode::ZVMC_CALL_DEPTH_EXCEEDED => 10,
            StatusCode::ZVMC_STATIC_MODE_VIOLATION => 11,
            StatusCode::ZVMC_PRECOMPILE_FAILURE => 12,
            StatusCode::ZVMC_CONTRACT_VALIDATION_FAILURE => 13,
            StatusCode::ZVMC_ARGUMENT_OUT_OF_RANGE => 14,
            StatusCode::ZVMC_WASM_UNREACHABLE_INSTRUCTION => 15,
            StatusCode::ZVMC_WASM_TRAP => 16,
            StatusCode::ZVMC_INSUFFICIENT_BALANCE => 17,
            StatusCode::ZVMC_INTERNAL_ERROR => -1,
            StatusCode::ZVMC_REJECTED => -2,
            StatusCode::ZVMC_OUT_OF_MEMORY => -3,
        }
    }

    /// Takes a status code over from its ABI integer; `None` where the integer
    /// belongs to no member.
    pub fn from_abi(code: i32) -> (value: Option<Self>)
        ensures
            value == Self::of_code(code as int),
    {
        if code == 0 {
            Some(StatusCode::ZVMC_SUCCESS)
        } else if code == 1 {
            Some(StatusCode::ZVMC_FAILURE)
        } else if code == 2 {
            Some(StatusCode::ZVMC_REVERT)
        } else if code == 3 {
            Some(StatusCode::ZVMC_OUT_OF_GAS)
        } else if code == 4 {
            Some(StatusCode::ZVMC_INVALID_INSTRUCTION)
        } else if code == 5 {
            Some(StatusCode::ZVMC_UNDEFINED_INSTRUCTION)
        } else if code == 6 {
            Some(StatusCode::ZVMC_STACK_OVERFLOW)
        } else if code == 7 {
            Some(StatusCode::ZVMC_STACK_UNDERFLOW)
        } else if code == 8 {
            Some(StatusCode::ZVMC_BAD_JUMP_DESTINATION)
        } else if code == 9 {
            Some(StatusCode::ZVMC_INVALID_MEMORY_ACCESS)
        } else if code == 10 {
            Some(StatusCode::ZVMC_CALL_DEPTH_EXCEEDED)
        } else if code == 11 {
            Some(StatusCode::ZVMC_STATIC_MODE_VIOLATION)
        } else if code == 12 {
            Some(StatusCode::ZVMC_PRECOMPILE_FAILURE)
        } else if code == 13 {
            Some(StatusCode::ZVMC_CONTRACT_VALIDATION_FAILURE)
        } else if code == 14 {
            Some(StatusCode::ZVMC_ARGUMENT_OUT_OF_RANGE)
        } else if code == 15 {
            Some(StatusCode::ZVMC_WASM_UNREACHABLE_INSTRUCTION)
        } else if code == 16 {
            Some(StatusCode::ZVMC_WASM_TRAP)
        } else if code == 17 {
            Some(StatusCode::ZVMC_INSUFFICIENT_BALANCE)
        } else if code == -1 {
            Some(StatusCode::ZVMC_INTERNAL_ERROR)
        } else if code == -2 {
            Some(StatusCode::ZVMC_REJECTED)
        } else if code == -3 {
            Some(StatusCode::ZVMC_OUT_OF_MEMORY)
        } else {
            None
        }
    }

    /// Marshaling to the ABI and back gives the member itself, and an ABI
    /// integer stands for at most one member, whose integer it is.
    pub proof fn lemma_abi_round_trip(value: Self, code: int)
        ensures
            Self::of_code(value.code()) == Some(value),
            Self::of_code(code) matches Some(member) ==> member.code() == code,
    {
    }

    /// Marshaling keeps the order: one member comes before another exactly
    /// where its ABI integer is the smaller one, and no two members share an
    /// integer.
    pub proof fn lemma_abi_keeps_order(a: Self, b: Self)
        ensures
            (a.partial_cmp_spec(&b) == Some(Ordering::Less)) <==> a.code() < b.code(),
            (a.partial_cmp_spec(&b) == Some(Ordering::Equal)) <==> a == b,
            (a.partial_cmp_spec(&b) == Some(Ordering::Greater)) <==> a.code() > b.code(),
    {
    }
}

impl PartialOrd for StatusCode {
    /// Members compare as their ABI integers do.
    fn partial_cmp(&self, other: &Self) -> (order: Option<Ordering>) {
        let left = self.to_abi();
        let right = other.to_abi();
        if left < right {
            Some(Ordering::Less)
        } else if left == right {
            Some(Ordering::Equal)
        } else {
            Some(Ordering::Greater)
        }
    }
}

impl vstd::std_specs::cmp::PartialOrdSpecImpl for StatusCode {
    open spec fn obeys_partial_cmp_spec() -> bool {
        true
    }

    open spec fn partial_cmp_spec(&self, other: &Self) -> Option<Ordering> {
        if self.code() < other.code() {
            Some(Ordering::Less)
        } else if self.code() == other.code() {
            Some(Ordering::Equal)
        } else {
            Some(Ordering::Greater)
        }
    }
}

impl Default for StatusCode {
    /// The member whose ABI integer is zero.
    fn default() -> (value: Self)
        ensures
            value == StatusCode::ZVMC_SUCCESS,
            value.code() == 0,
    {
        StatusCode::ZVMC_SUCCESS
    }
}

/// Whether an account or a storage slot was touched before.
#[allow(non_camel_case_types)]
#[derive(Clone, Copy, Debug, PartialEq, Eq, Hash, Structural)]
pub enum AccessStatus {
    /// Not touched before.
    ZVMC_ACCESS_COLD,
    /// Touched before.
    ZVMC_ACCESS_WARM,
}

impl AccessStatus {
    /// The integer that the ABI gives to the member.
    pub open spec fn code(self) -> int {
        match self {
            AccessStatus::ZVMC_ACCESS_COLD => 0,
            AccessStatus::ZVMC_ACCESS_WARM => 1,
        }
    }

    /// The member that the ABI integer `code` stands for, if there is one.
    pub open spec fn of_code(code: int) -> Option<Self> {
        if code == 0 {
            Some(AccessStatus::ZVMC_ACCESS_COLD)
        } else if code == 1 {
            Some(AccessStatus::ZVMC_ACCESS_WARM)
        } else {
            None
        }
    }

    /// Hands an access status out as its ABI integer.
    pub fn to_abi(self) -> (code: i32)
        ensures
            code == self.code(),
    {
        match self {
            AccessStatus::ZVMC_ACCESS_COLD => 0,
            AccessStatus::ZVMC_ACCESS_WARM => 1,
        }
    }

    /// Takes an access status over from its ABI integer; `None` where the integer
    /// belongs to no member.
    pub fn from_abi(code: i32) -> (value: Option<Self>)
        ensures
            value == Self::of_code(code as int),
    {
        if code == 0 {
            Some(AccessStatus::ZVMC_ACCESS_COLD)
        } else if code == 1 {
            Some(AccessStatus::ZVMC_ACCESS_WARM)
        } else {
            None
        }
    }

    /// Marshaling to the ABI and back gives the member itself, and an ABI
    /// integer stands for at most one member, whose integer it is.
    pub proof fn lemma_abi_round_trip(value: Self, code: int)
        ensures
            Self::of_code(value.code()) == Some(value),
            Self::of_code(code) matches Some(member) ==> member.code() == code,
    {
    }

    /// Marshaling keeps the order: one member comes before another exactly
    /// where its ABI integer is the smaller one, and no two members share an
    /// integer.
    pub proof fn lemma_abi_keeps_order(a: Self, b: Self)
        ensures
            (a.partial_cmp_spec(&b) == Some(Ordering::Less)) <==> a.code() < b.code(),
            (a.partial_cmp_spec(&b) == Some(Ordering::Equal)) <==> a == b,
            (a.partial_cmp_spec(&b) == Some(Ordering::Greater)) <==> a.code() > b.code(),
    {
    }
}

impl PartialOrd for AccessStatus {
    /// Members compare as their ABI integers do.
    fn partial_cmp(&self, other: &Self) -> (order: Option<Ordering>) {
        let left = self.to_abi();
        let right = other.to_abi();
        if left < right {
            Some(Ordering::Less)
        } else if left == right {
            Some(Ordering::Equal)
        } else {
            Some(Ordering::Greater)
        }
    }
}

impl vstd::std_specs::cmp::PartialOrdSpecImpl for AccessStatus {
    open spec fn obeys_partial_cmp_spec() -> bool {
        true
    }

    open spec fn partial_cmp_spec(&self, other: &Self) -> Option<Ordering> {
        if self.code() < other.code() {
            Some(Ordering::Less)
        } else if self.code() == other.code() {
            Some(Ordering::Equal)
        } else {
            Some(Ordering::Greater)
        }
    }
}

impl Default for AccessStatus {
    /// The member whose ABI integer is zero.
    fn default() -> (value: Self)
        ensures
            value == AccessStatus::ZVMC_ACCESS_COLD,
            value.code() == 0,
    {
        AccessStatus::ZVMC_ACCESS_COLD
    }
}

/// What a storage write did to the slot.
#[allow(non_camel_case_types)]
#[derive(Clone, Copy, Debug, PartialEq, Eq, Hash, Structural)]
pub enum StorageStatus {
    /// The new value was assigned with no other effect worth telling.
    ZVMC_STORAGE_ASSIGNED,
    /// An empty slot got a value.
    ZVMC_STORAGE_ADDED,
    /// A slot lost its value.
    ZVMC_STORAGE_DELETED,
    /// A value was replaced by another.
    ZVMC_STORAGE_MODIFIED,
    /// A slot emptied earlier got a value again.
    ZVMC_STORAGE_DELETED_ADDED,
    /// A slot changed earlier was emptied.
    ZVMC_STORAGE_MODIFIED_DELETED,
    /// A slot emptied earlier got its first value back.
    ZVMC_STORAGE_DELETED_RESTORED,
    /// A slot filled earlier was emptied again.
    ZVMC_STORAGE_ADDED_DELETED,
    /// A slot changed earlier got its first value back.
    ZVMC_STORAGE_MODIFIED_RESTORED,
}

impl StorageStatus {
    /// The integer that the ABI gives to the member.
    pub open spec fn code(self) -> int {
        match self {
            StorageStatus::ZVMC_STORAGE_ASSIGNED => 0,
            StorageStatus::ZVMC_STORAGE_ADDED => 1,
            StorageStatus::ZVMC_STORAGE_DELETED => 2,
            StorageStatus::ZVMC_STORAGE_MODIFIED => 3,
            StorageStatus::ZVMC_STORAGE_DELETED_ADDED => 4,
            StorageStatus::ZVMC_STORAGE_MODIFIED_DELETED => 5,
            StorageStatus::ZVMC_STORAGE_DELETED_RESTORED => 6,
            StorageStatus::ZVMC_STORAGE_ADDED_DELETED => 7,
            StorageStatus::ZVMC_STORAGE_MODIFIED_RESTORED => 8,
        }
    }

    /// The member that the ABI integer `code` stands for, if there is one.
    pub open spec fn of_code(code: int) -> Option<Self> {
        if code == 0 {
            Some(StorageStatus::ZVMC_STORAGE_ASSIGNED)
        } else if code == 1 {
            Some(StorageStatus::ZVMC_STORAGE_ADDED)
        } else if code == 2 {
            Some(StorageStatus::ZVMC_STORAGE_DELETED)
        } else if code == 3 {
            Some(StorageStatus::ZVMC_STORAGE_MODIFIED)
        } else if code == 4 {
            Some(StorageStatus::ZVMC_STORAGE_DELETED_ADDED)
        } else if code == 5 {
            Some(StorageStatus::ZVMC_STORAGE_MODIFIED_DELETED)
        } else if code == 6 {
            Some(StorageStatus::ZVMC_STORAGE_DELETED_RESTORED)
        } else if code == 7 {
            Some(StorageStatus::ZVMC_STORAGE_ADDED_DELETED)
        } else if code == 8 {
            Some(StorageStatus::ZVMC_STORAGE_MODIFIED_RESTORED)
        } else {
            None
        }
    }

    /// Hands a storage status out as its ABI integer.
    pub fn to_abi(self) -> (code: i32)
        ensures
            code == self.code(),
    {
        match self {
            StorageStatus::ZVMC_STORAGE_ASSIGNED => 0,
            StorageStatus::ZVMC_STORAGE_ADDED => 1,
            StorageStatus::ZVMC_STORAGE_DELETED => 2,
            StorageStatus::ZVMC_STORAGE_MODIFIED => 3,
            StorageStatus::ZVMC_STORAGE_DELETED_ADDED => 4,
            StorageStatus::ZVMC_STORAGE_MODIFIED_DELETED => 5,
            StorageStatus::ZVMC_STORAGE_DELETED_RESTORED => 6,
            StorageStatus::ZVMC_STORAGE_ADDED_DELETED => 7,
            StorageStatus::ZVMC_STORAGE_MODIFIED_RESTORED => 8,
        }
    }

    /// Takes a storage status over from its ABI integer; `None` where the integer
    /// belongs to no member.
    pub fn from_abi(code: i32) -> (value: Option<Self>)
        ensures
            value == Self::of_code(code as int),
    {
        if code == 0 {
            Some(StorageStatus::ZVMC_STORAGE_ASSIGNED)
        } else if code == 1 {
            Some(StorageStatus::ZVMC_STORAGE_ADDED)
        } else if code == 2 {
            Some(StorageStatus::ZVMC_STORAGE_DELETED)
        } else if code == 3 {
            Some(StorageStatus::ZVMC_STORAGE_MODIFIED)
        } else if code == 4 {
            Some(StorageStatus::ZVMC_STORAGE_DELETED_ADDED)
        } else if code == 5 {
            Some(StorageStatus::ZVMC_STORAGE_MODIFIED_DELETED)
        } else if code == 6 {
            Some(StorageStatus::ZVMC_STORAGE_DELETED_RESTORED)
        } else if code == 7 {
            Some(StorageStatus::ZVMC_STORAGE_ADDED_DELETED)
        } else if code == 8 {
            Some(StorageStatus::ZVMC_STORAGE_MODIFIED_RESTORED)
        } else {
            None
        }
    }

    /// Marshaling to the ABI and back gives the member itself, and an ABI
    /// integer stands for at most one member, whose integer it is.
    pub proof fn lemma_abi_round_trip(value: Self, code: int)
        ensures
            Self::of_code(value.code()) == Some(value),
            Self::of_code(code) matches Some(member) ==> member.code() == code,
    {
    }

    /// Marshaling keeps the order: one member comes before another exactly
    /// where its ABI integer is the smaller one, and no two members share an
    /// integer.
    pub proof fn lemma_abi_keeps_order(a: Self, b: Self)
        ensures
            (a.partial_cmp_spec(&b) == Some(Ordering::Less)) <==> a.code() < b.code(),
            (a.partial_cmp_spec(&b) == Some(Ordering::Equal)) <==> a == b,
            (a.partial_cmp_spec(&b) == Some(Ordering::Greater)) <==> a.code() > b.code(),
    {
    }
}

impl PartialOrd for StorageStatus {
    /// Members compare as their ABI integers do.
    fn partial_cmp(&self, other: &Self) -> (order: Option<Ordering>) {
        let left = self.to_abi();
        let right = other.to_abi();
        if left < right {
            Some(Ordering::Less)
        } else if left == right {
            Some(Ordering::Equal)
        } else {
            Some(Ordering::Greater)
        }
    }
}

impl vstd::std_specs::cmp::PartialOrdSpecImpl for StorageStatus {
    open spec fn obeys_partial_cmp_spec() -> bool {
        true
    }

    open spec fn partial_cmp_spec(&self, other: &Self) -> Option<Ordering> {
        if self.code() < other.code() {
            Some(Ordering::Less)
        } else if self.code() == other.code() {
            Some(Ordering::Equal)
        } else {
            Some(Ordering::Greater)
        }
    }
}

impl Default for StorageStatus {
    /// The member whose ABI integer is zero.
    fn default() -> (value: Self)
        ensures
            value == StorageStatus::ZVMC_STORAGE_ASSIGNED,
            value.code() == 0,
    {
        StorageStatus::ZVMC_STORAGE_ASSIGNED
    }
}

/// The revision of the virtual machine's rules.
#[allow(non_camel_case_types)]
#[derive(Clone, Copy, Debug, PartialEq, Eq, Hash, Structural)]
pub enum Revision {
    /// The Shanghai revision.
    ZVMC_SHANGHAI,
}

impl Revision {
    /// The integer that the ABI gives to the member.
    pub open spec fn code(self) -> int {
        match self {
            Revision::ZVMC_SHANGHAI => 0,
        }
    }

    /// The member that the ABI integer `code` stands for, if there is one.
    pub open spec fn of_code(code: int) -> Option<Self> {
        if code == 0 {
            Some(Revision::ZVMC_SHANGHAI)
        } else {
            None
        }
    }

    /// Hands a revision out as its ABI integer.
    pub fn to_abi(self) -> (code: i32)
        ensures
            code == self.code(),
    {
        match self {
            Revision::ZVMC_SHANGHAI => 0,
        }
    }

    /// Takes a revision over from its ABI integer; `None` where the integer
    /// belongs to no member.
    pub fn from_abi(code: i32) -> (value: Option<Self>)
        ensures
            value == Self::of_code(code as int),
    {
        if code == 0 {
            Some(Revision::ZVMC_SHANGHAI)
        } else {
            None
        }
    }

    /// Marshaling to the ABI and back gives the member itself, and an ABI
    /// integer stands for at most one member, whose integer it is.
    pub proof fn lemma_abi_round_trip(value: Self, code: int)
        ensures
            Self::of_code(value.code()) == Some(value),
            Self::of_code(code) matches Some(member) ==> member.code() == code,
    {
    }

    /// Marshaling keeps the order: one member comes before another exactly
    /// where its ABI integer is the smaller one, and no two members share an
    /// integer.
    pub proof fn lemma_abi_keeps_order(a: Self, b: Self)
        ensures
            (a.partial_cmp_spec(&b) == Some(Ordering::Less)) <==> a.code() < b.code(),
            (a.partial_cmp_spec(&b) == Some(Ordering::Equal)) <==> a == b,
            (a.partial_cmp_spec(&b) == Some(Ordering::Greater)) <==> a.code() > b.code(),
    {
    }
}

impl PartialOrd for Revision {
    /// Members compare as their ABI integers do.
    fn partial_cmp(&self, other: &Self) -> (order: Option<Ordering>) {
        let left = self.to_abi();
        let right = other.to_abi();
        if left < right {
            Some(Ordering::Less)
        } else if left == right {
            Some(Ordering::Equal)
        } else {
            Some(Ordering::Greater)
        }
    }
}

impl vstd::std_specs::cmp::PartialOrdSpecImpl for Revision {
    open spec fn obeys_partial_cmp_spec() -> bool {
        true
    }

    open spec fn partial_cmp_spec(&self, other: &Self) -> Option<Ordering> {
        if self.code() < other.code() {
            Some(Ordering::Less)
        } else if self.code() == other.code() {
            Some(Ordering::Equal)
        } else {
            Some(Ordering::Greater)
        }
    }
}

impl Default for Revision {
    /// The member whose ABI integer is zero.
    fn default() -> (value: Self)
        ensures
            value == Revision::ZVMC_SHANGHAI,
            value.code() == 0,
    {
        Revision::ZVMC_SHANGHAI
    }
}

} // verus!
