//! The description of one call, as a virtual machine receives it.

use crate::abi::{buffer_view, filled, AbiMessage};
use crate::types::{zero_bytes, Address, Bytes32, MessageKind, Uint256};
use vstd::prelude::*;
use vstd::slice::slice_to_vec;

verus! {

/// What an [`ExecutionMessage`] says, with the input as a sequence of bytes.
pub struct MessageView {
    pub kind: MessageKind,
    pub flags: u32,
    pub depth: i32,
    pub gas: i64,
    pub recipient: Address,
    pub sender: Address,
    pub input: Option<Seq<u8>>,
    pub value: Uint256,
    pub create2_salt: Option<Bytes32>,
    pub code_address: Address,
}

impl MessageView {
    /// The bytes of the creation salt as the ABI passes them: all zero where
    /// the message has no salt.
    pub open spec fn create2_salt_bytes(self) -> Seq<u8> {
        match self.create2_salt {
            Some(salt) => salt@,
            None => zero_bytes(32),
        }
    }

    /// Whether `raw` is this message in ABI shape: every field as its ABI
    /// value, the input behind the data pointer, the zero salt where the
    /// message has none.
    pub open spec fn marshals_to(self, raw: AbiMessage) -> bool {
        &&& raw.kind == self.kind.code()
        &&& raw.flags == self.flags
        &&& raw.depth == self.depth
        &&& raw.gas == self.gas
        &&& raw.recipient == self.recipient.abi()
        &&& raw.sender == self.sender.abi()
        &&& buffer_view(raw.input_data) == self.input
        &&& raw.value == self.value.abi()
        &&& raw.create2_salt@ == self.create2_salt_bytes()
        &&& raw.code_address == self.code_address.abi()
    }

    /// The message that the ABI call `raw` stands for: none where its kind is
    /// no call kind; an input of no bytes counts as no input; the salt is
    /// always taken over.
    pub open spec fn of_abi(raw: AbiMessage) -> Option<MessageView> {
        match MessageKind::of_code(raw.kind as int) {
            Some(kind) => Some(
                MessageView {
                    kind,
                    flags: raw.flags,
                    depth: raw.depth,
                    gas: raw.gas,
                    recipient: Address::of_abi(raw.recipient),
                    sender: Address::of_abi(raw.sender),
                    input: filled(buffer_view(raw.input_data)),
                    value: Uint256::of_abi(raw.value),
                    create2_salt: Some(Bytes32::of_abi(raw.create2_salt)),
                    code_address: Address::of_abi(raw.code_address),
                },
            ),
            None => None,
        }
    }
}

/// One call: its kind, flags, depth and gas, the addresses involved, the value
/// transferred, the input if there is one and the creation salt if there is
/// one. The input is borrowed from whoever holds the bytes. A message is never
/// changed once made.
#[derive(Debug)]
pub struct ExecutionMessage<'a> {
    kind: MessageKind,
    flags: u32,
    depth: i32,
    gas: i64,
    recipient: Address,
    sender: Address,
    input: Option<&'a [u8]>,
    value: Uint256,
    create2_salt: Option<Bytes32>,
    code_address: Address,
}

impl<'a> View for ExecutionMessage<'a> {
    type V = MessageView;

    closed spec fn view(&self) -> MessageView {
        MessageView {
            kind: self.kind,
            flags: self.flags,
            depth: self.depth,
            gas: self.gas,
            recipient: self.recipient,
            sender: self.sender,
            input: match self.input {
                Some(bytes) => Some(bytes@),
                None => None,
            },
            value: self.value,
            create2_salt: self.create2_salt,
            code_address: self.code_address,
        }
    }
}

impl<'a> ExecutionMessage<'a> {
    /// A message with the given fields.
    pub fn new(
        kind: MessageKind,
        flags: u32,
        depth: i32,
        gas: i64,
        recipient: Address,
        sender: Address,
        input: Option<&'a [u8]>,
        value: Uint256,
        create2_salt: Option<Bytes32>,
        code_address: Address,
    ) -> (message: Self)
        ensures
            message@ == (MessageView {
                kind,
                flags,
                depth,
                gas,
                recipient,
                sender,
                input: match input {
                    Some(bytes) => Some(bytes@),
                    None => None,
                },
                value,
                create2_salt,
                code_address,
            }),
    {
        ExecutionMessage {
            kind,
            flags,
            depth,
            gas,
            recipient,
            sender,
            input,
            value,
            create2_salt,
            code_address,
        }
    }

    /// The message that the ABI call `raw` stands for, its input borrowed from
    /// `raw`; `None` exactly where the kind of `raw` is no call kind.
    pub fn from_abi(raw: &'a AbiMessage) -> (message: Option<Self>)
        ensures
            match message {
                Some(m) => MessageView::of_abi(*raw) == Some(m@),
                None => MessageView::of_abi(*raw) is None,
            },
    {
        let kind = match MessageKind::from_abi(raw.kind) {
            Some(kind) => kind,
            None => {
                return None;
            },
        };
        let input: Option<&'a [u8]> = match &raw.input_data {
            Some(bytes) => if bytes.len() > 0 {
                Some(bytes.as_slice())
            } else {
                None
            },
            None => None,
        };
        Some(
            ExecutionMessage {
                kind,
                flags: raw.flags,
                depth: raw.depth,
                gas: raw.gas,
                recipient: Address::from_abi(raw.recipient),
                sender: Address::from_abi(raw.sender),
                input,
                value: Uint256::from_abi(raw.value),
                create2_salt: Some(Bytes32::from_abi(raw.create2_salt)),
                code_address: Address::from_abi(raw.code_address),
            },
        )
    }

    /// The message in ABI shape, with a copy of the input. Where the message
    /// has no salt the ABI gets the zero salt.
    pub fn to_abi(&self) -> (raw: AbiMessage)
        ensures
            self@.marshals_to(raw),
    {
        let input_data = match self.input {
            Some(bytes) => Some(slice_to_vec(bytes)),
            None => None,
        };
        let create2_salt = match &self.create2_salt {
            Some(salt) => salt.to_abi(),
            None => Bytes32::default().to_abi(),
        };
        AbiMessage {
            kind: self.kind.to_abi(),
            flags: self.flags,
            depth: self.depth,
            gas: self.gas,
            recipient: self.recipient.to_abi(),
            sender: self.sender.to_abi(),
            input_data,
            value: self.value.to_abi(),
            create2_salt,
            code_address: self.code_address.to_abi(),
        }
    }

    /// The kind of the call.
    pub fn kind(&self) -> (kind: MessageKind)
        ensures
            kind == self@.kind,
    {
        self.kind
    }

    /// The flag bits of the call.
    pub fn flags(&self) -> (flags: u32)
        ensures
            flags == self@.flags,
    {
        self.flags
    }

    /// The depth of the call in the call stack.
    pub fn depth(&self) -> (depth: i32)
        ensures
            depth == self@.depth,
    {
        self.depth
    }

    /// The gas that the call may use.
    pub fn gas(&self) -> (gas: i64)
        ensures
            gas == self@.gas,
    {
        self.gas
    }

    /// The account that receives the call.
    pub fn recipient(&self) -> (recipient: &Address)
        ensures
            *recipient == self@.recipient,
    {
        &self.recipient
    }

    /// The account that makes the call.
    pub fn sender(&self) -> (sender: &Address)
        ensures
            *sender == self@.sender,
    {
        &self.sender
    }

    /// The input of the call, if it has one.
    pub fn input(&self) -> (input: Option<&'a [u8]>)
        ensures
            match input {
                Some(bytes) => self@.input == Some(bytes@),
                None => self@.input is None,
            },
    {
        self.input
    }

    /// The value transferred with the call.
    pub fn value(&self) -> (value: &Uint256)
        ensures
            *value == self@.value,
    {
        &self.value
    }

    /// The salt of a creation at a fixed address, if there is one.
    pub fn create2_salt(&self) -> (salt: Option<&Bytes32>)
        ensures
            match salt {
                Some(salt) => self@.create2_salt == Some(*salt),
                None => self@.create2_salt is None,
            },
    {
        self.create2_salt.as_ref()
    }

    /// The account whose code runs.
    pub fn code_address(&self) -> (address: &Address)
        ensures
            *address == self@.code_address,
    {
        &self.code_address
    }
}

/// Reading back what was marshaled gives the message itself, but that an
/// input of no bytes comes back as no input, and that the salt comes back as
/// a salt in every case: the zero salt where there was none.
pub proof fn lemma_message_round_trip(message: MessageView, raw: AbiMessage)
    requires
        message.marshals_to(raw),
    ensures
        MessageView::of_abi(raw) matches Some(back) && {
            &&& back.kind == message.kind
            &&& back.flags == message.flags
            &&& back.depth == message.depth
            &&& back.gas == message.gas
            &&& back.recipient == message.recipient
            &&& back.sender == message.sender
            &&& back.input == filled(message.input)
            &&& back.value == message.value
            &&& back.create2_salt matches Some(salt) && salt@ == message.create2_salt_bytes()
            &&& back.code_address == message.code_address
        },
{
    MessageKind::lemma_abi_round_trip(message.kind, raw.kind as int);
    Address::lemma_abi_round_trip(message.recipient, raw.recipient);
    Address::lemma_abi_round_trip(message.sender, raw.sender);
    Address::lemma_abi_round_trip(message.code_address, raw.code_address);
    Uint256::lemma_abi_round_trip(message.value, raw.value);
}

} // verus!
