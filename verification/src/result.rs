//! The outcome of one call, as a virtual machine hands it back.

use crate::abi::{buffer_view, filled, AbiResult};
use crate::types::{zero_bytes, Address, StatusCode};
use vstd::prelude::*;
use vstd::slice::slice_to_vec;

verus! {

/// What an [`ExecutionResult`] says, with the output as a sequence of bytes.
pub struct ResultView {
    pub status_code: StatusCode,
    pub gas_left: i64,
    pub gas_refund: i64,
    pub output: Option<Seq<u8>>,
    pub create_address: Option<Address>,
}

impl ResultView {
    /// An outcome with the given status, gas and output, and no created
    /// address.
    pub open spec fn new(
        status_code: StatusCode,
        gas_left: i64,
        gas_refund: i64,
        output: Option<Seq<u8>>,
    ) -> ResultView {
        ResultView { status_code, gas_left, gas_refund, output, create_address: None }
    }

    /// The canonical failure: the failure status, no gas left, none refunded,
    /// no output.
    pub open spec fn failure() -> ResultView {
        ResultView::new(StatusCode::ZVMC_FAILURE, 0, 0, None)
    }

    /// A revert that hands back `gas_left` and `output`.
    pub open spec fn revert(gas_left: i64, output: Option<Seq<u8>>) -> ResultView {
        ResultView::new(StatusCode::ZVMC_REVERT, gas_left, 0, output)
    }

    /// A success with the given gas and output.
    pub open spec fn success(gas_left: i64, gas_refund: i64, output: Option<Seq<u8>>) -> ResultView {
        ResultView::new(StatusCode::ZVMC_SUCCESS, gas_left, gas_refund, output)
    }

    /// The bytes of the created address as the ABI passes them: all zero
    /// where no address was created.
    pub open spec fn create_address_bytes(self) -> Seq<u8> {
        match self.create_address {
            Some(address) => address@,
            None => zero_bytes(20),
        }
    }

    /// Whether `raw` is this outcome in ABI shape.
    pub open spec fn marshals_to(self, raw: AbiResult) -> bool {
        &&& raw.status_code == self.status_code.code()
        &&& raw.gas_left == self.gas_left
        &&& raw.gas_refund == self.gas_refund
        &&& buffer_view(raw.output_data) == self.output
        &&& raw.create_address@ == self.create_address_bytes()
    }

    /// The outcome that the ABI result `raw` stands for: none where its status
    /// is no status code; an output of no bytes counts as no output; the
    /// created address is always taken over.
    pub open spec fn of_abi(raw: AbiResult) -> Option<ResultView> {
        match StatusCode::of_code(raw.status_code as int) {
            Some(status_code) => Some(
                ResultView {
                    status_code,
                    gas_left: raw.gas_left,
                    gas_refund: raw.gas_refund,
                    output: filled(buffer_view(raw.output_data)),
                    create_address: Some(Address::of_abi(raw.create_address)),
                },
            ),
            None => None,
        }
    }
}

/// The outcome of a call: the status, the gas that is left and the gas
/// refunded, the output if there is one, and the address of a created
/// contract if there is one. An outcome is never changed once made.
#[derive(Debug)]
pub struct ExecutionResult {
    status_code: StatusCode,
    gas_left: i64,
    gas_refund: i64,
    output: Option<Vec<u8>>,
    create_address: Option<Address>,
}

impl View for ExecutionResult {
    type V = ResultView;

    closed spec fn view(&self) -> ResultView {
        ResultView {
            status_code: self.status_code,
            gas_left: self.gas_left,
            gas_refund: self.gas_refund,
            output: buffer_view(self.output),
            create_address: self.create_address,
        }
    }
}

/// The bytes of an optional slice.
pub open spec fn slice_view(bytes: Option<&[u8]>) -> Option<Seq<u8>> {
    match bytes {
        Some(bytes) => Some(bytes@),
        None => None,
    }
}

impl ExecutionResult {
    /// An outcome with the given status, gas and a copy of `output`, and no
    /// created address.
    pub fn new(status_code: StatusCode, gas_left: i64, gas_refund: i64, output: Option<&[u8]>) -> (result:
        Self)
        ensures
            result@ == ResultView::new(status_code, gas_left, gas_refund, slice_view(output)),
    {
        let output = match output {
            Some(bytes) => Some(slice_to_vec(bytes)),
            None => None,
        };
        ExecutionResult { status_code, gas_left, gas_refund, output, create_address: None }
    }

    /// The canonical failure.
    pub fn failure() -> (result: Self)
        ensures
            result@ == ResultView::failure(),
    {
        ExecutionResult::new(StatusCode::ZVMC_FAILURE, 0, 0, None)
    }

    /// A revert that hands back `gas_left` and a copy of `output`.
    pub fn revert(gas_left: i64, output: Option<&[u8]>) -> (result: Self)
        ensures
            result@ == ResultView::revert(gas_left, slice_view(output)),
    {
        ExecutionResult::new(StatusCode::ZVMC_REVERT, gas_left, 0, output)
    }

    /// A success with the given gas and a copy of `output`.
    pub fn success(gas_left: i64, gas_refund: i64, output: Option<&[u8]>) -> (result: Self)
        ensures
            result@ == ResultView::success(gas_left, gas_refund, slice_view(output)),
    {
        ExecutionResult::new(StatusCode::ZVMC_SUCCESS, gas_left, gas_refund, output)
    }

    /// The outcome that the ABI result `raw` stands for, which takes over the
    /// output buffer; `None` exactly where the status of `raw` is no status
    /// code.
    pub fn from_abi(raw: AbiResult) -> (result: Option<Self>)
        ensures
            match result {
                Some(r) => ResultView::of_abi(raw) == Some(r@),
                None => ResultView::of_abi(raw) is None,
            },
    {
        let status_code = match StatusCode::from_abi(raw.status_code) {
            Some(status_code) => status_code,
            None => {
                return None;
            },
        };
        let output = match raw.output_data {
            Some(bytes) => if bytes.len() > 0 {
                Some(bytes)
            } else {
                None
            },
            None => None,
        };
        Some(
            ExecutionResult {
                status_code,
                gas_left: raw.gas_left,
                gas_refund: raw.gas_refund,
                output,
                create_address: Some(Address::from_abi(raw.create_address)),
            },
        )
    }

    /// The outcome in ABI shape, which takes over the output buffer. Where no
    /// address was created the ABI gets the zero address.
    pub fn to_abi(self) -> (raw: AbiResult)
        ensures
            self@.marshals_to(raw),
    {
        let create_address = match self.create_address {
            Some(address) => address.to_abi(),
            None => Address::default().to_abi(),
        };
        AbiResult {
            status_code: self.status_code.to_abi(),
            gas_left: self.gas_left,
            gas_refund: self.gas_refund,
            output_data: self.output,
            create_address,
        }
    }

    /// How the execution ended.
    pub fn status_code(&self) -> (status_code: StatusCode)
        ensures
            status_code == self@.status_code,
    {
        self.status_code
    }

    /// The gas that is left.
    pub fn gas_left(&self) -> (gas_left: i64)
        ensures
            gas_left == self@.gas_left,
    {
        self.gas_left
    }

    /// The gas refunded.
    pub fn gas_refund(&self) -> (gas_refund: i64)
        ensures
            gas_refund == self@.gas_refund,
    {
        self.gas_refund
    }

    /// The output, if there is one.
    pub fn output(&self) -> (output: Option<&Vec<u8>>)
        ensures
            match output {
                Some(bytes) => self@.output == Some(bytes@),
                None => self@.output is None,
            },
    {
        self.output.as_ref()
    }

    /// The address of the created contract, if there is one.
    pub fn create_address(&self) -> (address: Option<&Address>)
        ensures
            match address {
                Some(address) => self@.create_address == Some(*address),
                None => self@.create_address is None,
            },
    {
        self.create_address.as_ref()
    }
}

/// Reading back what was marshaled gives the outcome itself, but that an
/// output of no bytes comes back as no output, and that the created address
/// comes back as an address in every case: the zero address where there was
/// none.
pub proof fn lemma_result_round_trip(result: ResultView, raw: AbiResult)
    requires
        result.marshals_to(raw),
    ensures
        ResultView::of_abi(raw) matches Some(back) && {
            &&& back.status_code == result.status_code
            &&& back.gas_left == result.gas_left
            &&& back.gas_refund == result.gas_refund
            &&& back.output == filled(result.output)
            &&& back.create_address matches Some(address) && address@ == result.create_address_bytes()
        },
{
    StatusCode::lemma_abi_round_trip(result.status_code, raw.status_code as int);
}

} // verus!
