use std::cell::RefCell;
use zvmc_vm::{
    AbiMessage, AbiResult, AbiTxContext, AccessStatus, Address, Bytes32, ExecutionContext,
    ExecutionMessage, HostContext, HostError, HostInterface, HostOperation, HostRequest,
    HostResponse, MessageKind, StatusCode, StorageStatus, Uint256,
};

const ALL: [HostOperation; 13] = [
    HostOperation::AccountExists,
    HostOperation::GetStorage,
    HostOperation::SetStorage,
    HostOperation::GetBalance,
    HostOperation::GetCodeSize,
    HostOperation::GetCodeHash,
    HostOperation::CopyCode,
    HostOperation::Call,
    HostOperation::GetTxContext,
    HostOperation::GetBlockHash,
    HostOperation::EmitLog,
    HostOperation::AccessAccount,
    HostOperation::AccessStorage,
];

/// A callback table with the entries in `set`.
fn table<F: Fn(HostContext, HostRequest) -> HostResponse>(
    set: &[HostOperation],
    dispatch: F,
) -> HostInterface<F> {
    HostInterface {
        account_exists: set.contains(&HostOperation::AccountExists),
        get_storage: set.contains(&HostOperation::GetStorage),
        set_storage: set.contains(&HostOperation::SetStorage),
        get_balance: set.contains(&HostOperation::GetBalance),
        get_code_size: set.contains(&HostOperation::GetCodeSize),
        get_code_hash: set.contains(&HostOperation::GetCodeHash),
        copy_code: set.contains(&HostOperation::CopyCode),
        call: set.contains(&HostOperation::Call),
        get_tx_context: set.contains(&HostOperation::GetTxContext),
        get_block_hash: set.contains(&HostOperation::GetBlockHash),
        emit_log: set.contains(&HostOperation::EmitLog),
        access_account: set.contains(&HostOperation::AccessAccount),
        access_storage: set.contains(&HostOperation::AccessStorage),
        dispatch,
    }
}

fn never(_context: HostContext, _request: HostRequest) -> HostResponse {
    panic!("an entry that is not set was invoked")
}

fn address(byte: u8) -> Address {
    Address::from_abi([byte; 20])
}

fn word(byte: u8) -> Bytes32 {
    Bytes32::from_abi([byte; 32])
}

fn zero_tx_context() -> AbiTxContext {
    AbiTxContext {
        tx_gas_price: [0u8; 32],
        tx_origin: [0u8; 20],
        block_coinbase: [0u8; 20],
        block_number: 0,
        block_timestamp: 0,
        block_gas_limit: 0,
        block_prev_randao: [0u8; 32],
        chain_id: [0u8; 32],
        block_base_fee: [0u8; 32],
    }
}

fn sample_message<'a>(input: Option<&'a [u8]>) -> ExecutionMessage<'a> {
    ExecutionMessage::new(
        MessageKind::ZVMC_CALL,
        44,
        66,
        4466,
        address(32),
        address(128),
        input,
        Uint256::from_abi([1u8; 32]),
        Some(Bytes32::from_abi([2u8; 32])),
        address(64),
    )
}

#[test]
fn table_provides_what_is_set() {
    for operation in ALL {
        let host = table(&[operation], never);
        for other in ALL {
            assert_eq!(host.provides(other), other == operation);
        }
    }
    let host = table(&[], never);
    for operation in ALL {
        assert!(!host.provides(operation));
    }
    let host = table(&ALL, never);
    for operation in ALL {
        assert!(host.provides(operation));
    }
}

#[test]
fn request_names_its_entry() {
    let a = [0u8; 20];
    let k = [0u8; 32];
    let message = sample_message(None).to_abi();
    let requests = vec![
        HostRequest::AccountExists { address: a },
        HostRequest::GetStorage { address: a, key: k },
        HostRequest::SetStorage { address: a, key: k, value: k },
        HostRequest::GetBalance { address: a },
        HostRequest::GetCodeSize { address: a },
        HostRequest::GetCodeHash { address: a },
        HostRequest::CopyCode { address: a, code_offset: 0, buffer_size: 0 },
        HostRequest::Call { message },
        HostRequest::GetTxContext,
        HostRequest::GetBlockHash { number: 0 },
        HostRequest::EmitLog { address: a, data: Vec::new(), topics: Vec::new() },
        HostRequest::AccessAccount { address: a },
        HostRequest::AccessStorage { address: a, key: k },
    ];
    assert_eq!(requests.len(), ALL.len());
    for (request, operation) in requests.iter().zip(ALL) {
        assert_eq!(request.operation(), operation);
    }
}

#[test]
fn absent_entries_are_unsupported() {
    let host = table(&[], never);
    let mut context = ExecutionContext::new(&host, HostContext::null());
    let mut buffer = [7u8; 4];
    assert_eq!(context.get_tx_context().err(), Some(HostError::Unsupported));
    assert_eq!(context.account_exists(&address(1)), Err(HostError::Unsupported));
    assert_eq!(context.get_storage(&address(1), &word(2)), Err(HostError::Unsupported));
    assert_eq!(
        context.set_storage(&address(1), &word(2), &word(3)),
        Err(HostError::Unsupported)
    );
    assert_eq!(context.get_balance(&address(1)), Err(HostError::Unsupported));
    assert_eq!(context.get_code_size(&address(1)), Err(HostError::Unsupported));
    assert_eq!(context.get_code_hash(&address(1)), Err(HostError::Unsupported));
    assert_eq!(context.copy_code(&address(1), 0, &mut buffer), Err(HostError::Unsupported));
    assert_eq!(buffer, [7u8; 4]);
    assert_eq!(context.call(&sample_message(None)).err(), Some(HostError::Unsupported));
    assert_eq!(context.get_block_hash(1), Err(HostError::Unsupported));
    assert_eq!(context.emit_log(&address(1), &[1], &[word(2)]), Err(HostError::Unsupported));
    assert_eq!(context.access_account(&address(1)), Err(HostError::Unsupported));
    assert_eq!(context.access_storage(&address(1), &word(2)), Err(HostError::Unsupported));
}

#[test]
fn one_absent_entry_among_set_ones_is_unsupported() {
    let set: Vec<HostOperation> =
        ALL.iter().copied().filter(|o| *o != HostOperation::GetStorage).collect();
    let host = table(&set, |_context: HostContext, request: HostRequest| match request {
        HostRequest::GetStorage { .. } => panic!("an entry that is not set was invoked"),
        HostRequest::GetCodeHash { .. } => HostResponse::Word([5u8; 32]),
        _ => HostResponse::Done,
    });
    let context = ExecutionContext::new(&host, HostContext::null());
    assert_eq!(context.get_storage(&address(1), &word(2)), Err(HostError::Unsupported));
    assert_eq!(context.get_code_hash(&address(1)), Ok(word(5)));
}

#[test]
fn every_operation_passes_the_handle_and_the_arguments() {
    let seen: RefCell<Vec<(usize, String)>> = RefCell::new(Vec::new());
    let host = table(&ALL, |context: HostContext, request: HostRequest| {
        seen.borrow_mut().push((context.address, format!("{:?}", request)));
        match request {
            HostRequest::AccountExists { .. } => HostResponse::Flag(true),
            HostRequest::GetStorage { .. } => HostResponse::Word([11u8; 32]),
            HostRequest::SetStorage { .. } => HostResponse::Code(3),
            HostRequest::GetBalance { .. } => HostResponse::Word([12u8; 32]),
            HostRequest::GetCodeSize { .. } => HostResponse::Size(105023),
            HostRequest::GetCodeHash { .. } => HostResponse::Word([13u8; 32]),
            HostRequest::CopyCode { .. } => HostResponse::Bytes(vec![0xaa, 0xbb]),
            HostRequest::Call { message } => HostResponse::Outcome(AbiResult {
                status_code: 2,
                gas_left: message.gas / 2,
                gas_refund: 0,
                output_data: message.input_data,
                create_address: [0u8; 20],
            }),
            HostRequest::GetTxContext => {
                let mut raw = zero_tx_context();
                raw.block_number = 42;
                raw.block_timestamp = 235117;
                raw.block_gas_limit = 105023;
                HostResponse::TxContext(raw)
            }
            HostRequest::GetBlockHash { .. } => HostResponse::Word([14u8; 32]),
            HostRequest::EmitLog { .. } => HostResponse::Done,
            HostRequest::AccessAccount { .. } => HostResponse::Code(0),
            HostRequest::AccessStorage { .. } => HostResponse::Code(1),
        }
    });
    let handle = HostContext { address: 0xc0ffee };
    let mut context = ExecutionContext::new(&host, handle);
    let mut expected: Vec<(usize, String)> = Vec::new();
    let a = [1u8; 20];
    let k = [2u8; 32];
    let v = [3u8; 32];

    let tx = context.get_tx_context().unwrap();
    assert_eq!(tx.block_number, 42);
    assert_eq!(tx.block_timestamp, 235117);
    assert_eq!(tx.block_gas_limit, 105023);
    assert_eq!(tx.tx_origin, Address::default());
    expected.push((0xc0ffee, format!("{:?}", HostRequest::GetTxContext)));

    assert_eq!(context.account_exists(&address(1)), Ok(true));
    expected.push((0xc0ffee, format!("{:?}", HostRequest::AccountExists { address: a })));

    assert_eq!(context.get_storage(&address(1), &word(2)), Ok(word(11)));
    expected.push((0xc0ffee, format!("{:?}", HostRequest::GetStorage { address: a, key: k })));

    assert_eq!(
        context.set_storage(&address(1), &word(2), &word(3)),
        Ok(StorageStatus::ZVMC_STORAGE_MODIFIED)
    );
    expected.push((
        0xc0ffee,
        format!("{:?}", HostRequest::SetStorage { address: a, key: k, value: v }),
    ));

    assert_eq!(context.get_balance(&address(1)), Ok(Uint256::from_abi([12u8; 32])));
    expected.push((0xc0ffee, format!("{:?}", HostRequest::GetBalance { address: a })));

    assert_eq!(context.get_code_size(&address(1)), Ok(105023));
    expected.push((0xc0ffee, format!("{:?}", HostRequest::GetCodeSize { address: a })));

    assert_eq!(context.get_code_hash(&address(1)), Ok(word(13)));
    expected.push((0xc0ffee, format!("{:?}", HostRequest::GetCodeHash { address: a })));

    let mut buffer = [0u8; 6];
    assert_eq!(context.copy_code(&address(1), 17, &mut buffer), Ok(2));
    assert_eq!(buffer, [0xaa, 0xbb, 0, 0, 0, 0]);
    expected.push((
        0xc0ffee,
        format!("{:?}", HostRequest::CopyCode { address: a, code_offset: 17, buffer_size: 6 }),
    ));

    let input = [0xc0u8, 0xff, 0xee];
    let message = sample_message(Some(&input));
    let result = context.call(&message).unwrap();
    assert_eq!(result.status_code(), StatusCode::ZVMC_REVERT);
    assert_eq!(result.gas_left(), 2233);
    assert_eq!(result.gas_refund(), 0);
    assert_eq!(result.output(), Some(&vec![0xc0u8, 0xff, 0xee]));
    assert_eq!(result.create_address(), Some(&Address::default()));
    expected.push((
        0xc0ffee,
        format!(
            "{:?}",
            HostRequest::Call {
                message: AbiMessage {
                    kind: 0,
                    flags: 44,
                    depth: 66,
                    gas: 4466,
                    recipient: [32u8; 20],
                    sender: [128u8; 20],
                    input_data: Some(vec![0xc0, 0xff, 0xee]),
                    value: [1u8; 32],
                    create2_salt: [2u8; 32],
                    code_address: [64u8; 20],
                }
            }
        ),
    ));

    assert_eq!(context.get_block_hash(-7), Ok(word(14)));
    expected.push((0xc0ffee, format!("{:?}", HostRequest::GetBlockHash { number: -7 })));

    assert_eq!(context.emit_log(&address(1), &[4, 5, 6], &[word(2), word(3)]), Ok(()));
    expected.push((
        0xc0ffee,
        format!(
            "{:?}",
            HostRequest::EmitLog { address: a, data: vec![4, 5, 6], topics: vec![k, v] }
        ),
    ));

    assert_eq!(context.access_account(&address(1)), Ok(AccessStatus::ZVMC_ACCESS_COLD));
    expected.push((0xc0ffee, format!("{:?}", HostRequest::AccessAccount { address: a })));

    assert_eq!(context.access_storage(&address(1), &word(2)), Ok(AccessStatus::ZVMC_ACCESS_WARM));
    expected.push((0xc0ffee, format!("{:?}", HostRequest::AccessStorage { address: a, key: k })));

    assert_eq!(*seen.borrow(), expected);
}

#[test]
fn nothing_is_kept_between_calls() {
    let calls: RefCell<i64> = RefCell::new(0);
    let host = table(&ALL, |_context: HostContext, request: HostRequest| {
        *calls.borrow_mut() += 1;
        match request {
            HostRequest::GetTxContext => {
                let mut raw = zero_tx_context();
                raw.block_number = *calls.borrow();
                HostResponse::TxContext(raw)
            }
            HostRequest::GetStorage { .. } => HostResponse::Word([*calls.borrow() as u8; 32]),
            _ => HostResponse::Done,
        }
    });
    let context = ExecutionContext::new(&host, HostContext::null());
    assert_eq!(*calls.borrow(), 0);
    assert_eq!(context.get_tx_context().unwrap().block_number, 1);
    assert_eq!(context.get_tx_context().unwrap().block_number, 2);
    assert_eq!(context.get_storage(&address(1), &word(2)), Ok(word(3)));
    assert_eq!(context.get_storage(&address(1), &word(2)), Ok(word(4)));
    assert_eq!(*calls.borrow(), 4);
}

#[test]
fn answers_of_another_shape_are_malformed() {
    let host = table(&ALL, |_context: HostContext, request: HostRequest| match request {
        HostRequest::EmitLog { .. } => HostResponse::Flag(true),
        HostRequest::SetStorage { .. } => HostResponse::Code(9),
        HostRequest::AccessAccount { .. } => HostResponse::Code(2),
        HostRequest::AccessStorage { .. } => HostResponse::Code(-1),
        HostRequest::Call { .. } => HostResponse::Outcome(AbiResult {
            status_code: 18,
            gas_left: 0,
            gas_refund: 0,
            output_data: None,
            create_address: [0u8; 20],
        }),
        HostRequest::CopyCode { buffer_size, .. } => HostResponse::Bytes(vec![1; buffer_size + 1]),
        _ => HostResponse::Done,
    });
    let mut context = ExecutionContext::new(&host, HostContext::null());
    let mut buffer = [7u8; 4];
    assert_eq!(context.get_tx_context().err(), Some(HostError::Malformed));
    assert_eq!(context.account_exists(&address(1)), Err(HostError::Malformed));
    assert_eq!(context.get_storage(&address(1), &word(2)), Err(HostError::Malformed));
    assert_eq!(
        context.set_storage(&address(1), &word(2), &word(3)),
        Err(HostError::Malformed)
    );
    assert_eq!(context.get_balance(&address(1)), Err(HostError::Malformed));
    assert_eq!(context.get_code_size(&address(1)), Err(HostError::Malformed));
    assert_eq!(context.get_code_hash(&address(1)), Err(HostError::Malformed));
    assert_eq!(context.copy_code(&address(1), 0, &mut buffer), Err(HostError::Malformed));
    assert_eq!(buffer, [7u8; 4]);
    assert_eq!(context.call(&sample_message(None)).err(), Some(HostError::Malformed));
    assert_eq!(context.get_block_hash(1), Err(HostError::Malformed));
    assert_eq!(context.emit_log(&address(1), &[], &[]), Err(HostError::Malformed));
    assert_eq!(context.access_account(&address(1)), Err(HostError::Malformed));
    assert_eq!(context.access_storage(&address(1), &word(2)), Err(HostError::Malformed));
}

#[test]
fn copy_code_leaves_the_rest_of_the_buffer() {
    let code: Vec<u8> = (1..=10).collect();
    let host = table(
        &[HostOperation::CopyCode],
        |_context: HostContext, request: HostRequest| match request {
            HostRequest::CopyCode { code_offset, buffer_size, .. } => {
                let from = code_offset.min(code.len());
                let to = (from + buffer_size).min(code.len());
                HostResponse::Bytes(code[from..to].to_vec())
            }
            _ => panic!("an entry that is not set was invoked"),
        },
    );
    let context = ExecutionContext::new(&host, HostContext::null());

    let mut buffer = [0xffu8; 4];
    assert_eq!(context.copy_code(&address(1), 0, &mut buffer), Ok(4));
    assert_eq!(buffer, [1, 2, 3, 4]);

    let mut buffer = [0xffu8; 4];
    assert_eq!(context.copy_code(&address(1), 8, &mut buffer), Ok(2));
    assert_eq!(buffer, [9, 10, 0xff, 0xff]);

    let mut buffer = [0xffu8; 4];
    assert_eq!(context.copy_code(&address(1), 10, &mut buffer), Ok(0));
    assert_eq!(buffer, [0xff; 4]);

    let mut buffer = [0xffu8; 12];
    assert_eq!(context.copy_code(&address(1), 0, &mut buffer), Ok(10));
    assert_eq!(buffer, [1, 2, 3, 4, 5, 6, 7, 8, 9, 10, 0xff, 0xff]);

    let mut buffer: [u8; 0] = [];
    assert_eq!(context.copy_code(&address(1), 3, &mut buffer), Ok(0));
}

#[test]
fn emit_log_with_no_data_and_no_topics() {
    let seen: RefCell<Vec<String>> = RefCell::new(Vec::new());
    let host = table(&[HostOperation::EmitLog], |_context: HostContext, request: HostRequest| {
        seen.borrow_mut().push(format!("{:?}", request));
        HostResponse::Done
    });
    let mut context = ExecutionContext::new(&host, HostContext::null());
    assert_eq!(context.emit_log(&address(9), &[], &[]), Ok(()));
    assert_eq!(
        *seen.borrow(),
        vec![format!(
            "{:?}",
            HostRequest::EmitLog { address: [9u8; 20], data: Vec::new(), topics: Vec::new() }
        )]
    );
}

#[test]
fn nested_call_reads_no_output_bytes_as_no_output() {
    let host = table(&[HostOperation::Call], |_context: HostContext, request: HostRequest| {
        match request {
            HostRequest::Call { message } => HostResponse::Outcome(AbiResult {
                status_code: 0,
                gas_left: message.gas,
                gas_refund: 3,
                output_data: Some(Vec::new()),
                create_address: [8u8; 20],
            }),
            _ => panic!("an entry that is not set was invoked"),
        }
    });
    let mut context = ExecutionContext::new(&host, HostContext::null());
    let result = context.call(&sample_message(None)).unwrap();
    assert_eq!(result.status_code(), StatusCode::ZVMC_SUCCESS);
    assert_eq!(result.gas_left(), 4466);
    assert_eq!(result.gas_refund(), 3);
    assert_eq!(result.output(), None);
    assert_eq!(result.create_address(), Some(&address(8)));
}
