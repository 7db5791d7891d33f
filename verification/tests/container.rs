use zvmc_vm::{
    AbiMessage, AbiTxContext, Address, Bytes32, ExecutionContext, ExecutionMessage,
    ExecutionResult, FfiPointer, FooVM, HostContext, HostInterface, HostRequest, HostResponse,
    MessageKind, Revision, SetOptionError, StatusCode, Uint256, VmInstance, ZvmcContainer, ZvmcVm,
    ZVMC_ABI_VERSION,
};

struct TestVm {}

impl ZvmcVm for TestVm {
    fn init() -> Self {
        TestVm {}
    }

    fn execute<F: Fn(HostContext, HostRequest) -> HostResponse>(
        &self,
        _revision: Revision,
        _code: &[u8],
        _message: &ExecutionMessage,
        _context: Option<&mut ExecutionContext<F>>,
    ) -> ExecutionResult {
        ExecutionResult::failure()
    }
}

/// A virtual machine that counts the options it is given and refuses two
/// names, and that answers every call with its count as the gas left.
struct CountingVm {
    options: i64,
}

impl ZvmcVm for CountingVm {
    fn init() -> Self {
        CountingVm { options: 0 }
    }

    fn set_option(&mut self, key: &str, value: &str) -> Result<(), SetOptionError> {
        if key == "unknown" {
            return Err(SetOptionError::InvalidKey);
        }
        if value == "bad" {
            return Err(SetOptionError::InvalidValue);
        }
        self.options += 1;
        Ok(())
    }

    fn execute<F: Fn(HostContext, HostRequest) -> HostResponse>(
        &self,
        _revision: Revision,
        _code: &[u8],
        _message: &ExecutionMessage,
        _context: Option<&mut ExecutionContext<F>>,
    ) -> ExecutionResult {
        ExecutionResult::success(self.options, 0, None)
    }
}

fn get_dummy_tx_context(_context: HostContext) -> AbiTxContext {
    AbiTxContext {
        tx_gas_price: Uint256::default().to_abi(),
        tx_origin: Address::default().to_abi(),
        block_coinbase: Address::default().to_abi(),
        block_number: 0,
        block_timestamp: 0,
        block_gas_limit: 0,
        block_prev_randao: Uint256::default().to_abi(),
        chain_id: Uint256::default().to_abi(),
        block_base_fee: Uint256::default().to_abi(),
    }
}

fn empty_instance() -> VmInstance {
    VmInstance {
        abi_version: ZVMC_ABI_VERSION,
        name: None,
        version: None,
        destroy: false,
        execute: false,
        get_capabilities: false,
        set_option: false,
    }
}

fn zero_message() -> AbiMessage {
    AbiMessage {
        kind: MessageKind::ZVMC_CALL.to_abi(),
        flags: 0,
        depth: 0,
        gas: 0,
        recipient: Address::default().to_abi(),
        sender: Address::default().to_abi(),
        input_data: None,
        value: Uint256::default().to_abi(),
        create2_salt: Bytes32::default().to_abi(),
        code_address: Address::default().to_abi(),
    }
}

fn no_host(_context: HostContext, _request: HostRequest) -> HostResponse {
    unreachable!("no entry of the callback table is set")
}

#[test]
fn container_new() {
    let instance = VmInstance {
        abi_version: ZVMC_ABI_VERSION,
        name: None,
        version: None,
        destroy: false,
        execute: false,
        get_capabilities: false,
        set_option: false,
    };

    let code = [0u8; 0];

    let message = AbiMessage {
        kind: MessageKind::ZVMC_CALL.to_abi(),
        flags: 0,
        depth: 0,
        gas: 0,
        recipient: Address::default().to_abi(),
        sender: Address::default().to_abi(),
        input_data: None,
        value: Uint256::default().to_abi(),
        create2_salt: Bytes32::default().to_abi(),
        code_address: Address::default().to_abi(),
    };
    let message: ExecutionMessage = ExecutionMessage::from_abi(&message).unwrap();

    let host = HostInterface {
        account_exists: false,
        get_storage: false,
        set_storage: false,
        get_balance: false,
        get_code_size: false,
        get_code_hash: false,
        copy_code: false,
        call: false,
        get_tx_context: true,
        get_block_hash: false,
        emit_log: false,
        access_account: false,
        access_storage: false,
        dispatch: |context: HostContext, request: HostRequest| match request {
            HostRequest::GetTxContext => HostResponse::TxContext(get_dummy_tx_context(context)),
            _ => unreachable!("only the transaction context entry is set"),
        },
    };
    let host_context = HostContext::null();

    let mut context = ExecutionContext::new(&host, host_context);
    let container = ZvmcContainer::<TestVm>::new(instance);
    assert_eq!(
        container
            .execute(Revision::ZVMC_SHANGHAI, &code, &message, Some(&mut context))
            .status_code(),
        StatusCode::ZVMC_FAILURE
    );

    let ptr = ZvmcContainer::into_ffi_pointer(container);

    let mut context = ExecutionContext::new(&host, host_context);
    let container = ZvmcContainer::<TestVm>::from_ffi_pointer(ptr);
    assert_eq!(
        container
            .execute(Revision::ZVMC_SHANGHAI, &code, &message, Some(&mut context))
            .status_code(),
        StatusCode::ZVMC_FAILURE
    );
}

#[test]
fn container_keeps_the_header() {
    let instance = VmInstance {
        abi_version: 7,
        name: Some(String::from("Foo VM")),
        version: Some(String::from("1.42-alpha.gamma.starship")),
        destroy: true,
        execute: true,
        get_capabilities: false,
        set_option: true,
    };
    let mut container = ZvmcContainer::<FooVM>::new(instance);
    assert_eq!(container.set_option("a", "b"), Ok(()));
    let container = ZvmcContainer::from_ffi_pointer(ZvmcContainer::into_ffi_pointer(container));
    let header = container.header();
    assert_eq!(header.abi_version, 7);
    assert_eq!(header.name.as_deref(), Some("Foo VM"));
    assert_eq!(header.version.as_deref(), Some("1.42-alpha.gamma.starship"));
    assert!(header.destroy);
    assert!(header.execute);
    assert!(!header.get_capabilities);
    assert!(header.set_option);
}

#[test]
fn failing_vm_gives_the_canonical_failure() {
    let raw = zero_message();
    let message = ExecutionMessage::from_abi(&raw).unwrap();
    let container = ZvmcContainer::<TestVm>::new(empty_instance());
    let result = container.execute::<fn(HostContext, HostRequest) -> HostResponse>(
        Revision::ZVMC_SHANGHAI,
        &[],
        &message,
        None,
    );
    assert_eq!(result.status_code(), StatusCode::ZVMC_FAILURE);
    assert_eq!(result.gas_left(), 0);
    assert_eq!(result.gas_refund(), 0);
    assert_eq!(result.output(), None);
    assert_eq!(result.create_address(), None);
}

#[test]
fn foo_vm_succeeds_with_fixed_gas() {
    let raw = zero_message();
    let message = ExecutionMessage::from_abi(&raw).unwrap();
    let container = ZvmcContainer::<FooVM>::new(empty_instance());
    let result = container.execute::<fn(HostContext, HostRequest) -> HostResponse>(
        Revision::ZVMC_SHANGHAI,
        &[],
        &message,
        None,
    );
    assert_eq!(result.status_code(), StatusCode::ZVMC_SUCCESS);
    assert_eq!(result.gas_left(), 1337);
    assert_eq!(result.gas_refund(), 21);
    assert_eq!(result.output(), None);
    assert_eq!(result.create_address(), None);
}

#[test]
fn foo_vm_keeps_the_latest_value_of_each_option() {
    let mut vm = FooVM::init();
    assert_eq!(vm.get_option("a"), None);
    assert_eq!(vm.set_option("a", "1"), Ok(()));
    assert_eq!(vm.set_option("b", "2"), Ok(()));
    assert_eq!(vm.get_option("a").map(|v| v.as_str()), Some("1"));
    assert_eq!(vm.get_option("b").map(|v| v.as_str()), Some("2"));
    assert_eq!(vm.set_option("a", "3"), Ok(()));
    assert_eq!(vm.get_option("a").map(|v| v.as_str()), Some("3"));
    assert_eq!(vm.get_option("b").map(|v| v.as_str()), Some("2"));
    assert_eq!(vm.get_option("c"), None);
    assert_eq!(vm.set_option("", ""), Ok(()));
    assert_eq!(vm.get_option("").map(|v| v.as_str()), Some(""));
}

#[test]
fn default_set_option_takes_everything() {
    let mut vm = TestVm::init();
    assert_eq!(vm.set_option("anything", "at all"), Ok(()));
    let mut container = ZvmcContainer::<TestVm>::new(empty_instance());
    assert_eq!(container.set_option("anything", "at all"), Ok(()));
}

#[test]
fn container_passes_set_option_on() {
    let mut container = ZvmcContainer::<CountingVm>::new(empty_instance());
    assert_eq!(container.set_option("unknown", "x"), Err(SetOptionError::InvalidKey));
    assert_eq!(container.set_option("known", "bad"), Err(SetOptionError::InvalidValue));
    assert_eq!(container.options, 0);
    assert_eq!(container.set_option("known", "good"), Ok(()));
    assert_eq!(container.options, 1);
    container.options = 41;
    assert_eq!(container.set_option("known", "good"), Ok(()));
    assert_eq!(container.options, 42);
}

#[test]
fn hand_off_and_reclaim_give_the_same_outcome() {
    let raw = zero_message();
    let message = ExecutionMessage::from_abi(&raw).unwrap();
    let mut container = ZvmcContainer::<CountingVm>::new(empty_instance());
    for _ in 0..5 {
        assert_eq!(container.set_option("known", "good"), Ok(()));
    }
    let before = container.execute::<fn(HostContext, HostRequest) -> HostResponse>(
        Revision::ZVMC_SHANGHAI,
        &[1, 2, 3],
        &message,
        None,
    );
    let pointer = ZvmcContainer::into_ffi_pointer(container);
    assert!(!pointer.is_null());
    let container = ZvmcContainer::<CountingVm>::from_ffi_pointer(pointer);
    let after = container.execute::<fn(HostContext, HostRequest) -> HostResponse>(
        Revision::ZVMC_SHANGHAI,
        &[1, 2, 3],
        &message,
        None,
    );
    assert_eq!(before.status_code(), StatusCode::ZVMC_SUCCESS);
    assert_eq!(before.gas_left(), 5);
    assert_eq!(after.status_code(), before.status_code());
    assert_eq!(after.gas_left(), before.gas_left());
    assert_eq!(after.gas_refund(), before.gas_refund());
    assert_eq!(after.output(), before.output());
    assert_eq!(after.create_address(), before.create_address());
}

#[test]
fn null_pointer_is_told_apart() {
    let null = FfiPointer::<FooVM>::null();
    assert!(null.is_null());
    let pointer = ZvmcContainer::into_ffi_pointer(ZvmcContainer::<FooVM>::new(empty_instance()));
    assert!(!pointer.is_null());
    let container = ZvmcContainer::from_ffi_pointer(pointer);
    assert_eq!(container.get_option("a"), None);
}

#[test]
fn two_cycles_do_not_share_state() {
    let mut first = ZvmcContainer::<FooVM>::new(empty_instance());
    let mut second = ZvmcContainer::<FooVM>::new(empty_instance());
    assert_eq!(first.set_option("name", "first"), Ok(()));
    assert_eq!(second.set_option("name", "second"), Ok(()));
    assert_eq!(second.set_option("only", "here"), Ok(()));

    let first_pointer = ZvmcContainer::into_ffi_pointer(first);
    let second_pointer = ZvmcContainer::into_ffi_pointer(second);
    let mut second = ZvmcContainer::from_ffi_pointer(second_pointer);
    let mut first = ZvmcContainer::from_ffi_pointer(first_pointer);
    assert_eq!(first.get_option("name").map(|v| v.as_str()), Some("first"));
    assert_eq!(first.get_option("only"), None);
    assert_eq!(second.get_option("name").map(|v| v.as_str()), Some("second"));
    assert_eq!(second.get_option("only").map(|v| v.as_str()), Some("here"));

    assert_eq!(first.set_option("round", "two"), Ok(()));
    assert_eq!(second.set_option("name", "changed"), Ok(()));
    let second_pointer = ZvmcContainer::into_ffi_pointer(second);
    let first_pointer = ZvmcContainer::into_ffi_pointer(first);
    let first = ZvmcContainer::from_ffi_pointer(first_pointer);
    let second = ZvmcContainer::from_ffi_pointer(second_pointer);
    assert_eq!(first.get_option("name").map(|v| v.as_str()), Some("first"));
    assert_eq!(first.get_option("round").map(|v| v.as_str()), Some("two"));
    assert_eq!(second.get_option("name").map(|v| v.as_str()), Some("changed"));
    assert_eq!(second.get_option("round"), None);
    assert_eq!(second.get_option("only").map(|v| v.as_str()), Some("here"));
}

#[test]
fn deref_reaches_the_virtual_machine() {
    let mut container = ZvmcContainer::<CountingVm>::new(empty_instance());
    assert_eq!(container.options, 0);
    container.options = 3;
    let vm: &CountingVm = &container;
    assert_eq!(vm.options, 3);
    let vm: &mut CountingVm = &mut container;
    vm.options += 1;
    assert_eq!(container.options, 4);
}

#[test]
fn execute_abi_marshals_both_ways() {
    let container = ZvmcContainer::<FooVM>::new(empty_instance());
    let raw = container
        .execute_abi(0, &[], &zero_message(), None::<(&HostInterface<fn(HostContext, HostRequest) -> HostResponse>, HostContext)>)
        .unwrap();
    assert_eq!(raw.status_code, 0);
    assert_eq!(raw.gas_left, 1337);
    assert_eq!(raw.gas_refund, 21);
    assert_eq!(raw.output_data, None);
    assert_eq!(raw.create_address, [0u8; 20]);
}

#[test]
fn execute_abi_hands_the_host_to_the_virtual_machine() {
    struct AskingVm {}
    impl ZvmcVm for AskingVm {
        fn init() -> Self {
            AskingVm {}
        }

        fn execute<F: Fn(HostContext, HostRequest) -> HostResponse>(
            &self,
            _revision: Revision,
            code: &[u8],
            message: &ExecutionMessage,
            context: Option<&mut ExecutionContext<F>>,
        ) -> ExecutionResult {
            match context {
                Some(context) => match context.get_block_hash(message.gas()) {
                    Ok(hash) => ExecutionResult::success(message.gas(), 0, Some(&hash.bytes)),
                    Err(_) => ExecutionResult::revert(message.gas(), Some(code)),
                },
                None => ExecutionResult::failure(),
            }
        }
    }

    let container = ZvmcContainer::<AskingVm>::new(empty_instance());
    let mut message = zero_message();
    message.gas = 77;
    let mut host = HostInterface {
        account_exists: false,
        get_storage: false,
        set_storage: false,
        get_balance: false,
        get_code_size: false,
        get_code_hash: false,
        copy_code: false,
        call: false,
        get_tx_context: false,
        get_block_hash: true,
        emit_log: false,
        access_account: false,
        access_storage: false,
        dispatch: |context: HostContext, request: HostRequest| match request {
            HostRequest::GetBlockHash { number } => {
                let mut word = [0u8; 32];
                word[0] = number as u8;
                word[1] = context.address as u8;
                HostResponse::Word(word)
            }
            _ => unreachable!("only the block hash entry is set"),
        },
    };

    let raw = container
        .execute_abi(0, &[9, 9], &message, Some((&host, HostContext { address: 5 })))
        .unwrap();
    let mut word = [0u8; 32];
    word[0] = 77;
    word[1] = 5;
    assert_eq!(raw.status_code, 0);
    assert_eq!(raw.gas_left, 77);
    assert_eq!(raw.gas_refund, 0);
    assert_eq!(raw.output_data, Some(word.to_vec()));
    assert_eq!(raw.create_address, [0u8; 20]);

    host.get_block_hash = false;
    let raw = container
        .execute_abi(0, &[9, 9], &message, Some((&host, HostContext { address: 5 })))
        .unwrap();
    assert_eq!(raw.status_code, 2);
    assert_eq!(raw.gas_left, 77);
    assert_eq!(raw.output_data, Some(vec![9, 9]));

    let raw = container
        .execute_abi(0, &[9, 9], &message, None::<(&HostInterface<fn(HostContext, HostRequest) -> HostResponse>, HostContext)>)
        .unwrap();
    assert_eq!(raw.status_code, 1);
    assert_eq!(raw.output_data, None);
}

#[test]
fn execute_abi_turns_down_what_is_no_revision_or_no_call_kind() {
    let container = ZvmcContainer::<FooVM>::new(empty_instance());
    let host = HostInterface {
        account_exists: false,
        get_storage: false,
        set_storage: false,
        get_balance: false,
        get_code_size: false,
        get_code_hash: false,
        copy_code: false,
        call: false,
        get_tx_context: false,
        get_block_hash: false,
        emit_log: false,
        access_account: false,
        access_storage: false,
        dispatch: no_host,
    };
    assert!(container
        .execute_abi(1, &[], &zero_message(), Some((&host, HostContext::null())))
        .is_none());
    assert!(container
        .execute_abi(-1, &[], &zero_message(), Some((&host, HostContext::null())))
        .is_none());
    let mut message = zero_message();
    message.kind = 2;
    assert!(container
        .execute_abi(0, &[], &message, Some((&host, HostContext::null())))
        .is_none());
    message.kind = 4;
    assert!(container
        .execute_abi(0, &[], &message, Some((&host, HostContext::null())))
        .is_some());
}
