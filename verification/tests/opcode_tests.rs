//! Tests of the environmental opcodes, the stack and memory bounds, the
//! push decoder and the configuration.

use evm_runtime::opcode;
use evm_runtime::{
    Capture, Config, Context, ExitError, ExitReason, ExitSucceed, Machine, Runtime, SimpleHost,
    H160, U256,
};

fn addr(n: u64) -> H160 {
    H160 { lo: n, mid: 0, hi: 0 }
}

fn word(n: u64) -> U256 {
    U256 { limb0: n, limb1: 0, limb2: 0, limb3: 0 }
}

fn ctx(a: H160, caller: H160, value: U256) -> Context {
    Context { address: a, caller, apparent_value: value }
}

fn new_rt(code: Vec<u8>, context: Context) -> Runtime {
    Runtime::new(code, Vec::new(), Vec::new(), context)
}

fn top(rt: &Runtime) -> U256 {
    rt.machine().stack().peek(0).unwrap()
}

fn run_ok(code: Vec<u8>, context: Context, host: &mut SimpleHost) -> Runtime {
    let mut rt = new_rt(code, context);
    let (_, capture) = rt.run(10_000, host);
    assert!(matches!(capture, Capture::Exit(ExitReason::Succeed(ExitSucceed::Stopped))));
    rt
}

/// Environmental opcodes push the values the host and the context report.
#[test]
fn environment_pushes() {
    let a = addr(0xA);
    let b = addr(0xB);
    let context = ctx(a, b, word(7));
    let mut host = SimpleHost::new();
    host.chain_id_v = word(42);
    host.balance_v = word(9);
    host.block_timestamp_v = word(1234);
    host.gas_left_v = word(555);
    host.origin_v = addr(0x0E);

    let rt = run_ok(vec![opcode::CHAINID, opcode::STOP], context, &mut host);
    assert_eq!(top(&rt), word(42));

    let rt = run_ok(vec![opcode::ADDRESS, opcode::STOP], context, &mut host);
    assert_eq!(top(&rt), word(0xA));

    let rt = run_ok(vec![opcode::CALLER, opcode::STOP], context, &mut host);
    assert_eq!(top(&rt), word(0xB));

    let rt = run_ok(vec![opcode::CALLVALUE, opcode::STOP], context, &mut host);
    assert_eq!(top(&rt), word(7));

    let rt = run_ok(vec![opcode::ORIGIN, opcode::STOP], context, &mut host);
    assert_eq!(top(&rt), word(0x0E));

    let rt = run_ok(vec![opcode::SELFBALANCE, opcode::STOP], context, &mut host);
    assert_eq!(top(&rt), word(9));

    let rt = run_ok(
        vec![opcode::PUSH1, 0x05, opcode::BALANCE, opcode::STOP],
        context,
        &mut host,
    );
    assert_eq!(top(&rt), word(9));

    let rt = run_ok(vec![opcode::TIMESTAMP, opcode::STOP], context, &mut host);
    assert_eq!(top(&rt), word(1234));

    let rt = run_ok(vec![opcode::GAS, opcode::STOP], context, &mut host);
    assert_eq!(top(&rt), word(555));

    // The base fee is pushed as zero: the host interface carries none.
    let rt = run_ok(vec![opcode::BASEFEE, opcode::STOP], context, &mut host);
    assert_eq!(top(&rt), word(0));
}

/// Before any child call the return-data buffer is empty and
/// RETURNDATASIZE pushes zero.
#[test]
fn returndatasize_initially_zero() {
    let mut host = SimpleHost::new();
    let rt = run_ok(
        vec![opcode::RETURNDATASIZE, opcode::STOP],
        ctx(addr(1), addr(2), word(0)),
        &mut host,
    );
    assert_eq!(top(&rt), word(0));
    assert!(rt.return_data().is_empty());
}

/// Hashing a zero-length slice reads no memory and hashes empty bytes.
#[test]
fn sha3_zero_length() {
    let mut host = SimpleHost::new();
    let rt = run_ok(
        vec![opcode::PUSH1, 0, opcode::PUSH1, 0, opcode::SHA3, opcode::STOP],
        ctx(addr(1), addr(2), word(0)),
        &mut host,
    );
    // The stub digest of the empty byte sequence.
    assert_eq!(top(&rt), U256 { limb0: 0, limb1: 0, limb2: 0, limb3: 1 });
    assert_eq!(rt.machine().memory().len(), 0);
}

/// A zero-length LOG reads no memory and hands the host empty data.
#[test]
fn log_zero_length() {
    let a = addr(0xA);
    let mut host = SimpleHost::new();
    let rt = run_ok(
        vec![opcode::PUSH1, 0, opcode::PUSH1, 0, opcode::LOG0, opcode::STOP],
        ctx(a, addr(2), word(0)),
        &mut host,
    );
    assert_eq!(rt.machine().memory().len(), 0);
    let (address, topics, data) = host.last_log.unwrap();
    assert_eq!(address, a);
    assert!(topics.is_empty());
    assert!(data.is_empty());
}

/// LOG pops its topics after the memory range, top of the stack first.
#[test]
fn log_two_topics() {
    let a = addr(0xA);
    let mut host = SimpleHost::new();
    let code = vec![
        opcode::PUSH1, 21, // second topic
        opcode::PUSH1, 20, // first topic
        opcode::PUSH1, 0, // length
        opcode::PUSH1, 0, // offset
        opcode::LOG0 + 2,
        opcode::STOP,
    ];
    let _ = run_ok(code, ctx(a, addr(2), word(0)), &mut host);
    let (_, topics, _) = host.last_log.unwrap();
    assert_eq!(topics, vec![word(20), word(21)]);
}

/// A zero-length EXTCODECOPY touches no memory; the host is still asked
/// for the code.
#[test]
fn extcodecopy_zero_length() {
    let mut host = SimpleHost::new();
    host.code_v = vec![1, 2, 3];
    let code = vec![
        opcode::PUSH1, 0, // length
        opcode::PUSH1, 0, // code offset
        opcode::PUSH1, 0, // memory offset
        opcode::PUSH1, 5, // address
        opcode::EXTCODECOPY,
        opcode::STOP,
    ];
    let rt = run_ok(code, ctx(addr(1), addr(2), word(0)), &mut host);
    assert_eq!(rt.machine().memory().len(), 0);
}

/// EXTCODECOPY pads with zeros where the account's code is shorter than
/// the requested range.
#[test]
fn extcodecopy_pads_with_zeros() {
    let mut host = SimpleHost::new();
    host.code_v = vec![0x11, 0x22];
    let code = vec![
        opcode::PUSH1, 4, // length
        opcode::PUSH1, 1, // code offset
        opcode::PUSH1, 0, // memory offset
        opcode::PUSH1, 5, // address
        opcode::EXTCODECOPY,
        opcode::STOP,
    ];
    let rt = run_ok(code, ctx(addr(1), addr(2), word(0)), &mut host);
    assert_eq!(rt.machine().memory().get(0, 4), vec![0x22, 0, 0, 0]);
}

/// SSTORE hands the executing address, index and value to the host;
/// underflow surfaces before any host mutation.
#[test]
fn sstore_records_and_underflow_mutates_nothing() {
    let a = addr(0xA);
    let mut host = SimpleHost::new();
    let code = vec![opcode::PUSH1, 7, opcode::PUSH1, 3, opcode::SSTORE, opcode::STOP];
    let _ = run_ok(code, ctx(a, addr(2), word(0)), &mut host);
    assert_eq!(host.last_set_storage, Some((a, word(3), word(7))));

    // An empty stack fails before the host sees anything.
    let mut host2 = SimpleHost::new();
    let mut rt = new_rt(vec![opcode::SSTORE], ctx(a, addr(2), word(0)));
    let (_, capture) = rt.run(100, &mut host2);
    assert!(matches!(
        capture,
        Capture::Exit(ExitReason::Error(ExitError::StackUnderflow))
    ));
    assert_eq!(host2.last_set_storage, None);
}

/// SLOAD and TLOAD push what the host reports for the executing account.
#[test]
fn sload_tload_push_host_values() {
    let mut host = SimpleHost::new();
    host.storage_v = word(11);
    host.transient_storage_v = word(22);
    let rt = run_ok(
        vec![opcode::PUSH1, 0, opcode::SLOAD, opcode::STOP],
        ctx(addr(1), addr(2), word(0)),
        &mut host,
    );
    assert_eq!(top(&rt), word(11));
    let rt = run_ok(
        vec![opcode::PUSH1, 0, opcode::TLOAD, opcode::STOP],
        ctx(addr(1), addr(2), word(0)),
        &mut host,
    );
    assert_eq!(top(&rt), word(22));
}

/// The push decoder reads big-endian immediates of any width and
/// zero-pads a push truncated by the end of the code.
#[test]
fn push_decoding() {
    let mut host = SimpleHost::new();
    let context = ctx(addr(1), addr(2), word(0));

    // PUSH4 of 0xDEADBEEF.
    let rt = run_ok(
        vec![opcode::PUSH1 + 3, 0xDE, 0xAD, 0xBE, 0xEF, opcode::STOP],
        context,
        &mut host,
    );
    assert_eq!(top(&rt), word(0xDEADBEEF));

    // PUSH9 of 2^64: one bit past the low limb.
    let rt = run_ok(
        vec![opcode::PUSH1 + 8, 1, 0, 0, 0, 0, 0, 0, 0, 0, opcode::STOP],
        context,
        &mut host,
    );
    assert_eq!(top(&rt), U256 { limb0: 0, limb1: 1, limb2: 0, limb3: 0 });

    // PUSH32 with a byte in every limb.
    let mut code = vec![opcode::PUSH32];
    let mut immediate = vec![0u8; 32];
    immediate[7] = 4; // most significant limb
    immediate[15] = 3;
    immediate[23] = 2;
    immediate[31] = 1; // least significant limb
    code.extend_from_slice(&immediate);
    code.push(opcode::STOP);
    let rt = run_ok(code, context, &mut host);
    assert_eq!(top(&rt), U256 { limb0: 1, limb1: 2, limb2: 3, limb3: 4 });

    // PUSH2 with only one immediate byte left: zero-padded on the right,
    // and running off the code end stops the machine.
    let rt = run_ok(vec![opcode::PUSH1 + 1, 0x07], context, &mut host);
    assert_eq!(top(&rt), word(0x0700));
}

/// A call whose gas operand exceeds 64 bits passes no gas cap.
#[test]
fn call_gas_above_u64_is_uncapped() {
    let mut host = SimpleHost::new();
    host.reply_call = Some((ExitReason::Succeed(ExitSucceed::Returned), vec![]));
    let code = vec![
        opcode::PUSH1, 0, // out length
        opcode::PUSH1, 0, // out offset
        opcode::PUSH1, 0, // in length
        opcode::PUSH1, 0, // in offset
        opcode::PUSH1, 0, // value
        opcode::PUSH1, 5, // target
        opcode::PUSH1 + 8, 1, 0, 0, 0, 0, 0, 0, 0, 0, // gas of 2^64
        opcode::CALL,
        opcode::STOP,
    ];
    let _ = run_ok(code, ctx(addr(1), addr(2), word(0)), &mut host);
    assert_eq!(host.last_call.unwrap().target_gas, None);
}

/// The stack refuses its 1025th word with StackOverflow.
#[test]
fn stack_overflow_at_limit() {
    let mut code = Vec::new();
    for _ in 0..1025u32 {
        code.extend_from_slice(&[opcode::PUSH1, 1]);
    }
    let mut host = SimpleHost::new();
    let mut rt = new_rt(code, ctx(addr(1), addr(2), word(0)));
    let (steps, capture) = rt.run(10_000, &mut host);
    assert_eq!(steps, 1024);
    assert!(matches!(
        capture,
        Capture::Exit(ExitReason::Error(ExitError::StackOverflow))
    ));
    assert_eq!(rt.machine().stack().len(), 1024);
}

/// Memory grows over a hashed range and a repeated resize of a covered
/// range does not grow it further.
#[test]
fn memory_growth_is_monotone_and_idempotent() {
    let mut host = SimpleHost::new();
    let code = vec![
        opcode::PUSH1, 8, opcode::PUSH1, 0, opcode::SHA3, // covers 0..8
        opcode::POP,
        opcode::PUSH1, 4, opcode::PUSH1, 2, opcode::SHA3, // already covered
        opcode::STOP,
    ];
    let rt = run_ok(code, ctx(addr(1), addr(2), word(0)), &mut host);
    assert_eq!(rt.machine().memory().len(), 8);
}

/// An opcode that neither the machine nor the evaluator handles is an
/// unhandled interrupt, fatal for the whole execution.
#[test]
fn unknown_opcode_is_fatal() {
    let mut host = SimpleHost::new();
    let mut rt = new_rt(vec![0x21], ctx(addr(1), addr(2), word(0)));
    let (_, capture) = rt.run(100, &mut host);
    assert!(matches!(
        capture,
        Capture::Exit(ExitReason::Fatal(evm_runtime::ExitFatal::UnhandledInterrupt))
    ));
}

/// The Istanbul configuration carries the documented bounds and flags.
#[test]
fn istanbul_config_values() {
    let config = Config::istanbul();
    assert_eq!(config.stack_limit, 1024);
    assert_eq!(config.memory_limit, usize::MAX);
    assert_eq!(config.call_stack_limit, 1024);
    assert_eq!(config.create_contract_limit, Some(0x6000));
    assert_eq!(config.call_stipend, 2300);
    assert!(config.has_delegate_call);
    assert!(config.has_create2);
    assert!(config.has_revert);
    assert!(config.has_return_data);
    assert!(config.has_chain_id);
    assert!(!config.estimate);
    assert_eq!(config.gas_sload, 800);
    assert_eq!(config.gas_sstore_set, 20000);

    let default = Config::default();
    assert_eq!(default.stack_limit, config.stack_limit);
    assert_eq!(default.gas_sload, config.gas_sload);
}

/// Remaining block and account queries push what the host reports.
#[test]
fn block_queries_push_host_values() {
    let context = ctx(addr(1), addr(2), word(0));
    let mut host = SimpleHost::new();
    host.coinbase_v = addr(0xC0);
    host.block_number_v = word(88);
    host.block_difficulty_v = word(77);
    host.block_gas_limit_v = word(66);
    host.block_hash_v = word(55);
    host.gas_price_v = word(44);
    host.code_size_v = word(33);
    host.code_hash_v = word(22);

    let rt = run_ok(vec![opcode::COINBASE, opcode::STOP], context, &mut host);
    assert_eq!(top(&rt), word(0xC0));
    let rt = run_ok(vec![opcode::NUMBER, opcode::STOP], context, &mut host);
    assert_eq!(top(&rt), word(88));
    let rt = run_ok(vec![opcode::DIFFICULTY, opcode::STOP], context, &mut host);
    assert_eq!(top(&rt), word(77));
    let rt = run_ok(vec![opcode::GASLIMIT, opcode::STOP], context, &mut host);
    assert_eq!(top(&rt), word(66));
    let rt = run_ok(
        vec![opcode::PUSH1, 9, opcode::BLOCKHASH, opcode::STOP],
        context,
        &mut host,
    );
    assert_eq!(top(&rt), word(55));
    let rt = run_ok(vec![opcode::GASPRICE, opcode::STOP], context, &mut host);
    assert_eq!(top(&rt), word(44));
    let rt = run_ok(
        vec![opcode::PUSH1, 9, opcode::EXTCODESIZE, opcode::STOP],
        context,
        &mut host,
    );
    assert_eq!(top(&rt), word(33));
    let rt = run_ok(
        vec![opcode::PUSH1, 9, opcode::EXTCODEHASH, opcode::STOP],
        context,
        &mut host,
    );
    assert_eq!(top(&rt), word(22));
}

/// TSTORE hands the executing address, index and value to the host.
#[test]
fn tstore_records() {
    let a = addr(0xA);
    let mut host = SimpleHost::new();
    let code = vec![opcode::PUSH1, 8, opcode::PUSH1, 4, opcode::TSTORE, opcode::STOP];
    let _ = run_ok(code, ctx(a, addr(2), word(0)), &mut host);
    assert_eq!(host.last_set_transient_storage, Some((a, word(4), word(8))));
}

/// An operand past the native index range is a fatal failure: the
/// platform cannot address it.
#[test]
fn oversized_offset_is_fatal() {
    let mut host = SimpleHost::new();
    // sha3 over a length of 2^64: beyond any native index here.
    let code = vec![
        opcode::PUSH1 + 8, 1, 0, 0, 0, 0, 0, 0, 0, 0, // length of 2^64
        opcode::PUSH1, 0, // offset
        opcode::SHA3,
    ];
    let mut rt = new_rt(code, ctx(addr(1), addr(2), word(0)));
    let (_, capture) = rt.run(100, &mut host);
    assert!(matches!(
        capture,
        Capture::Exit(ExitReason::Fatal(evm_runtime::ExitFatal::NotSupported))
    ));
}

/// A range beyond the machine's memory bound is refused when memory is
/// resized, and the frame exits with the catch-all error.
#[test]
fn memory_bound_exceeded_errors() {
    let code = vec![opcode::PUSH1, 64, opcode::PUSH1, 0, opcode::SHA3];
    // A machine whose memory is capped at 16 bytes.
    let machine = Machine::new(code, Vec::new(), Vec::new(), 1024, 16);
    let mut rt_struct = evm_runtime::Runtime {
        machine,
        status: Ok(()),
        return_data_buffer: Vec::new(),
        context: ctx(addr(1), addr(2), word(0)),
    };
    let mut host = SimpleHost::new();
    let (_, capture) = rt_struct.run(100, &mut host);
    assert!(matches!(
        capture,
        Capture::Exit(ExitReason::Error(ExitError::Other))
    ));
}

/// A host that refuses a storage write propagates exactly its error; the
/// write was still requested once.
#[test]
fn sstore_host_error_propagates() {
    let a = addr(0xA);
    let mut host = SimpleHost::new();
    host.fail_mutations = Some(ExitError::OutOfGas);
    let code = vec![opcode::PUSH1, 7, opcode::PUSH1, 3, opcode::SSTORE, opcode::STOP];
    let mut rt = new_rt(code, ctx(a, addr(2), word(0)));
    let (_, capture) = rt.run(100, &mut host);
    assert!(matches!(
        capture,
        Capture::Exit(ExitReason::Error(ExitError::OutOfGas))
    ));
    assert_eq!(host.last_set_storage, Some((a, word(3), word(7))));
}

/// A host that refuses the deletion mark propagates its error instead of
/// the Suicided reason.
#[test]
fn suicide_host_error_propagates() {
    let a = addr(0xA);
    let mut host = SimpleHost::new();
    host.fail_mutations = Some(ExitError::CallTooDeep);
    let code = vec![opcode::PUSH1, 0x77, opcode::SUICIDE];
    let mut rt = new_rt(code, ctx(a, addr(2), word(0)));
    let (_, capture) = rt.run(100, &mut host);
    assert!(matches!(
        capture,
        Capture::Exit(ExitReason::Error(ExitError::CallTooDeep))
    ));
    assert_eq!(host.last_mark_delete, Some((a, addr(0x77))));
}
