//! Scenario tests driving whole programs through `Runtime::run` against
//! the in-memory host.

use evm_runtime::opcode;
use evm_runtime::{
    save_created_address, save_return_value, Capture, Context, Control, CreateScheme, ExitError,
    ExitReason, ExitSucceed, Resolve, Runtime, SimpleHost, Transfer, H160, U256,
};

fn addr(n: u64) -> H160 {
    H160 { lo: n, mid: 0, hi: 0 }
}

fn word(n: u64) -> U256 {
    U256 { limb0: n, limb1: 0, limb2: 0, limb3: 0 }
}

fn ctx(a: H160, caller: H160, value: U256) -> Context {
    Context { address: a, caller, apparent_value: value }
}

fn new_rt(code: Vec<u8>, context: Context) -> Runtime {
    Runtime::new(code, Vec::new(), Vec::new(), context)
}

fn top(rt: &Runtime) -> U256 {
    rt.machine().stack().peek(0).unwrap()
}

/// RETURNDATACOPY past the (empty) buffer fails with OutOfOffset and
/// leaves memory exactly as it was: no growth, no write.
#[test]
fn returndatacopy_overrun() {
    // push len=1, data_off=0, mem_off=0; then RETURNDATACOPY.
    let code = vec![
        opcode::PUSH1, 1, // len
        opcode::PUSH1, 0, // data offset
        opcode::PUSH1, 0, // memory offset
        opcode::RETURNDATACOPY,
    ];
    let mut host = SimpleHost::new();
    let mut rt = new_rt(code, ctx(addr(0xA), addr(0xB), word(0)));
    let (steps, capture) = rt.run(100, &mut host);
    assert_eq!(steps, 4);
    assert!(matches!(
        capture,
        Capture::Exit(ExitReason::Error(ExitError::OutOfOffset))
    ));
    // The overrun is caught before memory is touched.
    assert_eq!(rt.machine().memory().len(), 0);
    assert_eq!(rt.machine().memory().get(0, 1), vec![0u8]);
}

/// A failed frame latches its status: running again returns the same
/// reason with zero steps and asks the host for nothing.
#[test]
fn failed_status_is_sticky() {
    let code = vec![opcode::PUSH1, 1, opcode::PUSH1, 0, opcode::PUSH1, 0, opcode::RETURNDATACOPY];
    let mut host = SimpleHost::new();
    let mut rt = new_rt(code, ctx(addr(0xA), addr(0xB), word(0)));
    let _ = rt.run(100, &mut host);
    let (steps, capture) = rt.run(100, &mut host);
    assert_eq!(steps, 0);
    assert!(matches!(
        capture,
        Capture::Exit(ExitReason::Error(ExitError::OutOfOffset))
    ));
}

fn call_program(op: u8, value: Option<u8>, to: u8, out_len: u8) -> Vec<u8> {
    // Stack bottom to top: out_len, out_off, in_len, in_off, [value,] to, gas.
    let mut code = vec![
        opcode::PUSH1, out_len, // out length
        opcode::PUSH1, 0, // out offset
        opcode::PUSH1, 0, // in length
        opcode::PUSH1, 0, // in offset
    ];
    if let Some(v) = value {
        code.extend_from_slice(&[opcode::PUSH1, v]);
    }
    code.extend_from_slice(&[opcode::PUSH1, to, opcode::PUSH1, 0xFF, op, opcode::STOP]);
    code
}

/// A CALL whose out range is longer than the child's return data copies
/// only the returned bytes, leaves the rest of the range as it was, and
/// pushes one for success.
#[test]
fn call_out_range_larger_than_return() {
    let mut host = SimpleHost::new();
    host.reply_call = Some((ExitReason::Succeed(ExitSucceed::Returned), vec![0xAA, 0xBB]));
    let mut rt = new_rt(call_program(opcode::CALL, Some(0), 5, 4), ctx(addr(0xA), addr(0xB), word(0)));
    let (_, capture) = rt.run(100, &mut host);
    assert!(matches!(capture, Capture::Exit(ExitReason::Succeed(ExitSucceed::Stopped))));
    assert_eq!(rt.machine().memory().get(0, 4), vec![0xAA, 0xBB, 0x00, 0x00]);
    assert_eq!(top(&rt), word(1));
    // The buffer holds exactly the bytes the host returned.
    assert_eq!(rt.return_data(), &vec![0xAA, 0xBB]);
}

/// CALLCODE runs the target's code at the executing account: the child
/// context keeps the self address as both address and caller, with the
/// transferred value apparent, and the transfer pays the self account.
#[test]
fn callcode_context() {
    let a = addr(0xA);
    let b = addr(0xB);
    let c = addr(0xC);
    let mut host = SimpleHost::new();
    host.reply_call = Some((ExitReason::Succeed(ExitSucceed::Returned), vec![]));
    let mut rt = new_rt(
        call_program(opcode::CALLCODE, Some(9), 0xC, 0),
        ctx(a, b, word(7)),
    );
    let (_, capture) = rt.run(100, &mut host);
    assert!(matches!(capture, Capture::Exit(ExitReason::Succeed(ExitSucceed::Stopped))));
    let record = host.last_call.unwrap();
    assert_eq!(record.code_address, c);
    assert_eq!(record.context, ctx(a, a, word(9)));
    assert_eq!(
        record.transfer,
        Some(Transfer { source: a, target: a, value: word(9) })
    );
    assert!(!record.is_static);
    assert_eq!(record.target_gas, Some(0xFF));
}

/// DELEGATECALL keeps the caller's own caller and apparent value, and
/// moves no balance.
#[test]
fn delegatecall_context() {
    let a = addr(0xA);
    let b = addr(0xB);
    let mut host = SimpleHost::new();
    host.reply_call = Some((ExitReason::Succeed(ExitSucceed::Returned), vec![]));
    let mut rt = new_rt(
        call_program(opcode::DELEGATECALL, None, 0xC, 0),
        ctx(a, b, word(7)),
    );
    let (_, capture) = rt.run(100, &mut host);
    assert!(matches!(capture, Capture::Exit(ExitReason::Succeed(ExitSucceed::Stopped))));
    let record = host.last_call.unwrap();
    assert_eq!(record.context, ctx(a, b, word(7)));
    assert_eq!(record.transfer, None);
    assert!(!record.is_static);
}

/// STATICCALL runs the target at the target with no value and the static
/// flag set.
#[test]
fn staticcall_context() {
    let a = addr(0xA);
    let b = addr(0xB);
    let c = addr(0xC);
    let mut host = SimpleHost::new();
    host.reply_call = Some((ExitReason::Succeed(ExitSucceed::Returned), vec![]));
    let mut rt = new_rt(
        call_program(opcode::STATICCALL, None, 0xC, 0),
        ctx(a, b, word(7)),
    );
    let (_, capture) = rt.run(100, &mut host);
    assert!(matches!(capture, Capture::Exit(ExitReason::Succeed(ExitSucceed::Stopped))));
    let record = host.last_call.unwrap();
    assert_eq!(record.context, ctx(c, a, word(0)));
    assert_eq!(record.transfer, None);
    assert!(record.is_static);
}

/// CREATE2 hands the host a scheme naming the caller, the salt, and the
/// host's own hash of the exact init code read from memory.
#[test]
fn create2_scheme_inputs() {
    let a = addr(0xA);
    // The program's first two bytes, PUSH1 0x00, double as the init code
    // [0x60, 0x00]: CODECOPY writes them to memory, CREATE2 reads them.
    let code = vec![
        opcode::PUSH1, 0x00, // stray word; also the init-code bytes
        opcode::PUSH1, 2, // codecopy length
        opcode::PUSH1, 0, // code offset
        opcode::PUSH1, 0, // memory offset
        opcode::CODECOPY,
        opcode::PUSH1, 1, // salt
        opcode::PUSH1, 2, // init code length
        opcode::PUSH1, 0, // init code offset
        opcode::PUSH1, 0, // value
        opcode::CREATE2,
        opcode::STOP,
    ];
    let mut host = SimpleHost::new();
    host.reply_create = Some((ExitReason::Succeed(ExitSucceed::Returned), Some(addr(0xDD))));
    let mut rt = new_rt(code, ctx(a, addr(0xB), word(0)));
    let (_, capture) = rt.run(100, &mut host);
    assert!(matches!(capture, Capture::Exit(ExitReason::Succeed(ExitSucceed::Stopped))));
    let record = host.last_create.unwrap();
    assert_eq!(record.init_code, vec![0x60, 0x00]);
    assert_eq!(record.caller, a);
    assert_eq!(record.value, word(0));
    // The stub digest of [0x60, 0x00]: length 2, first byte, last byte.
    let expected_hash = U256 { limb0: 2, limb1: 0x60, limb2: 0x00, limb3: 1 };
    assert_eq!(
        record.scheme,
        CreateScheme::Create2 { caller: a, code_hash: expected_hash, salt: word(1) }
    );
    // The created address was pushed.
    assert_eq!(top(&rt), word(0xDD));
}

/// SUICIDE marks the account for deletion and exits with the Suicided
/// reason; a later run returns the same reason with zero steps.
#[test]
fn suicide_terminal_and_sticky() {
    let a = addr(0xA);
    let t = addr(0x77);
    let code = vec![opcode::PUSH1, 0x77, opcode::SUICIDE];
    let mut host = SimpleHost::new();
    let mut rt = new_rt(code, ctx(a, addr(0xB), word(0)));
    let (_, capture) = rt.run(100, &mut host);
    assert!(matches!(capture, Capture::Exit(ExitReason::Succeed(ExitSucceed::Suicided))));
    assert_eq!(host.last_mark_delete, Some((a, t)));
    let (steps, capture) = rt.run(100, &mut host);
    assert_eq!(steps, 0);
    assert!(matches!(capture, Capture::Exit(ExitReason::Succeed(ExitSucceed::Suicided))));
}

/// Running a long pure-compute program in two budgeted slices lands in
/// the same final state as one unbudgeted run, with the same total steps.
#[test]
fn step_limit_resumption() {
    let mut code = Vec::new();
    for i in 0..200u64 {
        code.extend_from_slice(&[opcode::PUSH1, (i % 251) as u8, opcode::POP]);
    }
    code.push(opcode::STOP);
    let context = ctx(addr(0xA), addr(0xB), word(0));
    let mut host = SimpleHost::new();

    let mut sliced = new_rt(code.clone(), context);
    let (steps1, capture1) = sliced.run(10, &mut host);
    assert_eq!(steps1, 10);
    assert!(matches!(capture1, Capture::Exit(ExitReason::StepLimitReached)));
    let (steps2, capture2) = sliced.run(1_000_000, &mut host);
    assert!(matches!(capture2, Capture::Exit(ExitReason::Succeed(ExitSucceed::Stopped))));

    let mut whole = new_rt(code, context);
    let (steps, capture) = whole.run(1_000_000, &mut host);
    assert!(matches!(capture, Capture::Exit(ExitReason::Succeed(ExitSucceed::Stopped))));
    assert_eq!(steps1 + steps2, steps);
    assert_eq!(steps, 401);
    assert_eq!(sliced.machine().stack().len(), whole.machine().stack().len());
    assert_eq!(sliced.machine().memory().len(), whole.machine().memory().len());
    assert_eq!(sliced.return_data(), whole.return_data());
}

/// Resuming a trapped CALL with a given result leaves the same stack,
/// memory and buffer as a synchronous completion with that result.
#[test]
fn resume_matches_synchronous_call() {
    let context = ctx(addr(0xA), addr(0xB), word(0));
    let program = call_program(opcode::CALL, Some(0), 5, 4);

    // Synchronous: the host replies at once.
    let mut sync_host = SimpleHost::new();
    sync_host.reply_call = Some((ExitReason::Succeed(ExitSucceed::Returned), vec![0xAA, 0xBB]));
    let mut sync_rt = new_rt(program.clone(), context);
    let (sync_steps, sync_capture) = sync_rt.run(100, &mut sync_host);
    assert!(matches!(sync_capture, Capture::Exit(ExitReason::Succeed(ExitSucceed::Stopped))));

    // Suspended: the host traps, the driver posts the same result back.
    let mut trap_host = SimpleHost::new();
    let mut trap_rt = new_rt(program, context);
    let (trap_steps, trap_capture) = trap_rt.run(100, &mut trap_host);
    assert!(matches!(trap_capture, Capture::Trap(Resolve::Call(()))));
    let ctl = save_return_value::<SimpleHost>(
        &mut trap_rt,
        ExitReason::Succeed(ExitSucceed::Returned),
        vec![0xAA, 0xBB],
    );
    assert!(matches!(ctl, Control::Continue));
    let (rest_steps, rest_capture) = trap_rt.run(100, &mut trap_host);
    assert!(matches!(rest_capture, Capture::Exit(ExitReason::Succeed(ExitSucceed::Stopped))));

    assert_eq!(sync_steps, trap_steps + rest_steps);
    assert_eq!(top(&sync_rt), top(&trap_rt));
    assert_eq!(sync_rt.machine().memory().get(0, 4), trap_rt.machine().memory().get(0, 4));
    assert_eq!(sync_rt.return_data(), trap_rt.return_data());
    assert_eq!(sync_rt.machine().stack().len(), trap_rt.machine().stack().len());
}

/// Resuming a trapped CREATE pushes the created address, exactly as a
/// synchronous completion would.
#[test]
fn resume_matches_synchronous_create() {
    let a = addr(0xA);
    let code = vec![
        opcode::PUSH1, 0, // init code length
        opcode::PUSH1, 0, // init code offset
        opcode::PUSH1, 0, // value
        opcode::CREATE,
        opcode::STOP,
    ];
    let context = ctx(a, addr(0xB), word(0));

    let mut sync_host = SimpleHost::new();
    sync_host.reply_create = Some((ExitReason::Succeed(ExitSucceed::Returned), Some(addr(0xEE))));
    let mut sync_rt = new_rt(code.clone(), context);
    let (_, sync_capture) = sync_rt.run(100, &mut sync_host);
    assert!(matches!(sync_capture, Capture::Exit(ExitReason::Succeed(ExitSucceed::Stopped))));

    let mut trap_host = SimpleHost::new();
    let mut trap_rt = new_rt(code, context);
    let (_, trap_capture) = trap_rt.run(100, &mut trap_host);
    assert!(matches!(trap_capture, Capture::Trap(Resolve::Create(()))));
    let ctl = save_created_address::<SimpleHost>(
        &mut trap_rt,
        ExitReason::Succeed(ExitSucceed::Returned),
        Some(addr(0xEE)),
    );
    assert!(matches!(ctl, Control::Continue));
    let (_, rest_capture) = trap_rt.run(100, &mut trap_host);
    assert!(matches!(rest_capture, Capture::Exit(ExitReason::Succeed(ExitSucceed::Stopped))));

    assert_eq!(top(&sync_rt), word(0xEE));
    assert_eq!(top(&sync_rt), top(&trap_rt));
}

/// A failed child reflected as a zero status word does not end the
/// caller, and the buffer still holds the child's data; a fatal child
/// ends the caller.
#[test]
fn child_error_pushes_zero_fatal_terminates() {
    let context = ctx(addr(0xA), addr(0xB), word(0));
    let mut host = SimpleHost::new();
    host.reply_call = Some((ExitReason::Error(ExitError::OutOfGas), vec![0x01]));
    let mut rt = new_rt(call_program(opcode::CALL, Some(0), 5, 0), context);
    let (_, capture) = rt.run(100, &mut host);
    assert!(matches!(capture, Capture::Exit(ExitReason::Succeed(ExitSucceed::Stopped))));
    assert_eq!(top(&rt), word(0));
    assert_eq!(rt.return_data(), &vec![0x01]);

    let mut host2 = SimpleHost::new();
    host2.reply_call = Some((
        ExitReason::Fatal(evm_runtime::ExitFatal::NotSupported),
        vec![],
    ));
    let mut rt2 = new_rt(call_program(opcode::CALL, Some(0), 5, 0), context);
    let (_, capture2) = rt2.run(100, &mut host2);
    assert!(matches!(
        capture2,
        Capture::Exit(ExitReason::Fatal(evm_runtime::ExitFatal::NotSupported))
    ));
}

/// A reverting child pushes zero but still copies its return data into
/// the out range.
#[test]
fn child_revert_copies_data() {
    let context = ctx(addr(0xA), addr(0xB), word(0));
    let mut host = SimpleHost::new();
    host.reply_call = Some((
        ExitReason::Revert(evm_runtime::ExitRevert::Reverted),
        vec![0x5A],
    ));
    let mut rt = new_rt(call_program(opcode::CALL, Some(0), 5, 1), context);
    let (_, capture) = rt.run(100, &mut host);
    assert!(matches!(capture, Capture::Exit(ExitReason::Succeed(ExitSucceed::Stopped))));
    assert_eq!(top(&rt), word(0));
    assert_eq!(rt.machine().memory().get(0, 1), vec![0x5A]);
    assert_eq!(rt.return_data(), &vec![0x5A]);
}
