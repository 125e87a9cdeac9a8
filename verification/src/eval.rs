//! The system-opcode evaluator: the verdict type every handler returns,
//! the spec-level state the handlers' contracts are written over, and the
//! dispatcher the driver calls when the machine traps.

pub mod system;

use vstd::prelude::*;

use crate::handler::Handler;
use crate::opcode;
use crate::types::{CallScheme, ExitFatal, ExitReason, U256};
use crate::Runtime;

verus! {

/// What a system-opcode handler decided: advance, terminate the frame,
/// or suspend on a nested call or create.
pub enum Control<H: Handler> {
    /// Advance: re-enter the machine loop.
    Continue,
    /// Terminate this frame with the given reason.
    Exit(ExitReason),
    /// Suspend, handing a call interrupt to the driver.
    CallInterrupt(H::CallInterrupt),
    /// Suspend, handing a create interrupt to the driver.
    CreateInterrupt(H::CreateInterrupt),
}

/// The verdict a `Control` stands for, with the interrupt value left out;
/// the handlers' functional contracts are stated over this.
pub enum Verdict {
    Continue,
    Exit(ExitReason),
    CallTrap,
    CreateTrap,
}

/// The verdict of a control value.
pub open spec fn verdict_of<H: Handler>(c: Control<H>) -> Verdict {
    match c {
        Control::Continue => Verdict::Continue,
        Control::Exit(reason) => Verdict::Exit(reason),
        Control::CallInterrupt(_) => Verdict::CallTrap,
        Control::CreateInterrupt(_) => Verdict::CreateTrap,
    }
}

/// No handler ever exits with the step-limit marker: that reason is
/// reserved for the machine's own budget accounting.
pub open spec fn no_slr_exit<H: Handler>(c: Control<H>) -> bool {
    c matches Control::Exit(reason) ==> reason != ExitReason::StepLimitReached
}

/// The mutable state of a frame, as the handlers' contracts see it:
/// the operand stack, the memory bytes, and the return-data buffer.
#[verifier::ext_equal]
pub struct RtState {
    pub stack: Seq<U256>,
    pub memory: Seq<u8>,
    pub buffer: Seq<u8>,
}

/// The frame state a runtime holds.
pub open spec fn state_of(rt: Runtime) -> RtState {
    RtState { stack: rt.machine.stack@, memory: rt.machine.memory@, buffer: rt.return_data_buffer@ }
}

/// What every system-opcode handler leaves untouched: the context, the
/// latched status, the machine's code, input, counters and bounds — and
/// memory never shrinks.
pub open spec fn eval_frame(pre: Runtime, post: Runtime) -> bool {
    &&& post.context == pre.context
    &&& post.status == pre.status
    &&& post.machine.code@ == pre.machine.code@
    &&& post.machine.valids@ == pre.machine.valids@
    &&& post.machine.data@ == pre.machine.data@
    &&& post.machine.position == pre.machine.position
    &&& post.machine.retired == pre.machine.retired
    &&& post.machine.exit_reason == pre.machine.exit_reason
    &&& post.machine.stack.limit == pre.machine.stack.limit
    &&& post.machine.memory.limit == pre.machine.memory.limit
    &&& post.machine.memory@.len() >= pre.machine.memory@.len()
}

/// Dispatch a trapped opcode to its system handler. An opcode that is no
/// system opcode ends the whole execution: the machine trapped on
/// something nobody handles.
pub fn eval<H: Handler>(runtime: &mut Runtime, op: u8, handler: &mut H) -> (r: Control<H>)
    requires
        old(runtime).wf(),
    ensures
        final(runtime).wf(),
        eval_frame(*old(runtime), *final(runtime)),
        no_slr_exit(r),
    {
    if op == opcode::SHA3 {
        system::sha3(runtime, handler)
    } else if op == opcode::ADDRESS {
        system::address(runtime)
    } else if op == opcode::BALANCE {
        system::balance(runtime, handler)
    } else if op == opcode::ORIGIN {
        system::origin(runtime, handler)
    } else if op == opcode::CALLER {
        system::caller(runtime)
    } else if op == opcode::CALLVALUE {
        system::callvalue(runtime)
    } else if op == opcode::GASPRICE {
        system::gasprice(runtime, handler)
    } else if op == opcode::EXTCODESIZE {
        system::extcodesize(runtime, handler)
    } else if op == opcode::EXTCODECOPY {
        system::extcodecopy(runtime, handler)
    } else if op == opcode::RETURNDATASIZE {
        system::returndatasize(runtime)
    } else if op == opcode::RETURNDATACOPY {
        system::returndatacopy(runtime)
    } else if op == opcode::EXTCODEHASH {
        system::extcodehash(runtime, handler)
    } else if op == opcode::BLOCKHASH {
        system::blockhash(runtime, handler)
    } else if op == opcode::COINBASE {
        system::coinbase(runtime, handler)
    } else if op == opcode::TIMESTAMP {
        system::timestamp(runtime, handler)
    } else if op == opcode::NUMBER {
        system::number(runtime, handler)
    } else if op == opcode::DIFFICULTY {
        system::difficulty(runtime, handler)
    } else if op == opcode::GASLIMIT {
        system::gaslimit(runtime, handler)
    } else if op == opcode::CHAINID {
        system::chainid(runtime, handler)
    } else if op == opcode::SELFBALANCE {
        system::selfbalance(runtime, handler)
    } else if op == opcode::BASEFEE {
        system::basefee(runtime, handler)
    } else if op == opcode::SLOAD {
        system::sload(runtime, handler)
    } else if op == opcode::SSTORE {
        system::sstore(runtime, handler)
    } else if op == opcode::GAS {
        system::gas(runtime, handler)
    } else if op == opcode::TLOAD {
        system::tload(runtime, handler)
    } else if op == opcode::TSTORE {
        system::tstore(runtime, handler)
    } else if opcode::LOG0 <= op && op <= opcode::LOG4 {
        system::log(runtime, op - opcode::LOG0, handler)
    } else if op == opcode::SUICIDE {
        system::suicide(runtime, handler)
    } else if op == opcode::CREATE {
        system::create(runtime, false, handler)
    } else if op == opcode::CREATE2 {
        system::create(runtime, true, handler)
    } else if op == opcode::CALL {
        system::call(runtime, CallScheme::Call, handler)
    } else if op == opcode::CALLCODE {
        system::call(runtime, CallScheme::CallCode, handler)
    } else if op == opcode::DELEGATECALL {
        system::call(runtime, CallScheme::DelegateCall, handler)
    } else if op == opcode::STATICCALL {
        system::call(runtime, CallScheme::StaticCall, handler)
    } else {
        Control::Exit(ExitReason::Fatal(ExitFatal::UnhandledInterrupt))
    }
}

} // verus!
