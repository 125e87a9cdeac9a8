//! Runtime layer of an EVM interpreter: a stack/memory machine wrapped
//! with a return-data buffer and an execution context, a system-opcode
//! evaluator that mediates between the machine and a host, and a stepping
//! driver with a cooperative suspend/resume protocol for nested calls.

use vstd::prelude::*;

mod eval;
mod handler;
mod host;
mod machine;
mod memory;
pub mod opcode;
mod stack;
mod types;

pub use crate::eval::system::{
    address, balance, basefee, blockhash, call, caller, callvalue, chainid, coinbase, create,
    difficulty, extcodecopy, extcodehash, extcodesize, gas, gaslimit, gasprice, log, number,
    origin, returndatacopy, returndatasize, save_created_address, save_return_value, selfbalance,
    sha3, sload, sstore, suicide, timestamp, tload, tstore,
};
pub use crate::eval::{eval, eval_frame, no_slr_exit, state_of, verdict_of, Control, RtState,
    Verdict};
pub use crate::eval::system::{
    lemma_return_data_replacement, spec_call_context, spec_call_setup, spec_call_transfer,
    spec_create_setup, spec_save_created_address, spec_save_return_value, CallSetup, CreateSetup,
};
pub use crate::handler::{CallArgs, CreateArgs, Handler, HostOp};
pub use crate::host::{stub_digest, CallRecord, CreateRecord, SimpleHost};
pub use crate::machine::{
    be_nat, is_core_opcode, lemma_be_nat_bound, lemma_be_nat_split, machine_run_rel, mstate_of,
    spec_step, spec_step_codecopy, u256_from_be_bytes, word_of_be, Machine, MachineState,
};
pub use crate::memory::{mem_copied, mem_read, mem_resized, resize_fails, Memory};
pub use crate::stack::{popn, popv, Stack};
pub use crate::types::{
    address_to_word, fits_index, word_to_address, Capture, CallScheme, Context, CreateScheme,
    ExitError, ExitFatal, ExitReason, ExitRevert, ExitSucceed, Transfer, H160, U256,
};

verus! {

/// The EVM runtime: a machine together with the buffer holding the most
/// recent child frame's return data, the frame's execution context, and
/// a latched terminal status.
pub struct Runtime {
    pub machine: Machine,
    pub status: Result<(), ExitReason>,
    pub return_data_buffer: Vec<u8>,
    pub context: Context,
}

impl Runtime {
    pub open spec fn wf(&self) -> bool {
        self.machine.wf()
    }

    /// Create a new runtime with the given code, jump-validity bitmap and
    /// input data, under the default (Istanbul) stack and memory bounds.
    pub fn new(code: Vec<u8>, valids: Vec<u8>, data: Vec<u8>, context: Context) -> (r: Runtime)
        requires
            code@.len() + 33 <= usize::MAX,
        ensures
            r.wf(),
            r.status == Ok::<(), ExitReason>(()),
            r.return_data_buffer@ == Seq::<u8>::empty(),
            r.context == context,
            r.machine.code@ == code@,
            r.machine.valids@ == valids@,
            r.machine.data@ == data@,
            r.machine.position == 0,
            r.machine.stack@ == Seq::<U256>::empty(),
            r.machine.stack.limit == Config::istanbul_spec().stack_limit,
            r.machine.memory@ == Seq::<u8>::empty(),
            r.machine.memory.limit == Config::istanbul_spec().memory_limit,
            r.machine.exit_reason is None,
            r.machine.retired@ == 0,
    {
        let config = Config::istanbul();
        Runtime {
            machine: Machine::new(code, valids, data, config.stack_limit, config.memory_limit),
            status: Ok(()),
            return_data_buffer: Vec::new(),
            context,
        }
    }

    /// Get the return data of the most recently completed child frame.
    pub fn return_data(&self) -> (r: &Vec<u8>)
        ensures
            r@ == self.return_data_buffer@,
    {
        &self.return_data_buffer
    }

    /// Set the return data.
    pub fn set_return_data(&mut self, data: Vec<u8>)
        ensures
            *final(self) == (Runtime { return_data_buffer: data, ..*old(self) }),
    {
        self.return_data_buffer = data;
    }

    /// Get a reference to the machine.
    pub fn machine(&self) -> (r: &Machine)
        ensures
            r == &self.machine,
    {
        &self.machine
    }

    /// Step the runtime: run the machine up to `max_steps` opcodes,
    /// dispatching every trapped system opcode to its handler, until the
    /// budget runs out, the frame exits, or a nested call or create
    /// suspends it.
    ///
    /// The returned step count never exceeds the budget and equals the
    /// machine's retired-opcode count over the call — each executed
    /// opcode and each dispatched system opcode is one step. A latched
    /// terminal status short-circuits: the same reason comes back with
    /// zero steps, and neither the runtime nor the host is touched. A
    /// step-limit exit latches nothing; every other exit latches the
    /// status. The stack never grows past its bound and memory never
    /// shrinks.
    pub fn run<H: Handler>(&mut self, max_steps: u64, handler: &mut H) -> (r: (
        u64,
        Capture<ExitReason, Resolve<H>>,
    ))
        requires
            old(self).wf(),
        ensures
            final(self).wf(),
            r.0 <= max_steps,
            final(self).context == old(self).context,
            final(self).machine.stack.limit == old(self).machine.stack.limit,
            final(self).machine.memory.limit == old(self).machine.memory.limit,
            final(self).machine.stack@.len() <= final(self).machine.stack.limit,
            final(self).machine.memory@.len() >= old(self).machine.memory@.len(),
            final(self).machine.retired@ == old(self).machine.retired@ + r.0,
            old(self).status matches Err(e) ==> r.0 == 0 && r.1 == Capture::<
                ExitReason,
                Resolve<H>,
            >::Exit(e) && *final(self) == *old(self) && *final(handler) == *old(handler),
            r.1 matches Capture::Exit(reason) ==> (reason == ExitReason::StepLimitReached
                ==> final(self).status == old(self).status) && (reason
                != ExitReason::StepLimitReached ==> final(self).status == Err::<(), ExitReason>(
                reason,
            )),
            old(self).status is Ok && old(self).machine.exit_reason is None && r.1 == Capture::<
                ExitReason,
                Resolve<H>,
            >::Exit(ExitReason::StepLimitReached) ==> r.0 == max_steps
                && final(self).machine.exit_reason is None,
            r.1 matches Capture::Exit(reason) ==> (old(self).status is Ok && reason
                != ExitReason::StepLimitReached ==> final(self).machine.exit_reason == Some(
                reason,
            )),
            r.1 matches Capture::Trap(_) ==> final(self).status == old(self).status
                && old(self).status is Ok && final(self).machine.exit_reason is None,
    {
        if let Err(e) = self.status {
            return (0, Capture::Exit(e));
        }
        let mut steps: u64 = 0;
        while steps < max_steps
            invariant
                self.wf(),
                steps <= max_steps,
                self.machine.retired@ == old(self).machine.retired@ + steps,
                self.status == old(self).status,
                self.status is Ok,
                self.context == old(self).context,
                self.machine.stack.limit == old(self).machine.stack.limit,
                self.machine.memory.limit == old(self).machine.memory.limit,
                self.machine.memory@.len() >= old(self).machine.memory@.len(),
                old(self).machine.exit_reason is None ==> self.machine.exit_reason is None,
            decreases max_steps - steps,
        {
            let context = self.context;
            let (steps_executed, capture) = self.machine.run(max_steps - steps, handler, &context);
            steps += steps_executed;
            match capture {
                Capture::Exit(reason) => {
                    if reason == ExitReason::StepLimitReached {
                        return (steps, Capture::Exit(ExitReason::StepLimitReached));
                    }
                    self.status = Err(reason);
                    return (steps, Capture::Exit(reason));
                },
                Capture::Trap(op) => {
                    match eval::eval(self, op, handler) {
                        Control::Continue => {},
                        Control::CallInterrupt(interrupt) => {
                            return (steps, Capture::Trap(Resolve::Call(interrupt)));
                        },
                        Control::CreateInterrupt(interrupt) => {
                            return (steps, Capture::Trap(Resolve::Create(interrupt)));
                        },
                        Control::Exit(exit) => {
                            self.machine.exit(exit);
                            self.status = Err(exit);
                            return (steps, Capture::Exit(exit));
                        },
                    }
                },
            }
        }
        (steps, Capture::Exit(ExitReason::StepLimitReached))
    }
}

/// A suspended nested execution, surfaced by `run` as a trap: the
/// driver computes the child result and posts it back with
/// `save_return_value` or `save_created_address`.
pub enum Resolve<H: Handler> {
    /// A suspended message call, with the host's interrupt value.
    Call(H::CallInterrupt),
    /// A suspended create, with the host's interrupt value.
    Create(H::CreateInterrupt),
}

/// Runtime configuration: gas costs, feature flags and sizing bounds.
#[derive(Clone, Debug)]
pub struct Config {
    /// Gas paid for extcode.
    pub gas_ext_code: u64,
    /// Gas paid for extcodehash.
    pub gas_ext_code_hash: u64,
    /// Gas paid for sstore set.
    pub gas_sstore_set: u64,
    /// Gas paid for sstore reset.
    pub gas_sstore_reset: u64,
    /// Gas refund for sstore clears.
    pub refund_sstore_clears: i64,
    /// Gas paid for BALANCE.
    pub gas_balance: u64,
    /// Gas paid for SLOAD.
    pub gas_sload: u64,
    /// Gas paid for SUICIDE.
    pub gas_suicide: u64,
    /// Gas paid for SUICIDE hitting a new account.
    pub gas_suicide_new_account: u64,
    /// Gas paid for CALL.
    pub gas_call: u64,
    /// Gas paid per byte for EXP.
    pub gas_expbyte: u64,
    /// Gas paid for a contract-creation transaction.
    pub gas_transaction_create: u64,
    /// Gas paid for a message-call transaction.
    pub gas_transaction_call: u64,
    /// Gas paid per zero byte of transaction data.
    pub gas_transaction_zero_data: u64,
    /// Gas paid per non-zero byte of transaction data.
    pub gas_transaction_non_zero_data: u64,
    /// Net gas metering for sstore.
    pub sstore_gas_metering: bool,
    /// Sstore reverts when gas is under the stipend.
    pub sstore_revert_under_stipend: bool,
    /// Whether a call asking for more than the maximum gas is an error.
    pub err_on_call_with_more_gas: bool,
    /// Take l64 for a call or create after gas.
    pub call_l64_after_gas: bool,
    /// Whether an empty account is considered to exist.
    pub empty_considered_exists: bool,
    /// Whether creates increase the nonce.
    pub create_increase_nonce: bool,
    /// Stack limit.
    pub stack_limit: usize,
    /// Memory limit.
    pub memory_limit: usize,
    /// Call-depth limit.
    pub call_stack_limit: usize,
    /// Created-contract size limit.
    pub create_contract_limit: Option<usize>,
    /// Call stipend.
    pub call_stipend: u64,
    /// Has delegate call.
    pub has_delegate_call: bool,
    /// Has create2.
    pub has_create2: bool,
    /// Has revert.
    pub has_revert: bool,
    /// Has return data.
    pub has_return_data: bool,
    /// Has bitwise shifting.
    pub has_bitwise_shifting: bool,
    /// Has chain ID.
    pub has_chain_id: bool,
    /// Has self balance.
    pub has_self_balance: bool,
    /// Has ext code hash.
    pub has_ext_code_hash: bool,
    /// Whether the gasometer runs in estimate mode.
    pub estimate: bool,
}

impl Config {
    /// The Istanbul hard-fork parameter set.
    pub open spec fn istanbul_spec() -> Config {
        Config {
            gas_ext_code: 700,
            gas_ext_code_hash: 700,
            gas_balance: 700,
            gas_sload: 800,
            gas_sstore_set: 20000,
            gas_sstore_reset: 5000,
            refund_sstore_clears: 15000,
            gas_suicide: 5000,
            gas_suicide_new_account: 25000,
            gas_call: 700,
            gas_expbyte: 50,
            gas_transaction_create: 53000,
            gas_transaction_call: 21000,
            gas_transaction_zero_data: 4,
            gas_transaction_non_zero_data: 16,
            sstore_gas_metering: true,
            sstore_revert_under_stipend: true,
            err_on_call_with_more_gas: false,
            empty_considered_exists: false,
            create_increase_nonce: true,
            call_l64_after_gas: true,
            stack_limit: 1024,
            memory_limit: usize::MAX,
            call_stack_limit: 1024,
            create_contract_limit: Some(0x6000),
            call_stipend: 2300,
            has_delegate_call: true,
            has_create2: true,
            has_revert: true,
            has_return_data: true,
            has_bitwise_shifting: true,
            has_chain_id: true,
            has_self_balance: true,
            has_ext_code_hash: true,
            estimate: false,
        }
    }

    /// Istanbul hard-fork configuration.
    pub fn istanbul() -> (r: Config)
        ensures
            r == Config::istanbul_spec(),
    {
        Config {
            gas_ext_code: 700,
            gas_ext_code_hash: 700,
            gas_balance: 700,
            gas_sload: 800,
            gas_sstore_set: 20000,
            gas_sstore_reset: 5000,
            refund_sstore_clears: 15000,
            gas_suicide: 5000,
            gas_suicide_new_account: 25000,
            gas_call: 700,
            gas_expbyte: 50,
            gas_transaction_create: 53000,
            gas_transaction_call: 21000,
            gas_transaction_zero_data: 4,
            gas_transaction_non_zero_data: 16,
            sstore_gas_metering: true,
            sstore_revert_under_stipend: true,
            err_on_call_with_more_gas: false,
            empty_considered_exists: false,
            create_increase_nonce: true,
            call_l64_after_gas: true,
            stack_limit: 1024,
            memory_limit: usize::MAX,
            call_stack_limit: 1024,
            create_contract_limit: Some(0x6000),
            call_stipend: 2300,
            has_delegate_call: true,
            has_create2: true,
            has_revert: true,
            has_return_data: true,
            has_bitwise_shifting: true,
            has_chain_id: true,
            has_self_balance: true,
            has_ext_code_hash: true,
            estimate: false,
        }
    }

    /// The default configuration: Istanbul.
    pub fn default() -> (r: Config)
        ensures
            r == Config::istanbul_spec(),
    {
        Config::istanbul()
    }
}

} // verus!
