//! The host capability: everything the runtime may ask of the embedding
//! blockchain state, stated as a trait the embedder implements.
//!
//! Each query method is pinned to a spec-level observer of the host, so
//! contracts can speak of the value a query returns. Each mutating method
//! appends exactly one entry to the host's ghost journal (`host_log`), so
//! contracts can say precisely which requests, with which arguments, a
//! handler hands to the host — and that a handler that fails early hands
//! it none.

use vstd::prelude::*;

use crate::stack::Stack;
use crate::types::{
    Capture, Context, CreateScheme, ExitError, ExitReason, Transfer, H160, U256,
};

verus! {

/// The arguments of one nested message call handed to the host.
pub struct CallArgs {
    pub code_address: H160,
    pub transfer: Option<Transfer>,
    pub input: Seq<u8>,
    pub target_gas: Option<u64>,
    pub is_static: bool,
    pub context: Context,
}

/// The arguments of one nested create handed to the host.
pub struct CreateArgs {
    pub caller: H160,
    pub scheme: CreateScheme,
    pub value: U256,
    pub init_code: Seq<u8>,
    pub target_gas: Option<u64>,
}

/// One mutating request made of the host, with its full arguments.
pub enum HostOp {
    SetStorage { address: H160, index: U256, value: U256 },
    SetTransientStorage { address: H160, index: U256, value: U256 },
    Log { address: H160, topics: Seq<U256>, data: Seq<u8> },
    MarkDelete { address: H160, target: H160 },
    Create(CreateArgs),
    Call(CallArgs),
}

/// The embedder-supplied capability set granting access to blockchain
/// state, block data, hashing, and nested execution.
pub trait Handler: Sized {
    /// Interrupt value carried by a suspended nested create.
    type CreateInterrupt;

    /// Interrupt value carried by a suspended nested call.
    type CallInterrupt;

    /// The journal of mutating requests made of this host so far.
    spec fn host_log(&self) -> Seq<HostOp>;

    /// The origination address this host reports.
    spec fn origin_spec(&self) -> H160;

    /// The balance this host reports for an account.
    spec fn balance_spec(&self, address: H160) -> U256;

    /// The code size this host reports for an account.
    spec fn code_size_spec(&self, address: H160) -> U256;

    /// The code hash this host reports for an account.
    spec fn code_hash_spec(&self, address: H160) -> U256;

    /// The code this host reports for an account.
    spec fn code_spec(&self, address: H160) -> Seq<u8>;

    /// The storage word this host reports at an account and index.
    spec fn storage_spec(&self, address: H160, index: U256) -> U256;

    /// The transient storage word this host reports.
    spec fn transient_storage_spec(&self, address: H160, index: U256) -> U256;

    /// The block hash this host reports for a block number.
    spec fn block_hash_spec(&self, number: U256) -> U256;

    /// The block beneficiary this host reports.
    spec fn block_coinbase_spec(&self) -> H160;

    /// The block number this host reports.
    spec fn block_number_spec(&self) -> U256;

    /// The block timestamp this host reports.
    spec fn block_timestamp_spec(&self) -> U256;

    /// The block difficulty this host reports.
    spec fn block_difficulty_spec(&self) -> U256;

    /// The block gas limit this host reports.
    spec fn block_gas_limit_spec(&self) -> U256;

    /// The chain identifier this host reports.
    spec fn chain_id_spec(&self) -> U256;

    /// The gas price this host reports.
    spec fn gas_price_spec(&self) -> U256;

    /// The remaining gas this host reports.
    spec fn gas_left_spec(&self) -> U256;

    /// The Keccak-256 digest this host computes; a function of the bytes
    /// alone.
    spec fn keccak256_spec(&self, data: Seq<u8>) -> U256;

    /// The verdict this host's validator gives an opcode about to run.
    spec fn pre_validate_spec(&self, context: Context, op: u8, stack: Seq<U256>) -> Result<
        (),
        ExitError,
    >;

    /// The reply this host gives a storage write.
    spec fn set_storage_reply(&self, address: H160, index: U256, value: U256) -> Result<
        (),
        ExitError,
    >;

    /// The reply this host gives a transient storage write.
    spec fn set_transient_storage_reply(&self, address: H160, index: U256, value: U256) -> Result<
        (),
        ExitError,
    >;

    /// The reply this host gives a log record.
    spec fn log_reply(&self, address: H160, topics: Seq<U256>, data: Seq<u8>) -> Result<
        (),
        ExitError,
    >;

    /// The reply this host gives a deletion mark.
    spec fn mark_delete_reply(&self, address: H160, target: H160) -> Result<(), ExitError>;

    /// The reply this host gives a nested create: a synchronous
    /// completion or the interrupt it traps with.
    spec fn create_reply(&self, args: CreateArgs) -> Capture<
        (ExitReason, Option<H160>, Seq<u8>),
        Self::CreateInterrupt,
    >;

    /// The reply this host gives a nested call: a synchronous completion
    /// or the interrupt it traps with.
    spec fn call_reply(&self, args: CallArgs) -> Capture<
        (ExitReason, Seq<u8>),
        Self::CallInterrupt,
    >;

    /// Get execution origination address.
    fn origin(&self) -> (r: H160)
        ensures
            r == self.origin_spec(),
    ;

    /// Get balance of the given account.
    fn balance(&self, address: H160) -> (r: U256)
        ensures
            r == self.balance_spec(address),
    ;

    /// Get size of an account's code.
    fn code_size(&self, address: H160) -> (r: U256)
        ensures
            r == self.code_size_spec(address),
    ;

    /// Get hash of an account's code.
    fn code_hash(&self, address: H160) -> (r: U256)
        ensures
            r == self.code_hash_spec(address),
    ;

    /// Get an account's code.
    fn code(&self, address: H160) -> (r: Vec<u8>)
        ensures
            r@ == self.code_spec(address),
    ;

    /// Get a word of an account's storage.
    fn storage(&self, address: H160, index: U256) -> (r: U256)
        ensures
            r == self.storage_spec(address, index),
    ;

    /// Get a word of an account's transient storage.
    fn transient_storage(&self, address: H160, index: U256) -> (r: U256)
        ensures
            r == self.transient_storage_spec(address, index),
    ;

    /// Get the hash of one of the most recent complete blocks.
    fn block_hash(&self, number: U256) -> (r: U256)
        ensures
            r == self.block_hash_spec(number),
    ;

    /// Get the block's beneficiary address.
    fn block_coinbase(&self) -> (r: H160)
        ensures
            r == self.block_coinbase_spec(),
    ;

    /// Get the block's number.
    fn block_number(&self) -> (r: U256)
        ensures
            r == self.block_number_spec(),
    ;

    /// Get the block's timestamp.
    fn block_timestamp(&self) -> (r: U256)
        ensures
            r == self.block_timestamp_spec(),
    ;

    /// Get the block's difficulty (PREVRANDAO).
    fn block_difficulty(&self) -> (r: U256)
        ensures
            r == self.block_difficulty_spec(),
    ;

    /// Get the block's gas limit.
    fn block_gas_limit(&self) -> (r: U256)
        ensures
            r == self.block_gas_limit_spec(),
    ;

    /// Get the chain identifier.
    fn chain_id(&self) -> (r: U256)
        ensures
            r == self.chain_id_spec(),
    ;

    /// Get the price of gas.
    fn gas_price(&self) -> (r: U256)
        ensures
            r == self.gas_price_spec(),
    ;

    /// Get the amount of available gas.
    fn gas_left(&self) -> (r: U256)
        ensures
            r == self.gas_left_spec(),
    ;

    /// Compute the Keccak-256 hash of the given bytes.
    fn keccak256_h256(&self, data: &[u8]) -> (r: U256)
        ensures
            r == self.keccak256_spec(data@),
    ;

    /// Validate an opcode about to run in the given context; run by the
    /// machine before any effect of that opcode, a rejection prevents
    /// them all. May meter gas, but makes no mutating request.
    fn pre_validate(&mut self, context: &Context, op: u8, stack: &Stack) -> (r: Result<
        (),
        ExitError,
    >)
        ensures
            final(self).host_log() == old(self).host_log(),
            r == old(self).pre_validate_spec(*context, op, stack@),
    ;

    /// Set a word of an account's storage.
    fn set_storage(&mut self, address: H160, index: U256, value: U256) -> (r: Result<
        (),
        ExitError,
    >)
        ensures
            final(self).host_log() == old(self).host_log().push(
                HostOp::SetStorage { address, index, value },
            ),
            r == old(self).set_storage_reply(address, index, value),
    ;

    /// Set a word of an account's transient storage.
    fn set_transient_storage(&mut self, address: H160, index: U256, value: U256) -> (r: Result<
        (),
        ExitError,
    >)
        ensures
            final(self).host_log() == old(self).host_log().push(
                HostOp::SetTransientStorage { address, index, value },
            ),
            r == old(self).set_transient_storage_reply(address, index, value),
    ;

    /// Append a log record.
    fn log(&mut self, address: H160, topics: Vec<U256>, data: Vec<u8>) -> (r: Result<
        (),
        ExitError,
    >)
        ensures
            final(self).host_log() == old(self).host_log().push(
                HostOp::Log { address, topics: topics@, data: data@ },
            ),
            r == old(self).log_reply(address, topics@, data@),
    ;

    /// Mark an account for deletion with the given beneficiary.
    fn mark_delete(&mut self, address: H160, target: H160) -> (r: Result<(), ExitError>)
        ensures
            final(self).host_log() == old(self).host_log().push(
                HostOp::MarkDelete { address, target },
            ),
            r == old(self).mark_delete_reply(address, target),
    ;

    /// Create a new account with associated code: either complete it
    /// synchronously, or trap with an interrupt for the driver. A
    /// synchronous completion carries a terminal reason, never the
    /// step-limit marker.
    fn create(
        &mut self,
        caller: H160,
        scheme: CreateScheme,
        value: U256,
        init_code: Vec<u8>,
        target_gas: Option<u64>,
    ) -> (r: Capture<(ExitReason, Option<H160>, Vec<u8>), Self::CreateInterrupt>)
        ensures
            final(self).host_log() == old(self).host_log().push(
                HostOp::Create(
                    CreateArgs {
                        caller,
                        scheme,
                        value,
                        init_code: init_code@,
                        target_gas,
                    },
                ),
            ),
            r matches Capture::Exit(x) ==> x.0 != ExitReason::StepLimitReached && old(
                self,
            ).create_reply(
                CreateArgs { caller, scheme, value, init_code: init_code@, target_gas },
            ) == Capture::<(ExitReason, Option<H160>, Seq<u8>), Self::CreateInterrupt>::Exit(
                (x.0, x.1, x.2@),
            ),
            r matches Capture::Trap(i) ==> old(self).create_reply(
                CreateArgs { caller, scheme, value, init_code: init_code@, target_gas },
            ) == Capture::<(ExitReason, Option<H160>, Seq<u8>), Self::CreateInterrupt>::Trap(i),
    ;

    /// Message-call into an account: either complete it synchronously, or
    /// trap with an interrupt for the driver. A synchronous completion
    /// carries a terminal reason, never the step-limit marker.
    fn call(
        &mut self,
        code_address: H160,
        transfer: Option<Transfer>,
        input: Vec<u8>,
        target_gas: Option<u64>,
        is_static: bool,
        context: Context,
    ) -> (r: Capture<(ExitReason, Vec<u8>), Self::CallInterrupt>)
        ensures
            final(self).host_log() == old(self).host_log().push(
                HostOp::Call(
                    CallArgs {
                        code_address,
                        transfer,
                        input: input@,
                        target_gas,
                        is_static,
                        context,
                    },
                ),
            ),
            r matches Capture::Exit(x) ==> x.0 != ExitReason::StepLimitReached && old(
                self,
            ).call_reply(
                CallArgs { code_address, transfer, input: input@, target_gas, is_static, context },
            ) == Capture::<(ExitReason, Seq<u8>), Self::CallInterrupt>::Exit((x.0, x.1@)),
            r matches Capture::Trap(i) ==> old(self).call_reply(
                CallArgs { code_address, transfer, input: input@, target_gas, is_static, context },
            ) == Capture::<(ExitReason, Seq<u8>), Self::CallInterrupt>::Trap(i),
    ;
}

} // verus!
