//! A simple in-memory host: every query answers from a plain field, every
//! mutating request is journalled, and nested calls and creates reply
//! with a preset result or trap for the driver.
//!
//! It is the library's own implementation of the `Handler` capability —
//! embedders supply richer ones — and doubles as a deterministic host for
//! driving a runtime in tests. Its digest is a stand-in for Keccak-256: a
//! word built from the byte count and the first and last byte, a function
//! of the bytes alone as the capability demands, but no cryptographic
//! hash.

use vstd::prelude::*;

use crate::handler::{CallArgs, CreateArgs, Handler, HostOp};
use crate::stack::Stack;
use crate::types::{
    Capture, Context, CreateScheme, ExitError, ExitReason, Transfer, H160, U256,
};

verus! {

/// The stand-in digest of a byte sequence: its length, its first and its
/// last byte, and a marker limb.
pub open spec fn stub_digest(data: Seq<u8>) -> U256 {
    U256 {
        limb0: data.len() as u64,
        limb1: if data.len() > 0 {
            data[0] as u64
        } else {
            0
        },
        limb2: if data.len() > 0 {
            data.last() as u64
        } else {
            0
        },
        limb3: 1,
    }
}

/// Copy a byte vector.
fn copy_bytes(v: &Vec<u8>) -> (r: Vec<u8>)
    ensures
        r@ == v@,
{
    let mut out: Vec<u8> = Vec::new();
    let mut i: usize = 0;
    while i < v.len()
        invariant
            i <= v@.len(),
            out@ == v@.take(i as int),
        decreases v@.len() - i,
    {
        out.push(v[i]);
        proof {
            assert(out@ =~= v@.take(i + 1));
        }
        i += 1;
    }
    proof {
        assert(out@ =~= v@);
    }
    out
}

/// One message call as this host received it.
pub struct CallRecord {
    pub code_address: H160,
    pub transfer: Option<Transfer>,
    pub input: Vec<u8>,
    pub target_gas: Option<u64>,
    pub is_static: bool,
    pub context: Context,
}

/// One create as this host received it.
pub struct CreateRecord {
    pub caller: H160,
    pub scheme: CreateScheme,
    pub value: U256,
    pub init_code: Vec<u8>,
    pub target_gas: Option<u64>,
}

/// The in-memory host. Queries answer from the fields; `reply_call` and
/// `reply_create` hold the result of the next nested execution, `None`
/// meaning it suspends; `fail_mutations` makes every mutating request
/// fail with the given error. The `last_*` fields keep the most recent
/// request of each mutating kind for the embedder to inspect.
pub struct SimpleHost {
    pub origin_v: H160,
    pub coinbase_v: H160,
    pub balance_v: U256,
    pub code_v: Vec<u8>,
    pub code_size_v: U256,
    pub code_hash_v: U256,
    pub storage_v: U256,
    pub transient_storage_v: U256,
    pub block_hash_v: U256,
    pub block_number_v: U256,
    pub block_timestamp_v: U256,
    pub block_difficulty_v: U256,
    pub block_gas_limit_v: U256,
    pub chain_id_v: U256,
    pub gas_price_v: U256,
    pub gas_left_v: U256,
    pub fail_mutations: Option<ExitError>,
    pub reply_call: Option<(ExitReason, Vec<u8>)>,
    pub reply_create: Option<(ExitReason, Option<H160>)>,
    pub last_set_storage: Option<(H160, U256, U256)>,
    pub last_set_transient_storage: Option<(H160, U256, U256)>,
    pub last_log: Option<(H160, Vec<U256>, Vec<u8>)>,
    pub last_mark_delete: Option<(H160, H160)>,
    pub last_call: Option<CallRecord>,
    pub last_create: Option<CreateRecord>,
    pub ops: Ghost<Seq<HostOp>>,
}

impl SimpleHost {
    /// A host whose every answer is zero, whose mutations succeed, and
    /// whose nested executions suspend.
    pub fn new() -> (r: SimpleHost)
        ensures
            r.host_log() == Seq::<HostOp>::empty(),
            r.fail_mutations is None,
            r.reply_call is None,
            r.reply_create is None,
    {
        SimpleHost {
            origin_v: H160::zero(),
            coinbase_v: H160::zero(),
            balance_v: U256::zero(),
            code_v: Vec::new(),
            code_size_v: U256::zero(),
            code_hash_v: U256::zero(),
            storage_v: U256::zero(),
            transient_storage_v: U256::zero(),
            block_hash_v: U256::zero(),
            block_number_v: U256::zero(),
            block_timestamp_v: U256::zero(),
            block_difficulty_v: U256::zero(),
            block_gas_limit_v: U256::zero(),
            chain_id_v: U256::zero(),
            gas_price_v: U256::zero(),
            gas_left_v: U256::zero(),
            fail_mutations: None,
            reply_call: None,
            reply_create: None,
            last_set_storage: None,
            last_set_transient_storage: None,
            last_log: None,
            last_mark_delete: None,
            last_call: None,
            last_create: None,
            ops: Ghost(Seq::empty()),
        }
    }
}

impl Handler for SimpleHost {
    type CreateInterrupt = ();

    type CallInterrupt = ();

    open spec fn host_log(&self) -> Seq<HostOp> {
        self.ops@
    }

    open spec fn origin_spec(&self) -> H160 {
        self.origin_v
    }

    open spec fn balance_spec(&self, address: H160) -> U256 {
        self.balance_v
    }

    open spec fn code_size_spec(&self, address: H160) -> U256 {
        self.code_size_v
    }

    open spec fn code_hash_spec(&self, address: H160) -> U256 {
        self.code_hash_v
    }

    open spec fn code_spec(&self, address: H160) -> Seq<u8> {
        self.code_v@
    }

    open spec fn storage_spec(&self, address: H160, index: U256) -> U256 {
        self.storage_v
    }

    open spec fn transient_storage_spec(&self, address: H160, index: U256) -> U256 {
        self.transient_storage_v
    }

    open spec fn block_hash_spec(&self, number: U256) -> U256 {
        self.block_hash_v
    }

    open spec fn block_coinbase_spec(&self) -> H160 {
        self.coinbase_v
    }

    open spec fn block_number_spec(&self) -> U256 {
        self.block_number_v
    }

    open spec fn block_timestamp_spec(&self) -> U256 {
        self.block_timestamp_v
    }

    open spec fn block_difficulty_spec(&self) -> U256 {
        self.block_difficulty_v
    }

    open spec fn block_gas_limit_spec(&self) -> U256 {
        self.block_gas_limit_v
    }

    open spec fn chain_id_spec(&self) -> U256 {
        self.chain_id_v
    }

    open spec fn gas_price_spec(&self) -> U256 {
        self.gas_price_v
    }

    open spec fn gas_left_spec(&self) -> U256 {
        self.gas_left_v
    }

    open spec fn keccak256_spec(&self, data: Seq<u8>) -> U256 {
        stub_digest(data)
    }

    open spec fn pre_validate_spec(&self, context: Context, op: u8, stack: Seq<U256>) -> Result<
        (),
        ExitError,
    > {
        Ok(())
    }

    open spec fn set_storage_reply(&self, address: H160, index: U256, value: U256) -> Result<
        (),
        ExitError,
    > {
        match self.fail_mutations {
            Some(e) => Err(e),
            None => Ok(()),
        }
    }

    open spec fn set_transient_storage_reply(&self, address: H160, index: U256, value: U256) -> Result<
        (),
        ExitError,
    > {
        match self.fail_mutations {
            Some(e) => Err(e),
            None => Ok(()),
        }
    }

    open spec fn log_reply(&self, address: H160, topics: Seq<U256>, data: Seq<u8>) -> Result<
        (),
        ExitError,
    > {
        match self.fail_mutations {
            Some(e) => Err(e),
            None => Ok(()),
        }
    }

    open spec fn mark_delete_reply(&self, address: H160, target: H160) -> Result<(), ExitError> {
        match self.fail_mutations {
            Some(e) => Err(e),
            None => Ok(()),
        }
    }

    open spec fn create_reply(&self, args: CreateArgs) -> Capture<
        (ExitReason, Option<H160>, Seq<u8>),
        (),
    > {
        match self.reply_create {
            Some((reason, addr)) => if reason == ExitReason::StepLimitReached {
                Capture::Trap(())
            } else {
                Capture::Exit((reason, addr, Seq::empty()))
            },
            None => Capture::Trap(()),
        }
    }

    open spec fn call_reply(&self, args: CallArgs) -> Capture<(ExitReason, Seq<u8>), ()> {
        match self.reply_call {
            Some((reason, data)) => if reason == ExitReason::StepLimitReached {
                Capture::Trap(())
            } else {
                Capture::Exit((reason, data@))
            },
            None => Capture::Trap(()),
        }
    }

    fn origin(&self) -> (r: H160) {
        self.origin_v
    }

    fn balance(&self, address: H160) -> (r: U256) {
        self.balance_v
    }

    fn code_size(&self, address: H160) -> (r: U256) {
        self.code_size_v
    }

    fn code_hash(&self, address: H160) -> (r: U256) {
        self.code_hash_v
    }

    fn code(&self, address: H160) -> (r: Vec<u8>) {
        copy_bytes(&self.code_v)
    }

    fn storage(&self, address: H160, index: U256) -> (r: U256) {
        self.storage_v
    }

    fn transient_storage(&self, address: H160, index: U256) -> (r: U256) {
        self.transient_storage_v
    }

    fn block_hash(&self, number: U256) -> (r: U256) {
        self.block_hash_v
    }

    fn block_coinbase(&self) -> (r: H160) {
        self.coinbase_v
    }

    fn block_number(&self) -> (r: U256) {
        self.block_number_v
    }

    fn block_timestamp(&self) -> (r: U256) {
        self.block_timestamp_v
    }

    fn block_difficulty(&self) -> (r: U256) {
        self.block_difficulty_v
    }

    fn block_gas_limit(&self) -> (r: U256) {
        self.block_gas_limit_v
    }

    fn chain_id(&self) -> (r: U256) {
        self.chain_id_v
    }

    fn gas_price(&self) -> (r: U256) {
        self.gas_price_v
    }

    fn gas_left(&self) -> (r: U256) {
        self.gas_left_v
    }

    fn keccak256_h256(&self, data: &[u8]) -> (r: U256) {
        let len = data.len();
        let first: u64 = if len > 0 {
            data[0] as u64
        } else {
            0
        };
        let last: u64 = if len > 0 {
            data[len - 1] as u64
        } else {
            0
        };
        U256 { limb0: len as u64, limb1: first, limb2: last, limb3: 1 }
    }

    fn pre_validate(&mut self, context: &Context, op: u8, stack: &Stack) -> (r: Result<
        (),
        ExitError,
    >) {
        Ok(())
    }

    fn set_storage(&mut self, address: H160, index: U256, value: U256) -> (r: Result<
        (),
        ExitError,
    >) {
        self.ops = Ghost(self.ops@.push(HostOp::SetStorage { address, index, value }));
        self.last_set_storage = Some((address, index, value));
        match self.fail_mutations {
            Some(e) => Err(e),
            None => Ok(()),
        }
    }

    fn set_transient_storage(&mut self, address: H160, index: U256, value: U256) -> (r: Result<
        (),
        ExitError,
    >) {
        self.ops = Ghost(self.ops@.push(HostOp::SetTransientStorage { address, index, value }));
        self.last_set_transient_storage = Some((address, index, value));
        match self.fail_mutations {
            Some(e) => Err(e),
            None => Ok(()),
        }
    }

    fn log(&mut self, address: H160, topics: Vec<U256>, data: Vec<u8>) -> (r: Result<
        (),
        ExitError,
    >) {
        self.ops = Ghost(self.ops@.push(HostOp::Log { address, topics: topics@, data: data@ }));
        self.last_log = Some((address, topics, data));
        match self.fail_mutations {
            Some(e) => Err(e),
            None => Ok(()),
        }
    }

    fn mark_delete(&mut self, address: H160, target: H160) -> (r: Result<(), ExitError>) {
        self.ops = Ghost(self.ops@.push(HostOp::MarkDelete { address, target }));
        self.last_mark_delete = Some((address, target));
        match self.fail_mutations {
            Some(e) => Err(e),
            None => Ok(()),
        }
    }

    fn create(
        &mut self,
        caller: H160,
        scheme: CreateScheme,
        value: U256,
        init_code: Vec<u8>,
        target_gas: Option<u64>,
    ) -> (r: Capture<(ExitReason, Option<H160>, Vec<u8>), ()>) {
        self.ops = Ghost(
            self.ops@.push(
                HostOp::Create(
                    CreateArgs { caller, scheme, value, init_code: init_code@, target_gas },
                ),
            ),
        );
        self.last_create = Some(
            CreateRecord { caller, scheme, value, init_code, target_gas },
        );
        match self.reply_create {
            Some((reason, addr)) => {
                if reason == ExitReason::StepLimitReached {
                    // A nested completion is terminal; treat a step-limit
                    // reply as a suspension instead.
                    Capture::Trap(())
                } else {
                    Capture::Exit((reason, addr, Vec::new()))
                }
            },
            None => Capture::Trap(()),
        }
    }

    fn call(
        &mut self,
        code_address: H160,
        transfer: Option<Transfer>,
        input: Vec<u8>,
        target_gas: Option<u64>,
        is_static: bool,
        context: Context,
    ) -> (r: Capture<(ExitReason, Vec<u8>), ()>) {
        self.ops = Ghost(
            self.ops@.push(
                HostOp::Call(
                    CallArgs {
                        code_address,
                        transfer,
                        input: input@,
                        target_gas,
                        is_static,
                        context,
                    },
                ),
            ),
        );
        self.last_call = Some(
            CallRecord { code_address, transfer, input, target_gas, is_static, context },
        );
        match &self.reply_call {
            Some((reason, data)) => {
                let reason = *reason;
                if reason == ExitReason::StepLimitReached {
                    // A nested completion is terminal; treat a step-limit
                    // reply as a suspension instead.
                    Capture::Trap(())
                } else {
                    let data = copy_bytes(data);
                    Capture::Exit((reason, data))
                }
            },
            None => Capture::Trap(()),
        }
    }
}

} // verus!
