//! The system-opcode handlers: each pops its operands, queries or mutates
//! the host, writes results back to the machine, and returns a `Control`
//! verdict.
//!
//! Every handler carries a functional contract over `RtState` (the stack,
//! memory and return-data buffer) and over the host's ghost journal: what
//! is popped and pushed, how memory grows, exactly which request the host
//! receives, and which exit ends the frame on each failing input. A
//! helper that fails (stack underflow, an operand beyond the native index
//! range, memory beyond its bound) aborts the handler with an `Exit`
//! verdict before any host mutation.

use vstd::prelude::*;

use crate::eval::{no_slr_exit, state_of, verdict_of, Control, RtState, Verdict, eval_frame};
use crate::handler::{CallArgs, CreateArgs, Handler, HostOp};
use crate::memory::{mem_copied, mem_read, mem_resized, resize_fails};
use crate::stack::{popn, popv};
use crate::types::fits_index;
use crate::types::{
    address_to_word, word_to_address, CallScheme, Capture, Context, CreateScheme, ExitError,
    ExitFatal, ExitReason, ExitSucceed, Transfer, H160, U256,
};
use crate::Runtime;

verus! {

/// The zero word.
pub open spec fn u256_zero() -> U256 {
    U256 { limb0: 0, limb1: 0, limb2: 0, limb3: 0 }
}

/// The one word.
pub open spec fn u256_one() -> U256 {
    U256 { limb0: 1, limb1: 0, limb2: 0, limb3: 0 }
}

/// The smaller of two integers.
pub open spec fn imin(a: int, b: int) -> int {
    if a <= b {
        a
    } else {
        b
    }
}

/// Outcome of a handler that pushes one word and pops nothing: the word
/// goes on the stack, or the frame exits with a stack overflow; memory
/// and the return-data buffer stay.
pub open spec fn push_outcome<H: Handler>(pre: Runtime, post: Runtime, r: Control<H>, v: U256) -> bool {
    let s = pre.machine.stack@;
    &&& post.machine.memory@ == pre.machine.memory@
    &&& post.return_data_buffer@ == pre.return_data_buffer@
    &&& if s.len() < pre.machine.stack.limit {
        post.machine.stack@ == s.push(v) && r is Continue
    } else {
        post.machine.stack@ == s && r == Control::<H>::Exit(
            ExitReason::Error(ExitError::StackOverflow),
        )
    }
}

/// Outcome of a handler that pops one word and pushes `f` of it: an empty
/// stack exits with underflow before any other effect; the push cannot
/// overflow, a cell was just freed.
pub open spec fn pop1_push_outcome<H: Handler>(
    pre: Runtime,
    post: Runtime,
    r: Control<H>,
    f: spec_fn(U256) -> U256,
) -> bool {
    let s = pre.machine.stack@;
    &&& post.machine.memory@ == pre.machine.memory@
    &&& post.return_data_buffer@ == pre.return_data_buffer@
    &&& if s.len() == 0 {
        post.machine.stack@ == s && r == Control::<H>::Exit(
            ExitReason::Error(ExitError::StackUnderflow),
        )
    } else {
        post.machine.stack@ == s.drop_last().push(f(s.last())) && r is Continue
    }
}

/// Compute the Keccak-256 hash of a memory slice via the host and push
/// the digest.
pub fn sha3<H: Handler>(runtime: &mut Runtime, handler: &H) -> (r: Control<H>)
    requires
        old(runtime).wf(),
    ensures
        final(runtime).wf(),
        eval_frame(*old(runtime), *final(runtime)),
        no_slr_exit(r),
        final(runtime).return_data_buffer@ == old(runtime).return_data_buffer@,
        ({
            let s = old(runtime).machine.stack@;
            let m = old(runtime).machine.memory@;
            let mlim = old(runtime).machine.memory.limit as int;
            if s.len() < 2 {
                &&& final(runtime).machine.stack@ =~= popn(s, 2)
                &&& final(runtime).machine.memory@ == m
                &&& r == Control::<H>::Exit(ExitReason::Error(ExitError::StackUnderflow))
            } else {
                let from = popv(s, 0);
                let len = popv(s, 1);
                let s2 = popn(s, 2);
                if !fits_index(from) || !fits_index(len) {
                    &&& final(runtime).machine.stack@ =~= s2
                    &&& final(runtime).machine.memory@ == m
                    &&& r == Control::<H>::Exit(ExitReason::Fatal(ExitFatal::NotSupported))
                } else if resize_fails(mlim, from.as_nat() as int, len.as_nat() as int) {
                    &&& final(runtime).machine.stack@ =~= s2
                    &&& final(runtime).machine.memory@ == m
                    &&& r == Control::<H>::Exit(ExitReason::Error(ExitError::Other))
                } else {
                    let m2 = mem_resized(m, from.as_nat() as int, len.as_nat() as int);
                    let data = if len.as_nat() == 0 {
                        Seq::<u8>::empty()
                    } else {
                        mem_read(m2, from.as_nat() as int, len.as_nat() as int)
                    };
                    &&& final(runtime).machine.memory@ == m2
                    &&& final(runtime).machine.stack@ =~= s2.push(handler.keccak256_spec(data))
                    &&& r is Continue
                }
            }
        }),
{
    let from = match runtime.machine.stack.pop() {
        Ok(v) => v,
        Err(e) => return Control::Exit(ExitReason::Error(e)),
    };
    let len = match runtime.machine.stack.pop() {
        Ok(v) => v,
        Err(e) => return Control::Exit(ExitReason::Error(e)),
    };
    if !from.fits_usize() || !len.fits_usize() {
        return Control::Exit(ExitReason::Fatal(ExitFatal::NotSupported));
    }
    let from = from.as_usize();
    let len = len.as_usize();
    match runtime.machine.memory.resize_offset(from, len) {
        Ok(()) => {},
        Err(e) => return Control::Exit(ExitReason::Error(e)),
    }
    let data: Vec<u8> = if len == 0 {
        Vec::new()
    } else {
        runtime.machine.memory.get(from, len)
    };
    let ret = handler.keccak256_h256(data.as_slice());
    match runtime.machine.stack.push(ret) {
        Ok(()) => Control::Continue,
        Err(e) => Control::Exit(ExitReason::Error(e)),
    }
}

/// Get the chain identifier and push it.
pub fn chainid<H: Handler>(runtime: &mut Runtime, handler: &H) -> (r: Control<H>)
    requires
        old(runtime).wf(),
    ensures
        final(runtime).wf(),
        eval_frame(*old(runtime), *final(runtime)),
        no_slr_exit(r),
        push_outcome(*old(runtime), *final(runtime), r, handler.chain_id_spec()),
{
    match runtime.machine.stack.push(handler.chain_id()) {
        Ok(()) => Control::Continue,
        Err(e) => Control::Exit(ExitReason::Error(e)),
    }
}

/// Push the address of the currently executing account, zero-extended.
pub fn address<H: Handler>(runtime: &mut Runtime) -> (r: Control<H>)
    requires
        old(runtime).wf(),
    ensures
        final(runtime).wf(),
        eval_frame(*old(runtime), *final(runtime)),
        no_slr_exit(r),
        push_outcome(
            *old(runtime),
            *final(runtime),
            r,
            address_to_word(old(runtime).context.address),
        ),
{
    let ret = runtime.context.address.to_word();
    match runtime.machine.stack.push(ret) {
        Ok(()) => Control::Continue,
        Err(e) => Control::Exit(ExitReason::Error(e)),
    }
}

/// Pop an address and push the balance the host reports for it.
pub fn balance<H: Handler>(runtime: &mut Runtime, handler: &H) -> (r: Control<H>)
    requires
        old(runtime).wf(),
    ensures
        final(runtime).wf(),
        eval_frame(*old(runtime), *final(runtime)),
        no_slr_exit(r),
        pop1_push_outcome(
            *old(runtime),
            *final(runtime),
            r,
            |v: U256| handler.balance_spec(word_to_address(v)),
        ),
{
    let v = match runtime.machine.stack.pop() {
        Ok(v) => v,
        Err(e) => return Control::Exit(ExitReason::Error(e)),
    };
    let ret = handler.balance(H160::from_word(v));
    match runtime.machine.stack.push(ret) {
        Ok(()) => Control::Continue,
        Err(e) => Control::Exit(ExitReason::Error(e)),
    }
}

/// Push the balance of the executing account.
pub fn selfbalance<H: Handler>(runtime: &mut Runtime, handler: &H) -> (r: Control<H>)
    requires
        old(runtime).wf(),
    ensures
        final(runtime).wf(),
        eval_frame(*old(runtime), *final(runtime)),
        no_slr_exit(r),
        push_outcome(
            *old(runtime),
            *final(runtime),
            r,
            handler.balance_spec(old(runtime).context.address),
        ),
{
    let ret = handler.balance(runtime.context.address);
    match runtime.machine.stack.push(ret) {
        Ok(()) => Control::Continue,
        Err(e) => Control::Exit(ExitReason::Error(e)),
    }
}

/// Push the base fee: zero, the host interface carries none.
pub fn basefee<H: Handler>(runtime: &mut Runtime, _handler: &H) -> (r: Control<H>)
    requires
        old(runtime).wf(),
    ensures
        final(runtime).wf(),
        eval_frame(*old(runtime), *final(runtime)),
        no_slr_exit(r),
        push_outcome(*old(runtime), *final(runtime), r, u256_zero()),
{
    match runtime.machine.stack.push(U256::zero()) {
        Ok(()) => Control::Continue,
        Err(e) => Control::Exit(ExitReason::Error(e)),
    }
}

/// Push the execution origination address, zero-extended.
pub fn origin<H: Handler>(runtime: &mut Runtime, handler: &H) -> (r: Control<H>)
    requires
        old(runtime).wf(),
    ensures
        final(runtime).wf(),
        eval_frame(*old(runtime), *final(runtime)),
        no_slr_exit(r),
        push_outcome(*old(runtime), *final(runtime), r, address_to_word(handler.origin_spec())),
{
    let ret = handler.origin().to_word();
    match runtime.machine.stack.push(ret) {
        Ok(()) => Control::Continue,
        Err(e) => Control::Exit(ExitReason::Error(e)),
    }
}

/// Push the caller address, zero-extended.
pub fn caller<H: Handler>(runtime: &mut Runtime) -> (r: Control<H>)
    requires
        old(runtime).wf(),
    ensures
        final(runtime).wf(),
        eval_frame(*old(runtime), *final(runtime)),
        no_slr_exit(r),
        push_outcome(
            *old(runtime),
            *final(runtime),
            r,
            address_to_word(old(runtime).context.caller),
        ),
{
    let ret = runtime.context.caller.to_word();
    match runtime.machine.stack.push(ret) {
        Ok(()) => Control::Continue,
        Err(e) => Control::Exit(ExitReason::Error(e)),
    }
}

/// Push the apparent value of this frame.
pub fn callvalue<H: Handler>(runtime: &mut Runtime) -> (r: Control<H>)
    requires
        old(runtime).wf(),
    ensures
        final(runtime).wf(),
        eval_frame(*old(runtime), *final(runtime)),
        no_slr_exit(r),
        push_outcome(*old(runtime), *final(runtime), r, old(runtime).context.apparent_value),
{
    let ret = runtime.context.apparent_value;
    match runtime.machine.stack.push(ret) {
        Ok(()) => Control::Continue,
        Err(e) => Control::Exit(ExitReason::Error(e)),
    }
}

/// Push the price of gas the host reports.
pub fn gasprice<H: Handler>(runtime: &mut Runtime, handler: &H) -> (r: Control<H>)
    requires
        old(runtime).wf(),
    ensures
        final(runtime).wf(),
        eval_frame(*old(runtime), *final(runtime)),
        no_slr_exit(r),
        push_outcome(*old(runtime), *final(runtime), r, handler.gas_price_spec()),
{
    match runtime.machine.stack.push(handler.gas_price()) {
        Ok(()) => Control::Continue,
        Err(e) => Control::Exit(ExitReason::Error(e)),
    }
}

/// Pop an address and push the size of its code.
pub fn extcodesize<H: Handler>(runtime: &mut Runtime, handler: &H) -> (r: Control<H>)
    requires
        old(runtime).wf(),
    ensures
        final(runtime).wf(),
        eval_frame(*old(runtime), *final(runtime)),
        no_slr_exit(r),
        pop1_push_outcome(
            *old(runtime),
            *final(runtime),
            r,
            |v: U256| handler.code_size_spec(word_to_address(v)),
        ),
{
    let v = match runtime.machine.stack.pop() {
        Ok(v) => v,
        Err(e) => return Control::Exit(ExitReason::Error(e)),
    };
    let ret = handler.code_size(H160::from_word(v));
    match runtime.machine.stack.push(ret) {
        Ok(()) => Control::Continue,
        Err(e) => Control::Exit(ExitReason::Error(e)),
    }
}

/// Pop an address and push the hash of its code.
pub fn extcodehash<H: Handler>(runtime: &mut Runtime, handler: &H) -> (r: Control<H>)
    requires
        old(runtime).wf(),
    ensures
        final(runtime).wf(),
        eval_frame(*old(runtime), *final(runtime)),
        no_slr_exit(r),
        pop1_push_outcome(
            *old(runtime),
            *final(runtime),
            r,
            |v: U256| handler.code_hash_spec(word_to_address(v)),
        ),
{
    let v = match runtime.machine.stack.pop() {
        Ok(v) => v,
        Err(e) => return Control::Exit(ExitReason::Error(e)),
    };
    let ret = handler.code_hash(H160::from_word(v));
    match runtime.machine.stack.push(ret) {
        Ok(()) => Control::Continue,
        Err(e) => Control::Exit(ExitReason::Error(e)),
    }
}

/// Copy an account's code into memory, zero-padded where the code is
/// shorter than the requested range.
pub fn extcodecopy<H: Handler>(runtime: &mut Runtime, handler: &H) -> (r: Control<H>)
    requires
        old(runtime).wf(),
    ensures
        final(runtime).wf(),
        eval_frame(*old(runtime), *final(runtime)),
        no_slr_exit(r),
        final(runtime).return_data_buffer@ == old(runtime).return_data_buffer@,
        ({
            let s = old(runtime).machine.stack@;
            let m = old(runtime).machine.memory@;
            let mlim = old(runtime).machine.memory.limit as int;
            if s.len() < 4 {
                &&& final(runtime).machine.stack@ =~= popn(s, 4)
                &&& final(runtime).machine.memory@ == m
                &&& r == Control::<H>::Exit(ExitReason::Error(ExitError::StackUnderflow))
            } else {
                let target = word_to_address(popv(s, 0));
                let memory_offset = popv(s, 1);
                let code_offset = popv(s, 2);
                let len = popv(s, 3);
                let s4 = popn(s, 4);
                if !fits_index(memory_offset) || !fits_index(code_offset) || !fits_index(len) {
                    &&& final(runtime).machine.stack@ =~= s4
                    &&& final(runtime).machine.memory@ == m
                    &&& r == Control::<H>::Exit(ExitReason::Fatal(ExitFatal::NotSupported))
                } else if resize_fails(mlim, memory_offset.as_nat() as int, len.as_nat() as int) {
                    &&& final(runtime).machine.stack@ =~= s4
                    &&& final(runtime).machine.memory@ == m
                    &&& r == Control::<H>::Exit(ExitReason::Error(ExitError::Other))
                } else {
                    let m2 = mem_resized(m, memory_offset.as_nat() as int, len.as_nat() as int);
                    &&& final(runtime).machine.stack@ =~= s4
                    &&& final(runtime).machine.memory@ == mem_copied(
                        m2,
                        memory_offset.as_nat() as int,
                        code_offset.as_nat() as int,
                        len.as_nat() as int,
                        handler.code_spec(target),
                    )
                    &&& r is Continue
                }
            }
        }),
{
    let target = match runtime.machine.stack.pop() {
        Ok(v) => v,
        Err(e) => return Control::Exit(ExitReason::Error(e)),
    };
    let memory_offset = match runtime.machine.stack.pop() {
        Ok(v) => v,
        Err(e) => return Control::Exit(ExitReason::Error(e)),
    };
    let code_offset = match runtime.machine.stack.pop() {
        Ok(v) => v,
        Err(e) => return Control::Exit(ExitReason::Error(e)),
    };
    let len = match runtime.machine.stack.pop() {
        Ok(v) => v,
        Err(e) => return Control::Exit(ExitReason::Error(e)),
    };
    if !memory_offset.fits_usize() || !code_offset.fits_usize() || !len.fits_usize() {
        return Control::Exit(ExitReason::Fatal(ExitFatal::NotSupported));
    }
    let memory_offset = memory_offset.as_usize();
    let code_offset = code_offset.as_usize();
    let len = len.as_usize();
    match runtime.machine.memory.resize_offset(memory_offset, len) {
        Ok(()) => {},
        Err(e) => return Control::Exit(ExitReason::Error(e)),
    }
    let code = handler.code(H160::from_word(target));
    match runtime.machine.memory.copy_large(memory_offset, code_offset, len, code.as_slice()) {
        Ok(()) => Control::Continue,
        Err(e) => Control::Exit(ExitReason::Fatal(e)),
    }
}

/// Push the size of the previous call's output.
pub fn returndatasize<H: Handler>(runtime: &mut Runtime) -> (r: Control<H>)
    requires
        old(runtime).wf(),
    ensures
        final(runtime).wf(),
        eval_frame(*old(runtime), *final(runtime)),
        no_slr_exit(r),
        ({
            let v = push_value_of_len(old(runtime).return_data_buffer@.len());
            push_outcome(*old(runtime), *final(runtime), r, v)
        }),
{
    let size = U256::from_usize(runtime.return_data_buffer.len());
    match runtime.machine.stack.push(size) {
        Ok(()) => Control::Continue,
        Err(e) => Control::Exit(ExitReason::Error(e)),
    }
}

/// The word RETURNDATASIZE pushes for a buffer of the given length: the
/// length itself, as a 256-bit value.
pub open spec fn push_value_of_len(len: nat) -> U256 {
    U256 { limb0: len as u64, limb1: 0, limb2: 0, limb3: 0 }
}

/// Copy the previous call's output into memory. A range beyond the
/// buffer — checked before memory is touched — fails with OutOfOffset
/// and leaves memory exactly as it was: no growth, no write.
pub fn returndatacopy<H: Handler>(runtime: &mut Runtime) -> (r: Control<H>)
    requires
        old(runtime).wf(),
    ensures
        final(runtime).wf(),
        eval_frame(*old(runtime), *final(runtime)),
        no_slr_exit(r),
        final(runtime).return_data_buffer@ == old(runtime).return_data_buffer@,
        ({
            let s = old(runtime).machine.stack@;
            let m = old(runtime).machine.memory@;
            let mlim = old(runtime).machine.memory.limit as int;
            let buffer = old(runtime).return_data_buffer@;
            if s.len() < 3 {
                &&& final(runtime).machine.stack@ =~= popn(s, 3)
                &&& final(runtime).machine.memory@ == m
                &&& r == Control::<H>::Exit(ExitReason::Error(ExitError::StackUnderflow))
            } else {
                let memory_offset = popv(s, 0);
                let data_offset = popv(s, 1);
                let len = popv(s, 2);
                let s3 = popn(s, 3);
                if !fits_index(memory_offset) || !fits_index(data_offset) || !fits_index(len) {
                    &&& final(runtime).machine.stack@ =~= s3
                    &&& final(runtime).machine.memory@ == m
                    &&& r == Control::<H>::Exit(ExitReason::Fatal(ExitFatal::NotSupported))
                } else if data_offset.as_nat() + len.as_nat() > buffer.len() {
                    &&& final(runtime).machine.stack@ =~= s3
                    &&& final(runtime).machine.memory@ == m
                    &&& r == Control::<H>::Exit(ExitReason::Error(ExitError::OutOfOffset))
                } else if resize_fails(mlim, memory_offset.as_nat() as int, len.as_nat() as int) {
                    &&& final(runtime).machine.stack@ =~= s3
                    &&& final(runtime).machine.memory@ == m
                    &&& r == Control::<H>::Exit(ExitReason::Error(ExitError::Other))
                } else {
                    let m2 = mem_resized(m, memory_offset.as_nat() as int, len.as_nat() as int);
                    &&& final(runtime).machine.stack@ =~= s3
                    &&& final(runtime).machine.memory@ == mem_copied(
                        m2,
                        memory_offset.as_nat() as int,
                        data_offset.as_nat() as int,
                        len.as_nat() as int,
                        buffer,
                    )
                    &&& r is Continue
                }
            }
        }),
{
    let memory_offset = match runtime.machine.stack.pop() {
        Ok(v) => v,
        Err(e) => return Control::Exit(ExitReason::Error(e)),
    };
    let data_offset = match runtime.machine.stack.pop() {
        Ok(v) => v,
        Err(e) => return Control::Exit(ExitReason::Error(e)),
    };
    let len = match runtime.machine.stack.pop() {
        Ok(v) => v,
        Err(e) => return Control::Exit(ExitReason::Error(e)),
    };
    if !memory_offset.fits_usize() || !data_offset.fits_usize() || !len.fits_usize() {
        return Control::Exit(ExitReason::Fatal(ExitFatal::NotSupported));
    }
    let memory_offset = memory_offset.as_usize();
    let data_offset = data_offset.as_usize();
    let len = len.as_usize();
    // The overrun check comes before any memory effect: an out-of-range
    // copy leaves memory untouched.
    let buffer_len = runtime.return_data_buffer.len();
    let overrun = match data_offset.checked_add(len) {
        Some(end) => end > buffer_len,
        None => true,
    };
    if overrun {
        return Control::Exit(ExitReason::Error(ExitError::OutOfOffset));
    }
    match runtime.machine.memory.resize_offset(memory_offset, len) {
        Ok(()) => {},
        Err(e) => return Control::Exit(ExitReason::Error(e)),
    }
    match runtime.machine.memory.copy_large(
        memory_offset,
        data_offset,
        len,
        runtime.return_data_buffer.as_slice(),
    ) {
        Ok(()) => Control::Continue,
        Err(e) => Control::Exit(ExitReason::Fatal(e)),
    }
}

/// Pop a block number and push the hash the host reports for it.
pub fn blockhash<H: Handler>(runtime: &mut Runtime, handler: &H) -> (r: Control<H>)
    requires
        old(runtime).wf(),
    ensures
        final(runtime).wf(),
        eval_frame(*old(runtime), *final(runtime)),
        no_slr_exit(r),
        pop1_push_outcome(
            *old(runtime),
            *final(runtime),
            r,
            |v: U256| handler.block_hash_spec(v),
        ),
{
    let number = match runtime.machine.stack.pop() {
        Ok(v) => v,
        Err(e) => return Control::Exit(ExitReason::Error(e)),
    };
    let ret = handler.block_hash(number);
    match runtime.machine.stack.push(ret) {
        Ok(()) => Control::Continue,
        Err(e) => Control::Exit(ExitReason::Error(e)),
    }
}

/// Push the block's beneficiary address, zero-extended.
pub fn coinbase<H: Handler>(runtime: &mut Runtime, handler: &H) -> (r: Control<H>)
    requires
        old(runtime).wf(),
    ensures
        final(runtime).wf(),
        eval_frame(*old(runtime), *final(runtime)),
        no_slr_exit(r),
        push_outcome(
            *old(runtime),
            *final(runtime),
            r,
            address_to_word(handler.block_coinbase_spec()),
        ),
{
    let ret = handler.block_coinbase().to_word();
    match runtime.machine.stack.push(ret) {
        Ok(()) => Control::Continue,
        Err(e) => Control::Exit(ExitReason::Error(e)),
    }
}

/// Push the block's timestamp.
pub fn timestamp<H: Handler>(runtime: &mut Runtime, handler: &H) -> (r: Control<H>)
    requires
        old(runtime).wf(),
    ensures
        final(runtime).wf(),
        eval_frame(*old(runtime), *final(runtime)),
        no_slr_exit(r),
        push_outcome(*old(runtime), *final(runtime), r, handler.block_timestamp_spec()),
{
    match runtime.machine.stack.push(handler.block_timestamp()) {
        Ok(()) => Control::Continue,
        Err(e) => Control::Exit(ExitReason::Error(e)),
    }
}

/// Push the block's number.
pub fn number<H: Handler>(runtime: &mut Runtime, handler: &H) -> (r: Control<H>)
    requires
        old(runtime).wf(),
    ensures
        final(runtime).wf(),
        eval_frame(*old(runtime), *final(runtime)),
        no_slr_exit(r),
        push_outcome(*old(runtime), *final(runtime), r, handler.block_number_spec()),
{
    match runtime.machine.stack.push(handler.block_number()) {
        Ok(()) => Control::Continue,
        Err(e) => Control::Exit(ExitReason::Error(e)),
    }
}

/// Push the block's difficulty (PREVRANDAO).
pub fn difficulty<H: Handler>(runtime: &mut Runtime, handler: &H) -> (r: Control<H>)
    requires
        old(runtime).wf(),
    ensures
        final(runtime).wf(),
        eval_frame(*old(runtime), *final(runtime)),
        no_slr_exit(r),
        push_outcome(*old(runtime), *final(runtime), r, handler.block_difficulty_spec()),
{
    match runtime.machine.stack.push(handler.block_difficulty()) {
        Ok(()) => Control::Continue,
        Err(e) => Control::Exit(ExitReason::Error(e)),
    }
}

/// Push the block's gas limit.
pub fn gaslimit<H: Handler>(runtime: &mut Runtime, handler: &H) -> (r: Control<H>)
    requires
        old(runtime).wf(),
    ensures
        final(runtime).wf(),
        eval_frame(*old(runtime), *final(runtime)),
        no_slr_exit(r),
        push_outcome(*old(runtime), *final(runtime), r, handler.block_gas_limit_spec()),
{
    match runtime.machine.stack.push(handler.block_gas_limit()) {
        Ok(()) => Control::Continue,
        Err(e) => Control::Exit(ExitReason::Error(e)),
    }
}

/// Pop an index and push the storage word of the executing account.
pub fn sload<H: Handler>(runtime: &mut Runtime, handler: &H) -> (r: Control<H>)
    requires
        old(runtime).wf(),
    ensures
        final(runtime).wf(),
        eval_frame(*old(runtime), *final(runtime)),
        no_slr_exit(r),
        pop1_push_outcome(
            *old(runtime),
            *final(runtime),
            r,
            |v: U256| handler.storage_spec(old(runtime).context.address, v),
        ),
{
    let index = match runtime.machine.stack.pop() {
        Ok(v) => v,
        Err(e) => return Control::Exit(ExitReason::Error(e)),
    };
    let value = handler.storage(runtime.context.address, index);
    match runtime.machine.stack.push(value) {
        Ok(()) => Control::Continue,
        Err(e) => Control::Exit(ExitReason::Error(e)),
    }
}

/// Pop an index and push the transient storage word of the executing
/// account.
pub fn tload<H: Handler>(runtime: &mut Runtime, handler: &H) -> (r: Control<H>)
    requires
        old(runtime).wf(),
    ensures
        final(runtime).wf(),
        eval_frame(*old(runtime), *final(runtime)),
        no_slr_exit(r),
        pop1_push_outcome(
            *old(runtime),
            *final(runtime),
            r,
            |v: U256| handler.transient_storage_spec(old(runtime).context.address, v),
        ),
{
    let index = match runtime.machine.stack.pop() {
        Ok(v) => v,
        Err(e) => return Control::Exit(ExitReason::Error(e)),
    };
    let value = handler.transient_storage(runtime.context.address, index);
    match runtime.machine.stack.push(value) {
        Ok(()) => Control::Continue,
        Err(e) => Control::Exit(ExitReason::Error(e)),
    }
}

/// Pop an index and a value and write them through the host's storage;
/// a host error — a read-only violation, say — exits the frame.
pub fn sstore<H: Handler>(runtime: &mut Runtime, handler: &mut H) -> (r: Control<H>)
    requires
        old(runtime).wf(),
    ensures
        final(runtime).wf(),
        eval_frame(*old(runtime), *final(runtime)),
        no_slr_exit(r),
        final(runtime).machine.memory@ == old(runtime).machine.memory@,
        final(runtime).return_data_buffer@ == old(runtime).return_data_buffer@,
        ({
            let s = old(runtime).machine.stack@;
            if s.len() < 2 {
                &&& final(runtime).machine.stack@ =~= popn(s, 2)
                &&& r == Control::<H>::Exit(ExitReason::Error(ExitError::StackUnderflow))
                &&& final(handler).host_log() == old(handler).host_log()
            } else {
                let rep = old(handler).set_storage_reply(
                    old(runtime).context.address,
                    popv(s, 0),
                    popv(s, 1),
                );
                &&& final(runtime).machine.stack@ =~= popn(s, 2)
                &&& final(handler).host_log() == old(handler).host_log().push(
                    HostOp::SetStorage {
                        address: old(runtime).context.address,
                        index: popv(s, 0),
                        value: popv(s, 1),
                    },
                )
                &&& (rep is Ok ==> r is Continue)
                &&& (rep matches Err(e) ==> r == Control::<H>::Exit(ExitReason::Error(e)))
            }
        }),
{
    let index = match runtime.machine.stack.pop() {
        Ok(v) => v,
        Err(e) => return Control::Exit(ExitReason::Error(e)),
    };
    let value = match runtime.machine.stack.pop() {
        Ok(v) => v,
        Err(e) => return Control::Exit(ExitReason::Error(e)),
    };
    match handler.set_storage(runtime.context.address, index, value) {
        Ok(()) => Control::Continue,
        Err(e) => Control::Exit(ExitReason::Error(e)),
    }
}

/// Pop an index and a value and write them through the host's transient
/// storage.
pub fn tstore<H: Handler>(runtime: &mut Runtime, handler: &mut H) -> (r: Control<H>)
    requires
        old(runtime).wf(),
    ensures
        final(runtime).wf(),
        eval_frame(*old(runtime), *final(runtime)),
        no_slr_exit(r),
        final(runtime).machine.memory@ == old(runtime).machine.memory@,
        final(runtime).return_data_buffer@ == old(runtime).return_data_buffer@,
        ({
            let s = old(runtime).machine.stack@;
            if s.len() < 2 {
                &&& final(runtime).machine.stack@ =~= popn(s, 2)
                &&& r == Control::<H>::Exit(ExitReason::Error(ExitError::StackUnderflow))
                &&& final(handler).host_log() == old(handler).host_log()
            } else {
                let rep = old(handler).set_transient_storage_reply(
                    old(runtime).context.address,
                    popv(s, 0),
                    popv(s, 1),
                );
                &&& final(runtime).machine.stack@ =~= popn(s, 2)
                &&& final(handler).host_log() == old(handler).host_log().push(
                    HostOp::SetTransientStorage {
                        address: old(runtime).context.address,
                        index: popv(s, 0),
                        value: popv(s, 1),
                    },
                )
                &&& (rep is Ok ==> r is Continue)
                &&& (rep matches Err(e) ==> r == Control::<H>::Exit(ExitReason::Error(e)))
            }
        }),
{
    let index = match runtime.machine.stack.pop() {
        Ok(v) => v,
        Err(e) => return Control::Exit(ExitReason::Error(e)),
    };
    let value = match runtime.machine.stack.pop() {
        Ok(v) => v,
        Err(e) => return Control::Exit(ExitReason::Error(e)),
    };
    match handler.set_transient_storage(runtime.context.address, index, value) {
        Ok(()) => Control::Continue,
        Err(e) => Control::Exit(ExitReason::Error(e)),
    }
}

/// Push the amount of available gas.
pub fn gas<H: Handler>(runtime: &mut Runtime, handler: &H) -> (r: Control<H>)
    requires
        old(runtime).wf(),
    ensures
        final(runtime).wf(),
        eval_frame(*old(runtime), *final(runtime)),
        no_slr_exit(r),
        push_outcome(*old(runtime), *final(runtime), r, handler.gas_left_spec()),
{
    match runtime.machine.stack.push(handler.gas_left()) {
        Ok(()) => Control::Continue,
        Err(e) => Control::Exit(ExitReason::Error(e)),
    }
}

/// Append a log record: pop a memory range, read the data, pop `n`
/// topics, and hand address, topics and data to the host.
#[verifier::loop_isolation(false)]
pub fn log<H: Handler>(runtime: &mut Runtime, n: u8, handler: &mut H) -> (r: Control<H>)
    requires
        old(runtime).wf(),
    ensures
        final(runtime).wf(),
        eval_frame(*old(runtime), *final(runtime)),
        no_slr_exit(r),
        final(runtime).return_data_buffer@ == old(runtime).return_data_buffer@,
        ({
            let s = old(runtime).machine.stack@;
            let m = old(runtime).machine.memory@;
            let mlim = old(runtime).machine.memory.limit as int;
            if s.len() < 2 {
                &&& final(runtime).machine.stack@ =~= popn(s, 2)
                &&& final(runtime).machine.memory@ == m
                &&& r == Control::<H>::Exit(ExitReason::Error(ExitError::StackUnderflow))
                &&& final(handler).host_log() == old(handler).host_log()
            } else {
                let offset = popv(s, 0);
                let len = popv(s, 1);
                let s2 = popn(s, 2);
                if !fits_index(offset) || !fits_index(len) {
                    &&& final(runtime).machine.stack@ =~= s2
                    &&& final(runtime).machine.memory@ == m
                    &&& r == Control::<H>::Exit(ExitReason::Fatal(ExitFatal::NotSupported))
                    &&& final(handler).host_log() == old(handler).host_log()
                } else if resize_fails(mlim, offset.as_nat() as int, len.as_nat() as int) {
                    &&& final(runtime).machine.stack@ =~= s2
                    &&& final(runtime).machine.memory@ == m
                    &&& r == Control::<H>::Exit(ExitReason::Error(ExitError::Other))
                    &&& final(handler).host_log() == old(handler).host_log()
                } else {
                    let m2 = mem_resized(m, offset.as_nat() as int, len.as_nat() as int);
                    let data = if len.as_nat() == 0 {
                        Seq::<u8>::empty()
                    } else {
                        mem_read(m2, offset.as_nat() as int, len.as_nat() as int)
                    };
                    if s2.len() < n {
                        &&& final(runtime).machine.stack@ =~= popn(s2, n as int)
                        &&& final(runtime).machine.memory@ == m2
                        &&& r == Control::<H>::Exit(ExitReason::Error(ExitError::StackUnderflow))
                        &&& final(handler).host_log() == old(handler).host_log()
                    } else {
                        let rep = old(handler).log_reply(
                            old(runtime).context.address,
                            Seq::new(n as nat, |i: int| popv(s2, i)),
                            data,
                        );
                        &&& final(runtime).machine.stack@ =~= popn(s2, n as int)
                        &&& final(runtime).machine.memory@ == m2
                        &&& final(handler).host_log() == old(handler).host_log().push(
                            HostOp::Log {
                                address: old(runtime).context.address,
                                topics: Seq::new(n as nat, |i: int| popv(s2, i)),
                                data,
                            },
                        )
                        &&& (rep is Ok ==> r is Continue)
                        &&& (rep matches Err(e) ==> r == Control::<H>::Exit(ExitReason::Error(e)))
                    }
                }
            }
        }),
{
    let offset = match runtime.machine.stack.pop() {
        Ok(v) => v,
        Err(e) => return Control::Exit(ExitReason::Error(e)),
    };
    let len = match runtime.machine.stack.pop() {
        Ok(v) => v,
        Err(e) => return Control::Exit(ExitReason::Error(e)),
    };
    if !offset.fits_usize() || !len.fits_usize() {
        return Control::Exit(ExitReason::Fatal(ExitFatal::NotSupported));
    }
    let offset = offset.as_usize();
    let len = len.as_usize();
    match runtime.machine.memory.resize_offset(offset, len) {
        Ok(()) => {},
        Err(e) => return Control::Exit(ExitReason::Error(e)),
    }
    let data: Vec<u8> = if len == 0 {
        Vec::new()
    } else {
        runtime.machine.memory.get(offset, len)
    };
    let ghost mid = *runtime;
    let ghost s2 = runtime.machine.stack@;
    let mut topics: Vec<U256> = Vec::new();
    let mut i: u8 = 0;
    proof {
        assert(s2 =~= popn(old(runtime).machine.stack@, 2));
        assert(runtime.machine.stack@ =~= s2.take(s2.len() - 0));
        assert(topics@ =~= Seq::new(0nat, |j: int| popv(s2, j)));
    }
    while i < n
        invariant
            i <= n,
            i <= s2.len(),
            runtime.machine.stack@ == s2.take(s2.len() - i),
            topics@ == Seq::new(i as nat, |j: int| popv(s2, j)),
            runtime.machine.stack.limit == mid.machine.stack.limit,
            runtime.machine.memory == mid.machine.memory,
            runtime.return_data_buffer == mid.return_data_buffer,
            runtime.context == mid.context,
            runtime.status == mid.status,
            runtime.machine.code == mid.machine.code,
            runtime.machine.valids == mid.machine.valids,
            runtime.machine.data == mid.machine.data,
            runtime.machine.position == mid.machine.position,
            runtime.machine.retired == mid.machine.retired,
            runtime.machine.exit_reason == mid.machine.exit_reason,
            runtime.wf(),
        decreases n - i,
    {
        match runtime.machine.stack.pop() {
            Ok(value) => {
                topics.push(value);
                proof {
                    assert(runtime.machine.stack@ =~= s2.take(s2.len() - (i + 1)));
                    assert(topics@ =~= Seq::new((i + 1) as nat, |j: int| popv(s2, j)));
                }
            },
            Err(e) => {
                proof {
                    assert(s2.len() == i && i < n);
                    assert(runtime.machine.stack@ =~= popn(s2, n as int));
                }
                return Control::Exit(ExitReason::Error(e));
            },
        }
        i += 1;
    }
    proof {
        assert(runtime.machine.stack@ =~= popn(s2, n as int));
    }
    match handler.log(runtime.context.address, topics, data) {
        Ok(()) => Control::Continue,
        Err(e) => Control::Exit(ExitReason::Error(e)),
    }
}

/// Halt and mark the executing account for deletion with the popped
/// beneficiary; on success the frame exits with the Suicided reason.
pub fn suicide<H: Handler>(runtime: &mut Runtime, handler: &mut H) -> (r: Control<H>)
    requires
        old(runtime).wf(),
    ensures
        final(runtime).wf(),
        eval_frame(*old(runtime), *final(runtime)),
        no_slr_exit(r),
        final(runtime).machine.memory@ == old(runtime).machine.memory@,
        final(runtime).return_data_buffer@ == old(runtime).return_data_buffer@,
        ({
            let s = old(runtime).machine.stack@;
            if s.len() < 1 {
                &&& final(runtime).machine.stack@ =~= popn(s, 1)
                &&& r == Control::<H>::Exit(ExitReason::Error(ExitError::StackUnderflow))
                &&& final(handler).host_log() == old(handler).host_log()
            } else {
                let rep = old(handler).mark_delete_reply(
                    old(runtime).context.address,
                    word_to_address(popv(s, 0)),
                );
                &&& final(runtime).machine.stack@ =~= popn(s, 1)
                &&& final(handler).host_log() == old(handler).host_log().push(
                    HostOp::MarkDelete {
                        address: old(runtime).context.address,
                        target: word_to_address(popv(s, 0)),
                    },
                )
                &&& (rep is Ok ==> r == Control::<H>::Exit(
                    ExitReason::Succeed(ExitSucceed::Suicided),
                ))
                &&& (rep matches Err(e) ==> r == Control::<H>::Exit(ExitReason::Error(e)))
            }
        }),
{
    let target = match runtime.machine.stack.pop() {
        Ok(v) => v,
        Err(e) => return Control::Exit(ExitReason::Error(e)),
    };
    match handler.mark_delete(runtime.context.address, H160::from_word(target)) {
        Ok(()) => {},
        Err(e) => return Control::Exit(ExitReason::Error(e)),
    }
    Control::Exit(ExitReason::Succeed(ExitSucceed::Suicided))
}

/// Where a nested create stands after its operands are popped: aborted
/// with a verdict, or ready with the request for the host.
pub enum CreateSetup {
    Abort(RtState, Verdict),
    Proceed(RtState, CreateArgs),
}

/// The setup phase of CREATE/CREATE2, §4.7: clear the buffer; pop value,
/// code offset and length; grow memory and read the init code; for
/// CREATE2 pop a salt and name the host's hash of the init code in the
/// scheme.
pub open spec fn spec_create_setup<H: Handler>(pre: Runtime, h: H, is_create2: bool) -> CreateSetup {
    let s = pre.machine.stack@;
    let m = pre.machine.memory@;
    let mlim = pre.machine.memory.limit as int;
    let this = pre.context.address;
    if s.len() < 3 {
        CreateSetup::Abort(
            RtState { stack: popn(s, 3), memory: m, buffer: Seq::empty() },
            Verdict::Exit(ExitReason::Error(ExitError::StackUnderflow)),
        )
    } else {
        let value = popv(s, 0);
        let code_offset = popv(s, 1);
        let len = popv(s, 2);
        let s3 = popn(s, 3);
        if !fits_index(code_offset) || !fits_index(len) {
            CreateSetup::Abort(
                RtState { stack: s3, memory: m, buffer: Seq::empty() },
                Verdict::Exit(ExitReason::Fatal(ExitFatal::NotSupported)),
            )
        } else if resize_fails(mlim, code_offset.as_nat() as int, len.as_nat() as int) {
            CreateSetup::Abort(
                RtState { stack: s3, memory: m, buffer: Seq::empty() },
                Verdict::Exit(ExitReason::Error(ExitError::Other)),
            )
        } else {
            let m2 = mem_resized(m, code_offset.as_nat() as int, len.as_nat() as int);
            let code = if len.as_nat() == 0 {
                Seq::<u8>::empty()
            } else {
                mem_read(m2, code_offset.as_nat() as int, len.as_nat() as int)
            };
            if is_create2 {
                if s3.len() == 0 {
                    CreateSetup::Abort(
                        RtState { stack: s3, memory: m2, buffer: Seq::empty() },
                        Verdict::Exit(ExitReason::Error(ExitError::StackUnderflow)),
                    )
                } else {
                    let salt = s3.last();
                    CreateSetup::Proceed(
                        RtState { stack: s3.drop_last(), memory: m2, buffer: Seq::empty() },
                        CreateArgs {
                            caller: this,
                            scheme: CreateScheme::Create2 {
                                caller: this,
                                code_hash: h.keccak256_spec(code),
                                salt,
                            },
                            value,
                            init_code: code,
                            target_gas: None,
                        },
                    )
                }
            } else {
                CreateSetup::Proceed(
                    RtState { stack: s3, memory: m2, buffer: Seq::empty() },
                    CreateArgs {
                        caller: this,
                        scheme: CreateScheme::Legacy { caller: this },
                        value,
                        init_code: code,
                        target_gas: None,
                    },
                )
            }
        }
    }
}

/// Create a new account with associated code. The host either completes
/// the create synchronously — the result is saved exactly as a resume
/// would save it — or traps, and the frame freezes in the setup state
/// until the driver resumes it.
pub fn create<H: Handler>(runtime: &mut Runtime, is_create2: bool, handler: &mut H) -> (r: Control<
    H,
>)
    requires
        old(runtime).wf(),
    ensures
        final(runtime).wf(),
        eval_frame(*old(runtime), *final(runtime)),
        no_slr_exit(r),
        ({
            let setup = spec_create_setup(*old(runtime), *old(handler), is_create2);
            match setup {
                CreateSetup::Abort(st, v) => {
                    &&& state_of(*final(runtime)) =~~= st
                    &&& verdict_of(r) == v
                    &&& final(handler).host_log() == old(handler).host_log()
                },
                CreateSetup::Proceed(st, args) => {
                    let rep = old(handler).create_reply(args);
                    &&& final(handler).host_log() == old(handler).host_log().push(
                        HostOp::Create(args),
                    )
                    &&& (rep matches Capture::Trap(i) ==> r == Control::<H>::CreateInterrupt(i)
                        && state_of(*final(runtime)) =~~= st)
                    &&& (rep matches Capture::Exit(x) ==> x.0 != ExitReason::StepLimitReached && (
                    state_of(*final(runtime)),
                    verdict_of(r),
                    ) =~~= spec_save_created_address(
                        st,
                        old(runtime).machine.stack.limit as int,
                        x.0,
                        x.1,
                    ))
                },
            }
        }),
{
    runtime.return_data_buffer = Vec::new();
    let value = match runtime.machine.stack.pop() {
        Ok(v) => v,
        Err(e) => return Control::Exit(ExitReason::Error(e)),
    };
    let code_offset = match runtime.machine.stack.pop() {
        Ok(v) => v,
        Err(e) => return Control::Exit(ExitReason::Error(e)),
    };
    let len = match runtime.machine.stack.pop() {
        Ok(v) => v,
        Err(e) => return Control::Exit(ExitReason::Error(e)),
    };
    if !code_offset.fits_usize() || !len.fits_usize() {
        return Control::Exit(ExitReason::Fatal(ExitFatal::NotSupported));
    }
    let code_offset = code_offset.as_usize();
    let len = len.as_usize();
    match runtime.machine.memory.resize_offset(code_offset, len) {
        Ok(()) => {},
        Err(e) => return Control::Exit(ExitReason::Error(e)),
    }
    let code: Vec<u8> = if len == 0 {
        Vec::new()
    } else {
        runtime.machine.memory.get(code_offset, len)
    };
    let scheme = if is_create2 {
        let salt = match runtime.machine.stack.pop() {
            Ok(v) => v,
            Err(e) => return Control::Exit(ExitReason::Error(e)),
        };
        let code_hash = handler.keccak256_h256(code.as_slice());
        CreateScheme::Create2 { caller: runtime.context.address, code_hash, salt }
    } else {
        CreateScheme::Legacy { caller: runtime.context.address }
    };
    let ghost st = state_of(*runtime);
    match handler.create(runtime.context.address, scheme, value, code, None) {
        Capture::Exit((reason, addr, _return_data)) => {
            let ctl = save_created_address(runtime, reason, addr);
            proof {
                let sl = old(runtime).machine.stack.limit as int;
                assert(spec_create_setup(*old(runtime), *old(handler), is_create2)
                    matches CreateSetup::Proceed(sst, _a) && st =~~= sst);
                assert((state_of(*runtime), verdict_of(ctl)) =~~= spec_save_created_address(
                    st,
                    sl,
                    reason,
                    addr,
                ));
            }
            ctl
        },
        Capture::Trap(interrupt) => {
            // The created contract's address is pushed by
            // save_created_address when the driver resumes.
            Control::CreateInterrupt(interrupt)
        },
    }
}

/// Where a nested call stands after its operands are popped: aborted
/// with a verdict, or ready with the request for the host. The out-range
/// operands stay on the stack; §4.9 pops them at resume.
pub enum CallSetup {
    Abort(RtState, Verdict),
    Proceed(RtState, CallArgs),
}

/// The child context of a call, by scheme (§4.8): CALL and STATICCALL
/// run the target's code at the target; CALLCODE runs it at the caller;
/// DELEGATECALL also keeps the caller's own caller and apparent value.
pub open spec fn spec_call_context(
    scheme: CallScheme,
    to: H160,
    value: U256,
    ctx: Context,
) -> Context {
    match scheme {
        CallScheme::Call | CallScheme::StaticCall => Context {
            address: to,
            caller: ctx.address,
            apparent_value: value,
        },
        CallScheme::CallCode => Context {
            address: ctx.address,
            caller: ctx.address,
            apparent_value: value,
        },
        CallScheme::DelegateCall => Context {
            address: ctx.address,
            caller: ctx.caller,
            apparent_value: ctx.apparent_value,
        },
    }
}

/// The balance movement of a call, by scheme: only CALL and CALLCODE
/// transfer value; CALLCODE pays the executing account itself.
pub open spec fn spec_call_transfer(
    scheme: CallScheme,
    to: H160,
    value: U256,
    ctx: Context,
) -> Option<Transfer> {
    if scheme == CallScheme::Call {
        Some(Transfer { source: ctx.address, target: to, value })
    } else if scheme == CallScheme::CallCode {
        Some(Transfer { source: ctx.address, target: ctx.address, value })
    } else {
        None
    }
}

/// How many words the setup of a call pops: gas, target, the value for
/// the value-bearing schemes, and the input range. The out range stays.
pub open spec fn call_pops(scheme: CallScheme) -> int {
    if scheme == CallScheme::Call || scheme == CallScheme::CallCode {
        5
    } else {
        4
    }
}

/// The setup phase of the CALL family, §4.8: clear the buffer; pop gas
/// (capped to 64 bits, an overflowing cap means no cap), target, value
/// where the scheme bears one, and the input range; grow memory and read
/// the input; build the child context and transfer by scheme.
pub open spec fn spec_call_setup(pre: Runtime, scheme: CallScheme) -> CallSetup {
    let s = pre.machine.stack@;
    let m = pre.machine.memory@;
    let mlim = pre.machine.memory.limit as int;
    let ctx = pre.context;
    let npops = call_pops(scheme);
    if s.len() < npops {
        CallSetup::Abort(
            RtState { stack: popn(s, npops), memory: m, buffer: Seq::empty() },
            Verdict::Exit(ExitReason::Error(ExitError::StackUnderflow)),
        )
    } else {
        let gas = popv(s, 0);
        let to = word_to_address(popv(s, 1));
        let value = if npops == 5 {
            popv(s, 2)
        } else {
            u256_zero()
        };
        let in_offset = popv(s, npops - 2);
        let in_len = popv(s, npops - 1);
        let sp = popn(s, npops);
        if !fits_index(in_offset) || !fits_index(in_len) {
            CallSetup::Abort(
                RtState { stack: sp, memory: m, buffer: Seq::empty() },
                Verdict::Exit(ExitReason::Fatal(ExitFatal::NotSupported)),
            )
        } else if resize_fails(mlim, in_offset.as_nat() as int, in_len.as_nat() as int) {
            CallSetup::Abort(
                RtState { stack: sp, memory: m, buffer: Seq::empty() },
                Verdict::Exit(ExitReason::Error(ExitError::Other)),
            )
        } else {
            let m2 = mem_resized(m, in_offset.as_nat() as int, in_len.as_nat() as int);
            let input = if in_len.as_nat() == 0 {
                Seq::<u8>::empty()
            } else {
                mem_read(m2, in_offset.as_nat() as int, in_len.as_nat() as int)
            };
            let target_gas = if gas.as_nat() > u64::MAX {
                None
            } else {
                Some(gas.as_nat() as u64)
            };
            CallSetup::Proceed(
                RtState { stack: sp, memory: m2, buffer: Seq::empty() },
                CallArgs {
                    code_address: to,
                    transfer: spec_call_transfer(scheme, to, value, ctx),
                    input,
                    target_gas,
                    is_static: scheme == CallScheme::StaticCall,
                    context: spec_call_context(scheme, to, value, ctx),
                },
            )
        }
    }
}

/// Message-call into an account. The host either completes the call
/// synchronously — the result is saved exactly as a resume would save
/// it — or traps, and the frame freezes in the setup state, the out
/// range still on the stack, until the driver resumes it.
#[verifier::rlimit(50)]
pub fn call<H: Handler>(runtime: &mut Runtime, scheme: CallScheme, handler: &mut H) -> (r: Control<
    H,
>)
    requires
        old(runtime).wf(),
    ensures
        final(runtime).wf(),
        eval_frame(*old(runtime), *final(runtime)),
        no_slr_exit(r),
        ({
            let setup = spec_call_setup(*old(runtime), scheme);
            match setup {
                CallSetup::Abort(st, v) => {
                    &&& state_of(*final(runtime)) =~~= st
                    &&& verdict_of(r) == v
                    &&& final(handler).host_log() == old(handler).host_log()
                },
                CallSetup::Proceed(st, args) => {
                    let rep = old(handler).call_reply(args);
                    &&& final(handler).host_log() == old(handler).host_log().push(
                        HostOp::Call(args),
                    )
                    &&& (rep matches Capture::Trap(i) ==> r == Control::<H>::CallInterrupt(i)
                        && state_of(*final(runtime)) =~~= st)
                    &&& (rep matches Capture::Exit(x) ==> x.0 != ExitReason::StepLimitReached && (
                    state_of(*final(runtime)),
                    verdict_of(r),
                    ) =~~= spec_save_return_value(
                        st,
                        old(runtime).machine.memory.limit as int,
                        old(runtime).machine.stack.limit as int,
                        x.0,
                        x.1,
                    ))
                },
            }
        }),
{
    runtime.return_data_buffer = Vec::new();
    let gas = match runtime.machine.stack.pop() {
        Ok(v) => v,
        Err(e) => return Control::Exit(ExitReason::Error(e)),
    };
    let to = match runtime.machine.stack.pop() {
        Ok(v) => v,
        Err(e) => return Control::Exit(ExitReason::Error(e)),
    };
    let target_gas: Option<u64> = if !gas.fits_u64() {
        None
    } else {
        Some(gas.as_u64())
    };
    let value = if scheme == CallScheme::Call || scheme == CallScheme::CallCode {
        match runtime.machine.stack.pop() {
            Ok(v) => v,
            Err(e) => return Control::Exit(ExitReason::Error(e)),
        }
    } else {
        U256::zero()
    };
    let in_offset = match runtime.machine.stack.pop() {
        Ok(v) => v,
        Err(e) => return Control::Exit(ExitReason::Error(e)),
    };
    let in_len = match runtime.machine.stack.pop() {
        Ok(v) => v,
        Err(e) => return Control::Exit(ExitReason::Error(e)),
    };
    if !in_offset.fits_usize() || !in_len.fits_usize() {
        return Control::Exit(ExitReason::Fatal(ExitFatal::NotSupported));
    }
    let in_offset = in_offset.as_usize();
    let in_len = in_len.as_usize();
    match runtime.machine.memory.resize_offset(in_offset, in_len) {
        Ok(()) => {},
        Err(e) => return Control::Exit(ExitReason::Error(e)),
    }
    let input: Vec<u8> = if in_len == 0 {
        Vec::new()
    } else {
        runtime.machine.memory.get(in_offset, in_len)
    };
    let to_address = H160::from_word(to);
    let context = match scheme {
        CallScheme::Call | CallScheme::StaticCall => Context {
            address: to_address,
            caller: runtime.context.address,
            apparent_value: value,
        },
        CallScheme::CallCode => Context {
            address: runtime.context.address,
            caller: runtime.context.address,
            apparent_value: value,
        },
        CallScheme::DelegateCall => Context {
            address: runtime.context.address,
            caller: runtime.context.caller,
            apparent_value: runtime.context.apparent_value,
        },
    };
    let transfer: Option<Transfer> = if scheme == CallScheme::Call {
        Some(Transfer { source: runtime.context.address, target: to_address, value })
    } else if scheme == CallScheme::CallCode {
        Some(
            Transfer {
                source: runtime.context.address,
                target: runtime.context.address,
                value,
            },
        )
    } else {
        None
    };
    let is_static = scheme == CallScheme::StaticCall;
    let ghost st = state_of(*runtime);
    match handler.call(to_address, transfer, input, target_gas, is_static, context) {
        Capture::Exit((reason, return_data)) => {
            let ghost data = return_data@;
            let ctl = save_return_value(runtime, reason, return_data);
            proof {
                let ml = old(runtime).machine.memory.limit as int;
                let sl = old(runtime).machine.stack.limit as int;
                assert(spec_call_setup(*old(runtime), scheme) matches CallSetup::Proceed(sst, _a)
                    && st =~~= sst);
                assert((state_of(*runtime), verdict_of(ctl)) =~~= spec_save_return_value(
                    st,
                    ml,
                    sl,
                    reason,
                    data,
                ));
            }
            ctl
        },
        Capture::Trap(interrupt) => {
            // The call's status word is pushed by save_return_value when
            // the driver resumes.
            Control::CallInterrupt(interrupt)
        },
    }
}

/// Saving a created address (§4.9): push the address on success, a zero
/// word otherwise; only a fatal child reason ends the parent frame.
pub open spec fn spec_save_created_address(
    st: RtState,
    stack_limit: int,
    reason: ExitReason,
    address: Option<H160>,
) -> (RtState, Verdict) {
    let word = match address {
        Some(a) => address_to_word(a),
        None => u256_zero(),
    };
    let can_push = st.stack.len() < stack_limit;
    match reason {
        ExitReason::Succeed(_) => if can_push {
            (
                RtState { stack: st.stack.push(word), ..st },
                Verdict::Continue,
            )
        } else {
            (st, Verdict::Exit(ExitReason::Error(ExitError::StackOverflow)))
        },
        ExitReason::Revert(_) => if can_push {
            (
                RtState { stack: st.stack.push(u256_zero()), ..st },
                Verdict::Continue,
            )
        } else {
            (st, Verdict::Exit(ExitReason::Error(ExitError::StackOverflow)))
        },
        ExitReason::Error(_) => if can_push {
            (
                RtState { stack: st.stack.push(u256_zero()), ..st },
                Verdict::Continue,
            )
        } else {
            (st, Verdict::Exit(ExitReason::Error(ExitError::StackOverflow)))
        },
        ExitReason::Fatal(e) => if can_push {
            (
                RtState { stack: st.stack.push(u256_zero()), ..st },
                Verdict::Exit(ExitReason::Fatal(e)),
            )
        } else {
            (st, Verdict::Exit(ExitReason::Error(ExitError::StackOverflow)))
        },
        ExitReason::StepLimitReached => (st, Verdict::Exit(ExitReason::StepLimitReached)),
    }
}

/// Save a completed create into the parent frame: called with the
/// reason and address the host computed, either on a synchronous
/// completion or by the driver when it resumes a create trap. The child
/// reason must be terminal.
pub fn save_created_address<H: Handler>(
    runtime: &mut Runtime,
    reason: ExitReason,
    address: Option<H160>,
) -> (r: Control<H>)
    requires
        old(runtime).wf(),
        reason != ExitReason::StepLimitReached,
    ensures
        final(runtime).wf(),
        eval_frame(*old(runtime), *final(runtime)),
        no_slr_exit(r),
        (state_of(*final(runtime)), verdict_of(r)) =~~= spec_save_created_address(
            state_of(*old(runtime)),
            old(runtime).machine.stack.limit as int,
            reason,
            address,
        ),
{
    let create_address = match address {
        Some(a) => a.to_word(),
        None => U256::zero(),
    };
    let ghost expect = spec_save_created_address(
        state_of(*old(runtime)),
        old(runtime).machine.stack.limit as int,
        reason,
        address,
    );
    let ctl = match reason {
        ExitReason::Succeed(_) => {
            match runtime.machine.stack.push(create_address) {
                Ok(()) => Control::Continue,
                Err(e) => Control::Exit(ExitReason::Error(e)),
            }
        },
        ExitReason::Revert(_) => {
            match runtime.machine.stack.push(U256::zero()) {
                Ok(()) => Control::Continue,
                Err(e) => Control::Exit(ExitReason::Error(e)),
            }
        },
        ExitReason::Error(_) => {
            match runtime.machine.stack.push(U256::zero()) {
                Ok(()) => Control::Continue,
                Err(e) => Control::Exit(ExitReason::Error(e)),
            }
        },
        ExitReason::Fatal(e) => {
            match runtime.machine.stack.push(U256::zero()) {
                Ok(()) => Control::Exit(ExitReason::Fatal(e)),
                Err(err) => Control::Exit(ExitReason::Error(err)),
            }
        },
        ExitReason::StepLimitReached => {
            // Excluded by the precondition: a child completion always
            // carries a terminal reason.
            Control::Exit(ExitReason::Fatal(ExitFatal::Other))
        },
    };
    proof {
        assert(state_of(*runtime) =~= expect.0);
    }
    ctl
}

/// Saving a call result (§4.9): pop the out range left by the setup,
/// grow memory over it, install the return data as the new buffer, copy
/// `min(out_len, len(data))` bytes into memory, and push a status word —
/// one only for a success whose copy succeeded, zero otherwise. Only a
/// fatal child reason ends the parent frame; an error child discards the
/// data for memory purposes but the buffer still holds it.
pub open spec fn spec_save_return_value(
    st: RtState,
    mem_limit: int,
    stack_limit: int,
    reason: ExitReason,
    data: Seq<u8>,
) -> (RtState, Verdict) {
    let s = st.stack;
    if s.len() < 2 {
        (
            RtState { stack: popn(s, 2), ..st },
            Verdict::Exit(ExitReason::Error(ExitError::StackUnderflow)),
        )
    } else {
        let out_offset = popv(s, 0);
        let out_len = popv(s, 1);
        let s2 = popn(s, 2);
        if !fits_index(out_offset) || !fits_index(out_len) {
            (
                RtState { stack: s2, ..st },
                Verdict::Exit(ExitReason::Fatal(ExitFatal::NotSupported)),
            )
        } else if resize_fails(mem_limit, out_offset.as_nat() as int, out_len.as_nat() as int) {
            (
                RtState { stack: s2, ..st },
                Verdict::Exit(ExitReason::Error(ExitError::Other)),
            )
        } else {
            let m2 = mem_resized(st.memory, out_offset.as_nat() as int, out_len.as_nat() as int);
            let n = imin(out_len.as_nat() as int, data.len() as int);
            let copy_fails = resize_fails(mem_limit, out_offset.as_nat() as int, n);
            let m3 = if copy_fails {
                m2
            } else {
                mem_copied(m2, out_offset.as_nat() as int, 0, n, data)
            };
            let can_push = s2.len() < stack_limit;
            match reason {
                ExitReason::Succeed(_) => if can_push {
                    if copy_fails {
                        (
                            RtState { stack: s2.push(u256_zero()), memory: m2, buffer: data },
                            Verdict::Continue,
                        )
                    } else {
                        (
                            RtState { stack: s2.push(u256_one()), memory: m3, buffer: data },
                            Verdict::Continue,
                        )
                    }
                } else {
                    (
                        RtState { stack: s2, memory: if copy_fails { m2 } else { m3 }, buffer: data },
                        Verdict::Exit(ExitReason::Error(ExitError::StackOverflow)),
                    )
                },
                ExitReason::Revert(_) => if can_push {
                    (
                        RtState { stack: s2.push(u256_zero()), memory: m3, buffer: data },
                        Verdict::Continue,
                    )
                } else {
                    (
                        RtState { stack: s2, memory: m2, buffer: data },
                        Verdict::Exit(ExitReason::Error(ExitError::StackOverflow)),
                    )
                },
                ExitReason::Error(_) => if can_push {
                    (
                        RtState { stack: s2.push(u256_zero()), memory: m2, buffer: data },
                        Verdict::Continue,
                    )
                } else {
                    (
                        RtState { stack: s2, memory: m2, buffer: data },
                        Verdict::Exit(ExitReason::Error(ExitError::StackOverflow)),
                    )
                },
                ExitReason::Fatal(e) => if can_push {
                    (
                        RtState { stack: s2.push(u256_zero()), memory: m2, buffer: data },
                        Verdict::Exit(ExitReason::Fatal(e)),
                    )
                } else {
                    (
                        RtState { stack: s2, memory: m2, buffer: data },
                        Verdict::Exit(ExitReason::Error(ExitError::StackOverflow)),
                    )
                },
                ExitReason::StepLimitReached => (
                    RtState { stack: s2, memory: m2, buffer: data },
                    Verdict::Exit(ExitReason::StepLimitReached),
                ),
            }
        }
    }
}

/// Return-data replacement: once saving a call result is past the
/// out-range checks, the buffer afterwards holds exactly the bytes the
/// child returned — whatever the child's reason — and the buffer of an
/// aborted save is untouched.
pub proof fn lemma_return_data_replacement(
    st: RtState,
    mem_limit: int,
    stack_limit: int,
    reason: ExitReason,
    data: Seq<u8>,
)
    ensures
        st.stack.len() >= 2 && fits_index(popv(st.stack, 0)) && fits_index(popv(st.stack, 1))
            && !resize_fails(
            mem_limit,
            popv(st.stack, 0).as_nat() as int,
            popv(st.stack, 1).as_nat() as int,
        ) ==> spec_save_return_value(st, mem_limit, stack_limit, reason, data).0.buffer == data,
        st.stack.len() < 2 ==> spec_save_return_value(
            st,
            mem_limit,
            stack_limit,
            reason,
            data,
        ).0.buffer == st.buffer,
{
}

/// Save a completed call into the parent frame: called with the reason
/// and return data the host computed, either on a synchronous completion
/// or by the driver when it resumes a call trap. Pops the out range the
/// setup left on the stack; the child reason must be terminal.
pub fn save_return_value<H: Handler>(
    runtime: &mut Runtime,
    reason: ExitReason,
    return_data: Vec<u8>,
) -> (r: Control<H>)
    requires
        old(runtime).wf(),
        reason != ExitReason::StepLimitReached,
    ensures
        final(runtime).wf(),
        eval_frame(*old(runtime), *final(runtime)),
        no_slr_exit(r),
        (state_of(*final(runtime)), verdict_of(r)) =~~= spec_save_return_value(
            state_of(*old(runtime)),
            old(runtime).machine.memory.limit as int,
            old(runtime).machine.stack.limit as int,
            reason,
            return_data@,
        ),
{
    let ghost expect = spec_save_return_value(
        state_of(*old(runtime)),
        old(runtime).machine.memory.limit as int,
        old(runtime).machine.stack.limit as int,
        reason,
        return_data@,
    );
    let out_offset = match runtime.machine.stack.pop() {
        Ok(v) => v,
        Err(e) => {
            proof {
                assert(state_of(*runtime) =~= expect.0);
            }
            return Control::Exit(ExitReason::Error(e));
        },
    };
    let out_len = match runtime.machine.stack.pop() {
        Ok(v) => v,
        Err(e) => {
            proof {
                assert(state_of(*runtime) =~= expect.0);
            }
            return Control::Exit(ExitReason::Error(e));
        },
    };
    if !out_offset.fits_usize() || !out_len.fits_usize() {
        proof {
            assert(state_of(*runtime) =~= expect.0);
        }
        return Control::Exit(ExitReason::Fatal(ExitFatal::NotSupported));
    }
    let out_offset = out_offset.as_usize();
    let out_len = out_len.as_usize();
    match runtime.machine.memory.resize_offset(out_offset, out_len) {
        Ok(()) => {},
        Err(e) => {
            proof {
                assert(state_of(*runtime) =~= expect.0);
            }
            return Control::Exit(ExitReason::Error(e));
        },
    }
    runtime.return_data_buffer = return_data;
    let target_len = if out_len <= runtime.return_data_buffer.len() {
        out_len
    } else {
        runtime.return_data_buffer.len()
    };
    let ctl = match reason {
        ExitReason::Succeed(_) => {
            match runtime.machine.memory.copy_large(
                out_offset,
                0,
                target_len,
                runtime.return_data_buffer.as_slice(),
            ) {
                Ok(()) => {
                    match runtime.machine.stack.push(U256::one()) {
                        Ok(()) => Control::Continue,
                        Err(e) => Control::Exit(ExitReason::Error(e)),
                    }
                },
                Err(_) => {
                    match runtime.machine.stack.push(U256::zero()) {
                        Ok(()) => Control::Continue,
                        Err(e) => Control::Exit(ExitReason::Error(e)),
                    }
                },
            }
        },
        ExitReason::Revert(_) => {
            match runtime.machine.stack.push(U256::zero()) {
                Ok(()) => {
                    let _ = runtime.machine.memory.copy_large(
                        out_offset,
                        0,
                        target_len,
                        runtime.return_data_buffer.as_slice(),
                    );
                    Control::Continue
                },
                Err(e) => Control::Exit(ExitReason::Error(e)),
            }
        },
        ExitReason::Error(_) => {
            match runtime.machine.stack.push(U256::zero()) {
                Ok(()) => Control::Continue,
                Err(e) => Control::Exit(ExitReason::Error(e)),
            }
        },
        ExitReason::Fatal(e) => {
            match runtime.machine.stack.push(U256::zero()) {
                Ok(()) => Control::Exit(ExitReason::Fatal(e)),
                Err(err) => Control::Exit(ExitReason::Error(err)),
            }
        },
        ExitReason::StepLimitReached => {
            // Excluded by the precondition: a child completion always
            // carries a terminal reason.
            Control::Exit(ExitReason::Fatal(ExitFatal::Other))
        },
    };
    proof {
        assert(state_of(*runtime) =~= expect.0);
    }
    ctl
}

} // verus!
