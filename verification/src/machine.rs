//! The low-level bytecode machine: code, program counter, operand stack
//! and memory, with a budgeted step loop.
//!
//! The machine interprets the core stack opcodes (STOP, POP, CODECOPY and
//! the PUSH family) and traps to its caller on every other opcode. Its
//! run loop is specified by a small-step relation: `spec_step` gives each
//! opcode's exact semantics under the validator's answer, and
//! `machine_run_rel` composes it over the budget, so what a run returns
//! and leaves behind is a function of the starting state and the
//! validator's answers. The budget accounting is pinned besides — a ghost
//! counter of retired opcodes grows by exactly the steps reported.

use vstd::prelude::*;

use crate::handler::Handler;
use crate::memory::{mem_copied, mem_resized, resize_fails, Memory};
use crate::opcode;
use crate::stack::{popn, popv, Stack};
use crate::types::{fits_index, Capture, Context, ExitError, ExitFatal, ExitReason, ExitSucceed,
    U256};

verus! {

/// The big-endian value of a byte sequence.
pub open spec fn be_nat(s: Seq<u8>) -> nat
    decreases s.len(),
{
    if s.len() == 0 {
        0
    } else {
        (be_nat(s.drop_last()) * 256 + s.last()) as nat
    }
}

/// 256 to the power `n`.
pub open spec fn pow256(n: nat) -> nat
    decreases n,
{
    if n == 0 {
        1nat
    } else {
        256 * pow256((n - 1) as nat)
    }
}

/// Splitting a byte sequence splits its value: the head weighs a factor
/// of 256 for every byte of the tail.
pub proof fn lemma_be_nat_split(s: Seq<u8>, k: int)
    requires
        0 <= k <= s.len(),
    ensures
        be_nat(s) == be_nat(s.subrange(0, k)) * pow256((s.len() - k) as nat) + be_nat(
            s.subrange(k, s.len() as int),
        ),
    decreases s.len() - k,
{
    if k == s.len() {
        assert(s.subrange(0, k) =~= s);
        assert(be_nat(s.subrange(k, s.len() as int)) == 0);
        assert(pow256((s.len() - k) as nat) == 1);
        assert(be_nat(s) == be_nat(s.subrange(0, k)) * pow256((s.len() - k) as nat) + be_nat(
            s.subrange(k, s.len() as int),
        ));
    } else {
        let s1 = s.drop_last();
        lemma_be_nat_split(s1, k);
        assert(s1.subrange(0, k) =~= s.subrange(0, k));
        assert(s1.subrange(k, s1.len() as int) =~= s.subrange(k, s.len() as int).drop_last());
        let head = be_nat(s.subrange(0, k));
        let p = pow256((s1.len() - k) as nat);
        let x = be_nat(s.subrange(k, s.len() as int).drop_last());
        let b = s.last();
        assert(be_nat(s) == (head * p + x) * 256 + b);
        assert(s.last() == s.subrange(k, s.len() as int).last());
        assert(be_nat(s.subrange(k, s.len() as int)) == x * 256 + b);
        assert(pow256((s.len() - k) as nat) == 256 * pow256((s.len() - k - 1) as nat));
        assert((head * p + x) * 256 + b == head * (256 * p) + (x * 256 + b)) by (nonlinear_arith);
        assert(256 * p == pow256((s.len() - k) as nat));
        assert(be_nat(s) == head * pow256((s.len() - k) as nat) + be_nat(
            s.subrange(k, s.len() as int),
        ));
    }
}

/// Read the big-endian value of `bytes[start..end]`, at most eight bytes.
fn u64_from_be_slice(bytes: &[u8], start: usize, end: usize) -> (r: u64)
    requires
        start <= end <= bytes@.len(),
        end - start <= 8,
    ensures
        r == be_nat(bytes@.subrange(start as int, end as int)),
{
    proof {
        reveal_with_fuel(pow256, 9);
    }
    let mut r: u64 = 0;
    let mut i: usize = start;
    while i < end
        invariant
            start <= i <= end <= bytes@.len(),
            end - start <= 8,
            r == be_nat(bytes@.subrange(start as int, i as int)),
            r < pow256((i - start) as nat),
            pow256(8) == 0x10000000000000000,
        decreases end - i,
    {
        let ghost prefix = bytes@.subrange(start as int, i as int);
        let b = bytes[i];
        proof {
            assert(bytes@.subrange(start as int, i + 1).drop_last() =~= prefix);
            assert(pow256(((i + 1) - start) as nat) == 256 * pow256((i - start) as nat));
            lemma_pow256_monotone((i - start) as nat, 7nat);
        }
        r = r * 256 + (b as u64);
        i += 1;
    }
    proof {
        assert(bytes@.subrange(start as int, end as int) =~= bytes@.subrange(
            start as int,
            i as int,
        ));
    }
    r
}

/// A byte sequence's value is bounded by 256 to its length.
pub proof fn lemma_be_nat_bound(s: Seq<u8>)
    ensures
        be_nat(s) < pow256(s.len()),
    decreases s.len(),
{
    if s.len() > 0 {
        lemma_be_nat_bound(s.drop_last());
    }
}

proof fn lemma_mul_zero(x: nat)
    ensures
        0 * x == 0,
{
    assert(0 * x == 0) by (nonlinear_arith);
}

proof fn lemma_pow256_monotone(a: nat, b: nat)
    requires
        a <= b,
    ensures
        pow256(a) <= pow256(b),
    decreases b,
{
    if a < b {
        lemma_pow256_monotone(a, (b - 1) as nat);
        assert(pow256(b) == 256 * pow256((b - 1) as nat));
    }
}

/// The word a big-endian byte sequence of at most thirty-two bytes
/// denotes, by limbs: the last eight bytes are the least significant
/// limb, and so on upward.
pub open spec fn word_of_be(s: Seq<u8>) -> U256 {
    let n = s.len() as int;
    let c = if n > 8 { n - 8 } else { 0 };
    let b = if n > 16 { n - 16 } else { 0 };
    let a = if n > 24 { n - 24 } else { 0 };
    U256 {
        limb0: be_nat(s.subrange(c, n)) as u64,
        limb1: be_nat(s.subrange(b, c)) as u64,
        limb2: be_nat(s.subrange(a, b)) as u64,
        limb3: be_nat(s.subrange(0, a)) as u64,
    }
}

/// Read the big-endian value of at most thirty-two bytes as a word.
pub fn u256_from_be_bytes(bytes: &[u8]) -> (r: U256)
    requires
        bytes@.len() <= 32,
    ensures
        r.as_nat() == be_nat(bytes@),
        r == word_of_be(bytes@),
{
    let n = bytes.len();
    let c: usize = if n > 8 { n - 8 } else { 0 };
    let b: usize = if n > 16 { n - 16 } else { 0 };
    let a: usize = if n > 24 { n - 24 } else { 0 };
    let limb0 = u64_from_be_slice(bytes, c, n);
    let limb1 = u64_from_be_slice(bytes, b, c);
    let limb2 = u64_from_be_slice(bytes, a, b);
    let limb3 = u64_from_be_slice(bytes, 0, a);
    let r = U256 { limb0, limb1, limb2, limb3 };
    proof {
        reveal_with_fuel(pow256, 9);
        let s = bytes@;
        lemma_be_nat_bound(s.subrange(c as int, n as int));
        lemma_be_nat_bound(s.subrange(b as int, c as int));
        lemma_be_nat_bound(s.subrange(a as int, b as int));
        lemma_be_nat_bound(s.subrange(0, a as int));
        lemma_pow256_monotone(s.subrange(c as int, n as int).len(), 8nat);
        lemma_pow256_monotone(s.subrange(b as int, c as int).len(), 8nat);
        lemma_pow256_monotone(s.subrange(a as int, b as int).len(), 8nat);
        lemma_pow256_monotone(s.subrange(0, a as int).len(), 8nat);
        assert(r == word_of_be(s));
        lemma_be_nat_split(s, c as int);
        lemma_be_nat_split(s.subrange(0, c as int), b as int);
        lemma_be_nat_split(s.subrange(0, b as int), a as int);
        assert(s.subrange(0, c as int).subrange(0, b as int) =~= s.subrange(0, b as int));
        assert(s.subrange(0, c as int).subrange(b as int, c as int) =~= s.subrange(
            b as int,
            c as int,
        ));
        assert(s.subrange(0, b as int).subrange(0, a as int) =~= s.subrange(0, a as int));
        assert(s.subrange(0, b as int).subrange(a as int, b as int) =~= s.subrange(
            a as int,
            b as int,
        ));
        assert(be_nat(s) == be_nat(s.subrange(0, c as int)) * pow256((n - c) as nat) + limb0);
        assert(be_nat(s.subrange(0, c as int)) == be_nat(s.subrange(0, b as int)) * pow256(
            (c - b) as nat,
        ) + limb1);
        assert(be_nat(s.subrange(0, b as int)) == limb3 * pow256((b - a) as nat) + limb2);
        if n <= 8 {
            assert(be_nat(s.subrange(0, 0)) == 0);
            lemma_mul_zero(pow256((n - c) as nat));
            assert(be_nat(s) == limb0);
        } else if n <= 16 {
            assert(be_nat(s.subrange(0, 0)) == 0);
            lemma_mul_zero(pow256((c - b) as nat));
            assert(be_nat(s.subrange(0, c as int)) == limb1);
            assert(be_nat(s) == limb1 * 0x10000000000000000 + limb0);
        } else if n <= 24 {
            assert(be_nat(s.subrange(0, 0)) == 0);
            lemma_mul_zero(pow256((b - a) as nat));
            assert(be_nat(s.subrange(0, b as int)) == limb2);
            assert(be_nat(s.subrange(0, c as int)) == limb2 * 0x10000000000000000 + limb1);
            assert(be_nat(s) == (limb2 * 0x10000000000000000 + limb1) * 0x10000000000000000
                + limb0);
            assert((limb2 * 0x10000000000000000 + limb1) * 0x10000000000000000 + limb0 == limb2
                * 0x100000000000000000000000000000000 + limb1 * 0x10000000000000000
                + limb0) by (nonlinear_arith);
        } else {
            assert(be_nat(s.subrange(0, b as int)) == limb3 * 0x10000000000000000 + limb2);
            assert(be_nat(s.subrange(0, c as int)) == (limb3 * 0x10000000000000000 + limb2)
                * 0x10000000000000000 + limb1);
            assert(be_nat(s) == ((limb3 * 0x10000000000000000 + limb2) * 0x10000000000000000
                + limb1) * 0x10000000000000000 + limb0);
            assert(((limb3 * 0x10000000000000000 + limb2) * 0x10000000000000000 + limb1)
                * 0x10000000000000000 + limb0 == limb3
                * 0x1000000000000000000000000000000000000000000000000 + limb2
                * 0x100000000000000000000000000000000 + limb1 * 0x10000000000000000
                + limb0) by (nonlinear_arith);
        }
    }
    r
}

/// Whether the machine interprets an opcode itself; every other byte
/// traps to the caller.
pub open spec fn is_core_opcode(op: u8) -> bool {
    op == opcode::STOP || op == opcode::POP || op == opcode::CODECOPY || (opcode::PUSH1 <= op
        && op <= opcode::PUSH32)
}

/// The machine's state as the step relation sees it: everything but the
/// ghost step counter.
#[verifier::ext_equal]
pub struct MachineState {
    pub code: Seq<u8>,
    pub valids: Seq<u8>,
    pub data: Seq<u8>,
    pub position: nat,
    pub stack: Seq<U256>,
    pub stack_limit: nat,
    pub memory: Seq<u8>,
    pub memory_limit: nat,
    pub exit_reason: Option<ExitReason>,
}

/// The state a machine holds.
pub open spec fn mstate_of(m: Machine) -> MachineState {
    MachineState {
        code: m.code@,
        valids: m.valids@,
        data: m.data@,
        position: m.position as nat,
        stack: m.stack@,
        stack_limit: m.stack.limit as nat,
        memory: m.memory@,
        memory_limit: m.memory.limit as nat,
        exit_reason: m.exit_reason,
    }
}

/// CODECOPY's own effects: pop destination, code offset and length, grow
/// memory over the destination, and copy the code with zero padding —
/// or the reason it failed, the operands consumed and memory untouched.
/// The caller records the failure, or advances past the opcode.
pub open spec fn spec_step_codecopy(s: MachineState) -> (MachineState, Option<ExitReason>) {
    if s.stack.len() < 3 {
        (
            MachineState { stack: popn(s.stack, 3), ..s },
            Some(ExitReason::Error(ExitError::StackUnderflow)),
        )
    } else {
        let memory_offset = popv(s.stack, 0);
        let code_offset = popv(s.stack, 1);
        let len = popv(s.stack, 2);
        let s3 = popn(s.stack, 3);
        if !fits_index(memory_offset) || !fits_index(code_offset) || !fits_index(len) {
            (
                MachineState { stack: s3, ..s },
                Some(ExitReason::Fatal(ExitFatal::NotSupported)),
            )
        } else if resize_fails(
            s.memory_limit as int,
            memory_offset.as_nat() as int,
            len.as_nat() as int,
        ) {
            (MachineState { stack: s3, ..s }, Some(ExitReason::Error(ExitError::Other)))
        } else {
            let m2 = mem_resized(s.memory, memory_offset.as_nat() as int, len.as_nat() as int);
            (
                MachineState {
                    stack: s3,
                    memory: mem_copied(
                        m2,
                        memory_offset.as_nat() as int,
                        code_offset.as_nat() as int,
                        len.as_nat() as int,
                        s.code,
                    ),
                    ..s
                },
                None,
            )
        }
    }
}

/// One machine step from a live frame, given the validator's answer —
/// the successor state, and the capture that ends the run if this step
/// ends it. Running off the end of the code stops; a rejected opcode
/// exits with the validator's error before any effect; STOP, POP,
/// CODECOPY and the PUSH family are interpreted; every other byte is
/// retired and trapped to the caller.
pub open spec fn spec_step(s: MachineState, v: Result<(), ExitError>) -> (
    MachineState,
    Option<Capture<ExitReason, u8>>,
) {
    if s.position >= s.code.len() {
        let reason = ExitReason::Succeed(ExitSucceed::Stopped);
        (
            MachineState { exit_reason: Some(reason), ..s },
            Some(Capture::Exit(reason)),
        )
    } else {
        let op = s.code[s.position as int];
        match v {
            Err(e) => {
                let reason = ExitReason::Error(e);
                (
                    MachineState { exit_reason: Some(reason), ..s },
                    Some(Capture::Exit(reason)),
                )
            },
            Ok(_) => {
                if op == opcode::STOP {
                    let reason = ExitReason::Succeed(ExitSucceed::Stopped);
                    (
                        MachineState { exit_reason: Some(reason), ..s },
                        Some(Capture::Exit(reason)),
                    )
                } else if op == opcode::POP {
                    if s.stack.len() == 0 {
                        let reason = ExitReason::Error(ExitError::StackUnderflow);
                        (
                            MachineState { exit_reason: Some(reason), ..s },
                            Some(Capture::Exit(reason)),
                        )
                    } else {
                        (
                            MachineState {
                                stack: s.stack.drop_last(),
                                position: s.position + 1,
                                ..s
                            },
                            None,
                        )
                    }
                } else if op == opcode::CODECOPY {
                    let stepped = spec_step_codecopy(s);
                    match stepped.1 {
                        Some(reason) => (
                            MachineState { exit_reason: Some(reason), ..stepped.0 },
                            Some(Capture::Exit(reason)),
                        ),
                        None => (
                            MachineState { position: s.position + 1, ..stepped.0 },
                            None,
                        ),
                    }
                } else if opcode::PUSH1 <= op && op <= opcode::PUSH32 {
                    let n = op - opcode::PUSH1 + 1;
                    let imm = Seq::new(
                        n as nat,
                        |i: int|
                            if s.position + 1 + i < s.code.len() {
                                s.code[s.position as int + 1 + i]
                            } else {
                                0u8
                            },
                    );
                    if s.stack.len() >= s.stack_limit {
                        let reason = ExitReason::Error(ExitError::StackOverflow);
                        (
                            MachineState { exit_reason: Some(reason), ..s },
                            Some(Capture::Exit(reason)),
                        )
                    } else {
                        (
                            MachineState {
                                stack: s.stack.push(word_of_be(imm)),
                                position: (s.position + 1 + n) as nat,
                                ..s
                            },
                            None,
                        )
                    }
                } else {
                    (
                        MachineState { position: s.position + 1, ..s },
                        Some(Capture::Trap(op)),
                    )
                }
            },
        }
    }
}

/// The machine's run loop as a relation: from `s0` with `budget` steps
/// left, consuming one validator verdict per fetched opcode, the run
/// ends in state `s1` with capture `c`. A recorded exit comes straight
/// back; an exhausted budget yields the step-limit marker; otherwise one
/// step is taken and the rest of the budget runs from its successor.
pub open spec fn machine_run_rel(
    s0: MachineState,
    budget: int,
    s1: MachineState,
    c: Capture<ExitReason, u8>,
    vs: Seq<Result<(), ExitError>>,
) -> bool
    decreases budget,
{
    match s0.exit_reason {
        Some(e) => s1 == s0 && c == Capture::<ExitReason, u8>::Exit(e) && vs.len() == 0,
        None => if budget <= 0 {
            s1 == s0 && c == Capture::<ExitReason, u8>::Exit(ExitReason::StepLimitReached)
                && vs.len() == 0
        } else if vs.len() == 0 {
            false
        } else {
            let stepped = spec_step(s0, vs[0]);
            match stepped.1 {
                Some(cap) => s1 == stepped.0 && c == cap && vs.len() == 1,
                None => machine_run_rel(stepped.0, budget - 1, s1, c, vs.drop_first()),
            }
        },
    }
}

/// Taking one non-terminal step extends a run: whatever the rest of the
/// budget reaches from the successor, the whole budget reaches from the
/// start, with that step's verdict spliced into the trace.
proof fn lemma_rel_step_compose(
    s_begin: MachineState,
    total: int,
    vs: Seq<Result<(), ExitError>>,
    s_mid: MachineState,
    rem: int,
    v: Result<(), ExitError>,
    s_next: MachineState,
)
    requires
        0 < rem <= total,
        s_mid.exit_reason is None,
        spec_step(s_mid, v).0 == s_next,
        spec_step(s_mid, v).1 is None,
        forall|s_end: MachineState, c: Capture<ExitReason, u8>, tail: Seq<Result<(), ExitError>>|
            #[trigger] machine_run_rel(s_mid, rem, s_end, c, tail) ==> machine_run_rel(
                s_begin,
                total,
                s_end,
                c,
                vs + tail,
            ),
    ensures
        forall|s_end: MachineState, c: Capture<ExitReason, u8>, tail: Seq<Result<(), ExitError>>|
            #[trigger] machine_run_rel(s_next, rem - 1, s_end, c, tail) ==> machine_run_rel(
                s_begin,
                total,
                s_end,
                c,
                (vs + seq![v]) + tail,
            ),
{
    assert forall|
        s_end: MachineState,
        c: Capture<ExitReason, u8>,
        tail: Seq<Result<(), ExitError>>,
    |
        #[trigger] machine_run_rel(s_next, rem - 1, s_end, c, tail) implies machine_run_rel(
        s_begin,
        total,
        s_end,
        c,
        (vs + seq![v]) + tail,
    ) by {
        let spliced = seq![v] + tail;
        assert(spliced.len() > 0);
        assert(spliced[0] == v);
        assert(spliced.drop_first() =~= tail);
        assert(machine_run_rel(s_mid, rem, s_end, c, spliced));
        assert(vs + spliced =~= (vs + seq![v]) + tail);
    }
}

/// The lower-level bytecode interpreter owning code, program counter,
/// operand stack and memory. `retired` counts every opcode it has
/// retired, the trapping system opcodes included.
pub struct Machine {
    pub code: Vec<u8>,
    pub valids: Vec<u8>,
    pub data: Vec<u8>,
    pub position: usize,
    pub stack: Stack,
    pub memory: Memory,
    pub exit_reason: Option<ExitReason>,
    pub retired: Ghost<nat>,
}

impl Machine {
    /// Stack and memory within their bounds, and room to decode the
    /// longest instruction without index arithmetic overflowing.
    pub open spec fn wf(&self) -> bool {
        &&& self.stack.wf()
        &&& self.memory.wf()
        &&& self.code@.len() + 33 <= usize::MAX
    }

    /// Create a new machine with the given code, jump-validity bitmap and
    /// input data.
    pub fn new(code: Vec<u8>, valids: Vec<u8>, data: Vec<u8>, stack_limit: usize, memory_limit: usize) -> (r:
        Machine)
        requires
            code@.len() + 33 <= usize::MAX,
        ensures
            r.wf(),
            r.code@ == code@,
            r.valids@ == valids@,
            r.data@ == data@,
            r.position == 0,
            r.stack@ == Seq::<U256>::empty(),
            r.stack.limit == stack_limit,
            r.memory@ == Seq::<u8>::empty(),
            r.memory.limit == memory_limit,
            r.exit_reason is None,
            r.retired@ == 0,
    {
        Machine {
            code,
            valids,
            data,
            position: 0,
            stack: Stack::new(stack_limit),
            memory: Memory::new(memory_limit),
            exit_reason: None,
            retired: Ghost(0nat),
        }
    }

    /// Reference to the operand stack.
    pub fn stack(&self) -> (r: &Stack)
        ensures
            r == &self.stack,
    {
        &self.stack
    }

    /// Reference to the memory.
    pub fn memory(&self) -> (r: &Memory)
        ensures
            r == &self.memory,
    {
        &self.memory
    }

    /// Record a terminal reason: later runs return it immediately.
    pub fn exit(&mut self, reason: ExitReason)
        ensures
            *final(self) == (Machine { exit_reason: Some(reason), ..*old(self) }),
    {
        self.exit_reason = Some(reason);
    }

    /// Run up to `budget` opcodes, validating each with the handler
    /// before it takes any effect. Returns the number of retired opcodes
    /// together with either an exit or a trap on an opcode the machine
    /// does not interpret; the trapped opcode counts as retired and the
    /// position has moved past it. The whole run satisfies
    /// `machine_run_rel`: it is `spec_step` iterated from the starting
    /// state, under the trace of verdicts the validator actually gave,
    /// and an exhausted budget — and nothing else — yields the
    /// step-limit marker, with the full budget consumed.
    pub fn run<H: Handler>(&mut self, budget: u64, handler: &mut H, context: &Context) -> (r: (
        u64,
        Capture<ExitReason, u8>,
    ))
        requires
            old(self).wf(),
        ensures
            final(self).wf(),
            r.0 <= budget,
            final(self).retired@ == old(self).retired@ + r.0,
            final(self).code@ == old(self).code@,
            final(self).valids@ == old(self).valids@,
            final(self).data@ == old(self).data@,
            final(self).stack.limit == old(self).stack.limit,
            final(self).memory.limit == old(self).memory.limit,
            final(self).memory@.len() >= old(self).memory@.len(),
            final(handler).host_log() == old(handler).host_log(),
            old(self).exit_reason matches Some(e) ==> r == (
                0u64,
                Capture::<ExitReason, u8>::Exit(e),
            ) && *final(self) == *old(self),
            r.1 matches Capture::Trap(op) ==> final(self).exit_reason is None && r.0 >= 1
                && !is_core_opcode(op) && final(self).position >= 1
                && op == final(self).code@[final(self).position - 1],
            r.1 matches Capture::Exit(reason) ==> (reason != ExitReason::StepLimitReached
                ==> final(self).exit_reason == Some(reason)),
            (old(self).exit_reason is None && r.1 == Capture::<ExitReason, u8>::Exit(
                ExitReason::StepLimitReached,
            )) ==> r.0 == budget && final(self).exit_reason is None,
            exists|vs: Seq<Result<(), ExitError>>|
                machine_run_rel(
                    mstate_of(*old(self)),
                    budget as int,
                    mstate_of(*final(self)),
                    r.1,
                    vs,
                ),
    {
        if let Some(e) = self.exit_reason {
            proof {
                assert(machine_run_rel(
                    mstate_of(*self),
                    budget as int,
                    mstate_of(*self),
                    Capture::<ExitReason, u8>::Exit(e),
                    Seq::<Result<(), ExitError>>::empty(),
                ));
            }
            return (0, Capture::Exit(e));
        }
        let ghost s0 = mstate_of(*self);
        let ghost mut vs: Seq<Result<(), ExitError>> = Seq::empty();
        let mut steps: u64 = 0;
        proof {
            assert forall|
                s_end: MachineState,
                c: Capture<ExitReason, u8>,
                tail: Seq<Result<(), ExitError>>,
            |
                #[trigger] machine_run_rel(mstate_of(*self), budget - steps, s_end, c, tail)
                    implies machine_run_rel(s0, budget as int, s_end, c, vs + tail) by {
                assert(vs + tail =~= tail);
            }
        }
        while steps < budget
            invariant
                self.wf(),
                steps <= budget,
                self.retired@ == old(self).retired@ + steps,
                self.code@ == old(self).code@,
                self.valids@ == old(self).valids@,
                self.data@ == old(self).data@,
                self.stack.limit == old(self).stack.limit,
                self.memory.limit == old(self).memory.limit,
                self.memory@.len() >= old(self).memory@.len(),
                handler.host_log() == old(handler).host_log(),
                self.exit_reason is None,
                old(self).exit_reason is None,
                s0 == mstate_of(*old(self)),
                forall|
                    s_end: MachineState,
                    c: Capture<ExitReason, u8>,
                    tail: Seq<Result<(), ExitError>>,
                |
                    #[trigger] machine_run_rel(mstate_of(*self), budget - steps, s_end, c, tail)
                        ==> machine_run_rel(s0, budget as int, s_end, c, vs + tail),
            decreases budget - steps,
        {
            let ghost s_iter = mstate_of(*self);
            let ghost rem = budget - steps;
            let pos = self.position;
            if pos >= self.code.len() {
                let reason = ExitReason::Succeed(ExitSucceed::Stopped);
                self.exit_reason = Some(reason);
                proof {
                    let v = Ok::<(), ExitError>(());
                    assert(mstate_of(*self) =~~= spec_step(s_iter, v).0);
                    assert(machine_run_rel(
                        s_iter,
                        rem as int,
                        mstate_of(*self),
                        Capture::<ExitReason, u8>::Exit(reason),
                        seq![v],
                    ));
                }
                return (steps, Capture::Exit(reason));
            }
            let op = self.code[pos];
            match handler.pre_validate(context, op, &self.stack) {
                Ok(()) => {},
                Err(e) => {
                    let reason = ExitReason::Error(e);
                    self.exit_reason = Some(reason);
                    proof {
                        let v = Err::<(), ExitError>(e);
                        assert(mstate_of(*self) =~~= spec_step(s_iter, v).0);
                        assert(machine_run_rel(
                            s_iter,
                            rem as int,
                            mstate_of(*self),
                            Capture::<ExitReason, u8>::Exit(reason),
                            seq![v],
                        ));
                    }
                    return (steps, Capture::Exit(reason));
                },
            }
            let ghost v = Ok::<(), ExitError>(());
            if op == opcode::STOP {
                self.retired = Ghost(self.retired@ + 1);
                let reason = ExitReason::Succeed(ExitSucceed::Stopped);
                self.exit_reason = Some(reason);
                proof {
                    assert(mstate_of(*self) =~~= spec_step(s_iter, v).0);
                    assert(machine_run_rel(
                        s_iter,
                        rem as int,
                        mstate_of(*self),
                        Capture::<ExitReason, u8>::Exit(reason),
                        seq![v],
                    ));
                }
                return (steps + 1, Capture::Exit(reason));
            } else if op == opcode::POP {
                match self.stack.pop() {
                    Ok(_) => {},
                    Err(e) => {
                        let reason = ExitReason::Error(e);
                        self.exit_reason = Some(reason);
                        proof {
                            assert(mstate_of(*self) =~~= spec_step(s_iter, v).0);
                            assert(machine_run_rel(
                                s_iter,
                                rem as int,
                                mstate_of(*self),
                                Capture::<ExitReason, u8>::Exit(reason),
                                seq![v],
                            ));
                        }
                        return (steps, Capture::Exit(reason));
                    },
                }
                self.position = pos + 1;
                self.retired = Ghost(self.retired@ + 1);
                proof {
                    assert(mstate_of(*self) =~~= spec_step(s_iter, v).0);
                    lemma_rel_step_compose(
                        s0,
                        budget as int,
                        vs,
                        s_iter,
                        rem as int,
                        v,
                        mstate_of(*self),
                    );
                    vs = vs + seq![v];
                    assert(rem - 1 == budget - (steps + 1));
                }
                steps += 1;
            } else if op == opcode::CODECOPY {
                match self.step_codecopy() {
                    Ok(()) => {},
                    Err(reason) => {
                        self.exit_reason = Some(reason);
                        proof {
                            assert(mstate_of(*self) =~~= spec_step(s_iter, v).0);
                            assert(machine_run_rel(
                                s_iter,
                                rem as int,
                                mstate_of(*self),
                                Capture::<ExitReason, u8>::Exit(reason),
                                seq![v],
                            ));
                        }
                        return (steps, Capture::Exit(reason));
                    },
                }
                self.position = pos + 1;
                self.retired = Ghost(self.retired@ + 1);
                proof {
                    assert(mstate_of(*self) =~~= spec_step(s_iter, v).0);
                    lemma_rel_step_compose(
                        s0,
                        budget as int,
                        vs,
                        s_iter,
                        rem as int,
                        v,
                        mstate_of(*self),
                    );
                    vs = vs + seq![v];
                    assert(rem - 1 == budget - (steps + 1));
                }
                steps += 1;
            } else if opcode::PUSH1 <= op && op <= opcode::PUSH32 {
                let n = (op - opcode::PUSH1) as usize + 1;
                let mut imm: Vec<u8> = Vec::new();
                let mut j: usize = 0;
                while j < n
                    invariant
                        j <= n,
                        n <= 32,
                        imm@.len() == j,
                        pos + 33 <= usize::MAX,
                        pos < self.code@.len(),
                        forall|k: int|
                            0 <= k < j ==> imm@[k] == (if pos + 1 + k < self.code@.len() {
                                self.code@[pos + 1 + k]
                            } else {
                                0u8
                            }),
                    decreases n - j,
                {
                    let idx = pos + 1 + j;
                    let byte: u8 = if idx < self.code.len() {
                        self.code[idx]
                    } else {
                        0u8
                    };
                    imm.push(byte);
                    j += 1;
                }
                proof {
                    assert(imm@ =~= Seq::new(
                        n as nat,
                        |i: int|
                            if s_iter.position + 1 + i < s_iter.code.len() {
                                s_iter.code[s_iter.position as int + 1 + i]
                            } else {
                                0u8
                            },
                    ));
                }
                let val = u256_from_be_bytes(imm.as_slice());
                match self.stack.push(val) {
                    Ok(()) => {},
                    Err(e) => {
                        let reason = ExitReason::Error(e);
                        self.exit_reason = Some(reason);
                        proof {
                            assert(mstate_of(*self) =~~= spec_step(s_iter, v).0);
                            assert(machine_run_rel(
                                s_iter,
                                rem as int,
                                mstate_of(*self),
                                Capture::<ExitReason, u8>::Exit(reason),
                                seq![v],
                            ));
                        }
                        return (steps, Capture::Exit(reason));
                    },
                }
                self.position = pos + 1 + n;
                self.retired = Ghost(self.retired@ + 1);
                proof {
                    assert(mstate_of(*self) =~~= spec_step(s_iter, v).0);
                    lemma_rel_step_compose(
                        s0,
                        budget as int,
                        vs,
                        s_iter,
                        rem as int,
                        v,
                        mstate_of(*self),
                    );
                    vs = vs + seq![v];
                    assert(rem - 1 == budget - (steps + 1));
                }
                steps += 1;
            } else {
                // An opcode the machine does not interpret: retire it and
                // trap to the caller.
                self.position = pos + 1;
                self.retired = Ghost(self.retired@ + 1);
                proof {
                    assert(mstate_of(*self) =~~= spec_step(s_iter, v).0);
                    assert(machine_run_rel(
                        s_iter,
                        rem as int,
                        mstate_of(*self),
                        Capture::<ExitReason, u8>::Trap(op),
                        seq![v],
                    ));
                }
                return (steps + 1, Capture::Trap(op));
            }
        }
        proof {
            assert(budget - steps == 0);
            assert(machine_run_rel(
                mstate_of(*self),
                budget - steps,
                mstate_of(*self),
                Capture::<ExitReason, u8>::Exit(ExitReason::StepLimitReached),
                Seq::<Result<(), ExitError>>::empty(),
            ));
            assert(vs + Seq::<Result<(), ExitError>>::empty() =~= vs);
            assert(machine_run_rel(
                s0,
                budget as int,
                mstate_of(*self),
                Capture::<ExitReason, u8>::Exit(ExitReason::StepLimitReached),
                vs,
            ));
        }
        (budget, Capture::Exit(ExitReason::StepLimitReached))
    }

    /// Copy the executing code into memory: pop destination, code offset
    /// and length, grow memory over the destination, and copy with zero
    /// padding past the end of the code.
    fn step_codecopy(&mut self) -> (r: Result<(), ExitReason>)
        requires
            old(self).wf(),
        ensures
            final(self).wf(),
            final(self).code@ == old(self).code@,
            final(self).valids@ == old(self).valids@,
            final(self).data@ == old(self).data@,
            final(self).position == old(self).position,
            final(self).retired == old(self).retired,
            final(self).exit_reason == old(self).exit_reason,
            final(self).stack.limit == old(self).stack.limit,
            final(self).memory.limit == old(self).memory.limit,
            final(self).memory@.len() >= old(self).memory@.len(),
            r matches Err(reason) ==> reason is Error || reason is Fatal,
            mstate_of(*final(self)) =~~= spec_step_codecopy(mstate_of(*old(self))).0,
            r matches Ok(_) ==> spec_step_codecopy(mstate_of(*old(self))).1 is None,
            r matches Err(reason) ==> spec_step_codecopy(mstate_of(*old(self))).1 == Some(reason),
    {
        let memory_offset = match self.stack.pop() {
            Ok(v) => v,
            Err(e) => return Err(ExitReason::Error(e)),
        };
        let code_offset = match self.stack.pop() {
            Ok(v) => v,
            Err(e) => return Err(ExitReason::Error(e)),
        };
        let len = match self.stack.pop() {
            Ok(v) => v,
            Err(e) => return Err(ExitReason::Error(e)),
        };
        if !memory_offset.fits_usize() || !code_offset.fits_usize() || !len.fits_usize() {
            return Err(ExitReason::Fatal(ExitFatal::NotSupported));
        }
        let memory_offset = memory_offset.as_usize();
        let code_offset = code_offset.as_usize();
        let len = len.as_usize();
        match self.memory.resize_offset(memory_offset, len) {
            Ok(()) => {},
            Err(e) => return Err(ExitReason::Error(e)),
        }
        match self.memory.copy_large(memory_offset, code_offset, len, self.code.as_slice()) {
            Ok(()) => Ok(()),
            Err(e) => Err(ExitReason::Fatal(e)),
        }
    }
}

} // verus!
