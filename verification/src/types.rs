//! Core value types of the runtime: 256-bit machine words, 160-bit account
//! addresses, frame contexts, call/create schemes and the exit taxonomy.

use vstd::prelude::*;

verus! {

/// An unsigned 256-bit machine word, stored as four 64-bit limbs with
/// `limb0` the least significant. Stack cells, storage keys and values,
/// hashes and salts are all words of this type; where a 32-byte datum is
/// meant, the word is its big-endian value.
#[derive(Clone, Copy, Debug, PartialEq, Eq, Structural)]
pub struct U256 {
    pub limb0: u64,
    pub limb1: u64,
    pub limb2: u64,
    pub limb3: u64,
}

impl U256 {
    /// The numeric value of the word.
    pub open spec fn as_nat(self) -> nat {
        (self.limb0
            + self.limb1 * 0x10000000000000000
            + self.limb2 * 0x100000000000000000000000000000000
            + self.limb3 * 0x1000000000000000000000000000000000000000000000000) as nat
    }

    pub fn zero() -> (r: U256)
        ensures
            r.as_nat() == 0,
            r == (U256 { limb0: 0, limb1: 0, limb2: 0, limb3: 0 }),
    {
        U256 { limb0: 0, limb1: 0, limb2: 0, limb3: 0 }
    }

    pub fn one() -> (r: U256)
        ensures
            r.as_nat() == 1,
            r == (U256 { limb0: 1, limb1: 0, limb2: 0, limb3: 0 }),
    {
        U256 { limb0: 1, limb1: 0, limb2: 0, limb3: 0 }
    }

    pub fn from_u64(v: u64) -> (r: U256)
        ensures
            r.as_nat() == v,
            r == (U256 { limb0: v, limb1: 0, limb2: 0, limb3: 0 }),
    {
        U256 { limb0: v, limb1: 0, limb2: 0, limb3: 0 }
    }

    pub fn from_usize(v: usize) -> (r: U256)
        ensures
            r.as_nat() == v,
    {
        U256 { limb0: v as u64, limb1: 0, limb2: 0, limb3: 0 }
    }

    /// Whether the value is representable in 64 bits.
    pub open spec fn spec_fits_u64(self) -> bool {
        self.as_nat() <= u64::MAX
    }

    pub fn fits_u64(&self) -> (r: bool)
        ensures
            r == self.spec_fits_u64(),
    {
        self.limb1 == 0 && self.limb2 == 0 && self.limb3 == 0
    }

    pub fn as_u64(&self) -> (r: u64)
        requires
            self.spec_fits_u64(),
        ensures
            r == self.as_nat(),
    {
        self.limb0
    }

    /// Whether the value is representable as a native index.
    pub open spec fn spec_fits_usize(self) -> bool {
        self.as_nat() <= usize::MAX
    }

    pub fn fits_usize(&self) -> (r: bool)
        ensures
            r == self.spec_fits_usize(),
    {
        self.limb1 == 0 && self.limb2 == 0 && self.limb3 == 0 && self.limb0 <= usize::MAX as u64
    }

    pub fn as_usize(&self) -> (r: usize)
        requires
            self.spec_fits_usize(),
        ensures
            r == self.as_nat(),
    {
        self.limb0 as usize
    }
}

/// Whether a 256-bit operand fits the native index type.
pub open spec fn fits_index(v: U256) -> bool {
    v.as_nat() <= usize::MAX
}

/// A 160-bit account address, stored as three limbs with `lo` the least
/// significant 64 bits; numerically it is the big-endian value of the
/// 20 address bytes.
#[derive(Clone, Copy, Debug, PartialEq, Eq, Structural)]
pub struct H160 {
    pub lo: u64,
    pub mid: u64,
    pub hi: u32,
}

/// The address a word stands for: its low 160 bits.
pub open spec fn word_to_address(w: U256) -> H160 {
    H160 { lo: w.limb0, mid: w.limb1, hi: (w.limb2 % 0x100000000) as u32 }
}

/// The 32-byte word an address widens to: the address zero-extended.
pub open spec fn address_to_word(a: H160) -> U256 {
    U256 { limb0: a.lo, limb1: a.mid, limb2: a.hi as u64, limb3: 0 }
}

impl H160 {
    /// The numeric value of the address.
    pub open spec fn as_nat(self) -> nat {
        (self.lo + self.mid * 0x10000000000000000
            + self.hi * 0x100000000000000000000000000000000) as nat
    }

    pub fn zero() -> (r: H160)
        ensures
            r.as_nat() == 0,
            r == (H160 { lo: 0, mid: 0, hi: 0 }),
    {
        H160 { lo: 0, mid: 0, hi: 0 }
    }

    /// Truncate a word to the address held in its low 20 bytes.
    pub fn from_word(w: U256) -> (r: H160)
        ensures
            r == word_to_address(w),
    {
        H160 { lo: w.limb0, mid: w.limb1, hi: (w.limb2 % 0x100000000) as u32 }
    }

    /// Zero-extend the address to a full 32-byte word.
    pub fn to_word(self) -> (r: U256)
        ensures
            r == address_to_word(self),
            r.as_nat() == self.as_nat(),
    {
        U256 { limb0: self.lo, limb1: self.mid, limb2: self.hi as u64, limb3: 0 }
    }
}

/// The frame-constant identity of an execution: the executing account,
/// its immediate invoker, and the value CALLVALUE reports.
#[derive(Clone, Copy, Debug, PartialEq, Eq, Structural)]
pub struct Context {
    /// The currently executing account.
    pub address: H160,
    /// The immediate invoker.
    pub caller: H160,
    /// The value observed by CALLVALUE; under delegate semantics it may
    /// differ from the value actually transferred.
    pub apparent_value: U256,
}

/// A balance movement requested of the host alongside a nested call.
#[derive(Clone, Copy, Debug, PartialEq, Eq, Structural)]
pub struct Transfer {
    pub source: H160,
    pub target: H160,
    pub value: U256,
}

/// How the address of a created contract is derived.
#[derive(Clone, Copy, Debug, PartialEq, Eq, Structural)]
pub enum CreateScheme {
    /// Address derived from the creator and its nonce.
    Legacy { caller: H160 },
    /// Address derived from the creator, a salt, and the hash of the
    /// init code.
    Create2 { caller: H160, code_hash: U256, salt: U256 },
}

/// The four flavours of nested message call.
#[derive(Clone, Copy, Debug, PartialEq, Eq, Structural)]
pub enum CallScheme {
    Call,
    CallCode,
    DelegateCall,
    StaticCall,
}

/// Discriminated result of running either the machine or the host's
/// nested executor: a finished execution, or a trap carrying an
/// interrupt for the driver.
#[derive(Debug)]
pub enum Capture<E, T> {
    Exit(E),
    Trap(T),
}

/// Normal terminations.
#[derive(Clone, Copy, Debug, PartialEq, Eq, Structural)]
pub enum ExitSucceed {
    Stopped,
    Returned,
    Suicided,
}

/// Reverted terminations: the frame is undone but its return data is kept.
#[derive(Clone, Copy, Debug, PartialEq, Eq, Structural)]
pub enum ExitRevert {
    Reverted,
}

/// Protocol-level failures; they terminate the frame and consume its gas.
#[derive(Clone, Copy, Debug, PartialEq, Eq, Structural)]
pub enum ExitError {
    StackUnderflow,
    StackOverflow,
    InvalidJump,
    OutOfOffset,
    OutOfGas,
    PCUnderflow,
    CreateCollision,
    CreateContractLimit,
    InvalidCode,
    CallTooDeep,
    Other,
}

/// Unrecoverable failures: they end not just the frame but the whole
/// execution.
#[derive(Clone, Copy, Debug, PartialEq, Eq, Structural)]
pub enum ExitFatal {
    NotSupported,
    UnhandledInterrupt,
    Other,
}

/// Why an execution ended. `StepLimitReached` is the one non-terminal
/// reason: the budget ran out and the frame may be resumed.
#[derive(Clone, Copy, Debug, PartialEq, Eq, Structural)]
pub enum ExitReason {
    Succeed(ExitSucceed),
    Revert(ExitRevert),
    Error(ExitError),
    Fatal(ExitFatal),
    StepLimitReached,
}

} // verus!
