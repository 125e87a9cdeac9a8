//! Opcode bytes. The machine interprets the core stack opcodes itself and
//! traps to the system evaluator on every other byte.

use vstd::prelude::*;

verus! {

/// Halt execution.
pub const STOP: u8 = 0x00;

/// Hash a memory slice.
pub const SHA3: u8 = 0x20;

/// Address of the executing account.
pub const ADDRESS: u8 = 0x30;

/// Balance of a given account.
pub const BALANCE: u8 = 0x31;

/// Execution origination address.
pub const ORIGIN: u8 = 0x32;

/// Caller address.
pub const CALLER: u8 = 0x33;

/// Value deposited by the responsible instruction or transaction.
pub const CALLVALUE: u8 = 0x34;

/// Size of the executing code.
pub const CODESIZE: u8 = 0x38;

/// Copy the executing code to memory.
pub const CODECOPY: u8 = 0x39;

/// Price of gas.
pub const GASPRICE: u8 = 0x3a;

/// Size of an account's code.
pub const EXTCODESIZE: u8 = 0x3b;

/// Copy an account's code to memory.
pub const EXTCODECOPY: u8 = 0x3c;

/// Size of the previous call's output.
pub const RETURNDATASIZE: u8 = 0x3d;

/// Copy the previous call's output to memory.
pub const RETURNDATACOPY: u8 = 0x3e;

/// Hash of an account's code.
pub const EXTCODEHASH: u8 = 0x3f;

/// Hash of a recent block.
pub const BLOCKHASH: u8 = 0x40;

/// Beneficiary address of the block.
pub const COINBASE: u8 = 0x41;

/// Timestamp of the block.
pub const TIMESTAMP: u8 = 0x42;

/// Number of the block.
pub const NUMBER: u8 = 0x43;

/// Difficulty of the block (PREVRANDAO).
pub const DIFFICULTY: u8 = 0x44;

/// Gas limit of the block.
pub const GASLIMIT: u8 = 0x45;

/// Identifier of the chain.
pub const CHAINID: u8 = 0x46;

/// Balance of the executing account.
pub const SELFBALANCE: u8 = 0x47;

/// Base fee of the block.
pub const BASEFEE: u8 = 0x48;

/// Drop the top of the stack.
pub const POP: u8 = 0x50;

/// Load a word from storage.
pub const SLOAD: u8 = 0x54;

/// Save a word to storage.
pub const SSTORE: u8 = 0x55;

/// Remaining gas.
pub const GAS: u8 = 0x5a;

/// Load a word from transient storage.
pub const TLOAD: u8 = 0x5c;

/// Save a word to transient storage.
pub const TSTORE: u8 = 0x5d;

/// Push an immediate of one byte; PUSH2..PUSH32 follow contiguously.
pub const PUSH1: u8 = 0x60;

/// Push an immediate of thirty-two bytes.
pub const PUSH32: u8 = 0x7f;

/// Append a log record with no topics; LOG1..LOG4 follow contiguously.
pub const LOG0: u8 = 0xa0;

/// Append a log record with four topics.
pub const LOG4: u8 = 0xa4;

/// Create a new account with associated code.
pub const CREATE: u8 = 0xf0;

/// Message-call into an account.
pub const CALL: u8 = 0xf1;

/// Message-call into this account with another account's code.
pub const CALLCODE: u8 = 0xf2;

/// Like CALLCODE, keeping the caller and the apparent value.
pub const DELEGATECALL: u8 = 0xf4;

/// Create with a salted, deterministic address.
pub const CREATE2: u8 = 0xf5;

/// Static message-call into an account.
pub const STATICCALL: u8 = 0xfa;

/// Halt execution and register the account for deletion.
pub const SUICIDE: u8 = 0xff;

} // verus!
