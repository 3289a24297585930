//! The execution context: the account handles and program identity of one
//! invocation.
//!
//! The host runtime owns the raw account buffers; the core receives them for
//! the duration of a single synchronous invocation and no reference outlives
//! it. Signer and writability marks are set by the host and trusted by the
//! core; signature verification itself is the host's work.

use vstd::prelude::*;

verus! {

/// One account as the host hands it in: its raw buffer, its owning program
/// identity, and whether its controlling key signed this invocation and
/// whether the host granted write access.
#[derive(Clone, PartialEq, Eq, Debug)]
pub struct AccountHandle {
    /// The raw serialized account state.
    pub data: Vec<u8>,
    /// The identity of the program that owns this account.
    pub owner_program: u64,
    /// Whether this account's controlling key signed the invocation.
    pub is_signer: bool,
    /// Whether the host granted write access to the buffer.
    pub is_writable: bool,
}

/// Everything one invocation works on: the invoking program's identity and
/// the ordered account handles. Assembled once per invocation, passed by
/// reference through validation and execution, discarded at the end.
#[derive(Clone, PartialEq, Eq, Debug)]
pub struct ExecutionContext {
    /// The identity of the program being invoked.
    pub program_id: u64,
    /// The accounts named by the invocation, in host order.
    pub accounts: Vec<AccountHandle>,
}

} // verus!
