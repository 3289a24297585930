//! An account-based ledger program core: it validates and applies a state
//! transition atomically, enforcing ownership, signer, and schema invariants
//! on externally supplied account data.
//!
//! The host runtime hands an invocation to [`dispatch::dispatch`] as a program
//! identity, an ordered list of account handles, and an opaque instruction
//! byte buffer. The core decodes the instruction, validates it against the
//! accounts, executes it, and either writes every new account image back or
//! reports the first error and leaves every buffer untouched.

pub mod bytes;
pub mod context;
pub mod dispatch;
pub mod errors;
pub mod execution;
pub mod instruction;
pub mod schema;
pub mod validation;
