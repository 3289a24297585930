//! The closed set of error kinds an invocation can fail with.
//!
//! Every error is surfaced immediately to the host with no local recovery:
//! any error aborts the whole invocation and no account buffer mutation is
//! kept on a non-success path.

use vstd::prelude::*;

verus! {

/// Everything that can go wrong while decoding, validating or executing an
/// instruction, mapped to a stable numeric code for host-level reporting.
#[derive(Clone, Copy, PartialEq, Eq, Structural, Debug)]
pub enum ErrorKind {
    /// An account buffer's length or discriminator does not match the schema.
    SchemaMismatch,
    /// The instruction tag byte has no matching variant.
    UnknownInstruction,
    /// The bytes after the instruction tag do not match the variant's shape.
    MalformedPayload,
    /// An account that must have signed the invocation has not.
    NotSigner,
    /// An account that would be mutated is not owned by this program.
    NotOwner,
    /// The number of accounts differs from the instruction's required arity.
    WrongAccountCount,
    /// A domain invariant would be broken by the requested transition.
    InvariantViolation,
    /// An arithmetic or logic failure while applying a validated transition.
    ExecutionError,
}

/// The stable numeric code of each error kind.
pub open spec fn spec_error_code(e: ErrorKind) -> u32 {
    match e {
        ErrorKind::SchemaMismatch => 1,
        ErrorKind::UnknownInstruction => 2,
        ErrorKind::MalformedPayload => 3,
        ErrorKind::NotSigner => 4,
        ErrorKind::NotOwner => 5,
        ErrorKind::WrongAccountCount => 6,
        ErrorKind::InvariantViolation => 7,
        ErrorKind::ExecutionError => 8,
    }
}

impl ErrorKind {
    /// The numeric code under which the host reports this error.
    pub fn code(&self) -> (c: u32)
        ensures
            c == spec_error_code(*self),
    {
        match self {
            ErrorKind::SchemaMismatch => 1,
            ErrorKind::UnknownInstruction => 2,
            ErrorKind::MalformedPayload => 3,
            ErrorKind::NotSigner => 4,
            ErrorKind::NotOwner => 5,
            ErrorKind::WrongAccountCount => 6,
            ErrorKind::InvariantViolation => 7,
            ErrorKind::ExecutionError => 8,
        }
    }
}

} // verus!
