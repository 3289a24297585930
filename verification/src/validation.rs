//! The validation engine: a pure predicate over the execution context and
//! the decoded instruction, run before any mutation.
//!
//! The rules are applied in order and short-circuit on the first failure, so
//! error reporting is deterministic:
//! 1. the account count matches the instruction's required arity exactly;
//! 2. every account the instruction declares signer-required is marked
//!    signer in the context;
//! 3. every account the instruction will mutate is owned by this program;
//! 4. domain invariants hold of the current decoded state.

use vstd::prelude::*;

use crate::context::ExecutionContext;
use crate::errors::ErrorKind;
use crate::instruction::Instruction;
use crate::schema::decode_record;
use crate::schema::spec_decode_record;

verus! {

/// How many accounts each instruction requires, exactly. Every supported
/// instruction works on the single record account.
pub open spec fn spec_required_accounts(i: Instruction) -> nat {
    match i {
        Instruction::Initialize => 1,
        Instruction::Increment { .. } => 1,
        Instruction::SetFlag { .. } => 1,
    }
}

/// Whether the instruction demands that the record account signed the
/// invocation. Every supported instruction touches authority-held state, so
/// each demands the signature.
pub open spec fn spec_requires_signer(i: Instruction) -> bool {
    match i {
        Instruction::Initialize => true,
        Instruction::Increment { .. } => true,
        Instruction::SetFlag { .. } => true,
    }
}

/// Whether the instruction mutates the record account's buffer.
pub open spec fn spec_mutates_account(i: Instruction) -> bool {
    match i {
        Instruction::Initialize => false,
        Instruction::Increment { .. } => true,
        Instruction::SetFlag { .. } => true,
    }
}

/// The validation verdict, rules in order, first failure reported:
/// account count, then signer, then ownership, then domain invariants
/// checked against the decoded current state.
pub open spec fn spec_validate(ctx: ExecutionContext, i: Instruction) -> Result<(), ErrorKind> {
    if ctx.accounts@.len() != spec_required_accounts(i) {
        Err(ErrorKind::WrongAccountCount)
    } else if spec_requires_signer(i) && !ctx.accounts@[0].is_signer {
        Err(ErrorKind::NotSigner)
    } else if spec_mutates_account(i) && ctx.accounts@[0].owner_program != ctx.program_id {
        Err(ErrorKind::NotOwner)
    } else {
        match i {
            Instruction::Initialize => Ok(()),
            Instruction::Increment { amount } => match spec_decode_record(ctx.accounts@[0].data@) {
                Err(e) => Err(e),
                Ok(rec) => if rec.counter + amount > u64::MAX {
                    Err(ErrorKind::InvariantViolation)
                } else {
                    Ok(())
                },
            },
            Instruction::SetFlag { .. } => match spec_decode_record(ctx.accounts@[0].data@) {
                Err(e) => Err(e),
                Ok(_) => Ok(()),
            },
        }
    }
}

/// Checks the decoded instruction against the context. Purely a predicate:
/// no side effects, and the verdict is exactly [`spec_validate`].
pub fn validate(ctx: &ExecutionContext, i: &Instruction) -> (r: Result<(), ErrorKind>)
    ensures
        r == spec_validate(*ctx, *i),
{
    let n = ctx.accounts.len();
    let required: usize = match i {
        Instruction::Initialize => 1,
        Instruction::Increment { .. } => 1,
        Instruction::SetFlag { .. } => 1,
    };
    if n != required {
        return Err(ErrorKind::WrongAccountCount);
    }
    let account = &ctx.accounts[0];
    let requires_signer = match i {
        Instruction::Initialize => true,
        Instruction::Increment { .. } => true,
        Instruction::SetFlag { .. } => true,
    };
    if requires_signer && !account.is_signer {
        return Err(ErrorKind::NotSigner);
    }
    let mutates = match i {
        Instruction::Initialize => false,
        Instruction::Increment { .. } => true,
        Instruction::SetFlag { .. } => true,
    };
    if mutates && account.owner_program != ctx.program_id {
        return Err(ErrorKind::NotOwner);
    }
    match i {
        Instruction::Initialize => Ok(()),
        Instruction::Increment { amount } => match decode_record(&account.data) {
            Err(e) => Err(e),
            Ok(rec) => {
                if rec.counter > u64::MAX - *amount {
                    Err(ErrorKind::InvariantViolation)
                } else {
                    Ok(())
                }
            },
        },
        Instruction::SetFlag { .. } => match decode_record(&account.data) {
            Err(e) => Err(e),
            Ok(_) => Ok(()),
        },
    }
}

/// Rule order: when the account count is wrong and some account is unsigned,
/// the count failure is the one reported — the count rule runs first.
pub proof fn lemma_count_checked_before_signer(ctx: ExecutionContext, i: Instruction)
    requires
        ctx.accounts@.len() != spec_required_accounts(i),
        exists|k: int| 0 <= k < ctx.accounts@.len() && !(#[trigger] ctx.accounts@[k]).is_signer,
    ensures
        spec_validate(ctx, i) == Err::<(), ErrorKind>(ErrorKind::WrongAccountCount),
{
}

} // verus!
