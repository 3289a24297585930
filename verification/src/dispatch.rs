//! The entry dispatcher: routes one invocation through decode, validate and
//! execute, and commits the new account images only on full success.
//!
//! The pipeline is strictly linear — Decoding, then Validating, then
//! Executing — with no retries and no loops. The first error aborts the
//! invocation, is surfaced unchanged to the host, and leaves every account
//! buffer exactly as it was: the dispatcher never signals success after an
//! internal failure and never keeps a partial write.

use vstd::prelude::*;

use crate::context::AccountHandle;
use crate::context::ExecutionContext;
use crate::errors::ErrorKind;
use crate::execution::execute;
use crate::execution::spec_execute;
use crate::instruction::decode_instruction;
use crate::instruction::spec_decode_instruction;
use crate::instruction::Instruction;
use crate::schema::lemma_record_round_trip;
use crate::schema::spec_decode_record;
use crate::schema::Record;
use crate::validation::spec_mutates_account;
use crate::validation::spec_validate;
use crate::validation::validate;

verus! {

/// The outcome one invocation must have: the first error of
/// decode → validate → execute, or the new byte image of every account.
pub open spec fn spec_dispatch(ctx: ExecutionContext, data: Seq<u8>) -> Result<
    Seq<Seq<u8>>,
    ErrorKind,
> {
    match spec_decode_instruction(data) {
        Err(e) => Err(e),
        Ok(i) => match spec_validate(ctx, i) {
            Err(e) => Err(e),
            Ok(_) => spec_execute(ctx, i),
        },
    }
}

/// Runs one invocation: decodes `data`, validates it against `ctx`, executes
/// it, and writes the new account images back into `ctx`. On any error the
/// error is returned unchanged and `ctx` — program identity, every buffer,
/// every mark — is left exactly as it was.
pub fn dispatch(ctx: &mut ExecutionContext, data: &Vec<u8>) -> (r: Result<(), ErrorKind>)
    ensures
        r is Ok <==> spec_dispatch(*old(ctx), data@) is Ok,
        r matches Err(e) ==> {
            &&& spec_dispatch(*old(ctx), data@) == Err::<Seq<Seq<u8>>, ErrorKind>(e)
            &&& *final(ctx) == *old(ctx)
        },
        r is Ok ==> {
            &&& spec_dispatch(*old(ctx), data@) matches Ok(imgs)
            &&& final(ctx).program_id == old(ctx).program_id
            &&& final(ctx).accounts@.len() == old(ctx).accounts@.len()
            &&& forall|j: int|
                0 <= j < old(ctx).accounts@.len() ==> {
                    &&& (#[trigger] final(ctx).accounts@[j]).data@ == imgs[j]
                    &&& final(ctx).accounts@[j].owner_program == old(ctx).accounts@[j].owner_program
                    &&& final(ctx).accounts@[j].is_signer == old(ctx).accounts@[j].is_signer
                    &&& final(ctx).accounts@[j].is_writable == old(
                        ctx,
                    ).accounts@[j].is_writable
                }
        },
{
    let instruction = match decode_instruction(data) {
        Err(e) => {
            return Err(e);
        },
        Ok(i) => i,
    };
    match validate(ctx, &instruction) {
        Err(e) => {
            return Err(e);
        },
        Ok(_) => {},
    }
    let images = match execute(ctx, &instruction) {
        Err(e) => {
            return Err(e);
        },
        Ok(bufs) => bufs,
    };
    let mut fresh: Vec<AccountHandle> = Vec::new();
    let mut idx: usize = 0;
    while idx < images.len()
        invariant
            spec_execute(*old(ctx), spec_decode_instruction(data@)->Ok_0) matches Ok(imgs) && {
                &&& images@.len() == imgs.len()
                &&& forall|j: int| 0 <= j < imgs.len() ==> (#[trigger] images@[j])@ == imgs[j]
            },
            images@.len() == ctx.accounts@.len(),
            *ctx == *old(ctx),
            idx <= images@.len(),
            fresh@.len() == idx,
            forall|j: int|
                0 <= j < idx ==> {
                    &&& (#[trigger] fresh@[j]).data@ == images@[j]@
                    &&& fresh@[j].owner_program == ctx.accounts@[j].owner_program
                    &&& fresh@[j].is_signer == ctx.accounts@[j].is_signer
                    &&& fresh@[j].is_writable == ctx.accounts@[j].is_writable
                },
        decreases images@.len() - idx,
    {
        let image = copy_image(&images, idx);
        let handle = AccountHandle {
            data: image,
            owner_program: ctx.accounts[idx].owner_program,
            is_signer: ctx.accounts[idx].is_signer,
            is_writable: ctx.accounts[idx].is_writable,
        };
        fresh.push(handle);
        idx = idx + 1;
    }
    ctx.accounts = fresh;
    Ok(())
}

/// A fresh copy of the image at position `at` of `images`.
fn copy_image(images: &Vec<Vec<u8>>, at: usize) -> (r: Vec<u8>)
    requires
        at < images@.len(),
    ensures
        r@ == images@[at as int]@,
{
    let src = &images[at];
    let mut r: Vec<u8> = Vec::new();
    let mut i: usize = 0;
    while i < src.len()
        invariant
            i <= src@.len(),
            r@.len() == i,
            forall|j: int| 0 <= j < i ==> r@[j] == src@[j],
            src@ == images@[at as int]@,
        decreases src@.len() - i,
    {
        r.push(src[i]);
        i = i + 1;
    }
    assert(r@ =~= src@);
    r
}

/// A mutating transition only ever commits a well-formed record: whenever an
/// invocation of an instruction that mutates the record account succeeds,
/// the image written for that account decodes under the schema again.
pub proof fn lemma_transition_preserves_schema(ctx: ExecutionContext, data: Seq<u8>)
    requires
        spec_dispatch(ctx, data) is Ok,
        spec_decode_instruction(data) matches Ok(i) && spec_mutates_account(i),
    ensures
        spec_decode_record(spec_dispatch(ctx, data)->Ok_0[0]) is Ok,
{
    let i = spec_decode_instruction(data)->Ok_0;
    let rec = spec_decode_record(ctx.accounts@[0].data@)->Ok_0;
    match i {
        Instruction::Initialize => {},
        Instruction::Increment { amount } => {
            lemma_record_round_trip(
                Record {
                    owner_authority: rec.owner_authority,
                    counter: (rec.counter + amount) as u64,
                    transitions: (rec.transitions + 1) as u64,
                    flag: rec.flag,
                },
            );
        },
        Instruction::SetFlag { value } => {
            lemma_record_round_trip(
                Record {
                    owner_authority: rec.owner_authority,
                    counter: rec.counter,
                    transitions: (rec.transitions + 1) as u64,
                    flag: value,
                },
            );
        },
    }
}

} // verus!
