//! The state transition executor: applies a validated instruction and
//! produces the new account byte images.
//!
//! The executor is only called after validation succeeds, and it does not
//! re-check what validation already guaranteed — the proof carries those
//! guarantees instead. It is pure: it builds fresh buffers and fails closed,
//! returning `ExecutionError` and no image at all on any internal arithmetic
//! failure, never a partial update.

use vstd::prelude::*;

use crate::context::AccountHandle;
use crate::context::ExecutionContext;
use crate::errors::ErrorKind;
use crate::instruction::Instruction;
use crate::schema::decode_record;
use crate::schema::encode_record;
use crate::schema::spec_decode_record;
use crate::schema::spec_encode_record;
use crate::schema::Record;
use crate::validation::spec_validate;

verus! {

/// The new byte image of every account after `i` runs on `ctx`, in account
/// order, or `ExecutionError` when applying the transition would fail —
/// in which case no image of any account is produced at all.
pub open spec fn spec_execute(ctx: ExecutionContext, i: Instruction) -> Result<
    Seq<Seq<u8>>,
    ErrorKind,
>
    recommends
        spec_validate(ctx, i) is Ok,
{
    match i {
        Instruction::Initialize => Ok(ctx.accounts@.map_values(|a: AccountHandle| a.data@)),
        Instruction::Increment { amount } => match spec_decode_record(ctx.accounts@[0].data@) {
            Err(_) => Err(ErrorKind::ExecutionError),
            Ok(rec) => if rec.counter + amount > u64::MAX || rec.transitions + 1 > u64::MAX {
                Err(ErrorKind::ExecutionError)
            } else {
                Ok(
                    seq![
                        spec_encode_record(
                            Record {
                                owner_authority: rec.owner_authority,
                                counter: (rec.counter + amount) as u64,
                                transitions: (rec.transitions + 1) as u64,
                                flag: rec.flag,
                            },
                        ),
                    ],
                )
            },
        },
        Instruction::SetFlag { value } => match spec_decode_record(ctx.accounts@[0].data@) {
            Err(_) => Err(ErrorKind::ExecutionError),
            Ok(rec) => if rec.transitions + 1 > u64::MAX {
                Err(ErrorKind::ExecutionError)
            } else {
                Ok(
                    seq![
                        spec_encode_record(
                            Record {
                                owner_authority: rec.owner_authority,
                                counter: rec.counter,
                                transitions: (rec.transitions + 1) as u64,
                                flag: value,
                            },
                        ),
                    ],
                )
            },
        },
    }
}

/// A fresh byte-for-byte copy of `src`.
fn copy_bytes(src: &Vec<u8>) -> (r: Vec<u8>)
    ensures
        r@ == src@,
{
    let mut r: Vec<u8> = Vec::new();
    let mut i: usize = 0;
    while i < src.len()
        invariant
            i <= src@.len(),
            r@.len() == i,
            forall|j: int| 0 <= j < i ==> r@[j] == src@[j],
        decreases src@.len() - i,
    {
        r.push(src[i]);
        i = i + 1;
    }
    assert(r@ =~= src@);
    r
}

/// Applies the already validated instruction `i` to `ctx` and returns the new
/// byte image of every account, in account order. All-or-nothing: on an
/// internal arithmetic failure it returns `ExecutionError` and no image.
pub fn execute(ctx: &ExecutionContext, i: &Instruction) -> (r: Result<Vec<Vec<u8>>, ErrorKind>)
    requires
        spec_validate(*ctx, *i) is Ok,
    ensures
        r is Ok <==> spec_execute(*ctx, *i) is Ok,
        r matches Err(e) ==> spec_execute(*ctx, *i) == Err::<Seq<Seq<u8>>, ErrorKind>(e),
        r matches Ok(bufs) ==> {
            &&& spec_execute(*ctx, *i) matches Ok(imgs)
            &&& bufs@.len() == imgs.len()
            &&& forall|j: int| 0 <= j < imgs.len() ==> (#[trigger] bufs@[j])@ == imgs[j]
        },
{
    match i {
        Instruction::Initialize => {
            let mut out: Vec<Vec<u8>> = Vec::new();
            let mut idx: usize = 0;
            while idx < ctx.accounts.len()
                invariant
                    idx <= ctx.accounts@.len(),
                    out@.len() == idx,
                    forall|j: int|
                        0 <= j < idx ==> (#[trigger] out@[j])@ == ctx.accounts@[j].data@,
                decreases ctx.accounts@.len() - idx,
            {
                out.push(copy_bytes(&ctx.accounts[idx].data));
                idx = idx + 1;
            }
            Ok(out)
        },
        Instruction::Increment { amount } => match decode_record(&ctx.accounts[0].data) {
            Err(_) => Err(ErrorKind::ExecutionError),
            Ok(rec) => {
                let new_counter = rec.counter + *amount;
                if rec.transitions == u64::MAX {
                    Err(ErrorKind::ExecutionError)
                } else {
                    let updated = Record {
                        owner_authority: rec.owner_authority,
                        counter: new_counter,
                        transitions: rec.transitions + 1,
                        flag: rec.flag,
                    };
                    let mut out: Vec<Vec<u8>> = Vec::new();
                    out.push(encode_record(&updated));
                    Ok(out)
                }
            },
        },
        Instruction::SetFlag { value } => match decode_record(&ctx.accounts[0].data) {
            Err(_) => Err(ErrorKind::ExecutionError),
            Ok(rec) => {
                if rec.transitions == u64::MAX {
                    Err(ErrorKind::ExecutionError)
                } else {
                    let updated = Record {
                        owner_authority: rec.owner_authority,
                        counter: rec.counter,
                        transitions: rec.transitions + 1,
                        flag: *value,
                    };
                    let mut out: Vec<Vec<u8>> = Vec::new();
                    out.push(encode_record(&updated));
                    Ok(out)
                }
            },
        },
    }
}

} // verus!
