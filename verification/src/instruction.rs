//! The instruction decoder: raw invocation bytes to a typed instruction.
//!
//! Wire format of the instruction data: byte 0 is the instruction tag, the
//! remaining bytes are the variant's payload, little-endian fixed-width
//! fields with no padding. Decoding is a pure function with no side effects.

use vstd::prelude::*;

use crate::bytes::get_u64_le;
use crate::bytes::spec_u64_from_le;
use crate::errors::ErrorKind;

verus! {

/// The tag byte that selects [`Instruction::Initialize`].
pub const TAG_INITIALIZE: u8 = 0;

/// The tag byte that selects [`Instruction::Increment`].
pub const TAG_INCREMENT: u8 = 1;

/// The tag byte that selects [`Instruction::SetFlag`].
pub const TAG_SET_FLAG: u8 = 2;

/// One supported operation, decoded from the raw instruction bytes.
/// Constructed once per invocation, consumed immediately, never persisted.
#[derive(Clone, Copy, PartialEq, Eq, Structural, Debug)]
pub enum Instruction {
    /// A no-op acknowledgement of the account; mutates nothing.
    Initialize,
    /// Adds `amount` to the record's counter and bumps its transition count.
    Increment { amount: u64 },
    /// Sets the record's flag to `value` and bumps its transition count.
    SetFlag { value: bool },
}

/// The instruction decoded from raw bytes `b`:
/// `UnknownInstruction` when the tag byte matches no variant,
/// `MalformedPayload` when the buffer is empty (no tag byte to read) or the
/// remaining bytes do not match the selected variant's shape.
pub open spec fn spec_decode_instruction(b: Seq<u8>) -> Result<Instruction, ErrorKind> {
    if b.len() == 0 {
        Err(ErrorKind::MalformedPayload)
    } else if b[0] == TAG_INITIALIZE {
        if b.len() == 1 {
            Ok(Instruction::Initialize)
        } else {
            Err(ErrorKind::MalformedPayload)
        }
    } else if b[0] == TAG_INCREMENT {
        if b.len() == 9 {
            Ok(Instruction::Increment { amount: spec_u64_from_le(b.subrange(1, 9)) })
        } else {
            Err(ErrorKind::MalformedPayload)
        }
    } else if b[0] == TAG_SET_FLAG {
        if b.len() == 2 && (b[1] == 0 || b[1] == 1) {
            Ok(Instruction::SetFlag { value: b[1] == 1 })
        } else {
            Err(ErrorKind::MalformedPayload)
        }
    } else {
        Err(ErrorKind::UnknownInstruction)
    }
}

/// Decodes the instruction in `b`. Pure; the contract pins the result for
/// every input, including each failure.
pub fn decode_instruction(b: &Vec<u8>) -> (r: Result<Instruction, ErrorKind>)
    ensures
        r == spec_decode_instruction(b@),
{
    if b.len() == 0 {
        return Err(ErrorKind::MalformedPayload);
    }
    let tag = b[0];
    if tag == TAG_INITIALIZE {
        if b.len() == 1 {
            Ok(Instruction::Initialize)
        } else {
            Err(ErrorKind::MalformedPayload)
        }
    } else if tag == TAG_INCREMENT {
        if b.len() == 9 {
            Ok(Instruction::Increment { amount: get_u64_le(b, 1) })
        } else {
            Err(ErrorKind::MalformedPayload)
        }
    } else if tag == TAG_SET_FLAG {
        if b.len() == 2 && (b[1] == 0 || b[1] == 1) {
            let value = b[1] == 1;
            Ok(Instruction::SetFlag { value })
        } else {
            Err(ErrorKind::MalformedPayload)
        }
    } else {
        Err(ErrorKind::UnknownInstruction)
    }
}

/// Every instruction tag outside the known set is rejected with
/// `UnknownInstruction`, whatever payload follows it.
pub proof fn lemma_unknown_tag_rejected(b: Seq<u8>)
    requires
        b.len() > 0,
        b[0] != TAG_INITIALIZE,
        b[0] != TAG_INCREMENT,
        b[0] != TAG_SET_FLAG,
    ensures
        spec_decode_instruction(b) == Err::<Instruction, ErrorKind>(ErrorKind::UnknownInstruction),
{
}

} // verus!
