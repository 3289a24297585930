//! The account schema layer: the fixed-layout serialized form of a record.
//!
//! Wire format of an account buffer: byte 0 is the discriminator; the typed
//! fields follow at fixed offsets, little-endian, with no padding:
//!
//! | offset | width | field                     |
//! |--------|-------|---------------------------|
//! | 0      | 1     | discriminator             |
//! | 1      | 8     | owner authority           |
//! | 9      | 8     | counter                   |
//! | 17     | 8     | applied transition count  |
//! | 25     | 1     | flag (0 or 1)             |
//!
//! The discriminator must match before any field is interpreted; a mismatch
//! is a fatal [`ErrorKind::SchemaMismatch`], never a silent default.

use vstd::prelude::*;

use crate::bytes::lemma_u64_le_inverse;
use crate::bytes::lemma_u64_le_round_trip;
use crate::bytes::get_u64_le;
use crate::bytes::put_u64_le;
use crate::bytes::spec_u64_from_le;
use crate::bytes::spec_u64_le;
use crate::errors::ErrorKind;

verus! {

/// The discriminator byte that every serialized record starts with.
pub const RECORD_DISCRIMINATOR: u8 = 1;

/// The exact length in bytes of a serialized record.
pub const RECORD_LEN: usize = 26;

/// One persistent state record, the typed view of an account buffer.
#[derive(Clone, Copy, PartialEq, Eq, Structural, Debug)]
pub struct Record {
    /// The authority whose signature the record's transitions demand.
    pub owner_authority: u64,
    /// The domain counter the program increments on request.
    pub counter: u64,
    /// How many state transitions have been applied to this record.
    pub transitions: u64,
    /// A domain flag the program can set or clear.
    pub flag: bool,
}

/// The serialized form of `r`: discriminator, then each field at its fixed
/// offset, little-endian, no padding. Total (never fails) for any record.
pub open spec fn spec_encode_record(r: Record) -> Seq<u8> {
    seq![RECORD_DISCRIMINATOR] + spec_u64_le(r.owner_authority) + spec_u64_le(r.counter)
        + spec_u64_le(r.transitions) + seq![if r.flag { 1u8 } else { 0u8 }]
}

/// Whether `b` is a well-formed serialized record: exact length, known
/// discriminator, and a flag byte that is 0 or 1.
pub open spec fn spec_record_wire_ok(b: Seq<u8>) -> bool {
    &&& b.len() == RECORD_LEN
    &&& b[0] == RECORD_DISCRIMINATOR
    &&& (b[25] == 0 || b[25] == 1)
}

/// The record read from a well-formed buffer `b`, or `SchemaMismatch` when
/// the buffer is too short, too long, carries an unknown discriminator, or an
/// out-of-range flag byte.
pub open spec fn spec_decode_record(b: Seq<u8>) -> Result<Record, ErrorKind> {
    if spec_record_wire_ok(b) {
        Ok(
            Record {
                owner_authority: spec_u64_from_le(b.subrange(1, 9)),
                counter: spec_u64_from_le(b.subrange(9, 17)),
                transitions: spec_u64_from_le(b.subrange(17, 25)),
                flag: b[25] == 1,
            },
        )
    } else {
        Err(ErrorKind::SchemaMismatch)
    }
}

/// Serializes `r` into a fresh buffer. Total: encoding never fails.
pub fn encode_record(r: &Record) -> (b: Vec<u8>)
    ensures
        b@ == spec_encode_record(*r),
        b@.len() == RECORD_LEN,
{
    let mut b: Vec<u8> = Vec::new();
    b.push(RECORD_DISCRIMINATOR);
    put_u64_le(&mut b, r.owner_authority);
    put_u64_le(&mut b, r.counter);
    put_u64_le(&mut b, r.transitions);
    b.push(if r.flag { 1u8 } else { 0u8 });
    assert(b@ =~= spec_encode_record(*r));
    b
}

/// Deserializes the record in `b`, failing with `SchemaMismatch` exactly when
/// `b` is not a well-formed serialized record.
pub fn decode_record(b: &Vec<u8>) -> (r: Result<Record, ErrorKind>)
    ensures
        r == spec_decode_record(b@),
        b@.len() < RECORD_LEN ==> r == Err::<Record, ErrorKind>(ErrorKind::SchemaMismatch),
{
    if b.len() != RECORD_LEN {
        return Err(ErrorKind::SchemaMismatch);
    }
    if b[0] != RECORD_DISCRIMINATOR {
        return Err(ErrorKind::SchemaMismatch);
    }
    let flag_byte = b[25];
    if flag_byte != 0 && flag_byte != 1 {
        return Err(ErrorKind::SchemaMismatch);
    }
    Ok(
        Record {
            owner_authority: get_u64_le(b, 1),
            counter: get_u64_le(b, 9),
            transitions: get_u64_le(b, 17),
            flag: flag_byte == 1,
        },
    )
}

/// Round trip: decoding the serialized form of any record yields that record.
pub proof fn lemma_record_round_trip(r: Record)
    ensures
        spec_decode_record(spec_encode_record(r)) == Ok::<Record, ErrorKind>(r),
{
    let b = spec_encode_record(r);
    assert(b.subrange(1, 9) =~= spec_u64_le(r.owner_authority));
    assert(b.subrange(9, 17) =~= spec_u64_le(r.counter));
    assert(b.subrange(17, 25) =~= spec_u64_le(r.transitions));
    lemma_u64_le_round_trip(r.owner_authority);
    lemma_u64_le_round_trip(r.counter);
    lemma_u64_le_round_trip(r.transitions);
}

/// Re-encoding the record decoded from any well-formed buffer yields that
/// same buffer; in particular every buffer produced by `encode_record`
/// decodes and encodes back to itself.
pub proof fn lemma_record_encode_inverse(b: Seq<u8>)
    requires
        spec_decode_record(b) is Ok,
    ensures
        spec_encode_record(spec_decode_record(b)->Ok_0) == b,
{
    let r = spec_decode_record(b)->Ok_0;
    lemma_u64_le_inverse(b.subrange(1, 9));
    lemma_u64_le_inverse(b.subrange(9, 17));
    lemma_u64_le_inverse(b.subrange(17, 25));
    assert(spec_encode_record(r) =~= b);
}

} // verus!
