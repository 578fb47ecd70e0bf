//! The binary form of the session record: a fixed 34-byte blob, each
//! duration and the anchor little-endian, the block count and the running
//! flag one byte each. Decoding validates the shape and the cadence and
//! reports anything else as corrupt.

use vstd::prelude::*;

use crate::state::State;

verus! {

/// Length in bytes of an encoded session record.
pub const STATE_BLOB_LEN: usize = 34;

/// The byte sequence a record is written as.
pub open spec fn encode_spec(s: State) -> Seq<u8> {
    vstd::bytes::spec_u64_to_le_bytes(s.work_duration)
        + vstd::bytes::spec_u64_to_le_bytes(s.break_short)
        + vstd::bytes::spec_u64_to_le_bytes(s.break_long) + seq![s.work_blocks] + seq![
        if s.running {
            1u8
        } else {
            0u8
        },
    ] + vstd::bytes::spec_u64_to_le_bytes(s.start)
}

/// The record a byte sequence decodes to: `None` unless the sequence is
/// exactly one well-formed encoded record.
pub open spec fn decode_spec(b: Seq<u8>) -> Option<State> {
    if b.len() != STATE_BLOB_LEN {
        Option::None
    } else {
        let s = State {
            work_duration: vstd::bytes::spec_u64_from_le_bytes(b.subrange(0, 8)),
            break_short: vstd::bytes::spec_u64_from_le_bytes(b.subrange(8, 16)),
            break_long: vstd::bytes::spec_u64_from_le_bytes(b.subrange(16, 24)),
            work_blocks: b[24],
            running: b[25] == 1u8,
            start: vstd::bytes::spec_u64_from_le_bytes(b.subrange(26, 34)),
        };
        if s.wf() && (b[25] == 0u8 || b[25] == 1u8) {
            Option::Some(s)
        } else {
            Option::None
        }
    }
}

/// Saving and loading is lossless: every well-formed record decodes back
/// from its own encoding unchanged.
pub proof fn lemma_codec_round_trip(s: State)
    requires
        s.wf(),
    ensures
        decode_spec(encode_spec(s)) == Option::Some(s),
{
    vstd::bytes::lemma_auto_spec_u64_to_from_le_bytes();
    let b = encode_spec(s);
    assert(b.subrange(0, 8) =~= vstd::bytes::spec_u64_to_le_bytes(s.work_duration));
    assert(b.subrange(8, 16) =~= vstd::bytes::spec_u64_to_le_bytes(s.break_short));
    assert(b.subrange(16, 24) =~= vstd::bytes::spec_u64_to_le_bytes(s.break_long));
    assert(b.subrange(26, 34) =~= vstd::bytes::spec_u64_to_le_bytes(s.start));
}

impl State {
    /// Write the record out as its 34-byte blob.
    pub fn encode(&self) -> (r: Vec<u8>)
        ensures
            r@ == encode_spec(*self),
            r@.len() == STATE_BLOB_LEN,
    {
        let mut out: Vec<u8> = Vec::new();
        let mut field = vstd::bytes::u64_to_le_bytes(self.work_duration);
        out.append(&mut field);
        let mut field = vstd::bytes::u64_to_le_bytes(self.break_short);
        out.append(&mut field);
        let mut field = vstd::bytes::u64_to_le_bytes(self.break_long);
        out.append(&mut field);
        out.push(self.work_blocks);
        out.push(if self.running {
            1u8
        } else {
            0u8
        });
        let mut field = vstd::bytes::u64_to_le_bytes(self.start);
        out.append(&mut field);
        proof {
            assert(out@ =~= encode_spec(*self));
        }
        out
    }

    /// Read a record back from a blob; `None` means the blob is not a
    /// well-formed encoded record.
    pub fn decode(bytes: &[u8]) -> (r: Option<State>)
        ensures
            r == decode_spec(bytes@),
            r matches Option::Some(s) ==> s.wf(),
    {
        if bytes.len() != STATE_BLOB_LEN {
            return Option::None;
        }
        let work_duration = vstd::bytes::u64_from_le_bytes(vstd::slice::slice_subrange(
            bytes,
            0,
            8,
        ));
        let break_short = vstd::bytes::u64_from_le_bytes(vstd::slice::slice_subrange(
            bytes,
            8,
            16,
        ));
        let break_long = vstd::bytes::u64_from_le_bytes(vstd::slice::slice_subrange(
            bytes,
            16,
            24,
        ));
        let work_blocks = *vstd::slice::slice_index_get(bytes, 24);
        let running_byte = *vstd::slice::slice_index_get(bytes, 25);
        let start = vstd::bytes::u64_from_le_bytes(vstd::slice::slice_subrange(bytes, 26, 34));
        if work_duration >= 1 && break_short >= 1 && break_long >= 1 && work_blocks >= 1 && (
        running_byte == 0 || running_byte == 1) {
            Option::Some(
                State {
                    work_duration,
                    break_short,
                    break_long,
                    work_blocks,
                    running: running_byte == 1,
                    start,
                },
            )
        } else {
            Option::None
        }
    }
}

} // verus!
