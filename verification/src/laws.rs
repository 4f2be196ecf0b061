//! Laws of the decoder that relate whole decode calls, stated over the
//! specification-level decode functions that every `read_and_decode`
//! contract is pinned to.

use vstd::prelude::*;

use crate::counter_records::CounterRecord;
use crate::error::Error;
use crate::flow_records::FlowRecord;
use crate::sample::SampleRecord;
use crate::sample::SampleRecordView;
use crate::flow_records::FlowRecordView;
use crate::flow_records::SampledIpv4;
use crate::types::ByteCursor;
use crate::types::ReadSeeker;
use crate::utils::Decodeable;
use crate::wire::be_u32;
use crate::wire::decode_post;
use crate::wire::step_map;
use crate::wire::Step;

verus! {

/// Determinism: decoding the same byte buffer from the same position twice
/// produces structurally equal results — the same success or failure, a
/// model-equal value on success, and the same final cursor position.
pub proof fn lemma_decode_deterministic<T: Decodeable>(
    pre1: ByteCursor,
    post1: ByteCursor,
    r1: Result<T, Error>,
    pre2: ByteCursor,
    post2: ByteCursor,
    r2: Result<T, Error>,
)
    requires
        decode_post::<T>(pre1, post1, r1, T::sdecode(pre1.bytes(), pre1.pos())),
        decode_post::<T>(pre2, post2, r2, T::sdecode(pre2.bytes(), pre2.pos())),
        pre1.bytes() == pre2.bytes(),
        pre1.pos() == pre2.pos(),
    ensures
        r1 is Ok <==> r2 is Ok,
        r1 is Ok ==> r1->Ok_0.deep_view() == r2->Ok_0.deep_view(),
        r1 is Err ==> r1 == r2,
        r1 is Ok || (r1 matches Err(e) && e matches Error::UnknownType { .. }) ==> post1.pos()
            == post2.pos(),
{
}

/// A sequence whose leading count is zero decodes to the empty list, and
/// the cursor advances by exactly the four bytes of the count field: the
/// trailing padding of an empty sequence is zero bytes.
pub proof fn lemma_empty_sequence<T: Decodeable>(b: Seq<u8>, p: int)
    requires
        0 <= p,
        p + 4 <= b.len(),
        b.len() <= usize::MAX as int,
        be_u32(b, p) == 0,
    ensures
        <Vec<T> as Decodeable>::sdecode(b, p) == (Step::Done::<Seq<T::V>> {
            v: Seq::empty(),
            next: p + 4,
        }),
{
    assert(0 * T::spec_wire_unit() == 0);
}

/// A flow record whose format code is in no table entry is skipped whole:
/// the outcome reports the code and its declared length, and the position
/// after it sits exactly at `p + 8 + length`, so sibling records remain
/// decodable.
pub proof fn lemma_unknown_flow_record(b: Seq<u8>, p: int)
    requires
        p + 8 <= b.len(),
        ({
            let format = be_u32(b, p);
            format != 1 && format != 3 && format != 1001 && format != 1002 && format != 1003
                && format != 1005 && format != 1006 && format != 1008
        }),
        p + 8 + be_u32(b, p + 4) <= usize::MAX as int,
    ensures
        FlowRecord::sdecode(b, p) == (Step::Skip::<FlowRecordView> {
            format: be_u32(b, p),
            length: be_u32(b, p + 4),
            next: p + 8 + be_u32(b, p + 4),
        }),
{
}

/// A counter record whose format code is in no table entry is skipped
/// whole, exactly as an unknown flow record is: the dispatcher behaves the
/// same in every record family.
pub proof fn lemma_unknown_counter_record(b: Seq<u8>, p: int)
    requires
        p + 8 <= b.len(),
        be_u32(b, p) != 1 && be_u32(b, p) != 2,
        p + 8 + be_u32(b, p + 4) <= usize::MAX as int,
    ensures
        CounterRecord::sdecode(b, p) == (Step::Skip::<CounterRecord> {
            format: be_u32(b, p),
            length: be_u32(b, p + 4),
            next: p + 8 + be_u32(b, p + 4),
        }),
{
}

/// A sample record whose format code is in no table entry is skipped
/// whole, exactly as an unknown flow record is.
pub proof fn lemma_unknown_sample_record(b: Seq<u8>, p: int)
    requires
        p + 8 <= b.len(),
        be_u32(b, p) != 1 && be_u32(b, p) != 2,
        p + 8 + be_u32(b, p + 4) <= usize::MAX as int,
    ensures
        SampleRecord::sdecode(b, p) == (Step::Skip::<SampleRecordView> {
            format: be_u32(b, p),
            length: be_u32(b, p + 4),
            next: p + 8 + be_u32(b, p + 4),
        }),
{
}

/// A flow record whose format code is 3 decodes as a sampled IPv4 payload
/// starting right after the eight header bytes, its fields equal to the
/// encoded byte values field for field.
pub proof fn lemma_known_flow_record_sampled_ipv4(b: Seq<u8>, p: int)
    requires
        p + 8 <= b.len(),
        be_u32(b, p) == 3,
    ensures
        FlowRecord::sdecode(b, p) == step_map(
            SampledIpv4::sdecode(b, p + 8),
            |v: SampledIpv4| FlowRecordView::SampledIpv4(v),
        ),
{
}

} // verus!
