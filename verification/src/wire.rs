//! The specification-level model of the wire format: big-endian integer
//! views of a byte sequence, XDR alignment padding, and the outcome of one
//! decode step.

use vstd::prelude::*;

use crate::error::Error;
use crate::types::ByteCursor;
use crate::types::ReadSeeker;

verus! {

/// The 16-bit big-endian integer that starts at position `p` of `b`.
pub open spec fn be_u16(b: Seq<u8>, p: int) -> u16 {
    ((b[p] as u16) << 8) | (b[p + 1] as u16)
}

/// The 32-bit big-endian integer that starts at position `p` of `b`: the
/// 16-bit value at `p` in the high half, the one at `p + 2` in the low half.
pub open spec fn be_u32(b: Seq<u8>, p: int) -> u32 {
    ((be_u16(b, p) as u32) << 16) | (be_u16(b, p + 2) as u32)
}

/// The 64-bit big-endian integer that starts at position `p` of `b`.
pub open spec fn be_u64(b: Seq<u8>, p: int) -> u64 {
    ((be_u32(b, p) as u64) << 32) | (be_u32(b, p + 4) as u64)
}

/// The 16-bit big-endian two's-complement integer at position `p` of `b`.
pub open spec fn be_i16(b: Seq<u8>, p: int) -> i16 {
    be_u16(b, p) as i16
}

/// The 32-bit big-endian two's-complement integer at position `p` of `b`.
pub open spec fn be_i32(b: Seq<u8>, p: int) -> i32 {
    be_u32(b, p) as i32
}

/// XDR alignment: how many padding bytes follow a field whose encoding took
/// `n` bytes, so that the next field starts on a 4-byte boundary.
pub open spec fn pad4(n: int) -> int {
    (4 - n % 4) % 4
}

/// The outcome of decoding one value with model type `V` from a byte
/// sequence.
///
/// `Done` carries the decoded value and the position of the first byte after
/// it (payload and any alignment padding included). `Skip` is the recoverable
/// outcome of the record-family dispatchers: the record's format code was not
/// in the family's table, and `next` sits exactly past its declared payload.
/// `Fail` is fatal; its error is never `Error::UnknownType`.
pub enum Step<V> {
    Done { v: V, next: int },
    Skip { format: u32, length: u32, next: int },
    Fail { err: Error },
}

/// Sequence the decode step `s` with the rest of a decode, `f`, which
/// receives the decoded value and the position after it.
pub open spec fn step_bind<A, B>(s: Step<A>, f: spec_fn(A, int) -> Step<B>) -> Step<B> {
    match s {
        Step::Done { v, next } => f(v, next),
        Step::Skip { format, length, next } => Step::Skip { format, length, next },
        Step::Fail { err } => Step::Fail { err },
    }
}

/// Wrap the value of a decode step, keeping its position and failures.
pub open spec fn step_map<A, B>(s: Step<A>, f: spec_fn(A) -> B) -> Step<B> {
    match s {
        Step::Done { v, next } => Step::Done { v: f(v), next },
        Step::Skip { format, length, next } => Step::Skip { format, length, next },
        Step::Fail { err } => Step::Fail { err },
    }
}

/// Finish a decode step at position `next`, which a forward seek may have
/// produced: a position that no `usize` can hold is refused.
pub open spec fn skip_step<V>(v: V, next: int) -> Step<V> {
    if next > usize::MAX as int {
        Step::Fail { err: Error::Truncated }
    } else {
        Step::Done { v, next }
    }
}

/// What a call `r = T::read_and_decode(&mut cursor)` guarantees, given the
/// specification-level decode step for `T` at the cursor's old position.
///
/// The byte source is never changed and the position never moves backwards.
/// On `Done` the returned value's model equals the step's value and the
/// cursor sits exactly where the step says; on `Skip` the call reports the
/// unrecognized format code and length with the cursor just past the skipped
/// payload; on `Fail` the call returns exactly the step's fatal error.
pub open spec fn decode_post<T: DeepView>(
    pre: ByteCursor,
    post: ByteCursor,
    r: Result<T, Error>,
    step: Step<T::V>,
) -> bool {
    &&& post.bytes() == pre.bytes()
    &&& post.pos() >= pre.pos()
    &&& match step {
        Step::Done { v, next } => r matches Ok(x) && x.deep_view() == v && post.pos() == next,
        Step::Skip { format, length, next } => r == Err::<T, Error>(
            Error::UnknownType { format, length },
        ) && post.pos() == next,
        Step::Fail { err } => r == Err::<T, Error>(err) && !(err matches Error::UnknownType {
            ..
        }),
    }
}

} // verus!
