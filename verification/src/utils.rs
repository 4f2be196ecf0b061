//! The decode capability: big-endian primitive reads over any byte source,
//! and the polymorphic `Decodeable` contract implemented for the primitive
//! widths, strings and count-prefixed sequences.

use vstd::prelude::*;
use vstd::utf8::decode_utf8;
use vstd::utf8::valid_utf8;

use crate::error::Error;
use crate::types::ByteCursor;
use crate::types::ReadSeeker;
use crate::wire::be_i16;
use crate::wire::be_i32;
use crate::wire::be_u16;
use crate::wire::be_u32;
use crate::wire::be_u64;
use crate::wire::decode_post;
use crate::wire::pad4;
use crate::wire::skip_step;
use crate::wire::step_bind;
use crate::wire::Step;

verus! {

/// Big-endian fixed-width reads, available on every [`ReadSeeker`]. Each
/// read advances the position by the width of the value, or fails with
/// [`Error::Truncated`], changing nothing, when fewer bytes remain.
pub trait ReadBytesLocal: ReadSeeker {
    /// Read 16 bits in big-endian byte order.
    fn be_read_u16(&mut self) -> (r: Result<u16, Error>)
        ensures
            final(self).bytes() == old(self).bytes(),
            old(self).pos() + 2 <= old(self).bytes().len() ==> r == Ok::<u16, Error>(
                be_u16(old(self).bytes(), old(self).pos()),
            ) && final(self).pos() == old(self).pos() + 2,
            old(self).pos() + 2 > old(self).bytes().len() ==> r == Err::<u16, Error>(
                Error::Truncated,
            ) && final(self).pos() == old(self).pos(),
    ;

    /// Read 32 bits in big-endian byte order.
    fn be_read_u32(&mut self) -> (r: Result<u32, Error>)
        ensures
            final(self).bytes() == old(self).bytes(),
            old(self).pos() + 4 <= old(self).bytes().len() ==> r == Ok::<u32, Error>(
                be_u32(old(self).bytes(), old(self).pos()),
            ) && final(self).pos() == old(self).pos() + 4,
            old(self).pos() + 4 > old(self).bytes().len() ==> r == Err::<u32, Error>(
                Error::Truncated,
            ) && final(self).pos() == old(self).pos(),
    ;

    /// Read 64 bits in big-endian byte order.
    fn be_read_u64(&mut self) -> (r: Result<u64, Error>)
        ensures
            final(self).bytes() == old(self).bytes(),
            old(self).pos() + 8 <= old(self).bytes().len() ==> r == Ok::<u64, Error>(
                be_u64(old(self).bytes(), old(self).pos()),
            ) && final(self).pos() == old(self).pos() + 8,
            old(self).pos() + 8 > old(self).bytes().len() ==> r == Err::<u64, Error>(
                Error::Truncated,
            ) && final(self).pos() == old(self).pos(),
    ;

    /// Read 16 bits in big-endian byte order, as a two's-complement value.
    fn be_read_i16(&mut self) -> (r: Result<i16, Error>)
        ensures
            final(self).bytes() == old(self).bytes(),
            old(self).pos() + 2 <= old(self).bytes().len() ==> r == Ok::<i16, Error>(
                be_i16(old(self).bytes(), old(self).pos()),
            ) && final(self).pos() == old(self).pos() + 2,
            old(self).pos() + 2 > old(self).bytes().len() ==> r == Err::<i16, Error>(
                Error::Truncated,
            ) && final(self).pos() == old(self).pos(),
    ;

    /// Read 32 bits in big-endian byte order, as a two's-complement value.
    fn be_read_i32(&mut self) -> (r: Result<i32, Error>)
        ensures
            final(self).bytes() == old(self).bytes(),
            old(self).pos() + 4 <= old(self).bytes().len() ==> r == Ok::<i32, Error>(
                be_i32(old(self).bytes(), old(self).pos()),
            ) && final(self).pos() == old(self).pos() + 4,
            old(self).pos() + 4 > old(self).bytes().len() ==> r == Err::<i32, Error>(
                Error::Truncated,
            ) && final(self).pos() == old(self).pos(),
    ;
}

impl<R: ReadSeeker> ReadBytesLocal for R {
    fn be_read_u16(&mut self) -> (r: Result<u16, Error>) {
        if self.remaining() < 2 {
            return Err(Error::Truncated);
        }
        let b0 = match self.read_u8() {
            Ok(b) => b,
            Err(e) => {
                proof {
                    assert(false);
                }
                return Err(e);
            },
        };
        let b1 = match self.read_u8() {
            Ok(b) => b,
            Err(e) => {
                proof {
                    assert(false);
                }
                return Err(e);
            },
        };
        Ok(((b0 as u16) << 8) | (b1 as u16))
    }

    fn be_read_u32(&mut self) -> (r: Result<u32, Error>) {
        if self.remaining() < 4 {
            return Err(Error::Truncated);
        }
        let hi = match self.be_read_u16() {
            Ok(v) => v,
            Err(e) => {
                proof {
                    assert(false);
                }
                return Err(e);
            },
        };
        let lo = match self.be_read_u16() {
            Ok(v) => v,
            Err(e) => {
                proof {
                    assert(false);
                }
                return Err(e);
            },
        };
        Ok(((hi as u32) << 16) | (lo as u32))
    }

    fn be_read_u64(&mut self) -> (r: Result<u64, Error>) {
        if self.remaining() < 8 {
            return Err(Error::Truncated);
        }
        let hi = match self.be_read_u32() {
            Ok(v) => v,
            Err(e) => {
                proof {
                    assert(false);
                }
                return Err(e);
            },
        };
        let lo = match self.be_read_u32() {
            Ok(v) => v,
            Err(e) => {
                proof {
                    assert(false);
                }
                return Err(e);
            },
        };
        Ok(((hi as u64) << 32) | (lo as u64))
    }

    fn be_read_i16(&mut self) -> (r: Result<i16, Error>) {
        match self.be_read_u16() {
            Ok(v) => Ok(v as i16),
            Err(e) => Err(e),
        }
    }

    fn be_read_i32(&mut self) -> (r: Result<i32, Error>) {
        match self.be_read_u32() {
            Ok(v) => Ok(v as i32),
            Err(e) => Err(e),
        }
    }
}

/// One value of a type that knows how to decode itself from a byte cursor.
///
/// `sdecode` is the specification-level decoder: a mathematical function
/// from a byte sequence and a position to the decode outcome over the
/// type's model (its `DeepView`). `read_and_decode` is the executable
/// decoder, verified to agree with `sdecode` on the value it returns, the
/// error it reports and the position it leaves the cursor at.
pub trait Decodeable: Sized + DeepView {
    /// The decode outcome for one value of this type at position `p` of `b`.
    spec fn sdecode(b: Seq<u8>, p: int) -> Step<Self::V>;

    /// The nominal wire width of one value, as used for the trailing
    /// alignment padding of a count-prefixed sequence: 1 for single bytes, 2
    /// for 16-bit values, and 4 for every wider or composite type (whose
    /// encodings are themselves 4-byte aligned, so the padding is zero
    /// either way).
    spec fn spec_wire_unit() -> int;

    /// The nominal wire width, for the running padding computation.
    fn wire_unit() -> (u: usize)
        ensures
            u as int == Self::spec_wire_unit(),
            1 <= u <= 4,
    ;

    /// Decode one value, advancing the cursor past it.
    fn read_and_decode(stream: &mut ByteCursor) -> (r: Result<Self, Error>)
        ensures
            decode_post::<Self>(
                *old(stream),
                *final(stream),
                r,
                Self::sdecode(old(stream).bytes(), old(stream).pos()),
            ),
    ;
}

impl Decodeable for u8 {
    open spec fn sdecode(b: Seq<u8>, p: int) -> Step<u8> {
        if p + 1 <= b.len() {
            Step::Done { v: b[p], next: p + 1 }
        } else {
            Step::Fail { err: Error::Truncated }
        }
    }

    open spec fn spec_wire_unit() -> int {
        1
    }

    fn wire_unit() -> (u: usize) {
        1
    }

    fn read_and_decode(stream: &mut ByteCursor) -> (r: Result<u8, Error>) {
        stream.read_u8()
    }
}

impl Decodeable for i8 {
    open spec fn sdecode(b: Seq<u8>, p: int) -> Step<i8> {
        if p + 1 <= b.len() {
            Step::Done { v: b[p] as i8, next: p + 1 }
        } else {
            Step::Fail { err: Error::Truncated }
        }
    }

    open spec fn spec_wire_unit() -> int {
        1
    }

    fn wire_unit() -> (u: usize) {
        1
    }

    fn read_and_decode(stream: &mut ByteCursor) -> (r: Result<i8, Error>) {
        match stream.read_u8() {
            Ok(b) => Ok(b as i8),
            Err(e) => Err(e),
        }
    }
}

impl Decodeable for u16 {
    open spec fn sdecode(b: Seq<u8>, p: int) -> Step<u16> {
        if p + 2 <= b.len() {
            Step::Done { v: be_u16(b, p), next: p + 2 }
        } else {
            Step::Fail { err: Error::Truncated }
        }
    }

    open spec fn spec_wire_unit() -> int {
        2
    }

    fn wire_unit() -> (u: usize) {
        2
    }

    fn read_and_decode(stream: &mut ByteCursor) -> (r: Result<u16, Error>) {
        stream.be_read_u16()
    }
}

impl Decodeable for i16 {
    open spec fn sdecode(b: Seq<u8>, p: int) -> Step<i16> {
        if p + 2 <= b.len() {
            Step::Done { v: be_i16(b, p), next: p + 2 }
        } else {
            Step::Fail { err: Error::Truncated }
        }
    }

    open spec fn spec_wire_unit() -> int {
        2
    }

    fn wire_unit() -> (u: usize) {
        2
    }

    fn read_and_decode(stream: &mut ByteCursor) -> (r: Result<i16, Error>) {
        stream.be_read_i16()
    }
}

impl Decodeable for u32 {
    open spec fn sdecode(b: Seq<u8>, p: int) -> Step<u32> {
        if p + 4 <= b.len() {
            Step::Done { v: be_u32(b, p), next: p + 4 }
        } else {
            Step::Fail { err: Error::Truncated }
        }
    }

    open spec fn spec_wire_unit() -> int {
        4
    }

    fn wire_unit() -> (u: usize) {
        4
    }

    fn read_and_decode(stream: &mut ByteCursor) -> (r: Result<u32, Error>) {
        stream.be_read_u32()
    }
}

impl Decodeable for i32 {
    open spec fn sdecode(b: Seq<u8>, p: int) -> Step<i32> {
        if p + 4 <= b.len() {
            Step::Done { v: be_i32(b, p), next: p + 4 }
        } else {
            Step::Fail { err: Error::Truncated }
        }
    }

    open spec fn spec_wire_unit() -> int {
        4
    }

    fn wire_unit() -> (u: usize) {
        4
    }

    fn read_and_decode(stream: &mut ByteCursor) -> (r: Result<i32, Error>) {
        stream.be_read_i32()
    }
}

impl Decodeable for u64 {
    open spec fn sdecode(b: Seq<u8>, p: int) -> Step<u64> {
        if p + 8 <= b.len() {
            Step::Done { v: be_u64(b, p), next: p + 8 }
        } else {
            Step::Fail { err: Error::Truncated }
        }
    }

    open spec fn spec_wire_unit() -> int {
        4
    }

    fn wire_unit() -> (u: usize) {
        4
    }

    fn read_and_decode(stream: &mut ByteCursor) -> (r: Result<u64, Error>) {
        stream.be_read_u64()
    }
}

/// The text that a sequence of ASCII bytes spells, byte for byte.
pub open spec fn ascii_chars(bytes: Seq<u8>) -> Seq<char> {
    Seq::new(bytes.len(), |i: int| bytes[i] as char)
}

/// A sequence of ASCII bytes is valid UTF-8 and decodes to itself, byte for
/// byte.
pub proof fn lemma_ascii_decode(bytes: Seq<u8>)
    requires
        forall|i: int| 0 <= i < bytes.len() ==> bytes[i] < 0x80,
    ensures
        valid_utf8(bytes),
        decode_utf8(bytes) == ascii_chars(bytes),
    decreases bytes.len(),
{
    broadcast use vstd::utf8::char_u32_cast;

    if bytes.len() != 0 {
        let b0 = bytes[0];
        assert(vstd::utf8::is_leading_byte_width_1(b0));
        assert(b0 & 0x7F == b0) by (bit_vector)
            requires
                b0 < 0x80,
        ;
        let rest = vstd::utf8::pop_first_scalar(bytes);
        assert(rest =~= bytes.subrange(1, bytes.len() as int));
        lemma_ascii_decode(rest);
        assert((bytes[0] as char) as u32 == bytes[0] as u32);
        assert(decode_utf8(bytes) =~= ascii_chars(bytes));
    }
}

/// Relies on `String::from_utf8`: it returns the text decoded from the given
/// bytes exactly when they are valid UTF-8, and refuses them otherwise.
#[verifier::external_body]
pub(crate) fn utf8_to_string(bytes: Vec<u8>) -> (r: Option<String>)
    ensures
        r matches Some(s) ==> valid_utf8(bytes@) && s@ == decode_utf8(bytes@),
        r is None ==> !valid_utf8(bytes@),
{
    String::from_utf8(bytes).ok()
}

impl Decodeable for String {
    open spec fn sdecode(b: Seq<u8>, p: int) -> Step<Seq<char>> {
        step_bind(
            u32::sdecode(b, p),
            |len: u32, p1: int|
                {
                    if p1 + len <= b.len() {
                        if valid_utf8(b.subrange(p1, p1 + len)) {
                            skip_step(
                                decode_utf8(b.subrange(p1, p1 + len)),
                                p1 + len + pad4(len as int),
                            )
                        } else {
                            Step::Fail { err: Error::Utf8 }
                        }
                    } else {
                        Step::Fail { err: Error::Truncated }
                    }
                },
        )
    }

    open spec fn spec_wire_unit() -> int {
        4
    }

    fn wire_unit() -> (u: usize) {
        4
    }

    fn read_and_decode(stream: &mut ByteCursor) -> (r: Result<String, Error>) {
        let len = match stream.be_read_u32() {
            Ok(v) => v,
            Err(e) => return Err(e),
        };
        let buf = match stream.read_exact(len as usize) {
            Ok(v) => v,
            Err(e) => return Err(e),
        };
        let s = match utf8_to_string(buf) {
            Some(s) => s,
            None => return Err(Error::Utf8),
        };
        let pad = ((4 - (len % 4)) % 4) as usize;
        proof {
            stream.lemma_bounds();
        }
        if pad != 0 {
            match stream.skip(pad) {
                Ok(_) => {},
                Err(e) => return Err(e),
            }
        }
        Ok(s)
    }
}

/// The decode outcome for `n` consecutive elements of type `T` starting at
/// position `p` of `b`: the elements decoded in wire order, except that an
/// element whose record family did not recognize its format code is dropped
/// and decoding continues with the next one. Any fatal element failure
/// aborts the whole sequence.
pub open spec fn sdecode_elems<T: Decodeable>(b: Seq<u8>, p: int, n: nat) -> Step<Seq<T::V>>
    decreases n,
{
    if n == 0 {
        Step::Done { v: Seq::empty(), next: p }
    } else {
        match T::sdecode(b, p) {
            Step::Done { v, next } => match sdecode_elems::<T>(b, next, (n - 1) as nat) {
                Step::Done { v: rest, next: fin } => Step::Done { v: seq![v] + rest, next: fin },
                Step::Skip { format, length, next } => Step::Skip { format, length, next },
                Step::Fail { err } => Step::Fail { err },
            },
            Step::Skip { format: _, length: _, next } => sdecode_elems::<T>(
                b,
                next,
                (n - 1) as nat,
            ),
            Step::Fail { err } => Step::Fail { err },
        }
    }
}

/// Prepend already-decoded elements to the value of a sequence decode step.
pub open spec fn step_prepend<V>(pre: Seq<V>, s: Step<Seq<V>>) -> Step<Seq<V>> {
    match s {
        Step::Done { v, next } => Step::Done { v: pre + v, next },
        Step::Skip { format, length, next } => Step::Skip { format, length, next },
        Step::Fail { err } => Step::Fail { err },
    }
}

/// How one element's decode step advances a sequence decode that still has
/// `n > 0` elements to go and has accumulated `pre`.
proof fn lemma_elems_unfold<T: Decodeable>(b: Seq<u8>, p: int, n: nat, pre: Seq<T::V>)
    requires
        n > 0,
    ensures
        match T::sdecode(b, p) {
            Step::Done { v, next } => step_prepend(pre, sdecode_elems::<T>(b, p, n))
                == step_prepend(pre.push(v), sdecode_elems::<T>(b, next, (n - 1) as nat)),
            Step::Skip { format: _, length: _, next } => step_prepend(
                pre,
                sdecode_elems::<T>(b, p, n),
            ) == step_prepend(pre, sdecode_elems::<T>(b, next, (n - 1) as nat)),
            Step::Fail { err } => step_prepend(pre, sdecode_elems::<T>(b, p, n))
                == (Step::Fail::<Seq<T::V>> { err }),
        },
{
    match T::sdecode(b, p) {
        Step::Done { v, next } => {
            match sdecode_elems::<T>(b, next, (n - 1) as nat) {
                Step::Done { v: rest, next: fin } => {
                    assert(pre + (seq![v] + rest) =~= pre.push(v) + rest);
                },
                Step::Skip { .. } => {},
                Step::Fail { .. } => {},
            }
        },
        Step::Skip { .. } => {},
        Step::Fail { .. } => {},
    }
}

impl<T: Decodeable> Decodeable for Vec<T> {
    open spec fn sdecode(b: Seq<u8>, p: int) -> Step<Seq<T::V>> {
        step_bind(
            u32::sdecode(b, p),
            |count: u32, p1: int|
                step_bind(
                    sdecode_elems::<T>(b, p1, count as nat),
                    |items: Seq<T::V>, p2: int|
                        skip_step(items, p2 + pad4(count as int * T::spec_wire_unit())),
                ),
        )
    }

    open spec fn spec_wire_unit() -> int {
        4
    }

    fn wire_unit() -> (u: usize) {
        4
    }

    fn read_and_decode(stream: &mut ByteCursor) -> (r: Result<Vec<T>, Error>) {
        let ghost b = old(stream).bytes();
        let count = match stream.be_read_u32() {
            Ok(v) => v,
            Err(e) => return Err(e),
        };
        let ghost p1 = stream.pos();
        let unit = T::wire_unit();
        proof {
            assert((count as u64) * (unit as u64) <= (u32::MAX as u64) * 4 && (count as int) * (
            unit as int) == (count as u64) * (unit as u64)) by (nonlinear_arith)
                requires
                    count <= u32::MAX,
                    1 <= unit <= 4,
            ;
        }
        let total: u64 = (count as u64) * (unit as u64);
        let pad = ((4 - (total % 4)) % 4) as usize;
        let mut results: Vec<T> = Vec::new();
        let mut i: u32 = 0;
        while i < count
            invariant
                0 <= i <= count,
                b == old(stream).bytes(),
                u32::sdecode(b, old(stream).pos()) == (Step::Done::<u32> { v: count, next: p1 }),
                stream.bytes() == b,
                stream.pos() >= old(stream).pos(),
                step_prepend(
                    results.deep_view(),
                    sdecode_elems::<T>(b, stream.pos(), (count - i) as nat),
                ) == sdecode_elems::<T>(b, p1, count as nat),
            decreases count - i,
        {
            let ghost pre = results.deep_view();
            let ghost p_elem = stream.pos();
            proof {
                lemma_elems_unfold::<T>(b, p_elem, (count - i) as nat, pre);
            }
            match T::read_and_decode(stream) {
                Ok(x) => {
                    results.push(x);
                    proof {
                        assert(results.deep_view() =~= pre.push(x.deep_view()));
                    }
                },
                Err(Error::UnknownType { .. }) => {},
                Err(e) => return Err(e),
            }
            i = i + 1;
        }
        proof {
            stream.lemma_bounds();
            assert(sdecode_elems::<T>(b, stream.pos(), 0) == (Step::Done::<Seq<T::V>> {
                v: Seq::empty(),
                next: stream.pos(),
            }));
            assert(results.deep_view() + Seq::<T::V>::empty() =~= results.deep_view());
        }
        if pad != 0 {
            match stream.skip(pad) {
                Ok(_) => {},
                Err(e) => return Err(e),
            }
        }
        Ok(results)
    }
}

} // verus!
