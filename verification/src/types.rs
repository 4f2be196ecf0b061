//! The byte source that every decode call reads from: a sequential,
//! seekable cursor over a buffer of bytes.

use vstd::prelude::*;

use crate::error::Error;

verus! {

/// An interface index, as reported by the agent.
pub type Interface = u32;

/// The data source of a sample: an agent-scoped source identifier.
pub type SourceID = u32;

/// Sequential, seekable access to a byte source.
///
/// Reads advance the position by exactly the number of bytes read and fail
/// with [`Error::Truncated`], changing nothing, when fewer bytes remain.
/// `skip` moves the position forward without reading; it may move past the
/// end of the buffered bytes, in which case only subsequent reads fail.
pub trait ReadSeeker {
    /// The bytes of the underlying source.
    spec fn bytes(&self) -> Seq<u8>;

    /// The current read position. Skipping may place it past the end of
    /// `bytes`; it never moves backwards.
    spec fn pos(&self) -> int;

    /// Read the single byte at the current position.
    fn read_u8(&mut self) -> (r: Result<u8, Error>)
        ensures
            final(self).bytes() == old(self).bytes(),
            old(self).pos() + 1 <= old(self).bytes().len() ==> r == Ok::<u8, Error>(
                old(self).bytes()[old(self).pos()],
            ) && final(self).pos() == old(self).pos() + 1,
            old(self).pos() + 1 > old(self).bytes().len() ==> r == Err::<u8, Error>(
                Error::Truncated,
            ) && final(self).pos() == old(self).pos(),
    ;

    /// Read exactly `n` bytes starting at the current position.
    fn read_exact(&mut self, n: usize) -> (r: Result<Vec<u8>, Error>)
        ensures
            final(self).bytes() == old(self).bytes(),
            old(self).pos() + n <= old(self).bytes().len() ==> {
                &&& r matches Ok(v) && v@ == old(self).bytes().subrange(
                    old(self).pos(),
                    old(self).pos() + n,
                )
                &&& final(self).pos() == old(self).pos() + n
            },
            old(self).pos() + n > old(self).bytes().len() ==> r == Err::<Vec<u8>, Error>(
                Error::Truncated,
            ) && final(self).pos() == old(self).pos(),
    ;

    /// Move the position forward by `n` bytes without reading them. The new
    /// position may lie past the end of the source; only a position that no
    /// `usize` can hold is refused.
    fn skip(&mut self, n: usize) -> (r: Result<(), Error>)
        ensures
            final(self).bytes() == old(self).bytes(),
            old(self).pos() + n <= usize::MAX ==> r == Ok::<(), Error>(())
                && final(self).pos() == old(self).pos() + n,
            old(self).pos() + n > usize::MAX ==> r == Err::<(), Error>(Error::Truncated)
                && final(self).pos() == old(self).pos(),
    ;

    /// The position and the length of the byte source each fit a `usize`.
    proof fn lemma_bounds(&self)
        ensures
            0 <= self.pos() <= usize::MAX as int,
            self.bytes().len() <= usize::MAX as int,
    ;

    /// The current position.
    fn position(&self) -> (p: usize)
        ensures
            p as int == self.pos(),
    ;

    /// How many bytes remain readable from the current position.
    fn remaining(&self) -> (n: usize)
        ensures
            n as int == if self.pos() <= self.bytes().len() {
                self.bytes().len() - self.pos()
            } else {
                0
            },
    ;
}

/// A [`ReadSeeker`] over an owned byte buffer, the source that one decode
/// pass works through from front to back.
pub struct ByteCursor {
    data: Vec<u8>,
    pos: usize,
}

impl ByteCursor {
    /// Wrap a buffer, with the position at its first byte.
    pub fn new(data: Vec<u8>) -> (c: ByteCursor)
        ensures
            c.bytes() == data@,
            c.pos() == 0,
    {
        ByteCursor { data, pos: 0 }
    }
}

impl ReadSeeker for ByteCursor {
    closed spec fn bytes(&self) -> Seq<u8> {
        self.data@
    }

    closed spec fn pos(&self) -> int {
        self.pos as int
    }

    fn read_u8(&mut self) -> (r: Result<u8, Error>) {
        if self.pos < self.data.len() {
            let b = self.data[self.pos];
            self.pos = self.pos + 1;
            Ok(b)
        } else {
            Err(Error::Truncated)
        }
    }

    fn read_exact(&mut self, n: usize) -> (r: Result<Vec<u8>, Error>) {
        if n > self.data.len() || self.pos > self.data.len() - n {
            return Err(Error::Truncated);
        }
        let mut v: Vec<u8> = Vec::new();
        let mut i: usize = 0;
        while i < n
            invariant
                0 <= i <= n,
                self.pos + n <= self.data.len(),
                v@ == self.data@.subrange(self.pos as int, self.pos + i),
            decreases n - i,
        {
            v.push(self.data[self.pos + i]);
            assert(v@ == self.data@.subrange(self.pos as int, self.pos + i + 1));
            i = i + 1;
        }
        self.pos = self.pos + n;
        Ok(v)
    }

    fn skip(&mut self, n: usize) -> (r: Result<(), Error>) {
        match self.pos.checked_add(n) {
            Some(p) => {
                self.pos = p;
                Ok(())
            },
            None => Err(Error::Truncated),
        }
    }

    proof fn lemma_bounds(&self) {
        assert(self.data@.len() == self.data.len());
    }

    fn position(&self) -> (p: usize) {
        self.pos
    }

    fn remaining(&self) -> (n: usize) {
        if self.pos <= self.data.len() {
            self.data.len() - self.pos
        } else {
            0
        }
    }
}

} // verus!
