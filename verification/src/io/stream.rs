//! A cursor over a buffer.
use crate::error::PerwError;
use crate::io::{lemma_slice_len, splice, write_at, Reader, Writer};
use vstd::prelude::*;

verus! {

/// A buffer with a position. Over a shared slice it reads, over a mutable
/// slice it writes in place, over an owned vector it writes and grows.
pub struct PEStream<T> {
    buffer: T,
    position: usize,
}

impl<T> PEStream<T> {
    /// The buffer under the stream.
    pub closed spec fn buffer(&self) -> T {
        self.buffer
    }

    /// The offset of the cursor in the buffer.
    pub closed spec fn position(&self) -> usize {
        self.position
    }

    /// A stream over `buffer` with the cursor at its start.
    pub fn new(buffer: T) -> (s: Self)
        ensures
            s.buffer() == buffer,
            s.position() == 0,
    {
        Self { buffer, position: 0 }
    }

    /// Moves the cursor to the offset `position`.
    pub fn set_position(&mut self, position: usize)
        ensures
            final(self).buffer() == old(self).buffer(),
            final(self).position() == position,
    {
        self.position = position;
    }

    /// Gives up the stream for the buffer under it.
    pub fn into_inner(self) -> (buffer: T)
        ensures
            buffer == self.buffer(),
    {
        self.buffer
    }

    /// Where the cursor stands.
    pub fn get_position(&self) -> (position: usize)
        ensures
            position == self.position(),
    {
        self.position
    }
}

impl<'a> Reader<'a> for PEStream<&'a [u8]> {
    open spec fn unread(&self) -> Seq<u8> {
        if self.position() <= self.buffer()@.len() {
            self.buffer()@.skip(self.position() as int)
        } else {
            Seq::empty()
        }
    }

    fn read_slice(&mut self, size: usize) -> (r: Result<&'a [u8], PerwError>) {
        let len = self.buffer.len();
        if self.position > len {
            if size == 0 {
                let out = &self.buffer[0..0];
                assert(out@ =~= old(self).unread().take(0));
                assert(self.unread() =~= old(self).unread().skip(0));
                return Ok(out);
            }
            return Err(PerwError::not_enough_data(size));
        }
        if len - self.position < size {
            return Err(PerwError::not_enough_data(size));
        }
        let start = self.position;
        self.position = start + size;
        let out = &self.buffer[start..start + size];
        assert(out@ =~= old(self).unread().take(size as int));
        assert(self.unread() =~= old(self).unread().skip(size as int));
        Ok(out)
    }
}

impl<'a> Writer for PEStream<&'a mut [u8]> {
    open spec fn contents(&self) -> Seq<u8> {
        self.buffer()@
    }

    open spec fn cursor(&self) -> int {
        self.position() as int
    }

    open spec fn accepts(&self, size: nat) -> bool {
        self.position() + size <= self.buffer()@.len()
    }

    fn write_slice(&mut self, data: &[u8]) -> (r: Result<(), PerwError>) {
        proof {
            lemma_slice_len(&*self.buffer);
        }
        write_at(&mut *self.buffer, self.position, data)?;
        self.position = self.position + data.len();
        Ok(())
    }
}

impl Writer for PEStream<Vec<u8>> {
    open spec fn contents(&self) -> Seq<u8> {
        self.buffer()@
    }

    open spec fn cursor(&self) -> int {
        self.position() as int
    }

    open spec fn accepts(&self, size: nat) -> bool {
        self.position() <= self.buffer()@.len() && self.position() + size <= usize::MAX
    }

    fn write_slice(&mut self, data: &[u8]) -> (r: Result<(), PerwError>) {
        let len = self.buffer.len();
        if self.position > len || usize::MAX - self.position < data.len() {
            return Err(PerwError::not_enough_space(data.len()));
        }
        let start = self.position;
        let mut i: usize = 0;
        while i < data.len()
            invariant
                i <= data@.len(),
                start <= old(self).buffer@.len(),
                start + data@.len() <= usize::MAX,
                self.position == start,
                self.buffer@.len() == if start + i <= old(self).buffer@.len() {
                    old(self).buffer@.len()
                } else {
                    (start + i) as nat
                },
                forall|k: int| 0 <= k < start ==> self.buffer@[k] == old(self).buffer@[k],
                forall|k: int| start <= k < start + i ==> self.buffer@[k] == data@[k - start],
                forall|k: int|
                    start + i <= k < self.buffer@.len() ==> self.buffer@[k] == old(self).buffer@[k],
            decreases data@.len() - i,
        {
            if start + i < self.buffer.len() {
                self.buffer[start + i] = data[i];
            } else {
                self.buffer.push(data[i]);
            }
            i += 1;
        }
        self.position = start + data.len();
        assert(self.buffer@ =~= splice(old(self).buffer@, start as int, data@));
        Ok(())
    }
}

} // verus!
