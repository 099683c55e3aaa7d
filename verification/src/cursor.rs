use vstd::prelude::*;

use crate::error::Error;

verus! {

/// The two big-endian wire bytes of a 16-bit value, most significant first.
pub open spec fn u16_be_bytes(value: u16) -> Seq<u8> {
    seq![(value / 256) as u8, (value % 256) as u8]
}

/// The 16-bit value carried by two big-endian wire bytes.
pub open spec fn u16_from_be(hi: u8, lo: u8) -> u16 {
    (hi * 256 + lo) as u16
}

/// Combining the two wire bytes of a value gives the value back.
pub proof fn lemma_u16_be_round_trip(value: u16)
    ensures
        u16_from_be(u16_be_bytes(value)[0], u16_be_bytes(value)[1]) == value,
{
}

/// A write view over a fixed-capacity byte buffer: every write fails with
/// an out-of-space error rather than overrunning the buffer.
pub struct WriteCursor {
    buf: Vec<u8>,
    space: usize,
}

impl WriteCursor {
    /// The bytes written so far, in order.
    pub closed spec fn written(self) -> Seq<u8> {
        self.buf@
    }

    /// How many more bytes still fit.
    pub closed spec fn space(self) -> nat {
        self.space as nat
    }

    pub fn new(capacity: usize) -> (c: Self)
        ensures
            c.written() == Seq::<u8>::empty(),
            c.space() == capacity,
    {
        WriteCursor { buf: Vec::new(), space: capacity }
    }

    pub fn remaining(&self) -> (r: usize)
        ensures
            r == self.space(),
    {
        self.space
    }

    /// The buffer as filled so far, consuming the cursor.
    pub fn into_bytes(self) -> (b: Vec<u8>)
        ensures
            b@ == self.written(),
    {
        self.buf
    }

    pub fn write_u8(&mut self, value: u8) -> (r: Result<(), Error>)
        ensures
            r is Ok <==> old(self).space() >= 1,
            r is Ok ==> final(self).written() == old(self).written().push(value)
                && final(self).space() == old(self).space() - 1,
            r is Err ==> r == Err::<(), Error>(Error::InsufficientWriteSpace)
                && *final(self) == *old(self),
    {
        if self.space == 0 {
            return Err(Error::InsufficientWriteSpace);
        }
        self.buf.push(value);
        self.space = self.space - 1;
        Ok(())
    }

    /// Writes both bytes of `value`, most significant first, or neither.
    pub fn write_u16_be(&mut self, value: u16) -> (r: Result<(), Error>)
        ensures
            r is Ok <==> old(self).space() >= 2,
            r is Ok ==> final(self).written() == old(self).written() + u16_be_bytes(value)
                && final(self).space() == old(self).space() - 2,
            r is Err ==> r == Err::<(), Error>(Error::InsufficientWriteSpace)
                && *final(self) == *old(self),
    {
        if self.space < 2 {
            return Err(Error::InsufficientWriteSpace);
        }
        self.buf.push((value / 256) as u8);
        self.buf.push((value % 256) as u8);
        self.space = self.space - 2;
        proof {
            assert(self.buf@ =~= old(self).buf@ + u16_be_bytes(value));
        }
        Ok(())
    }
}

/// A read view over a byte buffer: every read fails with an out-of-data
/// error rather than overrunning the buffer.
pub struct ReadCursor {
    buf: Vec<u8>,
    pos: usize,
}

impl ReadCursor {
    /// The cursor position never leaves the buffer.
    pub closed spec fn wf(self) -> bool {
        self.pos <= self.buf@.len()
    }

    /// The bytes not yet consumed, in order.
    pub closed spec fn data(self) -> Seq<u8> {
        self.buf@.skip(self.pos as int)
    }

    pub fn new(bytes: Vec<u8>) -> (c: Self)
        ensures
            c.wf(),
            c.data() == bytes@,
    {
        let c = ReadCursor { buf: bytes, pos: 0 };
        proof {
            assert(c.data() =~= c.buf@);
        }
        c
    }

    pub fn len(&self) -> (r: usize)
        requires
            self.wf(),
        ensures
            r == self.data().len(),
    {
        self.buf.len() - self.pos
    }

    pub fn is_empty(&self) -> (r: bool)
        requires
            self.wf(),
        ensures
            r == (self.data().len() == 0),
    {
        self.len() == 0
    }

    pub fn read_u8(&mut self) -> (r: Result<u8, Error>)
        requires
            old(self).wf(),
        ensures
            final(self).wf(),
            r is Ok <==> old(self).data().len() >= 1,
            r is Ok ==> r == Ok::<u8, Error>(old(self).data()[0])
                && final(self).data() == old(self).data().skip(1),
            r is Err ==> r == Err::<u8, Error>(Error::InsufficientReadBytes)
                && *final(self) == *old(self),
    {
        if self.pos < self.buf.len() {
            let b = self.buf[self.pos];
            self.pos = self.pos + 1;
            proof {
                assert(self.data() =~= old(self).data().skip(1));
            }
            Ok(b)
        } else {
            Err(Error::InsufficientReadBytes)
        }
    }

    /// Reads both bytes of a big-endian 16-bit value, or neither.
    pub fn read_u16_be(&mut self) -> (r: Result<u16, Error>)
        requires
            old(self).wf(),
        ensures
            final(self).wf(),
            r is Ok <==> old(self).data().len() >= 2,
            r is Ok ==> r == Ok::<u16, Error>(u16_from_be(old(self).data()[0], old(self).data()[1]))
                && final(self).data() == old(self).data().skip(2),
            r is Err ==> r == Err::<u16, Error>(Error::InsufficientReadBytes)
                && *final(self) == *old(self),
    {
        if self.buf.len() - self.pos < 2 {
            return Err(Error::InsufficientReadBytes);
        }
        let hi = self.buf[self.pos];
        let lo = self.buf[self.pos + 1];
        self.pos = self.pos + 2;
        proof {
            assert(self.data() =~= old(self).data().skip(2));
        }
        Ok((hi as u16) * 256 + (lo as u16))
    }

    /// Reads the next `n` bytes as one block, or none of them.
    pub fn read_bytes(&mut self, n: usize) -> (r: Result<Vec<u8>, Error>)
        requires
            old(self).wf(),
        ensures
            final(self).wf(),
            r is Ok <==> old(self).data().len() >= n,
            r matches Ok(b) ==> b@ == old(self).data().take(n as int)
                && final(self).data() == old(self).data().skip(n as int),
            r is Err ==> r == Err::<Vec<u8>, Error>(Error::InsufficientReadBytes)
                && *final(self) == *old(self),
    {
        if self.buf.len() - self.pos < n {
            return Err(Error::InsufficientReadBytes);
        }
        let mut out: Vec<u8> = Vec::new();
        let mut i: usize = 0;
        while i < n
            invariant
                i <= n,
                self == old(self),
                self.pos + n <= self.buf@.len(),
                self.buf@.len() <= usize::MAX,
                out@ =~= self.buf@.subrange(self.pos as int, self.pos + i),
            decreases n - i,
        {
            out.push(self.buf[self.pos + i]);
            i = i + 1;
        }
        self.pos = self.pos + n;
        proof {
            assert(out@ =~= old(self).data().take(n as int));
            assert(self.data() =~= old(self).data().skip(n as int));
        }
        Ok(out)
    }
}

} // verus!
