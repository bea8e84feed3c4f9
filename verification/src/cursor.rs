//! A readable, seekable stream over bytes held in memory.

use vstd::prelude::*;
use vstd::slice::slice_subrange;
use vstd::string::StringExecFns;
use vstd::utf8::{encode_utf8, valid_utf8};
use crate::error::StreamError;
use crate::stream::{
    lemma_scan_found, scan_len, seek_target, BufferedReadable, Readable, SeekFrom, Seekable,
};
use crate::text::{lemma_encode_concat, text_of};

verus! {

/// Bytes in memory with a position. Reading hands out the bytes from the
/// position on and moves it; the position may stand past the end, where
/// nothing is left to read.
pub struct ByteCursor {
    data: Vec<u8>,
    pos: u64,
}

impl ByteCursor {
    /// All the bytes, read or not.
    pub closed spec fn content(&self) -> Seq<u8> {
        self.data@
    }

    /// The position, in bytes from the start.
    pub closed spec fn position(&self) -> nat {
        self.pos as nat
    }

    /// The bytes from the position on.
    pub open spec fn rest(&self) -> Seq<u8> {
        if self.position() <= self.content().len() {
            self.content().skip(self.position() as int)
        } else {
            Seq::empty()
        }
    }

    /// A cursor at the start of `data`.
    pub fn new(data: Vec<u8>) -> (cursor: Self)
        ensures
            cursor.content() == data@,
            cursor.position() == 0,
    {
        ByteCursor { data, pos: 0 }
    }

    /// Gives the bytes back.
    pub fn into_inner(self) -> (data: Vec<u8>)
        ensures
            data@ == self.content(),
    {
        self.data
    }

    /// Where the unread bytes begin in `data`.
    fn start(&self) -> (at: usize)
        ensures
            at <= self.data.len(),
            self.rest() == self.data@.skip(at as int),
            self.pos <= self.data@.len() ==> at == self.pos,
            self.pos > self.data@.len() ==> at == self.data@.len(),
    {
        let len = self.data.len();
        if self.pos <= len as u64 {
            self.pos as usize
        } else {
            assert(self.data@.skip(len as int) =~= Seq::<u8>::empty());
            len
        }
    }

    /// How many bytes a scan for `delim` takes from the unread bytes.
    fn scan(&self, delim: u8) -> (n: usize)
        ensures
            n == scan_len(self.rest(), delim),
            n <= self.rest().len(),
            self.rest().len() <= usize::MAX,
    {
        let start = self.start();
        let len = self.data.len();
        let ghost rest = self.rest();
        let mut k: usize = 0;
        while start + k < len && self.data[start + k] != delim
            invariant
                start + k <= len,
                len == self.data@.len(),
                rest == self.data@.skip(start as int),
                forall|i: int| 0 <= i < k ==> rest[i] != delim,
            decreases len - start - k,
        {
            k += 1;
        }
        proof {
            lemma_scan_found(rest, delim, k as int);
        }
        if start + k < len {
            k + 1
        } else {
            k
        }
    }

    /// Moves the position over `n` unread bytes.
    fn advance(&mut self, n: usize)
        requires
            n <= old(self).rest().len(),
        ensures
            final(self).content() == old(self).content(),
            final(self).rest() == old(self).rest().skip(n as int),
            final(self).position() == old(self).position() + n,
    {
        if n > 0 {
            assert(self.pos + n <= self.data.len());
            self.pos = self.pos + n as u64;
        }
        assert(self.rest() =~= old(self).rest().skip(n as int));
    }
}

impl Readable for ByteCursor {
    open spec fn pending(&self) -> Seq<u8> {
        self.rest()
    }

    /// A read never fails. It hands out as many bytes as `buf` holds, or
    /// all that are left, leaves the rest of `buf` as it was, and moves
    /// the position on by what it handed out.
    open spec fn read_post(
        &self,
        after: Self,
        buf_before: Seq<u8>,
        buf_after: Seq<u8>,
        res: Result<usize, StreamError>,
    ) -> bool {
        &&& res matches Ok(n) && n == vstd::math::min(
            buf_before.len() as int,
            self.rest().len() as int,
        )
        &&& buf_after.skip(res->Ok_0 as int) == buf_before.skip(res->Ok_0 as int)
        &&& after.content() == self.content()
        &&& after.position() == self.position() + res->Ok_0
    }

    /// Reading to the end never fails, and moves the position on by what
    /// was left.
    open spec fn read_to_end_post(
        &self,
        after: Self,
        acc_before: Seq<u8>,
        acc_after: Seq<u8>,
        res: Result<usize, StreamError>,
    ) -> bool {
        &&& res is Ok
        &&& after.content() == self.content()
        &&& after.position() == self.position() + self.rest().len()
    }

    /// An exact read succeeds where enough bytes are left, and moves the
    /// position on by the buffer's length. Where not, it fails for want of
    /// bytes, leaves `buf` as it was and puts the position at the end.
    open spec fn read_exact_post(
        &self,
        after: Self,
        buf_before: Seq<u8>,
        buf_after: Seq<u8>,
        res: Result<(), StreamError>,
    ) -> bool {
        &&& res is Ok <==> buf_before.len() <= self.rest().len()
        &&& res matches Err(e) ==> {
            &&& e == StreamError::UnexpectedEof
            &&& buf_after == buf_before
            &&& after.rest() == Seq::<u8>::empty()
            &&& after.position() == self.content().len()
        }
        &&& res is Ok ==> after.position() == self.position() + buf_before.len()
        &&& after.content() == self.content()
    }

    /// Hands out as many bytes as `buf` holds, or all that are left.
    fn read(&mut self, buf: &mut [u8]) -> (res: Result<usize, StreamError>) {
        let start = self.start();
        let avail = self.data.len() - start;
        let n: usize = if buf.len() < avail {
            buf.len()
        } else {
            avail
        };
        let mut i: usize = 0;
        while i < n
            invariant
                i <= n,
                start + n <= self.data.len(),
                n <= buf@.len(),
                buf@.len() == old(buf)@.len(),
                *self == *old(self),
                forall|j: int| 0 <= j < i ==> buf@[j] == self.data@[start + j],
                forall|j: int| i <= j < buf@.len() ==> buf@[j] == old(buf)@[j],
            decreases n - i,
        {
            buf[i] = self.data[start + i];
            i += 1;
        }
        self.advance(n);
        assert(buf@.take(n as int) =~= old(self).rest().take(n as int));
        assert(buf@.skip(n as int) =~= old(buf)@.skip(n as int));
        Ok(n)
    }

    /// Appends all that is left.
    fn read_to_end(&mut self, buf: &mut Vec<u8>) -> (res: Result<usize, StreamError>) {
        let start = self.start();
        let len = self.data.len();
        buf.extend_from_slice(slice_subrange(self.data.as_slice(), start, len));
        self.advance(len - start);
        assert(buf@ =~= old(buf)@ + old(self).rest());
        assert(self.rest() =~= Seq::<u8>::empty());
        Ok(len - start)
    }

    /// Fills `buf` where enough is left. Where not, nothing is handed out
    /// and the position moves to the end.
    fn read_exact(&mut self, buf: &mut [u8]) -> (res: Result<(), StreamError>) {
        let start = self.start();
        let len = self.data.len();
        if buf.len() > len - start {
            self.pos = len as u64;
            assert(self.rest() =~= Seq::<u8>::empty());
            assert(self.rest().is_suffix_of(old(self).rest()));
            return Err(StreamError::UnexpectedEof);
        }
        let n = buf.len();
        let mut i: usize = 0;
        while i < n
            invariant
                i <= n,
                start + n <= self.data.len(),
                n == buf@.len(),
                buf@.len() == old(buf)@.len(),
                *self == *old(self),
                forall|j: int| 0 <= j < i ==> buf@[j] == self.data@[start + j],
            decreases n - i,
        {
            buf[i] = self.data[start + i];
            i += 1;
        }
        self.advance(n);
        assert(buf@ =~= old(self).rest().take(n as int));
        Ok(())
    }
}

impl BufferedReadable for ByteCursor {
    open spec fn buffered(&self) -> Seq<u8> {
        self.rest()
    }

    /// A look ahead never fails and changes nothing.
    open spec fn fill_buf_post(&self, after: Self, res: Result<Seq<u8>, StreamError>) -> bool {
        res is Ok && after == *self
    }

    /// Consuming moves the position on by the amount.
    open spec fn consume_post(&self, after: Self, amt: usize) -> bool {
        after.content() == self.content() && after.position() == self.position() + amt
    }

    /// A scan never fails, and moves the position on by what it took.
    open spec fn read_until_post(
        &self,
        after: Self,
        byte: u8,
        acc_before: Seq<u8>,
        acc_after: Seq<u8>,
        res: Result<usize, StreamError>,
    ) -> bool {
        &&& res is Ok
        &&& after.content() == self.content()
        &&& after.position() == self.position() + scan_len(self.rest(), byte)
    }

    /// Reading a line succeeds where the line's bytes are well-formed
    /// UTF-8. Where they are not, it fails for bad data and leaves the
    /// text as it was. Either way the position moves on over the line.
    open spec fn read_line_post(
        &self,
        after: Self,
        text_before: Seq<char>,
        text_after: Seq<char>,
        res: Result<usize, StreamError>,
    ) -> bool {
        &&& res is Ok <==> valid_utf8(self.rest().take(scan_len(self.rest(), 0x0a) as int))
        &&& res matches Err(e) ==> {
            &&& e == StreamError::InvalidData
            &&& text_after == text_before
            &&& after.rest() == self.rest().skip(scan_len(self.rest(), 0x0a) as int)
        }
        &&& after.content() == self.content()
        &&& after.position() == self.position() + scan_len(self.rest(), 0x0a)
    }

    /// Shows all that is left.
    fn fill_buf(&mut self) -> (res: Result<&[u8], StreamError>) {
        let start = self.start();
        Ok(slice_subrange(self.data.as_slice(), start, self.data.len()))
    }

    /// Moves the position over `amt` unread bytes.
    fn consume(&mut self, amt: usize) {
        self.advance(amt);
    }

    /// Appends the unread bytes up to and including the next `byte`.
    fn read_until(&mut self, byte: u8, buf: &mut Vec<u8>) -> (res: Result<usize, StreamError>) {
        let start = self.start();
        let n = self.scan(byte);
        buf.extend_from_slice(slice_subrange(self.data.as_slice(), start, start + n));
        self.advance(n);
        assert(buf@ =~= old(buf)@ + old(self).rest().take(n as int));
        Ok(n)
    }

    /// Appends the next line where its bytes are well-formed UTF-8. Where
    /// they are not, the line is taken all the same and `buf` stays as it
    /// was.
    fn read_line(&mut self, buf: &mut String) -> (res: Result<usize, StreamError>) {
        let start = self.start();
        let n = self.scan(0x0a);
        let ghost line = self.rest().take(n as int);
        let decoded = text_of(slice_subrange(self.data.as_slice(), start, start + n));
        assert(self.data@.subrange(start as int, start + n) =~= line);
        match decoded {
            Some(text) => {
                buf.append(text);
                proof {
                    lemma_encode_concat(old(buf)@, text@);
                }
                self.advance(n);
                Ok(n)
            },
            None => {
                self.advance(n);
                assert(self.rest().is_suffix_of(old(self).rest()));
                assert(encode_utf8(buf@).is_prefix_of(encode_utf8(buf@) + old(self).rest().take(
                    old(self).rest().len() - self.rest().len(),
                )));
                Err(StreamError::InvalidData)
            },
        }
    }
}

impl Seekable for ByteCursor {
    open spec fn offset(&self) -> nat {
        self.position()
    }

    open spec fn extent(&self) -> nat {
        self.content().len()
    }

    /// A seek succeeds where the place it names lies from the start on and
    /// can be counted. Where not, it fails for a bad request and changes
    /// nothing.
    open spec fn seek_post(&self, after: Self, pos: SeekFrom, res: Result<u64, StreamError>) -> bool {
        &&& res is Ok <==> 0 <= seek_target(self.offset(), self.extent(), pos) <= u64::MAX
        &&& res matches Err(e) ==> e == StreamError::InvalidInput && after == *self
        &&& after.content() == self.content()
    }

    /// Asking for the position never fails and changes nothing.
    open spec fn stream_position_post(&self, after: Self, res: Result<u64, StreamError>) -> bool {
        res is Ok && after == *self
    }

    /// Moves the position to any place from the start on, also past the
    /// end. A place before the start, or too far out to be counted, is
    /// refused and the position stays.
    fn seek(&mut self, pos: SeekFrom) -> (res: Result<u64, StreamError>) {
        let (base, delta): (u64, i64) = match pos {
            SeekFrom::Start(n) => {
                self.pos = n;
                return Ok(n);
            },
            SeekFrom::End(d) => (self.data.len() as u64, d),
            SeekFrom::Current(d) => (self.pos, d),
        };
        if delta >= 0 {
            if delta as u64 <= u64::MAX - base {
                self.pos = base + delta as u64;
                Ok(self.pos)
            } else {
                Err(StreamError::InvalidInput)
            }
        } else {
            let back: u64 = if delta == i64::MIN {
                0x8000_0000_0000_0000u64
            } else {
                (-delta) as u64
            };
            if back <= base {
                self.pos = base - back;
                Ok(self.pos)
            } else {
                Err(StreamError::InvalidInput)
            }
        }
    }

    /// The position; this never fails.
    fn stream_position(&mut self) -> (res: Result<u64, StreamError>) {
        Ok(self.pos)
    }
}

} // verus!
