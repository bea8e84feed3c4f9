//! Writable streams that keep in memory what they are given.

use vstd::prelude::*;
use vstd::slice::slice_subrange;
use vstd::utf8::encode_utf8;
use crate::error::StreamError;
use crate::stream::Writable;

verus! {

/// A vector takes every byte it is offered and never fails.
impl Writable for Vec<u8> {
    open spec fn accepted(&self) -> Seq<u8> {
        self@
    }

    open spec fn flushed(&self) -> bool {
        true
    }

    open spec fn stalled(&self) -> bool {
        false
    }

    /// A write takes the whole buffer.
    open spec fn write_post(
        &self,
        after: Self,
        buf: Seq<u8>,
        res: Result<usize, StreamError>,
    ) -> bool {
        res == Ok::<usize, StreamError>(buf.len() as usize)
    }

    /// Writing all never fails.
    open spec fn write_all_post(
        &self,
        after: Self,
        data: Seq<u8>,
        res: Result<(), StreamError>,
    ) -> bool {
        res is Ok
    }

    /// Writing text never fails.
    open spec fn write_fmt_post(
        &self,
        after: Self,
        text: Seq<char>,
        res: Result<(), StreamError>,
    ) -> bool {
        res is Ok
    }

    /// A flush never fails and changes nothing.
    open spec fn flush_post(&self, after: Self, res: Result<(), StreamError>) -> bool {
        res is Ok && after == *self
    }

    fn write(&mut self, buf: &[u8]) -> (res: Result<usize, StreamError>) {
        self.extend_from_slice(buf);
        assert(self@ =~= old(self)@ + buf@.take(buf@.len() as int));
        Ok(buf.len())
    }

    fn write_all(&mut self, buf: &[u8]) -> (res: Result<(), StreamError>) {
        self.extend_from_slice(buf);
        assert(self@ =~= old(self)@ + buf@);
        Ok(())
    }

    fn write_fmt(&mut self, text: &str) -> (res: Result<(), StreamError>) {
        self.extend_from_slice(text.as_bytes());
        assert(self@ =~= old(self)@ + encode_utf8(text@));
        Ok(())
    }

    fn flush(&mut self) -> (res: Result<(), StreamError>) {
        Ok(())
    }
}

/// A sink with room for a fixed number of bytes. It takes what fits and
/// turns the rest away.
pub struct BoundedSink {
    data: Vec<u8>,
    limit: usize,
}

impl BoundedSink {
    /// The bytes taken so far.
    pub closed spec fn content(&self) -> Seq<u8> {
        self.data@
    }

    /// How many bytes the sink can hold in all.
    pub closed spec fn capacity(&self) -> nat {
        self.limit as nat
    }

    /// How many more bytes fit.
    pub open spec fn room(&self) -> nat {
        if self.content().len() <= self.capacity() {
            (self.capacity() - self.content().len()) as nat
        } else {
            0
        }
    }

    /// An empty sink with room for `limit` bytes.
    pub fn new(limit: usize) -> (sink: Self)
        ensures
            sink.content() == Seq::<u8>::empty(),
            sink.capacity() == limit,
    {
        BoundedSink { data: Vec::new(), limit }
    }

    /// The bytes taken so far.
    pub fn as_slice(&self) -> (bytes: &[u8])
        ensures
            bytes@ == self.content(),
    {
        self.data.as_slice()
    }

    /// Takes as much of the front of `buf` as fits and says how much.
    fn take_front(&mut self, buf: &[u8]) -> (n: usize)
        ensures
            n == vstd::math::min(buf@.len() as int, old(self).room() as int),
            final(self).content() == old(self).content() + buf@.take(n as int),
            final(self).capacity() == old(self).capacity(),
    {
        let room = if self.data.len() <= self.limit {
            self.limit - self.data.len()
        } else {
            0
        };
        let n: usize = if buf.len() < room {
            buf.len()
        } else {
            room
        };
        self.data.extend_from_slice(slice_subrange(buf, 0, n));
        assert(self.data@ =~= old(self).data@ + buf@.take(n as int));
        n
    }
}

impl Writable for BoundedSink {
    open spec fn accepted(&self) -> Seq<u8> {
        self.content()
    }

    open spec fn flushed(&self) -> bool {
        true
    }

    open spec fn stalled(&self) -> bool {
        self.room() == 0
    }

    /// A write never fails: it takes as much of the front of the buffer as
    /// fits.
    open spec fn write_post(
        &self,
        after: Self,
        buf: Seq<u8>,
        res: Result<usize, StreamError>,
    ) -> bool {
        &&& res matches Ok(n) && n == vstd::math::min(buf.len() as int, self.room() as int)
        &&& after.capacity() == self.capacity()
    }

    /// Writing all succeeds where the data fits. Where it does not, the
    /// sink takes what fits and fails for want of room.
    open spec fn write_all_post(
        &self,
        after: Self,
        data: Seq<u8>,
        res: Result<(), StreamError>,
    ) -> bool {
        &&& res is Ok <==> data.len() <= self.room()
        &&& res matches Err(e) ==> {
            &&& e == StreamError::WriteZero
            &&& after.content() == self.content() + data.take(self.room() as int)
        }
        &&& after.capacity() == self.capacity()
    }

    /// Writing text is writing all of its bytes.
    open spec fn write_fmt_post(
        &self,
        after: Self,
        text: Seq<char>,
        res: Result<(), StreamError>,
    ) -> bool {
        self.write_all_post(after, encode_utf8(text), res)
    }

    /// A flush never fails and changes nothing.
    open spec fn flush_post(&self, after: Self, res: Result<(), StreamError>) -> bool {
        res is Ok && after == *self
    }

    /// Takes as much of the front of `buf` as fits.
    fn write(&mut self, buf: &[u8]) -> (res: Result<usize, StreamError>) {
        Ok(self.take_front(buf))
    }

    /// Takes all of `buf` where it fits. Where it does not, the sink takes
    /// what fits and fails.
    fn write_all(&mut self, buf: &[u8]) -> (res: Result<(), StreamError>) {
        let n = self.take_front(buf);
        if n < buf.len() {
            Err(StreamError::WriteZero)
        } else {
            assert(buf@.take(n as int) =~= buf@);
            Ok(())
        }
    }

    /// Takes the bytes of `text` as `write_all` would.
    fn write_fmt(&mut self, text: &str) -> (res: Result<(), StreamError>) {
        self.write_all(text.as_bytes())
    }

    fn flush(&mut self) -> (res: Result<(), StreamError>) {
        Ok(())
    }
}

} // verus!
