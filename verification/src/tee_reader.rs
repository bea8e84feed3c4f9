//! A reader that hands every byte it delivers to a second stream as well.
//!
//! Every reading operation is the wrapped reader's operation followed by
//! the relay of its answer to the sink, and its promise says so: there is
//! an answer that the reader promises for this call, and the result and
//! the sink are what the relay makes of that answer. So whatever a reader
//! and a sink promise of themselves, the wrapper promises of the pair.

use vstd::prelude::*;
use vstd::utf8::encode_utf8;
use crate::error::StreamError;
use crate::relay::{relay, relay_all, relayed, relayed_all};
use crate::stream::{
    moved_partly, read_full, read_rest, read_scan, read_some, BufferedReadable, Readable, SeekFrom,
    Seekable, Writable,
};

verus! {

/// A reader which tees its input to another writer.
///
/// Reading goes to the wrapped reader; the bytes that a call hands to its
/// caller are written to the wrapped writer before the call returns.
/// Looking ahead and moving the position write nothing.
pub struct TeeReader<R, W> {
    reader: R,
    writer: W,
}

impl<R, W> TeeReader<R, W> {
    /// The stream that is read from.
    pub closed spec fn primary(&self) -> R {
        self.reader
    }

    /// The stream that receives the copy.
    pub closed spec fn sink(&self) -> W {
        self.writer
    }

    /// The wrapped reader.
    pub fn reader_ref(&self) -> (r: &R)
        ensures
            *r == self.primary(),
    {
        &self.reader
    }

    /// The wrapped reader, to be used directly. What is read from it this
    /// way is not mirrored.
    pub fn reader_mut(&mut self) -> (r: &mut R)
        ensures
            *r == old(self).primary(),
            final(self).primary() == *final(r),
            final(self).sink() == old(self).sink(),
    {
        &mut self.reader
    }

    /// The wrapped writer.
    pub fn writer_ref(&self) -> (w: &W)
        ensures
            *w == self.sink(),
    {
        &self.writer
    }

    /// The wrapped writer, to be used directly.
    pub fn writer_mut(&mut self) -> (w: &mut W)
        ensures
            *w == old(self).sink(),
            final(self).sink() == *final(w),
            final(self).primary() == old(self).primary(),
    {
        &mut self.writer
    }

    /// Takes the wrapper apart and gives both streams back.
    pub fn into_reader_writer(self) -> (pair: (R, W))
        ensures
            pair.0 == self.primary(),
            pair.1 == self.sink(),
    {
        (self.reader, self.writer)
    }
}

impl<R: Readable, W: Writable> TeeReader<R, W> {
    /// Every byte the sink has taken so far.
    pub open spec fn mirrored(&self) -> Seq<u8> {
        self.sink().accepted()
    }

    /// Wraps `reader` so that what is read from it is copied to `writer`.
    pub fn new(reader: R, writer: W) -> (tee: Self)
        ensures
            tee.primary() == reader,
            tee.sink() == writer,
    {
        Self { reader, writer }
    }
}

/// Gives every readable stream the means to be wrapped.
pub trait ReadExt: Readable + Sized {
    /// Wraps the stream so that what is read from it is copied to `out`.
    fn tee<W: Writable>(self, out: W) -> (tee: TeeReader<Self, W>)
        ensures
            tee.primary() == self,
            tee.sink() == out,
    ;
}

impl<R: Readable> ReadExt for R {
    fn tee<W: Writable>(self, out: W) -> (tee: TeeReader<Self, W>) {
        TeeReader::new(self, out)
    }
}

/// What a look ahead does to a wrapper: the sink and the unread bytes stay
/// as they were.
pub open spec fn peeked<R: Readable, W>(before: TeeReader<R, W>, after: TeeReader<R, W>) -> bool {
    after.sink() == before.sink() && after.primary().pending() == before.primary().pending()
}

/// However many times in a row a wrapper is looked ahead into, at the end
/// the sink is the one it was at the start, and so are the unread bytes.
pub proof fn lemma_peeks_mirror_nothing<R: Readable, W>(states: Seq<TeeReader<R, W>>)
    requires
        states.len() > 0,
        forall|i: int| 0 <= i < states.len() - 1 ==> peeked(states[i], #[trigger] states[i + 1]),
    ensures
        peeked(states[0], states.last()),
    decreases states.len(),
{
    if states.len() > 1 {
        let shorter = states.drop_last();
        assert forall|i: int| 0 <= i < shorter.len() - 1 implies peeked(
            shorter[i],
            #[trigger] shorter[i + 1],
        ) by {
            assert(shorter[i] == states[i]);
            assert(shorter[i + 1] == states[i + 1]);
        }
        lemma_peeks_mirror_nothing(shorter);
        assert(peeked(states[states.len() - 2], states[states.len() - 2 + 1]));
    }
}

impl<R: Readable, W: Writable> Readable for TeeReader<R, W> {
    open spec fn pending(&self) -> Seq<u8> {
        self.primary().pending()
    }

    /// The reader answered as it promises, and the result and the sink are
    /// what the relay makes of that answer and of `buf[0..n]`.
    open spec fn read_post(
        &self,
        after: Self,
        buf_before: Seq<u8>,
        buf_after: Seq<u8>,
        res: Result<usize, StreamError>,
    ) -> bool {
        exists|answer: Result<usize, StreamError>|
            {
                &&& #[trigger] self.primary().read_post(
                    after.primary(),
                    buf_before,
                    buf_after,
                    answer,
                )
                &&& read_some(
                    self.primary().pending(),
                    after.primary().pending(),
                    buf_before,
                    buf_after,
                    answer,
                )
                &&& relayed(self.sink(), after.sink(), answer, buf_after, 0, res)
            }
    }

    /// The reader answered as it promises, and the result and the sink are
    /// what the relay makes of that answer and of the appended bytes.
    open spec fn read_to_end_post(
        &self,
        after: Self,
        acc_before: Seq<u8>,
        acc_after: Seq<u8>,
        res: Result<usize, StreamError>,
    ) -> bool {
        exists|answer: Result<usize, StreamError>|
            {
                &&& #[trigger] self.primary().read_to_end_post(
                    after.primary(),
                    acc_before,
                    acc_after,
                    answer,
                )
                &&& read_rest(
                    self.primary().pending(),
                    after.primary().pending(),
                    acc_before,
                    acc_after,
                    answer,
                )
                &&& relayed(
                    self.sink(),
                    after.sink(),
                    answer,
                    acc_after,
                    acc_before.len() as int,
                    res,
                )
            }
    }

    /// The reader answered as it promises, and the result and the sink are
    /// what the relay makes of that answer and of the whole buffer.
    open spec fn read_exact_post(
        &self,
        after: Self,
        buf_before: Seq<u8>,
        buf_after: Seq<u8>,
        res: Result<(), StreamError>,
    ) -> bool {
        exists|answer: Result<(), StreamError>|
            {
                &&& #[trigger] self.primary().read_exact_post(
                    after.primary(),
                    buf_before,
                    buf_after,
                    answer,
                )
                &&& read_full(
                    self.primary().pending(),
                    after.primary().pending(),
                    buf_before,
                    buf_after,
                    answer,
                )
                &&& relayed_all(self.sink(), after.sink(), answer, buf_after, res)
            }
    }

    /// Reads one chunk and mirrors the bytes that were read.
    fn read(&mut self, buf: &mut [u8]) -> (res: Result<usize, StreamError>)
        ensures
            match res {
                Ok(n) => final(self).mirrored() == old(self).mirrored() + final(buf)@.take(
                    n as int,
                ),
                Err(_) => moved_partly(
                    old(self).pending(),
                    final(self).pending(),
                    old(self).mirrored(),
                    final(self).mirrored(),
                ),
            },
    {
        let outcome = self.reader.read(buf);
        let res = relay(&mut self.writer, outcome, buf, 0);
        proof {
            assert(old(self).primary().read_post(self.primary(), old(buf)@, buf@, outcome));
            assert(relayed(old(self).sink(), self.sink(), outcome, buf@, 0, res));
        }
        res
    }

    /// Reads to the end and mirrors what this call appended.
    fn read_to_end(&mut self, buf: &mut Vec<u8>) -> (res: Result<usize, StreamError>)
        ensures
            match res {
                Ok(n) => final(self).mirrored() == old(self).mirrored() + old(self).pending(),
                Err(_) => moved_partly(
                    old(self).pending(),
                    final(self).pending(),
                    old(self).mirrored(),
                    final(self).mirrored(),
                ),
            },
    {
        let start = buf.len();
        let outcome = self.reader.read_to_end(buf);
        let res = relay(&mut self.writer, outcome, buf.as_slice(), start);
        proof {
            if let Ok(n) = outcome {
                assert(buf@.subrange(start as int, start + n) =~= old(self).pending());
                assert(old(self).pending().take(n as int) =~= old(self).pending());
            }
            assert(old(self).primary().read_to_end_post(self.primary(), old(buf)@, buf@, outcome));
            assert(relayed(old(self).sink(), self.sink(), outcome, buf@, start as int, res));
        }
        res
    }

    /// Fills `buf` and mirrors all of it; mirrors nothing where the reader
    /// could not fill it.
    fn read_exact(&mut self, buf: &mut [u8]) -> (res: Result<(), StreamError>)
        ensures
            match res {
                Ok(()) => final(self).mirrored() == old(self).mirrored() + final(buf)@,
                Err(_) => moved_partly(
                    old(self).pending(),
                    final(self).pending(),
                    old(self).mirrored(),
                    final(self).mirrored(),
                ),
            },
    {
        let outcome = self.reader.read_exact(buf);
        let res = relay_all(&mut self.writer, outcome, buf);
        proof {
            assert(old(self).primary().read_exact_post(self.primary(), old(buf)@, buf@, outcome));
            assert(relayed_all(old(self).sink(), self.sink(), outcome, buf@, res));
        }
        res
    }
}

impl<R: BufferedReadable, W: Writable> BufferedReadable for TeeReader<R, W> {
    open spec fn buffered(&self) -> Seq<u8> {
        self.primary().buffered()
    }

    /// The reader answered as it promises, and the sink is as it was.
    open spec fn fill_buf_post(&self, after: Self, res: Result<Seq<u8>, StreamError>) -> bool {
        self.primary().fill_buf_post(after.primary(), res) && after.sink() == self.sink()
    }

    /// The reader did as it promises, and the sink is as it was.
    open spec fn consume_post(&self, after: Self, amt: usize) -> bool {
        self.primary().consume_post(after.primary(), amt) && after.sink() == self.sink()
    }

    /// The reader answered as it promises, and the result and the sink are
    /// what the relay makes of that answer and of the appended bytes.
    open spec fn read_until_post(
        &self,
        after: Self,
        byte: u8,
        acc_before: Seq<u8>,
        acc_after: Seq<u8>,
        res: Result<usize, StreamError>,
    ) -> bool {
        exists|answer: Result<usize, StreamError>|
            {
                &&& #[trigger] self.primary().read_until_post(
                    after.primary(),
                    byte,
                    acc_before,
                    acc_after,
                    answer,
                )
                &&& read_scan(
                    self.primary().pending(),
                    after.primary().pending(),
                    byte,
                    acc_before,
                    acc_after,
                    answer,
                )
                &&& relayed(
                    self.sink(),
                    after.sink(),
                    answer,
                    acc_after,
                    acc_before.len() as int,
                    res,
                )
            }
    }

    /// The reader answered as it promises, and the result and the sink are
    /// what the relay makes of that answer and of the bytes of the
    /// appended text.
    open spec fn read_line_post(
        &self,
        after: Self,
        text_before: Seq<char>,
        text_after: Seq<char>,
        res: Result<usize, StreamError>,
    ) -> bool {
        exists|answer: Result<usize, StreamError>|
            {
                &&& #[trigger] self.primary().read_line_post(
                    after.primary(),
                    text_before,
                    text_after,
                    answer,
                )
                &&& read_scan(
                    self.primary().pending(),
                    after.primary().pending(),
                    0x0a,
                    encode_utf8(text_before),
                    encode_utf8(text_after),
                    answer,
                )
                &&& relayed(
                    self.sink(),
                    after.sink(),
                    answer,
                    encode_utf8(text_after),
                    encode_utf8(text_before).len() as int,
                    res,
                )
            }
    }

    /// Shows what the reader has ready. Nothing is mirrored: the bytes
    /// have not been taken.
    fn fill_buf(&mut self) -> (res: Result<&[u8], StreamError>)
        ensures
            peeked(*old(self), *final(self)),
    {
        self.reader.fill_buf()
    }

    /// Takes bytes that were shown before. Nothing is mirrored.
    fn consume(&mut self, amt: usize)
        ensures
            final(self).sink() == old(self).sink(),
    {
        self.reader.consume(amt)
    }

    /// Reads up to the delimiter and mirrors what this call appended.
    fn read_until(&mut self, byte: u8, buf: &mut Vec<u8>) -> (res: Result<usize, StreamError>)
        ensures
            match res {
                Ok(n) => final(self).mirrored() == old(self).mirrored() + old(
                    self,
                ).pending().take(n as int),
                Err(_) => moved_partly(
                    old(self).pending(),
                    final(self).pending(),
                    old(self).mirrored(),
                    final(self).mirrored(),
                ),
            },
    {
        let initial_len = buf.len();
        let outcome = self.reader.read_until(byte, buf);
        let res = relay(&mut self.writer, outcome, buf.as_slice(), initial_len);
        proof {
            if let Ok(n) = outcome {
                assert(buf@.subrange(initial_len as int, initial_len + n) =~= old(
                    self,
                ).pending().take(n as int));
            }
            assert(old(self).primary().read_until_post(
                self.primary(),
                byte,
                old(buf)@,
                buf@,
                outcome,
            ));
            assert(relayed(old(self).sink(), self.sink(), outcome, buf@, initial_len as int, res));
        }
        res
    }

    /// Reads a line and mirrors the bytes of the text this call appended.
    fn read_line(&mut self, buf: &mut String) -> (res: Result<usize, StreamError>)
        ensures
            match res {
                Ok(n) => final(self).mirrored() == old(self).mirrored() + old(
                    self,
                ).pending().take(n as int),
                Err(_) => moved_partly(
                    old(self).pending(),
                    final(self).pending(),
                    old(self).mirrored(),
                    final(self).mirrored(),
                ),
            },
    {
        let initial_len = buf.as_str().as_bytes().len();
        let outcome = self.reader.read_line(buf);
        let bytes = buf.as_str().as_bytes();
        let res = relay(&mut self.writer, outcome, bytes, initial_len);
        proof {
            if let Ok(n) = outcome {
                assert(bytes@.subrange(initial_len as int, initial_len + n) =~= old(
                    self,
                ).pending().take(n as int));
            }
            assert(old(self).primary().read_line_post(self.primary(), old(buf)@, buf@, outcome));
            assert(relayed(
                old(self).sink(),
                self.sink(),
                outcome,
                encode_utf8(buf@),
                initial_len as int,
                res,
            ));
        }
        res
    }
}

impl<R: Seekable, W> Seekable for TeeReader<R, W> {
    open spec fn offset(&self) -> nat {
        self.primary().offset()
    }

    open spec fn extent(&self) -> nat {
        self.primary().extent()
    }

    /// The reader answered as it promises, and the sink is as it was.
    open spec fn seek_post(&self, after: Self, pos: SeekFrom, res: Result<u64, StreamError>) -> bool {
        self.primary().seek_post(after.primary(), pos, res) && after.sink() == self.sink()
    }

    /// The reader answered as it promises, and the sink is as it was.
    open spec fn stream_position_post(&self, after: Self, res: Result<u64, StreamError>) -> bool {
        self.primary().stream_position_post(after.primary(), res) && after.sink() == self.sink()
    }

    /// Moves the reader's position. Nothing is mirrored.
    fn seek(&mut self, pos: SeekFrom) -> (res: Result<u64, StreamError>)
        ensures
            final(self).sink() == old(self).sink(),
    {
        self.reader.seek(pos)
    }

    /// Reports the reader's position. Nothing is mirrored.
    fn stream_position(&mut self) -> (res: Result<u64, StreamError>)
        ensures
            final(self).sink() == old(self).sink(),
    {
        self.reader.stream_position()
    }
}

} // verus!
