//! The capabilities a stream can offer, each as a trait with its contract.
//!
//! A readable stream is modelled by the bytes it has yet to hand out, a
//! writable stream by the bytes it has taken so far. Every method says how
//! the model changes; none promises success, since that is for the stream
//! to decide. What one stream promises beyond that, it says in the
//! predicate that goes with the method, and a wrapper's contract hands
//! that promise on.
//!
//! Each model function has a body to fall back on. It is there for one
//! purpose: a stream written in plain Rust, where no model can be written,
//! can then implement a trait with its methods alone. The fallback is a
//! constant and no model of such a stream: under it no call that moves a
//! byte meets its contract. So what is proved of the wrappers is proved of
//! streams that give a model of their own, which Verus holds to the
//! contracts; of a stream that keeps the fallback nothing is proved, and
//! the wrappers do for it what their code does.

use vstd::prelude::*;
use vstd::utf8::encode_utf8;
use crate::error::StreamError;

verus! {

/// How many bytes a scan for `delim` takes from the front of `bytes`: up to
/// and including the first `delim`, or everything where there is none.
pub open spec fn scan_len(bytes: Seq<u8>, delim: u8) -> nat
    decreases bytes.len(),
{
    if bytes.len() == 0 {
        0
    } else if bytes[0] == delim {
        1
    } else {
        1 + scan_len(bytes.drop_first(), delim)
    }
}

/// Where the first `k` bytes hold no delimiter, the scan takes `k + 1`
/// bytes if the next one is the delimiter, and `k` if nothing comes next.
pub proof fn lemma_scan_found(bytes: Seq<u8>, delim: u8, k: int)
    requires
        0 <= k <= bytes.len(),
        forall|i: int| 0 <= i < k ==> bytes[i] != delim,
    ensures
        k < bytes.len() && bytes[k] == delim ==> scan_len(bytes, delim) == k + 1,
        k == bytes.len() ==> scan_len(bytes, delim) == k,
    decreases k,
{
    if k > 0 {
        let rest = bytes.drop_first();
        assert forall|i: int| 0 <= i < k - 1 implies rest[i] != delim by {
            assert(rest[i] == bytes[i + 1]);
        }
        lemma_scan_found(rest, delim, k - 1);
        if k < bytes.len() {
            assert(rest[k - 1] == bytes[k]);
        }
    }
}

/// `after` is `before` followed by some prefix of `data`.
pub open spec fn grew_within(before: Seq<u8>, after: Seq<u8>, data: Seq<u8>) -> bool {
    before.is_prefix_of(after) && after.is_prefix_of(before + data)
}

/// A stream gave up `taken` bytes from the front of `before`, leaving `after`.
pub open spec fn gave_up(before: Seq<u8>, after: Seq<u8>, taken: int) -> bool {
    0 <= taken <= before.len() && after == before.skip(taken)
}

/// A stream that went from `before` to `after` gave up some of its front,
/// and `grown` is `kept` followed by bytes from the start of what it gave up.
pub open spec fn moved_partly(
    before: Seq<u8>,
    after: Seq<u8>,
    kept: Seq<u8>,
    grown: Seq<u8>,
) -> bool {
    after.is_suffix_of(before) && grew_within(
        kept,
        grown,
        before.take(before.len() - after.len()),
    )
}

/// What one call of `write` may do to the bytes a stream has taken, and
/// answer, when offered `buf`. A stream that succeeds takes at least one
/// byte, unless it was offered none or was `stalled` when the call began.
pub open spec fn wrote(
    before: Seq<u8>,
    after: Seq<u8>,
    buf: Seq<u8>,
    stalled: bool,
    res: Result<usize, StreamError>,
) -> bool {
    match res {
        Ok(n) => {
            &&& n <= buf.len()
            &&& after == before + buf.take(n as int)
            &&& n == 0 ==> buf.len() == 0 || stalled
        },
        Err(_) => grew_within(before, after, buf),
    }
}

/// What one call of `write_all` may do to the bytes a stream has taken, and
/// answer, when given `data`.
pub open spec fn wrote_all(
    before: Seq<u8>,
    after: Seq<u8>,
    data: Seq<u8>,
    res: Result<(), StreamError>,
) -> bool {
    match res {
        Ok(()) => after == before + data,
        Err(_) => grew_within(before, after, data),
    }
}

/// What one call of `flush` may do and answer: what was taken stays taken,
/// and after a success nothing of it is held back.
pub open spec fn flushed_all(
    before: Seq<u8>,
    after: Seq<u8>,
    nothing_held: bool,
    res: Result<(), StreamError>,
) -> bool {
    after == before && (res is Ok ==> nothing_held)
}

/// What one call of `read` may do to the unread bytes and to the buffer,
/// and answer. A stream that succeeds hands out at least one byte, unless
/// the buffer has no room or nothing is left to hand out.
pub open spec fn read_some(
    before: Seq<u8>,
    after: Seq<u8>,
    buf_before: Seq<u8>,
    buf_after: Seq<u8>,
    res: Result<usize, StreamError>,
) -> bool {
    &&& buf_after.len() == buf_before.len()
    &&& match res {
        Ok(n) => {
            &&& n <= buf_before.len()
            &&& gave_up(before, after, n as int)
            &&& buf_after.take(n as int) == before.take(n as int)
            &&& n == 0 ==> buf_before.len() == 0 || before.len() == 0
        },
        Err(_) => after.is_suffix_of(before),
    }
}

/// What one call of `read_to_end` may do to the unread bytes and to the
/// accumulator, and answer.
pub open spec fn read_rest(
    before: Seq<u8>,
    after: Seq<u8>,
    acc_before: Seq<u8>,
    acc_after: Seq<u8>,
    res: Result<usize, StreamError>,
) -> bool {
    match res {
        Ok(n) => {
            &&& n == before.len()
            &&& after == Seq::<u8>::empty()
            &&& acc_after == acc_before + before
        },
        Err(_) => moved_partly(before, after, acc_before, acc_after),
    }
}

/// What one call of `read_exact` may do to the unread bytes and to the
/// buffer, and answer.
pub open spec fn read_full(
    before: Seq<u8>,
    after: Seq<u8>,
    buf_before: Seq<u8>,
    buf_after: Seq<u8>,
    res: Result<(), StreamError>,
) -> bool {
    &&& buf_after.len() == buf_before.len()
    &&& match res {
        Ok(()) => {
            &&& gave_up(before, after, buf_before.len() as int)
            &&& buf_after == before.take(buf_before.len() as int)
        },
        Err(_) => after.is_suffix_of(before),
    }
}

/// What one scan for `delim` may do to the unread bytes and to the bytes of
/// the accumulator, and answer.
pub open spec fn read_scan(
    before: Seq<u8>,
    after: Seq<u8>,
    delim: u8,
    acc_before: Seq<u8>,
    acc_after: Seq<u8>,
    res: Result<usize, StreamError>,
) -> bool {
    match res {
        Ok(n) => {
            &&& n == scan_len(before, delim)
            &&& gave_up(before, after, n as int)
            &&& acc_after == acc_before + before.take(n as int)
        },
        Err(_) => moved_partly(before, after, acc_before, acc_after),
    }
}

/// The position that a seek request names, counted from the start.
pub open spec fn seek_target(offset: nat, extent: nat, pos: SeekFrom) -> int {
    match pos {
        SeekFrom::Start(n) => n as int,
        SeekFrom::End(d) => extent + d,
        SeekFrom::Current(d) => offset + d,
    }
}

/// Where to move a stream's position to.
#[derive(Clone, Copy, Debug, PartialEq, Eq)]
pub enum SeekFrom {
    /// So many bytes after the start.
    Start(u64),
    /// So many bytes after the end; negative is before it.
    End(i64),
    /// So many bytes after the current position; negative is before it.
    Current(i64),
}

/// What a look ahead answered, with the bytes it showed as a sequence.
pub open spec fn shown(res: Result<&[u8], StreamError>) -> Result<Seq<u8>, StreamError> {
    match res {
        Ok(bytes) => Ok(bytes@),
        Err(e) => Err(e),
    }
}

/// A stream that bytes can be written to.
///
/// Beside the model, each method has a promise of its own, named after it.
/// The trait's methods state what holds of every stream; the promise is
/// where one stream says what more holds of it: when it succeeds, how
/// much it takes, which error it gives. It relates the stream before the
/// call to the stream after it, the call's arguments and the answer. A
/// stream that says nothing more keeps the fallback, which promises nothing.
pub trait Writable: Sized {
    /// Every byte the stream has taken so far, oldest first.
    open spec fn accepted(&self) -> Seq<u8> {
        Seq::empty()
    }

    /// Whether the stream holds back none of the bytes it has taken.
    open spec fn flushed(&self) -> bool {
        true
    }

    /// Whether the stream can take no more bytes.
    open spec fn stalled(&self) -> bool {
        false
    }

    /// This stream's own promise for `write`.
    open spec fn write_post(
        &self,
        after: Self,
        buf: Seq<u8>,
        res: Result<usize, StreamError>,
    ) -> bool {
        true
    }

    /// This stream's own promise for `write_all`.
    open spec fn write_all_post(
        &self,
        after: Self,
        data: Seq<u8>,
        res: Result<(), StreamError>,
    ) -> bool {
        true
    }

    /// This stream's own promise for `write_fmt`.
    open spec fn write_fmt_post(
        &self,
        after: Self,
        text: Seq<char>,
        res: Result<(), StreamError>,
    ) -> bool {
        true
    }

    /// This stream's own promise for `flush`.
    open spec fn flush_post(&self, after: Self, res: Result<(), StreamError>) -> bool {
        true
    }

    /// Offers `buf` and reports how many bytes from its front were taken.
    fn write(&mut self, buf: &[u8]) -> (res: Result<usize, StreamError>)
        ensures
            wrote(old(self).accepted(), final(self).accepted(), buf@, old(self).stalled(), res),
            old(self).write_post(*final(self), buf@, res),
    ;

    /// Writes the whole of `buf`, or fails having taken a part of it.
    fn write_all(&mut self, buf: &[u8]) -> (res: Result<(), StreamError>)
        ensures
            wrote_all(old(self).accepted(), final(self).accepted(), buf@, res),
            old(self).write_all_post(*final(self), buf@, res),
    ;

    /// Writes a finished piece of text as its UTF-8 bytes.
    fn write_fmt(&mut self, text: &str) -> (res: Result<(), StreamError>)
        ensures
            wrote_all(old(self).accepted(), final(self).accepted(), encode_utf8(text@), res),
            old(self).write_fmt_post(*final(self), text@, res),
    ;

    /// Pushes onward the bytes that are held back; what was taken stays
    /// taken.
    fn flush(&mut self) -> (res: Result<(), StreamError>)
        ensures
            flushed_all(old(self).accepted(), final(self).accepted(), final(self).flushed(), res),
            old(self).flush_post(*final(self), res),
    ;
}

/// A stream that bytes can be read from. Each method has a promise of its
/// own, as in [`Writable`].
pub trait Readable: Sized {
    /// The bytes the stream has yet to hand out, next first.
    open spec fn pending(&self) -> Seq<u8> {
        Seq::empty()
    }

    /// This stream's own promise for `read`.
    open spec fn read_post(
        &self,
        after: Self,
        buf_before: Seq<u8>,
        buf_after: Seq<u8>,
        res: Result<usize, StreamError>,
    ) -> bool {
        true
    }

    /// This stream's own promise for `read_to_end`.
    open spec fn read_to_end_post(
        &self,
        after: Self,
        acc_before: Seq<u8>,
        acc_after: Seq<u8>,
        res: Result<usize, StreamError>,
    ) -> bool {
        true
    }

    /// This stream's own promise for `read_exact`.
    open spec fn read_exact_post(
        &self,
        after: Self,
        buf_before: Seq<u8>,
        buf_after: Seq<u8>,
        res: Result<(), StreamError>,
    ) -> bool {
        true
    }

    /// Reads some bytes into the front of `buf` and reports how many.
    fn read(&mut self, buf: &mut [u8]) -> (res: Result<usize, StreamError>)
        ensures
            read_some(old(self).pending(), final(self).pending(), old(buf)@, final(buf)@, res),
            old(self).read_post(*final(self), old(buf)@, final(buf)@, res),
    ;

    /// Reads everything that is left and appends it to `buf`.
    fn read_to_end(&mut self, buf: &mut Vec<u8>) -> (res: Result<usize, StreamError>)
        ensures
            read_rest(old(self).pending(), final(self).pending(), old(buf)@, final(buf)@, res),
            old(self).read_to_end_post(*final(self), old(buf)@, final(buf)@, res),
    ;

    /// Fills the whole of `buf`, or fails.
    fn read_exact(&mut self, buf: &mut [u8]) -> (res: Result<(), StreamError>)
        ensures
            read_full(old(self).pending(), final(self).pending(), old(buf)@, final(buf)@, res),
            old(self).read_exact_post(*final(self), old(buf)@, final(buf)@, res),
    ;
}

/// A readable stream that keeps a look-ahead buffer.
pub trait BufferedReadable: Readable {
    /// The front of `pending` that the last `fill_buf` showed and that has
    /// not been consumed since.
    open spec fn buffered(&self) -> Seq<u8> {
        Seq::empty()
    }

    /// This stream's own promise for `fill_buf`.
    open spec fn fill_buf_post(&self, after: Self, res: Result<Seq<u8>, StreamError>) -> bool {
        true
    }

    /// This stream's own promise for `consume`.
    open spec fn consume_post(&self, after: Self, amt: usize) -> bool {
        true
    }

    /// This stream's own promise for `read_until`.
    open spec fn read_until_post(
        &self,
        after: Self,
        byte: u8,
        acc_before: Seq<u8>,
        acc_after: Seq<u8>,
        res: Result<usize, StreamError>,
    ) -> bool {
        true
    }

    /// This stream's own promise for `read_line`.
    open spec fn read_line_post(
        &self,
        after: Self,
        text_before: Seq<char>,
        text_after: Seq<char>,
        res: Result<usize, StreamError>,
    ) -> bool {
        true
    }

    /// Shows the bytes that are ready, without taking them. An empty
    /// answer means that the stream is at its end.
    fn fill_buf(&mut self) -> (res: Result<&[u8], StreamError>)
        ensures
            final(self).pending() == old(self).pending(),
            match res {
                Ok(bytes) => {
                    &&& bytes@ == final(self).buffered()
                    &&& bytes@.is_prefix_of(old(self).pending())
                    &&& bytes@.len() == 0 ==> old(self).pending().len() == 0
                },
                Err(_) => true,
            },
            old(self).fill_buf_post(*final(self), shown(res)),
    ;

    /// Takes `amt` of the bytes that `fill_buf` showed.
    fn consume(&mut self, amt: usize)
        requires
            amt <= old(self).buffered().len(),
        ensures
            final(self).pending() == old(self).pending().skip(amt as int),
            final(self).buffered() == old(self).buffered().skip(amt as int),
            old(self).consume_post(*final(self), amt),
    ;

    /// Reads up to and including the next `byte` and appends that to `buf`.
    fn read_until(&mut self, byte: u8, buf: &mut Vec<u8>) -> (res: Result<usize, StreamError>)
        ensures
            read_scan(
                old(self).pending(),
                final(self).pending(),
                byte,
                old(buf)@,
                final(buf)@,
                res,
            ),
            old(self).read_until_post(*final(self), byte, old(buf)@, final(buf)@, res),
    ;

    /// Reads up to and including the next line feed and appends that to
    /// `buf` as text.
    fn read_line(&mut self, buf: &mut String) -> (res: Result<usize, StreamError>)
        ensures
            read_scan(
                old(self).pending(),
                final(self).pending(),
                0x0a,
                encode_utf8(old(buf)@),
                encode_utf8(final(buf)@),
                res,
            ),
            old(self).read_line_post(*final(self), old(buf)@, final(buf)@, res),
    ;
}

/// A stream with a position that can be moved. Each method has a promise
/// of its own, as in [`Writable`].
pub trait Seekable: Sized {
    /// The current position, in bytes from the start.
    open spec fn offset(&self) -> nat {
        0
    }

    /// The position of the stream's end.
    open spec fn extent(&self) -> nat {
        0
    }

    /// This stream's own promise for `seek`.
    open spec fn seek_post(&self, after: Self, pos: SeekFrom, res: Result<u64, StreamError>) -> bool {
        true
    }

    /// This stream's own promise for `stream_position`.
    open spec fn stream_position_post(&self, after: Self, res: Result<u64, StreamError>) -> bool {
        true
    }

    /// Moves the position and reports the new one.
    fn seek(&mut self, pos: SeekFrom) -> (res: Result<u64, StreamError>)
        ensures
            res matches Ok(at) ==> {
                &&& at == seek_target(old(self).offset(), old(self).extent(), pos)
                &&& final(self).offset() == at
                &&& final(self).extent() == old(self).extent()
            },
            old(self).seek_post(*final(self), pos, res),
    ;

    /// Reports the current position.
    fn stream_position(&mut self) -> (res: Result<u64, StreamError>)
        ensures
            res matches Ok(at) ==> {
                &&& at == old(self).offset()
                &&& final(self).offset() == old(self).offset()
                &&& final(self).extent() == old(self).extent()
            },
            old(self).stream_position_post(*final(self), res),
    ;
}

} // verus!
