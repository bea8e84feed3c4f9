//! A writer that hands every byte it takes to a second stream as well.
//!
//! Every operation is the left stream's operation followed by the relay of
//! its answer to the right stream, and its promise says so: there is an
//! answer that the left stream promises for this call, and the result and
//! the right stream are what the relay makes of that answer. So whatever
//! the two streams promise of themselves, the wrapper promises of the pair.

use vstd::prelude::*;
use vstd::utf8::encode_utf8;
use crate::error::StreamError;
use crate::relay::{
    relay, relay_all, relay_flush, relay_text, relayed, relayed_all, relayed_flush, relayed_text,
};
use crate::stream::{flushed_all, grew_within, wrote, wrote_all, Writable};

verus! {

/// What the second stream gained is a prefix of what the first one gained.
pub open spec fn lagged(
    left_before: Seq<u8>,
    left_after: Seq<u8>,
    right_before: Seq<u8>,
    right_after: Seq<u8>,
) -> bool {
    left_before.is_prefix_of(left_after) && grew_within(
        right_before,
        right_after,
        left_after.skip(left_before.len() as int),
    )
}

/// A writer which tees its output to another writer.
///
/// Writing goes to the left stream; what the left stream took is written
/// to the right stream before the call returns.
pub struct TeeWriter<L, R> {
    left: L,
    right: R,
}

impl<L, R> TeeWriter<L, R> {
    /// The stream that is written to first.
    pub closed spec fn left(&self) -> L {
        self.left
    }

    /// The stream that receives the copy.
    pub closed spec fn right(&self) -> R {
        self.right
    }

    /// The stream that is written to first.
    pub fn left_ref(&self) -> (l: &L)
        ensures
            *l == self.left(),
    {
        &self.left
    }

    /// The stream that receives the copy.
    pub fn right_ref(&self) -> (r: &R)
        ensures
            *r == self.right(),
    {
        &self.right
    }

    /// Takes the wrapper apart and gives both streams back.
    pub fn into_inner(self) -> (pair: (L, R))
        ensures
            pair.0 == self.left(),
            pair.1 == self.right(),
    {
        (self.left, self.right)
    }
}

impl<L: Writable, R: Writable> TeeWriter<L, R> {
    /// Every byte the right stream has taken so far.
    pub open spec fn mirrored(&self) -> Seq<u8> {
        self.right().accepted()
    }

    /// Wraps `left` so that what it takes is copied to `right`.
    pub fn new(left: L, right: R) -> (tee: Self)
        ensures
            tee.left() == left,
            tee.right() == right,
    {
        Self { left, right }
    }
}

/// Gives every writable stream the means to be wrapped.
pub trait WriteExt: Writable + Sized {
    /// Wraps the stream so that what is written to it is copied to `other`.
    fn tee<R: Writable>(self, other: R) -> (tee: TeeWriter<Self, R>)
        ensures
            tee.left() == self,
            tee.right() == other,
    ;
}

impl<W: Writable> WriteExt for W {
    fn tee<R: Writable>(self, other: R) -> (tee: TeeWriter<Self, R>) {
        TeeWriter::new(self, other)
    }
}

impl<L: Writable, R: Writable> Writable for TeeWriter<L, R> {
    open spec fn accepted(&self) -> Seq<u8> {
        self.left().accepted()
    }

    open spec fn flushed(&self) -> bool {
        self.left().flushed() && self.right().flushed()
    }

    open spec fn stalled(&self) -> bool {
        self.left().stalled()
    }

    /// The left answered as it promises, and the result and the right are
    /// what the relay makes of that answer and of `buf[0..n]`.
    open spec fn write_post(
        &self,
        after: Self,
        buf: Seq<u8>,
        res: Result<usize, StreamError>,
    ) -> bool {
        exists|answer: Result<usize, StreamError>|
            {
                &&& #[trigger] self.left().write_post(after.left(), buf, answer)
                &&& wrote(
                    self.left().accepted(),
                    after.left().accepted(),
                    buf,
                    self.left().stalled(),
                    answer,
                )
                &&& relayed(self.right(), after.right(), answer, buf, 0, res)
            }
    }

    /// The left answered as it promises, and the result and the right are
    /// what the relay makes of that answer and of all the data.
    open spec fn write_all_post(
        &self,
        after: Self,
        data: Seq<u8>,
        res: Result<(), StreamError>,
    ) -> bool {
        exists|answer: Result<(), StreamError>|
            {
                &&& #[trigger] self.left().write_all_post(after.left(), data, answer)
                &&& wrote_all(self.left().accepted(), after.left().accepted(), data, answer)
                &&& relayed_all(self.right(), after.right(), answer, data, res)
            }
    }

    /// The left answered as it promises, and the result and the right are
    /// what the relay makes of that answer and of the text.
    open spec fn write_fmt_post(
        &self,
        after: Self,
        text: Seq<char>,
        res: Result<(), StreamError>,
    ) -> bool {
        exists|answer: Result<(), StreamError>|
            {
                &&& #[trigger] self.left().write_fmt_post(after.left(), text, answer)
                &&& wrote_all(
                    self.left().accepted(),
                    after.left().accepted(),
                    encode_utf8(text),
                    answer,
                )
                &&& relayed_text(self.right(), after.right(), answer, text, res)
            }
    }

    /// The left answered as it promises, and the result and the right are
    /// what the relay makes of that answer.
    open spec fn flush_post(&self, after: Self, res: Result<(), StreamError>) -> bool {
        exists|answer: Result<(), StreamError>|
            {
                &&& #[trigger] self.left().flush_post(after.left(), answer)
                &&& flushed_all(
                    self.left().accepted(),
                    after.left().accepted(),
                    after.left().flushed(),
                    answer,
                )
                &&& relayed_flush(self.right(), after.right(), answer, res)
            }
    }

    /// Writes one chunk to the left and mirrors the part that was taken.
    fn write(&mut self, buf: &[u8]) -> (res: Result<usize, StreamError>)
        ensures
            match res {
                Ok(n) => final(self).mirrored() == old(self).mirrored() + buf@.take(n as int),
                Err(_) => lagged(
                    old(self).accepted(),
                    final(self).accepted(),
                    old(self).mirrored(),
                    final(self).mirrored(),
                ),
            },
    {
        let outcome = self.left.write(buf);
        let res = relay(&mut self.right, outcome, buf, 0);
        proof {
            assert(old(self).left().write_post(self.left(), buf@, outcome));
            assert(relayed(old(self).right(), self.right(), outcome, buf@, 0, res));
            if let Ok(n) = outcome {
                assert(self.left.accepted().skip(old(self).left.accepted().len() as int)
                    =~= buf@.take(n as int));
            }
        }
        res
    }

    /// Writes all of `buf` to the left, then all of it to the right.
    fn write_all(&mut self, buf: &[u8]) -> (res: Result<(), StreamError>)
        ensures
            match res {
                Ok(()) => final(self).mirrored() == old(self).mirrored() + buf@,
                Err(_) => lagged(
                    old(self).accepted(),
                    final(self).accepted(),
                    old(self).mirrored(),
                    final(self).mirrored(),
                ),
            },
    {
        let outcome = self.left.write_all(buf);
        let res = relay_all(&mut self.right, outcome, buf);
        proof {
            assert(old(self).left().write_all_post(self.left(), buf@, outcome));
            assert(relayed_all(old(self).right(), self.right(), outcome, buf@, res));
            if outcome is Ok {
                assert(self.left.accepted().skip(old(self).left.accepted().len() as int)
                    =~= buf@);
            }
        }
        res
    }

    /// Writes the text to the left, then the same text to the right.
    fn write_fmt(&mut self, text: &str) -> (res: Result<(), StreamError>)
        ensures
            match res {
                Ok(()) => final(self).mirrored() == old(self).mirrored() + encode_utf8(text@),
                Err(_) => lagged(
                    old(self).accepted(),
                    final(self).accepted(),
                    old(self).mirrored(),
                    final(self).mirrored(),
                ),
            },
    {
        let outcome = self.left.write_fmt(text);
        let res = relay_text(&mut self.right, outcome, text);
        proof {
            assert(old(self).left().write_fmt_post(self.left(), text@, outcome));
            assert(relayed_text(old(self).right(), self.right(), outcome, text@, res));
            if outcome is Ok {
                assert(self.left.accepted().skip(old(self).left.accepted().len() as int)
                    =~= encode_utf8(text@));
            }
        }
        res
    }

    /// Flushes the left, and after it the right.
    fn flush(&mut self) -> (res: Result<(), StreamError>)
        ensures
            final(self).mirrored() == old(self).mirrored(),
    {
        let outcome = self.left.flush();
        let res = relay_flush(&mut self.right, outcome);
        proof {
            assert(old(self).left().flush_post(self.left(), outcome));
            assert(relayed_flush(old(self).right(), self.right(), outcome, res));
        }
        res
    }
}

} // verus!
