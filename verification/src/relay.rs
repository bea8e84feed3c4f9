//! The second half of every mirrored operation: given how the first stream
//! answered, pass on to the second stream what the first one handled.
//!
//! Each function takes the first stream's answer as a value. A failure is
//! handed back as it came and the second stream is left untouched; after a
//! success the second stream is given exactly the bytes the answer covers,
//! and its own answer decides between the first answer and a failure.

use vstd::prelude::*;
use vstd::slice::slice_subrange;
use vstd::utf8::encode_utf8;
use crate::error::StreamError;
use crate::stream::{flushed_all, wrote_all, Writable};

verus! {

/// The answer of a mirrored operation once both streams have answered: the
/// first stream's, unless the second stream failed.
pub open spec fn settled<T>(first: T, second: Result<(), StreamError>) -> Result<T, StreamError> {
    match second {
        Ok(()) => Ok(first),
        Err(e) => Err(e),
    }
}

/// Where the first stream's answer carries nothing, the settled answer is
/// the second stream's.
pub proof fn lemma_settled_unit(second: Result<(), StreamError>)
    ensures
        settled((), second) == second,
{
    match second {
        Ok(unit) => {
            assert(unit == ());
        },
        Err(_) => {},
    }
}

/// What `relay` makes of the first stream's `answer`: a failure comes back
/// as it is, with the sink as it was; after a success the sink is asked to
/// take `data[start..start + n]`, and its answer, which is held to the
/// sink's own promise, settles the result.
pub open spec fn relayed<W: Writable>(
    before: W,
    after: W,
    answer: Result<usize, StreamError>,
    data: Seq<u8>,
    start: int,
    res: Result<usize, StreamError>,
) -> bool {
    match answer {
        Err(_) => res == answer && after == before,
        Ok(n) => exists|echo: Result<(), StreamError>|
            {
                &&& #[trigger] before.write_all_post(after, data.subrange(start, start + n), echo)
                &&& wrote_all(
                    before.accepted(),
                    after.accepted(),
                    data.subrange(start, start + n),
                    echo,
                )
                &&& res == settled(n, echo)
            },
    }
}

/// What `relay_all` makes of the first stream's `answer`: a failure comes
/// back as it is, with the sink as it was; after a success the sink is
/// asked to take all of `data`, and its answer is the result.
pub open spec fn relayed_all<W: Writable>(
    before: W,
    after: W,
    answer: Result<(), StreamError>,
    data: Seq<u8>,
    res: Result<(), StreamError>,
) -> bool {
    match answer {
        Err(_) => res == answer && after == before,
        Ok(()) => {
            &&& before.write_all_post(after, data, res)
            &&& wrote_all(before.accepted(), after.accepted(), data, res)
        },
    }
}

/// What `relay_text` makes of the first stream's `answer`: a failure comes
/// back as it is, with the sink as it was; after a success the sink is
/// asked to take `text`, and its answer is the result.
pub open spec fn relayed_text<W: Writable>(
    before: W,
    after: W,
    answer: Result<(), StreamError>,
    text: Seq<char>,
    res: Result<(), StreamError>,
) -> bool {
    match answer {
        Err(_) => res == answer && after == before,
        Ok(()) => {
            &&& before.write_fmt_post(after, text, res)
            &&& wrote_all(before.accepted(), after.accepted(), encode_utf8(text), res)
        },
    }
}

/// What `relay_flush` makes of the first stream's `answer`: a failure comes
/// back as it is, with the sink as it was; after a success the sink is
/// flushed, and its answer is the result.
pub open spec fn relayed_flush<W: Writable>(
    before: W,
    after: W,
    answer: Result<(), StreamError>,
    res: Result<(), StreamError>,
) -> bool {
    match answer {
        Err(_) => res == answer && after == before,
        Ok(()) => {
            &&& before.flush_post(after, res)
            &&& flushed_all(before.accepted(), after.accepted(), after.flushed(), res)
        },
    }
}

/// The answer of a mirrored operation once both streams have answered: the
/// first stream's, unless the second stream failed.
pub fn settle<T>(first: T, second: Result<(), StreamError>) -> (res: Result<T, StreamError>)
    ensures
        res == settled(first, second),
{
    match second {
        Ok(()) => Ok(first),
        Err(e) => Err(e),
    }
}

/// Passes on the `n` bytes of `data` from `start`, where the first stream
/// reported `n`.
pub fn relay<W: Writable>(
    sink: &mut W,
    outcome: Result<usize, StreamError>,
    data: &[u8],
    start: usize,
) -> (res: Result<usize, StreamError>)
    requires
        outcome matches Ok(n) ==> start + n <= data@.len(),
    ensures
        relayed(*old(sink), *final(sink), outcome, data@, start as int, res),
{
    match outcome {
        Ok(n) => {
            assert(data.len() == data@.len());
            let echo = sink.write_all(slice_subrange(data, start, start + n));
            settle(n, echo)
        },
        Err(e) => Err(e),
    }
}

/// Passes on the whole of `data`, where the first stream handled all of it.
pub fn relay_all<W: Writable>(sink: &mut W, outcome: Result<(), StreamError>, data: &[u8]) -> (res:
    Result<(), StreamError>)
    ensures
        relayed_all(*old(sink), *final(sink), outcome, data@, res),
{
    match outcome {
        Ok(()) => {
            let echo = sink.write_all(data);
            let res = settle((), echo);
            proof {
                lemma_settled_unit(echo);
            }
            res
        },
        Err(e) => Err(e),
    }
}

/// Passes on the text that the first stream took.
pub fn relay_text<W: Writable>(sink: &mut W, outcome: Result<(), StreamError>, text: &str) -> (res:
    Result<(), StreamError>)
    ensures
        relayed_text(*old(sink), *final(sink), outcome, text@, res),
{
    match outcome {
        Ok(()) => {
            let echo = sink.write_fmt(text);
            let res = settle((), echo);
            proof {
                lemma_settled_unit(echo);
            }
            res
        },
        Err(e) => Err(e),
    }
}

/// Flushes the second stream once the first one has been flushed.
pub fn relay_flush<W: Writable>(sink: &mut W, outcome: Result<(), StreamError>) -> (res: Result<
    (),
    StreamError,
>)
    ensures
        relayed_flush(*old(sink), *final(sink), outcome, res),
{
    match outcome {
        Ok(()) => {
            let echo = sink.flush();
            let res = settle((), echo);
            proof {
                lemma_settled_unit(echo);
            }
            res
        },
        Err(e) => Err(e),
    }
}

} // verus!
