use tee_io::error::StreamError;
use tee_io::relay::{relay, relay_all, relay_flush, relay_text, settle};
use tee_io::sink::BoundedSink;
use tee_io::stream::Writable;
use tee_io::tee_writer::{TeeWriter, WriteExt};

#[test]
fn write_all_twice_fills_both_in_order() {
    let mut writer = TeeWriter::new(Vec::new(), Vec::new());
    assert_eq!(writer.write_all(b"abc"), Ok(()));
    assert_eq!(writer.write_all(b"def"), Ok(()));
    let (left, right) = writer.into_inner();
    assert_eq!(left, b"abcdef");
    assert_eq!(right, b"abcdef");
}

#[test]
fn write_mirrors_what_the_left_took() {
    let mut writer = TeeWriter::new(BoundedSink::new(2), Vec::new());
    assert_eq!(writer.write(b"abcde"), Ok(2));
    assert_eq!(writer.left_ref().as_slice(), b"ab");
    assert_eq!(writer.right_ref(), b"ab");
    assert_eq!(writer.write(b"cde"), Ok(0));
    assert_eq!(writer.right_ref(), b"ab");
}

#[test]
fn write_takes_everything_where_it_fits() {
    let mut writer = Vec::new().tee(BoundedSink::new(8));
    assert_eq!(writer.write(b"abcde"), Ok(5));
    assert_eq!(writer.left_ref(), b"abcde");
    assert_eq!(writer.right_ref().as_slice(), b"abcde");
}

#[test]
fn left_failure_keeps_the_right_untouched() {
    let mut writer = TeeWriter::new(BoundedSink::new(4), Vec::new());
    assert_eq!(writer.write_all(b"abc"), Ok(()));
    assert_eq!(writer.write_all(b"def"), Err(StreamError::WriteZero));
    assert_eq!(writer.left_ref().as_slice(), b"abcd");
    assert_eq!(writer.right_ref(), b"abc");
    assert_eq!(writer.write_fmt("gh"), Err(StreamError::WriteZero));
    assert_eq!(writer.right_ref(), b"abc");
}

#[test]
fn right_failure_is_reported_after_the_left_took_the_data() {
    let mut writer = TeeWriter::new(Vec::new(), BoundedSink::new(4));
    assert_eq!(writer.write(b"abc"), Ok(3));
    assert_eq!(writer.write(b"def"), Err(StreamError::WriteZero));
    assert_eq!(writer.left_ref(), b"abcdef");
    assert_eq!(writer.right_ref().as_slice(), b"abcd");
}

#[test]
fn write_fmt_sends_the_same_text_to_both() {
    let mut writer = TeeWriter::new(Vec::new(), Vec::new());
    let text = format!("{}-{:03}-é", "x", 7);
    assert_eq!(writer.write_fmt(&text), Ok(()));
    assert_eq!(writer.left_ref(), "x-007-é".as_bytes());
    assert_eq!(writer.right_ref(), "x-007-é".as_bytes());
}

#[test]
fn flush_changes_nothing() {
    let mut writer = TeeWriter::new(Vec::new(), BoundedSink::new(3));
    assert_eq!(writer.write_all(b"abc"), Ok(()));
    assert_eq!(writer.flush(), Ok(()));
    assert_eq!(writer.left_ref(), b"abc");
    assert_eq!(writer.right_ref().as_slice(), b"abc");
}

#[test]
fn a_writer_can_be_wrapped_again() {
    let mut writer = TeeWriter::new(Vec::new(), Vec::new()).tee(Vec::new());
    assert_eq!(writer.write_all(b"abc"), Ok(()));
    let (inner, third) = writer.into_inner();
    let (first, second) = inner.into_inner();
    assert_eq!(first, b"abc");
    assert_eq!(second, b"abc");
    assert_eq!(third, b"abc");
}

#[test]
fn bounded_sink_takes_what_fits() {
    let mut sink = BoundedSink::new(4);
    assert_eq!(sink.write(b"ab"), Ok(2));
    assert_eq!(sink.write(b"cdef"), Ok(2));
    assert_eq!(sink.write(b"g"), Ok(0));
    assert_eq!(sink.write_all(b""), Ok(()));
    assert_eq!(sink.write_all(b"g"), Err(StreamError::WriteZero));
    assert_eq!(sink.flush(), Ok(()));
    assert_eq!(sink.as_slice(), b"abcd");
}

#[test]
fn settle_prefers_the_second_failure() {
    assert_eq!(settle(5usize, Ok(())), Ok(5));
    assert_eq!(settle(5usize, Err(StreamError::Other)), Err(StreamError::Other));
    assert_eq!(settle((), Err(StreamError::WouldBlock)), Err(StreamError::WouldBlock));
}

#[test]
fn relay_hands_a_failure_back_and_writes_nothing() {
    let mut sink = b"x".to_vec();
    assert_eq!(relay(&mut sink, Err(StreamError::Interrupted), b"abcdef", 0), Err(StreamError::Interrupted));
    assert_eq!(relay_all(&mut sink, Err(StreamError::WouldBlock), b"abcdef"), Err(StreamError::WouldBlock));
    assert_eq!(relay_text(&mut sink, Err(StreamError::Other), "abc"), Err(StreamError::Other));
    assert_eq!(relay_flush(&mut sink, Err(StreamError::UnexpectedEof)), Err(StreamError::UnexpectedEof));
    assert_eq!(sink, b"x");
}

#[test]
fn relay_passes_on_the_range_that_was_handled() {
    let mut sink = b"x".to_vec();
    assert_eq!(relay(&mut sink, Ok(3), b"abcdef", 2), Ok(3));
    assert_eq!(sink, b"xcde");
    assert_eq!(relay(&mut sink, Ok(0), b"abcdef", 6), Ok(0));
    assert_eq!(sink, b"xcde");
    assert_eq!(relay_all(&mut sink, Ok(()), b"fg"), Ok(()));
    assert_eq!(relay_text(&mut sink, Ok(()), "hi"), Ok(()));
    assert_eq!(relay_flush(&mut sink, Ok(())), Ok(()));
    assert_eq!(sink, b"xcdefghi");
}

#[test]
fn relay_reports_a_sink_that_is_full() {
    let mut sink = BoundedSink::new(2);
    assert_eq!(relay(&mut sink, Ok(3), b"abcdef", 1), Err(StreamError::WriteZero));
    assert_eq!(sink.as_slice(), b"bc");
}
