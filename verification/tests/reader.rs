use tee_io::cursor::ByteCursor;
use tee_io::error::StreamError;
use tee_io::sink::BoundedSink;
use tee_io::stream::{BufferedReadable, Readable, SeekFrom, Seekable};
use tee_io::tee_reader::{ReadExt, TeeReader};

const TEXT: &[u8; 14] = b"Hello, world!\n";

#[test]
fn basic_read() {
    let text = b"Hello, world!\n";
    let mut buf = [0u8; 5];

    let mut reader = TeeReader::new(ByteCursor::new(text.to_vec()), BoundedSink::new(5));
    assert_eq!(reader.read(&mut buf), Ok(5));
    let (_, debug_buf) = reader.into_reader_writer();

    assert_eq!(buf, debug_buf.as_slice());
    assert_eq!(debug_buf.as_slice(), b"Hello");
}

#[test]
fn read_to_end() {
    let text = b"Hello, world!\n";
    let mut buf = Vec::with_capacity(text.len());
    let mut reader = TeeReader::new(ByteCursor::new(text.to_vec()), BoundedSink::new(14));
    assert_eq!(reader.read_to_end(&mut buf), Ok(14));
    let (_, debug_buf) = reader.into_reader_writer();
    assert_eq!(buf, debug_buf.as_slice());
    assert_eq!(debug_buf.as_slice(), text);
}

#[test]
fn buf_read() {
    let text = b"Hello, world!\n";
    let mut reader = TeeReader::new(ByteCursor::new(text.to_vec()), BoundedSink::new(14));
    let mut buf = Vec::with_capacity(text.len());
    assert_eq!(reader.read_until(b',', &mut buf), Ok(6));
    assert_eq!(buf, b"Hello,");
    assert_eq!(reader.writer_ref().as_slice(), b"Hello,");
    let mut string = String::new();
    assert_eq!(reader.read_line(&mut string), Ok(8));
    assert_eq!(string, " world!\n");
    let (_, debug_buf) = reader.into_reader_writer();
    assert_eq!(debug_buf.as_slice(), text);
}

#[test]
fn read_mirrors_each_chunk_in_order() {
    let mut reader = ByteCursor::new(TEXT.to_vec()).tee(Vec::new());
    let mut buf = [0u8; 4];
    let mut seen = Vec::new();
    loop {
        let n = reader.read(&mut buf).unwrap();
        if n == 0 {
            break;
        }
        seen.extend_from_slice(&buf[..n]);
        assert_eq!(reader.writer_ref(), &seen);
    }
    assert_eq!(seen, TEXT);
}

#[test]
fn short_read_mirrors_only_what_was_read() {
    let mut reader = TeeReader::new(ByteCursor::new(b"abc".to_vec()), Vec::new());
    let mut buf = [7u8; 8];
    assert_eq!(reader.read(&mut buf), Ok(3));
    assert_eq!(buf, [b'a', b'b', b'c', 7, 7, 7, 7, 7]);
    assert_eq!(reader.writer_ref(), b"abc");
    assert_eq!(reader.read(&mut buf), Ok(0));
    assert_eq!(reader.writer_ref(), b"abc");
}

#[test]
fn read_to_end_keeps_earlier_content_out_of_the_mirror() {
    let mut reader = TeeReader::new(ByteCursor::new(TEXT.to_vec()), Vec::new());
    let mut acc = b"before".to_vec();
    let mut first = [0u8; 7];
    assert_eq!(reader.read(&mut first), Ok(7));
    assert_eq!(reader.read_to_end(&mut acc), Ok(7));
    assert_eq!(acc, b"beforeworld!\n");
    assert_eq!(reader.writer_ref(), TEXT);
}

#[test]
fn read_exact_mirrors_the_whole_buffer() {
    let mut reader = TeeReader::new(ByteCursor::new(TEXT.to_vec()), Vec::new());
    let mut buf = [0u8; 7];
    assert_eq!(reader.read_exact(&mut buf), Ok(()));
    assert_eq!(&buf, b"Hello, ");
    assert_eq!(reader.writer_ref(), b"Hello, ");
}

#[test]
fn read_exact_past_the_end_mirrors_nothing() {
    let mut reader = TeeReader::new(ByteCursor::new(b"abc".to_vec()), Vec::new());
    let mut buf = [0u8; 4];
    assert_eq!(reader.read_exact(&mut buf), Err(StreamError::UnexpectedEof));
    assert_eq!(buf, [0u8; 4]);
    assert!(reader.writer_ref().is_empty());
    assert_eq!(reader.read(&mut buf), Ok(0));
}

#[test]
fn peeking_mirrors_nothing() {
    let mut reader = TeeReader::new(ByteCursor::new(TEXT.to_vec()), Vec::new());
    for _ in 0..3 {
        assert_eq!(reader.fill_buf(), Ok(&TEXT[..]));
        assert!(reader.writer_ref().is_empty());
    }
    let mut buf = Vec::new();
    assert_eq!(reader.read_until(b'o', &mut buf), Ok(5));
    assert_eq!(reader.writer_ref(), b"Hello");
    assert_eq!(reader.fill_buf(), Ok(&TEXT[5..]));
    assert_eq!(reader.writer_ref(), b"Hello");
}

#[test]
fn consuming_mirrors_nothing() {
    let mut reader = TeeReader::new(ByteCursor::new(TEXT.to_vec()), Vec::new());
    assert_eq!(reader.fill_buf().map(|shown| shown.len()), Ok(14));
    reader.consume(7);
    assert!(reader.writer_ref().is_empty());
    let mut line = String::new();
    assert_eq!(reader.read_line(&mut line), Ok(7));
    assert_eq!(line, "world!\n");
    assert_eq!(reader.writer_ref(), b"world!\n");
}

#[test]
fn read_until_without_delimiter_runs_to_the_end() {
    let mut reader = TeeReader::new(ByteCursor::new(b"no stop".to_vec()), Vec::new());
    let mut buf = vec![b'>'];
    assert_eq!(reader.read_until(b'!', &mut buf), Ok(7));
    assert_eq!(buf, b">no stop");
    assert_eq!(reader.writer_ref(), b"no stop");
    assert_eq!(reader.read_until(b'!', &mut buf), Ok(0));
    assert_eq!(reader.writer_ref(), b"no stop");
}

#[test]
fn read_line_mirrors_the_bytes_of_the_text() {
    let source = "añb\nßx".as_bytes().to_vec();
    let mut reader = TeeReader::new(ByteCursor::new(source), Vec::new());
    let mut line = String::from("é");
    assert_eq!(reader.read_line(&mut line), Ok(5));
    assert_eq!(line, "éañb\n");
    assert_eq!(reader.writer_ref(), "añb\n".as_bytes());
    assert_eq!(reader.read_line(&mut line), Ok(3));
    assert_eq!(line, "éañb\nßx");
    assert_eq!(reader.writer_ref(), "añb\nßx".as_bytes());
}

#[test]
fn read_line_refuses_bytes_that_are_not_text() {
    let mut reader = TeeReader::new(ByteCursor::new(vec![b'a', 0xff, b'\n', b'b']), Vec::new());
    let mut line = String::from("kept");
    assert_eq!(reader.read_line(&mut line), Err(StreamError::InvalidData));
    assert_eq!(line, "kept");
    assert!(reader.writer_ref().is_empty());
    assert_eq!(reader.read_line(&mut line), Ok(1));
    assert_eq!(line, "keptb");
    assert_eq!(reader.writer_ref(), b"b");
}

#[test]
fn read_fails_when_sink_is_full() {
    let mut buf = [0u8; 5];
    let mut reader = TeeReader::new(ByteCursor::new(TEXT.to_vec()), BoundedSink::new(3));
    assert_eq!(reader.read(&mut buf), Err(StreamError::WriteZero));
    assert_eq!(reader.writer_ref().as_slice(), b"Hel");
    assert_eq!(reader.reader_mut().stream_position(), Ok(5));
}

#[test]
fn seeking_mirrors_nothing() {
    let mut reader = TeeReader::new(ByteCursor::new(TEXT.to_vec()), Vec::new());
    assert_eq!(reader.seek(SeekFrom::Start(7)), Ok(7));
    assert_eq!(reader.stream_position(), Ok(7));
    assert_eq!(reader.seek(SeekFrom::End(-7)), Ok(7));
    assert_eq!(reader.seek(SeekFrom::Current(-2)), Ok(5));
    assert!(reader.writer_ref().is_empty());
    let mut buf = [0u8; 2];
    assert_eq!(reader.read(&mut buf), Ok(2));
    assert_eq!(reader.writer_ref(), b", ");
    assert_eq!(reader.seek(SeekFrom::Current(-8)), Err(StreamError::InvalidInput));
    assert_eq!(reader.stream_position(), Ok(7));
}

#[test]
fn accessors_reach_the_wrapped_streams() {
    let mut reader = TeeReader::new(ByteCursor::new(TEXT.to_vec()), Vec::new());
    let mut buf = [0u8; 5];
    assert_eq!(reader.reader_mut().read(&mut buf), Ok(5));
    assert!(reader.writer_ref().is_empty());
    reader.writer_mut().push(b'!');
    assert_eq!(reader.read(&mut buf), Ok(5));
    assert_eq!(reader.writer_ref(), b"!, wor");
    let (source, sink) = reader.into_reader_writer();
    assert_eq!(source.into_inner(), TEXT);
    assert_eq!(sink, b"!, wor");
}

#[test]
fn a_wrapper_can_be_wrapped() {
    let inner = TeeReader::new(ByteCursor::new(TEXT.to_vec()), Vec::new());
    let mut outer = inner.tee(BoundedSink::new(20));
    let mut buf = Vec::new();
    assert_eq!(outer.read_until(b' ', &mut buf), Ok(7));
    assert_eq!(outer.read_to_end(&mut buf), Ok(7));
    assert_eq!(outer.writer_ref().as_slice(), TEXT);
    assert_eq!(outer.reader_ref().writer_ref(), TEXT);
}
