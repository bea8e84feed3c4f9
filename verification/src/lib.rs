//! Stream wrappers that copy the traffic of one stream into a second one.
//!
//! [`TeeReader`] reads from one stream and writes what it read to another;
//! [`TeeWriter`] writes to one stream and then to another. Both are streams
//! themselves, so that a caller can go on as if nothing were wrapped.

pub mod cursor;
pub mod error;
pub mod relay;
pub mod sink;
pub mod stream;
pub mod tee_reader;
pub mod tee_writer;
pub mod text;

pub use cursor::ByteCursor;
pub use error::StreamError;
pub use sink::BoundedSink;
pub use stream::{BufferedReadable, Readable, SeekFrom, Seekable, Writable};
pub use tee_reader::{ReadExt, TeeReader};
pub use tee_writer::{TeeWriter, WriteExt};
