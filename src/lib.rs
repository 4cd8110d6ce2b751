//! In-memory stand-ins for the standard streams, so that code that reads
//! stdin and writes stdout or stderr can be exercised without the real ones.

use vstd::prelude::*;

mod mock_io;
mod mock_stdio;

pub use mock_io::{
    drained, first_newline_at, lemma_drained_whole, lemma_read_removes_head, lemma_round_trip,
    line_len, read_len, utf8_decoded, MockIo, MockIoError, MockIoLock, NEWLINE,
};
pub use mock_stdio::{slot_held, slot_view, MockStdio};

verus! {

/// A source of bytes.
pub trait Read {
    type Failure;

    /// Reads into the front of `buf`, giving how many bytes came.
    fn read(&mut self, buf: &mut [u8]) -> Result<usize, Self::Failure>;
}

/// A sink of bytes.
pub trait Write {
    type Failure;

    /// Writes from `buf`, giving how many bytes went.
    fn write(&mut self, buf: &[u8]) -> Result<usize, Self::Failure>;

    /// Pushes out whatever is pending.
    fn flush(&mut self) -> Result<(), Self::Failure>;
}

/// A stream that can hand out a locked view for buffered access, held until
/// it is given back.
pub trait Lock {
    type Lock;

    type Failure;

    /// Takes the locked view.
    fn lock(&mut self) -> Result<Self::Lock, Self::Failure>;

    /// Gives the locked view back.
    fn unlock(&mut self, view: Self::Lock);
}

/// A provider of the three standard streams. Code written against it runs
/// unchanged on the real streams or on mock ones.
pub trait Io {
    type Input: Read + Lock;

    type Output: Write + Lock;

    type Error: Write + Lock;

    type Failure;

    /// The input stream.
    fn stdin(&mut self) -> &mut Self::Input;

    /// The output stream.
    fn stdout(&mut self) -> &mut Self::Output;

    /// The error stream.
    fn stderr(&mut self) -> &mut Self::Error;

    /// Reads one line of the input stream into `buf`, giving the number of
    /// bytes that it took.
    fn stdin_read_line(&mut self, buf: &mut String) -> Result<usize, Self::Failure>;
}

} // verus!
