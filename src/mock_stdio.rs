use vstd::prelude::*;

use crate::mock_io::{line_len, utf8_decoded, MockIo, MockIoError};
use crate::{Io, Lock, Write};
use crate::mock_io::MockIoLock;

verus! {

/// The bytes that a slot's buffer holds; an untouched slot holds none.
pub open spec fn slot_view(slot: Option<MockIo>) -> Seq<u8> {
    match slot {
        Some(m) => m@,
        None => Seq::empty(),
    }
}

/// Whether a slot's buffer is out with a locked view; an untouched slot is
/// not.
pub open spec fn slot_held(slot: Option<MockIo>) -> bool {
    match slot {
        Some(m) => m.is_held(),
        None => false,
    }
}

/// The buffer in `slot`, put there on first use.
fn slot_buffer(slot: &mut Option<MockIo>) -> (r: &mut MockIo)
    ensures
        *old(slot) matches Some(m) ==> *r == m,
        *old(slot) is None ==> r@ == Seq::<u8>::empty() && !r.is_held(),
        *final(slot) == Some(*final(r)),
{
    slot.get_or_insert(MockIo::new())
}

/// A mock of the three standard streams: one buffer each for input, output
/// and error. Each buffer comes into being on the first access to its slot;
/// every later access reaches that same buffer. Each instance is a world of
/// its own, so a unit of work that gets a fresh one sees no trace of others.
pub struct MockStdio {
    input: Option<MockIo>,
    output: Option<MockIo>,
    error: Option<MockIo>,
}

impl MockStdio {
    /// The input slot.
    pub closed spec fn input_slot(&self) -> Option<MockIo> {
        self.input
    }

    /// The output slot.
    pub closed spec fn output_slot(&self) -> Option<MockIo> {
        self.output
    }

    /// The error slot.
    pub closed spec fn error_slot(&self) -> Option<MockIo> {
        self.error
    }

    /// A mock with all three slots untouched.
    pub fn new() -> (r: MockStdio)
        ensures
            r.input_slot() is None,
            r.output_slot() is None,
            r.error_slot() is None,
    {
        MockStdio { input: None, output: None, error: None }
    }

    /// Replaces what the input stream holds with `data`.
    pub fn set_stdin(&mut self, data: &[u8]) -> (r: Result<(), MockIoError>)
        ensures
            slot_held(old(self).input_slot()) <==> r is Err,
            r is Ok ==> slot_view(final(self).input_slot()) == data@
                && !slot_held(final(self).input_slot()),
            r is Err ==> *final(self) == *old(self),
            r matches Err(e) ==> e == MockIoError::Poisoned,
            final(self).output_slot() == old(self).output_slot(),
            final(self).error_slot() == old(self).error_slot(),
    {
        slot_buffer(&mut self.input).set_data(data)
    }

    /// Appends `data` to what the input stream holds.
    pub fn extend_stdin(&mut self, data: &[u8]) -> (r: Result<(), MockIoError>)
        ensures
            slot_held(old(self).input_slot()) <==> r is Err,
            r is Ok ==> slot_view(final(self).input_slot()) == slot_view(old(self).input_slot())
                + data@ && !slot_held(final(self).input_slot()),
            r is Err ==> *final(self) == *old(self),
            r matches Err(e) ==> e == MockIoError::Poisoned,
            final(self).output_slot() == old(self).output_slot(),
            final(self).error_slot() == old(self).error_slot(),
    {
        match slot_buffer(&mut self.input).write(data) {
            Ok(_) => Ok(()),
            Err(e) => Err(e),
        }
    }

    /// Hands a snapshot of what the output stream holds to `check`; the
    /// stream keeps its bytes.
    pub fn check_stdout<F: FnOnce(&[u8])>(&mut self, check: F) -> (r: Result<(), MockIoError>)
        requires
            forall|b: &[u8]| check.requires((b,)),
        ensures
            slot_held(old(self).output_slot()) <==> r is Err,
            r is Ok ==> exists|b: &[u8]|
                b@ == slot_view(old(self).output_slot()) && #[trigger] check.ensures((b,), ()),
            r matches Err(e) ==> e == MockIoError::Poisoned,
            slot_view(final(self).output_slot()) == slot_view(old(self).output_slot()),
            slot_held(final(self).output_slot()) == slot_held(old(self).output_slot()),
            final(self).input_slot() == old(self).input_slot(),
            final(self).error_slot() == old(self).error_slot(),
    {
        inspect(slot_buffer(&mut self.output), check)
    }

    /// Hands a snapshot of what the error stream holds to `check`; the
    /// stream keeps its bytes.
    pub fn check_stderr<F: FnOnce(&[u8])>(&mut self, check: F) -> (r: Result<(), MockIoError>)
        requires
            forall|b: &[u8]| check.requires((b,)),
        ensures
            slot_held(old(self).error_slot()) <==> r is Err,
            r is Ok ==> exists|b: &[u8]|
                b@ == slot_view(old(self).error_slot()) && #[trigger] check.ensures((b,), ()),
            r matches Err(e) ==> e == MockIoError::Poisoned,
            slot_view(final(self).error_slot()) == slot_view(old(self).error_slot()),
            slot_held(final(self).error_slot()) == slot_held(old(self).error_slot()),
            final(self).input_slot() == old(self).input_slot(),
            final(self).output_slot() == old(self).output_slot(),
    {
        inspect(slot_buffer(&mut self.error), check)
    }
}

/// Hands a snapshot of `m` to `check`.
fn inspect<F: FnOnce(&[u8])>(m: &MockIo, check: F) -> (r: Result<(), MockIoError>)
    requires
        forall|b: &[u8]| check.requires((b,)),
    ensures
        m.is_held() <==> r is Err,
        r is Ok ==> exists|b: &[u8]| b@ == m@ && #[trigger] check.ensures((b,), ()),
        r matches Err(e) ==> e == MockIoError::Poisoned,
{
    match m.get_data() {
        Ok(data) => {
            let snapshot = data.as_slice();
            check(snapshot);
            Ok(())
        },
        Err(e) => Err(e),
    }
}

impl Io for MockStdio {
    type Input = MockIo;

    type Output = MockIo;

    type Error = MockIo;

    type Failure = MockIoError;

    /// The input buffer, made on first access.
    fn stdin(&mut self) -> (r: &mut MockIo)
        ensures
            old(self).input_slot() matches Some(m) ==> *r == m,
            old(self).input_slot() is None ==> r@ == Seq::<u8>::empty() && !r.is_held(),
            final(self).input_slot() == Some(*final(r)),
            final(self).output_slot() == old(self).output_slot(),
            final(self).error_slot() == old(self).error_slot(),
    {
        slot_buffer(&mut self.input)
    }

    /// The output buffer, made on first access.
    fn stdout(&mut self) -> (r: &mut MockIo)
        ensures
            old(self).output_slot() matches Some(m) ==> *r == m,
            old(self).output_slot() is None ==> r@ == Seq::<u8>::empty() && !r.is_held(),
            final(self).output_slot() == Some(*final(r)),
            final(self).input_slot() == old(self).input_slot(),
            final(self).error_slot() == old(self).error_slot(),
    {
        slot_buffer(&mut self.output)
    }

    /// The error buffer, made on first access.
    fn stderr(&mut self) -> (r: &mut MockIo)
        ensures
            old(self).error_slot() matches Some(m) ==> *r == m,
            old(self).error_slot() is None ==> r@ == Seq::<u8>::empty() && !r.is_held(),
            final(self).error_slot() == Some(*final(r)),
            final(self).input_slot() == old(self).input_slot(),
            final(self).output_slot() == old(self).output_slot(),
    {
        slot_buffer(&mut self.error)
    }

    /// Reads one line of the input buffer through its locked view, which
    /// goes back to the buffer afterwards.
    fn stdin_read_line(&mut self, buf: &mut String) -> (r: Result<usize, MockIoError>)
        ensures
            slot_held(old(self).input_slot()) ==> {
                &&& r == Err::<usize, MockIoError>(MockIoError::Poisoned)
                &&& *final(self) == *old(self)
                &&& final(buf)@ == old(buf)@
            },
            !slot_held(old(self).input_slot()) ==> {
                let s = slot_view(old(self).input_slot());
                let n = line_len(s);
                &&& slot_view(final(self).input_slot()) == s.skip(n as int)
                &&& !slot_held(final(self).input_slot())
                &&& match utf8_decoded(s.take(n as int)) {
                    Some(text) => r == Ok::<usize, MockIoError>(n as usize)
                        && final(buf)@ == old(buf)@ + text,
                    None => r == Err::<usize, MockIoError>(MockIoError::InvalidData)
                        && final(buf)@ == old(buf)@,
                }
            },
            final(self).output_slot() == old(self).output_slot(),
            final(self).error_slot() == old(self).error_slot(),
    {
        let input = slot_buffer(&mut self.input);
        match input.lock() {
            Ok(view) => {
                let mut view: MockIoLock = view;
                let r = view.read_line(buf);
                input.unlock(view);
                r
            },
            Err(e) => Err(e),
        }
    }
}

} // verus!
