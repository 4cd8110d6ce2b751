use vstd::prelude::*;

use crate::{Lock, Read, Write};

verus! {

/// The byte that ends a line.
pub const NEWLINE: u8 = 10;

/// How many bytes a read moves out of `available` into a buffer of `room`
/// bytes: as many as fit, and no more than there are.
pub open spec fn read_len(available: Seq<u8>, room: Seq<u8>) -> nat {
    if room.len() < available.len() {
        room.len()
    } else {
        available.len()
    }
}

/// `i` is the position of the first newline of `s`.
pub open spec fn first_newline_at(s: Seq<u8>, i: int) -> bool {
    &&& 0 <= i < s.len()
    &&& s[i] == NEWLINE
    &&& forall|j: int| 0 <= j < i ==> s[j] != NEWLINE
}

/// The length of the first line of `s`: up to and including its first
/// newline, or the whole of `s` where it holds none.
pub open spec fn line_len(s: Seq<u8>) -> nat {
    if exists|i: int| first_newline_at(s, i) {
        ((choose|i: int| first_newline_at(s, i)) + 1) as nat
    } else {
        s.len()
    }
}

/// What `String::from_utf8` makes of a byte sequence: its text where the
/// bytes are valid UTF-8, `None` where they are not.
pub uninterp spec fn utf8_decoded(b: Seq<u8>) -> Option<Seq<char>>;

/// Relies on `String::from_utf8`: the text of `b` when `b` is valid UTF-8,
/// an error otherwise; the outcome depends on the bytes alone.
#[verifier::external_body]
fn decode_utf8(b: Vec<u8>) -> (r: Option<String>)
    ensures
        match r {
            Some(t) => utf8_decoded(b@) == Some(t@),
            None => utf8_decoded(b@) is None,
        },
{
    String::from_utf8(b).ok()
}

/// Why an operation on a mock buffer did not go through.
#[derive(Debug, Clone, Copy, PartialEq, Eq, Structural)]
pub enum MockIoError {
    /// The buffer's bytes are out with a locked view that was not handed
    /// back. Like a poisoned lock, the buffer refuses every access rather
    /// than act on what it no longer holds.
    Poisoned,
    /// A line read met bytes that are not valid UTF-8.
    InvalidData,
}

/// One direction of mocked I/O: a growable byte sequence. Writes append at
/// the tail, reads drain from the head.
pub struct MockIo {
    data: Vec<u8>,
    held: bool,
}

impl View for MockIo {
    type V = Seq<u8>;

    closed spec fn view(&self) -> Seq<u8> {
        self.data@
    }
}

impl MockIo {
    /// Whether the bytes are out with a locked view.
    pub closed spec fn is_held(&self) -> bool {
        self.held
    }

    /// An empty buffer.
    pub fn new() -> (r: MockIo)
        ensures
            r@ == Seq::<u8>::empty(),
            !r.is_held(),
    {
        MockIo { data: Vec::new(), held: false }
    }

    /// A copy of the current contents; the buffer is left as it was.
    pub fn get_data(&self) -> (r: Result<Vec<u8>, MockIoError>)
        ensures
            self.is_held() <==> r is Err,
            r matches Ok(v) ==> v@ == self@,
            r matches Err(e) ==> e == MockIoError::Poisoned,
    {
        if self.held {
            Err(MockIoError::Poisoned)
        } else {
            let v = self.data.clone();
            assert(v@ =~= self.data@);
            Ok(v)
        }
    }

    /// Replaces the whole contents with `data`.
    pub fn set_data(&mut self, data: &[u8]) -> (r: Result<(), MockIoError>)
        ensures
            old(self).is_held() <==> r is Err,
            r is Ok ==> final(self)@ == data@ && !final(self).is_held(),
            r is Err ==> *final(self) == *old(self) && r == Err::<(), MockIoError>(MockIoError::Poisoned),
    {
        if self.held {
            return Err(MockIoError::Poisoned);
        }
        self.data.clear();
        self.data.extend_from_slice(data);
        Ok(())
    }
}

impl Read for MockIo {
    type Failure = MockIoError;

    /// Drains up to `buf.len()` bytes from the head of the buffer into the
    /// front of `buf`; an empty buffer gives 0 and never waits for more.
    fn read(&mut self, buf: &mut [u8]) -> (r: Result<usize, MockIoError>)
        ensures
            old(self).is_held() ==> {
                &&& r == Err::<usize, MockIoError>(MockIoError::Poisoned)
                &&& *final(self) == *old(self)
                &&& final(buf)@ == old(buf)@
            },
            !old(self).is_held() ==> {
                let n = read_len(old(self)@, old(buf)@);
                &&& r == Ok::<usize, MockIoError>(n as usize)
                &&& final(buf)@ == old(self)@.take(n as int) + old(buf)@.skip(n as int)
                &&& final(self)@ == old(self)@.skip(n as int)
                &&& !final(self).is_held()
            },
    {
        if self.held {
            return Err(MockIoError::Poisoned);
        }
        Ok(read(&mut self.data, buf))
    }
}

impl Write for MockIo {
    type Failure = MockIoError;

    /// Appends all of `buf` to the tail of the buffer.
    fn write(&mut self, buf: &[u8]) -> (r: Result<usize, MockIoError>)
        ensures
            old(self).is_held() ==> r == Err::<usize, MockIoError>(MockIoError::Poisoned)
                && *final(self) == *old(self),
            !old(self).is_held() ==> r == Ok::<usize, MockIoError>(buf@.len() as usize)
                && final(self)@ == old(self)@ + buf@ && !final(self).is_held(),
    {
        if self.held {
            return Err(MockIoError::Poisoned);
        }
        Ok(write(&mut self.data, buf))
    }

    /// Nothing to do: the bytes are in place as soon as they are written.
    fn flush(&mut self) -> (r: Result<(), MockIoError>)
        ensures
            r is Ok,
            *final(self) == *old(self),
    {
        Ok(())
    }
}

impl Lock for MockIo {
    type Lock = MockIoLock;

    type Failure = MockIoError;

    /// Hands the bytes over to a locked view. Until the view comes back
    /// through `unlock`, the buffer refuses every access.
    fn lock(&mut self) -> (r: Result<MockIoLock, MockIoError>)
        ensures
            old(self).is_held() ==> r == Err::<MockIoLock, MockIoError>(MockIoError::Poisoned)
                && *final(self) == *old(self),
            !old(self).is_held() ==> (r matches Ok(l) && l@ == old(self)@ && final(self).is_held()),
    {
        if self.held {
            return Err(MockIoError::Poisoned);
        }
        let mut data: Vec<u8> = Vec::new();
        core::mem::swap(&mut data, &mut self.data);
        self.held = true;
        Ok(MockIoLock { data })
    }

    /// Takes back the bytes of a locked view; the buffer is usable again.
    fn unlock(&mut self, view: MockIoLock)
        ensures
            final(self)@ == view@,
            !final(self).is_held(),
    {
        self.data = view.data;
        self.held = false;
    }
}

/// The locked view of a buffer: it holds the buffer's bytes until it is
/// handed back, and offers peek-and-consume access to them.
pub struct MockIoLock {
    data: Vec<u8>,
}

impl View for MockIoLock {
    type V = Seq<u8>;

    closed spec fn view(&self) -> Seq<u8> {
        self.data@
    }
}

impl MockIoLock {
    /// All the unconsumed bytes, left in place.
    pub fn fill_buf(&self) -> (r: &[u8])
        ensures
            r@ == self@,
    {
        self.data.as_slice()
    }

    /// Drops `amount` bytes from the head.
    pub fn consume(&mut self, amount: usize)
        requires
            amount <= old(self)@.len(),
        ensures
            final(self)@ == old(self)@.skip(amount as int),
    {
        let rest = self.data.split_off(amount);
        self.data = rest;
    }

    /// Reads the first line, up to and including its newline or to the end
    /// of the bytes, and appends its text to `buf`. The line's bytes are
    /// consumed even where they are not valid UTF-8; `buf` is then left as
    /// it was.
    pub fn read_line(&mut self, buf: &mut String) -> (r: Result<usize, MockIoError>)
        ensures
            final(self)@ == old(self)@.skip(line_len(old(self)@) as int),
            match utf8_decoded(old(self)@.take(line_len(old(self)@) as int)) {
                Some(text) => r == Ok::<usize, MockIoError>(line_len(old(self)@) as usize)
                    && final(buf)@ == old(buf)@ + text,
                None => r == Err::<usize, MockIoError>(MockIoError::InvalidData)
                    && final(buf)@ == old(buf)@,
            },
    {
        let n = line_end(&self.data);
        let rest = self.data.split_off(n);
        let mut line: Vec<u8> = Vec::new();
        core::mem::swap(&mut line, &mut self.data);
        self.data = rest;
        proof {
            assert(line@ =~= old(self)@.take(n as int));
            assert(self.data@ =~= old(self)@.skip(n as int));
        }
        match decode_utf8(line) {
            Some(text) => {
                buf.append(text.as_str());
                Ok(n)
            },
            None => Err(MockIoError::InvalidData),
        }
    }
}

impl Read for MockIoLock {
    type Failure = MockIoError;

    /// As a buffer's own read, on the bytes that the view holds.
    fn read(&mut self, buf: &mut [u8]) -> (r: Result<usize, MockIoError>)
        ensures
            ({
                let n = read_len(old(self)@, old(buf)@);
                &&& r == Ok::<usize, MockIoError>(n as usize)
                &&& final(buf)@ == old(self)@.take(n as int) + old(buf)@.skip(n as int)
                &&& final(self)@ == old(self)@.skip(n as int)
            }),
    {
        Ok(read(&mut self.data, buf))
    }
}

impl Write for MockIoLock {
    type Failure = MockIoError;

    /// As a buffer's own write, on the bytes that the view holds.
    fn write(&mut self, buf: &[u8]) -> (r: Result<usize, MockIoError>)
        ensures
            r == Ok::<usize, MockIoError>(buf@.len() as usize),
            final(self)@ == old(self)@ + buf@,
    {
        Ok(write(&mut self.data, buf))
    }

    /// Nothing to do.
    fn flush(&mut self) -> (r: Result<(), MockIoError>)
        ensures
            r is Ok,
            *final(self) == *old(self),
    {
        Ok(())
    }
}

/// The length of the first line of `s`.
fn line_end(s: &Vec<u8>) -> (n: usize)
    ensures
        n == line_len(s@),
{
    let mut i: usize = 0;
    while i < s.len()
        invariant
            i <= s@.len(),
            forall|j: int| 0 <= j < i ==> s@[j] != NEWLINE,
        decreases s@.len() - i,
    {
        if s[i] == NEWLINE {
            assert(first_newline_at(s@, i as int));
            let ghost k = choose|k: int| first_newline_at(s@, k);
            assert(k == i) by {
                if k < i {
                    assert(s@[k] != NEWLINE);
                } else if k > i {
                    assert(s@[i as int] != NEWLINE);
                }
            }
            return i + 1;
        }
        i = i + 1;
    }
    assert(!exists|k: int| first_newline_at(s@, k));
    i
}

/// Moves `min(buf.len(), mock.len())` bytes from the head of `mock` into the
/// front of `buf`.
fn read(mock: &mut Vec<u8>, buf: &mut [u8]) -> (n: usize)
    ensures
        n == if old(buf)@.len() < old(mock)@.len() { old(buf)@.len() } else { old(mock)@.len() },
        final(buf)@ == old(mock)@.take(n as int) + old(buf)@.skip(n as int),
        final(mock)@ == old(mock)@.skip(n as int),
{
    let n: usize = if buf.len() < mock.len() { buf.len() } else { mock.len() };
    let mut i: usize = 0;
    while i < n
        invariant
            n <= buf.len(),
            n <= mock@.len(),
            i <= n,
            buf@.len() == old(buf)@.len(),
            forall|j: int| 0 <= j < i ==> buf@[j] == mock@[j],
            forall|j: int| i <= j < buf@.len() ==> buf@[j] == old(buf)@[j],
            *mock == *old(mock),
        decreases n - i,
    {
        buf[i] = mock[i];
        i = i + 1;
    }
    let rest = mock.split_off(n);
    *mock = rest;
    assert(buf@ =~= old(mock)@.take(n as int) + old(buf)@.skip(n as int));
    assert(mock@ =~= old(mock)@.skip(n as int));
    n
}

/// Appends all of `buf` to the tail of `mock`.
fn write(mock: &mut Vec<u8>, buf: &[u8]) -> (n: usize)
    ensures
        n == buf@.len(),
        final(mock)@ == old(mock)@ + buf@,
{
    mock.extend_from_slice(buf);
    buf.len()
}

/// A read takes its bytes from the head and nothing else: the bytes handed
/// out, followed by what the buffer holds afterwards, are exactly what it
/// held before, and what it holds afterwards is that many bytes shorter.
pub proof fn lemma_read_removes_head(s: Seq<u8>, room: Seq<u8>)
    ensures
        s.take(read_len(s, room) as int) + s.skip(read_len(s, room) as int) == s,
        s.skip(read_len(s, room) as int).len() == s.len() - read_len(s, room),
{
    assert(s.take(read_len(s, room) as int) + s.skip(read_len(s, room) as int) =~= s);
}

/// Everything that successive reads into a buffer shaped like `room` take
/// out of `s`, in order, until one of them takes nothing.
pub open spec fn drained(s: Seq<u8>, room: Seq<u8>) -> Seq<u8>
    decreases s.len(),
{
    let n = read_len(s, room);
    if n == 0 {
        Seq::empty()
    } else {
        s.take(n as int) + drained(s.skip(n as int), room)
    }
}

/// Reads give back what a buffer holds, whole and in order: draining `s`
/// through a buffer of any positive size yields exactly `s`.
pub proof fn lemma_drained_whole(s: Seq<u8>, room: Seq<u8>)
    requires
        room.len() > 0,
    ensures
        drained(s, room) == s,
    decreases s.len(),
{
    let n = read_len(s, room);
    if n > 0 {
        lemma_drained_whole(s.skip(n as int), room);
        assert(s.take(n as int) + s.skip(n as int) =~= s);
    } else {
        assert(s =~= Seq::<u8>::empty());
    }
}

/// Round trip: bytes `b` written to an empty buffer come back, all
/// `b.len()` of them and in order, from reads into a buffer of any positive
/// size taken until one gives nothing.
pub proof fn lemma_round_trip(b: Seq<u8>, room: Seq<u8>)
    requires
        room.len() > 0,
    ensures
        drained(Seq::<u8>::empty() + b, room) == b,
        drained(Seq::<u8>::empty() + b, room).len() == b.len(),
{
    assert(Seq::<u8>::empty() + b =~= b);
    lemma_drained_whole(b, room);
}

} // verus!
