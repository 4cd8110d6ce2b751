use mock_io::{Io, Lock, MockIo, MockIoError, MockStdio, Read, Write};

fn drain_all(m: &mut MockIo, room: usize) -> Vec<u8> {
    let mut out = Vec::new();
    loop {
        let mut buf = vec![0u8; room];
        let n = m.read(&mut buf).unwrap();
        if n == 0 {
            return out;
        }
        out.extend_from_slice(&buf[..n]);
    }
}

#[test]
fn round_trip_through_small_reads() {
    let mut m = MockIo::new();
    let data: Vec<u8> = (0u8..=200).collect();
    assert_eq!(m.write(&data).unwrap(), data.len());
    let back = drain_all(&mut m, 7);
    assert_eq!(back, data);
    assert_eq!(back.len(), 201);
}

#[test]
fn round_trip_empty() {
    let mut m = MockIo::new();
    assert_eq!(m.write(b"").unwrap(), 0);
    assert_eq!(drain_all(&mut m, 4), Vec::<u8>::new());
}

#[test]
fn read_is_destructive() {
    let mut m = MockIo::new();
    m.write(b"abcdef").unwrap();
    let mut buf = [0u8; 4];
    assert_eq!(m.read(&mut buf).unwrap(), 4);
    assert_eq!(&buf, b"abcd");
    assert_eq!(m.get_data().unwrap(), b"ef".to_vec());
}

#[test]
fn short_read_leaves_tail_of_buffer() {
    let mut m = MockIo::new();
    m.write(b"xy").unwrap();
    let mut buf = [9u8; 5];
    assert_eq!(m.read(&mut buf).unwrap(), 2);
    assert_eq!(buf, [b'x', b'y', 9, 9, 9]);
    assert_eq!(m.get_data().unwrap(), Vec::<u8>::new());
}

#[test]
fn snapshot_is_not_destructive() {
    let mut m = MockIo::new();
    m.write(b"keep").unwrap();
    assert_eq!(m.get_data().unwrap(), b"keep".to_vec());
    assert_eq!(m.get_data().unwrap(), b"keep".to_vec());
    let mut buf = [0u8; 4];
    assert_eq!(m.read(&mut buf).unwrap(), 4);
    assert_eq!(&buf, b"keep");
}

#[test]
fn set_data_replaces_everything() {
    let mut m = MockIo::new();
    m.write(b"old contents").unwrap();
    m.set_data(b"new").unwrap();
    assert_eq!(m.get_data().unwrap(), b"new".to_vec());
    m.set_data(b"").unwrap();
    assert_eq!(m.get_data().unwrap(), Vec::<u8>::new());
}

#[test]
fn flush_changes_nothing() {
    let mut m = MockIo::new();
    m.write(b"z").unwrap();
    m.flush().unwrap();
    assert_eq!(m.get_data().unwrap(), b"z".to_vec());
}

#[test]
fn unreturned_lock_poisons_buffer() {
    let mut m = MockIo::new();
    m.write(b"data").unwrap();
    let view = m.lock().unwrap();
    drop(view);
    assert_eq!(m.get_data(), Err(MockIoError::Poisoned));
    assert_eq!(m.set_data(b"x"), Err(MockIoError::Poisoned));
    assert_eq!(m.write(b"x"), Err(MockIoError::Poisoned));
    let mut buf = [7u8; 2];
    assert_eq!(m.read(&mut buf), Err(MockIoError::Poisoned));
    assert_eq!(buf, [7, 7]);
    assert!(m.lock().is_err());
}

#[test]
fn lock_peek_consume_and_unlock() {
    let mut m = MockIo::new();
    m.write(b"hello").unwrap();
    let mut view = m.lock().unwrap();
    assert_eq!(view.fill_buf(), b"hello");
    view.consume(2);
    assert_eq!(view.fill_buf(), b"llo");
    view.write(b"!").unwrap();
    let mut buf = [0u8; 1];
    assert_eq!(view.read(&mut buf).unwrap(), 1);
    assert_eq!(&buf, b"l");
    m.unlock(view);
    assert_eq!(m.get_data().unwrap(), b"lo!".to_vec());
}

#[test]
fn read_line_stops_after_newline() {
    let mut m = MockIo::new();
    m.write(b"first\nsecond").unwrap();
    let mut view = m.lock().unwrap();
    let mut line = String::from(">");
    assert_eq!(view.read_line(&mut line).unwrap(), 6);
    assert_eq!(line, ">first\n");
    let mut rest = String::new();
    assert_eq!(view.read_line(&mut rest).unwrap(), 6);
    assert_eq!(rest, "second");
    assert_eq!(view.read_line(&mut rest).unwrap(), 0);
    assert_eq!(rest, "second");
}

#[test]
fn read_line_rejects_invalid_utf8() {
    let mut m = MockIo::new();
    m.write(&[0xff, 0xfe, b'\n', b'o', b'k']).unwrap();
    let mut view = m.lock().unwrap();
    let mut line = String::from("kept");
    assert_eq!(view.read_line(&mut line), Err(MockIoError::InvalidData));
    assert_eq!(line, "kept");
    assert_eq!(view.fill_buf(), b"ok");
}

#[test]
fn read_line_decodes_multibyte_text() {
    let mut io = MockStdio::new();
    io.set_stdin("héllo\nx".as_bytes()).unwrap();
    let mut line = String::new();
    assert_eq!(io.stdin_read_line(&mut line).unwrap(), 7);
    assert_eq!(line, "héllo\n");
    let mut buf = [0u8; 4];
    assert_eq!(io.stdin().read(&mut buf).unwrap(), 1);
    assert_eq!(buf[0], b'x');
}

#[test]
fn registry_accesses_share_one_buffer() {
    let mut io = MockStdio::new();
    io.stdout().write(b"one ").unwrap();
    io.stdout().write(b"two").unwrap();
    io.check_stdout(|s| assert_eq!(s, b"one two")).unwrap();
    io.stdin().write(b"in").unwrap();
    let mut buf = [0u8; 2];
    io.stdin().read(&mut buf).unwrap();
    assert_eq!(&buf, b"in");
}

#[test]
fn fresh_registry_sees_only_its_own_work() {
    let mut a = MockStdio::new();
    a.stdout().write(b"from a").unwrap();
    let mut b = MockStdio::new();
    b.set_stdin(b"q").unwrap();
    let mut buf = [0u8; 1];
    b.stdin().read(&mut buf).unwrap();
    b.stdout().write(&buf).unwrap();
    b.check_stdout(|s| assert_eq!(s, b"q")).unwrap();
    b.check_stderr(|s| assert_eq!(s, b"")).unwrap();
    a.check_stdout(|s| assert_eq!(s, b"from a")).unwrap();
}

#[test]
fn stdin_then_exhausted() {
    let mut io = MockStdio::new();
    io.set_stdin(b"YELLOW SUBMARINE").unwrap();
    let mut buf = vec![0u8; 16];
    assert_eq!(io.stdin().read(&mut buf).unwrap(), 16);
    assert_eq!(&buf, b"YELLOW SUBMARINE");
    let mut more = vec![0u8; 8];
    assert_eq!(io.stdin().read(&mut more).unwrap(), 0);
}

#[test]
fn empty_stdin_reads_nothing() {
    let mut io = MockStdio::new();
    let mut buf = [5u8; 16];
    assert_eq!(io.stdin().read(&mut buf).unwrap(), 0);
    assert_eq!(buf, [5u8; 16]);
    io.set_stdin(b"").unwrap();
    assert_eq!(io.stdin().read(&mut buf).unwrap(), 0);
    assert_eq!(buf, [5u8; 16]);
}

#[test]
fn extend_stdin_appends() {
    let mut io = MockStdio::new();
    io.extend_stdin(b"AB").unwrap();
    io.extend_stdin(b"CD").unwrap();
    let mut buf = [0u8; 4];
    assert_eq!(io.stdin().read(&mut buf).unwrap(), 4);
    assert_eq!(&buf, b"ABCD");
}

#[test]
fn poisoned_stdin_refuses_setup() {
    let mut io = MockStdio::new();
    io.set_stdin(b"abc").unwrap();
    let view = io.stdin().lock().unwrap();
    drop(view);
    assert_eq!(io.set_stdin(b"x"), Err(MockIoError::Poisoned));
    assert_eq!(io.extend_stdin(b"x"), Err(MockIoError::Poisoned));
    let mut line = String::new();
    assert_eq!(io.stdin_read_line(&mut line), Err(MockIoError::Poisoned));
}

#[test]
fn poisoned_stdout_refuses_check() {
    let mut io = MockStdio::new();
    let view = io.stdout().lock().unwrap();
    drop(view);
    let mut called = false;
    assert_eq!(io.check_stdout(|_| called = true), Err(MockIoError::Poisoned));
    assert!(!called);
}
