use ipipe::path_name::{make_pipe_path, u64_to_decimal};
use ipipe::pipe::{
    ConnectOutcome, CountOutcome, FlushOutcome, OnCleanup, OsFailure, Pipe, PipeError, ReadOutcome,
    WriteOutcome,
};
use std::collections::HashSet;

const PREFIX: &[u8] = b"\\\\.\\pipe\\pipe_";

fn is_alnum(b: u8) -> bool {
    (48..=57).contains(&b) || (65..=90).contains(&b) || (97..=122).contains(&b)
}

#[test]
fn decimal_digits_exact() {
    assert_eq!(u64_to_decimal(0), b"0".to_vec());
    assert_eq!(u64_to_decimal(7), b"7".to_vec());
    assert_eq!(u64_to_decimal(90210), b"90210".to_vec());
    assert_eq!(u64_to_decimal(u64::MAX), b"18446744073709551615".to_vec());
}

#[test]
fn pipe_path_exact() {
    let suffix = b"abcABC0129zZ".to_vec();
    let path = make_pipe_path(42, &suffix);
    assert_eq!(path, b"\\\\.\\pipe\\pipe_42_abcABC0129zZ".to_vec());
}

#[test]
fn create_path_shape() {
    let p = Pipe::create(90210, OnCleanup::NoDelete).unwrap();
    let path = p.path();
    assert!(path.starts_with(PREFIX));
    let rest = &path[PREFIX.len()..];
    assert!(rest.starts_with(b"90210_"));
    let suffix = &rest[b"90210_".len()..];
    assert_eq!(suffix.len(), 15);
    assert!(suffix.iter().all(|&b| is_alnum(b)));
}

#[test]
fn create_no_collisions() {
    let mut seen: HashSet<Vec<u8>> = HashSet::new();
    for _ in 0..10_000 {
        let p = Pipe::create(1234, OnCleanup::NoDelete).unwrap();
        assert!(seen.insert(p.path().clone()), "pipe name collision");
    }
}

#[test]
fn open_starts_fresh() {
    let p = Pipe::open(b"\\\\.\\pipe\\shared".to_vec(), OnCleanup::DeleteOnDrop).unwrap();
    assert!(!p.is_closed());
    assert!(!p.writer_connected());
    assert!(!p.listener_connected());
    assert!(p.should_delete_on_discard());
    assert_eq!(p.path(), &b"\\\\.\\pipe\\shared".to_vec());
}

#[test]
fn close_twice_idempotent() {
    let mut p = Pipe::create(1, OnCleanup::DeleteOnDrop).unwrap();
    assert!(p.close().is_ok());
    assert!(p.is_closed());
    assert!(!p.writer_connected());
    assert!(!p.listener_connected());
    assert!(p.close().is_ok());
    assert!(p.is_closed());
    assert!(!p.writer_connected());
    assert!(!p.listener_connected());
}

#[test]
fn clone_does_not_delete() {
    let p = Pipe::create(1, OnCleanup::DeleteOnDrop).unwrap();
    let dup = p.clone();
    assert!(p.should_delete_on_discard());
    assert!(!dup.should_delete_on_discard());
    assert_eq!(dup.path(), p.path());
    assert!(!dup.writer_connected());
    assert!(!dup.listener_connected());
}

#[test]
fn write_establishes_writer_and_counts() {
    let mut p = Pipe::create(1, OnCleanup::NoDelete).unwrap();
    let buf = vec![1u8, 2, 3];
    let r = p.write_bytes(&buf, ConnectOutcome::Connected, WriteOutcome::Accepted(3));
    assert_eq!(r.unwrap(), 3);
    assert!(p.writer_connected());
    // A live writer is reused: the connect outcome is no longer consulted.
    let r2 = p.write_bytes(
        &buf,
        ConnectOutcome::ConnectFailed(OsFailure { raw_code: Some(2) }),
        WriteOutcome::Accepted(3),
    );
    assert_eq!(r2.unwrap(), 3);
}

#[test]
fn write_byte_and_string() {
    let mut p = Pipe::create(1, OnCleanup::NoDelete).unwrap();
    let r = p.write_byte(65, ConnectOutcome::Connected, WriteOutcome::Accepted(1));
    assert_eq!(r.unwrap(), 1);
    let r = p.write_string("hi", ConnectOutcome::Connected, WriteOutcome::Accepted(2));
    assert_eq!(r.unwrap(), 2);
}

#[test]
fn connect_failure_is_error() {
    let mut p = Pipe::create(1, OnCleanup::NoDelete).unwrap();
    let buf = vec![1u8];
    let r = p.write_bytes(
        &buf,
        ConnectOutcome::ConnectFailed(OsFailure { raw_code: Some(5) }),
        WriteOutcome::Accepted(1),
    );
    assert!(matches!(
        r,
        Err(PipeError::ConnectionFailed(OsFailure { raw_code: Some(5) }))
    ));
    assert!(!p.writer_connected());
}

#[test]
fn write_failure_is_error_even_broken_pipe() {
    // Writes never treat the broken-pipe code as graceful; only reads do.
    let mut p = Pipe::create(1, OnCleanup::NoDelete).unwrap();
    let buf = vec![1u8];
    let r = p.write_bytes(
        &buf,
        ConnectOutcome::Connected,
        WriteOutcome::WriteFailed(OsFailure { raw_code: Some(109) }),
    );
    assert!(matches!(
        r,
        Err(PipeError::TransportFailed(OsFailure { raw_code: Some(109) }))
    ));
}

#[test]
fn read_byte_delivery_and_defaults() {
    let mut p = Pipe::create(1, OnCleanup::NoDelete).unwrap();
    let r = p.read_byte(ConnectOutcome::Connected, ReadOutcome::Delivered(vec![42u8]));
    assert_eq!(r.unwrap(), 42);
    assert!(p.listener_connected());
    // An empty delivery leaves the placeholder zero byte.
    let r = p.read_byte(ConnectOutcome::Connected, ReadOutcome::Delivered(Vec::new()));
    assert_eq!(r.unwrap(), 0);
}

#[test]
fn graceful_disconnect_reads() {
    let mut p = Pipe::create(1, OnCleanup::NoDelete).unwrap();
    let r = p.read_byte(
        ConnectOutcome::Connected,
        ReadOutcome::ReadFailed(OsFailure { raw_code: Some(109) }),
    );
    assert_eq!(r.unwrap(), 0);
    let r = p.read_byte(
        ConnectOutcome::Connected,
        ReadOutcome::ReadFailed(OsFailure { raw_code: None }),
    );
    assert_eq!(r.unwrap(), 0);
    let r = p.read(
        ConnectOutcome::Connected,
        CountOutcome::CountFailed(OsFailure { raw_code: Some(109) }),
    );
    assert_eq!(r.unwrap(), 0);
}

#[test]
fn hard_read_failure_is_error() {
    let mut p = Pipe::create(1, OnCleanup::NoDelete).unwrap();
    let r = p.read_byte(
        ConnectOutcome::Connected,
        ReadOutcome::ReadFailed(OsFailure { raw_code: Some(31) }),
    );
    assert!(matches!(
        r,
        Err(PipeError::TransportFailed(OsFailure { raw_code: Some(31) }))
    ));
    let r = p.read(
        ConnectOutcome::Connected,
        CountOutcome::CountFailed(OsFailure { raw_code: Some(31) }),
    );
    assert!(matches!(r, Err(PipeError::TransportFailed(_))));
}

#[test]
fn stream_read_counts() {
    let mut p = Pipe::create(1, OnCleanup::NoDelete).unwrap();
    let r = p.read(ConnectOutcome::Connected, CountOutcome::Counted(7));
    assert_eq!(r.unwrap(), 7);
}

#[test]
fn read_bytes_pads_short_delivery() {
    let mut p = Pipe::create(1, OnCleanup::NoDelete).unwrap();
    let r = p.read_bytes(5, ConnectOutcome::Connected, ReadOutcome::Delivered(vec![9u8, 8]));
    assert_eq!(r.unwrap(), vec![9u8, 8, 0, 0, 0]);
    let r = p.read_bytes(2, ConnectOutcome::Connected, ReadOutcome::Delivered(vec![1u8, 2, 3]));
    assert_eq!(r.unwrap(), vec![1u8, 2]);
    let r = p.read_bytes(
        3,
        ConnectOutcome::Connected,
        ReadOutcome::ReadFailed(OsFailure { raw_code: Some(109) }),
    );
    assert_eq!(r.unwrap(), vec![0u8, 0, 0]);
}

#[test]
fn read_string_lossy() {
    let mut p = Pipe::create(1, OnCleanup::NoDelete).unwrap();
    let r = p.read_string(
        3,
        ConnectOutcome::Connected,
        ReadOutcome::Delivered(vec![b'a', b'b', b'c']),
    );
    assert_eq!(r.unwrap(), "abc");
    // An invalid sequence decodes to the replacement character, never an error.
    let r = p.read_string(
        4,
        ConnectOutcome::Connected,
        ReadOutcome::Delivered(vec![0xFF, b'a', b'b', b'c']),
    );
    assert_eq!(r.unwrap(), "\u{FFFD}abc");
}

#[test]
fn flush_establishes_writer() {
    let mut p = Pipe::create(1, OnCleanup::NoDelete).unwrap();
    assert!(!p.writer_connected());
    let r = p.flush_pipe(ConnectOutcome::Connected, FlushOutcome::Flushed);
    assert!(r.is_ok());
    assert!(p.writer_connected());
    // The immediately following write needs no further connect attempt.
    let buf = vec![5u8];
    let r = p.write_bytes(
        &buf,
        ConnectOutcome::ConnectFailed(OsFailure { raw_code: Some(2) }),
        WriteOutcome::Accepted(1),
    );
    assert_eq!(r.unwrap(), 1);
}

#[test]
fn flush_failures() {
    let mut p = Pipe::create(1, OnCleanup::NoDelete).unwrap();
    let r = p.flush_pipe(
        ConnectOutcome::ConnectFailed(OsFailure { raw_code: Some(2) }),
        FlushOutcome::Flushed,
    );
    assert!(matches!(r, Err(PipeError::ConnectionFailed(_))));
    assert!(!p.writer_connected());
    // With a live listener, a failing listener flush surfaces as an error.
    let r = p.read_byte(ConnectOutcome::Connected, ReadOutcome::Delivered(vec![1u8]));
    assert_eq!(r.unwrap(), 1);
    let r = p.flush_pipe(
        ConnectOutcome::Connected,
        FlushOutcome::FlushFailed(OsFailure { raw_code: Some(6) }),
    );
    assert!(matches!(
        r,
        Err(PipeError::TransportFailed(OsFailure { raw_code: Some(6) }))
    ));
    assert!(p.writer_connected());
}

#[test]
fn scenario_shared_path_delete_on_discard() {
    // One writer reference, a second reader reference attached to the same
    // name; only the original owns deletion of the OS object on discard.
    let mut original = Pipe::create(77, OnCleanup::DeleteOnDrop).unwrap();
    let written = vec![1u8, 2, 3];
    let r = original.write_bytes(&written, ConnectOutcome::Connected, WriteOutcome::Accepted(3));
    assert_eq!(r.unwrap(), 3);

    let mut reader = Pipe::open(original.path().clone(), OnCleanup::NoDelete).unwrap();
    assert_eq!(reader.path(), original.path());
    let r = reader.read_bytes(
        3,
        ConnectOutcome::Connected,
        ReadOutcome::Delivered(vec![1u8, 2, 3]),
    );
    assert_eq!(r.unwrap(), vec![1u8, 2, 3]);

    assert!(original.should_delete_on_discard());
    assert!(!reader.should_delete_on_discard());
}
