use sdrtail::cache::SensorStateCache;
use sdrtail::ident::{FileIdentity, IdentityCheck};
use sdrtail::lines::LineAccumulator;
use sdrtail::session::{PollDecision, TailSession};

#[test]
fn initial_offset_long_file() {
    let s = TailSession::start(7, 9, 20000);
    assert_eq!(s.offset, 20000 - 16384);
    assert_eq!(s.offset, 3616);
}

#[test]
fn initial_offset_short_file() {
    let s = TailSession::start(7, 9, 10000);
    assert_eq!(s.offset, 0);
}

#[test]
fn initial_offset_exact_window() {
    let s = TailSession::start(7, 9, 16384);
    assert_eq!(s.offset, 0);
}

#[test]
fn identity_check_dev_change() {
    let id = FileIdentity { dev: 1, ino: 2 };
    assert_eq!(id.check(3, 2, 100, 50), IdentityCheck::Rotated);
}

#[test]
fn identity_check_ino_change() {
    let id = FileIdentity { dev: 1, ino: 2 };
    assert_eq!(id.check(1, 5, 100, 50), IdentityCheck::Rotated);
}

#[test]
fn identity_check_truncation() {
    let id = FileIdentity { dev: 1, ino: 2 };
    assert_eq!(id.check(1, 2, 40, 50), IdentityCheck::Rotated);
}

#[test]
fn identity_check_unchanged() {
    let id = FileIdentity { dev: 1, ino: 2 };
    assert_eq!(id.check(1, 2, 50, 50), IdentityCheck::Unchanged);
    assert_eq!(id.check(1, 2, 100, 50), IdentityCheck::Unchanged);
}

#[test]
fn rotation_ends_session_before_more_reads() {
    let s = TailSession::start(1, 2, 20000);
    // A later identity check reports a different inode: the session must
    // decide to end (reopen) rather than keep reading the old handle.
    let d = s.on_eof(Some((1, 3, 20000)));
    assert_eq!(d, PollDecision::Reopen);
}

#[test]
fn shrink_below_offset_ends_session() {
    let s = TailSession::start(1, 2, 20000);
    assert_eq!(s.offset, 3616);
    // Identity unchanged but the file now reports fewer bytes than consumed.
    let d = s.on_eof(Some((1, 2, 1000)));
    assert_eq!(d, PollDecision::Reopen);
}

#[test]
fn transient_stat_failure_keeps_waiting() {
    let s = TailSession::start(1, 2, 100);
    assert_eq!(s.on_eof(None), PollDecision::KeepWaiting);
}

#[test]
fn unchanged_file_keeps_waiting() {
    let s = TailSession::start(1, 2, 100);
    assert_eq!(s.on_eof(Some((1, 2, 100))), PollDecision::KeepWaiting);
}

#[test]
fn truncate_to_zero_then_reopen_at_start() {
    let mut cache = SensorStateCache::new();
    let mut s = TailSession::start(1, 2, 20000);
    s.on_chunk(b"partial line without terminator", &mut cache);
    // Idling at EOF, the file is truncated to zero bytes: the next poll
    // detects it and the session ends.
    assert_eq!(s.on_eof(Some((1, 2, 0))), PollDecision::Reopen);
    // The supervisor's next session reopens at offset 0, with no partial
    // line carried over.
    let s2 = TailSession::start(1, 2, 0);
    assert_eq!(s2.offset, 0);
}

#[test]
fn lines_reassembled_across_chunks() {
    let mut acc = LineAccumulator::new();
    let none = acc.feed(b"ab");
    assert!(none.is_empty());
    let lines = acc.feed(b"c\nde");
    assert_eq!(lines, vec![b"abc".to_vec()]);
    let more = acc.feed(b"f\nxyz\n");
    assert_eq!(more, vec![b"def".to_vec(), b"xyz".to_vec()]);
}

#[test]
fn empty_lines_are_flushed_empty() {
    let mut acc = LineAccumulator::new();
    let lines = acc.feed(b"\n\n");
    assert_eq!(lines, vec![Vec::<u8>::new(), Vec::<u8>::new()]);
}

#[test]
fn pending_line_survives_eof_wait() {
    let mut cache = SensorStateCache::new();
    let mut s = TailSession::start(1, 2, 0);
    s.on_chunk(b"{\"time\":\"t\",\"model\":\"Acu", &mut cache);
    assert_eq!(cache.len(), 0);
    // EOF with nothing changed: keep waiting, pending bytes retained.
    assert_eq!(s.on_eof(Some((1, 2, 25))), PollDecision::KeepWaiting);
    let tail = "rite-Tower\",\"id\":5019,\"channel\":\"C\",\"battery_ok\":1,\"temperature_C\":21.5,\"humidity\":55,\"mic\":\"CHECKSUM\"}\n";
    s.on_chunk(tail.as_bytes(), &mut cache);
    assert_eq!(cache.len(), 1);
    let snap = cache.snapshot();
    assert_eq!(snap[0].0, "acurite-tower-00005019-c");
}

#[test]
fn offset_advances_by_bytes_read() {
    let mut cache = SensorStateCache::new();
    let mut s = TailSession::start(1, 2, 0);
    s.on_chunk(b"12345", &mut cache);
    assert_eq!(s.offset, 5);
    s.on_chunk(b"678\n", &mut cache);
    assert_eq!(s.offset, 9);
}
