use detach::tail::{TailAction, TailCursor, TailEvent, TailFollower, TailPhase, OPEN_RETRY_MILLIS, POLL_MILLIS};

fn text(lines: &[Vec<u8>]) -> Vec<String> {
    lines.iter().map(|l| String::from_utf8(l.clone()).unwrap()).collect()
}

#[test]
fn appended_lines_come_out_once_in_order() {
    let (mut f, first) = TailFollower::new();
    assert_eq!(first, TailAction::Open);
    let (out, act) = f.step(TailEvent::Opened);
    assert!(out.is_empty());
    assert_eq!(act, TailAction::Read);
    let (out, act) = f.step(TailEvent::Read(b"A\n".to_vec()));
    assert_eq!(text(&out), vec!["A"]);
    assert_eq!(act, TailAction::Read);
    let (out, act) = f.step(TailEvent::Read(Vec::new()));
    assert!(out.is_empty());
    assert_eq!(act, TailAction::Sleep(POLL_MILLIS));
    assert_eq!(f.phase(), TailPhase::Waiting);
    let (_, act) = f.step(TailEvent::Slept);
    assert_eq!(act, TailAction::Read);
    let (out, _) = f.step(TailEvent::Read(b"B\n".to_vec()));
    assert_eq!(text(&out), vec!["B"]);
    assert_eq!(f.offset(), 4);
}

#[test]
fn partial_line_is_held_until_complete() {
    let mut c = TailCursor::new();
    assert!(c.feed(b"A").is_empty());
    let out = c.feed(b"\nB");
    assert_eq!(text(&out), vec!["A"]);
    let out = c.feed(b"\n");
    assert_eq!(text(&out), vec!["B"]);
    assert_eq!(c.offset(), 4);
}

#[test]
fn several_lines_in_one_read() {
    let mut c = TailCursor::new();
    let out = c.feed(b"one\n\nthree\nfour");
    assert_eq!(text(&out), vec!["one", "", "three"]);
    assert_eq!(text(&c.feed(b"\n")), vec!["four"]);
}

#[test]
fn empty_read_returns_nothing() {
    let mut c = TailCursor::new();
    assert!(c.feed(b"").is_empty());
    assert_eq!(c.offset(), 0);
}

#[test]
fn missing_file_is_retried_after_backoff() {
    let (mut f, _) = TailFollower::new();
    let (out, act) = f.step(TailEvent::OpenFailed);
    assert!(out.is_empty());
    assert_eq!(act, TailAction::Sleep(OPEN_RETRY_MILLIS));
    assert_eq!(f.phase(), TailPhase::Opening);
    let (_, act) = f.step(TailEvent::Slept);
    assert_eq!(act, TailAction::Open);
    let (_, act) = f.step(TailEvent::Opened);
    assert_eq!(act, TailAction::Read);
    assert_eq!(f.phase(), TailPhase::Reading);
}

#[test]
fn event_out_of_turn_changes_nothing() {
    let (mut f, _) = TailFollower::new();
    f.step(TailEvent::Opened);
    let (out, act) = f.step(TailEvent::Opened);
    assert!(out.is_empty());
    assert_eq!(act, TailAction::Read);
    assert_eq!(f.phase(), TailPhase::Reading);
    assert_eq!(f.offset(), 0);
}
