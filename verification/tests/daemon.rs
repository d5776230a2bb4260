use zerokb::control::{parse_control_line, ControlCommand};
use zerokb::report::{press_report, release_report};
use zerokb::session::{ByteAction, Session};

#[test]
fn press_report_layout() {
    assert_eq!(press_report(0x02, 0x04), [0x02, 0, 0x04, 0, 0, 0, 0, 0]);
    assert_eq!(release_report(), [0u8; 8]);
}

#[test]
fn session_types_mapped_bytes() {
    let mut s = Session::new();
    assert_eq!(s.step(b'a', false), ByteAction::Type { modifier: 0, keycode: 0x04 });
    assert_eq!(s.step(b'A', false), ByteAction::Type { modifier: 2, keycode: 0x04 });
    assert_eq!(s.step(0xe5, false), ByteAction::Skip);
    assert_eq!(s.step(0x1b, false), ByteAction::Skip);
    assert_eq!(s.bytes_typed(), 2);
    assert_eq!(s.bytes_dropped(), 0);
    assert!(!s.is_aborted());
}

#[test]
fn session_abort_drains_rest() {
    let mut s = Session::new();
    assert_eq!(s.step(b'h', false), ByteAction::Type { modifier: 0, keycode: 0x0b });
    assert_eq!(s.step(b'i', true), ByteAction::Drop { announce: true });
    // The flag being cleared again does not resume typing.
    assert_eq!(s.step(b'j', false), ByteAction::Drop { announce: false });
    assert_eq!(s.step(b'k', true), ByteAction::Drop { announce: false });
    assert!(s.is_aborted());
    assert_eq!(s.bytes_typed(), 1);
    assert_eq!(s.bytes_dropped(), 3);
}

#[test]
fn new_session_is_not_aborted() {
    let s = Session::new();
    assert!(!s.is_aborted());
    assert_eq!(s.bytes_typed(), 0);
    assert_eq!(s.bytes_dropped(), 0);
}

#[test]
fn control_abort() {
    let c = parse_control_line("ABORT\n");
    assert_eq!(c, ControlCommand::Abort);
    assert!(c.sets_abort());
    assert_eq!(c.reply(), "OK");
    assert_eq!(parse_control_line("  ABORT\r\n"), ControlCommand::Abort);
    assert_eq!(parse_control_line("ABORT"), ControlCommand::Abort);
    assert_eq!(parse_control_line("\u{a0}ABORT\u{3000}"), ControlCommand::Abort);
}

#[test]
fn control_empty() {
    for line in ["", "\n", "  \t\r\n"] {
        let c = parse_control_line(line);
        assert_eq!(c, ControlCommand::Empty);
        assert!(!c.sets_abort());
        assert_eq!(c.reply(), "ERR unknown command");
    }
}

#[test]
fn control_unknown() {
    let c = parse_control_line(" abort me \n");
    assert_eq!(c, ControlCommand::Unknown("abort me".chars().collect()));
    assert!(!c.sets_abort());
    assert_eq!(c.reply(), "ERR unknown command");
    assert_eq!(parse_control_line("abort"), ControlCommand::Unknown(vec!['a', 'b', 'o', 'r', 't']));
    assert_eq!(parse_control_line("ABORTX"), ControlCommand::Unknown("ABORTX".chars().collect()));
}
