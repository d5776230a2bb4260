use zerokb::editor::{scroll_offset, App, Edit, Key, KeyOutcome, Status, MAX_LINES};
use zerokb::screen::{screen, Area};
use zerokb::usb::{ioreg_shows_gadget, listing_shows_gadget};

fn text(app: &App) -> String {
    app.text().into_iter().collect()
}

fn press(app: &mut App, key: Key, ctrl: bool, now: u64) -> bool {
    match app.handle_key(key, ctrl, now) {
        KeyOutcome::Quit => false,
        KeyOutcome::Ignore => true,
        KeyOutcome::Send { edit, .. } => app.finish_send(true, edit),
    }
}

#[test]
fn new_app_is_empty() {
    let app = App::new();
    assert_eq!(text(&app), "");
    assert_eq!(app.lines().len(), 1);
    assert_eq!(app.sent_count(), 0);
    assert_eq!(app.status(), Status::Connected);
}

#[test]
fn typing_builds_transcript() {
    let mut app = App::new();
    for c in "hi".chars() {
        assert!(press(&mut app, Key::Char(c), false, 0));
    }
    assert!(press(&mut app, Key::Enter, false, 0));
    assert!(press(&mut app, Key::Tab, false, 0));
    assert!(press(&mut app, Key::Char('x'), false, 0));
    assert!(press(&mut app, Key::Backspace, false, 0));
    assert_eq!(text(&app), "hi\n\t");
    assert_eq!(app.sent_count(), 6);
}

#[test]
fn key_bytes() {
    let mut app = App::new();
    assert_eq!(app.handle_key(Key::Char('a'), false, 0), KeyOutcome::Send { byte: b'a', edit: Edit::Char('a') });
    assert_eq!(app.handle_key(Key::Enter, false, 0), KeyOutcome::Send { byte: b'\n', edit: Edit::Newline });
    assert_eq!(app.handle_key(Key::Tab, false, 0), KeyOutcome::Send { byte: b'\t', edit: Edit::Char('\t') });
    assert_eq!(app.handle_key(Key::Backspace, false, 0), KeyOutcome::Send { byte: 0x7f, edit: Edit::Backspace });
    assert_eq!(app.handle_key(Key::Other, false, 0), KeyOutcome::Ignore);
    // A character beyond one byte is sent cut to its low byte.
    assert_eq!(app.handle_key(Key::Char('€'), false, 0), KeyOutcome::Send { byte: 0xac, edit: Edit::Char('€') });
}

#[test]
fn ctrl_keys_send_control_codes() {
    let mut app = App::new();
    assert_eq!(app.handle_key(Key::Char('a'), true, 0), KeyOutcome::Send { byte: 0x01, edit: Edit::Ctrl('A') });
    assert_eq!(app.handle_key(Key::Char('z'), true, 0), KeyOutcome::Send { byte: 0x1a, edit: Edit::Ctrl('Z') });
    assert_eq!(app.handle_key(Key::Char('1'), true, 0), KeyOutcome::Ignore);
    assert_eq!(app.handle_key(Key::Char('A'), true, 0), KeyOutcome::Ignore);
    assert!(app.finish_send(true, Edit::Ctrl('D')));
    assert_eq!(text(&app), "^D");
}

#[test]
fn double_ctrl_c_quits() {
    let mut app = App::new();
    assert!(press(&mut app, Key::Char('c'), true, 1000));
    assert_eq!(text(&app), "^C");
    assert!(!press(&mut app, Key::Char('c'), true, 1499));
}

#[test]
fn slow_ctrl_c_does_not_quit() {
    let mut app = App::new();
    assert!(press(&mut app, Key::Char('c'), true, 1000));
    assert!(press(&mut app, Key::Char('c'), true, 1500));
    assert!(!press(&mut app, Key::Char('c'), true, 1600));
}

#[test]
fn other_key_between_ctrl_c_disarms() {
    let mut app = App::new();
    assert!(press(&mut app, Key::Char('c'), true, 1000));
    assert!(press(&mut app, Key::Char('x'), false, 1001));
    assert!(press(&mut app, Key::Char('c'), true, 1002));
    assert_eq!(text(&app), "^Cx^C");
}

#[test]
fn failed_send_loses_connection() {
    let mut app = App::new();
    assert!(!app.finish_send(false, Edit::Char('a')));
    assert_eq!(app.status(), Status::ConnectionLost);
    assert_eq!(app.sent_count(), 0);
    assert_eq!(text(&app), "");
}

#[test]
fn transcript_keeps_last_lines() {
    let mut app = App::new();
    for i in 0..150u32 {
        app.push_char(char::from_digit(i % 10, 10).unwrap());
        app.push_newline();
    }
    assert_eq!(app.lines().len(), MAX_LINES);
    assert!(app.lines().last().unwrap().is_empty());
    assert_eq!(app.lines()[0], vec!['1']);
}

#[test]
fn backspace_on_empty_line() {
    let mut app = App::new();
    app.push_char('a');
    app.push_newline();
    app.push_backspace();
    assert_eq!(text(&app), "a\n");
}

#[test]
fn scroll_offsets() {
    assert_eq!(scroll_offset(10, 5), 7);
    assert_eq!(scroll_offset(2, 5), 0);
    assert_eq!(scroll_offset(3, 5), 0);
    assert_eq!(scroll_offset(100, 2), 100);
    assert_eq!(scroll_offset(70000, 2), 4464);
}

#[test]
fn usb_listing_detection() {
    let ioreg = b"  \"idVendor\" = 13364\n  \"idProduct\" = 819\n";
    assert!(listing_shows_gadget(true, Some(ioreg)));
    assert!(!listing_shows_gadget(true, Some(b"\"idVendor\" = 13364\n")));
    assert!(!listing_shows_gadget(true, None));
    assert!(listing_shows_gadget(false, Some(b"Bus 001 Device 004: ID 3434:0333\n")));
    assert!(!listing_shows_gadget(false, Some(b"")));
    assert!(!listing_shows_gadget(false, None));
}

#[test]
fn screen_split() {
    let s = screen(0, 0, 80, 24);
    assert_eq!(s.header, Area { x: 0, y: 0, width: 80, height: 3 });
    assert_eq!(s.transcript, Area { x: 0, y: 3, width: 80, height: 18 });
    assert_eq!(s.status, Area { x: 0, y: 21, width: 80, height: 3 });
    let t = screen(2, 1, 40, 11);
    assert_eq!(t.header, Area { x: 2, y: 1, width: 40, height: 3 });
    assert_eq!(t.transcript, Area { x: 2, y: 4, width: 40, height: 5 });
    assert_eq!(t.status, Area { x: 2, y: 9, width: 40, height: 3 });
}

#[test]
fn ioreg_ids_must_share_an_entry() {
    let same = b"+-o Root\n  +-o Keychron V3@1\n    {\n      \"idProduct\" = 819\n      \"idVendor\" = 13364\n    }\n";
    assert!(ioreg_shows_gadget(same));
    let split = b"+-o A@1\n  {\n    \"idVendor\" = 13364\n    \"idProduct\" = 1\n  }\n+-o B@2\n  {\n    \"idVendor\" = 1\n    \"idProduct\" = 819\n  }\n";
    assert!(!ioreg_shows_gadget(split));
    assert!(!listing_shows_gadget(true, Some(split)));
    assert!(ioreg_shows_gadget(b"\"idVendor\" = 13364 \"idProduct\" = 819"));
    assert!(!ioreg_shows_gadget(b""));
}

#[test]
fn screen_split_small_area() {
    for h in 0..11u16 {
        let s = screen(4, 2, 30, h);
        for a in [s.header, s.transcript, s.status] {
            assert_eq!(a.x, 4);
            assert_eq!(a.width, 30);
        }
        assert_eq!(s.header.y, 2);
        assert_eq!(s.transcript.y, s.header.y + s.header.height);
        assert_eq!(s.status.y, s.transcript.y + s.transcript.height);
        assert_eq!(s.status.y + s.status.height, 2 + h);
        assert_eq!(s.transcript.height, h.min(5));
        assert!(s.header.height <= 3 && s.status.height <= 3);
    }
    let s = screen(0, 65530, 10, 100);
    assert_eq!(s.transcript, Area { x: 0, y: 65530, width: 10, height: 5 });
    assert_eq!(s.status.y + s.status.height, 65535);
}
