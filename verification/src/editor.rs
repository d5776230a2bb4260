//! The state of the interactive typing client: it forwards each key to the
//! keyboard as one byte and keeps a local transcript of what was typed.
//!
//! Handling a key goes in two steps, around the write to the connection:
//! `App::handle_key` decides what to send and what to record, and
//! `App::finish_send` records it once the write's outcome is known.
use vstd::prelude::*;

verus! {

/// How many transcript lines are kept.
pub const MAX_LINES: usize = 100;

/// Two Ctrl+C presses closer together than this (in milliseconds) quit.
pub const DOUBLE_CTRL_C_MS: u64 = 500;

/// A key press, as far as the client tells keys apart.
#[derive(Debug, Clone, Copy, PartialEq, Eq)]
pub enum Key {
    Char(char),
    Enter,
    Tab,
    Backspace,
    /// Any other key: ignored.
    Other,
}

/// The state of the connection, as shown in the status bar.
#[derive(Debug, Clone, Copy, PartialEq, Eq)]
pub enum Status {
    Connected,
    ConnectionLost,
}

/// A change to the transcript.
#[derive(Debug, Clone, Copy, PartialEq, Eq)]
pub enum Edit {
    /// Append a character to the last line.
    Char(char),
    /// Start a new line.
    Newline,
    /// Remove the last character of the last line.
    Backspace,
    /// Append `^` and the given letter to the last line.
    Ctrl(char),
}

/// What to do after a key press.
#[derive(Debug, Clone, Copy, PartialEq, Eq)]
pub enum KeyOutcome {
    /// Leave the client.
    Quit,
    /// Nothing to send.
    Ignore,
    /// Send `byte`, then record `edit` if the write succeeded.
    Send { byte: u8, edit: Edit },
}

/// The client state as a model.
pub struct AppView {
    pub lines: Seq<Seq<char>>,
    pub last_ctrl_c: Option<u64>,
    pub sent_count: nat,
    pub status: Status,
}

/// The client state, without its connection.
pub struct App {
    lines: Vec<Vec<char>>,
    last_ctrl_c: Option<u64>,
    sent_count: usize,
    status: Status,
}

/// The transcript is one or more lines, at most `MAX_LINES`.
pub open spec fn lines_wf(lines: Seq<Seq<char>>) -> bool {
    1 <= lines.len() <= MAX_LINES
}

pub open spec fn spec_push_char(lines: Seq<Seq<char>>, c: char) -> Seq<Seq<char>> {
    lines.update(lines.len() - 1, lines.last().push(c))
}

pub open spec fn spec_push_newline(lines: Seq<Seq<char>>) -> Seq<Seq<char>> {
    let l = lines.push(Seq::<char>::empty());
    if l.len() > MAX_LINES {
        l.drop_first()
    } else {
        l
    }
}

pub open spec fn spec_push_backspace(lines: Seq<Seq<char>>) -> Seq<Seq<char>> {
    if lines.last().len() > 0 {
        lines.update(lines.len() - 1, lines.last().drop_last())
    } else {
        lines
    }
}

pub open spec fn spec_push_ctrl(lines: Seq<Seq<char>>, c: char) -> Seq<Seq<char>> {
    lines.update(lines.len() - 1, lines.last().push('^').push(c))
}

pub open spec fn spec_apply(lines: Seq<Seq<char>>, edit: Edit) -> Seq<Seq<char>> {
    match edit {
        Edit::Char(c) => spec_push_char(lines, c),
        Edit::Newline => spec_push_newline(lines),
        Edit::Backspace => spec_push_backspace(lines),
        Edit::Ctrl(c) => spec_push_ctrl(lines, c),
    }
}

/// The lines joined by line feeds.
pub open spec fn join_lines(lines: Seq<Seq<char>>) -> Seq<char>
    decreases lines.len(),
{
    if lines.len() == 0 {
        Seq::empty()
    } else if lines.len() == 1 {
        lines[0]
    } else {
        join_lines(lines.drop_last()) + seq!['\n'] + lines.last()
    }
}

/// The byte of a character as the client sends it: its code point cut to
/// the low eight bits.
pub open spec fn low_byte(c: char) -> u8 {
    (c as u32 % 256) as u8
}

/// The control code for `c` typed with Control: its low byte minus 0x60,
/// wrapping.
pub open spec fn ctrl_code(c: char) -> u8 {
    ((low_byte(c) as int - 0x60 + 256) % 256) as u8
}

/// Milliseconds from `then` to `now` on a monotonic clock, zero if `now` is
/// earlier.
pub open spec fn elapsed(then: u64, now: u64) -> int {
    if now >= then {
        now - then
    } else {
        0
    }
}

pub open spec fn is_ctrl_c(key: Key, ctrl: bool) -> bool {
    key == Key::Char('c') && ctrl
}

/// Whether the key is a Ctrl+C within `DOUBLE_CTRL_C_MS` of the last one.
pub open spec fn quits(v: AppView, key: Key, ctrl: bool, now: u64) -> bool {
    is_ctrl_c(key, ctrl) && match v.last_ctrl_c {
        Some(t) => elapsed(t, now) < DOUBLE_CTRL_C_MS,
        None => false,
    }
}

/// What a key sends and records, once it is not a quitting Ctrl+C.
pub open spec fn key_outcome(key: Key, ctrl: bool) -> KeyOutcome {
    match key {
        Key::Char(c) => if ctrl {
            if 0x01 <= ctrl_code(c) <= 0x1a {
                KeyOutcome::Send {
                    byte: ctrl_code(c),
                    edit: Edit::Ctrl((ctrl_code(c) + 0x40) as char),
                }
            } else {
                KeyOutcome::Ignore
            }
        } else {
            KeyOutcome::Send { byte: low_byte(c), edit: Edit::Char(c) }
        },
        Key::Enter => KeyOutcome::Send { byte: 0x0a, edit: Edit::Newline },
        Key::Tab => KeyOutcome::Send { byte: 0x09, edit: Edit::Char('\t') },
        Key::Backspace => KeyOutcome::Send { byte: 0x7f, edit: Edit::Backspace },
        Key::Other => KeyOutcome::Ignore,
    }
}

/// A key press at time `now`: a Ctrl+C within `DOUBLE_CTRL_C_MS` of the
/// previous Ctrl+C quits; otherwise the time of this Ctrl+C is remembered
/// (or forgotten for any other key) and the key's byte and edit follow.
pub open spec fn spec_handle_key(v: AppView, key: Key, ctrl: bool, now: u64) -> (
    AppView,
    KeyOutcome,
) {
    if quits(v, key, ctrl, now) {
        (v, KeyOutcome::Quit)
    } else {
        (
            AppView {
                last_ctrl_c: if is_ctrl_c(key, ctrl) {
                    Some(now)
                } else {
                    None
                },
                ..v
            },
            key_outcome(key, ctrl),
        )
    }
}

/// Recording the outcome of a write: a failed write marks the connection
/// lost; a successful one is counted and its edit applied.
pub open spec fn spec_finish_send(v: AppView, sent: bool, edit: Edit) -> AppView {
    if sent {
        AppView { sent_count: v.sent_count + 1, lines: spec_apply(v.lines, edit), ..v }
    } else {
        AppView { status: Status::ConnectionLost, ..v }
    }
}

/// The number of rows to scroll the transcript by so that its last line
/// shows in an area `area_height` rows high with a border above and below.
pub open spec fn spec_scroll_offset(n_lines: usize, area_height: u16) -> u16 {
    let visible: int = area_height - 2;
    let s: int = if n_lines >= visible {
        n_lines - visible
    } else {
        0
    };
    (s % 0x10000) as u16
}

impl View for App {
    type V = AppView;

    closed spec fn view(&self) -> AppView {
        AppView {
            lines: self.lines@.map_values(|l: Vec<char>| l@),
            last_ctrl_c: self.last_ctrl_c,
            sent_count: self.sent_count as nat,
            status: self.status,
        }
    }
}

impl App {
    /// The well-formedness of the client state.
    pub open spec fn wf(&self) -> bool {
        lines_wf(self@.lines)
    }

    /// A freshly connected client with an empty transcript.
    pub fn new() -> (a: App)
        ensures
            a.wf(),
            a@ == (AppView {
                lines: seq![Seq::<char>::empty()],
                last_ctrl_c: None,
                sent_count: 0,
                status: Status::Connected,
            }),
    {
        let mut lines: Vec<Vec<char>> = Vec::new();
        lines.push(Vec::new());
        let a = App { lines, last_ctrl_c: None, sent_count: 0, status: Status::Connected };
        assert(a@.lines =~= seq![Seq::<char>::empty()]);
        a
    }

    /// Appends a character to the last line.
    pub fn push_char(&mut self, ch: char)
        requires
            old(self).wf(),
        ensures
            final(self).wf(),
            final(self)@ == (AppView { lines: spec_push_char(old(self)@.lines, ch), ..old(self)@ }),
    {
        let ghost old_lines = self@.lines;
        let mut line = self.lines.pop().unwrap();
        line.push(ch);
        self.lines.push(line);
        assert(self@.lines =~= spec_push_char(old_lines, ch));
    }

    /// Starts a new line, dropping the oldest beyond `MAX_LINES`.
    pub fn push_newline(&mut self)
        requires
            old(self).wf(),
        ensures
            final(self).wf(),
            final(self)@ == (AppView { lines: spec_push_newline(old(self)@.lines), ..old(self)@ }),
    {
        let ghost old_lines = self@.lines;
        self.lines.push(Vec::new());
        assert(self@.lines =~= old_lines.push(Seq::<char>::empty()));
        if self.lines.len() > MAX_LINES {
            self.lines.remove(0);
            assert(self@.lines =~= old_lines.push(Seq::<char>::empty()).drop_first());
        }
    }

    /// Removes the last character of the last line, if it has one.
    pub fn push_backspace(&mut self)
        requires
            old(self).wf(),
        ensures
            final(self).wf(),
            final(self)@ == (AppView { lines: spec_push_backspace(old(self)@.lines), ..old(self)@ }),
    {
        let ghost old_lines = self@.lines;
        let mut line = self.lines.pop().unwrap();
        if line.len() > 0 {
            line.pop();
        }
        self.lines.push(line);
        assert(self@.lines =~= spec_push_backspace(old_lines));
    }

    /// Appends `^` and `ch` to the last line.
    pub fn push_ctrl(&mut self, ch: char)
        requires
            old(self).wf(),
        ensures
            final(self).wf(),
            final(self)@ == (AppView { lines: spec_push_ctrl(old(self)@.lines, ch), ..old(self)@ }),
    {
        let ghost old_lines = self@.lines;
        let mut line = self.lines.pop().unwrap();
        line.push('^');
        line.push(ch);
        self.lines.push(line);
        assert(self@.lines =~= spec_push_ctrl(old_lines, ch));
    }

    /// The transcript, its lines joined by line feeds.
    pub fn text(&self) -> (t: Vec<char>)
        ensures
            t@ == join_lines(self@.lines),
    {
        let ghost ls = self@.lines;
        let n: usize = self.lines.len();
        let mut t: Vec<char> = Vec::new();
        let mut i: usize = 0;
        while i < n
            invariant
                i <= n,
                n == self.lines@.len(),
                ls == self@.lines,
                t@ == join_lines(ls.take(i as int)),
            decreases n - i,
        {
            let ghost before = t@;
            if i > 0 {
                t.push('\n');
            }
            let line = &self.lines[i];
            let m: usize = line.len();
            let mut j: usize = 0;
            while j < m
                invariant
                    j <= m,
                    m == line@.len(),
                    t@ == (if i > 0 {
                        before + seq!['\n']
                    } else {
                        before
                    }) + line@.take(j as int),
                decreases m - j,
            {
                t.push(line[j]);
                j = j + 1;
                assert(line@.take(j as int) =~= line@.take(j - 1).push(line@[j - 1]));
            }
            assert(line@.take(m as int) =~= line@);
            assert(ls.take(i + 1).drop_last() =~= ls.take(i as int));
            assert(ls[i as int] == line@);
            if i == 0 {
                assert(before =~= Seq::<char>::empty());
                assert(ls.take(1) =~= seq![line@]);
            }
            i = i + 1;
        }
        assert(ls.take(n as int) =~= ls);
        t
    }

    /// The lines of the transcript, oldest first.
    pub fn lines(&self) -> (r: &Vec<Vec<char>>)
        ensures
            r@.map_values(|l: Vec<char>| l@) == self@.lines,
    {
        &self.lines
    }

    /// The number of bytes sent so far.
    pub fn sent_count(&self) -> (n: usize)
        ensures
            n == self@.sent_count,
    {
        self.sent_count
    }

    /// The state of the connection.
    pub fn status(&self) -> (s: Status)
        ensures
            s == self@.status,
    {
        self.status
    }

    /// Handles a key press at `now` (milliseconds on a monotonic clock):
    /// returns what to send, or that the client is to quit.
    pub fn handle_key(&mut self, key: Key, ctrl: bool, now: u64) -> (o: KeyOutcome)
        requires
            old(self).wf(),
        ensures
            final(self).wf(),
            (final(self)@, o) == spec_handle_key(old(self)@, key, ctrl, now),
    {
        let is_ctrl_c = match key {
            Key::Char(c) => c == 'c' && ctrl,
            _ => false,
        };
        if is_ctrl_c {
            if let Some(t) = self.last_ctrl_c {
                let since: u64 = if now >= t {
                    now - t
                } else {
                    0
                };
                if since < DOUBLE_CTRL_C_MS {
                    return KeyOutcome::Quit;
                }
            }
            self.last_ctrl_c = Some(now);
        } else {
            self.last_ctrl_c = None;
        }
        match key {
            Key::Char(c) => {
                let low: u8 = (c as u32 % 256) as u8;
                if ctrl {
                    let code: u8 = low.wrapping_sub(0x60);
                    assert(code == ctrl_code(c));
                    if 0x01 <= code && code <= 0x1a {
                        KeyOutcome::Send { byte: code, edit: Edit::Ctrl((code + 0x40) as char) }
                    } else {
                        KeyOutcome::Ignore
                    }
                } else {
                    KeyOutcome::Send { byte: low, edit: Edit::Char(c) }
                }
            },
            Key::Enter => KeyOutcome::Send { byte: 0x0a, edit: Edit::Newline },
            Key::Tab => KeyOutcome::Send { byte: 0x09, edit: Edit::Char('\t') },
            Key::Backspace => KeyOutcome::Send { byte: 0x7f, edit: Edit::Backspace },
            Key::Other => KeyOutcome::Ignore,
        }
    }

    /// Records the outcome of sending a key's byte: returns whether the
    /// client carries on.
    pub fn finish_send(&mut self, sent: bool, edit: Edit) -> (go_on: bool)
        requires
            old(self).wf(),
            sent ==> old(self)@.sent_count < usize::MAX,
        ensures
            final(self).wf(),
            go_on == sent,
            final(self)@ == spec_finish_send(old(self)@, sent, edit),
    {
        if !sent {
            self.status = Status::ConnectionLost;
            return false;
        }
        self.sent_count = self.sent_count + 1;
        match edit {
            Edit::Char(c) => self.push_char(c),
            Edit::Newline => self.push_newline(),
            Edit::Backspace => self.push_backspace(),
            Edit::Ctrl(c) => self.push_ctrl(c),
        }
        true
    }
}

/// The number of rows to scroll the transcript by, in an area
/// `area_height` rows high including its two borders.
pub fn scroll_offset(n_lines: usize, area_height: u16) -> (r: u16)
    requires
        area_height >= 2,
    ensures
        r == spec_scroll_offset(n_lines, area_height),
{
    let visible: usize = area_height as usize - 2;
    let s: usize = n_lines.saturating_sub(visible);
    let r: u16 = s as u16;
    assert((s as u16) == (s % 0x10000) as u16) by (bit_vector);
    r
}

/// Backspace right after typing a character restores the transcript.
pub proof fn lemma_backspace_undoes_char(lines: Seq<Seq<char>>, c: char)
    requires
        lines_wf(lines),
    ensures
        spec_push_backspace(spec_push_char(lines, c)) == lines,
{
    assert(lines.last().push(c).drop_last() =~= lines.last());
    assert(spec_push_backspace(spec_push_char(lines, c)) =~= lines);
}

/// Typing a character appends it to the transcript text.
pub proof fn lemma_text_push_char(lines: Seq<Seq<char>>, c: char)
    requires
        lines_wf(lines),
    ensures
        join_lines(spec_push_char(lines, c)) == join_lines(lines).push(c),
{
    let l2 = spec_push_char(lines, c);
    if lines.len() == 1 {
        assert(l2[0] =~= lines[0].push(c));
    } else {
        assert(l2.drop_last() =~= lines.drop_last());
        assert(join_lines(l2) =~= join_lines(lines).push(c));
    }
}

/// While the transcript is below `MAX_LINES` lines, Enter appends a line
/// feed to its text.
pub proof fn lemma_text_push_newline(lines: Seq<Seq<char>>)
    requires
        1 <= lines.len() < MAX_LINES,
    ensures
        join_lines(spec_push_newline(lines)) == join_lines(lines).push('\n'),
{
    let l2 = lines.push(Seq::<char>::empty());
    assert(l2.drop_last() =~= lines);
    assert(join_lines(l2) =~= join_lines(lines).push('\n'));
}

/// Ctrl+C quits only as the second of two Ctrl+C presses in a row: right
/// after a Ctrl+C that did not quit (its byte sent or not), another Ctrl+C
/// quits exactly when it comes less than 500 ms later (no time passes if the
/// clock reads earlier).
pub proof fn lemma_double_ctrl_c(v: AppView, t1: u64, sent: bool, t2: u64)
    ensures
        ({
            let (v1, o1) = spec_handle_key(v, Key::Char('c'), true, t1);
            o1 != KeyOutcome::Quit ==> {
                let w = match o1 {
                    KeyOutcome::Send { byte, edit } => spec_finish_send(v1, sent, edit),
                    _ => v1,
                };
                (spec_handle_key(w, Key::Char('c'), true, t2).1 == KeyOutcome::Quit) <==> (if t2
                    >= t1 {
                    t2 - t1
                } else {
                    0
                }) < 500
            }
        }),
{
}

/// Any key other than Ctrl+C disarms the quit: the next Ctrl+C does not quit.
pub proof fn lemma_other_key_disarms(v: AppView, key: Key, ctrl: bool, t1: u64, t2: u64)
    requires
        !is_ctrl_c(key, ctrl),
    ensures
        spec_handle_key(spec_handle_key(v, key, ctrl, t1).0, Key::Char('c'), true, t2).1
            != KeyOutcome::Quit,
{
}

/// Whatever the key and whatever the outcome of the write, handling it
/// keeps the transcript at one to `MAX_LINES` lines.
pub proof fn lemma_key_keeps_lines_bounded(
    v: AppView,
    key: Key,
    ctrl: bool,
    now: u64,
    sent: bool,
)
    requires
        lines_wf(v.lines),
    ensures
        ({
            let (v1, o) = spec_handle_key(v, key, ctrl, now);
            &&& lines_wf(v1.lines)
            &&& o matches KeyOutcome::Send { byte, edit } ==> lines_wf(
                spec_finish_send(v1, sent, edit).lines,
            )
        }),
{
}

/// Typing a printable character and then Backspace, both sent, sends the
/// character's byte and then 0x7f, counts two sends, and leaves the
/// transcript as it was.
pub proof fn lemma_type_then_backspace(v: AppView, c: char, t1: u64, t2: u64)
    requires
        lines_wf(v.lines),
        0x20 <= c as u32 <= 0x7e,
    ensures
        ({
            let (v1, o1) = spec_handle_key(v, Key::Char(c), false, t1);
            let v2 = spec_finish_send(v1, true, Edit::Char(c));
            let (v3, o2) = spec_handle_key(v2, Key::Backspace, false, t2);
            let v4 = spec_finish_send(v3, true, Edit::Backspace);
            &&& o1 == KeyOutcome::Send { byte: c as u32 as u8, edit: Edit::Char(c) }
            &&& o2 == KeyOutcome::Send { byte: 0x7f, edit: Edit::Backspace }
            &&& v4.lines == v.lines
            &&& v4.sent_count == v.sent_count + 2
        }),
{
    lemma_backspace_undoes_char(v.lines, c);
    assert((c as u32 % 256) as u8 == c as u32 as u8);
}

/// Enter, Tab and Backspace send a line feed (0x0a), a tab (0x09) and a
/// delete (0x7f), with or without Control, and record a new line, a tab and
/// a backspace; keys the client does not know send nothing. Any of these
/// forgets a pending Ctrl+C and changes nothing else.
pub proof fn lemma_non_char_keys(v: AppView, ctrl: bool, now: u64)
    ensures
        spec_handle_key(v, Key::Enter, ctrl, now) == (AppView { last_ctrl_c: None, ..v },
        KeyOutcome::Send { byte: 0x0a, edit: Edit::Newline }),
        spec_handle_key(v, Key::Tab, ctrl, now) == (AppView { last_ctrl_c: None, ..v },
        KeyOutcome::Send { byte: 0x09, edit: Edit::Char('\t') }),
        spec_handle_key(v, Key::Backspace, ctrl, now) == (AppView { last_ctrl_c: None, ..v },
        KeyOutcome::Send { byte: 0x7f, edit: Edit::Backspace }),
        spec_handle_key(v, Key::Other, ctrl, now) == (AppView { last_ctrl_c: None, ..v },
        KeyOutcome::Ignore),
{
}

/// A character key without Control sends the character's code point cut to
/// its low byte and records the character itself. With Control (other than
/// Ctrl+C, for which see `lemma_double_ctrl_c`), a key whose low byte is a
/// lowercase letter sends that letter's control code (the letter minus
/// 0x60, so 0x01 for `a`) and records `^` and the uppercase letter; any
/// other key sends nothing.
pub proof fn lemma_char_keys(v: AppView, c: char, now: u64)
    ensures
        spec_handle_key(v, Key::Char(c), false, now) == (AppView { last_ctrl_c: None, ..v },
        KeyOutcome::Send { byte: (c as u32 % 256) as u8, edit: Edit::Char(c) }),
        c != 'c' ==> spec_handle_key(v, Key::Char(c), true, now) == (AppView {
            last_ctrl_c: None,
            ..v
        }, if 0x61 <= c as u32 % 256 <= 0x7a {
            KeyOutcome::Send {
                byte: (c as u32 % 256 - 0x60) as u8,
                edit: Edit::Ctrl((c as u32 % 256 - 0x20) as char),
            }
        } else {
            KeyOutcome::Ignore
        }),
{
}

/// A Ctrl+C that does not come within 500 ms of a pending one (or has none
/// before it) sends 0x03, records `^C`, and becomes the pending Ctrl+C.
pub proof fn lemma_single_ctrl_c(v: AppView, now: u64)
    requires
        v.last_ctrl_c matches Some(t) ==> (if now >= t {
            now - t
        } else {
            0
        }) >= 500,
    ensures
        spec_handle_key(v, Key::Char('c'), true, now) == (AppView {
            last_ctrl_c: Some(now),
            ..v
        }, KeyOutcome::Send { byte: 0x03, edit: Edit::Ctrl('C') }),
{
}

/// The scroll offset shows the transcript's last line and fills every row
/// inside the area's two borders: the rows from the offset on reach the
/// last line, and unless nothing needs scrolling they end exactly there.
pub proof fn lemma_scroll_shows_last_line(n_lines: usize, area_height: u16)
    requires
        area_height >= 2,
        n_lines < 0x10000 + area_height - 2,
    ensures
        ({
            let r = spec_scroll_offset(n_lines, area_height) as int;
            let rows = area_height - 2;
            &&& 0 <= r <= n_lines
            &&& r + rows >= n_lines
            &&& r == 0 || r + rows == n_lines
        }),
{
}

/// Enter adds an empty line under the transcript; it keeps the last 100
/// lines, dropping the oldest when there would be more.
pub proof fn lemma_newline_keeps_last_hundred(lines: Seq<Seq<char>>)
    requires
        1 <= lines.len() <= 100,
    ensures
        lines.len() < 100 ==> spec_push_newline(lines) == lines.push(Seq::<char>::empty()),
        lines.len() == 100 ==> spec_push_newline(lines) == lines.drop_first().push(
            Seq::<char>::empty(),
        ),
{
    assert(lines.push(Seq::<char>::empty()).drop_first() =~= lines.drop_first().push(
        Seq::<char>::empty(),
    ));
}

} // verus!
