//! The out-of-band control protocol: one line per connection. The only
//! command is `ABORT`, which sets the shared abort flag that the typing loop
//! checks between bytes.
use vstd::prelude::*;

verus! {

/// Whether `c` has the Unicode White_Space property, which is what
/// `char::is_whitespace` and `str::trim` go by.
pub open spec fn is_white_space(c: char) -> bool {
    let n: u32 = c as u32;
    (0x09 <= n <= 0x0d) || n == 0x20 || n == 0x85 || n == 0xa0 || n == 0x1680 || (0x2000 <= n
        <= 0x200a) || n == 0x2028 || n == 0x2029 || n == 0x202f || n == 0x205f || n == 0x3000
}

/// `s` without its leading white space.
pub open spec fn trim_start(s: Seq<char>) -> Seq<char>
    decreases s.len(),
{
    if s.len() > 0 && is_white_space(s[0]) {
        trim_start(s.drop_first())
    } else {
        s
    }
}

/// `s` without its trailing white space.
pub open spec fn trim_end(s: Seq<char>) -> Seq<char>
    decreases s.len(),
{
    if s.len() > 0 && is_white_space(s.last()) {
        trim_end(s.drop_last())
    } else {
        s
    }
}

/// `s` without leading and trailing white space.
pub open spec fn trim(s: Seq<char>) -> Seq<char> {
    trim_end(trim_start(s))
}

/// The command word.
pub open spec fn abort_word() -> Seq<char> {
    seq!['A', 'B', 'O', 'R', 'T']
}

/// A control request, read from one line.
#[derive(Debug, PartialEq, Eq)]
pub enum ControlCommand {
    /// `ABORT`: stop typing the current data session.
    Abort,
    /// A blank line; answered like any unknown command.
    Empty,
    /// Anything else, with its surrounding white space removed.
    Unknown(Vec<char>),
}

/// Whether `c` has the Unicode White_Space property.
pub fn is_white_space_char(c: char) -> (b: bool)
    ensures
        b == is_white_space(c),
{
    let n: u32 = c as u32;
    (0x09 <= n && n <= 0x0d) || n == 0x20 || n == 0x85 || n == 0xa0 || n == 0x1680 || (0x2000
        <= n && n <= 0x200a) || n == 0x2028 || n == 0x2029 || n == 0x202f || n == 0x205f || n
        == 0x3000
}

proof fn lemma_trim_start_skip(s: Seq<char>, i: int)
    requires
        0 <= i < s.len(),
        is_white_space(s[i]),
    ensures
        trim_start(s.subrange(i, s.len() as int)) == trim_start(s.subrange(i + 1, s.len() as int)),
{
    let t = s.subrange(i, s.len() as int);
    assert(t.drop_first() =~= s.subrange(i + 1, s.len() as int));
}

proof fn lemma_trim_end_skip(s: Seq<char>, j: int)
    requires
        0 < j <= s.len(),
        is_white_space(s[j - 1]),
    ensures
        trim_end(s.subrange(0, j)) == trim_end(s.subrange(0, j - 1)),
{
    let t = s.subrange(0, j);
    assert(t.drop_last() =~= s.subrange(0, j - 1));
}

proof fn lemma_trim_start_push(s: Seq<char>, c: char)
    ensures
        trim_start(s.push(c)) == (if trim_start(s).len() == 0 {
            trim_start(seq![c])
        } else {
            trim_start(s).push(c)
        }),
    decreases s.len(),
{
    if s.len() == 0 {
        assert(s.push(c) =~= seq![c]);
    } else if is_white_space(s[0]) {
        assert(s.push(c).drop_first() =~= s.drop_first().push(c));
        lemma_trim_start_push(s.drop_first(), c);
    }
}

/// White space after a command does not change it: in particular a line
/// reads the same with or without its line end.
pub proof fn lemma_trim_trailing_white_space(s: Seq<char>, c: char)
    requires
        is_white_space(c),
    ensures
        trim(s.push(c)) == trim(s),
{
    lemma_trim_start_push(s, c);
    if trim_start(s).len() == 0 {
        assert(seq![c].drop_first() =~= Seq::<char>::empty());
        assert(trim_start(seq![c]) == trim_start(Seq::<char>::empty()));
    } else {
        let x = trim_start(s);
        assert(x.push(c).drop_last() =~= x);
    }
}

/// White space before a command does not change it.
pub proof fn lemma_trim_leading_white_space(c: char, s: Seq<char>)
    requires
        is_white_space(c),
    ensures
        trim(seq![c] + s) == trim(s),
{
    assert((seq![c] + s).drop_first() =~= s);
}

/// Line ends, tabs and spaces are white space; no printing ASCII character
/// is.
pub proof fn lemma_white_space_ascii(c: char)
    ensures
        is_white_space('\n') && is_white_space('\r') && is_white_space('\t') && is_white_space(
            ' ',
        ),
        0x21 <= c as u32 <= 0x7e ==> !is_white_space(c),
{
}

/// The line `ABORT`, bare or with its line end, is the abort command.
pub proof fn lemma_abort_line(c: char)
    requires
        is_white_space(c),
    ensures
        trim(seq!['A', 'B', 'O', 'R', 'T']) == abort_word(),
        trim(seq!['A', 'B', 'O', 'R', 'T'].push(c)) == abort_word(),
{
    let w = seq!['A', 'B', 'O', 'R', 'T'];
    assert(w.drop_first()[0] == 'B');
    assert(trim_start(w) == w);
    assert(trim_end(w) == w);
    lemma_trim_trailing_white_space(w, c);
}

/// The characters of `s` without leading and trailing white space.
pub fn trim_chars(s: &Vec<char>) -> (r: Vec<char>)
    ensures
        r@ == trim(s@),
{
    let len: usize = s.len();
    let mut lo: usize = 0;
    assert(s@.subrange(0, len as int) =~= s@);
    while lo < len && is_white_space_char(s[lo])
        invariant
            lo <= len,
            len == s@.len(),
            trim_start(s@) == trim_start(s@.subrange(lo as int, len as int)),
        decreases len - lo,
    {
        proof {
            lemma_trim_start_skip(s@, lo as int);
        }
        lo = lo + 1;
    }
    let ghost rest = s@.subrange(lo as int, len as int);
    assert(trim_start(rest) == rest);
    assert(trim_start(s@) == rest);
    let mut hi: usize = len;
    assert(rest.subrange(0, hi - lo) =~= rest);
    while hi > lo && is_white_space_char(s[hi - 1])
        invariant
            lo <= hi <= len,
            len == s@.len(),
            rest == s@.subrange(lo as int, len as int),
            trim_end(rest) == trim_end(rest.subrange(0, hi - lo)),
        decreases hi,
    {
        proof {
            lemma_trim_end_skip(rest, (hi - lo) as int);
            assert(rest.subrange(0, hi - lo - 1) =~= rest.subrange(0, (hi - 1 - lo) as int));
        }
        hi = hi - 1;
    }
    let ghost kept = rest.subrange(0, hi - lo);
    assert(trim_end(kept) == kept);
    let mut r: Vec<char> = Vec::new();
    let mut i: usize = lo;
    while i < hi
        invariant
            lo <= i <= hi <= len,
            len == s@.len(),
            kept == rest.subrange(0, hi - lo),
            rest == s@.subrange(lo as int, len as int),
            r@ == s@.subrange(lo as int, i as int),
        decreases hi - i,
    {
        r.push(s[i]);
        i = i + 1;
    }
    assert(r@ =~= kept);
    r
}

/// The characters of `line`, in order.
pub fn line_chars(line: &str) -> (r: Vec<char>)
    ensures
        r@ == line@,
{
    let mut r: Vec<char> = Vec::new();
    for c in it: line.chars()
        invariant
            r@ == it.seq().take(it.index()),
    {
        r.push(c);
    }
    r
}

/// Reads a control request from one line as received (its line end
/// included, if any).
pub fn parse_control_line(line: &str) -> (c: ControlCommand)
    ensures
        c is Abort <==> trim(line@) == abort_word(),
        c is Empty <==> trim(line@).len() == 0,
        c matches ControlCommand::Unknown(v) ==> v@ == trim(line@),
{
    let chars = line_chars(line);
    let t = trim_chars(&chars);
    if t.len() == 0 {
        ControlCommand::Empty
    } else if t.len() == 5 && t[0] == 'A' && t[1] == 'B' && t[2] == 'O' && t[3] == 'R' && t[4]
        == 'T' {
        assert(t@ =~= abort_word());
        ControlCommand::Abort
    } else {
        ControlCommand::Unknown(t)
    }
}

impl ControlCommand {
    /// Whether the request sets the abort flag.
    pub fn sets_abort(&self) -> (b: bool)
        ensures
            b == (self is Abort),
    {
        match self {
            ControlCommand::Abort => true,
            _ => false,
        }
    }

    /// The line written back to the control connection, without its line end:
    /// `OK` for `ABORT`, `ERR unknown command` for anything else.
    pub fn reply(&self) -> (r: &'static str)
        ensures
            self is Abort ==> r@ == "OK"@,
            !(self is Abort) ==> r@ == "ERR unknown command"@,
    {
        match self {
            ControlCommand::Abort => "OK",
            ControlCommand::Empty | ControlCommand::Unknown(_) => "ERR unknown command",
        }
    }
}

} // verus!
