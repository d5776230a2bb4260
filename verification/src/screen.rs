//! The screen layout of the typing client: a header bar, the transcript,
//! and a status bar, stacked vertically. The split itself is ratatui's.
use ratatui::layout::{Constraint, Direction, Layout, Rect};
use vstd::prelude::*;

verus! {

/// Rows of the header bar.
pub const HEADER_ROWS: u16 = 3;

/// Rows the transcript asks for at least.
pub const MIN_TRANSCRIPT_ROWS: u16 = 5;

/// Rows of the status bar.
pub const STATUS_ROWS: u16 = 3;

/// A rectangle of the terminal.
#[derive(Debug, Clone, Copy, PartialEq, Eq)]
pub struct Area {
    pub x: u16,
    pub y: u16,
    pub width: u16,
    pub height: u16,
}

/// The three parts of the screen, top to bottom.
#[derive(Debug, Clone, Copy, PartialEq, Eq)]
pub struct Screen {
    pub header: Area,
    pub transcript: Area,
    pub status: Area,
}

/// How much of `len` fits after `start` within the terminal coordinates
/// (`u16`): ratatui's `Rect::new` clamps a width or height to this.
pub open spec fn fit(start: u16, len: u16) -> int {
    if len <= 0xffff - start {
        len as int
    } else {
        0xffff - start
    }
}

/// The part `r` = (x, y, width, height) has the column and the width of the
/// area (x, width) as clamped.
pub open spec fn keeps_columns(r: (u16, u16, u16, u16), x: u16, width: u16) -> bool {
    r.0 == x && r.2 == fit(x, width)
}

/// The parts are stacked over the area's rows: the first starts at the top
/// row, each next one where the one before ends, and the last ends at the
/// bottom row.
pub open spec fn stacked(r: Seq<(u16, u16, u16, u16)>, y: u16, height: u16) -> bool {
    &&& r[0].1 == y
    &&& r[1].1 == r[0].1 + r[0].3
    &&& r[2].1 == r[1].1 + r[1].3
    &&& r[2].1 + r[2].3 == y + fit(y, height)
}

pub open spec fn lesser(a: int, b: int) -> int {
    if a <= b {
        a
    } else {
        b
    }
}

/// The split when the area is tall enough for every constraint: `top` rows,
/// then all rows but the last `bottom`, then `bottom` rows.
pub open spec fn full_split(x: u16, y: u16, width: u16, height: u16, top: u16, bottom: u16) -> Seq<
    (u16, u16, u16, u16),
> {
    let w = fit(x, width) as u16;
    let h = fit(y, height);
    seq![
        (x, y, w, top),
        (x, (y + top) as u16, w, (h - top - bottom) as u16),
        (x, (y + h - bottom) as u16, w, bottom),
    ]
}

/// Calls ratatui's `Layout::split` (default layout: no margin, no spacing,
/// `Flex::Start`) in the vertical direction with the constraints
/// `Length(top)`, `Min(middle_min)`, `Length(bottom)`, on
/// `Rect::new(x, y, width, height)`, and gives each resulting `Rect` as
/// (x, y, width, height).
///
/// What the contract states follows from ratatui's code and the strengths it
/// gives the solver (cassowary minimises the weighted sum of the errors of
/// the constraints that are not required):
/// - Each part takes the clamped area's column and width (`changes_to_rects`
///   with no margin).
/// - The parts are stacked over the area's rows with nothing before, between
///   or after them: the first spacer is to be empty at strength
///   `REQUIRED - 1`, the inner ones at `REQUIRED / 10`, which outweigh every
///   other constraint; the trailing spacer's wish to grow (`MEDIUM / 10`) is
///   outweighed by the Min segment's wish to fill the area (`MEDIUM`) and by
///   the Length constraints (`STRONG * 10`).
/// - When the area has room for all three constraints, the split is the only
///   optimum: the Lengths get their rows and the middle part the rest.
/// - When it has not (and `middle_min` is at most 0x7fff, so that ratatui's
///   cast of it to `i16` keeps it), the Min's lower bound (`STRONG * 100`)
///   outweighs the Lengths: the middle part gets `middle_min` rows, or all
///   rows if there are fewer, and the Lengths share what is left, neither
///   getting more than it asks for. How they share it is a tie between equally
///   good solutions, which the solver breaks by the order of its hash maps;
///   the contract says nothing of it.
#[verifier::external_body]
fn split_vertical(
    x: u16,
    y: u16,
    width: u16,
    height: u16,
    top: u16,
    middle_min: u16,
    bottom: u16,
) -> (r: [(u16, u16, u16, u16); 3])
    ensures
        forall|k: int| 0 <= k < 3 ==> keeps_columns(#[trigger] r@[k], x, width),
        stacked(r@, y, height),
        fit(y, height) >= top + middle_min + bottom ==> r@ == full_split(
            x,
            y,
            width,
            height,
            top,
            bottom,
        ),
        fit(y, height) < top + middle_min + bottom && middle_min <= 0x7fff ==> {
            &&& r@[1].3 == lesser(fit(y, height), middle_min as int)
            &&& r@[0].3 <= top
            &&& r@[2].3 <= bottom
        },
{
    let c = Layout::default().direction(Direction::Vertical).constraints(
        [Constraint::Length(top), Constraint::Min(middle_min), Constraint::Length(bottom)],
    ).split(Rect::new(x, y, width, height));
    [
        (c[0].x, c[0].y, c[0].width, c[0].height),
        (c[1].x, c[1].y, c[1].width, c[1].height),
        (c[2].x, c[2].y, c[2].width, c[2].height),
    ]
}

pub open spec fn area_of(r: (u16, u16, u16, u16)) -> Area {
    Area { x: r.0, y: r.1, width: r.2, height: r.3 }
}

/// The screen of an area tall enough for the header, the least transcript
/// and the status bar: header and status bar take their rows at the top and
/// the bottom, and the transcript all rows between.
pub open spec fn full_screen(x: u16, y: u16, width: u16, height: u16) -> Screen {
    let parts = full_split(x, y, width, height, HEADER_ROWS, STATUS_ROWS);
    Screen { header: area_of(parts[0]), transcript: area_of(parts[1]), status: area_of(parts[2]) }
}

/// The screen covers the terminal area (x, y, width, height): every part has
/// the area's column and width, and header, transcript and status bar follow
/// each other from the area's top row to its bottom row.
pub open spec fn covers(s: Screen, x: u16, y: u16, width: u16, height: u16) -> bool {
    &&& s.header.x == x && s.header.width == fit(x, width)
    &&& s.transcript.x == x && s.transcript.width == fit(x, width)
    &&& s.status.x == x && s.status.width == fit(x, width)
    &&& s.header.y == y
    &&& s.transcript.y == s.header.y + s.header.height
    &&& s.status.y == s.transcript.y + s.transcript.height
    &&& s.status.y + s.status.height == y + fit(y, height)
}

/// Splits the terminal area (x, y, width, height) into header, transcript
/// and status bar. On a terminal too short for all three, the transcript
/// keeps `MIN_TRANSCRIPT_ROWS` rows (or all rows, if fewer) and the header
/// and status bar share the rest, neither above its own size.
pub fn screen(x: u16, y: u16, width: u16, height: u16) -> (s: Screen)
    ensures
        covers(s, x, y, width, height),
        fit(y, height) >= HEADER_ROWS + MIN_TRANSCRIPT_ROWS + STATUS_ROWS ==> s == full_screen(
            x,
            y,
            width,
            height,
        ),
        fit(y, height) >= 11 ==> s.header.height == 3 && s.status.height == 3
            && s.transcript.height == fit(y, height) - 6,
        fit(y, height) < 11 ==> s.transcript.height == lesser(fit(y, height), 5),
        fit(y, height) < HEADER_ROWS + MIN_TRANSCRIPT_ROWS + STATUS_ROWS ==> {
            &&& s.transcript.height == lesser(fit(y, height), MIN_TRANSCRIPT_ROWS as int)
            &&& s.header.height <= HEADER_ROWS
            &&& s.status.height <= STATUS_ROWS
        },
{
    let parts = split_vertical(x, y, width, height, HEADER_ROWS, MIN_TRANSCRIPT_ROWS, STATUS_ROWS);
    let (hx, hy, hw, hh) = parts[0];
    let (tx, ty, tw, th) = parts[1];
    let (sx, sy, sw, sh) = parts[2];
    assert(keeps_columns(parts@[0], x, width));
    assert(keeps_columns(parts@[1], x, width));
    assert(keeps_columns(parts@[2], x, width));
    Screen {
        header: Area { x: hx, y: hy, width: hw, height: hh },
        transcript: Area { x: tx, y: ty, width: tw, height: th },
        status: Area { x: sx, y: sy, width: sw, height: sh },
    }
}

} // verus!
