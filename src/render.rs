use vstd::prelude::*;
use crate::world::{CellState, Grid, World};

verus! {

/// The decimal digit `d` (0 to 9) as a character.
pub open spec fn digit_char(d: nat) -> char {
    if d == 0 { '0' } else if d == 1 { '1' } else if d == 2 { '2' } else if d == 3 { '3' }
    else if d == 4 { '4' } else if d == 5 { '5' } else if d == 6 { '6' } else if d == 7 { '7' }
    else if d == 8 { '8' } else { '9' }
}

/// `n` written in decimal, without leading zeros.
pub open spec fn decimal(n: nat) -> Seq<char>
    decreases n,
{
    if n < 10 { seq![digit_char(n)] } else { decimal(n / 10).push(digit_char(n % 10)) }
}

/// A control sequence: ESC, '[', then `body`.
pub open spec fn csi(body: Seq<char>) -> Seq<char> {
    seq!['\x1b', '['] + body
}

/// Moves the cursor to column `x`, row `y` (both one-based).
pub open spec fn goto_text(x: nat, y: nat) -> Seq<char> {
    csi(decimal(y) + seq![';'] + decimal(x) + seq!['H'])
}

pub open spec fn clear_text() -> Seq<char> {
    csi(seq!['2', 'J'])
}

pub open spec fn hide_text() -> Seq<char> {
    csi(seq!['?', '2', '5', 'l'])
}

pub open spec fn show_text() -> Seq<char> {
    csi(seq!['?', '2', '5', 'h'])
}

pub open spec fn reset_text() -> Seq<char> {
    csi(seq!['m'])
}

/// Relies on termion::clear::All, whose Display writes ESC [ 2 J.
#[verifier::external_body]
fn clear_all() -> (r: String)
    ensures
        r@ == clear_text(),
{
    termion::clear::All.to_string()
}

/// Relies on termion::cursor::Hide, whose Display writes ESC [ ? 2 5 l.
#[verifier::external_body]
fn hide_cursor() -> (r: String)
    ensures
        r@ == hide_text(),
{
    termion::cursor::Hide.to_string()
}

/// Relies on termion::cursor::Show, whose Display writes ESC [ ? 2 5 h.
#[verifier::external_body]
fn show_cursor() -> (r: String)
    ensures
        r@ == show_text(),
{
    termion::cursor::Show.to_string()
}

/// Relies on termion::style::Reset, whose Display writes ESC [ m.
#[verifier::external_body]
fn reset_style() -> (r: String)
    ensures
        r@ == reset_text(),
{
    termion::style::Reset.to_string()
}

/// Relies on termion::cursor::Goto, whose Display writes ESC [, the row and
/// the column in decimal separated by ';', then 'H'. Positions are one-based.
#[verifier::external_body]
fn goto(x: u16, y: u16) -> (r: String)
    requires
        x >= 1,
        y >= 1,
    ensures
        r@ == goto_text(x as nat, y as nat),
{
    termion::cursor::Goto(x, y).to_string()
}

/// The character drawn for a cell.
pub open spec fn glyph(s: CellState) -> char {
    match s {
        CellState::Dead => '░',
        CellState::Alive => '█',
    }
}

pub open spec fn row_text(row: Seq<CellState>) -> Seq<char> {
    row.map_values(|s: CellState| glyph(s))
}

/// The first `n` rows, each followed by a move to the start of the next row.
pub open spec fn rows_text(cells: Seq<Seq<CellState>>, n: nat) -> Seq<char>
    decreases n,
{
    if n == 0 {
        seq![]
    } else {
        rows_text(cells, (n - 1) as nat) + row_text(cells[n - 1]) + goto_text(1, n + 1)
    }
}

/// A full redraw of `g`: clear, hide the cursor, go to the top left, draw
/// the rows, show the cursor.
pub open spec fn frame_text(g: Grid) -> Seq<char> {
    clear_text() + hide_text() + goto_text(1, 1) + rows_text(g.cells, g.height) + show_text()
}

/// Restores the screen on exit: reset style, go to the top left, clear,
/// show the cursor.
pub open spec fn teardown_text() -> Seq<char> {
    reset_text() + goto_text(1, 1) + clear_text() + show_text()
}

/// The help line of the idle screen.
pub const HELP_LINE: &'static str = "q: quit, r: randomize, space: start/stop, h: home";

/// The number of characters in `HELP_LINE`.
pub const HELP_WIDTH: usize = 49;

/// `n` copies of `c`.
pub open spec fn repeat(c: char, n: nat) -> Seq<char> {
    Seq::new(n, |i: int| c)
}

/// The idle screen: `height` blank lines, then the help line padded with
/// spaces to `width` (no padding where the help line is already wider).
pub open spec fn home_text(width: nat, height: nat) -> Seq<char> {
    repeat('\n', height) + HELP_LINE@ + repeat(' ', if width > HELP_WIDTH { (width - HELP_WIDTH) as nat } else { 0 })
}

/// Appends `n` copies of the one-character string `c` to `s`.
fn append_repeated(s: &mut String, c: &str, n: usize)
    requires
        c@.len() == 1,
    ensures
        final(s)@ == old(s)@ + repeat(c@[0], n as nat),
{
    for i in 0..n
        invariant
            c@.len() == 1,
            s@ == old(s)@ + repeat(c@[0], i as nat),
    {
        s.append(c);
        assert(s@ =~= old(s)@ + repeat(c@[0], (i + 1) as nat));
    }
}

/// The idle screen for a terminal of `width` columns and `height` rows.
pub fn render_home(width: usize, height: usize) -> (r: String)
    ensures
        r@ == home_text(width as nat, height as nat),
{
    proof {
        reveal_strlit("\n");
        reveal_strlit(" ");
        reveal_strlit("q: quit, r: randomize, space: start/stop, h: home");
    }
    let mut s = String::new();
    append_repeated(&mut s, "\n", height);
    s.append(HELP_LINE);
    let pad: usize = if width > HELP_WIDTH { width - HELP_WIDTH } else { 0 };
    append_repeated(&mut s, " ", pad);
    assert(s@ =~= home_text(width as nat, height as nat));
    s
}

/// The sequence that restores the screen when the session ends.
pub fn render_teardown() -> (r: String)
    ensures
        r@ == teardown_text(),
{
    let mut s = reset_style();
    s.append(goto(1, 1).as_str());
    s.append(clear_all().as_str());
    s.append(show_cursor().as_str());
    s
}

/// A full-screen redraw of `world`, one glyph per cell.
pub fn render(world: &World) -> (r: String)
    requires
        world.wf(),
        world@.height < u16::MAX,
    ensures
        r@ == frame_text(world@),
{
    let mut s = clear_all();
    s.append(hide_cursor().as_str());
    s.append(goto(1, 1).as_str());
    let ghost head = s@;
    let width = world.width();
    let height = world.height();
    for y in 0..height
        invariant
            world.wf(),
            width == world@.width,
            height == world@.height,
            height < u16::MAX,
            s@ == head + rows_text(world@.cells, y as nat),
    {
        let ghost before = s@;
        for x in 0..width
            invariant
                world.wf(),
                width == world@.width,
                height == world@.height,
                y < height,
                s@ == before + row_text(world@.cells[y as int].subrange(0, x as int)),
        {
            proof {
                reveal_strlit("░");
                reveal_strlit("█");
            }
            let ghost prev = s@;
            let cell = world.get(x, y);
            match cell {
                CellState::Dead => s.append("░"),
                CellState::Alive => s.append("█"),
            }
            assert(s@ =~= prev.push(glyph(cell)));
            let ghost row = world@.cells[y as int];
            assert(row.subrange(0, x + 1) =~= row.subrange(0, x as int).push(row[x as int]));
            assert(row_text(row.subrange(0, x as int).push(row[x as int]))
                =~= row_text(row.subrange(0, x as int)).push(glyph(row[x as int])));
            assert(s@ =~= before + row_text(world@.cells[y as int].subrange(0, x + 1)));
        }
        assert(world@.cells[y as int].subrange(0, width as int) =~= world@.cells[y as int]);
        s.append(goto(1, y as u16 + 2).as_str());
        assert(s@ =~= head + rows_text(world@.cells, (y + 1) as nat));
    }
    s.append(show_cursor().as_str());
    s
}

} // verus!
