//! Rendering laws of the console model: what one written byte leaves on
//! the grid, how a full row wraps without scrolling, that a screen of line
//! feeds scrolls exactly once and shifts the rows byte-for-byte, and what
//! a cleared screen holds. Each law is stated over the screen model that
//! the driver's contracts use, so it holds of the driver itself.

use vstd::prelude::*;

use crate::console::blank_cell;
use crate::console::cell_index;
use crate::console::sanitize_byte;
use crate::console::scrolled_grid;
use crate::console::state_clear;
use crate::console::state_new_line;
use crate::console::state_put;
use crate::console::state_wrap;
use crate::console::state_write_byte;
use crate::console::state_write_bytes;
use crate::console::lemma_write_bytes_snoc;
use crate::console::Cell;
use crate::console::ScreenState;
use crate::console::LINE_FEED;
use crate::console::REPLACEMENT_GLYPH;
use crate::console::SPACE;
use crate::console::VGA_CELLS;
use crate::console::VGA_HEIGHT;
use crate::console::VGA_WIDTH;

verus! {

/// A sequence of line feeds.
pub open spec fn line_feeds(n: nat) -> Seq<u8> {
    Seq::new(n, |i: int| LINE_FEED)
}

/// Writing one byte through the sanitizing path renders a printable byte
/// or a line feed unchanged and every other byte as the replacement
/// glyph: a line feed starts a new row, and any other byte leaves exactly
/// its sanitized glyph at the (possibly wrapped) cursor cell, under the
/// active attribute.
pub proof fn lemma_write_string_renders_byte(s: ScreenState, b: u8)
    requires
        s.wf(),
    ensures
        (SPACE <= b <= 0x7e || b == LINE_FEED) ==> sanitize_byte(b) == b,
        !(SPACE <= b <= 0x7e || b == LINE_FEED) ==> sanitize_byte(b) == REPLACEMENT_GLYPH,
        b == LINE_FEED ==> state_write_bytes(s, seq![b]) == state_new_line(s),
        b != LINE_FEED ==> state_write_bytes(s, seq![b]).grid[cell_index(
            state_wrap(s).row,
            state_wrap(s).col,
        )] == (Cell { ch: sanitize_byte(b), attr: s.attr }),
{
    let one = seq![b];
    assert(one[0] == b);
    assert(one.drop_first() =~= Seq::<u8>::empty());
    assert(state_write_bytes(s, one) == state_write_bytes(
        state_write_byte(s, sanitize_byte(b)),
        Seq::<u8>::empty(),
    ));
    assert(state_write_bytes(state_write_byte(s, sanitize_byte(b)), Seq::<u8>::empty())
        == state_write_byte(s, sanitize_byte(b)));
    if b != LINE_FEED {
        let t = state_wrap(s);
        assert(t.wf());
        assert(sanitize_byte(b) != LINE_FEED);
        assert(state_write_byte(s, sanitize_byte(b)) == state_put(s, sanitize_byte(b)));
        let idx = cell_index(t.row, t.col);
        assert(0 <= idx < VGA_CELLS) by (nonlinear_arith)
            requires
                0 <= t.row < VGA_HEIGHT,
                0 <= t.col < VGA_WIDTH,
                idx == t.row * (VGA_WIDTH as int) + t.col,
                VGA_WIDTH == 80,
                VGA_HEIGHT == 25,
                VGA_CELLS == 2000,
        ;
    }
}

/// Writing printable bytes that fit on the current row fills consecutive
/// cells of that row, advances the cursor by their number, and changes
/// nothing else on the screen.
pub proof fn lemma_write_row(s: ScreenState, bytes: Seq<u8>)
    requires
        s.wf(),
        forall|i: int| 0 <= i < bytes.len() ==> SPACE <= #[trigger] bytes[i] <= 0x7e,
        s.col + bytes.len() <= VGA_WIDTH,
    ensures
        state_write_bytes(s, bytes).row == s.row,
        state_write_bytes(s, bytes).col == s.col + bytes.len(),
        state_write_bytes(s, bytes).attr == s.attr,
        state_write_bytes(s, bytes).grid.len() == s.grid.len(),
        forall|i: int|
            0 <= i < bytes.len() ==> state_write_bytes(s, bytes).grid[#[trigger] cell_index(
                s.row,
                s.col + i,
            )] == (Cell { ch: bytes[i], attr: s.attr }),
        forall|j: int|
            0 <= j < s.grid.len() && !(cell_index(s.row, s.col) <= j < cell_index(s.row, s.col)
                + bytes.len()) ==> state_write_bytes(s, bytes).grid[j] == s.grid[j],
    decreases bytes.len(),
{
    if bytes.len() == 0 {
    } else {
        let b = bytes[0];
        assert(SPACE <= b <= 0x7e);
        assert(sanitize_byte(b) == b);
        assert(b != LINE_FEED);
        assert(s.col < VGA_WIDTH);
        assert(state_wrap(s) == s);
        let idx0 = cell_index(s.row, s.col);
        let s1 = state_put(s, b);
        assert(s1.grid == s.grid.update(idx0, Cell { ch: b, attr: s.attr }));
        assert(0 <= idx0 < s.grid.len()) by (nonlinear_arith)
            requires
                0 <= s.row < VGA_HEIGHT,
                0 <= s.col < VGA_WIDTH,
                idx0 == s.row * (VGA_WIDTH as int) + s.col,
                s.grid.len() == VGA_CELLS,
                VGA_WIDTH == 80,
                VGA_HEIGHT == 25,
                VGA_CELLS == 2000,
        ;
        assert(s1.wf());
        assert(state_write_bytes(s, bytes) == state_write_bytes(s1, bytes.drop_first()));
        assert(forall|i: int|
            0 <= i < bytes.drop_first().len() ==> #[trigger] bytes.drop_first()[i] == bytes[i + 1]);
        lemma_write_row(s1, bytes.drop_first());
        let r = state_write_bytes(s, bytes);
        assert(r.grid[idx0] == s1.grid[idx0]);
        assert forall|i: int| 0 <= i < bytes.len() implies r.grid[#[trigger] cell_index(
            s.row,
            s.col + i,
        )] == (Cell { ch: bytes[i], attr: s.attr }) by {
            if i == 0 {
                assert(cell_index(s.row, s.col + 0) == idx0);
            } else {
                assert(r.grid[cell_index(s1.row, s1.col + (i - 1))] == (Cell {
                    ch: bytes.drop_first()[i - 1],
                    attr: s1.attr,
                }));
                assert(cell_index(s1.row, s1.col + (i - 1)) == cell_index(s.row, s.col + i));
            }
        }
        assert forall|j: int|
            0 <= j < s.grid.len() && !(cell_index(s.row, s.col) <= j < cell_index(s.row, s.col)
                + bytes.len()) implies r.grid[j] == s.grid[j] by {
            assert(cell_index(s1.row, s1.col) == idx0 + 1);
            assert(r.grid[j] == s1.grid[j]);
            assert(s1.grid[j] == s.grid[j]);
        }
    }
}

/// Writing exactly one row's worth of printable characters leaves the
/// cursor one past the last column of the same row — the next character
/// will start the next row — and nothing scrolls: every cell outside that
/// row keeps its previous contents.
pub proof fn lemma_full_row_no_scroll(s: ScreenState, bytes: Seq<u8>)
    requires
        s.wf(),
        s.col == 0,
        bytes.len() == VGA_WIDTH,
        forall|i: int| 0 <= i < bytes.len() ==> SPACE <= #[trigger] bytes[i] <= 0x7e,
    ensures
        state_write_bytes(s, bytes).row == s.row,
        state_write_bytes(s, bytes).col == VGA_WIDTH,
        state_write_bytes(s, bytes).grid.len() == s.grid.len(),
        forall|i: int|
            0 <= i < VGA_WIDTH ==> state_write_bytes(s, bytes).grid[#[trigger] cell_index(
                s.row,
                i,
            )] == (Cell { ch: bytes[i], attr: s.attr }),
        forall|j: int|
            0 <= j < s.grid.len() && !(cell_index(s.row, 0) <= j < cell_index(s.row, 0)
                + VGA_WIDTH) ==> state_write_bytes(s, bytes).grid[j] == s.grid[j],
{
    lemma_write_row(s, bytes);
    assert(forall|i: int| 0 <= i < VGA_WIDTH ==> #[trigger] cell_index(s.row, i) == cell_index(
        s.row,
        s.col + i,
    ));
}

/// After a row has just been filled, the next printable character is
/// placed at the start of the next row; only then does the cursor move
/// down, and still without a scroll when rows remain below.
pub proof fn lemma_wrap_after_full_row(s: ScreenState, b: u8)
    requires
        s.wf(),
        s.col == VGA_WIDTH,
        s.row + 1 < VGA_HEIGHT,
        SPACE <= b <= 0x7e,
    ensures
        state_write_byte(s, b).row == s.row + 1,
        state_write_byte(s, b).col == 1,
        state_write_byte(s, b).grid.len() == s.grid.len(),
        state_write_byte(s, b).grid[cell_index(s.row + 1, 0)] == (Cell { ch: b, attr: s.attr }),
        forall|j: int|
            0 <= j < s.grid.len() && j != cell_index(s.row + 1, 0) ==> state_write_byte(
                s,
                b,
            ).grid[j] == s.grid[j],
{
    assert(b != LINE_FEED);
    let t = state_wrap(s);
    assert(t == state_new_line(s));
    assert(t.grid == s.grid);
    assert(t.row == s.row + 1 && t.col == 0);
    assert(0 <= cell_index(s.row + 1, 0) < s.grid.len()) by (nonlinear_arith)
        requires
            0 <= s.row,
            s.row + 1 < VGA_HEIGHT,
            s.grid.len() == VGA_CELLS,
            cell_index(s.row + 1, 0) == (s.row + 1) * (VGA_WIDTH as int),
            VGA_WIDTH == 80,
            VGA_HEIGHT == 25,
            VGA_CELLS == 2000,
    ;
}

/// Line feeds that stay above the bottom row only move the cursor down,
/// column to the start; the grid is untouched.
pub proof fn lemma_line_feeds_move_cursor(s: ScreenState, n: nat)
    requires
        s.wf(),
        1 <= n,
        s.row + n < VGA_HEIGHT,
    ensures
        state_write_bytes(s, line_feeds(n)) == (ScreenState {
            grid: s.grid,
            row: s.row + n,
            col: 0,
            attr: s.attr,
        }),
    decreases n,
{
    assert(line_feeds(n)[0] == LINE_FEED);
    assert(sanitize_byte(LINE_FEED) == LINE_FEED);
    let s1 = state_new_line(s);
    assert(s1 == (ScreenState { grid: s.grid, row: s.row + 1, col: 0, attr: s.attr }));
    assert(state_write_bytes(s, line_feeds(n)) == state_write_bytes(
        s1,
        line_feeds(n).drop_first(),
    ));
    assert(line_feeds(n).drop_first() =~= line_feeds((n - 1) as nat));
    if n == 1 {
        assert(line_feeds(0).len() == 0);
    } else {
        lemma_line_feeds_move_cursor(s1, (n - 1) as nat);
    }
}

/// Writing as many line feeds as the screen has rows, starting from the
/// top row, scrolls exactly once: the old top row is discarded, every
/// other row moves up one place with identical cell contents, the new
/// bottom row is blank, and the cursor rests at the start of the bottom
/// row.
pub proof fn lemma_height_line_feeds_one_scroll(s: ScreenState)
    requires
        s.wf(),
        s.row == 0,
    ensures
        state_write_bytes(s, line_feeds(VGA_HEIGHT as nat)).grid == scrolled_grid(s.grid, s.attr),
        state_write_bytes(s, line_feeds(VGA_HEIGHT as nat)).row == VGA_HEIGHT - 1,
        state_write_bytes(s, line_feeds(VGA_HEIGHT as nat)).col == 0,
        state_write_bytes(s, line_feeds(VGA_HEIGHT as nat)).attr == s.attr,
        forall|r: int, c: int|
            #![trigger cell_index(r, c)]
            0 <= r < VGA_HEIGHT - 1 && 0 <= c < VGA_WIDTH ==> state_write_bytes(
                s,
                line_feeds(VGA_HEIGHT as nat),
            ).grid[cell_index(r, c)] == s.grid[cell_index(r + 1, c)],
        forall|c: int|
            0 <= c < VGA_WIDTH ==> state_write_bytes(s, line_feeds(VGA_HEIGHT as nat)).grid[
            #[trigger] cell_index(VGA_HEIGHT as int - 1, c)] == blank_cell(s.attr),
{
    let n = VGA_HEIGHT as nat;
    lemma_line_feeds_move_cursor(s, (n - 1) as nat);
    let s24 = ScreenState { grid: s.grid, row: s.row + (n - 1), col: 0, attr: s.attr };
    assert(line_feeds(n) =~= line_feeds((n - 1) as nat).push(LINE_FEED));
    lemma_write_bytes_snoc(s, line_feeds((n - 1) as nat), LINE_FEED);
    assert(state_write_bytes(s, line_feeds(n)) == state_write_byte(s24, LINE_FEED));
    assert(state_write_byte(s24, LINE_FEED) == state_new_line(s24));
    let r = state_write_bytes(s, line_feeds(n));
    assert(r.grid == scrolled_grid(s.grid, s.attr));
    assert forall|rr: int, c: int|
        0 <= rr < VGA_HEIGHT - 1 && 0 <= c < VGA_WIDTH implies r.grid[#[trigger] cell_index(
        rr,
        c,
    )] == s.grid[cell_index(rr + 1, c)] by {
        let i = cell_index(rr, c);
        assert(0 <= i < VGA_CELLS - VGA_WIDTH) by (nonlinear_arith)
            requires
                0 <= rr < VGA_HEIGHT - 1,
                0 <= c < VGA_WIDTH,
                i == rr * (VGA_WIDTH as int) + c,
                VGA_WIDTH == 80,
                VGA_HEIGHT == 25,
                VGA_CELLS == 2000,
        ;
        assert(i + VGA_WIDTH == cell_index(rr + 1, c)) by (nonlinear_arith)
            requires
                i == rr * (VGA_WIDTH as int) + c,
                cell_index(rr + 1, c) == (rr + 1) * (VGA_WIDTH as int) + c,
                VGA_WIDTH == 80,
        ;
    }
    assert forall|c: int| 0 <= c < VGA_WIDTH implies r.grid[#[trigger] cell_index(
        VGA_HEIGHT as int - 1,
        c,
    )] == blank_cell(s.attr) by {
        let i = cell_index(VGA_HEIGHT as int - 1, c);
        assert(VGA_CELLS - VGA_WIDTH <= i < VGA_CELLS);
    }
}

/// A cleared screen holds a blank cell under the active attribute at every
/// position, and the cursor is at the top left corner.
pub proof fn lemma_clear_screen_blank(attr: u8)
    ensures
        state_clear(attr).row == 0,
        state_clear(attr).col == 0,
        state_clear(attr).attr == attr,
        state_clear(attr).grid.len() == VGA_CELLS,
        forall|r: int, c: int|
            #![trigger cell_index(r, c)]
            0 <= r < VGA_HEIGHT && 0 <= c < VGA_WIDTH ==> state_clear(attr).grid[cell_index(r, c)]
                == blank_cell(attr),
{
    assert forall|r: int, c: int| 0 <= r < VGA_HEIGHT && 0 <= c < VGA_WIDTH implies state_clear(
        attr,
    ).grid[#[trigger] cell_index(r, c)] == blank_cell(attr) by {
        let i = cell_index(r, c);
        assert(0 <= i < VGA_CELLS) by (nonlinear_arith)
            requires
                0 <= r < VGA_HEIGHT,
                0 <= c < VGA_WIDTH,
                i == r * (VGA_WIDTH as int) + c,
                VGA_WIDTH == 80,
                VGA_HEIGHT == 25,
                VGA_CELLS == 2000,
        ;
    }
}

} // verus!
