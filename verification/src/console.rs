//! The text-mode console driver: a fixed 80x25 grid of character cells, a
//! stateful cursor, and byte-level output with line wrap, scrolling and
//! clearing. The grid is modelled exactly: every write operation's contract
//! says which cells change and where the cursor lands.

use vstd::prelude::*;
use vstd::string::StringSliceAdditionalSpecFns;

verus! {

/// Width of the text grid, in character cells per row.
pub const VGA_WIDTH: usize = 80;

/// Height of the text grid, in rows.
pub const VGA_HEIGHT: usize = 25;

/// Total number of character cells in the grid.
pub const VGA_CELLS: usize = VGA_WIDTH * VGA_HEIGHT;

/// The line-feed control byte: the one control byte the console interprets.
pub const LINE_FEED: u8 = 10;

/// The blank character used when clearing or scrolling.
pub const SPACE: u8 = 32;

/// Glyph substituted for any byte that is neither printable ASCII nor a
/// line feed, so arbitrary diagnostic text never renders undefined glyphs.
pub const REPLACEMENT_GLYPH: u8 = 0xfe;

/// The sixteen hardware text-mode colors.
#[derive(Clone, Copy, Debug)]
pub enum Color {
    Black,
    Blue,
    Green,
    Cyan,
    Red,
    Magenta,
    Brown,
    LightGray,
    DarkGray,
    LightBlue,
    LightGreen,
    LightCyan,
    LightRed,
    Pink,
    Yellow,
    White,
}

impl Color {
    /// The four-bit hardware code of this color.
    pub open spec fn spec_code(self) -> u8 {
        match self {
            Color::Black => 0,
            Color::Blue => 1,
            Color::Green => 2,
            Color::Cyan => 3,
            Color::Red => 4,
            Color::Magenta => 5,
            Color::Brown => 6,
            Color::LightGray => 7,
            Color::DarkGray => 8,
            Color::LightBlue => 9,
            Color::LightGreen => 10,
            Color::LightCyan => 11,
            Color::LightRed => 12,
            Color::Pink => 13,
            Color::Yellow => 14,
            Color::White => 15,
        }
    }

    /// The four-bit hardware code of this color.
    pub fn code(self) -> (r: u8)
        ensures
            r == self.spec_code(),
            r <= 15,
    {
        match self {
            Color::Black => 0,
            Color::Blue => 1,
            Color::Green => 2,
            Color::Cyan => 3,
            Color::Red => 4,
            Color::Magenta => 5,
            Color::Brown => 6,
            Color::LightGray => 7,
            Color::DarkGray => 8,
            Color::LightBlue => 9,
            Color::LightGreen => 10,
            Color::LightCyan => 11,
            Color::LightRed => 12,
            Color::Pink => 13,
            Color::Yellow => 14,
            Color::White => 15,
        }
    }
}

/// The packed attribute byte: foreground in the low nibble, background in
/// the high nibble. This bit layout is dictated by the display hardware.
pub open spec fn spec_pack_attr(fg: Color, bg: Color) -> u8 {
    (bg.spec_code() * 16 + fg.spec_code()) as u8
}

/// One character cell of the grid: a character byte and an attribute byte.
#[derive(Clone, Copy, Debug, PartialEq, Eq, Structural)]
pub struct Cell {
    pub ch: u8,
    pub attr: u8,
}

/// The mathematical model of a console: the grid as a row-major sequence of
/// cells, the cursor position, and the active attribute byte.
#[verifier::ext_equal]
pub struct ScreenState {
    pub grid: Seq<Cell>,
    pub row: int,
    pub col: int,
    pub attr: u8,
}

impl ScreenState {
    /// Well-formedness: full-size grid, cursor row on screen, cursor column
    /// at most one past the last column (a full row wraps before the next
    /// character is placed, never when the row fills).
    pub open spec fn wf(self) -> bool {
        &&& self.grid.len() == VGA_CELLS
        &&& 0 <= self.col <= VGA_WIDTH
        &&& 0 <= self.row < VGA_HEIGHT
    }
}

/// Row-major index of the cell at (row, column).
pub open spec fn cell_index(r: int, c: int) -> int {
    r * (VGA_WIDTH as int) + c
}

/// A blank cell: a space under the given attribute.
pub open spec fn blank_cell(attr: u8) -> Cell {
    Cell { ch: SPACE, attr }
}

/// The screen right after a clear: every cell blank, cursor at (0, 0).
pub open spec fn state_clear(attr: u8) -> ScreenState {
    ScreenState {
        grid: Seq::new(VGA_CELLS as nat, |i: int| blank_cell(attr)),
        row: 0,
        col: 0,
        attr,
    }
}

/// The grid after one scroll: each row moves up one place, the first row is
/// discarded, and the last row is blanked under the given attribute.
pub open spec fn scrolled_grid(grid: Seq<Cell>, attr: u8) -> Seq<Cell> {
    Seq::new(
        VGA_CELLS as nat,
        |i: int|
            if i < VGA_CELLS - VGA_WIDTH {
                grid[i + VGA_WIDTH]
            } else {
                blank_cell(attr)
            },
    )
}

/// Cursor to the start of the next row; from the last row this scrolls and
/// the cursor stays on the last row.
pub open spec fn state_new_line(s: ScreenState) -> ScreenState {
    if s.row + 1 >= VGA_HEIGHT {
        ScreenState {
            grid: scrolled_grid(s.grid, s.attr),
            row: VGA_HEIGHT as int - 1,
            col: 0,
            attr: s.attr,
        }
    } else {
        ScreenState { grid: s.grid, row: s.row + 1, col: 0, attr: s.attr }
    }
}

/// Wrap before write: a cursor past the last column moves to the next row
/// before a character is placed.
pub open spec fn state_wrap(s: ScreenState) -> ScreenState {
    if s.col >= VGA_WIDTH {
        state_new_line(s)
    } else {
        s
    }
}

/// Place one character byte at the (possibly wrapped) cursor and advance
/// the cursor one column.
pub open spec fn state_put(s: ScreenState, b: u8) -> ScreenState {
    let t = state_wrap(s);
    ScreenState {
        grid: t.grid.update(t.row * (VGA_WIDTH as int) + t.col, Cell { ch: b, attr: t.attr }),
        row: t.row,
        col: t.col + 1,
        attr: t.attr,
    }
}

/// Effect of writing one byte: a line feed starts a new row, any other byte
/// is placed as a character.
pub open spec fn state_write_byte(s: ScreenState, b: u8) -> ScreenState {
    if b == LINE_FEED {
        state_new_line(s)
    } else {
        state_put(s, b)
    }
}

/// Printable ASCII and the line feed pass through unchanged; every other
/// byte becomes the replacement glyph.
pub open spec fn sanitize_byte(b: u8) -> u8 {
    if b == LINE_FEED || (SPACE <= b && b <= 0x7e) {
        b
    } else {
        REPLACEMENT_GLYPH
    }
}

/// Effect of writing a whole byte sequence through the sanitizing path.
pub open spec fn state_write_bytes(s: ScreenState, bytes: Seq<u8>) -> ScreenState
    decreases bytes.len(),
{
    if bytes.len() == 0 {
        s
    } else {
        state_write_bytes(state_write_byte(s, sanitize_byte(bytes[0])), bytes.drop_first())
    }
}

/// The console driver. It owns the cell store of the device region and is
/// its only writer; reads and writes go through bounds-checked cell access.
pub struct Writer {
    pub column: usize,
    pub row: usize,
    pub color: u8,
    pub cells: Vec<Cell>,
}

impl View for Writer {
    type V = Seq<Cell>;

    open spec fn view(&self) -> Seq<Cell> {
        self.cells@
    }
}

impl Writer {
    /// Well-formedness of the driver state.
    pub open spec fn wf(self) -> bool {
        &&& self@.len() == VGA_CELLS
        &&& self.column <= VGA_WIDTH
        &&& self.row < VGA_HEIGHT
    }

    /// The abstract screen this driver currently denotes.
    pub open spec fn abs(self) -> ScreenState {
        ScreenState {
            grid: self@,
            row: self.row as int,
            col: self.column as int,
            attr: self.color,
        }
    }

    /// A fresh driver: cursor at (0, 0), attribute packed from the chosen
    /// colors, every cell of the store zeroed. No text is rendered until
    /// the caller clears or writes.
    pub fn new(fg: Color, bg: Color) -> (w: Writer)
        ensures
            w.wf(),
            w.column == 0,
            w.row == 0,
            w.color == spec_pack_attr(fg, bg),
            w.abs() == (ScreenState {
                grid: Seq::new(VGA_CELLS as nat, |i: int| Cell { ch: 0, attr: 0 }),
                row: 0,
                col: 0,
                attr: spec_pack_attr(fg, bg),
            }),
    {
        let mut cells: Vec<Cell> = Vec::new();
        let mut i: usize = 0;
        while i < VGA_CELLS
            invariant
                i <= VGA_CELLS,
                cells@.len() == i,
                forall|j: int| 0 <= j < i ==> cells@[j] == (Cell { ch: 0, attr: 0 }),
            decreases VGA_CELLS - i,
        {
            cells.push(Cell { ch: 0, attr: 0 });
            i = i + 1;
        }
        let w = Writer { column: 0, row: 0, color: bg.code() * 16 + fg.code(), cells };
        proof {
            assert(w.abs().grid =~= Seq::new(VGA_CELLS as nat, |i: int| Cell { ch: 0, attr: 0 }));
            assert(w.abs() =~= (ScreenState {
                grid: Seq::new(VGA_CELLS as nat, |i: int| Cell { ch: 0, attr: 0 }),
                row: 0,
                col: 0,
                attr: spec_pack_attr(fg, bg),
            }));
        }
        w
    }

    /// Bounds-checked read of one cell of the grid.
    pub fn cell_at(&self, r: usize, c: usize) -> (cell: Cell)
        requires
            self.wf(),
            r < VGA_HEIGHT,
            c < VGA_WIDTH,
        ensures
            cell == self.abs().grid[r as int * (VGA_WIDTH as int) + c as int],
    {
        self.cells[r * VGA_WIDTH + c]
    }

    /// Blank every cell under the active attribute and home the cursor.
    pub fn clear_screen(&mut self)
        requires
            old(self).wf(),
        ensures
            final(self).wf(),
            final(self).color == old(self).color,
            final(self).abs() == state_clear(old(self).color),
    {
        let mut i: usize = 0;
        while i < VGA_CELLS
            invariant
                i <= VGA_CELLS,
                self.cells@.len() == VGA_CELLS,
                self.color == old(self).color,
                self.row == old(self).row,
                self.row < VGA_HEIGHT,
                self.column == old(self).column,
                self.column <= VGA_WIDTH,
                forall|j: int| 0 <= j < i ==> self.cells@[j] == blank_cell(old(self).color),
            decreases VGA_CELLS - i,
        {
            self.cells[i] = Cell { ch: SPACE, attr: self.color };
            i = i + 1;
        }
        self.column = 0;
        self.row = 0;
        proof {
            assert(self.abs() =~= state_clear(old(self).color));
        }
    }

    /// Shift every row up one place, discarding the first row and blanking
    /// the last under the active attribute; the cursor does not move. Needs
    /// only a full-size cell store, so a new-line at the bottom row may
    /// scroll while its cursor row is transiently one past the screen.
    pub fn scroll(&mut self)
        requires
            old(self)@.len() == VGA_CELLS,
        ensures
            final(self)@ == scrolled_grid(old(self)@, old(self).color),
            final(self).column == old(self).column,
            final(self).row == old(self).row,
            final(self).color == old(self).color,
    {
        let mut i: usize = 0;
        while i < VGA_CELLS - VGA_WIDTH
            invariant
                i <= VGA_CELLS - VGA_WIDTH,
                self.cells@.len() == VGA_CELLS,
                self.color == old(self).color,
                self.row == old(self).row,
                self.column == old(self).column,
                forall|j: int| 0 <= j < i ==> self.cells@[j] == old(self)@[j + VGA_WIDTH],
                forall|j: int| i <= j < VGA_CELLS ==> self.cells@[j] == old(self)@[j],
            decreases VGA_CELLS - VGA_WIDTH - i,
        {
            let moved = self.cells[i + VGA_WIDTH];
            self.cells[i] = moved;
            i = i + 1;
        }
        let mut k: usize = VGA_CELLS - VGA_WIDTH;
        while k < VGA_CELLS
            invariant
                VGA_CELLS - VGA_WIDTH <= k <= VGA_CELLS,
                self.cells@.len() == VGA_CELLS,
                self.color == old(self).color,
                self.row == old(self).row,
                self.column == old(self).column,
                forall|j: int|
                    0 <= j < VGA_CELLS - VGA_WIDTH ==> self.cells@[j] == old(self)@[j + VGA_WIDTH],
                forall|j: int|
                    VGA_CELLS - VGA_WIDTH <= j < k ==> self.cells@[j] == blank_cell(
                        old(self).color,
                    ),
            decreases VGA_CELLS - k,
        {
            self.cells[k] = Cell { ch: SPACE, attr: self.color };
            k = k + 1;
        }
        proof {
            assert(self@ =~= scrolled_grid(old(self)@, old(self).color));
        }
    }

    /// Move the cursor to the start of the next row, scrolling when the
    /// cursor would leave the bottom of the screen.
    pub fn new_line(&mut self)
        requires
            old(self).wf(),
        ensures
            final(self).wf(),
            final(self).color == old(self).color,
            final(self).abs() == state_new_line(old(self).abs()),
    {
        self.row = self.row + 1;
        self.column = 0;
        if self.row >= VGA_HEIGHT {
            self.scroll();
            self.row = VGA_HEIGHT - 1;
        }
        proof {
            assert(self.abs() =~= state_new_line(old(self).abs()));
        }
    }

    /// Write one byte: a line feed starts a new row; any other byte is
    /// placed at the cursor (wrapping first if the row is full) and the
    /// cursor advances one column.
    pub fn write_byte(&mut self, byte: u8)
        requires
            old(self).wf(),
        ensures
            final(self).wf(),
            final(self).color == old(self).color,
            final(self).abs() == state_write_byte(old(self).abs(), byte),
    {
        if byte == LINE_FEED {
            self.new_line();
        } else {
            if self.column >= VGA_WIDTH {
                self.new_line();
            }
            let idx = self.row * VGA_WIDTH + self.column;
            self.cells[idx] = Cell { ch: byte, attr: self.color };
            self.column = self.column + 1;
            proof {
                assert(self.abs() =~= state_write_byte(old(self).abs(), byte));
            }
        }
    }

    /// Write a string as its byte sequence: printable ASCII and line feeds
    /// pass through, every other byte renders as the replacement glyph.
    pub fn write_string(&mut self, s: &str)
        requires
            old(self).wf(),
        ensures
            final(self).wf(),
            final(self).color == old(self).color,
            final(self).abs() == state_write_bytes(old(self).abs(), s.spec_bytes()),
    {
        let bytes: &[u8] = s.as_bytes();
        let n: usize = bytes.len();
        let mut i: usize = 0;
        while i < n
            invariant
                n == bytes@.len(),
                i <= n,
                bytes@ == s.spec_bytes(),
                self.wf(),
                self.color == old(self).color,
                self.abs() == state_write_bytes(old(self).abs(), bytes@.take(i as int)),
            decreases n - i,
        {
            let b = bytes[i];
            let rendered = if b == LINE_FEED || (SPACE <= b && b <= 0x7e) {
                b
            } else {
                REPLACEMENT_GLYPH
            };
            proof {
                assert(rendered == sanitize_byte(bytes@[i as int]));
                lemma_write_bytes_snoc(old(self).abs(), bytes@.take(i as int), bytes@[i as int]);
                assert(bytes@.take(i as int + 1) =~= bytes@.take(i as int).push(bytes@[i as int]));
            }
            self.write_byte(rendered);
            i = i + 1;
        }
        proof {
            assert(bytes@.take(n as int) =~= bytes@);
        }
    }
}

/// Appending one byte to a written sequence is one more byte written.
pub proof fn lemma_write_bytes_snoc(s: ScreenState, bytes: Seq<u8>, b: u8)
    ensures
        state_write_bytes(s, bytes.push(b)) == state_write_byte(
            state_write_bytes(s, bytes),
            sanitize_byte(b),
        ),
    decreases bytes.len(),
{
    if bytes.len() == 0 {
        assert(bytes.push(b)[0] == b);
        assert(bytes.push(b).drop_first() =~= bytes);
        assert(state_write_bytes(s, bytes) == s);
        assert(state_write_bytes(s, bytes.push(b)) == state_write_bytes(
            state_write_byte(s, sanitize_byte(b)),
            bytes,
        ));
    } else {
        assert(bytes.push(b)[0] == bytes[0]);
        assert(bytes.push(b).drop_first() =~= bytes.drop_first().push(b));
        lemma_write_bytes_snoc(state_write_byte(s, sanitize_byte(bytes[0])), bytes.drop_first(), b);
        assert(state_write_bytes(s, bytes.push(b)) == state_write_bytes(
            state_write_byte(s, sanitize_byte(bytes[0])),
            bytes.drop_first().push(b),
        ));
        assert(state_write_bytes(s, bytes) == state_write_bytes(
            state_write_byte(s, sanitize_byte(bytes[0])),
            bytes.drop_first(),
        ));
    }
}

/// Writing a concatenation is writing the two parts in turn.
pub proof fn lemma_write_bytes_concat(s: ScreenState, a: Seq<u8>, b: Seq<u8>)
    ensures
        state_write_bytes(s, a + b) == state_write_bytes(state_write_bytes(s, a), b),
    decreases a.len(),
{
    if a.len() == 0 {
        assert(a + b =~= b);
    } else {
        assert((a + b)[0] == a[0]);
        assert((a + b).drop_first() =~= a.drop_first() + b);
        lemma_write_bytes_concat(state_write_byte(s, sanitize_byte(a[0])), a.drop_first(), b);
    }
}

} // verus!
