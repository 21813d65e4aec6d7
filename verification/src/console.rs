//! The character-cell console: a screen of 80 by 25 cells, each a
//! character byte and an attribute byte, with a cursor, line feeds,
//! wrapping at the right edge and scrolling at the bottom.

use vstd::prelude::*;
use vstd::string::StringSliceAdditionalSpecFns;

verus! {

/// The number of columns of the screen.
pub const BUFFER_WIDTH: usize = 80;

/// The number of rows of the screen.
pub const BUFFER_HEIGHT: usize = 25;

/// The attribute of a cleared cell.
pub const CLEAR_ATTR: u8 = 0x2f;

/// The number of cells of the screen.
pub open spec fn cell_count() -> int {
    2000
}

/// One cell of the screen.
#[derive(Clone, Copy, PartialEq, Eq, Structural, Debug)]
pub struct Cell {
    pub ch: u8,
    pub attr: u8,
}

/// A cleared cell: a space with the clear attribute.
pub open spec fn blank_cell() -> Cell {
    Cell { ch: 0x20, attr: 0x2f }
}

/// The state of the console as a value: the cells row by row, and the
/// cursor. A cursor on row 25 stands just below the screen.
pub struct Screen {
    pub cells: Seq<Cell>,
    pub row: int,
    pub col: int,
}

/// The cells after scrolling by one row: each row shows the row below it,
/// and the bottom row is cleared.
pub open spec fn scrolled_cells(cells: Seq<Cell>) -> Seq<Cell> {
    Seq::new(
        2000,
        |i: int|
            if i < 1920 {
                cells[i + 80]
            } else {
                blank_cell()
            },
    )
}

/// The row that a line feed leads to. Below the screen every row counts
/// as the one just below it.
pub open spec fn next_row(row: int) -> int {
    if row < 25 {
        row + 1
    } else {
        25
    }
}

/// The screen after one byte is printed with attribute `color`. A line
/// feed moves the cursor to the start of the next row and a carriage
/// return to the start of its row. Any other byte is written at the
/// cursor, after the screen has scrolled by a row if the cursor stood
/// below it; then the cursor moves right, and from the last column to the
/// start of the next row.
pub open spec fn screen_put(s: Screen, b: u8, color: u8) -> Screen {
    if b == 0x0A {
        Screen { cells: s.cells, row: next_row(s.row), col: 0 }
    } else if b == 0x0D {
        Screen { cells: s.cells, row: s.row, col: 0 }
    } else {
        let cells = if s.row >= 25 {
            scrolled_cells(s.cells)
        } else {
            s.cells
        };
        let row = if s.row >= 25 {
            24
        } else {
            s.row
        };
        let written = cells.update(row * 80 + s.col, Cell { ch: b, attr: color });
        if s.col + 1 >= 80 {
            Screen { cells: written, row: row + 1, col: 0 }
        } else {
            Screen { cells: written, row: row, col: s.col + 1 }
        }
    }
}

/// The screen after the first `k` bytes of `text` are printed.
pub open spec fn screen_print(s: Screen, text: Seq<u8>, k: nat, color: u8) -> Screen
    decreases k,
{
    if k == 0 {
        s
    } else {
        screen_put(screen_print(s, text, (k - 1) as nat, color), text[k - 1], color)
    }
}

/// The character for a hexadecimal digit, in upper case.
pub open spec fn hex_digit(d: int) -> u8 {
    if d < 10 {
        (0x30 + d) as u8
    } else {
        (0x41 + d - 10) as u8
    }
}

/// Sixteen to the power `i`, for the digit places of 32 bits; from the
/// eighth place on, 2^32.
pub open spec fn place_value(i: int) -> int {
    if i <= 0 {
        0x1
    } else if i == 1 {
        0x10
    } else if i == 2 {
        0x100
    } else if i == 3 {
        0x1000
    } else if i == 4 {
        0x1_0000
    } else if i == 5 {
        0x10_0000
    } else if i == 6 {
        0x100_0000
    } else if i == 7 {
        0x1000_0000
    } else {
        0x1_0000_0000
    }
}

/// The text for a 32-bit number: `0x` and eight hexadecimal digits, the
/// highest first.
pub open spec fn hex_text(num: u32) -> Seq<u8> {
    Seq::new(
        10,
        |k: int|
            if k == 0 {
                0x30u8
            } else if k == 1 {
                0x78u8
            } else {
                hex_digit((num as int / place_value(9 - k)) % 16)
            },
    )
}

/// Formats a number as `0x` and eight upper-case hexadecimal digits.
pub fn format_hex(num: u32) -> (text: [u8; 10])
    ensures
        text@ == hex_text(num),
{
    let mut text: [u8; 10] = [0x30; 10];
    text[1] = 0x78;
    let mut rest: u32 = num;
    let mut j: usize = 0;
    while j < 8
        invariant
            j <= 8,
            text@.len() == 10,
            text@[0] == 0x30,
            text@[1] == 0x78,
            rest == num as int / place_value(j as int),
            forall|k: int| 10 - j <= k < 10 ==> text@[k] == hex_text(num)[k],
        decreases 8 - j,
    {
        let d: u32 = rest % 16;
        let ch: u8 = if d < 10 {
            (0x30 + d) as u8
        } else {
            (0x41 + d - 10) as u8
        };
        text[9 - j] = ch;
        proof {
            vstd::arithmetic::div_mod::lemma_div_denominator(
                num as int,
                place_value(j as int),
                16,
            );
        }
        rest = rest / 16;
        j += 1;
    }
    assert(text@ =~= hex_text(num));
    text
}

/// The console: the cells of the screen and the cursor.
pub struct TextConsole {
    cells: Vec<Cell>,
    row: usize,
    col: usize,
}

impl View for TextConsole {
    type V = Screen;

    closed spec fn view(&self) -> Screen {
        Screen { cells: self.cells@, row: self.row as int, col: self.col as int }
    }
}

impl TextConsole {
    /// The screen has all its cells, and the cursor stands in a column of
    /// the screen, on one of its rows or just below it.
    pub open spec fn wf(&self) -> bool {
        &&& self@.cells.len() == cell_count()
        &&& 0 <= self@.row <= 25
        &&& 0 <= self@.col < 80
    }

    /// A cleared console with the cursor in the top left corner.
    pub fn new() -> (c: TextConsole)
        ensures
            c.wf(),
            c@.row == 0,
            c@.col == 0,
            forall|i: int| 0 <= i < cell_count() ==> c@.cells[i] == blank_cell(),
    {
        TextConsole {
            cells: vec![Cell { ch: 0x20, attr: CLEAR_ATTR }; BUFFER_WIDTH * BUFFER_HEIGHT],
            row: 0,
            col: 0,
        }
    }

    /// The cell at a row and column of the screen.
    pub fn cell(&self, row: usize, col: usize) -> (c: Cell)
        requires
            self.wf(),
            row < 25,
            col < 80,
        ensures
            c == self@.cells[row * 80 + col],
    {
        self.cells[row * BUFFER_WIDTH + col]
    }

    /// The row of the cursor; 25 when it stands below the screen.
    pub fn cursor_row(&self) -> (r: usize)
        ensures
            r == self@.row,
    {
        self.row
    }

    /// The column of the cursor.
    pub fn cursor_col(&self) -> (c: usize)
        ensures
            c == self@.col,
    {
        self.col
    }
}

/// Clears the screen and moves the cursor to the top left corner.
pub fn vga_clear(console: &mut TextConsole)
    requires
        old(console).wf(),
    ensures
        final(console).wf(),
        final(console)@.row == 0,
        final(console)@.col == 0,
        forall|i: int| 0 <= i < cell_count() ==> final(console)@.cells[i] == blank_cell(),
{
    let mut i: usize = 0;
    while i < BUFFER_WIDTH * BUFFER_HEIGHT
        invariant
            i <= 2000,
            console.cells@.len() == 2000,
            forall|k: int| 0 <= k < i ==> console.cells@[k] == blank_cell(),
        decreases 2000 - i,
    {
        console.cells.set(i, Cell { ch: 0x20, attr: CLEAR_ATTR });
        i += 1;
    }
    console.row = 0;
    console.col = 0;
}

/// Scrolls the screen up by one row and clears the bottom row. The cursor
/// stays where it is.
pub fn vga_scroll(console: &mut TextConsole)
    requires
        old(console).wf(),
    ensures
        final(console).wf(),
        final(console)@.cells == scrolled_cells(old(console)@.cells),
        final(console)@.row == old(console)@.row,
        final(console)@.col == old(console)@.col,
{
    let mut i: usize = 0;
    while i < BUFFER_WIDTH * (BUFFER_HEIGHT - 1)
        invariant
            i <= 1920,
            console.cells@.len() == 2000,
            console.row == old(console).row,
            console.col == old(console).col,
            forall|k: int| 0 <= k < i ==> console.cells@[k] == old(console).cells@[k + 80],
            forall|k: int| i <= k < 2000 ==> console.cells@[k] == old(console).cells@[k],
        decreases 1920 - i,
    {
        let c: Cell = console.cells[i + BUFFER_WIDTH];
        console.cells.set(i, c);
        i += 1;
    }
    while i < BUFFER_WIDTH * BUFFER_HEIGHT
        invariant
            1920 <= i <= 2000,
            console.cells@.len() == 2000,
            console.row == old(console).row,
            console.col == old(console).col,
            forall|k: int| 0 <= k < 1920 ==> console.cells@[k] == old(console).cells@[k + 80],
            forall|k: int| 1920 <= k < i ==> console.cells@[k] == blank_cell(),
        decreases 2000 - i,
    {
        console.cells.set(i, Cell { ch: 0x20, attr: CLEAR_ATTR });
        i += 1;
    }
    assert(console.cells@ =~= scrolled_cells(old(console)@.cells));
}

/// Prints bytes from the cursor on.
fn print_bytes(console: &mut TextConsole, text: &[u8], color: u8)
    requires
        old(console).wf(),
    ensures
        final(console).wf(),
        final(console)@ == screen_print(old(console)@, text@, text@.len(), color),
{
    let n: usize = text.len();
    let mut k: usize = 0;
    while k < n
        invariant
            k <= n,
            n == text@.len(),
            console.wf(),
            console@ == screen_print(old(console)@, text@, k as nat, color),
        decreases n - k,
    {
        let b: u8 = text[k];
        if b == 0x0A {
            if console.row < BUFFER_HEIGHT {
                console.row += 1;
            }
            console.col = 0;
        } else if b == 0x0D {
            console.col = 0;
        } else {
            if console.row >= BUFFER_HEIGHT {
                vga_scroll(console);
                console.row = BUFFER_HEIGHT - 1;
            }
            console.cells.set(console.row * BUFFER_WIDTH + console.col, Cell { ch: b, attr: color });
            console.col += 1;
            if console.col >= BUFFER_WIDTH {
                console.row += 1;
                console.col = 0;
            }
        }
        k += 1;
    }
}

/// Prints `s` with attribute `color`, starting with the cursor at the
/// given row and column, and leaves the cursor after the last byte. A row
/// of 25 or more stands for the row below the screen.
pub fn vga_print_at(console: &mut TextConsole, s: &str, row: usize, col: usize, color: u8)
    requires
        old(console).wf(),
        col < BUFFER_WIDTH,
    ensures
        final(console).wf(),
        final(console)@ == screen_print(
            Screen {
                cells: old(console)@.cells,
                row: if row < 25 {
                    row as int
                } else {
                    25
                },
                col: col as int,
            },
            s.spec_bytes(),
            s.spec_bytes().len(),
            color,
        ),
{
    console.row = if row < BUFFER_HEIGHT {
        row
    } else {
        BUFFER_HEIGHT
    };
    console.col = col;
    print_bytes(console, s.as_bytes(), color);
}

/// Prints `s` with attribute `color` at the cursor.
pub fn vga_print(console: &mut TextConsole, s: &str, color: u8)
    requires
        old(console).wf(),
    ensures
        final(console).wf(),
        final(console)@ == screen_print(
            old(console)@,
            s.spec_bytes(),
            s.spec_bytes().len(),
            color,
        ),
{
    print_bytes(console, s.as_bytes(), color);
}

/// Prints a number at the cursor as `0x` and eight upper-case hexadecimal
/// digits.
pub fn vga_print_hex(console: &mut TextConsole, num: u32, color: u8)
    requires
        old(console).wf(),
    ensures
        final(console).wf(),
        final(console)@ == screen_print(old(console)@, hex_text(num), 10, color),
{
    let text: [u8; 10] = format_hex(num);
    print_bytes(console, text.as_slice(), color);
}

} // verus!
