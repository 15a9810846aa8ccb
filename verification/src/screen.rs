//! The mathematical model of the display: a grid of cells, a cursor column
//! and the colour of what is written next, with the transitions that the
//! writer performs on them.

use vstd::prelude::*;
use crate::color::ColorCode;

verus! {

/// Number of rows of the display.
pub const BUFFER_HEIGHT: usize = 25;

/// Number of columns of the display.
pub const BUFFER_WIDTH: usize = 80;

/// The line feed byte, which starts a new line in place of a glyph.
pub const NEWLINE: u8 = 0x0a;

/// The glyph of a cleared cell.
pub const BLANK: u8 = 0x20;

/// The glyph shown in place of a byte that the display cannot show.
pub const PLACEHOLDER: u8 = 0xfe;

/// True of the bytes that have a glyph of their own: `0x20` to `0x7e`.
pub open spec fn is_printable(byte: u8) -> bool {
    0x20 <= byte <= 0x7e
}

/// The byte that is written for `byte` in a string: the byte itself where it
/// is printable or a line feed, the placeholder otherwise.
pub open spec fn displayed(byte: u8) -> u8 {
    if is_printable(byte) || byte == NEWLINE {
        byte
    } else {
        PLACEHOLDER
    }
}

/// One cell of the display: a glyph and its colours.
#[derive(Debug, Clone, Copy, PartialEq, Eq, Structural)]
pub struct ScreenChar {
    pub ascii_character: u8,
    pub color_code: ColorCode,
}

/// A cleared cell in the given colours.
pub open spec fn blank_cell(color: ColorCode) -> ScreenChar {
    ScreenChar { ascii_character: BLANK, color_code: color }
}

/// A cleared row in the given colours.
pub open spec fn blank_row(color: ColorCode) -> Seq<ScreenChar> {
    Seq::new(BUFFER_WIDTH as nat, |col: int| blank_cell(color))
}

/// True of a grid of `BUFFER_HEIGHT` rows of `BUFFER_WIDTH` cells each.
pub open spec fn is_grid(rows: Seq<Seq<ScreenChar>>) -> bool {
    &&& rows.len() == BUFFER_HEIGHT
    &&& forall|row: int| 0 <= row < BUFFER_HEIGHT ==> (#[trigger] rows[row]).len() == BUFFER_WIDTH
}

/// The grid shifted up by one row, with a cleared bottom row.
pub open spec fn scrolled(rows: Seq<Seq<ScreenChar>>, color: ColorCode) -> Seq<Seq<ScreenChar>> {
    Seq::new(
        BUFFER_HEIGHT as nat,
        |row: int|
            if row + 1 < BUFFER_HEIGHT {
                rows[row + 1]
            } else {
                blank_row(color)
            },
    )
}

/// What a writer is, seen from outside: the cells of the display, top row
/// first, the column of the next glyph, and the colours of the next glyph.
pub struct Screen {
    pub rows: Seq<Seq<ScreenChar>>,
    pub column: int,
    pub color: ColorCode,
}

impl Screen {
    /// The grid has its fixed size and the column is between 0 and
    /// `BUFFER_WIDTH`; at `BUFFER_WIDTH` the next glyph wraps.
    pub open spec fn wf(self) -> bool {
        &&& is_grid(self.rows)
        &&& 0 <= self.column <= BUFFER_WIDTH
    }

    /// The cell at `row` and `col`.
    pub open spec fn cell(self, row: int, col: int) -> ScreenChar {
        self.rows[row][col]
    }

    /// Every row moves up by one and the bottom row is cleared in the
    /// current colours. The column stays.
    pub open spec fn scroll(self) -> Screen {
        Screen { rows: scrolled(self.rows, self.color), ..self }
    }

    /// A scroll followed by the return of the column to 0.
    pub open spec fn new_line(self) -> Screen {
        Screen { column: 0, ..self.scroll() }
    }

    /// `glyph` in the current colours at the column of the bottom row, and
    /// the column moved on by one.
    pub open spec fn place(self, glyph: u8) -> Screen {
        let last = BUFFER_HEIGHT - 1;
        let cell = ScreenChar { ascii_character: glyph, color_code: self.color };
        Screen {
            rows: self.rows.update(last, self.rows[last].update(self.column, cell)),
            column: self.column + 1,
            ..self
        }
    }

    /// One byte written: a line feed starts a new line; any other byte is
    /// placed on the bottom row, after a new line where the row is full.
    pub open spec fn put(self, byte: u8) -> Screen {
        if byte == NEWLINE {
            self.new_line()
        } else if self.column >= BUFFER_WIDTH {
            self.new_line().place(byte)
        } else {
            self.place(byte)
        }
    }

    /// The bytes written one after the other, first to last.
    pub open spec fn put_all(self, bytes: Seq<u8>) -> Screen
        decreases bytes.len(),
    {
        if bytes.len() == 0 {
            self
        } else {
            self.put_all(bytes.drop_last()).put(bytes.last())
        }
    }

    /// The bytes of a string written: each byte as `displayed` gives it.
    pub open spec fn emit(self, bytes: Seq<u8>) -> Screen {
        self.put_all(bytes.map_values(|byte: u8| displayed(byte)))
    }

    /// `count` scrolls in a row.
    pub open spec fn scroll_by(self, count: nat) -> Screen
        decreases count,
    {
        if count == 0 {
            self
        } else {
            self.scroll_by((count - 1) as nat).scroll()
        }
    }
}

} // verus!
