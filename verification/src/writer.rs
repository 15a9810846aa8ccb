//! The writer: bytes and strings onto the bottom row of the display, with
//! line wrapping and scrolling.

use vstd::prelude::*;
use vstd::string::StringSliceAdditionalSpecFns;
use crate::buffer::Buffer;
use crate::color::{Color, ColorCode};
use crate::screen::{
    blank_cell, blank_row, displayed, is_grid, Screen, ScreenChar, BLANK, BUFFER_HEIGHT,
    BUFFER_WIDTH, NEWLINE, PLACEHOLDER,
};

verus! {

/// Writes text to the display. It keeps the column of the next glyph and the
/// colours in use, and has the display memory to itself.
pub struct Writer {
    column_position: usize,
    color_code: ColorCode,
    buffer: Buffer,
}

impl View for Writer {
    type V = Screen;

    closed spec fn view(&self) -> Screen {
        Screen {
            rows: self.buffer@,
            column: self.column_position as int,
            color: self.color_code,
        }
    }
}

impl Writer {
    #[verifier::type_invariant]
    spec fn column_in_range(self) -> bool {
        self.column_position <= BUFFER_WIDTH
    }

    /// A writer at column 0 that writes in `color_code` to `buffer`, whose
    /// cells stay as they are.
    pub fn new(buffer: Buffer, color_code: ColorCode) -> (writer: Writer)
        ensures
            writer@ == (Screen { rows: buffer@, column: 0, color: color_code }),
            writer@.wf(),
    {
        proof {
            buffer.lemma_is_grid();
        }
        Writer { column_position: 0, color_code, buffer }
    }

    /// The writer as it is before anything is printed: at column 0, yellow
    /// on black.
    pub fn initial(buffer: Buffer) -> (writer: Writer)
        ensures
            writer@ == (Screen { rows: buffer@, column: 0, color: ColorCode(0x0e) }),
            writer@.wf(),
    {
        Writer::new(buffer, ColorCode::new(Color::Yellow, Color::Black))
    }

    /// The column at which the next glyph goes; `BUFFER_WIDTH` where the
    /// bottom row is full.
    pub fn column_position(&self) -> (column: usize)
        ensures
            column == self@.column,
            self@.wf(),
    {
        proof {
            use_type_invariant(self);
            self.buffer.lemma_is_grid();
        }
        self.column_position
    }

    /// The colours in which the writer writes.
    pub fn color_code(&self) -> (color: ColorCode)
        ensures
            color == self@.color,
    {
        self.color_code
    }

    /// The cell at `row` and `col`, where there is one.
    pub fn read_cell(&self, row: usize, col: usize) -> (cell: Option<ScreenChar>)
        ensures
            cell == if row < BUFFER_HEIGHT && col < BUFFER_WIDTH {
                Some(self@.cell(row as int, col as int))
            } else {
                None
            },
    {
        if row < BUFFER_HEIGHT && col < BUFFER_WIDTH {
            Some(self.buffer.read(row, col))
        } else {
            None
        }
    }

    /// Writes one byte. A line feed scrolls the display and returns to
    /// column 0. Any other byte goes to the bottom row at the current
    /// column, after a scroll and a return to column 0 where the row is
    /// full, and moves the column on by one. No byte is refused.
    pub fn write_byte(&mut self, byte: u8)
        ensures
            final(self)@ == old(self)@.put(byte),
            final(self)@.wf(),
    {
        proof {
            use_type_invariant(&*self);
            self.buffer.lemma_is_grid();
        }
        if byte == NEWLINE {
            self.new_line();
            self.column_position = 0;
        } else {
            if self.column_position >= BUFFER_WIDTH {
                self.new_line();
                self.column_position = 0;
            }
            let row: usize = BUFFER_HEIGHT - 1;
            let col: usize = self.column_position;
            let color_code = self.color_code;
            self.buffer.write(row, col, ScreenChar { ascii_character: byte, color_code });
            self.column_position += 1;
        }
        proof {
            self.buffer.lemma_is_grid();
        }
    }

    /// Writes the bytes of `s` in order: printable bytes and line feeds as
    /// they are, every other byte as the placeholder glyph.
    pub fn write_string(&mut self, s: &str)
        ensures
            final(self)@ == old(self)@.emit(s.spec_bytes()),
            final(self)@.wf(),
    {
        let bytes = s.as_bytes();
        let ghost shown = bytes@.map_values(|byte: u8| displayed(byte));
        proof {
            use_type_invariant(&*self);
            self.buffer.lemma_is_grid();
            assert(shown.take(0) =~= Seq::<u8>::empty());
        }
        let mut i: usize = 0;
        while i < bytes.len()
            invariant
                i <= bytes.len(),
                shown == bytes@.map_values(|byte: u8| displayed(byte)),
                self@ == old(self)@.put_all(shown.take(i as int)),
                self@.wf(),
            decreases bytes.len() - i,
        {
            let byte: u8 = bytes[i];
            proof {
                assert(shown.take(i + 1).drop_last() =~= shown.take(i as int));
                assert(shown.take(i + 1).last() == displayed(byte));
            }
            if (0x20 <= byte && byte <= 0x7e) || byte == NEWLINE {
                self.write_byte(byte);
            } else {
                self.write_byte(PLACEHOLDER);
            }
            i += 1;
        }
        proof {
            assert(shown.take(i as int) =~= shown);
        }
    }

    /// Moves every row up by one, top row first, and clears the bottom row.
    /// The column stays where it is.
    fn new_line(&mut self)
        ensures
            final(self)@ == old(self)@.scroll(),
    {
        let ghost before = self@;
        proof {
            use_type_invariant(&*self);
            self.buffer.lemma_is_grid();
        }
        let mut row: usize = 1;
        while row < BUFFER_HEIGHT
            invariant
                1 <= row <= BUFFER_HEIGHT,
                self.column_position == old(self).column_position,
                self.column_position <= BUFFER_WIDTH,
                self.color_code == old(self).color_code,
                before == old(self)@,
                is_grid(before.rows),
                is_grid(self.buffer@),
                forall|r: int| 0 <= r < row - 1 ==> self.buffer@[r] == before.rows[r + 1],
                forall|r: int| row - 1 <= r < BUFFER_HEIGHT ==> self.buffer@[r] == before.rows[r],
            decreases BUFFER_HEIGHT - row,
        {
            let ghost above: int = row - 1;
            let mut col: usize = 0;
            while col < BUFFER_WIDTH
                invariant
                    1 <= row < BUFFER_HEIGHT,
                    above == row - 1,
                    col <= BUFFER_WIDTH,
                    self.column_position == old(self).column_position,
                    self.column_position <= BUFFER_WIDTH,
                self.column_position <= BUFFER_WIDTH,
                    self.color_code == old(self).color_code,
                    before == old(self)@,
                    is_grid(before.rows),
                    is_grid(self.buffer@),
                    forall|r: int| 0 <= r < above ==> self.buffer@[r] == before.rows[r + 1],
                    forall|r: int| row <= r < BUFFER_HEIGHT ==> self.buffer@[r] == before.rows[r],
                    forall|c: int|
                        0 <= c < col ==> self.buffer@[above][c] == before.rows[row as int][c],
                    forall|c: int|
                        col <= c < BUFFER_WIDTH ==> self.buffer@[above][c] == before.rows[above][c],
                decreases BUFFER_WIDTH - col,
            {
                let character = self.buffer.read(row, col);
                self.buffer.write(row - 1, col, character);
                col += 1;
            }
            proof {
                assert(self.buffer@[above] =~= before.rows[row as int]);
            }
            row += 1;
        }
        self.clear_row(BUFFER_HEIGHT - 1);
        proof {
            assert(self@.rows =~= before.scroll().rows);
        }
    }

    /// Fills `row` with blank cells in the current colours.
    fn clear_row(&mut self, row: usize)
        requires
            row < BUFFER_HEIGHT,
        ensures
            final(self)@ == (Screen {
                rows: old(self)@.rows.update(row as int, blank_row(old(self)@.color)),
                ..old(self)@
            }),
    {
        let blank = ScreenChar { ascii_character: BLANK, color_code: self.color_code };
        proof {
            use_type_invariant(&*self);
            self.buffer.lemma_is_grid();
        }
        let mut col: usize = 0;
        while col < BUFFER_WIDTH
            invariant
                row < BUFFER_HEIGHT,
                col <= BUFFER_WIDTH,
                self.column_position == old(self).column_position,
                self.column_position <= BUFFER_WIDTH,
                self.color_code == old(self).color_code,
                blank == blank_cell(self.color_code),
                is_grid(self.buffer@),
                forall|r: int|
                    0 <= r < BUFFER_HEIGHT && r != row ==> self.buffer@[r] == old(self).buffer@[r],
                forall|c: int| 0 <= c < col ==> self.buffer@[row as int][c] == blank,
            decreases BUFFER_WIDTH - col,
        {
            self.buffer.write(row, col, blank);
            col += 1;
        }
        proof {
            old(self).buffer.lemma_is_grid();
            assert(self.buffer@[row as int] =~= blank_row(self.color_code));
            assert(self.buffer@ =~= old(self).buffer@.update(
                row as int,
                blank_row(self.color_code),
            ));
        }
    }
}

} // verus!
