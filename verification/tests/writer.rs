use core::fmt::Write;
use vga_buffer::buffer::{Buffer, Cells};
use vga_buffer::color::{Color, ColorCode};
use vga_buffer::screen::{ScreenChar, BUFFER_HEIGHT, BUFFER_WIDTH};
use vga_buffer::writer::Writer;
use volatile::Volatile;

const BOTTOM: usize = BUFFER_HEIGHT - 1;

fn yellow_on_black() -> ColorCode {
    ColorCode::new(Color::Yellow, Color::Black)
}

fn display_filled_with(glyph: u8, attribute: u8) -> &'static mut Cells {
    let cells: Cells =
        core::array::from_fn(|_| core::array::from_fn(|_| Volatile::new([glyph, attribute])));
    Box::leak(Box::new(cells))
}

fn fresh_writer() -> Writer {
    Writer::new(Buffer::new(display_filled_with(b'?', 0x70)), yellow_on_black())
}

fn glyph_at(writer: &Writer, row: usize, col: usize) -> u8 {
    writer.read_cell(row, col).unwrap().ascii_character
}

fn row_text(writer: &Writer, row: usize) -> String {
    (0..BUFFER_WIDTH).map(|col| glyph_at(writer, row, col) as char).collect()
}

fn shown(glyph: u8) -> ScreenChar {
    ScreenChar { ascii_character: glyph, color_code: yellow_on_black() }
}

fn untouched() -> ScreenChar {
    ScreenChar { ascii_character: b'?', color_code: ColorCode(0x70) }
}

#[test]
fn a_new_writer_is_at_column_0_and_leaves_the_display_as_it_is() {
    let writer = fresh_writer();
    assert_eq!(writer.column_position(), 0);
    assert_eq!(writer.color_code(), yellow_on_black());
    for row in 0..BUFFER_HEIGHT {
        for col in 0..BUFFER_WIDTH {
            assert_eq!(writer.read_cell(row, col), Some(untouched()));
        }
    }
}

#[test]
fn there_is_no_cell_outside_the_grid() {
    let writer = fresh_writer();
    assert_eq!(writer.read_cell(BUFFER_HEIGHT, 0), None);
    assert_eq!(writer.read_cell(0, BUFFER_WIDTH), None);
    assert_eq!(writer.read_cell(usize::MAX, usize::MAX), None);
    assert!(writer.read_cell(BOTTOM, BUFFER_WIDTH - 1).is_some());
}

#[test]
fn a_byte_goes_to_the_bottom_row_in_the_current_colours() {
    let mut writer = fresh_writer();
    writer.write_byte(b'H');
    assert_eq!(writer.read_cell(BOTTOM, 0), Some(shown(b'H')));
    assert_eq!(writer.read_cell(BOTTOM, 1), Some(untouched()));
    assert_eq!(writer.read_cell(BOTTOM - 1, 0), Some(untouched()));
    assert_eq!(writer.column_position(), 1);
}

#[test]
fn a_full_row_of_printable_bytes_stands_in_order_on_the_bottom_row() {
    let mut writer = fresh_writer();
    let bytes: Vec<u8> = (0..BUFFER_WIDTH).map(|i| 0x20 + (i as u8 % 0x5f)).collect();
    for byte in bytes.iter() {
        writer.write_byte(*byte);
    }
    for (i, byte) in bytes.iter().enumerate() {
        assert_eq!(writer.read_cell(BOTTOM, i), Some(shown(*byte)));
    }
}

#[test]
fn every_printable_byte_is_written_as_itself() {
    for byte in 0x20u8..=0x7e {
        let mut writer = fresh_writer();
        writer.write_byte(byte);
        assert_eq!(writer.read_cell(BOTTOM, 0), Some(shown(byte)));
        let mut writer = fresh_writer();
        writer.write_string(core::str::from_utf8(&[byte]).unwrap());
        assert_eq!(writer.read_cell(BOTTOM, 0), Some(shown(byte)));
    }
}

#[test]
fn the_row_wraps_only_when_the_next_byte_comes() {
    let mut writer = fresh_writer();
    for _ in 0..BUFFER_WIDTH {
        writer.write_byte(b'x');
    }
    assert_eq!(writer.column_position(), BUFFER_WIDTH);
    assert_eq!(row_text(&writer, BOTTOM), "x".repeat(BUFFER_WIDTH));
    assert_eq!(writer.read_cell(BOTTOM - 1, 0), Some(untouched()));
}

#[test]
fn the_81st_byte_stands_at_the_start_of_the_bottom_row_after_one_scroll() {
    let mut writer = fresh_writer();
    for i in 0..BUFFER_WIDTH {
        writer.write_byte(b'a' + (i % 26) as u8);
    }
    writer.write_byte(b'Z');
    assert_eq!(writer.column_position(), 1);
    assert_eq!(writer.read_cell(BOTTOM, 0), Some(shown(b'Z')));
    for col in 1..BUFFER_WIDTH {
        assert_eq!(writer.read_cell(BOTTOM, col), Some(shown(b' ')));
    }
    for col in 0..BUFFER_WIDTH {
        assert_eq!(writer.read_cell(BOTTOM - 1, col), Some(shown(b'a' + (col % 26) as u8)));
    }
    for row in 0..BOTTOM - 1 {
        for col in 0..BUFFER_WIDTH {
            assert_eq!(writer.read_cell(row, col), Some(untouched()));
        }
    }
}

#[test]
fn a_line_feed_returns_to_column_0_and_scrolls_once_at_any_column() {
    for column in 0..=BUFFER_WIDTH {
        let mut writer = fresh_writer();
        for _ in 0..column {
            writer.write_byte(b'-');
        }
        assert_eq!(writer.column_position(), column);
        writer.write_byte(b'\n');
        assert_eq!(writer.column_position(), 0);
        for col in 0..BUFFER_WIDTH {
            let moved = if col < column { shown(b'-') } else { untouched() };
            assert_eq!(writer.read_cell(BOTTOM - 1, col), Some(moved));
            assert_eq!(writer.read_cell(BOTTOM, col), Some(shown(b' ')));
            assert_eq!(writer.read_cell(BOTTOM - 2, col), Some(untouched()));
        }
    }
}

#[test]
fn a_scroll_moves_every_row_up_by_one() {
    let cells = display_filled_with(0, 0);
    for row in 0..BUFFER_HEIGHT {
        for col in 0..BUFFER_WIDTH {
            cells[row][col].write([row as u8 + 0x30, col as u8]);
        }
    }
    let mut writer = Writer::new(Buffer::new(cells), yellow_on_black());
    writer.write_byte(b'\n');
    for row in 0..BOTTOM {
        for col in 0..BUFFER_WIDTH {
            assert_eq!(
                writer.read_cell(row, col),
                Some(ScreenChar {
                    ascii_character: row as u8 + 0x31,
                    color_code: ColorCode(col as u8),
                })
            );
        }
    }
    for col in 0..BUFFER_WIDTH {
        assert_eq!(writer.read_cell(BOTTOM, col), Some(shown(b' ')));
    }
}

#[test]
fn after_25_scrolls_nothing_of_the_first_line_is_left() {
    for scrolls in [25usize, 26, 40, 100] {
        let mut writer = fresh_writer();
        writer.write_string("first line");
        for _ in 0..scrolls {
            writer.write_byte(b'\n');
        }
        for row in 0..BUFFER_HEIGHT {
            for col in 0..BUFFER_WIDTH {
                assert_eq!(writer.read_cell(row, col), Some(shown(b' ')));
            }
        }
    }
}

#[test]
fn after_24_scrolls_the_first_line_is_on_the_top_row() {
    let mut writer = fresh_writer();
    writer.write_string("first line");
    for _ in 0..24 {
        writer.write_byte(b'\n');
    }
    assert!(row_text(&writer, 0).starts_with("first line"));
    writer.write_byte(b'\n');
    assert_eq!(row_text(&writer, 0), " ".repeat(BUFFER_WIDTH));
}

#[test]
fn a_short_string_stands_on_the_bottom_row_and_the_column_is_its_length() {
    let mut writer = fresh_writer();
    let text = "Hello, World!";
    writer.write_string(text);
    assert_eq!(writer.column_position(), text.len());
    for (i, byte) in text.bytes().enumerate() {
        assert_eq!(writer.read_cell(BOTTOM, i), Some(shown(byte)));
    }
    assert_eq!(writer.read_cell(BOTTOM, text.len()), Some(untouched()));
}

#[test]
fn a_string_of_79_bytes_does_not_scroll() {
    let mut writer = fresh_writer();
    let text = "y".repeat(79);
    writer.write_string(&text);
    assert_eq!(writer.column_position(), 79);
    assert!(row_text(&writer, BOTTOM).starts_with(&text));
    assert_eq!(writer.read_cell(BOTTOM - 1, 0), Some(untouched()));
}

#[test]
fn the_empty_string_changes_nothing() {
    let mut writer = fresh_writer();
    writer.write_string("ab");
    writer.write_string("");
    assert_eq!(writer.column_position(), 2);
    assert_eq!(writer.read_cell(BOTTOM, 0), Some(shown(b'a')));
    assert_eq!(writer.read_cell(BOTTOM, 1), Some(shown(b'b')));
    assert_eq!(writer.read_cell(BOTTOM, 2), Some(untouched()));
}

#[test]
fn a_control_byte_in_a_string_is_shown_as_the_placeholder() {
    let mut writer = fresh_writer();
    writer.write_string("\u{1}");
    assert_eq!(glyph_at(&writer, BOTTOM, 0), 0xfe);
    assert_ne!(glyph_at(&writer, BOTTOM, 0), 0x01);
    assert_eq!(writer.read_cell(BOTTOM, 0), Some(shown(0xfe)));
    assert_eq!(writer.column_position(), 1);
}

#[test]
fn the_bytes_next_to_the_printable_range_are_shown_as_the_placeholder() {
    let mut writer = fresh_writer();
    writer.write_string("\u{1f}\u{20}\u{7e}\u{7f}\t\r\u{0}");
    let glyphs: Vec<u8> = (0..7).map(|col| glyph_at(&writer, BOTTOM, col)).collect();
    assert_eq!(glyphs, vec![0xfe, 0x20, 0x7e, 0xfe, 0xfe, 0xfe, 0xfe]);
    assert_eq!(writer.column_position(), 7);
}

#[test]
fn each_byte_of_a_character_outside_ascii_is_shown_as_a_placeholder() {
    let mut writer = fresh_writer();
    writer.write_string("a\u{e9}b\u{20ac}c");
    let glyphs: Vec<u8> = (0..8).map(|col| glyph_at(&writer, BOTTOM, col)).collect();
    assert_eq!(glyphs, vec![b'a', 0xfe, 0xfe, b'b', 0xfe, 0xfe, 0xfe, b'c']);
    assert_eq!(writer.column_position(), 8);
}

#[test]
fn a_single_byte_is_written_unchanged_whatever_it_is() {
    let mut writer = fresh_writer();
    writer.write_byte(0x01);
    writer.write_byte(0xfe);
    writer.write_byte(0xff);
    writer.write_byte(0x00);
    let glyphs: Vec<u8> = (0..4).map(|col| glyph_at(&writer, BOTTOM, col)).collect();
    assert_eq!(glyphs, vec![0x01, 0xfe, 0xff, 0x00]);
}

#[test]
fn a_line_feed_inside_a_string_starts_a_new_line() {
    let mut writer = fresh_writer();
    writer.write_string("one\ntwo\nthree");
    assert!(row_text(&writer, BOTTOM - 2).starts_with("one?"));
    assert_eq!(row_text(&writer, BOTTOM - 1), format!("two{}", " ".repeat(BUFFER_WIDTH - 3)));
    assert_eq!(row_text(&writer, BOTTOM), format!("three{}", " ".repeat(BUFFER_WIDTH - 5)));
    assert_eq!(writer.column_position(), 5);
}

#[test]
fn a_long_string_wraps_onto_the_following_rows() {
    let mut writer = fresh_writer();
    let text: String = (0..200).map(|i| (b'a' + (i % 26) as u8) as char).collect();
    writer.write_string(&text);
    assert_eq!(writer.column_position(), 40);
    assert_eq!(row_text(&writer, BOTTOM - 2), &text[0..80]);
    assert_eq!(row_text(&writer, BOTTOM - 1), &text[80..160]);
    assert_eq!(row_text(&writer, BOTTOM), format!("{}{}", &text[160..200], " ".repeat(40)));
}

#[test]
fn two_strings_in_turn_leave_what_their_concatenation_leaves() {
    let mut in_turn = fresh_writer();
    in_turn.write_string("alpha\nbe");
    in_turn.write_string("ta \u{1} gamma");
    let mut at_once = fresh_writer();
    at_once.write_string("alpha\nbeta \u{1} gamma");
    assert_eq!(in_turn.column_position(), at_once.column_position());
    for row in 0..BUFFER_HEIGHT {
        for col in 0..BUFFER_WIDTH {
            assert_eq!(in_turn.read_cell(row, col), at_once.read_cell(row, col));
        }
    }
}

#[test]
fn a_cleared_row_is_blank_in_the_writers_colours() {
    let mut writer = Writer::new(
        Buffer::new(display_filled_with(b'?', 0x70)),
        ColorCode::new(Color::White, Color::Blue),
    );
    writer.write_byte(b'\n');
    for col in 0..BUFFER_WIDTH {
        assert_eq!(
            writer.read_cell(BOTTOM, col),
            Some(ScreenChar { ascii_character: 0x20, color_code: ColorCode(0x1f) })
        );
    }
}

#[test]
fn write_str_writes_the_string_and_succeeds() {
    let mut writer = fresh_writer();
    assert_eq!(writer.write_str("ok\u{7f}"), Ok(()));
    assert_eq!(writer.read_cell(BOTTOM, 0), Some(shown(b'o')));
    assert_eq!(writer.read_cell(BOTTOM, 1), Some(shown(b'k')));
    assert_eq!(writer.read_cell(BOTTOM, 2), Some(shown(0xfe)));
    assert_eq!(writer.column_position(), 3);
}

#[test]
fn the_initial_writer_is_at_column_0_and_writes_yellow_on_black() {
    let mut writer = Writer::initial(Buffer::new(display_filled_with(b'?', 0x70)));
    assert_eq!(writer.column_position(), 0);
    assert_eq!(writer.color_code(), ColorCode(0x0e));
    assert_eq!(writer.read_cell(BOTTOM, 0), Some(untouched()));
    writer.write_byte(b'!');
    assert_eq!(
        writer.read_cell(BOTTOM, 0),
        Some(ScreenChar { ascii_character: b'!', color_code: ColorCode(0x0e) })
    );
}

#[test]
fn a_rendered_text_is_written_and_its_outcome_handed_on() {
    let mut writer = fresh_writer();
    assert_eq!(writer.write_rendered("ok", Ok(())), Ok(()));
    assert_eq!(writer.write_rendered(" cut\u{1}", Err(core::fmt::Error)), Err(core::fmt::Error));
    let glyphs: Vec<u8> = (0..7).map(|col| glyph_at(&writer, BOTTOM, col)).collect();
    assert_eq!(glyphs, vec![b'o', b'k', b' ', b'c', b'u', b't', 0xfe]);
    assert_eq!(writer.column_position(), 7);
}
