//! What holds of the writer's transitions, proved over the model in
//! [`crate::screen`].

use vstd::prelude::*;
use crate::screen::{
    blank_row, displayed, is_grid, is_printable, Screen, ScreenChar, BUFFER_HEIGHT, BUFFER_WIDTH,
    NEWLINE, PLACEHOLDER,
};

verus! {

/// The glyph `byte` in the colours that `screen` writes in.
pub open spec fn glyph(screen: Screen, byte: u8) -> ScreenChar {
    ScreenChar { ascii_character: byte, color_code: screen.color }
}

/// `count` line feeds.
pub open spec fn line_feeds(count: nat) -> Seq<u8> {
    Seq::new(count, |i: int| NEWLINE)
}

/// `count` scrolls of `screen`, one after the other.
pub open spec fn scroll_by(screen: Screen, count: nat) -> Screen
    decreases count,
{
    if count == 0 {
        screen
    } else {
        scroll_by(screen, (count - 1) as nat).scroll()
    }
}

/// Writing two runs of bytes one after the other is writing their
/// concatenation: nothing of the second run lands among the first.
pub proof fn law_put_all_concat(screen: Screen, first: Seq<u8>, second: Seq<u8>)
    ensures
        screen.put_all(first + second) == screen.put_all(first).put_all(second),
    decreases second.len(),
{
    if second.len() == 0 {
        assert(first + second =~= first);
    } else {
        law_put_all_concat(screen, first, second.drop_last());
        assert((first + second).drop_last() =~= first + second.drop_last());
    }
}

/// The same for the bytes of strings: two strings written in turn leave
/// what their concatenation leaves.
pub proof fn law_emit_concat(screen: Screen, first: Seq<u8>, second: Seq<u8>)
    ensures
        screen.emit(first + second) == screen.emit(first).emit(second),
{
    let shown = |byte: u8| displayed(byte);
    assert((first + second).map_values(shown) =~= first.map_values(shown) + second.map_values(
        shown,
    ));
    law_put_all_concat(screen, first.map_values(shown), second.map_values(shown));
}

/// Every byte written keeps the screen well formed and the colours in use.
pub proof fn law_put_keeps_wf(screen: Screen, byte: u8)
    requires
        screen.wf(),
    ensures
        screen.put(byte).wf(),
        screen.put(byte).color == screen.color,
{
}

/// Text only ever goes to the bottom row: a byte written leaves each row
/// above it as it was, or, where the byte scrolls, holding what stood one
/// row below.
pub proof fn law_upper_rows_only_shift(screen: Screen, byte: u8)
    requires
        screen.wf(),
    ensures
        forall|row: int|
            0 <= row < BUFFER_HEIGHT - 1 ==> #[trigger] screen.put(byte).rows[row] == if byte
                == NEWLINE || screen.column >= BUFFER_WIDTH {
                screen.rows[row + 1]
            } else {
                screen.rows[row]
            },
{
}

/// Any run of bytes written keeps the screen well formed and the colours
/// in use.
pub proof fn law_put_all_keeps_wf(screen: Screen, bytes: Seq<u8>)
    requires
        screen.wf(),
    ensures
        screen.put_all(bytes).wf(),
        screen.put_all(bytes).color == screen.color,
    decreases bytes.len(),
{
    if bytes.len() > 0 {
        law_put_all_keeps_wf(screen, bytes.drop_last());
        law_put_keeps_wf(screen.put_all(bytes.drop_last()), bytes.last());
    }
}

/// Bytes other than line feeds that fit in what is left of the bottom row
/// go there one after the other, and nothing else changes.
pub proof fn lemma_fill(screen: Screen, bytes: Seq<u8>)
    requires
        screen.wf(),
        screen.column + bytes.len() <= BUFFER_WIDTH,
        forall|i: int| 0 <= i < bytes.len() ==> bytes[i] != NEWLINE,
    ensures
        screen.put_all(bytes).wf(),
        screen.put_all(bytes).column == screen.column + bytes.len(),
        screen.put_all(bytes).color == screen.color,
        forall|row: int|
            0 <= row < BUFFER_HEIGHT - 1 ==> screen.put_all(bytes).rows[row] == screen.rows[row],
        forall|col: int|
            0 <= col < BUFFER_WIDTH ==> #[trigger] screen.put_all(bytes).cell(
                BUFFER_HEIGHT - 1,
                col,
            ) == if screen.column <= col < screen.column + bytes.len() {
                glyph(screen, bytes[col - screen.column])
            } else {
                screen.cell(BUFFER_HEIGHT - 1, col)
            },
    decreases bytes.len(),
{
    if bytes.len() > 0 {
        let head = bytes.drop_last();
        lemma_fill(screen, head);
        let mid = screen.put_all(head);
        assert(mid.put(bytes.last()) == mid.place(bytes.last()));
        assert forall|col: int| 0 <= col < BUFFER_WIDTH implies #[trigger] screen.put_all(
            bytes,
        ).cell(BUFFER_HEIGHT - 1, col) == if screen.column <= col < screen.column + bytes.len() {
            glyph(screen, bytes[col - screen.column])
        } else {
            screen.cell(BUFFER_HEIGHT - 1, col)
        } by {
            assert(mid.cell(BUFFER_HEIGHT - 1, col) == if screen.column <= col < screen.column
                + head.len() {
                glyph(screen, head[col - screen.column])
            } else {
                screen.cell(BUFFER_HEIGHT - 1, col)
            });
        }
    }
}

/// Printable bytes written from column 0, as many as a row holds or fewer:
/// the cell of the bottom row at each index holds the byte of that index in
/// the writer's colours.
pub proof fn law_row_holds_bytes(screen: Screen, bytes: Seq<u8>)
    requires
        screen.wf(),
        screen.column == 0,
        bytes.len() <= BUFFER_WIDTH,
        forall|i: int| 0 <= i < bytes.len() ==> is_printable(bytes[i]),
    ensures
        forall|i: int|
            0 <= i < bytes.len() ==> #[trigger] screen.put_all(bytes).cell(BUFFER_HEIGHT - 1, i)
                == glyph(screen, bytes[i]),
        screen.put_all(bytes).column == bytes.len(),
{
    lemma_fill(screen, bytes);
}

/// A row of printable bytes and one more, written from column 0: the last
/// byte stands at the start of the bottom row after exactly one scroll, the
/// row before it stands one row up, and the column is 1.
pub proof fn law_wraps_after_full_row(screen: Screen, bytes: Seq<u8>)
    requires
        screen.wf(),
        screen.column == 0,
        bytes.len() == BUFFER_WIDTH + 1,
        forall|i: int| 0 <= i < bytes.len() ==> is_printable(bytes[i]),
    ensures
        screen.put_all(bytes) == screen.put_all(bytes.drop_last()).new_line().place(bytes.last()),
        screen.put_all(bytes).column == 1,
        screen.put_all(bytes).cell(BUFFER_HEIGHT - 1, 0) == glyph(screen, bytes.last()),
        forall|col: int|
            1 <= col < BUFFER_WIDTH ==> #[trigger] screen.put_all(bytes).cell(
                BUFFER_HEIGHT - 1,
                col,
            ) == glyph(screen, crate::screen::BLANK),
        forall|col: int|
            0 <= col < BUFFER_WIDTH ==> #[trigger] screen.put_all(bytes).cell(
                BUFFER_HEIGHT - 2,
                col,
            ) == glyph(screen, bytes[col]),
        forall|row: int|
            0 <= row < BUFFER_HEIGHT - 2 ==> #[trigger] screen.put_all(bytes).rows[row]
                == screen.rows[row + 1],
{
    let head = bytes.drop_last();
    lemma_fill(screen, head);
    let full = screen.put_all(head);
    assert(full.column == BUFFER_WIDTH);
    let wrapped = full.new_line().place(bytes.last());
    assert(screen.put_all(bytes) == wrapped);
    assert forall|col: int| 0 <= col < BUFFER_WIDTH implies #[trigger] wrapped.cell(
        BUFFER_HEIGHT - 2,
        col,
    ) == glyph(screen, bytes[col]) by {
        assert(full.cell(BUFFER_HEIGHT - 1, col) == glyph(screen, head[col]));
    }
}

/// A line feed returns the column to 0 and scrolls exactly once, at
/// whatever column it is written.
pub proof fn law_line_feed(screen: Screen)
    ensures
        screen.put(NEWLINE).column == 0,
        screen.put(NEWLINE).rows == screen.scroll().rows,
        screen.put(NEWLINE).color == screen.color,
        screen.emit(seq![NEWLINE]) == screen.put(NEWLINE),
{
    let shown = seq![NEWLINE].map_values(|byte: u8| displayed(byte));
    assert(shown =~= seq![NEWLINE]);
    assert(seq![NEWLINE].drop_last() =~= Seq::<u8>::empty());
    assert(screen.put_all(seq![NEWLINE].drop_last()) == screen);
}

/// What `count` scrolls leave: each row holds what stood `count` rows
/// below it, and the rows that had nothing that far below are blank.
pub proof fn law_scroll_by(screen: Screen, count: nat)
    requires
        is_grid(screen.rows),
    ensures
        is_grid(scroll_by(screen, count).rows),
        scroll_by(screen, count).color == screen.color,
        scroll_by(screen, count).column == screen.column,
        forall|row: int|
            0 <= row < BUFFER_HEIGHT ==> #[trigger] scroll_by(screen, count).rows[row] == if row
                + count < BUFFER_HEIGHT {
                screen.rows[row + count]
            } else {
                blank_row(screen.color)
            },
    decreases count,
{
    if count > 0 {
        law_scroll_by(screen, (count - 1) as nat);
        let prev = scroll_by(screen, (count - 1) as nat);
        assert forall|row: int| 0 <= row < BUFFER_HEIGHT implies #[trigger] scroll_by(
            screen,
            count,
        ).rows[row] == if row + count < BUFFER_HEIGHT {
            screen.rows[row + count]
        } else {
            blank_row(screen.color)
        } by {
            if row + 1 < BUFFER_HEIGHT {
                assert(prev.rows[row + 1] == if row + 1 + (count - 1) < BUFFER_HEIGHT {
                    screen.rows[row + 1 + (count - 1)]
                } else {
                    blank_row(screen.color)
                });
            }
        }
    }
}

/// Line feeds scroll: `count` of them, one or more, leave the grid that
/// `count` scrolls leave, at column 0.
pub proof fn law_line_feeds_scroll(screen: Screen, count: nat)
    requires
        count >= 1,
    ensures
        screen.put_all(line_feeds(count)) == (Screen {
            column: 0,
            ..scroll_by(screen, count)
        }),
    decreases count,
{
    assert(line_feeds(count).drop_last() =~= line_feeds((count - 1) as nat));
    if count == 1 {
        assert(line_feeds(0) =~= Seq::<u8>::empty());
        assert(screen.put_all(line_feeds(0)) == screen);
        assert(scroll_by(screen, 0) == screen);
    } else {
        law_line_feeds_scroll(screen, (count - 1) as nat);
    }
}

/// After `BUFFER_HEIGHT` scrolls or more nothing is left of what the grid
/// held, whatever it held: every row is the blank row that a scroll wrote
/// after the first one moved the old bottom row up.
pub proof fn law_scrolled_off(screen: Screen, count: nat)
    requires
        is_grid(screen.rows),
        count >= BUFFER_HEIGHT,
    ensures
        forall|row: int|
            0 <= row < BUFFER_HEIGHT ==> #[trigger] screen.put_all(line_feeds(count)).rows[row]
                == blank_row(screen.color),
{
    law_line_feeds_scroll(screen, count);
    law_scroll_by(screen, count);
    assert forall|row: int| 0 <= row < BUFFER_HEIGHT implies #[trigger] screen.put_all(
        line_feeds(count),
    ).rows[row] == blank_row(screen.color) by {
        assert(scroll_by(screen, count).rows[row] == blank_row(screen.color));
    }
}

/// A string of fewer printable bytes than a row holds, written from column
/// 0: the column is the length of the string, and the string stands on the
/// bottom row from its start, in the writer's colours.
pub proof fn law_short_string(screen: Screen, bytes: Seq<u8>)
    requires
        screen.wf(),
        screen.column == 0,
        bytes.len() < BUFFER_WIDTH,
        forall|i: int| 0 <= i < bytes.len() ==> is_printable(bytes[i]),
    ensures
        screen.emit(bytes) == screen.put_all(bytes),
        screen.emit(bytes).column == bytes.len(),
        forall|i: int|
            0 <= i < bytes.len() ==> #[trigger] screen.emit(bytes).cell(BUFFER_HEIGHT - 1, i)
                == glyph(screen, bytes[i]),
        forall|col: int|
            bytes.len() <= col < BUFFER_WIDTH ==> #[trigger] screen.emit(bytes).cell(
                BUFFER_HEIGHT - 1,
                col,
            ) == screen.cell(BUFFER_HEIGHT - 1, col),
        forall|row: int|
            0 <= row < BUFFER_HEIGHT - 1 ==> screen.emit(bytes).rows[row] == screen.rows[row],
{
    assert(bytes.map_values(|byte: u8| displayed(byte)) =~= bytes);
    lemma_fill(screen, bytes);
}

/// A byte of a string that is neither printable nor a line feed is shown
/// as the placeholder glyph, never as itself.
pub proof fn law_placeholder(screen: Screen, byte: u8)
    requires
        screen.wf(),
        !is_printable(byte),
        byte != NEWLINE,
    ensures
        screen.emit(seq![byte]) == screen.put(PLACEHOLDER),
        screen.column < BUFFER_WIDTH ==> screen.emit(seq![byte]).cell(
            BUFFER_HEIGHT - 1,
            screen.column,
        ) == glyph(screen, PLACEHOLDER),
        screen.column == BUFFER_WIDTH ==> screen.emit(seq![byte]).cell(BUFFER_HEIGHT - 1, 0)
            == glyph(screen, PLACEHOLDER),
{
    let shown = seq![byte].map_values(|b: u8| displayed(b));
    assert(shown =~= seq![PLACEHOLDER]);
    assert(seq![PLACEHOLDER].drop_last() =~= Seq::<u8>::empty());
    assert(screen.put_all(seq![PLACEHOLDER].drop_last()) == screen);
}

} // verus!
