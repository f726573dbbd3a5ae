//! The text surface as a mathematical value: what a line feed, a glyph, a
//! byte and a text do to it, and the laws that follow.

use crate::vga_buffer::{
    ColourCode, ScreenChar, BUFFER_HEIGHT, BUFFER_WIDTH, LINE_FEED, PLACEHOLDER, SPACE, TILDE,
};
use vstd::prelude::*;

verus! {

/// Whether `byte` is drawn as itself: the ASCII range from space to tilde.
pub open spec fn is_printable(byte: u8) -> bool {
    SPACE <= byte <= TILDE
}

/// The glyph that stands for `byte` on the surface: the byte itself where it
/// is printable, the placeholder otherwise.
pub open spec fn glyph_of(byte: u8) -> u8 {
    if is_printable(byte) {
        byte
    } else {
        PLACEHOLDER
    }
}

/// `count` line feeds in a row.
pub open spec fn line_feeds(count: nat) -> Seq<u8> {
    Seq::new(count, |i: int| LINE_FEED)
}

/// The bytes of a text whose characters are all ASCII: one byte for each
/// character, with the character's number.
pub open spec fn ascii_bytes(text: Seq<char>) -> Seq<u8> {
    Seq::new(text.len(), |i: int| text[i] as u8)
}

/// A line of spaces in the given colours.
pub open spec fn blank_row(colour: ColourCode) -> Seq<ScreenChar> {
    Seq::new(BUFFER_WIDTH as nat, |col: int| ScreenChar { ascii_char: SPACE, colour_code: colour })
}

/// The surface as a mathematical value: `rows[0]` is the top line and
/// `rows[BUFFER_HEIGHT - 1]` the line being written; `column` is where the
/// next glyph goes on that line.
pub struct Surface {
    pub column: int,
    pub colour: ColourCode,
    pub rows: Seq<Seq<ScreenChar>>,
}

impl Surface {
    /// The grid has its full size and the column lies on the line or just past
    /// its end.
    pub open spec fn wf(self) -> bool {
        &&& 0 <= self.column <= BUFFER_WIDTH
        &&& self.rows.len() == BUFFER_HEIGHT
        &&& forall|row: int|
            0 <= row < BUFFER_HEIGHT ==> (#[trigger] self.rows[row]).len() == BUFFER_WIDTH
    }

    /// A surface of spaces in the given colours, ready to write at column 0.
    pub open spec fn cleared(colour: ColourCode) -> Surface {
        Surface {
            column: 0,
            colour,
            rows: Seq::new(BUFFER_HEIGHT as nat, |row: int| blank_row(colour)),
        }
    }

    /// The bottom line, where writing happens.
    pub open spec fn bottom(self) -> Seq<ScreenChar> {
        self.rows[BUFFER_HEIGHT - 1]
    }

    /// The surface with line `row` replaced by spaces in the current colours.
    pub open spec fn clear_row(self, row: int) -> Surface {
        Surface { rows: self.rows.update(row, blank_row(self.colour)), ..self }
    }

    /// The surface after a line feed: every line moves up by one, the top line
    /// is lost, the bottom line is blank and the column is 0.
    pub open spec fn new_line(self) -> Surface {
        Surface {
            column: 0,
            colour: self.colour,
            rows: self.rows.subrange(1, BUFFER_HEIGHT as int).push(blank_row(self.colour)),
        }
    }

    /// The surface after `glyph` is stored at the column, on a fresh line if
    /// the current one is full.
    pub open spec fn put(self, glyph: u8) -> Surface {
        let at = if self.column >= BUFFER_WIDTH {
            self.new_line()
        } else {
            self
        };
        Surface {
            column: at.column + 1,
            colour: at.colour,
            rows: at.rows.update(
                BUFFER_HEIGHT - 1,
                at.bottom().update(
                    at.column,
                    ScreenChar { ascii_char: glyph, colour_code: at.colour },
                ),
            ),
        }
    }

    /// The surface after one byte is written: a line feed scrolls, a printable
    /// byte is stored as itself, any other byte as the placeholder glyph.
    pub open spec fn write_byte(self, byte: u8) -> Surface {
        if byte == LINE_FEED {
            self.new_line()
        } else {
            self.put(glyph_of(byte))
        }
    }

    /// The surface after the bytes are written in order.
    pub open spec fn write_bytes(self, bytes: Seq<u8>) -> Surface
        decreases bytes.len(),
    {
        if bytes.len() == 0 {
            self
        } else {
            self.write_bytes(bytes.drop_last()).write_byte(bytes.last())
        }
    }

    /// The surface after the text is written as its UTF-8 bytes.
    pub open spec fn write_str(self, text: Seq<char>) -> Surface {
        self.write_bytes(vstd::utf8::encode_utf8(text))
    }
}

/// The UTF-8 bytes of two texts in a row are the bytes of the first followed
/// by the bytes of the second.
pub proof fn lemma_encode_utf8_concat(first: Seq<char>, second: Seq<char>)
    ensures
        vstd::utf8::encode_utf8(first + second) == vstd::utf8::encode_utf8(first)
            + vstd::utf8::encode_utf8(second),
    decreases first.len(),
{
    if first.len() == 0 {
        assert(first + second =~= second);
        assert(vstd::utf8::encode_utf8(first) =~= Seq::<u8>::empty());
        assert(Seq::<u8>::empty() + vstd::utf8::encode_utf8(second) =~= vstd::utf8::encode_utf8(
            second,
        ));
    } else {
        lemma_encode_utf8_concat(first.drop_first(), second);
        assert((first + second).drop_first() =~= first.drop_first() + second);
        assert((first + second)[0] == first[0]);
        assert(vstd::utf8::encode_utf8(first + second) =~= vstd::utf8::encode_utf8(first)
            + vstd::utf8::encode_utf8(second));
    }
}

impl Surface {
    /// The column at which the next glyph is stored: the current column, or
    /// 0 where the line is full and a fresh one is started first.
    pub open spec fn landing_column(self) -> int {
        if self.column >= BUFFER_WIDTH {
            0
        } else {
            self.column
        }
    }

    /// Every cell shows a printable byte or the placeholder.
    pub open spec fn shows_only_glyphs(self) -> bool {
        forall|row: int, col: int|
            0 <= row < BUFFER_HEIGHT && 0 <= col < BUFFER_WIDTH ==> {
                let glyph = (#[trigger] self.rows[row][col]).ascii_char;
                is_printable(glyph) || glyph == PLACEHOLDER
            }
    }

    /// A byte with no printable form, other than the line feed, is shown as
    /// the placeholder glyph in the writer's colours, and the column ends
    /// exactly one past the cell that took the glyph.
    pub proof fn lemma_unprintable_byte_shows_placeholder(self, byte: u8)
        requires
            self.wf(),
            !is_printable(byte),
            byte != LINE_FEED,
        ensures
            self.write_byte(byte).column == self.landing_column() + 1,
            self.write_byte(byte).bottom()[self.landing_column()] == (ScreenChar {
                ascii_char: PLACEHOLDER,
                colour_code: self.colour,
            }),
    {
    }

    /// Whatever is written, no cell ever shows a byte other than a printable
    /// one or the placeholder.
    pub proof fn lemma_write_byte_shows_only_glyphs(self, byte: u8)
        requires
            self.wf(),
            self.shows_only_glyphs(),
        ensures
            self.write_byte(byte).shows_only_glyphs(),
    {
        let after = self.write_byte(byte);
        assert forall|row: int, col: int|
            0 <= row < BUFFER_HEIGHT && 0 <= col < BUFFER_WIDTH implies {
            let glyph = (#[trigger] after.rows[row][col]).ascii_char;
            is_printable(glyph) || glyph == PLACEHOLDER
        } by {
            if row + 1 < BUFFER_HEIGHT {
                assert(self.rows[row + 1][col] == self.rows[row + 1][col]);
            }
            assert(self.rows[row][col] == self.rows[row][col]);
        }
    }

    /// The placeholder stands for itself, so showing it needs no second
    /// substitution: a glyph is never substituted again.
    pub proof fn lemma_placeholder_shows_itself(self, byte: u8)
        ensures
            glyph_of(glyph_of(byte)) == glyph_of(byte),
            glyph_of(byte) != LINE_FEED,
            self.write_byte(PLACEHOLDER) == self.put(PLACEHOLDER),
    {
    }

    /// A cleared surface shows only spaces.
    pub proof fn lemma_cleared_shows_only_glyphs(colour: ColourCode)
        ensures
            Surface::cleared(colour).wf(),
            Surface::cleared(colour).shows_only_glyphs(),
    {
    }

    /// A line feed moves every line up by one: the top line is lost, the
    /// others keep their content one line higher, the bottom line is blank
    /// and the column is back at 0.
    pub proof fn lemma_new_line_scrolls(self)
        requires
            self.wf(),
        ensures
            self.new_line().wf(),
            self.new_line().column == 0,
            self.new_line().colour == self.colour,
            self.new_line().bottom() == blank_row(self.colour),
            forall|row: int|
                0 <= row < BUFFER_HEIGHT - 1 ==> #[trigger] self.new_line().rows[row] == self.rows[row
                    + 1],
    {
    }

    /// On a line that still has room, a byte other than the line feed
    /// changes the cell at the column and nothing else, and the column moves
    /// on by one.
    pub proof fn lemma_glyph_within_line(self, byte: u8)
        requires
            self.wf(),
            self.column < BUFFER_WIDTH,
            byte != LINE_FEED,
        ensures
            self.write_byte(byte).column == self.column + 1,
            self.write_byte(byte).bottom() == self.bottom().update(
                self.column,
                ScreenChar { ascii_char: glyph_of(byte), colour_code: self.colour },
            ),
            forall|row: int|
                0 <= row < BUFFER_HEIGHT - 1 ==> #[trigger] self.write_byte(byte).rows[row]
                    == self.rows[row],
    {
    }

    /// On a full line, a byte other than the line feed wraps: the surface
    /// scrolls by one line, the glyph goes to column 0 of the fresh bottom
    /// line, which is blank after it, and the column is 1.
    pub proof fn lemma_glyph_at_right_edge_wraps(self, byte: u8)
        requires
            self.wf(),
            self.column == BUFFER_WIDTH,
            byte != LINE_FEED,
        ensures
            self.write_byte(byte).column == 1,
            self.write_byte(byte).bottom() == blank_row(self.colour).update(
                0,
                ScreenChar { ascii_char: glyph_of(byte), colour_code: self.colour },
            ),
            forall|row: int|
                0 <= row < BUFFER_HEIGHT - 1 ==> #[trigger] self.write_byte(byte).rows[row]
                    == self.rows[row + 1],
    {
    }

    /// A run of bytes without a line feed that fits on the rest of the line
    /// is stored cell by cell from the column on; nothing scrolls, the lines
    /// above keep their content, and the column ends behind the run: at
    /// `BUFFER_WIDTH` where the run reaches the right edge.
    pub proof fn lemma_run_within_line(self, bytes: Seq<u8>)
        requires
            self.wf(),
            self.column + bytes.len() <= BUFFER_WIDTH,
            forall|i: int| 0 <= i < bytes.len() ==> bytes[i] != LINE_FEED,
        ensures
            self.write_bytes(bytes).wf(),
            self.write_bytes(bytes).colour == self.colour,
            self.write_bytes(bytes).column == self.column + bytes.len(),
            forall|row: int|
                0 <= row < BUFFER_HEIGHT - 1 ==> #[trigger] self.write_bytes(bytes).rows[row]
                    == self.rows[row],
            forall|col: int|
                0 <= col < BUFFER_WIDTH ==> #[trigger] self.write_bytes(bytes).bottom()[col] == (
                if self.column <= col < self.column + bytes.len() {
                    ScreenChar {
                        ascii_char: glyph_of(bytes[col - self.column]),
                        colour_code: self.colour,
                    }
                } else {
                    self.bottom()[col]
                }),
        decreases bytes.len(),
    {
        if bytes.len() > 0 {
            let front = bytes.drop_last();
            self.lemma_run_within_line(front);
            let before = self.write_bytes(front);
            before.lemma_glyph_within_line(bytes.last());
            let after = self.write_bytes(bytes);
            assert forall|row: int| 0 <= row < BUFFER_HEIGHT - 1 implies #[trigger] after.rows[row]
                == self.rows[row] by {
                assert(after.rows[row] == before.rows[row]);
            }
            assert forall|col: int| 0 <= col < BUFFER_WIDTH implies #[trigger] after.bottom()[col]
                == (if self.column <= col < self.column + bytes.len() {
                ScreenChar {
                    ascii_char: glyph_of(bytes[col - self.column]),
                    colour_code: self.colour,
                }
            } else {
                self.bottom()[col]
            }) by {
                if col != before.column {
                    assert(after.bottom()[col] == before.bottom()[col]);
                    if self.column <= col < self.column + front.len() {
                        assert(front[col - self.column] == bytes[col - self.column]);
                    }
                }
            }
        }
    }

    /// After `count` line feeds the surface has scrolled by `count` lines:
    /// what was on line `row + count` is on line `row`, the `count` oldest
    /// lines are gone, and the `count` lowest lines are blank.
    pub proof fn lemma_line_feeds_scroll(self, count: nat)
        requires
            self.wf(),
            count <= BUFFER_HEIGHT,
        ensures
            self.write_bytes(line_feeds(count)).wf(),
            self.write_bytes(line_feeds(count)).colour == self.colour,
            count > 0 ==> self.write_bytes(line_feeds(count)).column == 0,
            forall|row: int|
                0 <= row < BUFFER_HEIGHT - count ==> #[trigger] self.write_bytes(
                    line_feeds(count),
                ).rows[row] == self.rows[row + count],
            forall|row: int|
                BUFFER_HEIGHT - count <= row < BUFFER_HEIGHT ==> #[trigger] self.write_bytes(
                    line_feeds(count),
                ).rows[row] == blank_row(self.colour),
        decreases count,
    {
        if count > 0 {
            let fewer = (count - 1) as nat;
            assert(line_feeds(count).drop_last() =~= line_feeds(fewer));
            self.lemma_line_feeds_scroll(fewer);
            let before = self.write_bytes(line_feeds(fewer));
            before.lemma_new_line_scrolls();
            let after = self.write_bytes(line_feeds(count));
            assert(after == before.new_line());
            assert forall|row: int| 0 <= row < BUFFER_HEIGHT - count implies #[trigger] after.rows[row]
                == self.rows[row + count] by {
                assert(after.rows[row] == before.rows[row + 1]);
            }
            assert forall|row: int|
                BUFFER_HEIGHT - count <= row < BUFFER_HEIGHT implies #[trigger] after.rows[row]
                == blank_row(self.colour) by {
                if row < BUFFER_HEIGHT - 1 {
                    assert(after.rows[row] == before.rows[row + 1]);
                }
            }
        }
    }

    /// Writing keeps the surface well formed.
    pub proof fn lemma_write_byte_wf(self, byte: u8)
        requires
            self.wf(),
        ensures
            self.write_byte(byte).wf(),
    {
    }

    /// Writing keeps the surface well formed.
    pub proof fn lemma_write_bytes_wf(self, bytes: Seq<u8>)
        requires
            self.wf(),
        ensures
            self.write_bytes(bytes).wf(),
        decreases bytes.len(),
    {
        if bytes.len() > 0 {
            self.lemma_write_bytes_wf(bytes.drop_last());
            self.write_bytes(bytes.drop_last()).lemma_write_byte_wf(bytes.last());
        }
    }

    /// Writing a run of one byte is writing that byte.
    pub proof fn lemma_write_single_byte(self, byte: u8)
        ensures
            self.write_bytes(seq![byte]) == self.write_byte(byte),
    {
        assert(seq![byte].drop_last() =~= Seq::<u8>::empty());
        assert(self.write_bytes(Seq::<u8>::empty()) == self);
    }

    /// A text of ASCII characters is written one byte for each character.
    pub proof fn lemma_write_str_ascii(self, text: Seq<char>)
        requires
            vstd::utf8::is_ascii_chars(text),
        ensures
            self.write_str(text) == self.write_bytes(ascii_bytes(text)),
    {
        vstd::utf8::is_ascii_chars_encode_utf8(text);
        assert(vstd::utf8::encode_utf8(text) =~= ascii_bytes(text));
    }

    /// An ASCII character is written as the one byte with its number.
    pub proof fn lemma_write_ascii_char(self, character: char)
        requires
            character as u32 <= 0x7F,
        ensures
            self.write_str(seq![character]) == self.write_byte(character as u8),
    {
        self.lemma_write_str_ascii(seq![character]);
        assert(ascii_bytes(seq![character]) =~= seq![character as u8]);
        self.lemma_write_single_byte(character as u8);
    }

    /// The surface depends on the bytes written only through their glyphs:
    /// two runs that agree on where the line feeds are and on the glyph of
    /// every other byte leave the same surface.
    pub proof fn lemma_write_bytes_same_glyphs(self, left: Seq<u8>, right: Seq<u8>)
        requires
            left.len() == right.len(),
            forall|i: int|
                0 <= i < left.len() ==> (left[i] == LINE_FEED <==> right[i] == LINE_FEED)
                    && glyph_of(left[i]) == glyph_of(right[i]),
        ensures
            self.write_bytes(left) == self.write_bytes(right),
        decreases left.len(),
    {
        if left.len() > 0 {
            self.lemma_write_bytes_same_glyphs(left.drop_last(), right.drop_last());
        }
    }

    /// A character outside ASCII takes two to four bytes, none of them
    /// printable, and is shown as that many placeholder glyphs.
    pub proof fn lemma_char_outside_ascii_shows_placeholders(self, character: char)
        requires
            character as u32 > 0x7F,
        ensures
            2 <= vstd::utf8::encode_utf8(seq![character]).len() <= 4,
            self.write_str(seq![character]) == self.write_bytes(
                Seq::new(vstd::utf8::encode_utf8(seq![character]).len(), |i: int| PLACEHOLDER),
            ),
    {
        let scalar = character as u32;
        let bytes = vstd::utf8::encode_utf8(seq![character]);
        assert(seq![character].drop_first() =~= Seq::<char>::empty());
        assert(vstd::utf8::encode_utf8(Seq::<char>::empty()) =~= Seq::<u8>::empty());
        assert(bytes =~= vstd::utf8::encode_scalar(scalar)) by {
            reveal_with_fuel(vstd::utf8::encode_utf8, 2);
        }
        assert(0xC0u8 | ((scalar >> 6) & 0x1F) as u8 >= 0x80) by (bit_vector);
        assert(0xE0u8 | ((scalar >> 12) & 0x0F) as u8 >= 0x80) by (bit_vector);
        assert(0xF0u8 | ((scalar >> 18) & 0x7) as u8 >= 0x80) by (bit_vector);
        assert(0x80u8 | (scalar & 0x3F) as u8 >= 0x80) by (bit_vector);
        assert(0x80u8 | ((scalar >> 6) & 0x3F) as u8 >= 0x80) by (bit_vector);
        assert(0x80u8 | ((scalar >> 12) & 0x3F) as u8 >= 0x80) by (bit_vector);
        assert forall|i: int| 0 <= i < bytes.len() implies bytes[i] >= 0x80 by {}
        self.lemma_write_bytes_same_glyphs(
            bytes,
            Seq::new(bytes.len(), |i: int| PLACEHOLDER),
        );
    }

    /// Writing two runs of bytes one after the other is writing their
    /// concatenation.
    pub proof fn lemma_write_bytes_concat(self, first: Seq<u8>, second: Seq<u8>)
        ensures
            self.write_bytes(first + second) == self.write_bytes(first).write_bytes(second),
        decreases second.len(),
    {
        if second.len() == 0 {
            assert(first + second =~= first);
        } else {
            self.lemma_write_bytes_concat(first, second.drop_last());
            assert((first + second).drop_last() =~= first + second.drop_last());
            assert((first + second).last() == second.last());
        }
    }

    /// Writing two texts one after the other is writing their concatenation.
    pub proof fn lemma_write_str_concat(self, first: Seq<char>, second: Seq<char>)
        ensures
            self.write_str(first + second) == self.write_str(first).write_str(second),
    {
        lemma_encode_utf8_concat(first, second);
        self.lemma_write_bytes_concat(
            vstd::utf8::encode_utf8(first),
            vstd::utf8::encode_utf8(second),
        );
    }
}

} // verus!
