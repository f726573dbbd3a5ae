//! The text surface: a grid of coloured character cells that scrolls upward,
//! written one byte at a time on its bottom line. What a write does to the
//! surface is defined in `surface`; the writer here does it.

use crate::surface::{blank_row, Surface};
use vstd::prelude::*;

verus! {

/// The sixteen colours of the text surface.
#[derive(Debug, Clone, Copy, PartialEq, Eq, Structural)]
pub enum Colour {
    Black,
    Blue,
    Green,
    Cyan,
    Red,
    Magenta,
    Brown,
    LightGray,
    DarkGray,
    LightBlue,
    LightGreen,
    LightCyan,
    LightRed,
    Pink,
    Yellow,
    White,
}

impl Colour {
    /// The colour's number on the hardware palette.
    pub open spec fn value(self) -> u8 {
        match self {
            Colour::Black => 0,
            Colour::Blue => 1,
            Colour::Green => 2,
            Colour::Cyan => 3,
            Colour::Red => 4,
            Colour::Magenta => 5,
            Colour::Brown => 6,
            Colour::LightGray => 7,
            Colour::DarkGray => 8,
            Colour::LightBlue => 9,
            Colour::LightGreen => 10,
            Colour::LightCyan => 11,
            Colour::LightRed => 12,
            Colour::Pink => 13,
            Colour::Yellow => 14,
            Colour::White => 15,
        }
    }

    /// The colour's number on the hardware palette.
    pub fn as_u8(self) -> (v: u8)
        ensures
            v == self.value(),
            v < 16,
    {
        match self {
            Colour::Black => 0,
            Colour::Blue => 1,
            Colour::Green => 2,
            Colour::Cyan => 3,
            Colour::Red => 4,
            Colour::Magenta => 5,
            Colour::Brown => 6,
            Colour::LightGray => 7,
            Colour::DarkGray => 8,
            Colour::LightBlue => 9,
            Colour::LightGreen => 10,
            Colour::LightCyan => 11,
            Colour::LightRed => 12,
            Colour::Pink => 13,
            Colour::Yellow => 14,
            Colour::White => 15,
        }
    }
}

/// A foreground and a background colour packed into one attribute byte:
/// background in the high four bits, foreground in the low four.
#[derive(Debug, Clone, Copy, PartialEq, Eq, Structural)]
pub struct ColourCode(pub u8);

impl ColourCode {
    /// The attribute byte for `foreground` on `background`.
    pub open spec fn of(foreground: Colour, background: Colour) -> ColourCode {
        ColourCode((16 * background.value() + foreground.value()) as u8)
    }

    /// Packs `foreground` on `background` into one attribute byte.
    pub fn new(foreground: Colour, background: Colour) -> (code: Self)
        ensures
            code == Self::of(foreground, background),
            code.0 == (background.value() << 4) | foreground.value(),
    {
        let bg: u8 = background.as_u8();
        let fg: u8 = foreground.as_u8();
        assert((bg << 4) | fg == 16 * bg + fg) by (bit_vector)
            requires
                bg < 16,
                fg < 16,
        ;
        Self((bg << 4) | fg)
    }
}

/// One cell of the surface: a glyph and the colours it is drawn in.
#[derive(Debug, Clone, Copy, PartialEq, Eq, Structural)]
pub struct ScreenChar {
    pub ascii_char: u8,
    pub colour_code: ColourCode,
}

/// Number of text lines on the surface.
pub const BUFFER_HEIGHT: usize = 25;

/// Number of cells in a line.
pub const BUFFER_WIDTH: usize = 80;

/// Glyph stored in place of a byte that has no printable form.
pub const PLACEHOLDER: u8 = 0xFE;

/// The byte that ends a line.
pub const LINE_FEED: u8 = 0x0A;

/// The glyph of an empty cell, and the first printable byte.
pub const SPACE: u8 = 0x20;

/// The last printable byte.
pub const TILDE: u8 = 0x7E;

/// `core::fmt::Error`: the error of a formatted write. Opaque here; the
/// writer never returns it.
#[verifier::external_type_specification]
#[verifier::external_body]
pub struct ExFmtError(core::fmt::Error);

struct Buffer {
    chars: [[ScreenChar; BUFFER_WIDTH]; BUFFER_HEIGHT],
}

/// Writes bytes to the bottom line of a surface it owns, scrolling as needed.
pub struct Writer {
    column_pos: usize,
    colour_code: ColourCode,
    buffer: Buffer,
}

impl View for Writer {
    type V = Surface;

    closed spec fn view(&self) -> Surface {
        Surface {
            column: self.column_pos as int,
            colour: self.colour_code,
            rows: Seq::new(BUFFER_HEIGHT as nat, |row: int| self.buffer.chars@[row]@),
        }
    }
}

impl Writer {
    #[verifier::type_invariant]
    spec fn column_on_line(self) -> bool {
        self.column_pos <= BUFFER_WIDTH
    }

    /// A writer in green on black over a cleared surface.
    pub fn new() -> (writer: Self)
        ensures
            writer@ == Surface::cleared(ColourCode::of(Colour::Green, Colour::Black)),
            writer@.wf(),
    {
        Self::new_from_colour(ColourCode::new(Colour::Green, Colour::Black))
    }

    /// A writer in the given colours over a cleared surface.
    pub fn new_from_colour(p_colour_code: ColourCode) -> (writer: Self)
        ensures
            writer@ == Surface::cleared(p_colour_code),
            writer@.wf(),
    {
        let blank = ScreenChar { ascii_char: SPACE, colour_code: p_colour_code };
        let writer = Self {
            column_pos: 0,
            colour_code: p_colour_code,
            buffer: Buffer { chars: [[blank; BUFFER_WIDTH]; BUFFER_HEIGHT] },
        };
        proof {
            broadcast use vstd::array::group_array_axioms;

            assert forall|row: int| 0 <= row < BUFFER_HEIGHT implies #[trigger] writer@.rows[row]
                == blank_row(p_colour_code) by {
                assert(writer@.rows[row] =~= blank_row(p_colour_code));
            }
            assert(writer@.rows =~= Surface::cleared(p_colour_code).rows);
        }
        writer
    }

    /// The column at which the next glyph goes on the bottom line;
    /// `BUFFER_WIDTH` when the line is full.
    pub fn column_pos(&self) -> (column: usize)
        ensures
            column == self@.column,
            column <= BUFFER_WIDTH,
    {
        proof {
            use_type_invariant(self);
        }
        self.column_pos
    }

    /// The colours in which the writer draws.
    pub fn colour_code(&self) -> (colour: ColourCode)
        ensures
            colour == self@.colour,
    {
        self.colour_code
    }

    /// The cell at line `row` and column `col`, or `None` off the surface.
    pub fn char_at(&self, row: usize, col: usize) -> (cell: Option<ScreenChar>)
        ensures
            cell == if row < BUFFER_HEIGHT && col < BUFFER_WIDTH {
                Some(self@.rows[row as int][col as int])
            } else {
                None
            },
    {
        if row < BUFFER_HEIGHT && col < BUFFER_WIDTH {
            Some(self.buffer.chars[row][col])
        } else {
            None
        }
    }

    /// Writes one byte at the column of the bottom line. A line feed starts a
    /// new line; a byte with no printable form is shown as the placeholder
    /// glyph; a full line is scrolled up before the glyph is stored.
    pub fn write_byte(&mut self, byte: u8)
        ensures
            final(self)@ == old(self)@.write_byte(byte),
            final(self)@.wf(),
    {
        if byte == LINE_FEED {
            self.new_line();
        } else if SPACE <= byte && byte <= TILDE {
            self.put(byte);
        } else {
            self.put(PLACEHOLDER);
        }
    }

    /// Stores `glyph` at the column and moves the column on by one, after a
    /// line feed if the line is full.
    fn put(&mut self, glyph: u8)
        ensures
            final(self)@ == old(self)@.put(glyph),
            final(self)@.wf(),
    {
        if self.column_pos >= BUFFER_WIDTH {
            self.new_line();
        }
        proof {
            use_type_invariant(&*self);
        }
        let ghost before = self@;
        self.buffer.chars[BUFFER_HEIGHT - 1][self.column_pos] = ScreenChar {
            ascii_char: glyph,
            colour_code: self.colour_code,
        };
        self.column_pos += 1;
        proof {
            assert(self@.rows[BUFFER_HEIGHT - 1] =~= before.bottom().update(
                before.column,
                ScreenChar { ascii_char: glyph, colour_code: before.colour },
            ));
            assert(self@.rows =~= old(self)@.put(glyph).rows);
        }
    }

    /// Writes the UTF-8 bytes of `s` one after the other.
    pub fn write_string(&mut self, s: &str)
        ensures
            final(self)@ == old(self)@.write_str(s@),
            final(self)@.wf(),
    {
        let bytes = s.as_bytes();
        proof {
            use_type_invariant(&*self);
            assert(bytes@.take(0) =~= Seq::<u8>::empty());
        }
        for i in 0..bytes.len()
            invariant
                bytes@ == vstd::utf8::encode_utf8(s@),
                self@ == old(self)@.write_bytes(bytes@.take(i as int)),
                self@.wf(),
        {
            self.write_byte(bytes[i]);
            proof {
                assert(bytes@.take(i + 1).drop_last() =~= bytes@.take(i as int));
            }
        }
        proof {
            assert(bytes@.take(bytes@.len() as int) =~= bytes@);
        }
    }

    /// Writes `s` as `write_string` does, in the shape that formatted output
    /// asks of a sink. It never fails.
    pub fn write_str(&mut self, s: &str) -> (result: Result<(), core::fmt::Error>)
        ensures
            result is Ok,
            final(self)@ == old(self)@.write_str(s@),
            final(self)@.wf(),
    {
        self.write_string(s);
        Ok(())
    }

    /// Scrolls every line up by one, blanks the bottom line and returns to
    /// column 0.
    pub fn new_line(&mut self)
        ensures
            final(self)@ == old(self)@.new_line(),
            final(self)@.wf(),
    {
        for row in 1..BUFFER_HEIGHT
            invariant
                self.column_pos == old(self).column_pos,
                self.colour_code == old(self).colour_code,
                forall|r: int|
                    0 <= r < row - 1 ==> self.buffer.chars@[r]@ == old(self).buffer.chars@[r + 1]@,
                forall|r: int|
                    row - 1 <= r < BUFFER_HEIGHT ==> self.buffer.chars@[r] == old(
                        self,
                    ).buffer.chars@[r],
        {
            for col in 0..BUFFER_WIDTH
                invariant
                    1 <= row < BUFFER_HEIGHT,
                    self.column_pos == old(self).column_pos,
                    self.colour_code == old(self).colour_code,
                    forall|r: int|
                        0 <= r < row - 1 ==> self.buffer.chars@[r]@ == old(self).buffer.chars@[r
                            + 1]@,
                    forall|r: int|
                        row <= r < BUFFER_HEIGHT ==> self.buffer.chars@[r] == old(
                            self,
                        ).buffer.chars@[r],
                    forall|c: int|
                        0 <= c < col ==> self.buffer.chars@[row - 1]@[c] == old(
                            self,
                        ).buffer.chars@[row as int]@[c],
            {
                proof {
                    use_type_invariant(&*self);
                }
                // Move the cell up one line
                let chr = self.buffer.chars[row][col];
                self.buffer.chars[row - 1][col] = chr;
            }
            proof {
                assert(self.buffer.chars@[row - 1]@ =~= old(self).buffer.chars@[row as int]@);
            }
        }
        self.clear_row(BUFFER_HEIGHT - 1);
        self.column_pos = 0;
        proof {
            assert(self@.rows =~= old(self)@.new_line().rows);
        }
    }

    /// Replaces line `row` by spaces in the writer's colours. The line must be
    /// on the surface.
    pub fn clear_row(&mut self, row: usize)
        requires
            row < BUFFER_HEIGHT,
        ensures
            final(self)@ == old(self)@.clear_row(row as int),
            final(self)@.wf(),
    {
        let blank = ScreenChar { ascii_char: SPACE, colour_code: self.colour_code };

        for col in 0..BUFFER_WIDTH
            invariant
                row < BUFFER_HEIGHT,
                blank == (ScreenChar { ascii_char: SPACE, colour_code: old(self).colour_code }),
                self.column_pos == old(self).column_pos,
                self.colour_code == old(self).colour_code,
                forall|r: int|
                    0 <= r < BUFFER_HEIGHT && r != row ==> self.buffer.chars@[r] == old(
                        self,
                    ).buffer.chars@[r],
                forall|c: int| 0 <= c < col ==> self.buffer.chars@[row as int]@[c] == blank,
        {
            proof {
                use_type_invariant(&*self);
            }
            self.buffer.chars[row][col] = blank;
        }
        proof {
            use_type_invariant(&*self);
            assert(self@.rows[row as int] =~= blank_row(old(self).colour_code));
            assert(self@.rows =~= old(self)@.clear_row(row as int).rows);
        }
    }
}

} // verus!
