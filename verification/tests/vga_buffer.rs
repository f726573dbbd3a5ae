use unnamed_os::vga_buffer::{
    Colour, ColourCode, ScreenChar, Writer, BUFFER_HEIGHT, BUFFER_WIDTH, LINE_FEED, PLACEHOLDER,
    SPACE, TILDE,
};

fn glyph(writer: &Writer, row: usize, col: usize) -> u8 {
    writer.char_at(row, col).unwrap().ascii_char
}

fn line(writer: &Writer, row: usize) -> String {
    let mut text = String::new();
    for col in 0..BUFFER_WIDTH {
        text.push(char::from(glyph(writer, row, col)));
    }
    text
}

fn blank_line() -> String {
    " ".repeat(BUFFER_WIDTH)
}

fn padded(text: &str) -> String {
    format!("{:<width$}", text, width = BUFFER_WIDTH)
}

#[test]
fn colour_numbers_follow_the_palette() {
    let all = [
        Colour::Black,
        Colour::Blue,
        Colour::Green,
        Colour::Cyan,
        Colour::Red,
        Colour::Magenta,
        Colour::Brown,
        Colour::LightGray,
        Colour::DarkGray,
        Colour::LightBlue,
        Colour::LightGreen,
        Colour::LightCyan,
        Colour::LightRed,
        Colour::Pink,
        Colour::Yellow,
        Colour::White,
    ];
    for (number, colour) in all.iter().enumerate() {
        assert_eq!(usize::from(colour.as_u8()), number);
    }
}

#[test]
fn colour_code_packs_background_high_foreground_low() {
    assert_eq!(ColourCode::new(Colour::Yellow, Colour::Blue), ColourCode(0x1E));
    assert_eq!(ColourCode::new(Colour::Green, Colour::Black), ColourCode(0x02));
    assert_eq!(ColourCode::new(Colour::LightGreen, Colour::Black), ColourCode(0x0A));
    assert_eq!(ColourCode::new(Colour::White, Colour::Red), ColourCode(0x4F));
    assert_eq!(ColourCode::new(Colour::Black, Colour::White), ColourCode(0xF0));
    assert_eq!(ColourCode::new(Colour::White, Colour::White), ColourCode(0xFF));
    assert_eq!(ColourCode::new(Colour::Black, Colour::Black), ColourCode(0x00));
}

#[test]
fn new_writer_is_green_on_black_over_spaces() {
    let writer = Writer::new();
    assert_eq!(writer.column_pos(), 0);
    assert_eq!(writer.colour_code(), ColourCode(0x02));
    for row in 0..BUFFER_HEIGHT {
        for col in 0..BUFFER_WIDTH {
            assert_eq!(
                writer.char_at(row, col),
                Some(ScreenChar { ascii_char: b' ', colour_code: ColourCode(0x02) })
            );
        }
    }
}

#[test]
fn new_from_colour_keeps_the_colour() {
    let code = ColourCode::new(Colour::LightGreen, Colour::Black);
    let mut writer = Writer::new_from_colour(code);
    assert_eq!(writer.colour_code(), code);
    assert_eq!(writer.char_at(3, 7), Some(ScreenChar { ascii_char: b' ', colour_code: code }));
    writer.write_byte(b'x');
    assert_eq!(
        writer.char_at(BUFFER_HEIGHT - 1, 0),
        Some(ScreenChar { ascii_char: b'x', colour_code: code })
    );
}

#[test]
fn char_at_is_none_off_the_surface() {
    let writer = Writer::new();
    assert_eq!(writer.char_at(BUFFER_HEIGHT, 0), None);
    assert_eq!(writer.char_at(0, BUFFER_WIDTH), None);
    assert_eq!(writer.char_at(usize::MAX, usize::MAX), None);
    assert!(writer.char_at(BUFFER_HEIGHT - 1, BUFFER_WIDTH - 1).is_some());
}

#[test]
fn printable_byte_is_stored_at_the_column() {
    let mut writer = Writer::new();
    writer.write_byte(b'H');
    writer.write_byte(b'i');
    assert_eq!(writer.column_pos(), 2);
    assert_eq!(line(&writer, BUFFER_HEIGHT - 1), padded("Hi"));
    for row in 0..BUFFER_HEIGHT - 1 {
        assert_eq!(line(&writer, row), blank_line());
    }
}

#[test]
fn first_and_last_printable_bytes_are_shown_as_themselves() {
    let mut writer = Writer::new();
    writer.write_byte(SPACE);
    writer.write_byte(TILDE);
    writer.write_byte(SPACE - 1);
    writer.write_byte(TILDE + 1);
    assert_eq!(glyph(&writer, BUFFER_HEIGHT - 1, 0), b' ');
    assert_eq!(glyph(&writer, BUFFER_HEIGHT - 1, 1), b'~');
    assert_eq!(glyph(&writer, BUFFER_HEIGHT - 1, 2), PLACEHOLDER);
    assert_eq!(glyph(&writer, BUFFER_HEIGHT - 1, 3), PLACEHOLDER);
    assert_eq!(writer.column_pos(), 4);
}

#[test]
fn every_unprintable_byte_shows_the_placeholder_and_advances_by_one() {
    for byte in 0..=u8::MAX {
        if byte == LINE_FEED || (SPACE..=TILDE).contains(&byte) {
            continue;
        }
        let mut writer = Writer::new();
        writer.write_byte(b'a');
        writer.write_byte(byte);
        assert_eq!(writer.column_pos(), 2);
        assert_eq!(
            writer.char_at(BUFFER_HEIGHT - 1, 1),
            Some(ScreenChar { ascii_char: 0xFE, colour_code: ColourCode(0x02) })
        );
        assert_eq!(glyph(&writer, BUFFER_HEIGHT - 1, 0), b'a');
        assert_eq!(glyph(&writer, BUFFER_HEIGHT - 1, 2), b' ');
    }
}

#[test]
fn unprintable_byte_on_a_full_line_wraps_first() {
    let mut writer = Writer::new();
    writer.write_string(&"x".repeat(BUFFER_WIDTH));
    assert_eq!(writer.column_pos(), BUFFER_WIDTH);
    writer.write_byte(0x07);
    assert_eq!(writer.column_pos(), 1);
    assert_eq!(glyph(&writer, BUFFER_HEIGHT - 1, 0), PLACEHOLDER);
    assert_eq!(line(&writer, BUFFER_HEIGHT - 2), "x".repeat(BUFFER_WIDTH));
}

#[test]
fn line_feed_scrolls_and_resets_the_column() {
    let mut writer = Writer::new();
    writer.write_string("first");
    writer.write_byte(b'\n');
    assert_eq!(writer.column_pos(), 0);
    assert_eq!(line(&writer, BUFFER_HEIGHT - 2), padded("first"));
    assert_eq!(line(&writer, BUFFER_HEIGHT - 1), blank_line());
    writer.write_string("second");
    writer.new_line();
    assert_eq!(line(&writer, BUFFER_HEIGHT - 3), padded("first"));
    assert_eq!(line(&writer, BUFFER_HEIGHT - 2), padded("second"));
    assert_eq!(line(&writer, BUFFER_HEIGHT - 1), blank_line());
    assert_eq!(writer.column_pos(), 0);
}

#[test]
fn string_that_reaches_the_right_edge_fills_the_line_without_scrolling() {
    let mut writer = Writer::new();
    writer.write_string("above\n");
    let full: String = (0..BUFFER_WIDTH).map(|i| char::from(b'a' + (i % 26) as u8)).collect();
    writer.write_string(&full);
    assert_eq!(writer.column_pos(), BUFFER_WIDTH);
    assert_eq!(line(&writer, BUFFER_HEIGHT - 1), full);
    assert_eq!(line(&writer, BUFFER_HEIGHT - 2), padded("above"));
}

#[test]
fn string_longer_than_a_line_wraps_to_column_zero() {
    let mut writer = Writer::new();
    let mut text = "0123456789".repeat(8);
    text.push_str("wrap");
    writer.write_string(&text);
    assert_eq!(writer.column_pos(), 4);
    assert_eq!(line(&writer, BUFFER_HEIGHT - 2), "0123456789".repeat(8));
    assert_eq!(line(&writer, BUFFER_HEIGHT - 1), padded("wrap"));
    assert_eq!(line(&writer, BUFFER_HEIGHT - 3), blank_line());
}

#[test]
fn filling_the_surface_scrolls_the_oldest_line_off_the_top() {
    let mut writer = Writer::new();
    for number in 0..BUFFER_HEIGHT {
        writer.write_string(&format!("line {}", number));
        if number + 1 < BUFFER_HEIGHT {
            writer.write_byte(b'\n');
        }
    }
    for row in 0..BUFFER_HEIGHT {
        assert_eq!(line(&writer, row), padded(&format!("line {}", row)));
    }
    writer.write_byte(b'\n');
    assert_eq!(writer.column_pos(), 0);
    for row in 0..BUFFER_HEIGHT - 1 {
        assert_eq!(line(&writer, row), padded(&format!("line {}", row + 1)));
    }
    assert_eq!(line(&writer, BUFFER_HEIGHT - 1), blank_line());
}

#[test]
fn twenty_five_line_feeds_blank_the_surface() {
    let mut writer = Writer::new();
    writer.write_string("one\ntwo\nthree");
    writer.write_string(&"\n".repeat(BUFFER_HEIGHT));
    assert_eq!(writer.column_pos(), 0);
    for row in 0..BUFFER_HEIGHT {
        assert_eq!(line(&writer, row), blank_line());
    }
}

#[test]
fn three_line_feeds_move_content_up_by_three() {
    let mut writer = Writer::new();
    writer.write_string("one\ntwo");
    writer.write_string("\n\n\n");
    assert_eq!(line(&writer, BUFFER_HEIGHT - 5), padded("one"));
    assert_eq!(line(&writer, BUFFER_HEIGHT - 4), padded("two"));
    assert_eq!(line(&writer, BUFFER_HEIGHT - 3), blank_line());
    assert_eq!(line(&writer, BUFFER_HEIGHT - 2), blank_line());
    assert_eq!(line(&writer, BUFFER_HEIGHT - 1), blank_line());
}

#[test]
fn clear_row_blanks_one_line_only() {
    let mut writer = Writer::new();
    writer.write_string("one\ntwo\nthree");
    let column = writer.column_pos();
    writer.clear_row(BUFFER_HEIGHT - 2);
    assert_eq!(line(&writer, BUFFER_HEIGHT - 3), padded("one"));
    assert_eq!(line(&writer, BUFFER_HEIGHT - 2), blank_line());
    assert_eq!(line(&writer, BUFFER_HEIGHT - 1), padded("three"));
    assert_eq!(writer.column_pos(), column);
}

#[test]
fn cleared_cells_take_the_writer_colour() {
    let code = ColourCode::new(Colour::White, Colour::Red);
    let mut writer = Writer::new_from_colour(code);
    writer.write_string("x\n");
    for col in 0..BUFFER_WIDTH {
        assert_eq!(
            writer.char_at(BUFFER_HEIGHT - 1, col),
            Some(ScreenChar { ascii_char: b' ', colour_code: ColourCode(0x4F) })
        );
    }
}

#[test]
fn text_outside_ascii_is_shown_byte_by_byte_as_placeholders() {
    let mut writer = Writer::new();
    writer.write_string("a\u{e9}\u{20ac}b");
    assert_eq!(writer.column_pos(), 7);
    let shown: Vec<u8> = (0..7).map(|col| glyph(&writer, BUFFER_HEIGHT - 1, col)).collect();
    assert_eq!(shown, vec![b'a', 0xFE, 0xFE, 0xFE, 0xFE, 0xFE, b'b']);
}

#[test]
fn writing_in_two_parts_equals_writing_the_whole() {
    let mut whole = Writer::new();
    whole.write_string("Hello\nWor\u{f6}ld, this is a longer line of text that will wrap around the right edge.");
    let mut parts = Writer::new();
    parts.write_string("Hello\nWor\u{f6}ld, this is a longer ");
    parts.write_string("line of text that will wrap around the right edge.");
    assert_eq!(whole.column_pos(), parts.column_pos());
    for row in 0..BUFFER_HEIGHT {
        for col in 0..BUFFER_WIDTH {
            assert_eq!(whole.char_at(row, col), parts.char_at(row, col));
        }
    }
}

#[test]
fn write_str_never_fails_and_writes_the_text() {
    let mut writer = Writer::new();
    assert_eq!(writer.write_str("ok"), Ok(()));
    assert_eq!(writer.write_str(""), Ok(()));
    assert_eq!(line(&writer, BUFFER_HEIGHT - 1), padded("ok"));
    assert_eq!(writer.column_pos(), 2);
}

#[test]
fn test_println() {
    let mut writer = Writer::new();
    writer.write_string("test_println output");
    writer.write_string("\n");
    assert_eq!(line(&writer, BUFFER_HEIGHT - 2), padded("test_println output"));
    assert_eq!(writer.column_pos(), 0);
}

#[test]
fn test_println_output() {
    let s = "Some test string that fits on a single line";
    let mut writer = Writer::new_from_colour(ColourCode::new(Colour::LightGreen, Colour::Black));
    writer.write_str("\n").expect("writeln failed");
    writer.write_str(s).expect("writeln failed");
    writer.write_str("\n").expect("writeln failed");
    for (i, c) in s.chars().enumerate() {
        let screen_char = writer.char_at(BUFFER_HEIGHT - 2, i).unwrap();
        assert_eq!(char::from(screen_char.ascii_char), c);
    }
}
