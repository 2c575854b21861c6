use blog_os::vga_buffer::{
    encode, Color, ColorCode, ScreenChar, Writer, BUFFER_HEIGHT, BUFFER_WIDTH, UNKNOWN_GLYPH,
};

fn green() -> ColorCode {
    ColorCode::new(Color::Green, Color::Black)
}

fn row_text(writer: &Writer, row: usize) -> String {
    let mut text = String::new();
    for col in 0..BUFFER_WIDTH {
        text.push(char::from(writer.char_at(row, col).ascii_character));
    }
    text.trim_end().to_string()
}

#[test]
fn encode_printable_ascii_only() {
    assert_eq!(encode('A'), Some(0x41));
    assert_eq!(encode(' '), Some(0x20));
    assert_eq!(encode('~'), Some(0x7e));
    assert_eq!(encode('\u{7f}'), None);
    assert_eq!(encode('\u{1f}'), None);
    assert_eq!(encode('\u{e9}'), None);
}

#[test]
fn new_writer_is_blank() {
    let writer = Writer::new(green());
    assert_eq!(writer.column_position(), 0);
    for row in 0..BUFFER_HEIGHT {
        for col in 0..BUFFER_WIDTH {
            assert_eq!(
                writer.char_at(row, col),
                ScreenChar { ascii_character: b' ', color_code: ColorCode(2) }
            );
        }
    }
}

#[test]
fn write_byte_fills_last_line() {
    let mut writer = Writer::new(green());
    writer.write_byte(b'H');
    writer.write_byte(b'i');
    assert_eq!(writer.column_position(), 2);
    assert_eq!(
        writer.char_at(BUFFER_HEIGHT - 1, 0),
        ScreenChar { ascii_character: b'H', color_code: green() }
    );
    assert_eq!(writer.char_at(BUFFER_HEIGHT - 1, 1).ascii_character, b'i');
    assert_eq!(writer.char_at(BUFFER_HEIGHT - 1, 2).ascii_character, b' ');
    assert_eq!(row_text(&writer, BUFFER_HEIGHT - 2), "");
}

#[test]
fn full_line_breaks_before_next_byte() {
    let mut writer = Writer::new(green());
    for _ in 0..BUFFER_WIDTH {
        writer.write_byte(b'x');
    }
    assert_eq!(writer.column_position(), BUFFER_WIDTH);
    assert_eq!(row_text(&writer, BUFFER_HEIGHT - 1), "x".repeat(BUFFER_WIDTH));
    writer.write_byte(b'y');
    assert_eq!(writer.column_position(), 1);
    assert_eq!(row_text(&writer, BUFFER_HEIGHT - 2), "x".repeat(BUFFER_WIDTH));
    assert_eq!(row_text(&writer, BUFFER_HEIGHT - 1), "y");
}

#[test]
fn println_output_lands_above_last_line() {
    let s = "Some test string that fits on a single line";
    let mut writer = Writer::new(green());
    writer.write_string("\n");
    writer.write_string(s);
    writer.write_string("\n");
    for (i, c) in s.chars().enumerate() {
        let screen_char = writer.char_at(BUFFER_HEIGHT - 2, i);
        assert_eq!(char::from(screen_char.ascii_character), c);
    }
    assert_eq!(writer.column_position(), 0);
    assert_eq!(row_text(&writer, BUFFER_HEIGHT - 1), "");
}

#[test]
fn lines_scroll_upwards() {
    let mut writer = Writer::new(green());
    writer.write_string("one\ntwo\nthree");
    assert_eq!(row_text(&writer, BUFFER_HEIGHT - 3), "one");
    assert_eq!(row_text(&writer, BUFFER_HEIGHT - 2), "two");
    assert_eq!(row_text(&writer, BUFFER_HEIGHT - 1), "three");
    assert_eq!(writer.column_position(), 5);
}

#[test]
fn tab_moves_to_next_stop() {
    let mut writer = Writer::new(green());
    writer.write_char('\t');
    assert_eq!(writer.column_position(), 0);
    writer.write_string("abc\t");
    assert_eq!(writer.column_position(), 8);
    writer.write_string("d\t");
    assert_eq!(writer.column_position(), 16);
    assert_eq!(row_text(&writer, BUFFER_HEIGHT - 1), "abc     d");
}

#[test]
fn unknown_character_shows_placeholder() {
    let mut writer = Writer::new(green());
    writer.write_char('\u{e9}');
    assert_eq!(writer.char_at(BUFFER_HEIGHT - 1, 0).ascii_character, UNKNOWN_GLYPH);
    assert_eq!(UNKNOWN_GLYPH, 6);
}

#[test]
fn many_lines_keep_the_last_ones() {
    let mut writer = Writer::new(green());
    for i in 0..200 {
        writer.write_string(&format!("line {}\n", i));
    }
    assert_eq!(row_text(&writer, BUFFER_HEIGHT - 1), "");
    assert_eq!(row_text(&writer, BUFFER_HEIGHT - 2), "line 199");
    assert_eq!(row_text(&writer, 0), "line 176");
}
