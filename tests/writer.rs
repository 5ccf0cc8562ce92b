use core::fmt::Write as _;

use vga_text::writer::_print;
use vga_text::{Color, ColorCode, ScreenChar, Writer, BUFFER_HEIGHT, BUFFER_WIDTH};

const LAST: usize = BUFFER_HEIGHT - 1;

fn glyph(w: &Writer, row: usize, col: usize) -> u8 {
    w.cell(row, col).ascii_character
}

fn row_text(w: &Writer, row: usize) -> Vec<u8> {
    (0..BUFFER_WIDTH).map(|c| glyph(w, row, c)).collect()
}

fn padded(s: &[u8]) -> Vec<u8> {
    let mut v = s.to_vec();
    v.resize(BUFFER_WIDTH, b' ');
    v
}

#[test]
fn color_indices_follow_the_palette() {
    let all = [
        Color::Black,
        Color::Blue,
        Color::Green,
        Color::Cyan,
        Color::Red,
        Color::Magenta,
        Color::Brown,
        Color::LightGray,
        Color::DarkGray,
        Color::LightBlue,
        Color::LightGreen,
        Color::LightCyan,
        Color::LightRed,
        Color::Pink,
        Color::Yellow,
        Color::White,
    ];
    for (i, c) in all.iter().enumerate() {
        assert_eq!(c.index() as usize, i);
    }
}

#[test]
fn color_code_packs_background_high_and_foreground_low() {
    assert_eq!(ColorCode::new(Color::Black, Color::Yellow).byte(), 0x0e);
    assert_eq!(ColorCode::new(Color::Blue, Color::White).byte(), 0x1f);
    assert_eq!(ColorCode::new(Color::White, Color::Black).byte(), 0xf0);
    assert_eq!(ColorCode::new(Color::LightCyan, Color::Red).byte(), 0xb4);
}

#[test]
fn new_writer_is_blank_at_column_zero() {
    let w = Writer::new(Color::Black, Color::Yellow);
    let blank = ScreenChar {
        ascii_character: b' ',
        color_code: ColorCode::new(Color::Black, Color::Yellow),
    };
    assert_eq!(w.column_position(), 0);
    for r in 0..BUFFER_HEIGHT {
        for c in 0..BUFFER_WIDTH {
            assert_eq!(w.cell(r, c), blank);
        }
    }
}

#[test]
fn printable_byte_advances_one_column() {
    let mut w = Writer::new(Color::Black, Color::Yellow);
    w.write_string("ab");
    w.new_line();
    w.write_byte(b'x');
    let before: Vec<Vec<ScreenChar>> = (0..BUFFER_HEIGHT)
        .map(|r| (0..BUFFER_WIDTH).map(|c| w.cell(r, c)).collect())
        .collect();
    w.write_byte(b'Q');
    assert_eq!(w.column_position(), 2);
    assert_eq!(glyph(&w, LAST, 1), b'Q');
    for r in 0..BUFFER_HEIGHT {
        for c in 0..BUFFER_WIDTH {
            if (r, c) != (LAST, 1) {
                assert_eq!(w.cell(r, c), before[r][c]);
            }
        }
    }
}

#[test]
fn write_byte_stores_the_byte_and_the_attribute() {
    let mut w = Writer::new(Color::Blue, Color::White);
    w.write_byte(b'Z');
    assert_eq!(
        w.cell(LAST, 0),
        ScreenChar {
            ascii_character: b'Z',
            color_code: ColorCode::new(Color::Blue, Color::White),
        }
    );
}

#[test]
fn unsupported_bytes_render_as_placeholder() {
    let mut a = Writer::new(Color::Black, Color::Yellow);
    a.write_string("a\u{1}b\tc\u{7f}");
    let mut b = Writer::new(Color::Black, Color::Yellow);
    for byte in [b'a', 0xfe, b'b', 0xfe, b'c', 0xfe] {
        b.write_byte(byte);
    }
    assert_eq!(a.column_position(), b.column_position());
    for r in 0..BUFFER_HEIGHT {
        for c in 0..BUFFER_WIDTH {
            assert_eq!(a.cell(r, c), b.cell(r, c));
        }
    }
    assert_eq!(row_text(&a, LAST), padded(&[b'a', 0xfe, b'b', 0xfe, b'c', 0xfe]));
}

#[test]
fn multibyte_character_gives_one_placeholder_per_byte() {
    let mut w = Writer::new(Color::Black, Color::Yellow);
    w.write_string("\u{e9}!");
    assert_eq!(w.column_position(), 3);
    assert_eq!(row_text(&w, LAST), padded(&[0xfe, 0xfe, b'!']));
}

#[test]
fn full_row_then_one_more_byte_scrolls_once() {
    let mut w = Writer::new(Color::Black, Color::Yellow);
    w.write_string("top\nsecond\nthird");
    w.new_line();
    let before: Vec<Vec<u8>> = (0..BUFFER_HEIGHT).map(|r| row_text(&w, r)).collect();
    let line: Vec<u8> = (0..BUFFER_WIDTH).map(|i| b'A' + (i % 26) as u8).collect();
    let text = String::from_utf8(line.clone()).unwrap();
    w.write_string(&text);
    assert_eq!(w.column_position(), BUFFER_WIDTH);
    assert_eq!(row_text(&w, LAST), line);
    w.write_byte(b'#');
    assert_eq!(w.column_position(), 1);
    for r in 0..BUFFER_HEIGHT - 2 {
        assert_eq!(row_text(&w, r), before[r + 1]);
    }
    assert_eq!(row_text(&w, LAST - 1), line);
    assert_eq!(row_text(&w, LAST), padded(b"#"));
}

#[test]
fn new_line_resets_column_and_discards_top_row() {
    let mut w = Writer::new(Color::Black, Color::Yellow);
    w.write_string("first");
    w.new_line();
    assert_eq!(w.column_position(), 0);
    w.new_line();
    assert_eq!(w.column_position(), 0);
    assert_eq!(row_text(&w, LAST - 2), padded(b"first"));
    assert_eq!(row_text(&w, LAST - 1), padded(b""));
}

#[test]
fn new_line_height_times_blanks_every_row() {
    let mut w = Writer::new(Color::Black, Color::Yellow);
    for r in 0..BUFFER_HEIGHT {
        w.write_string("row");
        if r + 1 < BUFFER_HEIGHT {
            w.write_byte(b'\n');
        }
    }
    w.set_color(Color::Blue, Color::Green);
    for _ in 0..BUFFER_HEIGHT {
        w.new_line();
    }
    let blank = ScreenChar {
        ascii_character: b' ',
        color_code: ColorCode::new(Color::Blue, Color::Green),
    };
    for r in 0..BUFFER_HEIGHT {
        for c in 0..BUFFER_WIDTH {
            assert_eq!(w.cell(r, c), blank);
        }
    }
    assert_eq!(w.column_position(), 0);
}

#[test]
fn attribute_change_keeps_written_colors() {
    let mut w = Writer::new(Color::Black, Color::Yellow);
    w.write_string("old");
    w.set_color(Color::Red, Color::White);
    assert_eq!(w.color_code(), ColorCode::new(Color::Red, Color::White));
    w.write_string("new");
    let yellow = ColorCode::new(Color::Black, Color::Yellow);
    let white = ColorCode::new(Color::Red, Color::White);
    for c in 0..3 {
        assert_eq!(w.cell(LAST, c).color_code, yellow);
    }
    for c in 3..6 {
        assert_eq!(w.cell(LAST, c).color_code, white);
    }
    assert_eq!(w.cell(LAST, 6).color_code, yellow);
}

#[test]
fn hi_then_bye_on_cleared_screen() {
    let mut w = Writer::new(Color::Black, Color::Yellow);
    w.write_string("Hi\n");
    w.write_string("Bye");
    assert_eq!(row_text(&w, LAST - 1), padded(b"Hi"));
    assert_eq!(row_text(&w, LAST), padded(b"Bye"));
    assert_eq!(w.column_position(), 3);
}

#[test]
fn print_entry_writes_the_text() {
    let mut w = Writer::new(Color::Black, Color::Yellow);
    _print(&mut w, "Hello World!\n");
    assert_eq!(row_text(&w, LAST - 1), padded(b"Hello World!"));
    assert_eq!(w.column_position(), 0);
}

#[test]
fn formatting_adapter_forwards_and_succeeds() {
    let mut w = Writer::new(Color::Black, Color::Yellow);
    assert!(w.write_str("n=42").is_ok());
    assert_eq!(row_text(&w, LAST), padded(b"n=42"));
    assert_eq!(w.column_position(), 4);
    assert!(w.is_well_formed());
}
