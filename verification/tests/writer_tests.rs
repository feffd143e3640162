use vga_buffer::color::{Color, ColorCode};
use vga_buffer::global_writer::GlobalWriter;
use vga_buffer::screen::{write_panic_indicator, Buffer, ScreenChar, PANIC_ATTRIBUTE};
use vga_buffer::writer::Writer;

const WIDTH: usize = 80;
const HEIGHT: usize = 25;

fn blank(color: ColorCode) -> ScreenChar {
    ScreenChar {
        ascii_char: b' ',
        color_code: color,
    }
}

fn default_writer() -> Writer {
    let color = ColorCode::new(Color::LightGreen, Color::Black);
    Writer::new(color, Buffer::new(blank(color)))
}

fn bottom_row_text(w: &Writer) -> String {
    let mut s = String::new();
    for col in 0..WIDTH {
        s.push(w.read_cell(HEIGHT - 1, col).ascii_char as char);
    }
    s
}

#[test]
fn color_code_packs_nibbles() {
    // LightGreen is index 10, Black is index 0: attribute 0x0a.
    assert_eq!(ColorCode::new(Color::LightGreen, Color::Black).0, 0x0a);
    // Yellow (14) on Blue (1): high nibble 1, low nibble 14.
    assert_eq!(ColorCode::new(Color::Yellow, Color::Blue).0, 0x1e);
    // White (15) on Red (4) is the emergency attribute.
    assert_eq!(ColorCode::new(Color::White, Color::Red).0, PANIC_ATTRIBUTE);
}

const ALL_COLORS: [Color; 16] = [
    Color::Black,
    Color::Blue,
    Color::Green,
    Color::Cyan,
    Color::Red,
    Color::Magenta,
    Color::Brown,
    Color::LightGray,
    Color::DarkGray,
    Color::LightBlue,
    Color::LightGreen,
    Color::LightCyan,
    Color::LightRed,
    Color::Pink,
    Color::Yellow,
    Color::White,
];

#[test]
fn cell_roundtrip_exact() {
    for &fg in &ALL_COLORS {
        for &bg in &ALL_COLORS {
            for &byte in &[0u8, b'x', b'\n', 0xfe] {
                let cell = ScreenChar {
                    ascii_char: byte,
                    color_code: ColorCode::new(fg, bg),
                };
                assert_eq!(cell.ascii_char, byte);
                assert_eq!(cell.color_code.foreground(), fg);
                assert_eq!(cell.color_code.background(), bg);
            }
        }
    }
}

#[test]
fn column_wrap_at_row_end() {
    let mut w = default_writer();
    // Leave a marker on the bottom row; after one scroll it must be on the
    // row above.
    for _ in 0..WIDTH {
        w.write_byte(b'x');
    }
    // All eighty bytes placed, no scroll yet: cursor sits at column WIDTH.
    assert_eq!(w.column_pos(), WIDTH);
    assert_eq!(w.read_cell(HEIGHT - 1, 0).ascii_char, b'x');
    assert_eq!(w.read_cell(HEIGHT - 1, WIDTH - 1).ascii_char, b'x');
    assert_eq!(w.read_cell(HEIGHT - 2, 0).ascii_char, b' ');

    // One more byte triggers exactly one scroll and lands at column 0.
    w.write_byte(b'y');
    assert_eq!(w.column_pos(), 1);
    assert_eq!(w.read_cell(HEIGHT - 1, 0).ascii_char, b'y');
    assert_eq!(w.read_cell(HEIGHT - 1, 1).ascii_char, b' ');
    // The full row of markers moved up one row.
    for col in 0..WIDTH {
        assert_eq!(w.read_cell(HEIGHT - 2, col).ascii_char, b'x');
    }
}

#[test]
fn newline_never_places_a_character() {
    let mut w = default_writer();
    w.write_byte(b'a');
    w.write_byte(b'b');
    assert_eq!(w.column_pos(), 2);

    w.write_byte(b'\n');
    // Cursor reset, content scrolled up, bottom row blank.
    assert_eq!(w.column_pos(), 0);
    assert_eq!(w.read_cell(HEIGHT - 2, 0).ascii_char, b'a');
    assert_eq!(w.read_cell(HEIGHT - 2, 1).ascii_char, b'b');
    for col in 0..WIDTH {
        assert_eq!(w.read_cell(HEIGHT - 1, col).ascii_char, b' ');
    }

    // A newline at column 0 still scrolls.
    w.write_byte(b'\n');
    assert_eq!(w.column_pos(), 0);
    assert_eq!(w.read_cell(HEIGHT - 3, 0).ascii_char, b'a');
    assert_eq!(w.read_cell(HEIGHT - 2, 0).ascii_char, b' ');
}

#[test]
fn scroll_preserves_rows_and_blanks_bottom() {
    let color = ColorCode::new(Color::LightGreen, Color::Black);
    let mut w = Writer::new(color, Buffer::new(blank(color)));
    // Give each row distinct content by writing HEIGHT numbered lines.
    for i in 0..HEIGHT {
        w.write_byte(b'0' + (i % 10) as u8);
        w.write_byte(b'\n');
    }
    // Record the grid, then scroll once.
    let mut before = Vec::new();
    for row in 0..HEIGHT {
        let mut cells = Vec::new();
        for col in 0..WIDTH {
            cells.push(w.read_cell(row, col));
        }
        before.push(cells);
    }
    w.insert_newline();
    for row in 0..HEIGHT - 1 {
        for col in 0..WIDTH {
            assert_eq!(w.read_cell(row, col), before[row + 1][col]);
        }
    }
    for col in 0..WIDTH {
        assert_eq!(w.read_cell(HEIGHT - 1, col), blank(color));
    }
}

#[test]
fn clear_screen_blanks_everything() {
    let color = ColorCode::new(Color::Yellow, Color::Blue);
    // Start from a garbage-filled buffer, as power-on memory would be.
    let garbage = ScreenChar {
        ascii_char: 0xa7,
        color_code: ColorCode(0x13),
    };
    let mut w = Writer::new(color, Buffer::new(garbage));
    w.write_str("some text");
    w.clear_screen();
    assert_eq!(w.column_pos(), 0);
    for row in 0..HEIGHT {
        for col in 0..WIDTH {
            assert_eq!(w.read_cell(row, col), blank(color));
        }
    }
    // Clearing an already-clear screen changes nothing.
    w.clear_screen();
    assert_eq!(w.column_pos(), 0);
    for row in 0..HEIGHT {
        for col in 0..WIDTH {
            assert_eq!(w.read_cell(row, col), blank(color));
        }
    }
}

#[test]
fn messages_are_contiguous_through_the_global_writer() {
    let g = GlobalWriter::new(default_writer());
    g.write_message(b"AAA");
    g.write_message(b"BBB");
    let w = g.snapshot();
    assert_eq!(w.column_pos(), 6);
    assert_eq!(&bottom_row_text(&w)[..6], "AAABBB");
}

#[test]
fn global_writer_clear_screen_blanks_everything() {
    let g = GlobalWriter::new(default_writer());
    g.write_str("about to vanish");
    g.clear_screen();
    let w = g.snapshot();
    let color = ColorCode::new(Color::LightGreen, Color::Black);
    assert_eq!(w.column_pos(), 0);
    for row in 0..HEIGHT {
        for col in 0..WIDTH {
            assert_eq!(w.read_cell(row, col), blank(color));
        }
    }
}

#[test]
fn end_to_end_welcome_message() {
    let color = ColorCode::new(Color::LightGreen, Color::Black);
    let mut w = Writer::new(color, Buffer::new(blank(color)));
    let message = "Welcome to the real world";

    w.write_str(message);
    // Before the newline's scroll: the message sits left-justified on the
    // bottom row, in LightGreen on Black, and the rest of the row is blank.
    let row = bottom_row_text(&w);
    assert_eq!(&row[..message.len()], message);
    assert_eq!(&row[message.len()..], &" ".repeat(WIDTH - message.len()));
    for col in 0..WIDTH {
        assert_eq!(w.read_cell(HEIGHT - 1, col).color_code.0, 0x0a);
    }

    // The trailing newline scrolls the message up; an empty write changes
    // nothing.
    w.write_str("\n");
    w.write_str("");
    let above = {
        let mut s = String::new();
        for col in 0..WIDTH {
            s.push(w.read_cell(HEIGHT - 2, col).ascii_char as char);
        }
        s
    };
    assert_eq!(&above[..message.len()], message);
    assert_eq!(&bottom_row_text(&w), &" ".repeat(WIDTH));
    assert_eq!(w.column_pos(), 0);
}

#[test]
fn panic_indicator_fills_the_last_cells() {
    let color = ColorCode::new(Color::LightGreen, Color::Black);
    let mut buffer = Buffer::new(blank(color));
    write_panic_indicator(&mut buffer);
    let message = b"Oh no!";
    for (k, &byte) in message.iter().enumerate() {
        let cell = buffer.read(HEIGHT - 1, WIDTH - 6 + k);
        assert_eq!(cell.ascii_char, byte);
        assert_eq!(cell.color_code.0, PANIC_ATTRIBUTE);
    }
    // Nothing else was touched.
    for row in 0..HEIGHT {
        for col in 0..WIDTH {
            if !(row == HEIGHT - 1 && col >= WIDTH - 6) {
                assert_eq!(buffer.read(row, col), blank(color));
            }
        }
    }
}

#[test]
fn write_text_matches_per_byte_writes() {
    let mut a = default_writer();
    let mut b = default_writer();
    let bytes = b"one line\nand the next";
    a.write_text(bytes);
    for &byte in bytes.iter() {
        b.write_byte(byte);
    }
    assert_eq!(a.column_pos(), b.column_pos());
    for row in 0..HEIGHT {
        for col in 0..WIDTH {
            assert_eq!(a.read_cell(row, col), b.read_cell(row, col));
        }
    }
}
