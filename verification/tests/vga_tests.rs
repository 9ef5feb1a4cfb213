use gg_os::vga_buffer::{print, Color, ColorCode, ScreenChar, Writer, BUFFER_HEIGHT, BUFFER_WIDTH};

fn writer() -> Writer {
    Writer::new(ColorCode::new(Color::Yellow, Color::Black))
}

fn cell(w: &Writer, row: usize, col: usize) -> ScreenChar {
    w.buffer[row * BUFFER_WIDTH + col]
}

#[test]
fn color_code_packs_background_high_and_foreground_low() {
    assert_eq!(ColorCode::new(Color::Yellow, Color::Black).0, 14);
    assert_eq!(ColorCode::new(Color::Black, Color::Yellow).0, 14 * 16);
    assert_eq!(ColorCode::new(Color::White, Color::Blue).0, 1 * 16 + 15);
}

#[test]
fn new_writer_is_blank_at_column_zero() {
    let w = writer();
    assert_eq!(w.column_position, 0);
    for row in 0..BUFFER_HEIGHT {
        for col in 0..BUFFER_WIDTH {
            assert_eq!(cell(&w, row, col).ascii_char, b' ');
        }
    }
}

#[test]
fn bytes_land_in_the_last_row_and_advance_the_cursor() {
    let mut w = writer();
    w.write_byte(b'X');
    w.write_byte(b'Y');
    assert_eq!(w.column_position, 2);
    assert_eq!(cell(&w, BUFFER_HEIGHT - 1, 0).ascii_char, b'X');
    assert_eq!(cell(&w, BUFFER_HEIGHT - 1, 1).ascii_char, b'Y');
    assert_eq!(cell(&w, BUFFER_HEIGHT - 1, 0).color_code, w.color_code);
}

#[test]
fn newline_scrolls_every_row_up_and_blanks_the_last() {
    let mut w = writer();
    w.write_byte(b'A');
    w.write_byte(b'\n');
    assert_eq!(w.column_position, 0);
    assert_eq!(cell(&w, BUFFER_HEIGHT - 2, 0).ascii_char, b'A');
    for col in 0..BUFFER_WIDTH {
        assert_eq!(cell(&w, BUFFER_HEIGHT - 1, col).ascii_char, b' ');
    }
}

#[test]
fn a_full_row_wraps_to_a_fresh_line() {
    let mut w = writer();
    for _ in 0..BUFFER_WIDTH {
        w.write_byte(b'x');
    }
    assert_eq!(w.column_position, BUFFER_WIDTH);
    w.write_byte(b'y');
    // the full row scrolled up; 'y' starts the new last row
    assert_eq!(w.column_position, 1);
    assert_eq!(cell(&w, BUFFER_HEIGHT - 1, 0).ascii_char, b'y');
    assert_eq!(cell(&w, BUFFER_HEIGHT - 2, 0).ascii_char, b'x');
    assert_eq!(cell(&w, BUFFER_HEIGHT - 2, BUFFER_WIDTH - 1).ascii_char, b'x');
}

#[test]
fn strings_are_written_byte_by_byte() {
    let mut w = writer();
    w.write_string(b"ok!");
    assert_eq!(w.column_position, 3);
    assert_eq!(cell(&w, BUFFER_HEIGHT - 1, 0).ascii_char, b'o');
    assert_eq!(cell(&w, BUFFER_HEIGHT - 1, 1).ascii_char, b'k');
    assert_eq!(cell(&w, BUFFER_HEIGHT - 1, 2).ascii_char, b'!');
}

#[test]
fn non_printable_bytes_become_the_placeholder_glyph() {
    let mut w = writer();
    w.write_string(&[b'a', 0x01, 0x80, b'b']);
    assert_eq!(cell(&w, BUFFER_HEIGHT - 1, 0).ascii_char, b'a');
    assert_eq!(cell(&w, BUFFER_HEIGHT - 1, 1).ascii_char, 0xfe);
    assert_eq!(cell(&w, BUFFER_HEIGHT - 1, 2).ascii_char, 0xfe);
    assert_eq!(cell(&w, BUFFER_HEIGHT - 1, 3).ascii_char, b'b');
}

#[test]
fn newline_inside_a_string_starts_a_new_line() {
    let mut w = writer();
    w.write_string(b"hi\nlo");
    assert_eq!(w.column_position, 2);
    assert_eq!(cell(&w, BUFFER_HEIGHT - 2, 0).ascii_char, b'h');
    assert_eq!(cell(&w, BUFFER_HEIGHT - 2, 1).ascii_char, b'i');
    assert_eq!(cell(&w, BUFFER_HEIGHT - 1, 0).ascii_char, b'l');
    assert_eq!(cell(&w, BUFFER_HEIGHT - 1, 1).ascii_char, b'o');
}

#[test]
fn backspace_erases_one_cell_and_stops_at_the_row_start() {
    let mut w = writer();
    w.write_string(b"ab");
    w.backspace();
    assert_eq!(w.column_position, 1);
    assert_eq!(cell(&w, BUFFER_HEIGHT - 1, 1).ascii_char, b' ');
    assert_eq!(cell(&w, BUFFER_HEIGHT - 1, 0).ascii_char, b'a');
    w.backspace();
    assert_eq!(w.column_position, 0);
    // at the row start the eraser does nothing
    w.backspace();
    assert_eq!(w.column_position, 0);
}

#[test]
fn print_writes_through_the_given_writer() {
    let mut w = writer();
    print(&mut w, b"READY!");
    assert_eq!(w.column_position, 6);
    assert_eq!(cell(&w, BUFFER_HEIGHT - 1, 0).ascii_char, b'R');
    assert_eq!(cell(&w, BUFFER_HEIGHT - 1, 5).ascii_char, b'!');
}
