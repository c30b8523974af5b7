use delta_os::console::Color;
use delta_os::console::Writer;
use delta_os::console::VGA_HEIGHT;
use delta_os::console::VGA_WIDTH;

fn row_string(w: &Writer, r: usize) -> String {
    let mut s = String::new();
    for c in 0..VGA_WIDTH {
        s.push(w.cell_at(r, c).ch as char);
    }
    s
}

#[test]
fn attr_packs_foreground_low_background_high() {
    let w = Writer::new(Color::LightGreen, Color::Black);
    assert_eq!(w.color, 0x0A);
    let w2 = Writer::new(Color::White, Color::Red);
    assert_eq!(w2.color, 0x4F);
    let w3 = Writer::new(Color::Yellow, Color::Blue);
    assert_eq!(w3.color, 0x1E);
}

#[test]
fn color_codes_match_hardware_numbers() {
    assert_eq!(Color::Black.code(), 0);
    assert_eq!(Color::Blue.code(), 1);
    assert_eq!(Color::Green.code(), 2);
    assert_eq!(Color::Cyan.code(), 3);
    assert_eq!(Color::Red.code(), 4);
    assert_eq!(Color::Magenta.code(), 5);
    assert_eq!(Color::Brown.code(), 6);
    assert_eq!(Color::LightGray.code(), 7);
    assert_eq!(Color::DarkGray.code(), 8);
    assert_eq!(Color::LightBlue.code(), 9);
    assert_eq!(Color::LightGreen.code(), 10);
    assert_eq!(Color::LightCyan.code(), 11);
    assert_eq!(Color::LightRed.code(), 12);
    assert_eq!(Color::Pink.code(), 13);
    assert_eq!(Color::Yellow.code(), 14);
    assert_eq!(Color::White.code(), 15);
}

#[test]
fn new_writer_starts_at_origin() {
    let w = Writer::new(Color::LightGray, Color::Black);
    assert_eq!(w.column, 0);
    assert_eq!(w.row, 0);
}

#[test]
fn clear_screen_blanks_every_cell() {
    let mut w = Writer::new(Color::LightGreen, Color::Black);
    w.clear_screen();
    w.write_string("some text that should vanish\nmore\n");
    w.clear_screen();
    for r in 0..VGA_HEIGHT {
        for c in 0..VGA_WIDTH {
            let cell = w.cell_at(r, c);
            assert_eq!(cell.ch, b' ');
            assert_eq!(cell.attr, 0x0A);
        }
    }
    assert_eq!(w.column, 0);
    assert_eq!(w.row, 0);
}

#[test]
fn write_string_passes_printable_ascii_through() {
    for b in 0x20u8..=0x7e {
        let mut w = Writer::new(Color::White, Color::Black);
        w.clear_screen();
        let s = String::from_utf8(vec![b]).unwrap();
        w.write_string(&s);
        assert_eq!(w.cell_at(0, 0).ch, b);
        assert_eq!(w.column, 1);
        assert_eq!(w.row, 0);
    }
}

#[test]
fn write_string_line_feed_starts_new_row() {
    let mut w = Writer::new(Color::White, Color::Black);
    w.clear_screen();
    w.write_string("\n");
    assert_eq!(w.row, 1);
    assert_eq!(w.column, 0);
    assert_eq!(w.cell_at(0, 0).ch, b' ');
}

#[test]
fn write_string_replaces_control_bytes() {
    let mut w = Writer::new(Color::White, Color::Black);
    w.clear_screen();
    w.write_string("\x07\t\x7f");
    assert_eq!(w.cell_at(0, 0).ch, 0xfe);
    assert_eq!(w.cell_at(0, 1).ch, 0xfe);
    assert_eq!(w.cell_at(0, 2).ch, 0xfe);
    assert_eq!(w.column, 3);
}

#[test]
fn write_string_replaces_each_byte_of_multibyte_chars() {
    let mut w = Writer::new(Color::White, Color::Black);
    w.clear_screen();
    w.write_string("é");
    assert_eq!(w.cell_at(0, 0).ch, 0xfe);
    assert_eq!(w.cell_at(0, 1).ch, 0xfe);
    assert_eq!(w.column, 2);
}

#[test]
fn write_byte_places_raw_byte() {
    let mut w = Writer::new(Color::White, Color::Black);
    w.clear_screen();
    w.write_byte(7);
    assert_eq!(w.cell_at(0, 0).ch, 7);
    assert_eq!(w.column, 1);
}

#[test]
fn full_row_wraps_before_next_write_without_scroll() {
    let mut w = Writer::new(Color::White, Color::Black);
    w.clear_screen();
    for _ in 0..VGA_WIDTH {
        w.write_string("x");
    }
    assert_eq!(w.column, VGA_WIDTH);
    assert_eq!(w.row, 0);
    for c in 0..VGA_WIDTH {
        assert_eq!(w.cell_at(0, c).ch, b'x');
    }
    w.write_string("y");
    assert_eq!(w.row, 1);
    assert_eq!(w.column, 1);
    assert_eq!(w.cell_at(1, 0).ch, b'y');
    for c in 0..VGA_WIDTH {
        assert_eq!(w.cell_at(0, c).ch, b'x');
    }
}

#[test]
fn height_line_feeds_scroll_exactly_once() {
    let mut w = Writer::new(Color::White, Color::Black);
    w.clear_screen();
    w.write_string("AB\nCD");
    for _ in 0..VGA_HEIGHT - 1 {
        w.write_string("\n");
    }
    assert_eq!(w.row, VGA_HEIGHT - 1);
    assert_eq!(w.column, 0);
    assert_eq!(w.cell_at(0, 0).ch, b'C');
    assert_eq!(w.cell_at(0, 1).ch, b'D');
    assert_eq!(w.cell_at(0, 2).ch, b' ');
    for c in 0..VGA_WIDTH {
        assert_eq!(w.cell_at(1, c).ch, b' ');
        assert_eq!(w.cell_at(VGA_HEIGHT - 1, c).ch, b' ');
    }
}

#[test]
fn scroll_shifts_rows_byte_for_byte() {
    let mut w = Writer::new(Color::White, Color::Black);
    w.clear_screen();
    w.write_string("row zero\nrow one\nrow two");
    w.scroll();
    assert_eq!(row_string(&w, 0).trim_end(), "row one");
    assert_eq!(row_string(&w, 1).trim_end(), "row two");
    assert_eq!(row_string(&w, 2).trim_end(), "");
    for c in 0..VGA_WIDTH {
        let cell = w.cell_at(VGA_HEIGHT - 1, c);
        assert_eq!(cell.ch, b' ');
        assert_eq!(cell.attr, 0x0F);
    }
}

#[test]
fn ok_banner_scenario() {
    let mut w = Writer::new(Color::LightGreen, Color::Black);
    w.clear_screen();
    w.write_string("OK\n");
    assert_eq!(w.row, 1);
    assert_eq!(w.column, 0);
    let o = w.cell_at(0, 0);
    assert_eq!(o.ch, b'O');
    assert_eq!(o.attr, 0x0A);
    let k = w.cell_at(0, 1);
    assert_eq!(k.ch, b'K');
    assert_eq!(k.attr, 0x0A);
    for c in 2..VGA_WIDTH {
        let cell = w.cell_at(0, c);
        assert_eq!(cell.ch, b' ');
        assert_eq!(cell.attr, 0x0A);
    }
}
