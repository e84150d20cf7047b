//! Tests of the screen buffer and the escape-sequence pipeline.

use helmux::{Color, TerminalBuffer};

#[test]
fn test_new_buffer() {
    let buf = TerminalBuffer::new(80, 24);
    assert_eq!(buf.size(), (80, 24));
    assert_eq!(buf.cursor(), (0, 0));
}

#[test]
fn test_write_char() {
    let mut buf = TerminalBuffer::new(80, 24);
    buf.write_char('H');
    buf.write_char('i');
    assert_eq!(buf.cursor(), (0, 2));
    assert_eq!(buf.get_cell(0, 0).unwrap().character, 'H');
    assert_eq!(buf.get_cell(0, 1).unwrap().character, 'i');
}

#[test]
fn test_line_wrap() {
    let mut buf = TerminalBuffer::new(5, 3);
    for c in "Hello World".chars() {
        buf.write_char(c);
    }
    // "Hello" on line 0, " Worl" on line 1, "d" on line 2.
    assert_eq!(buf.get_cell(0, 0).unwrap().character, 'H');
    assert_eq!(buf.get_cell(1, 0).unwrap().character, ' ');
    assert_eq!(buf.get_cell(2, 0).unwrap().character, 'd');
}

#[test]
fn test_clear() {
    let mut buf = TerminalBuffer::new(80, 24);
    buf.write_char('X');
    buf.clear();
    assert_eq!(buf.get_cell(0, 0).unwrap().character, ' ');
    assert_eq!(buf.cursor(), (0, 0));
}

#[test]
fn test_resize() {
    let mut buf = TerminalBuffer::new(80, 24);
    buf.resize(40, 12);
    assert_eq!(buf.size(), (40, 12));
}

#[test]
fn test_scroll_up() {
    let mut buf = TerminalBuffer::new(80, 3);
    buf.write_char('1');
    buf.linefeed();
    buf.carriage_return();
    buf.write_char('2');
    buf.linefeed();
    buf.carriage_return();
    buf.write_char('3');
    buf.linefeed(); // This one scrolls.
    buf.carriage_return();
    buf.write_char('4');

    // The line holding '1' scrolled off.
    assert_eq!(buf.get_cell(0, 0).unwrap().character, '2');
    assert_eq!(buf.get_cell(1, 0).unwrap().character, '3');
    assert_eq!(buf.get_cell(2, 0).unwrap().character, '4');
}

#[test]
fn test_process_text() {
    let mut buf = TerminalBuffer::new(80, 24);
    buf.process(b"Hello");
    assert_eq!(buf.get_cell(0, 0).unwrap().character, 'H');
    assert_eq!(buf.get_cell(0, 4).unwrap().character, 'o');
    assert_eq!(buf.cursor(), (0, 5));
}

#[test]
fn test_process_newline() {
    let mut buf = TerminalBuffer::new(80, 24);
    buf.process(b"Line1\r\nLine2");
    assert_eq!(buf.get_cell(0, 0).unwrap().character, 'L');
    assert_eq!(buf.get_cell(1, 0).unwrap().character, 'L');
}

#[test]
fn test_process_cursor_movement() {
    let mut buf = TerminalBuffer::new(80, 24);
    // Move the cursor to row 5, column 10.
    buf.process(b"\x1b[5;10H");
    assert_eq!(buf.cursor(), (4, 9)); // 0-indexed

    // Move the cursor up 2.
    buf.process(b"\x1b[2A");
    assert_eq!(buf.cursor(), (2, 9));
}

#[test]
fn test_process_clear_screen() {
    let mut buf = TerminalBuffer::new(80, 24);
    buf.process(b"Hello");
    buf.process(b"\x1b[2J");
    assert_eq!(buf.get_cell(0, 0).unwrap().character, ' ');
}

#[test]
fn test_process_colors() {
    let mut buf = TerminalBuffer::new(80, 24);
    buf.process(b"\x1b[31mRed\x1b[0m");
    assert_eq!(buf.get_cell(0, 0).unwrap().fg, Color::Red);
    assert_eq!(buf.get_cell(0, 0).unwrap().character, 'R');
}

#[test]
fn test_process_bold() {
    let mut buf = TerminalBuffer::new(80, 24);
    buf.process(b"\x1b[1mBold\x1b[0m");
    assert!(buf.get_cell(0, 0).unwrap().attrs.bold);
}

#[test]
fn sgr_run_ends_with_default_cell() {
    let mut buf = TerminalBuffer::new(80, 24);
    buf.process(b"\x1b[31mRed\x1b[0m");
    assert_eq!(buf.get_cell(0, 1).unwrap().fg, Color::Red);
    assert_eq!(buf.get_cell(0, 2).unwrap().fg, Color::Red);
    assert_eq!(buf.get_cell(0, 3).unwrap().fg, Color::Reset);
    assert_eq!(buf.cursor(), (0, 3));
}

#[test]
fn sgr_extended_colors() {
    let mut buf = TerminalBuffer::new(80, 24);
    buf.process(b"\x1b[38;5;196m");
    assert_eq!(helmux::ansi_to_color(196), Color::Rgb(255, 0, 0));
    buf.write_char('x');
    assert_eq!(buf.get_cell(0, 0).unwrap().fg, Color::Rgb(255, 0, 0));
    buf.process(b"\x1b[48;2;10;20;30m");
    buf.write_char('y');
    assert_eq!(buf.get_cell(0, 1).unwrap().bg, Color::Rgb(10, 20, 30));
    buf.process(b"\x1b[39;49m");
    buf.write_char('z');
    assert_eq!(buf.get_cell(0, 2).unwrap().fg, Color::Reset);
    assert_eq!(buf.get_cell(0, 2).unwrap().bg, Color::Reset);
}

#[test]
fn palette_mapping() {
    // The 16 named colours, the colour cube and the grayscale ramp.
    assert_eq!(helmux::ansi_to_color(0), Color::Black);
    assert_eq!(helmux::ansi_to_color(15), Color::Gray);
    assert_eq!(helmux::ansi_to_color(16), Color::Rgb(0, 0, 0));
    assert_eq!(helmux::ansi_to_color(231), Color::Rgb(255, 255, 255));
    assert_eq!(helmux::ansi_to_color(232), Color::Rgb(8, 8, 8));
    assert_eq!(helmux::ansi_to_color(255), Color::Rgb(238, 238, 238));
    assert_eq!(helmux::ansi_to_color(300), Color::Reset);
}

#[test]
fn scrollback_keeps_evicted_row() {
    let mut buf = TerminalBuffer::new(80, 3);
    buf.process(b"1\r\n2\r\n3\r\n4");
    assert_eq!(buf.get_cell(0, 0).unwrap().character, '2');
    assert_eq!(buf.get_cell(1, 0).unwrap().character, '3');
    assert_eq!(buf.get_cell(2, 0).unwrap().character, '4');
    assert_eq!(buf.scrollback_len(), 1);
    assert_eq!(buf.scrollback_row(0).unwrap()[0].character, '1');
}

#[test]
fn deferred_wrap_and_cr_suppression() {
    // Writing in the last column wraps exactly once on the next print.
    let mut buf = TerminalBuffer::new(5, 3);
    buf.process(b"\x1b[1;5H");
    assert_eq!(buf.cursor(), (0, 4));
    buf.write_char('a');
    assert_eq!(buf.cursor(), (0, 5)); // pending wrap
    buf.write_char('b');
    assert_eq!(buf.cursor(), (1, 1)); // wrapped once
    assert_eq!(buf.get_cell(1, 0).unwrap().character, 'b');

    // An intervening carriage return suppresses the wrap.
    let mut buf = TerminalBuffer::new(5, 3);
    buf.process(b"\x1b[1;5H");
    buf.write_char('a');
    buf.carriage_return();
    buf.write_char('b');
    assert_eq!(buf.cursor(), (0, 1));
    assert_eq!(buf.get_cell(0, 0).unwrap().character, 'b');
}

#[test]
fn cud_clamps_at_scroll_bottom() {
    let mut buf = TerminalBuffer::new(10, 6);
    buf.process(b"\x1b[2;4r"); // region rows 1..=3 (0-indexed)
    assert_eq!(buf.scroll_region(), (1, 3));
    buf.process(b"\x1b[99B"); // cursor down far: clamps, no scroll
    assert_eq!(buf.cursor().0, 3);
    assert_eq!(buf.scrollback_len(), 0);
    buf.process(b"\x1b[99A"); // cursor up far: clamps at the top
    assert_eq!(buf.cursor().0, 1);
}

#[test]
fn linefeed_at_scroll_bottom_scrolls() {
    let mut buf = TerminalBuffer::new(10, 4);
    buf.process(b"\x1b[1;2r"); // region rows 0..=1
    buf.process(b"a\r\nb"); // cursor now on row 1 (the bottom)
    assert_eq!(buf.cursor().0, 1);
    buf.process(b"\n");
    // The region scrolled; the row did not pass the bottom.
    assert_eq!(buf.cursor().0, 1);
    assert_eq!(buf.get_cell(0, 0).unwrap().character, 'b');
}

#[test]
fn degenerate_scroll_region_is_ignored() {
    let mut buf = TerminalBuffer::new(10, 6);
    buf.process(b"\x1b[1;1r");
    assert_eq!(buf.scroll_region(), (0, 5));
}

#[test]
fn resize_round_trip_preserves_overlap() {
    let mut buf = TerminalBuffer::new(10, 5);
    buf.process(b"AB\r\nCD");
    buf.resize(7, 4);
    buf.resize(10, 5);
    assert_eq!(buf.get_cell(0, 0).unwrap().character, 'A');
    assert_eq!(buf.get_cell(0, 1).unwrap().character, 'B');
    assert_eq!(buf.get_cell(1, 0).unwrap().character, 'C');
    assert_eq!(buf.get_cell(1, 1).unwrap().character, 'D');
}

#[test]
fn insert_and_delete_lines() {
    let mut buf = TerminalBuffer::new(3, 4);
    buf.process(b"a\r\nb\r\nc\r\nd");
    buf.process(b"\x1b[1;1H\x1b[1L"); // insert one line at the top
    assert_eq!(buf.get_cell(0, 0).unwrap().character, ' ');
    assert_eq!(buf.get_cell(1, 0).unwrap().character, 'a');
    buf.process(b"\x1b[1M"); // delete it again
    assert_eq!(buf.get_cell(0, 0).unwrap().character, 'a');
    assert_eq!(buf.get_cell(1, 0).unwrap().character, 'b');
}

#[test]
fn insert_delete_erase_chars() {
    let mut buf = TerminalBuffer::new(6, 2);
    buf.process(b"abcdef");
    buf.process(b"\x1b[1;2H\x1b[2@"); // insert two blanks at column 1
    assert_eq!(buf.get_cell(0, 0).unwrap().character, 'a');
    assert_eq!(buf.get_cell(0, 1).unwrap().character, ' ');
    assert_eq!(buf.get_cell(0, 2).unwrap().character, ' ');
    assert_eq!(buf.get_cell(0, 3).unwrap().character, 'b');
    buf.process(b"\x1b[2P"); // delete them again
    assert_eq!(buf.get_cell(0, 1).unwrap().character, 'b');
    buf.process(b"\x1b[1X"); // erase one in place
    assert_eq!(buf.get_cell(0, 1).unwrap().character, ' ');
    assert_eq!(buf.get_cell(0, 2).unwrap().character, 'c');
}

#[test]
fn save_and_restore_cursor() {
    let mut buf = TerminalBuffer::new(20, 10);
    buf.process(b"\x1b[5;6H\x1b7");
    buf.process(b"\x1b[1;1H");
    assert_eq!(buf.cursor(), (0, 0));
    buf.process(b"\x1b8");
    assert_eq!(buf.cursor(), (4, 5));
}

#[test]
fn reverse_index_scrolls_down_at_top() {
    let mut buf = TerminalBuffer::new(5, 3);
    buf.process(b"a\r\nb");
    buf.process(b"\x1b[1;1H\x1bM");
    assert_eq!(buf.get_cell(0, 0).unwrap().character, ' ');
    assert_eq!(buf.get_cell(1, 0).unwrap().character, 'a');
    assert_eq!(buf.get_cell(2, 0).unwrap().character, 'b');
}

#[test]
fn osc_title_is_recorded() {
    let mut buf = TerminalBuffer::new(10, 4);
    assert!(buf.title().is_none());
    buf.process(b"\x1b]2;hi\x07");
    assert_eq!(buf.title().unwrap().as_slice(), b"hi");
    buf.process(b"\x1b]0;there\x1b\\");
    assert_eq!(buf.title().unwrap().as_slice(), b"there");
}

#[test]
fn utf8_characters_print() {
    let mut buf = TerminalBuffer::new(10, 4);
    buf.process("h\u{e9}llo".as_bytes());
    assert_eq!(buf.get_cell(0, 0).unwrap().character, 'h');
    assert_eq!(buf.get_cell(0, 1).unwrap().character, '\u{e9}');
    assert_eq!(buf.get_cell(0, 2).unwrap().character, 'l');
    assert_eq!(buf.cursor(), (0, 5));
}

#[test]
fn erase_line_modes() {
    let mut buf = TerminalBuffer::new(5, 2);
    buf.process(b"abcde");
    buf.process(b"\x1b[1;3H\x1b[0K"); // clear from column 2 to the end
    assert_eq!(buf.get_cell(0, 1).unwrap().character, 'b');
    assert_eq!(buf.get_cell(0, 2).unwrap().character, ' ');
    assert_eq!(buf.get_cell(0, 4).unwrap().character, ' ');
    let mut buf = TerminalBuffer::new(5, 2);
    buf.process(b"abcde");
    buf.process(b"\x1b[1;3H\x1b[1K"); // clear through column 2
    assert_eq!(buf.get_cell(0, 0).unwrap().character, ' ');
    assert_eq!(buf.get_cell(0, 2).unwrap().character, ' ');
    assert_eq!(buf.get_cell(0, 3).unwrap().character, 'd');
}

#[test]
fn malformed_sequences_are_dropped() {
    let mut buf = TerminalBuffer::new(10, 4);
    buf.process(b"\x1b[99;xyzzy"); // never finished, junk ignored
    buf.process(b"ok");
    // The junk dispatched nothing; printable text landed normally after
    // the final byte ended the sequence.
    assert_eq!(buf.cursor().0, 0);
}
