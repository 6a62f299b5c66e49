use quad_shell::editor::{
    capture_window, clear_window, content_end_of, edit_window, load_text, next_row_start,
    print_bytes, put_cell, window_cells,
};
use quad_shell::layout::{blank_screen, set_cell, split_screen, Screen};

fn row_text(screen: &Screen, row: usize, from: usize, len: usize) -> String {
    screen[row][from..from + len].iter().collect()
}

fn type_text(screen: Screen, w: usize, pending: bool, text: &str) -> (Screen, bool) {
    let mut state = (screen, pending);
    for key in text.chars() {
        state = edit_window(state.0, w, state.1, key);
    }
    state
}

#[test]
fn windows_have_their_sizes() {
    assert_eq!(window_cells(1), 340);
    assert_eq!(window_cells(2), 340);
    assert_eq!(window_cells(3), 374);
    assert_eq!(window_cells(4), 374);
}

#[test]
fn typed_characters_follow_each_other() {
    let (screen, pending) = type_text(blank_screen(), 1, false, "abc");
    assert_eq!(row_text(&screen, 2, 1, 4), "abc ");
    assert!(!pending);
    assert_eq!(content_end_of(&screen, 1), 3);
}

#[test]
fn each_window_starts_at_its_own_corner() {
    let (one, _) = type_text(blank_screen(), 1, false, "a");
    assert_eq!(one[2][1], 'a');
    let (two, _) = type_text(blank_screen(), 2, false, "b");
    assert_eq!(two[2][36], 'b');
    let (three, _) = type_text(blank_screen(), 3, false, "c");
    assert_eq!(three[13][1], 'c');
    let (four, _) = type_text(blank_screen(), 4, false, "d");
    assert_eq!(four[13][36], 'd');
}

#[test]
fn enter_starts_the_next_row() {
    let (screen, pending) = type_text(blank_screen(), 2, false, "ab\n");
    assert!(pending);
    assert_eq!(row_text(&screen, 2, 36, 2), "ab");
    let (screen, pending) = type_text(screen, 2, pending, "cd");
    assert!(!pending);
    assert_eq!(row_text(&screen, 3, 36, 2), "cd");
    assert_eq!(content_end_of(&screen, 2), 36);
}

#[test]
fn enter_twice_in_a_row_starts_one_new_row() {
    let (screen, pending) = type_text(blank_screen(), 1, false, "a\n\nb");
    assert!(!pending);
    assert_eq!(screen[2][1], 'a');
    assert_eq!(screen[3][1], 'b');
    assert_eq!(screen[4][1], ' ');
}

#[test]
fn two_line_feeds_in_printed_text_leave_a_blank_row() {
    let (screen, pending) = print_bytes(blank_screen(), 1, false, b"a\n\nb");
    assert!(!pending);
    assert_eq!(screen[2][1], 'a');
    assert_eq!(screen[3][1], ' ');
    assert_eq!(screen[4][1], 'b');
}

#[test]
fn a_full_row_wraps_to_the_next() {
    let line = "x".repeat(34);
    let (screen, _) = type_text(blank_screen(), 1, false, &line);
    assert_eq!(row_text(&screen, 2, 1, 34), line);
    assert_eq!(screen[2][35], ' ');
    let (screen, _) = type_text(screen, 1, false, "y");
    assert_eq!(screen[3][1], 'y');
}

#[test]
fn backspace_blanks_the_last_character() {
    let (screen, _) = type_text(blank_screen(), 1, false, "abc");
    let (screen, pending) = edit_window(screen, 1, false, '\u{8}');
    assert!(!pending);
    assert_eq!(row_text(&screen, 2, 1, 3), "ab ");
}

#[test]
fn backspace_wraps_to_the_end_of_the_row_above() {
    let line = "x".repeat(34);
    let (screen, _) = type_text(blank_screen(), 3, false, &line);
    assert_eq!(content_end_of(&screen, 3), 34);
    let (screen, _) = edit_window(screen, 3, false, '\u{8}');
    assert_eq!(screen[13][34], ' ');
    assert_eq!(screen[13][33], 'x');
    assert_eq!(content_end_of(&screen, 3), 33);
}

#[test]
fn backspace_in_an_empty_window_changes_nothing() {
    let start = split_screen(blank_screen());
    let (screen, pending) = edit_window(start, 1, false, '\u{8}');
    assert_eq!(screen, start);
    assert!(!pending);
}

#[test]
fn backspace_takes_back_a_pending_line() {
    let (screen, pending) = type_text(blank_screen(), 1, false, "ab\n");
    assert!(pending);
    let (screen, pending) = edit_window(screen, 1, pending, '\u{8}');
    assert!(!pending);
    let (screen, _) = type_text(screen, 1, pending, "c");
    assert_eq!(row_text(&screen, 2, 1, 3), "abc");
}

#[test]
fn what_does_not_fit_is_dropped() {
    let start = split_screen(blank_screen());
    let full = "z".repeat(340);
    let (screen, _) = type_text(start, 1, false, &full);
    assert_eq!(content_end_of(&screen, 1), 340);
    assert_eq!(row_text(&screen, 11, 1, 34), "z".repeat(34));
    let (more, pending) = type_text(screen, 1, false, "!");
    assert_eq!(more, screen);
    assert!(!pending);
}

#[test]
fn enter_on_the_last_row_fills_the_window() {
    let mut screen = split_screen(blank_screen());
    screen = put_cell(screen, 1, 9 * 34, 'a');
    let frame = screen;
    let (screen, pending) = edit_window(screen, 1, false, '\n');
    assert!(pending);
    assert_eq!(screen, frame);
    let (screen, pending) = edit_window(screen, 1, pending, 'b');
    assert!(!pending);
    assert_eq!(screen, frame);
}

#[test]
fn printed_text_keeps_its_blanks() {
    let (screen, pending) = print_bytes(blank_screen(), 1, false, b"Hello, world!");
    assert!(!pending);
    assert_eq!(row_text(&screen, 2, 1, 14), "Hello, world! ");
}

#[test]
fn printing_goes_on_after_the_content() {
    let (screen, pending) = print_bytes(blank_screen(), 4, false, b"one");
    let (screen, pending) = print_bytes(screen, 4, pending, b"\n");
    assert!(pending);
    let (screen, pending) = print_bytes(screen, 4, pending, b"two");
    assert!(!pending);
    assert_eq!(row_text(&screen, 13, 36, 3), "one");
    assert_eq!(row_text(&screen, 14, 36, 3), "two");
}

#[test]
fn a_line_feed_inside_printed_text_breaks_the_line() {
    let (screen, pending) = print_bytes(blank_screen(), 1, false, b"ab\ncd\n");
    assert!(pending);
    assert_eq!(row_text(&screen, 2, 1, 3), "ab ");
    assert_eq!(row_text(&screen, 3, 1, 3), "cd ");
}

#[test]
fn printing_nothing_keeps_a_pending_line() {
    let (screen, pending) = print_bytes(blank_screen(), 1, true, b"");
    assert!(pending);
    assert_eq!(screen, blank_screen());
}

#[test]
fn printing_past_the_last_cell_stays_inside_the_window() {
    let start = split_screen(blank_screen());
    let long = vec![b'o'; 400];
    let (screen, _) = print_bytes(start, 1, false, &long);
    assert_eq!(content_end_of(&screen, 1), 340);
    for col in 0..80 {
        assert_eq!(screen[12][col], start[12][col]);
        assert_eq!(screen[1][col], start[1][col]);
    }
    for row in 0..25 {
        assert_eq!(screen[row][0], start[row][0]);
        assert_eq!(screen[row][35], start[row][35]);
    }
    assert_eq!(screen[13][1], ' ');
}

#[test]
fn loading_renders_lines_from_the_first_cell() {
    let mut screen = split_screen(blank_screen());
    screen = set_cell(screen, 5, 5, 'q');
    let loaded = load_text(screen, 1, b"x := 1\nprint(x)");
    assert_eq!(row_text(&loaded, 2, 1, 7), "x := 1 ");
    assert_eq!(row_text(&loaded, 3, 1, 9), "print(x) ");
    assert_eq!(loaded[5][5], ' ');
    assert_eq!(loaded[1][0], screen[1][0]);
}

#[test]
fn loading_stops_at_the_last_row() {
    let start = split_screen(blank_screen());
    let text = "line\n".repeat(12);
    let loaded = load_text(start, 1, text.as_bytes());
    for row in 2..12 {
        assert_eq!(row_text(&loaded, row, 1, 5), "line ");
    }
    for col in 0..80 {
        assert_eq!(loaded[12][col], start[12][col]);
        assert_eq!(loaded[13][col], start[13][col]);
    }
}

#[test]
fn loading_into_a_lower_window_uses_eleven_rows() {
    let start = split_screen(blank_screen());
    let text = "r\n".repeat(12);
    let loaded = load_text(start, 3, text.as_bytes());
    for row in 13..24 {
        assert_eq!(loaded[row][1], 'r');
    }
    for col in 0..80 {
        assert_eq!(loaded[24][col], start[24][col]);
    }
}

#[test]
fn clearing_blanks_one_interior_only() {
    let mut screen = split_screen(blank_screen());
    screen = set_cell(screen, 2, 1, 'a');
    screen = set_cell(screen, 11, 34, 'b');
    screen = set_cell(screen, 2, 36, 'c');
    screen = set_cell(screen, 13, 1, 'd');
    let cleared = clear_window(screen, 1);
    assert_eq!(cleared[2][1], ' ');
    assert_eq!(cleared[11][34], ' ');
    assert_eq!(cleared[2][36], 'c');
    assert_eq!(cleared[13][1], 'd');
    assert_eq!(cleared[1][16], 'F');
}

#[test]
fn capture_holds_the_cells_then_zeros() {
    let (screen, _) = print_bytes(blank_screen(), 1, false, b"hi");
    let saved = capture_window(&screen, 1);
    assert_eq!(saved.len(), 450);
    assert_eq!(&saved[0..3], b"hi ");
    assert!(saved[3..340].iter().all(|b| *b == b' '));
    assert!(saved[340..450].iter().all(|b| *b == 0));
    let lower = capture_window(&screen, 3);
    assert!(lower[0..374].iter().all(|b| *b == b' '));
    assert!(lower[374..450].iter().all(|b| *b == 0));
}

#[test]
fn capture_keeps_the_low_byte_of_a_cell() {
    let screen = put_cell(blank_screen(), 2, 0, '\u{141}');
    let saved = capture_window(&screen, 2);
    assert_eq!(saved[0], 0x41);
}

#[test]
fn a_saved_window_loads_back_to_the_same_bytes() {
    let text = b"sum := 0\nwhile (sum < 3) {\n    sum := (sum + 1)\n}\nprint(sum)";
    let first = load_text(split_screen(blank_screen()), 2, text);
    let saved = capture_window(&first, 2);
    let mut other = split_screen(blank_screen());
    other = set_cell(other, 4, 40, '#');
    let second = load_text(other, 2, &saved);
    let again = capture_window(&second, 2);
    assert_eq!(saved.to_vec(), again.to_vec());
    assert_eq!(row_text(&second, 4, 36, 20), "    sum := (sum + 1)");
}

#[test]
fn a_short_source_is_saved_as_a_whole_window() {
    let text = b"print(\"Hello, world!\")";
    let screen = load_text(blank_screen(), 1, text);
    let saved = capture_window(&screen, 1);
    assert_eq!(&saved[0..22], &text[..]);
    assert_eq!(saved[22], b' ');
    assert_eq!(saved[449], 0);
}

#[test]
fn the_next_row_starts_thirty_four_cells_on() {
    assert_eq!(next_row_start(1, 0), 34);
    assert_eq!(next_row_start(1, 33), 34);
    assert_eq!(next_row_start(1, 34), 68);
    assert_eq!(next_row_start(1, 306), 340);
    assert_eq!(next_row_start(1, 340), 340);
    assert_eq!(next_row_start(3, 340), 374);
}

#[test]
fn content_ends_after_the_last_cell_that_is_not_blank() {
    let mut screen = blank_screen();
    assert_eq!(content_end_of(&screen, 1), 0);
    screen = put_cell(screen, 1, 5, 'a');
    screen = put_cell(screen, 1, 40, 'b');
    assert_eq!(content_end_of(&screen, 1), 41);
    assert_eq!(content_end_of(&screen, 2), 0);
    let unchanged = put_cell(screen, 1, 340, 'c');
    assert_eq!(unchanged, screen);
}
