use quad_shell::browser::{
    browser_at, moved_cursor, name_byte, name_of, populate, push_highlight, Direction, NameTable,
    Plot,
};
use quad_shell::layout::{blank_screen, set_cell, split_screen, Screen};

fn listing(names: &[&str]) -> NameTable {
    let mut table = [[0u8; 10]; 30];
    for (i, name) in names.iter().enumerate() {
        for (j, b) in name.bytes().enumerate() {
            table[i][j] = b;
        }
    }
    table
}

fn row_text(screen: &Screen, row: usize, from: usize, len: usize) -> String {
    screen[row][from..from + len].iter().collect()
}

#[test]
fn names_stand_in_three_columns() {
    let table = listing(&["hello", "nums", "add_one", "countdown", "average", "pi"]);
    let screen = populate(split_screen(blank_screen()), &table);
    assert_eq!(row_text(&screen, 2, 1, 5), "hello");
    assert_eq!(row_text(&screen, 2, 12, 4), "nums");
    assert_eq!(row_text(&screen, 2, 23, 7), "add_one");
    assert_eq!(row_text(&screen, 3, 1, 9), "countdown");
    assert_eq!(row_text(&screen, 3, 12, 7), "average");
    assert_eq!(row_text(&screen, 3, 23, 2), "pi");
}

#[test]
fn names_are_laid_into_every_window() {
    let table = listing(&["hello", "nums", "add_one", "countdown"]);
    let screen = populate(split_screen(blank_screen()), &table);
    assert_eq!(row_text(&screen, 2, 36, 5), "hello");
    assert_eq!(row_text(&screen, 2, 47, 4), "nums");
    assert_eq!(row_text(&screen, 3, 36, 9), "countdown");
    assert_eq!(row_text(&screen, 13, 1, 5), "hello");
    assert_eq!(row_text(&screen, 13, 23, 7), "add_one");
    assert_eq!(row_text(&screen, 14, 1, 9), "countdown");
    assert_eq!(row_text(&screen, 13, 36, 5), "hello");
    assert_eq!(row_text(&screen, 14, 36, 9), "countdown");
}

#[test]
fn padding_bytes_are_laid_out_too() {
    let table = listing(&["hello"]);
    let screen = populate(blank_screen(), &table);
    assert_eq!(screen[2][6], '\0');
    assert_eq!(screen[2][10], '\0');
    assert_eq!(screen[2][12], '\0');
    assert_eq!(screen[9][32], '\0');
}

#[test]
fn cells_between_and_below_the_names_are_kept() {
    let mut screen = split_screen(blank_screen());
    screen = set_cell(screen, 2, 11, '|');
    screen = set_cell(screen, 2, 22, '|');
    screen = set_cell(screen, 2, 33, '|');
    screen = set_cell(screen, 2, 34, '|');
    screen = set_cell(screen, 10, 1, 'x');
    screen = set_cell(screen, 21, 36, 'y');
    screen = set_cell(screen, 12, 5, 'z');
    let table = listing(&["a"]);
    let out = populate(screen, &table);
    assert_eq!(out[2][11], '|');
    assert_eq!(out[2][22], '|');
    assert_eq!(out[2][33], '|');
    assert_eq!(out[2][34], '|');
    assert_eq!(out[10][1], 'x');
    assert_eq!(out[21][36], 'y');
    assert_eq!(out[12][5], 'z');
    assert_eq!(out[0][0], 'F');
}

#[test]
fn the_twenty_fourth_name_is_the_last_one_shown() {
    let mut table = [[0u8; 10]; 30];
    table[23] = *b"last_shown";
    table[24] = *b"not__shown";
    let screen = populate(blank_screen(), &table);
    assert_eq!(row_text(&screen, 9, 23, 10), "last_shown");
    assert_eq!(row_text(&screen, 20, 58, 10), "last_shown");
    for row in 0..25 {
        let text: String = screen[row].iter().collect();
        assert!(!text.contains("not__shown"));
    }
}

#[test]
fn browsing_areas_are_told_apart() {
    assert_eq!(browser_at(2, 1), 1);
    assert_eq!(browser_at(9, 32), 1);
    assert_eq!(browser_at(2, 36), 2);
    assert_eq!(browser_at(13, 1), 3);
    assert_eq!(browser_at(20, 67), 4);
    assert_eq!(browser_at(2, 11), 0);
    assert_eq!(browser_at(2, 33), 0);
    assert_eq!(browser_at(10, 1), 0);
    assert_eq!(browser_at(12, 1), 0);
    assert_eq!(browser_at(21, 1), 0);
    assert_eq!(browser_at(2, 35), 0);
    assert_eq!(browser_at(2, 69), 0);
}

#[test]
fn the_cursor_moves_by_one_and_by_three() {
    assert_eq!(moved_cursor(0, 6, Direction::Right), 1);
    assert_eq!(moved_cursor(1, 6, Direction::Left), 0);
    assert_eq!(moved_cursor(1, 6, Direction::Down), 4);
    assert_eq!(moved_cursor(4, 6, Direction::Up), 1);
}

#[test]
fn the_cursor_stops_at_the_bounds() {
    assert_eq!(moved_cursor(0, 6, Direction::Left), 0);
    assert_eq!(moved_cursor(0, 6, Direction::Up), 0);
    assert_eq!(moved_cursor(2, 6, Direction::Up), 2);
    assert_eq!(moved_cursor(5, 6, Direction::Right), 5);
    assert_eq!(moved_cursor(3, 6, Direction::Down), 3);
    assert_eq!(moved_cursor(5, 6, Direction::Down), 5);
    assert_eq!(moved_cursor(2, 6, Direction::Down), 5);
}

#[test]
fn the_cursor_stays_put_in_an_empty_listing() {
    for dir in [Direction::Left, Direction::Right, Direction::Up, Direction::Down] {
        assert_eq!(moved_cursor(0, 0, dir), 0);
        assert_eq!(moved_cursor(0, 1, dir), 0);
    }
}

#[test]
fn the_cursor_never_leaves_the_listing() {
    for count in 1..30usize {
        for cursor in 0..count {
            for dir in [Direction::Left, Direction::Right, Direction::Up, Direction::Down] {
                assert!(moved_cursor(cursor, count, dir) < count);
            }
        }
    }
}

#[test]
fn the_highlight_covers_the_name_and_one_blank() {
    let name = *b"nums\0\0\0\0\0\0";
    let mut plots: Vec<Plot> = Vec::new();
    push_highlight(&mut plots, 1, 1, &name);
    assert_eq!(plots.len(), 11);
    assert_eq!(plots[0], Plot { row: 2, col: 12, glyph: 'n' });
    assert_eq!(plots[3], Plot { row: 2, col: 15, glyph: 's' });
    assert_eq!(plots[4], Plot { row: 2, col: 16, glyph: '\0' });
    assert_eq!(plots[10], Plot { row: 2, col: 22, glyph: ' ' });
}

#[test]
fn the_highlight_follows_the_cursor_in_each_window() {
    let name = *b"pi\0\0\0\0\0\0\0\0";
    let mut plots: Vec<Plot> = Vec::new();
    push_highlight(&mut plots, 4, 5, &name);
    push_highlight(&mut plots, 3, 0, &name);
    push_highlight(&mut plots, 2, 29, &name);
    assert_eq!(plots.len(), 33);
    assert_eq!(plots[0], Plot { row: 14, col: 58, glyph: 'p' });
    assert_eq!(plots[11], Plot { row: 13, col: 1, glyph: 'p' });
    assert_eq!(plots[22], Plot { row: 11, col: 58, glyph: 'p' });
}

#[test]
fn names_are_read_from_the_table() {
    let table = listing(&["hello", "nums"]);
    assert_eq!(name_byte(&table, 1, 0), b'n');
    assert_eq!(name_byte(&table, 1, 4), 0);
    assert_eq!(&name_of(&table, 0), b"hello\0\0\0\0\0");
    assert_eq!(&name_of(&table, 29), &[0u8; 10]);
}
