//! The directory browser: the names of the stored programs laid out in three
//! columns inside each window, and a cursor that moves over them.

use vstd::prelude::*;
use crate::glyph::{char_of, glyph_of, BLANK};
use crate::layout::{
    frame_column, frame_row, grid_from, grid_of, interior_left, interior_top, is_window,
    lemma_grid_of, scanned, set_cell, Grid, Screen, BUFFER_HEIGHT, BUFFER_WIDTH, NUM_WINDOWS,
    WINDOW_HEIGHT, WINDOW_WIDTH,
};

verus! {

/// Bytes of a program name; shorter names are padded with zero bytes.
pub const MAX_FILENAME_BYTES: usize = 10;

/// Entries of a directory listing.
pub const MAX_FILES_STORED: usize = 30;

/// Rows of a window in which names are laid out.
pub const BROWSER_ROWS: usize = WINDOW_HEIGHT - 2;

/// Columns from the start of one name to the start of the next.
pub const NAME_STRIDE: usize = 11;

/// Names laid out in one row of a window.
pub const NAMES_PER_ROW: usize = 3;

/// One program name.
pub type Name = [u8; MAX_FILENAME_BYTES];

/// The names of a directory listing, in the file store's order.
pub type NameTable = [[u8; MAX_FILENAME_BYTES]; MAX_FILES_STORED];

/// A listing as contracts speak of it: thirty names of ten bytes.
pub type Names = Seq<Seq<u8>>;

/// The mathematical view of a name table.
pub open spec fn names_of(t: NameTable) -> Names {
    Seq::new(
        MAX_FILES_STORED as nat,
        |i: int| Seq::new(MAX_FILENAME_BYTES as nat, |j: int| t[i][j]),
    )
}

/// A listing of the right dimensions.
pub open spec fn is_names(n: Names) -> bool {
    &&& n.len() == MAX_FILES_STORED
    &&& forall|i: int| 0 <= i < MAX_FILES_STORED ==> (#[trigger] n[i]).len() == MAX_FILENAME_BYTES
}

/// Whether `(r, c)` lies in the browsing area of window `w`: its first eight
/// interior rows and, in each, three runs of ten columns that start eleven
/// columns apart.
pub open spec fn in_browser(w: int, r: int, c: int) -> bool {
    &&& interior_top(w) <= r < interior_top(w) + BROWSER_ROWS
    &&& 0 <= c - interior_left(w) < WINDOW_WIDTH
    &&& (c - interior_left(w)) % (NAME_STRIDE as int) < MAX_FILENAME_BYTES
}

/// The window whose browsing area holds the cell `(r, c)`, or 0 when none
/// does.
pub open spec fn browser_window(r: int, c: int) -> int {
    if in_browser(1, r, c) {
        1
    } else if in_browser(2, r, c) {
        2
    } else if in_browser(3, r, c) {
        3
    } else if in_browser(4, r, c) {
        4
    } else {
        0
    }
}

/// Position in the listing of the name drawn at `(r, c)` of window `w`.
pub open spec fn name_index(w: int, r: int, c: int) -> int {
    NAMES_PER_ROW * (r - interior_top(w)) + (c - interior_left(w)) / (NAME_STRIDE as int)
}

/// Position within its name of the byte drawn at column `c` of window `w`.
pub open spec fn byte_index(w: int, c: int) -> int {
    (c - interior_left(w)) % (NAME_STRIDE as int)
}

/// The cell at `(r, c)` after the listing is laid into all four windows.
pub open spec fn populate_cell(g: Grid, names: Names, r: int, c: int) -> char {
    let w = browser_window(r, c);
    if w != 0 {
        glyph_of(names[name_index(w, r, c)][byte_index(w, c)])
    } else {
        g[r][c]
    }
}

/// The grid after the listing is laid into all four windows: name `3 * i + j`
/// stands in row `i`, column run `j` of every window, zero padding included.
pub open spec fn populate_grid(g: Grid, names: Names) -> Grid {
    grid_from(|r: int, c: int| populate_cell(g, names, r, c))
}

/// A step of the browser cursor.
#[derive(Clone, Copy, PartialEq, Eq, Debug)]
pub enum Direction {
    Left,
    Right,
    Up,
    Down,
}

/// The cursor after one step over a listing of `count` names. Left and right
/// move by one name, up and down by a row of three; a step that would leave
/// `0 .. count` is not taken.
pub open spec fn move_cursor(cursor: int, count: int, dir: Direction) -> int {
    match dir {
        Direction::Left => if cursor > 0 {
            cursor - 1
        } else {
            cursor
        },
        Direction::Right => if cursor + 1 < count {
            cursor + 1
        } else {
            cursor
        },
        Direction::Up => if cursor >= 3 {
            cursor - 3
        } else {
            cursor
        },
        Direction::Down => if cursor + 3 < count {
            cursor + 3
        } else {
            cursor
        },
    }
}

/// One cell to draw in the highlight colours over the grid.
#[derive(Clone, Copy, PartialEq, Eq, Debug)]
pub struct Plot {
    pub row: usize,
    pub col: usize,
    pub glyph: char,
}

/// Grid row of the name under the cursor in window `w`.
pub open spec fn cursor_row(w: int, cursor: int) -> int {
    interior_top(w) + cursor / (NAMES_PER_ROW as int)
}

/// Grid column where the name under the cursor starts in window `w`.
pub open spec fn cursor_col(w: int, cursor: int) -> int {
    interior_left(w) + (cursor % (NAMES_PER_ROW as int)) * NAME_STRIDE
}

/// The highlight of window `w`: the selected name and one blank after it,
/// at the cursor's place in the window.
pub open spec fn highlight_of(w: int, cursor: int, name: Seq<u8>) -> Seq<Plot> {
    Seq::new(
        NAME_STRIDE as nat,
        |i: int|
            Plot {
                row: cursor_row(w, cursor) as usize,
                col: (cursor_col(w, cursor) + i) as usize,
                glyph: if i < MAX_FILENAME_BYTES {
                    glyph_of(name[i])
                } else {
                    BLANK
                },
            },
    )
}

/// What the cells of a name table's view are.
pub proof fn lemma_names_of(t: NameTable)
    ensures
        is_names(names_of(t)),
        forall|i: int, j: int|
            0 <= i < MAX_FILES_STORED && 0 <= j < MAX_FILENAME_BYTES ==> #[trigger] names_of(
                t,
            )[i][j] == t[i][j],
{
}

/// Reads one byte of a name table.
pub fn name_byte(t: &NameTable, i: usize, j: usize) -> (b: u8)
    requires
        i < MAX_FILES_STORED,
        j < MAX_FILENAME_BYTES,
    ensures
        b == names_of(*t)[i as int][j as int],
{
    t[i][j]
}

/// Copies one name out of a name table.
pub fn name_of(t: &NameTable, i: usize) -> (name: Name)
    requires
        i < MAX_FILES_STORED,
    ensures
        name@ == names_of(*t)[i as int],
{
    let name: Name = t[i];
    assert(name@ =~= names_of(*t)[i as int]);
    name
}

/// The window whose browsing area holds a cell, or 0.
pub fn browser_at(r: usize, c: usize) -> (w: usize)
    ensures
        w == browser_window(r as int, c as int),
        w == 0 || is_window(w as int),
{
    let mut w: usize = 1;
    while w <= NUM_WINDOWS
        invariant
            1 <= w <= NUM_WINDOWS + 1,
            forall|v: int| 1 <= v < w ==> !in_browser(v, r as int, c as int),
        decreases NUM_WINDOWS + 1 - w,
    {
        let top: usize = frame_row(w) + 1;
        let left: usize = frame_column(w) + 1;
        if top <= r && r < top + BROWSER_ROWS && left <= c && c - left < WINDOW_WIDTH && (c - left)
            % NAME_STRIDE < MAX_FILENAME_BYTES {
            return w;
        }
        w += 1;
    }
    0
}

/// Lays the listing into the browsing area of every window.
pub fn populate(screen: Screen, names: &NameTable) -> (out: Screen)
    ensures
        grid_of(out) == populate_grid(grid_of(screen), names_of(*names)),
{
    let ghost g = grid_of(screen);
    let ghost n = names_of(*names);
    let ghost cell = |r: int, c: int| populate_cell(g, n, r, c);
    let mut out = screen;
    let mut i: usize = 0;
    while i < BUFFER_HEIGHT
        invariant
            i <= BUFFER_HEIGHT,
            g == grid_of(screen),
            n == names_of(*names),
            cell == |r: int, c: int| populate_cell(g, n, r, c),
            scanned(out, screen, cell, i as int, 0),
        decreases BUFFER_HEIGHT - i,
    {
        let mut j: usize = 0;
        while j < BUFFER_WIDTH
            invariant
                i < BUFFER_HEIGHT,
                j <= BUFFER_WIDTH,
                g == grid_of(screen),
                n == names_of(*names),
                cell == |r: int, c: int| populate_cell(g, n, r, c),
                scanned(out, screen, cell, i as int, j as int),
            decreases BUFFER_WIDTH - j,
        {
            proof {
                lemma_grid_of(screen);
            }
            let w: usize = browser_at(i, j);
            if w != 0 {
                let top: usize = frame_row(w) + 1;
                let left: usize = frame_column(w) + 1;
                let b: u8 = name_byte(
                    names,
                    NAMES_PER_ROW * (i - top) + (j - left) / NAME_STRIDE,
                    (j - left) % NAME_STRIDE,
                );
                out = set_cell(out, i, j, char_of(b));
            }
            j += 1;
        }
        i += 1;
    }
    assert(grid_of(out) =~~= populate_grid(g, n));
    out
}

/// Moves a cursor one step over a listing of `count` names.
pub fn moved_cursor(cursor: usize, count: usize, dir: Direction) -> (next: usize)
    ensures
        next == move_cursor(cursor as int, count as int, dir),
{
    match dir {
        Direction::Left => if cursor > 0 {
            cursor - 1
        } else {
            cursor
        },
        Direction::Right => if cursor < count && count - cursor > 1 {
            cursor + 1
        } else {
            cursor
        },
        Direction::Up => if cursor >= 3 {
            cursor - 3
        } else {
            cursor
        },
        Direction::Down => if cursor < count && count - cursor > 3 {
            cursor + 3
        } else {
            cursor
        },
    }
}

/// Appends the highlight of window `w` to `plots`.
pub fn push_highlight(plots: &mut Vec<Plot>, w: usize, cursor: usize, name: &Name)
    requires
        is_window(w as int),
        cursor < MAX_FILES_STORED,
    ensures
        final(plots)@ == old(plots)@ + highlight_of(w as int, cursor as int, name@),
{
    let row: usize = frame_row(w) + 1 + cursor / NAMES_PER_ROW;
    let col: usize = frame_column(w) + 1 + (cursor % NAMES_PER_ROW) * NAME_STRIDE;
    let ghost want = highlight_of(w as int, cursor as int, name@);
    let mut i: usize = 0;
    while i < NAME_STRIDE
        invariant
            i <= NAME_STRIDE,
            is_window(w as int),
            cursor < MAX_FILES_STORED,
            row == cursor_row(w as int, cursor as int),
            col == cursor_col(w as int, cursor as int),
            want == highlight_of(w as int, cursor as int, name@),
            plots@ == old(plots)@ + want.subrange(0, i as int),
        decreases NAME_STRIDE - i,
    {
        let glyph: char = if i < MAX_FILENAME_BYTES {
            char_of(name[i])
        } else {
            BLANK
        };
        plots.push(Plot { row, col: col + i, glyph });
        assert(want.subrange(0, i as int + 1) =~= want.subrange(0, i as int).push(want[i as int]));
        i += 1;
    }
    assert(want.subrange(0, NAME_STRIDE as int) =~= want);
}

/// A cursor stays inside a non-empty listing, and the steps that would leave
/// it are not taken: left at the first name, up in the first row, right at
/// the last name, down where no name stands three further.
pub proof fn lemma_cursor_stays_in_listing(cursor: int, count: int, dir: Direction)
    requires
        0 <= cursor < count,
    ensures
        0 <= move_cursor(cursor, count, dir) < count,
        cursor == 0 ==> move_cursor(cursor, count, Direction::Left) == cursor,
        cursor < 3 ==> move_cursor(cursor, count, Direction::Up) == cursor,
        cursor == count - 1 ==> move_cursor(cursor, count, Direction::Right) == cursor,
        cursor >= count - 3 ==> move_cursor(cursor, count, Direction::Down) == cursor,
{
}

} // verus!
