//! The character grid, its partition into four framed windows, and the
//! drawing of the frame with the active window's edges highlighted.

use vstd::prelude::*;
use crate::glyph::{alphanumeric, digit, digit_char, BLANK, BORDER, HIGHLIGHT};

verus! {

/// Rows of the grid.
pub const BUFFER_HEIGHT: usize = 25;

/// Columns of the grid.
pub const BUFFER_WIDTH: usize = 80;

/// Row of the upper frame line.
pub const FIRST_BORDER_ROW: usize = 1;

/// Row of the lower frame line.
pub const LAST_BORDER_ROW: usize = 24;

/// Columns kept on the right for the per-window step counters.
pub const TASK_MANAGER_WIDTH: usize = 10;

/// Column of the right frame line.
pub const WINDOWS_WIDTH: usize = 70;

/// Columns of a window in which program names are laid out.
pub const WINDOW_WIDTH: usize = 33;

/// Rows of an upper window.
pub const WINDOW_HEIGHT: usize = 10;

/// Column of the middle frame line.
pub const MID_WIDTH: usize = 35;

/// Row of the middle frame line.
pub const MID_HEIGHT: usize = 12;

/// Number of windows that can hold a program.
pub const NUM_WINDOWS: usize = 4;

/// Identifier of the pseudo-window that owns the name-entry row.
pub const NAME_ENTRY: usize = 5;

/// Columns of a window's interior.
pub const INTERIOR_WIDTH: usize = 34;

/// Characters of the prompt that starts the name-entry row.
pub const PROMPT_LENGTH: usize = 15;

/// Columns from a window's left frame line to its label.
pub const LABEL_OFFSET: usize = WINDOW_WIDTH / 2;

/// The grid as executable code holds it.
pub type Screen = [[char; BUFFER_WIDTH]; BUFFER_HEIGHT];

/// The grid as contracts speak of it: rows of cells.
pub type Grid = Seq<Seq<char>>;

/// The cell of `s` at row `r`, column `c`.
pub open spec fn at(s: Screen, r: int, c: int) -> char {
    s[r][c]
}

/// The mathematical view of a screen.
pub open spec fn grid_of(s: Screen) -> Grid {
    grid_from(|r: int, c: int| at(s, r, c))
}

/// The grid whose cell at `(r, c)` is `cell(r, c)`.
pub open spec fn grid_from(cell: spec_fn(int, int) -> char) -> Grid {
    Seq::new(BUFFER_HEIGHT as nat, |r: int| Seq::new(BUFFER_WIDTH as nat, |c: int| cell(r, c)))
}

/// Whether `out` is `from` with `cell` in place of every cell that stands
/// before `(i, j)` in row-major order.
pub open spec fn scanned(
    out: Screen,
    from: Screen,
    cell: spec_fn(int, int) -> char,
    i: int,
    j: int,
) -> bool {
    forall|r: int, c: int|
        in_grid(r, c) ==> #[trigger] at(out, r, c) == if r < i || (r == i && c < j) {
            cell(r, c)
        } else {
            at(from, r, c)
        }
}

/// A grid of the right dimensions.
pub open spec fn is_grid(g: Grid) -> bool {
    &&& g.len() == BUFFER_HEIGHT
    &&& forall|r: int| 0 <= r < BUFFER_HEIGHT ==> (#[trigger] g[r]).len() == BUFFER_WIDTH
}

/// Whether `(r, c)` addresses a cell.
pub open spec fn in_grid(r: int, c: int) -> bool {
    0 <= r < BUFFER_HEIGHT && 0 <= c < BUFFER_WIDTH
}

/// The grid `g` with the cell at `(r, c)` replaced by `ch`.
pub open spec fn with_cell(g: Grid, r: int, c: int, ch: char) -> Grid {
    g.update(r, g[r].update(c, ch))
}

/// Whether `w` identifies one of the four windows.
pub open spec fn is_window(w: int) -> bool {
    1 <= w <= NUM_WINDOWS
}

/// First interior row of window `w`.
pub open spec fn interior_top(w: int) -> int {
    frame_top(w) + 1
}

/// First interior column of window `w`.
pub open spec fn interior_left(w: int) -> int {
    frame_left(w) + 1
}

/// Number of interior rows of window `w`.
pub open spec fn interior_rows(w: int) -> int {
    frame_bottom(w) - frame_top(w) - 1
}

/// Number of interior cells of window `w`.
pub open spec fn interior_cells(w: int) -> int {
    interior_rows(w) * INTERIOR_WIDTH
}

/// Grid row of the interior cell with row-major index `k` of window `w`.
pub open spec fn cell_row(w: int, k: int) -> int {
    interior_top(w) + k / (INTERIOR_WIDTH as int)
}

/// Grid column of the interior cell with row-major index `k` of window `w`.
pub open spec fn cell_col(w: int, k: int) -> int {
    interior_left(w) + k % (INTERIOR_WIDTH as int)
}

/// Whether `(r, c)` lies in the interior of window `w`.
pub open spec fn in_interior(w: int, r: int, c: int) -> bool {
    &&& interior_top(w) <= r < interior_top(w) + interior_rows(w)
    &&& interior_left(w) <= c < interior_left(w) + INTERIOR_WIDTH
}

/// Row-major index, within the interior of `w`, of the cell at `(r, c)`.
pub open spec fn cell_index(w: int, r: int, c: int) -> int {
    (r - interior_top(w)) * INTERIOR_WIDTH + (c - interior_left(w))
}

/// Content of the interior cell `k` of window `w`.
pub open spec fn interior_at(g: Grid, w: int, k: int) -> char {
    g[cell_row(w, k)][cell_col(w, k)]
}

/// Row of the frame line that carries the label of window `w`.
pub open spec fn frame_top(w: int) -> int {
    if w <= 2 {
        FIRST_BORDER_ROW as int
    } else {
        MID_HEIGHT as int
    }
}

/// Row of the frame line below window `w`.
pub open spec fn frame_bottom(w: int) -> int {
    if w <= 2 {
        MID_HEIGHT as int
    } else {
        LAST_BORDER_ROW as int
    }
}

/// Column of the frame line left of window `w`.
pub open spec fn frame_left(w: int) -> int {
    if w == 1 || w == 3 {
        0
    } else {
        MID_WIDTH as int
    }
}

/// Column of the frame line right of window `w`.
pub open spec fn frame_right(w: int) -> int {
    if w == 1 || w == 3 {
        MID_WIDTH as int
    } else {
        WINDOWS_WIDTH as int
    }
}

/// Whether `(r, c)` is a cell of the frame: one of the three horizontal lines
/// or, below the prompt row, one of the three vertical lines.
pub open spec fn is_border(r: int, c: int) -> bool {
    ||| (r == FIRST_BORDER_ROW || r == MID_HEIGHT || r == LAST_BORDER_ROW) && 0 <= c
        <= WINDOWS_WIDTH
    ||| (c == 0 || c == MID_WIDTH || c == WINDOWS_WIDTH) && 0 < r < BUFFER_HEIGHT
}

/// Whether `(r, c)` lies on the rectangle that frames window `num`.
/// No cell does when `num` is not a window.
pub open spec fn on_frame(num: int, r: int, c: int) -> bool {
    &&& is_window(num)
    &&& frame_top(num) <= r <= frame_bottom(num)
    &&& frame_left(num) <= c <= frame_right(num)
    &&& (r == frame_top(num) || r == frame_bottom(num) || c == frame_left(num) || c
        == frame_right(num))
}

/// The glyph of a frame cell: what it holds if that is alphanumeric, else the
/// highlight glyph on the active window's frame and the neutral glyph elsewhere.
pub open spec fn border_glyph(current: char, keep: bool, lit: bool) -> char {
    if keep {
        current
    } else if lit {
        HIGHLIGHT
    } else {
        BORDER
    }
}

/// The cell at `(r, c)` once the frame is redrawn with `num` active.
pub open spec fn update_cell(g: Grid, num: int, r: int, c: int) -> char {
    if is_border(r, c) {
        border_glyph(g[r][c], alphanumeric(g[r][c]), on_frame(num, r, c))
    } else {
        g[r][c]
    }
}

/// The grid once the frame is redrawn with `num` active.
pub open spec fn update_grid(g: Grid, num: int) -> Grid {
    grid_from(|r: int, c: int| update_cell(g, num, r, c))
}

/// The prompt that starts the name-entry row.
pub open spec fn prompt() -> Seq<char> {
    seq!['F', '5', ' ', '-', ' ', 'F', 'i', 'l', 'e', 'n', 'a', 'm', 'e', ':', ' ']
}

/// Whether `(r, c)` holds the letter of the label of window `w`. The digit
/// follows it.
pub open spec fn is_label(w: int, r: int, c: int) -> bool {
    r == frame_top(w) && c == frame_left(w) + LABEL_OFFSET
}

/// The window whose label has its letter at `(r, c)`, or 0.
pub open spec fn labelled_window(r: int, c: int) -> int {
    if is_label(1, r, c) {
        1
    } else if is_label(2, r, c) {
        2
    } else if is_label(3, r, c) {
        3
    } else if is_label(4, r, c) {
        4
    } else {
        0
    }
}

/// The cell at `(r, c)` of the initial layout before its frame is drawn:
/// the prompt row, the labels F1 to F4 of the four windows, and elsewhere
/// what `g` holds.
pub open spec fn label_cell(g: Grid, r: int, c: int) -> char {
    if r == 0 {
        if c < PROMPT_LENGTH {
            prompt()[c]
        } else {
            BLANK
        }
    } else if labelled_window(r, c) != 0 {
        'F'
    } else if labelled_window(r, c - 1) != 0 {
        digit(labelled_window(r, c - 1))
    } else {
        g[r][c]
    }
}

/// The grid with prompt row and window labels written over `g`.
pub open spec fn label_grid(g: Grid) -> Grid {
    grid_from(|r: int, c: int| label_cell(g, r, c))
}

/// The initial layout drawn over `g`: prompt row, labels, and the frame with
/// window 1 active.
pub open spec fn split_grid(g: Grid) -> Grid {
    update_grid(label_grid(g), 1)
}

/// A grid of blank cells.
pub open spec fn blank_grid() -> Grid {
    grid_from(|r: int, c: int| BLANK)
}

/// A screen of blank cells.
pub fn blank_screen() -> (s: Screen)
    ensures
        grid_of(s) == blank_grid(),
{
    let s: Screen = [[BLANK; BUFFER_WIDTH]; BUFFER_HEIGHT];
    assert(grid_of(s) =~~= blank_grid());
    s
}

/// Reads one cell.
pub fn get_cell(s: &Screen, r: usize, c: usize) -> (ch: char)
    requires
        in_grid(r as int, c as int),
    ensures
        ch == at(*s, r as int, c as int),
        ch == grid_of(*s)[r as int][c as int],
{
    s[r][c]
}

/// Writes one cell.
pub fn set_cell(s: Screen, r: usize, c: usize, ch: char) -> (t: Screen)
    requires
        in_grid(r as int, c as int),
    ensures
        at(t, r as int, c as int) == ch,
        forall|i: int, j: int|
            in_grid(i, j) && !(i == r && j == c) ==> #[trigger] at(t, i, j) == at(s, i, j),
        grid_of(t) == with_cell(grid_of(s), r as int, c as int, ch),
{
    let mut t = s;
    t[r][c] = ch;
    assert(grid_of(t) =~~= with_cell(grid_of(s), r as int, c as int, ch));
    t
}

/// Computes the glyph of one frame cell from what it holds, whether that is
/// alphanumeric, and whether the cell is on the active window's frame.
pub fn border_cell(current: char, keep: bool, lit: bool) -> (ch: char)
    ensures
        ch == border_glyph(current, keep, lit),
{
    if keep {
        current
    } else if lit {
        HIGHLIGHT
    } else {
        BORDER
    }
}

/// Whether a cell belongs to the frame.
pub fn border_at(r: usize, c: usize) -> (b: bool)
    ensures
        b == is_border(r as int, c as int),
{
    ((r == FIRST_BORDER_ROW || r == MID_HEIGHT || r == LAST_BORDER_ROW) && c <= WINDOWS_WIDTH)
        || ((c == 0 || c == MID_WIDTH || c == WINDOWS_WIDTH) && 0 < r && r < BUFFER_HEIGHT)
}

/// Row of the frame line above window `w`.
pub fn frame_row(w: usize) -> (r: usize)
    requires
        is_window(w as int),
    ensures
        r == frame_top(w as int),
        r + 1 == interior_top(w as int),
{
    if w <= 2 {
        FIRST_BORDER_ROW
    } else {
        MID_HEIGHT
    }
}

/// Column of the frame line left of window `w`.
pub fn frame_column(w: usize) -> (c: usize)
    requires
        is_window(w as int),
    ensures
        c == frame_left(w as int),
        c + 1 == interior_left(w as int),
{
    if w == 1 || w == 3 {
        0
    } else {
        MID_WIDTH
    }
}

/// Whether a cell is on the frame of window `num`.
pub fn frame_at(num: usize, r: usize, c: usize) -> (b: bool)
    ensures
        b == on_frame(num as int, r as int, c as int),
{
    if num < 1 || num > NUM_WINDOWS {
        return false;
    }
    let top: usize = frame_row(num);
    let bottom: usize = if num <= 2 { MID_HEIGHT } else { LAST_BORDER_ROW };
    let left: usize = frame_column(num);
    let right: usize = if num == 1 || num == 3 { MID_WIDTH } else { WINDOWS_WIDTH };
    top <= r && r <= bottom && left <= c && c <= right && (r == top || r == bottom || c == left
        || c == right)
}

/// What the cells of a screen's view are.
pub proof fn lemma_grid_of(s: Screen)
    ensures
        is_grid(grid_of(s)),
        forall|r: int, c: int| in_grid(r, c) ==> #[trigger] grid_of(s)[r][c] == at(s, r, c),
{
}

/// Redraws the frame with window `num` active. Frame cells that hold an
/// alphanumeric character keep it; every other frame cell gets the highlight
/// glyph on the frame of window `num` and the neutral glyph elsewhere. Cells
/// outside the frame are untouched. With `num` outside 1..=4 no cell is
/// highlighted.
pub fn update_screen(screen: Screen, num: usize) -> (out: Screen)
    ensures
        grid_of(out) == update_grid(grid_of(screen), num as int),
{
    let ghost g = grid_of(screen);
    let ghost cell = |r: int, c: int| update_cell(g, num as int, r, c);
    let mut out = screen;
    let mut i: usize = 0;
    while i < BUFFER_HEIGHT
        invariant
            i <= BUFFER_HEIGHT,
            g == grid_of(screen),
            cell == |r: int, c: int| update_cell(g, num as int, r, c),
            scanned(out, screen, cell, i as int, 0),
        decreases BUFFER_HEIGHT - i,
    {
        let mut j: usize = 0;
        while j < BUFFER_WIDTH
            invariant
                i < BUFFER_HEIGHT,
                j <= BUFFER_WIDTH,
                g == grid_of(screen),
                cell == |r: int, c: int| update_cell(g, num as int, r, c),
                scanned(out, screen, cell, i as int, j as int),
            decreases BUFFER_WIDTH - j,
        {
            proof {
                lemma_grid_of(screen);
            }
            if border_at(i, j) {
                let current: char = get_cell(&out, i, j);
                let keep: bool = current.is_alphanumeric();
                let lit: bool = frame_at(num, i, j);
                out = set_cell(out, i, j, border_cell(current, keep, lit));
            }
            j += 1;
        }
        i += 1;
    }
    assert(grid_of(out) =~~= update_grid(g, num as int));
    out
}

/// One character of the name-entry prompt.
pub fn prompt_char(c: usize) -> (ch: char)
    requires
        c < PROMPT_LENGTH,
    ensures
        ch == prompt()[c as int],
{
    let text: [char; PROMPT_LENGTH] = [
        'F', '5', ' ', '-', ' ', 'F', 'i', 'l', 'e', 'n', 'a', 'm', 'e', ':', ' ',
    ];
    text[c]
}

/// Draws the initial layout over `screen`: the name-entry row with its prompt,
/// the labels F1 to F4 on the frame, and the frame itself with window 1 active.
pub fn split_screen(screen: Screen) -> (out: Screen)
    ensures
        grid_of(out) == split_grid(grid_of(screen)),
{
    let ghost g = grid_of(screen);
    proof {
        lemma_grid_of(screen);
    }
    let mut out = screen;
    let mut j: usize = 0;
    while j < BUFFER_WIDTH
        invariant
            j <= BUFFER_WIDTH,
            forall|c: int| 0 <= c < j ==> #[trigger] at(out, 0, c) == label_cell(g, 0, c),
            forall|r: int, c: int|
                in_grid(r, c) && r > 0 ==> #[trigger] at(out, r, c) == at(screen, r, c),
        decreases BUFFER_WIDTH - j,
    {
        let ch: char = if j < PROMPT_LENGTH {
            prompt_char(j)
        } else {
            BLANK
        };
        out = set_cell(out, 0, j, ch);
        j += 1;
    }
    let ghost prompted = out;
    let mut w: usize = 1;
    while w <= NUM_WINDOWS
        invariant
            1 <= w <= NUM_WINDOWS + 1,
            forall|r: int, c: int|
                in_grid(r, c) ==> #[trigger] at(out, r, c) == if 0 < labelled_window(r, c) < w {
                    'F'
                } else if 0 < labelled_window(r, c - 1) < w {
                    digit(labelled_window(r, c - 1))
                } else {
                    at(prompted, r, c)
                },
        decreases NUM_WINDOWS + 1 - w,
    {
        let row: usize = frame_row(w);
        let col: usize = frame_column(w) + LABEL_OFFSET;
        out = set_cell(out, row, col, 'F');
        out = set_cell(out, row, col + 1, digit_char(w));
        w += 1;
    }
    assert(grid_of(out) =~~= label_grid(g)) by {
        assert forall|r: int, c: int| in_grid(r, c) implies #[trigger] at(out, r, c) == label_cell(
            g,
            r,
            c,
        ) by {
            assert(g[r][c] == at(screen, r, c));
        }
    }
    update_screen(out, 1)
}

} // verus!
