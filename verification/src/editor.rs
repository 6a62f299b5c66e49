//! The content editor: a window's interior seen as a line-wrapped canvas of
//! cells in row-major order. Typed keys, streamed program output and loaded
//! files all land on it by the same rules.

use vstd::prelude::*;
use crate::glyph::{BACKSPACE, BLANK, byte_of, char_of, glyph_of, LINE_FEED, low_byte};
use crate::layout::{
    at, cell_col, cell_index, cell_row, frame_column, frame_row, get_cell, grid_from, grid_of,
    in_grid, in_interior, interior_at, interior_cells, is_window, lemma_grid_of, set_cell,
    with_cell, Grid, Screen, FIRST_BORDER_ROW, INTERIOR_WIDTH, LAST_BORDER_ROW, MID_HEIGHT,
};

verus! {

/// Bytes of the buffer into which a window is captured.
pub const CAPTURE_BYTES: usize = 450;

/// End of the content among the first `n` interior cells of window `w`: one
/// past the last of them that is not blank, 0 when all are blank.
pub open spec fn scan_end(g: Grid, w: int, n: int) -> int
    decreases n,
{
    if n <= 0 {
        0
    } else if interior_at(g, w, n - 1) != BLANK {
        n
    } else {
        scan_end(g, w, n - 1)
    }
}

/// End of the content of window `w`: the index of the cell after its last
/// non-blank cell. Everything from there on is blank.
pub open spec fn content_end(g: Grid, w: int) -> int {
    scan_end(g, w, interior_cells(w))
}

/// First cell of the row after the one that holds cell `t`, or the number of
/// cells of the window when there is no such row.
pub open spec fn next_row(w: int, t: int) -> int {
    let start = (t / (INTERIOR_WIDTH as int) + 1) * INTERIOR_WIDTH;
    if start < interior_cells(w) {
        start
    } else {
        interior_cells(w)
    }
}

/// Where the next character lands: at the cursor, or at the start of the
/// following row when a new line is pending.
pub open spec fn landing(w: int, cursor: int, pending: bool) -> int {
    if pending {
        next_row(w, cursor)
    } else {
        cursor
    }
}

/// The grid with interior cell `k` of window `w` set to `ch`. A `k` outside the
/// interior leaves the grid as it is: what does not fit is dropped.
pub open spec fn put_interior(g: Grid, w: int, k: int, ch: char) -> Grid {
    if 0 <= k < interior_cells(w) {
        with_cell(g, cell_row(w, k), cell_col(w, k), ch)
    } else {
        g
    }
}

/// The grid with the interior of window `w` blanked.
pub open spec fn clear_grid(g: Grid, w: int) -> Grid {
    grid_from(
        |r: int, c: int|
            if in_interior(w, r, c) {
                BLANK
            } else {
                g[r][c]
            },
    )
}

/// The bytes that saving window `w` stores: the low byte of each interior
/// cell in row-major order, then zeros up to the buffer's size.
pub open spec fn captured(g: Grid, w: int) -> Seq<u8> {
    Seq::new(
        CAPTURE_BYTES as nat,
        |k: int|
            if k < interior_cells(w) {
                low_byte(interior_at(g, w, k))
            } else {
                0u8
            },
    )
}

/// The grid after one key reaches the editor of window `w`. Backspace blanks
/// the cell before the landing cell; enter blanks the first cell of the row
/// after it; any other key is written at the landing cell.
pub open spec fn edit_grid(g: Grid, w: int, pending: bool, key: char) -> Grid {
    let t = landing(w, content_end(g, w), pending);
    if key == BACKSPACE {
        put_interior(g, w, t - 1, BLANK)
    } else if key == LINE_FEED {
        put_interior(g, w, (t / (INTERIOR_WIDTH as int) + 1) * INTERIOR_WIDTH, BLANK)
    } else {
        put_interior(g, w, t, key)
    }
}

/// Whether a new line is pending after `key` reached the editor: only after enter.
pub open spec fn edit_pending(key: char) -> bool {
    key == LINE_FEED
}

/// The state of a stream of characters into a window: the grid so far, the
/// cursor, and whether a new line is pending.
pub struct Sink {
    pub grid: Grid,
    pub cursor: int,
    pub pending: bool,
}

/// The sink after one more character. A line feed only marks a new line as
/// pending; any other character lands, moves the cursor on by one cell, and
/// is dropped when it lands past the last cell.
pub open spec fn emit(st: Sink, w: int, ch: char) -> Sink {
    let t = landing(w, st.cursor, st.pending);
    if ch == LINE_FEED {
        Sink { grid: st.grid, cursor: t, pending: true }
    } else {
        Sink {
            grid: put_interior(st.grid, w, t, ch),
            cursor: if t < interior_cells(w) {
                t + 1
            } else {
                interior_cells(w)
            },
            pending: false,
        }
    }
}

/// The sink after the first `n` bytes of `text`.
pub open spec fn emit_all(st: Sink, w: int, text: Seq<u8>, n: int) -> Sink
    decreases n,
{
    if n <= 0 {
        st
    } else {
        emit(emit_all(st, w, text, n - 1), w, glyph_of(text[n - 1]))
    }
}

/// The sink after `text` is printed into window `w`, starting at the end of
/// the window's content.
pub open spec fn print_sink(g: Grid, w: int, pending: bool, text: Seq<u8>) -> Sink {
    emit_all(Sink { grid: g, cursor: content_end(g, w), pending }, w, text, text.len() as int)
}

/// The grid after `text` is loaded into window `w`: the interior is blanked
/// and the text rendered from its first cell, one row per line feed and one
/// cell per other byte, as far as it fits.
pub open spec fn load_grid(g: Grid, w: int, text: Seq<u8>) -> Grid {
    emit_all(
        Sink { grid: clear_grid(g, w), cursor: 0, pending: false },
        w,
        text,
        text.len() as int,
    ).grid
}

/// Number of interior cells of window `w`.
pub fn window_cells(w: usize) -> (n: usize)
    requires
        is_window(w as int),
    ensures
        n == interior_cells(w as int),
        n <= 374,
{
    let rows: usize = if w <= 2 {
        MID_HEIGHT - FIRST_BORDER_ROW - 1
    } else {
        LAST_BORDER_ROW - MID_HEIGHT - 1
    };
    rows * INTERIOR_WIDTH
}

/// Grid coordinates of interior cell `k` of window `w`.
pub fn interior_cell(w: usize, k: usize) -> (rc: (usize, usize))
    requires
        is_window(w as int),
        k < interior_cells(w as int),
    ensures
        rc.0 == cell_row(w as int, k as int),
        rc.1 == cell_col(w as int, k as int),
        in_grid(rc.0 as int, rc.1 as int),
        in_interior(w as int, rc.0 as int, rc.1 as int),
{
    (frame_row(w) + 1 + k / INTERIOR_WIDTH, frame_column(w) + 1 + k % INTERIOR_WIDTH)
}

/// The first cell of the row after cell `t`, capped at the window's size.
pub fn next_row_start(w: usize, t: usize) -> (s: usize)
    requires
        is_window(w as int),
        t <= interior_cells(w as int),
    ensures
        s == next_row(w as int, t as int),
        s <= interior_cells(w as int),
{
    let start: usize = (t / INTERIOR_WIDTH + 1) * INTERIOR_WIDTH;
    let cells: usize = window_cells(w);
    if start < cells {
        start
    } else {
        cells
    }
}

/// Finds the end of the content of window `w`.
pub fn content_end_of(screen: &Screen, w: usize) -> (end: usize)
    requires
        is_window(w as int),
    ensures
        end == content_end(grid_of(*screen), w as int),
        end <= interior_cells(w as int),
{
    let ghost g = grid_of(*screen);
    proof {
        lemma_grid_of(*screen);
    }
    let cells: usize = window_cells(w);
    let mut end: usize = 0;
    let mut k: usize = 0;
    while k < cells
        invariant
            is_window(w as int),
            cells == interior_cells(w as int),
            k <= cells,
            end <= k,
            end == scan_end(g, w as int, k as int),
            forall|r: int, c: int| in_grid(r, c) ==> #[trigger] g[r][c] == at(*screen, r, c),
        decreases cells - k,
    {
        let (r, c) = interior_cell(w, k);
        if get_cell(screen, r, c) != BLANK {
            end = k + 1;
        }
        k += 1;
    }
    end
}

/// Writes interior cell `k` of window `w`, or nothing when `k` is past the
/// window's last cell.
pub fn put_cell(screen: Screen, w: usize, k: usize, ch: char) -> (out: Screen)
    requires
        is_window(w as int),
    ensures
        grid_of(out) == put_interior(grid_of(screen), w as int, k as int, ch),
{
    if k < window_cells(w) {
        let (r, c) = interior_cell(w, k);
        set_cell(screen, r, c, ch)
    } else {
        screen
    }
}

/// Blanks the interior of window `w`.
pub fn clear_window(screen: Screen, w: usize) -> (out: Screen)
    requires
        is_window(w as int),
    ensures
        grid_of(out) == clear_grid(grid_of(screen), w as int),
{
    let ghost g = grid_of(screen);
    proof {
        lemma_grid_of(screen);
    }
    let cells: usize = window_cells(w);
    let mut out = screen;
    let mut k: usize = 0;
    while k < cells
        invariant
            is_window(w as int),
            cells == interior_cells(w as int),
            k <= cells,
            forall|r: int, c: int|
                in_grid(r, c) ==> #[trigger] at(out, r, c) == if in_interior(w as int, r, c)
                    && cell_index(w as int, r, c) < k {
                    BLANK
                } else {
                    at(screen, r, c)
                },
        decreases cells - k,
    {
        let (r, c) = interior_cell(w, k);
        out = set_cell(out, r, c, BLANK);
        k += 1;
    }
    assert(grid_of(out) =~~= clear_grid(g, w as int)) by {
        assert forall|r: int, c: int| in_grid(r, c) implies #[trigger] at(out, r, c)
            == clear_grid(g, w as int)[r][c] by {
            assert(g[r][c] == at(screen, r, c));
        }
    }
    out
}

/// Captures the interior of window `w` as the bytes to store.
pub fn capture_window(screen: &Screen, w: usize) -> (buffer: [u8; CAPTURE_BYTES])
    requires
        is_window(w as int),
    ensures
        buffer@ == captured(grid_of(*screen), w as int),
{
    let ghost g = grid_of(*screen);
    proof {
        lemma_grid_of(*screen);
    }
    let cells: usize = window_cells(w);
    let mut buffer: [u8; CAPTURE_BYTES] = [0u8; CAPTURE_BYTES];
    let mut k: usize = 0;
    while k < cells
        invariant
            is_window(w as int),
            cells == interior_cells(w as int),
            k <= cells,
            forall|r: int, c: int| in_grid(r, c) ==> #[trigger] g[r][c] == at(*screen, r, c),
            forall|j: int|
                0 <= j < k ==> #[trigger] buffer[j] == low_byte(interior_at(g, w as int, j)),
            forall|j: int| k <= j < CAPTURE_BYTES ==> #[trigger] buffer[j] == 0u8,
        decreases cells - k,
    {
        let (r, c) = interior_cell(w, k);
        buffer[k] = byte_of(get_cell(screen, r, c));
        k += 1;
    }
    assert(buffer@ =~= captured(g, w as int));
    buffer
}

/// Passes one key to the editor of window `w`. Returns the screen and whether
/// a new line is pending afterwards.
pub fn edit_window(screen: Screen, w: usize, pending: bool, key: char) -> (out: (Screen, bool))
    requires
        is_window(w as int),
    ensures
        grid_of(out.0) == edit_grid(grid_of(screen), w as int, pending, key),
        out.1 == edit_pending(key),
{
    let end: usize = content_end_of(&screen, w);
    let t: usize = if pending {
        next_row_start(w, end)
    } else {
        end
    };
    if key == BACKSPACE {
        if t == 0 {
            (screen, false)
        } else {
            (put_cell(screen, w, t - 1, BLANK), false)
        }
    } else if key == LINE_FEED {
        (put_cell(screen, w, (t / INTERIOR_WIDTH + 1) * INTERIOR_WIDTH, BLANK), true)
    } else {
        (put_cell(screen, w, t, key), false)
    }
}

/// Streams `text` into window `w` from the cursor `cursor`.
pub fn emit_bytes(screen: Screen, w: usize, cursor: usize, pending: bool, text: &[u8]) -> (out: (
    Screen,
    bool,
))
    requires
        is_window(w as int),
        cursor <= interior_cells(w as int),
    ensures
        ({
            let end = emit_all(
                Sink { grid: grid_of(screen), cursor: cursor as int, pending },
                w as int,
                text@,
                text@.len() as int,
            );
            grid_of(out.0) == end.grid && out.1 == end.pending
        }),
{
    let ghost start = Sink { grid: grid_of(screen), cursor: cursor as int, pending };
    let cells: usize = window_cells(w);
    let mut grid = screen;
    let mut at_cell: usize = cursor;
    let mut mark: bool = pending;
    let mut i: usize = 0;
    while i < text.len()
        invariant
            is_window(w as int),
            cells == interior_cells(w as int),
            i <= text.len(),
            at_cell <= cells,
            emit_all(start, w as int, text@, i as int) == (Sink {
                grid: grid_of(grid),
                cursor: at_cell as int,
                pending: mark,
            }),
        decreases text.len() - i,
    {
        let b: u8 = text[i];
        let t: usize = if mark {
            next_row_start(w, at_cell)
        } else {
            at_cell
        };
        if b == 10 {
            at_cell = t;
            mark = true;
        } else {
            grid = put_cell(grid, w, t, char_of(b));
            at_cell = if t < cells {
                t + 1
            } else {
                cells
            };
            mark = false;
        }
        i += 1;
    }
    (grid, mark)
}

/// Prints `text` into window `w` after the window's content.
pub fn print_bytes(screen: Screen, w: usize, pending: bool, text: &[u8]) -> (out: (Screen, bool))
    requires
        is_window(w as int),
    ensures
        grid_of(out.0) == print_sink(grid_of(screen), w as int, pending, text@).grid,
        out.1 == print_sink(grid_of(screen), w as int, pending, text@).pending,
{
    let cursor: usize = content_end_of(&screen, w);
    emit_bytes(screen, w, cursor, pending, text)
}

/// Loads `text` into window `w`: blanks the interior and renders the text
/// from the first cell. Text beyond the last cell is dropped.
pub fn load_text(screen: Screen, w: usize, text: &[u8]) -> (out: Screen)
    requires
        is_window(w as int),
    ensures
        grid_of(out) == load_grid(grid_of(screen), w as int, text@),
{
    let cleared = clear_window(screen, w);
    let (out, _) = emit_bytes(cleared, w, 0, false, text);
    out
}

} // verus!
