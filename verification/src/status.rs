//! The step counters, shown right of the windows: for each window its label
//! and, below it, how many steps its program has taken.

use vstd::prelude::*;
use crate::glyph::{digit, digit_char, BLANK};
use crate::layout::{
    at, grid_from, grid_of, in_grid, is_window, lemma_grid_of, set_cell, Grid, Screen,
    WINDOWS_WIDTH,
};

verus! {

/// The largest count a counter shows; it stays there.
pub const MAX_TICKS: usize = 9999;

/// Column of the first cell of a counter, right of the frame.
pub const STATUS_COLUMN: usize = WINDOWS_WIDTH + 1;

/// Cell `i` of the four-cell field that shows `n`: the number right-justified,
/// with blanks in place of leading zeros.
pub open spec fn tick_field(n: int, i: int) -> char {
    if i == 3 {
        digit(n % 10)
    } else if i == 2 {
        if n >= 10 {
            digit(n / 10 % 10)
        } else {
            BLANK
        }
    } else if i == 1 {
        if n >= 100 {
            digit(n / 100 % 10)
        } else {
            BLANK
        }
    } else {
        if n >= 1000 {
            digit(n / 1000 % 10)
        } else {
            BLANK
        }
    }
}

/// The cell at `(r, c)` once the counter of window `w` is drawn: the label in
/// row `2 * (w - 1)`, the count in the row below.
pub open spec fn counter_cell(g: Grid, w: int, ticks: int, r: int, c: int) -> char {
    if r == 2 * (w - 1) && c == STATUS_COLUMN {
        'F'
    } else if r == 2 * (w - 1) && c == STATUS_COLUMN + 1 {
        digit(w)
    } else if r == 2 * (w - 1) + 1 && STATUS_COLUMN <= c < STATUS_COLUMN + 4 {
        tick_field(ticks, c - STATUS_COLUMN)
    } else {
        g[r][c]
    }
}

/// The grid with the counter of window `w` drawn.
pub open spec fn counter_grid(g: Grid, w: int, ticks: int) -> Grid {
    grid_from(|r: int, c: int| counter_cell(g, w, ticks, r, c))
}

/// The grid with the counters of all four windows drawn.
pub open spec fn status_grid(g: Grid, ticks: Seq<int>) -> Grid {
    counter_grid(
        counter_grid(counter_grid(counter_grid(g, 1, ticks[0]), 2, ticks[1]), 3, ticks[2]),
        4,
        ticks[3],
    )
}

/// The four cells that show the count `n`.
pub fn tick_numbers(n: usize) -> (field: (char, char, char, char))
    requires
        n <= MAX_TICKS,
    ensures
        field.0 == tick_field(n as int, 0),
        field.1 == tick_field(n as int, 1),
        field.2 == tick_field(n as int, 2),
        field.3 == tick_field(n as int, 3),
{
    let spot4: char = digit_char(n % 10);
    let spot3: char = if n >= 10 {
        digit_char(n / 10 % 10)
    } else {
        BLANK
    };
    let spot2: char = if n >= 100 {
        digit_char(n / 100 % 10)
    } else {
        BLANK
    };
    let spot1: char = if n >= 1000 {
        digit_char(n / 1000 % 10)
    } else {
        BLANK
    };
    (spot1, spot2, spot3, spot4)
}

/// Draws the label and the count of window `w`.
pub fn draw_counter(screen: Screen, w: usize, ticks: usize) -> (out: Screen)
    requires
        is_window(w as int),
        ticks <= MAX_TICKS,
    ensures
        grid_of(out) == counter_grid(grid_of(screen), w as int, ticks as int),
{
    let ghost g = grid_of(screen);
    proof {
        lemma_grid_of(screen);
    }
    let row: usize = 2 * (w - 1);
    let field = tick_numbers(ticks);
    let mut out = set_cell(screen, row, STATUS_COLUMN, 'F');
    out = set_cell(out, row, STATUS_COLUMN + 1, digit_char(w));
    out = set_cell(out, row + 1, STATUS_COLUMN, field.0);
    out = set_cell(out, row + 1, STATUS_COLUMN + 1, field.1);
    out = set_cell(out, row + 1, STATUS_COLUMN + 2, field.2);
    out = set_cell(out, row + 1, STATUS_COLUMN + 3, field.3);
    assert(grid_of(out) =~~= counter_grid(g, w as int, ticks as int)) by {
        assert forall|r: int, c: int| in_grid(r, c) implies #[trigger] at(out, r, c)
            == counter_cell(g, w as int, ticks as int, r, c) by {
            assert(g[r][c] == at(screen, r, c));
        }
    }
    out
}

} // verus!
