//! The header that marks a window as being edited: on the frame line above
//! the window, the key that ends the edit and the name of the program.

use vstd::prelude::*;
use crate::browser::{Name, MAX_FILENAME_BYTES};
use crate::glyph::{char_of, glyph_of, HIGHLIGHT};
use crate::layout::{
    at, frame_column, frame_left, frame_row, frame_top, grid_from, grid_of, in_grid, is_window,
    lemma_grid_of, set_cell, Grid, Screen,
};

verus! {

/// Columns from a window's left frame line to the start of its header.
pub const HEADER_START: usize = 2;

/// Columns from a window's left frame line to the name in its header.
pub const NAME_START: usize = 6;

/// Length of `name` from byte `k` on, up to its first zero byte.
pub open spec fn name_len_from(name: Seq<u8>, k: int) -> int
    decreases MAX_FILENAME_BYTES - k,
{
    if k >= MAX_FILENAME_BYTES || k < 0 {
        MAX_FILENAME_BYTES as int
    } else if name[k] == 0 {
        k
    } else {
        name_len_from(name, k + 1)
    }
}

/// Length of a name: the position of its first zero byte, 10 when it has none.
pub open spec fn name_len(name: Seq<u8>) -> int {
    name_len_from(name, 0)
}

/// The name without what follows its first zero byte.
pub open spec fn cut_name(name: Seq<u8>) -> Seq<u8> {
    Seq::new(
        MAX_FILENAME_BYTES as nat,
        |i: int|
            if i < name_len(name) {
                name[i]
            } else {
                0u8
            },
    )
}

/// The text that starts an editing header.
pub open spec fn header_text() -> Seq<char> {
    seq!['(', 'F', '6', ')']
}

/// Whether `(r, c)` is a header cell of window `w` for a name of length `len`.
pub open spec fn in_header(w: int, len: int, r: int, c: int) -> bool {
    r == frame_top(w) && frame_left(w) + HEADER_START <= c < frame_left(w) + NAME_START + len
}

/// The cell at `(r, c)` once the editing header of window `w` is written.
pub open spec fn header_cell(g: Grid, w: int, name: Seq<u8>, r: int, c: int) -> char {
    if in_header(w, name_len(name), r, c) {
        if c < frame_left(w) + NAME_START {
            header_text()[c - frame_left(w) - HEADER_START]
        } else {
            glyph_of(name[c - frame_left(w) - NAME_START])
        }
    } else {
        g[r][c]
    }
}

/// The grid with the editing header of window `w` written.
pub open spec fn header_grid(g: Grid, w: int, name: Seq<u8>) -> Grid {
    grid_from(|r: int, c: int| header_cell(g, w, name, r, c))
}

/// The cell at `(r, c)` once the editing header of window `w` is wiped.
pub open spec fn wiped_cell(g: Grid, w: int, name: Seq<u8>, r: int, c: int) -> char {
    if in_header(w, name_len(name), r, c) {
        HIGHLIGHT
    } else {
        g[r][c]
    }
}

/// The grid with the editing header of window `w` replaced by frame glyphs,
/// so that the next redraw of the frame takes the cells back.
pub open spec fn wiped_grid(g: Grid, w: int, name: Seq<u8>) -> Grid {
    grid_from(|r: int, c: int| wiped_cell(g, w, name, r, c))
}

/// Measures a name.
pub fn name_length(name: &Name) -> (len: usize)
    ensures
        len == name_len(name@),
        len <= MAX_FILENAME_BYTES,
{
    let mut k: usize = 0;
    while k < MAX_FILENAME_BYTES && name[k] != 0
        invariant
            k <= MAX_FILENAME_BYTES,
            name_len_from(name@, k as int) == name_len(name@),
        decreases MAX_FILENAME_BYTES - k,
    {
        k += 1;
    }
    k
}

/// Cuts a name at its first zero byte.
pub fn cut(name: &Name) -> (out: Name)
    ensures
        out@ == cut_name(name@),
{
    let len: usize = name_length(name);
    let mut out: Name = [0u8; MAX_FILENAME_BYTES];
    let mut i: usize = 0;
    while i < len
        invariant
            i <= len <= MAX_FILENAME_BYTES,
            len == name_len(name@),
            forall|j: int| 0 <= j < i ==> #[trigger] out[j] == name[j],
            forall|j: int| i <= j < MAX_FILENAME_BYTES ==> #[trigger] out[j] == 0u8,
        decreases len - i,
    {
        out[i] = name[i];
        i += 1;
    }
    assert(out@ =~= cut_name(name@));
    out
}

/// One character of the header text.
pub fn header_char(i: usize) -> (ch: char)
    requires
        i < NAME_START - HEADER_START,
    ensures
        ch == header_text()[i as int],
{
    let text: [char; 4] = ['(', 'F', '6', ')'];
    text[i]
}

/// Writes the editing header of window `w` onto its frame line.
pub fn write_header(screen: Screen, w: usize, name: &Name) -> (out: Screen)
    requires
        is_window(w as int),
    ensures
        grid_of(out) == header_grid(grid_of(screen), w as int, name@),
{
    let ghost g = grid_of(screen);
    proof {
        lemma_grid_of(screen);
    }
    let row: usize = frame_row(w);
    let left: usize = frame_column(w);
    let len: usize = name_length(name);
    let mut out = screen;
    let mut x: usize = HEADER_START;
    while x < NAME_START + len
        invariant
            HEADER_START <= x <= NAME_START + len,
            len == name_len(name@),
            len <= MAX_FILENAME_BYTES,
            is_window(w as int),
            row == frame_top(w as int),
            left == frame_left(w as int),
            forall|r: int, c: int| in_grid(r, c) ==> #[trigger] g[r][c] == at(screen, r, c),
            forall|r: int, c: int|
                in_grid(r, c) ==> #[trigger] at(out, r, c) == if r == row && c < left + x {
                    header_cell(g, w as int, name@, r, c)
                } else {
                    at(screen, r, c)
                },
        decreases NAME_START + len - x,
    {
        let ch: char = if x < NAME_START {
            header_char(x - HEADER_START)
        } else {
            char_of(name[x - NAME_START])
        };
        out = set_cell(out, row, left + x, ch);
        x += 1;
    }
    assert(grid_of(out) =~~= header_grid(g, w as int, name@));
    out
}

/// Replaces the editing header of window `w` by frame glyphs.
pub fn wipe_header(screen: Screen, w: usize, name: &Name) -> (out: Screen)
    requires
        is_window(w as int),
    ensures
        grid_of(out) == wiped_grid(grid_of(screen), w as int, name@),
{
    let ghost g = grid_of(screen);
    proof {
        lemma_grid_of(screen);
    }
    let row: usize = frame_row(w);
    let left: usize = frame_column(w);
    let len: usize = name_length(name);
    let mut out = screen;
    let mut x: usize = HEADER_START;
    while x < NAME_START + len
        invariant
            HEADER_START <= x <= NAME_START + len,
            len == name_len(name@),
            len <= MAX_FILENAME_BYTES,
            is_window(w as int),
            row == frame_top(w as int),
            left == frame_left(w as int),
            forall|r: int, c: int| in_grid(r, c) ==> #[trigger] g[r][c] == at(screen, r, c),
            forall|r: int, c: int|
                in_grid(r, c) ==> #[trigger] at(out, r, c) == if r == row && c < left + x {
                    wiped_cell(g, w as int, name@, r, c)
                } else {
                    at(screen, r, c)
                },
        decreases NAME_START + len - x,
    {
        out = set_cell(out, row, left + x, HIGHLIGHT);
        x += 1;
    }
    assert(grid_of(out) =~~= wiped_grid(g, w as int, name@));
    out
}

} // verus!
