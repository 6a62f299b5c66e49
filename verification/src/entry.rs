//! The name-entry field: ten slots after the prompt on the first row of the
//! grid, in which the name of a new program is typed.

use vstd::prelude::*;
use crate::browser::{Name, MAX_FILENAME_BYTES};
use crate::glyph::{byte_of, low_byte, BLANK};
use crate::layout::{
    at, get_cell, grid_from, grid_of, in_grid, lemma_grid_of, set_cell, with_cell, Grid, Screen,
    PROMPT_LENGTH,
};

verus! {

/// Column of the first slot, right after the prompt.
pub const ENTRY_START: usize = PROMPT_LENGTH;

/// Number of slots: the length of a program name.
pub const ENTRY_SLOTS: usize = MAX_FILENAME_BYTES;

/// The first blank slot at or after slot `k`, 10 when there is none.
pub open spec fn first_blank_from(g: Grid, k: int) -> int
    decreases ENTRY_SLOTS - k,
{
    if k >= ENTRY_SLOTS || k < 0 {
        ENTRY_SLOTS as int
    } else if g[0][ENTRY_START + k] == BLANK {
        k
    } else {
        first_blank_from(g, k + 1)
    }
}

/// The first blank slot, 10 when the field is full.
pub open spec fn first_blank(g: Grid) -> int {
    first_blank_from(g, 0)
}

/// The grid after `key` is typed into the field: it fills the first blank
/// slot, and is dropped when the field is full.
pub open spec fn typed_grid(g: Grid, key: char) -> Grid {
    if first_blank(g) < ENTRY_SLOTS {
        with_cell(g, 0, ENTRY_START + first_blank(g), key)
    } else {
        g
    }
}

/// The grid after a backspace in the field: the slot before the first blank
/// slot is blanked, where there is a blank slot with a slot before it.
pub open spec fn erased_grid(g: Grid) -> Grid {
    if 1 <= first_blank(g) < ENTRY_SLOTS {
        with_cell(g, 0, ENTRY_START + first_blank(g) - 1, BLANK)
    } else {
        g
    }
}

/// The name that the field holds: the low byte of each slot, blanks included.
pub open spec fn entry_name(g: Grid) -> Seq<u8> {
    Seq::new(ENTRY_SLOTS as nat, |k: int| low_byte(g[0][ENTRY_START + k]))
}

/// The grid with all slots of the field blank.
pub open spec fn blank_entry_grid(g: Grid) -> Grid {
    grid_from(
        |r: int, c: int|
            if r == 0 && ENTRY_START <= c < ENTRY_START + ENTRY_SLOTS {
                BLANK
            } else {
                g[r][c]
            },
    )
}

/// Finds the first blank slot.
pub fn first_blank_slot(screen: &Screen) -> (k: usize)
    ensures
        k == first_blank(grid_of(*screen)),
        k <= ENTRY_SLOTS,
{
    let ghost g = grid_of(*screen);
    proof {
        lemma_grid_of(*screen);
    }
    let mut k: usize = 0;
    while k < ENTRY_SLOTS && get_cell(screen, 0, ENTRY_START + k) != BLANK
        invariant
            k <= ENTRY_SLOTS,
            g == grid_of(*screen),
            first_blank_from(g, k as int) == first_blank(g),
        decreases ENTRY_SLOTS - k,
    {
        k += 1;
    }
    k
}

/// Types one character into the field.
pub fn type_in_entry(screen: Screen, key: char) -> (out: Screen)
    ensures
        grid_of(out) == typed_grid(grid_of(screen), key),
{
    let k: usize = first_blank_slot(&screen);
    if k < ENTRY_SLOTS {
        set_cell(screen, 0, ENTRY_START + k, key)
    } else {
        screen
    }
}

/// Erases the last character of the field.
pub fn erase_in_entry(screen: Screen) -> (out: Screen)
    ensures
        grid_of(out) == erased_grid(grid_of(screen)),
{
    let k: usize = first_blank_slot(&screen);
    if 1 <= k && k < ENTRY_SLOTS {
        set_cell(screen, 0, ENTRY_START + k - 1, BLANK)
    } else {
        screen
    }
}

/// Takes the name out of the field and blanks its slots.
pub fn take_entry(screen: Screen) -> (out: (Screen, Name))
    ensures
        grid_of(out.0) == blank_entry_grid(grid_of(screen)),
        out.1@ == entry_name(grid_of(screen)),
{
    let ghost g = grid_of(screen);
    proof {
        lemma_grid_of(screen);
    }
    let mut name: Name = [0u8; ENTRY_SLOTS];
    let mut grid = screen;
    let mut k: usize = 0;
    while k < ENTRY_SLOTS
        invariant
            k <= ENTRY_SLOTS,
            forall|r: int, c: int| in_grid(r, c) ==> #[trigger] g[r][c] == at(screen, r, c),
            forall|j: int| 0 <= j < k ==> #[trigger] name[j] == low_byte(g[0][ENTRY_START + j]),
            forall|r: int, c: int|
                in_grid(r, c) ==> #[trigger] at(grid, r, c) == if r == 0 && ENTRY_START <= c
                    < ENTRY_START + k {
                    BLANK
                } else {
                    at(screen, r, c)
                },
        decreases ENTRY_SLOTS - k,
    {
        name[k] = byte_of(get_cell(&grid, 0, ENTRY_START + k));
        grid = set_cell(grid, 0, ENTRY_START + k, BLANK);
        k += 1;
    }
    assert(grid_of(grid) =~~= blank_entry_grid(g));
    assert(name@ =~= entry_name(g));
    (grid, name)
}

} // verus!
