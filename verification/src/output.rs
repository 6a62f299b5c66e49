//! The output sink: what an interpreter prints during one step goes into the
//! interior of the window whose program is stepped.

use vstd::prelude::*;
use crate::editor::{print_bytes, print_sink};
use crate::layout::{grid_of, is_window, Grid, Screen};

verus! {

/// The sink of one step: the window that is stepped, the grid, and whether a
/// new line is pending in that window.
#[derive(Clone, Copy, Debug)]
pub struct KernelOutput {
    active: usize,
    screen: Screen,
    new_line: bool,
}

impl KernelOutput {
    /// The window that the sink writes into.
    pub closed spec fn window(&self) -> int {
        self.active as int
    }

    /// The grid as it stands.
    pub closed spec fn grid(&self) -> Grid {
        grid_of(self.screen)
    }

    /// Whether the next character starts a new row.
    pub closed spec fn pending(&self) -> bool {
        self.new_line
    }

    /// A sink for window `active` over `screen`.
    pub fn new(active: usize, screen: Screen, new_line: bool) -> (out: KernelOutput)
        ensures
            out.window() == active,
            out.grid() == grid_of(screen),
            out.pending() == new_line,
    {
        KernelOutput { active, screen, new_line }
    }

    /// The window, the grid and the pending-line marker of the sink.
    pub fn return_values(&self) -> (values: (usize, Screen, bool))
        ensures
            values.0 == self.window(),
            grid_of(values.1) == self.grid(),
            values.2 == self.pending(),
    {
        (self.active, self.screen, self.new_line)
    }

    /// Prints `chars` after the content of the sink's window. A line feed
    /// marks a new line as pending; every other byte lands as a character,
    /// at the start of the next row when a new line was pending, else at the
    /// next cell. What lands past the last cell is dropped. A sink whose
    /// window is none of the four prints nothing.
    pub fn print(&mut self, chars: &[u8])
        ensures
            final(self).window() == old(self).window(),
            is_window(old(self).window()) ==> final(self).grid() == print_sink(
                old(self).grid(),
                old(self).window(),
                old(self).pending(),
                chars@,
            ).grid,
            is_window(old(self).window()) ==> final(self).pending() == print_sink(
                old(self).grid(),
                old(self).window(),
                old(self).pending(),
                chars@,
            ).pending,
            !is_window(old(self).window()) ==> final(self).grid() == old(self).grid()
                && final(self).pending() == old(self).pending(),
    {
        if 1 <= self.active && self.active <= 4 {
            let (screen, new_line) = print_bytes(self.screen, self.active, self.new_line, chars);
            self.screen = screen;
            self.new_line = new_line;
        }
    }
}

} // verus!
