//! A keyboard-driven shell that splits one character grid into four windows,
//! each able to browse stored programs, edit one, or run one on an interpreter
//! that the caller steps on the shell's behalf.
//!
//! The shell owns the grid and the state of the windows; the keyboard, the
//! display, the file store and the interpreters stay with the caller. Two
//! events drive it, and each runs to its end before the next is taken:
//!
//! - A keystroke goes to [`Kernel::key`], which answers with an
//!   [`event::Action`]: what the caller has to create, store, read or drop.
//!   A source that was read for editing comes back through
//!   [`Kernel::read_file_to_window`].
//! - A timer tick goes to [`Kernel::run_one_instruction`]. Where a program is
//!   due, the caller delivers the input it is handed, steps the interpreter
//!   with the [`KernelOutput`] as its sink, and reports the outcome to
//!   [`Kernel::finish_instruction`].
//!
//! After either, [`Kernel::draw`] takes the file store's listing and returns
//! the cells to draw highlighted over [`Kernel::screen`].
//!
//! Every contract is stated over [`model::Shell`], the state as a
//! mathematical value; [`laws`] holds what follows for all inputs.

pub mod glyph;
pub mod layout;
pub mod editor;
pub mod browser;
pub mod header;
pub mod entry;
pub mod status;
pub mod slot;
pub mod event;
pub mod model;
pub mod output;
pub mod kernel;
pub mod laws;

pub use crate::kernel::Kernel;
pub use crate::layout::{split_screen, update_screen};
pub use crate::output::KernelOutput;
