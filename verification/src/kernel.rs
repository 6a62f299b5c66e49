//! The shell itself: the grid, the four windows with their process slots,
//! the cached listing and the scheduler's turn, behind the two entry points
//! that a keystroke and a timer tick come in by.

use vstd::prelude::*;
use crate::browser::{
    lemma_names_of, moved_cursor, name_of, names_of, populate, push_highlight, Direction, Name,
    NameTable, Plot, MAX_FILENAME_BYTES, MAX_FILES_STORED,
};
use crate::editor::{
    capture_window, captured, clear_grid, clear_window, edit_grid, edit_pending, edit_window,
    load_text, print_bytes, CAPTURE_BYTES,
};
use crate::entry::{entry_name, erase_in_entry, take_entry, type_in_entry};
use crate::event::{Action, Key, RawKey, TickOutcome};
use crate::glyph::{alphanumeric, is_drawable, BACKSPACE, LINE_FEED};
use crate::header::{cut, cut_name, header_grid, wipe_header, wiped_grid, write_header};
use crate::layout::{
    blank_screen, grid_of, is_window, lemma_grid_of, split_screen, update_screen, Screen,
    NAME_ENTRY, NUM_WINDOWS,
};
use crate::model::{
    after_key, after_raw, after_unicode, answered, any_waiting, browsed, can_load, committed,
    delivery, done_text, drawn, due, edited, f6_request, highlights, initial_shell, kept_count,
    key_request, lemma_windows_keep_rules, loaded, polled, raw_request, refreshed, released,
    shell_wf, started, stepped, switched, unicode_request, window_highlight, window_wf,
    with_status, with_window, Shell, WindowModel,
};
use crate::output::KernelOutput;
use crate::slot::{ProcessSlot, SlotModel, MAX_INPUT_CHARS};
use crate::status::{draw_counter, tick_field, tick_numbers};

verus! {

/// The browsing and editing state of one window.
#[derive(Clone, Copy, Debug)]
pub struct Window {
    /// The name of the selected program.
    pub name: Name,
    /// The position of the selected program in the listing.
    pub cursor: usize,
    /// The window's interior is an edit buffer.
    pub editing: bool,
}

impl View for Window {
    type V = WindowModel;

    open spec fn view(&self) -> WindowModel {
        WindowModel { name: self.name@, cursor: self.cursor as int, editing: self.editing }
    }
}

/// The views of four windows.
pub open spec fn windows_of(a: [Window; NUM_WINDOWS]) -> Seq<WindowModel> {
    Seq::new(NUM_WINDOWS as nat, |i: int| a[i]@)
}

/// The views of four slots.
pub open spec fn slots_of(a: [ProcessSlot; NUM_WINDOWS]) -> Seq<SlotModel> {
    Seq::new(NUM_WINDOWS as nat, |i: int| a[i]@)
}

/// What one tick hands to the caller: the sink for the program's output and,
/// where input was committed, the input to deliver before the step.
pub struct Step {
    /// The sink that the interpreter prints into during the step.
    pub output: KernelOutput,
    /// The input to deliver to the interpreter before the step, if any.
    pub input: Option<Vec<char>>,
}

/// The shell.
pub struct Kernel {
    screen: Screen,
    active: usize,
    windows: [Window; NUM_WINDOWS],
    slots: [ProcessSlot; NUM_WINDOWS],
    file_count: usize,
    names: NameTable,
    turn: usize,
    halted: bool,
}

impl View for Kernel {
    type V = Shell;

    closed spec fn view(&self) -> Shell {
        Shell {
            grid: grid_of(self.screen),
            active: self.active as int,
            windows: windows_of(self.windows),
            slots: slots_of(self.slots),
            file_count: self.file_count as int,
            names: names_of(self.names),
            turn: self.turn as int,
            halted: self.halted,
        }
    }
}

impl Kernel {
    /// Whether the shell is in a state that its own functions leave it in.
    pub closed spec fn wf(&self) -> bool {
        &&& shell_wf(self@)
        &&& forall|i: int|
            0 <= i < NUM_WINDOWS ==> (#[trigger] self.slots[i]).input_len <= MAX_INPUT_CHARS
    }

    /// A shell in a state of its own making obeys the rules of the model.
    pub proof fn lemma_wf(&self)
        requires
            self.wf(),
        ensures
            shell_wf(self@),
    {
    }

    /// The grid, for drawing.
    pub fn screen(&self) -> (screen: Screen)
        ensures
            grid_of(screen) == self@.grid,
    {
        self.screen
    }

    /// The active window: 1 to 4, or 5 for the name-entry row.
    pub fn active(&self) -> (active: usize)
        ensures
            active == self@.active,
    {
        self.active
    }

    /// The browsing and editing state of window `w`, if `w` is a window.
    pub fn window(&self, w: usize) -> (window: Option<Window>)
        ensures
            window is Some <==> is_window(w as int),
            window matches Some(win) ==> win@ == self@.windows[w - 1],
    {
        if 1 <= w && w <= NUM_WINDOWS {
            Some(self.windows[w - 1])
        } else {
            None
        }
    }

    /// The process slot of window `w`, if `w` is a window.
    pub fn slot(&self, w: usize) -> (slot: Option<ProcessSlot>)
        ensures
            slot is Some <==> is_window(w as int),
            slot matches Some(s) ==> s@ == self@.slots[w - 1],
    {
        if 1 <= w && w <= NUM_WINDOWS {
            Some(self.slots[w - 1])
        } else {
            None
        }
    }

    /// Number of programs in the cached listing.
    pub fn file_count(&self) -> (count: usize)
        ensures
            count == self@.file_count,
    {
        self.file_count
    }

    /// The window that is offered a step at the next tick, counted from 0.
    pub fn turn(&self) -> (turn: usize)
        ensures
            turn == self@.turn,
    {
        self.turn
    }

    /// Whether an interpreter fault has halted the shell.
    pub fn is_halted(&self) -> (halted: bool)
        ensures
            halted == self@.halted,
    {
        self.halted
    }

    /// Whether any program waits for input.
    pub fn waiting_check(&self) -> (waiting: bool)
        ensures
            waiting == any_waiting(self@),
    {
        let waiting: bool = self.slots[0].awaiting_input || self.slots[1].awaiting_input
            || self.slots[2].awaiting_input || self.slots[3].awaiting_input;
        proof {
            if !waiting {
                assert forall|i: int| 0 <= i < NUM_WINDOWS implies !(#[trigger] self@.slots[i])
                    .awaiting_input by {
                    assert(self@.slots[i] == self.slots[i]@);
                }
            } else {
                assert(self@.slots[0] == self.slots[0]@);
                assert(self@.slots[1] == self.slots[1]@);
                assert(self@.slots[2] == self.slots[2]@);
                assert(self@.slots[3] == self.slots[3]@);
            }
        }
        waiting
    }

    /// Makes window `num` the active one and redraws the frame for it,
    /// unless it is active already or the active window is being edited.
    fn update_active(&mut self, num: usize)
        requires
            old(self).wf(),
            1 <= num <= NAME_ENTRY,
        ensures
            final(self).wf(),
            final(self)@ == switched(old(self)@, num as int),
    {
        let editing: bool = self.active <= NUM_WINDOWS && self.windows[self.active - 1].editing;
        if self.active != num && !editing {
            self.active = num;
            self.screen = update_screen(self.screen, num);
            proof {
                lemma_grid_of(self.screen);
                lemma_windows_keep_rules(old(self)@, self@);
            }
        }
    }

    /// Copies the name under the cursor of the active window into the
    /// window's name buffer.
    fn move_highlight(&mut self)
        requires
            is_window(old(self).active as int),
            old(self).windows[old(self).active - 1].cursor < MAX_FILES_STORED,
        ensures
            ({
                let i = old(self)@.active - 1;
                let win = old(self)@.windows[i];
                final(self)@ == with_window(
                    old(self)@,
                    i,
                    WindowModel { name: old(self)@.names[win.cursor], ..win },
                )
            }),
            final(self).slots == old(self).slots,
    {
        let i: usize = self.active - 1;
        let mut win: Window = self.windows[i];
        win.name = name_of(&self.names, win.cursor);
        self.windows[i] = win;
        proof {
            let before = old(self)@.windows[i as int];
            assert(self@.windows =~= old(self)@.windows.update(
                i as int,
                WindowModel { name: old(self)@.names[before.cursor], ..before },
            ));
        }
    }

    /// Moves the cursor of the active window one step, where that window
    /// browses, and selects the name under it.
    fn highlight(&mut self, dir: Direction)
        requires
            old(self).wf(),
        ensures
            final(self).wf(),
            final(self)@ == browsed(old(self)@, dir),
    {
        if 1 <= self.active && self.active <= NUM_WINDOWS && !self.windows[self.active
            - 1].editing {
            let i: usize = self.active - 1;
            assert(window_wf(self@, i as int));
            let mut win: Window = self.windows[i];
            win.cursor = moved_cursor(win.cursor, self.file_count, dir);
            self.windows[i] = win;
            self.move_highlight();
            proof {
                lemma_grid_of(self.screen);
                assert(self@.windows =~= browsed(old(self)@, dir).windows);
                lemma_windows_keep_rules(old(self)@, self@);
            }
        }
    }

    /// The shell as it starts: the initial layout on a blank grid, window 1
    /// active, an empty listing, nothing edited and nothing running.
    pub fn new() -> (kernel: Kernel)
        ensures
            kernel.wf(),
            kernel@ == initial_shell(),
    {
        let screen = split_screen(blank_screen());
        let window = Window { name: [0u8; MAX_FILENAME_BYTES], cursor: 0, editing: false };
        let slot = ProcessSlot::new();
        let kernel = Kernel {
            screen,
            active: 1,
            windows: [window; NUM_WINDOWS],
            slots: [slot; NUM_WINDOWS],
            file_count: 0,
            names: [[0u8; MAX_FILENAME_BYTES]; MAX_FILES_STORED],
            turn: 0,
            halted: false,
        };
        proof {
            lemma_grid_of(kernel.screen);
            lemma_names_of(kernel.names);
            assert(kernel@.windows =~~= initial_shell().windows);
            assert(kernel@.slots =~~= initial_shell().slots);
            assert(kernel@.names =~~= initial_shell().names);
            assert(kernel@ =~~= initial_shell());
            assert forall|i: int| 0 <= i < NUM_WINDOWS implies #[trigger] window_wf(kernel@, i) by {
                assert(kernel@.windows[i].name =~= kernel@.names[0]);
            }
        }
        kernel
    }

    /// Takes the name out of the name-entry field, for the program to create.
    fn create_file(&mut self) -> (name: Name)
        requires
            old(self).wf(),
        ensures
            final(self).wf(),
            final(self)@ == committed(old(self)@),
            name@ == entry_name(old(self)@.grid),
    {
        let (screen, name) = take_entry(self.screen);
        self.screen = screen;
        proof {
            lemma_grid_of(self.screen);
            lemma_windows_keep_rules(old(self)@, self@);
        }
        name
    }

    /// Captures the interior of the active window and blanks it.
    fn empty_screen(&mut self) -> (buffer: [u8; CAPTURE_BYTES])
        requires
            old(self).wf(),
            is_window(old(self)@.active),
        ensures
            final(self).wf(),
            final(self)@ == (Shell {
                grid: clear_grid(old(self)@.grid, old(self)@.active),
                ..old(self)@
            }),
            buffer@ == captured(old(self)@.grid, old(self)@.active),
    {
        let buffer = capture_window(&self.screen, self.active);
        self.screen = clear_window(self.screen, self.active);
        proof {
            lemma_grid_of(self.screen);
            lemma_windows_keep_rules(old(self)@, self@);
        }
        buffer
    }

    /// Removes the editing header of the active window and returns the name
    /// under which the edit is stored.
    fn clear_editing(&mut self) -> (name: Name)
        requires
            old(self).wf(),
            is_window(old(self)@.active),
        ensures
            final(self).wf(),
            final(self)@ == (Shell {
                grid: wiped_grid(
                    old(self)@.grid,
                    old(self)@.active,
                    old(self)@.windows[old(self)@.active - 1].name,
                ),
                ..old(self)@
            }),
            name@ == cut_name(old(self)@.windows[old(self)@.active - 1].name),
    {
        let win: Window = self.windows[self.active - 1];
        self.screen = wipe_header(self.screen, self.active, &win.name);
        proof {
            lemma_grid_of(self.screen);
            lemma_windows_keep_rules(old(self)@, self@);
        }
        cut(&win.name)
    }

    /// Puts the active window into editing mode and writes its header.
    fn setup_editing_window(&mut self)
        requires
            old(self).wf(),
            is_window(old(self)@.active),
            !old(self)@.slots[old(self)@.active - 1].running,
        ensures
            final(self).wf(),
            final(self)@ == (Shell {
                grid: header_grid(
                    old(self)@.grid,
                    old(self)@.active,
                    old(self)@.windows[old(self)@.active - 1].name,
                ),
                windows: old(self)@.windows.update(
                    old(self)@.active - 1,
                    WindowModel { editing: true, ..old(self)@.windows[old(self)@.active - 1] },
                ),
                ..old(self)@
            }),
    {
        let i: usize = self.active - 1;
        let mut win: Window = self.windows[i];
        win.editing = true;
        self.windows[i] = win;
        self.screen = write_header(self.screen, self.active, &win.name);
        proof {
            lemma_grid_of(self.screen);
            assert(self@.windows =~= old(self)@.windows.update(
                i as int,
                WindowModel { editing: true, ..old(self)@.windows[i as int] },
            ));
            lemma_windows_keep_rules(old(self)@, self@);
        }
    }

    /// Whether the active window can load its selected program.
    fn can_load_now(&self) -> (b: bool)
        requires
            self.wf(),
        ensures
            b == can_load(self@),
    {
        1 <= self.active && self.active <= NUM_WINDOWS && !self.halted && self.file_count > 0
            && !self.windows[self.active - 1].editing && !self.slots[self.active - 1].running
    }

    /// Takes the source of the selected program into the editor of the
    /// active window: the interior is blanked, the text rendered from its
    /// first cell as far as it fits, the editing header written, and the
    /// window is in editing mode. Nothing happens where the active window
    /// cannot load a program: in the name-entry row, with an empty listing,
    /// while the window is edited or its program runs, or once the shell
    /// has halted.
    pub fn read_file_to_window(&mut self, contents: &[u8])
        requires
            old(self).wf(),
        ensures
            final(self).wf(),
            final(self)@ == loaded(old(self)@, contents@),
    {
        if self.can_load_now() {
            let i: usize = self.active - 1;
            self.screen = load_text(self.screen, self.active, contents);
            let mut slot: ProcessSlot = self.slots[i];
            slot.pending_line = false;
            self.slots[i] = slot;
            proof {
                lemma_grid_of(self.screen);
                assert(self@.slots =~= old(self)@.slots.update(
                    i as int,
                    SlotModel { pending_line: false, ..old(self)@.slots[i as int] },
                ));
                lemma_windows_keep_rules(old(self)@, self@);
            }
            self.setup_editing_window();
        }
    }

    /// Passes one key to the editor of window `active`.
    fn edit(&mut self, key: char, active: usize)
        requires
            old(self).wf(),
            is_window(active as int),
        ensures
            final(self).wf(),
            final(self)@ == (Shell {
                grid: edit_grid(
                    old(self)@.grid,
                    active as int,
                    old(self)@.slots[active - 1].pending_line,
                    key,
                ),
                slots: old(self)@.slots.update(
                    active - 1,
                    SlotModel {
                        pending_line: edit_pending(key),
                        ..old(self)@.slots[active - 1]
                    },
                ),
                ..old(self)@
            }),
            final(self).slots[active - 1] == (ProcessSlot {
                pending_line: edit_pending(key),
                ..old(self).slots[active - 1]
            }),
    {
        let i: usize = active - 1;
        let mut slot: ProcessSlot = self.slots[i];
        let (screen, pending) = edit_window(self.screen, active, slot.pending_line, key);
        self.screen = screen;
        slot.pending_line = pending;
        self.slots[i] = slot;
        proof {
            lemma_grid_of(self.screen);
            assert(self@.slots =~= old(self)@.slots.update(
                i as int,
                SlotModel {
                    pending_line: edit_pending(key),
                    ..old(self)@.slots[i as int]
                },
            ));
            lemma_windows_keep_rules(old(self)@, self@);
        }
    }

    /// Starts the selected program of the active window: blanks the
    /// interior and sets the slot running.
    fn run(&mut self)
        requires
            old(self).wf(),
            can_load(old(self)@),
        ensures
            final(self).wf(),
            final(self)@ == started(old(self)@),
    {
        let i: usize = self.active - 1;
        assert(window_wf(self@, i as int));
        let ticks: usize = self.slots[i].ticks;
        self.screen = clear_window(self.screen, self.active);
        self.slots[i] = ProcessSlot::started(ticks);
        proof {
            lemma_grid_of(self.screen);
            assert(self@.slots =~= started(old(self)@).slots);
            lemma_windows_keep_rules(old(self)@, self@);
        }
    }

    /// Gives the active window back to the browser and says what the caller
    /// has to store or drop.
    fn release(&mut self) -> (action: Action)
        requires
            old(self).wf(),
            is_window(old(self)@.active),
        ensures
            final(self).wf(),
            final(self)@ == released(old(self)@),
            action@ == f6_request(old(self)@),
    {
        let a: usize = self.active;
        let i: usize = a - 1;
        let action: Action = if self.windows[i].editing {
            let contents = self.empty_screen();
            let name = self.clear_editing();
            Action::SaveFile { window: a, name, contents }
        } else {
            let _ = self.empty_screen();
            Action::DropProgram { window: a }
        };
        self.screen = update_screen(self.screen, a);
        self.screen = populate(self.screen, &self.names);
        self.windows[i] = Window { name: name_of(&self.names, 0), cursor: 0, editing: false };
        self.slots[i] = ProcessSlot::new();
        proof {
            lemma_grid_of(self.screen);
            assert(self@.windows =~= released(old(self)@).windows);
            assert(self@.slots =~= released(old(self)@).slots);
            lemma_windows_keep_rules(old(self)@, self@);
        }
        action
    }

    /// Handles a function key or an arrow. F1 to F4 make a window active and
    /// F5 the name-entry row, unless the active window is being edited. F6
    /// commits the name in the name-entry row, or ends the edit of the
    /// active window, or drops its program; the window returns to the
    /// browser with an idle slot. Arrows move the cursor of the active
    /// window while it browses. A halted shell ignores keys.
    pub fn handle_raw(&mut self, key: RawKey) -> (action: Action)
        requires
            old(self).wf(),
        ensures
            final(self).wf(),
            final(self)@ == after_raw(old(self)@, key),
            action@ == raw_request(old(self)@, key),
    {
        if self.halted {
            return Action::Nothing;
        }
        match key {
            RawKey::F1 => {
                self.update_active(1);
                Action::Nothing
            },
            RawKey::F2 => {
                self.update_active(2);
                Action::Nothing
            },
            RawKey::F3 => {
                self.update_active(3);
                Action::Nothing
            },
            RawKey::F4 => {
                self.update_active(4);
                Action::Nothing
            },
            RawKey::F5 => {
                self.update_active(5);
                Action::Nothing
            },
            RawKey::F6 => {
                if self.active == NAME_ENTRY {
                    let name = self.create_file();
                    Action::CreateFile { name }
                } else {
                    self.release()
                }
            },
            RawKey::ArrowRight => {
                self.highlight(Direction::Right);
                Action::Nothing
            },
            RawKey::ArrowLeft => {
                self.highlight(Direction::Left);
                Action::Nothing
            },
            RawKey::ArrowDown => {
                self.highlight(Direction::Down);
                Action::Nothing
            },
            RawKey::ArrowUp => {
                self.highlight(Direction::Up);
                Action::Nothing
            },
            RawKey::Other => Action::Nothing,
        }
    }

    /// Types one character for the program of the active window, which
    /// waits for input.
    fn answer(&mut self, key: char)
        requires
            old(self).wf(),
            !old(self)@.halted,
            is_window(old(self)@.active),
            old(self)@.slots[old(self)@.active - 1].awaiting_input,
        ensures
            final(self).wf(),
            final(self)@ == answered(old(self)@, key),
    {
        let a: usize = self.active;
        let i: usize = a - 1;
        assert(window_wf(self@, i as int));
        if is_drawable(key) {
            assert(key != LINE_FEED && key != BACKSPACE);
            if self.slots[i].input_len < MAX_INPUT_CHARS {
                self.edit(key, a);
                let ghost mid = *self;
                let mut slot: ProcessSlot = self.slots[i];
                assert(slot@.input.len() == slot.input_len);
                assert(slot@.input == old(self)@.slots[i as int].input);
                slot.push_input(key);
                self.slots[i] = slot;
                proof {
                    lemma_grid_of(self.screen);
                    let want = answered(old(self)@, key);
                    assert forall|j: int| 0 <= j < NUM_WINDOWS implies self@.slots[j]
                        == want.slots[j] by {
                        if j != i {
                            assert(self.slots[j] == mid.slots[j]);
                            assert(mid@.slots[j] == mid.slots[j]@);
                        } else {
                            assert(self@.slots[j] == slot@);
                        }
                    }
                    assert(self@.slots =~= want.slots);
                    lemma_windows_keep_rules(old(self)@, self@);
                }
            }
        } else if key == LINE_FEED {
            let mut slot: ProcessSlot = self.slots[i];
            slot.awaiting_input = false;
            slot.input_ready = true;
            slot.pending_line = true;
            self.slots[i] = slot;
            proof {
                lemma_grid_of(self.screen);
                assert(self@.slots =~= answered(old(self)@, key).slots);
                lemma_windows_keep_rules(old(self)@, self@);
            }
        }
    }

    /// Handles a character key, given whether the character is
    /// alphanumeric. In the name-entry row an alphanumeric character fills
    /// the first blank slot, backspace clears the slot before it, and enter
    /// commits the name. Else, where the program of the active window waits
    /// for input, a drawable character is echoed and kept for it, and enter
    /// hands over what was typed. Else, where the active window is edited,
    /// drawable characters, backspace and enter go to the editor. Else `e`
    /// asks for the source of the selected program, and `r` starts it.
    /// A halted shell ignores keys.
    pub fn handle_unicode(&mut self, key: char, alnum: bool) -> (action: Action)
        requires
            old(self).wf(),
        ensures
            final(self).wf(),
            final(self)@ == after_unicode(old(self)@, key, alnum),
            action@ == unicode_request(old(self)@, key, alnum),
    {
        if self.halted {
            return Action::Nothing;
        }
        if self.active == NAME_ENTRY {
            if alnum {
                self.screen = type_in_entry(self.screen, key);
                proof {
                    lemma_grid_of(self.screen);
                    lemma_windows_keep_rules(old(self)@, self@);
                }
                Action::Nothing
            } else if key == BACKSPACE {
                self.screen = erase_in_entry(self.screen);
                proof {
                    lemma_grid_of(self.screen);
                    lemma_windows_keep_rules(old(self)@, self@);
                }
                Action::Nothing
            } else if key == LINE_FEED {
                let name = self.create_file();
                Action::CreateFile { name }
            } else {
                Action::Nothing
            }
        } else {
            let a: usize = self.active;
            let i: usize = a - 1;
            if self.slots[i].awaiting_input {
                self.answer(key);
                Action::Nothing
            } else if self.windows[i].editing {
                if is_drawable(key) || key == BACKSPACE || key == LINE_FEED {
                    self.edit(key, a);
                }
                Action::Nothing
            } else if key == 'e' && self.can_load_now() {
                Action::LoadSource { window: a, name: self.windows[i].name }
            } else if key == 'r' && self.can_load_now() {
                let name: Name = self.windows[i].name;
                self.run();
                Action::StartProgram { window: a, name }
            } else {
                Action::Nothing
            }
        }
    }

    /// Handles one keystroke and says what the caller has to do for it with
    /// the file store or the interpreters. The caller redraws afterwards.
    pub fn key(&mut self, key: Key) -> (action: Action)
        requires
            old(self).wf(),
        ensures
            final(self).wf(),
            final(self)@ == after_key(old(self)@, key, key_alnum(key)),
            action@ == key_request(old(self)@, key, key_alnum(key)),
    {
        match key {
            Key::Raw(code) => self.handle_raw(code),
            Key::Unicode(c) => {
                let alnum: bool = c.is_alphanumeric();
                self.handle_unicode(c, alnum)
            },
        }
    }

    /// Shows the file store's listing to the shell. Where `force` is set or
    /// the count differs from the cached one, the listing is cached and laid
    /// into every window, and each window's cursor and name buffer are
    /// brought in line with it. At most thirty names are kept.
    pub fn add_files(&mut self, force: bool, count: usize, names: &NameTable)
        requires
            old(self).wf(),
        ensures
            final(self).wf(),
            final(self)@ == refreshed(old(self)@, force, count as int, names_of(*names)),
    {
        let kept: usize = if count < MAX_FILES_STORED { count } else { MAX_FILES_STORED };
        if force || kept != self.file_count {
            self.file_count = kept;
            self.names = *names;
            self.screen = populate(self.screen, names);
            let ghost want = refreshed(old(self)@, force, count as int, names_of(*names));
            let ghost filled = self.screen;
            proof {
                assert forall|j: int| 0 <= j < NUM_WINDOWS implies (#[trigger] old(
                    self,
                ).windows[j]).cursor < MAX_FILES_STORED by {
                    assert(window_wf(old(self)@, j));
                }
            }
            let mut i: usize = 0;
            while i < NUM_WINDOWS
                invariant
                    i <= NUM_WINDOWS,
                    kept == kept_count(count as int),
                    kept <= MAX_FILES_STORED,
                    self.names == *names,
                    self.slots == old(self).slots,
                    self.screen == filled,
                    self.active == old(self).active,
                    self.turn == old(self).turn,
                    self.halted == old(self).halted,
                    self.file_count == kept,
                    want == refreshed(old(self)@, force, count as int, names_of(*names)),
                    force || kept != old(self).file_count,
                    forall|j: int| 0 <= j < i ==> (#[trigger] self.windows[j])@ == want.windows[j],
                    forall|j: int|
                        i <= j < NUM_WINDOWS ==> #[trigger] self.windows[j] == old(self).windows[j],
                    forall|j: int|
                        0 <= j < NUM_WINDOWS ==> (#[trigger] old(self).windows[j]).cursor
                            < MAX_FILES_STORED,
                decreases NUM_WINDOWS - i,
            {
                let mut win: Window = self.windows[i];
                if win.cursor >= kept {
                    win.cursor = 0;
                }
                win.name = name_of(&self.names, win.cursor);
                self.windows[i] = win;
                i += 1;
            }
            proof {
                lemma_grid_of(self.screen);
                lemma_names_of(self.names);
                assert(self@.windows =~= want.windows);
                assert(self@ =~~= want);
                lemma_windows_keep_rules(old(self)@, self@);
            }
        }
    }

    /// Appends the highlight of window `w`, if it shows one.
    fn add_highlight(&self, plots: &mut Vec<Plot>, w: usize)
        requires
            self.wf(),
            is_window(w as int),
        ensures
            final(plots)@ == old(plots)@ + window_highlight(self@, w as int),
    {
        let win: Window = self.windows[w - 1];
        let slot: ProcessSlot = self.slots[w - 1];
        assert(window_wf(self@, w - 1));
        if !win.editing && !slot.running && !slot.finished {
            push_highlight(plots, w, win.cursor, &win.name);
        } else {
            assert(plots@ + Seq::<Plot>::empty() =~= plots@);
        }
    }

    /// The cells to draw in the highlight colours over the grid: for each
    /// window that browses and holds no program, the selected name and one
    /// blank at the cursor's place. None while the name-entry row is active.
    pub fn draw_highlight(&self) -> (plots: Vec<Plot>)
        requires
            self.wf(),
        ensures
            plots@ == highlights(self@),
    {
        let mut plots: Vec<Plot> = Vec::new();
        if self.active != NAME_ENTRY {
            self.add_highlight(&mut plots, 1);
            self.add_highlight(&mut plots, 2);
            self.add_highlight(&mut plots, 3);
            self.add_highlight(&mut plots, 4);
            assert(plots@ =~= highlights(self@));
        }
        plots
    }

    /// Begins one scheduling tick. The window whose turn it is gets the
    /// step if its program runs and does not wait for input: the function
    /// then returns the sink for the program's output and, where input was
    /// committed, the input to deliver first, which leaves the accumulator.
    /// The caller steps the interpreter and reports back through
    /// `finish_instruction`. The turn moves on to the next window whether or
    /// not this one was stepped. A halted shell does not tick.
    pub fn run_one_instruction(&mut self) -> (step: Option<Step>)
        requires
            old(self).wf(),
        ensures
            final(self).wf(),
            final(self)@ == polled(old(self)@),
            step is Some <==> due(old(self)@) is Some,
            step matches Some(st) ==> {
                &&& st.output.window() == old(self)@.turn + 1
                &&& st.output.grid() == old(self)@.grid
                &&& st.output.pending() == old(self)@.slots[old(self)@.turn].pending_line
                &&& input_view(st.input) == delivery(old(self)@)
            },
    {
        if self.halted {
            return None;
        }
        let t: usize = self.turn;
        assert(window_wf(self@, t as int));
        self.turn = (t + 1) % NUM_WINDOWS;
        let mut slot: ProcessSlot = self.slots[t];
        let step: Option<Step> = if slot.is_eligible() {
            let input: Option<Vec<char>> = if slot.input_ready {
                let typed: Vec<char> = slot.take_input();
                self.slots[t] = slot;
                Some(typed)
            } else {
                None
            };
            Some(Step { output: KernelOutput::new(t + 1, self.screen, slot.pending_line), input })
        } else {
            None
        };
        proof {
            lemma_grid_of(self.screen);
            assert(self@.slots =~= polled(old(self)@).slots);
            lemma_windows_keep_rules(old(self)@, self@);
        }
        step
    }

    /// Ends the scheduling tick that stepped the window of `output`, given
    /// how the step ended. The grid and the pending-line marker are taken
    /// back from the sink. A program that goes on has its step counted; one
    /// that has finished gets the marker `[DONE]` after its output and its
    /// slot stops running; one that needs input is suspended until enter is
    /// typed for it; a fault halts the shell. Nothing happens where the
    /// window of `output` was not one to step.
    pub fn finish_instruction(&mut self, output: &KernelOutput, outcome: TickOutcome)
        requires
            old(self).wf(),
        ensures
            final(self).wf(),
            final(self)@ == stepped(
                old(self)@,
                output.window(),
                output.grid(),
                output.pending(),
                outcome,
            ),
    {
        let (w, screen, pending) = output.return_values();
        if self.halted || w < 1 || w > NUM_WINDOWS {
            return;
        }
        let i: usize = w - 1;
        assert(window_wf(self@, i as int));
        let mut slot: ProcessSlot = self.slots[i];
        if !slot.is_eligible() {
            return;
        }
        slot.pending_line = pending;
        match outcome {
            TickOutcome::Continue => {
                self.screen = screen;
                slot.count_tick();
            },
            TickOutcome::Finished => {
                let done: [u8; 6] = done_marker();
                let (marked, mark) = print_bytes(screen, w, pending, done.as_slice());
                self.screen = marked;
                slot.running = false;
                slot.finished = true;
                slot.pending_line = mark;
            },
            TickOutcome::NeedsInput => {
                self.screen = screen;
                slot.awaiting_input = true;
            },
            TickOutcome::Error => {
                self.screen = screen;
                self.halted = true;
            },
        }
        self.slots[i] = slot;
        proof {
            lemma_grid_of(self.screen);
            let want = stepped(old(self)@, w as int, output.grid(), output.pending(), outcome);
            assert(self@.slots =~= want.slots);
            lemma_windows_keep_rules(old(self)@, self@);
        }
    }

    /// Prepares a redraw, given the file store's listing: takes the listing
    /// in if its count is new, and writes the editing header where the
    /// active window is edited. Returns the cells of the highlight; the
    /// caller draws the grid and then these.
    pub fn draw(&mut self, count: usize, names: &NameTable) -> (plots: Vec<Plot>)
        requires
            old(self).wf(),
        ensures
            final(self).wf(),
            final(self)@ == drawn(old(self)@, count as int, names_of(*names)),
            plots@ == highlights(final(self)@),
    {
        self.add_files(false, count, names);
        if self.active <= NUM_WINDOWS && self.windows[self.active - 1].editing {
            let ghost mid = self@;
            assert(window_wf(self@, self.active - 1));
            self.setup_editing_window();
            assert(self@.windows =~= mid.windows);
        }
        self.draw_highlight()
    }

    /// The four cells that show the step count of window `tick_num + 1`.
    pub fn tick_numbers(&self, tick_num: usize) -> (field: (char, char, char, char))
        requires
            self.wf(),
            tick_num < NUM_WINDOWS,
        ensures
            field.0 == tick_field(self@.slots[tick_num as int].ticks, 0),
            field.1 == tick_field(self@.slots[tick_num as int].ticks, 1),
            field.2 == tick_field(self@.slots[tick_num as int].ticks, 2),
            field.3 == tick_field(self@.slots[tick_num as int].ticks, 3),
    {
        assert(window_wf(self@, tick_num as int));
        tick_numbers(self.slots[tick_num].ticks)
    }

    /// Draws the labels and step counts of the four windows into the grid,
    /// right of the windows.
    pub fn draw_proc_status(&mut self)
        requires
            old(self).wf(),
        ensures
            final(self).wf(),
            final(self)@ == with_status(old(self)@),
    {
        assert(window_wf(self@, 0));
        assert(window_wf(self@, 1));
        assert(window_wf(self@, 2));
        assert(window_wf(self@, 3));
        self.screen = draw_counter(self.screen, 1, self.slots[0].ticks);
        self.screen = draw_counter(self.screen, 2, self.slots[1].ticks);
        self.screen = draw_counter(self.screen, 3, self.slots[2].ticks);
        self.screen = draw_counter(self.screen, 4, self.slots[3].ticks);
        proof {
            lemma_grid_of(self.screen);
            lemma_windows_keep_rules(old(self)@, self@);
        }
    }
}

/// The input that a tick hands out, as contracts speak of it.
pub open spec fn input_view(input: Option<Vec<char>>) -> Option<Seq<char>> {
    match input {
        Some(typed) => Some(typed@),
        None => None,
    }
}

/// The bytes of the marker that ends the output of a finished program.
pub fn done_marker() -> (text: [u8; 6])
    ensures
        text@ == done_text(),
{
    let text: [u8; 6] = [91, 68, 79, 78, 69, 93];
    assert(text@ =~= done_text());
    text
}

/// Whether the character of a key is alphanumeric; false for a key that is
/// no character.
pub open spec fn key_alnum(key: Key) -> bool {
    match key {
        Key::Raw(_) => false,
        Key::Unicode(c) => alphanumeric(c),
    }
}

} // verus!
