//! The shell as contracts speak of it: its state as a mathematical value, and
//! each of its transitions as a function from state and event to next state.

use vstd::prelude::*;
use crate::browser::{
    highlight_of, is_names, move_cursor, populate_grid, Direction, Names, Plot,
    MAX_FILENAME_BYTES, MAX_FILES_STORED,
};
use crate::editor::{captured, clear_grid, edit_grid, edit_pending, load_grid, print_sink};
use crate::entry::{blank_entry_grid, entry_name, erased_grid, typed_grid};
use crate::event::{arrow_direction, selected_window, Key, RawKey, Request, TickOutcome};
use crate::glyph::{drawable, BACKSPACE, LINE_FEED};
use crate::header::{cut_name, header_grid, wiped_grid};
use crate::layout::{
    blank_grid, is_grid, is_window, split_grid, update_grid, Grid, NAME_ENTRY, NUM_WINDOWS,
};
use crate::slot::{
    eligible, idle_slot, next_ticks, slot_wf, started_slot, SlotModel, MAX_INPUT_CHARS,
};
use crate::status::status_grid;

verus! {

/// The browsing and editing state of one window.
#[verifier::ext_equal]
pub struct WindowModel {
    /// The name of the selected program.
    pub name: Seq<u8>,
    /// The position of the selected program in the listing.
    pub cursor: int,
    /// The window's interior is an edit buffer.
    pub editing: bool,
}

/// The state of the shell.
#[verifier::ext_equal]
pub struct Shell {
    /// The character grid.
    pub grid: Grid,
    /// The active window: 1 to 4, or 5 for the name-entry row.
    pub active: int,
    /// The four windows; window `w` stands at `w - 1`.
    pub windows: Seq<WindowModel>,
    /// The four process slots; the slot of window `w` stands at `w - 1`.
    pub slots: Seq<SlotModel>,
    /// Number of programs in the cached listing.
    pub file_count: int,
    /// The cached listing.
    pub names: Names,
    /// The window that the scheduler offers a step next, counted from 0.
    pub turn: int,
    /// An interpreter has reported a fault; the shell does nothing more.
    pub halted: bool,
}

/// What holds of window `i + 1` and its slot in every state of the shell:
/// the cursor is inside the listing (at 0 when that is empty), the name buffer
/// holds the name under the cursor, only the active window is edited, and a
/// window is never edited while its program runs.
pub open spec fn window_wf(m: Shell, i: int) -> bool {
    let win = m.windows[i];
    let s = m.slots[i];
    &&& 0 <= win.cursor < MAX_FILES_STORED
    &&& (win.cursor == 0 || win.cursor < m.file_count)
    &&& win.name == m.names[win.cursor]
    &&& (win.editing ==> m.active == i + 1)
    &&& !(win.editing && s.running)
    &&& slot_wf(s)
}

/// What holds of every state of the shell.
pub open spec fn shell_wf(m: Shell) -> bool {
    &&& is_grid(m.grid)
    &&& 1 <= m.active <= NAME_ENTRY
    &&& m.windows.len() == NUM_WINDOWS
    &&& m.slots.len() == NUM_WINDOWS
    &&& is_names(m.names)
    &&& 0 <= m.file_count <= MAX_FILES_STORED
    &&& 0 <= m.turn < NUM_WINDOWS
    &&& forall|i: int| 0 <= i < NUM_WINDOWS ==> #[trigger] window_wf(m, i)
}

/// A state keeps the rules of the windows where each window that obeyed them
/// before still does.
pub proof fn lemma_windows_keep_rules(before: Shell, after: Shell)
    requires
        shell_wf(before),
        forall|i: int|
            0 <= i < NUM_WINDOWS && window_wf(before, i) ==> #[trigger] window_wf(after, i),
    ensures
        forall|i: int| 0 <= i < NUM_WINDOWS ==> #[trigger] window_wf(after, i),
{
    assert forall|i: int| 0 <= i < NUM_WINDOWS implies #[trigger] window_wf(after, i) by {
        assert(window_wf(before, i));
    }
}

/// A listing without names.
pub open spec fn no_names() -> Names {
    Seq::new(MAX_FILES_STORED as nat, |i: int| Seq::new(MAX_FILENAME_BYTES as nat, |j: int| 0u8))
}

/// The state in which the shell starts: the initial layout, window 1 active,
/// an empty listing, every window browsing and every slot idle.
pub open spec fn initial_shell() -> Shell {
    Shell {
        grid: split_grid(blank_grid()),
        active: 1,
        windows: Seq::new(
            NUM_WINDOWS as nat,
            |i: int| WindowModel { name: no_names()[0], cursor: 0, editing: false },
        ),
        slots: Seq::new(NUM_WINDOWS as nat, |i: int| idle_slot()),
        file_count: 0,
        names: no_names(),
        turn: 0,
        halted: false,
    }
}

/// Whether the active window is being edited.
pub open spec fn editing_now(m: Shell) -> bool {
    is_window(m.active) && m.windows[m.active - 1].editing
}

/// The state with the slot of window `i + 1` replaced.
pub open spec fn with_slot(m: Shell, i: int, s: SlotModel) -> Shell {
    Shell { slots: m.slots.update(i, s), ..m }
}

/// The state with window `i + 1` replaced.
pub open spec fn with_window(m: Shell, i: int, w: WindowModel) -> Shell {
    Shell { windows: m.windows.update(i, w), ..m }
}

/// The state after a key asks for window `num` to become active. The request
/// is refused while the active window is being edited.
pub open spec fn switched(m: Shell, num: int) -> Shell {
    if m.active != num && !editing_now(m) {
        Shell { active: num, grid: update_grid(m.grid, num), ..m }
    } else {
        m
    }
}

/// The state after the name in the name-entry field is committed.
pub open spec fn committed(m: Shell) -> Shell {
    Shell { grid: blank_entry_grid(m.grid), ..m }
}

/// The state after the active window is given back to the browser: an edit
/// ends, a program is dropped. The interior is blanked, the editing header
/// removed, the frame and the listing redrawn; the cursor returns to the
/// first name and the slot is idle, its step count 0.
pub open spec fn released(m: Shell) -> Shell {
    let a = m.active;
    let i = a - 1;
    let cleared = clear_grid(m.grid, a);
    let base = if m.windows[i].editing {
        wiped_grid(cleared, a, m.windows[i].name)
    } else {
        cleared
    };
    Shell {
        grid: populate_grid(update_grid(base, a), m.names),
        windows: m.windows.update(
            i,
            WindowModel { name: m.names[0], cursor: 0, editing: false },
        ),
        slots: m.slots.update(i, idle_slot()),
        ..m
    }
}

/// The state after F6.
pub open spec fn after_f6(m: Shell) -> Shell {
    if m.active == NAME_ENTRY {
        committed(m)
    } else {
        released(m)
    }
}

/// What F6 asks of the caller: to create the program named in the
/// name-entry field, to store the edit buffer under the edited program's
/// name, or to drop the window's interpreter.
pub open spec fn f6_request(m: Shell) -> Request {
    if m.active == NAME_ENTRY {
        Request::CreateFile { name: entry_name(m.grid) }
    } else if m.windows[m.active - 1].editing {
        Request::SaveFile {
            window: m.active,
            name: cut_name(m.windows[m.active - 1].name),
            contents: captured(m.grid, m.active),
        }
    } else {
        Request::DropProgram { window: m.active }
    }
}

/// The state after an arrow key: the cursor of the active window moves and
/// the name under it is copied into the window's name buffer. Nothing moves
/// in the name-entry row or while the window is edited.
pub open spec fn browsed(m: Shell, dir: Direction) -> Shell {
    if is_window(m.active) && !m.windows[m.active - 1].editing {
        let i = m.active - 1;
        let cursor = move_cursor(m.windows[i].cursor, m.file_count, dir);
        with_window(m, i, WindowModel { name: m.names[cursor], cursor, editing: false })
    } else {
        m
    }
}

/// The state after a function key or an arrow. A halted shell ignores keys.
pub open spec fn after_raw(m: Shell, code: RawKey) -> Shell {
    if m.halted {
        m
    } else if selected_window(code) != 0 {
        switched(m, selected_window(code))
    } else if code == RawKey::F6 {
        after_f6(m)
    } else if let Some(dir) = arrow_direction(code) {
        browsed(m, dir)
    } else {
        m
    }
}

/// What a function key or an arrow asks of the caller.
pub open spec fn raw_request(m: Shell, code: RawKey) -> Request {
    if !m.halted && code == RawKey::F6 {
        f6_request(m)
    } else {
        Request::Nothing
    }
}

/// The state after a character is typed into the name-entry row.
pub open spec fn named(m: Shell, key: char, alnum: bool) -> Shell {
    if alnum {
        Shell { grid: typed_grid(m.grid, key), ..m }
    } else if key == BACKSPACE {
        Shell { grid: erased_grid(m.grid), ..m }
    } else if key == LINE_FEED {
        committed(m)
    } else {
        m
    }
}

/// The state after a character is typed for the program of the active
/// window, which waits for input. A drawable character is echoed into the
/// window and joins the accumulator, unless that is full; enter commits what
/// was typed and lets the program go on.
pub open spec fn answered(m: Shell, key: char) -> Shell {
    let a = m.active;
    let s = m.slots[a - 1];
    if drawable(key) {
        if s.input.len() < MAX_INPUT_CHARS {
            Shell {
                grid: edit_grid(m.grid, a, s.pending_line, key),
                slots: m.slots.update(
                    a - 1,
                    SlotModel { input: s.input.push(key), pending_line: false, ..s },
                ),
                ..m
            }
        } else {
            m
        }
    } else if key == LINE_FEED {
        with_slot(
            m,
            a - 1,
            SlotModel { awaiting_input: false, input_ready: true, pending_line: true, ..s },
        )
    } else {
        m
    }
}

/// The state after a character reaches the editor of the active window.
/// Drawable characters, backspace and enter are edited in; others are ignored.
pub open spec fn edited(m: Shell, key: char) -> Shell {
    let a = m.active;
    let s = m.slots[a - 1];
    if drawable(key) || key == BACKSPACE || key == LINE_FEED {
        Shell {
            grid: edit_grid(m.grid, a, s.pending_line, key),
            slots: m.slots.update(a - 1, SlotModel { pending_line: edit_pending(key), ..s }),
            ..m
        }
    } else {
        m
    }
}

/// Whether the active window has a program selected that can be loaded:
/// the listing is not empty and no program runs in the window.
pub open spec fn can_load(m: Shell) -> bool {
    &&& is_window(m.active)
    &&& !m.halted
    &&& m.file_count > 0
    &&& !m.windows[m.active - 1].editing
    &&& !m.slots[m.active - 1].running
}

/// The state after the selected program of the active window is started:
/// the interior is blanked and the slot runs, its step count kept.
pub open spec fn started(m: Shell) -> Shell {
    let a = m.active;
    Shell {
        grid: clear_grid(m.grid, a),
        slots: m.slots.update(a - 1, started_slot(m.slots[a - 1].ticks)),
        ..m
    }
}

/// The state after a character key, given whether the character is
/// alphanumeric. In order: the name-entry row takes it; else the waiting
/// program of the active window; else the editor of the active window; else
/// `r` starts the selected program. `e` changes nothing by itself: the
/// source has to be read first. A halted shell ignores keys.
pub open spec fn after_unicode(m: Shell, key: char, alnum: bool) -> Shell {
    if m.halted {
        m
    } else if m.active == NAME_ENTRY {
        named(m, key, alnum)
    } else if m.slots[m.active - 1].awaiting_input {
        answered(m, key)
    } else if m.windows[m.active - 1].editing {
        edited(m, key)
    } else if key == 'r' && can_load(m) {
        started(m)
    } else {
        m
    }
}

/// What a character key asks of the caller.
pub open spec fn unicode_request(m: Shell, key: char, alnum: bool) -> Request {
    if m.halted {
        Request::Nothing
    } else if m.active == NAME_ENTRY {
        if !alnum && key == LINE_FEED {
            Request::CreateFile { name: entry_name(m.grid) }
        } else {
            Request::Nothing
        }
    } else if m.slots[m.active - 1].awaiting_input || m.windows[m.active - 1].editing {
        Request::Nothing
    } else if key == 'e' && can_load(m) {
        Request::LoadSource { window: m.active, name: m.windows[m.active - 1].name }
    } else if key == 'r' && can_load(m) {
        Request::StartProgram { window: m.active, name: m.windows[m.active - 1].name }
    } else {
        Request::Nothing
    }
}

/// The state after a key.
pub open spec fn after_key(m: Shell, key: Key, alnum: bool) -> Shell {
    match key {
        Key::Raw(code) => after_raw(m, code),
        Key::Unicode(c) => after_unicode(m, c, alnum),
    }
}

/// What a key asks of the caller.
pub open spec fn key_request(m: Shell, key: Key, alnum: bool) -> Request {
    match key {
        Key::Raw(code) => raw_request(m, code),
        Key::Unicode(c) => unicode_request(m, c, alnum),
    }
}

/// The state after the source of the selected program arrived for editing:
/// the text is loaded into the interior of the active window, the editing
/// header written, and the window is in editing mode. Nothing happens where
/// the window cannot load a program.
pub open spec fn loaded(m: Shell, text: Seq<u8>) -> Shell {
    if can_load(m) {
        let a = m.active;
        let i = a - 1;
        Shell {
            grid: header_grid(load_grid(m.grid, a, text), a, m.windows[i].name),
            windows: m.windows.update(i, WindowModel { editing: true, ..m.windows[i] }),
            slots: m.slots.update(i, SlotModel { pending_line: false, ..m.slots[i] }),
            ..m
        }
    } else {
        m
    }
}

/// The window that the scheduler steps at the next tick, if any: the one
/// whose turn it is, where its program runs and does not wait for input.
pub open spec fn due(m: Shell) -> Option<int> {
    if !m.halted && eligible(m.slots[m.turn]) {
        Some(m.turn + 1)
    } else {
        None
    }
}

/// The turn after `turn`.
pub open spec fn next_turn(turn: int) -> int {
    (turn + 1) % (NUM_WINDOWS as int)
}

/// The input that goes to the program stepped at the next tick, if any was
/// committed.
pub open spec fn delivery(m: Shell) -> Option<Seq<char>> {
    if due(m) is Some && m.slots[m.turn].input_ready {
        Some(m.slots[m.turn].input)
    } else {
        None
    }
}

/// The state after a tick has chosen its window: the turn moves on, whether
/// or not the window was eligible, and committed input has left the
/// accumulator. A halted shell does not tick.
pub open spec fn polled(m: Shell) -> Shell {
    if m.halted {
        m
    } else if delivery(m) is Some {
        Shell {
            turn: next_turn(m.turn),
            slots: m.slots.update(
                m.turn,
                SlotModel { input: Seq::empty(), input_ready: false, ..m.slots[m.turn] },
            ),
            ..m
        }
    } else {
        Shell { turn: next_turn(m.turn), ..m }
    }
}

/// The marker that ends the output of a finished program: the bytes of
/// `[DONE]`.
pub open spec fn done_text() -> Seq<u8> {
    seq![91u8, 68u8, 79u8, 78u8, 69u8, 93u8]
}

/// Whether the shell takes back the step of window `w`.
pub open spec fn can_step(m: Shell, w: int) -> bool {
    !m.halted && is_window(w) && eligible(m.slots[w - 1])
}

/// The state after the program of window `w` took a step that left `grid`
/// and `pending` behind and ended in `outcome`. To go on counts the step;
/// to finish appends the marker and stops the slot; to need input suspends
/// it; a fault halts the shell.
pub open spec fn stepped(
    m: Shell,
    w: int,
    grid: Grid,
    pending: bool,
    outcome: TickOutcome,
) -> Shell {
    if can_step(m, w) {
        let s = SlotModel { pending_line: pending, ..m.slots[w - 1] };
        match outcome {
            TickOutcome::Continue => Shell {
                grid,
                slots: m.slots.update(w - 1, SlotModel { ticks: next_ticks(s.ticks), ..s }),
                ..m
            },
            TickOutcome::Finished => Shell {
                grid: print_sink(grid, w, pending, done_text()).grid,
                slots: m.slots.update(
                    w - 1,
                    SlotModel {
                        running: false,
                        finished: true,
                        pending_line: print_sink(grid, w, pending, done_text()).pending,
                        ..s
                    },
                ),
                ..m
            },
            TickOutcome::NeedsInput => Shell {
                grid,
                slots: m.slots.update(w - 1, SlotModel { awaiting_input: true, ..s }),
                ..m
            },
            TickOutcome::Error => Shell {
                grid,
                slots: m.slots.update(w - 1, s),
                halted: true,
                ..m
            },
        }
    } else {
        m
    }
}

/// Whether any program waits for input.
pub open spec fn any_waiting(m: Shell) -> bool {
    exists|i: int| 0 <= i < NUM_WINDOWS && (#[trigger] m.slots[i]).awaiting_input
}

/// The number of names of a listing that the shell keeps.
pub open spec fn kept_count(count: int) -> int {
    if count < MAX_FILES_STORED {
        count
    } else {
        MAX_FILES_STORED as int
    }
}

/// The cursor of a window under a listing of `count` names: where it was, or
/// at the first name when it would stand past the listing.
pub open spec fn kept_cursor(cursor: int, count: int) -> int {
    if cursor < count {
        cursor
    } else {
        0
    }
}

/// The state after the file store's listing is shown to the shell. The
/// listing is taken and laid into the windows when `force` is set or its
/// count differs from the cached one; otherwise nothing changes.
pub open spec fn refreshed(m: Shell, force: bool, count: int, names: Names) -> Shell {
    if force || kept_count(count) != m.file_count {
        Shell {
            grid: populate_grid(m.grid, names),
            file_count: kept_count(count),
            names,
            windows: Seq::new(
                NUM_WINDOWS as nat,
                |i: int|
                    WindowModel {
                        name: names[kept_cursor(m.windows[i].cursor, kept_count(count))],
                        cursor: kept_cursor(m.windows[i].cursor, kept_count(count)),
                        editing: m.windows[i].editing,
                    },
            ),
            ..m
        }
    } else {
        m
    }
}

/// The state with the editing header of the active window written, where
/// that window is being edited.
pub open spec fn with_header(m: Shell) -> Shell {
    if editing_now(m) {
        Shell { grid: header_grid(m.grid, m.active, m.windows[m.active - 1].name), ..m }
    } else {
        m
    }
}

/// The state after a redraw that was shown the file store's listing.
pub open spec fn drawn(m: Shell, count: int, names: Names) -> Shell {
    with_header(refreshed(m, false, count, names))
}

/// Whether window `w` shows its highlight: it browses, and its slot holds no
/// program, running or finished.
pub open spec fn shows_highlight(m: Shell, w: int) -> bool {
    &&& !m.windows[w - 1].editing
    &&& !m.slots[w - 1].running
    &&& !m.slots[w - 1].finished
}

/// The highlight of window `w`, empty where it shows none.
pub open spec fn window_highlight(m: Shell, w: int) -> Seq<Plot> {
    if shows_highlight(m, w) {
        highlight_of(w, m.windows[w - 1].cursor, m.windows[w - 1].name)
    } else {
        Seq::empty()
    }
}

/// The cells to draw in the highlight colours: the highlights of windows 1
/// to 4 in turn, none while the name-entry row is active.
pub open spec fn highlights(m: Shell) -> Seq<Plot> {
    if m.active == NAME_ENTRY {
        Seq::empty()
    } else {
        window_highlight(m, 1) + window_highlight(m, 2) + window_highlight(m, 3)
            + window_highlight(m, 4)
    }
}

/// The state with the step counters drawn.
pub open spec fn with_status(m: Shell) -> Shell {
    Shell {
        grid: status_grid(m.grid, Seq::new(NUM_WINDOWS as nat, |i: int| m.slots[i].ticks)),
        ..m
    }
}

} // verus!
