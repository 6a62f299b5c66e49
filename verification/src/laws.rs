//! What holds of the shell's rules for all inputs: the frame redraw, the
//! editor's content, the round trip of a saved window, the scheduler's
//! fairness, the marker of a finished program, and the rules that every
//! state of the shell obeys.

use vstd::prelude::*;
use crate::browser::{is_names, Names};
use crate::editor::{
    captured, clear_grid, content_end, emit, emit_all, landing, load_grid, print_sink,
    put_interior, scan_end, Sink, CAPTURE_BYTES,
};
use crate::entry::{first_blank, first_blank_from, ENTRY_SLOTS, ENTRY_START};
use crate::event::{Key, RawKey, TickOutcome};
use crate::glyph::{glyph_of, low_byte, BLANK, LINE_FEED};
use crate::layout::{
    cell_col, cell_row, in_grid, interior_at, interior_cells, is_grid, is_window, update_grid,
    with_cell, Grid, BUFFER_HEIGHT, BUFFER_WIDTH, INTERIOR_WIDTH,
};
use crate::model::{
    after_key, after_raw, can_load, can_step, done_text, drawn, due, editing_now,
    lemma_windows_keep_rules, loaded, next_turn, polled, refreshed, shell_wf, stepped, switched,
    window_wf, with_status, Shell,
};
use crate::slot::eligible;

verus! {

/// Redrawing the frame twice for the same window gives what redrawing it
/// once gives.
pub proof fn lemma_update_is_idempotent(g: Grid, num: int)
    requires
        is_grid(g),
    ensures
        update_grid(update_grid(g, num), num) == update_grid(g, num),
{
    assert(update_grid(update_grid(g, num), num) =~~= update_grid(g, num));
}

/// Writing an interior cell changes that cell and no other interior cell,
/// and leaves a grid a grid.
pub proof fn lemma_put_interior(g: Grid, w: int, k: int, ch: char, j: int)
    requires
        is_grid(g),
        is_window(w),
        0 <= j < interior_cells(w),
    ensures
        is_grid(put_interior(g, w, k, ch)),
        interior_at(put_interior(g, w, k, ch), w, j) == if j == k {
            ch
        } else {
            interior_at(g, w, j)
        },
{
    if 0 <= k < interior_cells(w) {
        let r = cell_row(w, k);
        let c = cell_col(w, k);
        let h = with_cell(g, r, c, ch);
        assert(in_grid(r, c));
        assert(g[r].len() == BUFFER_WIDTH);
        assert forall|i: int| 0 <= i < BUFFER_HEIGHT implies (#[trigger] h[i]).len()
            == BUFFER_WIDTH by {
            if i != r {
                assert(h[i] == g[i]);
            }
        }
        if j != k {
            assert(cell_row(w, j) != r || cell_col(w, j) != c);
        }
    }
}

/// The end of the content among the first `n` cells is at most `n`, the
/// cells from there up to `n` are blank, and the cell before it, if there is
/// one, is not.
pub proof fn lemma_scan_end(g: Grid, w: int, n: int)
    requires
        0 <= n,
    ensures
        0 <= scan_end(g, w, n) <= n,
        forall|k: int| scan_end(g, w, n) <= k < n ==> interior_at(g, w, k) == BLANK,
        scan_end(g, w, n) > 0 ==> interior_at(g, w, scan_end(g, w, n) - 1) != BLANK,
    decreases n,
{
    if n > 0 && interior_at(g, w, n - 1) == BLANK {
        lemma_scan_end(g, w, n - 1);
    }
}

/// The end of the content is the one place with only blank cells from it
/// on and a cell that is not blank right before it.
pub proof fn lemma_content_end_is(g: Grid, w: int, e: int)
    requires
        is_window(w),
        0 <= e <= interior_cells(w),
        forall|k: int| e <= k < interior_cells(w) ==> interior_at(g, w, k) == BLANK,
        e > 0 ==> interior_at(g, w, e - 1) != BLANK,
    ensures
        content_end(g, w) == e,
{
    lemma_scan_end(g, w, interior_cells(w));
    let found = content_end(g, w);
    if found < e {
        assert(interior_at(g, w, e - 1) == BLANK);
    } else if found > e {
        assert(interior_at(g, w, found - 1) == BLANK);
    }
}

/// Whether `saved` has the form of a captured window: as many bytes as the
/// capture buffer, no line feed among the bytes of the cells, zeros after them.
pub open spec fn is_capture(saved: Seq<u8>, w: int) -> bool {
    &&& saved.len() == CAPTURE_BYTES
    &&& forall|k: int| 0 <= k < interior_cells(w) ==> glyph_of(#[trigger] saved[k]) != LINE_FEED
    &&& forall|k: int| interior_cells(w) <= k < CAPTURE_BYTES ==> #[trigger] saved[k] == 0
}

/// Where the stream stands after the first `n` bytes of a text without line
/// feeds, streamed from the first cell of a window.
proof fn lemma_stream_of_cells(g: Grid, w: int, text: Seq<u8>, n: int)
    requires
        is_grid(g),
        is_window(w),
        0 <= n <= text.len(),
        forall|k: int| 0 <= k < text.len() ==> glyph_of(#[trigger] text[k]) != LINE_FEED,
    ensures
        ({
            let st = emit_all(Sink { grid: g, cursor: 0, pending: false }, w, text, n);
            &&& is_grid(st.grid)
            &&& !st.pending
            &&& st.cursor == if n < interior_cells(w) {
                n
            } else {
                interior_cells(w)
            }
            &&& forall|k: int|
                0 <= k < st.cursor ==> interior_at(st.grid, w, k) == glyph_of(#[trigger] text[k])
        }),
    decreases n,
{
    if n > 0 {
        lemma_stream_of_cells(g, w, text, n - 1);
        let before = emit_all(Sink { grid: g, cursor: 0, pending: false }, w, text, n - 1);
        let after = emit(before, w, glyph_of(text[n - 1]));
        assert(glyph_of(text[n - 1]) != LINE_FEED);
        assert forall|k: int| 0 <= k < after.cursor implies interior_at(after.grid, w, k)
            == glyph_of(#[trigger] text[k]) by {
            lemma_put_interior(before.grid, w, before.cursor, glyph_of(text[n - 1]), k);
        }
        lemma_put_interior(before.grid, w, before.cursor, glyph_of(text[n - 1]), 0);
    }
}

/// Loading a captured window and capturing it again gives the same bytes:
/// what was saved is what a load followed by a save stores.
pub proof fn lemma_load_then_save_round_trips(g: Grid, w: int, saved: Seq<u8>)
    requires
        is_grid(g),
        is_window(w),
        is_capture(saved, w),
    ensures
        captured(load_grid(g, w, saved), w) == saved,
{
    let cleared = clear_grid(g, w);
    lemma_stream_of_cells(cleared, w, saved, CAPTURE_BYTES as int);
    let loaded = load_grid(g, w, saved);
    assert forall|k: int| 0 <= k < CAPTURE_BYTES implies captured(loaded, w)[k] == saved[k] by {
        if k < interior_cells(w) {
            assert(interior_at(loaded, w, k) == glyph_of(saved[k]));
            assert(low_byte(glyph_of(saved[k])) == saved[k]);
        }
    }
    assert(captured(loaded, w) =~= saved);
}

/// No interior cell of a window holds a line feed's byte after any text was
/// streamed into it, if none did before.
proof fn lemma_stream_stores_no_line_feed(st: Sink, w: int, text: Seq<u8>, n: int)
    requires
        is_grid(st.grid),
        is_window(w),
        0 <= n <= text.len(),
        forall|k: int|
            0 <= k < interior_cells(w) ==> glyph_of(low_byte(#[trigger] interior_at(st.grid, w, k)))
                != LINE_FEED,
    ensures
        is_grid(emit_all(st, w, text, n).grid),
        forall|k: int|
            0 <= k < interior_cells(w) ==> glyph_of(
                low_byte(#[trigger] interior_at(emit_all(st, w, text, n).grid, w, k)),
            ) != LINE_FEED,
    decreases n,
{
    if n > 0 {
        lemma_stream_stores_no_line_feed(st, w, text, n - 1);
        let before = emit_all(st, w, text, n - 1);
        let ch = glyph_of(text[n - 1]);
        let t = landing(w, before.cursor, before.pending);
        let after = emit(before, w, ch);
        assert forall|k: int| 0 <= k < interior_cells(w) implies glyph_of(
            low_byte(#[trigger] interior_at(after.grid, w, k)),
        ) != LINE_FEED by {
            if ch != LINE_FEED {
                lemma_put_interior(before.grid, w, t, ch, k);
                assert(low_byte(ch) == text[n - 1]);
            }
        }
        if ch != LINE_FEED {
            lemma_put_interior(before.grid, w, t, ch, 0);
        }
    }
}

/// Whatever text is loaded into a window, what saving the window stores has
/// the form of a captured window.
pub proof fn lemma_saved_load_is_capture(g: Grid, w: int, text: Seq<u8>)
    requires
        is_grid(g),
        is_window(w),
    ensures
        is_capture(captured(load_grid(g, w, text), w), w),
{
    let start = Sink { grid: clear_grid(g, w), cursor: 0, pending: false };
    assert forall|k: int| 0 <= k < interior_cells(w) implies glyph_of(
        low_byte(#[trigger] interior_at(start.grid, w, k)),
    ) != LINE_FEED by {
        assert(interior_at(start.grid, w, k) == BLANK);
    }
    lemma_stream_stores_no_line_feed(start, w, text, text.len() as int);
}

/// Load then save is idempotent: once a text went through a window and was
/// saved, loading what was saved, into any grid, and saving again stores the
/// same bytes.
pub proof fn lemma_load_save_is_idempotent(g: Grid, again: Grid, w: int, text: Seq<u8>)
    requires
        is_grid(g),
        is_grid(again),
        is_window(w),
    ensures
        captured(load_grid(again, w, captured(load_grid(g, w, text), w)), w) == captured(
            load_grid(g, w, text),
            w,
        ),
{
    lemma_saved_load_is_capture(g, w, text);
    lemma_load_then_save_round_trips(again, w, captured(load_grid(g, w, text), w));
}

/// A program that finishes leaves its slot not running, and its window
/// ends with the marker `[DONE]` right where output would have gone on:
/// after the existing output, which stays as it was. This holds where six
/// cells are free from that place on; with fewer, the marker is cut short.
pub proof fn lemma_finished_appends_done(m: Shell, w: int, grid: Grid, pending: bool)
    requires
        shell_wf(m),
        can_step(m, w),
        is_grid(grid),
        landing(w, content_end(grid, w), pending) + 6 <= interior_cells(w),
    ensures
        ({
            let after = stepped(m, w, grid, pending, TickOutcome::Finished);
            let t = landing(w, content_end(grid, w), pending);
            &&& !after.slots[w - 1].running
            &&& after.slots[w - 1].finished
            &&& content_end(grid, w) <= t
            &&& forall|k: int|
                0 <= k < 6 ==> #[trigger] interior_at(after.grid, w, t + k) == glyph_of(
                    done_text()[k],
                )
            &&& forall|k: int|
                0 <= k < interior_cells(w) && !(t <= k < t + 6) ==> #[trigger] interior_at(
                    after.grid,
                    w,
                    k,
                ) == interior_at(grid, w, k)
            &&& content_end(after.grid, w) == t + 6
        }),
{
    let text = done_text();
    let t = landing(w, content_end(grid, w), pending);
    let s0 = Sink { grid, cursor: content_end(grid, w), pending };
    lemma_scan_end(grid, w, interior_cells(w));
    reveal_with_fuel(emit_all, 7);
    let s1 = emit_all(s0, w, text, 1);
    let s2 = emit_all(s0, w, text, 2);
    let s3 = emit_all(s0, w, text, 3);
    let s4 = emit_all(s0, w, text, 4);
    let s5 = emit_all(s0, w, text, 5);
    let s6 = emit_all(s0, w, text, 6);
    assert(s1 == emit(s0, w, glyph_of(text[0])));
    assert(s2 == emit(s1, w, glyph_of(text[1])));
    assert(s3 == emit(s2, w, glyph_of(text[2])));
    assert(s4 == emit(s3, w, glyph_of(text[3])));
    assert(s5 == emit(s4, w, glyph_of(text[4])));
    assert(s6 == emit(s5, w, glyph_of(text[5])));
    assert(s6 == print_sink(grid, w, pending, text));
    assert(s1.cursor == t + 1 && s2.cursor == t + 2 && s3.cursor == t + 3 && s4.cursor == t + 4
        && s5.cursor == t + 5);
    let after = stepped(m, w, grid, pending, TickOutcome::Finished);
    assert(after.grid == s6.grid);
    assert forall|j: int| 0 <= j < interior_cells(w) implies interior_at(s6.grid, w, j) == (if t
        <= j < t + 6 {
        glyph_of(text[j - t])
    } else {
        interior_at(grid, w, j)
    }) by {
        lemma_put_interior(grid, w, t, glyph_of(text[0]), j);
        lemma_put_interior(s1.grid, w, t + 1, glyph_of(text[1]), j);
        lemma_put_interior(s2.grid, w, t + 2, glyph_of(text[2]), j);
        lemma_put_interior(s3.grid, w, t + 3, glyph_of(text[3]), j);
        lemma_put_interior(s4.grid, w, t + 4, glyph_of(text[4]), j);
        lemma_put_interior(s5.grid, w, t + 5, glyph_of(text[5]), j);
    }
    assert forall|k: int| 0 <= k < 6 implies #[trigger] interior_at(after.grid, w, t + k)
        == glyph_of(done_text()[k]) by {
        assert(interior_at(s6.grid, w, t + k) == glyph_of(text[t + k - t]));
    }
    assert(interior_at(s6.grid, w, t + 5) != BLANK);
    lemma_content_end_is(s6.grid, w, t + 6);
}

/// Whether every program runs and none waits for input, in a shell that has
/// not halted.
pub open spec fn all_eligible(m: Shell) -> bool {
    &&& !m.halted
    &&& forall|i: int| 0 <= i < 4 ==> eligible(#[trigger] m.slots[i])
}

/// The number of steps that window `w` receives at a tick taken in state `m`.
pub open spec fn steps_at(m: Shell, w: int) -> int {
    if due(m) == Some(w) {
        1int
    } else {
        0int
    }
}

/// Round-robin fairness: over four ticks in a row, taken in states in which
/// every program runs and none waits for input, each window receives
/// exactly one step. The states are those in which the four ticks begin;
/// each has the turn that the tick before left.
pub proof fn lemma_four_ticks_step_each_window_once(
    m0: Shell,
    m1: Shell,
    m2: Shell,
    m3: Shell,
    w: int,
)
    requires
        shell_wf(m0),
        shell_wf(m1),
        shell_wf(m2),
        shell_wf(m3),
        all_eligible(m0),
        all_eligible(m1),
        all_eligible(m2),
        all_eligible(m3),
        m1.turn == polled(m0).turn,
        m2.turn == polled(m1).turn,
        m3.turn == polled(m2).turn,
        is_window(w),
    ensures
        steps_at(m0, w) + steps_at(m1, w) + steps_at(m2, w) + steps_at(m3, w) == 1,
{
    assert(eligible(m0.slots[m0.turn]));
    assert(eligible(m1.slots[m1.turn]));
    assert(eligible(m2.slots[m2.turn]));
    assert(eligible(m3.slots[m3.turn]));
}

/// A tick steps at most the one window whose turn it is, and moves the turn
/// on by one window, around from the fourth to the first, whether or not it
/// stepped a program.
pub proof fn lemma_tick_moves_the_turn(m: Shell)
    requires
        shell_wf(m),
        !m.halted,
    ensures
        polled(m).turn == next_turn(m.turn),
        0 <= polled(m).turn < 4,
        due(m) matches Some(w) ==> w == m.turn + 1 && eligible(m.slots[m.turn]),
        due(m) is None ==> !eligible(m.slots[m.turn]),
{
}

/// Only a tick moves the turn: keys, loaded sources, finished steps and
/// redraws leave it where it was.
pub proof fn lemma_only_ticks_move_the_turn(
    m: Shell,
    key: Key,
    alnum: bool,
    text: Seq<u8>,
    w: int,
    grid: Grid,
    pending: bool,
    outcome: TickOutcome,
    count: int,
    names: Seq<Seq<u8>>,
)
    ensures
        after_key(m, key, alnum).turn == m.turn,
        loaded(m, text).turn == m.turn,
        stepped(m, w, grid, pending, outcome).turn == m.turn,
        drawn(m, count, names).turn == m.turn,
        with_status(m).turn == m.turn,
{
}

/// While the active window is being edited, no function key makes another
/// window active: the shell stays as it is.
pub proof fn lemma_no_switch_while_editing(m: Shell, num: int)
    requires
        shell_wf(m),
        editing_now(m),
    ensures
        switched(m, num) == m,
        after_raw(m, RawKey::F1) == m,
        after_raw(m, RawKey::F2) == m,
        after_raw(m, RawKey::F3) == m,
        after_raw(m, RawKey::F4) == m,
        after_raw(m, RawKey::F5) == m,
{
}

/// In every state of the shell the cursor of each window stands inside a
/// listing that is not empty, and no window is edited while its program
/// runs, nor edited without being the active one.
pub proof fn lemma_window_rules(m: Shell, w: int)
    requires
        shell_wf(m),
        is_window(w),
    ensures
        m.file_count > 0 ==> 0 <= m.windows[w - 1].cursor < m.file_count,
        m.file_count == 0 ==> m.windows[w - 1].cursor == 0,
        m.windows[w - 1].name == m.names[m.windows[w - 1].cursor],
        !(m.windows[w - 1].editing && m.slots[w - 1].running),
        m.windows[w - 1].editing ==> m.active == w,
        m.slots[w - 1].awaiting_input ==> m.slots[w - 1].running,
{
    assert(window_wf(m, w - 1));
}

/// Writing a cell of a grid leaves a grid.
pub proof fn lemma_with_cell_is_grid(g: Grid, r: int, c: int, ch: char)
    requires
        is_grid(g),
        in_grid(r, c),
    ensures
        is_grid(with_cell(g, r, c, ch)),
{
    let h = with_cell(g, r, c, ch);
    assert(g[r].len() == BUFFER_WIDTH);
    assert forall|i: int| 0 <= i < BUFFER_HEIGHT implies (#[trigger] h[i]).len()
        == BUFFER_WIDTH by {
        if i != r {
            assert(h[i] == g[i]);
        }
    }
}

/// Streaming text into a window leaves a grid.
pub proof fn lemma_stream_is_grid(st: Sink, w: int, text: Seq<u8>, n: int)
    requires
        is_grid(st.grid),
        is_window(w),
        0 <= n <= text.len(),
    ensures
        is_grid(emit_all(st, w, text, n).grid),
    decreases n,
{
    if n > 0 {
        lemma_stream_is_grid(st, w, text, n - 1);
        let before = emit_all(st, w, text, n - 1);
        let t = landing(w, before.cursor, before.pending);
        lemma_put_interior(before.grid, w, t, glyph_of(text[n - 1]), 0);
    }
}

/// The rules of the shell hold after every key.
pub proof fn lemma_key_keeps_rules(m: Shell, key: Key, alnum: bool)
    requires
        shell_wf(m),
    ensures
        shell_wf(after_key(m, key, alnum)),
{
    let after = after_key(m, key, alnum);
    if !m.halted {
        if is_window(m.active) {
            let a = m.active;
            let t = landing(a, content_end(m.grid, a), m.slots[a - 1].pending_line);
            lemma_put_interior(m.grid, a, t, BLANK, 0);
            lemma_put_interior(m.grid, a, t - 1, BLANK, 0);
            let below = (t / (INTERIOR_WIDTH as int) + 1) * INTERIOR_WIDTH;
            lemma_put_interior(m.grid, a, below, BLANK, 0);
            match key {
                Key::Unicode(c) => {
                    lemma_put_interior(m.grid, a, t, c, 0);
                },
                _ => {},
            }
        } else {
            let k = first_blank(m.grid);
            lemma_first_blank(m.grid, 0);
            match key {
                Key::Unicode(c) => {
                    if k < ENTRY_SLOTS {
                        lemma_with_cell_is_grid(m.grid, 0, ENTRY_START + k, c);
                    }
                },
                _ => {},
            }
            if 1 <= k < ENTRY_SLOTS {
                lemma_with_cell_is_grid(m.grid, 0, ENTRY_START + k - 1, BLANK);
            }
        }
        assert(is_grid(after.grid));
        lemma_windows_keep_rules(m, after);
    }
}

/// The first blank slot of the name-entry field is one of its slots, or
/// their number.
pub proof fn lemma_first_blank(g: Grid, k: int)
    requires
        0 <= k <= ENTRY_SLOTS,
    ensures
        k <= first_blank_from(g, k) <= ENTRY_SLOTS,
    decreases ENTRY_SLOTS - k,
{
    if k < ENTRY_SLOTS && g[0][ENTRY_START + k] != BLANK {
        lemma_first_blank(g, k + 1);
    }
}

/// The rules of the shell hold after every tick: after it has chosen its
/// window, and after the step of that window was reported.
pub proof fn lemma_tick_keeps_rules(
    m: Shell,
    w: int,
    grid: Grid,
    pending: bool,
    outcome: TickOutcome,
)
    requires
        shell_wf(m),
        is_grid(grid),
    ensures
        shell_wf(polled(m)),
        shell_wf(stepped(m, w, grid, pending, outcome)),
{
    lemma_windows_keep_rules(m, polled(m));
    if can_step(m, w) {
        lemma_stream_is_grid(
            Sink { grid, cursor: content_end(grid, w), pending },
            w,
            done_text(),
            done_text().len() as int,
        );
    }
    lemma_windows_keep_rules(m, stepped(m, w, grid, pending, outcome));
}

/// The rules of the shell hold after a source was loaded for editing, after
/// a redraw that was shown a listing, and after the counters were drawn.
pub proof fn lemma_load_and_draw_keep_rules(m: Shell, text: Seq<u8>, count: int, names: Names)
    requires
        shell_wf(m),
        is_names(names),
        0 <= count,
    ensures
        shell_wf(loaded(m, text)),
        shell_wf(drawn(m, count, names)),
        shell_wf(with_status(m)),
{
    if can_load(m) {
        lemma_stream_is_grid(
            Sink { grid: clear_grid(m.grid, m.active), cursor: 0, pending: false },
            m.active,
            text,
            text.len() as int,
        );
    }
    lemma_windows_keep_rules(m, loaded(m, text));
    let shown = refreshed(m, false, count, names);
    lemma_windows_keep_rules(m, shown);
    lemma_windows_keep_rules(shown, drawn(m, count, names));
    lemma_windows_keep_rules(m, with_status(m));
}

} // verus!
