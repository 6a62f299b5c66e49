use quad_shell::browser::NameTable;
use quad_shell::event::{Action, Key, RawKey, TickOutcome};
use quad_shell::kernel::{done_marker, Kernel, Step};
use quad_shell::layout::{blank_screen, Screen};
use quad_shell::output::KernelOutput;
use quad_shell::slot::ProcessSlot;

fn listing(names: &[&str]) -> NameTable {
    let mut table = [[0u8; 10]; 30];
    for (i, name) in names.iter().enumerate() {
        for (j, b) in name.bytes().enumerate() {
            table[i][j] = b;
        }
    }
    table
}

fn row_text(screen: &Screen, row: usize, from: usize, len: usize) -> String {
    screen[row][from..from + len].iter().collect()
}

fn shell() -> Kernel {
    let mut kernel = Kernel::new();
    kernel.draw(2, &listing(&["hello", "add_one"]));
    kernel
}

fn start_in(kernel: &mut Kernel, code: RawKey) {
    kernel.key(Key::Raw(code));
    kernel.key(Key::Unicode('r'));
}

fn window_of(step: &Step) -> usize {
    step.output.return_values().0
}

/// One tick in which the stepped program prints `text` and ends in `outcome`.
/// Returns the window that was stepped, if any, and the input handed over.
fn tick(kernel: &mut Kernel, text: &[u8], outcome: TickOutcome) -> Option<(usize, Option<String>)> {
    let step = kernel.run_one_instruction()?;
    let mut output = step.output;
    output.print(text);
    kernel.finish_instruction(&output, outcome);
    Some((window_of(&step), step.input.map(|typed| typed.into_iter().collect())))
}

#[test]
fn r_starts_the_selected_program() {
    let mut kernel = shell();
    kernel.key(Key::Raw(RawKey::ArrowRight));
    let action = kernel.key(Key::Unicode('r'));
    assert!(matches!(
        action,
        Action::StartProgram { window: 1, name } if &name == b"add_one\0\0\0"
    ));
    let slot = kernel.slot(1).unwrap();
    assert!(slot.running && !slot.awaiting_input && !slot.finished);
    assert_eq!(row_text(&kernel.screen(), 2, 1, 34), " ".repeat(34));
    assert!(matches!(kernel.key(Key::Unicode('r')), Action::Nothing));
}

#[test]
fn hello_world_shows_after_one_tick() {
    let mut kernel = shell();
    kernel.key(Key::Raw(RawKey::F1));
    assert!(matches!(kernel.key(Key::Unicode('r')), Action::StartProgram { window: 1, .. }));
    let stepped = tick(&mut kernel, b"Hello, world!", TickOutcome::Continue);
    assert_eq!(stepped, Some((1, None)));
    assert_eq!(row_text(&kernel.screen(), 2, 1, 14), "Hello, world! ");
    assert_eq!(kernel.slot(1).unwrap().ticks, 1);
}

#[test]
fn a_finished_program_gets_the_marker_after_its_output() {
    let mut kernel = shell();
    start_in(&mut kernel, RawKey::F1);
    tick(&mut kernel, b"Hello, world!", TickOutcome::Continue);
    for _ in 0..3 {
        assert_eq!(tick(&mut kernel, b"", TickOutcome::Continue), None);
    }
    assert_eq!(tick(&mut kernel, b"", TickOutcome::Finished), Some((1, None)));
    let slot = kernel.slot(1).unwrap();
    assert!(!slot.running);
    assert!(slot.finished);
    assert_eq!(slot.ticks, 1);
    assert_eq!(row_text(&kernel.screen(), 2, 1, 20), "Hello, world![DONE] ");
    for _ in 0..8 {
        assert_eq!(tick(&mut kernel, b"x", TickOutcome::Continue), None);
    }
    assert_eq!(row_text(&kernel.screen(), 2, 1, 20), "Hello, world![DONE] ");
}

#[test]
fn the_marker_starts_a_new_row_after_a_line_feed() {
    let mut kernel = shell();
    start_in(&mut kernel, RawKey::F3);
    for _ in 0..2 {
        assert_eq!(tick(&mut kernel, b"", TickOutcome::Continue), None);
    }
    assert_eq!(tick(&mut kernel, b"1\n257\n", TickOutcome::Finished), Some((3, None)));
    let screen = kernel.screen();
    assert_eq!(row_text(&screen, 13, 1, 2), "1 ");
    assert_eq!(row_text(&screen, 14, 1, 4), "257 ");
    assert_eq!(row_text(&screen, 15, 1, 7), "[DONE] ");
    assert!(!kernel.slot(3).unwrap().pending_line);
}

#[test]
fn the_marker_is_cut_short_where_the_window_ends() {
    let mut kernel = shell();
    start_in(&mut kernel, RawKey::F1);
    let full = vec![b'#'; 337];
    tick(&mut kernel, &full, TickOutcome::Finished);
    assert_eq!(row_text(&kernel.screen(), 11, 31, 4), "#[DO");
    assert!(kernel.slot(1).unwrap().finished);
    assert_eq!(kernel.screen()[12][1], '*');
}

#[test]
fn four_ticks_step_each_window_once() {
    let mut kernel = shell();
    for code in [RawKey::F1, RawKey::F2, RawKey::F3, RawKey::F4] {
        start_in(&mut kernel, code);
    }
    for start in 0..4 {
        for _ in 0..start {
            tick(&mut kernel, b"", TickOutcome::Continue);
        }
        let mut steps = [0usize; 5];
        for _ in 0..4 {
            let (window, _) = tick(&mut kernel, b".", TickOutcome::Continue).unwrap();
            steps[window] += 1;
        }
        assert_eq!(steps, [0, 1, 1, 1, 1]);
    }
}

#[test]
fn the_turn_moves_on_when_no_program_runs() {
    let mut kernel = shell();
    for expected in [1usize, 2, 3, 0, 1] {
        assert!(kernel.run_one_instruction().is_none());
        assert_eq!(kernel.turn(), expected);
    }
}

#[test]
fn windows_are_stepped_in_order() {
    let mut kernel = shell();
    start_in(&mut kernel, RawKey::F4);
    start_in(&mut kernel, RawKey::F2);
    let mut order = Vec::new();
    for _ in 0..8 {
        if let Some((window, _)) = tick(&mut kernel, b"", TickOutcome::Continue) {
            order.push(window);
        }
    }
    assert_eq!(order, vec![2, 4, 2, 4]);
    assert_eq!(kernel.slot(2).unwrap().ticks, 2);
    assert_eq!(kernel.slot(4).unwrap().ticks, 2);
    assert_eq!(kernel.slot(1).unwrap().ticks, 0);
}

#[test]
fn input_is_typed_and_delivered_at_the_next_step() {
    let mut kernel = shell();
    kernel.key(Key::Raw(RawKey::ArrowRight));
    kernel.key(Key::Unicode('r'));
    assert_eq!(tick(&mut kernel, b"Enter a number", TickOutcome::NeedsInput), Some((1, None)));
    let slot = kernel.slot(1).unwrap();
    assert!(slot.awaiting_input && slot.running);
    assert!(kernel.waiting_check());
    assert_eq!(slot.ticks, 0);
    for _ in 0..7 {
        assert_eq!(tick(&mut kernel, b"", TickOutcome::Continue), None);
    }
    assert_eq!(kernel.turn(), 0);
    kernel.key(Key::Unicode('5'));
    assert_eq!(row_text(&kernel.screen(), 2, 1, 16), "Enter a number5 ");
    assert!(kernel.slot(1).unwrap().awaiting_input);
    assert!(matches!(kernel.key(Key::Unicode('\n')), Action::Nothing));
    let slot = kernel.slot(1).unwrap();
    assert!(!slot.awaiting_input && slot.input_ready && slot.pending_line);
    assert!(!kernel.waiting_check());
    assert_eq!(
        tick(&mut kernel, b"", TickOutcome::Continue),
        Some((1, Some("5".to_string())))
    );
    let slot = kernel.slot(1).unwrap();
    assert!(!slot.input_ready);
    assert_eq!(slot.input_len, 0);
    assert_eq!(slot.ticks, 1);
    for _ in 0..3 {
        tick(&mut kernel, b"", TickOutcome::Continue);
    }
    assert_eq!(tick(&mut kernel, b"6\n", TickOutcome::Continue), Some((1, None)));
    assert_eq!(row_text(&kernel.screen(), 3, 1, 2), "6 ");
}

#[test]
fn keys_reach_only_the_waiting_program_of_the_active_window() {
    let mut kernel = shell();
    start_in(&mut kernel, RawKey::F1);
    tick(&mut kernel, b"?", TickOutcome::NeedsInput);
    kernel.key(Key::Raw(RawKey::F2));
    let before = kernel.screen();
    kernel.key(Key::Unicode('7'));
    kernel.key(Key::Unicode('\n'));
    assert_eq!(kernel.screen(), before);
    let slot = kernel.slot(1).unwrap();
    assert!(slot.awaiting_input);
    assert_eq!(slot.input_len, 0);
    kernel.key(Key::Raw(RawKey::F1));
    kernel.key(Key::Unicode('r'));
    kernel.key(Key::Unicode('e'));
    kernel.key(Key::Unicode('\u{8}'));
    kernel.key(Key::Unicode('\u{e9}'));
    let slot = kernel.slot(1).unwrap();
    assert_eq!(slot.input_len, 2);
    assert_eq!(&slot.input[0..2], &['r', 'e']);
    assert_eq!(row_text(&kernel.screen(), 2, 1, 4), "?re ");
}

#[test]
fn the_accumulator_takes_twenty_characters() {
    let mut kernel = shell();
    start_in(&mut kernel, RawKey::F1);
    tick(&mut kernel, b"", TickOutcome::NeedsInput);
    for c in "abcdefghijklmnopqrstuvwxyz".chars() {
        kernel.key(Key::Unicode(c));
    }
    assert_eq!(kernel.slot(1).unwrap().input_len, 20);
    assert_eq!(row_text(&kernel.screen(), 2, 1, 21), "abcdefghijklmnopqrst ");
    kernel.key(Key::Unicode('\n'));
    for _ in 0..3 {
        tick(&mut kernel, b"", TickOutcome::Continue);
    }
    assert_eq!(
        tick(&mut kernel, b"", TickOutcome::Continue),
        Some((1, Some("abcdefghijklmnopqrst".to_string())))
    );
}

#[test]
fn enter_without_typing_delivers_empty_input() {
    let mut kernel = shell();
    start_in(&mut kernel, RawKey::F2);
    tick(&mut kernel, b"", TickOutcome::Continue);
    assert_eq!(tick(&mut kernel, b"", TickOutcome::NeedsInput), Some((2, None)));
    kernel.key(Key::Unicode('\n'));
    for _ in 0..3 {
        assert_eq!(tick(&mut kernel, b"", TickOutcome::Continue), None);
    }
    assert_eq!(tick(&mut kernel, b"", TickOutcome::Continue), Some((2, Some(String::new()))));
}

#[test]
fn f6_drops_the_program_and_resets_the_slot() {
    let mut kernel = shell();
    start_in(&mut kernel, RawKey::F1);
    tick(&mut kernel, b"output", TickOutcome::Continue);
    for _ in 0..3 {
        tick(&mut kernel, b"", TickOutcome::Continue);
    }
    tick(&mut kernel, b"?", TickOutcome::NeedsInput);
    kernel.key(Key::Unicode('4'));
    assert_eq!(kernel.slot(1).unwrap().ticks, 1);
    let action = kernel.key(Key::Raw(RawKey::F6));
    assert!(matches!(action, Action::DropProgram { window: 1 }));
    let slot = kernel.slot(1).unwrap();
    assert!(!slot.running && !slot.awaiting_input && !slot.finished);
    assert!(!slot.input_ready && !slot.pending_line);
    assert_eq!(slot.input_len, 0);
    assert_eq!(slot.ticks, 0);
    assert!(!kernel.waiting_check());
    let screen = kernel.screen();
    assert_eq!(row_text(&screen, 2, 1, 5), "hello");
    assert_eq!(row_text(&screen, 2, 12, 7), "add_one");
    assert_eq!(screen[1][0], '*');
    assert_eq!(kernel.window(1).unwrap().cursor, 0);
    assert!(tick(&mut kernel, b"late", TickOutcome::Continue).is_none());
}

#[test]
fn the_count_stops_at_four_digits() {
    let mut kernel = shell();
    start_in(&mut kernel, RawKey::F1);
    for _ in 0..4 * 10_001 {
        tick(&mut kernel, b"", TickOutcome::Continue);
    }
    assert_eq!(kernel.slot(1).unwrap().ticks, 9999);
    assert_eq!(kernel.tick_numbers(0), ('9', '9', '9', '9'));
    kernel.draw_proc_status();
    assert_eq!(row_text(&kernel.screen(), 1, 71, 4), "9999");
}

#[test]
fn only_steps_that_go_on_are_counted() {
    let mut kernel = shell();
    start_in(&mut kernel, RawKey::F1);
    tick(&mut kernel, b"", TickOutcome::Continue);
    for _ in 0..3 {
        tick(&mut kernel, b"", TickOutcome::Continue);
    }
    tick(&mut kernel, b"", TickOutcome::NeedsInput);
    assert_eq!(kernel.slot(1).unwrap().ticks, 1);
    kernel.key(Key::Unicode('\n'));
    for _ in 0..3 {
        tick(&mut kernel, b"", TickOutcome::Continue);
    }
    tick(&mut kernel, b"", TickOutcome::Finished);
    assert_eq!(kernel.slot(1).unwrap().ticks, 1);
    kernel.draw_proc_status();
    assert_eq!(row_text(&kernel.screen(), 1, 71, 4), "   1");
}

#[test]
fn a_fault_halts_the_shell() {
    let mut kernel = shell();
    start_in(&mut kernel, RawKey::F1);
    start_in(&mut kernel, RawKey::F2);
    assert_eq!(tick(&mut kernel, b"boom", TickOutcome::Error), Some((1, None)));
    assert!(kernel.is_halted());
    assert_eq!(row_text(&kernel.screen(), 2, 1, 5), "boom ");
    let turn = kernel.turn();
    let before = kernel.screen();
    assert!(kernel.run_one_instruction().is_none());
    assert_eq!(kernel.turn(), turn);
    assert!(matches!(kernel.key(Key::Raw(RawKey::F3)), Action::Nothing));
    assert!(matches!(kernel.key(Key::Raw(RawKey::F6)), Action::Nothing));
    assert!(matches!(kernel.key(Key::Unicode('r')), Action::Nothing));
    assert_eq!(kernel.active(), 2);
    assert_eq!(kernel.screen(), before);
    assert!(kernel.slot(2).unwrap().running);
    let output = KernelOutput::new(2, blank_screen(), false);
    kernel.finish_instruction(&output, TickOutcome::Finished);
    assert_eq!(kernel.screen(), before);
    assert!(kernel.slot(2).unwrap().running);
}

#[test]
fn a_report_for_a_window_that_was_not_stepped_is_ignored() {
    let mut kernel = shell();
    let before = kernel.screen();
    for w in 0..7 {
        let output = KernelOutput::new(w, blank_screen(), true);
        kernel.finish_instruction(&output, TickOutcome::Finished);
        kernel.finish_instruction(&output, TickOutcome::Error);
    }
    assert_eq!(kernel.screen(), before);
    assert!(!kernel.is_halted());
    for w in 1..=4 {
        assert!(!kernel.slot(w).unwrap().finished);
    }
}

#[test]
fn a_finished_program_can_be_started_again() {
    let mut kernel = shell();
    start_in(&mut kernel, RawKey::F1);
    tick(&mut kernel, b"first", TickOutcome::Continue);
    for _ in 0..3 {
        tick(&mut kernel, b"", TickOutcome::Continue);
    }
    tick(&mut kernel, b"", TickOutcome::Finished);
    assert!(kernel.slot(1).unwrap().finished);
    let action = kernel.key(Key::Unicode('r'));
    assert!(matches!(action, Action::StartProgram { window: 1, .. }));
    let slot = kernel.slot(1).unwrap();
    assert!(slot.running && !slot.finished);
    assert_eq!(slot.ticks, 1);
    assert_eq!(row_text(&kernel.screen(), 2, 1, 11), " ".repeat(11));
}

#[test]
fn a_sink_prints_into_its_own_window() {
    let mut output = KernelOutput::new(4, blank_screen(), false);
    output.print(b"a\n");
    output.print(b"b");
    let (window, screen, pending) = output.return_values();
    assert_eq!(window, 4);
    assert!(!pending);
    assert_eq!(screen[13][36], 'a');
    assert_eq!(screen[14][36], 'b');
    let mut stray = KernelOutput::new(9, blank_screen(), true);
    stray.print(b"lost");
    let (window, screen, pending) = stray.return_values();
    assert_eq!(window, 9);
    assert!(pending);
    assert_eq!(screen, blank_screen());
}

#[test]
fn the_marker_reads_done() {
    assert_eq!(&done_marker(), b"[DONE]");
}

#[test]
fn a_slot_keeps_what_is_typed_until_it_is_taken() {
    let mut slot = ProcessSlot::new();
    assert!(!slot.is_eligible());
    slot.push_input('4');
    slot.push_input('2');
    assert_eq!(slot.input_len, 2);
    let typed = slot.take_input();
    assert_eq!(typed, vec!['4', '2']);
    assert_eq!(slot.input_len, 0);
    assert!(slot.take_input().is_empty());
    let mut started = ProcessSlot::started(9998);
    assert!(started.is_eligible());
    started.count_tick();
    assert_eq!(started.ticks, 9999);
    started.count_tick();
    assert_eq!(started.ticks, 9999);
}

#[test]
fn a_new_slot_is_idle_and_its_accumulator_is_cleared() {
    let slot = ProcessSlot::new();
    assert!(!slot.running && !slot.awaiting_input && !slot.finished);
    assert!(!slot.input_ready && !slot.pending_line);
    assert_eq!(slot.ticks, 0);
    assert_eq!(slot.input_len, 0);
    assert_eq!(slot.input, ['\0'; 20]);
}
