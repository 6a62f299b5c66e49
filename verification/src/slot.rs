//! The process slot of a window: whether a program runs in it, whether that
//! program waits for input, and what was typed for it since the last step.

use vstd::prelude::*;
use crate::status::MAX_TICKS;

verus! {

/// Characters that a slot's input accumulator holds at most.
pub const MAX_INPUT_CHARS: usize = 20;

/// A process slot as contracts speak of it.
#[verifier::ext_equal]
pub struct SlotModel {
    /// A program is loaded and stepping.
    pub running: bool,
    /// The program has asked for input and is suspended until it comes.
    pub awaiting_input: bool,
    /// The program has ended; its output is still shown.
    pub finished: bool,
    /// The characters typed for the program since the last delivery.
    pub input: Seq<char>,
    /// The typed characters were committed and go to the program at its next step.
    pub input_ready: bool,
    /// The next character written into the window starts a new row.
    pub pending_line: bool,
    /// Steps that the program has taken and that left it running.
    pub ticks: int,
}

/// The slot of a window in which nothing runs.
pub open spec fn idle_slot() -> SlotModel {
    SlotModel {
        running: false,
        awaiting_input: false,
        finished: false,
        input: Seq::empty(),
        input_ready: false,
        pending_line: false,
        ticks: 0,
    }
}

/// The slot of a window in which a program has just been started. The step
/// count goes on from `ticks`.
pub open spec fn started_slot(ticks: int) -> SlotModel {
    SlotModel { running: true, ticks, ..idle_slot() }
}

/// Whether the scheduler may step the slot's program.
pub open spec fn eligible(s: SlotModel) -> bool {
    s.running && !s.awaiting_input
}

/// The step count after one more step: it stops at the largest count shown.
pub open spec fn next_ticks(ticks: int) -> int {
    if ticks < MAX_TICKS {
        ticks + 1
    } else {
        MAX_TICKS as int
    }
}

/// What holds of every slot: a program waits only while it runs, and has
/// ended only when it runs no more.
pub open spec fn slot_wf(s: SlotModel) -> bool {
    &&& s.awaiting_input ==> s.running
    &&& s.finished ==> !s.running
    &&& s.input.len() <= MAX_INPUT_CHARS
    &&& 0 <= s.ticks <= MAX_TICKS
}

/// The process slot of one window.
#[derive(Clone, Copy, Debug)]
pub struct ProcessSlot {
    /// A program is loaded and stepping.
    pub running: bool,
    /// The program has asked for input and is suspended until it comes.
    pub awaiting_input: bool,
    /// The program has ended; its output is still shown.
    pub finished: bool,
    /// The input accumulator; its first `input_len` characters count.
    pub input: [char; MAX_INPUT_CHARS],
    /// Number of characters typed since the last delivery.
    pub input_len: usize,
    /// The typed characters were committed with enter.
    pub input_ready: bool,
    /// The next character written into the window starts a new row.
    pub pending_line: bool,
    /// Steps that the program has taken and that left it running.
    pub ticks: usize,
}

impl View for ProcessSlot {
    type V = SlotModel;

    open spec fn view(&self) -> SlotModel {
        SlotModel {
            running: self.running,
            awaiting_input: self.awaiting_input,
            finished: self.finished,
            input: self.input@.subrange(0, self.input_len as int),
            input_ready: self.input_ready,
            pending_line: self.pending_line,
            ticks: self.ticks as int,
        }
    }
}

impl ProcessSlot {
    /// Whether the record is one that the shell keeps: the accumulator's
    /// length is within its capacity, and the model's rules hold.
    pub open spec fn wf(&self) -> bool {
        &&& self.input_len <= MAX_INPUT_CHARS
        &&& slot_wf(self@)
    }

    /// The slot of a window in which nothing runs: no flag is set, the step
    /// count is 0, and the accumulator is empty, each of its cells holding
    /// the character of code 0.
    pub fn new() -> (slot: ProcessSlot)
        ensures
            slot@ == idle_slot(),
            slot.wf(),
            slot.input_len == 0,
            forall|i: int| 0 <= i < MAX_INPUT_CHARS ==> #[trigger] slot.input[i] == '\0',
    {
        let slot = ProcessSlot {
            running: false,
            awaiting_input: false,
            finished: false,
            input: ['\0'; MAX_INPUT_CHARS],
            input_len: 0,
            input_ready: false,
            pending_line: false,
            ticks: 0,
        };
        assert(slot@.input =~= Seq::empty());
        slot
    }

    /// The slot of a window in which a program has just been started.
    pub fn started(ticks: usize) -> (slot: ProcessSlot)
        requires
            ticks <= MAX_TICKS,
        ensures
            slot@ == started_slot(ticks as int),
            slot.wf(),
    {
        let mut slot = ProcessSlot::new();
        slot.running = true;
        slot.ticks = ticks;
        assert(slot@.input =~= Seq::empty());
        slot
    }

    /// Whether the scheduler may step the slot's program.
    pub fn is_eligible(&self) -> (b: bool)
        ensures
            b == eligible(self@),
    {
        self.running && !self.awaiting_input
    }

    /// Appends one typed character to the accumulator.
    pub fn push_input(&mut self, key: char)
        requires
            old(self).wf(),
            old(self)@.input.len() < MAX_INPUT_CHARS,
        ensures
            final(self)@ == (SlotModel { input: old(self)@.input.push(key), ..old(self)@ }),
            final(self).wf(),
    {
        self.input[self.input_len] = key;
        self.input_len = self.input_len + 1;
        assert(self@.input =~= old(self)@.input.push(key));
    }

    /// Takes the typed characters out of the accumulator.
    pub fn take_input(&mut self) -> (typed: Vec<char>)
        requires
            old(self).wf(),
        ensures
            typed@ == old(self)@.input,
            final(self)@ == (SlotModel {
                input: Seq::empty(),
                input_ready: false,
                ..old(self)@
            }),
            final(self).wf(),
    {
        let mut typed: Vec<char> = Vec::new();
        let mut i: usize = 0;
        while i < self.input_len
            invariant
                i <= self.input_len <= MAX_INPUT_CHARS,
                *self == *old(self),
                typed@ == self.input@.subrange(0, i as int),
            decreases self.input_len - i,
        {
            typed.push(self.input[i]);
            assert(self.input@.subrange(0, i as int + 1) =~= self.input@.subrange(0, i as int).push(
                self.input@[i as int],
            ));
            i += 1;
        }
        self.input_len = 0;
        self.input_ready = false;
        assert(self@.input =~= Seq::empty());
        typed
    }

    /// Counts one more step.
    pub fn count_tick(&mut self)
        requires
            old(self).wf(),
        ensures
            final(self)@ == (SlotModel { ticks: next_ticks(old(self)@.ticks), ..old(self)@ }),
            final(self).wf(),
    {
        if self.ticks < MAX_TICKS {
            self.ticks = self.ticks + 1;
        }
    }
}

} // verus!
