//! The reset sequence: the states a device walks through between a hardware
//! reset and its final loop, what it does in each of them, and a model of
//! the machine on which the effects can be observed.

use vstd::prelude::*;
use crate::layout::MemoryLayout;

verus! {

/// Progress of a device through its one-shot startup sequence.
#[derive(Clone, Copy, Debug, PartialEq, Eq, Structural)]
pub enum BootState {
    /// Reset was raised; the stack pointer is not yet valid.
    Reset,
    /// The stack is usable; static memory is being initialized.
    MemoryInit,
    /// The program's entry point has control.
    Running,
    /// The entry point returned; the device loops and still takes interrupts.
    Idle,
    /// A fatal condition was reported; the device loops with interrupts off.
    Halted,
}

/// What the sequencer learns from the outside.
#[derive(Clone, Copy, Debug, PartialEq, Eq, Structural)]
pub enum Event {
    /// The work of the current state is done.
    Completed,
    /// The program's entry point returned.
    EntryReturned,
    /// The program reported a condition it cannot recover from.
    FatalReported,
}

/// What the device has to do on entering a state.
#[derive(Clone, Copy, Debug, PartialEq, Eq, Structural)]
pub enum Action {
    /// Load the stack pointer with the given address.
    SetStackPointer(u16),
    /// Run the memory initializer.
    InitMemory,
    /// Call the program's entry point with the given argument count and
    /// argument vector address.
    CallEntry { argc: isize, argv: usize },
    /// Loop forever, leaving the interrupt enable flag as it is.
    Spin,
    /// Clear the interrupt enable flag, then loop forever.
    MaskInterruptsAndSpin,
}

/// Position of a state in the startup sequence.
pub open spec fn rank(state: BootState) -> nat {
    match state {
        BootState::Reset => 0,
        BootState::MemoryInit => 1,
        BootState::Running => 2,
        BootState::Idle => 3,
        BootState::Halted => 4,
    }
}

/// The state that follows `state` on `event`, if the event moves the
/// sequence on from that state.
pub open spec fn successor(state: BootState, event: Event) -> Option<BootState> {
    match (state, event) {
        (BootState::Reset, Event::Completed) => Some(BootState::MemoryInit),
        (BootState::MemoryInit, Event::Completed) => Some(BootState::Running),
        (BootState::Running, Event::EntryReturned) => Some(BootState::Idle),
        (BootState::Running, Event::FatalReported) => Some(BootState::Halted),
        _ => None,
    }
}

/// The work that belongs to `state` under `layout`.
pub open spec fn duty(state: BootState, layout: MemoryLayout) -> Action {
    match state {
        BootState::Reset => Action::SetStackPointer(layout.stack_top),
        BootState::MemoryInit => Action::InitMemory,
        BootState::Running => Action::CallEntry { argc: 0, argv: 0 },
        BootState::Idle => Action::Spin,
        BootState::Halted => Action::MaskInterruptsAndSpin,
    }
}

/// The state reached from `state` after `events`, where an event that does
/// not move the sequence on is ignored.
pub open spec fn state_after(state: BootState, events: Seq<Event>) -> BootState
    decreases events.len(),
{
    if events.len() == 0 {
        state
    } else {
        let before = state_after(state, events.drop_last());
        match successor(before, events.last()) {
            Some(next) => next,
            None => before,
        }
    }
}

/// Computes the work that belongs to `state`.
pub fn duty_of(state: BootState, layout: &MemoryLayout) -> (action: Action)
    ensures
        action == duty(state, *layout),
{
    match state {
        BootState::Reset => Action::SetStackPointer(layout.stack_top),
        BootState::MemoryInit => Action::InitMemory,
        BootState::Running => Action::CallEntry { argc: 0, argv: 0 },
        BootState::Idle => Action::Spin,
        BootState::Halted => Action::MaskInterruptsAndSpin,
    }
}

/// Computes the state that follows `state` on `event`.
pub fn advance(state: BootState, event: Event) -> (next: Option<BootState>)
    ensures
        next == successor(state, event),
{
    match state {
        BootState::Reset => match event {
            Event::Completed => Some(BootState::MemoryInit),
            _ => None,
        },
        BootState::MemoryInit => match event {
            Event::Completed => Some(BootState::Running),
            _ => None,
        },
        BootState::Running => match event {
            Event::EntryReturned => Some(BootState::Idle),
            Event::FatalReported => Some(BootState::Halted),
            Event::Completed => None,
        },
        BootState::Idle => None,
        BootState::Halted => None,
    }
}

/// One step of the sequencer: the state that follows `state` on `event`
/// together with the work to do there, or nothing where the event does not
/// move the sequence on.
pub fn step(state: BootState, event: Event, layout: &MemoryLayout) -> (moved: Option<
    (BootState, Action),
>)
    ensures
        moved == match successor(state, event) {
            Some(next) => Some((next, duty(next, *layout))),
            None => None,
        },
{
    match advance(state, event) {
        Some(next) => Some((next, duty_of(next, layout))),
        None => None,
    }
}

/// Every transition leads to a state later in the sequence.
pub proof fn lemma_transitions_ascend(state: BootState, event: Event)
    ensures
        successor(state, event) matches Some(next) ==> rank(state) < rank(next),
{
}

/// The sequence has four transitions and no other: from reset to memory
/// initialization, from there to the running program, and from the running
/// program to either final state.
pub proof fn lemma_transition_table(state: BootState, event: Event)
    ensures
        successor(state, event) matches Some(next) ==> {
            ||| state == BootState::Reset && next == BootState::MemoryInit
            ||| state == BootState::MemoryInit && next == BootState::Running
            ||| state == BootState::Running && next == BootState::Idle
            ||| state == BootState::Running && next == BootState::Halted
        },
{
}

/// The idle and the halted state are never left.
pub proof fn lemma_final_states_absorb(state: BootState, events: Seq<Event>)
    requires
        state == BootState::Idle || state == BootState::Halted,
    ensures
        state_after(state, events) == state,
    decreases events.len(),
{
    if events.len() > 0 {
        lemma_final_states_absorb(state, events.drop_last());
    }
}

/// Along any run the position in the sequence never falls.
pub proof fn lemma_runs_ascend(state: BootState, events: Seq<Event>, i: int, j: int)
    requires
        0 <= i <= j <= events.len(),
    ensures
        rank(state_after(state, events.take(i))) <= rank(state_after(state, events.take(j))),
    decreases j - i,
{
    if i < j {
        lemma_runs_ascend(state, events, i, j - 1);
        assert(events.take(j).drop_last() =~= events.take(j - 1));
        lemma_transitions_ascend(state_after(state, events.take(j - 1)), events.take(j).last());
    }
}

/// No state is revisited: a state that a run is in at two moments is the
/// state it is in at every moment between them.
pub proof fn lemma_no_state_revisited(
    state: BootState,
    events: Seq<Event>,
    i: int,
    j: int,
    k: int,
)
    requires
        0 <= i <= j <= k <= events.len(),
        state_after(state, events.take(i)) == state_after(state, events.take(k)),
    ensures
        state_after(state, events.take(j)) == state_after(state, events.take(i)),
{
    lemma_runs_ascend(state, events, i, j);
    lemma_runs_ascend(state, events, j, k);
}

} // verus!
