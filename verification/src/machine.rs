//! A model of the device on which the effects of the reset sequence can be
//! observed: its memory, its stack pointer and its interrupt enable flag.

use vstd::prelude::*;
use crate::boot::{advance, duty, duty_of, successor, Action, BootState, Event};
use crate::layout::{LayoutError, MemoryLayout};
use crate::memory::{init_memory, initialized};

verus! {

/// The device as the reset sequence sees it.
pub struct Machine {
    /// Progress through the startup sequence.
    pub state: BootState,
    /// Content of the stack pointer register.
    pub stack_pointer: u16,
    /// The global interrupt enable flag.
    pub interrupts_enabled: bool,
    /// Memory, indexed by address.
    pub memory: Vec<u8>,
    /// The boundary addresses that the image was linked with.
    pub layout: MemoryLayout,
}

/// The mathematical content of a [`Machine`].
pub struct MachineView {
    /// Progress through the startup sequence.
    pub state: BootState,
    /// Content of the stack pointer register.
    pub stack_pointer: u16,
    /// The global interrupt enable flag.
    pub interrupts_enabled: bool,
    /// Memory, indexed by address.
    pub memory: Seq<u8>,
    /// The boundary addresses that the image was linked with.
    pub layout: MemoryLayout,
}

impl View for Machine {
    type V = MachineView;

    open spec fn view(&self) -> MachineView {
        MachineView {
            state: self.state,
            stack_pointer: self.stack_pointer,
            interrupts_enabled: self.interrupts_enabled,
            memory: self.memory@,
            layout: self.layout,
        }
    }
}

/// The machine `m` after `event`.
///
/// An event that does not move the sequence on leaves the machine as it is.
/// Leaving reset loads the stack pointer, leaving memory initialization
/// leaves memory initialized, and entering the halted state clears the
/// interrupt enable flag; nothing else changes.
pub open spec fn evolve(m: MachineView, event: Event) -> MachineView {
    match successor(m.state, event) {
        None => m,
        Some(next) => MachineView {
            state: next,
            stack_pointer: if m.state == BootState::Reset {
                m.layout.stack_top
            } else {
                m.stack_pointer
            },
            interrupts_enabled: m.interrupts_enabled && next != BootState::Halted,
            memory: if m.state == BootState::MemoryInit {
                initialized(m.memory, m.layout)
            } else {
                m.memory
            },
            layout: m.layout,
        },
    }
}

/// The machine `m` after `events`, one after the other.
pub open spec fn run(m: MachineView, events: Seq<Event>) -> MachineView
    decreases events.len(),
{
    if events.len() == 0 {
        m
    } else {
        evolve(run(m, events.drop_last()), events.last())
    }
}

impl Machine {
    /// Initialization under the machine's layout stays inside its memory.
    pub open spec fn wf(&self) -> bool {
        self.layout.in_bounds(self.memory@.len() as int)
    }

    /// The machine as a hardware reset leaves it: in the reset state, with
    /// the given memory content and interrupt enable flag. Fails where
    /// initialization under `layout` would leave the memory.
    pub fn power_on(layout: MemoryLayout, memory: Vec<u8>, interrupts_enabled: bool) -> (made:
        Result<Machine, LayoutError>)
        ensures
            made is Ok <==> layout.in_bounds(memory@.len() as int),
            made matches Err(e) ==> e == LayoutError::OutOfBounds,
            made matches Ok(m) ==> m.wf() && m@ == (MachineView {
                state: BootState::Reset,
                stack_pointer: 0,
                interrupts_enabled,
                memory: memory@,
                layout,
            }),
    {
        if layout.is_in_bounds(memory.len()) {
            Ok(
                Machine {
                    state: BootState::Reset,
                    stack_pointer: 0,
                    interrupts_enabled,
                    memory,
                    layout,
                },
            )
        } else {
            Err(LayoutError::OutOfBounds)
        }
    }

    /// Takes the machine through `event` and tells what the device has to
    /// do next, or nothing where the event does not move the sequence on.
    pub fn handle(&mut self, event: Event) -> (todo: Option<Action>)
        requires
            old(self).wf(),
        ensures
            final(self).wf(),
            final(self)@ == evolve(old(self)@, event),
            todo == match successor(old(self).state, event) {
                Some(next) => Some(duty(next, old(self).layout)),
                None => None,
            },
    {
        match advance(self.state, event) {
            None => None,
            Some(next) => {
                match self.state {
                    BootState::Reset => {
                        self.stack_pointer = self.layout.stack_top;
                    },
                    BootState::MemoryInit => {
                        init_memory(&mut self.memory, &self.layout);
                    },
                    _ => {},
                }
                match next {
                    BootState::Halted => {
                        self.interrupts_enabled = false;
                    },
                    _ => {},
                }
                self.state = next;
                Some(duty_of(next, &self.layout))
            },
        }
    }
}

/// From reset the machine reaches the program's entry point in two steps,
/// with the stack pointer at the top of stack, memory initialized, and the
/// interrupt enable flag as the hardware left it.
pub proof fn lemma_boot_reaches_entry(m: MachineView)
    requires
        m.state == BootState::Reset,
    ensures
        run(m, seq![Event::Completed, Event::Completed]) == (MachineView {
            state: BootState::Running,
            stack_pointer: m.layout.stack_top,
            interrupts_enabled: m.interrupts_enabled,
            memory: initialized(m.memory, m.layout),
            layout: m.layout,
        }),
{
    let events = seq![Event::Completed, Event::Completed];
    assert(events.drop_last() =~= seq![Event::Completed]);
    assert(events.drop_last().drop_last() =~= Seq::<Event>::empty());
    assert(run(m, events.drop_last().drop_last()) == m);
    assert(run(m, events.drop_last()) == evolve(m, Event::Completed));
}

/// The entry point gets control only with memory initialized: whenever an
/// event takes the machine into the running state, memory is what the
/// initializer makes of the memory before the event.
pub proof fn lemma_memory_ready_before_entry(m: MachineView, event: Event)
    requires
        m.state != BootState::Running,
        evolve(m, event).state == BootState::Running,
    ensures
        m.state == BootState::MemoryInit,
        evolve(m, event).memory == initialized(m.memory, m.layout),
{
}

/// The stack pointer is loaded before anything else happens: the machine
/// leaves the reset state only with the stack pointer at the top of stack.
pub proof fn lemma_stack_ready_after_reset(m: MachineView, event: Event)
    requires
        m.state == BootState::Reset,
        evolve(m, event).state != BootState::Reset,
    ensures
        evolve(m, event).stack_pointer == m.layout.stack_top,
        evolve(m, event).state == BootState::MemoryInit,
{
}

/// The sequence never touches the interrupt enable flag but on the way to
/// the halted state, where it is cleared.
pub proof fn lemma_interrupt_flag(m: MachineView, event: Event)
    ensures
        evolve(m, event).state != BootState::Halted || m.state == BootState::Halted ==> evolve(
            m,
            event,
        ).interrupts_enabled == m.interrupts_enabled,
        evolve(m, event).state == BootState::Halted && m.state != BootState::Halted ==> !evolve(
            m,
            event,
        ).interrupts_enabled,
{
}

/// Once idle or halted, the machine stays exactly as it is, whatever
/// happens: it never runs the program again.
pub proof fn lemma_final_machine_is_fixed(m: MachineView, events: Seq<Event>)
    requires
        m.state == BootState::Idle || m.state == BootState::Halted,
    ensures
        run(m, events) == m,
    decreases events.len(),
{
    if events.len() > 0 {
        lemma_final_machine_is_fixed(m, events.drop_last());
    }
}

} // verus!
