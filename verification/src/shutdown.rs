//! How the program comes to its end.
//!
//! Closing the window asks the reader to stop. The reader can see that only
//! between two lines, and it may wait for a line for ever, so a watchdog is
//! armed at the same moment: when its time is up the process ends, whether
//! the reader has come back or not.

use vstd::prelude::*;

verus! {

/// The time that the watchdog gives the reader, in milliseconds.
pub const GRACE_MILLIS: u64 = 3000;

/// The two states of the coordinator.
#[derive(Clone, Copy, Debug, PartialEq, Eq, Structural)]
pub enum Phase {
    /// The window is open and the reader reads.
    Running,
    /// The window was closed; the reader has been asked to stop.
    Stopping,
}

/// What can happen to the coordinator.
#[derive(Clone, Copy, Debug, PartialEq, Eq, Structural)]
pub enum Event {
    /// The window was closed, or escape was pressed.
    CloseRequested,
    /// The reader has left its loop.
    ReaderFinished,
    /// The watchdog's time is up.
    WatchdogExpired,
}

/// What the program does in answer to an event.
#[derive(Clone, Copy, Debug, PartialEq, Eq, Structural)]
pub enum Action {
    /// Nothing: go on as before.
    Carry,
    /// Tell the reader to stop, and arm the watchdog with this many
    /// milliseconds.
    ArmWatchdog(u64),
    /// End the process in the ordinary way.
    Exit,
    /// End the process at once, without waiting for anything.
    ForceExit,
}

/// The state that follows an event. There is no way back from `Stopping`.
pub open spec fn phase_after(phase: Phase, event: Event) -> Phase {
    match event {
        Event::CloseRequested => Phase::Stopping,
        _ => phase,
    }
}

/// The answer to an event. The first request to close arms the watchdog.
/// The watchdog ends the process whatever the state. The reader's return
/// ends it once the window is closed; before that the input has merely
/// run out, and the window stays.
pub open spec fn action_for(phase: Phase, event: Event) -> Action {
    match (phase, event) {
        (Phase::Running, Event::CloseRequested) => Action::ArmWatchdog(GRACE_MILLIS),
        (Phase::Stopping, Event::CloseRequested) => Action::Carry,
        (Phase::Running, Event::ReaderFinished) => Action::Carry,
        (Phase::Stopping, Event::ReaderFinished) => Action::Exit,
        (_, Event::WatchdogExpired) => Action::ForceExit,
    }
}

/// The coordinator of the shutdown.
pub struct ShutdownCoordinator {
    phase: Phase,
}

impl View for ShutdownCoordinator {
    type V = Phase;

    closed spec fn view(&self) -> Phase {
        self.phase
    }
}

impl ShutdownCoordinator {
    /// A coordinator in the state `Running`.
    pub fn new() -> (coordinator: ShutdownCoordinator)
        ensures
            coordinator@ == Phase::Running,
    {
        ShutdownCoordinator { phase: Phase::Running }
    }

    /// The state.
    pub fn phase(&self) -> (phase: Phase)
        ensures
            phase == self@,
    {
        self.phase
    }

    /// The flag that the reader looks at: true until the window is closed,
    /// false ever after.
    pub fn keep_running(&self) -> (keep: bool)
        ensures
            keep == (self@ == Phase::Running),
    {
        match self.phase {
            Phase::Running => true,
            Phase::Stopping => false,
        }
    }

    /// Takes an event and says what to do.
    pub fn on_event(&mut self, event: Event) -> (action: Action)
        ensures
            final(self)@ == phase_after(old(self)@, event),
            action == action_for(old(self)@, event),
    {
        match event {
            Event::CloseRequested => {
                let action = match self.phase {
                    Phase::Running => Action::ArmWatchdog(GRACE_MILLIS),
                    Phase::Stopping => Action::Carry,
                };
                self.phase = Phase::Stopping;
                action
            },
            Event::ReaderFinished => match self.phase {
                Phase::Running => Action::Carry,
                Phase::Stopping => Action::Exit,
            },
            Event::WatchdogExpired => Action::ForceExit,
        }
    }
}

/// The state after a run of events, in order.
pub open spec fn phase_after_all(phase: Phase, events: Seq<Event>) -> Phase
    decreases events.len(),
{
    if events.len() == 0 {
        phase
    } else {
        phase_after(phase_after_all(phase, events.drop_last()), events.last())
    }
}

/// Once the coordinator is stopping it stays so, whatever happens next: the
/// flag that the reader looks at goes to false once and never comes back.
pub proof fn lemma_stopping_is_final(events: Seq<Event>)
    ensures
        phase_after_all(Phase::Stopping, events) == Phase::Stopping,
    decreases events.len(),
{
    if events.len() > 0 {
        lemma_stopping_is_final(events.drop_last());
    }
}

/// The watchdog is armed exactly once, by the first request to close, and
/// always with the same grace period.
pub proof fn lemma_watchdog_armed_once(phase: Phase, event: Event)
    ensures
        action_for(phase, event) is ArmWatchdog <==> phase == Phase::Running && event
            == Event::CloseRequested,
        action_for(phase, event) is ArmWatchdog ==> action_for(phase, event)
            == Action::ArmWatchdog(GRACE_MILLIS),
{
}

/// When the watchdog's time is up the process ends, in either state and
/// whether or not the reader has come back.
pub proof fn lemma_watchdog_always_ends(phase: Phase)
    ensures
        action_for(phase, Event::WatchdogExpired) == Action::ForceExit,
{
}

} // verus!
