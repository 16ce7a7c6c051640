//! Follow mode: a backend process whose output is relayed as it arrives, and
//! which is replaced when the selection changes under it.
//!
//! The pump decides; its driver acts. The driver performs the action that the
//! pump hands out and reports what came of it as the next event.

use vstd::prelude::*;
use crate::command::Request;
use crate::players::names;

verus! {

/// How long the driver sleeps when the backend has nothing to say, in milliseconds.
pub const POLL_INTERVAL_MS: u64 = 100;

/// Where a pump stands.
#[derive(Debug, Clone, Copy, PartialEq, Eq, Structural)]
pub enum Phase {
    /// A backend process is about to be started against the selection.
    Starting,
    /// The backend runs and its output is relayed.
    Streaming,
    /// The selection changed; the backend is being stopped.
    Draining,
    /// The backend is gone; the selection is being read again.
    Restarting,
    /// The pump gave up for good.
    Terminated,
}

/// What the driver reports.
#[derive(Debug, Clone, PartialEq, Eq)]
pub enum Event {
    /// The backend process runs and its output can be read without blocking.
    Spawned,
    /// The backend process could not be started.
    SpawnFailed,
    /// The change flag was found raised.
    Notified,
    /// A read gave this many bytes, at least one.
    Data(usize),
    /// A read gave nothing for now.
    Idle,
    /// A read failed for good.
    ReadFailed,
    /// The backend process was stopped and the change flag cleared.
    Stopped,
    /// The store was read again and held this selection.
    Reloaded(Option<String>),
}

/// What the driver is to do next.
#[derive(Debug, Clone, Copy, PartialEq, Eq, Structural)]
pub enum Action {
    /// Start the backend with the pump's command; report `Spawned` or `SpawnFailed`.
    Spawn,
    /// For a tracking pump, look at the change flag and report `Notified` if
    /// it is raised. Otherwise read what the backend has written, without
    /// blocking, and report `Data`, `Idle` or `ReadFailed`.
    Poll,
    /// Write this many bytes of what was just read to the user, then poll.
    Relay(usize),
    /// Sleep for the poll interval, then poll.
    Wait,
    /// Stop the backend process, clear the change flag, report `Stopped`.
    Stop,
    /// Load the selection from the store and report `Reloaded`.
    Reload,
    /// Stop driving the pump.
    Exit,
}

/// A read that is told "try again" by either of the two codes has nothing for now.
pub open spec fn read_outcome(n: int, code: int, again: int, would_block: int) -> Event {
    if n > 0 {
        Event::Data(n as usize)
    } else if n == 0 || code == again || code == would_block {
        Event::Idle
    } else {
        Event::ReadFailed
    }
}

/// The event that a non-blocking read amounts to: `n` is what the read
/// returned, `code` the error code that it left behind, `again` and
/// `would_block` the two codes by which the system says that nothing is there yet.
pub fn read_event(n: isize, code: i32, again: i32, would_block: i32) -> (event: Event)
    ensures
        event == read_outcome(n as int, code as int, again as int, would_block as int),
{
    if n > 0 {
        Event::Data(n as usize)
    } else if n == 0 || code == again || code == would_block {
        Event::Idle
    } else {
        Event::ReadFailed
    }
}

/// A pump as contracts see it.
pub ghost struct PumpView {
    pub phase: Phase,
    pub request: Request,
    pub selection: Seq<char>,
}

/// One step of the pump: the state it moves to and the action it hands out.
///
/// Starting leads to streaming once the backend runs. While streaming, data
/// is relayed at once and silence is slept through; a notification makes a
/// tracking pump stop the backend, read the selection again and start over
/// against it, while a pinned pump takes no notice. A failed start, a failed
/// read and an event that the phase has no use for end the pump.
pub open spec fn advance(pump: PumpView, event: Event) -> (PumpView, Action) {
    match (pump.phase, event) {
        (Phase::Starting, Event::Spawned) => (
            PumpView { phase: Phase::Streaming, ..pump },
            Action::Poll,
        ),
        (Phase::Streaming, Event::Data(n)) => (pump, Action::Relay(n)),
        (Phase::Streaming, Event::Idle) => (pump, Action::Wait),
        (Phase::Streaming, Event::Notified) => if pump.request.tracks() {
            (PumpView { phase: Phase::Draining, ..pump }, Action::Stop)
        } else {
            (pump, Action::Poll)
        },
        (Phase::Draining, Event::Stopped) => (
            PumpView { phase: Phase::Restarting, ..pump },
            Action::Reload,
        ),
        (Phase::Restarting, Event::Reloaded(found)) => (
            PumpView {
                phase: Phase::Starting,
                selection: match found {
                    Some(id) => id@,
                    None => pump.selection,
                },
                ..pump
            },
            Action::Spawn,
        ),
        _ => (PumpView { phase: Phase::Terminated, ..pump }, Action::Exit),
    }
}

/// A pump that gave up stays so, whatever is reported to it.
pub proof fn terminated_is_final(pump: PumpView, event: Event)
    requires
        pump.phase == Phase::Terminated,
    ensures
        advance(pump, event) == (pump, Action::Exit),
{
}

/// A pinned pump knows no way but starting, streaming and giving up: it
/// never stops the backend to start it again.
pub proof fn pinned_never_restarts(pump: PumpView, event: Event)
    requires
        !pump.request.tracks(),
        pump.phase == Phase::Starting || pump.phase == Phase::Streaming,
    ensures
        ({
            let next = advance(pump, event).0.phase;
            next == Phase::Starting || next == Phase::Streaming || next == Phase::Terminated
        }),
        advance(pump, event).1 != Action::Stop,
        advance(pump, event).1 != Action::Reload,
{
}

/// A tracking pump that is streaming answers a notification at once: the
/// very next action stops the backend, the one after reads the selection
/// again, and the third starts the backend against what was read.
pub proof fn notification_restarts_on_new_selection(pump: PumpView, id: String)
    requires
        pump.request.tracks(),
        pump.phase == Phase::Streaming,
    ensures
        ({
            let (draining, first) = advance(pump, Event::Notified);
            let (restarting, second) = advance(draining, Event::Stopped);
            let (starting, third) = advance(restarting, Event::Reloaded(Some(id)));
            &&& first == Action::Stop
            &&& second == Action::Reload
            &&& third == Action::Spawn
            &&& starting == (PumpView { phase: Phase::Starting, selection: id@, ..pump })
        }),
{
}

/// The request never changes, and the selection changes only when it is
/// read again after a notification.
pub proof fn selection_changes_on_reload_only(pump: PumpView, event: Event)
    ensures
        advance(pump, event).0.request == pump.request,
        advance(pump, event).0.selection != pump.selection ==> pump.phase == Phase::Restarting
            && event is Reloaded,
{
}

/// The decisions of one follow-mode run.
#[derive(Debug, Clone, PartialEq, Eq)]
pub struct Pump {
    phase: Phase,
    request: Request,
    selection: String,
}

impl View for Pump {
    type V = PumpView;

    closed spec fn view(&self) -> PumpView {
        PumpView { phase: self.phase, request: self.request, selection: self.selection@ }
    }
}

impl Pump {
    /// A pump that is about to start the backend for `request` against
    /// `selection`. The first action of its driver is `Action::Spawn`.
    pub fn new(request: Request, selection: String) -> (pump: Pump)
        ensures
            pump@ == (PumpView { phase: Phase::Starting, request, selection: selection@ }),
    {
        Pump { phase: Phase::Starting, request, selection }
    }

    /// Where the pump stands.
    pub fn phase(&self) -> (phase: Phase)
        ensures
            phase == self@.phase,
    {
        self.phase
    }

    /// The player against which the backend runs or is about to run.
    pub fn selection(&self) -> (selection: &String)
        ensures
            selection@ == self@.selection,
    {
        &self.selection
    }

    /// Whether the pump restarts the backend when the selection changes.
    pub fn is_tracking(&self) -> (tracking: bool)
        ensures
            tracking == self@.request.tracks(),
    {
        self.request.is_tracking()
    }

    /// The arguments with which the backend is to be started.
    pub fn command(&self) -> (args: Vec<String>)
        ensures
            names(args@) == self@.request.arguments(self@.selection),
    {
        self.request.args(self.selection.as_str())
    }

    /// Takes in what the driver reports and says what it is to do next.
    pub fn step(&mut self, event: Event) -> (action: Action)
        ensures
            (final(self)@, action) == advance(old(self)@, event),
    {
        match (self.phase, event) {
            (Phase::Starting, Event::Spawned) => {
                self.phase = Phase::Streaming;
                Action::Poll
            },
            (Phase::Streaming, Event::Data(n)) => Action::Relay(n),
            (Phase::Streaming, Event::Idle) => Action::Wait,
            (Phase::Streaming, Event::Notified) => {
                if self.request.is_tracking() {
                    self.phase = Phase::Draining;
                    Action::Stop
                } else {
                    Action::Poll
                }
            },
            (Phase::Draining, Event::Stopped) => {
                self.phase = Phase::Restarting;
                Action::Reload
            },
            (Phase::Restarting, Event::Reloaded(found)) => {
                self.phase = Phase::Starting;
                match found {
                    Some(id) => {
                        self.selection = id;
                    },
                    None => {},
                }
                Action::Spawn
            },
            _ => {
                self.phase = Phase::Terminated;
                Action::Exit
            },
        }
    }
}

} // verus!
