use crate::packet::{is_wol_frame, is_wol_packet};
use vstd::prelude::*;

verus! {

/// Where the service stands in its monitor / listen / launch cycle.
#[derive(Clone, Copy, Debug, PartialEq, Eq, Structural)]
pub enum Phase {
    /// The network interface has not been resolved yet.
    Initializing,
    /// Start of a monitoring tick: the shutdown signal is read first.
    Monitoring,
    /// Shutdown is not requested: the process table is consulted next.
    Checking,
    /// The target is running: wait out the poll interval.
    Resting,
    /// The target is absent: a capture handle is to be opened.
    Opening,
    /// A capture handle is open; the shutdown signal is read before the next frame.
    Listening,
    /// A capture handle is open and shutdown is not requested: read one frame.
    Reading,
    /// A magic packet was seen and the capture handle closed: start the target.
    Launching,
    /// The service has ended with this exit code.
    Stopped { exit_code: u32 },
}

/// What the surrounding loop observed after carrying out the last action.
#[derive(Clone, Debug)]
pub enum Event {
    /// The interface lookup found a matching interface, or none.
    Located { found: bool },
    /// A non-blocking read of the shutdown signal.
    ShutdownPolled { requested: bool },
    /// Whether the target process is in the process table.
    ProcessChecked { running: bool },
    /// The poll interval has passed.
    Slept,
    /// Whether a capture channel could be opened on the interface.
    CaptureOpened { ok: bool },
    /// One captured frame.
    FrameRead(Vec<u8>),
    /// A capture read failed; such errors are transient.
    ReadFailed,
    /// The launch attempt has returned, successfully or not.
    LaunchFinished,
}

/// What the surrounding loop must do next.
#[derive(Clone, Copy, Debug, PartialEq, Eq, Structural)]
pub enum Action {
    /// Select the interface whose address matches the configured prefix.
    LocateInterface,
    /// Read the shutdown signal without blocking.
    PollShutdown,
    /// Look for the target process in the process table.
    CheckProcess,
    /// Sleep for the poll interval.
    Sleep,
    /// Open a capture channel on the selected interface.
    OpenCapture,
    /// Read the next frame from the capture channel.
    ReadFrame,
    /// Close the capture channel and start the target in the active session.
    Launch,
    /// Close any capture channel and report the service stopped with this exit code.
    Stop { exit_code: u32 },
}

/// The state the service reports to the service manager.
#[derive(Clone, Copy, Debug, PartialEq, Eq, Structural)]
pub enum ServiceState {
    Running,
    Stopped { exit_code: u32 },
}

/// The status record handed to the service manager.
#[derive(Clone, Copy, Debug, PartialEq, Eq, Structural)]
pub struct StatusReport {
    pub running: bool,
    pub accepts_stop: bool,
    pub exit_code: u32,
    pub checkpoint: u32,
}

/// Whether a capture handle is open in this phase.
pub open spec fn capture_open(p: Phase) -> bool {
    p is Listening || p is Reading
}

/// The action that a phase asks for.
pub open spec fn pending(p: Phase) -> Action {
    match p {
        Phase::Initializing => Action::LocateInterface,
        Phase::Monitoring => Action::PollShutdown,
        Phase::Checking => Action::CheckProcess,
        Phase::Resting => Action::Sleep,
        Phase::Opening => Action::OpenCapture,
        Phase::Listening => Action::PollShutdown,
        Phase::Reading => Action::ReadFrame,
        Phase::Launching => Action::Launch,
        Phase::Stopped { exit_code } => Action::Stop { exit_code },
    }
}

/// The transition table. An event that does not answer the phase's pending action leaves
/// the phase as it is, so the action is asked for again; the one exception is a launch,
/// which is never asked for twice: whatever follows it, the cycle goes on to rest.
pub open spec fn next_phase(p: Phase, ev: Event) -> Phase {
    match p {
        Phase::Initializing => match ev {
            Event::Located { found } => if found {
                Phase::Monitoring
            } else {
                Phase::Stopped { exit_code: 1 }
            },
            _ => p,
        },
        Phase::Monitoring => match ev {
            Event::ShutdownPolled { requested } => if requested {
                Phase::Stopped { exit_code: 0 }
            } else {
                Phase::Checking
            },
            _ => p,
        },
        Phase::Checking => match ev {
            Event::ProcessChecked { running } => if running {
                Phase::Resting
            } else {
                Phase::Opening
            },
            _ => p,
        },
        Phase::Resting => match ev {
            Event::Slept => Phase::Monitoring,
            _ => p,
        },
        Phase::Opening => match ev {
            Event::CaptureOpened { ok } => if ok {
                Phase::Listening
            } else {
                Phase::Stopped { exit_code: 1 }
            },
            _ => p,
        },
        Phase::Listening => match ev {
            Event::ShutdownPolled { requested } => if requested {
                Phase::Stopped { exit_code: 0 }
            } else {
                Phase::Reading
            },
            _ => p,
        },
        Phase::Reading => match ev {
            Event::FrameRead(f) => if is_wol_frame(f@) {
                Phase::Launching
            } else {
                Phase::Listening
            },
            Event::ReadFailed => Phase::Listening,
            _ => p,
        },
        Phase::Launching => Phase::Resting,
        Phase::Stopped { .. } => p,
    }
}

/// Running accepts Stop and reports exit code zero; Stopped accepts nothing.
pub open spec fn status_of(s: ServiceState) -> StatusReport {
    match s {
        ServiceState::Running => StatusReport {
            running: true,
            accepts_stop: true,
            exit_code: 0,
            checkpoint: 0,
        },
        ServiceState::Stopped { exit_code } => StatusReport {
            running: false,
            accepts_stop: false,
            exit_code,
            checkpoint: 0,
        },
    }
}

/// The service's decision state. It holds no handle: the surrounding loop performs each
/// action and feeds back what it observed.
pub struct Controller {
    phase: Phase,
}

impl View for Controller {
    type V = Phase;

    closed spec fn view(&self) -> Phase {
        self.phase
    }
}

/// The action that a phase asks for.
pub fn pending_action(p: Phase) -> (r: Action)
    ensures
        r == pending(p),
{
    match p {
        Phase::Initializing => Action::LocateInterface,
        Phase::Monitoring => Action::PollShutdown,
        Phase::Checking => Action::CheckProcess,
        Phase::Resting => Action::Sleep,
        Phase::Opening => Action::OpenCapture,
        Phase::Listening => Action::PollShutdown,
        Phase::Reading => Action::ReadFrame,
        Phase::Launching => Action::Launch,
        Phase::Stopped { exit_code } => Action::Stop { exit_code },
    }
}

impl Controller {
    /// A controller that has not resolved its interface yet.
    pub fn new() -> (r: Controller)
        ensures
            r@ == Phase::Initializing,
    {
        Controller { phase: Phase::Initializing }
    }

    /// The current phase.
    pub fn phase(&self) -> (r: Phase)
        ensures
            r == self@,
    {
        self.phase
    }

    /// The action the current phase asks for.
    pub fn action(&self) -> (r: Action)
        ensures
            r == pending(self@),
    {
        pending_action(self.phase)
    }

    /// Takes in what the last action observed, moves to the next phase and returns the
    /// action that phase asks for.
    pub fn step(&mut self, ev: &Event) -> (r: Action)
        ensures
            final(self)@ == next_phase(old(self)@, *ev),
            r == pending(final(self)@),
    {
        let p = self.phase;
        let next = match p {
            Phase::Initializing => match ev {
                Event::Located { found } => if *found {
                    Phase::Monitoring
                } else {
                    Phase::Stopped { exit_code: 1 }
                },
                _ => p,
            },
            Phase::Monitoring => match ev {
                Event::ShutdownPolled { requested } => if *requested {
                    Phase::Stopped { exit_code: 0 }
                } else {
                    Phase::Checking
                },
                _ => p,
            },
            Phase::Checking => match ev {
                Event::ProcessChecked { running } => if *running {
                    Phase::Resting
                } else {
                    Phase::Opening
                },
                _ => p,
            },
            Phase::Resting => match ev {
                Event::Slept => Phase::Monitoring,
                _ => p,
            },
            Phase::Opening => match ev {
                Event::CaptureOpened { ok } => if *ok {
                    Phase::Listening
                } else {
                    Phase::Stopped { exit_code: 1 }
                },
                _ => p,
            },
            Phase::Listening => match ev {
                Event::ShutdownPolled { requested } => if *requested {
                    Phase::Stopped { exit_code: 0 }
                } else {
                    Phase::Reading
                },
                _ => p,
            },
            Phase::Reading => match ev {
                Event::FrameRead(f) => if is_wol_packet(f.as_slice()) {
                    Phase::Launching
                } else {
                    Phase::Listening
                },
                Event::ReadFailed => Phase::Listening,
                _ => p,
            },
            Phase::Launching => Phase::Resting,
            Phase::Stopped { .. } => p,
        };
        self.phase = next;
        pending_action(next)
    }
}

/// The status record for a reported state.
pub fn status_report(state: ServiceState) -> (r: StatusReport)
    ensures
        r == status_of(state),
{
    match state {
        ServiceState::Running => StatusReport {
            running: true,
            accepts_stop: true,
            exit_code: 0,
            checkpoint: 0,
        },
        ServiceState::Stopped { exit_code } => StatusReport {
            running: false,
            accepts_stop: false,
            exit_code,
            checkpoint: 0,
        },
    }
}

/// Whether an event is a captured frame that carries a magic packet.
pub open spec fn is_magic_frame_event(ev: Event) -> bool {
    match ev {
        Event::FrameRead(f) => is_wol_frame(f@),
        _ => false,
    }
}

/// Whether an event reports a capture channel that was opened.
pub open spec fn is_capture_success(ev: Event) -> bool {
    match ev {
        Event::CaptureOpened { ok } => ok,
        _ => false,
    }
}

/// A launch is only ever asked for right after a frame, read while listening, that carries
/// a magic packet.
pub proof fn launch_follows_magic_frame(p: Phase, ev: Event)
    requires
        !(p is Launching),
        pending(next_phase(p, ev)) == Action::Launch,
    ensures
        p is Reading,
        is_magic_frame_event(ev),
{
}

/// Whatever follows a launch, the next action is not another launch: one magic packet
/// starts the target at most once.
pub proof fn launch_is_not_repeated(ev: Event)
    ensures
        pending(next_phase(Phase::Launching, ev)) != Action::Launch,
        !capture_open(next_phase(Phase::Launching, ev)),
{
}

/// A capture handle only comes to be open after the loop reports that one was opened, and
/// then none was open before: at most one is open at a time.
pub proof fn capture_opens_only_on_success(p: Phase, ev: Event)
    requires
        !capture_open(p),
        capture_open(next_phase(p, ev)),
    ensures
        p is Opening,
        is_capture_success(ev),
{
}

/// A shutdown request read while monitoring or listening ends the service cleanly, closing
/// any open capture handle.
pub proof fn shutdown_ends_cleanly(p: Phase)
    requires
        p is Monitoring || p is Listening,
    ensures
        next_phase(p, Event::ShutdownPolled { requested: true }) == (Phase::Stopped {
            exit_code: 0,
        }),
        pending(next_phase(p, Event::ShutdownPolled { requested: true })) == (Action::Stop {
            exit_code: 0,
        }),
{
}

/// A stopped service stays stopped with the same exit code.
pub proof fn stopped_is_final(code: u32, ev: Event)
    ensures
        next_phase(Phase::Stopped { exit_code: code }, ev) == (Phase::Stopped { exit_code: code }),
{
}

/// How many times a run from `p` through `evs` enters the launching phase.
pub open spec fn launch_count(p: Phase, evs: Seq<Event>) -> nat
    decreases evs.len(),
{
    if evs.len() == 0 {
        0
    } else {
        let q = next_phase(p, evs[0]);
        (if q is Launching {
            1nat
        } else {
            0nat
        }) + launch_count(q, evs.drop_first())
    }
}

/// How many of `evs` are frames that carry a magic packet.
pub open spec fn magic_frame_count(evs: Seq<Event>) -> nat
    decreases evs.len(),
{
    if evs.len() == 0 {
        0
    } else {
        (if is_magic_frame_event(evs[0]) {
            1nat
        } else {
            0nat
        }) + magic_frame_count(evs.drop_first())
    }
}

/// Over any sequence of events, the target is started no more often than frames carrying a
/// magic packet are read.
pub proof fn launches_bounded_by_magic_frames(p: Phase, evs: Seq<Event>)
    ensures
        launch_count(p, evs) <= magic_frame_count(evs),
    decreases evs.len(),
{
    if evs.len() > 0 {
        let q = next_phase(p, evs[0]);
        if q is Launching {
            launch_follows_magic_frame(p, evs[0]);
        }
        launches_bounded_by_magic_frames(q, evs.drop_first());
    }
}

} // verus!
