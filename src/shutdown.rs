use std::sync::mpsc::{Receiver, Sender, TryRecvError};
use vstd::prelude::*;

verus! {

#[verifier::external_type_specification]
#[verifier::external_body]
#[verifier::reject_recursive_types(T)]
pub struct ExReceiver<T>(Receiver<T>);

#[verifier::external_type_specification]
#[verifier::external_body]
#[verifier::reject_recursive_types(T)]
pub struct ExSender<T>(Sender<T>);

/// What one non-blocking read of the shutdown channel yielded.
#[derive(Clone, Copy, Debug, PartialEq, Eq, Structural)]
pub enum PollOutcome {
    /// A stop request was waiting.
    Signalled,
    /// Nothing was waiting and the sending side is still alive.
    Empty,
    /// The sending side is gone.
    Disconnected,
}

/// A control code delivered by the service manager.
#[derive(Clone, Copy, Debug, PartialEq, Eq, Structural)]
pub enum ControlEvent {
    Interrogate,
    Stop,
    Other,
}

/// The answer handed back to the service manager for a control code.
#[derive(Clone, Copy, Debug, PartialEq, Eq, Structural)]
pub enum ControlReply {
    NoError,
    NotImplemented,
}

/// A read reports shutdown unless the channel was merely empty.
pub open spec fn reports_shutdown(o: PollOutcome) -> bool {
    !(o is Empty)
}

/// Whether shutdown stands requested after one more read, given whether it stood before.
pub open spec fn after_poll(latched: bool, o: PollOutcome) -> bool {
    latched || reports_shutdown(o)
}

/// The verdicts of successive polls that yield `outcomes`, starting from `latched`.
pub open spec fn poll_verdicts(latched: bool, outcomes: Seq<PollOutcome>) -> Seq<bool>
    decreases outcomes.len(),
{
    if outcomes.len() == 0 {
        Seq::empty()
    } else {
        let v = after_poll(latched, outcomes[0]);
        seq![v].add(poll_verdicts(v, outcomes.drop_first()))
    }
}

/// Interrogate and Stop are acknowledged; every other code is declined.
pub open spec fn control_reply(e: ControlEvent) -> ControlReply {
    match e {
        ControlEvent::Other => ControlReply::NotImplemented,
        _ => ControlReply::NoError,
    }
}

/// Relies on std::sync::mpsc::channel: a fresh, connected pair of ends.
#[verifier::external_body]
fn open_channel() -> (Sender<()>, Receiver<()>) {
    std::sync::mpsc::channel()
}

/// Relies on Receiver::try_recv: one read that never blocks; what it yields depends on
/// the other thread, so nothing is stated of it.
#[verifier::external_body]
fn try_receive(rx: &Receiver<()>) -> PollOutcome {
    match rx.try_recv() {
        Ok(()) => PollOutcome::Signalled,
        Err(TryRecvError::Empty) => PollOutcome::Empty,
        Err(TryRecvError::Disconnected) => PollOutcome::Disconnected,
    }
}

/// Relies on Sender::send: queues one message; a receiver that is already gone makes it
/// fail, which needs no handling here.
#[verifier::external_body]
fn send_unit(tx: &Sender<()>) {
    let _ = tx.send(());
}

/// The sending side of the shutdown channel, held by the service-manager callback.
pub struct ShutdownNotifier {
    tx: Sender<()>,
    sent: Ghost<nat>,
}

impl View for ShutdownNotifier {
    type V = nat;

    /// How many shutdown requests this notifier has sent.
    closed spec fn view(&self) -> nat {
        self.sent@
    }
}

/// The receiving side of the shutdown channel, held by the worker loop. Once a poll has
/// reported shutdown, the signal stays set.
pub struct ShutdownSignal {
    rx: Receiver<()>,
    latched: bool,
}

impl View for ShutdownSignal {
    type V = bool;

    /// Whether shutdown has been reported.
    closed spec fn view(&self) -> bool {
        self.latched
    }
}

/// Creates a connected notifier and signal; nothing has been sent and the signal starts
/// out clear.
pub fn shutdown_channel() -> (r: (ShutdownNotifier, ShutdownSignal))
    ensures
        r.0@ == 0,
        !r.1@,
{
    let (tx, rx) = open_channel();
    (ShutdownNotifier { tx, sent: Ghost(0) }, ShutdownSignal { rx, latched: false })
}

impl ShutdownNotifier {
    /// Asks the worker loop to shut down by sending one request; never blocks.
    pub fn request(&mut self)
        ensures
            final(self)@ == old(self)@ + 1,
    {
        send_unit(&self.tx);
        self.sent = Ghost(self.sent@ + 1);
    }

    /// Answers a control code from the service manager. Stop sends exactly one shutdown
    /// request; every other code sends nothing.
    pub fn handle_control(&mut self, event: ControlEvent) -> (r: ControlReply)
        ensures
            r == control_reply(event),
            final(self)@ == old(self)@ + if event is Stop {
                1nat
            } else {
                0nat
            },
    {
        match event {
            ControlEvent::Interrogate => ControlReply::NoError,
            ControlEvent::Stop => {
                self.request();
                ControlReply::NoError
            },
            ControlEvent::Other => ControlReply::NotImplemented,
        }
    }
}

impl ShutdownSignal {
    /// Takes in what one read of the channel yielded and returns whether shutdown is now
    /// requested.
    pub fn observe(&mut self, outcome: PollOutcome) -> (r: bool)
        ensures
            final(self)@ == after_poll(old(self)@, outcome),
            r == final(self)@,
    {
        if outcome != PollOutcome::Empty {
            self.latched = true;
        }
        self.latched
    }
}

/// Polls the shutdown channel without blocking and returns whether shutdown is requested.
pub fn stop_signal_handler(signal: &mut ShutdownSignal) -> (r: bool)
    ensures
        r == final(signal)@,
        old(signal)@ ==> r,
        exists|o: PollOutcome| final(signal)@ == after_poll(old(signal)@, o),
{
    let outcome = try_receive(&signal.rx);
    signal.observe(outcome)
}

/// A read made after the sending side is gone reports shutdown.
pub proof fn disconnected_reports_shutdown(latched: bool)
    ensures
        after_poll(latched, PollOutcome::Disconnected),
{
}

/// Once a poll has reported shutdown, every later poll reports it too, whatever the channel
/// yields from then on.
pub proof fn shutdown_is_sticky(latched: bool, outcomes: Seq<PollOutcome>, k: int, i: int)
    requires
        0 <= k <= i < outcomes.len(),
        poll_verdicts(latched, outcomes)[k],
    ensures
        poll_verdicts(latched, outcomes).len() == outcomes.len(),
        poll_verdicts(latched, outcomes)[i],
    decreases outcomes.len(),
{
    verdicts_len(latched, outcomes);
    let v = after_poll(latched, outcomes[0]);
    let rest = outcomes.drop_first();
    verdicts_len(v, rest);
    if k == 0 {
        if i > 0 {
            stays_latched(rest, i - 1);
        }
    } else {
        shutdown_is_sticky(v, rest, k - 1, i - 1);
    }
}

proof fn verdicts_len(latched: bool, outcomes: Seq<PollOutcome>)
    ensures
        poll_verdicts(latched, outcomes).len() == outcomes.len(),
    decreases outcomes.len(),
{
    if outcomes.len() > 0 {
        verdicts_len(after_poll(latched, outcomes[0]), outcomes.drop_first());
    }
}

proof fn stays_latched(outcomes: Seq<PollOutcome>, i: int)
    requires
        0 <= i < outcomes.len(),
    ensures
        poll_verdicts(true, outcomes)[i],
    decreases outcomes.len(),
{
    verdicts_len(true, outcomes.drop_first());
    if i > 0 {
        stays_latched(outcomes.drop_first(), i - 1);
    }
}

} // verus!
