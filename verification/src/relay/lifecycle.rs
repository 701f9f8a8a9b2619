//! The life of a relay, as a machine that is told what happened and answers
//! with what to do next.
//!
//! The machine runs no actor and never waits. Whoever drives a relay
//! performs each action (runs the actor's hooks, waits for messages) and
//! reports back with an event; the acknowledgment the machine sends itself,
//! since that takes no waiting. Cancellation is cooperative: a request to
//! stop that arrives while the actor works is honoured when that unit of
//! work has ended, and no new unit starts.

use crate::address::{Address, AddressView};
use crate::relay::shutdown::ShutdownListener;
use tokio::sync::oneshot::{Receiver, Sender};
use vstd::prelude::*;

verus! {

/// The two kinds of actor that a relay can drive.
#[derive(Clone, Copy, Debug, PartialEq, Eq, Structural)]
pub enum ActorKind {
    /// Self-driven: each unit of work is one call of `process`, which says
    /// whether to go on.
    Processor,
    /// Message-driven: each unit of work handles one message of the mailbox.
    Worker,
}

/// Why a relay stopped. Exactly one of the two wins.
#[derive(Clone, Copy, Debug, PartialEq, Eq, Structural)]
pub enum StopReason {
    /// The request to stop came first.
    ExternalShutdown,
    /// The actor's loop ended first, by itself or by a failure.
    LoopCompleted,
}

/// What can go wrong in an actor's hooks.
#[derive(Clone, Copy, Debug, PartialEq, Eq, Structural)]
pub enum RelayFailure {
    /// `initialize` failed. The relay goes on to run the actor all the same.
    InitializationFailure,
    /// A unit of work failed. The relay stops as if the loop had ended.
    ProcessingFailure,
    /// `shutdown` failed. The acknowledgment is sent all the same.
    ShutdownFailure,
}

/// How a unit of work ended.
#[derive(Clone, Copy, Debug, PartialEq, Eq, Structural)]
pub enum StepOutcome {
    /// It succeeded and the actor wants to go on.
    Continue,
    /// It succeeded and the actor wants to stop.
    Stop,
    /// It failed. Nothing retries it.
    Failed,
}

/// Where a relay is in its life.
#[derive(Clone, Copy, Debug, PartialEq, Eq, Structural)]
pub enum Phase {
    /// Built, not started.
    Created,
    /// `initialize` runs.
    Initializing,
    /// A message-driven actor waits for its next message.
    Waiting,
    /// A unit of work runs.
    Running,
    /// A unit of work runs to its end after the request to stop has come.
    Draining,
    /// `shutdown` runs.
    ShuttingDown,
    /// The acknowledgment has been sent.
    Terminated,
}

/// What the driver of a relay reports.
#[derive(Clone, Copy, Debug, PartialEq, Eq, Structural)]
pub enum RelayEvent {
    /// The driving task has started.
    Started,
    /// `initialize` has returned.
    Initialized { ok: bool },
    /// A message was taken out of the mailbox for the actor to handle.
    MessageTaken,
    /// The mailbox will give no more messages.
    MailboxClosed,
    /// The unit of work has returned.
    Stepped(StepOutcome),
    /// The request to stop has arrived.
    ShutdownRequested,
    /// `shutdown` has returned.
    ShutDown { ok: bool },
}

/// What a relay asks its driver to do, without what the action carries.
#[derive(Clone, Copy, Debug, PartialEq, Eq, Structural)]
pub enum Command {
    /// Start to wait for the request to stop.
    Listen,
    /// Run `initialize`.
    Initialize,
    /// Run `process` once.
    Process,
    /// Wait for the next message, or for the request to stop.
    AwaitMessage,
    /// Run `handle_message` on the message taken.
    HandleMessage,
    /// Run `shutdown`.
    Shutdown,
    /// Record a failure. Nothing else follows from it.
    Log(RelayFailure),
    /// The acknowledgment was sent.
    Acknowledged,
    /// Take the relay's own address out of the router.
    Deregister,
}

/// The state of a relay, as plain values.
pub struct RelayState {
    pub kind: ActorKind,
    pub phase: Phase,
    /// Why the relay stops, once that is decided.
    pub reason: Option<StopReason>,
    /// Whether a request to stop came before any unit of work could start.
    pub shutdown_pending: bool,
}

/// The entry for a failed hook, or nothing.
pub open spec fn log_unless(ok: bool, failure: RelayFailure) -> Seq<Command> {
    if ok {
        Seq::empty()
    } else {
        seq![Command::Log(failure)]
    }
}

impl RelayState {
    /// A relay that was built and not yet started.
    pub open spec fn initial(kind: ActorKind) -> RelayState {
        RelayState { kind, phase: Phase::Created, reason: None, shutdown_pending: false }
    }

    /// What holds of every state that a relay can get into.
    pub open spec fn inv(self) -> bool {
        &&& self.reason is Some <==> (self.phase == Phase::Draining || self.phase
            == Phase::ShuttingDown || self.phase == Phase::Terminated)
        &&& self.phase == Phase::Draining ==> self.reason == Some(StopReason::ExternalShutdown)
        &&& self.shutdown_pending ==> (self.phase == Phase::Created || self.phase
            == Phase::Initializing)
        &&& self.phase == Phase::Waiting ==> self.kind == ActorKind::Worker
    }

    /// Whether the relay has sent its acknowledgment.
    pub open spec fn terminated(self) -> bool {
        self.phase == Phase::Terminated
    }

    /// Whether the relay has left its loop: `shutdown` runs or has run.
    pub open spec fn past_loop(self) -> bool {
        self.phase == Phase::ShuttingDown || self.phase == Phase::Terminated
    }

    /// Whether it is settled that the relay stops: a request has come, or
    /// the loop has ended.
    pub open spec fn stopping(self) -> bool {
        self.shutdown_pending || self.reason is Some
    }

    /// The state in which the next unit of work starts, with the command
    /// that starts it.
    pub open spec fn begin_unit(self) -> (RelayState, Seq<Command>) {
        match self.kind {
            ActorKind::Processor => (
                RelayState { phase: Phase::Running, ..self },
                seq![Command::Process],
            ),
            ActorKind::Worker => (
                RelayState { phase: Phase::Waiting, ..self },
                seq![Command::AwaitMessage],
            ),
        }
    }

    /// The state in which `shutdown` runs for `reason`.
    pub open spec fn begin_shutdown(self, reason: StopReason) -> RelayState {
        RelayState {
            phase: Phase::ShuttingDown,
            reason: Some(reason),
            shutdown_pending: false,
            ..self
        }
    }

    /// The state after `event`, and what the driver is to do, in order. An
    /// event that makes no sense in the phase changes nothing and asks for
    /// nothing.
    pub open spec fn next(self, event: RelayEvent) -> (RelayState, Seq<Command>) {
        match (self.phase, event) {
            (Phase::Created, RelayEvent::Started) => (
                RelayState { phase: Phase::Initializing, ..self },
                seq![Command::Listen, Command::Initialize],
            ),
            (Phase::Created, RelayEvent::ShutdownRequested) => (
                RelayState { shutdown_pending: true, ..self },
                Seq::empty(),
            ),
            (Phase::Initializing, RelayEvent::ShutdownRequested) => (
                RelayState { shutdown_pending: true, ..self },
                Seq::empty(),
            ),
            (Phase::Initializing, RelayEvent::Initialized { ok }) => {
                let log = log_unless(ok, RelayFailure::InitializationFailure);
                if self.shutdown_pending {
                    (
                        self.begin_shutdown(StopReason::ExternalShutdown),
                        log + seq![Command::Shutdown],
                    )
                } else {
                    (self.begin_unit().0, log + self.begin_unit().1)
                }
            },
            (Phase::Waiting, RelayEvent::MessageTaken) => (
                RelayState { phase: Phase::Running, ..self },
                seq![Command::HandleMessage],
            ),
            (Phase::Waiting, RelayEvent::MailboxClosed) => (
                self.begin_shutdown(StopReason::LoopCompleted),
                seq![Command::Shutdown],
            ),
            (Phase::Waiting, RelayEvent::ShutdownRequested) => (
                self.begin_shutdown(StopReason::ExternalShutdown),
                seq![Command::Shutdown],
            ),
            (Phase::Running, RelayEvent::Stepped(StepOutcome::Continue)) => self.begin_unit(),
            (Phase::Running, RelayEvent::Stepped(StepOutcome::Stop)) => (
                self.begin_shutdown(StopReason::LoopCompleted),
                seq![Command::Shutdown],
            ),
            (Phase::Running, RelayEvent::Stepped(StepOutcome::Failed)) => (
                self.begin_shutdown(StopReason::LoopCompleted),
                seq![Command::Log(RelayFailure::ProcessingFailure), Command::Shutdown],
            ),
            (Phase::Running, RelayEvent::ShutdownRequested) => (
                RelayState {
                    phase: Phase::Draining,
                    reason: Some(StopReason::ExternalShutdown),
                    ..self
                },
                Seq::empty(),
            ),
            (Phase::Draining, RelayEvent::Stepped(outcome)) => (
                self.begin_shutdown(StopReason::ExternalShutdown),
                log_unless(outcome != StepOutcome::Failed, RelayFailure::ProcessingFailure)
                    + seq![Command::Shutdown],
            ),
            (Phase::ShuttingDown, RelayEvent::ShutDown { ok }) => (
                RelayState { phase: Phase::Terminated, ..self },
                log_unless(ok, RelayFailure::ShutdownFailure) + seq![Command::Acknowledged] + (
                if self.reason == Some(StopReason::LoopCompleted) {
                    seq![Command::Deregister]
                } else {
                    Seq::empty()
                }),
            ),
            _ => (self, Seq::empty()),
        }
    }

    /// The state after `events`, one after the other, and everything that
    /// the driver was asked to do on the way.
    pub open spec fn run(self, events: Seq<RelayEvent>) -> (RelayState, Seq<Command>)
        decreases events.len(),
    {
        if events.len() == 0 {
            (self, Seq::empty())
        } else {
            let before = self.run(events.drop_last());
            let step = before.0.next(events.last());
            (step.0, before.1 + step.1)
        }
    }

    /// Whether `event` reports the end of what the relay waits for in this
    /// state: the start of its task, or the return of the hook or unit of
    /// work that runs.
    pub open spec fn completes(self, event: RelayEvent) -> bool {
        match self.phase {
            Phase::Created => event == RelayEvent::Started,
            Phase::Initializing => event is Initialized,
            Phase::Running | Phase::Draining => event is Stepped,
            Phase::ShuttingDown => event is ShutDown,
            Phase::Waiting | Phase::Terminated => false,
        }
    }

    /// How many such reports a relay that is to stop is away from its
    /// acknowledgment.
    pub open spec fn distance(self) -> nat {
        match self.phase {
            Phase::Created => 3,
            Phase::Initializing => 2,
            Phase::Waiting => 2,
            Phase::Running => 2,
            Phase::Draining => 2,
            Phase::ShuttingDown => 1,
            Phase::Terminated => 0,
        }
    }
}

/// What a relay asks its driver to do, with what the driver needs for it.
#[derive(Debug)]
pub enum RelayAction {
    /// Start to wait for the request to stop, on this end of the
    /// rendezvous.
    Listen(Receiver<()>),
    /// Run `initialize`.
    Initialize,
    /// Run `process` once.
    Process,
    /// Wait for the next message, or for the request to stop.
    AwaitMessage,
    /// Run `handle_message` on the message taken.
    HandleMessage,
    /// Run `shutdown`.
    Shutdown,
    /// Record a failure.
    Log(RelayFailure),
    /// The acknowledgment was sent. It says whether it could be handed
    /// over, which it cannot where whoever held the handle has dropped it.
    Acknowledged(bool),
    /// Take this address, the relay's own, out of the router.
    Deregister(Address),
}

impl RelayAction {
    /// The action without what it carries.
    pub open spec fn command(&self) -> Command {
        match self {
            RelayAction::Listen(_) => Command::Listen,
            RelayAction::Initialize => Command::Initialize,
            RelayAction::Process => Command::Process,
            RelayAction::AwaitMessage => Command::AwaitMessage,
            RelayAction::HandleMessage => Command::HandleMessage,
            RelayAction::Shutdown => Command::Shutdown,
            RelayAction::Log(failure) => Command::Log(*failure),
            RelayAction::Acknowledged(_) => Command::Acknowledged,
            RelayAction::Deregister(_) => Command::Deregister,
        }
    }

    /// Whether what the action carries belongs to the relay at `relay`.
    pub open spec fn concerns(&self, relay: AddressView) -> bool {
        match self {
            RelayAction::Deregister(address) => address@ == relay,
            _ => true,
        }
    }

    /// The action without what it carries.
    pub fn kind(&self) -> (res: Command)
        ensures
            res == self.command(),
    {
        match self {
            RelayAction::Listen(_) => Command::Listen,
            RelayAction::Initialize => Command::Initialize,
            RelayAction::Process => Command::Process,
            RelayAction::AwaitMessage => Command::AwaitMessage,
            RelayAction::HandleMessage => Command::HandleMessage,
            RelayAction::Shutdown => Command::Shutdown,
            RelayAction::Log(failure) => Command::Log(*failure),
            RelayAction::Acknowledged(_) => Command::Acknowledged,
            RelayAction::Deregister(_) => Command::Deregister,
        }
    }
}

/// The commands of a sequence of actions.
pub open spec fn commands_of(actions: Seq<RelayAction>) -> Seq<Command> {
    actions.map_values(|a: RelayAction| a.command())
}

/// Whether everything that `actions` carry belongs to the relay at `relay`.
pub open spec fn all_concern(actions: Seq<RelayAction>, relay: AddressView) -> bool {
    forall|i: int| 0 <= i < actions.len() ==> (#[trigger] actions[i]).concerns(relay)
}

/// The state machine of one relay. It holds the relay's end of the shutdown
/// rendezvous until it is used: the listener until the relay starts, the
/// sending end for the acknowledgment until the relay terminates.
#[derive(Debug)]
pub struct Lifecycle {
    address: Address,
    kind: ActorKind,
    phase: Phase,
    reason: Option<StopReason>,
    shutdown_pending: bool,
    listener: Option<ShutdownListener>,
    tx_ack: Option<Sender<()>>,
}

impl View for Lifecycle {
    type V = RelayState;

    closed spec fn view(&self) -> RelayState {
        RelayState {
            kind: self.kind,
            phase: self.phase,
            reason: self.reason,
            shutdown_pending: self.shutdown_pending,
        }
    }
}

impl Lifecycle {
    /// The address at which the relay's actor lives.
    pub closed spec fn relay(&self) -> AddressView {
        self.address@
    }

    /// The state is one that a relay can get into, and the relay holds
    /// exactly those ends of its rendezvous that it has yet to use.
    pub closed spec fn wf(&self) -> bool {
        &&& self@.inv()
        &&& self.listener is Some <==> self.phase == Phase::Created
        &&& self.tx_ack is Some <==> (self.phase != Phase::Created && self.phase
            != Phase::Terminated)
        &&& self.listener matches Some(l) ==> l.relay() == self.address@
    }

    /// A relay is only ever in a state that [`RelayState::inv`] describes.
    pub proof fn state_is_sound(&self)
        requires
            self.wf(),
        ensures
            self@.inv(),
    {
    }

    /// The machine of a relay that was built and not yet started. The relay
    /// lives at the address that `listener` listens for.
    pub fn new(kind: ActorKind, listener: ShutdownListener) -> (res: Self)
        ensures
            res.wf(),
            res.relay() == listener.relay(),
            res@ == RelayState::initial(kind),
    {
        Lifecycle {
            address: listener.address().clone(),
            kind,
            phase: Phase::Created,
            reason: None,
            shutdown_pending: false,
            listener: Some(listener),
            tx_ack: None,
        }
    }

    /// The address at which the relay's actor lives.
    pub fn address(&self) -> (res: &Address)
        ensures
            res@ == self.relay(),
    {
        &self.address
    }

    /// The kind of actor that the relay drives.
    pub fn kind(&self) -> (res: ActorKind)
        ensures
            res == self@.kind,
    {
        self.kind
    }

    /// Where the relay is in its life.
    pub fn phase(&self) -> (res: Phase)
        ensures
            res == self@.phase,
    {
        self.phase
    }

    /// Why the relay stops, once that is decided.
    pub fn stop_reason(&self) -> (res: Option<StopReason>)
        ensures
            res == self@.reason,
    {
        self.reason
    }

    /// Whether the relay has sent its acknowledgment.
    pub fn is_terminated(&self) -> (res: bool)
        ensures
            res == self@.terminated(),
    {
        self.phase == Phase::Terminated
    }

    fn begin_unit(&mut self) -> (action: RelayAction)
        ensures
            final(self)@ == old(self)@.begin_unit().0,
            seq![action.command()] == old(self)@.begin_unit().1,
            action.concerns(old(self).relay()),
            final(self).address == old(self).address,
            final(self).listener == old(self).listener,
            final(self).tx_ack == old(self).tx_ack,
    {
        match self.kind {
            ActorKind::Processor => {
                self.phase = Phase::Running;
                RelayAction::Process
            },
            ActorKind::Worker => {
                self.phase = Phase::Waiting;
                RelayAction::AwaitMessage
            },
        }
    }

    fn begin_shutdown(&mut self, reason: StopReason) -> (action: RelayAction)
        ensures
            final(self)@ == old(self)@.begin_shutdown(reason),
            action == RelayAction::Shutdown,
            final(self).address == old(self).address,
            final(self).listener == old(self).listener,
            final(self).tx_ack == old(self).tx_ack,
    {
        self.phase = Phase::ShuttingDown;
        self.reason = Some(reason);
        self.shutdown_pending = false;
        RelayAction::Shutdown
    }

    /// Takes in what the driver reports and answers with what it is to do
    /// next, in order. The answer is empty where the relay only goes on
    /// waiting, and where the event makes no sense in the phase. When
    /// `shutdown` has returned, the acknowledgment is sent here and now, and
    /// the answer says how that went.
    pub fn step(&mut self, event: RelayEvent) -> (actions: Vec<RelayAction>)
        requires
            old(self).wf(),
        ensures
            final(self).wf(),
            final(self).relay() == old(self).relay(),
            final(self)@ == old(self)@.next(event).0,
            commands_of(actions@) == old(self)@.next(event).1,
            all_concern(actions@, old(self).relay()),
    {
        let mut actions: Vec<RelayAction> = Vec::new();
        match (self.phase, event) {
            (Phase::Created, RelayEvent::Started) => {
                let listener = self.listener.take().unwrap();
                let (rx_shutdown, tx_ack) = listener.consume();
                self.tx_ack = Some(tx_ack);
                self.phase = Phase::Initializing;
                actions.push(RelayAction::Listen(rx_shutdown));
                actions.push(RelayAction::Initialize);
            },
            (Phase::Created, RelayEvent::ShutdownRequested) => {
                self.shutdown_pending = true;
            },
            (Phase::Initializing, RelayEvent::ShutdownRequested) => {
                self.shutdown_pending = true;
            },
            (Phase::Initializing, RelayEvent::Initialized { ok }) => {
                if !ok {
                    actions.push(RelayAction::Log(RelayFailure::InitializationFailure));
                }
                if self.shutdown_pending {
                    let action = self.begin_shutdown(StopReason::ExternalShutdown);
                    actions.push(action);
                } else {
                    let action = self.begin_unit();
                    actions.push(action);
                }
            },
            (Phase::Waiting, RelayEvent::MessageTaken) => {
                self.phase = Phase::Running;
                actions.push(RelayAction::HandleMessage);
            },
            (Phase::Waiting, RelayEvent::MailboxClosed) => {
                let action = self.begin_shutdown(StopReason::LoopCompleted);
                actions.push(action);
            },
            (Phase::Waiting, RelayEvent::ShutdownRequested) => {
                let action = self.begin_shutdown(StopReason::ExternalShutdown);
                actions.push(action);
            },
            (Phase::Running, RelayEvent::Stepped(StepOutcome::Continue)) => {
                let action = self.begin_unit();
                actions.push(action);
            },
            (Phase::Running, RelayEvent::Stepped(StepOutcome::Stop)) => {
                let action = self.begin_shutdown(StopReason::LoopCompleted);
                actions.push(action);
            },
            (Phase::Running, RelayEvent::Stepped(StepOutcome::Failed)) => {
                actions.push(RelayAction::Log(RelayFailure::ProcessingFailure));
                let action = self.begin_shutdown(StopReason::LoopCompleted);
                actions.push(action);
            },
            (Phase::Running, RelayEvent::ShutdownRequested) => {
                self.phase = Phase::Draining;
                self.reason = Some(StopReason::ExternalShutdown);
            },
            (Phase::Draining, RelayEvent::Stepped(outcome)) => {
                if outcome == StepOutcome::Failed {
                    actions.push(RelayAction::Log(RelayFailure::ProcessingFailure));
                }
                let action = self.begin_shutdown(StopReason::ExternalShutdown);
                actions.push(action);
            },
            (Phase::ShuttingDown, RelayEvent::ShutDown { ok }) => {
                if !ok {
                    actions.push(RelayAction::Log(RelayFailure::ShutdownFailure));
                }
                let tx_ack = self.tx_ack.take().unwrap();
                let delivered = tx_ack.send(()).is_ok();
                actions.push(RelayAction::Acknowledged(delivered));
                if self.reason == Some(StopReason::LoopCompleted) {
                    actions.push(RelayAction::Deregister(self.address.clone()));
                }
                self.phase = Phase::Terminated;
            },
            _ => {},
        }
        actions
    }
}

/// How often `command` occurs in `commands`.
pub open spec fn occurrences(commands: Seq<Command>, command: Command) -> nat
    decreases commands.len(),
{
    if commands.len() == 0 {
        0
    } else {
        occurrences(commands.drop_last(), command) + if commands.last() == command {
            1nat
        } else {
            0nat
        }
    }
}

proof fn occurrences_of_concat(a: Seq<Command>, b: Seq<Command>, command: Command)
    ensures
        occurrences(a + b, command) == occurrences(a, command) + occurrences(b, command),
    decreases b.len(),
{
    if b.len() == 0 {
        assert(a + b =~= a);
    } else {
        occurrences_of_concat(a, b.drop_last(), command);
        assert((a + b).drop_last() =~= a + b.drop_last());
        assert((a + b).last() == b.last());
    }
}

proof fn occurrences_in_short(commands: Seq<Command>, command: Command)
    requires
        commands.len() <= 3,
    ensures
        occurrences(commands, command) == (if commands.len() > 0 && commands[0] == command {
            1nat
        } else {
            0nat
        }) + (if commands.len() > 1 && commands[1] == command {
            1nat
        } else {
            0nat
        }) + (if commands.len() > 2 && commands[2] == command {
            1nat
        } else {
            0nat
        }),
{
    reveal_with_fuel(occurrences, 4);
    if commands.len() > 0 {
        let a = commands.drop_last();
        if a.len() > 0 {
            let b = a.drop_last();
            if b.len() > 0 {
                assert(b.drop_last().len() == 0);
            }
        }
    }
}

/// One step of a relay: the invariant is kept, the acknowledgment is sent
/// exactly when `shutdown` returns, and the relay takes its own address out
/// of the router exactly when it then stops because its loop had ended.
pub proof fn relay_step_is_sound(s: RelayState, event: RelayEvent)
    requires
        s.inv(),
    ensures
        ({
            let (t, commands) = s.next(event);
            let finishes = s.phase == Phase::ShuttingDown && event is ShutDown;
            &&& t.inv()
            &&& t.kind == s.kind
            &&& t.terminated() <==> s.terminated() || finishes
            &&& s.reason is Some ==> t.reason == s.reason
            &&& occurrences(commands, Command::Acknowledged) == (if finishes {
                1nat
            } else {
                0nat
            })
            &&& occurrences(commands, Command::Deregister) == (if finishes && s.reason == Some(
                StopReason::LoopCompleted,
            ) {
                1nat
            } else {
                0nat
            })
        }),
{
    let (t, commands) = s.next(event);
    assert(commands.len() <= 3);
    occurrences_in_short(commands, Command::Acknowledged);
    occurrences_in_short(commands, Command::Deregister);
}

/// Every relay runs `initialize` once, when it starts, and `shutdown` once,
/// when it leaves its loop, whatever the reason: a relay that has terminated
/// has run both, each exactly once, `shutdown` after `initialize`.
pub proof fn relay_runs_each_hook_once(kind: ActorKind, events: Seq<RelayEvent>)
    ensures
        ({
            let (s, commands) = RelayState::initial(kind).run(events);
            &&& s.inv()
            &&& occurrences(commands, Command::Initialize) == (if s.phase != Phase::Created {
                1nat
            } else {
                0nat
            })
            &&& occurrences(commands, Command::Shutdown) == (if s.past_loop() {
                1nat
            } else {
                0nat
            })
        }),
    decreases events.len(),
{
    if events.len() > 0 {
        relay_runs_each_hook_once(kind, events.drop_last());
        let before = RelayState::initial(kind).run(events.drop_last());
        let step = before.0.next(events.last());
        assert(step.1.len() <= 3);
        occurrences_in_short(step.1, Command::Initialize);
        occurrences_in_short(step.1, Command::Shutdown);
        occurrences_of_concat(before.1, step.1, Command::Initialize);
        occurrences_of_concat(before.1, step.1, Command::Shutdown);
    }
}

/// A self-driven actor is never made to wait for a message or to handle
/// one: its relay asks for neither, and is never in the phase of waiting.
pub proof fn processor_is_never_made_to_wait(s: RelayState, event: RelayEvent)
    requires
        s.inv(),
        s.kind == ActorKind::Processor,
    ensures
        s.phase != Phase::Waiting,
        s.next(event).0.phase != Phase::Waiting,
        occurrences(s.next(event).1, Command::AwaitMessage) == 0,
        occurrences(s.next(event).1, Command::HandleMessage) == 0,
{
    let commands = s.next(event).1;
    assert(commands.len() <= 3);
    occurrences_in_short(commands, Command::AwaitMessage);
    occurrences_in_short(commands, Command::HandleMessage);
}

/// Every relay acknowledges its shutdown exactly once. Whatever is reported
/// to a relay, and in whatever order, it never sends a second
/// acknowledgment, and it has sent one exactly when it has terminated.
pub proof fn relay_acknowledges_exactly_once(kind: ActorKind, events: Seq<RelayEvent>)
    ensures
        ({
            let (s, commands) = RelayState::initial(kind).run(events);
            &&& s.inv()
            &&& occurrences(commands, Command::Acknowledged) == (if s.terminated() {
                1nat
            } else {
                0nat
            })
        }),
    decreases events.len(),
{
    if events.len() > 0 {
        relay_acknowledges_exactly_once(kind, events.drop_last());
        let before = RelayState::initial(kind).run(events.drop_last());
        let step = before.0.next(events.last());
        relay_step_is_sound(before.0, events.last());
        occurrences_of_concat(before.1, step.1, Command::Acknowledged);
    }
}

/// A relay that stops because its loop ended takes its own address out of
/// the router exactly once, when it terminates; a relay that was stopped
/// from outside never does.
pub proof fn relay_deregisters_itself_only_after_loop_completed(
    kind: ActorKind,
    events: Seq<RelayEvent>,
)
    ensures
        ({
            let (s, commands) = RelayState::initial(kind).run(events);
            &&& s.inv()
            &&& occurrences(commands, Command::Deregister) == (if s.terminated() && s.reason
                == Some(StopReason::LoopCompleted) {
                1nat
            } else {
                0nat
            })
        }),
    decreases events.len(),
{
    if events.len() > 0 {
        relay_deregisters_itself_only_after_loop_completed(kind, events.drop_last());
        let before = RelayState::initial(kind).run(events.drop_last());
        let step = before.0.next(events.last());
        relay_step_is_sound(before.0, events.last());
        occurrences_of_concat(before.1, step.1, Command::Deregister);
    }
}

/// A request to stop is never lost, whenever it arrives: from then on it is
/// settled that the relay stops.
pub proof fn shutdown_request_settles_the_stop(s: RelayState)
    requires
        s.inv(),
        !s.terminated(),
    ensures
        s.next(RelayEvent::ShutdownRequested).0.stopping(),
        s.next(RelayEvent::ShutdownRequested).0.inv(),
{
}

/// Once it is settled that a relay stops, nothing takes that back, and the
/// relay only waits for what already runs: each report that the awaited
/// hook or unit of work has returned brings it one step nearer to its
/// acknowledgment, which is at most three such reports away, and no other
/// event moves it away.
pub proof fn stopping_relay_reaches_acknowledgment(s: RelayState, event: RelayEvent)
    requires
        s.inv(),
        s.stopping(),
    ensures
        ({
            let t = s.next(event).0;
            &&& t.stopping()
            &&& t.distance() <= s.distance() <= 3
            &&& s.completes(event) ==> t.distance() + 1 == s.distance()
            &&& t.distance() == 0 <==> t.terminated()
            &&& s.phase != Phase::Waiting
        }),
{
}

} // verus!
