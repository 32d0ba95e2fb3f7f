//! The decisions of the funder's event loop. The loop reads events, asks a
//! handler what to do with each, persists the state mutations that the
//! handler asks for, and sends what the handler produced; the decisions of
//! which step comes next, and when the loop ends and with what result, are
//! made here, from the loop's stage and what the last step reported.
use vstd::prelude::*;

verus! {

/// Why the funder stopped.
#[derive(Clone, Copy, Debug, PartialEq, Eq, Structural)]
pub enum FunderError {
    IncomingControlClosed,
    IncomingCommClosed,
    IncomingMessagesError,
    DbError,
    SendControlError,
    SendCommError,
}

/// An event that the funder reads: an incoming message, or the end of one
/// of its two incoming streams.
#[derive(Clone, Debug)]
pub enum FunderEvent<I> {
    FunderIncoming(I),
    IncomingControlClosed,
    IncomingCommClosed,
}

/// What kind of event arrived.
#[derive(Clone, Copy, Debug, PartialEq, Eq, Structural)]
pub enum EventKind {
    Incoming,
    IncomingControlClosed,
    IncomingCommClosed,
}

impl<I> FunderEvent<I> {
    /// The kind of an event.
    pub open spec fn kind_of(&self) -> EventKind {
        match self {
            FunderEvent::FunderIncoming(_) => EventKind::Incoming,
            FunderEvent::IncomingControlClosed => EventKind::IncomingControlClosed,
            FunderEvent::IncomingCommClosed => EventKind::IncomingCommClosed,
        }
    }

    /// The kind of this event.
    pub fn kind(&self) -> (r: EventKind)
        ensures
            r == self.kind_of(),
    {
        match self {
            FunderEvent::FunderIncoming(_) => EventKind::Incoming,
            FunderEvent::IncomingControlClosed => EventKind::IncomingControlClosed,
            FunderEvent::IncomingCommClosed => EventKind::IncomingCommClosed,
        }
    }

    /// The incoming message of an event, or the error that the end of a
    /// stream stops the funder with.
    pub fn into_incoming(self) -> (r: Result<I, FunderError>)
        ensures
            match self {
                FunderEvent::FunderIncoming(i) => r == Ok::<I, FunderError>(i),
                FunderEvent::IncomingControlClosed => r == Err::<I, FunderError>(FunderError::IncomingControlClosed),
                FunderEvent::IncomingCommClosed => r == Err::<I, FunderError>(FunderError::IncomingCommClosed),
            },
    {
        match self {
            FunderEvent::FunderIncoming(i) => Ok(i),
            FunderEvent::IncomingControlClosed => Err(FunderError::IncomingControlClosed),
            FunderEvent::IncomingCommClosed => Err(FunderError::IncomingCommClosed),
        }
    }
}

/// Where the loop stands.
#[derive(Clone, Copy, Debug, PartialEq, Eq, Structural)]
pub enum LoopStage {
    /// Waiting for the next event.
    AwaitingEvent,
    /// The handler is working on an incoming message.
    Handling,
    /// The handler's state mutations are being applied and written to the
    /// database.
    Persisting,
    /// Outgoing messages to friends are being sent.
    SendingComms,
    /// Outgoing messages to the user are being sent.
    SendingControls,
    /// The event is being reported to an observer.
    ReportingEvent,
    /// The loop has ended.
    Finished,
}

/// What a step of the loop reports back.
#[derive(Clone, Copy, Debug, PartialEq, Eq, Structural)]
pub enum LoopInput {
    /// An event of this kind arrived.
    EventArrived(EventKind),
    /// The event streams have ended.
    EventsEnded,
    /// The handler failed on the message (a recoverable error).
    HandlerFailed,
    /// The handler succeeded; whether it asked for state mutations.
    HandlerSucceeded(bool),
    /// Whether the mutations were written to the database.
    Persisted(bool),
    /// Whether the outgoing messages to friends were sent.
    CommsSent(bool),
    /// Whether the outgoing messages to the user were sent.
    ControlsSent(bool),
    /// The event was reported to the observer.
    EventReported,
}

/// What the loop does next.
#[derive(Clone, Copy, Debug, PartialEq, Eq, Structural)]
pub enum LoopAction {
    /// Wait for the next event.
    AwaitEvent,
    /// Run the handler on the incoming message.
    RunHandler,
    /// Apply the handler's state mutations and write them to the database.
    PersistMutations,
    /// Apply the handler's ephemeral mutations and send the outgoing
    /// messages to friends.
    SendComms,
    /// Send the outgoing messages to the user.
    SendControls,
    /// Report the event to the observer.
    ReportEvent,
    /// Stop: the event streams have ended.
    Finish,
    /// Stop with this error.
    Fail(FunderError),
}

/// The stage and the action that follow a stage on an input; `reports`
/// says whether there is an observer to report events to.
pub open spec fn next_step(stage: LoopStage, reports: bool, input: LoopInput) -> (LoopStage, LoopAction) {
    match (stage, input) {
        (LoopStage::AwaitingEvent, LoopInput::EventArrived(EventKind::Incoming)) => (LoopStage::Handling, LoopAction::RunHandler),
        (LoopStage::AwaitingEvent, LoopInput::EventArrived(EventKind::IncomingControlClosed)) => (
            LoopStage::Finished,
            LoopAction::Fail(FunderError::IncomingControlClosed),
        ),
        (LoopStage::AwaitingEvent, LoopInput::EventArrived(EventKind::IncomingCommClosed)) => (
            LoopStage::Finished,
            LoopAction::Fail(FunderError::IncomingCommClosed),
        ),
        (LoopStage::AwaitingEvent, LoopInput::EventsEnded) => (LoopStage::Finished, LoopAction::Finish),
        (LoopStage::Handling, LoopInput::HandlerFailed) => (LoopStage::AwaitingEvent, LoopAction::AwaitEvent),
        (LoopStage::Handling, LoopInput::HandlerSucceeded(true)) => (LoopStage::Persisting, LoopAction::PersistMutations),
        (LoopStage::Handling, LoopInput::HandlerSucceeded(false)) => (LoopStage::SendingComms, LoopAction::SendComms),
        (LoopStage::Persisting, LoopInput::Persisted(true)) => (LoopStage::SendingComms, LoopAction::SendComms),
        (LoopStage::Persisting, LoopInput::Persisted(false)) => (LoopStage::Finished, LoopAction::Fail(FunderError::DbError)),
        (LoopStage::SendingComms, LoopInput::CommsSent(true)) => (LoopStage::SendingControls, LoopAction::SendControls),
        (LoopStage::SendingComms, LoopInput::CommsSent(false)) => (LoopStage::Finished, LoopAction::Fail(FunderError::SendCommError)),
        (LoopStage::SendingControls, LoopInput::ControlsSent(true)) => if reports {
            (LoopStage::ReportingEvent, LoopAction::ReportEvent)
        } else {
            (LoopStage::AwaitingEvent, LoopAction::AwaitEvent)
        },
        (LoopStage::SendingControls, LoopInput::ControlsSent(false)) => (
            LoopStage::Finished,
            LoopAction::Fail(FunderError::SendControlError),
        ),
        (LoopStage::ReportingEvent, LoopInput::EventReported) => (LoopStage::AwaitingEvent, LoopAction::AwaitEvent),
        _ => (stage, LoopAction::Fail(FunderError::IncomingMessagesError)),
    }
}

/// The inputs that a stage waits for: each stage waits for the report of
/// the action that led to it, and a finished loop waits for nothing.
pub open spec fn expects_input(stage: LoopStage, input: LoopInput) -> bool {
    match (stage, input) {
        (LoopStage::AwaitingEvent, LoopInput::EventArrived(_)) => true,
        (LoopStage::AwaitingEvent, LoopInput::EventsEnded) => true,
        (LoopStage::Handling, LoopInput::HandlerFailed) => true,
        (LoopStage::Handling, LoopInput::HandlerSucceeded(_)) => true,
        (LoopStage::Persisting, LoopInput::Persisted(_)) => true,
        (LoopStage::SendingComms, LoopInput::CommsSent(_)) => true,
        (LoopStage::SendingControls, LoopInput::ControlsSent(_)) => true,
        (LoopStage::ReportingEvent, LoopInput::EventReported) => true,
        _ => false,
    }
}

/// The reports that can come back from an action: an event or the end of
/// the events after waiting, the handler's failure or success after running
/// it, and the success or failure of each write or send.
pub open spec fn reports_action(action: LoopAction, input: LoopInput) -> bool {
    match action {
        LoopAction::AwaitEvent => input is EventArrived || input is EventsEnded,
        LoopAction::RunHandler => input is HandlerFailed || input is HandlerSucceeded,
        LoopAction::PersistMutations => input is Persisted,
        LoopAction::SendComms => input is CommsSent,
        LoopAction::SendControls => input is ControlsSent,
        LoopAction::ReportEvent => input is EventReported,
        LoopAction::Finish => false,
        LoopAction::Fail(_) => false,
    }
}

/// The funder's event loop, as a machine from reports to actions.
pub struct FunderLoop {
    stage: LoopStage,
    reports_events: bool,
}

impl FunderLoop {
    /// Where the loop stands.
    pub closed spec fn stage_of(&self) -> LoopStage {
        self.stage
    }

    /// Whether the loop reports each handled event to an observer.
    pub closed spec fn reports(&self) -> bool {
        self.reports_events
    }

    /// A loop that waits for its first event; `reports_events` says whether
    /// an observer is told of each event after it has been dealt with.
    pub fn new(reports_events: bool) -> (r: (FunderLoop, LoopAction))
        ensures
            r.0.stage_of() == LoopStage::AwaitingEvent,
            r.0.reports() == reports_events,
            r.1 == LoopAction::AwaitEvent,
            forall|i: LoopInput| reports_action(r.1, i) ==> expects_input(r.0.stage_of(), i),
    {
        (FunderLoop { stage: LoopStage::AwaitingEvent, reports_events }, LoopAction::AwaitEvent)
    }

    /// Where the loop stands.
    pub fn stage(&self) -> (r: LoopStage)
        ensures
            r == self.stage_of(),
    {
        self.stage
    }

    /// Whether the loop waits for this input now.
    pub fn expects(&self, input: LoopInput) -> (r: bool)
        ensures
            r == expects_input(self.stage_of(), input),
    {
        match (self.stage, input) {
            (LoopStage::AwaitingEvent, LoopInput::EventArrived(_)) => true,
            (LoopStage::AwaitingEvent, LoopInput::EventsEnded) => true,
            (LoopStage::Handling, LoopInput::HandlerFailed) => true,
            (LoopStage::Handling, LoopInput::HandlerSucceeded(_)) => true,
            (LoopStage::Persisting, LoopInput::Persisted(_)) => true,
            (LoopStage::SendingComms, LoopInput::CommsSent(_)) => true,
            (LoopStage::SendingControls, LoopInput::ControlsSent(_)) => true,
            (LoopStage::ReportingEvent, LoopInput::EventReported) => true,
            _ => false,
        }
    }

    /// Takes the report of the last action and decides the next one.
    pub fn step(&mut self, input: LoopInput) -> (action: LoopAction)
        requires
            expects_input(old(self).stage_of(), input),
        ensures
            final(self).reports() == old(self).reports(),
            (final(self).stage_of(), action) == next_step(old(self).stage_of(), old(self).reports(), input),
            forall|i: LoopInput| reports_action(action, i) ==> expects_input(final(self).stage_of(), i),
    {
        let (stage, action) = match (self.stage, input) {
            (LoopStage::AwaitingEvent, LoopInput::EventArrived(EventKind::Incoming)) => (LoopStage::Handling, LoopAction::RunHandler),
            (LoopStage::AwaitingEvent, LoopInput::EventArrived(EventKind::IncomingControlClosed)) => (
                LoopStage::Finished,
                LoopAction::Fail(FunderError::IncomingControlClosed),
            ),
            (LoopStage::AwaitingEvent, LoopInput::EventArrived(EventKind::IncomingCommClosed)) => (
                LoopStage::Finished,
                LoopAction::Fail(FunderError::IncomingCommClosed),
            ),
            (LoopStage::AwaitingEvent, LoopInput::EventsEnded) => (LoopStage::Finished, LoopAction::Finish),
            (LoopStage::Handling, LoopInput::HandlerFailed) => (LoopStage::AwaitingEvent, LoopAction::AwaitEvent),
            (LoopStage::Handling, LoopInput::HandlerSucceeded(has_mutations)) => if has_mutations {
                (LoopStage::Persisting, LoopAction::PersistMutations)
            } else {
                (LoopStage::SendingComms, LoopAction::SendComms)
            },
            (LoopStage::Persisting, LoopInput::Persisted(ok)) => if ok {
                (LoopStage::SendingComms, LoopAction::SendComms)
            } else {
                (LoopStage::Finished, LoopAction::Fail(FunderError::DbError))
            },
            (LoopStage::SendingComms, LoopInput::CommsSent(ok)) => if ok {
                (LoopStage::SendingControls, LoopAction::SendControls)
            } else {
                (LoopStage::Finished, LoopAction::Fail(FunderError::SendCommError))
            },
            (LoopStage::SendingControls, LoopInput::ControlsSent(ok)) => if !ok {
                (LoopStage::Finished, LoopAction::Fail(FunderError::SendControlError))
            } else if self.reports_events {
                (LoopStage::ReportingEvent, LoopAction::ReportEvent)
            } else {
                (LoopStage::AwaitingEvent, LoopAction::AwaitEvent)
            },
            (LoopStage::ReportingEvent, LoopInput::EventReported) => (LoopStage::AwaitingEvent, LoopAction::AwaitEvent),
            _ => (self.stage, LoopAction::Fail(FunderError::IncomingMessagesError)),
        };
        self.stage = stage;
        action
    }
}

} // verus!
