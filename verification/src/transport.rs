//! The decisions of the transport controller.
//!
//! The controller is the single authority over the link to the device. Each
//! operation is a sequence of exchanges; an exchange clears what the link has
//! buffered, writes one command, and waits for one response or a deadline.
//! A query is one exchange. A change of power or source alternates a query
//! with the command that asks for the change, until the query reports the
//! target or the attempts are used up.
//!
//! The controller here performs no input or output. It is a state machine:
//! the caller performs the action that the controller asks for, and reports
//! what happened as an event.

use crate::epson_codec::{CodecError, EpsonInput, EpsonOutput};
use crate::protocol::{Power, PowerStatus, Source};
use vstd::prelude::*;

verus! {

/// The number of times a change is asked of the device before the operation
/// gives up.
pub const MAX_ATTEMPTS: u8 = 3;

/// What a caller asks of the device.
#[derive(Clone, Copy, Debug, PartialEq, Eq, Structural)]
pub enum Operation {
    GetPowerStatus,
    GetSource,
    SetPower(Power),
    SetSource(Source),
}

/// What the link is to do next.
#[derive(Clone, Copy, Debug, PartialEq, Eq, Structural)]
pub enum Action {
    /// Discard the undecoded bytes and what the link has queued.
    ClearBuffers,
    /// Encode and write the command.
    Send(EpsonInput),
    /// Wait for the next response, or for the read timeout to elapse.
    AwaitResponse,
    /// Wait one read timeout for the device to settle.
    Settle,
}

/// What the link reports of the action it was asked to perform.
#[derive(Debug, PartialEq, Eq)]
pub enum LinkEvent {
    /// The buffers were cleared.
    Cleared,
    /// The command was written.
    Sent,
    /// A frame arrived and was decoded.
    Response(EpsonOutput),
    /// A frame arrived and could not be decoded.
    DecodeFailed(CodecError),
    /// The channel ended with no frame pending.
    Closed,
    /// The read timeout elapsed before a frame arrived.
    TimedOut,
    /// The settle delay is over.
    Settled,
    /// The link failed to perform the action.
    Failed(String),
}

/// What an operation gives its caller when it succeeds.
#[derive(Clone, Copy, Debug, PartialEq, Eq, Structural)]
pub enum Outcome {
    PowerStatus(PowerStatus),
    Source(Source),
    /// The device reports the state that was asked for.
    Converged,
}

/// Why an operation failed.
#[derive(Debug, PartialEq, Eq)]
pub enum TransportError {
    /// A frame could not be decoded.
    Decode(CodecError),
    /// The response to a query was of the wrong kind.
    ProtocolViolation { command: EpsonInput, response: EpsonOutput },
    /// No frame arrived in time after the command was written.
    Timeout(EpsonInput),
    /// The channel ended without a response to the command.
    NoResponse(EpsonInput),
    /// The device still disagrees with the target after every attempt.
    NotConverged(Operation),
    /// The link failed to clear, to write or to read.
    Link(String),
    /// The link reported an event that answers no action asked of it.
    UnexpectedEvent,
}

/// What the controller decides on an event.
#[derive(Debug, PartialEq, Eq)]
pub enum Directive {
    /// The operation goes on with this action.
    Perform(Action),
    /// The operation is over.
    Finish(Result<Outcome, TransportError>),
}

/// Where an operation stands.
#[derive(Clone, Copy, Debug, PartialEq, Eq, Structural)]
pub enum Phase {
    /// Waiting for the buffers to be cleared.
    Clearing,
    /// Waiting for the command to be written.
    Sending,
    /// Waiting for a response.
    Awaiting,
    /// Waiting for the device to settle.
    Settling,
    /// Over.
    Finished,
}

/// The state of an operation.
#[derive(Clone, Copy, Debug, PartialEq, Eq, Structural)]
pub struct ControllerState {
    pub operation: Operation,
    /// Whether the current exchange carries the command that asks for the
    /// change, rather than the query.
    pub setting: bool,
    pub phase: Phase,
    /// The number of times the change was asked for and left to settle.
    pub attempts: u8,
}

impl Operation {
    /// Whether the operation changes the device's state.
    pub open spec fn is_change(self) -> bool {
        self is SetPower || self is SetSource
    }

    /// The query that reads the state the operation is about.
    pub open spec fn query(self) -> EpsonInput {
        match self {
            Operation::GetPowerStatus | Operation::SetPower(_) => EpsonInput::QueryPower,
            Operation::GetSource | Operation::SetSource(_) => EpsonInput::QuerySource,
        }
    }

    /// The command that asks for the change, for an operation that is one.
    pub open spec fn change(self) -> EpsonInput
        recommends
            self.is_change(),
    {
        match self {
            Operation::SetPower(power) => EpsonInput::SetPower(power),
            Operation::SetSource(source) => EpsonInput::SetSource(source),
            _ => self.query(),
        }
    }

    /// How the operation goes on when its query is answered with `response`:
    /// `Some(Ok(..))` where the answer ends it with success, `None` where the
    /// answer is of the right kind and differs from the target, and
    /// `Some(Err(..))` where the answer is of the wrong kind.
    pub open spec fn verdict(self, response: EpsonOutput) -> Option<
        Result<Outcome, TransportError>,
    > {
        match (self, response) {
            (Operation::GetPowerStatus, EpsonOutput::PowerStatus(status)) => Some(
                Ok(Outcome::PowerStatus(status)),
            ),
            (Operation::GetSource, EpsonOutput::SourceStatus(source)) => Some(
                Ok(Outcome::Source(source)),
            ),
            (Operation::SetPower(target), EpsonOutput::PowerStatus(status)) => if status.power()
                == target {
                Some(Ok(Outcome::Converged))
            } else {
                None
            },
            (Operation::SetSource(target), EpsonOutput::SourceStatus(source)) => if source
                == target {
                Some(Ok(Outcome::Converged))
            } else {
                None
            },
            (_, other) => Some(
                Err(TransportError::ProtocolViolation { command: self.query(), response: other }),
            ),
        }
    }

    fn query_command(self) -> (command: EpsonInput)
        ensures
            command == self.query(),
    {
        match self {
            Operation::GetPowerStatus | Operation::SetPower(_) => EpsonInput::QueryPower,
            Operation::GetSource | Operation::SetSource(_) => EpsonInput::QuerySource,
        }
    }

    fn change_command(self) -> (command: EpsonInput)
        ensures
            command == self.change(),
    {
        match self {
            Operation::SetPower(power) => EpsonInput::SetPower(power),
            Operation::SetSource(source) => EpsonInput::SetSource(source),
            _ => self.query_command(),
        }
    }

    fn judge(self, response: EpsonOutput) -> (verdict: Option<Result<Outcome, TransportError>>)
        ensures
            verdict == self.verdict(response),
    {
        match (self, response) {
            (Operation::GetPowerStatus, EpsonOutput::PowerStatus(status)) => Some(
                Ok(Outcome::PowerStatus(status)),
            ),
            (Operation::GetSource, EpsonOutput::SourceStatus(source)) => Some(
                Ok(Outcome::Source(source)),
            ),
            (Operation::SetPower(target), EpsonOutput::PowerStatus(status)) => {
                let current: Power = Power::from(status);
                if current == target {
                    Some(Ok(Outcome::Converged))
                } else {
                    None
                }
            },
            (Operation::SetSource(target), EpsonOutput::SourceStatus(source)) => {
                if source == target {
                    Some(Ok(Outcome::Converged))
                } else {
                    None
                }
            },
            (_, other) => Some(
                Err(
                    TransportError::ProtocolViolation {
                        command: self.query_command(),
                        response: other,
                    },
                ),
            ),
        }
    }
}

impl ControllerState {
    /// The state in which an operation begins: its first exchange is the
    /// query, and it starts by clearing the buffers.
    pub open spec fn initial(operation: Operation) -> ControllerState {
        ControllerState { operation, setting: false, phase: Phase::Clearing, attempts: 0 }
    }

    /// What holds of every state that an operation reaches.
    pub open spec fn wf(self) -> bool {
        &&& self.attempts <= MAX_ATTEMPTS
        &&& self.phase != Phase::Finished ==> self.attempts < MAX_ATTEMPTS
        &&& self.setting ==> self.operation.is_change()
        &&& self.phase == Phase::Settling ==> self.setting
    }

    /// The command of the current exchange.
    pub open spec fn command(self) -> EpsonInput {
        if self.setting {
            self.operation.change()
        } else {
            self.operation.query()
        }
    }

    /// The action that the controller waits on, if the operation is not over.
    pub open spec fn pending(self) -> Option<Action> {
        match self.phase {
            Phase::Clearing => Some(Action::ClearBuffers),
            Phase::Sending => Some(Action::Send(self.command())),
            Phase::Awaiting => Some(Action::AwaitResponse),
            Phase::Settling => Some(Action::Settle),
            Phase::Finished => None,
        }
    }

    /// The state in which the operation is over.
    pub open spec fn finished(self) -> ControllerState {
        ControllerState { phase: Phase::Finished, ..self }
    }

    /// The state in the given phase of the current exchange.
    pub open spec fn at(self, phase: Phase) -> ControllerState {
        ControllerState { phase, ..self }
    }

    /// The state at the start of the exchange that asks for the change.
    pub open spec fn changing(self) -> ControllerState {
        ControllerState { setting: true, phase: Phase::Clearing, ..self }
    }

    /// The state at the start of the next query, one attempt later.
    pub open spec fn retrying(self) -> ControllerState {
        ControllerState {
            setting: false,
            phase: Phase::Clearing,
            attempts: (self.attempts + 1) as u8,
            ..self
        }
    }

    /// What a response means for the exchange that awaits it. The response to
    /// the command that asks for a change is not looked at: the device is
    /// left to settle. The response to a query ends the operation, unless it
    /// is of the right kind and differs from the target: then the change is
    /// asked for.
    pub open spec fn on_response(self, response: EpsonOutput) -> (ControllerState, Directive) {
        if self.setting {
            (self.at(Phase::Settling), Directive::Perform(Action::Settle))
        } else {
            match self.operation.verdict(response) {
                Some(result) => (self.finished(), Directive::Finish(result)),
                None => (self.changing(), Directive::Perform(Action::ClearBuffers)),
            }
        }
    }

    /// What the end of the settle delay means: the next query, or, once the
    /// change was asked for `MAX_ATTEMPTS` times, the end of the operation
    /// without convergence.
    pub open spec fn on_settled(self) -> (ControllerState, Directive) {
        if self.attempts + 1 >= MAX_ATTEMPTS {
            (
                self.finished(),
                Directive::Finish(Err(TransportError::NotConverged(self.operation))),
            )
        } else {
            (self.retrying(), Directive::Perform(Action::ClearBuffers))
        }
    }

    /// The state after an event, and what the controller decides on it.
    ///
    /// An event that answers the pending action moves the operation on. A
    /// failure of the link, a frame that cannot be decoded, the end of the
    /// channel and the timeout end the operation with their error: none of
    /// them is retried. An event that does not answer the pending action ends
    /// the operation too.
    pub open spec fn transition(self, event: LinkEvent) -> (ControllerState, Directive) {
        match (self.phase, event) {
            (Phase::Finished, _) => (
                self,
                Directive::Finish(Err(TransportError::UnexpectedEvent)),
            ),
            (_, LinkEvent::Failed(message)) => (
                self.finished(),
                Directive::Finish(Err(TransportError::Link(message))),
            ),
            (Phase::Clearing, LinkEvent::Cleared) => (
                self.at(Phase::Sending),
                Directive::Perform(Action::Send(self.command())),
            ),
            (Phase::Sending, LinkEvent::Sent) => (
                self.at(Phase::Awaiting),
                Directive::Perform(Action::AwaitResponse),
            ),
            (Phase::Awaiting, LinkEvent::Response(response)) => self.on_response(response),
            (Phase::Awaiting, LinkEvent::DecodeFailed(error)) => (
                self.finished(),
                Directive::Finish(Err(TransportError::Decode(error))),
            ),
            (Phase::Awaiting, LinkEvent::Closed) => (
                self.finished(),
                Directive::Finish(Err(TransportError::NoResponse(self.command()))),
            ),
            (Phase::Awaiting, LinkEvent::TimedOut) => (
                self.finished(),
                Directive::Finish(Err(TransportError::Timeout(self.command()))),
            ),
            (Phase::Settling, LinkEvent::Settled) => self.on_settled(),
            (_, _) => (self.finished(), Directive::Finish(Err(TransportError::UnexpectedEvent))),
        }
    }
}

/// The controller of one operation.
pub struct Controller {
    state: ControllerState,
}

impl View for Controller {
    type V = ControllerState;

    closed spec fn view(&self) -> ControllerState {
        self.state
    }
}

impl Controller {
    #[verifier::type_invariant]
    spec fn reachable(self) -> bool {
        self.state.wf()
    }

    /// A controller for `operation`, about to clear the buffers for its
    /// first exchange.
    pub fn new(operation: Operation) -> (controller: Controller)
        ensures
            controller@ == ControllerState::initial(operation),
            controller@.wf(),
    {
        Controller {
            state: ControllerState {
                operation,
                setting: false,
                phase: Phase::Clearing,
                attempts: 0,
            },
        }
    }

    /// The state of the operation.
    pub fn state(&self) -> (state: ControllerState)
        ensures
            state == self@,
            state.wf(),
    {
        proof {
            use_type_invariant(self);
        }
        self.state
    }

    /// The command of the current exchange.
    fn command(&self) -> (command: EpsonInput)
        ensures
            command == self@.command(),
    {
        if self.state.setting {
            self.state.operation.change_command()
        } else {
            self.state.operation.query_command()
        }
    }

    /// The action that the controller waits on, or `None` once the operation
    /// is over.
    pub fn pending(&self) -> (action: Option<Action>)
        ensures
            action == self@.pending(),
    {
        match self.state.phase {
            Phase::Clearing => Some(Action::ClearBuffers),
            Phase::Sending => Some(Action::Send(self.command())),
            Phase::Awaiting => Some(Action::AwaitResponse),
            Phase::Settling => Some(Action::Settle),
            Phase::Finished => None,
        }
    }

    /// Ends the operation with `result`.
    fn finish(&mut self, result: Result<Outcome, TransportError>) -> (directive: Directive)
        ensures
            final(self)@ == old(self)@.finished(),
            directive == Directive::Finish(result),
    {
        proof {
            use_type_invariant(&*self);
        }
        self.state.phase = Phase::Finished;
        Directive::Finish(result)
    }

    /// Takes the event that the link reports and decides how the operation
    /// goes on: with another action, or with its result.
    pub fn step(&mut self, event: LinkEvent) -> (directive: Directive)
        ensures
            (final(self)@, directive) == old(self)@.transition(event),
            final(self)@.wf(),
            directive matches Directive::Perform(action) ==> final(self)@.pending() == Some(action),
            directive is Finish <==> final(self)@.phase == Phase::Finished,
    {
        proof {
            use_type_invariant(&*self);
        }
        let state = self.state;
        match (state.phase, event) {
            (Phase::Finished, _) => Directive::Finish(Err(TransportError::UnexpectedEvent)),
            (_, LinkEvent::Failed(message)) => self.finish(Err(TransportError::Link(message))),
            (Phase::Clearing, LinkEvent::Cleared) => {
                let command = self.command();
                self.state.phase = Phase::Sending;
                Directive::Perform(Action::Send(command))
            },
            (Phase::Sending, LinkEvent::Sent) => {
                self.state.phase = Phase::Awaiting;
                Directive::Perform(Action::AwaitResponse)
            },
            (Phase::Awaiting, LinkEvent::Response(response)) => {
                if state.setting {
                    self.state.phase = Phase::Settling;
                    Directive::Perform(Action::Settle)
                } else {
                    match state.operation.judge(response) {
                        Some(result) => self.finish(result),
                        None => {
                            self.state = ControllerState {
                                setting: true,
                                phase: Phase::Clearing,
                                ..state
                            };
                            Directive::Perform(Action::ClearBuffers)
                        },
                    }
                }
            },
            (Phase::Awaiting, LinkEvent::DecodeFailed(error)) => self.finish(
                Err(TransportError::Decode(error)),
            ),
            (Phase::Awaiting, LinkEvent::Closed) => {
                let command = self.command();
                self.finish(Err(TransportError::NoResponse(command)))
            },
            (Phase::Awaiting, LinkEvent::TimedOut) => {
                let command = self.command();
                self.finish(Err(TransportError::Timeout(command)))
            },
            (Phase::Settling, LinkEvent::Settled) => {
                if state.attempts + 1 >= MAX_ATTEMPTS {
                    self.finish(Err(TransportError::NotConverged(state.operation)))
                } else {
                    self.state = ControllerState {
                        setting: false,
                        phase: Phase::Clearing,
                        attempts: state.attempts + 1,
                        ..state
                    };
                    Directive::Perform(Action::ClearBuffers)
                }
            },
            (_, _) => self.finish(Err(TransportError::UnexpectedEvent)),
        }
    }
}

} // verus!
