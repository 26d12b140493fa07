//! Laws of the transport controller, stated over runs of its state machine.

use crate::epson_codec::{EpsonInput, EpsonOutput};
use crate::transport::{
    Action, ControllerState, Directive, LinkEvent, Operation, Outcome, Phase, TransportError,
    MAX_ATTEMPTS,
};
use vstd::prelude::*;

verus! {

/// What a run of the controller amounts to: the actions it asked for one
/// after the other, the result if the operation ended, and the state it is
/// left in.
pub struct Trace {
    pub actions: Seq<Action>,
    pub result: Option<Result<Outcome, TransportError>>,
    pub state: ControllerState,
}

/// The run of the controller from `state` on the events that the link
/// reports, in order. The run stops where the operation ends; events after
/// that are not looked at.
pub open spec fn run(state: ControllerState, events: Seq<LinkEvent>) -> Trace
    decreases events.len(),
{
    if events.len() == 0 {
        Trace { actions: Seq::empty(), result: None, state }
    } else {
        let (next, directive) = state.transition(events[0]);
        match directive {
            Directive::Finish(result) => Trace {
                actions: Seq::empty(),
                result: Some(result),
                state: next,
            },
            Directive::Perform(action) => {
                let rest = run(next, events.skip(1));
                Trace { actions: seq![action] + rest.actions, result: rest.result, state: rest.state }
            },
        }
    }
}

/// The events of one exchange that is answered with `response`.
pub open spec fn exchange(response: EpsonOutput) -> Seq<LinkEvent> {
    seq![LinkEvent::Cleared, LinkEvent::Sent, LinkEvent::Response(response)]
}

/// The events of one attempt at a change: the query is answered with
/// `answer`, the command that asks for the change with `reply`, and the
/// settle delay passes.
pub open spec fn attempt(answer: EpsonOutput, reply: EpsonOutput) -> Seq<LinkEvent> {
    exchange(answer) + exchange(reply) + seq![LinkEvent::Settled]
}

/// Whether an action writes a command that asks for a change.
pub open spec fn sends_change(action: Action) -> bool {
    action matches Action::Send(command) && (command is SetPower || command is SetSource)
}

/// The number of commands that ask for a change among `actions`.
pub open spec fn changes_sent(actions: Seq<Action>) -> nat
    decreases actions.len(),
{
    if actions.len() == 0 {
        0
    } else if sends_change(actions[0]) {
        1 + changes_sent(actions.skip(1))
    } else {
        changes_sent(actions.skip(1))
    }
}

/// The number of commands that ask for a change which an operation in
/// `state` may still send.
pub open spec fn changes_left(state: ControllerState) -> nat {
    if state.phase == Phase::Finished {
        0
    } else if state.setting && state.phase != Phase::Clearing {
        (MAX_ATTEMPTS - state.attempts - 1) as nat
    } else {
        (MAX_ATTEMPTS - state.attempts) as nat
    }
}

/// The number of events after which an operation in `state` is over at the
/// latest.
pub open spec fn events_left(state: ControllerState) -> nat {
    let later = 7 * (MAX_ATTEMPTS - state.attempts - 1);
    match state.phase {
        Phase::Finished => 0,
        Phase::Settling => (later + 1) as nat,
        Phase::Awaiting => (later + if state.setting {
            2int
        } else {
            5int
        }) as nat,
        Phase::Sending => (later + if state.setting {
            3int
        } else {
            6int
        }) as nat,
        Phase::Clearing => (later + if state.setting {
            4int
        } else {
            7int
        }) as nat,
    }
}

/// Every state that an operation reaches is well formed: the first is, and
/// each event leads from a well-formed state to a well-formed state.
pub proof fn lemma_well_formed(operation: Operation, state: ControllerState, event: LinkEvent)
    ensures
        ControllerState::initial(operation).wf(),
        state.wf() ==> state.transition(event).0.wf(),
{
}

/// The controller decides for an action exactly where the operation goes on,
/// and the action it decides for is the one it then waits on.
pub proof fn lemma_directive(state: ControllerState, event: LinkEvent)
    requires
        state.wf(),
    ensures
        match state.transition(event).1 {
            Directive::Perform(action) => state.transition(event).0.pending() == Some(action),
            Directive::Finish(_) => state.transition(event).0.phase == Phase::Finished,
        },
{
}

/// Every exchange begins by clearing the buffers, and a command is written
/// only in answer to their having been cleared: an operation begins with
/// `ClearBuffers`, the controller asks for `Send` only on `Cleared` while it
/// waits for the buffers to be cleared, and what it then sends is the command
/// of the current exchange.
pub proof fn lemma_clear_before_send(
    operation: Operation,
    state: ControllerState,
    event: LinkEvent,
)
    ensures
        ControllerState::initial(operation).pending() == Some(Action::ClearBuffers),
        state.transition(event).1 matches Directive::Perform(Action::Send(command)) ==> {
            &&& state.phase == Phase::Clearing
            &&& event == LinkEvent::Cleared
            &&& command == state.command()
        },
        state.transition(event).0.phase == Phase::Clearing ==> state.transition(event).1
            == Directive::Perform(Action::ClearBuffers),
{
}

/// A query that gets no frame in time fails with the timeout error that
/// names the command of the exchange, whatever the operation, and is not
/// retried. So does a query on a channel that ends, with its own error.
pub proof fn lemma_no_frame(state: ControllerState)
    requires
        state.phase == Phase::Awaiting,
    ensures
        state.transition(LinkEvent::TimedOut) == (
            state.finished(),
            Directive::Finish(Err(TransportError::Timeout(state.command()))),
        ),
        state.transition(LinkEvent::Closed) == (
            state.finished(),
            Directive::Finish(Err(TransportError::NoResponse(state.command()))),
        ),
{
}

/// An operation whose first exchange times out ends there: the query was the
/// one command written, and the error names it.
pub proof fn lemma_timeout(operation: Operation)
    ensures
        run(
            ControllerState::initial(operation),
            seq![LinkEvent::Cleared, LinkEvent::Sent, LinkEvent::TimedOut],
        ) == (Trace {
            actions: seq![Action::Send(operation.query()), Action::AwaitResponse],
            result: Some(Err(TransportError::Timeout(operation.query()))),
            state: ControllerState::initial(operation).finished(),
        }),
{
    let events = seq![LinkEvent::Cleared, LinkEvent::Sent, LinkEvent::TimedOut];
    let start = ControllerState::initial(operation);
    reveal_with_fuel(run, 4);
    assert(events.skip(1)[0] == LinkEvent::Sent);
    assert(events.skip(1).skip(1)[0] == LinkEvent::TimedOut);
    assert(run(start, events).actions =~= seq![
        Action::Send(operation.query()),
        Action::AwaitResponse,
    ]);
}

/// An operation whose first query is answered with a response that decides
/// it ends with that verdict after the one exchange. This is every answer to
/// a plain query, and for a change every answer but one of the right kind
/// that differs from the target. No command that asks for a change is
/// written.
pub proof fn lemma_first_answer(operation: Operation, response: EpsonOutput)
    requires
        operation.verdict(response) is Some,
    ensures
        run(ControllerState::initial(operation), exchange(response)) == (Trace {
            actions: seq![Action::Send(operation.query()), Action::AwaitResponse],
            result: operation.verdict(response),
            state: ControllerState::initial(operation).finished(),
        }),
        changes_sent(run(ControllerState::initial(operation), exchange(response)).actions) == 0,
{
    let events = exchange(response);
    let start = ControllerState::initial(operation);
    reveal_with_fuel(run, 4);
    assert(events.skip(1)[0] == LinkEvent::Sent);
    assert(events.skip(1).skip(1)[0] == LinkEvent::Response(response));
    let actions = seq![Action::Send(operation.query()), Action::AwaitResponse];
    assert(run(start, events).actions =~= actions);
    reveal_with_fuel(changes_sent, 3);
    assert(actions.skip(1)[0] == Action::AwaitResponse);
    assert(actions.skip(1).skip(1).len() == 0);
}

/// A response of the wrong kind to a query is a protocol violation: a query
/// for the power status that is answered with anything but a power status
/// fails with the error that holds the query and the response, and so does a
/// query for the source that is answered with anything but a source.
pub proof fn lemma_wrong_kind(operation: Operation, response: EpsonOutput)
    requires
        match operation.query() {
            EpsonInput::QueryPower => !(response is PowerStatus),
            _ => !(response is SourceStatus),
        },
    ensures
        run(ControllerState::initial(operation), exchange(response)).result == Some(
            Err::<Outcome, TransportError>(
                TransportError::ProtocolViolation { command: operation.query(), response },
            ),
        ),
{
    lemma_first_answer(operation, response);
}

/// A change that the device already reports returns success at once: where
/// the first query answers with the target, the operation ends with
/// `Converged` and no command that asks for the change was written.
pub proof fn lemma_already_converged(operation: Operation, response: EpsonOutput)
    requires
        operation.is_change(),
        operation.verdict(response) == Some(Ok::<Outcome, TransportError>(Outcome::Converged)),
    ensures
        run(ControllerState::initial(operation), exchange(response)).result == Some(
            Ok::<Outcome, TransportError>(Outcome::Converged),
        ),
        run(ControllerState::initial(operation), exchange(response)).actions == seq![
            Action::Send(operation.query()),
            Action::AwaitResponse,
        ],
        changes_sent(run(ControllerState::initial(operation), exchange(response)).actions) == 0,
{
    lemma_first_answer(operation, response);
}

/// A run on events put one after the other is the run on the first, carried
/// on with the second where the operation has not ended.
pub proof fn lemma_run_append(state: ControllerState, first: Seq<LinkEvent>, second: Seq<LinkEvent>)
    ensures
        run(state, first + second) == if run(state, first).result is Some {
            run(state, first)
        } else {
            Trace {
                actions: run(state, first).actions + run(run(state, first).state, second).actions,
                result: run(run(state, first).state, second).result,
                state: run(run(state, first).state, second).state,
            }
        },
    decreases first.len(),
{
    if first.len() == 0 {
        assert(first + second =~= second);
        assert(Seq::<Action>::empty() + run(state, second).actions =~= run(state, second).actions);
    } else {
        let all = first + second;
        assert(all[0] == first[0]);
        assert(all.skip(1) =~= first.skip(1) + second);
        let (next, directive) = state.transition(first[0]);
        match directive {
            Directive::Finish(_) => {},
            Directive::Perform(action) => {
                lemma_run_append(next, first.skip(1), second);
                let head = run(next, first.skip(1));
                if head.result is None {
                    let tail = run(head.state, second);
                    assert(seq![action] + (head.actions + tail.actions) =~= (seq![action]
                        + head.actions) + tail.actions);
                }
            },
        }
    }
}

/// The count of commands that ask for a change adds up over actions put one
/// after the other.
pub proof fn lemma_changes_sent_append(first: Seq<Action>, second: Seq<Action>)
    ensures
        changes_sent(first + second) == changes_sent(first) + changes_sent(second),
    decreases first.len(),
{
    if first.len() == 0 {
        assert(first + second =~= second);
    } else {
        assert((first + second).skip(1) =~= first.skip(1) + second);
        lemma_changes_sent_append(first.skip(1), second);
    }
}

/// One attempt at a change that the device does not follow. From the start
/// of a query, with `answer` of the right kind and different from the target:
/// the query is written, then the command that asks for the change, once,
/// and the device is left to settle. After that the operation goes on with
/// the next query, or, if this was the last attempt, it has ended without
/// convergence.
pub proof fn lemma_attempt(state: ControllerState, answer: EpsonOutput, reply: EpsonOutput)
    requires
        state.wf(),
        state.operation.is_change(),
        state.phase == Phase::Clearing,
        !state.setting,
        state.operation.verdict(answer) is None,
    ensures
        ({
            let trace = run(state, attempt(answer, reply));
            let asked = seq![
                Action::Send(state.operation.query()),
                Action::AwaitResponse,
                Action::ClearBuffers,
                Action::Send(state.operation.change()),
                Action::AwaitResponse,
                Action::Settle,
            ];
            &&& changes_sent(trace.actions) == 1
            &&& if state.attempts + 1 < MAX_ATTEMPTS {
                &&& trace.actions == asked + seq![Action::ClearBuffers]
                &&& trace.result is None
                &&& trace.state == state.retrying()
            } else {
                &&& trace.actions == asked
                &&& trace.result == Some(
                    Err::<Outcome, TransportError>(TransportError::NotConverged(state.operation)),
                )
                &&& trace.state.phase == Phase::Finished
            }
        }),
{
    let e0 = attempt(answer, reply);
    assert(e0 =~= seq![
        LinkEvent::Cleared,
        LinkEvent::Sent,
        LinkEvent::Response(answer),
        LinkEvent::Cleared,
        LinkEvent::Sent,
        LinkEvent::Response(reply),
        LinkEvent::Settled,
    ]);
    let s0 = state;
    let s1 = s0.transition(e0[0]).0;
    let e1 = e0.skip(1);
    assert(e1[0] == LinkEvent::Sent);
    let s2 = s1.transition(e1[0]).0;
    let e2 = e1.skip(1);
    assert(e2[0] == LinkEvent::Response(answer));
    let s3 = s2.transition(e2[0]).0;
    let e3 = e2.skip(1);
    assert(e3[0] == LinkEvent::Cleared);
    let s4 = s3.transition(e3[0]).0;
    let e4 = e3.skip(1);
    assert(e4[0] == LinkEvent::Sent);
    let s5 = s4.transition(e4[0]).0;
    let e5 = e4.skip(1);
    assert(e5[0] == LinkEvent::Response(reply));
    let s6 = s5.transition(e5[0]).0;
    let e6 = e5.skip(1);
    assert(e6[0] == LinkEvent::Settled);
    let e7 = e6.skip(1);
    assert(e7.len() == 0);
    let asked = seq![
        Action::Send(state.operation.query()),
        Action::AwaitResponse,
        Action::ClearBuffers,
        Action::Send(state.operation.change()),
        Action::AwaitResponse,
        Action::Settle,
    ];
    assert(run(s6, e6).actions =~= if state.attempts + 1 < MAX_ATTEMPTS {
        seq![Action::ClearBuffers]
    } else {
        Seq::<Action>::empty()
    }) by {
        reveal_with_fuel(run, 2);
    }
    assert(run(s5, e5).actions =~= seq![Action::Settle] + run(s6, e6).actions);
    assert(run(s4, e4).actions =~= seq![Action::AwaitResponse] + run(s5, e5).actions);
    assert(run(s3, e3).actions =~= seq![Action::Send(state.operation.change())] + run(
        s4,
        e4,
    ).actions);
    assert(run(s2, e2).actions =~= seq![Action::ClearBuffers] + run(s3, e3).actions);
    assert(run(s1, e1).actions =~= seq![Action::AwaitResponse] + run(s2, e2).actions);
    assert(run(s0, e0).actions =~= seq![Action::Send(state.operation.query())] + run(
        s1,
        e1,
    ).actions);
    let trace = run(state, e0);
    assert(trace.actions =~= asked + run(s6, e6).actions);
    lemma_changes_sent_append(asked, run(s6, e6).actions);
    assert(changes_sent(asked) == 1) by {
        reveal_with_fuel(changes_sent, 7);
        assert(asked.skip(1)[0] == Action::AwaitResponse);
        assert(asked.skip(1).skip(1)[0] == Action::ClearBuffers);
        assert(asked.skip(1).skip(1).skip(1)[0] == Action::Send(state.operation.change()));
        assert(asked.skip(1).skip(1).skip(1).skip(1)[0] == Action::AwaitResponse);
        assert(asked.skip(1).skip(1).skip(1).skip(1).skip(1)[0] == Action::Settle);
        assert(asked.skip(1).skip(1).skip(1).skip(1).skip(1).skip(1).len() == 0);
    }
    assert(changes_sent(run(s6, e6).actions) == 0) by {
        reveal_with_fuel(changes_sent, 2);
    }
}

/// A change that the device never follows fails after `MAX_ATTEMPTS`
/// attempts. Where every query is answered with `answer`, of the right kind
/// and different from the target, and each command that asks for the change
/// gets some reply, the operation ends with `NotConverged` on the third
/// attempt, and the command that asks for the change was written exactly
/// three times.
pub proof fn lemma_never_converges(
    operation: Operation,
    answer: EpsonOutput,
    first: EpsonOutput,
    second: EpsonOutput,
    third: EpsonOutput,
)
    requires
        operation.is_change(),
        operation.verdict(answer) is None,
    ensures
        ({
            let events = attempt(answer, first) + attempt(answer, second) + attempt(
                answer,
                third,
            );
            let trace = run(ControllerState::initial(operation), events);
            &&& trace.result == Some(
                Err::<Outcome, TransportError>(TransportError::NotConverged(operation)),
            )
            &&& changes_sent(trace.actions) == 3
        }),
{
    let s0 = ControllerState::initial(operation);
    let a1 = attempt(answer, first);
    let a2 = attempt(answer, second);
    let a3 = attempt(answer, third);
    lemma_attempt(s0, answer, first);
    let t1 = run(s0, a1);
    let s1 = t1.state;
    lemma_attempt(s1, answer, second);
    let t2 = run(s1, a2);
    let s2 = t2.state;
    lemma_attempt(s2, answer, third);
    let t3 = run(s2, a3);
    lemma_run_append(s1, a2, a3);
    lemma_run_append(s0, a1, a2 + a3);
    assert(a1 + (a2 + a3) =~= a1 + a2 + a3);
    lemma_changes_sent_append(t2.actions, t3.actions);
    lemma_changes_sent_append(t1.actions, t2.actions + t3.actions);
}

/// However the link behaves, an operation writes the command that asks for a
/// change at most as often as it has attempts left: at most `MAX_ATTEMPTS`
/// times from its start, and never for a plain query.
pub proof fn lemma_changes_bounded(state: ControllerState, events: Seq<LinkEvent>)
    requires
        state.wf(),
    ensures
        changes_sent(run(state, events).actions) <= changes_left(state),
        !state.operation.is_change() ==> changes_sent(run(state, events).actions) == 0,
    decreases events.len(),
{
    if events.len() > 0 {
        let (next, directive) = state.transition(events[0]);
        match directive {
            Directive::Finish(_) => {},
            Directive::Perform(action) => {
                lemma_changes_bounded(next, events.skip(1));
                let rest = run(next, events.skip(1));
                let actions = seq![action] + rest.actions;
                assert(actions.skip(1) =~= rest.actions);
                assert(actions[0] == action);
            },
        }
    }
}

/// However the link behaves, an operation is over after a bounded number of
/// events: at most seven for each attempt it has left.
pub proof fn lemma_run_ends(state: ControllerState, events: Seq<LinkEvent>)
    requires
        state.wf(),
        state.phase != Phase::Finished,
        events.len() >= events_left(state),
    ensures
        run(state, events).result is Some,
    decreases events.len(),
{
    let (next, directive) = state.transition(events[0]);
    match directive {
        Directive::Finish(_) => {},
        Directive::Perform(action) => {
            lemma_run_ends(next, events.skip(1));
        },
    }
}

/// From its start an operation writes the command that asks for a change at
/// most `MAX_ATTEMPTS` times, and is over after at most seven events for
/// each attempt.
pub proof fn lemma_operation_bounded(operation: Operation, events: Seq<LinkEvent>)
    ensures
        changes_sent(run(ControllerState::initial(operation), events).actions) <= MAX_ATTEMPTS,
        events.len() >= 7 * MAX_ATTEMPTS ==> run(
            ControllerState::initial(operation),
            events,
        ).result is Some,
{
    lemma_changes_bounded(ControllerState::initial(operation), events);
    if events.len() >= 7 * MAX_ATTEMPTS {
        lemma_run_ends(ControllerState::initial(operation), events);
    }
}

} // verus!
