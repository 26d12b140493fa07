use epson_bridge::epson_codec::{CodecError, EpsonInput, EpsonOutput};
use epson_bridge::protocol::{Power, PowerStatus, Source};
use epson_bridge::transport::{
    Action, Controller, ControllerState, Directive, LinkEvent, Operation, Outcome, Phase,
    TransportError, MAX_ATTEMPTS,
};

/// Runs an operation against a device that answers each command through
/// `device`, and gives the result with every action asked of the link.
fn drive(
    operation: Operation,
    mut device: impl FnMut(EpsonInput) -> LinkEvent,
) -> (Result<Outcome, TransportError>, Vec<Action>) {
    let mut controller = Controller::new(operation);
    let mut action = controller.pending().unwrap();
    let mut actions = Vec::new();
    let mut sent = None;
    loop {
        actions.push(action);
        let event = match action {
            Action::ClearBuffers => LinkEvent::Cleared,
            Action::Send(command) => {
                sent = Some(command);
                LinkEvent::Sent
            }
            Action::AwaitResponse => device(sent.unwrap()),
            Action::Settle => LinkEvent::Settled,
        };
        match controller.step(event) {
            Directive::Perform(next) => {
                assert_eq!(controller.pending(), Some(next));
                action = next;
            }
            Directive::Finish(result) => {
                assert_eq!(controller.pending(), None);
                assert_eq!(controller.state().phase, Phase::Finished);
                return (result, actions);
            }
        }
    }
}

fn sends(actions: &[Action], command: EpsonInput) -> usize {
    actions.iter().filter(|a| **a == Action::Send(command)).count()
}

#[test]
fn get_power_status_returns_the_status() {
    let (result, actions) = drive(Operation::GetPowerStatus, |_| {
        LinkEvent::Response(EpsonOutput::PowerStatus(PowerStatus::Warmup))
    });
    assert_eq!(result, Ok(Outcome::PowerStatus(PowerStatus::Warmup)));
    assert_eq!(
        actions,
        vec![Action::ClearBuffers, Action::Send(EpsonInput::QueryPower), Action::AwaitResponse]
    );
}

#[test]
fn get_source_returns_the_source() {
    let (result, actions) = drive(Operation::GetSource, |_| {
        LinkEvent::Response(EpsonOutput::SourceStatus(Source::Hdmi2))
    });
    assert_eq!(result, Ok(Outcome::Source(Source::Hdmi2)));
    assert_eq!(
        actions,
        vec![Action::ClearBuffers, Action::Send(EpsonInput::QuerySource), Action::AwaitResponse]
    );
}

#[test]
fn get_power_status_rejects_a_source_status() {
    let (result, _) = drive(Operation::GetPowerStatus, |_| {
        LinkEvent::Response(EpsonOutput::SourceStatus(Source::Input1))
    });
    assert_eq!(
        result,
        Err(TransportError::ProtocolViolation {
            command: EpsonInput::QueryPower,
            response: EpsonOutput::SourceStatus(Source::Input1),
        })
    );
}

#[test]
fn queries_reject_responses_of_the_wrong_kind() {
    let (result, _) = drive(Operation::GetPowerStatus, |_| {
        LinkEvent::Response(EpsonOutput::InvalidLine("ERR".to_string()))
    });
    assert_eq!(
        result,
        Err(TransportError::ProtocolViolation {
            command: EpsonInput::QueryPower,
            response: EpsonOutput::InvalidLine("ERR".to_string()),
        })
    );
    let (result, _) = drive(Operation::GetSource, |_| {
        LinkEvent::Response(EpsonOutput::PowerStatus(PowerStatus::LampOn))
    });
    assert_eq!(
        result,
        Err(TransportError::ProtocolViolation {
            command: EpsonInput::QuerySource,
            response: EpsonOutput::PowerStatus(PowerStatus::LampOn),
        })
    );
    let (result, actions) = drive(Operation::SetSource(Source::Video), |_| {
        LinkEvent::Response(EpsonOutput::InvalidLine(String::new()))
    });
    assert_eq!(
        result,
        Err(TransportError::ProtocolViolation {
            command: EpsonInput::QuerySource,
            response: EpsonOutput::InvalidLine(String::new()),
        })
    );
    assert_eq!(sends(&actions, EpsonInput::SetSource(Source::Video)), 0);
}

#[test]
fn set_power_on_when_the_lamp_is_on_sends_no_command() {
    let (result, actions) = drive(Operation::SetPower(Power::On), |_| {
        LinkEvent::Response(EpsonOutput::PowerStatus(PowerStatus::LampOn))
    });
    assert_eq!(result, Ok(Outcome::Converged));
    assert_eq!(sends(&actions, EpsonInput::SetPower(Power::On)), 0);
    assert_eq!(
        actions,
        vec![Action::ClearBuffers, Action::Send(EpsonInput::QueryPower), Action::AwaitResponse]
    );
}

#[test]
fn set_power_on_against_a_device_in_standby_gives_up_after_three_commands() {
    let (result, actions) = drive(Operation::SetPower(Power::On), |_| {
        LinkEvent::Response(EpsonOutput::PowerStatus(PowerStatus::StandbyModeNetworkOff))
    });
    assert_eq!(result, Err(TransportError::NotConverged(Operation::SetPower(Power::On))));
    assert_eq!(MAX_ATTEMPTS, 3);
    assert_eq!(sends(&actions, EpsonInput::SetPower(Power::On)), 3);
    assert_eq!(sends(&actions, EpsonInput::QueryPower), 3);
    assert_eq!(actions.iter().filter(|a| **a == Action::Settle).count(), 3);
    assert_eq!(actions.iter().filter(|a| **a == Action::ClearBuffers).count(), 6);
    assert_eq!(actions.len(), 21);
}

#[test]
fn set_source_converges_on_the_second_query() {
    let mut current = Source::Input1;
    let (result, actions) = drive(Operation::SetSource(Source::Hdmi2), |command| match command {
        EpsonInput::SetSource(source) => {
            current = source;
            LinkEvent::Response(EpsonOutput::InvalidLine(String::new()))
        }
        _ => LinkEvent::Response(EpsonOutput::SourceStatus(current)),
    });
    assert_eq!(result, Ok(Outcome::Converged));
    assert_eq!(
        actions,
        vec![
            Action::ClearBuffers,
            Action::Send(EpsonInput::QuerySource),
            Action::AwaitResponse,
            Action::ClearBuffers,
            Action::Send(EpsonInput::SetSource(Source::Hdmi2)),
            Action::AwaitResponse,
            Action::Settle,
            Action::ClearBuffers,
            Action::Send(EpsonInput::QuerySource),
            Action::AwaitResponse,
        ]
    );
}

#[test]
fn set_power_compares_the_derived_power() {
    let (result, actions) = drive(Operation::SetPower(Power::Off), |_| {
        LinkEvent::Response(EpsonOutput::PowerStatus(PowerStatus::CoolDown))
    });
    assert_eq!(result, Ok(Outcome::Converged));
    assert_eq!(actions.len(), 3);
    let (result, _) = drive(Operation::SetPower(Power::On), |_| {
        LinkEvent::Response(EpsonOutput::PowerStatus(PowerStatus::Warmup))
    });
    assert_eq!(result, Ok(Outcome::Converged));
}

#[test]
fn a_timeout_names_the_command_and_the_next_query_succeeds() {
    let (result, actions) = drive(Operation::GetPowerStatus, |_| LinkEvent::TimedOut);
    assert_eq!(result, Err(TransportError::Timeout(EpsonInput::QueryPower)));
    assert_eq!(actions.len(), 3);

    let (result, actions) = drive(Operation::GetPowerStatus, |_| {
        LinkEvent::Response(EpsonOutput::PowerStatus(PowerStatus::LampOn))
    });
    assert_eq!(result, Ok(Outcome::PowerStatus(PowerStatus::LampOn)));
    assert_eq!(actions[0], Action::ClearBuffers);
}

#[test]
fn a_timeout_of_the_change_aborts_the_operation() {
    let (result, actions) = drive(Operation::SetPower(Power::On), |command| match command {
        EpsonInput::QueryPower => {
            LinkEvent::Response(EpsonOutput::PowerStatus(PowerStatus::StandbyModeNetworkOff))
        }
        _ => LinkEvent::TimedOut,
    });
    assert_eq!(result, Err(TransportError::Timeout(EpsonInput::SetPower(Power::On))));
    assert_eq!(sends(&actions, EpsonInput::SetPower(Power::On)), 1);
    assert_eq!(sends(&actions, EpsonInput::QueryPower), 1);
}

#[test]
fn a_closed_channel_is_no_response() {
    let (result, _) = drive(Operation::GetSource, |_| LinkEvent::Closed);
    assert_eq!(result, Err(TransportError::NoResponse(EpsonInput::QuerySource)));
}

#[test]
fn a_decode_failure_ends_the_operation() {
    let (result, _) = drive(Operation::GetPowerStatus, |_| {
        LinkEvent::DecodeFailed(CodecError::UnknownPowerStatus(4))
    });
    assert_eq!(result, Err(TransportError::Decode(CodecError::UnknownPowerStatus(4))));
}

#[test]
fn a_failure_of_the_link_ends_the_operation() {
    let mut controller = Controller::new(Operation::SetSource(Source::Video));
    assert_eq!(
        controller.step(LinkEvent::Failed("no such device".to_string())),
        Directive::Finish(Err(TransportError::Link("no such device".to_string())))
    );
    assert_eq!(controller.pending(), None);
}

#[test]
fn an_event_out_of_turn_ends_the_operation() {
    let mut controller = Controller::new(Operation::GetPowerStatus);
    assert_eq!(
        controller.step(LinkEvent::Sent),
        Directive::Finish(Err(TransportError::UnexpectedEvent))
    );
    assert_eq!(
        controller.step(LinkEvent::Cleared),
        Directive::Finish(Err(TransportError::UnexpectedEvent))
    );
    let mut controller = Controller::new(Operation::GetPowerStatus);
    assert_eq!(controller.step(LinkEvent::Cleared), Directive::Perform(Action::Send(EpsonInput::QueryPower)));
    assert_eq!(
        controller.step(LinkEvent::Settled),
        Directive::Finish(Err(TransportError::UnexpectedEvent))
    );
}

#[test]
fn a_new_controller_waits_for_the_buffers_to_be_cleared() {
    let controller = Controller::new(Operation::SetPower(Power::Off));
    assert_eq!(controller.pending(), Some(Action::ClearBuffers));
    assert_eq!(
        controller.state(),
        ControllerState {
            operation: Operation::SetPower(Power::Off),
            setting: false,
            phase: Phase::Clearing,
            attempts: 0,
        }
    );
}

#[test]
fn the_reply_to_the_change_is_not_looked_at() {
    let (result, actions) = drive(Operation::SetPower(Power::On), |command| match command {
        EpsonInput::QueryPower => {
            LinkEvent::Response(EpsonOutput::PowerStatus(PowerStatus::CoolDown))
        }
        _ => LinkEvent::Response(EpsonOutput::SourceStatus(Source::Video)),
    });
    assert_eq!(result, Err(TransportError::NotConverged(Operation::SetPower(Power::On))));
    assert_eq!(sends(&actions, EpsonInput::SetPower(Power::On)), 3);
}
