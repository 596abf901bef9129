use std::mem::discriminant;

use paddler::agent::llamacpp_arbiter_service::apply_state;
use paddler::agent::llamacpp_arbiter_service::first_signal;
use paddler::agent::llamacpp_arbiter_service::forward_command;
use paddler::agent::llamacpp_arbiter_service::name;
use paddler::agent::llamacpp_arbiter_service::run;
use paddler::agent::llamacpp_arbiter_service::shutdown_arbiter_handle;
use paddler::agent::llamacpp_arbiter_service::ApplyEvent;
use paddler::agent::llamacpp_arbiter_service::ApplyStep;
use paddler::agent::llamacpp_arbiter_service::ArbiterBuildOutcome;
use paddler::agent::llamacpp_arbiter_service::ArbiterServiceEvent;
use paddler::agent::llamacpp_arbiter_service::ArbiterServiceSignal;
use paddler::agent::llamacpp_arbiter_service::ArbiterServiceStep;
use paddler::agent::llamacpp_arbiter_service::ContinuousBatchArbiterHandle;
use paddler::agent::llamacpp_arbiter_service::ContinuousBatchSchedulerCommand;
use paddler::agent::llamacpp_arbiter_service::ForwardCommandOutcome;
use paddler::agent::management_socket_client_service::GenerationParams;
use paddler::agent::management_socket_client_service::GenerationRequest;
use paddler::agent::slot_aggregated_status::SlotAggregatedStatus;
use paddler::messaging::agent_state_application_status::AgentStateApplicationStatus;
use paddler::messaging::messages::ContinueFromRawPromptParams;

fn arbiter_handle_with_live_receiver() -> (
    ContinuousBatchArbiterHandle,
    std::sync::mpsc::Receiver<ContinuousBatchSchedulerCommand>,
) {
    let (command_tx, command_rx) = std::sync::mpsc::channel();

    (ContinuousBatchArbiterHandle { command_tx }, command_rx)
}

fn status_of(status: &SlotAggregatedStatus) -> AgentStateApplicationStatus {
    status.get_state_application_status().unwrap()
}

#[test]
fn forward_command_delivers_command_when_handle_present() {
    let (arbiter_handle, command_rx) = arbiter_handle_with_live_receiver();
    let mut handle = Some(arbiter_handle);

    let outcome = forward_command(&mut handle, ContinuousBatchSchedulerCommand::Shutdown);

    let delivered = command_rx.recv().unwrap();

    assert_eq!(
        discriminant(&delivered),
        discriminant(&ContinuousBatchSchedulerCommand::Shutdown),
    );
    assert_eq!(outcome, ForwardCommandOutcome::Delivered);
}

#[test]
fn forward_command_logs_error_when_receiver_dropped() {
    let (arbiter_handle, command_rx) = arbiter_handle_with_live_receiver();

    drop(command_rx);

    let mut handle = Some(arbiter_handle);

    assert_eq!(
        forward_command(&mut handle, ContinuousBatchSchedulerCommand::Shutdown),
        ForwardCommandOutcome::ReceiverDropped
    );
}

#[test]
fn forward_command_logs_error_when_handle_absent() {
    assert_eq!(
        forward_command(&mut None, ContinuousBatchSchedulerCommand::Shutdown),
        ForwardCommandOutcome::NotInitialized
    );
}

#[test]
fn wait_for_in_flight_requests_drains_when_handle_present() {
    let (arbiter_handle, _command_rx) = arbiter_handle_with_live_receiver();
    let mut handle = Some(arbiter_handle);
    let mut status = SlotAggregatedStatus::new(1);

    assert_eq!(
        apply_state(&mut handle, &mut status, true, ApplyEvent::Started),
        ApplyStep::DrainInFlightRequests
    );
    assert_eq!(
        apply_state(&mut handle, &mut status, true, ApplyEvent::Drained),
        ApplyStep::ShutDownArbiter
    );
}

#[test]
fn wait_for_in_flight_requests_returns_immediately_without_handle() {
    let mut status = SlotAggregatedStatus::new(1);

    assert_eq!(
        apply_state(&mut None, &mut status, true, ApplyEvent::Started),
        ApplyStep::BuildArbiter
    );
}

#[test]
fn apply_state_without_model_marks_status_applied() {
    let mut status = SlotAggregatedStatus::new(1);
    let mut handle: Option<ContinuousBatchArbiterHandle> = None;

    assert_eq!(
        apply_state(&mut handle, &mut status, false, ApplyEvent::Started),
        ApplyStep::Applied
    );
    assert_eq!(status_of(&status), AgentStateApplicationStatus::Applied);
}

#[test]
fn applying_a_state_replaces_the_running_thread() {
    let (old_handle, old_rx) = arbiter_handle_with_live_receiver();
    let mut handle = Some(old_handle);
    let mut status = SlotAggregatedStatus::new(1);

    status.increment_total_slots();

    assert_eq!(
        apply_state(&mut handle, &mut status, true, ApplyEvent::Started),
        ApplyStep::DrainInFlightRequests
    );
    assert_eq!(
        apply_state(&mut handle, &mut status, true, ApplyEvent::Drained),
        ApplyStep::ShutDownArbiter
    );

    let stopping = shutdown_arbiter_handle(&mut handle);

    assert!(stopping.is_some());
    assert!(handle.is_none());
    assert!(matches!(
        old_rx.recv().unwrap(),
        ContinuousBatchSchedulerCommand::Shutdown
    ));
    assert_eq!(
        apply_state(&mut handle, &mut status, true, ApplyEvent::ArbiterShutDown),
        ApplyStep::BuildArbiter
    );

    let (new_handle, _new_rx) = arbiter_handle_with_live_receiver();

    assert_eq!(status_of(&status), AgentStateApplicationStatus::Fresh);
    assert_eq!(
        apply_state(
            &mut handle,
            &mut status,
            true,
            ApplyEvent::Built(ArbiterBuildOutcome::Ready(new_handle))
        ),
        ApplyStep::Applied
    );
    assert!(handle.is_some());
    assert_eq!(status_of(&status), AgentStateApplicationStatus::Applied);
}

#[test]
fn a_failed_attempt_leaves_the_status() {
    for event in [
        ApplyEvent::DrainFailed,
        ApplyEvent::ArbiterShutDownFailed,
        ApplyEvent::Built(ArbiterBuildOutcome::Failed),
    ] {
        let mut status = SlotAggregatedStatus::new(1);

        assert_eq!(
            apply_state(&mut None, &mut status, true, event),
            ApplyStep::Failed
        );
        assert_eq!(status_of(&status), AgentStateApplicationStatus::Fresh);
    }
}

#[test]
fn a_state_is_applied_without_an_arbiter_where_none_was_started() {
    let mut status = SlotAggregatedStatus::new(1);
    let mut handle = None;

    assert_eq!(
        apply_state(
            &mut handle,
            &mut status,
            true,
            ApplyEvent::Built(ArbiterBuildOutcome::Cancelled)
        ),
        ApplyStep::Applied
    );
    assert!(handle.is_none());
    assert_eq!(
        apply_state(
            &mut handle,
            &mut status,
            true,
            ApplyEvent::Built(ArbiterBuildOutcome::NoModelConfigured)
        ),
        ApplyStep::Applied
    );
    assert!(handle.is_none());
}

#[test]
fn shutdown_arbiter_handle_returns_ok_when_handle_absent() {
    let mut handle: Option<ContinuousBatchArbiterHandle> = None;

    assert!(shutdown_arbiter_handle(&mut handle).is_none());
    assert!(handle.is_none());
}

#[test]
fn shutdown_arbiter_handle_joins_and_clears_present_handle() {
    let (arbiter_handle, command_rx) = arbiter_handle_with_live_receiver();
    let mut handle = Some(arbiter_handle);

    assert!(shutdown_arbiter_handle(&mut handle).is_some());
    assert!(handle.is_none());

    let delivered = command_rx.recv().unwrap();

    assert_eq!(
        discriminant(&delivered),
        discriminant(&ContinuousBatchSchedulerCommand::Shutdown),
    );
}

#[test]
fn does_not_exit_when_request_channels_close_without_shutdown() {
    let mut status = SlotAggregatedStatus::new(1);

    for _ in 0..3 {
        assert_eq!(
            run(&mut None, &mut status, ArbiterServiceEvent::RequestsEnded),
            ArbiterServiceStep::Wait
        );
    }
    assert_eq!(
        run(&mut None, &mut status, ArbiterServiceEvent::Shutdown),
        ArbiterServiceStep::Stop
    );
}

#[test]
fn ticks_repeat_failing_attempts() {
    let mut status = SlotAggregatedStatus::new(1);

    for expected in [
        AgentStateApplicationStatus::AttemptedAndRetrying,
        AgentStateApplicationStatus::Stuck,
        AgentStateApplicationStatus::AttemptedAndRetrying,
    ] {
        assert_eq!(
            run(&mut None, &mut status, ArbiterServiceEvent::Tick),
            ArbiterServiceStep::Apply
        );
        assert_eq!(status_of(&status), expected);
    }

    status.set_state_application_status(AgentStateApplicationStatus::Applied);

    assert_eq!(
        run(&mut None, &mut status, ArbiterServiceEvent::Tick),
        ArbiterServiceStep::Wait
    );
    assert_eq!(
        run(&mut None, &mut status, ArbiterServiceEvent::StateChanged),
        ArbiterServiceStep::Apply
    );
    assert_eq!(status_of(&status), AgentStateApplicationStatus::Fresh);

    status.set_state_application_status(AgentStateApplicationStatus::AttemptedAndNotAppliable);

    assert_eq!(
        run(&mut None, &mut status, ArbiterServiceEvent::Tick),
        ArbiterServiceStep::Wait
    );

    status.state_application_status_code = 99;

    assert!(matches!(
        run(&mut None, &mut status, ArbiterServiceEvent::Tick),
        ArbiterServiceStep::Fail(error) if error.value == 99
    ));
}

#[test]
fn requests_go_to_the_running_thread() {
    let (arbiter_handle, command_rx) = arbiter_handle_with_live_receiver();
    let mut handle = Some(arbiter_handle);
    let mut status = SlotAggregatedStatus::new(1);
    let command = |channel: usize| {
        ContinuousBatchSchedulerCommand::ContinueFromRawPrompt(GenerationRequest {
            channel,
            params: GenerationParams::ContinueFromRawPrompt(ContinueFromRawPromptParams {
                grammar: None,
                max_tokens: 8,
                raw_prompt: "hello".to_owned(),
            }),
        })
    };

    assert_eq!(
        run(
            &mut handle,
            &mut status,
            ArbiterServiceEvent::Command(command(4))
        ),
        ArbiterServiceStep::Wait
    );
    assert!(matches!(
        command_rx.recv().unwrap(),
        ContinuousBatchSchedulerCommand::ContinueFromRawPrompt(request) if request.channel == 4
    ));

    drop(command_rx);

    assert_eq!(
        run(
            &mut handle,
            &mut status,
            ArbiterServiceEvent::Command(command(5))
        ),
        ArbiterServiceStep::ReportLostCommand(ForwardCommandOutcome::ReceiverDropped)
    );
    assert_eq!(
        run(
            &mut None,
            &mut status,
            ArbiterServiceEvent::Command(command(6))
        ),
        ArbiterServiceStep::ReportLostCommand(ForwardCommandOutcome::NotInitialized)
    );
}

#[test]
fn the_arbiter_service_heeds_a_shutdown_first() {
    assert_eq!(
        first_signal(true, true, true, true, true, true),
        Some(ArbiterServiceSignal::Shutdown)
    );
    assert_eq!(
        first_signal(false, true, true, true, true, true),
        Some(ArbiterServiceSignal::Tick)
    );
    assert_eq!(
        first_signal(false, false, true, true, true, true),
        Some(ArbiterServiceSignal::StateChanged)
    );
    assert_eq!(
        first_signal(false, false, false, true, true, true),
        Some(ArbiterServiceSignal::ConversationRequest)
    );
    assert_eq!(
        first_signal(false, false, false, false, true, true),
        Some(ArbiterServiceSignal::RawPromptRequest)
    );
    assert_eq!(
        first_signal(false, false, false, false, false, true),
        Some(ArbiterServiceSignal::EmbeddingRequest)
    );
    assert_eq!(first_signal(false, false, false, false, false, false), None);
    assert_eq!(name(), "agent::llamacpp_arbiter_service");
}
