//! Applying the desired state on an agent, and handing requests to its scheduler.
use vstd::prelude::*;

use crate::agent::management_socket_client_service::GenerationRequest;
use crate::agent::slot_aggregated_status::SlotAggregatedStatus;
use crate::agent::slot_aggregated_status::SlotAggregatedStatusView;
use crate::messaging::agent_state_application_status::AgentStateApplicationStatus;
use crate::messaging::agent_state_application_status::InvalidAgentStateApplicationStatus;
use crate::messaging::agent_state_application_status::status_survives_its_code;
use crate::outside::commands_sent;
use crate::outside::send_command;

verus! {

/// A command to the thread that schedules generations.
#[derive(Debug)]
pub enum ContinuousBatchSchedulerCommand {
    ContinueFromConversationHistory(GenerationRequest),
    ContinueFromRawPrompt(GenerationRequest),
    GenerateEmbeddingBatch(GenerationRequest),
    Shutdown,
}

/// The thread that schedules generations.
#[derive(Debug)]
pub struct ContinuousBatchArbiterHandle {
    pub command_tx: std::sync::mpsc::Sender<ContinuousBatchSchedulerCommand>,
}

/// What became of a command.
#[derive(Clone, Copy, Debug, PartialEq, Eq, Structural)]
pub enum ForwardCommandOutcome {
    Delivered,
    /// The thread is gone.
    ReceiverDropped,
    /// No thread was started.
    NotInitialized,
}

/// The commands that the thread was given, where there is one, each with whether
/// it was accepted.
pub open spec fn commands_of(handle: Option<ContinuousBatchArbiterHandle>) -> Option<
    Seq<(ContinuousBatchSchedulerCommand, bool)>,
> {
    match handle {
        Some(handle) => Some(commands_sent(handle.command_tx)),
        None => None,
    }
}

/// Hands a command to the thread.
pub fn forward_command(
    continuous_batch_arbiter_handle: &mut Option<ContinuousBatchArbiterHandle>,
    command: ContinuousBatchSchedulerCommand,
) -> (outcome: ForwardCommandOutcome)
    ensures
        match commands_of(*old(continuous_batch_arbiter_handle)) {
            Some(commands) => {
                &&& !(outcome is NotInitialized)
                &&& commands_of(*final(continuous_batch_arbiter_handle)) == Some(
                    commands.push((command, outcome is Delivered)),
                )
            },
            None => {
                &&& outcome is NotInitialized
                &&& *final(continuous_batch_arbiter_handle) is None
            },
        },
{
    match continuous_batch_arbiter_handle {
        Some(arbiter_handle) => {
            if send_command(&mut arbiter_handle.command_tx, command) {
                ForwardCommandOutcome::Delivered
            } else {
                ForwardCommandOutcome::ReceiverDropped
            }
        },
        None => ForwardCommandOutcome::NotInitialized,
    }
}

/// Tells the thread to end, and forgets it. The handle comes back for its end to
/// be waited for.
pub fn shutdown_arbiter_handle(
    continuous_batch_arbiter_handle: &mut Option<ContinuousBatchArbiterHandle>,
) -> (stopping: Option<ContinuousBatchArbiterHandle>)
    ensures
        *final(continuous_batch_arbiter_handle) is None,
        match *old(continuous_batch_arbiter_handle) {
            Some(handle) => {
                ||| commands_of(stopping) == Some(
                    commands_sent(handle.command_tx).push(
                        (ContinuousBatchSchedulerCommand::Shutdown, true),
                    ),
                )
                ||| commands_of(stopping) == Some(
                    commands_sent(handle.command_tx).push(
                        (ContinuousBatchSchedulerCommand::Shutdown, false),
                    ),
                )
            },
            None => stopping is None,
        },
{
    match continuous_batch_arbiter_handle.take() {
        Some(handle) => {
            let mut handle = handle;
            send_command(&mut handle.command_tx, ContinuousBatchSchedulerCommand::Shutdown);
            Some(handle)
        },
        None => None,
    }
}

/// How building the thread from a state came out.
#[derive(Debug)]
pub enum ArbiterBuildOutcome {
    Ready(ContinuousBatchArbiterHandle),
    /// A shutdown came before the model was loaded.
    Cancelled,
    /// The state names no model.
    NoModelConfigured,
    Failed,
}

/// What happens while a state is being applied.
#[derive(Debug)]
pub enum ApplyEvent {
    Started,
    Drained,
    DrainFailed,
    ArbiterShutDown,
    ArbiterShutDownFailed,
    Built(ArbiterBuildOutcome),
}

/// What is to be done next to apply a state.
#[derive(Clone, Copy, Debug, PartialEq, Eq, Structural)]
pub enum ApplyStep {
    /// Wait until no slot is busy.
    DrainInFlightRequests,
    /// End the running thread, as [`shutdown_arbiter_handle`] begins to.
    ShutDownArbiter,
    /// Start a thread for the state.
    BuildArbiter,
    /// The state is applied.
    Applied,
    /// The attempt failed.
    Failed,
}

/// What the state of the agent is after it was set to `status`.
pub open spec fn with_status(
    view: SlotAggregatedStatusView,
    status: AgentStateApplicationStatus,
) -> SlotAggregatedStatusView {
    (SlotAggregatedStatusView { state_application_status_code: status.code_of(), ..view }).changed()
}

/// What is done once no thread runs: it is started for a state that is to be
/// applied; without one there is nothing to start.
pub open spec fn step_without_arbiter(has_applicable_state: bool) -> ApplyStep {
    if has_applicable_state {
        ApplyStep::BuildArbiter
    } else {
        ApplyStep::Applied
    }
}

/// The state of the agent at that point.
pub open spec fn status_without_arbiter(
    view: SlotAggregatedStatusView,
    has_applicable_state: bool,
) -> SlotAggregatedStatusView {
    if has_applicable_state {
        view.after_reset()
    } else {
        with_status(view, AgentStateApplicationStatus::Applied)
    }
}

fn begin_without_arbiter(status: &mut SlotAggregatedStatus, has_applicable_state: bool) -> (step:
    ApplyStep)
    ensures
        step == step_without_arbiter(has_applicable_state),
        final(status)@ == status_without_arbiter(old(status)@, has_applicable_state),
{
    if has_applicable_state {
        status.reset();
        ApplyStep::BuildArbiter
    } else {
        status.set_state_application_status(AgentStateApplicationStatus::Applied);
        ApplyStep::Applied
    }
}

/// Applies a state step by step: a running thread is ended once no slot is busy,
/// and a new one is started, where there is a state to start one for. A failed
/// attempt does not touch the status of the agent.
pub fn apply_state(
    continuous_batch_arbiter_handle: &mut Option<ContinuousBatchArbiterHandle>,
    slot_aggregated_status: &mut SlotAggregatedStatus,
    has_applicable_state: bool,
    event: ApplyEvent,
) -> (step: ApplyStep)
    ensures
        *final(continuous_batch_arbiter_handle) == match event {
            ApplyEvent::Built(ArbiterBuildOutcome::Ready(handle)) => Some(handle),
            _ => *old(continuous_batch_arbiter_handle),
        },
        match event {
            ApplyEvent::Started => if *old(continuous_batch_arbiter_handle) is Some {
                &&& step is DrainInFlightRequests
                &&& final(slot_aggregated_status)@ == old(slot_aggregated_status)@
            } else {
                &&& step == step_without_arbiter(has_applicable_state)
                &&& final(slot_aggregated_status)@ == status_without_arbiter(
                    old(slot_aggregated_status)@,
                    has_applicable_state,
                )
            },
            ApplyEvent::Drained => {
                &&& step is ShutDownArbiter
                &&& final(slot_aggregated_status)@ == old(slot_aggregated_status)@
            },
            ApplyEvent::ArbiterShutDown => {
                &&& step == step_without_arbiter(has_applicable_state)
                &&& final(slot_aggregated_status)@ == status_without_arbiter(
                    old(slot_aggregated_status)@,
                    has_applicable_state,
                )
            },
            ApplyEvent::Built(ArbiterBuildOutcome::Failed)
            | ApplyEvent::DrainFailed
            | ApplyEvent::ArbiterShutDownFailed => {
                &&& step is Failed
                &&& final(slot_aggregated_status)@ == old(slot_aggregated_status)@
            },
            ApplyEvent::Built(_) => {
                &&& step is Applied
                &&& final(slot_aggregated_status)@ == with_status(
                    old(slot_aggregated_status)@,
                    AgentStateApplicationStatus::Applied,
                )
            },
        },
{
    match event {
        ApplyEvent::Started => {
            if continuous_batch_arbiter_handle.is_some() {
                ApplyStep::DrainInFlightRequests
            } else {
                begin_without_arbiter(slot_aggregated_status, has_applicable_state)
            }
        },
        ApplyEvent::Drained => ApplyStep::ShutDownArbiter,
        ApplyEvent::DrainFailed => ApplyStep::Failed,
        ApplyEvent::ArbiterShutDown => begin_without_arbiter(
            slot_aggregated_status,
            has_applicable_state,
        ),
        ApplyEvent::ArbiterShutDownFailed => ApplyStep::Failed,
        ApplyEvent::Built(outcome) => {
            match outcome {
                ArbiterBuildOutcome::Failed => {
                    return ApplyStep::Failed;
                },
                ArbiterBuildOutcome::Ready(handle) => {
                    *continuous_batch_arbiter_handle = Some(handle);
                },
                ArbiterBuildOutcome::Cancelled => {},
                ArbiterBuildOutcome::NoModelConfigured => {},
            }
            slot_aggregated_status.set_state_application_status(
                AgentStateApplicationStatus::Applied,
            );
            ApplyStep::Applied
        },
    }
}

/// What happens to the service.
#[derive(Debug)]
pub enum ArbiterServiceEvent {
    Shutdown,
    Tick,
    StateChanged,
    Command(ContinuousBatchSchedulerCommand),
    /// One of the queues of requests was closed.
    RequestsEnded,
}

/// What the service does next.
#[derive(Clone, Copy, Debug, PartialEq, Eq, Structural)]
pub enum ArbiterServiceStep {
    Wait,
    /// Apply the state, as [`apply_state`] does.
    Apply,
    /// End the service.
    Stop,
    /// End the service with an error.
    Fail(InvalidAgentStateApplicationStatus),
    /// Log that a command was lost.
    ReportLostCommand(ForwardCommandOutcome),
}

/// The status with which an attempt to apply the state again begins: the second
/// attempt in a row means that the agent is stuck, and so on in turn.
pub open spec fn retry_status(status: AgentStateApplicationStatus) -> AgentStateApplicationStatus {
    if status is AttemptedAndRetrying {
        AgentStateApplicationStatus::Stuck
    } else {
        AgentStateApplicationStatus::AttemptedAndRetrying
    }
}

/// Decides what to do about an event. A state that could not be applied is
/// attempted again on every tick, a new state is attempted at once, and requests
/// go to the running thread.
pub fn run(
    continuous_batch_arbiter_handle: &mut Option<ContinuousBatchArbiterHandle>,
    slot_aggregated_status: &mut SlotAggregatedStatus,
    event: ArbiterServiceEvent,
) -> (step: ArbiterServiceStep)
    ensures
        !(event is Command) ==> *final(continuous_batch_arbiter_handle) == *old(
            continuous_batch_arbiter_handle,
        ),
        match event {
            ArbiterServiceEvent::Shutdown => {
                &&& step is Stop
                &&& final(slot_aggregated_status)@ == old(slot_aggregated_status)@
            },
            ArbiterServiceEvent::Tick => {
                let before = old(slot_aggregated_status)@;
                match AgentStateApplicationStatus::of_code(before.state_application_status_code) {
                    Some(status) => if status.retries() {
                        &&& step is Apply
                        &&& final(slot_aggregated_status)@ == with_status(
                            before,
                            retry_status(status),
                        )
                    } else {
                        &&& step is Wait
                        &&& final(slot_aggregated_status)@ == before
                    },
                    None => {
                        &&& step matches ArbiterServiceStep::Fail(error) && error.value
                            == before.state_application_status_code
                        &&& final(slot_aggregated_status)@ == before
                    },
                }
            },
            ArbiterServiceEvent::StateChanged => {
                &&& step is Apply
                &&& final(slot_aggregated_status)@ == with_status(
                    old(slot_aggregated_status)@,
                    AgentStateApplicationStatus::Fresh,
                )
            },
            ArbiterServiceEvent::Command(command) => {
                let before = commands_of(*old(continuous_batch_arbiter_handle));
                let after = commands_of(*final(continuous_batch_arbiter_handle));
                &&& final(slot_aggregated_status)@ == old(slot_aggregated_status)@
                &&& match before {
                    Some(commands) => {
                        ||| step is Wait && after == Some(commands.push((command, true)))
                        ||| step == ArbiterServiceStep::ReportLostCommand(
                            ForwardCommandOutcome::ReceiverDropped,
                        ) && after == Some(commands.push((command, false)))
                    },
                    None => {
                        &&& step == ArbiterServiceStep::ReportLostCommand(
                            ForwardCommandOutcome::NotInitialized,
                        )
                        &&& after is None
                    },
                }
            },
            ArbiterServiceEvent::RequestsEnded => {
                &&& step is Wait
                &&& final(slot_aggregated_status)@ == old(slot_aggregated_status)@
            },
        },
{
    match event {
        ArbiterServiceEvent::Shutdown => ArbiterServiceStep::Stop,
        ArbiterServiceEvent::Tick => {
            match slot_aggregated_status.get_state_application_status() {
                Ok(current_status) => {
                    if current_status.should_try_to_apply() {
                        slot_aggregated_status.set_state_application_status(
                            match current_status {
                                AgentStateApplicationStatus::AttemptedAndRetrying =>
                                    AgentStateApplicationStatus::Stuck,
                                _ => AgentStateApplicationStatus::AttemptedAndRetrying,
                            },
                        );
                        ArbiterServiceStep::Apply
                    } else {
                        ArbiterServiceStep::Wait
                    }
                },
                Err(error) => ArbiterServiceStep::Fail(error),
            }
        },
        ArbiterServiceEvent::StateChanged => {
            slot_aggregated_status.set_state_application_status(AgentStateApplicationStatus::Fresh);
            ArbiterServiceStep::Apply
        },
        ArbiterServiceEvent::Command(command) => {
            match forward_command(continuous_batch_arbiter_handle, command) {
                ForwardCommandOutcome::Delivered => ArbiterServiceStep::Wait,
                outcome => ArbiterServiceStep::ReportLostCommand(outcome),
            }
        },
        ArbiterServiceEvent::RequestsEnded => ArbiterServiceStep::Wait,
    }
}

/// Which of several things that happened at once counts.
#[derive(Clone, Copy, Debug, PartialEq, Eq, Structural)]
pub enum ArbiterServiceSignal {
    Shutdown,
    Tick,
    StateChanged,
    ConversationRequest,
    RawPromptRequest,
    EmbeddingRequest,
}

/// The signal that counts: a shutdown before a tick, that before a new state,
/// and that before requests.
pub fn first_signal(
    shutdown: bool,
    tick: bool,
    state_changed: bool,
    conversation_request: bool,
    raw_prompt_request: bool,
    embedding_request: bool,
) -> (signal: Option<ArbiterServiceSignal>)
    ensures
        signal == if shutdown {
            Some(ArbiterServiceSignal::Shutdown)
        } else if tick {
            Some(ArbiterServiceSignal::Tick)
        } else if state_changed {
            Some(ArbiterServiceSignal::StateChanged)
        } else if conversation_request {
            Some(ArbiterServiceSignal::ConversationRequest)
        } else if raw_prompt_request {
            Some(ArbiterServiceSignal::RawPromptRequest)
        } else if embedding_request {
            Some(ArbiterServiceSignal::EmbeddingRequest)
        } else {
            None
        },
{
    if shutdown {
        Some(ArbiterServiceSignal::Shutdown)
    } else if tick {
        Some(ArbiterServiceSignal::Tick)
    } else if state_changed {
        Some(ArbiterServiceSignal::StateChanged)
    } else if conversation_request {
        Some(ArbiterServiceSignal::ConversationRequest)
    } else if raw_prompt_request {
        Some(ArbiterServiceSignal::RawPromptRequest)
    } else if embedding_request {
        Some(ArbiterServiceSignal::EmbeddingRequest)
    } else {
        None
    }
}

/// The name of the service.
pub fn name() -> (name: &'static str)
    ensures
        name@ == "agent::llamacpp_arbiter_service"@,
{
    "agent::llamacpp_arbiter_service"
}

/// An agent whose attempts keep failing alternates between retrying and being
/// stuck, and never gives up on its own.
pub proof fn failing_attempts_are_repeated(status: AgentStateApplicationStatus)
    requires
        status.retries(),
    ensures
        retry_status(status).retries(),
        retry_status(retry_status(status)).retries(),
        retry_status(AgentStateApplicationStatus::Fresh)
            == AgentStateApplicationStatus::AttemptedAndRetrying,
        retry_status(AgentStateApplicationStatus::AttemptedAndRetrying)
            == AgentStateApplicationStatus::Stuck,
        retry_status(AgentStateApplicationStatus::Stuck)
            == AgentStateApplicationStatus::AttemptedAndRetrying,
{
}

/// An agent whose state was applied is left in peace until a new state arrives.
pub proof fn an_applied_state_is_not_applied_again(view: SlotAggregatedStatusView)
    ensures
        AgentStateApplicationStatus::of_code(
            with_status(view, AgentStateApplicationStatus::Applied).state_application_status_code,
        ) == Some(AgentStateApplicationStatus::Applied),
        !AgentStateApplicationStatus::Applied.retries(),
        AgentStateApplicationStatus::Fresh.retries(),
{
}

/// A command reaches the thread in its turn and as it is, or is known to be lost; it is
/// lost exactly if there is no thread or the thread is gone.
pub proof fn commands_are_delivered_or_known_to_be_lost(
    handle: &mut Option<ContinuousBatchArbiterHandle>,
    command: ContinuousBatchSchedulerCommand,
    outcome: ForwardCommandOutcome,
)
    requires
        call_ensures(forward_command, (handle, command), outcome),
    ensures
        outcome is NotInitialized <==> *old(handle) is None,
        *final(handle) is Some <==> *old(handle) is Some,
        *old(handle) is Some ==> {
            let before = commands_of(*old(handle))->Some_0;
            let after = commands_of(*final(handle))->Some_0;
            &&& after.len() == before.len() + 1
            &&& after.drop_last() == before
            &&& after.last().0 == command
            &&& after.last().1 <==> outcome is Delivered
        },
{
    if let Some(before) = commands_of(*old(handle)) {
        assert(commands_of(*final(handle))->Some_0.drop_last() =~= before);
    }
}

/// A state is applied by a thread of its own: a running thread is ended once no slot
/// is busy, and only then is a new one started. A state is never taken as applied while
/// an earlier thread runs, and a failed attempt changes nothing.
pub proof fn a_new_thread_is_started_after_the_old_one_ended(
    handle: &mut Option<ContinuousBatchArbiterHandle>,
    status: &mut SlotAggregatedStatus,
    has_applicable_state: bool,
    event: ApplyEvent,
    step: ApplyStep,
)
    requires
        call_ensures(apply_state, (handle, status, has_applicable_state, event), step),
    ensures
        step is DrainInFlightRequests <==> event is Started && *old(handle) is Some,
        step is ShutDownArbiter <==> event is Drained,
        step is BuildArbiter <==> has_applicable_state && (event is ArbiterShutDown || (
        event is Started && *old(handle) is None)),
        step is Failed <==> event is DrainFailed || event is ArbiterShutDownFailed || event
            == ApplyEvent::Built(ArbiterBuildOutcome::Failed),
        step is Failed ==> final(status)@ == old(status)@ && *final(handle) == *old(handle),
        step is Applied <==> (event matches ApplyEvent::Built(outcome) && !(outcome is Failed)) || (
        !has_applicable_state && (event is ArbiterShutDown || (event is Started && *old(
            handle,
        ) is None))),
        step is Applied ==> AgentStateApplicationStatus::of_code(
            final(status)@.state_application_status_code,
        ) == Some(AgentStateApplicationStatus::Applied) && final(status)@.updates == old(
            status,
        )@.updates + 1,
        step is BuildArbiter ==> {
            &&& final(status)@.slots_total == 0
            &&& final(status)@.slots_processing == 0
            &&& final(status)@.model_path is None
            &&& forall|issue: crate::messaging::agent_issue::AgentIssueView|
                !(#[trigger] final(status)@.issues.contains(issue))
            &&& final(status)@.state_application_status_code == old(
                status,
            )@.state_application_status_code
        },
        step is Applied ==> final(status)@.slots_total == old(status)@.slots_total
            && final(status)@.issues == old(status)@.issues,
        event matches ApplyEvent::Built(ArbiterBuildOutcome::Ready(new)) ==> *final(handle) == Some(
            new,
        ),
        !(event matches ApplyEvent::Built(ArbiterBuildOutcome::Ready(_))) ==> *final(handle)
            == *old(handle),
{
    status_survives_its_code(AgentStateApplicationStatus::Applied);
}

/// The state is attempted at once where it is new, and on every tick until it is
/// applied or cannot be. It is not attempted for anything else.
pub proof fn a_state_is_attempted_until_it_is_applied(
    handle: &mut Option<ContinuousBatchArbiterHandle>,
    status: &mut SlotAggregatedStatus,
    event: ArbiterServiceEvent,
    step: ArbiterServiceStep,
)
    requires
        call_ensures(run, (handle, status, event), step),
    ensures
        ({
            let before = AgentStateApplicationStatus::of_code(
                old(status)@.state_application_status_code,
            );
            let after = AgentStateApplicationStatus::of_code(
                final(status)@.state_application_status_code,
            );
            &&& step is Apply <==> event is StateChanged || (event is Tick && before is Some
                && before != Some(AgentStateApplicationStatus::Applied) && before != Some(
                AgentStateApplicationStatus::AttemptedAndNotAppliable,
            ))
            &&& step is Stop <==> event is Shutdown
            &&& step is Fail <==> event is Tick && before is None
            &&& event is StateChanged ==> after == Some(AgentStateApplicationStatus::Fresh)
            &&& event is Tick && step is Apply ==> {
                &&& before == Some(AgentStateApplicationStatus::AttemptedAndRetrying) ==> after
                    == Some(AgentStateApplicationStatus::Stuck)
                &&& before != Some(AgentStateApplicationStatus::AttemptedAndRetrying) ==> after
                    == Some(AgentStateApplicationStatus::AttemptedAndRetrying)
            }
            &&& !(step is Apply) ==> final(status)@ == old(status)@
            &&& step is Apply ==> final(status)@.updates == old(status)@.updates + 1
            &&& final(status)@.slots_total == old(status)@.slots_total
            &&& final(status)@.issues == old(status)@.issues
        }),
        !(event is Command) ==> *final(handle) == *old(handle),
        step is ReportLostCommand ==> event is Command,
        event is Command && *old(handle) is None ==> step == ArbiterServiceStep::ReportLostCommand(
            ForwardCommandOutcome::NotInitialized,
        ),
        event matches ArbiterServiceEvent::Command(command) ==> (*old(handle) is Some ==> {
            let before = commands_of(*old(handle))->Some_0;
            let after = commands_of(*final(handle))->Some_0;
            &&& after.len() == before.len() + 1
            &&& after.last().0 == command
            &&& step is Wait <==> after.last().1
            &&& !(step is Wait) ==> step == ArbiterServiceStep::ReportLostCommand(
                ForwardCommandOutcome::ReceiverDropped,
            )
        }),
{
    status_survives_its_code(AgentStateApplicationStatus::Fresh);
    status_survives_its_code(AgentStateApplicationStatus::AttemptedAndRetrying);
    status_survives_its_code(AgentStateApplicationStatus::Stuck);
}

/// Something counts exactly if anything happened, and it is what happened; nothing
/// counts before a shutdown, and no request before a new state or a tick.
pub proof fn a_shutdown_counts_before_everything(
    shutdown: bool,
    tick: bool,
    state_changed: bool,
    conversation_request: bool,
    raw_prompt_request: bool,
    embedding_request: bool,
    signal: Option<ArbiterServiceSignal>,
)
    requires
        call_ensures(
            first_signal,
            (
                shutdown,
                tick,
                state_changed,
                conversation_request,
                raw_prompt_request,
                embedding_request,
            ),
            signal,
        ),
    ensures
        signal is None <==> !(shutdown || tick || state_changed || conversation_request
            || raw_prompt_request || embedding_request),
        signal matches Some(signal) ==> match signal {
            ArbiterServiceSignal::Shutdown => shutdown,
            ArbiterServiceSignal::Tick => tick && !shutdown,
            ArbiterServiceSignal::StateChanged => state_changed && !shutdown && !tick,
            ArbiterServiceSignal::ConversationRequest => conversation_request && !(shutdown || tick
                || state_changed),
            ArbiterServiceSignal::RawPromptRequest => raw_prompt_request && !(shutdown || tick
                || state_changed || conversation_request),
            ArbiterServiceSignal::EmbeddingRequest => embedding_request && !(shutdown || tick
                || state_changed || conversation_request || raw_prompt_request),
        },
{
}

/// A thread that is told to end is told so last, and is forgotten.
pub proof fn a_thread_is_told_to_end_last(
    handle: &mut Option<ContinuousBatchArbiterHandle>,
    stopping: Option<ContinuousBatchArbiterHandle>,
)
    requires
        call_ensures(shutdown_arbiter_handle, (handle,), stopping),
    ensures
        *final(handle) is None,
        stopping is Some <==> *old(handle) is Some,
        stopping is Some ==> {
            let before = commands_of(*old(handle))->Some_0;
            let after = commands_of(stopping)->Some_0;
            after.len() == before.len() + 1 && after.last().0
                == ContinuousBatchSchedulerCommand::Shutdown && after.drop_last() == before
        },
{
    if let Some(before) = commands_of(*old(handle)) {
        assert(commands_of(stopping)->Some_0.drop_last() =~= before);
    }
}

} // verus!
