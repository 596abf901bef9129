use std::mem::discriminant;

use tokio::sync::mpsc;
use tokio_util::sync::CancellationToken;

use paddler::balancer::agent_controller::AgentController;
use paddler::balancer::agent_controller_pool::AgentControllerPool;
use paddler::balancer::ws_agent_socket::forward_agent_message;
use paddler::balancer::ws_agent_socket::on_connection_start;
use paddler::balancer::ws_agent_socket::version_message;
use paddler::balancer::ws_agent_socket::AgentMessageAction;
use paddler::balancer::ws_agent_socket::AgentMessageEvent;
use paddler::balancer::ws_agent_socket::AgentSocketControllerContext;
use paddler::balancer::ws_agent_socket::AgentSocketEffect;
use paddler::balancer::ws_agent_socket::AgentSocketError;
use paddler::balancer::ws_agent_socket::AgentSocketStep;
use paddler::balancer::ws_agent_socket::ContinuationDecision;
use paddler::balancer::ws_agent_socket::ResponseCollection;
use paddler::messaging::agent_issue::AgentIssues;
use paddler::messaging::agent_state_application_status::AgentStateApplicationStatus;
use paddler::messaging::messages::AgentDesiredModel;
use paddler::messaging::messages::AgentDesiredState;
use paddler::messaging::messages::AgentJsonRpcMessage;
use paddler::messaging::messages::AgentJsonRpcNotification;
use paddler::messaging::messages::AgentJsonRpcResponse;
use paddler::messaging::messages::EmbeddingResult;
use paddler::messaging::messages::ErrorEnvelope;
use paddler::messaging::messages::GeneratedTokenResult;
use paddler::messaging::messages::InferenceParameters;
use paddler::messaging::messages::JsonRpcError;
use paddler::messaging::messages::ManagementJsonRpcMessage;
use paddler::messaging::messages::ManagementJsonRpcNotification;
use paddler::messaging::messages::RegisterAgentParams;
use paddler::messaging::messages::ResponseEnvelope;
use paddler::messaging::messages::UpdateAgentStatusParams;
use paddler::messaging::slot_aggregated_status_snapshot::SlotAggregatedStatusSnapshot;
use paddler::messaging::tokens_per_second::TokensPerSecond;

fn context(agent_id: &str) -> AgentSocketControllerContext {
    AgentSocketControllerContext {
        agent_id: agent_id.to_owned(),
        connection: 1,
    }
}

fn status_with_one_slot() -> SlotAggregatedStatusSnapshot {
    SlotAggregatedStatusSnapshot {
        desired_slots_total: 0,
        download_current: 0,
        download_filename: None,
        download_indeterminate: false,
        download_total: 0,
        issues: AgentIssues::new(),
        model_path: None,
        slots_processing: 0,
        slots_total: 1,
        state_application_status: AgentStateApplicationStatus::Fresh,
        tokens_per_second: TokensPerSecond::zero(),
        uses_chat_template_override: false,
        version: 0,
    }
}

fn registration() -> ManagementJsonRpcMessage {
    ManagementJsonRpcMessage::Notification(ManagementJsonRpcNotification::RegisterAgent(
        RegisterAgentParams {
            name: None,
            slot_aggregated_status_snapshot: status_with_one_slot(),
        },
    ))
}

fn desired_state() -> AgentDesiredState {
    AgentDesiredState {
        chat_template_override: None,
        inference_parameters: InferenceParameters {
            embedding_batch_size: 256,
            enable_embeddings: false,
            others: "{}".to_owned(),
        },
        model: AgentDesiredModel::HuggingFace("org/model".to_owned()),
        multimodal_projection: AgentDesiredModel::Unset,
    }
}

fn handle(
    context: &AgentSocketControllerContext,
    pool: &mut AgentControllerPool,
    message: ManagementJsonRpcMessage,
) -> Result<AgentSocketStep, AgentSocketError> {
    context.handle_deserialized_message(&mut CancellationToken::new(), pool, None, message)
}

#[test]
fn forwarder_task_stops_when_agent_message_channel_closes() {
    let agent_id = "agent-forwarder-close";
    let mut pool = AgentControllerPool::default();
    let context = context(agent_id);

    let step = handle(&context, &mut pool, registration()).unwrap();

    assert_eq!(
        discriminant(&step.decision),
        discriminant(&ContinuationDecision::Continue),
    );
    assert!(pool.get_agent_controller(agent_id).is_some());

    let AgentSocketEffect::ForwardMessages(mut agent_message_rx) = step.effect else {
        panic!("the messages to the agent must be forwarded");
    };

    assert!(pool.remove_agent_controller(agent_id));
    assert_eq!(
        agent_message_rx.try_recv(),
        Err(mpsc::error::TryRecvError::Disconnected)
    );
    assert!(matches!(
        forward_agent_message(AgentMessageEvent::QueueClosed),
        AgentMessageAction::Stop
    ));
}

#[test]
fn deregister_agent_notification_cancels_the_connection_and_stops() {
    let mut pool = AgentControllerPool::default();
    let mut connection_close = CancellationToken::new();
    let context = context("agent-deregister");

    let step = context
        .handle_deserialized_message(
            &mut connection_close,
            &mut pool,
            None,
            ManagementJsonRpcMessage::Notification(ManagementJsonRpcNotification::DeregisterAgent),
        )
        .unwrap();

    assert!(
        connection_close.is_cancelled(),
        "DeregisterAgent must cancel the agent connection so it is torn down"
    );
    assert!(matches!(step.decision, ContinuationDecision::Stop(_)));
}

#[test]
fn drop_removes_registered_agent_from_pool() {
    let (agent_message_tx, _agent_message_rx) = mpsc::unbounded_channel();
    let mut pool = AgentControllerPool::default();

    pool.register_agent_controller(
        "agent-under-drop".to_owned(),
        AgentController::from_registration(
            agent_message_tx,
            1,
            "agent-under-drop".to_owned(),
            None,
            status_with_one_slot(),
        ),
    )
    .unwrap();

    let context = context("agent-under-drop");

    assert!(pool.get_agent_controller("agent-under-drop").is_some());

    context.close(&mut pool);

    assert!(pool.get_agent_controller("agent-under-drop").is_none());
}

#[test]
fn a_registering_agent_is_asked_to_be_in_the_desired_state() {
    let mut pool = AgentControllerPool::default();
    let context = context("agent");
    let step = context
        .handle_deserialized_message(
            &mut CancellationToken::new(),
            &mut pool,
            Some(desired_state()),
            registration(),
        )
        .unwrap();
    let AgentSocketEffect::ForwardMessages(mut agent_message_rx) = step.effect else {
        panic!("the messages to the agent must be forwarded");
    };

    assert!(matches!(
        agent_message_rx.try_recv().unwrap(),
        AgentJsonRpcMessage::Notification(AgentJsonRpcNotification::SetState(params))
            if params.desired_state == desired_state()
    ));
    assert_eq!(pool.get_agent_controller("agent").unwrap().slots_total, 1);
}

#[test]
fn an_agent_cannot_join_twice() {
    let mut pool = AgentControllerPool::default();
    let context = context("agent");

    let step = handle(&context, &mut pool, registration()).unwrap();
    let AgentSocketEffect::ForwardMessages(mut agent_message_rx) = step.effect else {
        panic!("the messages to the agent must be forwarded");
    };
    let error = handle(&context, &mut pool, registration()).err().unwrap();

    assert_eq!(error, AgentSocketError::UnableToRegisterAgentController);
    assert_eq!(error.message(), "Unable to register agent controller");
    assert_eq!(
        AgentSocketError::UnableToSetDesiredState.message(),
        "Unable to set desired state"
    );

    pool.set_desired_state(desired_state()).unwrap();

    assert!(matches!(
        agent_message_rx.try_recv(),
        Ok(AgentJsonRpcMessage::Notification(
            AgentJsonRpcNotification::SetState(_)
        ))
    ));
}

#[test]
fn reports_of_agents_are_taken_over() {
    let mut pool = AgentControllerPool::default();
    let context = context("agent");
    let report = || {
        ManagementJsonRpcMessage::Notification(ManagementJsonRpcNotification::UpdateAgentStatus(
            UpdateAgentStatusParams {
                slot_aggregated_status_snapshot: SlotAggregatedStatusSnapshot {
                    slots_total: 4,
                    version: 1,
                    ..status_with_one_slot()
                },
            },
        ))
    };

    assert!(matches!(
        handle(&context, &mut pool, report()).unwrap().effect,
        AgentSocketEffect::ReportUnknownAgent
    ));

    handle(&context, &mut pool, registration()).unwrap();

    let update_rx = pool.subscribe_to_updates();

    assert!(matches!(
        handle(&context, &mut pool, report()).unwrap().effect,
        AgentSocketEffect::Nothing
    ));
    assert!(update_rx.has_changed().unwrap());
    assert_eq!(pool.get_agent_controller("agent").unwrap().slots_total, 4);
}

#[test]
fn responses_go_to_whoever_waits_for_their_sort() {
    let mut pool = AgentControllerPool::default();
    let context = context("agent");

    for (response, expected) in [
        (
            AgentJsonRpcResponse::ChatTemplateOverride(None),
            ResponseCollection::ChatTemplateOverride,
        ),
        (
            AgentJsonRpcResponse::Embedding(EmbeddingResult::Done),
            ResponseCollection::Embedding,
        ),
        (
            AgentJsonRpcResponse::GeneratedToken(GeneratedTokenResult::ContentToken(
                "token".to_owned(),
            )),
            ResponseCollection::GenerateTokens,
        ),
        (
            AgentJsonRpcResponse::ModelMetadata(None),
            ResponseCollection::ModelMetadata,
        ),
    ] {
        let step = handle(
            &context,
            &mut pool,
            ManagementJsonRpcMessage::Response(ResponseEnvelope {
                generated_by: None,
                request_id: "request".to_owned(),
                response,
            }),
        )
        .unwrap();

        assert!(matches!(
            step.effect,
            AgentSocketEffect::ForwardResponse(collection, request_id, _)
                if collection == expected && request_id == "request"
        ));
    }
    assert!(matches!(
        handle(
            &context,
            &mut pool,
            ManagementJsonRpcMessage::Error(ErrorEnvelope {
                error: JsonRpcError {
                    code: 1,
                    description: "error".to_owned(),
                },
                request_id: "request".to_owned(),
            })
        )
        .unwrap()
        .effect,
        AgentSocketEffect::Nothing
    ));
}

#[test]
fn a_connection_starts_with_the_version() {
    assert!(matches!(
        version_message("2.0.0".to_owned()),
        AgentJsonRpcMessage::Notification(AgentJsonRpcNotification::Version(params))
            if params.version == "2.0.0"
    ));
    assert!(matches!(
        on_connection_start(true),
        ContinuationDecision::Continue
    ));
    assert!(matches!(
        on_connection_start(false),
        ContinuationDecision::Stop(parameters) if parameters.close_reason.is_none()
    ));
    assert!(matches!(
        forward_agent_message(AgentMessageEvent::ConnectionClosed),
        AgentMessageAction::Stop
    ));
    assert!(matches!(
        forward_agent_message(AgentMessageEvent::Message(version_message(
            "2.0.0".to_owned()
        ))),
        AgentMessageAction::Send(_)
    ));
}
