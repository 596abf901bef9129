use std::mem::discriminant;

use tokio::sync::mpsc;
use tokio_util::sync::CancellationToken;

use paddler::balancer::agent_controller::AgentController;
use paddler::balancer::agent_controller_pool::AgentControllerPool;
use paddler::balancer::reconciliation_service::BalancerApplicableState;
use paddler::balancer::reconciliation_service::BalancerApplicableStateHolder;
use paddler::balancer::request_from_agent::request_from_agent;
use paddler::balancer::request_from_agent::AgentStopOutcome;
use paddler::balancer::request_from_agent::ForwardingAction;
use paddler::balancer::request_from_agent::ForwardingEvent;
use paddler::balancer::request_from_agent::OutgoingMessage;
use paddler::balancer::request_from_agent::ResponseForwarding;
use paddler::balancer::sender_collection::SenderCollection;
use paddler::balancer::ws_agent_socket::ContinuationDecision;
use paddler::balancer::ws_inference_socket::handle_deserialized_message;
use paddler::balancer::ws_inference_socket::ClusterTokenGenerationMode;
use paddler::balancer::ws_inference_socket::InferenceJsonRpcMessage;
use paddler::balancer::ws_inference_socket::InferenceJsonRpcRequest;
use paddler::balancer::ws_inference_socket::InferenceSocketEffect;
use paddler::balancer::ws_inference_socket::InferenceSocketStep;
use paddler::balancer::ws_inference_socket::InvalidParameters;
use paddler::balancer::ws_inference_socket::RequestCancellationRegistration;
use paddler::balancer::ws_inference_socket::RequestCancellationTokens;
use paddler::messaging::messages::AgentDesiredModel;
use paddler::messaging::messages::AgentDesiredState;
use paddler::messaging::messages::AgentJsonRpcMessage;
use paddler::messaging::messages::AgentJsonRpcNotification;
use paddler::messaging::messages::AgentJsonRpcRequest;
use paddler::messaging::messages::AgentJsonRpcResponse;
use paddler::messaging::messages::ContinueFromConversationHistoryParams;
use paddler::messaging::messages::ContinueFromRawPromptParams;
use paddler::messaging::messages::ErrorEnvelope;
use paddler::messaging::messages::GeneratedTokenResult;
use paddler::messaging::messages::InferenceParameters;
use paddler::messaging::messages::JsonRpcError;
use paddler::messaging::messages::RequestEnvelope;
use paddler::messaging::slot_aggregated_status_snapshot::SlotAggregatedStatusSnapshot;

const DISABLED_MESSAGE: &str = "token generation is disabled";

struct Fixture {
    agent_message_rx: mpsc::UnboundedReceiver<AgentJsonRpcMessage>,
    connection_close: CancellationToken,
    holder: BalancerApplicableStateHolder,
    pool: AgentControllerPool,
    senders: SenderCollection,
    tokens: RequestCancellationTokens,
}

fn pool_with_one_free_slot(agent_id: &str) -> Fixture {
    let (agent_message_tx, agent_message_rx) = mpsc::unbounded_channel();
    let mut pool = AgentControllerPool::default();

    pool.register_agent_controller(
        agent_id.to_owned(),
        AgentController::from_registration(
            agent_message_tx,
            1,
            agent_id.to_owned(),
            None,
            SlotAggregatedStatusSnapshot {
                slots_total: 1,
                ..SlotAggregatedStatusSnapshot::default()
            },
        ),
    )
    .unwrap();

    Fixture {
        agent_message_rx,
        connection_close: CancellationToken::new(),
        holder: BalancerApplicableStateHolder::default(),
        pool,
        senders: SenderCollection::default(),
        tokens: RequestCancellationTokens::default(),
    }
}

fn applicable_state(enable_embeddings: bool) -> BalancerApplicableState {
    BalancerApplicableState {
        agent_desired_state: AgentDesiredState {
            chat_template_override: None,
            inference_parameters: InferenceParameters {
                embedding_batch_size: 256,
                enable_embeddings,
                others: "{}".to_owned(),
            },
            model: AgentDesiredModel::LocalToAgent("model.gguf".to_owned()),
            multimodal_projection: AgentDesiredModel::Unset,
        },
    }
}

fn raw_prompt_params() -> ContinueFromRawPromptParams {
    ContinueFromRawPromptParams {
        grammar: None,
        max_tokens: 1,
        raw_prompt: "fixture prompt".to_owned(),
    }
}

fn conversation_params() -> ContinueFromConversationHistoryParams {
    ContinueFromConversationHistoryParams {
        add_generation_prompt: true,
        conversation_history: "[]".to_owned(),
        enable_thinking: false,
        grammar: None,
        max_tokens: 1,
        parse_tool_calls: false,
        tools: "[]".to_owned(),
    }
}

fn raw_prompt_message(request_id: &str) -> InferenceJsonRpcMessage {
    InferenceJsonRpcMessage::Request(
        request_id.to_owned(),
        InferenceJsonRpcRequest::ContinueFromRawPrompt(raw_prompt_params()),
    )
}

fn conversation_message(request_id: &str) -> InferenceJsonRpcMessage {
    InferenceJsonRpcMessage::Request(
        request_id.to_owned(),
        InferenceJsonRpcRequest::ContinueFromConversationHistory(Ok(conversation_params())),
    )
}

impl Fixture {
    fn handle(
        &mut self,
        token: usize,
        message: InferenceJsonRpcMessage,
    ) -> Result<InferenceSocketStep, InvalidParameters> {
        handle_deserialized_message(
            &self.connection_close,
            &self.holder,
            DISABLED_MESSAGE.to_owned(),
            &mut self.tokens,
            token,
            message,
        )
    }

    /// Hands what is to be dispatched to the agent.
    fn dispatch(&mut self, effect: InferenceSocketEffect) -> ResponseForwarding {
        let InferenceSocketEffect::Dispatch(request_id, request, _token, _request_cancel) = effect else {
            panic!("the request must be dispatched");
        };
        let dispatched_agent = self.pool.take_least_busy_agent_controller().unwrap();

        request_from_agent(
            dispatched_agent,
            30_000,
            request_id,
            &mut self.senders,
            1,
            request,
        )
        .ok()
        .unwrap()
    }
}

fn assert_continues(step: &InferenceSocketStep) {
    assert_eq!(
        discriminant(&step.decision),
        discriminant(&ContinuationDecision::Continue)
    );
}

fn assert_disabled(effect: &InferenceSocketEffect, expected_id: &str) {
    assert!(matches!(
        effect,
        InferenceSocketEffect::Reply(OutgoingMessage::Response(envelope))
            if envelope.request_id == expected_id
                && envelope.response
                    == AgentJsonRpcResponse::GeneratedToken(
                        GeneratedTokenResult::TokenGenerationDisabled(DISABLED_MESSAGE.to_owned())
                    )
    ));
}

#[test]
fn handle_raw_prompt_request_replies_disabled_without_dispatch_in_embeddings_mode() {
    let mut fixture = pool_with_one_free_slot("agent-raw-prompt-embeddings");

    fixture
        .holder
        .set_balancer_applicable_state(Some(applicable_state(true)));

    let step = fixture
        .handle(1, raw_prompt_message("request-raw-prompt-embeddings"))
        .unwrap();

    assert_continues(&step);
    assert_disabled(&step.effect, "request-raw-prompt-embeddings");
    assert!(fixture.agent_message_rx.try_recv().is_err());
}

#[test]
fn handle_conversation_history_request_replies_disabled_without_dispatch_in_embeddings_mode() {
    let mut fixture = pool_with_one_free_slot("agent-conversation-history-embeddings");

    fixture
        .holder
        .set_balancer_applicable_state(Some(applicable_state(true)));

    let step = fixture
        .handle(
            1,
            conversation_message("request-conversation-history-embeddings"),
        )
        .unwrap();

    assert_continues(&step);
    assert_disabled(&step.effect, "request-conversation-history-embeddings");
    assert!(fixture.agent_message_rx.try_recv().is_err());
}

#[test]
fn handle_error_message_continues_without_dispatch() {
    let mut fixture = pool_with_one_free_slot("agent-error-arm");

    let step = fixture
        .handle(
            1,
            InferenceJsonRpcMessage::Error(ErrorEnvelope {
                request_id: "request-error".to_owned(),
                error: JsonRpcError {
                    code: -32_600,
                    description: "client reported error".to_owned(),
                },
            }),
        )
        .unwrap();

    assert_continues(&step);
    assert!(matches!(step.effect, InferenceSocketEffect::Nothing));
    assert!(fixture.agent_message_rx.try_recv().is_err());
}

#[test]
fn handle_raw_prompt_request_dispatches_to_agent() {
    let mut fixture = pool_with_one_free_slot("agent-raw-prompt");

    let step = fixture
        .handle(1, raw_prompt_message("request-raw-prompt"))
        .unwrap();

    assert_continues(&step);

    let mut forwarding = fixture.dispatch(step.effect);

    assert_eq!(
        fixture.agent_message_rx.try_recv().unwrap(),
        AgentJsonRpcMessage::Request(RequestEnvelope {
            id: "request-raw-prompt".to_owned(),
            request: AgentJsonRpcRequest::ContinueFromRawPrompt(raw_prompt_params()),
        }),
    );
    assert!(matches!(
        forwarding.forward_responses_stream(ForwardingEvent::ClientConnectionClosed),
        ForwardingAction::Stop
    ));
    assert_eq!(forwarding.request_stop(), AgentStopOutcome::StopRequested);
    assert_eq!(
        fixture.agent_message_rx.try_recv().unwrap(),
        AgentJsonRpcMessage::Notification(AgentJsonRpcNotification::StopRespondingTo(
            "request-raw-prompt".to_owned()
        )),
    );
}

#[test]
fn handle_raw_prompt_request_rejects_a_duplicate_request_id_without_dispatch() {
    let mut fixture = pool_with_one_free_slot("agent-duplicate");

    assert_eq!(
        fixture.tokens.register("request-duplicate".to_owned(), 1),
        RequestCancellationRegistration::Registered
    );

    let step = fixture
        .handle(2, raw_prompt_message("request-duplicate"))
        .unwrap();

    assert_continues(&step);
    assert!(matches!(
        step.effect,
        InferenceSocketEffect::Reply(OutgoingMessage::Error(envelope))
            if envelope.error.code == 400
                && envelope.request_id == "request-duplicate"
                && envelope.error.description
                    == "Request id \"request-duplicate\" is already in flight on this connection"
    ));
    assert!(fixture.agent_message_rx.try_recv().is_err());
    assert_eq!(fixture.tokens.cancel("request-duplicate"), Some(1));
}

#[test]
fn handle_conversation_history_request_validates_and_dispatches_to_agent() {
    let mut fixture = pool_with_one_free_slot("agent-conversation-history");

    let step = fixture
        .handle(1, conversation_message("request-conversation-history"))
        .unwrap();

    assert_continues(&step);

    let mut forwarding = fixture.dispatch(step.effect);

    assert_eq!(
        fixture.agent_message_rx.try_recv().unwrap(),
        AgentJsonRpcMessage::Request(RequestEnvelope {
            id: "request-conversation-history".to_owned(),
            request: AgentJsonRpcRequest::ContinueFromConversationHistory(conversation_params()),
        }),
    );
    assert!(matches!(
        forwarding.forward_responses_stream(ForwardingEvent::ClientConnectionClosed),
        ForwardingAction::Stop
    ));
    assert_eq!(forwarding.request_stop(), AgentStopOutcome::StopRequested);
    assert_eq!(
        fixture.agent_message_rx.try_recv().unwrap(),
        AgentJsonRpcMessage::Notification(AgentJsonRpcNotification::StopRespondingTo(
            "request-conversation-history".to_owned()
        )),
    );
}

#[test]
fn unacceptable_tools_are_an_error() {
    let mut fixture = pool_with_one_free_slot("agent");

    let error = fixture
        .handle(
            1,
            InferenceJsonRpcMessage::Request(
                "request".to_owned(),
                InferenceJsonRpcRequest::ContinueFromConversationHistory(Err(InvalidParameters {
                    reason: "no such type".to_owned(),
                })),
            ),
        )
        .err()
        .unwrap();

    assert_eq!(error.reason, "no such type");
    assert_eq!(fixture.tokens.cancel("request"), None);
}

#[test]
fn requests_can_be_cancelled_while_in_flight() {
    let mut fixture = pool_with_one_free_slot("agent");
    let stop = || InferenceJsonRpcMessage::StopRespondingTo("request \"1\"".to_owned());

    assert!(matches!(
        fixture.handle(1, stop()).unwrap().effect,
        InferenceSocketEffect::Nothing
    ));
    assert!(matches!(
        fixture
            .handle(6, raw_prompt_message("request \"1\""))
            .unwrap()
            .effect,
        InferenceSocketEffect::Dispatch(_, _, 6, _)
    ));
    assert!(matches!(
        fixture.handle(2, stop()).unwrap().effect,
        InferenceSocketEffect::CancelRequest(6)
    ));
    assert!(matches!(
        fixture
            .handle(7, raw_prompt_message("request \"1\""))
            .unwrap()
            .effect,
        InferenceSocketEffect::Reply(OutgoingMessage::Error(envelope))
            if envelope.error.description
                == "Request id \"request \\\"1\\\"\" is already in flight on this connection"
    ));

    fixture.tokens.deregister("request \"1\"");

    assert!(matches!(
        fixture
            .handle(8, raw_prompt_message("request \"1\""))
            .unwrap()
            .effect,
        InferenceSocketEffect::Dispatch(_, _, 8, _)
    ));
}

#[test]
fn tokens_are_generated_unless_embeddings_are_asked_for() {
    let mut holder = BalancerApplicableStateHolder::default();

    assert_eq!(
        ClusterTokenGenerationMode::from_applicable_state_holder(&holder),
        ClusterTokenGenerationMode::Enabled
    );

    holder.set_balancer_applicable_state(Some(applicable_state(true)));

    assert_eq!(
        ClusterTokenGenerationMode::from_applicable_state_holder(&holder),
        ClusterTokenGenerationMode::DisabledForEmbeddings
    );

    holder.set_balancer_applicable_state(Some(applicable_state(false)));

    assert_eq!(
        ClusterTokenGenerationMode::from_applicable_state_holder(&holder),
        ClusterTokenGenerationMode::Enabled
    );
}

#[test]
fn a_request_ends_with_its_connection() {
    let mut fixture = pool_with_one_free_slot("agent-connection");
    let first = fixture.handle(1, raw_prompt_message("first")).unwrap();
    let second = fixture.handle(2, raw_prompt_message("second")).unwrap();
    let InferenceSocketEffect::Dispatch(_, _, 1, first_cancel) = first.effect else {
        panic!("the request must be dispatched");
    };
    let InferenceSocketEffect::Dispatch(_, _, 2, second_cancel) = second.effect else {
        panic!("the request must be dispatched");
    };

    assert!(!first_cancel.is_cancelled());

    first_cancel.cancel();

    assert!(!second_cancel.is_cancelled());
    assert!(!fixture.connection_close.is_cancelled());

    fixture.connection_close.cancel();

    assert!(second_cancel.is_cancelled());
}
