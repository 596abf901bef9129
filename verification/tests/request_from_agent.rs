use std::mem::discriminant;

use tokio::sync::mpsc;
use tokio_util::sync::CancellationToken;

use paddler::balancer::agent_controller::AgentController;
use paddler::balancer::agent_controller_pool::AgentControllerPool;
use paddler::balancer::agent_controller_pool::DispatchedAgent;
use paddler::balancer::buffered_request_manager::BufferedRequestAgentWaitResult;
use paddler::balancer::buffered_request_manager::BufferedRequestManager;
use paddler::balancer::buffered_request_manager::BufferedRequestStart;
use paddler::balancer::request_from_agent::collection_of;
use paddler::balancer::request_from_agent::first_agent_wait_signal;
use paddler::balancer::request_from_agent::is_done;
use paddler::balancer::request_from_agent::request_from_agent;
use paddler::balancer::request_from_agent::respond_with_error;
use paddler::balancer::request_from_agent::response_event;
use paddler::balancer::request_from_agent::send_response_to_client;
use paddler::balancer::request_from_agent::wait_for_agent_controller;
use paddler::balancer::request_from_agent::AgentResponseForwardingMode;
use paddler::balancer::request_from_agent::AgentWaitDecision;
use paddler::balancer::request_from_agent::AgentWaitEvent;
use paddler::balancer::request_from_agent::AgentWaitSignal;
use paddler::balancer::request_from_agent::FollowUp;
use paddler::balancer::request_from_agent::ForwardingEvent;
use paddler::balancer::request_from_agent::ForwardingSignal;
use paddler::balancer::request_from_agent::ForwardingStep;
use paddler::balancer::request_from_agent::OutgoingMessage;
use paddler::balancer::request_from_agent::ResponseForwarding;
use paddler::balancer::sender_collection::SenderCollection;
use paddler::balancer::ws_agent_socket::ResponseCollection;
use paddler::messaging::agent_issue::AgentIssues;
use paddler::messaging::agent_state_application_status::AgentStateApplicationStatus;
use paddler::messaging::messages::AgentJsonRpcMessage;
use paddler::messaging::messages::AgentJsonRpcNotification;
use paddler::messaging::messages::AgentJsonRpcRequest;
use paddler::messaging::messages::AgentJsonRpcResponse;
use paddler::messaging::messages::ContinueFromRawPromptParams;
use paddler::messaging::messages::EmbeddingResult;
use paddler::messaging::messages::GeneratedTokenResult;
use paddler::messaging::messages::JsonRpcError;
use paddler::messaging::tokens_per_second::TokensPerSecond;

const ONE_HOUR_MS: u128 = 3_600_000;
const CHANNEL: usize = 1;

/// One agent in a pool, as the request that is dispatched to it sees it.
struct Fixture {
    agent_id: String,
    agent_message_rx: Option<mpsc::UnboundedReceiver<AgentJsonRpcMessage>>,
    agent_connection_close: CancellationToken,
    pool: AgentControllerPool,
    senders: SenderCollection,
}

/// What a client is told, and whether it still listens.
struct Client {
    listens: bool,
    told: Vec<OutgoingMessage>,
}

impl Client {
    fn listening() -> Self {
        Client {
            listens: true,
            told: Vec::new(),
        }
    }

    fn gone() -> Self {
        Client {
            listens: false,
            told: Vec::new(),
        }
    }

    fn send(&mut self, message: OutgoingMessage) -> bool {
        if self.listens {
            self.told.push(message);
        }

        self.listens
    }

    fn only_error(&self) -> &JsonRpcError {
        assert_eq!(self.told.len(), 1);

        match &self.told[0] {
            OutgoingMessage::Error(envelope) => &envelope.error,
            OutgoingMessage::Response(_) => panic!("the client must be told of an error"),
        }
    }
}

/// What can happen while responses are awaited.
struct Signals<'a> {
    connection_close: &'a CancellationToken,
    item_times_out: bool,
    responses: Vec<Option<GeneratedTokenResult>>,
    shutdown: &'a CancellationToken,
}

fn fixture_with_slots(id: &str, slots_processing: i32, slots_total: i32) -> Fixture {
    let (agent_message_tx, agent_message_rx) = mpsc::unbounded_channel();
    let mut pool = AgentControllerPool::default();

    pool.register_agent_controller(
        id.to_owned(),
        AgentController {
            agent_message_tx,
            connection: 1,
            desired_slots_total: 1,
            download_current: 0,
            download_filename: None,
            download_indeterminate: true,
            download_total: 0,
            id: id.to_owned(),
            issues: AgentIssues::new(),
            model_path: None,
            name: None,
            newest_update_version: 0,
            slots_processing,
            slots_total,
            state_application_status_code: AgentStateApplicationStatus::Fresh as i32,
            tokens_per_second: TokensPerSecond::zero(),
            uses_chat_template_override: false,
        },
    )
    .unwrap();

    Fixture {
        agent_id: id.to_owned(),
        agent_message_rx: Some(agent_message_rx),
        agent_connection_close: CancellationToken::new(),
        pool,
        senders: SenderCollection::default(),
    }
}

fn agent_with_one_free_slot(id: &str) -> Fixture {
    fixture_with_slots(id, 0, 1)
}

fn raw_prompt_request() -> AgentJsonRpcRequest {
    AgentJsonRpcRequest::ContinueFromRawPrompt(ContinueFromRawPromptParams {
        grammar: None,
        max_tokens: 1,
        raw_prompt: "fixture prompt".to_owned(),
    })
}

impl Fixture {
    fn slots_processing(&self) -> i32 {
        self.pool
            .get_agent_controller(&self.agent_id)
            .unwrap()
            .slots_processing
    }

    fn claim_slot(&mut self) -> DispatchedAgent {
        self.pool.take_least_busy_agent_controller().unwrap()
    }

    fn forwarding(&mut self, request_id: &str) -> ResponseForwarding {
        ResponseForwarding {
            dispatched_agent: self.claim_slot(),
            forwarding_mode: AgentResponseForwardingMode::ForwardingToClient,
            inference_item_timeout_ms: ONE_HOUR_MS,
            request_id: request_id.to_owned(),
        }
    }

    fn next_message(&mut self) -> Option<AgentJsonRpcMessage> {
        self.agent_message_rx.as_mut().unwrap().try_recv().ok()
    }

    /// Waits for an agent and sends it the request.
    fn dispatch(
        &mut self,
        manager: &mut BufferedRequestManager,
        client: &mut Client,
        request_id: &str,
        connection_close: &CancellationToken,
        shutdown: &CancellationToken,
    ) -> Option<ResponseForwarding> {
        let event = match first_agent_wait_signal(
            shutdown.is_cancelled(),
            connection_close.is_cancelled(),
            true,
        ) {
            Some(AgentWaitSignal::Shutdown) => AgentWaitEvent::Shutdown,
            Some(AgentWaitSignal::ConnectionClosed) => AgentWaitEvent::ConnectionClosed,
            Some(AgentWaitSignal::WaitFinished) => match manager.begin_wait(&mut self.pool) {
                BufferedRequestStart::Found(dispatched) => AgentWaitEvent::WaitFinished(
                    BufferedRequestAgentWaitResult::Found(dispatched),
                ),
                BufferedRequestStart::BufferOverflow => {
                    AgentWaitEvent::WaitFinished(BufferedRequestAgentWaitResult::BufferOverflow)
                }
                BufferedRequestStart::Waiting(_) => panic!("a slot must be free"),
            },
            None => unreachable!(),
        };

        let dispatched_agent = match wait_for_agent_controller(event) {
            AgentWaitDecision::Dispatch(dispatched_agent) => dispatched_agent,
            AgentWaitDecision::RespondWithError(error) => {
                client.send(respond_with_error(error, request_id.to_owned()));

                return None;
            }
            AgentWaitDecision::Abandon => return None,
        };

        match request_from_agent(
            dispatched_agent,
            ONE_HOUR_MS,
            request_id.to_owned(),
            &mut self.senders,
            CHANNEL,
            raw_prompt_request(),
        ) {
            Ok(forwarding) => Some(forwarding),
            Err(failed) => {
                client.send(failed.give_up(request_id.to_owned(), &mut self.pool));

                None
            }
        }
    }

    /// Goes on until nothing happens any more; gives the request back if it is
    /// not over by then.
    fn drive(
        &mut self,
        mut forwarding: ResponseForwarding,
        client: &mut Client,
        signals: &mut Signals,
    ) -> Option<ResponseForwarding> {
        loop {
            let signal = forwarding.first_signal(
                signals.shutdown.is_cancelled(),
                self.agent_connection_close.is_cancelled(),
                signals.connection_close.is_cancelled(),
                signals.item_times_out,
                !signals.responses.is_empty(),
            );
            let event = match signal {
                Some(ForwardingSignal::Shutdown) => ForwardingEvent::Shutdown,
                Some(ForwardingSignal::AgentConnectionClosed) => {
                    ForwardingEvent::AgentConnectionClosed
                }
                Some(ForwardingSignal::ClientConnectionClosed) => {
                    ForwardingEvent::ClientConnectionClosed
                }
                Some(ForwardingSignal::ItemTimeout) => ForwardingEvent::ItemTimeout,
                Some(ForwardingSignal::ResponseReady) => response_event(
                    signals
                        .responses
                        .remove(0)
                        .map(AgentJsonRpcResponse::GeneratedToken),
                ),
                None => return Some(forwarding),
            };
            let request_id = forwarding.request_id.clone();
            let (message, follow_up) = forwarding
                .forward_responses_stream(event)
                .split(request_id);
            let accepted = match message {
                Some(message) => client.send(message),
                None => true,
            };

            match forwarding.carry_out(follow_up, accepted, &mut self.pool) {
                ForwardingStep::GoesOn(next) => forwarding = next,
                ForwardingStep::Ended(_) => return None,
            }
        }
    }
}

fn content_token() -> Option<GeneratedTokenResult> {
    Some(GeneratedTokenResult::ContentToken("token".to_owned()))
}

fn done() -> Option<GeneratedTokenResult> {
    Some(GeneratedTokenResult::Done("{}".to_owned()))
}

#[test]
fn request_from_agent_forwards_error_when_agent_connection_closes() {
    let mut fixture = agent_with_one_free_slot("agent-close");
    let mut manager = BufferedRequestManager::new(10);
    let mut client = Client::listening();
    let connection_close = CancellationToken::new();
    let shutdown = CancellationToken::new();

    fixture.agent_connection_close.cancel();

    let forwarding = fixture
        .dispatch(
            &mut manager,
            &mut client,
            "request-close",
            &connection_close,
            &shutdown,
        )
        .unwrap();
    let pending = fixture.drive(
        forwarding,
        &mut client,
        &mut Signals {
            connection_close: &connection_close,
            item_times_out: false,
            responses: Vec::new(),
            shutdown: &shutdown,
        },
    );

    assert!(pending.is_none());
    assert_eq!(client.only_error().code, 502);
    assert_eq!(
        client.only_error().description,
        "Agent controller connection closed"
    );
}

#[test]
fn cancelled_request_holds_the_slot_until_the_agent_terminates_the_response_stream() {
    let mut fixture = agent_with_one_free_slot("agent-cancel-confirm");
    let mut manager = BufferedRequestManager::new(10);
    let mut client = Client::listening();
    let connection_close = CancellationToken::new();
    let shutdown = CancellationToken::new();

    let forwarding = fixture
        .dispatch(
            &mut manager,
            &mut client,
            "request-cancel-confirm",
            &connection_close,
            &shutdown,
        )
        .unwrap();
    let mut signals = Signals {
        connection_close: &connection_close,
        item_times_out: false,
        responses: Vec::new(),
        shutdown: &shutdown,
    };
    let forwarding = fixture
        .drive(forwarding, &mut client, &mut signals)
        .unwrap();

    assert_eq!(
        fixture.slots_processing(),
        1,
        "dispatching the request must claim the slot"
    );
    assert!(matches!(
        fixture.next_message(),
        Some(AgentJsonRpcMessage::Request(_))
    ));

    connection_close.cancel();

    let forwarding = fixture
        .drive(forwarding, &mut client, &mut signals)
        .unwrap();

    assert!(matches!(
        fixture.next_message(),
        Some(AgentJsonRpcMessage::Notification(
            AgentJsonRpcNotification::StopRespondingTo(_)
        ))
    ));
    assert_eq!(
        fixture.slots_processing(),
        1,
        "the slot must stay claimed while the agent still holds it"
    );

    signals.responses.push(done());

    assert!(fixture
        .drive(forwarding, &mut client, &mut signals)
        .is_none());
    assert_eq!(
        fixture.slots_processing(),
        0,
        "the slot must be released once the agent confirms it is free"
    );
    assert!(client.told.is_empty());
}

#[test]
fn cancelled_request_releases_the_slot_when_the_agent_never_terminates_the_response_stream() {
    let mut fixture = agent_with_one_free_slot("agent-never-confirms");
    let mut client = Client::listening();
    let connection_close = CancellationToken::new();
    let shutdown = CancellationToken::new();
    let forwarding = fixture.forwarding("request-never-confirmed");

    connection_close.cancel();

    assert!(fixture
        .drive(
            forwarding,
            &mut client,
            &mut Signals {
                connection_close: &connection_close,
                item_times_out: true,
                responses: Vec::new(),
                shutdown: &shutdown,
            },
        )
        .is_none());
    assert_eq!(
        fixture.slots_processing(),
        0,
        "an agent that never confirms must not hold the slot past the inference item timeout"
    );
}

#[test]
fn forward_responses_stream_reports_error_when_the_agent_connection_closes_mid_forward() {
    let mut fixture = agent_with_one_free_slot("agent-mid-forward-close");
    let mut client = Client::listening();
    let connection_close = CancellationToken::new();
    let shutdown = CancellationToken::new();
    let forwarding = fixture.forwarding("request-mid-forward-close");

    fixture.agent_connection_close.cancel();

    assert!(fixture
        .drive(
            forwarding,
            &mut client,
            &mut Signals {
                connection_close: &connection_close,
                item_times_out: false,
                responses: Vec::new(),
                shutdown: &shutdown,
            },
        )
        .is_none());
    assert_eq!(
        client.only_error().code,
        502,
        "the client must be told the agent connection closed"
    );
    assert_eq!(
        fixture.slots_processing(),
        0,
        "the slot must be released once the agent connection closes mid-forward"
    );
}

#[test]
fn draining_cancelled_request_releases_the_slot_when_the_balancer_shuts_down() {
    let mut fixture = agent_with_one_free_slot("agent-drain-shutdown");
    let mut manager = BufferedRequestManager::new(10);
    let mut client = Client::listening();
    let connection_close = CancellationToken::new();
    let shutdown = CancellationToken::new();

    let forwarding = fixture
        .dispatch(
            &mut manager,
            &mut client,
            "request-drain-shutdown",
            &connection_close,
            &shutdown,
        )
        .unwrap();
    let mut signals = Signals {
        connection_close: &connection_close,
        item_times_out: false,
        responses: Vec::new(),
        shutdown: &shutdown,
    };

    connection_close.cancel();

    let forwarding = fixture
        .drive(forwarding, &mut client, &mut signals)
        .unwrap();

    shutdown.cancel();

    assert!(
        fixture
            .drive(forwarding, &mut client, &mut signals)
            .is_none(),
        "a shutting down balancer must abandon the drain instead of holding the slot"
    );
    assert_eq!(fixture.slots_processing(), 0);
    assert!(client.told.is_empty());
}

#[test]
fn draining_cancelled_request_releases_the_slot_when_the_response_channel_closes() {
    let mut fixture = agent_with_one_free_slot("agent-drain-channel-closed");
    let mut manager = BufferedRequestManager::new(10);
    let mut client = Client::listening();
    let connection_close = CancellationToken::new();
    let shutdown = CancellationToken::new();

    let forwarding = fixture
        .dispatch(
            &mut manager,
            &mut client,
            "request-drain-channel-closed",
            &connection_close,
            &shutdown,
        )
        .unwrap();
    let mut signals = Signals {
        connection_close: &connection_close,
        item_times_out: false,
        responses: Vec::new(),
        shutdown: &shutdown,
    };

    connection_close.cancel();

    let forwarding = fixture
        .drive(forwarding, &mut client, &mut signals)
        .unwrap();

    fixture
        .senders
        .deregister_sender("request-drain-channel-closed");
    signals.responses.push(None);

    assert!(
        fixture
            .drive(forwarding, &mut client, &mut signals)
            .is_none(),
        "a drained request whose response channel closed can never be confirmed"
    );
    assert_eq!(fixture.slots_processing(), 0);
}

#[test]
fn request_abandoned_by_the_client_releases_the_slot_when_the_agent_is_unreachable() {
    let mut fixture = agent_with_one_free_slot("agent-send-fail-unreachable");
    let mut client = Client::gone();
    let connection_close = CancellationToken::new();
    let shutdown = CancellationToken::new();
    let forwarding = fixture.forwarding("request-send-fail-unreachable");

    drop(fixture.agent_message_rx.take());

    assert!(fixture
        .drive(
            forwarding,
            &mut client,
            &mut Signals {
                connection_close: &connection_close,
                item_times_out: false,
                responses: vec![content_token()],
                shutdown: &shutdown,
            },
        )
        .is_none());
    assert_eq!(
        fixture.slots_processing(),
        0,
        "an unreachable agent can never confirm, so the slot must not be held"
    );
}

#[test]
fn request_from_agent_responds_with_error_when_streaming_setup_fails() {
    let mut fixture = agent_with_one_free_slot("agent-setup-fail");
    let mut manager = BufferedRequestManager::new(10);
    let mut client = Client::listening();

    drop(fixture.agent_message_rx.take());

    assert!(fixture
        .dispatch(
            &mut manager,
            &mut client,
            "request-setup-fail",
            &CancellationToken::new(),
            &CancellationToken::new(),
        )
        .is_none());
    assert_eq!(client.only_error().code, 500);
    assert_eq!(
        client.only_error().description,
        "Failed to generate response"
    );
    assert_eq!(fixture.slots_processing(), 0);
    assert_eq!(fixture.senders.sender_for("request-setup-fail"), None);
}

#[test]
fn forward_responses_stream_stops_responding_when_client_send_fails() {
    let mut fixture = agent_with_one_free_slot("agent-send-fail");
    let mut client = Client::gone();
    let connection_close = CancellationToken::new();
    let shutdown = CancellationToken::new();
    let forwarding = fixture.forwarding("request-send-fail");

    assert!(fixture
        .drive(
            forwarding,
            &mut client,
            &mut Signals {
                connection_close: &connection_close,
                item_times_out: false,
                responses: vec![content_token(), done()],
                shutdown: &shutdown,
            },
        )
        .is_none());

    let stop_message = fixture.next_message().unwrap();

    assert_eq!(
        discriminant(&stop_message),
        discriminant(&AgentJsonRpcMessage::Notification(
            AgentJsonRpcNotification::StopRespondingTo(String::new())
        ))
    );
    assert_eq!(
        fixture.slots_processing(),
        0,
        "the slot must be released once the agent terminates the drained request"
    );
}

#[test]
fn request_from_agent_responds_with_error_on_shutdown_while_waiting() {
    let mut fixture = fixture_with_slots("agent-busy", 1, 1);
    let mut manager = BufferedRequestManager::new(10);
    let mut client = Client::listening();
    let shutdown = CancellationToken::new();

    shutdown.cancel();

    assert!(fixture
        .dispatch(
            &mut manager,
            &mut client,
            "request-shutdown",
            &CancellationToken::new(),
            &shutdown,
        )
        .is_none());
    assert_eq!(client.only_error().code, 503);
    assert_eq!(client.only_error().description, "balancer is shutting down");
}

#[test]
fn request_from_agent_reports_shutdown_when_the_client_disconnects_simultaneously() {
    let mut fixture = fixture_with_slots("agent-busy", 1, 1);
    let mut manager = BufferedRequestManager::new(10);
    let mut client = Client::listening();
    let connection_close = CancellationToken::new();
    let shutdown = CancellationToken::new();

    connection_close.cancel();
    shutdown.cancel();

    assert!(fixture
        .dispatch(
            &mut manager,
            &mut client,
            "request-simultaneous-shutdown",
            &connection_close,
            &shutdown,
        )
        .is_none());
    assert_eq!(
        client.only_error().code,
        503,
        "a shutdown racing the client disconnect must still report the shutdown error"
    );
}

#[test]
fn request_from_agent_responds_with_error_on_buffer_overflow() {
    let mut fixture = fixture_with_slots("agent-overflow", 1, 1);
    let mut manager = BufferedRequestManager::new(0);
    let mut client = Client::listening();

    assert!(fixture
        .dispatch(
            &mut manager,
            &mut client,
            "request-overflow",
            &CancellationToken::new(),
            &CancellationToken::new(),
        )
        .is_none());
    assert_eq!(client.only_error().code, 503);
    assert_eq!(client.only_error().description, "Buffered requests overflow");
}

#[test]
fn request_from_agent_stops_waiting_when_connection_closes() {
    let mut fixture = fixture_with_slots("agent-busy", 1, 1);
    let mut manager = BufferedRequestManager::new(10);
    let mut client = Client::listening();
    let connection_close = CancellationToken::new();

    connection_close.cancel();

    assert!(fixture
        .dispatch(
            &mut manager,
            &mut client,
            "request-connection-close",
            &connection_close,
            &CancellationToken::new(),
        )
        .is_none());
    assert!(client.told.is_empty());
}

#[test]
fn forward_responses_stream_stops_agent_when_client_connection_closes() {
    let mut fixture = agent_with_one_free_slot("agent-client-close");
    let mut client = Client::listening();
    let connection_close = CancellationToken::new();
    let shutdown = CancellationToken::new();
    let forwarding = fixture.forwarding("request-client-close");

    drop(fixture.agent_message_rx.take());
    connection_close.cancel();

    assert!(fixture
        .drive(
            forwarding,
            &mut client,
            &mut Signals {
                connection_close: &connection_close,
                item_times_out: false,
                responses: Vec::new(),
                shutdown: &shutdown,
            },
        )
        .is_none());
    assert!(client.told.is_empty());
}

#[test]
fn forward_responses_stream_reports_shutdown_when_the_client_disconnects_simultaneously() {
    let mut fixture = agent_with_one_free_slot("agent-simultaneous-stream-shutdown");
    let mut client = Client::listening();
    let connection_close = CancellationToken::new();
    let shutdown = CancellationToken::new();
    let forwarding = fixture.forwarding("request-stream-simultaneous-0");

    drop(fixture.agent_message_rx.take());
    connection_close.cancel();
    shutdown.cancel();

    assert!(fixture
        .drive(
            forwarding,
            &mut client,
            &mut Signals {
                connection_close: &connection_close,
                item_times_out: false,
                responses: Vec::new(),
                shutdown: &shutdown,
            },
        )
        .is_none());
    assert_eq!(
        client.only_error().code,
        503,
        "a shutdown racing the client disconnect must still report the shutdown error"
    );
}

#[test]
fn forward_responses_stream_responds_with_error_on_shutdown() {
    let mut fixture = agent_with_one_free_slot("agent-shutdown");
    let mut client = Client::listening();
    let connection_close = CancellationToken::new();
    let shutdown = CancellationToken::new();
    let forwarding = fixture.forwarding("request-stream-shutdown");

    drop(fixture.agent_message_rx.take());
    shutdown.cancel();

    assert!(fixture
        .drive(
            forwarding,
            &mut client,
            &mut Signals {
                connection_close: &connection_close,
                item_times_out: false,
                responses: Vec::new(),
                shutdown: &shutdown,
            },
        )
        .is_none());
    assert_eq!(client.only_error().code, 503);
}

#[test]
fn respond_with_error_logs_when_client_send_fails() {
    let mut client = Client::gone();

    let sent = client.send(respond_with_error(
        JsonRpcError {
            code: 500,
            description: "send fails".to_owned(),
        },
        "request-send-error".to_owned(),
    ));

    assert!(!sent);
}

#[test]
fn send_response_to_client_returns_false_when_the_client_send_fails() {
    let mut client = Client::gone();

    let send_succeeded = client.send(send_response_to_client(
        None,
        AgentJsonRpcResponse::GeneratedToken(GeneratedTokenResult::ContentToken(
            "token".to_owned(),
        )),
        "request-send-fails".to_owned(),
    ));

    assert!(!send_succeeded);
}

#[test]
fn a_slow_agent_is_stopped_and_the_client_told_how_long_it_took() {
    let mut fixture = agent_with_one_free_slot("agent-slow");
    let mut client = Client::listening();
    let connection_close = CancellationToken::new();
    let shutdown = CancellationToken::new();
    let mut forwarding = fixture.forwarding("request-slow");

    forwarding.inference_item_timeout_ms = 30_000;

    assert!(fixture
        .drive(
            forwarding,
            &mut client,
            &mut Signals {
                connection_close: &connection_close,
                item_times_out: true,
                responses: Vec::new(),
                shutdown: &shutdown,
            },
        )
        .is_none());
    assert_eq!(client.only_error().code, 504);
    assert_eq!(
        client.only_error().description,
        "Inference timed out after 30000ms waiting for next token. \
         Increase --inference-item-timeout if the prompt requires longer processing."
    );
    assert_eq!(
        fixture.next_message(),
        Some(AgentJsonRpcMessage::Notification(
            AgentJsonRpcNotification::StopRespondingTo("request-slow".to_owned())
        ))
    );
    assert_eq!(fixture.slots_processing(), 0);
}

#[test]
fn responses_reach_the_client_until_the_last_one() {
    let mut fixture = agent_with_one_free_slot("agent-forward");
    let mut client = Client::listening();
    let connection_close = CancellationToken::new();
    let shutdown = CancellationToken::new();
    let forwarding = fixture.forwarding("request-forward");

    assert!(fixture
        .drive(
            forwarding,
            &mut client,
            &mut Signals {
                connection_close: &connection_close,
                item_times_out: false,
                responses: vec![content_token(), content_token(), done(), content_token()],
                shutdown: &shutdown,
            },
        )
        .is_none());
    assert_eq!(client.told.len(), 3);
    assert!(matches!(
        &client.told[0],
        OutgoingMessage::Response(envelope)
            if envelope.request_id == "request-forward" && envelope.generated_by.is_none()
    ));
    assert!(matches!(
        &client.told[2],
        OutgoingMessage::Response(envelope)
            if envelope.response
                == AgentJsonRpcResponse::GeneratedToken(GeneratedTokenResult::Done("{}".to_owned()))
    ));
    assert_eq!(fixture.slots_processing(), 0);
    assert!(fixture.next_message().is_none());
}

#[test]
fn a_response_channel_that_closes_early_is_an_error() {
    let mut fixture = agent_with_one_free_slot("agent-cut");
    let mut client = Client::listening();
    let connection_close = CancellationToken::new();
    let shutdown = CancellationToken::new();
    let forwarding = fixture.forwarding("request-cut");

    assert!(fixture
        .drive(
            forwarding,
            &mut client,
            &mut Signals {
                connection_close: &connection_close,
                item_times_out: false,
                responses: vec![None],
                shutdown: &shutdown,
            },
        )
        .is_none());
    assert_eq!(client.only_error().code, 502);
    assert_eq!(
        client.only_error().description,
        "Response channel closed before terminator"
    );
}

#[test]
fn a_wait_that_fails_or_takes_too_long_is_an_error() {
    assert!(matches!(
        wait_for_agent_controller(AgentWaitEvent::WaitFailed),
        AgentWaitDecision::RespondWithError(error)
            if error.code == 500 && error.description == "Internal server error"
    ));
    assert!(matches!(
        wait_for_agent_controller(AgentWaitEvent::WaitFinished(
            BufferedRequestAgentWaitResult::Timeout
        )),
        AgentWaitDecision::RespondWithError(error)
            if error.code == 504 && error.description == "Waiting for available slot timed out"
    ));
    assert_eq!(first_agent_wait_signal(false, false, false), None);
}

#[test]
fn the_last_response_is_recognised() {
    assert!(is_done(&AgentJsonRpcResponse::GeneratedToken(
        GeneratedTokenResult::Done("{}".to_owned())
    )));
    assert!(is_done(&AgentJsonRpcResponse::Embedding(
        EmbeddingResult::Done
    )));

    for response in [
        AgentJsonRpcResponse::GeneratedToken(GeneratedTokenResult::ContentToken("a".to_owned())),
        AgentJsonRpcResponse::Embedding(EmbeddingResult::Other("{}".to_owned())),
        AgentJsonRpcResponse::ChatTemplateOverride(None),
    ] {
        assert!(!is_done(&response));
    }

    assert!(matches!(
        response_event(Some(AgentJsonRpcResponse::Embedding(EmbeddingResult::Done))),
        ForwardingEvent::Response(AgentJsonRpcResponse::Embedding(EmbeddingResult::Done), true)
    ));
    assert!(matches!(
        response_event(None),
        ForwardingEvent::ResponseChannelClosed
    ));
}

#[test]
fn responses_are_awaited_where_they_are_handed_out() {
    assert_eq!(
        collection_of(&raw_prompt_request()),
        ResponseCollection::GenerateTokens
    );
    assert_eq!(
        collection_of(&AgentJsonRpcRequest::GetChatTemplateOverride),
        ResponseCollection::ChatTemplateOverride
    );
    assert_eq!(
        collection_of(&AgentJsonRpcRequest::GetModelMetadata),
        ResponseCollection::ModelMetadata
    );
}

#[test]
fn a_slot_is_given_back_when_its_request_ends() {
    let mut fixture = agent_with_one_free_slot("agent-slot");
    let forwarding = fixture.forwarding("request-slot");

    assert_eq!(fixture.slots_processing(), 1);

    let ForwardingStep::GoesOn(forwarding) =
        forwarding.carry_out(FollowUp::AfterSend(false), true, &mut fixture.pool)
    else {
        panic!("the request must go on");
    };

    assert_eq!(fixture.slots_processing(), 1);
    assert!(fixture.next_message().is_none());

    let ForwardingStep::GoesOn(forwarding) =
        forwarding.carry_out(FollowUp::AfterSend(false), false, &mut fixture.pool)
    else {
        panic!("the request must go on");
    };

    assert!(matches!(
        forwarding.forwarding_mode,
        AgentResponseForwardingMode::DrainingUntilAgentConfirms
    ));
    assert_eq!(fixture.slots_processing(), 1);
    assert!(matches!(
        fixture.next_message(),
        Some(AgentJsonRpcMessage::Notification(
            AgentJsonRpcNotification::StopRespondingTo(request_id)
        )) if request_id == "request-slot"
    ));
    assert!(matches!(
        forwarding.carry_out(FollowUp::Finish, true, &mut fixture.pool),
        ForwardingStep::Ended(_)
    ));
    assert_eq!(fixture.slots_processing(), 0);

    let forwarding = fixture.forwarding("request-last");

    assert!(matches!(
        forwarding.carry_out(FollowUp::AfterSend(true), false, &mut fixture.pool),
        ForwardingStep::Ended(_)
    ));
    assert!(fixture.next_message().is_none());
    assert_eq!(fixture.slots_processing(), 0);

    let forwarding = fixture.forwarding("request-stop");

    assert!(matches!(
        forwarding.carry_out(FollowUp::StopAndFinish, true, &mut fixture.pool),
        ForwardingStep::Ended(_)
    ));
    assert!(fixture.next_message().is_some());
    assert_eq!(fixture.slots_processing(), 0);

    let forwarding = fixture.forwarding("request-unreachable");

    fixture.agent_message_rx = None;

    assert!(matches!(
        forwarding.carry_out(FollowUp::Stop, true, &mut fixture.pool),
        ForwardingStep::Ended(_)
    ));
    assert_eq!(fixture.slots_processing(), 0);
}
