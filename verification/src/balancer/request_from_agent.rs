//! How a request travels to an agent, and how the responses travel back.
use tokio::sync::mpsc;
use vstd::prelude::*;

use crate::balancer::agent_controller::AgentRequestError;
use crate::balancer::agent_controller::request_message;
use crate::balancer::agent_controller::send_streaming_message;
use crate::balancer::agent_controller::streaming_request_leaves;
use crate::balancer::agent_controller_pool::AgentControllerPool;
use crate::balancer::agent_controller_pool::AgentControllerPoolView;
use crate::balancer::agent_controller_pool::DispatchedAgent;
use crate::balancer::buffered_request_manager::BufferedRequestAgentWaitResult;
use crate::balancer::sender_collection::SenderCollection;
use crate::balancer::ws_agent_socket;
use crate::balancer::ws_agent_socket::ResponseCollection;
use crate::messaging::messages::AgentJsonRpcMessage;
use crate::messaging::messages::AgentJsonRpcNotification;
use crate::messaging::messages::AgentJsonRpcRequest;
use crate::messaging::messages::AgentJsonRpcResponse;
use crate::messaging::messages::EmbeddingResult;
use crate::messaging::messages::ErrorEnvelope;
use crate::messaging::messages::GeneratedTokenResult;
use crate::messaging::messages::JsonRpcError;
use crate::messaging::messages::RequestEnvelope;
use crate::messaging::messages::ResponseEnvelope;
use crate::outside::messages_to_agent;
use crate::outside::queue_fed_by;
use crate::outside::send_to_agent;
use crate::text::clone_text;
use crate::text::decimal;
use crate::text::push_decimal;
use crate::text::written_numbers_can_be_read;

verus! {

/// A message to the client that made a request.
#[derive(Debug)]
pub enum OutgoingMessage {
    Error(ErrorEnvelope),
    Response(ResponseEnvelope),
}

/// Whether the agent could be told that nobody waits for its responses any more.
#[derive(Clone, Copy, Debug, PartialEq, Eq, Structural)]
pub enum AgentStopOutcome {
    AgentUnreachable,
    StopRequested,
}

/// What is done with the responses of the agent.
#[derive(Clone, Copy, Debug, PartialEq, Eq, Structural)]
pub enum AgentResponseForwardingMode {
    ForwardingToClient,
    /// The agent was asked to stop. Its slot stays busy until it confirms that it did.
    DrainingUntilAgentConfirms,
}

/// An error with the given code and description.
pub open spec fn is_error(error: JsonRpcError, code: i32, description: Seq<char>) -> bool {
    error.code == code && error.description@ == description
}

/// What a client is told when the next response takes too long.
pub open spec fn timeout_description(timeout_ms: u128) -> Seq<char> {
    "Inference timed out after "@ + decimal(timeout_ms as nat)
        + "ms waiting for next token. Increase --inference-item-timeout if the prompt requires longer processing."@
}

fn json_rpc_error(code: i32, description: &str) -> (error: JsonRpcError)
    ensures
        is_error(error, code, description@),
{
    JsonRpcError { code, description: String::from_str(description) }
}

/// What happens while a request waits for an agent.
#[derive(Debug)]
pub enum AgentWaitEvent {
    Shutdown,
    ConnectionClosed,
    WaitFinished(BufferedRequestAgentWaitResult),
    WaitFailed,
}

/// What becomes of a request that waited for an agent.
#[derive(Debug)]
pub enum AgentWaitDecision {
    /// Send the request to this agent.
    Dispatch(DispatchedAgent),
    /// Tell the client that the request failed.
    RespondWithError(JsonRpcError),
    /// Drop the request without a word.
    Abandon,
}

/// Which of several things that happened at once counts while a request waits
/// for an agent. A shutdown counts before the end of the connection, and that
/// before the end of the wait.
#[derive(Clone, Copy, Debug, PartialEq, Eq, Structural)]
pub enum AgentWaitSignal {
    Shutdown,
    ConnectionClosed,
    WaitFinished,
}

/// The signal that counts, if there is one.
pub fn first_agent_wait_signal(
    shutdown: bool,
    connection_closed: bool,
    wait_finished: bool,
) -> (signal: Option<AgentWaitSignal>)
    ensures
        signal == if shutdown {
            Some(AgentWaitSignal::Shutdown)
        } else if connection_closed {
            Some(AgentWaitSignal::ConnectionClosed)
        } else if wait_finished {
            Some(AgentWaitSignal::WaitFinished)
        } else {
            None
        },
{
    if shutdown {
        Some(AgentWaitSignal::Shutdown)
    } else if connection_closed {
        Some(AgentWaitSignal::ConnectionClosed)
    } else if wait_finished {
        Some(AgentWaitSignal::WaitFinished)
    } else {
        None
    }
}

/// Decides what becomes of a request that waited for an agent.
pub fn wait_for_agent_controller(event: AgentWaitEvent) -> (decision: AgentWaitDecision)
    ensures
        match event {
            AgentWaitEvent::Shutdown => decision matches AgentWaitDecision::RespondWithError(error)
                && is_error(error, 503, "balancer is shutting down"@),
            AgentWaitEvent::ConnectionClosed => decision is Abandon,
            AgentWaitEvent::WaitFinished(
                BufferedRequestAgentWaitResult::Found(dispatched),
            ) => decision == AgentWaitDecision::Dispatch(dispatched),
            AgentWaitEvent::WaitFinished(
                BufferedRequestAgentWaitResult::BufferOverflow,
            ) => decision matches AgentWaitDecision::RespondWithError(error) && is_error(
                error,
                503,
                "Buffered requests overflow"@,
            ),
            AgentWaitEvent::WaitFinished(
                BufferedRequestAgentWaitResult::Timeout,
            ) => decision matches AgentWaitDecision::RespondWithError(error) && is_error(
                error,
                504,
                "Waiting for available slot timed out"@,
            ),
            AgentWaitEvent::WaitFailed => decision matches AgentWaitDecision::RespondWithError(
                error,
            ) && is_error(error, 500, "Internal server error"@),
        },
{
    match event {
        AgentWaitEvent::Shutdown => AgentWaitDecision::RespondWithError(
            json_rpc_error(503, "balancer is shutting down"),
        ),
        AgentWaitEvent::ConnectionClosed => AgentWaitDecision::Abandon,
        AgentWaitEvent::WaitFinished(
            BufferedRequestAgentWaitResult::Found(dispatched),
        ) => AgentWaitDecision::Dispatch(dispatched),
        AgentWaitEvent::WaitFinished(
            BufferedRequestAgentWaitResult::BufferOverflow,
        ) => AgentWaitDecision::RespondWithError(json_rpc_error(503, "Buffered requests overflow")),
        AgentWaitEvent::WaitFinished(
            BufferedRequestAgentWaitResult::Timeout,
        ) => AgentWaitDecision::RespondWithError(
            json_rpc_error(504, "Waiting for available slot timed out"),
        ),
        AgentWaitEvent::WaitFailed => AgentWaitDecision::RespondWithError(
            json_rpc_error(500, "Internal server error"),
        ),
    }
}

/// What happens while the responses to a request are awaited.
#[derive(Debug)]
pub enum ForwardingEvent {
    Shutdown,
    AgentConnectionClosed,
    ClientConnectionClosed,
    /// No response came for as long as one may take.
    ItemTimeout,
    /// A response came; `true` if it is the last one.
    Response(AgentJsonRpcResponse, bool),
    ResponseChannelClosed,
}

/// Whether a response is the last one to its request.
pub open spec fn is_last(response: AgentJsonRpcResponse) -> bool {
    ||| response == AgentJsonRpcResponse::Embedding(EmbeddingResult::Done)
    ||| response matches AgentJsonRpcResponse::GeneratedToken(GeneratedTokenResult::Done(_))
}

/// Whether a response is the last one to its request.
pub fn is_done(response: &AgentJsonRpcResponse) -> (done: bool)
    ensures
        done == is_last(*response),
{
    match response {
        AgentJsonRpcResponse::Embedding(EmbeddingResult::Done) => true,
        AgentJsonRpcResponse::GeneratedToken(GeneratedTokenResult::Done(_)) => true,
        _ => false,
    }
}

/// What it means that a response came, or that none can come any more.
pub fn response_event(response: Option<AgentJsonRpcResponse>) -> (event: ForwardingEvent)
    ensures
        event == match response {
            Some(response) => ForwardingEvent::Response(response, is_last(response)),
            None => ForwardingEvent::ResponseChannelClosed,
        },
{
    match response {
        Some(response) => {
            let done = is_done(&response);
            ForwardingEvent::Response(response, done)
        },
        None => ForwardingEvent::ResponseChannelClosed,
    }
}

/// Where the responses to this request are awaited.
pub open spec fn awaited_in(request: AgentJsonRpcRequest) -> ResponseCollection {
    match request {
        AgentJsonRpcRequest::ContinueFromConversationHistory(_) =>
            ResponseCollection::GenerateTokens,
        AgentJsonRpcRequest::ContinueFromRawPrompt(_) => ResponseCollection::GenerateTokens,
        AgentJsonRpcRequest::GenerateEmbeddingBatch(_) => ResponseCollection::Embedding,
        AgentJsonRpcRequest::GetChatTemplateOverride => ResponseCollection::ChatTemplateOverride,
        AgentJsonRpcRequest::GetModelMetadata => ResponseCollection::ModelMetadata,
    }
}

/// Where the responses to this request are awaited.
pub fn collection_of(request: &AgentJsonRpcRequest) -> (collection: ResponseCollection)
    ensures
        collection == awaited_in(*request),
{
    match request {
        AgentJsonRpcRequest::ContinueFromConversationHistory(
            _,
        ) => ResponseCollection::GenerateTokens,
        AgentJsonRpcRequest::ContinueFromRawPrompt(_) => ResponseCollection::GenerateTokens,
        AgentJsonRpcRequest::GenerateEmbeddingBatch(_) => ResponseCollection::Embedding,
        AgentJsonRpcRequest::GetChatTemplateOverride => ResponseCollection::ChatTemplateOverride,
        AgentJsonRpcRequest::GetModelMetadata => ResponseCollection::ModelMetadata,
    }
}

/// What to do about an event.
#[derive(Debug)]
pub enum ForwardingAction {
    /// Wait for the next event.
    Wait,
    /// Give the slot back.
    Finish,
    /// Tell the client of the error, and give the slot back.
    FinishWithError(JsonRpcError),
    /// Tell the client of the error, ask the agent to stop, and give the slot back.
    StopAndFinishWithError(JsonRpcError),
    /// Ask the agent to stop, as [`ResponseForwarding::request_stop`] does.
    Stop,
    /// Tell the client of the error, and ask the agent to stop.
    StopWithError(JsonRpcError),
    /// Send the message to the client, and go on with
    /// [`ResponseForwarding::after_client_send`]; `true` if it is the last one.
    SendToClient(OutgoingMessage, bool),
}

/// What is left of an action once the client was told what it is to be told.
#[derive(Clone, Copy, Debug, PartialEq, Eq, Structural)]
pub enum FollowUp {
    Wait,
    Finish,
    StopAndFinish,
    Stop,
    /// Go on with [`ResponseForwarding::after_client_send`]; `true` if the message
    /// was the last one.
    AfterSend(bool),
}

impl FollowUp {
    /// Whether the agent is asked to stop.
    pub open spec fn asks_to_stop(self, client_accepts: bool) -> bool {
        match self {
            FollowUp::Wait => false,
            FollowUp::Finish => false,
            FollowUp::StopAndFinish => true,
            FollowUp::Stop => true,
            FollowUp::AfterSend(is_done) => !is_done && !client_accepts,
        }
    }

    /// Whether the request ends.
    pub open spec fn ends(self, client_accepts: bool, agent_reachable: bool) -> bool {
        match self {
            FollowUp::Wait => false,
            FollowUp::Finish => true,
            FollowUp::StopAndFinish => true,
            FollowUp::Stop => !agent_reachable,
            FollowUp::AfterSend(is_done) => is_done || (!client_accepts && !agent_reachable),
        }
    }
}

/// What is left of `action` once the client was told what it is to be told.
pub open spec fn follow_up_of(action: ForwardingAction) -> FollowUp {
    match action {
        ForwardingAction::Wait => FollowUp::Wait,
        ForwardingAction::Finish => FollowUp::Finish,
        ForwardingAction::FinishWithError(_) => FollowUp::Finish,
        ForwardingAction::StopAndFinishWithError(_) => FollowUp::StopAndFinish,
        ForwardingAction::Stop => FollowUp::Stop,
        ForwardingAction::StopWithError(_) => FollowUp::Stop,
        ForwardingAction::SendToClient(_, is_done) => FollowUp::AfterSend(is_done),
    }
}

/// What the client of the request is to be told by `action`.
pub open spec fn message_of(action: ForwardingAction, request_id: String) -> Option<
    OutgoingMessage,
> {
    match action {
        ForwardingAction::FinishWithError(error) => Some(
            OutgoingMessage::Error(ErrorEnvelope { error, request_id }),
        ),
        ForwardingAction::StopAndFinishWithError(error) => Some(
            OutgoingMessage::Error(ErrorEnvelope { error, request_id }),
        ),
        ForwardingAction::StopWithError(error) => Some(
            OutgoingMessage::Error(ErrorEnvelope { error, request_id }),
        ),
        ForwardingAction::SendToClient(message, _) => Some(message),
        _ => None,
    }
}

impl ForwardingAction {
    /// What the client of the request is to be told, and what is left to do then.
    pub fn split(self, request_id: String) -> (parts: (Option<OutgoingMessage>, FollowUp))
        ensures
            parts.0 == message_of(self, request_id),
            parts.1 == follow_up_of(self),
    {
        match self {
            ForwardingAction::Wait => (None, FollowUp::Wait),
            ForwardingAction::Finish => (None, FollowUp::Finish),
            ForwardingAction::FinishWithError(error) => (
                Some(respond_with_error(error, request_id)),
                FollowUp::Finish,
            ),
            ForwardingAction::StopAndFinishWithError(error) => (
                Some(respond_with_error(error, request_id)),
                FollowUp::StopAndFinish,
            ),
            ForwardingAction::Stop => (None, FollowUp::Stop),
            ForwardingAction::StopWithError(error) => (
                Some(respond_with_error(error, request_id)),
                FollowUp::Stop,
            ),
            ForwardingAction::SendToClient(message, is_done) => (
                Some(message),
                FollowUp::AfterSend(is_done),
            ),
        }
    }
}

/// What to do after a message to the client.
#[derive(Clone, Copy, Debug, PartialEq, Eq, Structural)]
pub enum AfterClientSend {
    Wait,
    Finish,
    Stop,
}

/// Which of several things that happened at once counts.
#[derive(Clone, Copy, Debug, PartialEq, Eq, Structural)]
pub enum ForwardingSignal {
    Shutdown,
    AgentConnectionClosed,
    ClientConnectionClosed,
    ItemTimeout,
    ResponseReady,
}

/// A request that an agent works on.
#[derive(Debug)]
pub struct ResponseForwarding {
    pub dispatched_agent: DispatchedAgent,
    pub forwarding_mode: AgentResponseForwardingMode,
    pub inference_item_timeout_ms: u128,
    pub request_id: String,
}

/// Where a request stands after something was done about it.
#[derive(Debug)]
pub enum ForwardingStep {
    GoesOn(ResponseForwarding),
    /// The request ended, and its slot was given back. What is left is its queue to
    /// the agent.
    Ended(mpsc::UnboundedSender<AgentJsonRpcMessage>),
}

/// A request that could not be sent to its agent. The client is told of the
/// error, and the slot is given back.
#[derive(Debug)]
pub struct FailedDispatch {
    pub dispatched_agent: DispatchedAgent,
    pub error: JsonRpcError,
}

impl FailedDispatch {
    /// Gives the slot back; what the client is to be told is returned.
    pub fn give_up(self, request_id: String, pool: &mut AgentControllerPool) -> (message:
        OutgoingMessage)
        requires
            old(pool).wf(),
        ensures
            final(pool).wf(),
            final(pool)@ == old(pool)@.after_release(self.dispatched_agent.registration as int),
            message == OutgoingMessage::Error((ErrorEnvelope { error: self.error, request_id })),
    {
        pool.release(self.dispatched_agent);
        respond_with_error(self.error, request_id)
    }
}

/// Sends the request to the agent. Its responses are awaited on `channel`.
pub fn request_from_agent(
    dispatched_agent: DispatchedAgent,
    inference_item_timeout_ms: u128,
    request_id: String,
    senders: &mut SenderCollection,
    channel: usize,
    request: AgentJsonRpcRequest,
) -> (result: Result<ResponseForwarding, FailedDispatch>)
    ensures
        match result {
            Ok(forwarding) => {
                &&& streaming_request_leaves(
                    messages_to_agent(dispatched_agent.agent_message_tx),
                    messages_to_agent(forwarding.dispatched_agent.agent_message_tx),
                    old(senders)@,
                    final(senders)@,
                    channel,
                    request_id@,
                    request_message(request_id, request),
                    Ok(()),
                )
                &&& same_agent(forwarding.dispatched_agent, dispatched_agent)
                &&& forwarding.forwarding_mode is ForwardingToClient
                &&& forwarding.inference_item_timeout_ms == inference_item_timeout_ms
                &&& forwarding.request_id == request_id
            },
            Err(failed) => {
                &&& exists|reason: AgentRequestError| #[trigger]
                    streaming_request_leaves(
                        messages_to_agent(dispatched_agent.agent_message_tx),
                        messages_to_agent(failed.dispatched_agent.agent_message_tx),
                        old(senders)@,
                        final(senders)@,
                        channel,
                        request_id@,
                        request_message(request_id, request),
                        Err(reason),
                    )
                &&& same_agent(failed.dispatched_agent, dispatched_agent)
                &&& is_error(failed.error, 500, "Failed to generate response"@)
            },
        },
{
    let ghost entry_agent = dispatched_agent;
    let mut dispatched_agent = dispatched_agent;
    match send_streaming_message(
        &mut dispatched_agent.agent_message_tx,
        request_id.clone(),
        senders,
        channel,
        AgentJsonRpcMessage::Request(RequestEnvelope { id: request_id.clone(), request }),
    ) {
        Ok(()) => Ok(
            ResponseForwarding {
                dispatched_agent,
                forwarding_mode: AgentResponseForwardingMode::ForwardingToClient,
                inference_item_timeout_ms,
                request_id,
            },
        ),
        Err(reason) => {
            assert(streaming_request_leaves(
                messages_to_agent(entry_agent.agent_message_tx),
                messages_to_agent(dispatched_agent.agent_message_tx),
                old(senders)@,
                senders@,
                channel,
                request_id@,
                request_message(request_id, request),
                Err(reason),
            ));
            Err(
                FailedDispatch {
                    dispatched_agent,
                    error: json_rpc_error(500, "Failed to generate response"),
                },
            )
        },
    }
}

/// Whether the two are the same claim, with a queue to the same agent.
pub open spec fn same_agent(left: DispatchedAgent, right: DispatchedAgent) -> bool {
    &&& left.agent_id == right.agent_id
    &&& left.connection == right.connection
    &&& left.name == right.name
    &&& left.registration == right.registration
    &&& queue_fed_by(left.agent_message_tx) == queue_fed_by(right.agent_message_tx)
}

/// The request that the agent stop.
pub open spec fn stop_message(request_id: String) -> AgentJsonRpcMessage {
    AgentJsonRpcMessage::Notification(AgentJsonRpcNotification::StopRespondingTo(request_id))
}

/// Whether what was left to do about a request was done: its agent was asked to
/// stop if it is to be, and its slot was given back if it ended, and only then.
pub open spec fn carried_out(
    before: ResponseForwarding,
    follow_up: FollowUp,
    client_accepts: bool,
    agent_reachable: bool,
    pool_before: AgentControllerPoolView,
    pool_after: AgentControllerPoolView,
    step: ForwardingStep,
) -> bool {
    let queued = messages_to_agent(before.dispatched_agent.agent_message_tx);
    let left = if follow_up.asks_to_stop(client_accepts) {
        queued.push((stop_message(before.request_id), agent_reachable))
    } else {
        queued
    };
    match step {
        ForwardingStep::GoesOn(next) => {
            &&& !follow_up.ends(client_accepts, agent_reachable)
            &&& pool_after == pool_before
            &&& same_agent(next.dispatched_agent, before.dispatched_agent)
            &&& messages_to_agent(next.dispatched_agent.agent_message_tx) == left
            &&& next.inference_item_timeout_ms == before.inference_item_timeout_ms
            &&& next.request_id == before.request_id
            &&& next.forwarding_mode == if follow_up.asks_to_stop(client_accepts) {
                AgentResponseForwardingMode::DrainingUntilAgentConfirms
            } else {
                before.forwarding_mode
            }
        },
        ForwardingStep::Ended(agent_message_tx) => {
            &&& follow_up.ends(client_accepts, agent_reachable)
            &&& pool_after == pool_before.after_release(
                before.dispatched_agent.registration as int,
            )
            &&& messages_to_agent(agent_message_tx) == left
            &&& queue_fed_by(agent_message_tx) == queue_fed_by(
                before.dispatched_agent.agent_message_tx,
            )
        },
    }
}

impl ResponseForwarding {
    /// Whether responses are passed on to the client.
    pub open spec fn is_forwarding(&self) -> bool {
        self.forwarding_mode is ForwardingToClient
    }

    /// Whether `action` is what is to be done about `event`.
    pub open spec fn answers(&self, event: ForwardingEvent, action: ForwardingAction) -> bool {
        match event {
            ForwardingEvent::Shutdown => if self.is_forwarding() {
                action matches ForwardingAction::StopAndFinishWithError(error) && is_error(
                    error,
                    503,
                    "balancer is shutting down"@,
                )
            } else {
                action is Finish
            },
            ForwardingEvent::AgentConnectionClosed => if self.is_forwarding() {
                action matches ForwardingAction::FinishWithError(error) && is_error(
                    error,
                    502,
                    "Agent controller connection closed"@,
                )
            } else {
                action is Finish
            },
            ForwardingEvent::ClientConnectionClosed => if self.is_forwarding() {
                action is Stop
            } else {
                action is Wait
            },
            ForwardingEvent::ItemTimeout => if self.is_forwarding() {
                action matches ForwardingAction::StopWithError(error) && is_error(
                    error,
                    504,
                    timeout_description(self.inference_item_timeout_ms),
                )
            } else {
                action is Finish
            },
            ForwardingEvent::Response(response, is_done) => if self.is_forwarding() {
                &&& action matches ForwardingAction::SendToClient(message, last)
                &&& last == is_done
                &&& message == OutgoingMessage::Response(
                    ResponseEnvelope {
                        generated_by: self.dispatched_agent.name,
                        request_id: self.request_id,
                        response,
                    },
                )
            } else if is_done {
                action is Finish
            } else {
                action is Wait
            },
            ForwardingEvent::ResponseChannelClosed => if self.is_forwarding() {
                action matches ForwardingAction::FinishWithError(error) && is_error(
                    error,
                    502,
                    "Response channel closed before terminator"@,
                )
            } else {
                action is Finish
            },
        }
    }

    /// Which of several things that happened at once counts: a shutdown before
    /// the end of the agent's connection, that before the end of the client's
    /// connection, which counts only while responses are passed on, that before
    /// a timeout, and that before a response.
    pub fn first_signal(
        &self,
        shutdown: bool,
        agent_connection_closed: bool,
        client_connection_closed: bool,
        item_timed_out: bool,
        response_ready: bool,
    ) -> (signal: Option<ForwardingSignal>)
        ensures
            signal == if shutdown {
                Some(ForwardingSignal::Shutdown)
            } else if agent_connection_closed {
                Some(ForwardingSignal::AgentConnectionClosed)
            } else if client_connection_closed && self.is_forwarding() {
                Some(ForwardingSignal::ClientConnectionClosed)
            } else if item_timed_out {
                Some(ForwardingSignal::ItemTimeout)
            } else if response_ready {
                Some(ForwardingSignal::ResponseReady)
            } else {
                None
            },
    {
        let is_forwarding_to_client = self.forwarding_mode
            == AgentResponseForwardingMode::ForwardingToClient;
        if shutdown {
            Some(ForwardingSignal::Shutdown)
        } else if agent_connection_closed {
            Some(ForwardingSignal::AgentConnectionClosed)
        } else if client_connection_closed && is_forwarding_to_client {
            Some(ForwardingSignal::ClientConnectionClosed)
        } else if item_timed_out {
            Some(ForwardingSignal::ItemTimeout)
        } else if response_ready {
            Some(ForwardingSignal::ResponseReady)
        } else {
            None
        }
    }

    /// Decides what to do about an event.
    pub fn forward_responses_stream(&self, event: ForwardingEvent) -> (action: ForwardingAction)
        ensures
            self.answers(event, action),
    {
        let is_forwarding_to_client = self.forwarding_mode
            == AgentResponseForwardingMode::ForwardingToClient;
        match event {
            ForwardingEvent::Shutdown => {
                if is_forwarding_to_client {
                    ForwardingAction::StopAndFinishWithError(
                        json_rpc_error(503, "balancer is shutting down"),
                    )
                } else {
                    ForwardingAction::Finish
                }
            },
            ForwardingEvent::AgentConnectionClosed => {
                if is_forwarding_to_client {
                    ForwardingAction::FinishWithError(
                        json_rpc_error(502, "Agent controller connection closed"),
                    )
                } else {
                    ForwardingAction::Finish
                }
            },
            ForwardingEvent::ClientConnectionClosed => {
                if is_forwarding_to_client {
                    ForwardingAction::Stop
                } else {
                    ForwardingAction::Wait
                }
            },
            ForwardingEvent::ItemTimeout => {
                if !is_forwarding_to_client {
                    return ForwardingAction::Finish;
                }
                let mut description = String::from_str("Inference timed out after ");
                push_decimal(&mut description, self.inference_item_timeout_ms);
                description.append(
                    "ms waiting for next token. Increase --inference-item-timeout if the prompt requires longer processing.",
                );
                ForwardingAction::StopWithError(JsonRpcError { code: 504, description })
            },
            ForwardingEvent::Response(response, is_done) => {
                if !is_forwarding_to_client {
                    if is_done {
                        return ForwardingAction::Finish;
                    }
                    return ForwardingAction::Wait;
                }
                ForwardingAction::SendToClient(
                    send_response_to_client(
                        clone_text(&self.dispatched_agent.name),
                        response,
                        self.request_id.clone(),
                    ),
                    is_done,
                )
            },
            ForwardingEvent::ResponseChannelClosed => {
                if is_forwarding_to_client {
                    ForwardingAction::FinishWithError(
                        json_rpc_error(502, "Response channel closed before terminator"),
                    )
                } else {
                    ForwardingAction::Finish
                }
            },
        }
    }

    /// Goes on after a message to the client, which may not have accepted it. The
    /// last message ends the request either way.
    pub fn after_client_send(&self, is_done: bool, send_succeeded: bool) -> (next: AfterClientSend)
        ensures
            next == if is_done {
                AfterClientSend::Finish
            } else if send_succeeded {
                AfterClientSend::Wait
            } else {
                AfterClientSend::Stop
            },
    {
        if is_done {
            AfterClientSend::Finish
        } else if send_succeeded {
            AfterClientSend::Wait
        } else {
            AfterClientSend::Stop
        }
    }

    /// Asks the agent to stop. From then on its responses are only waited for,
    /// and no longer passed on. Where the agent cannot be reached there is nothing
    /// to wait for, and the slot is to be given back.
    pub fn request_stop(&mut self) -> (outcome: AgentStopOutcome)
        ensures
            same_agent(final(self).dispatched_agent, old(self).dispatched_agent),
            final(self).inference_item_timeout_ms == old(self).inference_item_timeout_ms,
            final(self).request_id == old(self).request_id,
            messages_to_agent(final(self).dispatched_agent.agent_message_tx) == messages_to_agent(
                old(self).dispatched_agent.agent_message_tx,
            ).push((stop_message(old(self).request_id), outcome is StopRequested)),
            final(self).forwarding_mode == match outcome {
                AgentStopOutcome::StopRequested =>
                    AgentResponseForwardingMode::DrainingUntilAgentConfirms,
                AgentStopOutcome::AgentUnreachable => old(self).forwarding_mode,
            },
    {
        if send_to_agent(
            &mut self.dispatched_agent.agent_message_tx,
            AgentJsonRpcMessage::Notification(
                AgentJsonRpcNotification::StopRespondingTo(self.request_id.clone()),
            ),
            None,
        ) {
            self.forwarding_mode = AgentResponseForwardingMode::DrainingUntilAgentConfirms;
            AgentStopOutcome::StopRequested
        } else {
            AgentStopOutcome::AgentUnreachable
        }
    }

    /// Does what is left to do once the client was told what it is to be told,
    /// which it may not have accepted. The slot is given back when the request ends.
    pub fn carry_out(
        self,
        follow_up: FollowUp,
        client_accepts: bool,
        pool: &mut AgentControllerPool,
    ) -> (step: ForwardingStep)
        requires
            old(pool).wf(),
        ensures
            final(pool).wf(),
            exists|agent_reachable: bool| #[trigger]
                carried_out(
                    self,
                    follow_up,
                    client_accepts,
                    agent_reachable,
                    old(pool)@,
                    final(pool)@,
                    step,
                ),
    {
        let ghost before = self;
        let mut forwarding = self;
        let (stops, waits) = match follow_up {
            FollowUp::Wait => (false, true),
            FollowUp::Finish => (false, false),
            FollowUp::StopAndFinish => (true, false),
            FollowUp::Stop => (true, true),
            FollowUp::AfterSend(is_done) => match forwarding.after_client_send(
                is_done,
                client_accepts,
            ) {
                AfterClientSend::Wait => (false, true),
                AfterClientSend::Finish => (false, false),
                AfterClientSend::Stop => (true, true),
            },
        };
        let mut agent_reachable = true;
        if stops {
            agent_reachable = forwarding.request_stop() == AgentStopOutcome::StopRequested;
        }
        let step = if waits && agent_reachable {
            ForwardingStep::GoesOn(forwarding)
        } else {
            pool.release_slot(forwarding.dispatched_agent.registration);
            ForwardingStep::Ended(forwarding.dispatched_agent.agent_message_tx)
        };
        assert(carried_out(
            before,
            follow_up,
            client_accepts,
            agent_reachable,
            old(pool)@,
            pool@,
            step,
        ));
        step
    }
}

/// The message that tells a client of an error.
pub fn respond_with_error(error: JsonRpcError, request_id: String) -> (message: OutgoingMessage)
    ensures
        message == OutgoingMessage::Error((ErrorEnvelope { error, request_id })),
{
    OutgoingMessage::Error(ErrorEnvelope { error, request_id })
}

/// The message that passes a response on to a client.
pub fn send_response_to_client(
    generated_by: Option<String>,
    response: AgentJsonRpcResponse,
    request_id: String,
) -> (message: OutgoingMessage)
    ensures
        message == OutgoingMessage::Response(
            (ResponseEnvelope { generated_by, request_id, response }),
        ),
{
    OutgoingMessage::Response(ResponseEnvelope { generated_by, request_id, response })
}

/// Where a request stands.
pub ghost enum RequestPhase {
    Forwarding,
    Draining,
    Finished,
}

/// Something that happened to a request, and how its client and its agent took
/// what was done about it.
pub ghost struct Occurrence {
    pub event: ForwardingEvent,
    pub client_accepts: bool,
    pub agent_reachable: bool,
}

/// What a client was told.
pub ghost enum ClientMessage {
    Response,
    LastResponse,
    Error,
}

/// Where a request stands after it was tried to stop its agent.
pub open spec fn phase_after_stop(agent_reachable: bool) -> RequestPhase {
    if agent_reachable {
        RequestPhase::Draining
    } else {
        RequestPhase::Finished
    }
}

/// Where a request stands after an occurrence, if `action` was done about it.
pub open spec fn phase_after(
    phase: RequestPhase,
    action: ForwardingAction,
    occurrence: Occurrence,
) -> RequestPhase {
    match action {
        ForwardingAction::Wait => phase,
        ForwardingAction::Finish => RequestPhase::Finished,
        ForwardingAction::FinishWithError(_) => RequestPhase::Finished,
        ForwardingAction::StopAndFinishWithError(_) => RequestPhase::Finished,
        ForwardingAction::Stop => phase_after_stop(occurrence.agent_reachable),
        ForwardingAction::StopWithError(_) => phase_after_stop(occurrence.agent_reachable),
        ForwardingAction::SendToClient(_, is_done) => if is_done {
            RequestPhase::Finished
        } else if occurrence.client_accepts {
            phase
        } else {
            phase_after_stop(occurrence.agent_reachable)
        },
    }
}

/// What a client is told by `action`.
pub open spec fn told_by(action: ForwardingAction) -> Seq<ClientMessage> {
    match action {
        ForwardingAction::FinishWithError(_) => seq![ClientMessage::Error],
        ForwardingAction::StopAndFinishWithError(_) => seq![ClientMessage::Error],
        ForwardingAction::StopWithError(_) => seq![ClientMessage::Error],
        ForwardingAction::SendToClient(_, is_done) => if is_done {
            seq![ClientMessage::LastResponse]
        } else {
            seq![ClientMessage::Response]
        },
        _ => Seq::<ClientMessage>::empty(),
    }
}

/// Whether `actions` are what is done, one after the other, about what occurs to
/// a request, and `phases` are where it stands before each of them and at the end.
pub open spec fn is_run(
    phases: Seq<RequestPhase>,
    occurrences: Seq<Occurrence>,
    actions: Seq<ForwardingAction>,
    forwarding: ResponseForwarding,
    draining: ResponseForwarding,
) -> bool {
    &&& forwarding.is_forwarding()
    &&& !draining.is_forwarding()
    &&& occurrences.len() == actions.len()
    &&& phases.len() == actions.len() + 1
    &&& forall|i: int|
        0 <= i < actions.len() ==> {
            &&& match #[trigger] phases[i] {
                RequestPhase::Forwarding => forwarding.answers(occurrences[i].event, actions[i]),
                RequestPhase::Draining => draining.answers(occurrences[i].event, actions[i]),
                RequestPhase::Finished => false,
            }
            &&& phases[i + 1] == phase_after(phases[i], actions[i], occurrences[i])
        }
}

/// A client is told nothing while the agent is asked to stop: what is done about
/// any event is to wait on or to give the slot back.
pub proof fn draining_tells_the_client_nothing(
    draining: ResponseForwarding,
    event: ForwardingEvent,
    action: ForwardingAction,
)
    requires
        !draining.is_forwarding(),
        draining.answers(event, action),
    ensures
        action is Wait || action is Finish,
        told_by(action) == Seq::<ClientMessage>::empty(),
{
}

/// A request that drains does so until the agent confirms the end, takes too
/// long, or is gone, or the balancer shuts down: nothing else gives its slot back.
pub proof fn draining_holds_the_slot(
    draining: ResponseForwarding,
    event: ForwardingEvent,
    action: ForwardingAction,
)
    requires
        !draining.is_forwarding(),
        draining.answers(event, action),
    ensures
        action is Finish <==> (event is Shutdown || event is AgentConnectionClosed
            || event is ItemTimeout || event is ResponseChannelClosed || (
        event matches ForwardingEvent::Response(_, is_done) && is_done)),
{
}

proof fn lemma_nothing_after_forwarding(
    phases: Seq<RequestPhase>,
    occurrences: Seq<Occurrence>,
    actions: Seq<ForwardingAction>,
    forwarding: ResponseForwarding,
    draining: ResponseForwarding,
    i: int,
    j: int,
)
    requires
        is_run(phases, occurrences, actions, forwarding, draining),
        0 <= i <= j < actions.len(),
        !(phases[i] is Forwarding),
    ensures
        !(phases[j] is Forwarding),
        told_by(actions[j]) == Seq::<ClientMessage>::empty(),
    decreases j - i,
{
    assert(phases[i] is Draining);
    if i < j {
        assert(phases[i + 1] == phase_after(phases[i], actions[i], occurrences[i]));
        lemma_nothing_after_forwarding(
            phases,
            occurrences,
            actions,
            forwarding,
            draining,
            i + 1,
            j,
        );
    }
}

/// A client is told of at most one error, and of nothing after an error or after
/// the last response.
pub proof fn an_error_is_the_last_thing_a_client_is_told(
    phases: Seq<RequestPhase>,
    occurrences: Seq<Occurrence>,
    actions: Seq<ForwardingAction>,
    forwarding: ResponseForwarding,
    draining: ResponseForwarding,
    i: int,
    j: int,
)
    requires
        is_run(phases, occurrences, actions, forwarding, draining),
        0 <= i < j < actions.len(),
        told_by(actions[i]) == seq![ClientMessage::Error] || told_by(actions[i])
            == seq![ClientMessage::LastResponse],
    ensures
        told_by(actions[j]) == Seq::<ClientMessage>::empty(),
{
    assert(told_by(actions[i])[0] == ClientMessage::Error || told_by(actions[i])[0]
        == ClientMessage::LastResponse);
    assert(phases[i + 1] == phase_after(phases[i], actions[i], occurrences[i]));
    assert(!(phases[i + 1] is Forwarding));
    lemma_nothing_after_forwarding(
        phases,
        occurrences,
        actions,
        forwarding,
        draining,
        i + 1,
        j,
    );
}

/// Nothing is done any more about a request that finished.
pub proof fn a_finished_request_is_over(
    phases: Seq<RequestPhase>,
    occurrences: Seq<Occurrence>,
    actions: Seq<ForwardingAction>,
    forwarding: ResponseForwarding,
    draining: ResponseForwarding,
    i: int,
)
    requires
        is_run(phases, occurrences, actions, forwarding, draining),
        0 <= i < phases.len(),
        phases[i] is Finished,
    ensures
        i == actions.len(),
{
}

/// A request finishes when what is left to do about it ends it, and only then.
pub proof fn a_request_finishes_when_it_ends(
    phase: RequestPhase,
    action: ForwardingAction,
    occurrence: Occurrence,
)
    requires
        !(phase is Finished),
    ensures
        phase_after(phase, action, occurrence) is Finished <==> follow_up_of(action).ends(
            occurrence.client_accepts,
            occurrence.agent_reachable,
        ),
{
}

/// Whether `pools` are what a pool is before each of the occurrences and at the end,
/// if nothing else happens to it: each action leaves it as
/// [`ResponseForwarding::carry_out`] does.
pub open spec fn are_pools_of_run(
    pools: Seq<AgentControllerPoolView>,
    occurrences: Seq<Occurrence>,
    actions: Seq<ForwardingAction>,
    registration: int,
) -> bool {
    &&& pools.len() == actions.len() + 1
    &&& forall|i: int|
        0 <= i < actions.len() ==> pools[i + 1] == if follow_up_of(#[trigger] actions[i]).ends(
            occurrences[i].client_accepts,
            occurrences[i].agent_reachable,
        ) {
            pools[i].after_release(registration)
        } else {
            pools[i]
        }
}

/// A request holds its slot until it finishes, and then its slot is given back,
/// once.
pub proof fn a_slot_is_given_back_once(
    phases: Seq<RequestPhase>,
    occurrences: Seq<Occurrence>,
    actions: Seq<ForwardingAction>,
    forwarding: ResponseForwarding,
    draining: ResponseForwarding,
    pools: Seq<AgentControllerPoolView>,
    registration: int,
    i: int,
)
    requires
        is_run(phases, occurrences, actions, forwarding, draining),
        !(phases[0] is Finished),
        are_pools_of_run(pools, occurrences, actions, registration),
        0 <= i < pools.len(),
    ensures
        pools[i] == if phases[i] is Finished {
            pools[0].after_release(registration)
        } else {
            pools[0]
        },
    decreases i,
{
    if i > 0 {
        a_slot_is_given_back_once(
            phases,
            occurrences,
            actions,
            forwarding,
            draining,
            pools,
            registration,
            i - 1,
        );
        assert(phases[i - 1] is Forwarding || phases[i - 1] is Draining);
        assert(pools[i - 1 + 1] == if follow_up_of(actions[i - 1]).ends(
            occurrences[i - 1].client_accepts,
            occurrences[i - 1].agent_reachable,
        ) {
            pools[i - 1].after_release(registration)
        } else {
            pools[i - 1]
        });
        a_request_finishes_when_it_ends(phases[i - 1], actions[i - 1], occurrences[i - 1]);
    }
}

/// Whether an agent may answer the request with the response.
pub open spec fn may_answer(request: AgentJsonRpcRequest, response: AgentJsonRpcResponse) -> bool {
    match response {
        AgentJsonRpcResponse::ChatTemplateOverride(_) => request is GetChatTemplateOverride,
        AgentJsonRpcResponse::Embedding(_) => request is GenerateEmbeddingBatch,
        AgentJsonRpcResponse::GeneratedToken(_) => request is ContinueFromConversationHistory
            || request is ContinueFromRawPrompt,
        AgentJsonRpcResponse::ModelMetadata(_) => request is GetModelMetadata,
    }
}

/// The responses to a request are awaited where they are handed out, and not where
/// responses of another sort are.
pub proof fn responses_are_awaited_where_they_are_handed_out(
    request: AgentJsonRpcRequest,
    response: AgentJsonRpcResponse,
)
    ensures
        may_answer(request, response) <==> awaited_in(request) == ws_agent_socket::collection_of(
            response,
        ),
{
}

/// The last response to a request ends it, and no other does: tokens and embeddings
/// end with their summary, and what is answered once is not streamed.
pub proof fn only_the_end_is_last(response: AgentJsonRpcResponse)
    ensures
        response matches AgentJsonRpcResponse::GeneratedToken(result) ==> (is_last(response)
            <==> result is Done),
        response matches AgentJsonRpcResponse::Embedding(result) ==> (is_last(response)
            <==> result is Done),
        response is ChatTemplateOverride || response is ModelMetadata ==> !is_last(response),
{
}

/// A request that waited for an agent is sent to the agent that was found, or its
/// client is told why not, with the code of a failure of the balancer; only a client
/// that is gone is told nothing.
pub proof fn a_request_is_sent_or_its_client_is_told_why_not(
    event: AgentWaitEvent,
    decision: AgentWaitDecision,
)
    requires
        call_ensures(wait_for_agent_controller, (event,), decision),
    ensures
        decision is Dispatch <==> (event matches AgentWaitEvent::WaitFinished(
            BufferedRequestAgentWaitResult::Found(_),
        )),
        event matches AgentWaitEvent::WaitFinished(
            BufferedRequestAgentWaitResult::Found(dispatched),
        ) ==> decision == AgentWaitDecision::Dispatch(dispatched),
        decision is Abandon <==> event is ConnectionClosed,
        decision matches AgentWaitDecision::RespondWithError(error) ==> {
            &&& 500 <= error.code < 600
            &&& error.code == 504 <==> (event matches AgentWaitEvent::WaitFinished(
                BufferedRequestAgentWaitResult::Timeout,
            ))
            &&& error.code == 503 <==> (event is Shutdown || (
            event matches AgentWaitEvent::WaitFinished(
                BufferedRequestAgentWaitResult::BufferOverflow,
            )))
            &&& error.code == 500 <==> event is WaitFailed
        },
{
}

/// Of what happened at once while a request waited, a shutdown counts before the end
/// of the connection, and that before the end of the wait; nothing counts that did not
/// happen.
pub proof fn the_first_signal_happened(
    shutdown: bool,
    connection_closed: bool,
    wait_finished: bool,
    signal: Option<AgentWaitSignal>,
)
    requires
        call_ensures(
            first_agent_wait_signal,
            (shutdown, connection_closed, wait_finished),
            signal,
        ),
    ensures
        signal is None <==> !shutdown && !connection_closed && !wait_finished,
        signal == Some(AgentWaitSignal::Shutdown) <==> shutdown,
        signal == Some(AgentWaitSignal::ConnectionClosed) ==> connection_closed,
        signal == Some(AgentWaitSignal::WaitFinished) <==> wait_finished && !shutdown
            && !connection_closed,
{
}

/// Of what happened at once while responses were awaited, a shutdown counts first, then
/// the end of the agent, then that of the client, which counts only for a client that
/// is still told something; a response counts last, and nothing counts that did not
/// happen.
pub proof fn a_response_counts_last(
    forwarding: &ResponseForwarding,
    shutdown: bool,
    agent_connection_closed: bool,
    client_connection_closed: bool,
    item_timed_out: bool,
    response_ready: bool,
    signal: Option<ForwardingSignal>,
)
    requires
        call_ensures(
            ResponseForwarding::first_signal,
            (
                forwarding,
                shutdown,
                agent_connection_closed,
                client_connection_closed,
                item_timed_out,
                response_ready,
            ),
            signal,
        ),
    ensures
        ({
            let client_counts = client_connection_closed && forwarding.forwarding_mode
                == AgentResponseForwardingMode::ForwardingToClient;
            &&& signal is None <==> !(shutdown || agent_connection_closed || client_counts
                || item_timed_out || response_ready)
            &&& signal == Some(ForwardingSignal::Shutdown) <==> shutdown
            &&& signal == Some(ForwardingSignal::AgentConnectionClosed) <==> agent_connection_closed
                && !shutdown
            &&& signal == Some(ForwardingSignal::ClientConnectionClosed) <==> client_counts
                && !shutdown && !agent_connection_closed
            &&& signal == Some(ForwardingSignal::ResponseReady) <==> response_ready && !(shutdown
                || agent_connection_closed || client_counts || item_timed_out)
        }),
{
}

/// While responses are passed on, a client is told of everything but its own end: of a
/// response as it is, under the id of its request and with the name of the agent that
/// gave it, and else of the failure. The agent is asked to stop exactly if it is not
/// done and can still be asked.
pub proof fn a_client_is_told_what_became_of_its_request(
    forwarding: &ResponseForwarding,
    event: ForwardingEvent,
    action: ForwardingAction,
    parts: (Option<OutgoingMessage>, FollowUp),
    request_id: String,
)
    requires
        forwarding.forwarding_mode == AgentResponseForwardingMode::ForwardingToClient,
        call_ensures(ResponseForwarding::forward_responses_stream, (forwarding, event), action),
        call_ensures(ForwardingAction::split, (action, request_id), parts),
    ensures
        parts.0 is None <==> event is ClientConnectionClosed,
        event matches ForwardingEvent::Response(response, is_done) ==> {
            &&& parts.0 matches Some(OutgoingMessage::Response(envelope))
            &&& envelope.response == response
            &&& envelope.request_id == forwarding.request_id
            &&& envelope.generated_by == forwarding.dispatched_agent.name
            &&& parts.1 == FollowUp::AfterSend(is_done)
        },
        !(event is Response) && !(event is ClientConnectionClosed) ==> {
            &&& parts.0 matches Some(OutgoingMessage::Error(envelope))
            &&& envelope.request_id == request_id
            &&& envelope.error.code == match event {
                ForwardingEvent::Shutdown => 503i32,
                ForwardingEvent::ItemTimeout => 504i32,
                _ => 502i32,
            }
            &&& event is ItemTimeout ==> envelope.error.description@
                == "Inference timed out after "@ + decimal(
                forwarding.inference_item_timeout_ms as nat,
            )
                + "ms waiting for next token. Increase --inference-item-timeout if the prompt requires longer processing."@
        },
        parts.1 == FollowUp::StopAndFinish <==> event is Shutdown,
        parts.1 == FollowUp::Stop <==> event is ItemTimeout || event is ClientConnectionClosed,
        parts.1 == FollowUp::Finish <==> event is AgentConnectionClosed
            || event is ResponseChannelClosed,
{
}

/// Once the agent was asked to stop, a client is told nothing, and nothing but the end
/// of the agent's work ends the request: its last response, its end, or that it takes
/// too long. Or the balancer shuts down.
pub proof fn a_stopped_request_ends_with_its_agent(
    forwarding: &ResponseForwarding,
    event: ForwardingEvent,
    action: ForwardingAction,
    parts: (Option<OutgoingMessage>, FollowUp),
    request_id: String,
)
    requires
        forwarding.forwarding_mode == AgentResponseForwardingMode::DrainingUntilAgentConfirms,
        call_ensures(ResponseForwarding::forward_responses_stream, (forwarding, event), action),
        call_ensures(ForwardingAction::split, (action, request_id), parts),
    ensures
        parts.0 is None,
        parts.1 == FollowUp::Wait || parts.1 == FollowUp::Finish,
        parts.1 == FollowUp::Wait <==> match event {
            ForwardingEvent::ClientConnectionClosed => true,
            ForwardingEvent::Response(_, is_done) => !is_done,
            _ => false,
        },
{
}

/// What is left to do is done: the agent is asked to stop exactly if that is left, or
/// its client did not take a response that is not the last one. The slot is given back
/// exactly if the request ended, and a request whose agent was asked to stop, and could
/// be, is not passed on any more.
pub proof fn a_slot_is_held_until_the_request_ended(
    forwarding: ResponseForwarding,
    follow_up: FollowUp,
    client_accepts: bool,
    pool: &mut AgentControllerPool,
    step: ForwardingStep,
)
    requires
        call_ensures(
            ResponseForwarding::carry_out,
            (forwarding, follow_up, client_accepts, pool),
            step,
        ),
        forwarding.dispatched_agent.registration < old(pool)@.counts.len(),
        old(pool)@.counts[forwarding.dispatched_agent.registration as int] > i32::MIN,
    ensures
        ({
            let registration = forwarding.dispatched_agent.registration as int;
            let before = messages_to_agent(forwarding.dispatched_agent.agent_message_tx);
            let after = match step {
                ForwardingStep::GoesOn(next) => messages_to_agent(
                    next.dispatched_agent.agent_message_tx,
                ),
                ForwardingStep::Ended(agent_message_tx) => messages_to_agent(agent_message_tx),
            };
            let asked = after.len() == before.len() + 1;
            &&& asked <==> follow_up is Stop || follow_up is StopAndFinish || (follow_up
                == FollowUp::AfterSend(false) && !client_accepts)
            &&& !asked ==> after == before
            &&& asked ==> after.last().0 == AgentJsonRpcMessage::Notification(
                AgentJsonRpcNotification::StopRespondingTo(forwarding.request_id),
            ) && after.drop_last() == before
            &&& step is Ended <==> follow_up is Finish || follow_up is StopAndFinish || follow_up
                == FollowUp::AfterSend(true) || (asked && !after.last().1)
            &&& final(pool)@.counts[registration] == old(pool)@.counts[registration] - (
            if step is Ended {
                1int
            } else {
                0int
            })
            &&& step matches ForwardingStep::GoesOn(next) ==> {
                &&& next.request_id == forwarding.request_id
                &&& next.dispatched_agent.registration == forwarding.dispatched_agent.registration
                &&& next.forwarding_mode == if asked {
                    AgentResponseForwardingMode::DrainingUntilAgentConfirms
                } else {
                    forwarding.forwarding_mode
                }
                &&& final(pool)@ == old(pool)@
            }
        }),
{
    let agent_reachable = choose|agent_reachable: bool| #[trigger]
        carried_out(
            forwarding,
            follow_up,
            client_accepts,
            agent_reachable,
            old(pool)@,
            final(pool)@,
            step,
        );
    let before = messages_to_agent(forwarding.dispatched_agent.agent_message_tx);
    assert(before.push((stop_message(forwarding.request_id), agent_reachable)).drop_last()
        =~= before);
}

/// A request that is sent to its agent is the last message to it, under its id, and its
/// channel waits. Where it could not be sent, nobody waits that did not before, its slot
/// is still to be given back, and its client is to be told of a failure.
pub proof fn a_sent_request_is_waited_for(
    dispatched_agent: DispatchedAgent,
    inference_item_timeout_ms: u128,
    request_id: String,
    senders: &mut SenderCollection,
    channel: usize,
    request: AgentJsonRpcRequest,
    result: Result<ResponseForwarding, FailedDispatch>,
)
    requires
        call_ensures(
            request_from_agent,
            (dispatched_agent, inference_item_timeout_ms, request_id, senders, channel, request),
            result,
        ),
    ensures
        old(senders)@.contains_key(request_id@) ==> result is Err,
        result is Err ==> final(senders)@ == old(senders)@,
        result matches Err(failed) ==> failed.error.code == 500
            && failed.dispatched_agent.registration == dispatched_agent.registration,
        result matches Ok(forwarding) ==> {
            let before = messages_to_agent(dispatched_agent.agent_message_tx);
            let after = messages_to_agent(forwarding.dispatched_agent.agent_message_tx);
            &&& final(senders)@.contains_key(request_id@)
            &&& final(senders)@[request_id@] == channel
            &&& after.len() == before.len() + 1
            &&& after.last() == (
                AgentJsonRpcMessage::Request(RequestEnvelope { id: request_id, request }),
                true,
            )
            &&& forwarding.forwarding_mode == AgentResponseForwardingMode::ForwardingToClient
            &&& forwarding.request_id == request_id
            &&& forwarding.inference_item_timeout_ms == inference_item_timeout_ms
            &&& forwarding.dispatched_agent.registration == dispatched_agent.registration
            &&& forwarding.dispatched_agent.agent_id == dispatched_agent.agent_id
        },
{
}

/// A request that could not be sent gives its slot back, and its client is told of the
/// error under the id of the request.
pub proof fn a_failed_request_gives_its_slot_back(
    failed: FailedDispatch,
    request_id: String,
    pool: &mut AgentControllerPool,
    message: OutgoingMessage,
)
    requires
        call_ensures(FailedDispatch::give_up, (failed, request_id, pool), message),
        failed.dispatched_agent.registration < old(pool)@.counts.len(),
        old(pool)@.counts[failed.dispatched_agent.registration as int] > i32::MIN,
    ensures
        final(pool)@.counts[failed.dispatched_agent.registration as int] == old(
            pool,
        )@.counts[failed.dispatched_agent.registration as int] - 1,
        message matches OutgoingMessage::Error(envelope) && envelope.error == failed.error
            && envelope.request_id == request_id,
{
}

/// A response is known as the last one exactly if it is the summary that ends tokens or
/// embeddings, and is otherwise passed on as it is.
pub proof fn responses_are_recognised(
    response: AgentJsonRpcResponse,
    event: ForwardingEvent,
    closed: ForwardingEvent,
)
    requires
        call_ensures(response_event, (Some(response),), event),
        call_ensures(response_event, (None,), closed),
    ensures
        closed is ResponseChannelClosed,
        event == ForwardingEvent::Response(
            response,
            match response {
                AgentJsonRpcResponse::GeneratedToken(result) => result is Done,
                AgentJsonRpcResponse::Embedding(result) => result is Done,
                _ => false,
            },
        ),
{
}

/// Where the responses to a request are awaited is where responses that may answer it
/// are handed out.
pub proof fn a_request_awaits_what_may_answer_it(
    request: &AgentJsonRpcRequest,
    collection: ResponseCollection,
    response: AgentJsonRpcResponse,
)
    requires
        call_ensures(collection_of, (request,), collection),
    ensures
        may_answer(*request, response) <==> collection == ws_agent_socket::collection_of(response),
{
}

/// A client can tell from what it is told how long the balancer waited: the time is
/// written out, and no two times are told alike.
pub proof fn timeouts_are_told_apart(left: u128, right: u128)
    ensures
        timeout_description(left) == timeout_description(right) <==> left == right,
{
    let prefix = "Inference timed out after "@;
    let suffix =
        "ms waiting for next token. Increase --inference-item-timeout if the prompt requires longer processing."@;
    let left_text = decimal(left as nat);
    let right_text = decimal(right as nat);
    if timeout_description(left) == timeout_description(right) {
        let first = timeout_description(left);
        assert(first.len() == (prefix + left_text + suffix).len());
        assert(first.len() == (prefix + right_text + suffix).len());
        assert(left_text.len() == right_text.len());
        let end = (prefix.len() + left_text.len()) as int;
        assert(first.subrange(prefix.len() as int, end) =~= left_text);
        assert(timeout_description(right).subrange(prefix.len() as int, end) =~= right_text);
        written_numbers_can_be_read(left as nat);
        written_numbers_can_be_read(right as nat);
    }
}

} // verus!
