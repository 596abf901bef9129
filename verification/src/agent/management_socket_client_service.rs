//! The agent's side of its connection to the balancer.
use bytes::Bytes;
use dashmap::DashMap;
use tokio::sync::mpsc;
use tokio_util::sync::CancellationToken;
use vstd::prelude::*;

use crate::agent::slot_aggregated_status::SlotAggregatedStatus;
use crate::agent::slot_aggregated_status::SlotAggregatedStatusView;
use crate::messaging::agent_state_application_status::AgentStateApplicationStatus;
use crate::messaging::agent_state_application_status::InvalidAgentStateApplicationStatus;
use crate::messaging::agent_state_application_status::accepted_codes_are_codes_of_a_status;
use crate::messaging::agent_state_application_status::codes_are_the_first_numbers;
use crate::messaging::messages::AgentDesiredState;
use crate::messaging::messages::AgentJsonRpcMessage;
use crate::messaging::messages::AgentJsonRpcNotification;
use crate::messaging::messages::AgentJsonRpcRequest;
use crate::messaging::messages::AgentJsonRpcResponse;
use crate::messaging::messages::ChatTemplate;
use crate::messaging::messages::ContinueFromConversationHistoryParams;
use crate::messaging::messages::ContinueFromRawPromptParams;
use crate::messaging::messages::GenerateEmbeddingBatchParams;
use crate::messaging::messages::ManagementJsonRpcMessage;
use crate::messaging::messages::ManagementJsonRpcNotification;
use crate::messaging::messages::RegisterAgentParams;
use crate::messaging::messages::RequestEnvelope;
use crate::messaging::messages::ResponseEnvelope;
use crate::messaging::messages::UpdateAgentStatusParams;
use crate::messaging::slot_aggregated_status_snapshot::SlotAggregatedStatusSnapshot;
use crate::messaging::tokens_per_second::TokensPerSecond;
use crate::outside::balancer_queue_fed_by;
use crate::outside::cancel;
use crate::outside::cancel_requested;
use crate::outside::cancelled_along_with;
use crate::outside::cancels;
use crate::outside::clone_balancer_sender;
use crate::outside::clone_token;
use crate::outside::desired_states_sent;
use crate::outside::generation_requests_sent;
use crate::outside::messages_to_balancer;
use crate::outside::no_messages_to_balancer;
use crate::outside::number_map;
use crate::outside::number_map_get;
use crate::outside::number_map_insert;
use crate::outside::number_map_new;
use crate::outside::number_map_remove;
use crate::outside::number_under;
use crate::outside::pongs_sent;
use crate::outside::send_desired_state;
use crate::outside::send_generation_request;
use crate::outside::send_pong;
use crate::outside::send_to_balancer;
use crate::outside::was_cancelled;
use crate::text::clone_text;
use crate::text::text_of;

verus! {

/// What is to be generated.
#[derive(Debug)]
pub enum GenerationParams {
    ContinueFromConversationHistory(ContinueFromConversationHistoryParams),
    ContinueFromRawPrompt(ContinueFromRawPromptParams),
    GenerateEmbeddingBatch(GenerateEmbeddingBatchParams),
}

/// A request to generate something. Its responses go to, and its stop signal
/// comes from, the channel with the given number.
#[derive(Debug)]
pub struct GenerationRequest {
    pub channel: usize,
    pub params: GenerationParams,
}

/// The channels over which running generations can be stopped, by the id of
/// their request.
pub struct ReceiveStreamStopperCollection {
    channels: DashMap<String, usize>,
}

/// There is a running generation under that id already.
#[derive(Clone, Copy, Debug, PartialEq, Eq, Structural)]
pub struct StopperAlreadyRegistered;

/// There is no running generation under that id.
#[derive(Clone, Copy, Debug, PartialEq, Eq, Structural)]
pub struct StopperNotRegistered;

impl View for ReceiveStreamStopperCollection {
    type V = Map<Seq<char>, usize>;

    closed spec fn view(&self) -> Map<Seq<char>, usize> {
        number_map(self.channels)
    }
}

impl ReceiveStreamStopperCollection {
    /// Registers the channel over which a generation can be stopped; an error,
    /// and no change, if there is one already.
    pub fn register_stopper(&mut self, request_id: String, channel: usize) -> (result: Result<
        (),
        StopperAlreadyRegistered,
    >)
        ensures
            result is Err <==> old(self)@.contains_key(request_id@),
            final(self)@ == if result is Ok {
                old(self)@.insert(request_id@, channel)
            } else {
                old(self)@
            },
    {
        if let Some(_) = number_map_get(&self.channels, request_id.as_str()) {
            return Err(StopperAlreadyRegistered);
        }
        number_map_insert(&mut self.channels, request_id, channel);
        Ok(())
    }

    /// Forgets the channel over which a generation can be stopped; an error if
    /// there is none.
    pub fn deregister_stopper(&mut self, request_id: &str) -> (result: Result<
        (),
        StopperNotRegistered,
    >)
        ensures
            result is Ok <==> old(self)@.contains_key(request_id@),
            final(self)@ == old(self)@.remove(request_id@),
    {
        match number_map_remove(&mut self.channels, request_id) {
            Some(_) => Ok(()),
            None => Err(StopperNotRegistered),
        }
    }

    /// The channel over which the generation is to be told to stop. `None` if it
    /// has finished already, of which nothing is kept.
    pub fn stop(&self, request_id: &str) -> (channel: Option<usize>)
        ensures
            channel == number_under(self@, request_id@),
    {
        number_map_get(&self.channels, request_id)
    }
}

impl Default for ReceiveStreamStopperCollection {
    fn default() -> (collection: Self)
        ensures
            collection@ == Map::<Seq<char>, usize>::empty(),
    {
        ReceiveStreamStopperCollection { channels: number_map_new() }
    }
}

/// What the agent holds for its connections to the balancer.
pub struct ManagementSocketClientService {
    pub agent_desired_state_tx: mpsc::UnboundedSender<AgentDesiredState>,
    pub continue_from_conversation_history_request_tx: mpsc::UnboundedSender<GenerationRequest>,
    pub continue_from_raw_prompt_request_tx: mpsc::UnboundedSender<GenerationRequest>,
    pub generate_embedding_batch_request_tx: mpsc::UnboundedSender<GenerationRequest>,
    /// The queue of the messages to the balancer over the current connection.
    pub message_tx: mpsc::UnboundedSender<ManagementJsonRpcMessage>,
    pub name: Option<String>,
    pub receive_stream_stopper_collection: ReceiveStreamStopperCollection,
}

/// What was given to the queues of the agent, each item with whether it was
/// accepted, and what runs on the agent.
#[verifier::ext_equal]
pub ghost struct ManagementSocketClientView {
    pub desired_states: Seq<(AgentDesiredState, bool)>,
    pub conversation_requests: Seq<(GenerationRequest, bool)>,
    pub raw_prompt_requests: Seq<(GenerationRequest, bool)>,
    pub embedding_requests: Seq<(GenerationRequest, bool)>,
    pub messages: Seq<(ManagementJsonRpcMessage, bool)>,
    pub name: Option<Seq<char>>,
    /// The queue of the messages to the balancer.
    pub queue: int,
    pub stoppers: Map<Seq<char>, usize>,
}

impl View for ManagementSocketClientService {
    type V = ManagementSocketClientView;

    open spec fn view(&self) -> ManagementSocketClientView {
        ManagementSocketClientView {
            desired_states: desired_states_sent(self.agent_desired_state_tx),
            conversation_requests: generation_requests_sent(
                self.continue_from_conversation_history_request_tx,
            ),
            raw_prompt_requests: generation_requests_sent(
                self.continue_from_raw_prompt_request_tx,
            ),
            embedding_requests: generation_requests_sent(self.generate_embedding_batch_request_tx),
            messages: messages_to_balancer(self.message_tx),
            name: text_of(self.name),
            queue: balancer_queue_fed_by(self.message_tx),
            stoppers: self.receive_stream_stopper_collection@,
        }
    }
}

/// What the agent knows and can be asked for.
#[derive(Debug)]
pub struct AgentFacts {
    /// The chat template of the state that is being applied, where there is one.
    pub chat_template_override: Option<ChatTemplate>,
    /// The metadata of the loaded model, as a JSON document.
    pub model_metadata: Option<String>,
    /// The version of the agent.
    pub version: String,
}

/// What is left to do after a message of the balancer.
#[derive(Debug)]
pub enum ClientEffect {
    Nothing,
    /// Log that a message could not be handled.
    LogError(ClientError),
    /// Log that the balancer runs another version.
    WarnVersionMismatch(String),
    /// Tell the generation on the channel to stop.
    SignalStop(usize),
    /// Pass what the generation yields on to the balancer, as
    /// [`RunningGeneration::forward_response`] says.
    ForwardResponses(RunningGeneration),
}

/// A generation that was started over a connection. It answers over that connection
/// only, and ends with it.
#[derive(Debug)]
pub struct RunningGeneration {
    /// The number of the channel of its responses.
    pub channel: usize,
    /// A token of its own, which is cancelled once the connection is closed.
    pub connection_close: CancellationToken,
    /// A sender of its own to the queue of the connection.
    pub message_tx: mpsc::UnboundedSender<ManagementJsonRpcMessage>,
    pub request_id: String,
}

impl RunningGeneration {
    /// Whether this is a generation of the request on the channel, which was just
    /// started over the connection with that queue and that token.
    pub open spec fn is_new(
        &self,
        request_id: String,
        channel: usize,
        queue: int,
        connection_close: CancellationToken,
    ) -> bool {
        &&& self.request_id == request_id
        &&& self.channel == channel
        &&& balancer_queue_fed_by(self.message_tx) == queue
        &&& messages_to_balancer(self.message_tx) == no_messages_to_balancer()
        &&& cancels(self.connection_close) == cancels(connection_close)
        &&& cancelled_along_with(self.connection_close) == cancelled_along_with(connection_close)
        &&& !cancel_requested(self.connection_close)
    }
}

/// Why a message of the balancer could not be handled.
#[derive(Clone, Copy, Debug, PartialEq, Eq, Structural)]
pub enum ClientError {
    DesiredStateReceiverDropped,
    MessageReceiverDropped,
    PongReceiverDropped,
    RequestReceiverDropped,
    StopperAlreadyRegistered,
}

/// A response to the request with the given id.
pub open spec fn response_message(
    request_id: String,
    response: AgentJsonRpcResponse,
) -> ManagementJsonRpcMessage {
    ManagementJsonRpcMessage::Response(
        ResponseEnvelope { generated_by: None, request_id, response },
    )
}

/// How the start of a generation leaves the running generations and the queue
/// of the requests.
pub open spec fn generation_leaves(
    stoppers_before: Map<Seq<char>, usize>,
    stoppers_after: Map<Seq<char>, usize>,
    requests_before: Seq<(GenerationRequest, bool)>,
    requests_after: Seq<(GenerationRequest, bool)>,
    id: Seq<char>,
    request: GenerationRequest,
    result: Result<(), ClientError>,
) -> bool {
    if stoppers_before.contains_key(id) {
        &&& result matches Err(error) && error is StopperAlreadyRegistered
        &&& stoppers_after == stoppers_before
        &&& requests_after == requests_before
    } else {
        &&& requests_after == requests_before.push((request, result is Ok))
        &&& match result {
            Ok(()) => stoppers_after == stoppers_before.insert(id, request.channel),
            Err(error) => error is RequestReceiverDropped && stoppers_after == stoppers_before,
        }
    }
}

/// Starts a generation. It can be stopped before this returns, so a stop that
/// arrives right after its request is not lost. A request that nobody receives
/// does not stay registered.
pub fn generate_responses(
    id: String,
    request: GenerationRequest,
    receive_stream_stopper_collection: &mut ReceiveStreamStopperCollection,
    request_tx: &mut mpsc::UnboundedSender<GenerationRequest>,
) -> (result: Result<(), ClientError>)
    ensures
        generation_leaves(
            old(receive_stream_stopper_collection)@,
            final(receive_stream_stopper_collection)@,
            generation_requests_sent(*old(request_tx)),
            generation_requests_sent(*final(request_tx)),
            id@,
            request,
            result,
        ),
{
    if let Err(_) = receive_stream_stopper_collection.register_stopper(
        id.clone(),
        request.channel,
    ) {
        return Err(ClientError::StopperAlreadyRegistered);
    }
    if !send_generation_request(request_tx, request) {
        let _ = receive_stream_stopper_collection.deregister_stopper(id.as_str());
        assert(receive_stream_stopper_collection@ =~= old(receive_stream_stopper_collection)@);
        return Err(ClientError::RequestReceiverDropped);
    }
    Ok(())
}

fn begun(
    message_tx: &mpsc::UnboundedSender<ManagementJsonRpcMessage>,
    connection_close: &CancellationToken,
    request_id: String,
    channel: usize,
    start: Result<(), ClientError>,
) -> (result: Result<ClientEffect, ClientError>)
    ensures
        started(
            balancer_queue_fed_by(*message_tx),
            *connection_close,
            request_id,
            channel,
            result,
            start,
        ),
{
    match start {
        Ok(()) => Ok(
            ClientEffect::ForwardResponses(
                RunningGeneration {
                    channel,
                    connection_close: clone_token(connection_close),
                    message_tx: clone_balancer_sender(message_tx),
                    request_id,
                },
            ),
        ),
        Err(error) => Err(error),
    }
}

/// What happens to a running generation.
#[derive(Debug)]
pub enum GenerationEvent {
    ConnectionClosed,
    Response(AgentJsonRpcResponse),
    ResponsesEnded,
}

/// Whether a running generation is waited for any longer. One that is not can
/// not be stopped any more either.
#[derive(Clone, Copy, Debug, PartialEq, Eq, Structural)]
pub enum GenerationStep {
    Wait,
    Finish,
}

impl ManagementSocketClientView {
    /// After it was tried to queue a message to the balancer.
    pub open spec fn sent(
        self,
        message: ManagementJsonRpcMessage,
        accepted: bool,
    ) -> ManagementSocketClientView {
        ManagementSocketClientView { messages: self.messages.push((message, accepted)), ..self }
    }

}

/// How an event leaves a running generation and the collection of those that can be
/// stopped. A response is sent over the connection that the generation was started
/// over; a generation that is not waited for any longer cannot be stopped any more.
pub open spec fn generation_goes_on(
    before: RunningGeneration,
    after: RunningGeneration,
    stoppers_before: Map<Seq<char>, usize>,
    stoppers_after: Map<Seq<char>, usize>,
    event: GenerationEvent,
    step: GenerationStep,
) -> bool {
    &&& after.channel == before.channel
    &&& after.connection_close == before.connection_close
    &&& after.request_id == before.request_id
    &&& balancer_queue_fed_by(after.message_tx) == balancer_queue_fed_by(before.message_tx)
    &&& stoppers_after == match step {
        GenerationStep::Wait => stoppers_before,
        GenerationStep::Finish => stoppers_before.remove(before.request_id@),
    }
    &&& match event {
        GenerationEvent::Response(response) => messages_to_balancer(after.message_tx)
            == messages_to_balancer(before.message_tx).push(
            (response_message(before.request_id, response), step is Wait),
        ),
        _ => step is Finish && after.message_tx == before.message_tx,
    }
}

impl RunningGeneration {
    /// Passes what the generation yields on to the balancer. It is waited for until
    /// it ends, its connection is closed, or the balancer cannot be reached over
    /// that; from then on it is not known any more.
    pub fn forward_response(
        &mut self,
        receive_stream_stopper_collection: &mut ReceiveStreamStopperCollection,
        event: GenerationEvent,
    ) -> (step: GenerationStep)
        ensures
            generation_goes_on(
                *old(self),
                *final(self),
                old(receive_stream_stopper_collection)@,
                final(receive_stream_stopper_collection)@,
                event,
                step,
            ),
    {
        if let GenerationEvent::Response(response) = event {
            if send_to_balancer(
                &mut self.message_tx,
                ManagementJsonRpcMessage::Response(
                    ResponseEnvelope {
                        generated_by: None,
                        request_id: self.request_id.clone(),
                        response,
                    },
                ),
            ) {
                return GenerationStep::Wait;
            }
        }
        let _ = receive_stream_stopper_collection.deregister_stopper(self.request_id.as_str());
        GenerationStep::Finish
    }
}

/// Whether all that happened is that it was tried to answer a request.
pub open spec fn answered(
    before: ManagementSocketClientView,
    after: ManagementSocketClientView,
    request_id: String,
    response: AgentJsonRpcResponse,
    result: Result<ClientEffect, ClientError>,
) -> bool {
    &&& after == before.sent(response_message(request_id, response), result is Ok)
    &&& match result {
        Ok(effect) => effect is Nothing,
        Err(error) => error is MessageReceiverDropped,
    }
}

/// What comes of the start of a generation.
pub open spec fn started(
    queue: int,
    connection_close: CancellationToken,
    request_id: String,
    channel: usize,
    result: Result<ClientEffect, ClientError>,
    start: Result<(), ClientError>,
) -> bool {
    match result {
        Ok(effect) => {
            &&& start is Ok
            &&& effect matches ClientEffect::ForwardResponses(generation)
            &&& generation.is_new(request_id, channel, queue, connection_close)
        },
        Err(error) => start matches Err(reason) && reason == error,
    }
}

/// How a message of the balancer leaves the agent, and what comes of it.
pub open spec fn handled(
    before: ManagementSocketClientView,
    after: ManagementSocketClientView,
    connection_close: CancellationToken,
    channel: usize,
    facts: AgentFacts,
    message: AgentJsonRpcMessage,
    result: Result<ClientEffect, ClientError>,
) -> bool {
    match message {
        AgentJsonRpcMessage::Error(_) => {
            &&& after == before
            &&& result matches Ok(effect) && effect is Nothing
        },
        AgentJsonRpcMessage::Notification(AgentJsonRpcNotification::SetState(params)) => {
            &&& after == ManagementSocketClientView {
                desired_states: before.desired_states.push((params.desired_state, result is Ok)),
                ..before
            }
            &&& match result {
                Ok(effect) => effect is Nothing,
                Err(error) => error is DesiredStateReceiverDropped,
            }
        },
        AgentJsonRpcMessage::Notification(AgentJsonRpcNotification::StopRespondingTo(id)) => {
            &&& after == before
            &&& result matches Ok(effect) && effect == match number_under(before.stoppers, id@) {
                Some(running) => ClientEffect::SignalStop(running),
                None => ClientEffect::Nothing,
            }
        },
        AgentJsonRpcMessage::Notification(AgentJsonRpcNotification::Version(params)) => {
            &&& after == before
            &&& result matches Ok(effect) && effect == if params.version@ == facts.version@ {
                ClientEffect::Nothing
            } else {
                ClientEffect::WarnVersionMismatch(params.version)
            }
        },
        AgentJsonRpcMessage::Request(envelope) => match envelope.request {
            AgentJsonRpcRequest::ContinueFromConversationHistory(params) => {
                let request = GenerationRequest {
                    channel,
                    params: GenerationParams::ContinueFromConversationHistory(params),
                };
                &&& after == ManagementSocketClientView {
                    conversation_requests: after.conversation_requests,
                    stoppers: after.stoppers,
                    ..before
                }
                &&& exists|start: Result<(), ClientError>|
                    {
                        &&& #[trigger] started(
                            before.queue,
                            connection_close,
                            envelope.id,
                            channel,
                            result,
                            start,
                        )
                        &&& generation_leaves(
                            before.stoppers,
                            after.stoppers,
                            before.conversation_requests,
                            after.conversation_requests,
                            envelope.id@,
                            request,
                            start,
                        )
                    }
            },
            AgentJsonRpcRequest::ContinueFromRawPrompt(params) => {
                let request = GenerationRequest {
                    channel,
                    params: GenerationParams::ContinueFromRawPrompt(params),
                };
                &&& after == ManagementSocketClientView {
                    raw_prompt_requests: after.raw_prompt_requests,
                    stoppers: after.stoppers,
                    ..before
                }
                &&& exists|start: Result<(), ClientError>|
                    {
                        &&& #[trigger] started(
                            before.queue,
                            connection_close,
                            envelope.id,
                            channel,
                            result,
                            start,
                        )
                        &&& generation_leaves(
                            before.stoppers,
                            after.stoppers,
                            before.raw_prompt_requests,
                            after.raw_prompt_requests,
                            envelope.id@,
                            request,
                            start,
                        )
                    }
            },
            AgentJsonRpcRequest::GenerateEmbeddingBatch(params) => {
                let request = GenerationRequest {
                    channel,
                    params: GenerationParams::GenerateEmbeddingBatch(params),
                };
                &&& after == ManagementSocketClientView {
                    embedding_requests: after.embedding_requests,
                    stoppers: after.stoppers,
                    ..before
                }
                &&& exists|start: Result<(), ClientError>|
                    {
                        &&& #[trigger] started(
                            before.queue,
                            connection_close,
                            envelope.id,
                            channel,
                            result,
                            start,
                        )
                        &&& generation_leaves(
                            before.stoppers,
                            after.stoppers,
                            before.embedding_requests,
                            after.embedding_requests,
                            envelope.id@,
                            request,
                            start,
                        )
                    }
            },
            AgentJsonRpcRequest::GetChatTemplateOverride => answered(
                before,
                after,
                envelope.id,
                AgentJsonRpcResponse::ChatTemplateOverride(facts.chat_template_override),
                result,
            ),
            AgentJsonRpcRequest::GetModelMetadata => answered(
                before,
                after,
                envelope.id,
                AgentJsonRpcResponse::ModelMetadata(facts.model_metadata),
                result,
            ),
        },
    }
}

/// A message on the socket. A text is the message it stands for, where it
/// stands for one.
#[derive(Debug)]
pub enum SocketMessage {
    Text(Option<AgentJsonRpcMessage>),
    Binary,
    Close,
    Frame,
    Ping(Bytes),
    Pong,
}

/// What came of a message before its error became something to log.
pub open spec fn unlogged(result: Result<ClientEffect, ClientError>) -> Result<
    ClientEffect,
    ClientError,
> {
    match result {
        Ok(ClientEffect::LogError(error)) => Err(error),
        _ => result,
    }
}

/// How a connection to the balancer came out.
#[derive(Clone, Copy, Debug, PartialEq, Eq, Structural)]
pub enum ConnectOutcome {
    Connected,
    Failed,
    /// The agent shut down before the connection was made.
    ShutDown,
}

/// What to do about the outcome of a connection attempt.
#[derive(Clone, Copy, Debug, PartialEq, Eq, Structural)]
pub enum ConnectDecision {
    Proceed,
    /// Report the failure; another attempt follows.
    Fail,
    /// End without an error.
    Return,
}

/// Goes on after an attempt to connect. An agent that shuts down gives up an
/// attempt that is under way.
pub fn after_connect(outcome: ConnectOutcome) -> (decision: ConnectDecision)
    ensures
        decision == match outcome {
            ConnectOutcome::Connected => ConnectDecision::Proceed,
            ConnectOutcome::Failed => ConnectDecision::Fail,
            ConnectOutcome::ShutDown => ConnectDecision::Return,
        },
{
    match outcome {
        ConnectOutcome::Connected => ConnectDecision::Proceed,
        ConnectOutcome::Failed => ConnectDecision::Fail,
        ConnectOutcome::ShutDown => ConnectDecision::Return,
    }
}

/// What happens on an open connection.
#[derive(Debug)]
pub enum ConnectionEvent {
    ConnectionClosed,
    Shutdown,
    /// The state of the agent changed.
    StatusChanged,
    /// The state of the agent will not change any more.
    StatusClosed,
    /// It is time for a periodic status update.
    Tick,
    Message(SocketMessage),
    ReadFailed,
    ReadEnded,
}

/// What an event on an open connection leads to.
#[derive(Debug)]
pub enum ConnectionStep {
    /// The connection stays open; something may be left to do, or to log.
    Continue(Result<ClientEffect, ClientError>),
    /// The connection is to be left, as [`ManagementSocketClientService::leave`] does.
    Leave,
}

/// Whether `snapshot` is what `status` amounts to with the given rate.
pub open spec fn is_snapshot_of(
    snapshot: SlotAggregatedStatusSnapshot,
    status: SlotAggregatedStatusView,
    tokens_per_second: TokensPerSecond,
) -> bool {
    AgentStateApplicationStatus::of_code(status.state_application_status_code) matches Some(code)
        && snapshot@ == status.snapshot(code, tokens_per_second)
}

/// Whether `message` registers an agent of that name with that state.
pub open spec fn is_registration(
    message: ManagementJsonRpcMessage,
    name: Option<Seq<char>>,
    status: SlotAggregatedStatusView,
    tokens_per_second: TokensPerSecond,
) -> bool {
    &&& message matches ManagementJsonRpcMessage::Notification(
        ManagementJsonRpcNotification::RegisterAgent(params),
    )
    &&& text_of(params.name) == name
    &&& is_snapshot_of(params.slot_aggregated_status_snapshot, status, tokens_per_second)
}

/// Whether `message` reports that state.
pub open spec fn is_status_update(
    message: ManagementJsonRpcMessage,
    status: SlotAggregatedStatusView,
    tokens_per_second: TokensPerSecond,
) -> bool {
    &&& message matches ManagementJsonRpcMessage::Notification(
        ManagementJsonRpcNotification::UpdateAgentStatus(params),
    )
    &&& is_snapshot_of(params.slot_aggregated_status_snapshot, status, tokens_per_second)
}

/// Whether all that happened is that it was tried to register the agent.
pub open spec fn registered(
    before: ManagementSocketClientView,
    after: ManagementSocketClientView,
    status: SlotAggregatedStatusView,
    tokens_per_second: TokensPerSecond,
) -> bool {
    exists|message: ManagementJsonRpcMessage, accepted: bool|
        {
            &&& is_registration(message, before.name, status, tokens_per_second)
            &&& after == #[trigger] before.sent(message, accepted)
        }
}

/// Whether all that happened is that it was tried to report the state of the
/// agent, which has to have a valid status code for that.
pub open spec fn reported(
    before: ManagementSocketClientView,
    after: ManagementSocketClientView,
    status: SlotAggregatedStatusView,
    tokens_per_second: TokensPerSecond,
) -> bool {
    if AgentStateApplicationStatus::of_code(status.state_application_status_code) is None {
        after == before
    } else {
        exists|message: ManagementJsonRpcMessage, accepted: bool|
            {
                &&& is_status_update(message, status, tokens_per_second)
                &&& after == #[trigger] before.sent(message, accepted)
            }
    }
}

/// The message with which an agent reports its state, if that has a valid status
/// code.
pub fn status_update_message(
    slot_aggregated_status: &SlotAggregatedStatus,
    tokens_per_second: TokensPerSecond,
) -> (result: Option<ManagementJsonRpcMessage>)
    ensures
        match result {
            Some(message) => is_status_update(message, slot_aggregated_status@, tokens_per_second),
            None => AgentStateApplicationStatus::of_code(
                slot_aggregated_status@.state_application_status_code,
            ) is None,
        },
{
    match slot_aggregated_status.make_snapshot(tokens_per_second) {
        Ok(slot_aggregated_status_snapshot) => Some(
            ManagementJsonRpcMessage::Notification(
                ManagementJsonRpcNotification::UpdateAgentStatus(
                    UpdateAgentStatusParams { slot_aggregated_status_snapshot },
                ),
            ),
        ),
        Err(_) => None,
    }
}

impl ManagementSocketClientService {
    /// Handles a message of the balancer. A generation that it starts uses
    /// `channel`, and ends once the connection is closed.
    pub fn handle_deserialized_message(
        &mut self,
        connection_close: &CancellationToken,
        channel: usize,
        facts: AgentFacts,
        deserialized_message: AgentJsonRpcMessage,
    ) -> (result: Result<ClientEffect, ClientError>)
        ensures
            handled(
                old(self)@,
                final(self)@,
                *connection_close,
                channel,
                facts,
                deserialized_message,
                result,
            ),
    {
        match deserialized_message {
            AgentJsonRpcMessage::Error(_) => Ok(ClientEffect::Nothing),
            AgentJsonRpcMessage::Notification(
                AgentJsonRpcNotification::SetState(params),
            ) => {
                let params = *params;
                if send_desired_state(&mut self.agent_desired_state_tx, params.desired_state) {
                    Ok(ClientEffect::Nothing)
                } else {
                    Err(ClientError::DesiredStateReceiverDropped)
                }
            },
            AgentJsonRpcMessage::Notification(
                AgentJsonRpcNotification::StopRespondingTo(request_id),
            ) => match self.receive_stream_stopper_collection.stop(request_id.as_str()) {
                Some(running) => Ok(ClientEffect::SignalStop(running)),
                None => Ok(ClientEffect::Nothing),
            },
            AgentJsonRpcMessage::Notification(AgentJsonRpcNotification::Version(params)) => {
                if params.version != facts.version {
                    Ok(ClientEffect::WarnVersionMismatch(params.version))
                } else {
                    Ok(ClientEffect::Nothing)
                }
            },
            AgentJsonRpcMessage::Request(envelope) => {
                let id = envelope.id;
                match envelope.request {
                    AgentJsonRpcRequest::ContinueFromConversationHistory(params) => {
                        let start = generate_responses(
                            id.clone(),
                            GenerationRequest {
                                channel,
                                params: GenerationParams::ContinueFromConversationHistory(params),
                            },
                            &mut self.receive_stream_stopper_collection,
                            &mut self.continue_from_conversation_history_request_tx,
                        );
                        begun(&self.message_tx, connection_close, id, channel, start)
                    },
                    AgentJsonRpcRequest::ContinueFromRawPrompt(params) => {
                        let start = generate_responses(
                            id.clone(),
                            GenerationRequest {
                                channel,
                                params: GenerationParams::ContinueFromRawPrompt(params),
                            },
                            &mut self.receive_stream_stopper_collection,
                            &mut self.continue_from_raw_prompt_request_tx,
                        );
                        begun(&self.message_tx, connection_close, id, channel, start)
                    },
                    AgentJsonRpcRequest::GenerateEmbeddingBatch(params) => {
                        let start = generate_responses(
                            id.clone(),
                            GenerationRequest {
                                channel,
                                params: GenerationParams::GenerateEmbeddingBatch(params),
                            },
                            &mut self.receive_stream_stopper_collection,
                            &mut self.generate_embedding_batch_request_tx,
                        );
                        begun(&self.message_tx, connection_close, id, channel, start)
                    },
                    AgentJsonRpcRequest::GetChatTemplateOverride => self.reply(
                        id,
                        AgentJsonRpcResponse::ChatTemplateOverride(facts.chat_template_override),
                    ),
                    AgentJsonRpcRequest::GetModelMetadata => self.reply(
                        id,
                        AgentJsonRpcResponse::ModelMetadata(facts.model_metadata),
                    ),
                }
            },
        }
    }

    fn reply(&mut self, id: String, response: AgentJsonRpcResponse) -> (result: Result<
        ClientEffect,
        ClientError,
    >)
        ensures
            answered(old(self)@, final(self)@, id, response, result),
    {
        if send_to_balancer(
            &mut self.message_tx,
            ManagementJsonRpcMessage::Response(
                ResponseEnvelope { generated_by: None, request_id: id, response },
            ),
        ) {
            Ok(ClientEffect::Nothing)
        } else {
            Err(ClientError::MessageReceiverDropped)
        }
    }

    /// Handles a message on the socket. A text that could not be understood, or
    /// not be handled, is no error; a ping that could not be answered is one.
    pub fn handle_incoming_message(
        &mut self,
        connection_close: &CancellationToken,
        channel: usize,
        facts: AgentFacts,
        msg: SocketMessage,
        pong_tx: &mut mpsc::UnboundedSender<Bytes>,
    ) -> (result: Result<ClientEffect, ClientError>)
        ensures
            !(msg is Ping) ==> *final(pong_tx) == *old(pong_tx),
            match msg {
                SocketMessage::Text(Some(message)) => result is Ok && handled(
                    old(self)@,
                    final(self)@,
                    *connection_close,
                    channel,
                    facts,
                    message,
                    unlogged(result),
                ),
                SocketMessage::Ping(payload) => {
                    &&& final(self)@ == old(self)@
                    &&& pongs_sent(*final(pong_tx)) == pongs_sent(*old(pong_tx)).push(
                        (payload, result is Ok),
                    )
                    &&& match result {
                        Ok(effect) => effect is Nothing,
                        Err(error) => error is PongReceiverDropped,
                    }
                },
                _ => {
                    &&& final(self)@ == old(self)@
                    &&& result matches Ok(effect) && effect is Nothing
                },
            },
    {
        match msg {
            SocketMessage::Text(Some(message)) => {
                match self.handle_deserialized_message(connection_close, channel, facts, message) {
                    Ok(effect) => Ok(effect),
                    Err(error) => Ok(ClientEffect::LogError(error)),
                }
            },
            SocketMessage::Text(None) => Ok(ClientEffect::Nothing),
            SocketMessage::Binary => Ok(ClientEffect::Nothing),
            SocketMessage::Close => Ok(ClientEffect::Nothing),
            SocketMessage::Frame => Ok(ClientEffect::Nothing),
            SocketMessage::Ping(payload) => {
                if send_pong(pong_tx, payload) {
                    Ok(ClientEffect::Nothing)
                } else {
                    Err(ClientError::PongReceiverDropped)
                }
            },
            SocketMessage::Pong => Ok(ClientEffect::Nothing),
        }
    }

    /// The message with which the agent registers; an error if its state has no
    /// valid status code.
    pub fn registration_message(
        &self,
        slot_aggregated_status: &SlotAggregatedStatus,
        tokens_per_second: TokensPerSecond,
    ) -> (result: Result<ManagementJsonRpcMessage, InvalidAgentStateApplicationStatus>)
        ensures
            match result {
                Ok(message) => is_registration(
                    message,
                    self@.name,
                    slot_aggregated_status@,
                    tokens_per_second,
                ),
                Err(error) => {
                    &&& AgentStateApplicationStatus::of_code(error.value) is None
                    &&& error.value == slot_aggregated_status@.state_application_status_code
                },
            },
    {
        match slot_aggregated_status.make_snapshot(tokens_per_second) {
            Ok(slot_aggregated_status_snapshot) => Ok(
                ManagementJsonRpcMessage::Notification(
                    ManagementJsonRpcNotification::RegisterAgent(
                        RegisterAgentParams {
                            name: clone_text(&self.name),
                            slot_aggregated_status_snapshot,
                        },
                    ),
                ),
            ),
            Err(error) => Err(error),
        }
    }

    /// Registers the agent over a new connection; an error if its state has no
    /// valid status code.
    pub fn register(
        &mut self,
        slot_aggregated_status: &SlotAggregatedStatus,
        tokens_per_second: TokensPerSecond,
    ) -> (result: Result<(), InvalidAgentStateApplicationStatus>)
        ensures
            match result {
                Ok(()) => registered(
                    old(self)@,
                    final(self)@,
                    slot_aggregated_status@,
                    tokens_per_second,
                ),
                Err(error) => {
                    &&& final(self)@ == old(self)@
                    &&& error.value == slot_aggregated_status@.state_application_status_code
                },
            },
            result is Err <==> AgentStateApplicationStatus::of_code(
                slot_aggregated_status@.state_application_status_code,
            ) is None,
    {
        match self.registration_message(slot_aggregated_status, tokens_per_second) {
            Ok(message) => {
                let accepted = send_to_balancer(&mut self.message_tx, message);
                assert(self@ == old(self)@.sent(message, accepted));
                Ok(())
            },
            Err(error) => Err(error),
        }
    }

    /// Reports the state of the agent, unless it has no valid status code.
    pub fn send_status_update(
        &mut self,
        slot_aggregated_status: &SlotAggregatedStatus,
        tokens_per_second: TokensPerSecond,
    )
        ensures
            reported(old(self)@, final(self)@, slot_aggregated_status@, tokens_per_second),
    {
        if let Some(message) = status_update_message(slot_aggregated_status, tokens_per_second) {
            let accepted = send_to_balancer(&mut self.message_tx, message);
            assert(self@ == old(self)@.sent(message, accepted));
        }
    }

    /// Keeps a connection alive: reports the state of the agent whenever it
    /// changes and once in a while, handles messages, and leaves when the
    /// connection ends or the agent shuts down.
    pub fn keep_connection_alive(
        &mut self,
        connection_close: &mut CancellationToken,
        pong_tx: &mut mpsc::UnboundedSender<Bytes>,
        slot_aggregated_status: &SlotAggregatedStatus,
        tokens_per_second: TokensPerSecond,
        channel: usize,
        facts: AgentFacts,
        event: ConnectionEvent,
    ) -> (step: ConnectionStep)
        ensures
            (event is ReadFailed || event is ReadEnded) ==> was_cancelled(
                *old(connection_close),
                *final(connection_close),
            ),
            !(event is ReadFailed || event is ReadEnded) ==> *final(connection_close) == *old(
                connection_close,
            ),
            !(event matches ConnectionEvent::Message(SocketMessage::Ping(_))) ==> *final(pong_tx)
                == *old(pong_tx),
            match event {
                ConnectionEvent::StatusChanged | ConnectionEvent::Tick => {
                    &&& step matches ConnectionStep::Continue(Ok(effect)) && effect is Nothing
                    &&& reported(
                        old(self)@,
                        final(self)@,
                        slot_aggregated_status@,
                        tokens_per_second,
                    )
                },
                ConnectionEvent::Message(SocketMessage::Text(Some(message))) => {
                    &&& step matches ConnectionStep::Continue(result)
                    &&& result is Ok
                    &&& handled(
                        old(self)@,
                        final(self)@,
                        *old(connection_close),
                        channel,
                        facts,
                        message,
                        unlogged(result),
                    )
                },
                ConnectionEvent::Message(SocketMessage::Ping(payload)) => {
                    &&& final(self)@ == old(self)@
                    &&& step matches ConnectionStep::Continue(result)
                    &&& pongs_sent(*final(pong_tx)) == pongs_sent(*old(pong_tx)).push(
                        (payload, result is Ok),
                    )
                    &&& match result {
                        Ok(effect) => effect is Nothing,
                        Err(error) => error is PongReceiverDropped,
                    }
                },
                ConnectionEvent::Message(_) => {
                    &&& final(self)@ == old(self)@
                    &&& step matches ConnectionStep::Continue(Ok(effect)) && effect is Nothing
                },
                _ => step is Leave && final(self)@ == old(self)@,
            },
    {
        match event {
            ConnectionEvent::ConnectionClosed => ConnectionStep::Leave,
            ConnectionEvent::Shutdown => ConnectionStep::Leave,
            ConnectionEvent::StatusClosed => ConnectionStep::Leave,
            ConnectionEvent::StatusChanged => {
                self.send_status_update(slot_aggregated_status, tokens_per_second);
                ConnectionStep::Continue(Ok(ClientEffect::Nothing))
            },
            ConnectionEvent::Tick => {
                self.send_status_update(slot_aggregated_status, tokens_per_second);
                ConnectionStep::Continue(Ok(ClientEffect::Nothing))
            },
            ConnectionEvent::Message(msg) => ConnectionStep::Continue(
                self.handle_incoming_message(connection_close, channel, facts, msg, pong_tx),
            ),
            ConnectionEvent::ReadFailed => {
                cancel(connection_close);
                ConnectionStep::Leave
            },
            ConnectionEvent::ReadEnded => {
                cancel(connection_close);
                ConnectionStep::Leave
            },
        }
    }

    /// Leaves a connection: the agent deregisters, and the connection is closed
    /// once what is queued was sent.
    pub fn leave(&mut self, connection_close: &mut CancellationToken)
        ensures
            was_cancelled(*old(connection_close), *final(connection_close)),
            exists|accepted: bool|
                final(self)@ == #[trigger] old(self)@.sent(
                    ManagementJsonRpcMessage::Notification(
                        ManagementJsonRpcNotification::DeregisterAgent,
                    ),
                    accepted,
                ),
    {
        let accepted = send_to_balancer(
            &mut self.message_tx,
            ManagementJsonRpcMessage::Notification(ManagementJsonRpcNotification::DeregisterAgent),
        );
        cancel(connection_close);
        assert(self@ == old(self)@.sent(
            ManagementJsonRpcMessage::Notification(ManagementJsonRpcNotification::DeregisterAgent),
            accepted,
        ));
    }
}

/// What happens to the queues of a connection.
#[derive(Debug)]
pub enum OutgoingEvent {
    ConnectionClosed,
    Message(ManagementJsonRpcMessage),
    MessagesEnded,
    Pong(Bytes),
    PongsEnded,
}

/// What to do about the queues of a connection.
#[derive(Debug)]
pub enum OutgoingAction {
    /// Send what is queued already, and end.
    FlushAndStop,
    SendMessage(ManagementJsonRpcMessage),
    SendPong(Bytes),
    Stop,
}

/// Decides what to do about the queues of a connection.
pub fn forward_outgoing(event: OutgoingEvent) -> (action: OutgoingAction)
    ensures
        action == match event {
            OutgoingEvent::ConnectionClosed => OutgoingAction::FlushAndStop,
            OutgoingEvent::Message(message) => OutgoingAction::SendMessage(message),
            OutgoingEvent::MessagesEnded => OutgoingAction::Stop,
            OutgoingEvent::Pong(payload) => OutgoingAction::SendPong(payload),
            OutgoingEvent::PongsEnded => OutgoingAction::Stop,
        },
{
    match event {
        OutgoingEvent::ConnectionClosed => OutgoingAction::FlushAndStop,
        OutgoingEvent::Message(message) => OutgoingAction::SendMessage(message),
        OutgoingEvent::MessagesEnded => OutgoingAction::Stop,
        OutgoingEvent::Pong(payload) => OutgoingAction::SendPong(payload),
        OutgoingEvent::PongsEnded => OutgoingAction::Stop,
    }
}

/// How sending over the socket came out.
#[derive(Clone, Copy, Debug, PartialEq, Eq, Structural)]
pub enum SocketSendOutcome {
    Sent,
    /// The message has no JSON form.
    NotSerializable,
    Failed,
}

/// Whether sending goes on after a message, also while what is queued is being
/// flushed: a message without a JSON form is skipped, a broken socket ends it.
pub fn goes_on_after_message(outcome: SocketSendOutcome) -> (goes_on: bool)
    ensures
        goes_on == !(outcome is Failed),
{
    match outcome {
        SocketSendOutcome::Sent => true,
        SocketSendOutcome::NotSerializable => true,
        SocketSendOutcome::Failed => false,
    }
}

/// What the service does about the passing of time and a shutdown: it connects
/// anew whenever a connection ended.
#[derive(Clone, Copy, Debug, PartialEq, Eq, Structural)]
pub enum ServiceStep {
    Connect,
    Stop,
}

/// Decides whether to connect.
pub fn run_step(shutdown: bool) -> (step: ServiceStep)
    ensures
        step == if shutdown {
            ServiceStep::Stop
        } else {
            ServiceStep::Connect
        },
{
    if shutdown {
        ServiceStep::Stop
    } else {
        ServiceStep::Connect
    }
}

/// The name of the service.
pub fn name() -> (name: &'static str)
    ensures
        name@ == "agent::management_socket_client_service"@,
{
    "agent::management_socket_client_service"
}

/// A generation that was started can be stopped over its channel, until it
/// finished; then a stop finds nothing, and nothing of it is kept.
pub proof fn a_generation_can_be_stopped_while_it_runs(
    before: ManagementSocketClientView,
    after: ManagementSocketClientView,
    connection_close: CancellationToken,
    channel: usize,
    facts: AgentFacts,
    id: String,
    request: AgentJsonRpcRequest,
    effect: ClientEffect,
)
    requires
        !(request is GetChatTemplateOverride),
        !(request is GetModelMetadata),
        handled(
            before,
            after,
            connection_close,
            channel,
            facts,
            AgentJsonRpcMessage::Request(
                RequestEnvelope { id, request },
            ),
            Ok(effect),
        ),
    ensures
        number_under(after.stoppers, id@) == Some(channel),
        number_under(after.stoppers.remove(id@), id@) is None,
        after.stoppers.remove(id@) == before.stoppers,
{
    assert(after.stoppers.remove(id@) =~= before.stoppers);
}

/// A generation answers over the connection that its request came over, whatever
/// connections the agent has made since: `generations` are what it is before each of
/// the events and at the end.
pub proof fn a_generation_answers_over_its_own_connection(
    before: ManagementSocketClientView,
    after: ManagementSocketClientView,
    connection_close: CancellationToken,
    channel: usize,
    facts: AgentFacts,
    message: AgentJsonRpcMessage,
    generations: Seq<RunningGeneration>,
    stoppers: Seq<(Map<Seq<char>, usize>, Map<Seq<char>, usize>)>,
    events: Seq<GenerationEvent>,
    steps: Seq<GenerationStep>,
    i: int,
)
    requires
        generations.len() > 0,
        handled(
            before,
            after,
            connection_close,
            channel,
            facts,
            message,
            Ok(ClientEffect::ForwardResponses(generations[0])),
        ),
        forall|j: int|
            0 <= j < generations.len() - 1 ==> generation_goes_on(
                #[trigger] generations[j],
                generations[j + 1],
                stoppers[j].0,
                stoppers[j].1,
                events[j],
                steps[j],
            ),
        0 <= i < generations.len(),
    ensures
        balancer_queue_fed_by(generations[i].message_tx) == before.queue,
        cancels(generations[i].connection_close) == cancels(connection_close),
    decreases i,
{
    if i > 0 {
        a_generation_answers_over_its_own_connection(
            before,
            after,
            connection_close,
            channel,
            facts,
            message,
            generations,
            stoppers,
            events,
            steps,
            i - 1,
        );
        assert(generation_goes_on(
            generations[i - 1],
            generations[i - 1 + 1],
            stoppers[i - 1].0,
            stoppers[i - 1].1,
            events[i - 1],
            steps[i - 1],
        ));
    }
}

/// Whether the message asks for something to be generated.
pub open spec fn asks_to_generate(message: AgentJsonRpcMessage) -> bool {
    message matches AgentJsonRpcMessage::Request(envelope) && (
    envelope.request is ContinueFromConversationHistory || envelope.request is ContinueFromRawPrompt
        || envelope.request is GenerateEmbeddingBatch)
}

/// What is asked of an agent goes where it belongs, and nowhere else: a desired state to
/// whoever applies it, and what is to be generated, as it is and with the given channel,
/// to whoever generates things of its sort.
pub proof fn requests_go_where_they_belong(
    service: &mut ManagementSocketClientService,
    connection_close: &CancellationToken,
    channel: usize,
    facts: AgentFacts,
    message: AgentJsonRpcMessage,
    result: Result<ClientEffect, ClientError>,
)
    requires
        call_ensures(
            ManagementSocketClientService::handle_deserialized_message,
            (service, connection_close, channel, facts, message),
            result,
        ),
    ensures
        ({
            let before = old(service)@;
            let after = final(service)@;
            &&& after.desired_states != before.desired_states ==> {
                &&& message matches AgentJsonRpcMessage::Notification(
                    AgentJsonRpcNotification::SetState(params),
                )
                &&& after.desired_states.last().0 == params.desired_state
            }
            &&& message matches AgentJsonRpcMessage::Notification(
                AgentJsonRpcNotification::SetState(_),
            ) ==> {
                &&& after.desired_states.len() == before.desired_states.len() + 1
                &&& after.desired_states.last().1 <==> result is Ok
                &&& result matches Err(error) ==> error is DesiredStateReceiverDropped
            }
            &&& after.conversation_requests != before.conversation_requests ==> {
                &&& message matches AgentJsonRpcMessage::Request(envelope)
                &&& envelope.request matches AgentJsonRpcRequest::ContinueFromConversationHistory(
                    params,
                )
                &&& after.conversation_requests.last().0.params
                    == GenerationParams::ContinueFromConversationHistory(params)
                &&& after.conversation_requests.last().0.channel == channel
            }
            &&& after.raw_prompt_requests != before.raw_prompt_requests ==> {
                &&& message matches AgentJsonRpcMessage::Request(envelope)
                &&& envelope.request matches AgentJsonRpcRequest::ContinueFromRawPrompt(params)
                &&& after.raw_prompt_requests.last().0.params
                    == GenerationParams::ContinueFromRawPrompt(params)
                &&& after.raw_prompt_requests.last().0.channel == channel
            }
            &&& after.embedding_requests != before.embedding_requests ==> {
                &&& message matches AgentJsonRpcMessage::Request(envelope)
                &&& envelope.request matches AgentJsonRpcRequest::GenerateEmbeddingBatch(params)
                &&& after.embedding_requests.last().0.params
                    == GenerationParams::GenerateEmbeddingBatch(params)
                &&& after.embedding_requests.last().0.channel == channel
            }
            &&& asks_to_generate(message) && !(result
                == Err::<ClientEffect, ClientError>(ClientError::StopperAlreadyRegistered))
                ==> after.conversation_requests.len() + after.raw_prompt_requests.len()
                + after.embedding_requests.len() == before.conversation_requests.len()
                + before.raw_prompt_requests.len() + before.embedding_requests.len() + 1
            &&& after.name == before.name
            &&& after.queue == before.queue
        }),
{
}

/// A generation runs, and can be stopped over its channel, exactly if something was to
/// be generated under an id under which nothing runs, and somebody generates it. A
/// second one under the same id is refused, and changes nothing.
pub proof fn one_generation_runs_under_an_id(
    service: &mut ManagementSocketClientService,
    connection_close: &CancellationToken,
    channel: usize,
    facts: AgentFacts,
    envelope: RequestEnvelope,
    result: Result<ClientEffect, ClientError>,
)
    requires
        call_ensures(
            ManagementSocketClientService::handle_deserialized_message,
            (service, connection_close, channel, facts, AgentJsonRpcMessage::Request(envelope)),
            result,
        ),
        asks_to_generate(AgentJsonRpcMessage::Request(envelope)),
    ensures
        ({
            let before = old(service)@;
            let after = final(service)@;
            let id = envelope.id@;
            &&& result == Err::<ClientEffect, ClientError>(ClientError::StopperAlreadyRegistered)
                <==> before.stoppers.contains_key(id)
            &&& before.stoppers.contains_key(id) ==> after == before
            &&& result is Err ==> after.stoppers == before.stoppers
            &&& result is Err && !before.stoppers.contains_key(id) ==> result
                == Err::<ClientEffect, ClientError>(ClientError::RequestReceiverDropped)
            &&& !before.stoppers.contains_key(id) ==> (result is Ok <==> match envelope.request {
                AgentJsonRpcRequest::ContinueFromConversationHistory(_) =>
                    after.conversation_requests.last().1,
                AgentJsonRpcRequest::ContinueFromRawPrompt(_) => after.raw_prompt_requests.last().1,
                _ => after.embedding_requests.last().1,
            })
            &&& result matches Ok(effect) ==> {
                &&& effect matches ClientEffect::ForwardResponses(generation)
                &&& generation.request_id == envelope.id
                &&& generation.channel == channel
                &&& balancer_queue_fed_by(generation.message_tx) == before.queue
                &&& cancels(generation.connection_close) == cancels(*connection_close)
                &&& after.stoppers.contains_key(id)
                &&& after.stoppers[id] == channel
                &&& after.stoppers.remove(id) == before.stoppers
            }
            &&& after.messages == before.messages
        }),
{
    if result is Ok {
        assert(final(service)@.stoppers.remove(envelope.id@) =~= old(service)@.stoppers);
    }
}

/// What is not to be generated is dealt with at once: what the agent knows is answered
/// under the id of the question, a running generation is told to stop, and another
/// version is told; anything else leads to nothing.
pub proof fn questions_are_answered_at_once(
    service: &mut ManagementSocketClientService,
    connection_close: &CancellationToken,
    channel: usize,
    facts: AgentFacts,
    message: AgentJsonRpcMessage,
    result: Result<ClientEffect, ClientError>,
)
    requires
        call_ensures(
            ManagementSocketClientService::handle_deserialized_message,
            (service, connection_close, channel, facts, message),
            result,
        ),
        !asks_to_generate(message),
    ensures
        ({
            let before = old(service)@;
            let after = final(service)@;
            &&& after.stoppers == before.stoppers
            &&& message matches AgentJsonRpcMessage::Request(envelope) ==> {
                &&& after.messages.len() == before.messages.len() + 1
                &&& after.messages.drop_last() == before.messages
                &&& after.messages.last().1 <==> result is Ok
                &&& result matches Err(error) ==> error is MessageReceiverDropped
                &&& after.messages.last().0 matches ManagementJsonRpcMessage::Response(answer)
                &&& answer.request_id == envelope.id
                &&& envelope.request is GetModelMetadata ==> answer.response
                    == AgentJsonRpcResponse::ModelMetadata(facts.model_metadata)
                &&& envelope.request is GetChatTemplateOverride ==> answer.response
                    == AgentJsonRpcResponse::ChatTemplateOverride(facts.chat_template_override)
            }
            &&& !(message is Request) ==> after.messages == before.messages
            &&& result matches Ok(effect) ==> match effect {
                ClientEffect::SignalStop(running) => {
                    &&& message matches AgentJsonRpcMessage::Notification(
                        AgentJsonRpcNotification::StopRespondingTo(id),
                    )
                    &&& before.stoppers.contains_key(id@)
                    &&& before.stoppers[id@] == running
                },
                ClientEffect::WarnVersionMismatch(version) => {
                    &&& message matches AgentJsonRpcMessage::Notification(
                        AgentJsonRpcNotification::Version(params),
                    )
                    &&& version == params.version
                    &&& version@ != facts.version@
                },
                ClientEffect::Nothing => {
                    &&& message matches AgentJsonRpcMessage::Notification(
                        AgentJsonRpcNotification::StopRespondingTo(id),
                    ) ==> !before.stoppers.contains_key(id@)
                    &&& message matches AgentJsonRpcMessage::Notification(
                        AgentJsonRpcNotification::Version(params),
                    ) ==> params.version@ == facts.version@
                },
                _ => false,
            }
        }),
{
    if message is Request {
        assert(final(service)@.messages.drop_last() =~= old(service)@.messages);
    }
}

/// Every response of a generation is sent over its own connection and under its own id.
/// It is waited for as long as its responses can be sent, and cannot be stopped any more
/// once it is not; other generations are left alone.
pub proof fn a_generation_is_forwarded_until_it_ends(
    generation: &mut RunningGeneration,
    stoppers: &mut ReceiveStreamStopperCollection,
    event: GenerationEvent,
    step: GenerationStep,
    other: Seq<char>,
)
    requires
        call_ensures(RunningGeneration::forward_response, (generation, stoppers, event), step),
        other != old(generation).request_id@,
    ensures
        ({
            let before = messages_to_balancer(old(generation).message_tx);
            let after = messages_to_balancer(final(generation).message_tx);
            &&& event matches GenerationEvent::Response(response) ==> {
                &&& after.len() == before.len() + 1
                &&& after.last().0 matches ManagementJsonRpcMessage::Response(envelope)
                &&& envelope.request_id == old(generation).request_id
                &&& envelope.response == response
                &&& step is Wait <==> after.last().1
            }
            &&& !(event is Response) ==> after == before && step is Finish
            &&& step is Finish ==> !final(stoppers)@.contains_key(old(generation).request_id@)
            &&& step is Wait ==> final(stoppers)@ == old(stoppers)@
            &&& final(stoppers)@.contains_key(other) <==> old(stoppers)@.contains_key(other)
            &&& old(stoppers)@.contains_key(other) ==> final(stoppers)@[other] == old(
                stoppers,
            )@[other]
            &&& balancer_queue_fed_by(final(generation).message_tx) == balancer_queue_fed_by(
                old(generation).message_tx,
            )
        }),
{
}

/// Whether `snapshot` says what `status` is, with the given rate.
pub open spec fn says_what_is(
    snapshot: SlotAggregatedStatusSnapshot,
    status: SlotAggregatedStatusView,
    tokens_per_second: TokensPerSecond,
) -> bool {
    &&& snapshot.desired_slots_total == status.desired_slots_total
    &&& snapshot.download_current == status.download_current
    &&& text_of(snapshot.download_filename) == status.download_filename
    &&& snapshot.download_indeterminate == status.download_indeterminate
    &&& snapshot.download_total == status.download_total
    &&& snapshot.issues@ == status.issues
    &&& text_of(snapshot.model_path) == status.model_path
    &&& snapshot.slots_processing == status.slots_processing
    &&& snapshot.slots_total == status.slots_total
    &&& snapshot.state_application_status.code_of() == status.state_application_status_code
    &&& snapshot.tokens_per_second == tokens_per_second
    &&& snapshot.uses_chat_template_override == status.uses_chat_template_override
    &&& snapshot.version == status.version
}

/// An agent registers under its name and with what it is; it does exactly if it has a
/// valid status code.
pub proof fn an_agent_registers_as_what_it_is(
    service: &mut ManagementSocketClientService,
    status: &SlotAggregatedStatus,
    tokens_per_second: TokensPerSecond,
    result: Result<(), InvalidAgentStateApplicationStatus>,
)
    requires
        call_ensures(
            ManagementSocketClientService::register,
            (service, status, tokens_per_second),
            result,
        ),
    ensures
        result is Ok <==> 0 <= status@.state_application_status_code < 5,
        result is Err ==> final(service)@ == old(service)@,
        result is Ok ==> {
            let before = old(service)@;
            let after = final(service)@;
            &&& after.messages.len() == before.messages.len() + 1
            &&& after.messages.last().0 matches ManagementJsonRpcMessage::Notification(
                ManagementJsonRpcNotification::RegisterAgent(params),
            )
            &&& text_of(params.name) == before.name
            &&& says_what_is(params.slot_aggregated_status_snapshot, status@, tokens_per_second)
            &&& after.stoppers == before.stoppers
        },
{
    let code = status@.state_application_status_code;
    codes_are_the_first_numbers(code);
    accepted_codes_are_codes_of_a_status(code);
}

/// A connection is left exactly if it ended, the agent shuts down, or its state will not
/// change any more. A change of its state is reported with what it is then, and so it is
/// once in a while; a ping is answered with its own payload.
pub proof fn a_connection_is_kept_until_it_ends(
    service: &mut ManagementSocketClientService,
    connection_close: &mut CancellationToken,
    pong_tx: &mut mpsc::UnboundedSender<Bytes>,
    status: &SlotAggregatedStatus,
    tokens_per_second: TokensPerSecond,
    channel: usize,
    facts: AgentFacts,
    event: ConnectionEvent,
    step: ConnectionStep,
)
    requires
        call_ensures(
            ManagementSocketClientService::keep_connection_alive,
            (
                service,
                connection_close,
                pong_tx,
                status,
                tokens_per_second,
                channel,
                facts,
                event,
            ),
            step,
        ),
    ensures
        step is Leave <==> event is ConnectionClosed || event is Shutdown || event is StatusClosed
            || event is ReadFailed || event is ReadEnded,
        step is Leave ==> final(service)@ == old(service)@,
        event is ReadFailed || event is ReadEnded ==> was_cancelled(
            *old(connection_close),
            *final(connection_close),
        ),
        !(event is ReadFailed || event is ReadEnded) ==> *final(connection_close) == *old(
            connection_close,
        ),
        (event is StatusChanged || event is Tick) && 0 <= status@.state_application_status_code < 5
            ==> {
            let before = old(service)@.messages;
            let after = final(service)@.messages;
            &&& after.len() == before.len() + 1
            &&& after.last().0 matches ManagementJsonRpcMessage::Notification(
                ManagementJsonRpcNotification::UpdateAgentStatus(params),
            )
            &&& says_what_is(params.slot_aggregated_status_snapshot, status@, tokens_per_second)
        },
        !(0 <= status@.state_application_status_code < 5) && (event is StatusChanged
            || event is Tick) ==> final(service)@ == old(service)@,
        event matches ConnectionEvent::Message(
            SocketMessage::Text(
                Some(
                    AgentJsonRpcMessage::Notification(
                        AgentJsonRpcNotification::StopRespondingTo(id),
                    ),
                ),
            ),
        ) ==> (old(service)@.stoppers.contains_key(id@) ==> step == ConnectionStep::Continue(
            Ok(ClientEffect::SignalStop(old(service)@.stoppers[id@])),
        )),
        event matches ConnectionEvent::Message(
            SocketMessage::Text(
                Some(AgentJsonRpcMessage::Notification(AgentJsonRpcNotification::SetState(params))),
            ),
        ) ==> final(service)@.desired_states.len() == old(service)@.desired_states.len() + 1
            && final(service)@.desired_states.last().0 == params.desired_state,
        event matches ConnectionEvent::Message(
            SocketMessage::Text(Some(AgentJsonRpcMessage::Request(envelope))),
        ) ==> (asks_to_generate(AgentJsonRpcMessage::Request(envelope)) ==> {
            &&& step matches ConnectionStep::Continue(Ok(effect))
            &&& effect is ForwardResponses || effect is LogError
            &&& effect is ForwardResponses ==> final(service)@.stoppers.contains_key(envelope.id@)
        }),
        event matches ConnectionEvent::Message(SocketMessage::Ping(payload)) ==> {
            let before = pongs_sent(*old(pong_tx));
            let after = pongs_sent(*final(pong_tx));
            &&& after.len() == before.len() + 1
            &&& after.last().0 == payload
            &&& final(service)@ == old(service)@
        },
        !(event matches ConnectionEvent::Message(SocketMessage::Ping(_))) ==> *final(pong_tx)
            == *old(pong_tx),
{
    let code = status@.state_application_status_code;
    codes_are_the_first_numbers(code);
    accepted_codes_are_codes_of_a_status(code);
}

/// The last thing that a balancer is told over a connection is that the agent leaves,
/// and the connection is closed along with that.
pub proof fn an_agent_says_that_it_leaves(
    service: &mut ManagementSocketClientService,
    connection_close: &mut CancellationToken,
)
    requires
        call_ensures(ManagementSocketClientService::leave, (service, connection_close), ()),
    ensures
        final(service)@.messages.len() == old(service)@.messages.len() + 1,
        final(service)@.messages.last().0 == ManagementJsonRpcMessage::Notification(
            ManagementJsonRpcNotification::DeregisterAgent,
        ),
        final(service)@.stoppers == old(service)@.stoppers,
        was_cancelled(*old(connection_close), *final(connection_close)),
{
}

/// What is queued for the balancer is sent as it is. Sending ends exactly if the
/// connection is closed or nothing can be queued any more, and what is queued already is
/// still sent exactly if the connection is closed.
pub proof fn what_is_queued_is_sent(event: OutgoingEvent, action: OutgoingAction)
    requires
        call_ensures(forward_outgoing, (event,), action),
    ensures
        event matches OutgoingEvent::Message(message) ==> action == OutgoingAction::SendMessage(
            message,
        ),
        event matches OutgoingEvent::Pong(payload) ==> action == OutgoingAction::SendPong(payload),
        action is FlushAndStop <==> event is ConnectionClosed,
        action is Stop <==> event is MessagesEnded || event is PongsEnded,
{
}

/// A text that could not be handled is told, and does not end the connection; what is no
/// text and no ping leads to nothing. A ping that cannot be answered is an error.
pub proof fn only_an_unanswered_ping_is_an_error(
    service: &mut ManagementSocketClientService,
    connection_close: &CancellationToken,
    channel: usize,
    facts: AgentFacts,
    message: SocketMessage,
    pong_tx: &mut mpsc::UnboundedSender<Bytes>,
    result: Result<ClientEffect, ClientError>,
)
    requires
        call_ensures(
            ManagementSocketClientService::handle_incoming_message,
            (service, connection_close, channel, facts, message, pong_tx),
            result,
        ),
    ensures
        result is Err ==> message is Ping,
        result matches Ok(effect) ==> (effect is LogError ==> (message matches SocketMessage::Text(
            Some(_),
        ))),
        !(message matches SocketMessage::Text(Some(_))) ==> final(service)@ == old(service)@,
        !(message matches SocketMessage::Text(Some(_))) && !(message is Ping) ==> (
        result matches Ok(effect) && effect is Nothing),
        message matches SocketMessage::Text(Some(AgentJsonRpcMessage::Request(envelope))) ==> (
        asks_to_generate(AgentJsonRpcMessage::Request(envelope)) && old(
            service,
        )@.stoppers.contains_key(envelope.id@) ==> result == Ok::<ClientEffect, ClientError>(
            ClientEffect::LogError(ClientError::StopperAlreadyRegistered),
        )),
        message matches SocketMessage::Text(
            Some(
                AgentJsonRpcMessage::Notification(AgentJsonRpcNotification::StopRespondingTo(id)),
            ),
        ) ==> (old(service)@.stoppers.contains_key(id@) ==> result == Ok::<
            ClientEffect,
            ClientError,
        >(ClientEffect::SignalStop(old(service)@.stoppers[id@]))),
        message matches SocketMessage::Ping(payload) ==> pongs_sent(*final(pong_tx)) == pongs_sent(
            *old(pong_tx),
        ).push((payload, result is Ok)),
{
}

/// A connection is worked with exactly if it was made, and another attempt follows a
/// failure; an agent that shuts down makes none. Sending goes on until the socket breaks.
pub proof fn an_agent_connects_until_it_shuts_down(
    outcome: ConnectOutcome,
    decision: ConnectDecision,
    shutdown: bool,
    step: ServiceStep,
    sent: SocketSendOutcome,
    goes_on: bool,
)
    requires
        call_ensures(after_connect, (outcome,), decision),
        call_ensures(run_step, (shutdown,), step),
        call_ensures(goes_on_after_message, (sent,), goes_on),
    ensures
        decision is Proceed <==> outcome is Connected,
        decision is Fail <==> outcome is Failed,
        decision is Return <==> outcome is ShutDown,
        step is Stop <==> shutdown,
        goes_on <==> !(sent is Failed),
{
}

/// At first no generation runs.
pub proof fn at_first_no_generation_runs(
    collection: ReceiveStreamStopperCollection,
    request_id: Seq<char>,
)
    requires
        call_ensures(ReceiveStreamStopperCollection::default, (), collection),
    ensures
        !collection@.contains_key(request_id),
{
}

} // verus!
