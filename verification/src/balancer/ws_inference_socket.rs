//! The balancer's side of its connection to a client that wants tokens.
use dashmap::DashMap;
use tokio_util::sync::CancellationToken;
use vstd::prelude::*;

use crate::balancer::request_from_agent::OutgoingMessage;
use crate::balancer::reconciliation_service::BalancerApplicableState;
use crate::balancer::reconciliation_service::BalancerApplicableStateHolder;
use crate::balancer::request_from_agent::respond_with_error;
use crate::balancer::ws_agent_socket::ContinuationDecision;
use crate::messaging::messages::AgentJsonRpcRequest;
use crate::messaging::messages::AgentJsonRpcResponse;
use crate::messaging::messages::ContinueFromConversationHistoryParams;
use crate::messaging::messages::ContinueFromRawPromptParams;
use crate::messaging::messages::ErrorEnvelope;
use crate::messaging::messages::GeneratedTokenResult;
use crate::messaging::messages::JsonRpcError;
use crate::messaging::messages::ResponseEnvelope;
use crate::outside::cancel_requested;
use crate::outside::cancelled_along_with;
use crate::outside::cancels;
use crate::outside::child_token;
use crate::outside::number_map;
use crate::outside::number_map_get;
use crate::outside::number_map_insert;
use crate::outside::number_map_new;
use crate::outside::number_map_remove;
use crate::outside::number_under;
use crate::outside::quote;
use crate::outside::quoted_text;

verus! {

/// Whether the agents generate tokens at all.
#[derive(Clone, Copy, Debug, PartialEq, Eq, Structural)]
pub enum ClusterTokenGenerationMode {
    /// The agents generate embeddings instead.
    DisabledForEmbeddings,
    Enabled,
}

impl ClusterTokenGenerationMode {
    /// The mode of a cluster whose balancer is in `state`.
    pub open spec fn of_state(state: Option<BalancerApplicableState>) -> ClusterTokenGenerationMode {
        match state {
            Some(state) => if state.agent_desired_state.inference_parameters.enable_embeddings {
                ClusterTokenGenerationMode::DisabledForEmbeddings
            } else {
                ClusterTokenGenerationMode::Enabled
            },
            None => ClusterTokenGenerationMode::Enabled,
        }
    }

    /// The mode of the cluster: tokens are generated unless the agents are asked
    /// for embeddings.
    pub fn from_applicable_state_holder(
        balancer_applicable_state_holder: &BalancerApplicableStateHolder,
    ) -> (mode: ClusterTokenGenerationMode)
        ensures
            mode == ClusterTokenGenerationMode::of_state(balancer_applicable_state_holder@),
    {
        match balancer_applicable_state_holder.get_agent_desired_state() {
            Some(state) => {
                if state.inference_parameters.enable_embeddings {
                    ClusterTokenGenerationMode::DisabledForEmbeddings
                } else {
                    ClusterTokenGenerationMode::Enabled
                }
            },
            None => ClusterTokenGenerationMode::Enabled,
        }
    }
}

/// The tokens with which the requests of a connection can be cancelled, by the
/// id of the request. A token is known by its number.
pub struct RequestCancellationTokens {
    tokens: DashMap<String, usize>,
}

/// Whether a request could be added to those in flight.
#[derive(Clone, Copy, Debug, PartialEq, Eq, Structural)]
pub enum RequestCancellationRegistration {
    Registered,
    DuplicateRequestId,
}

impl View for RequestCancellationTokens {
    type V = Map<Seq<char>, usize>;

    closed spec fn view(&self) -> Map<Seq<char>, usize> {
        number_map(self.tokens)
    }
}

impl RequestCancellationTokens {
    /// Adds a request to those in flight, unless there is one with that id.
    pub fn register(&mut self, request_id: String, token: usize) -> (registration:
        RequestCancellationRegistration)
        ensures
            registration is DuplicateRequestId <==> old(self)@.contains_key(request_id@),
            final(self)@ == if registration is Registered {
                old(self)@.insert(request_id@, token)
            } else {
                old(self)@
            },
    {
        if let Some(_) = number_map_get(&self.tokens, request_id.as_str()) {
            return RequestCancellationRegistration::DuplicateRequestId;
        }
        number_map_insert(&mut self.tokens, request_id, token);
        RequestCancellationRegistration::Registered
    }

    /// The token with which the request is to be cancelled, if it is in flight.
    pub fn cancel(&self, request_id: &str) -> (token: Option<usize>)
        ensures
            token == number_under(self@, request_id@),
    {
        number_map_get(&self.tokens, request_id)
    }

    /// Drops a request that is not in flight any more.
    pub fn deregister(&mut self, request_id: &str)
        ensures
            final(self)@ == old(self)@.remove(request_id@),
    {
        number_map_remove(&mut self.tokens, request_id);
    }
}

impl Default for RequestCancellationTokens {
    fn default() -> (tokens: Self)
        ensures
            tokens@ == Map::<Seq<char>, usize>::empty(),
    {
        RequestCancellationTokens { tokens: number_map_new() }
    }
}

/// Why the tools of a conversation are not acceptable.
#[derive(Debug)]
pub struct InvalidParameters {
    pub reason: String,
}

/// What a client can ask for. The tools of a conversation were validated.
#[derive(Debug)]
pub enum InferenceJsonRpcRequest {
    ContinueFromConversationHistory(
        Result<ContinueFromConversationHistoryParams, InvalidParameters>,
    ),
    ContinueFromRawPrompt(ContinueFromRawPromptParams),
}

/// A message of a client.
#[derive(Debug)]
pub enum InferenceJsonRpcMessage {
    Error(ErrorEnvelope),
    StopRespondingTo(String),
    Request(String, InferenceJsonRpcRequest),
}

/// What is left to do after a message of a client.
#[derive(Debug)]
pub enum InferenceSocketEffect {
    Nothing,
    /// Cancel the request that has the token with this number.
    CancelRequest(usize),
    /// Send the message to the client.
    Reply(OutgoingMessage),
    /// Get the responses of an agent to the request with this id. It is cancelled
    /// with the token, which is the one with this number.
    Dispatch(String, AgentJsonRpcRequest, usize, CancellationToken),
}

/// What a message of a client leads to.
#[derive(Debug)]
pub struct InferenceSocketStep {
    pub decision: ContinuationDecision,
    pub effect: InferenceSocketEffect,
}

/// What a client is told when the agents do not generate tokens.
pub fn send_token_generation_disabled(request_id: String, message: String) -> (reply:
    OutgoingMessage)
    ensures
        reply == token_generation_disabled(request_id, message),
{
    OutgoingMessage::Response(
        ResponseEnvelope {
            generated_by: None,
            request_id,
            response: AgentJsonRpcResponse::GeneratedToken(
                GeneratedTokenResult::TokenGenerationDisabled(message),
            ),
        },
    )
}

/// What a client is told when the agents do not generate tokens.
pub open spec fn token_generation_disabled(request_id: String, message: String) -> OutgoingMessage {
    OutgoingMessage::Response(
        ResponseEnvelope {
            generated_by: None,
            request_id,
            response: AgentJsonRpcResponse::GeneratedToken(
                GeneratedTokenResult::TokenGenerationDisabled(message),
            ),
        },
    )
}

/// Whether `reply` refuses the request because its id is in flight already.
pub open spec fn is_duplicate_refusal(
    reply: OutgoingMessage,
    request_id: String,
    quoted_id: Seq<char>,
) -> bool {
    &&& reply matches OutgoingMessage::Error(envelope)
    &&& envelope.request_id == request_id
    &&& envelope.error.code == 400
    &&& envelope.error.description@ == "Request id "@ + quoted_id
        + " is already in flight on this connection"@
}

/// The refusal of a request whose id, in quotes, is `quoted_id`.
pub fn refuse_duplicate(request_id: String, quoted_id: &str) -> (reply: OutgoingMessage)
    ensures
        is_duplicate_refusal(reply, request_id, quoted_id@),
{
    let mut description = String::from_str("Request id ");
    description.append(quoted_id);
    description.append(" is already in flight on this connection");
    respond_with_error(JsonRpcError { code: 400, description }, request_id)
}

/// Whether a request with this token is cancelled when the connection is closed.
pub open spec fn ends_with_connection(
    request_cancel: CancellationToken,
    connection_close: CancellationToken,
) -> bool {
    &&& cancelled_along_with(request_cancel) == cancels(connection_close)
    &&& !cancel_requested(request_cancel)
}

/// How a request for tokens leaves the requests in flight, and what it leads to. A
/// request that is dispatched ends with the connection.
pub open spec fn inference_request_leaves(
    connection_close: CancellationToken,
    before: Map<Seq<char>, usize>,
    after: Map<Seq<char>, usize>,
    mode: ClusterTokenGenerationMode,
    disabled_message: String,
    token: usize,
    request_id: String,
    request: AgentJsonRpcRequest,
    effect: InferenceSocketEffect,
) -> bool {
    match mode {
        ClusterTokenGenerationMode::DisabledForEmbeddings => {
            &&& after == before
            &&& effect == InferenceSocketEffect::Reply(
                token_generation_disabled(request_id, disabled_message),
            )
        },
        ClusterTokenGenerationMode::Enabled => if before.contains_key(request_id@) {
            &&& after == before
            &&& effect matches InferenceSocketEffect::Reply(reply)
            &&& is_duplicate_refusal(reply, request_id, quoted_text(request_id@))
        } else {
            &&& after == before.insert(request_id@, token)
            &&& effect matches InferenceSocketEffect::Dispatch(
                dispatched_id,
                dispatched,
                number,
                request_cancel,
            )
            &&& dispatched_id == request_id
            &&& dispatched == request
            &&& number == token
            &&& ends_with_connection(request_cancel, connection_close)
        },
    }
}

/// Decides what becomes of a request for tokens. Where the agents do not
/// generate tokens, or a request with that id is in flight, it is answered at
/// once, and does not reach an agent.
pub fn handle_inference_request(
    connection_close: &CancellationToken,
    balancer_applicable_state_holder: &BalancerApplicableStateHolder,
    disabled_message: String,
    request_cancellation_tokens: &mut RequestCancellationTokens,
    token: usize,
    request_id: String,
    request: AgentJsonRpcRequest,
) -> (effect: InferenceSocketEffect)
    ensures
        inference_request_leaves(
            *connection_close,
            old(request_cancellation_tokens)@,
            final(request_cancellation_tokens)@,
            ClusterTokenGenerationMode::of_state(balancer_applicable_state_holder@),
            disabled_message,
            token,
            request_id,
            request,
            effect,
        ),
{
    match ClusterTokenGenerationMode::from_applicable_state_holder(
        balancer_applicable_state_holder,
    ) {
        ClusterTokenGenerationMode::DisabledForEmbeddings => InferenceSocketEffect::Reply(
            send_token_generation_disabled(request_id, disabled_message),
        ),
        ClusterTokenGenerationMode::Enabled => {
            match request_cancellation_tokens.register(request_id.clone(), token) {
                RequestCancellationRegistration::Registered => InferenceSocketEffect::Dispatch(
                    request_id,
                    request,
                    token,
                    child_token(connection_close),
                ),
                RequestCancellationRegistration::DuplicateRequestId => {
                    let quoted_id = quote(request_id.as_str());
                    InferenceSocketEffect::Reply(refuse_duplicate(request_id, quoted_id.as_str()))
                },
            }
        },
    }
}

/// Handles a message of a client. A request that it makes is cancelled with
/// `token`, and when the connection is closed. An error if the tools of a conversation are not acceptable.
pub fn handle_deserialized_message(
    connection_close: &CancellationToken,
    balancer_applicable_state_holder: &BalancerApplicableStateHolder,
    disabled_message: String,
    request_cancellation_tokens: &mut RequestCancellationTokens,
    token: usize,
    deserialized_message: InferenceJsonRpcMessage,
) -> (result: Result<InferenceSocketStep, InvalidParameters>)
    ensures
        match deserialized_message {
            InferenceJsonRpcMessage::Error(_) => {
                &&& final(request_cancellation_tokens)@ == old(request_cancellation_tokens)@
                &&& result matches Ok(step) && step.decision is Continue && step.effect is Nothing
            },
            InferenceJsonRpcMessage::StopRespondingTo(request_id) => {
                &&& final(request_cancellation_tokens)@ == old(request_cancellation_tokens)@
                &&& result matches Ok(step) && step.decision is Continue && step.effect
                    == match number_under(old(request_cancellation_tokens)@, request_id@) {
                    Some(running) => InferenceSocketEffect::CancelRequest(running),
                    None => InferenceSocketEffect::Nothing,
                }
            },
            InferenceJsonRpcMessage::Request(
                request_id,
                InferenceJsonRpcRequest::ContinueFromConversationHistory(Err(invalid)),
            ) => {
                &&& final(request_cancellation_tokens)@ == old(request_cancellation_tokens)@
                &&& result == Err::<InferenceSocketStep, InvalidParameters>(invalid)
            },
            InferenceJsonRpcMessage::Request(
                request_id,
                InferenceJsonRpcRequest::ContinueFromConversationHistory(Ok(params)),
            ) => result matches Ok(step) && step.decision is Continue && inference_request_leaves(
                *connection_close,
                old(request_cancellation_tokens)@,
                final(request_cancellation_tokens)@,
                ClusterTokenGenerationMode::of_state(balancer_applicable_state_holder@),
                disabled_message,
                token,
                request_id,
                AgentJsonRpcRequest::ContinueFromConversationHistory(params),
                step.effect,
            ),
            InferenceJsonRpcMessage::Request(
                request_id,
                InferenceJsonRpcRequest::ContinueFromRawPrompt(params),
            ) => result matches Ok(step) && step.decision is Continue && inference_request_leaves(
                *connection_close,
                old(request_cancellation_tokens)@,
                final(request_cancellation_tokens)@,
                ClusterTokenGenerationMode::of_state(balancer_applicable_state_holder@),
                disabled_message,
                token,
                request_id,
                AgentJsonRpcRequest::ContinueFromRawPrompt(params),
                step.effect,
            ),
        },
{
    let effect = match deserialized_message {
        InferenceJsonRpcMessage::Error(_) => InferenceSocketEffect::Nothing,
        InferenceJsonRpcMessage::StopRespondingTo(request_id) => {
            match request_cancellation_tokens.cancel(request_id.as_str()) {
                Some(running) => InferenceSocketEffect::CancelRequest(running),
                None => InferenceSocketEffect::Nothing,
            }
        },
        InferenceJsonRpcMessage::Request(
            request_id,
            InferenceJsonRpcRequest::ContinueFromConversationHistory(validated),
        ) => {
            match validated {
                Ok(params) => handle_inference_request(
                    connection_close,
                    balancer_applicable_state_holder,
                    disabled_message,
                    request_cancellation_tokens,
                    token,
                    request_id,
                    AgentJsonRpcRequest::ContinueFromConversationHistory(params),
                ),
                Err(invalid) => {
                    return Err(invalid);
                },
            }
        },
        InferenceJsonRpcMessage::Request(
            request_id,
            InferenceJsonRpcRequest::ContinueFromRawPrompt(params),
        ) => handle_inference_request(
            connection_close,
            balancer_applicable_state_holder,
            disabled_message,
            request_cancellation_tokens,
            token,
            request_id,
            AgentJsonRpcRequest::ContinueFromRawPrompt(params),
        ),
    };
    Ok(InferenceSocketStep { decision: ContinuationDecision::Continue, effect })
}

/// A request id is in flight at most once: what is dispatched under an id that
/// is not in flight makes it one that is, and any further request under it is
/// refused.
pub proof fn a_request_id_is_in_flight_once(
    connection_close: CancellationToken,
    before: Map<Seq<char>, usize>,
    first: Map<Seq<char>, usize>,
    second: Map<Seq<char>, usize>,
    disabled_message: String,
    request_id: String,
    first_token: usize,
    first_request: AgentJsonRpcRequest,
    first_effect: InferenceSocketEffect,
    second_token: usize,
    second_request: AgentJsonRpcRequest,
    second_effect: InferenceSocketEffect,
)
    requires
        inference_request_leaves(
            connection_close,
            before,
            first,
            ClusterTokenGenerationMode::Enabled,
            disabled_message,
            first_token,
            request_id,
            first_request,
            first_effect,
        ),
        inference_request_leaves(
            connection_close,
            first,
            second,
            ClusterTokenGenerationMode::Enabled,
            disabled_message,
            second_token,
            request_id,
            second_request,
            second_effect,
        ),
    ensures
        second_effect matches InferenceSocketEffect::Reply(reply) && is_duplicate_refusal(
            reply,
            request_id,
            quoted_text(request_id@),
        ),
        second == first,
{
}

/// A request that was dispatched ends with the connection, and can be cancelled
/// with its token until it is not in flight any more; then nothing of it is kept.
pub proof fn a_dispatched_request_can_be_cancelled(
    connection_close: CancellationToken,
    before: Map<Seq<char>, usize>,
    after: Map<Seq<char>, usize>,
    mode: ClusterTokenGenerationMode,
    disabled_message: String,
    token: usize,
    request_id: String,
    request: AgentJsonRpcRequest,
    effect: InferenceSocketEffect,
)
    requires
        inference_request_leaves(
            connection_close,
            before,
            after,
            mode,
            disabled_message,
            token,
            request_id,
            request,
            effect,
        ),
        effect is Dispatch,
    ensures
        effect matches InferenceSocketEffect::Dispatch(_, _, _, request_cancel)
            ==> ends_with_connection(request_cancel, connection_close),
        number_under(after, request_id@) == Some(token),
        after.remove(request_id@) == before,
{
    assert(after.remove(request_id@) =~= before);
}

/// Tokens are generated unless the balancer is in a state that asks its agents for
/// embeddings.
pub proof fn only_embeddings_disable_tokens(
    holder: &BalancerApplicableStateHolder,
    mode: ClusterTokenGenerationMode,
)
    requires
        call_ensures(ClusterTokenGenerationMode::from_applicable_state_holder, (holder,), mode),
    ensures
        mode == ClusterTokenGenerationMode::DisabledForEmbeddings <==> (holder@ matches Some(state)
            && state.agent_desired_state.inference_parameters.enable_embeddings),
{
}

/// A request for tokens reaches an agent exactly if tokens are generated and its id is
/// not in flight. It does so as it is, and is in flight from then on; else its client
/// gets a reply, and what is in flight stays as it was.
pub proof fn a_request_is_dispatched_or_replied_to(
    connection_close: &CancellationToken,
    holder: &BalancerApplicableStateHolder,
    disabled_message: String,
    tokens: &mut RequestCancellationTokens,
    token: usize,
    request_id: String,
    request: AgentJsonRpcRequest,
    effect: InferenceSocketEffect,
)
    requires
        call_ensures(
            handle_inference_request,
            (connection_close, holder, disabled_message, tokens, token, request_id, request),
            effect,
        ),
    ensures
        ({
            let disabled = holder@ matches Some(state)
                && state.agent_desired_state.inference_parameters.enable_embeddings;
            let in_flight = old(tokens)@.contains_key(request_id@);
            &&& effect is Dispatch <==> !disabled && !in_flight
            &&& effect is Dispatch || effect is Reply
            &&& effect is Reply ==> final(tokens)@ == old(tokens)@
            &&& effect matches InferenceSocketEffect::Dispatch(id, sent, number, _) ==> {
                &&& id == request_id
                &&& sent == request
                &&& number == token
                &&& final(tokens)@.contains_key(request_id@)
                &&& final(tokens)@[request_id@] == token
                &&& final(tokens)@.remove(request_id@) == old(tokens)@
            }
            &&& effect matches InferenceSocketEffect::Reply(OutgoingMessage::Error(envelope)) ==> {
                &&& !disabled && in_flight
                &&& envelope.request_id == request_id
                &&& envelope.error.code == 400
            }
            &&& effect matches InferenceSocketEffect::Reply(OutgoingMessage::Response(envelope))
                ==> {
                &&& disabled
                &&& envelope.request_id == request_id
                &&& envelope.response == AgentJsonRpcResponse::GeneratedToken(
                    GeneratedTokenResult::TokenGenerationDisabled(disabled_message),
                )
            }
        }),
{
    if effect is Dispatch {
        assert(final(tokens)@.remove(request_id@) =~= old(tokens)@);
    }
}

/// No message of a client ends its connection. A request is passed on with what it asks
/// for, and only one whose tools are not acceptable is an error; a request is cancelled
/// exactly if its client does not want the responses any more and it is in flight.
pub proof fn messages_of_clients_do_what_they_ask_for(
    connection_close: &CancellationToken,
    holder: &BalancerApplicableStateHolder,
    disabled_message: String,
    tokens: &mut RequestCancellationTokens,
    token: usize,
    message: InferenceJsonRpcMessage,
    result: Result<InferenceSocketStep, InvalidParameters>,
)
    requires
        call_ensures(
            handle_deserialized_message,
            (connection_close, holder, disabled_message, tokens, token, message),
            result,
        ),
    ensures
        result is Err <==> (message matches InferenceJsonRpcMessage::Request(
            _,
            InferenceJsonRpcRequest::ContinueFromConversationHistory(Err(_)),
        )),
        result matches Ok(step) ==> step.decision is Continue,
        result matches Ok(step) ==> (step.effect is Reply ==> message is Request),
        message is Error ==> (result matches Ok(step) && step.effect is Nothing),
        result matches Ok(step) ==> (message is Request ==> step.effect is Reply
            || step.effect is Dispatch),
        result matches Ok(step) ==> (step.effect matches InferenceSocketEffect::CancelRequest(
            number,
        ) ==> {
            &&& message matches InferenceJsonRpcMessage::StopRespondingTo(id)
            &&& old(tokens)@.contains_key(id@)
            &&& old(tokens)@[id@] == number
        }),
        message matches InferenceJsonRpcMessage::StopRespondingTo(id) ==> (
        result matches Ok(step) && (step.effect is CancelRequest <==> old(tokens)@.contains_key(
            id@,
        ))),
        result matches Ok(step) ==> (step.effect matches InferenceSocketEffect::Dispatch(
            id,
            sent,
            number,
            request_cancel,
        ) ==> {
            &&& message matches InferenceJsonRpcMessage::Request(asked_id, asked)
            &&& id == asked_id
            &&& number == token
            &&& match asked {
                InferenceJsonRpcRequest::ContinueFromConversationHistory(Ok(params)) => sent
                    == AgentJsonRpcRequest::ContinueFromConversationHistory(params),
                InferenceJsonRpcRequest::ContinueFromConversationHistory(Err(_)) => false,
                InferenceJsonRpcRequest::ContinueFromRawPrompt(params) => sent
                    == AgentJsonRpcRequest::ContinueFromRawPrompt(params),
            }
            &&& final(tokens)@.contains_key(id@)
            &&& final(tokens)@[id@] == token
            &&& cancelled_along_with(request_cancel) == cancels(*connection_close)
        }),
        result matches Ok(step) ==> (!(step.effect is Dispatch) ==> final(tokens)@ == old(tokens)@),
        result is Err ==> final(tokens)@ == old(tokens)@,
        (message matches InferenceJsonRpcMessage::Request(id, _) && result is Ok && !old(
            tokens,
        )@.contains_key(id@) && !(holder@ matches Some(state)
            && state.agent_desired_state.inference_parameters.enable_embeddings)) ==> (
        result matches Ok(step) && step.effect is Dispatch),
{
}

/// A request that is not in flight any more cannot be cancelled, and its id is free again;
/// other requests are left alone.
pub proof fn an_id_is_free_once_its_request_is_over(
    tokens: &mut RequestCancellationTokens,
    request_id: &str,
    other_id: &str,
    before: Option<usize>,
    after: Option<usize>,
    gone: Option<usize>,
)
    requires
        call_ensures(RequestCancellationTokens::deregister, (tokens, request_id), ()),
        call_ensures(RequestCancellationTokens::cancel, (&*old(tokens), other_id), before),
        call_ensures(RequestCancellationTokens::cancel, (&*final(tokens), other_id), after),
        call_ensures(RequestCancellationTokens::cancel, (&*final(tokens), request_id), gone),
        other_id@ != request_id@,
    ensures
        gone is None,
        !final(tokens)@.contains_key(request_id@),
        after == before,
{
}

/// A request is in flight under its id with its token from the moment it is registered, and
/// is registered exactly if its id is free.
pub proof fn an_id_is_taken_while_its_request_is_in_flight(
    tokens: &mut RequestCancellationTokens,
    request_id: String,
    token: usize,
    registration: RequestCancellationRegistration,
    asked_id: &str,
    before: Option<usize>,
    after: Option<usize>,
)
    requires
        call_ensures(
            RequestCancellationTokens::register,
            (tokens, request_id, token),
            registration,
        ),
        call_ensures(RequestCancellationTokens::cancel, (&*old(tokens), asked_id), before),
        call_ensures(RequestCancellationTokens::cancel, (&*final(tokens), asked_id), after),
    ensures
        asked_id@ == request_id@ ==> (registration is Registered <==> before is None),
        asked_id@ == request_id@ && registration is Registered ==> after == Some(token),
        asked_id@ != request_id@ || registration is DuplicateRequestId ==> after == before,
{
}

/// At first no request is in flight.
pub proof fn at_first_no_request_is_in_flight(
    tokens: RequestCancellationTokens,
    request_id: Seq<char>,
)
    requires
        call_ensures(RequestCancellationTokens::default, (), tokens),
    ensures
        !tokens@.contains_key(request_id),
{
}

} // verus!
