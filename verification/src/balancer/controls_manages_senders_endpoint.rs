//! HTTP endpoints that pass one question on to an agent.
use vstd::prelude::*;

use crate::balancer::agent_controller::AgentRequestError;
use crate::balancer::agent_controller_pool::AgentControllerPool;
use crate::balancer::agent_controller_pool::was_requested;
use crate::balancer::sender_collection::SenderCollection;
use crate::messaging::messages::AgentJsonRpcMessage;
use crate::messaging::messages::AgentJsonRpcRequest;
use crate::messaging::messages::AgentJsonRpcResponse;
use crate::messaging::messages::RequestEnvelope;

verus! {

/// How long an agent may take to answer, in seconds.
pub const TIMEOUT_SECONDS: u64 = 3;

/// The body of an answer.
#[derive(Debug)]
pub enum ResponseBody {
    Empty,
    Text(String),
    /// The JSON form of what the agent answered.
    Json(AgentJsonRpcResponse),
}

/// An answer to a client.
#[derive(Debug)]
pub struct EndpointResponse {
    pub status: u16,
    pub body: ResponseBody,
}

/// What happens while an agent is to answer.
#[derive(Debug)]
pub enum EndpointEvent {
    AgentConnectionClosed,
    TimedOut,
    Response(AgentJsonRpcResponse),
    ResponseChannelClosed,
}

/// Passes the question on to the agent. The id of the request comes back where
/// an answer is to be waited for, and else the answer to the client.
pub fn ask_agent(
    agent_controller_pool: &mut AgentControllerPool,
    agent_id: &str,
    senders: &mut SenderCollection,
    channel: usize,
    request: AgentJsonRpcRequest,
) -> (result: Result<String, EndpointResponse>)
    requires
        old(agent_controller_pool).wf(),
    ensures
        final(agent_controller_pool).wf(),
        ({
            let before = old(agent_controller_pool)@;
            let after = final(agent_controller_pool)@;
            if before.agents.contains_key(agent_id@) {
                &&& after == before.with_agent(agent_id@, after.agents[agent_id@])
                &&& match result {
                    Ok(request_id) => was_requested(
                        before.agents[agent_id@],
                        after.agents[agent_id@],
                        old(senders)@,
                        final(senders)@,
                        channel,
                        request,
                        Ok(request_id),
                    ),
                    Err(response) => exists|error: AgentRequestError|
                        {
                            &&& #[trigger] was_requested(
                                before.agents[agent_id@],
                                after.agents[agent_id@],
                                old(senders)@,
                                final(senders)@,
                                channel,
                                request,
                                Err(error),
                            )
                            &&& is_request_failure(response, error)
                        },
                }
            } else {
                &&& after == before
                &&& final(senders)@ == old(senders)@
                &&& result matches Err(response) && response.status == 404
                    && response.body is Empty
            }
        }),
{
    match agent_controller_pool.request_from_agent_controller(agent_id, senders, channel, request) {
        Some(Ok(request_id)) => Ok(request_id),
        Some(Err(error)) => {
            let response = request_failure(&error);
            assert(was_requested(
                old(agent_controller_pool)@.agents[agent_id@],
                agent_controller_pool@.agents[agent_id@],
                old(senders)@,
                senders@,
                channel,
                request,
                Err(error),
            ) && is_request_failure(response, error));
            Err(response)
        },
        None => Err(EndpointResponse { status: 404, body: ResponseBody::Empty }),
    }
}

/// Whether the answer says that the agent could not be asked.
pub open spec fn is_request_failure(response: EndpointResponse, error: AgentRequestError) -> bool {
    &&& response.status == 500
    &&& response.body matches ResponseBody::Text(text)
    &&& text@ == match error {
        AgentRequestError::SenderAlreadyExists(error) => "Sender for request_id "@
            + error.request_id@ + " already exists"@,
        AgentRequestError::AgentUnreachable => "channel closed"@,
    }
}

/// What a client is told when the agent could not be asked.
pub fn request_failure(error: &AgentRequestError) -> (response: EndpointResponse)
    ensures
        is_request_failure(response, *error),
{
    EndpointResponse { status: 500, body: ResponseBody::Text(error.message()) }
}

/// What a client is told once something happened.
pub fn respond(event: EndpointEvent) -> (response: EndpointResponse)
    ensures
        match event {
            EndpointEvent::AgentConnectionClosed => response.status == 502
                && response.body is Empty,
            EndpointEvent::TimedOut => response.status == 504 && response.body is Empty,
            EndpointEvent::Response(answer) => response.status == 200 && response.body
                == ResponseBody::Json(answer),
            EndpointEvent::ResponseChannelClosed => response.status == 404
                && response.body is Empty,
        },
{
    match event {
        EndpointEvent::AgentConnectionClosed => EndpointResponse {
            status: 502,
            body: ResponseBody::Empty,
        },
        EndpointEvent::TimedOut => EndpointResponse { status: 504, body: ResponseBody::Empty },
        EndpointEvent::Response(answer) => EndpointResponse {
            status: 200,
            body: ResponseBody::Json(answer),
        },
        EndpointEvent::ResponseChannelClosed => EndpointResponse {
            status: 404,
            body: ResponseBody::Empty,
        },
    }
}

/// A client gets what the agent answered, and gets it as a success, exactly if the agent
/// answered; every other end is an error without a body.
pub proof fn only_an_answer_is_a_success(event: EndpointEvent, response: EndpointResponse)
    requires
        call_ensures(respond, (event,), response),
    ensures
        200 <= response.status < 300 <==> event is Response,
        event matches EndpointEvent::Response(answer) ==> response.body == ResponseBody::Json(
            answer,
        ),
        !(event is Response) ==> response.body is Empty && response.status >= 400,
        response.status == 504 <==> event is TimedOut,
        response.status == 502 <==> event is AgentConnectionClosed,
        response.status == 404 <==> event is ResponseChannelClosed,
{
}

/// An answer is waited for exactly if the agent is there and was asked; an agent that
/// is not there is not found, and nobody waits for it.
pub proof fn only_agents_that_are_there_are_asked(
    agent_controller_pool: &mut AgentControllerPool,
    agent_id: &str,
    senders: &mut SenderCollection,
    channel: usize,
    request: AgentJsonRpcRequest,
    result: Result<String, EndpointResponse>,
)
    requires
        call_ensures(
            ask_agent,
            (agent_controller_pool, agent_id, senders, channel, request),
            result,
        ),
    ensures
        ({
            let before = old(agent_controller_pool)@.agents;
            let after = final(agent_controller_pool)@.agents;
            let id = agent_id@;
            &&& !before.contains_key(id) <==> (result matches Err(response) && response.status
                == 404)
            &&& result is Err ==> final(senders)@ == old(senders)@
            &&& result matches Ok(request_id) ==> {
                &&& before.contains_key(id)
                &&& final(senders)@.contains_key(request_id@)
                &&& final(senders)@[request_id@] == channel
                &&& after[id].messages.len() == before[id].messages.len() + 1
                &&& after[id].messages.last() == (
                    AgentJsonRpcMessage::Request(RequestEnvelope { id: request_id, request }),
                    true,
                )
            }
            &&& before.contains_key(id) && result is Err ==> result->Err_0.status == 500
        }),
{
}

} // verus!
