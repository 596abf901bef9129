//! The balancer's side of its connection to an agent.
use tokio::sync::mpsc;
use tokio_util::sync::CancellationToken;
use vstd::prelude::*;

use crate::balancer::agent_controller::AgentController;
use crate::balancer::agent_controller::AgentControllerUpdateResult;
use crate::balancer::agent_controller::AgentControllerView;
use crate::balancer::agent_controller::set_state_message;
use crate::balancer::agent_controller_pool::AgentControllerPool;
use crate::balancer::agent_controller_pool::AgentControllerPoolView;
use crate::messaging::messages::AgentDesiredState;
use crate::messaging::messages::AgentJsonRpcMessage;
use crate::messaging::messages::AgentJsonRpcNotification;
use crate::messaging::messages::AgentJsonRpcResponse;
use crate::messaging::messages::ManagementJsonRpcMessage;
use crate::messaging::messages::ManagementJsonRpcNotification;
use crate::messaging::messages::RegisterAgentParams;
use crate::messaging::messages::ResponseEnvelope;
use crate::messaging::messages::SetStateParams;
use crate::messaging::messages::UpdateAgentStatusParams;
use crate::messaging::messages::VersionParams;
use crate::outside::agent_message_channel;
use crate::outside::cancel;
use crate::outside::is_open;
use crate::outside::queue_emptied_by;
use crate::outside::was_cancelled;
use crate::text::text_of;

verus! {

/// How a connection is to be closed.
#[derive(Debug)]
pub struct ContinuationStopParameters {
    pub close_reason: Option<String>,
}

/// Whether a connection stays open after a message.
#[derive(Debug)]
pub enum ContinuationDecision {
    Continue,
    Stop(ContinuationStopParameters),
}

/// The connection of an agent.
#[derive(Debug)]
pub struct AgentSocketControllerContext {
    pub agent_id: String,
    /// The number of the connection.
    pub connection: u64,
}

/// Who waits for a response of an agent.
#[derive(Clone, Copy, Debug, PartialEq, Eq, Structural)]
pub enum ResponseCollection {
    ChatTemplateOverride,
    Embedding,
    GenerateTokens,
    ModelMetadata,
}

/// What is left to do after a message of an agent.
pub enum AgentSocketEffect {
    Nothing,
    /// Log that the agent reported its status without having registered.
    ReportUnknownAgent,
    /// Pass what comes out of the queue on to the agent, as
    /// [`forward_agent_message`] says.
    ForwardMessages(mpsc::UnboundedReceiver<AgentJsonRpcMessage>),
    /// Hand a response to whoever waits for it.
    ForwardResponse(ResponseCollection, String, AgentJsonRpcResponse),
}

/// What a message of an agent leads to.
pub struct AgentSocketStep {
    pub decision: ContinuationDecision,
    pub effect: AgentSocketEffect,
}

/// Why an agent could not join.
#[derive(Clone, Copy, Debug, PartialEq, Eq, Structural)]
pub enum AgentSocketError {
    UnableToRegisterAgentController,
    UnableToSetDesiredState,
}

impl AgentSocketError {
    /// The error as a message.
    pub fn message(&self) -> (text: String)
        ensures
            text@ == match *self {
                AgentSocketError::UnableToRegisterAgentController =>
                    "Unable to register agent controller"@,
                AgentSocketError::UnableToSetDesiredState => "Unable to set desired state"@,
            },
    {
        match self {
            AgentSocketError::UnableToRegisterAgentController => String::from_str(
                "Unable to register agent controller",
            ),
            AgentSocketError::UnableToSetDesiredState => String::from_str(
                "Unable to set desired state",
            ),
        }
    }
}

/// Where responses of this kind are awaited.
pub open spec fn collection_of(response: AgentJsonRpcResponse) -> ResponseCollection {
    match response {
        AgentJsonRpcResponse::ChatTemplateOverride(_) => ResponseCollection::ChatTemplateOverride,
        AgentJsonRpcResponse::Embedding(_) => ResponseCollection::Embedding,
        AgentJsonRpcResponse::GeneratedToken(_) => ResponseCollection::GenerateTokens,
        AgentJsonRpcResponse::ModelMetadata(_) => ResponseCollection::ModelMetadata,
    }
}

/// How the registration of an agent leaves the pool, and what it leads to. It is
/// refused if the id is taken, and only then: the queue of a new agent is held open,
/// so it can always be asked to be in the desired state. What the agent is sent
/// through the pool comes out of the queue that is passed on to it.
pub open spec fn registration_leaves(
    before: AgentControllerPoolView,
    after: AgentControllerPoolView,
    context: AgentSocketControllerContext,
    params: RegisterAgentParams,
    desired_state: Option<AgentDesiredState>,
    result: Result<AgentSocketStep, AgentSocketError>,
) -> bool {
    let id = context.agent_id@;
    match result {
        Ok(step) => {
            &&& !before.agents.contains_key(id)
            &&& step.decision is Continue
            &&& step.effect matches AgentSocketEffect::ForwardMessages(agent_message_rx)
            &&& after == before.after_registration(
                id,
                match desired_state {
                    Some(state) => context.registering(
                        params,
                        queue_emptied_by(agent_message_rx),
                    ).sent(set_state_message(state), true),
                    None => context.registering(params, queue_emptied_by(agent_message_rx)),
                },
            )
            &&& is_open(agent_message_rx)
        },
        Err(AgentSocketError::UnableToRegisterAgentController) => {
            &&& before.agents.contains_key(id)
            &&& after == before
        },
        Err(AgentSocketError::UnableToSetDesiredState) => false,
    }
}

impl AgentSocketControllerContext {
    /// The agent that registers over this connection with `params`, and to which
    /// messages go through `queue`.
    pub open spec fn registering(
        &self,
        params: RegisterAgentParams,
        queue: int,
    ) -> AgentControllerView {
        AgentControllerView::registered(
            self.connection,
            queue,
            self.agent_id@,
            text_of(params.name),
            params.slot_aggregated_status_snapshot@,
        )
    }

    /// Handles a message of the agent. A registering agent is asked to be in
    /// `agent_desired_state`, where the balancer has one.
    pub fn handle_deserialized_message(
        &self,
        connection_close: &mut CancellationToken,
        agent_controller_pool: &mut AgentControllerPool,
        agent_desired_state: Option<AgentDesiredState>,
        deserialized_message: ManagementJsonRpcMessage,
    ) -> (result: Result<AgentSocketStep, AgentSocketError>)
        requires
            old(agent_controller_pool).wf(),
        ensures
            final(agent_controller_pool).wf(),
            deserialized_message matches ManagementJsonRpcMessage::Notification(
                ManagementJsonRpcNotification::DeregisterAgent,
            ) ==> was_cancelled(*old(connection_close), *final(connection_close)),
            !(deserialized_message matches ManagementJsonRpcMessage::Notification(
                ManagementJsonRpcNotification::DeregisterAgent,
            )) ==> *final(connection_close) == *old(connection_close),
            match deserialized_message {
                ManagementJsonRpcMessage::Error(_) => {
                    &&& final(agent_controller_pool)@ == old(agent_controller_pool)@
                    &&& result matches Ok(step) && step.decision is Continue
                        && step.effect is Nothing
                },
                ManagementJsonRpcMessage::Notification(
                    ManagementJsonRpcNotification::DeregisterAgent,
                ) => {
                    &&& final(agent_controller_pool)@ == old(agent_controller_pool)@
                    &&& result matches Ok(step) && step.effect is Nothing && step.decision
                        == ContinuationDecision::Stop(
                        (ContinuationStopParameters { close_reason: None }),
                    )
                },
                ManagementJsonRpcMessage::Notification(
                    ManagementJsonRpcNotification::RegisterAgent(params),
                ) => registration_leaves(
                    old(agent_controller_pool)@,
                    final(agent_controller_pool)@,
                    *self,
                    params,
                    agent_desired_state,
                    result,
                ),
                ManagementJsonRpcMessage::Notification(
                    ManagementJsonRpcNotification::UpdateAgentStatus(params),
                ) => {
                    let before = old(agent_controller_pool)@;
                    let agent = before.agents[self.agent_id@];
                    let report = params.slot_aggregated_status_snapshot@;
                    let updated = before.with_agent(self.agent_id@, agent.after(report));
                    &&& result matches Ok(step) && step.decision is Continue && (
                    if before.agents.contains_key(self.agent_id@) {
                        step.effect is Nothing
                    } else {
                        step.effect is ReportUnknownAgent
                    })
                    &&& final(agent_controller_pool)@ == if !before.agents.contains_key(
                        self.agent_id@,
                    ) {
                        before
                    } else if agent.update_result(report) == AgentControllerUpdateResult::Updated {
                        updated.signalled()
                    } else {
                        updated
                    }
                },
                ManagementJsonRpcMessage::Response(envelope) => {
                    &&& final(agent_controller_pool)@ == old(agent_controller_pool)@
                    &&& result matches Ok(step) && step.decision is Continue && step.effect
                        == AgentSocketEffect::ForwardResponse(
                        collection_of(envelope.response),
                        envelope.request_id,
                        envelope.response,
                    )
                },
            },
    {
        match deserialized_message {
            ManagementJsonRpcMessage::Error(_) => Ok(
                AgentSocketStep {
                    decision: ContinuationDecision::Continue,
                    effect: AgentSocketEffect::Nothing,
                },
            ),
            ManagementJsonRpcMessage::Notification(
                ManagementJsonRpcNotification::DeregisterAgent,
            ) => {
                cancel(connection_close);
                Ok(
                    AgentSocketStep {
                        decision: ContinuationDecision::Stop(
                            ContinuationStopParameters { close_reason: None },
                        ),
                        effect: AgentSocketEffect::Nothing,
                    },
                )
            },
            ManagementJsonRpcMessage::Notification(
                ManagementJsonRpcNotification::RegisterAgent(params),
            ) => self.register_agent(agent_controller_pool, agent_desired_state, params),
            ManagementJsonRpcMessage::Notification(
                ManagementJsonRpcNotification::UpdateAgentStatus(params),
            ) => {
                let effect = match agent_controller_pool.update_agent_controller(
                    self.agent_id.as_str(),
                    params.slot_aggregated_status_snapshot,
                ) {
                    Some(_) => AgentSocketEffect::Nothing,
                    None => AgentSocketEffect::ReportUnknownAgent,
                };
                Ok(AgentSocketStep { decision: ContinuationDecision::Continue, effect })
            },
            ManagementJsonRpcMessage::Response(envelope) => {
                let collection = match &envelope.response {
                    AgentJsonRpcResponse::ChatTemplateOverride(
                        _,
                    ) => ResponseCollection::ChatTemplateOverride,
                    AgentJsonRpcResponse::Embedding(_) => ResponseCollection::Embedding,
                    AgentJsonRpcResponse::GeneratedToken(_) => ResponseCollection::GenerateTokens,
                    AgentJsonRpcResponse::ModelMetadata(_) => ResponseCollection::ModelMetadata,
                };
                Ok(
                    AgentSocketStep {
                        decision: ContinuationDecision::Continue,
                        effect: AgentSocketEffect::ForwardResponse(
                            collection,
                            envelope.request_id,
                            envelope.response,
                        ),
                    },
                )
            },
        }
    }

    /// Adds the agent to the pool, and asks it to be in the desired state, where
    /// there is one.
    pub fn register_agent(
        &self,
        agent_controller_pool: &mut AgentControllerPool,
        agent_desired_state: Option<AgentDesiredState>,
        params: RegisterAgentParams,
    ) -> (result: Result<AgentSocketStep, AgentSocketError>)
        requires
            old(agent_controller_pool).wf(),
        ensures
            final(agent_controller_pool).wf(),
            registration_leaves(
                old(agent_controller_pool)@,
                final(agent_controller_pool)@,
                *self,
                params,
                agent_desired_state,
                result,
            ),
    {
        let (agent_message_tx, agent_message_rx) = agent_message_channel();
        let ghost view = self.registering(params, queue_emptied_by(agent_message_rx));
        let agent_controller = AgentController::from_registration(
            agent_message_tx,
            self.connection,
            self.agent_id.clone(),
            params.name,
            params.slot_aggregated_status_snapshot,
        );
        assert(agent_controller@ =~= view);
        if let Err(_) = agent_controller_pool.register_agent_controller(
            self.agent_id.clone(),
            agent_controller,
        ) {
            return Err(AgentSocketError::UnableToRegisterAgentController);
        }
        if let Some(desired_state) = agent_desired_state {
            let message = AgentJsonRpcMessage::Notification(
                AgentJsonRpcNotification::SetState(Box::new(SetStateParams { desired_state })),
            );
            let reached = match agent_controller_pool.send_to_agent_controller(
                self.agent_id.as_str(),
                message,
                Some(&agent_message_rx),
            ) {
                Some(Ok(())) => true,
                _ => false,
            };
            assert(agent_controller_pool@ =~= old(agent_controller_pool)@.after_registration(
                self.agent_id@,
                view.sent(set_state_message(desired_state), reached),
            ));
            if !reached {
                return Err(AgentSocketError::UnableToSetDesiredState);
            }
        }
        Ok(
            AgentSocketStep {
                decision: ContinuationDecision::Continue,
                effect: AgentSocketEffect::ForwardMessages(agent_message_rx),
            },
        )
    }

    /// The connection is gone: the agent under its id leaves the pool.
    pub fn close(&self, agent_controller_pool: &mut AgentControllerPool)
        requires
            old(agent_controller_pool).wf(),
        ensures
            final(agent_controller_pool).wf(),
            final(agent_controller_pool)@ == old(agent_controller_pool)@.after_removal(
                self.agent_id@,
            ),
    {
        agent_controller_pool.remove_agent_controller(self.agent_id.as_str());
    }
}

/// What happens to the queue of the messages to an agent.
#[derive(Debug)]
pub enum AgentMessageEvent {
    ConnectionClosed,
    Message(AgentJsonRpcMessage),
    /// The agent left the pool, and the queue with it.
    QueueClosed,
}

/// What becomes of a message to an agent.
#[derive(Debug)]
pub enum AgentMessageAction {
    Send(AgentJsonRpcMessage),
    Stop,
}

/// Passes messages on to the agent until the connection or the queue is closed.
/// A message that could not be sent does not stop that.
pub fn forward_agent_message(event: AgentMessageEvent) -> (action: AgentMessageAction)
    ensures
        action == match event {
            AgentMessageEvent::Message(message) => AgentMessageAction::Send(message),
            AgentMessageEvent::ConnectionClosed => AgentMessageAction::Stop,
            AgentMessageEvent::QueueClosed => AgentMessageAction::Stop,
        },
{
    match event {
        AgentMessageEvent::Message(message) => AgentMessageAction::Send(message),
        AgentMessageEvent::ConnectionClosed => AgentMessageAction::Stop,
        AgentMessageEvent::QueueClosed => AgentMessageAction::Stop,
    }
}

/// The first message on a connection: the version of the balancer.
pub fn version_message(version: String) -> (message: AgentJsonRpcMessage)
    ensures
        message == AgentJsonRpcMessage::Notification(
            AgentJsonRpcNotification::Version((VersionParams { version })),
        ),
{
    AgentJsonRpcMessage::Notification(AgentJsonRpcNotification::Version(VersionParams { version }))
}

/// A connection stays open if its first message could be sent.
pub fn on_connection_start(version_sent: bool) -> (decision: ContinuationDecision)
    ensures
        decision == if version_sent {
            ContinuationDecision::Continue
        } else {
            ContinuationDecision::Stop((ContinuationStopParameters { close_reason: None }))
        },
{
    if version_sent {
        ContinuationDecision::Continue
    } else {
        ContinuationDecision::Stop(ContinuationStopParameters { close_reason: None })
    }
}

/// A registered agent is in the pool until its connection is gone, and then it
/// is not: joining and leaving leaves the other agents alone.
pub proof fn an_agent_is_in_the_pool_while_connected(
    pool: AgentControllerPoolView,
    id: Seq<char>,
    agent: AgentControllerView,
    other: Seq<char>,
)
    requires
        other != id,
    ensures
        pool.after_registration(id, agent).agents.contains_key(id),
        pool.after_registration(id, agent).agents[id] == agent,
        !pool.after_registration(id, agent).after_removal(id).agents.contains_key(id),
        pool.agents.contains_key(other) <==> pool.after_registration(id, agent).after_removal(
            id,
        ).agents.contains_key(other),
        pool.agents.contains_key(other) ==> pool.after_registration(id, agent).after_removal(
            id,
        ).agents[other] == pool.agents[other],
{
}

/// An agent that registers is in the pool from then on, with what it reported, unless
/// its id is taken. It is asked to be in the desired state, where there is one, before
/// anything else; what it is sent is what comes out of the queue that is passed on.
pub proof fn a_registering_agent_joins_and_is_asked(
    context: &AgentSocketControllerContext,
    agent_controller_pool: &mut AgentControllerPool,
    agent_desired_state: Option<AgentDesiredState>,
    params: RegisterAgentParams,
    result: Result<AgentSocketStep, AgentSocketError>,
    other: Seq<char>,
)
    requires
        call_ensures(
            AgentSocketControllerContext::register_agent,
            (context, agent_controller_pool, agent_desired_state, params),
            result,
        ),
        other != context.agent_id@,
    ensures
        ({
            let before = old(agent_controller_pool)@.agents;
            let after = final(agent_controller_pool)@.agents;
            let id = context.agent_id@;
            let report = params.slot_aggregated_status_snapshot;
            &&& result is Ok <==> !before.contains_key(id)
            &&& result is Err ==> final(agent_controller_pool)@ == old(agent_controller_pool)@
            &&& result matches Ok(step) ==> {
                &&& step.decision is Continue
                &&& after.contains_key(id)
                &&& after[id].id == id
                &&& after[id].name == text_of(params.name)
                &&& after[id].connection == context.connection
                &&& after[id].slots_total == report.slots_total
                &&& after[id].slots_processing == report.slots_processing
                &&& after[id].issues == report@.issues
                &&& after[id].newest_update_version == report.version
                &&& agent_desired_state is None ==> after[id].messages.len() == 0
                &&& agent_desired_state matches Some(desired_state) ==> after[id].messages == seq![
                    (
                        AgentJsonRpcMessage::Notification(
                            AgentJsonRpcNotification::SetState(
                                Box::new(SetStateParams { desired_state }),
                            ),
                        ),
                        true,
                    ),
                ]
                &&& step.effect matches AgentSocketEffect::ForwardMessages(receiver)
                &&& after[id].queue == queue_emptied_by(receiver)
                &&& final(agent_controller_pool)@.updates == old(agent_controller_pool)@.updates + 1
            }
            &&& after.contains_key(other) <==> before.contains_key(other)
            &&& before.contains_key(other) ==> after[other] == before[other]
        }),
{
    if let Some(desired_state) = agent_desired_state {
        if result is Ok {
            assert(final(agent_controller_pool)@.agents[context.agent_id@].messages =~= seq![
                (
                    AgentJsonRpcMessage::Notification(
                        AgentJsonRpcNotification::SetState(
                            Box::new(SetStateParams { desired_state }),
                        ),
                    ),
                    true,
                ),
            ]);
        }
    }
}

/// A connection is closed by a message exactly if the agent says that it leaves. Only
/// a registration adds an agent, and no message but its own changes what is known of
/// an agent.
pub proof fn messages_touch_their_own_agent(
    context: &AgentSocketControllerContext,
    connection_close: &mut CancellationToken,
    agent_controller_pool: &mut AgentControllerPool,
    agent_desired_state: Option<AgentDesiredState>,
    message: ManagementJsonRpcMessage,
    result: Result<AgentSocketStep, AgentSocketError>,
    other: Seq<char>,
)
    requires
        call_ensures(
            AgentSocketControllerContext::handle_deserialized_message,
            (context, connection_close, agent_controller_pool, agent_desired_state, message),
            result,
        ),
        other != context.agent_id@,
    ensures
        ({
            let before = old(agent_controller_pool)@.agents;
            let after = final(agent_controller_pool)@.agents;
            let id = context.agent_id@;
            let leaves = message matches ManagementJsonRpcMessage::Notification(
                ManagementJsonRpcNotification::DeregisterAgent,
            );
            let registers = message matches ManagementJsonRpcMessage::Notification(
                ManagementJsonRpcNotification::RegisterAgent(_),
            );
            let reports = message matches ManagementJsonRpcMessage::Notification(
                ManagementJsonRpcNotification::UpdateAgentStatus(_),
            );
            &&& (result matches Ok(step) && step.decision is Stop) <==> leaves
            &&& result matches Ok(step) ==> {
                &&& step.effect is Nothing <==> message is Error || leaves || (reports
                    && before.contains_key(id))
                &&& step.effect is ForwardMessages <==> registers
                &&& step.decision matches ContinuationDecision::Stop(
                    parameters,
                ) ==> parameters.close_reason is None
            }
            &&& leaves ==> was_cancelled(*old(connection_close), *final(connection_close))
            &&& !leaves ==> *final(connection_close) == *old(connection_close)
            &&& after.contains_key(other) <==> before.contains_key(other)
            &&& before.contains_key(other) ==> after[other] == before[other]
            &&& after.contains_key(id) <==> before.contains_key(id) || registers
            &&& !registers && !reports ==> final(agent_controller_pool)@ == old(
                agent_controller_pool,
            )@
            &&& result is Err <==> registers && before.contains_key(id)
            &&& (result matches Ok(step) && step.effect is ReportUnknownAgent) <==> reports
                && !before.contains_key(id)
        }),
{
    if let ManagementJsonRpcMessage::Notification(
        ManagementJsonRpcNotification::RegisterAgent(params),
    ) = message {
        assert(result is Ok ==> final(agent_controller_pool)@.agents.contains_key(
            context.agent_id@,
        ));
    }
}

/// A report of a connected agent is taken over, unless it is older than what is known:
/// from then on the agent has the slots, the issues and the status that it reported.
pub proof fn a_report_of_a_connected_agent_is_taken_over(
    context: &AgentSocketControllerContext,
    connection_close: &mut CancellationToken,
    agent_controller_pool: &mut AgentControllerPool,
    agent_desired_state: Option<AgentDesiredState>,
    params: UpdateAgentStatusParams,
    result: Result<AgentSocketStep, AgentSocketError>,
)
    requires
        call_ensures(
            AgentSocketControllerContext::handle_deserialized_message,
            (
                context,
                connection_close,
                agent_controller_pool,
                agent_desired_state,
                ManagementJsonRpcMessage::Notification(
                    ManagementJsonRpcNotification::UpdateAgentStatus(params),
                ),
            ),
            result,
        ),
        old(agent_controller_pool)@.agents.contains_key(context.agent_id@),
    ensures
        ({
            let before = old(agent_controller_pool)@.agents[context.agent_id@];
            let after = final(agent_controller_pool)@.agents[context.agent_id@];
            let report = params.slot_aggregated_status_snapshot;
            &&& report.version < before.newest_update_version ==> after == before
            &&& report.version >= before.newest_update_version ==> {
                &&& after.slots_total == report.slots_total
                &&& after.issues == report@.issues
                &&& after.state_application_status_code
                    == report.state_application_status.code_of()
            }
            &&& after == before.after(report@)
            &&& after.slots_processing == before.slots_processing
            &&& after.slots_total != before.slots_total ==> final(agent_controller_pool)@.updates
                == old(agent_controller_pool)@.updates + 1
            &&& after == before ==> report.tokens_per_second.is_nan()
                || final(agent_controller_pool)@.updates == old(agent_controller_pool)@.updates
        }),
{
}

/// A response goes, as it is and under the id of its request, to whoever waits for
/// responses of its sort: answers that differ in sort are awaited in different places.
pub proof fn responses_are_handed_to_whoever_waits(
    context: &AgentSocketControllerContext,
    connection_close: &mut CancellationToken,
    agent_controller_pool: &mut AgentControllerPool,
    agent_desired_state: Option<AgentDesiredState>,
    envelope: ResponseEnvelope,
    result: Result<AgentSocketStep, AgentSocketError>,
    other: AgentJsonRpcResponse,
)
    requires
        call_ensures(
            AgentSocketControllerContext::handle_deserialized_message,
            (
                context,
                connection_close,
                agent_controller_pool,
                agent_desired_state,
                ManagementJsonRpcMessage::Response(envelope),
            ),
            result,
        ),
    ensures
        result matches Ok(step) && step.decision is Continue && {
            &&& step.effect matches AgentSocketEffect::ForwardResponse(collection, id, response)
            &&& id == envelope.request_id
            &&& response == envelope.response
            &&& collection == collection_of(other) <==> {
                ||| response is ChatTemplateOverride && other is ChatTemplateOverride
                ||| response is Embedding && other is Embedding
                ||| response is GeneratedToken && other is GeneratedToken
                ||| response is ModelMetadata && other is ModelMetadata
            }
            &&& collection is GenerateTokens <==> response is GeneratedToken
            &&& collection is Embedding <==> response is Embedding
            &&& collection is ModelMetadata <==> response is ModelMetadata
        },
{
}

/// An agent whose connection is gone is gone, and the others stay as they were.
pub proof fn an_agent_is_gone_with_its_connection(
    context: &AgentSocketControllerContext,
    agent_controller_pool: &mut AgentControllerPool,
    other: Seq<char>,
)
    requires
        call_ensures(AgentSocketControllerContext::close, (context, agent_controller_pool), ()),
        other != context.agent_id@,
    ensures
        ({
            let before = old(agent_controller_pool)@.agents;
            let after = final(agent_controller_pool)@.agents;
            &&& !after.contains_key(context.agent_id@)
            &&& after.contains_key(other) <==> before.contains_key(other)
            &&& before.contains_key(other) ==> after[other] == before[other]
            &&& before.contains_key(context.agent_id@) ==> final(agent_controller_pool)@.updates
                == old(agent_controller_pool)@.updates + 1
        }),
{
}

/// Every message that comes out of the queue is sent, as it is, and only the end of the
/// connection or of the queue stops that.
pub proof fn every_message_is_sent(event: AgentMessageEvent, action: AgentMessageAction)
    requires
        call_ensures(forward_agent_message, (event,), action),
    ensures
        event matches AgentMessageEvent::Message(message) ==> action == AgentMessageAction::Send(
            message,
        ),
        action is Stop <==> !(event is Message),
{
}

/// An agent is told the version of the balancer first, and its connection stays open exactly
/// if it could be.
pub proof fn the_version_is_told_first(
    version: String,
    message: AgentJsonRpcMessage,
    version_sent: bool,
    decision: ContinuationDecision,
)
    requires
        call_ensures(version_message, (version,), message),
        call_ensures(on_connection_start, (version_sent,), decision),
    ensures
        message matches AgentJsonRpcMessage::Notification(
            AgentJsonRpcNotification::Version(params),
        ) && params.version == version,
        decision is Continue <==> version_sent,
{
}

} // verus!
