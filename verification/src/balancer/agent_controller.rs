//! What the balancer keeps of an agent that is connected to it.
use tokio::sync::mpsc;
use vstd::prelude::*;

use crate::balancer::sender_collection::SenderAlreadyExists;
use crate::balancer::sender_collection::SenderCollection;
use crate::messaging::agent_controller_snapshot::AgentControllerSnapshot;
use crate::messaging::agent_controller_snapshot::AgentControllerSnapshotView;
use crate::messaging::agent_issue::AgentIssueView;
use crate::messaging::agent_issue::AgentIssues;
use crate::messaging::agent_state_application_status::AgentStateApplicationStatus;
use crate::messaging::agent_state_application_status::InvalidAgentStateApplicationStatus;
use crate::messaging::agent_state_application_status::accepted_codes_are_codes_of_a_status;
use crate::messaging::agent_state_application_status::status_survives_its_code;
use crate::messaging::messages::AgentDesiredState;
use crate::messaging::messages::AgentJsonRpcMessage;
use crate::messaging::messages::AgentJsonRpcNotification;
use crate::messaging::messages::AgentJsonRpcRequest;
use crate::messaging::messages::RequestEnvelope;
use crate::messaging::messages::SetStateParams;
use crate::messaging::slot_aggregated_status_snapshot::SlotAggregatedStatusSnapshot;
use crate::messaging::slot_aggregated_status_snapshot::SlotAggregatedStatusSnapshotView;
use crate::messaging::tokens_per_second::TokensPerSecond;
use crate::outside::fresh_identifier;
use crate::outside::is_identifier;
use crate::outside::is_received;
use crate::outside::messages_to_agent;
use crate::outside::no_messages_to_agent;
use crate::outside::queue_fed_by;
use crate::outside::send_to_agent;
use crate::text::clone_text;
use crate::text::same_text;
use crate::text::text_of;

verus! {

/// An agent that is connected to the balancer, with what it last reported.
pub struct AgentController {
    /// The queue of the messages to the agent.
    pub agent_message_tx: mpsc::UnboundedSender<AgentJsonRpcMessage>,
    /// The number of the connection over which the agent registered. No two
    /// connections share a number.
    pub connection: u64,
    pub desired_slots_total: i32,
    pub download_current: u64,
    pub download_filename: Option<String>,
    pub download_indeterminate: bool,
    pub download_total: u64,
    pub id: String,
    pub issues: AgentIssues,
    pub model_path: Option<String>,
    pub name: Option<String>,
    pub newest_update_version: i32,
    pub slots_processing: i32,
    pub slots_total: i32,
    pub state_application_status_code: i32,
    pub tokens_per_second: TokensPerSecond,
    pub uses_chat_template_override: bool,
}

/// The content of what is kept of an agent.
#[verifier::ext_equal]
pub ghost struct AgentControllerView {
    pub connection: u64,
    pub desired_slots_total: i32,
    pub download_current: u64,
    pub download_filename: Option<Seq<char>>,
    pub download_indeterminate: bool,
    pub download_total: u64,
    pub id: Seq<char>,
    pub issues: Set<AgentIssueView>,
    /// What was to be sent to the agent, in order, each message with whether it
    /// could be sent.
    pub messages: Seq<(AgentJsonRpcMessage, bool)>,
    pub model_path: Option<Seq<char>>,
    pub name: Option<Seq<char>>,
    pub newest_update_version: i32,
    /// The queue of the messages to the agent.
    pub queue: int,
    pub slots_processing: i32,
    pub slots_total: i32,
    pub state_application_status_code: i32,
    pub tokens_per_second: TokensPerSecond,
    pub uses_chat_template_override: bool,
}

/// Whether an update changed anything that is worth telling.
#[derive(Clone, Copy, Debug, PartialEq, Eq, Structural)]
pub enum AgentControllerUpdateResult {
    NoMeaningfulChanges,
    Updated,
}

/// The agent cannot be reached: nothing receives its messages any more.
#[derive(Clone, Copy, Debug, PartialEq, Eq, Structural)]
pub struct AgentUnreachable;

/// Why a request could not be passed to an agent.
#[derive(Debug)]
pub enum AgentRequestError {
    SenderAlreadyExists(SenderAlreadyExists),
    AgentUnreachable,
}

impl AgentRequestError {
    /// The error as a message.
    pub fn message(&self) -> (text: String)
        ensures
            text@ == match *self {
                AgentRequestError::SenderAlreadyExists(error) => "Sender for request_id "@
                    + error.request_id@ + " already exists"@,
                AgentRequestError::AgentUnreachable => "channel closed"@,
            },
    {
        match self {
            AgentRequestError::SenderAlreadyExists(error) => error.message(),
            AgentRequestError::AgentUnreachable => String::from_str("channel closed"),
        }
    }
}

impl View for AgentController {
    type V = AgentControllerView;

    open spec fn view(&self) -> AgentControllerView {
        AgentControllerView {
            connection: self.connection,
            desired_slots_total: self.desired_slots_total,
            download_current: self.download_current,
            download_filename: text_of(self.download_filename),
            download_indeterminate: self.download_indeterminate,
            download_total: self.download_total,
            id: self.id@,
            issues: self.issues@,
            messages: messages_to_agent(self.agent_message_tx),
            model_path: text_of(self.model_path),
            name: text_of(self.name),
            newest_update_version: self.newest_update_version,
            queue: queue_fed_by(self.agent_message_tx),
            slots_processing: self.slots_processing,
            slots_total: self.slots_total,
            state_application_status_code: self.state_application_status_code,
            tokens_per_second: self.tokens_per_second,
            uses_chat_template_override: self.uses_chat_template_override,
        }
    }
}

impl AgentControllerView {
    /// Whether the agent has a slot to spare.
    pub open spec fn has_capacity(self) -> bool {
        self.slots_processing < self.slots_total
    }

    /// Whether what `report` says is older than what is known.
    pub open spec fn is_stale(self, report: SlotAggregatedStatusSnapshotView) -> bool {
        report.version < self.newest_update_version
    }

    /// Whether `report` says anything new.
    pub open spec fn differs_from(self, report: SlotAggregatedStatusSnapshotView) -> bool {
        ||| self.desired_slots_total != report.desired_slots_total
        ||| self.download_current != report.download_current
        ||| self.download_filename != report.download_filename
        ||| self.download_indeterminate != report.download_indeterminate
        ||| self.download_total != report.download_total
        ||| self.issues != report.issues
        ||| self.model_path != report.model_path
        ||| self.slots_total != report.slots_total
        ||| self.state_application_status_code != report.state_application_status.code_of()
        ||| !self.tokens_per_second.equals(report.tokens_per_second)
        ||| self.uses_chat_template_override != report.uses_chat_template_override
    }

    /// What is kept of the agent after `report`. The balancer counts the slots
    /// that it hands out itself, so the report does not touch that count.
    pub open spec fn after(self, report: SlotAggregatedStatusSnapshotView) -> AgentControllerView {
        if self.is_stale(report) {
            self
        } else {
            AgentControllerView {
                desired_slots_total: report.desired_slots_total,
                download_current: report.download_current,
                download_filename: report.download_filename,
                download_indeterminate: report.download_indeterminate,
                download_total: report.download_total,
                issues: report.issues,
                model_path: report.model_path,
                newest_update_version: report.version,
                slots_total: report.slots_total,
                state_application_status_code: report.state_application_status.code_of(),
                tokens_per_second: if self.tokens_per_second.equals(report.tokens_per_second) {
                    self.tokens_per_second
                } else {
                    report.tokens_per_second
                },
                uses_chat_template_override: report.uses_chat_template_override,
                ..self
            }
        }
    }

    /// Whether `report` is worth telling.
    pub open spec fn update_result(
        self,
        report: SlotAggregatedStatusSnapshotView,
    ) -> AgentControllerUpdateResult {
        if !self.is_stale(report) && self.differs_from(report) {
            AgentControllerUpdateResult::Updated
        } else {
            AgentControllerUpdateResult::NoMeaningfulChanges
        }
    }

    /// The state of the agent after it was tried to send it `message`.
    pub open spec fn sent(
        self,
        message: AgentJsonRpcMessage,
        accepted: bool,
    ) -> AgentControllerView {
        AgentControllerView { messages: self.messages.push((message, accepted)), ..self }
    }

    /// What a snapshot says of the agent, which is in the given status.
    pub open spec fn snapshot(
        self,
        status: AgentStateApplicationStatus,
    ) -> AgentControllerSnapshotView {
        AgentControllerSnapshotView {
            desired_slots_total: self.desired_slots_total,
            download_current: self.download_current,
            download_filename: self.download_filename,
            download_indeterminate: self.download_indeterminate,
            download_total: self.download_total,
            id: self.id,
            issues: self.issues,
            model_path: self.model_path,
            name: self.name,
            slots_processing: self.slots_processing,
            slots_total: self.slots_total,
            state_application_status: status,
            tokens_per_second: self.tokens_per_second,
            uses_chat_template_override: self.uses_chat_template_override,
        }
    }

    /// What is kept of an agent that registered over `connection` as `id`, and to
    /// which messages go through `queue`.
    pub open spec fn registered(
        connection: u64,
        queue: int,
        id: Seq<char>,
        name: Option<Seq<char>>,
        report: SlotAggregatedStatusSnapshotView,
    ) -> AgentControllerView {
        AgentControllerView {
            connection,
            desired_slots_total: report.desired_slots_total,
            download_current: report.download_current,
            download_filename: report.download_filename,
            download_indeterminate: report.download_indeterminate,
            download_total: report.download_total,
            id,
            issues: report.issues,
            messages: no_messages_to_agent(),
            model_path: report.model_path,
            name,
            newest_update_version: report.version,
            queue,
            slots_processing: report.slots_processing,
            slots_total: report.slots_total,
            state_application_status_code: report.state_application_status.code_of(),
            tokens_per_second: report.tokens_per_second,
            uses_chat_template_override: report.uses_chat_template_override,
        }
    }
}

/// The request under its id.
pub open spec fn request_message(
    request_id: String,
    request: AgentJsonRpcRequest,
) -> AgentJsonRpcMessage {
    AgentJsonRpcMessage::Request(RequestEnvelope { id: request_id, request })
}

/// The notification that asks an agent to be in `desired_state`.
pub open spec fn set_state_message(desired_state: AgentDesiredState) -> AgentJsonRpcMessage {
    AgentJsonRpcMessage::Notification(
        AgentJsonRpcNotification::SetState(Box::new(SetStateParams { desired_state })),
    )
}

/// How a request whose channel is registered before it is sent leaves the
/// messages to the agent and the registered channels.
pub open spec fn streaming_request_leaves(
    messages_before: Seq<(AgentJsonRpcMessage, bool)>,
    messages_after: Seq<(AgentJsonRpcMessage, bool)>,
    senders_before: Map<Seq<char>, usize>,
    senders_after: Map<Seq<char>, usize>,
    channel: usize,
    request_id: Seq<char>,
    message: AgentJsonRpcMessage,
    result: Result<(), AgentRequestError>,
) -> bool {
    match result {
        Ok(()) => {
            &&& !senders_before.contains_key(request_id)
            &&& senders_after == senders_before.insert(request_id, channel)
            &&& messages_after == messages_before.push((message, true))
        },
        Err(AgentRequestError::SenderAlreadyExists(error)) => {
            &&& senders_before.contains_key(request_id)
            &&& error.request_id@ == request_id
            &&& senders_after == senders_before
            &&& messages_after == messages_before
        },
        Err(AgentRequestError::AgentUnreachable) => {
            &&& !senders_before.contains_key(request_id)
            &&& senders_after == senders_before
            &&& messages_after == messages_before.push((message, false))
        },
    }
}

/// How a request whose channel is registered after it was sent leaves the
/// messages to the agent and the registered channels.
pub open spec fn oneshot_request_leaves(
    messages_before: Seq<(AgentJsonRpcMessage, bool)>,
    messages_after: Seq<(AgentJsonRpcMessage, bool)>,
    senders_before: Map<Seq<char>, usize>,
    senders_after: Map<Seq<char>, usize>,
    channel: usize,
    request_id: Seq<char>,
    message: AgentJsonRpcMessage,
    result: Result<(), AgentRequestError>,
) -> bool {
    match result {
        Ok(()) => {
            &&& !senders_before.contains_key(request_id)
            &&& senders_after == senders_before.insert(request_id, channel)
            &&& messages_after == messages_before.push((message, true))
        },
        Err(AgentRequestError::SenderAlreadyExists(error)) => {
            &&& senders_before.contains_key(request_id)
            &&& error.request_id@ == request_id
            &&& senders_after == senders_before
            &&& messages_after == messages_before.push((message, true))
        },
        Err(AgentRequestError::AgentUnreachable) => {
            &&& senders_after == senders_before
            &&& messages_after == messages_before.push((message, false))
        },
    }
}

/// Sends a message whose responses are awaited on `channel`. The channel is
/// registered before the message is sent, and not left registered if the agent
/// cannot be reached.
pub fn send_streaming_message(
    agent_message_tx: &mut mpsc::UnboundedSender<AgentJsonRpcMessage>,
    request_id: String,
    senders: &mut SenderCollection,
    channel: usize,
    message: AgentJsonRpcMessage,
) -> (result: Result<(), AgentRequestError>)
    ensures
        streaming_request_leaves(
            messages_to_agent(*old(agent_message_tx)),
            messages_to_agent(*final(agent_message_tx)),
            old(senders)@,
            final(senders)@,
            channel,
            request_id@,
            message,
            result,
        ),
        queue_fed_by(*final(agent_message_tx)) == queue_fed_by(*old(agent_message_tx)),
{
    match senders.register_sender(request_id.clone(), channel) {
        Ok(()) => {},
        Err(error) => {
            return Err(AgentRequestError::SenderAlreadyExists(error));
        },
    }
    if send_to_agent(agent_message_tx, message, None) {
        Ok(())
    } else {
        senders.deregister_sender(request_id.as_str());
        assert(senders@ =~= old(senders)@);
        Err(AgentRequestError::AgentUnreachable)
    }
}

impl AgentController {
    /// An agent that registered over `connection` as `id`, with the queue of the
    /// messages to it.
    pub fn from_registration(
        agent_message_tx: mpsc::UnboundedSender<AgentJsonRpcMessage>,
        connection: u64,
        id: String,
        name: Option<String>,
        report: SlotAggregatedStatusSnapshot,
    ) -> (agent: AgentController)
        ensures
            agent@ == (AgentControllerView {
                messages: messages_to_agent(agent_message_tx),
                ..AgentControllerView::registered(
                    connection,
                    queue_fed_by(agent_message_tx),
                    id@,
                    text_of(name),
                    report@,
                )
            }),
    {
        AgentController {
            agent_message_tx,
            connection,
            desired_slots_total: report.desired_slots_total,
            download_current: report.download_current,
            download_filename: report.download_filename,
            download_indeterminate: report.download_indeterminate,
            download_total: report.download_total,
            id,
            issues: report.issues,
            model_path: report.model_path,
            name,
            newest_update_version: report.version,
            slots_processing: report.slots_processing,
            slots_total: report.slots_total,
            state_application_status_code: report.state_application_status.code(),
            tokens_per_second: report.tokens_per_second,
            uses_chat_template_override: report.uses_chat_template_override,
        }
    }

    pub fn get_download_filename(&self) -> (filename: Option<String>)
        ensures
            text_of(filename) == self@.download_filename,
    {
        clone_text(&self.download_filename)
    }

    pub fn get_issues(&self) -> (issues: AgentIssues)
        ensures
            issues@ == self@.issues,
    {
        self.issues.clone()
    }

    pub fn get_model_path(&self) -> (model_path: Option<String>)
        ensures
            text_of(model_path) == self@.model_path,
    {
        clone_text(&self.model_path)
    }

    pub fn get_tokens_per_second(&self) -> (rate: TokensPerSecond)
        ensures
            rate == self@.tokens_per_second,
    {
        self.tokens_per_second
    }

    pub fn set_download_filename(&mut self, filename: Option<String>)
        ensures
            final(self)@ == (AgentControllerView {
                download_filename: text_of(filename),
                ..old(self)@
            }),
    {
        self.download_filename = filename;
    }

    pub fn set_issues(&mut self, issues: AgentIssues)
        ensures
            final(self)@ == (AgentControllerView { issues: issues@, ..old(self)@ }),
    {
        self.issues = issues;
    }

    pub fn set_model_path(&mut self, model_path: Option<String>)
        ensures
            final(self)@ == (AgentControllerView {
                model_path: text_of(model_path),
                ..old(self)@
            }),
    {
        self.model_path = model_path;
    }

    pub fn set_tokens_per_second(&mut self, tokens_per_second: TokensPerSecond)
        ensures
            final(self)@ == (AgentControllerView { tokens_per_second, ..old(self)@ }),
    {
        self.tokens_per_second = tokens_per_second;
    }

    /// Takes over what the agent reports, unless something newer is known, and
    /// says whether anything changed that is worth telling.
    pub fn update_from_slot_aggregated_status_snapshot(
        &mut self,
        report: SlotAggregatedStatusSnapshot,
    ) -> (result: AgentControllerUpdateResult)
        ensures
            final(self)@ == old(self)@.after(report@),
            result == old(self)@.update_result(report@),
    {
        if report.version < self.newest_update_version {
            return AgentControllerUpdateResult::NoMeaningfulChanges;
        }
        let state_application_status_code: i32 = report.state_application_status.code();

        let mut changed = self.desired_slots_total != report.desired_slots_total
            || self.download_current != report.download_current || self.download_indeterminate
            != report.download_indeterminate || self.download_total != report.download_total
            || self.slots_total != report.slots_total || self.state_application_status_code
            != state_application_status_code || self.uses_chat_template_override
            != report.uses_chat_template_override;

        self.desired_slots_total = report.desired_slots_total;
        self.download_current = report.download_current;
        self.download_indeterminate = report.download_indeterminate;
        self.download_total = report.download_total;
        self.slots_total = report.slots_total;
        self.state_application_status_code = state_application_status_code;
        self.uses_chat_template_override = report.uses_chat_template_override;
        self.newest_update_version = report.version;

        if !same_text(&report.download_filename, &self.download_filename) {
            changed = true;
            self.set_download_filename(report.download_filename);
        }
        if !report.issues.same_as(&self.issues) {
            changed = true;
            self.set_issues(report.issues);
        }
        if !same_text(&report.model_path, &self.model_path) {
            changed = true;
            self.set_model_path(report.model_path);
        }
        if self.tokens_per_second.differs_from(&report.tokens_per_second) {
            changed = true;
            self.set_tokens_per_second(report.tokens_per_second);
        }
        if changed {
            AgentControllerUpdateResult::Updated
        } else {
            AgentControllerUpdateResult::NoMeaningfulChanges
        }
    }

    /// What is known of the agent at this moment; an error if the stored status
    /// code is not that of a status.
    pub fn make_snapshot(&self) -> (result: Result<
        AgentControllerSnapshot,
        InvalidAgentStateApplicationStatus,
    >)
        ensures
            match AgentStateApplicationStatus::of_code(self@.state_application_status_code) {
                Some(status) => result matches Ok(snapshot) && snapshot@ == self@.snapshot(status),
                None => result matches Err(error) && error.value
                    == self@.state_application_status_code,
            },
    {
        let status = match AgentStateApplicationStatus::try_from_code(
            self.state_application_status_code,
        ) {
            Ok(status) => status,
            Err(error) => {
                return Err(error);
            },
        };
        Ok(
            AgentControllerSnapshot {
                desired_slots_total: self.desired_slots_total,
                download_current: self.download_current,
                download_filename: self.get_download_filename(),
                download_indeterminate: self.download_indeterminate,
                download_total: self.download_total,
                id: self.id.clone(),
                issues: self.get_issues(),
                model_path: self.get_model_path(),
                name: clone_text(&self.name),
                slots_processing: self.slots_processing,
                slots_total: self.slots_total,
                state_application_status: status,
                tokens_per_second: self.get_tokens_per_second(),
                uses_chat_template_override: self.uses_chat_template_override,
            },
        )
    }

    /// Queues a message to the agent.
    pub fn send_rpc_message(&mut self, message: AgentJsonRpcMessage) -> (result: Result<
        (),
        AgentUnreachable,
    >)
        ensures
            final(self)@ == old(self)@.sent(message, result is Ok),
    {
        self.send_rpc_message_while(message, None)
    }

    /// Queues a message to the agent, while the caller may hold what its queue is
    /// emptied by. An agent whose queue is held open can be reached.
    pub fn send_rpc_message_while(
        &mut self,
        message: AgentJsonRpcMessage,
        held: Option<&mpsc::UnboundedReceiver<AgentJsonRpcMessage>>,
    ) -> (result: Result<(), AgentUnreachable>)
        ensures
            final(self)@ == old(self)@.sent(message, result is Ok),
            is_received(old(self)@.queue, held) ==> result is Ok,
    {
        if send_to_agent(&mut self.agent_message_tx, message, held) {
            Ok(())
        } else {
            Err(AgentUnreachable)
        }
    }

    /// Tells the agent that nobody waits for the responses to a request any more.
    pub fn stop_responding_to(&mut self, request_id: String) -> (result: Result<
        (),
        AgentUnreachable,
    >)
        ensures
            final(self)@ == old(self)@.sent(
                AgentJsonRpcMessage::Notification(
                    AgentJsonRpcNotification::StopRespondingTo(request_id),
                ),
                result is Ok,
            ),
    {
        self.send_rpc_message(
            AgentJsonRpcMessage::Notification(
                AgentJsonRpcNotification::StopRespondingTo(request_id),
            ),
        )
    }

    /// Asks the agent to be in the desired state.
    pub fn set_desired_state(&mut self, desired_state: AgentDesiredState) -> (result: Result<
        (),
        AgentUnreachable,
    >)
        ensures
            final(self)@ == old(self)@.sent(set_state_message(desired_state), result is Ok),
    {
        self.send_rpc_message(
            AgentJsonRpcMessage::Notification(
                AgentJsonRpcNotification::SetState(Box::new(SetStateParams { desired_state })),
            ),
        )
    }

    /// Sends a request whose one response is awaited on `channel`. The channel is
    /// registered once the request is on its way.
    pub fn send_oneshot_request(
        &mut self,
        senders: &mut SenderCollection,
        channel: usize,
        request_id: String,
        request: AgentJsonRpcRequest,
    ) -> (result: Result<(), AgentRequestError>)
        ensures
            final(self)@ == (AgentControllerView { messages: final(self)@.messages, ..old(self)@ }),
            oneshot_request_leaves(
                old(self)@.messages,
                final(self)@.messages,
                old(senders)@,
                final(senders)@,
                channel,
                request_id@,
                request_message(request_id, request),
                result,
            ),
    {
        match self.send_rpc_message(
            AgentJsonRpcMessage::Request(RequestEnvelope { id: request_id.clone(), request }),
        ) {
            Ok(()) => {},
            Err(_) => {
                return Err(AgentRequestError::AgentUnreachable);
            },
        }
        match senders.register_sender(request_id, channel) {
            Ok(()) => Ok(()),
            Err(error) => Err(AgentRequestError::SenderAlreadyExists(error)),
        }
    }

    /// Sends a request under a fresh id, which is returned, and awaits its one
    /// response on `channel`.
    pub fn get_oneshot_response(
        &mut self,
        senders: &mut SenderCollection,
        channel: usize,
        request: AgentJsonRpcRequest,
    ) -> (result: Result<String, AgentRequestError>)
        ensures
            final(self)@ == (AgentControllerView { messages: final(self)@.messages, ..old(self)@ }),
            exists|request_id: String, sent: Result<(), AgentRequestError>|
                {
                    &&& is_identifier(request_id@)
                    &&& match (result, sent) {
                        (Ok(returned), Ok(())) => returned == request_id,
                        (Err(error), Err(reason)) => error == reason,
                        _ => false,
                    }
                    &&& #[trigger] oneshot_request_leaves(
                        old(self)@.messages,
                        final(self)@.messages,
                        old(senders)@,
                        final(senders)@,
                        channel,
                        request_id@,
                        request_message(request_id, request),
                        sent,
                    )
                },
    {
        let request_id = fresh_identifier();
        match self.send_oneshot_request(senders, channel, request_id.clone(), request) {
            Ok(()) => Ok(request_id),
            Err(error) => {
                let ghost sent = Err::<(), AgentRequestError>(error);
                assert(oneshot_request_leaves(
                    old(self)@.messages,
                    self@.messages,
                    old(senders)@,
                    senders@,
                    channel,
                    request_id@,
                    request_message(request_id, request),
                    sent,
                ));
                Err(error)
            },
        }
    }

    /// Asks the agent for the chat template that it uses in place of its model's own.
    pub fn get_chat_template_override(
        &mut self,
        senders: &mut SenderCollection,
        channel: usize,
    ) -> (result: Result<String, AgentRequestError>)
        ensures
            final(self)@ == (AgentControllerView { messages: final(self)@.messages, ..old(self)@ }),
            exists|request_id: String, sent: Result<(), AgentRequestError>|
                {
                    &&& is_identifier(request_id@)
                    &&& match (result, sent) {
                        (Ok(returned), Ok(())) => returned == request_id,
                        (Err(error), Err(reason)) => error == reason,
                        _ => false,
                    }
                    &&& #[trigger] oneshot_request_leaves(
                        old(self)@.messages,
                        final(self)@.messages,
                        old(senders)@,
                        final(senders)@,
                        channel,
                        request_id@,
                        request_message(request_id, AgentJsonRpcRequest::GetChatTemplateOverride),
                        sent,
                    )
                },
    {
        self.get_oneshot_response(senders, channel, AgentJsonRpcRequest::GetChatTemplateOverride)
    }

    /// Asks the agent for the metadata of its model.
    pub fn get_model_metadata(&mut self, senders: &mut SenderCollection, channel: usize) -> (result:
        Result<String, AgentRequestError>)
        ensures
            final(self)@ == (AgentControllerView { messages: final(self)@.messages, ..old(self)@ }),
            exists|request_id: String, sent: Result<(), AgentRequestError>|
                {
                    &&& is_identifier(request_id@)
                    &&& match (result, sent) {
                        (Ok(returned), Ok(())) => returned == request_id,
                        (Err(error), Err(reason)) => error == reason,
                        _ => false,
                    }
                    &&& #[trigger] oneshot_request_leaves(
                        old(self)@.messages,
                        final(self)@.messages,
                        old(senders)@,
                        final(senders)@,
                        channel,
                        request_id@,
                        request_message(request_id, AgentJsonRpcRequest::GetModelMetadata),
                        sent,
                    )
                },
    {
        self.get_oneshot_response(senders, channel, AgentJsonRpcRequest::GetModelMetadata)
    }

    /// Sends a message whose responses are awaited on `channel`. The channel is
    /// registered before the message is sent, and not left registered if the
    /// agent cannot be reached.
    pub fn receiver_from_message(
        &mut self,
        request_id: String,
        senders: &mut SenderCollection,
        channel: usize,
        message: AgentJsonRpcMessage,
    ) -> (result: Result<(), AgentRequestError>)
        ensures
            final(self)@ == (AgentControllerView { messages: final(self)@.messages, ..old(self)@ }),
            streaming_request_leaves(
                old(self)@.messages,
                final(self)@.messages,
                old(senders)@,
                final(senders)@,
                channel,
                request_id@,
                message,
                result,
            ),
    {
        send_streaming_message(
            &mut self.agent_message_tx,
            request_id,
            senders,
            channel,
            message,
        )
    }

    /// Sends a request and awaits its responses on `channel`.
    pub fn handle_streaming_response(
        &mut self,
        request_id: String,
        senders: &mut SenderCollection,
        channel: usize,
        request: AgentJsonRpcRequest,
    ) -> (result: Result<(), AgentRequestError>)
        ensures
            final(self)@ == (AgentControllerView { messages: final(self)@.messages, ..old(self)@ }),
            streaming_request_leaves(
                old(self)@.messages,
                final(self)@.messages,
                old(senders)@,
                final(senders)@,
                channel,
                request_id@,
                request_message(request_id, request),
                result,
            ),
    {
        self.receiver_from_message(
            request_id.clone(),
            senders,
            channel,
            AgentJsonRpcMessage::Request(RequestEnvelope { id: request_id, request }),
        )
    }
}

/// What is known of an agent never gets older.
pub proof fn versions_never_go_back(
    agent: AgentControllerView,
    report: SlotAggregatedStatusSnapshotView,
)
    ensures
        agent.after(report).newest_update_version >= agent.newest_update_version,
        agent.is_stale(report) ==> agent.after(report) == agent,
        agent.after(report).slots_processing == agent.slots_processing,
{
}

/// The same report twice is worth telling at most once, as long as its rate is a
/// number.
pub proof fn reports_are_told_once(
    agent: AgentControllerView,
    report: SlotAggregatedStatusSnapshotView,
)
    requires
        !report.tokens_per_second.is_nan(),
    ensures
        agent.after(report).after(report) == agent.after(report),
        agent.after(report).update_result(report)
            == AgentControllerUpdateResult::NoMeaningfulChanges,
{
}

/// After a report that is not older than what is known, what is kept of the agent is
/// what it reported. What the balancer keeps itself stays as it was: who the agent is,
/// how it is reached, and the slots that were handed out.
pub proof fn what_is_reported_is_kept(
    agent: AgentControllerView,
    report: SlotAggregatedStatusSnapshotView,
)
    requires
        report.version >= agent.newest_update_version,
    ensures
        ({
            let after = agent.after(report);
            &&& after.desired_slots_total == report.desired_slots_total
            &&& after.download_current == report.download_current
            &&& after.download_filename == report.download_filename
            &&& after.download_indeterminate == report.download_indeterminate
            &&& after.download_total == report.download_total
            &&& after.issues == report.issues
            &&& after.model_path == report.model_path
            &&& after.newest_update_version == report.version
            &&& after.slots_total == report.slots_total
            &&& AgentStateApplicationStatus::of_code(after.state_application_status_code) == Some(
                report.state_application_status,
            )
            &&& after.tokens_per_second == report.tokens_per_second || after.tokens_per_second.equals(
                report.tokens_per_second,
            )
            &&& after.uses_chat_template_override == report.uses_chat_template_override
            &&& after.connection == agent.connection
            &&& after.id == agent.id
            &&& after.messages == agent.messages
            &&& after.name == agent.name
            &&& after.queue == agent.queue
            &&& after.slots_processing == agent.slots_processing
        }),
{
    status_survives_its_code(report.state_application_status);
}

/// A report that is older than what is known changes nothing, and is not told.
pub proof fn older_reports_change_nothing(
    agent: AgentControllerView,
    report: SlotAggregatedStatusSnapshotView,
)
    requires
        report.version < agent.newest_update_version,
    ensures
        agent.after(report) == agent,
        agent.update_result(report) == AgentControllerUpdateResult::NoMeaningfulChanges,
{
}

/// A report is told exactly if it changes what is shown of the agent. (A rate that is
/// not a number differs even from itself.)
pub proof fn reports_are_told_if_they_change_what_is_shown(
    agent: AgentControllerView,
    report: SlotAggregatedStatusSnapshotView,
    status: AgentStateApplicationStatus,
)
    requires
        report.version >= agent.newest_update_version,
        AgentStateApplicationStatus::of_code(agent.state_application_status_code) == Some(status),
        !(agent.tokens_per_second.is_nan() && report.tokens_per_second == agent.tokens_per_second),
    ensures
        agent.update_result(report) == AgentControllerUpdateResult::Updated
            <==> agent.after(report).snapshot(report.state_application_status) != agent.snapshot(
            status,
        ),
{
    status_survives_its_code(report.state_application_status);
    status_survives_its_code(status);
    accepted_codes_are_codes_of_a_status(agent.state_application_status_code);
}

/// A snapshot shows what is kept of the agent.
pub proof fn snapshots_show_what_is_kept(
    agent: AgentControllerView,
    status: AgentStateApplicationStatus,
)
    ensures
        ({
            let shown = agent.snapshot(status);
            &&& shown.desired_slots_total == agent.desired_slots_total
            &&& shown.download_current == agent.download_current
            &&& shown.download_filename == agent.download_filename
            &&& shown.download_indeterminate == agent.download_indeterminate
            &&& shown.download_total == agent.download_total
            &&& shown.id == agent.id
            &&& shown.issues == agent.issues
            &&& shown.model_path == agent.model_path
            &&& shown.name == agent.name
            &&& shown.slots_processing == agent.slots_processing
            &&& shown.slots_total == agent.slots_total
            &&& shown.state_application_status == status
            &&& shown.tokens_per_second == agent.tokens_per_second
            &&& shown.uses_chat_template_override == agent.uses_chat_template_override
        }),
{
}

/// What is kept of an agent that registers is what it reports of itself.
pub proof fn registrations_keep_what_is_reported(
    connection: u64,
    queue: int,
    id: Seq<char>,
    name: Option<Seq<char>>,
    report: SlotAggregatedStatusSnapshotView,
)
    ensures
        ({
            let agent = AgentControllerView::registered(connection, queue, id, name, report);
            &&& agent.connection == connection
            &&& agent.queue == queue
            &&& agent.id == id
            &&& agent.name == name
            &&& agent.messages.len() == 0
            &&& agent.newest_update_version == report.version
            &&& agent.slots_processing == report.slots_processing
            &&& agent.slots_total == report.slots_total
            &&& agent.snapshot(report.state_application_status).issues == report.issues
            &&& agent.update_result(report) == AgentControllerUpdateResult::Updated
                ==> report.tokens_per_second.is_nan()
            &&& AgentStateApplicationStatus::of_code(agent.state_application_status_code) == Some(
                report.state_application_status,
            )
        }),
{
    status_survives_its_code(report.state_application_status);
}

/// A request whose responses stream in goes out exactly if nobody waits under its id
/// and the agent can be reached. It is then the last message to the agent, and its
/// channel waits; else nobody begins or stops to wait.
pub proof fn a_channel_waits_if_its_request_went_out(
    agent: &mut AgentController,
    request_id: String,
    senders: &mut SenderCollection,
    channel: usize,
    request: AgentJsonRpcRequest,
    result: Result<(), AgentRequestError>,
)
    requires
        call_ensures(
            AgentController::handle_streaming_response,
            (agent, request_id, senders, channel, request),
            result,
        ),
    ensures
        ({
            let id = request_id@;
            let message = AgentJsonRpcMessage::Request(RequestEnvelope { id: request_id, request });
            let before = old(agent)@.messages;
            let after = final(agent)@.messages;
            &&& result is Ok <==> final(senders)@.contains_key(id) && !old(senders)@.contains_key(id)
            &&& result is Err ==> final(senders)@ == old(senders)@
            &&& result is Ok ==> {
                &&& !old(senders)@.contains_key(id)
                &&& final(senders)@.contains_key(id)
                &&& final(senders)@[id] == channel
                &&& final(senders)@.remove(id) == old(senders)@
                &&& after.len() == before.len() + 1
                &&& after.last() == (message, true)
                &&& after.drop_last() == before
            }
            &&& old(senders)@.contains_key(id) ==> after == before && (result matches Err(
                AgentRequestError::SenderAlreadyExists(error),
            ) && error.request_id@ == id)
            &&& !old(senders)@.contains_key(id) && result is Err ==> result
                == Err::<(), AgentRequestError>(AgentRequestError::AgentUnreachable) && after.last()
                == (message, false)
            &&& final(agent)@.slots_processing == old(agent)@.slots_processing
        }),
{
    let id = request_id@;
    if result is Ok {
        assert(final(senders)@.contains_key(id));
        assert(final(senders)@.remove(id) =~= old(senders)@);
        assert(final(agent)@.messages.drop_last() =~= old(agent)@.messages);
    }
}

/// A question goes out before its answer is awaited: it is the last message to the
/// agent, whether the agent could be reached or not, and its channel waits exactly if
/// that worked out and nobody waited under its id.
pub proof fn a_question_is_sent_before_its_answer_is_awaited(
    agent: &mut AgentController,
    senders: &mut SenderCollection,
    channel: usize,
    request_id: String,
    request: AgentJsonRpcRequest,
    result: Result<(), AgentRequestError>,
)
    requires
        call_ensures(
            AgentController::send_oneshot_request,
            (agent, senders, channel, request_id, request),
            result,
        ),
    ensures
        ({
            let id = request_id@;
            let message = AgentJsonRpcMessage::Request(RequestEnvelope { id: request_id, request });
            let before = old(agent)@.messages;
            let after = final(agent)@.messages;
            let reached = after.last().1;
            &&& after.len() == before.len() + 1
            &&& after.drop_last() == before
            &&& after.last().0 == message
            &&& result is Ok <==> reached && !old(senders)@.contains_key(id)
            &&& !reached <==> (result matches Err(AgentRequestError::AgentUnreachable))
            &&& result is Ok ==> final(senders)@.contains_key(id) && final(senders)@[id] == channel
                && final(senders)@.remove(id) == old(senders)@
            &&& result is Err ==> final(senders)@ == old(senders)@
        }),
{
    assert(final(agent)@.messages.drop_last() =~= old(agent)@.messages);
    if result is Ok {
        assert(final(senders)@.remove(request_id@) =~= old(senders)@);
    }
}

/// What an agent is told is what it is sent last: that nobody waits for the responses
/// to a request any more, or what state it is to be in. Nothing else changes.
pub proof fn an_agent_is_told_what_it_is_to_do(
    stopped: &mut AgentController,
    request_id: String,
    asked: &mut AgentController,
    desired_state: AgentDesiredState,
    stop_result: Result<(), AgentUnreachable>,
    ask_result: Result<(), AgentUnreachable>,
)
    requires
        call_ensures(AgentController::stop_responding_to, (stopped, request_id), stop_result),
        call_ensures(AgentController::set_desired_state, (asked, desired_state), ask_result),
    ensures
        final(stopped)@.messages.last() == (
            AgentJsonRpcMessage::Notification(
                AgentJsonRpcNotification::StopRespondingTo(request_id),
            ),
            stop_result is Ok,
        ),
        final(stopped)@.messages.drop_last() == old(stopped)@.messages,
        final(asked)@.messages.last() == (
            AgentJsonRpcMessage::Notification(
                AgentJsonRpcNotification::SetState(Box::new(SetStateParams { desired_state })),
            ),
            ask_result is Ok,
        ),
        final(asked)@.messages.drop_last() == old(asked)@.messages,
        final(stopped)@ == (AgentControllerView {
            messages: final(stopped)@.messages,
            ..old(stopped)@
        }),
        final(asked)@ == (AgentControllerView { messages: final(asked)@.messages, ..old(asked)@ }),
{
    assert(final(stopped)@.messages.drop_last() =~= old(stopped)@.messages);
    assert(final(asked)@.messages.drop_last() =~= old(asked)@.messages);
}

/// An agent that is shown right after it registered is shown as it reported itself,
/// under the id and the name under which it registered.
pub proof fn a_registered_agent_is_shown_as_it_reported_itself(
    agent_message_tx: mpsc::UnboundedSender<AgentJsonRpcMessage>,
    connection: u64,
    id: String,
    name: Option<String>,
    report: SlotAggregatedStatusSnapshot,
    agent: AgentController,
    result: Result<AgentControllerSnapshot, InvalidAgentStateApplicationStatus>,
)
    requires
        call_ensures(
            AgentController::from_registration,
            (agent_message_tx, connection, id, name, report),
            agent,
        ),
        call_ensures(AgentController::make_snapshot, (&agent,), result),
    ensures
        agent@.connection == connection,
        agent@.newest_update_version == report.version,
        agent@.messages == messages_to_agent(agent_message_tx),
        result matches Ok(shown) && {
            &&& shown.id@ == id@
            &&& text_of(shown.name) == text_of(name)
            &&& shown.desired_slots_total == report.desired_slots_total
            &&& shown.download_current == report.download_current
            &&& text_of(shown.download_filename) == text_of(report.download_filename)
            &&& shown.download_indeterminate == report.download_indeterminate
            &&& shown.download_total == report.download_total
            &&& shown.issues@ == report.issues@
            &&& text_of(shown.model_path) == text_of(report.model_path)
            &&& shown.slots_processing == report.slots_processing
            &&& shown.slots_total == report.slots_total
            &&& shown.state_application_status == report.state_application_status
            &&& shown.tokens_per_second == report.tokens_per_second
            &&& shown.uses_chat_template_override == report.uses_chat_template_override
        },
{
    status_survives_its_code(report.state_application_status);
    let shown = result->Ok_0;
    assert(shown@ == agent@.snapshot(report.state_application_status));
    assert(shown.id@ == shown@.id);
    assert(shown.issues@ == shown@.issues);
}

/// An agent that is shown right after a report that is not older than what is known is
/// shown as it reported itself, but for the slots that were handed out, which the
/// balancer counts itself.
pub proof fn a_report_is_what_is_shown(
    agent: &mut AgentController,
    report: SlotAggregatedStatusSnapshot,
    update: AgentControllerUpdateResult,
    result: Result<AgentControllerSnapshot, InvalidAgentStateApplicationStatus>,
)
    requires
        call_ensures(
            AgentController::update_from_slot_aggregated_status_snapshot,
            (agent, report),
            update,
        ),
        call_ensures(AgentController::make_snapshot, (&*final(agent),), result),
        report.version >= old(agent)@.newest_update_version,
    ensures
        result matches Ok(shown) && {
            &&& shown.id@ == old(agent)@.id
            &&& text_of(shown.name) == old(agent)@.name
            &&& shown.desired_slots_total == report.desired_slots_total
            &&& shown.download_current == report.download_current
            &&& text_of(shown.download_filename) == text_of(report.download_filename)
            &&& shown.download_indeterminate == report.download_indeterminate
            &&& shown.download_total == report.download_total
            &&& shown.issues@ == report.issues@
            &&& text_of(shown.model_path) == text_of(report.model_path)
            &&& shown.slots_processing == old(agent)@.slots_processing
            &&& shown.slots_total == report.slots_total
            &&& shown.state_application_status == report.state_application_status
            &&& shown.tokens_per_second == report.tokens_per_second
                || shown.tokens_per_second.equals(report.tokens_per_second)
            &&& shown.uses_chat_template_override == report.uses_chat_template_override
        },
        final(agent)@.newest_update_version == report.version,
        update == AgentControllerUpdateResult::NoMeaningfulChanges ==> final(agent)@
            == (AgentControllerView {
            newest_update_version: final(agent)@.newest_update_version,
            ..old(agent)@
        }),
        update == AgentControllerUpdateResult::Updated && !report.tokens_per_second.is_nan()
            ==> final(agent)@ != (AgentControllerView {
            newest_update_version: final(agent)@.newest_update_version,
            ..old(agent)@
        }),
{
    status_survives_its_code(report.state_application_status);
    what_is_reported_is_kept(old(agent)@, report@);
    let shown = result->Ok_0;
    assert(shown@ == final(agent)@.snapshot(report.state_application_status));
    assert(shown.id@ == shown@.id);
    assert(shown.issues@ == shown@.issues);
}

/// What an agent is asked is what was asked for: the chat template that it uses, or the
/// metadata of its model, under the id that is returned, with the channel that waits.
pub proof fn an_agent_is_asked_what_was_asked_for(
    templated: &mut AgentController,
    template_senders: &mut SenderCollection,
    described: &mut AgentController,
    metadata_senders: &mut SenderCollection,
    channel: usize,
    template_result: Result<String, AgentRequestError>,
    metadata_result: Result<String, AgentRequestError>,
)
    requires
        call_ensures(
            AgentController::get_chat_template_override,
            (templated, template_senders, channel),
            template_result,
        ),
        call_ensures(
            AgentController::get_model_metadata,
            (described, metadata_senders, channel),
            metadata_result,
        ),
    ensures
        template_result matches Ok(id) ==> {
            &&& final(templated)@.messages.last() == (
                AgentJsonRpcMessage::Request(
                    RequestEnvelope { id, request: AgentJsonRpcRequest::GetChatTemplateOverride },
                ),
                true,
            )
            &&& final(template_senders)@.contains_key(id@)
            &&& final(template_senders)@[id@] == channel
        },
        metadata_result matches Ok(id) ==> {
            &&& final(described)@.messages.last() == (
                AgentJsonRpcMessage::Request(
                    RequestEnvelope { id, request: AgentJsonRpcRequest::GetModelMetadata },
                ),
                true,
            )
            &&& final(metadata_senders)@.contains_key(id@)
            &&& final(metadata_senders)@[id@] == channel
        },
        template_result is Err ==> final(template_senders)@ == old(template_senders)@,
        metadata_result is Err ==> final(metadata_senders)@ == old(metadata_senders)@,
        final(templated)@.messages.len() == old(templated)@.messages.len() + 1,
        final(described)@.messages.len() == old(described)@.messages.len() + 1,
{
}

} // verus!
