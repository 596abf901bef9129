//! What the screen of a running agent does.
use vstd::prelude::*;

use crate::gui::agent_running_data::AgentRunningData;
use crate::messaging::slot_aggregated_status_snapshot::SlotAggregatedStatusSnapshot;

verus! {

/// Something that happened on the screen, or to the agent.
#[derive(Debug)]
pub enum Message {
    AgentStatusUpdated(SlotAggregatedStatusSnapshot),
    Disconnect,
}

/// What follows from it.
#[derive(Clone, Copy, Debug, PartialEq, Eq, Structural)]
pub enum Action {
    /// Nothing.
    Stay,
    /// The agent is stopped.
    Disconnect,
}

/// Whether `after` and `action` are what a message leads to.
pub open spec fn leads_to(
    before: AgentRunningData,
    message: Message,
    after: AgentRunningData,
    action: Action,
) -> bool {
    match message {
        Message::AgentStatusUpdated(status) => action is Stay && after.shows(before, status@),
        Message::Disconnect => action is Disconnect && after == before,
    }
}

impl AgentRunningData {
    /// Takes over what happened, and says what follows from it.
    pub fn update(&mut self, message: Message) -> (action: Action)
        ensures
            leads_to(*old(self), message, *final(self), action),
    {
        match message {
            Message::AgentStatusUpdated(status) => {
                self.apply_status(status);
                Action::Stay
            },
            Message::Disconnect => Action::Disconnect,
        }
    }
}

/// An agent is stopped exactly if that was asked for, and nothing changes of what is shown
/// then; what it reports is shown, and leads to nothing else.
pub proof fn a_running_agent_is_stopped_on_request(
    running: &mut AgentRunningData,
    message: Message,
    action: Action,
)
    requires
        call_ensures(AgentRunningData::update, (running, message), action),
    ensures
        action is Disconnect <==> message is Disconnect,
        message is Disconnect ==> *final(running) == *old(running),
        message matches Message::AgentStatusUpdated(status) ==> {
            &&& final(running).connected
            &&& final(running).snapshot@.slots_total == status.slots_total
            &&& final(running).snapshot@.slots_processing == status.slots_processing
            &&& final(running).snapshot@.issues == status.issues@
            &&& final(running).snapshot@.state_application_status
                == status.state_application_status
        },
        final(running).balancer_address == old(running).balancer_address,
        final(running).gpu_devices == old(running).gpu_devices,
        final(running).snapshot@.name == old(running).snapshot@.name,
{
}

} // verus!
