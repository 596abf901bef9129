//! How an agent finds its balancer.
use vstd::prelude::*;

use crate::agent::slot_aggregated_status::SlotAggregatedStatus;
use crate::agent::slot_aggregated_status::SlotAggregatedStatusView;
use crate::outside::fresh_identifier;
use crate::outside::is_identifier;

verus! {

/// The address of the socket of the agent with the given id.
pub open spec fn socket_url_text(management_address: Seq<char>, agent_id: Seq<char>) -> Seq<char> {
    "ws://"@ + management_address + "/api/v1/agent_socket/"@ + agent_id
}

/// The address of the socket of the agent with the given id.
pub fn socket_url(management_address: &str, agent_id: &str) -> (url: String)
    ensures
        url@ == socket_url_text(management_address@, agent_id@),
{
    let mut url = String::from_str("ws://");
    url.append(management_address);
    url.append("/api/v1/agent_socket/");
    url.append(agent_id);
    url
}

/// What the services of an agent are set up with.
pub struct AgentServiceBundle {
    pub agent_name: Option<String>,
    pub desired_slots_total: i32,
    pub gpu_devices: Vec<usize>,
    pub slot_aggregated_status: SlotAggregatedStatus,
    pub socket_url: String,
}

impl AgentServiceBundle {
    /// Sets up an agent that has not connected yet, under a fresh id.
    pub fn new(
        agent_name: Option<String>,
        management_address: &str,
        slots: i32,
        gpu_devices: Vec<usize>,
    ) -> (bundle: AgentServiceBundle)
        ensures
            bundle.agent_name == agent_name,
            bundle.desired_slots_total == slots,
            bundle.gpu_devices == gpu_devices,
            bundle.slot_aggregated_status@ == SlotAggregatedStatusView::initial(
                slots,
                bundle.slot_aggregated_status@.throughput.created_at,
            ),
            exists|agent_id: Seq<char>|
                is_identifier(agent_id) && bundle.socket_url@ == #[trigger] socket_url_text(
                    management_address@,
                    agent_id,
                ),
    {
        let agent_id = fresh_identifier();
        AgentServiceBundle {
            agent_name,
            desired_slots_total: slots,
            gpu_devices,
            slot_aggregated_status: SlotAggregatedStatus::new(slots),
            socket_url: socket_url(management_address, agent_id.as_str()),
        }
    }
}

/// An agent connects to the address of its balancer, under an id of its own, and is set up
/// with what it was asked for: its name, its devices and the slots that it is to have.
pub proof fn an_agent_is_set_up_as_asked(
    agent_name: Option<String>,
    management_address: &str,
    slots: i32,
    gpu_devices: Vec<usize>,
    bundle: AgentServiceBundle,
)
    requires
        call_ensures(
            AgentServiceBundle::new,
            (agent_name, management_address, slots, gpu_devices),
            bundle,
        ),
    ensures
        bundle.agent_name == agent_name,
        bundle.gpu_devices@ == gpu_devices@,
        bundle.desired_slots_total == slots,
        bundle.slot_aggregated_status@.desired_slots_total == slots,
        bundle.slot_aggregated_status@.slots_total == 0,
        exists|agent_id: Seq<char>| #[trigger]
            is_identifier(agent_id) && bundle.socket_url@ == "ws://"@ + management_address@
                + "/api/v1/agent_socket/"@ + agent_id,
{
    let agent_id = choose|agent_id: Seq<char>|
        is_identifier(agent_id) && bundle.socket_url@ == #[trigger] socket_url_text(
            management_address@,
            agent_id,
        );
    assert(is_identifier(agent_id));
}

} // verus!
