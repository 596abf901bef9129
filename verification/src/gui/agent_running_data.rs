//! What the front end shows of the agent that it runs.
use vstd::prelude::*;

use crate::messaging::agent_controller_snapshot::AgentControllerSnapshot;
use crate::messaging::agent_controller_snapshot::AgentControllerSnapshotView;
use crate::messaging::slot_aggregated_status_snapshot::SlotAggregatedStatusSnapshot;
use crate::messaging::slot_aggregated_status_snapshot::SlotAggregatedStatusSnapshotView;
use crate::text::clone_text;

verus! {

/// The agent that the front end runs.
#[derive(Debug)]
pub struct AgentRunningData {
    pub balancer_address: String,
    pub connected: bool,
    /// Indices of the devices the agent is restricted to (empty means every
    /// detected device)
    pub gpu_devices: Vec<usize>,
    pub snapshot: AgentControllerSnapshot,
}

/// What is shown of an agent that reports `status` and is called `name`.
pub open spec fn shown_status(
    status: SlotAggregatedStatusSnapshotView,
    name: Option<Seq<char>>,
) -> AgentControllerSnapshotView {
    AgentControllerSnapshotView {
        desired_slots_total: status.desired_slots_total,
        download_current: status.download_current,
        download_filename: status.download_filename,
        download_indeterminate: status.download_indeterminate,
        download_total: status.download_total,
        id: Seq::empty(),
        issues: status.issues,
        model_path: status.model_path,
        name,
        slots_processing: status.slots_processing,
        slots_total: status.slots_total,
        state_application_status: status.state_application_status,
        tokens_per_second: status.tokens_per_second,
        uses_chat_template_override: status.uses_chat_template_override,
    }
}

impl AgentRunningData {
    /// Whether only what the agent reports changed, and it is connected.
    pub open spec fn shows(&self, before: AgentRunningData, status: SlotAggregatedStatusSnapshotView) -> bool {
        &&& self.connected
        &&& self.balancer_address == before.balancer_address
        &&& self.gpu_devices == before.gpu_devices
        &&& self.snapshot@ == shown_status(status, before.snapshot@.name)
    }

    /// Takes over what the agent reports.
    pub fn apply_status(&mut self, status: SlotAggregatedStatusSnapshot)
        ensures
            final(self).shows(*old(self), status@),
    {
        self.connected = true;
        self.snapshot = AgentControllerSnapshot {
            desired_slots_total: status.desired_slots_total,
            download_current: status.download_current,
            download_filename: status.download_filename,
            download_indeterminate: status.download_indeterminate,
            download_total: status.download_total,
            id: String::new(),
            issues: status.issues,
            model_path: status.model_path,
            name: clone_text(&self.snapshot.name),
            slots_processing: status.slots_processing,
            slots_total: status.slots_total,
            state_application_status: status.state_application_status,
            tokens_per_second: status.tokens_per_second,
            uses_chat_template_override: status.uses_chat_template_override,
        };
    }
}

/// What is shown of the agent is what it reported last; its name, its devices and where
/// it connects to stay as they were. An agent that reports is connected.
pub proof fn a_running_agent_is_shown_as_it_reports_itself(
    running: &mut AgentRunningData,
    status: SlotAggregatedStatusSnapshot,
)
    requires
        call_ensures(AgentRunningData::apply_status, (running, status), ()),
    ensures
        ({
            let shown = final(running).snapshot@;
            let reported = status@;
            &&& final(running).connected
            &&& final(running).balancer_address == old(running).balancer_address
            &&& final(running).gpu_devices == old(running).gpu_devices
            &&& shown.name == old(running).snapshot@.name
            &&& shown.desired_slots_total == reported.desired_slots_total
            &&& shown.download_current == reported.download_current
            &&& shown.download_filename == reported.download_filename
            &&& shown.download_indeterminate == reported.download_indeterminate
            &&& shown.download_total == reported.download_total
            &&& shown.issues == reported.issues
            &&& shown.model_path == reported.model_path
            &&& shown.slots_processing == reported.slots_processing
            &&& shown.slots_total == reported.slots_total
            &&& shown.state_application_status == reported.state_application_status
            &&& shown.tokens_per_second == reported.tokens_per_second
            &&& shown.uses_chat_template_override == reported.uses_chat_template_override
        }),
{
}

} // verus!
