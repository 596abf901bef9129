//! What the parts of a cluster tell each other.
pub mod agent_controller_snapshot;
pub mod agent_issue;
pub mod agent_state_application_status;
pub mod messages;
pub mod slot_aggregated_status_snapshot;
pub mod tokens_per_second;
