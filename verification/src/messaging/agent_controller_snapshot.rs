//! What the balancer tells others about one of its agents.
use vstd::prelude::*;

use crate::messaging::agent_issue::AgentIssueView;
use crate::messaging::agent_issue::AgentIssues;
use crate::messaging::agent_state_application_status::AgentStateApplicationStatus;
use crate::messaging::tokens_per_second::TokensPerSecond;
use crate::text::clone_text;
use crate::text::text_of;

verus! {

/// What the balancer knows of an agent at one moment.
#[derive(Debug)]
pub struct AgentControllerSnapshot {
    pub desired_slots_total: i32,
    pub download_current: u64,
    pub download_filename: Option<String>,
    pub download_indeterminate: bool,
    pub download_total: u64,
    pub id: String,
    pub issues: AgentIssues,
    pub model_path: Option<String>,
    pub name: Option<String>,
    pub slots_processing: i32,
    pub slots_total: i32,
    pub state_application_status: AgentStateApplicationStatus,
    pub tokens_per_second: TokensPerSecond,
    pub uses_chat_template_override: bool,
}

/// The content of a snapshot.
#[verifier::ext_equal]
pub ghost struct AgentControllerSnapshotView {
    pub desired_slots_total: i32,
    pub download_current: u64,
    pub download_filename: Option<Seq<char>>,
    pub download_indeterminate: bool,
    pub download_total: u64,
    pub id: Seq<char>,
    pub issues: Set<AgentIssueView>,
    pub model_path: Option<Seq<char>>,
    pub name: Option<Seq<char>>,
    pub slots_processing: i32,
    pub slots_total: i32,
    pub state_application_status: AgentStateApplicationStatus,
    pub tokens_per_second: TokensPerSecond,
    pub uses_chat_template_override: bool,
}

impl View for AgentControllerSnapshot {
    type V = AgentControllerSnapshotView;

    open spec fn view(&self) -> AgentControllerSnapshotView {
        AgentControllerSnapshotView {
            desired_slots_total: self.desired_slots_total,
            download_current: self.download_current,
            download_filename: text_of(self.download_filename),
            download_indeterminate: self.download_indeterminate,
            download_total: self.download_total,
            id: self.id@,
            issues: self.issues@,
            model_path: text_of(self.model_path),
            name: text_of(self.name),
            slots_processing: self.slots_processing,
            slots_total: self.slots_total,
            state_application_status: self.state_application_status,
            tokens_per_second: self.tokens_per_second,
            uses_chat_template_override: self.uses_chat_template_override,
        }
    }
}

impl Clone for AgentControllerSnapshot {
    fn clone(&self) -> (copy: Self)
        ensures
            copy@ == self@,
    {
        AgentControllerSnapshot {
            desired_slots_total: self.desired_slots_total,
            download_current: self.download_current,
            download_filename: clone_text(&self.download_filename),
            download_indeterminate: self.download_indeterminate,
            download_total: self.download_total,
            id: self.id.clone(),
            issues: self.issues.clone(),
            model_path: clone_text(&self.model_path),
            name: clone_text(&self.name),
            slots_processing: self.slots_processing,
            slots_total: self.slots_total,
            state_application_status: self.state_application_status,
            tokens_per_second: self.tokens_per_second,
            uses_chat_template_override: self.uses_chat_template_override,
        }
    }
}

/// A copy says the same as what it is a copy of.
pub proof fn copies_say_the_same(snapshot: &AgentControllerSnapshot, copy: AgentControllerSnapshot)
    requires
        call_ensures(AgentControllerSnapshot::clone, (snapshot,), copy),
    ensures
        copy.desired_slots_total == snapshot.desired_slots_total,
        copy.download_current == snapshot.download_current,
        text_of(copy.download_filename) == text_of(snapshot.download_filename),
        copy.download_indeterminate == snapshot.download_indeterminate,
        copy.download_total == snapshot.download_total,
        copy.id@ == snapshot.id@,
        copy.issues@ == snapshot.issues@,
        text_of(copy.model_path) == text_of(snapshot.model_path),
        text_of(copy.name) == text_of(snapshot.name),
        copy.slots_processing == snapshot.slots_processing,
        copy.slots_total == snapshot.slots_total,
        copy.state_application_status == snapshot.state_application_status,
        copy.tokens_per_second == snapshot.tokens_per_second,
        copy.uses_chat_template_override == snapshot.uses_chat_template_override,
{
    assert(copy@ == snapshot@);
}

} // verus!
