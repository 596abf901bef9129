//! What an agent reports about itself and its slots.
use vstd::prelude::*;

use crate::messaging::agent_issue::AgentIssueView;
use crate::messaging::agent_issue::AgentIssues;
use crate::messaging::agent_state_application_status::AgentStateApplicationStatus;
use crate::messaging::tokens_per_second::TokensPerSecond;
use crate::text::clone_text;
use crate::text::text_of;

verus! {

/// The state of an agent at one moment.
#[derive(Debug)]
pub struct SlotAggregatedStatusSnapshot {
    pub desired_slots_total: i32,
    pub download_current: u64,
    pub download_filename: Option<String>,
    pub download_indeterminate: bool,
    pub download_total: u64,
    pub issues: AgentIssues,
    pub model_path: Option<String>,
    pub slots_processing: i32,
    pub slots_total: i32,
    pub state_application_status: AgentStateApplicationStatus,
    pub tokens_per_second: TokensPerSecond,
    pub uses_chat_template_override: bool,
    pub version: i32,
}

/// The content of a snapshot.
#[verifier::ext_equal]
pub ghost struct SlotAggregatedStatusSnapshotView {
    pub desired_slots_total: i32,
    pub download_current: u64,
    pub download_filename: Option<Seq<char>>,
    pub download_indeterminate: bool,
    pub download_total: u64,
    pub issues: Set<AgentIssueView>,
    pub model_path: Option<Seq<char>>,
    pub slots_processing: i32,
    pub slots_total: i32,
    pub state_application_status: AgentStateApplicationStatus,
    pub tokens_per_second: TokensPerSecond,
    pub uses_chat_template_override: bool,
    pub version: i32,
}

impl View for SlotAggregatedStatusSnapshot {
    type V = SlotAggregatedStatusSnapshotView;

    open spec fn view(&self) -> SlotAggregatedStatusSnapshotView {
        SlotAggregatedStatusSnapshotView {
            desired_slots_total: self.desired_slots_total,
            download_current: self.download_current,
            download_filename: text_of(self.download_filename),
            download_indeterminate: self.download_indeterminate,
            download_total: self.download_total,
            issues: self.issues@,
            model_path: text_of(self.model_path),
            slots_processing: self.slots_processing,
            slots_total: self.slots_total,
            state_application_status: self.state_application_status,
            tokens_per_second: self.tokens_per_second,
            uses_chat_template_override: self.uses_chat_template_override,
            version: self.version,
        }
    }
}

impl Clone for SlotAggregatedStatusSnapshot {
    fn clone(&self) -> (copy: Self)
        ensures
            copy@ == self@,
    {
        SlotAggregatedStatusSnapshot {
            desired_slots_total: self.desired_slots_total,
            download_current: self.download_current,
            download_filename: clone_text(&self.download_filename),
            download_indeterminate: self.download_indeterminate,
            download_total: self.download_total,
            issues: self.issues.clone(),
            model_path: clone_text(&self.model_path),
            slots_processing: self.slots_processing,
            slots_total: self.slots_total,
            state_application_status: self.state_application_status,
            tokens_per_second: self.tokens_per_second,
            uses_chat_template_override: self.uses_chat_template_override,
            version: self.version,
        }
    }
}

impl Default for SlotAggregatedStatusSnapshot {
    fn default() -> (snapshot: Self)
        ensures
            snapshot@ == (SlotAggregatedStatusSnapshotView {
                desired_slots_total: 0,
                download_current: 0,
                download_filename: None,
                download_indeterminate: false,
                download_total: 0,
                issues: Set::<AgentIssueView>::empty(),
                model_path: None,
                slots_processing: 0,
                slots_total: 0,
                state_application_status: AgentStateApplicationStatus::Fresh,
                tokens_per_second: TokensPerSecond { bits: 0 },
                uses_chat_template_override: false,
                version: 0,
            }),
    {
        SlotAggregatedStatusSnapshot {
            desired_slots_total: 0,
            download_current: 0,
            download_filename: None,
            download_indeterminate: false,
            download_total: 0,
            issues: AgentIssues::new(),
            model_path: None,
            slots_processing: 0,
            slots_total: 0,
            state_application_status: AgentStateApplicationStatus::Fresh,
            tokens_per_second: TokensPerSecond::zero(),
            uses_chat_template_override: false,
            version: 0,
        }
    }
}

/// A copy says the same as what it is a copy of.
pub proof fn copies_say_the_same(
    snapshot: &SlotAggregatedStatusSnapshot,
    copy: SlotAggregatedStatusSnapshot,
)
    requires
        call_ensures(SlotAggregatedStatusSnapshot::clone, (snapshot,), copy),
    ensures
        copy.desired_slots_total == snapshot.desired_slots_total,
        copy.download_current == snapshot.download_current,
        text_of(copy.download_filename) == text_of(snapshot.download_filename),
        copy.download_indeterminate == snapshot.download_indeterminate,
        copy.download_total == snapshot.download_total,
        copy.issues@ == snapshot.issues@,
        text_of(copy.model_path) == text_of(snapshot.model_path),
        copy.slots_processing == snapshot.slots_processing,
        copy.slots_total == snapshot.slots_total,
        copy.state_application_status == snapshot.state_application_status,
        copy.tokens_per_second == snapshot.tokens_per_second,
        copy.uses_chat_template_override == snapshot.uses_chat_template_override,
        copy.version == snapshot.version,
{
    assert(copy@ == snapshot@);
}

/// A report that nobody made says that there is nothing.
pub proof fn an_unmade_report_says_nothing(snapshot: SlotAggregatedStatusSnapshot)
    requires
        call_ensures(SlotAggregatedStatusSnapshot::default, (), snapshot),
    ensures
        snapshot.desired_slots_total == 0,
        snapshot.download_current == 0,
        snapshot.download_filename is None,
        !snapshot.download_indeterminate,
        snapshot.download_total == 0,
        snapshot.issues@ == Set::<AgentIssueView>::empty(),
        snapshot.model_path is None,
        snapshot.slots_processing == 0,
        snapshot.slots_total == 0,
        snapshot.state_application_status is Fresh,
        snapshot.tokens_per_second.bits == 0,
        !snapshot.uses_chat_template_override,
        snapshot.version == 0,
{
    let view = snapshot@;
    assert(view.download_filename is None);
    assert(view.model_path is None);
    assert(view.issues == Set::<AgentIssueView>::empty());
}

} // verus!
