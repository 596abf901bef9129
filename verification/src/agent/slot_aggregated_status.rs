//! The state that an agent keeps of itself and its slots.
use std::time::Instant;

use dashmap::DashSet;
use tokio::sync::watch;
use vstd::prelude::*;

use crate::agent::token_throughput_meter::ThroughputWindow;
use crate::agent::token_throughput_meter::TokenRate;
use crate::agent::token_throughput_meter::TokenThroughputMeter;
use crate::messaging::agent_issue::AgentIssue;
use crate::messaging::agent_issue::AgentIssueFix;
use crate::messaging::agent_issue::AgentIssueView;
use crate::messaging::agent_issue::AgentIssues;
use crate::messaging::agent_issue::lemma_issues_in;
use crate::messaging::agent_state_application_status::AgentStateApplicationStatus;
use crate::messaging::agent_state_application_status::InvalidAgentStateApplicationStatus;
use crate::messaging::agent_state_application_status::accepted_codes_are_codes_of_a_status;
use crate::messaging::agent_state_application_status::codes_are_the_first_numbers;
use crate::messaging::agent_state_application_status::status_survives_its_code;
use crate::messaging::slot_aggregated_status_snapshot::SlotAggregatedStatusSnapshot;
use crate::messaging::slot_aggregated_status_snapshot::SlotAggregatedStatusSnapshotView;
use crate::messaging::tokens_per_second::TokensPerSecond;
use crate::outside::is_clock_reading;
use crate::outside::issue_set;
use crate::outside::issue_set_clear;
use crate::outside::issue_set_contains;
use crate::outside::issue_set_insert;
use crate::outside::issue_set_len;
use crate::outside::issue_set_list;
use crate::outside::issue_set_new;
use crate::outside::issue_set_retain_unfixed;
use crate::outside::send_update;
use crate::outside::subscribe;
use crate::outside::update_channel;
use crate::outside::updates_seen;
use crate::outside::updates_sent;
use crate::text::clone_text;
use crate::text::text_of;

verus! {

/// The state of an agent and of its slots. Subscribers are told of its changes.
///
/// Counters wrap around on overflow.
pub struct SlotAggregatedStatus {
    desired_slots_total: i32,
    download_current: u64,
    download_filename: Option<String>,
    download_indeterminate: bool,
    download_total: u64,
    issues: DashSet<AgentIssue>,
    model_path: Option<String>,
    slots_processing: i32,
    slots_total: i32,
    /// The code of the status in which the agent is.
    pub state_application_status_code: i32,
    token_throughput_meter: TokenThroughputMeter,
    update_tx: watch::Sender<()>,
    uses_chat_template_override: bool,
    version: i32,
}

/// The content of the state of an agent.
#[verifier::ext_equal]
pub ghost struct SlotAggregatedStatusView {
    pub desired_slots_total: i32,
    pub download_current: u64,
    pub download_filename: Option<Seq<char>>,
    pub download_indeterminate: bool,
    pub download_total: u64,
    pub issues: Set<AgentIssueView>,
    pub model_path: Option<Seq<char>>,
    pub slots_processing: i32,
    pub slots_total: i32,
    pub state_application_status_code: i32,
    pub throughput: ThroughputWindow,
    /// How often subscribers were told of a change.
    pub updates: nat,
    pub uses_chat_template_override: bool,
    pub version: i32,
}

impl SlotAggregatedStatusView {
    /// The state of an agent that was started at that moment and is to have
    /// `desired_slots_total` slots.
    pub open spec fn initial(
        desired_slots_total: i32,
        created_at: Instant,
    ) -> SlotAggregatedStatusView {
        SlotAggregatedStatusView {
            desired_slots_total,
            download_current: 0,
            download_filename: None,
            download_indeterminate: true,
            download_total: 0,
            issues: Set::<AgentIssueView>::empty(),
            model_path: None,
            slots_processing: 0,
            slots_total: 0,
            state_application_status_code: AgentStateApplicationStatus::Fresh.code_of(),
            throughput: ThroughputWindow::initial(created_at),
            updates: 0,
            uses_chat_template_override: false,
            version: 0,
        }
    }

    /// The state after a slot was taken.
    pub open spec fn with_slot_taken(self) -> SlotAggregatedStatusView {
        SlotAggregatedStatusView {
            slots_processing: self.slots_processing.wrapping_add(1),
            ..self
        }.changed()
    }

    /// The state after a slot was given back.
    pub open spec fn with_slot_released(self) -> SlotAggregatedStatusView {
        SlotAggregatedStatusView {
            slots_processing: self.slots_processing.wrapping_sub(1),
            ..self
        }.changed()
    }

    /// The state with a slot more.
    pub open spec fn with_slot_added(self) -> SlotAggregatedStatusView {
        SlotAggregatedStatusView {
            slots_total: self.slots_total.wrapping_add(1),
            ..self
        }.changed()
    }

    /// The state with a slot less.
    pub open spec fn with_slot_removed(self) -> SlotAggregatedStatusView {
        SlotAggregatedStatusView {
            slots_total: self.slots_total.wrapping_sub(1),
            ..self
        }.changed()
    }

    /// The state after a change that counts as a new version and is told to subscribers.
    pub open spec fn changed(self) -> SlotAggregatedStatusView {
        SlotAggregatedStatusView {
            version: self.version.wrapping_add(1),
            updates: self.updates + 1,
            ..self
        }
    }

    /// The state after `issue` was reported: subscribers are told of a new issue only.
    pub open spec fn with_issue(self, issue: AgentIssueView) -> SlotAggregatedStatusView {
        SlotAggregatedStatusView {
            issues: self.issues.insert(issue),
            updates: if self.issues.contains(issue) {
                self.updates
            } else {
                self.updates + 1
            },
            ..self
        }
    }

    /// The issues that `fix` leaves.
    pub open spec fn unfixed(self, fix: AgentIssueFix) -> Set<AgentIssueView> {
        self.issues.filter(|issue: AgentIssueView| !fix.fixes(issue))
    }

    /// The state after `fix`: subscribers are told if it put some issue right.
    pub open spec fn with_fix(self, fix: AgentIssueFix) -> SlotAggregatedStatusView {
        SlotAggregatedStatusView {
            issues: self.unfixed(fix),
            updates: if exists|issue: AgentIssueView|
                self.issues.contains(issue) && #[trigger] fix.fixes(issue) {
                self.updates + 1
            } else {
                self.updates
            },
            ..self
        }
    }

    /// The state after a reset: no issues, no model, no slots.
    pub open spec fn after_reset(self) -> SlotAggregatedStatusView {
        SlotAggregatedStatusView {
            issues: Set::<AgentIssueView>::empty(),
            model_path: None,
            slots_processing: 0,
            slots_total: 0,
            ..self
        }.changed().changed()
    }

    /// The state after the download was forgotten.
    pub open spec fn after_download_reset(self) -> SlotAggregatedStatusView {
        SlotAggregatedStatusView {
            download_current: 0,
            download_filename: None,
            download_indeterminate: true,
            download_total: 0,
            ..self
        }.changed().changed()
    }

    /// The state after progress of a download. The total of an indeterminate
    /// download is kept as zero.
    pub open spec fn with_download(
        self,
        current: u64,
        total: Option<u64>,
        filename: Option<Seq<char>>,
    ) -> SlotAggregatedStatusView {
        SlotAggregatedStatusView {
            download_current: current,
            download_filename: filename,
            download_indeterminate: total is None,
            download_total: match total {
                Some(total) => total,
                None => 0,
            },
            ..self
        }.changed()
    }

    /// What a snapshot of the state says, if the state has a valid status code.
    pub open spec fn snapshot(
        self,
        status: AgentStateApplicationStatus,
        tokens_per_second: TokensPerSecond,
    ) -> SlotAggregatedStatusSnapshotView {
        SlotAggregatedStatusSnapshotView {
            desired_slots_total: self.desired_slots_total,
            download_current: self.download_current,
            download_filename: self.download_filename,
            download_indeterminate: self.download_indeterminate,
            download_total: self.download_total,
            issues: self.issues,
            model_path: self.model_path,
            slots_processing: self.slots_processing,
            slots_total: self.slots_total,
            state_application_status: status,
            tokens_per_second: tokens_per_second,
            uses_chat_template_override: self.uses_chat_template_override,
            version: self.version,
        }
    }
}

impl View for SlotAggregatedStatus {
    type V = SlotAggregatedStatusView;

    closed spec fn view(&self) -> SlotAggregatedStatusView {
        SlotAggregatedStatusView {
            desired_slots_total: self.desired_slots_total,
            download_current: self.download_current,
            download_filename: text_of(self.download_filename),
            download_indeterminate: self.download_indeterminate,
            download_total: self.download_total,
            issues: issue_set(self.issues),
            model_path: text_of(self.model_path),
            slots_processing: self.slots_processing,
            slots_total: self.slots_total,
            state_application_status_code: self.state_application_status_code,
            throughput: self.token_throughput_meter@,
            updates: updates_sent(self.update_tx),
            uses_chat_template_override: self.uses_chat_template_override,
            version: self.version,
        }
    }
}

impl SlotAggregatedStatus {
    /// The state of an agent that was just started and is to have
    /// `desired_slots_total` slots.
    pub fn new(desired_slots_total: i32) -> (status: SlotAggregatedStatus)
        ensures
            status@ == SlotAggregatedStatusView::initial(
                desired_slots_total,
                status@.throughput.created_at,
            ),
    {
        SlotAggregatedStatus {
            desired_slots_total,
            download_current: 0,
            download_filename: None,
            download_indeterminate: true,
            download_total: 0,
            issues: issue_set_new(),
            model_path: None,
            slots_processing: 0,
            slots_total: 0,
            state_application_status_code: AgentStateApplicationStatus::Fresh.code(),
            token_throughput_meter: TokenThroughputMeter::new(),
            update_tx: update_channel(),
            uses_chat_template_override: false,
            version: 0,
        }
    }

    fn change(&mut self)
        ensures
            final(self)@ == old(self)@.changed(),
            final(self).state_application_status_code == old(self).state_application_status_code,
    {
        self.version = self.version.wrapping_add(1);
        send_update(&mut self.update_tx);
    }

    pub fn decrement_total_slots(&mut self)
        ensures
            final(self)@ == old(self)@.with_slot_removed(),
    {
        self.slots_total = self.slots_total.wrapping_sub(1);
        self.change();
    }

    /// The status in which the agent is; an error if the stored code is not that
    /// of a status.
    pub fn get_state_application_status(&self) -> (result: Result<
        AgentStateApplicationStatus,
        InvalidAgentStateApplicationStatus,
    >)
        ensures
            match result {
                Ok(status) => AgentStateApplicationStatus::of_code(
                    self@.state_application_status_code,
                ) == Some(status),
                Err(error) => AgentStateApplicationStatus::of_code(
                    self@.state_application_status_code,
                ) is None && error.value == self@.state_application_status_code,
            },
    {
        AgentStateApplicationStatus::try_from_code(self.state_application_status_code)
    }

    pub fn has_issue(&self, issue: &AgentIssue) -> (found: bool)
        ensures
            found == self@.issues.contains(issue@),
    {
        issue_set_contains(&self.issues, issue)
    }

    /// Whether some issue satisfies the predicate.
    pub fn has_issue_like<TFunction>(&self, issue_like: TFunction) -> (found: bool) where
        TFunction: Fn(&AgentIssue) -> bool,

        requires
            forall|issue: &AgentIssue| issue_like.requires((issue,)),
        ensures
            found ==> exists|issue: AgentIssue|
                #![trigger issue@]
                self@.issues.contains(issue@) && issue_like.ensures((&issue,), true),
            !found ==> forall|view: AgentIssueView| #[trigger]
                self@.issues.contains(view) ==> exists|issue: AgentIssue|
                    #![trigger issue@]
                    issue@ == view && issue_like.ensures((&issue,), false),
    {
        let list = issue_set_list(&self.issues);
        let mut i: usize = 0;
        while i < list.len()
            invariant
                i <= list.len(),
                crate::messaging::agent_issue::issues_in(list@) == self@.issues,
                forall|issue: &AgentIssue| issue_like.requires((issue,)),
                forall|j: int|
                    0 <= j < i ==> issue_like.ensures((&#[trigger] list@[j],), false),
            decreases list.len() - i,
        {
            if issue_like(&list[i]) {
                proof {
                    lemma_issues_in(list@, list@[i as int]@);
                }
                return true;
            }
            i = i + 1;
        }
        proof {
            assert forall|view: AgentIssueView| #[trigger]
                self@.issues.contains(view) implies exists|issue: AgentIssue|
                #![trigger issue@]
                issue@ == view && issue_like.ensures((&issue,), false) by {
                lemma_issues_in(list@, view);
                let j = choose|j: int| 0 <= j < list@.len() && (#[trigger] list@[j])@ == view;
                assert(list@[j]@ == view && issue_like.ensures((&list@[j],), false));
            };
        }
        false
    }

    pub fn increment_download_current(&mut self, size: u64)
        ensures
            final(self)@ == (SlotAggregatedStatusView {
                download_current: old(self)@.download_current.wrapping_add(size),
                ..old(self)@
            }).changed(),
    {
        self.download_current = self.download_current.wrapping_add(size);
        self.change();
    }

    pub fn increment_total_slots(&mut self)
        ensures
            final(self)@ == old(self)@.with_slot_added(),
    {
        self.slots_total = self.slots_total.wrapping_add(1);
        self.change();
    }

    /// Reports an issue. Subscribers are told if it was not reported before; the
    /// version stays.
    pub fn register_issue(&mut self, issue: AgentIssue)
        ensures
            final(self)@ == old(self)@.with_issue(issue@),
    {
        if issue_set_insert(&mut self.issues, issue) {
            send_update(&mut self.update_tx);
        }
    }

    /// Drops the issues that the fix puts right. Subscribers are told if there
    /// was one; the version stays.
    pub fn register_fix(&mut self, fix: &AgentIssueFix)
        ensures
            final(self)@ == old(self)@.with_fix(*fix),
    {
        let ghost before = issue_set(self.issues);
        let size_before: usize = issue_set_len(&self.issues);

        issue_set_retain_unfixed(&mut self.issues, fix);

        let size_after: usize = issue_set_len(&self.issues);
        let ghost after = issue_set(self.issues);
        proof {
            assert(after.subset_of(before));
            vstd::set_lib::lemma_len_subset(after, before);
            if exists|issue: AgentIssueView| before.contains(issue) && #[trigger] fix.fixes(issue) {
                let issue = choose|issue: AgentIssueView|
                    before.contains(issue) && #[trigger] fix.fixes(issue);
                assert(!after.contains(issue));
                assert(after.subset_of(before.remove(issue)));
                vstd::set_lib::lemma_len_subset(after, before.remove(issue));
            } else {
                assert(after =~= before);
            }
        }
        if size_after < size_before {
            send_update(&mut self.update_tx);
        }
    }

    pub fn reset(&mut self)
        ensures
            final(self)@ == old(self)@.after_reset(),
    {
        issue_set_clear(&mut self.issues);
        self.set_model_path(None);
        self.slots_processing = 0;
        self.slots_total = 0;
        self.change();
    }

    pub fn reset_download(&mut self)
        ensures
            final(self)@ == old(self)@.after_download_reset(),
    {
        self.download_current = 0;
        self.download_total = 0;
        self.download_indeterminate = true;
        self.set_download_filename(None);
        self.change();
    }

    pub fn set_download_status(
        &mut self,
        current: u64,
        total: Option<u64>,
        filename: Option<String>,
    )
        ensures
            final(self)@ == old(self)@.with_download(current, total, text_of(filename)),
    {
        self.download_current = current;
        if let Some(value) = total {
            self.download_total = value;
            self.download_indeterminate = false;
        } else {
            self.download_total = 0;
            self.download_indeterminate = true;
        }
        self.set_download_filename(filename);
    }

    pub fn set_download_filename(&mut self, filename: Option<String>)
        ensures
            final(self)@ == (SlotAggregatedStatusView {
                download_filename: text_of(filename),
                ..old(self)@
            }).changed(),
    {
        self.download_filename = filename;
        self.change();
    }

    pub fn set_model_path(&mut self, model_path: Option<String>)
        ensures
            final(self)@ == (SlotAggregatedStatusView {
                model_path: text_of(model_path),
                ..old(self)@
            }).changed(),
    {
        self.model_path = model_path;
        self.change();
    }

    pub fn set_state_application_status(&mut self, status: AgentStateApplicationStatus)
        ensures
            final(self)@ == (SlotAggregatedStatusView {
                state_application_status_code: status.code_of(),
                ..old(self)@
            }).changed(),
    {
        self.state_application_status_code = status.code();
        self.change();
    }

    pub fn set_uses_chat_template_override(&mut self, uses: bool)
        ensures
            final(self)@ == (SlotAggregatedStatusView {
                uses_chat_template_override: uses,
                ..old(self)@
            }).changed(),
    {
        self.uses_chat_template_override = uses;
        self.change();
    }

    pub fn slots_processing_count(&self) -> (count: i32)
        ensures
            count == self@.slots_processing,
    {
        self.slots_processing
    }

    /// Records that this agent has just generated one token, contributing to the
    /// rate reported in its snapshots.
    ///
    /// This neither counts as a new version nor is told to subscribers: it
    /// happens far too often to be worth pushing immediately. The periodic status
    /// update picks up the latest rate.
    pub fn record_generated_token(&mut self)
        ensures
            exists|now: u128|
                old(self)@.throughput.is_moment_read(now) && final(self)@ == (
                SlotAggregatedStatusView {
                    throughput: #[trigger] old(self)@.throughput.after_token(now),
                    ..old(self)@
                }),
    {
        self.token_throughput_meter.record_token();
        proof {
            let now = choose|now: u128|
                old(self).token_throughput_meter@.is_moment_read(now)
                    && self.token_throughput_meter@ == #[trigger] old(
                    self,
                ).token_throughput_meter@.after_token(now);
            assert(self@ == (SlotAggregatedStatusView {
                throughput: old(self)@.throughput.after_token(now),
                ..old(self)@
            }));
        }
    }

    pub fn tokens_per_second(&self) -> (rate: TokenRate)
        ensures
            exists|now: u128|
                self@.throughput.is_moment_read(now) && rate
                    == #[trigger] self@.throughput.rate_at(now),
    {
        let rate = self.token_throughput_meter.tokens_per_second();
        proof {
            let now = choose|now: u128|
                self.token_throughput_meter@.is_moment_read(now) && rate
                    == #[trigger] self.token_throughput_meter@.rate_at(now);
            assert(rate == self@.throughput.rate_at(now));
        }
        rate
    }

    /// Gives a slot back.
    pub fn release_slot(&mut self)
        ensures
            final(self)@ == old(self)@.with_slot_released(),
    {
        self.slots_processing = self.slots_processing.wrapping_sub(1);
        self.change();
    }

    /// Takes a slot.
    pub fn take_slot(&mut self)
        ensures
            final(self)@ == old(self)@.with_slot_taken(),
    {
        self.slots_processing = self.slots_processing.wrapping_add(1);
        self.change();
    }

    /// A receiver that is told of every change from now on.
    pub fn subscribe_to_updates(&self) -> (receiver: watch::Receiver<()>)
        ensures
            updates_seen(receiver) == self@.updates,
    {
        subscribe(&self.update_tx)
    }

    /// The state at this moment, with the rate `tokens_per_second` that its
    /// [`SlotAggregatedStatus::tokens_per_second`] amounts to; an error if the
    /// stored status code is not that of a status.
    pub fn make_snapshot(&self, tokens_per_second: TokensPerSecond) -> (result: Result<
        SlotAggregatedStatusSnapshot,
        InvalidAgentStateApplicationStatus,
    >)
        ensures
            match AgentStateApplicationStatus::of_code(self@.state_application_status_code) {
                Some(status) => result matches Ok(snapshot) && snapshot@ == self@.snapshot(
                    status,
                    tokens_per_second,
                ),
                None => result matches Err(error) && error.value
                    == self@.state_application_status_code,
            },
    {
        let status = match self.get_state_application_status() {
            Ok(status) => status,
            Err(error) => {
                return Err(error);
            },
        };
        Ok(
            SlotAggregatedStatusSnapshot {
                desired_slots_total: self.desired_slots_total,
                download_current: self.download_current,
                download_filename: clone_text(&self.download_filename),
                download_indeterminate: self.download_indeterminate,
                download_total: self.download_total,
                issues: AgentIssues::from_list(issue_set_list(&self.issues)),
                model_path: clone_text(&self.model_path),
                slots_processing: self.slots_processing,
                slots_total: self.slots_total,
                state_application_status: status,
                tokens_per_second,
                uses_chat_template_override: self.uses_chat_template_override,
                version: self.version,
            },
        )
    }
}

/// Taking a slot and giving it back leaves everything but the version as it was,
/// and so does adding a slot and removing it again; subscribers are told of both
/// changes.
pub proof fn release_undoes_take(status: SlotAggregatedStatusView)
    ensures
        status.with_slot_taken().with_slot_released() == status.changed().changed(),
        status.with_slot_released().with_slot_taken() == status.changed().changed(),
        status.with_slot_added().with_slot_removed() == status.changed().changed(),
        status.changed().changed().updates == status.updates + 2,
{
}

/// A reset forgets the download, the issues, the model and the slots, whatever
/// they were, and nothing else.
pub proof fn resets_forget(status: SlotAggregatedStatusView)
    ensures
        status.after_reset().after_download_reset() == (SlotAggregatedStatusView {
            state_application_status_code: status.state_application_status_code,
            throughput: status.throughput,
            updates: status.updates + 4,
            uses_chat_template_override: status.uses_chat_template_override,
            version: status.changed().changed().changed().changed().version,
            ..SlotAggregatedStatusView::initial(
                status.desired_slots_total,
                status.throughput.created_at,
            )
        }),
{
}

/// Reporting an issue twice is reporting it once.
pub proof fn issues_are_reported_once(status: SlotAggregatedStatusView, issue: AgentIssueView)
    ensures
        status.with_issue(issue).with_issue(issue) == status.with_issue(issue),
        status.with_issue(issue).version == status.version,
{
    assert(status.with_issue(issue).with_issue(issue) =~= status.with_issue(issue));
}

/// A fix drops exactly the issues that it puts right, and doing it again changes nothing.
pub proof fn fixes_drop_what_they_put_right(
    status: SlotAggregatedStatusView,
    fix: AgentIssueFix,
    issue: AgentIssueView,
)
    ensures
        status.with_fix(fix).issues.contains(issue) <==> status.issues.contains(issue)
            && !fix.fixes(issue),
        status.with_fix(fix).with_fix(fix) == status.with_fix(fix),
{
    assert(status.with_fix(fix).with_fix(fix) =~= status.with_fix(fix));
}

/// What is reported is what was set: a snapshot shows the count of the slots and of
/// those that are busy, the issues, and whatever else was set last.
pub proof fn snapshots_show_the_status(
    status: &SlotAggregatedStatus,
    tokens_per_second: TokensPerSecond,
    result: Result<SlotAggregatedStatusSnapshot, InvalidAgentStateApplicationStatus>,
)
    requires
        call_ensures(SlotAggregatedStatus::make_snapshot, (status, tokens_per_second), result),
    ensures
        result is Ok <==> 0 <= status@.state_application_status_code < 5,
        result matches Err(error) ==> error.value == status@.state_application_status_code,
        result matches Ok(snapshot) ==> {
            &&& snapshot@.desired_slots_total == status@.desired_slots_total
            &&& snapshot@.download_current == status@.download_current
            &&& snapshot@.download_filename == status@.download_filename
            &&& snapshot@.download_indeterminate == status@.download_indeterminate
            &&& snapshot@.download_total == status@.download_total
            &&& snapshot@.issues == status@.issues
            &&& snapshot@.model_path == status@.model_path
            &&& snapshot@.slots_processing == status@.slots_processing
            &&& snapshot@.slots_total == status@.slots_total
            &&& snapshot@.state_application_status.code_of()
                == status@.state_application_status_code
            &&& snapshot@.tokens_per_second == tokens_per_second
            &&& snapshot@.uses_chat_template_override == status@.uses_chat_template_override
            &&& snapshot@.version == status@.version
        },
{
    codes_are_the_first_numbers(status@.state_application_status_code);
    accepted_codes_are_codes_of_a_status(status@.state_application_status_code);
}

/// Whether two states differ in nothing but what a change always brings: the version,
/// and how often subscribers were told.
pub open spec fn same_but_told(
    left: SlotAggregatedStatusView,
    right: SlotAggregatedStatusView,
) -> bool {
    left == (SlotAggregatedStatusView { version: left.version, updates: left.updates, ..right })
}

/// Taking a slot makes one more busy, and giving it back one less; neither touches
/// anything else, and both are told as a new version.
pub proof fn slots_are_taken_one_by_one(
    taken: &mut SlotAggregatedStatus,
    released: &mut SlotAggregatedStatus,
)
    requires
        call_ensures(SlotAggregatedStatus::take_slot, (taken,), ()),
        call_ensures(SlotAggregatedStatus::release_slot, (released,), ()),
    ensures
        old(taken)@.slots_processing < i32::MAX ==> final(taken)@.slots_processing == old(
            taken,
        )@.slots_processing + 1,
        old(released)@.slots_processing > i32::MIN ==> final(released)@.slots_processing == old(
            released,
        )@.slots_processing - 1,
        final(taken)@.updates == old(taken)@.updates + 1,
        final(released)@.updates == old(released)@.updates + 1,
        final(taken)@.version != old(taken)@.version,
        final(released)@.version != old(released)@.version,
        same_but_told(
            SlotAggregatedStatusView {
                slots_processing: old(taken)@.slots_processing,
                ..final(taken)@
            },
            old(taken)@,
        ),
        same_but_told(
            SlotAggregatedStatusView {
                slots_processing: old(released)@.slots_processing,
                ..final(released)@
            },
            old(released)@,
        ),
        old(released)@ == final(taken)@ ==> same_but_told(final(released)@, old(taken)@),
{
}

/// Slots are added and removed one by one, which touches nothing else, and is told as
/// a new version.
pub proof fn slots_are_added_one_by_one(
    added: &mut SlotAggregatedStatus,
    removed: &mut SlotAggregatedStatus,
)
    requires
        call_ensures(SlotAggregatedStatus::increment_total_slots, (added,), ()),
        call_ensures(SlotAggregatedStatus::decrement_total_slots, (removed,), ()),
    ensures
        old(added)@.slots_total < i32::MAX ==> final(added)@.slots_total == old(
            added,
        )@.slots_total + 1,
        old(removed)@.slots_total > i32::MIN ==> final(removed)@.slots_total == old(
            removed,
        )@.slots_total - 1,
        final(added)@.updates == old(added)@.updates + 1,
        final(removed)@.updates == old(removed)@.updates + 1,
        final(added)@.version != old(added)@.version,
        final(removed)@.version != old(removed)@.version,
        same_but_told(
            SlotAggregatedStatusView { slots_total: old(added)@.slots_total, ..final(added)@ },
            old(added)@,
        ),
        same_but_told(
            SlotAggregatedStatusView {
                slots_total: old(removed)@.slots_total,
                ..final(removed)@
            },
            old(removed)@,
        ),
{
}

/// The progress of a download is shown as it was reported. It is indeterminate exactly
/// if no total is known. Nothing but the download changes.
pub proof fn downloads_are_shown_as_reported(
    status: &mut SlotAggregatedStatus,
    current: u64,
    total: Option<u64>,
    filename: Option<String>,
    tokens_per_second: TokensPerSecond,
    snapshot: SlotAggregatedStatusSnapshot,
)
    requires
        call_ensures(
            SlotAggregatedStatus::set_download_status,
            (status, current, total, filename),
            (),
        ),
        call_ensures(
            SlotAggregatedStatus::make_snapshot,
            (&*final(status), tokens_per_second),
            Ok(snapshot),
        ),
    ensures
        snapshot.download_current == current,
        snapshot.download_indeterminate <==> total is None,
        total matches Some(total) ==> snapshot.download_total == total,
        total is None ==> snapshot.download_total == 0,
        text_of(snapshot.download_filename) == text_of(filename),
        snapshot.slots_total == old(status)@.slots_total,
        snapshot.slots_processing == old(status)@.slots_processing,
        snapshot.issues@ == old(status)@.issues,
        text_of(snapshot.model_path) == old(status)@.model_path,
        final(status)@.updates == old(status)@.updates + 1,
        final(status)@.version != old(status)@.version,
{
    snapshots_show_the_status(&*final(status), tokens_per_second, Ok(snapshot));
}

/// Progress adds up: what was downloaded is the sum of its parts, as far as a counter goes
/// before it begins anew, and nothing else changes.
pub proof fn downloaded_parts_add_up(status: &mut SlotAggregatedStatus, size: u64)
    requires
        call_ensures(SlotAggregatedStatus::increment_download_current, (status, size), ()),
    ensures
        final(status)@.download_current == if old(status)@.download_current + size <= u64::MAX {
            old(status)@.download_current + size
        } else {
            old(status)@.download_current + size - 0x1_0000_0000_0000_0000
        },
        same_but_told(
            SlotAggregatedStatusView {
                download_current: old(status)@.download_current,
                ..final(status)@
            },
            old(status)@,
        ),
{
}

/// A status that was set is the one that is found and shown.
pub proof fn a_status_that_was_set_is_found(
    status: &mut SlotAggregatedStatus,
    application_status: AgentStateApplicationStatus,
    found: Result<AgentStateApplicationStatus, InvalidAgentStateApplicationStatus>,
    tokens_per_second: TokensPerSecond,
    result: Result<SlotAggregatedStatusSnapshot, InvalidAgentStateApplicationStatus>,
)
    requires
        call_ensures(
            SlotAggregatedStatus::set_state_application_status,
            (status, application_status),
            (),
        ),
        call_ensures(
            SlotAggregatedStatus::get_state_application_status,
            (&*final(status),),
            found,
        ),
        call_ensures(
            SlotAggregatedStatus::make_snapshot,
            (&*final(status), tokens_per_second),
            result,
        ),
    ensures
        found == Ok::<_, InvalidAgentStateApplicationStatus>(application_status),
        result matches Ok(snapshot) && snapshot.state_application_status == application_status,
        final(status)@.updates == old(status)@.updates + 1,
        final(status)@.version != old(status)@.version,
        same_but_told(
            SlotAggregatedStatusView {
                state_application_status_code: old(status)@.state_application_status_code,
                ..final(status)@
            },
            old(status)@,
        ),
{
    status_survives_its_code(application_status);
    codes_are_the_first_numbers(application_status.code_of());
    snapshots_show_the_status(&*final(status), tokens_per_second, result);
    accepted_codes_are_codes_of_a_status(application_status.code_of());
}

/// A reported issue is found until something puts it right, and the others stay as
/// they were. It is told once, and a fix is told if it put something right.
pub proof fn an_issue_is_found_until_it_is_fixed(
    reported: &mut SlotAggregatedStatus,
    issue: AgentIssue,
    fixed: &mut SlotAggregatedStatus,
    fix: &AgentIssueFix,
    other: AgentIssueView,
)
    requires
        call_ensures(SlotAggregatedStatus::register_issue, (reported, issue), ()),
        call_ensures(SlotAggregatedStatus::register_fix, (fixed, fix), ()),
    ensures
        final(reported)@.issues.contains(other) <==> old(reported)@.issues.contains(other) || other
            == issue@,
        final(fixed)@.issues.contains(other) <==> old(fixed)@.issues.contains(other)
            && !fix.fixes(other),
        final(reported)@.updates - old(reported)@.updates == if old(reported)@.issues.contains(
            issue@,
        ) {
            0int
        } else {
            1int
        },
        final(fixed)@.updates - old(fixed)@.updates == if final(fixed)@.issues == old(
            fixed,
        )@.issues {
            0int
        } else {
            1int
        },
        final(reported)@.version == old(reported)@.version,
        final(fixed)@.version == old(fixed)@.version,
        final(reported)@.slots_total == old(reported)@.slots_total,
        final(fixed)@.slots_total == old(fixed)@.slots_total,
{
    let before = old(fixed)@;
    let after = final(fixed)@;
    if exists|issue: AgentIssueView| before.issues.contains(issue) && #[trigger] fix.fixes(issue) {
        let issue = choose|issue: AgentIssueView|
            before.issues.contains(issue) && #[trigger] fix.fixes(issue);
        assert(!after.issues.contains(issue));
    } else {
        assert(after.issues =~= before.issues);
    }
}

/// A reset leaves an agent without issues, without a model and without slots, and
/// leaves what it downloads alone; forgetting the download leaves the rest alone.
pub proof fn resets_keep_what_they_do_not_forget(
    reset: &mut SlotAggregatedStatus,
    download: &mut SlotAggregatedStatus,
    issue: AgentIssueView,
)
    requires
        call_ensures(SlotAggregatedStatus::reset, (reset,), ()),
        call_ensures(SlotAggregatedStatus::reset_download, (download,), ()),
    ensures
        !final(reset)@.issues.contains(issue),
        final(reset)@.model_path is None,
        final(reset)@.slots_processing == 0,
        final(reset)@.slots_total == 0,
        final(reset)@.updates > old(reset)@.updates,
        final(reset)@.version != old(reset)@.version,
        same_but_told(
            SlotAggregatedStatusView {
                issues: old(reset)@.issues,
                model_path: old(reset)@.model_path,
                slots_processing: old(reset)@.slots_processing,
                slots_total: old(reset)@.slots_total,
                ..final(reset)@
            },
            old(reset)@,
        ),
        final(download)@.download_current == 0,
        final(download)@.download_total == 0,
        final(download)@.download_filename is None,
        final(download)@.download_indeterminate,
        final(download)@.updates > old(download)@.updates,
        final(download)@.version != old(download)@.version,
        same_but_told(
            SlotAggregatedStatusView {
                download_current: old(download)@.download_current,
                download_total: old(download)@.download_total,
                download_filename: old(download)@.download_filename,
                download_indeterminate: old(download)@.download_indeterminate,
                ..final(download)@
            },
            old(download)@,
        ),
{
}

/// A token changes nothing but the rate: no version, and nobody is told.
pub proof fn tokens_are_not_told(status: &mut SlotAggregatedStatus)
    requires
        call_ensures(SlotAggregatedStatus::record_generated_token, (status,), ()),
    ensures
        final(status)@ == (SlotAggregatedStatusView {
            throughput: final(status)@.throughput,
            ..old(status)@
        }),
{
}

/// The rate that is reported is that of the moment of the call, as the clock says it: what
/// was measured last, unless no token was recorded for more than two seconds before.
pub proof fn the_reported_rate_is_that_of_the_call(status: &SlotAggregatedStatus, rate: TokenRate)
    requires
        call_ensures(SlotAggregatedStatus::tokens_per_second, (status,), rate),
    ensures
        exists|nanos: u128|
            {
                &&& #[trigger] is_clock_reading(status@.throughput.created_at, nanos)
                &&& nanos > status@.throughput.last_token_at + 2_000_000_000 ==> rate.tokens == 0
                &&& nanos <= status@.throughput.last_token_at + 2_000_000_000 ==> rate
                    == status@.throughput.measured
            },
{
    let asked_at = choose|now: u128|
        status@.throughput.is_moment_read(now) && rate == #[trigger] status@.throughput.rate_at(
            now,
        );
    assert(status@.throughput.is_moment_read(asked_at));
}

/// A token is recorded for the moment of the call, as the clock says it.
pub proof fn a_token_is_recorded_when_it_is_generated(status: &mut SlotAggregatedStatus)
    requires
        call_ensures(SlotAggregatedStatus::record_generated_token, (status,), ()),
    ensures
        exists|nanos: u128|
            {
                &&& #[trigger] is_clock_reading(old(status)@.throughput.created_at, nanos)
                &&& final(status)@.throughput.last_token_at == nanos
            },
{
    let recorded_at = choose|now: u128|
        old(status)@.throughput.is_moment_read(now) && final(status)@ == (
        SlotAggregatedStatusView {
            throughput: #[trigger] old(status)@.throughput.after_token(now),
            ..old(status)@
        });
    assert(old(status)@.throughput.is_moment_read(recorded_at));
}

/// An agent begins without slots, without a model, without issues and without a download,
/// and has not tried to apply anything. It is to have the slots that it was asked for.
pub proof fn an_agent_begins_with_nothing(
    desired_slots_total: i32,
    status: SlotAggregatedStatus,
    issue: AgentIssueView,
)
    requires
        call_ensures(SlotAggregatedStatus::new, (desired_slots_total,), status),
    ensures
        status@.desired_slots_total == desired_slots_total,
        status@.slots_total == 0,
        status@.slots_processing == 0,
        status@.model_path is None,
        !status@.issues.contains(issue),
        status@.download_current == 0,
        status@.download_total == 0,
        status@.download_filename is None,
        status@.download_indeterminate,
        AgentStateApplicationStatus::of_code(status@.state_application_status_code) == Some(
            AgentStateApplicationStatus::Fresh,
        ),
        !status@.uses_chat_template_override,
        status@.version == 0,
        status@.updates == 0,
        status@.throughput.token_count == 0,
        status@.throughput.measured.tokens == 0,
        status@.throughput.started_at == 0,
        status@.throughput.last_token_at == 0,
{
    status_survives_its_code(AgentStateApplicationStatus::Fresh);
}

/// What is set is what there is, and it alone changes; each is told as a new version.
pub proof fn what_is_set_is_what_there_is(
    named: &mut SlotAggregatedStatus,
    filename: Option<String>,
    loaded: &mut SlotAggregatedStatus,
    model_path: Option<String>,
    overridden: &mut SlotAggregatedStatus,
    uses: bool,
)
    requires
        call_ensures(SlotAggregatedStatus::set_download_filename, (named, filename), ()),
        call_ensures(SlotAggregatedStatus::set_model_path, (loaded, model_path), ()),
        call_ensures(SlotAggregatedStatus::set_uses_chat_template_override, (overridden, uses), ()),
    ensures
        final(named)@.download_filename == text_of(filename),
        final(loaded)@.model_path == text_of(model_path),
        final(overridden)@.uses_chat_template_override == uses,
        final(named)@.version != old(named)@.version,
        final(loaded)@.version != old(loaded)@.version,
        final(overridden)@.version != old(overridden)@.version,
        final(named)@.updates == old(named)@.updates + 1,
        final(loaded)@.updates == old(loaded)@.updates + 1,
        final(overridden)@.updates == old(overridden)@.updates + 1,
        same_but_told(
            SlotAggregatedStatusView {
                download_filename: old(named)@.download_filename,
                ..final(named)@
            },
            old(named)@,
        ),
        same_but_told(
            SlotAggregatedStatusView { model_path: old(loaded)@.model_path, ..final(loaded)@ },
            old(loaded)@,
        ),
        same_but_told(
            SlotAggregatedStatusView {
                uses_chat_template_override: old(overridden)@.uses_chat_template_override,
                ..final(overridden)@
            },
            old(overridden)@,
        ),
{
}

/// A change counts as one version, the one after the last; and it is told once.
pub proof fn a_change_is_one_version(status: SlotAggregatedStatusView)
    ensures
        status.version < i32::MAX ==> status.changed().version == status.version + 1,
        status.version == i32::MAX ==> status.changed().version == i32::MIN,
        status.changed().updates == status.updates + 1,
        same_but_told(status.changed(), status),
{
}

/// An issue is found exactly if it was reported and not put right; one like some issue is
/// found only if there is such an issue, and the number of busy slots is what it is.
pub proof fn issues_and_busy_slots_are_told_as_they_are<TFunction>(
    status: &SlotAggregatedStatus,
    issue: &AgentIssue,
    found: bool,
    issue_like: TFunction,
    found_like: bool,
    count: i32,
) where TFunction: Fn(&AgentIssue) -> bool,
    requires
        call_ensures(SlotAggregatedStatus::has_issue, (status, issue), found),
        call_ensures(
            SlotAggregatedStatus::has_issue_like::<TFunction>,
            (status, issue_like),
            found_like,
        ),
        call_ensures(SlotAggregatedStatus::slots_processing_count, (status,), count),
    ensures
        found <==> status@.issues.contains(issue@),
        found_like ==> exists|some: AgentIssue|
            #![trigger some@]
            status@.issues.contains(some@) && issue_like.ensures((&some,), true),
        !found_like && found ==> exists|same: AgentIssue|
            #![trigger same@]
            same@ == issue@ && issue_like.ensures((&same,), false),
        count == status@.slots_processing,
{
}

/// Whoever subscribes has seen everything so far, and has not seen what changes next.
pub proof fn a_subscriber_is_told_of_the_next_change(
    status: &SlotAggregatedStatus,
    receiver: watch::Receiver<()>,
    changed: &mut SlotAggregatedStatus,
)
    requires
        call_ensures(SlotAggregatedStatus::subscribe_to_updates, (status,), receiver),
        *old(changed) == *status,
        call_ensures(SlotAggregatedStatus::take_slot, (changed,), ()),
    ensures
        updates_seen(receiver) == status@.updates,
        updates_seen(receiver) < final(changed)@.updates,
{
}

} // verus!
