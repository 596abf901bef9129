//! Waiting until the agents of a cluster are in some state.
use vstd::prelude::*;

use crate::balancer::agent_controller_pool::AgentControllerPoolSnapshot;
use crate::messaging::agent_controller_snapshot::AgentControllerSnapshot;
use crate::messaging::agent_issue::AgentIssue;
use crate::messaging::agent_issue::AgentIssueView;
use crate::messaging::agent_issue::is_sorted;
use crate::messaging::agent_issue::issues_in;
use crate::messaging::agent_issue::lemma_one_sorted_list;
use crate::outside::quote;
use crate::outside::quoted_text;
use crate::text::decimal;
use crate::text::push_decimal;
use crate::text::text_of;

verus! {

/// Something that happens to the stream of the states of the agents.
#[derive(Debug)]
pub enum WatchEvent {
    Snapshot(AgentControllerPoolSnapshot),
    /// The stream failed, and how.
    StreamError(String),
    Closed,
    /// The agents were watched for as long as they may be: how long that is, and what
    /// the clock says.
    TimedOut(String, String),
}

/// Why the agents did not get into the state that was waited for.
#[derive(Debug)]
pub enum WatchError {
    /// The stream failed, and how.
    StreamError(String),
    Closed,
    /// It took longer than this, and what the clock says.
    TimedOut(String, String),
    /// The agent with this id is gone.
    AgentDisappeared(String),
    /// The agent with this id took longer than this, and what the clock says.
    AgentTimedOut(String, String, String),
    /// Agents have issues: the agents, and their issues as text.
    IssuesReported(Vec<ReportedIssues>),
}

/// An agent that has issues.
#[derive(Debug)]
pub struct ReportedIssues {
    pub agent_id: String,
    pub issues: String,
}

/// Where waiting for the agents stands.
#[derive(Debug)]
pub enum WatchStep {
    Wait,
    Done(AgentControllerPoolSnapshot),
    Failed(WatchError),
}

/// Whether one of the agents has the id.
pub open spec fn has_agent(agents: Seq<AgentControllerSnapshot>, agent_id: Seq<char>) -> bool {
    exists|i: int| 0 <= i < agents.len() && (#[trigger] agents[i]).id@ == agent_id
}

/// Whether `agent` is called `name`.
pub open spec fn is_named(agent: AgentControllerSnapshot, name: Seq<char>) -> bool {
    agent.name matches Some(own_name) && own_name@ == name
}

/// Whether `agent` has issues.
pub open spec fn has_issues(agent: AgentControllerSnapshot) -> bool {
    agent.issues@ != Set::<AgentIssueView>::empty()
}

/// Whether one of the agents is called `name` and has that many slots, or issues.
pub open spec fn is_settled(
    agents: Seq<AgentControllerSnapshot>,
    name: Seq<char>,
    expected_slot_count: i32,
) -> bool {
    exists|i: int|
        0 <= i < agents.len() && is_named(#[trigger] agents[i], name) && (agents[i].slots_total
            == expected_slot_count || has_issues(agents[i]))
}

/// How many slots each of the agents has.
pub open spec fn slot_counts(agents: Seq<AgentControllerSnapshot>) -> Seq<i32> {
    agents.map_values(|agent: AgentControllerSnapshot| agent.slots_total)
}

/// Whether some agent has issues.
pub open spec fn any_issues(agents: Seq<AgentControllerSnapshot>) -> bool {
    exists|i: int| 0 <= i < agents.len() && has_issues(#[trigger] agents[i])
}

/// Whether there are enough agents, and some of them have issues or all of them
/// have the expected numbers of slots, in any order.
pub open spec fn are_settled(agents: Seq<AgentControllerSnapshot>, expected: Seq<i32>) -> bool {
    &&& agents.len() >= expected.len()
    &&& any_issues(agents) || slot_counts(agents).to_multiset() == expected.to_multiset()
}

/// Whether `step` ends a watch because of `event`, which is not a snapshot.
pub open spec fn is_interrupted(event: WatchEvent, step: WatchStep) -> bool {
    match event {
        WatchEvent::Snapshot(_) => false,
        WatchEvent::StreamError(error) => step == WatchStep::Failed(
            WatchError::StreamError(error),
        ),
        WatchEvent::Closed => step == WatchStep::Failed(WatchError::Closed),
        WatchEvent::TimedOut(window, cause) => step == WatchStep::Failed(WatchError::TimedOut(window, cause)),
    }
}

fn without_snapshot(event: WatchEvent) -> (result: Result<AgentControllerPoolSnapshot, WatchError>)
    ensures
        match event {
            WatchEvent::Snapshot(snapshot) => result == Ok::<
                AgentControllerPoolSnapshot,
                WatchError,
            >(snapshot),
            WatchEvent::StreamError(error) => result == Err::<
                AgentControllerPoolSnapshot,
                WatchError,
            >(WatchError::StreamError(error)),
            WatchEvent::Closed => result == Err::<AgentControllerPoolSnapshot, WatchError>(
                WatchError::Closed,
            ),
            WatchEvent::TimedOut(window, cause) => result == Err::<
                AgentControllerPoolSnapshot,
                WatchError,
            >(WatchError::TimedOut(window, cause)),
        },
{
    match event {
        WatchEvent::Snapshot(snapshot) => Ok(snapshot),
        WatchEvent::StreamError(error) => Err(WatchError::StreamError(error)),
        WatchEvent::Closed => Err(WatchError::Closed),
        WatchEvent::TimedOut(window, cause) => Err(WatchError::TimedOut(window, cause)),
    }
}

/// Whether the predicate says of every snapshot whether `holds` holds of it.
pub open spec fn decides<TPredicate: Fn(&AgentControllerPoolSnapshot) -> bool>(
    predicate: TPredicate,
    holds: spec_fn(AgentControllerPoolSnapshot) -> bool,
) -> bool {
    forall|snapshot: AgentControllerPoolSnapshot, said: bool| #[trigger]
        predicate.ensures((&snapshot,), said) ==> said == holds(snapshot)
}

/// Where waiting for a snapshot of which `holds` holds stands after an event.
pub open spec fn until_step(
    holds: spec_fn(AgentControllerPoolSnapshot) -> bool,
    event: WatchEvent,
    step: WatchStep,
) -> bool {
    match event {
        WatchEvent::Snapshot(snapshot) => if holds(snapshot) {
            step == WatchStep::Done(snapshot)
        } else {
            step is Wait
        },
        _ => is_interrupted(event, step),
    }
}

/// Waits for a snapshot of which the predicate holds.
pub fn until<TPredicate>(event: WatchEvent, predicate: TPredicate) -> (step: WatchStep) where
    TPredicate: Fn(&AgentControllerPoolSnapshot) -> bool,

    requires
        forall|snapshot: &AgentControllerPoolSnapshot| predicate.requires((snapshot,)),
    ensures
        match event {
            WatchEvent::Snapshot(snapshot) => match step {
                WatchStep::Done(matched) => matched == snapshot && predicate.ensures(
                    (&snapshot,),
                    true,
                ),
                WatchStep::Wait => predicate.ensures((&snapshot,), false),
                WatchStep::Failed(_) => false,
            },
            _ => is_interrupted(event, step),
        },
        forall|holds: spec_fn(AgentControllerPoolSnapshot) -> bool| #[trigger]
            decides(predicate, holds) ==> until_step(holds, event, step),
{
    match without_snapshot(event) {
        Ok(snapshot) => {
            if predicate(&snapshot) {
                WatchStep::Done(snapshot)
            } else {
                WatchStep::Wait
            }
        },
        Err(error) => WatchStep::Failed(error),
    }
}

fn contains_agent(snapshot: &AgentControllerPoolSnapshot, agent_id: &String) -> (found: bool)
    ensures
        found == has_agent(snapshot.agents@, agent_id@),
{
    let mut i: usize = 0;
    while i < snapshot.agents.len()
        invariant
            i <= snapshot.agents.len(),
            forall|j: int| 0 <= j < i ==> (#[trigger] snapshot.agents@[j]).id@ != agent_id@,
        decreases snapshot.agents.len() - i,
    {
        if snapshot.agents[i].id == *agent_id {
            return true;
        }
        i = i + 1;
    }
    false
}

/// Waits for a snapshot of which the predicate holds, for as long as the agent is
/// there.
pub fn until_agent<TPredicate>(
    agent_id: &String,
    event: WatchEvent,
    predicate: TPredicate,
) -> (step: WatchStep) where TPredicate: Fn(&AgentControllerPoolSnapshot) -> bool,
    requires
        forall|snapshot: &AgentControllerPoolSnapshot| predicate.requires((snapshot,)),
    ensures
        match event {
            WatchEvent::Snapshot(snapshot) => match step {
                WatchStep::Done(matched) => {
                    &&& has_agent(snapshot.agents@, agent_id@)
                    &&& matched == snapshot
                    &&& predicate.ensures((&snapshot,), true)
                },
                WatchStep::Wait => {
                    &&& has_agent(snapshot.agents@, agent_id@)
                    &&& predicate.ensures((&snapshot,), false)
                },
                WatchStep::Failed(error) => {
                    &&& !has_agent(snapshot.agents@, agent_id@)
                    &&& error == WatchError::AgentDisappeared(*agent_id)
                },
            },
            WatchEvent::TimedOut(window, cause) => step == WatchStep::Failed(
                WatchError::AgentTimedOut(*agent_id, window, cause),
            ),
            _ => is_interrupted(event, step),
        },
{
    match without_snapshot(event) {
        Ok(snapshot) => {
            if !contains_agent(&snapshot, agent_id) {
                return WatchStep::Failed(WatchError::AgentDisappeared(agent_id.clone()));
            }
            if predicate(&snapshot) {
                WatchStep::Done(snapshot)
            } else {
                WatchStep::Wait
            }
        },
        Err(WatchError::TimedOut(window, cause)) => WatchStep::Failed(
            WatchError::AgentTimedOut(agent_id.clone(), window, cause),
        ),
        Err(error) => WatchStep::Failed(error),
    }
}

/// The text of one issue.
pub open spec fn issue_text(issue: AgentIssue) -> Seq<char> {
    match issue {
        AgentIssue::ModelCannotBeLoaded(params) => "ModelCannotBeLoaded(ModelPath { model_path: "@
            + quoted_text(params.model_path@) + " })"@,
        AgentIssue::ModelFileDoesNotExist(params) =>
            "ModelFileDoesNotExist(ModelPath { model_path: "@ + quoted_text(params.model_path@)
            + " })"@,
        AgentIssue::SlotCannotStart(params) =>
            "SlotCannotStart(SlotCannotStartParams { error: "@ + quoted_text(params.error@)
            + ", slot_index: "@ + decimal(params.slot_index as nat) + " })"@,
        AgentIssue::UnableToFindChatTemplate(params) =>
            "UnableToFindChatTemplate(ModelPath { model_path: "@ + quoted_text(params.model_path@)
            + " })"@,
    }
}

fn push_issue(out: &mut String, issue: &AgentIssue)
    ensures
        final(out)@ == old(out)@ + issue_text(*issue),
{
    match issue {
        AgentIssue::ModelCannotBeLoaded(params) => {
            out.append("ModelCannotBeLoaded(ModelPath { model_path: ");
            out.append(quote(params.model_path.as_str()).as_str());
            out.append(" })");
        },
        AgentIssue::ModelFileDoesNotExist(params) => {
            out.append("ModelFileDoesNotExist(ModelPath { model_path: ");
            out.append(quote(params.model_path.as_str()).as_str());
            out.append(" })");
        },
        AgentIssue::SlotCannotStart(params) => {
            out.append("SlotCannotStart(SlotCannotStartParams { error: ");
            out.append(quote(params.error.as_str()).as_str());
            out.append(", slot_index: ");
            push_decimal(out, params.slot_index as u128);
            out.append(" })");
        },
        AgentIssue::UnableToFindChatTemplate(params) => {
            out.append("UnableToFindChatTemplate(ModelPath { model_path: ");
            out.append(quote(params.model_path.as_str()).as_str());
            out.append(" })");
        },
    }
    assert(out@ =~= old(out)@ + issue_text(*issue));
}

/// The texts of several issues, one after the other.
pub open spec fn joined_issues(issues: Seq<AgentIssue>) -> Seq<char>
    decreases issues.len(),
{
    if issues.len() == 0 {
        Seq::empty()
    } else if issues.len() == 1 {
        issue_text(issues[0])
    } else {
        joined_issues(issues.drop_last()) + ", "@ + issue_text(issues.last())
    }
}

/// Whether `text` is the text of the issues of an agent: of each issue once, in
/// their order.
pub open spec fn is_issues_text(text: Seq<char>, issues: Set<AgentIssueView>) -> bool {
    exists|list: Seq<AgentIssue>| #[trigger]
        issues_in(list) == issues && is_sorted(list) && text == "{"@ + joined_issues(list) + "}"@
}

fn issues_text(agent: &AgentControllerSnapshot) -> (text: String)
    ensures
        is_issues_text(text@, agent.issues@),
{
    let list = agent.issues.to_list();
    let mut text = String::from_str("{");
    let mut i: usize = 0;
    assert(list@.subrange(0, 0) =~= Seq::<AgentIssue>::empty());
    assert(text@ =~= "{"@ + joined_issues(list@.subrange(0, 0)));
    while i < list.len()
        invariant
            i <= list.len(),
            text@ == "{"@ + joined_issues(list@.subrange(0, i as int)),
        decreases list.len() - i,
    {
        if i > 0 {
            text.append(", ");
        }
        push_issue(&mut text, &list[i]);
        proof {
            let next = list@.subrange(0, i + 1);
            assert(next.drop_last() =~= list@.subrange(0, i as int));
            assert(next.last() == list@[i as int]);
            assert(text@ =~= "{"@ + joined_issues(next));
        }
        i = i + 1;
    }
    text.append("}");
    assert(list@.subrange(0, i as int) =~= list@);
    assert(issues_in(list@) == agent.issues@);
    assert(text@ =~= "{"@ + joined_issues(list@) + "}"@);
    text
}

proof fn lemma_joined_by_content(left: Seq<AgentIssue>, right: Seq<AgentIssue>)
    requires
        left.len() == right.len(),
        forall|i: int| 0 <= i < left.len() ==> (#[trigger] left[i])@ == right[i]@,
    ensures
        joined_issues(left) == joined_issues(right),
    decreases left.len(),
{
    if left.len() > 0 {
        assert(left[left.len() - 1]@ == right[left.len() - 1]@);
        assert(left[0]@ == right[0]@);
        assert forall|i: int| 0 <= i < left.drop_last().len() implies (#[trigger] left.drop_last()[i])@
            == right.drop_last()[i]@ by {
            assert(left[i]@ == right[i]@);
        };
        lemma_joined_by_content(left.drop_last(), right.drop_last());
    }
}

/// Issues have one text, whatever the order in which they came up.
pub proof fn issues_have_one_text(
    issues: Set<AgentIssueView>,
    left: Seq<char>,
    right: Seq<char>,
)
    requires
        is_issues_text(left, issues),
        is_issues_text(right, issues),
    ensures
        left == right,
{
    let first = choose|list: Seq<AgentIssue>| #[trigger]
        issues_in(list) == issues && is_sorted(list) && left == "{"@ + joined_issues(list) + "}"@;
    let second = choose|list: Seq<AgentIssue>| #[trigger]
        issues_in(list) == issues && is_sorted(list) && right == "{"@ + joined_issues(list) + "}"@;
    lemma_one_sorted_list(first, second);
    lemma_joined_by_content(first, second);
}

/// Whether `reports` are those of the agents that have issues and satisfy
/// `counts`, in the order of the agents.
pub open spec fn are_reports(
    reports: Seq<ReportedIssues>,
    agents: Seq<AgentControllerSnapshot>,
    counts: spec_fn(AgentControllerSnapshot) -> bool,
) -> bool {
    let failing = agents.filter(
        |agent: AgentControllerSnapshot| counts(agent) && has_issues(agent),
    );
    &&& reports.len() == failing.len()
    &&& forall|i: int|
        0 <= i < reports.len() ==> {
            &&& (#[trigger] reports[i]).agent_id == failing[i].id
            &&& is_issues_text(reports[i].issues@, failing[i].issues@)
        }
}

fn named_as(agent: &AgentControllerSnapshot, name: &String) -> (named: bool)
    ensures
        named == is_named(*agent, name@),
{
    match &agent.name {
        Some(own_name) => *own_name == *name,
        None => false,
    }
}

/// Where waiting for the agent that is called `agent_name` stands after an event.
pub open spec fn agent_ready_step(
    agent_name: Seq<char>,
    expected_slot_count: i32,
    event: WatchEvent,
    step: WatchStep,
) -> bool {
    match event {
        WatchEvent::Snapshot(snapshot) => if !is_settled(
            snapshot.agents@,
            agent_name,
            expected_slot_count,
        ) {
            step is Wait
        } else {
            match step {
                WatchStep::Done(matched) => {
                    &&& matched == snapshot
                    &&& forall|i: int|
                        0 <= i < snapshot.agents@.len() ==> !(is_named(
                            #[trigger] snapshot.agents@[i],
                            agent_name,
                        ) && has_issues(snapshot.agents@[i]))
                },
                WatchStep::Failed(error) => {
                    &&& error matches WatchError::IssuesReported(reports)
                    &&& reports@.len() == 1
                    &&& exists|i: int|
                        {
                            &&& 0 <= i < snapshot.agents@.len()
                            &&& is_named(#[trigger] snapshot.agents@[i], agent_name)
                            &&& has_issues(snapshot.agents@[i])
                            &&& reports@[0].agent_id == snapshot.agents@[i].id
                            &&& is_issues_text(reports@[0].issues@, snapshot.agents@[i].issues@)
                            &&& forall|j: int|
                                0 <= j < i ==> !(is_named(
                                    #[trigger] snapshot.agents@[j],
                                    agent_name,
                                ) && has_issues(snapshot.agents@[j]))
                        }
                },
                WatchStep::Wait => false,
            }
        },
        _ => is_interrupted(event, step),
    }
}

/// Waits until the agent that is called `agent_name` has the expected number of
/// slots. An agent that has issues fails to get ready: the first one that is
/// called so is reported.
pub fn wait_for_agent_ready(
    agent_name: &String,
    expected_slot_count: i32,
    event: WatchEvent,
) -> (step: WatchStep)
    ensures
        agent_ready_step(agent_name@, expected_slot_count, event, step),
{
    let snapshot = match without_snapshot(event) {
        Ok(snapshot) => snapshot,
        Err(error) => {
            return WatchStep::Failed(error);
        },
    };
    let mut settled = false;
    let mut failing: Option<usize> = None;
    let mut i: usize = 0;
    while i < snapshot.agents.len()
        invariant
            i <= snapshot.agents.len(),
            settled == is_settled(
                snapshot.agents@.subrange(0, i as int),
                agent_name@,
                expected_slot_count,
            ),
            match failing {
                Some(f) => {
                    &&& f < i
                    &&& is_named(snapshot.agents@[f as int], agent_name@)
                    &&& has_issues(snapshot.agents@[f as int])
                    &&& forall|j: int|
                        0 <= j < f ==> !(is_named(#[trigger] snapshot.agents@[j], agent_name@)
                            && has_issues(snapshot.agents@[j]))
                },
                None => forall|j: int|
                    0 <= j < i ==> !(is_named(#[trigger] snapshot.agents@[j], agent_name@)
                        && has_issues(snapshot.agents@[j])),
            },
        decreases snapshot.agents.len() - i,
    {
        let named = named_as(&snapshot.agents[i], agent_name);
        let issues = !snapshot.agents[i].issues.is_empty();
        proof {
            lemma_settled_step(snapshot.agents@, agent_name@, expected_slot_count, i as int);
        }
        if named && (snapshot.agents[i].slots_total == expected_slot_count || issues) {
            settled = true;
        }
        if named && issues && failing.is_none() {
            failing = Some(i);
        }
        i = i + 1;
    }
    assert(snapshot.agents@.subrange(0, i as int) =~= snapshot.agents@);
    if !settled {
        return WatchStep::Wait;
    }
    match failing {
        Some(f) => {
            let mut reports: Vec<ReportedIssues> = Vec::new();
            reports.push(
                ReportedIssues {
                    agent_id: snapshot.agents[f].id.clone(),
                    issues: issues_text(&snapshot.agents[f]),
                },
            );
            WatchStep::Failed(WatchError::IssuesReported(reports))
        },
        None => WatchStep::Done(snapshot),
    }
}

proof fn lemma_settled_step(
    agents: Seq<AgentControllerSnapshot>,
    name: Seq<char>,
    expected_slot_count: i32,
    i: int,
)
    requires
        0 <= i < agents.len(),
    ensures
        is_settled(agents.subrange(0, i + 1), name, expected_slot_count) == (is_settled(
            agents.subrange(0, i),
            name,
            expected_slot_count,
        ) || (is_named(agents[i], name) && (agents[i].slots_total == expected_slot_count
            || has_issues(agents[i])))),
{
    let shorter = agents.subrange(0, i);
    let longer = agents.subrange(0, i + 1);
    if is_settled(shorter, name, expected_slot_count) {
        let j = choose|j: int|
            0 <= j < shorter.len() && is_named(#[trigger] shorter[j], name) && (
            shorter[j].slots_total == expected_slot_count || has_issues(shorter[j]));
        assert(longer[j] == shorter[j]);
    }
    if is_settled(longer, name, expected_slot_count) {
        let j = choose|j: int|
            0 <= j < longer.len() && is_named(#[trigger] longer[j], name) && (longer[j].slots_total
                == expected_slot_count || has_issues(longer[j]));
        if j < i {
            assert(shorter[j] == longer[j]);
        }
    }
    assert(longer[i] == agents[i]);
}

fn remove_value(values: &mut Vec<i32>, value: i32) -> (removed: bool)
    ensures
        removed == old(values)@.to_multiset().contains(value),
        final(values)@.to_multiset() == old(values)@.to_multiset().remove(value),
        final(values)@.len() == if removed {
            old(values)@.len() - 1
        } else {
            old(values)@.len() as int
        },
{
    let mut i: usize = 0;
    proof {
        values@.to_multiset_ensures();
    }
    while i < values.len()
        invariant
            i <= values@.len(),
            values@ == old(values)@,
            forall|j: int| 0 <= j < i ==> values@[j] != value,
        decreases values.len() - i,
    {
        if values[i] == value {
            proof {
                values@.to_multiset_ensures();
                assert(values@.contains(value));
            }
            values.remove(i);
            return true;
        }
        i = i + 1;
    }
    proof {
        values@.to_multiset_ensures();
        assert(!values@.contains(value));
        assert(values@.to_multiset().remove(value) =~= values@.to_multiset());
    }
    false
}

fn same_values(left: &Vec<i32>, right: &Vec<i32>) -> (same: bool)
    ensures
        same == (left@.to_multiset() == right@.to_multiset()),
{
    let mut rest: Vec<i32> = Vec::new();
    let mut i: usize = 0;
    while i < right.len()
        invariant
            i <= right.len(),
            rest@ == right@.subrange(0, i as int),
        decreases right.len() - i,
    {
        rest.push(right[i]);
        i = i + 1;
        assert(rest@ =~= right@.subrange(0, i as int));
    }
    assert(rest@ =~= right@);
    let mut k: usize = 0;
    proof {
        assert(left@.subrange(0, 0) =~= Seq::<i32>::empty());
        left@.subrange(0, 0).to_multiset_ensures();
        assert(right@.to_multiset() =~= left@.subrange(0, 0).to_multiset().add(
            rest@.to_multiset(),
        ));
    }
    while k < left.len()
        invariant
            k <= left.len(),
            right@.to_multiset() == left@.subrange(0, k as int).to_multiset().add(
                rest@.to_multiset(),
            ),
        decreases left.len() - k,
    {
        let ghost before = rest@;
        let removed = remove_value(&mut rest, left[k]);
        proof {
            let start = left@.subrange(0, k as int);
            let longer = left@.subrange(0, k + 1);
            assert(longer =~= start.push(left@[k as int]));
            start.to_multiset_ensures();
            if !removed {
                if left@.to_multiset() == right@.to_multiset() {
                    let tail = left@.subrange(k + 1, left@.len() as int);
                    assert(left@ =~= longer + tail);
                    vstd::seq_lib::lemma_multiset_commutative(longer, tail);
                    assert(left@.to_multiset().count(left@[k as int]) >= longer.to_multiset().count(
                        left@[k as int],
                    ));
                    assert(false);
                }
            } else {
                assert(right@.to_multiset() =~= longer.to_multiset().add(rest@.to_multiset()));
            }
        }
        if !removed {
            return false;
        }
        k = k + 1;
    }
    proof {
        assert(left@.subrange(0, k as int) =~= left@);
        rest@.to_multiset_ensures();
        if rest@.len() > 0 {
            assert(rest@.contains(rest@[0]));
            assert(right@.to_multiset().count(rest@[0]) > left@.to_multiset().count(rest@[0]));
        } else {
            assert(right@.to_multiset() =~= left@.to_multiset());
        }
    }
    rest.len() == 0
}

/// Where waiting for the slots of all agents stands after an event.
pub open spec fn slots_ready_step(
    expected_slot_counts: Seq<i32>,
    event: WatchEvent,
    step: WatchStep,
) -> bool {
    match event {
        WatchEvent::Snapshot(snapshot) => if !are_settled(snapshot.agents@, expected_slot_counts) {
            step is Wait
        } else if any_issues(snapshot.agents@) {
            &&& step matches WatchStep::Failed(error)
            &&& error matches WatchError::IssuesReported(reports)
            &&& are_reports(reports@, snapshot.agents@, |agent: AgentControllerSnapshot| true)
        } else {
            step == WatchStep::Done(snapshot)
        },
        _ => is_interrupted(event, step),
    }
}

/// Waits until there are enough agents and they have the expected numbers of
/// slots, in any order. Agents that have issues fail to get ready, and are all
/// reported.
pub fn wait_for_slots_ready(expected_slot_counts: &Vec<i32>, event: WatchEvent) -> (step: WatchStep)
    ensures
        slots_ready_step(expected_slot_counts@, event, step),
{
    let snapshot = match without_snapshot(event) {
        Ok(snapshot) => snapshot,
        Err(error) => {
            return WatchStep::Failed(error);
        },
    };
    if snapshot.agents.len() < expected_slot_counts.len() {
        return WatchStep::Wait;
    }
    let mut reports: Vec<ReportedIssues> = Vec::new();
    let mut observed: Vec<i32> = Vec::new();
    let mut i: usize = 0;
    let ghost everyone = |agent: AgentControllerSnapshot| true;
    proof {
        reveal(Seq::filter);
        assert(snapshot.agents@.subrange(0, 0) =~= Seq::<AgentControllerSnapshot>::empty());
    }
    while i < snapshot.agents.len()
        invariant
            i <= snapshot.agents.len(),
            everyone == (|agent: AgentControllerSnapshot| true),
            observed@ == slot_counts(snapshot.agents@.subrange(0, i as int)),
            are_reports(reports@, snapshot.agents@.subrange(0, i as int), everyone),
            reports@.len() > 0 <==> any_issues(snapshot.agents@.subrange(0, i as int)),
        decreases snapshot.agents.len() - i,
    {
        observed.push(snapshot.agents[i].slots_total);
        let issues = !snapshot.agents[i].issues.is_empty();
        let ghost before = snapshot.agents@.subrange(0, i as int);
        let ghost next = snapshot.agents@.subrange(0, i + 1);
        if issues {
            reports.push(
                ReportedIssues {
                    agent_id: snapshot.agents[i].id.clone(),
                    issues: issues_text(&snapshot.agents[i]),
                },
            );
        }
        proof {
            reveal(Seq::filter);
            assert(next.drop_last() =~= before);
            assert(next.last() == snapshot.agents@[i as int]);
            assert(observed@ =~= slot_counts(next));
            if any_issues(before) {
                let j = choose|j: int| 0 <= j < before.len() && has_issues(#[trigger] before[j]);
                assert(next[j] == before[j]);
            }
            if any_issues(next) {
                let j = choose|j: int| 0 <= j < next.len() && has_issues(#[trigger] next[j]);
                if j < i {
                    assert(before[j] == next[j]);
                }
            }
            if issues {
                assert(has_issues(next[i as int]));
            }
        }
        i = i + 1;
    }
    assert(snapshot.agents@.subrange(0, i as int) =~= snapshot.agents@);
    if reports.len() > 0 {
        return WatchStep::Failed(WatchError::IssuesReported(reports));
    }
    if same_values(&observed, expected_slot_counts) {
        WatchStep::Done(snapshot)
    } else {
        WatchStep::Wait
    }
}

/// The reports of several agents, one after the other.
pub open spec fn joined_reports(reports: Seq<ReportedIssues>) -> Seq<char>
    decreases reports.len(),
{
    if reports.len() == 0 {
        Seq::empty()
    } else if reports.len() == 1 {
        "agent "@ + reports[0].agent_id@ + ": "@ + reports[0].issues@
    } else {
        joined_reports(reports.drop_last()) + "; "@ + "agent "@ + reports.last().agent_id@ + ": "@
            + reports.last().issues@
    }
}

impl WatchError {
    /// The text of the error.
    pub open spec fn text(self) -> Seq<char> {
        match self {
            WatchError::StreamError(error) => "agents stream yielded an error: "@ + error@,
            WatchError::Closed => "agents stream closed before predicate was satisfied"@,
            WatchError::TimedOut(window, cause) =>
                "agents stream did not satisfy the predicate within "@ + window@ + ": "@ + cause@,
            WatchError::AgentDisappeared(agent_id) => "agent "@ + agent_id@
                + " disappeared from the balancer's agent pool before the predicate was satisfied; this means the agent subprocess died or its WebSocket dropped"@,
            WatchError::AgentTimedOut(agent_id, window, cause) => "agent "@ + agent_id@
                + " did not satisfy the predicate within "@ + window@ + ": "@ + cause@,
            WatchError::IssuesReported(reports) =>
                "agents reported issues while waiting for slots: "@ + joined_reports(reports@),
        }
    }

    /// The error as a message.
    pub fn message(&self) -> (text: String)
        ensures
            text@ == self.text(),
    {
        match self {
            WatchError::StreamError(error) => {
                let mut text = String::from_str("agents stream yielded an error: ");
                text.append(error.as_str());
                text
            },
            WatchError::Closed => String::from_str(
                "agents stream closed before predicate was satisfied",
            ),
            WatchError::TimedOut(window, cause) => {
                let mut text = String::from_str(
                    "agents stream did not satisfy the predicate within ",
                );
                text.append(window.as_str());
                text.append(": ");
                text.append(cause.as_str());
                text
            },
            WatchError::AgentDisappeared(agent_id) => {
                let mut text = String::from_str("agent ");
                text.append(agent_id.as_str());
                text.append(
                    " disappeared from the balancer's agent pool before the predicate was satisfied; this means the agent subprocess died or its WebSocket dropped",
                );
                text
            },
            WatchError::AgentTimedOut(agent_id, window, cause) => {
                let mut text = String::from_str("agent ");
                text.append(agent_id.as_str());
                text.append(" did not satisfy the predicate within ");
                text.append(window.as_str());
                text.append(": ");
                text.append(cause.as_str());
                text
            },
            WatchError::IssuesReported(reports) => {
                let mut text = String::from_str("agents reported issues while waiting for slots: ");
                let ghost start = text@;
                let mut i: usize = 0;
                assert(reports@.subrange(0, 0) =~= Seq::<ReportedIssues>::empty());
                assert(text@ =~= start + joined_reports(reports@.subrange(0, 0)));
                while i < reports.len()
                    invariant
                        i <= reports.len(),
                        text@ == start + joined_reports(reports@.subrange(0, i as int)),
                    decreases reports.len() - i,
                {
                    if i > 0 {
                        text.append("; ");
                    }
                    text.append("agent ");
                    text.append(reports[i].agent_id.as_str());
                    text.append(": ");
                    text.append(reports[i].issues.as_str());
                    proof {
                        let next = reports@.subrange(0, i + 1);
                        assert(next.drop_last() =~= reports@.subrange(0, i as int));
                        assert(next.last() == reports@[i as int]);
                        assert(text@ =~= start + joined_reports(next));
                    }
                    i = i + 1;
                }
                assert(reports@.subrange(0, i as int) =~= reports@);
                text
            },
        }
    }

    /// The error as a message of who waited for one agent.
    pub fn agent_readiness_message(&self, agent_name: &str) -> (text: String)
        ensures
            text@ == match *self {
                WatchError::IssuesReported(reports) => if reports@.len() == 1 {
                    "agent "@ + quoted_text(agent_name@) + " reported issues during startup: "@
                        + reports@[0].issues@
                } else {
                    self.text()
                },
                _ => "agent "@ + quoted_text(agent_name@) + " did not reach slot readiness: "@
                    + self.text(),
            },
    {
        let mut text = String::from_str("agent ");
        text.append(quote(agent_name).as_str());
        if let WatchError::IssuesReported(reports) = self {
            if reports.len() == 1 {
                text.append(" reported issues during startup: ");
                text.append(reports[0].issues.as_str());
                return text;
            }
            return self.message();
        }
        text.append(" did not reach slot readiness: ");
        text.append(self.message().as_str());
        text
    }

    /// The error as a message of who waited for several agents.
    pub fn slot_counts_message(&self) -> (text: String)
        ensures
            text@ == match *self {
                WatchError::IssuesReported(_) => self.text(),
                _ => "agents did not reach the requested slot counts: "@ + self.text(),
            },
    {
        if let WatchError::IssuesReported(_) = self {
            return self.message();
        }
        let mut text = String::from_str("agents did not reach the requested slot counts: ");
        text.append(self.message().as_str());
        text
    }
}

/// Whether the first event that does not leave a watch waiting is the last one.
pub open spec fn is_watch(events: Seq<WatchEvent>, steps: Seq<WatchStep>) -> bool {
    &&& events.len() == steps.len()
    &&& events.len() > 0
    &&& forall|i: int| 0 <= i < steps.len() - 1 ==> #[trigger] steps[i] is Wait
}

/// A watch that ends successfully ends with the first snapshot of which what was
/// waited for holds.
pub proof fn a_watch_ends_with_the_first_match(
    holds: spec_fn(AgentControllerPoolSnapshot) -> bool,
    events: Seq<WatchEvent>,
    steps: Seq<WatchStep>,
    found: AgentControllerPoolSnapshot,
)
    requires
        is_watch(events, steps),
        forall|i: int|
            0 <= i < events.len() ==> until_step(holds, #[trigger] events[i], steps[i]),
        steps.last() == WatchStep::Done(found),
    ensures
        events.last() == WatchEvent::Snapshot(found),
        holds(found),
        forall|i: int|
            0 <= i < events.len() - 1 ==> (#[trigger] events[i] matches WatchEvent::Snapshot(
                snapshot,
            ) && !holds(snapshot)),
{
    let last = events.len() - 1;
    assert(until_step(holds, events[last], steps[last]));
    assert forall|i: int| 0 <= i < events.len() - 1 implies (
    #[trigger] events[i] matches WatchEvent::Snapshot(snapshot) && !holds(snapshot)) by {
        assert(steps[i] is Wait);
        assert(until_step(holds, events[i], steps[i]));
    };
}

/// Whoever waited for the slots of all agents, and did so successfully, knows that
/// there are as many agents as expected, that they have the expected numbers of
/// slots and no issues, and that this was not so in any earlier snapshot.
pub proof fn a_wait_for_slots_ends_when_they_are_ready(
    expected_slot_counts: Seq<i32>,
    events: Seq<WatchEvent>,
    steps: Seq<WatchStep>,
    found: AgentControllerPoolSnapshot,
)
    requires
        is_watch(events, steps),
        forall|i: int|
            0 <= i < events.len() ==> slots_ready_step(
                expected_slot_counts,
                #[trigger] events[i],
                steps[i],
            ),
        steps.last() == WatchStep::Done(found),
    ensures
        events.last() == WatchEvent::Snapshot(found),
        found.agents@.len() == expected_slot_counts.len(),
        slot_counts(found.agents@).to_multiset() == expected_slot_counts.to_multiset(),
        !any_issues(found.agents@),
        forall|i: int|
            0 <= i < events.len() - 1 ==> (#[trigger] events[i] matches WatchEvent::Snapshot(
                snapshot,
            ) && !are_settled(snapshot.agents@, expected_slot_counts)),
{
    let last = events.len() - 1;
    assert(slots_ready_step(expected_slot_counts, events[last], steps[last]));
    slot_counts(found.agents@).to_multiset_ensures();
    expected_slot_counts.to_multiset_ensures();
    assert forall|i: int| 0 <= i < events.len() - 1 implies (
    #[trigger] events[i] matches WatchEvent::Snapshot(snapshot) && !are_settled(
        snapshot.agents@,
        expected_slot_counts,
    )) by {
        assert(steps[i] is Wait);
        assert(slots_ready_step(expected_slot_counts, events[i], steps[i]));
    };
}

/// Whoever waited for an agent, and did so successfully, knows that some agent of
/// that name has the expected number of slots, that none of that name has issues,
/// and that none had either in any earlier snapshot.
pub proof fn a_wait_for_an_agent_ends_when_it_is_ready(
    agent_name: Seq<char>,
    expected_slot_count: i32,
    events: Seq<WatchEvent>,
    steps: Seq<WatchStep>,
    found: AgentControllerPoolSnapshot,
)
    requires
        is_watch(events, steps),
        forall|i: int|
            0 <= i < events.len() ==> agent_ready_step(
                agent_name,
                expected_slot_count,
                #[trigger] events[i],
                steps[i],
            ),
        steps.last() == WatchStep::Done(found),
    ensures
        events.last() == WatchEvent::Snapshot(found),
        exists|i: int|
            0 <= i < found.agents@.len() && is_named(#[trigger] found.agents@[i], agent_name)
                && found.agents@[i].slots_total == expected_slot_count,
        forall|i: int|
            0 <= i < found.agents@.len() && is_named(#[trigger] found.agents@[i], agent_name)
                ==> !has_issues(found.agents@[i]),
        forall|i: int|
            0 <= i < events.len() - 1 ==> (#[trigger] events[i] matches WatchEvent::Snapshot(
                snapshot,
            ) && !is_settled(snapshot.agents@, agent_name, expected_slot_count)),
{
    let last = events.len() - 1;
    assert(agent_ready_step(agent_name, expected_slot_count, events[last], steps[last]));
    assert forall|i: int| 0 <= i < events.len() - 1 implies (
    #[trigger] events[i] matches WatchEvent::Snapshot(snapshot) && !is_settled(
        snapshot.agents@,
        agent_name,
        expected_slot_count,
    )) by {
        assert(steps[i] is Wait);
        assert(agent_ready_step(agent_name, expected_slot_count, events[i], steps[i]));
    };
}

/// A watch for slots waits on exactly if there are fewer agents than expected, or none of
/// them has an issue and their numbers of slots are not those that are expected, each as
/// often as it is. It fails exactly if there are enough and one has an issue.
pub proof fn slots_are_ready_when_they_are_as_expected(
    expected: &Vec<i32>,
    snapshot: AgentControllerPoolSnapshot,
    step: WatchStep,
)
    requires
        call_ensures(wait_for_slots_ready, (expected, WatchEvent::Snapshot(snapshot)), step),
    ensures
        ({
            let agents = snapshot.agents@;
            let counts = Seq::new(agents.len(), |i: int| agents[i].slots_total);
            let some_issue = exists|i: int, issue: AgentIssueView|
                0 <= i < agents.len() && #[trigger] agents[i].issues@.contains(issue);
            &&& step is Wait <==> agents.len() < expected@.len() || (!some_issue
                && counts.to_multiset() != expected@.to_multiset())
            &&& step is Failed <==> agents.len() >= expected@.len() && some_issue
            &&& step matches WatchStep::Done(found) ==> found == snapshot && agents.len()
                == expected@.len()
        }),
{
    let agents = snapshot.agents@;
    let counts = Seq::new(agents.len(), |i: int| agents[i].slots_total);
    assert(counts =~= slot_counts(agents));
    counts.to_multiset_ensures();
    expected@.to_multiset_ensures();
    if any_issues(agents) {
        let i = choose|i: int| 0 <= i < agents.len() && has_issues(#[trigger] agents[i]);
        lemma_an_issue(agents[i].issues@);
        let issue = choose|issue: AgentIssueView| agents[i].issues@.contains(issue);
        assert(agents[i].issues@.contains(issue));
    }
    if exists|i: int, issue: AgentIssueView|
        0 <= i < agents.len() && #[trigger] agents[i].issues@.contains(issue) {
        let (i, issue) = choose|i: int, issue: AgentIssueView|
            0 <= i < agents.len() && #[trigger] agents[i].issues@.contains(issue);
        assert(has_issues(agents[i]));
    }
}

proof fn lemma_an_issue(issues: Set<AgentIssueView>)
    requires
        issues != Set::<AgentIssueView>::empty(),
    ensures
        exists|issue: AgentIssueView| issues.contains(issue),
{
    if !(exists|issue: AgentIssueView| issues.contains(issue)) {
        assert(issues =~= Set::<AgentIssueView>::empty());
    }
}

/// A watch for slots that fails reports every agent that has an issue, and no other.
pub proof fn every_agent_with_issues_is_reported(
    expected: &Vec<i32>,
    snapshot: AgentControllerPoolSnapshot,
    reports: Vec<ReportedIssues>,
    i: int,
)
    requires
        call_ensures(
            wait_for_slots_ready,
            (expected, WatchEvent::Snapshot(snapshot)),
            WatchStep::Failed(WatchError::IssuesReported(reports)),
        ),
    ensures
        0 <= i < snapshot.agents@.len() && snapshot.agents@[i].issues@ != Set::<
            AgentIssueView,
        >::empty() ==> exists|j: int|
            0 <= j < reports@.len() && (#[trigger] reports@[j]).agent_id == snapshot.agents@[i].id
                && is_issues_text(reports@[j].issues@, snapshot.agents@[i].issues@),
        0 <= i < reports@.len() ==> exists|j: int|
            0 <= j < snapshot.agents@.len() && (#[trigger] snapshot.agents@[j]).id
                == reports@[i].agent_id && snapshot.agents@[j].issues@ != Set::<
                AgentIssueView,
            >::empty(),
{
    let agents = snapshot.agents@;
    let everyone = |agent: AgentControllerSnapshot| true;
    let fails = |agent: AgentControllerSnapshot| everyone(agent) && has_issues(agent);
    let failing = agents.filter(fails);
    broadcast use vstd::seq_lib::group_filter_ensures;

    assert(are_reports(reports@, agents, everyone));
    if 0 <= i < agents.len() && agents[i].issues@ != Set::<AgentIssueView>::empty() {
        assert(fails(agents[i]));
        assert(failing.contains(agents[i]));
        let j = choose|j: int| 0 <= j < failing.len() && failing[j] == agents[i];
        assert(reports@[j].agent_id == agents[i].id);
    }
    if 0 <= i < reports@.len() {
        assert(fails(failing[i]));
        lemma_filter_keeps_members(agents, fails, i);
        let j = choose|j: int| 0 <= j < agents.len() && agents[j] == failing[i];
        assert(agents[j].id == reports@[i].agent_id);
    }
}

proof fn lemma_filter_keeps_members(
    agents: Seq<AgentControllerSnapshot>,
    pred: spec_fn(AgentControllerSnapshot) -> bool,
    i: int,
)
    requires
        0 <= i < agents.filter(pred).len(),
    ensures
        exists|j: int| 0 <= j < agents.len() && #[trigger] agents[j] == agents.filter(pred)[i],
    decreases agents.len(),
{
    reveal(Seq::filter);
    if agents.len() > 0 {
        let shorter = agents.drop_last();
        if i < shorter.filter(pred).len() {
            lemma_filter_keeps_members(shorter, pred, i);
            let j = choose|j: int|
                0 <= j < shorter.len() && #[trigger] shorter[j] == shorter.filter(pred)[i];
            assert(agents[j] == agents.filter(pred)[i]);
        } else {
            assert(agents[agents.len() - 1] == agents.filter(pred)[i]);
        }
    }
}

/// A watch for an agent fails exactly if an agent of that name has an issue, and is
/// successful exactly if none has and one has the expected number of slots. What other
/// agents do does not matter.
pub proof fn an_agent_is_ready_when_it_has_its_slots(
    agent_name: &String,
    expected_slot_count: i32,
    snapshot: AgentControllerPoolSnapshot,
    step: WatchStep,
)
    requires
        call_ensures(
            wait_for_agent_ready,
            (agent_name, expected_slot_count, WatchEvent::Snapshot(snapshot)),
            step,
        ),
    ensures
        ({
            let agents = snapshot.agents@;
            let some_fails = exists|i: int|
                0 <= i < agents.len() && (#[trigger] agents[i]).name is Some
                    && agents[i].name->Some_0@ == agent_name@ && agents[i].issues@ != Set::<
                    AgentIssueView,
                >::empty();
            let some_has_its_slots = exists|i: int|
                0 <= i < agents.len() && (#[trigger] agents[i]).name is Some
                    && agents[i].name->Some_0@ == agent_name@ && agents[i].slots_total
                    == expected_slot_count;
            &&& step is Failed <==> some_fails
            &&& step is Done <==> !some_fails && some_has_its_slots
            &&& step matches WatchStep::Done(found) ==> found == snapshot
        }),
{
    let agents = snapshot.agents@;
    if is_settled(agents, agent_name@, expected_slot_count) {
        let i = choose|i: int|
            0 <= i < agents.len() && is_named(#[trigger] agents[i], agent_name@) && (
            agents[i].slots_total == expected_slot_count || has_issues(agents[i]));
        assert(agents[i].name is Some);
    }
    assert forall|i: int|
        0 <= i < agents.len() && (#[trigger] agents[i]).name is Some && agents[i].name->Some_0@
            == agent_name@ implies is_named(agents[i], agent_name@) by {};
}

/// A watch for an agent waits on for no agent that is gone: it fails, and says which
/// agent it was, exactly if no agent has the id.
pub proof fn an_agent_that_is_gone_ends_the_watch<TPredicate>(
    agent_id: &String,
    snapshot: AgentControllerPoolSnapshot,
    predicate: TPredicate,
    step: WatchStep,
) where TPredicate: Fn(&AgentControllerPoolSnapshot) -> bool,
    requires
        call_ensures(
            until_agent::<TPredicate>,
            (agent_id, WatchEvent::Snapshot(snapshot), predicate),
            step,
        ),
    ensures
        step is Failed <==> forall|i: int|
            0 <= i < snapshot.agents@.len() ==> (#[trigger] snapshot.agents@[i]).id@ != agent_id@,
        step matches WatchStep::Failed(error) ==> error == WatchError::AgentDisappeared(*agent_id),
        step matches WatchStep::Done(found) ==> found == snapshot && predicate.ensures(
            (&snapshot,),
            true,
        ),
        step is Wait ==> predicate.ensures((&snapshot,), false),
{
}

/// What ends a watch before its time is what is told: an event that is no snapshot is a
/// failure of its own sort, with what is known of it.
pub proof fn an_interrupted_watch_says_why(
    expected: &Vec<i32>,
    agent_name: &String,
    expected_slot_count: i32,
    event: WatchEvent,
    slots_step: WatchStep,
    agent_step: WatchStep,
)
    requires
        call_ensures(wait_for_slots_ready, (expected, event), slots_step),
        call_ensures(wait_for_agent_ready, (agent_name, expected_slot_count, event), agent_step),
        !(event is Snapshot),
    ensures
        slots_step == agent_step,
        event matches WatchEvent::StreamError(error) ==> slots_step == WatchStep::Failed(
            WatchError::StreamError(error),
        ),
        event is Closed ==> slots_step == WatchStep::Failed(WatchError::Closed),
        event matches WatchEvent::TimedOut(window, cause) ==> slots_step == WatchStep::Failed(
            WatchError::TimedOut(window, cause),
        ),
{
}

/// Issues are told one after the other, with a comma between them: what is told of a
/// further one follows what is told of those before it.
pub proof fn issues_are_told_one_after_the_other(issues: Seq<AgentIssue>, further: AgentIssue)
    ensures
        joined_issues(Seq::empty()).len() == 0,
        joined_issues(seq![further]) == issue_text(further),
        issues.len() > 0 ==> joined_issues(issues.push(further)) == joined_issues(issues) + ", "@
            + issue_text(further),
{
    assert(issues.push(further).drop_last() =~= issues);
}

proof fn lemma_issue_text_begins(issue: AgentIssue)
    ensures
        issue_text(issue).len() > 5,
        issue_text(issue)[0] == (match issue {
            AgentIssue::SlotCannotStart(_) => 'S',
            AgentIssue::UnableToFindChatTemplate(_) => 'U',
            _ => 'M',
        }),
        issue is ModelCannotBeLoaded ==> issue_text(issue)[5] == 'C',
        issue is ModelFileDoesNotExist ==> issue_text(issue)[5] == 'F',
{
    reveal_strlit("ModelCannotBeLoaded(ModelPath { model_path: ");
    reveal_strlit("ModelFileDoesNotExist(ModelPath { model_path: ");
    reveal_strlit("SlotCannotStart(SlotCannotStartParams { error: ");
    reveal_strlit("UnableToFindChatTemplate(ModelPath { model_path: ");
    if let AgentIssue::SlotCannotStart(params) = issue {
        let prefix = "SlotCannotStart(SlotCannotStartParams { error: "@;
        let front = prefix + quoted_text(params.error@);
        assert(issue_text(issue)[0] == front[0]);
    }
}

/// Issues of different sorts are told differently, whatever they are about; issues of
/// one sort about a model are told alike exactly if the path is told alike.
pub proof fn sorts_of_issues_are_told_apart(left: AgentIssue, right: AgentIssue)
    requires
        issue_text(left) == issue_text(right),
    ensures
        left is ModelCannotBeLoaded <==> right is ModelCannotBeLoaded,
        left is ModelFileDoesNotExist <==> right is ModelFileDoesNotExist,
        left is SlotCannotStart <==> right is SlotCannotStart,
        left is UnableToFindChatTemplate <==> right is UnableToFindChatTemplate,
        !(left is SlotCannotStart) ==> quoted_text(left@.subject()) == quoted_text(
            right@.subject(),
        ),
{
    lemma_issue_text_begins(left);
    lemma_issue_text_begins(right);
    if !(left is SlotCannotStart) {
        let prefix = match left {
            AgentIssue::ModelCannotBeLoaded(_) => "ModelCannotBeLoaded(ModelPath { model_path: "@,
            AgentIssue::ModelFileDoesNotExist(
                _,
            ) => "ModelFileDoesNotExist(ModelPath { model_path: "@,
            _ => "UnableToFindChatTemplate(ModelPath { model_path: "@,
        };
        let suffix = " })"@;
        let first = quoted_text(left@.subject());
        let second = quoted_text(right@.subject());
        assert(issue_text(left) == prefix + first + suffix);
        assert(issue_text(right) == prefix + second + suffix);
        assert((prefix + first + suffix).len() == (prefix + second + suffix).len());
        let end = (prefix.len() + first.len()) as int;
        assert((prefix + first + suffix).subrange(prefix.len() as int, end) =~= first);
        assert((prefix + second + suffix).subrange(prefix.len() as int, end) =~= second);
    }
}

/// A watch ends with a snapshot exactly if the predicate says so of it, and waits on
/// exactly if it does not.
pub proof fn a_watch_ends_when_its_predicate_says_so<TPredicate>(
    snapshot: AgentControllerPoolSnapshot,
    predicate: TPredicate,
    step: WatchStep,
) where TPredicate: Fn(&AgentControllerPoolSnapshot) -> bool,
    requires
        call_ensures(until::<TPredicate>, (WatchEvent::Snapshot(snapshot), predicate), step),
    ensures
        step matches WatchStep::Done(found) ==> found == snapshot && predicate.ensures(
            (&snapshot,),
            true,
        ),
        step is Wait ==> predicate.ensures((&snapshot,), false),
        !(step is Failed),
{
}

/// What ended a watch is told with all that is known of it, and who waited says for what.
pub proof fn a_failed_watch_says_what_happened(
    error: &WatchError,
    message: String,
    agent_name: &str,
    agent_message: String,
    slots_message: String,
)
    requires
        call_ensures(WatchError::message, (error,), message),
        call_ensures(WatchError::agent_readiness_message, (error, agent_name), agent_message),
        call_ensures(WatchError::slot_counts_message, (error,), slots_message),
    ensures
        *error matches WatchError::StreamError(cause) ==> message@
            == "agents stream yielded an error: "@ + cause@,
        *error is Closed ==> message@ == "agents stream closed before predicate was satisfied"@,
        *error matches WatchError::AgentDisappeared(id) ==> message@ == "agent "@ + id@
            + " disappeared from the balancer's agent pool before the predicate was satisfied; this means the agent subprocess died or its WebSocket dropped"@,
        !(*error is IssuesReported) ==> agent_message@ == "agent "@ + quoted_text(agent_name@)
            + " did not reach slot readiness: "@ + message@,
        !(*error is IssuesReported) ==> slots_message@
            == "agents did not reach the requested slot counts: "@ + message@,
        *error is IssuesReported ==> slots_message@ == message@,
        *error matches WatchError::TimedOut(window, cause) ==> message@
            == "agents stream did not satisfy the predicate within "@ + window@ + ": "@ + cause@,
        *error matches WatchError::AgentTimedOut(id, window, cause) ==> message@ == "agent "@ + id@
            + " did not satisfy the predicate within "@ + window@ + ": "@ + cause@,
{
}

/// A watch for an agent that fails reports the first agent of that name that has an issue,
/// and no other.
pub proof fn the_first_failing_agent_is_reported(
    agent_name: &String,
    expected_slot_count: i32,
    snapshot: AgentControllerPoolSnapshot,
    error: WatchError,
    first: int,
)
    requires
        call_ensures(
            wait_for_agent_ready,
            (agent_name, expected_slot_count, WatchEvent::Snapshot(snapshot)),
            WatchStep::Failed(error),
        ),
        0 <= first < snapshot.agents@.len(),
        is_named(snapshot.agents@[first], agent_name@),
        has_issues(snapshot.agents@[first]),
        forall|i: int|
            0 <= i < first ==> !(is_named(#[trigger] snapshot.agents@[i], agent_name@)
                && has_issues(snapshot.agents@[i])),
    ensures
        error matches WatchError::IssuesReported(reports) && reports@.len() == 1
            && reports@[0].agent_id == snapshot.agents@[first].id && is_issues_text(
            reports@[0].issues@,
            snapshot.agents@[first].issues@,
        ),
{
}

/// An agent is named by its own name alone, and has issues exactly if some issue is among
/// them.
pub proof fn agents_are_named_by_their_own_names(
    agent: AgentControllerSnapshot,
    name: Seq<char>,
    issue: AgentIssueView,
)
    ensures
        is_named(agent, name) <==> text_of(agent.name) == Some(name),
        agent.issues@.contains(issue) ==> has_issues(agent),
        has_issues(agent) ==> exists|some: AgentIssueView| agent.issues@.contains(some),
{
    if has_issues(agent) {
        lemma_an_issue(agent.issues@);
    }
}

/// A watch that is interrupted says why, and one for an agent says for which agent it took
/// too long.
pub proof fn an_interrupted_watch_with_a_predicate_says_why<TPredicate>(
    agent_id: &String,
    event: WatchEvent,
    predicate: TPredicate,
    step: WatchStep,
    agent_step: WatchStep,
) where TPredicate: Fn(&AgentControllerPoolSnapshot) -> bool,
    requires
        call_ensures(until::<TPredicate>, (event, predicate), step),
        call_ensures(until_agent::<TPredicate>, (agent_id, event, predicate), agent_step),
        !(event is Snapshot),
    ensures
        event matches WatchEvent::StreamError(error) ==> step == WatchStep::Failed(
            WatchError::StreamError(error),
        ) && agent_step == step,
        event is Closed ==> step == WatchStep::Failed(WatchError::Closed) && agent_step == step,
        event matches WatchEvent::TimedOut(window, cause) ==> step == WatchStep::Failed(
            WatchError::TimedOut(window, cause),
        ) && agent_step == WatchStep::Failed(WatchError::AgentTimedOut(*agent_id, window, cause)),
{
}

} // verus!
