//! What the front end shows of a running balancer.
use vstd::prelude::*;

use crate::balancer::agent_controller_pool::lemma_as_many_ids_as_agents;
use crate::balancer::agent_controller_pool::lists_agents;
use crate::balancer::agent_controller_pool::snapshot_shows;
use crate::balancer::agent_controller_pool::AgentControllerPool;
use crate::balancer::reconciliation_service::BalancerApplicableState;
use crate::balancer::reconciliation_service::BalancerApplicableStateHolder;
use crate::balancer::reconciliation_service::BalancerDesiredState;
use crate::messaging::agent_controller_snapshot::AgentControllerSnapshot;
use crate::messaging::agent_state_application_status::AgentStateApplicationStatus;
use crate::messaging::agent_state_application_status::InvalidAgentStateApplicationStatus;

verus! {

/// The agents of a balancer, and the states it is in and was asked to be in.
#[derive(Debug)]
pub struct RunningBalancerSnapshot {
    pub agent_snapshots: Vec<AgentControllerSnapshot>,
    pub balancer_applicable_state: Option<BalancerApplicableState>,
    pub balancer_desired_state: BalancerDesiredState,
}

/// Why there is nothing to show: the state of some agent has no valid status code.
#[derive(Clone, Copy, Debug, PartialEq, Eq, Structural)]
pub struct SnapshotFailure {
    pub cause: InvalidAgentStateApplicationStatus,
}

impl SnapshotFailure {
    /// The error as a message.
    pub fn message(&self) -> (text: &'static str)
        ensures
            text@ == "Failed to collect agent controller snapshots"@,
    {
        "Failed to collect agent controller snapshots"
    }
}

/// Whether one text stands before another, or is the same: they are compared
/// byte by byte.
pub open spec fn bytes_ordered(left: Seq<u8>, right: Seq<u8>) -> bool
    decreases left.len(),
{
    if left.len() == 0 {
        true
    } else if right.len() == 0 {
        false
    } else if left[0] != right[0] {
        left[0] < right[0]
    } else {
        bytes_ordered(
            left.subrange(1, left.len() as int),
            right.subrange(1, right.len() as int),
        )
    }
}

/// What an agent is called: by its name, or by its id where it has none.
pub open spec fn label_of(agent: AgentControllerSnapshot) -> Seq<char> {
    match agent.name {
        Some(name) => name@,
        None => agent.id@,
    }
}

/// Whether one agent stands before another in a list that is ordered by what
/// they are called.
pub open spec fn labels_ordered(
    left: AgentControllerSnapshot,
    right: AgentControllerSnapshot,
) -> bool {
    bytes_ordered(
        vstd::utf8::encode_utf8(label_of(left)),
        vstd::utf8::encode_utf8(label_of(right)),
    )
}

/// Whether the agents are ordered by what they are called.
pub open spec fn is_ordered(agents: Seq<AgentControllerSnapshot>) -> bool {
    forall|i: int, j: int|
        0 <= i < j < agents.len() ==> #[trigger] labels_ordered(agents[i], agents[j])
}

proof fn lemma_order_is_total(left: Seq<u8>, right: Seq<u8>)
    ensures
        bytes_ordered(left, right) || bytes_ordered(right, left),
    decreases left.len(),
{
    if left.len() > 0 && right.len() > 0 && left[0] == right[0] {
        lemma_order_is_total(
            left.subrange(1, left.len() as int),
            right.subrange(1, right.len() as int),
        );
    }
}

proof fn lemma_order_is_transitive(first: Seq<u8>, second: Seq<u8>, third: Seq<u8>)
    requires
        bytes_ordered(first, second),
        bytes_ordered(second, third),
    ensures
        bytes_ordered(first, third),
    decreases first.len(),
{
    if first.len() > 0 && second.len() > 0 && third.len() > 0 && first[0] == second[0] && second[0]
        == third[0] {
        lemma_order_is_transitive(
            first.subrange(1, first.len() as int),
            second.subrange(1, second.len() as int),
            third.subrange(1, third.len() as int),
        );
    }
}

proof fn lemma_order_of_same_start(left: Seq<u8>, right: Seq<u8>, count: int)
    requires
        0 <= count <= left.len(),
        count <= right.len(),
        forall|i: int| 0 <= i < count ==> left[i] == right[i],
    ensures
        bytes_ordered(left, right) == bytes_ordered(
            left.subrange(count, left.len() as int),
            right.subrange(count, right.len() as int),
        ),
    decreases count,
{
    if count == 0 {
        assert(left.subrange(0, left.len() as int) =~= left);
        assert(right.subrange(0, right.len() as int) =~= right);
    } else {
        let left_rest = left.subrange(1, left.len() as int);
        let right_rest = right.subrange(1, right.len() as int);
        lemma_order_of_same_start(left_rest, right_rest, count - 1);
        assert(left_rest.subrange(count - 1, left_rest.len() as int) =~= left.subrange(
            count,
            left.len() as int,
        ));
        assert(right_rest.subrange(count - 1, right_rest.len() as int) =~= right.subrange(
            count,
            right.len() as int,
        ));
    }
}

/// Whether one text stands before another, or is the same.
pub fn is_before_or_same(left: &str, right: &str) -> (ordered: bool)
    ensures
        ordered == bytes_ordered(
            vstd::utf8::encode_utf8(left@),
            vstd::utf8::encode_utf8(right@),
        ),
{
    let left_bytes = left.as_bytes();
    let right_bytes = right.as_bytes();
    let mut i: usize = 0;
    while i < left_bytes.len() && i < right_bytes.len()
        invariant
            left_bytes@ == vstd::utf8::encode_utf8(left@),
            right_bytes@ == vstd::utf8::encode_utf8(right@),
            i <= left_bytes@.len(),
            i <= right_bytes@.len(),
            forall|j: int| 0 <= j < i ==> left_bytes@[j] == right_bytes@[j],
        decreases left_bytes@.len() - i,
    {
        if left_bytes[i] != right_bytes[i] {
            proof {
                lemma_order_of_same_start(left_bytes@, right_bytes@, i as int);
                assert(left_bytes@.subrange(i as int, left_bytes@.len() as int)[0]
                    == left_bytes@[i as int]);
                assert(right_bytes@.subrange(i as int, right_bytes@.len() as int)[0]
                    == right_bytes@[i as int]);
            }
            return left_bytes[i] < right_bytes[i];
        }
        i = i + 1;
    }
    proof {
        lemma_order_of_same_start(left_bytes@, right_bytes@, i as int);
    }
    i == left_bytes.len()
}

/// What an agent is called.
pub fn label(agent: &AgentControllerSnapshot) -> (label: &str)
    ensures
        label@ == label_of(*agent),
{
    match &agent.name {
        Some(name) => name.as_str(),
        None => agent.id.as_str(),
    }
}

/// The agents that are called `label`, in their order.
pub open spec fn called(
    agents: Seq<AgentControllerSnapshot>,
    label: Seq<char>,
) -> Seq<AgentControllerSnapshot> {
    agents.filter(|agent: AgentControllerSnapshot| label_of(agent) == label)
}

/// Orders agents by what they are called. Agents that are called the same stay
/// in the order they had.
pub fn sort_by_label(agents: Vec<AgentControllerSnapshot>) -> (sorted: Vec<AgentControllerSnapshot>)
    ensures
        is_ordered(sorted@),
        sorted@.to_multiset() == agents@.to_multiset(),
        forall|label: Seq<char>| #[trigger]
            called(sorted@, label) == called(agents@, label),
{
    let mut rest = agents;
    let ghost all = rest@;
    let mut sorted: Vec<AgentControllerSnapshot> = Vec::new();
    proof {
        assert(sorted@ + rest@ =~= all);
    }
    while rest.len() > 0
        invariant
            is_ordered(sorted@),
            (sorted@ + rest@).to_multiset() == all.to_multiset(),
            forall|label: Seq<char>| #[trigger]
                called(sorted@ + rest@, label) == called(all, label),
        decreases rest.len(),
    {
        let ghost pending = rest@;
        let agent = rest.remove(0);
        let mut place: usize = 0;
        while place < sorted.len() && is_before_or_same(label(&sorted[place]), label(&agent))
            invariant
                place <= sorted@.len(),
                forall|i: int|
                    0 <= i < place ==> labels_ordered(#[trigger] sorted@[i], agent),
            decreases sorted@.len() - place,
        {
            place = place + 1;
        }
        let ghost before = sorted@;
        let ghost inserted = agent;
        sorted.insert(place, agent);
        proof {
            if place < before.len() {
                lemma_order_is_total(
                    vstd::utf8::encode_utf8(label_of(inserted)),
                    vstd::utf8::encode_utf8(label_of(before[place as int])),
                );
                assert(labels_ordered(inserted, before[place as int]));
            }
            assert forall|i: int, j: int| 0 <= i < j < sorted@.len() implies #[trigger]
                labels_ordered(sorted@[i], sorted@[j]) by {
                if i < place && j < place {
                    assert(labels_ordered(before[i], before[j]));
                } else if i < place && j == place {
                    assert(labels_ordered(before[i], inserted));
                } else if i < place {
                    assert(labels_ordered(before[i], before[j - 1]));
                } else if i == place {
                    if j - 1 > place {
                        assert(labels_ordered(before[place as int], before[j - 1]));
                        lemma_order_is_transitive(
                            vstd::utf8::encode_utf8(label_of(inserted)),
                            vstd::utf8::encode_utf8(label_of(before[place as int])),
                            vstd::utf8::encode_utf8(label_of(before[j - 1])),
                        );
                    }
                } else {
                    assert(labels_ordered(before[i - 1], before[j - 1]));
                }
            };
            let left = before.subrange(0, place as int);
            let right = before.subrange(place as int, before.len() as int);
            assert(before =~= left + right);
            assert(sorted@ =~= left.push(inserted) + right);
            assert(pending =~= seq![inserted] + rest@);
            lemma_moved_multiset(left, right, rest@, inserted);
            assert(before + pending =~= left + right + (seq![inserted] + rest@));
            assert forall|i: int| 0 <= i < right.len() implies label_of(#[trigger] right[i])
                != label_of(inserted) by {
                if i > 0 {
                    assert(labels_ordered(before[place as int], before[place + i]));
                }
            };
            assert forall|label: Seq<char>| #[trigger]
                called(sorted@ + rest@, label) == called(all, label) by {
                lemma_moved_called(left, right, rest@, inserted, label);
                assert(sorted@ + rest@ =~= left.push(inserted) + right + rest@);
                assert(called(before + pending, label) == called(all, label));
            };
        }
    }
    proof {
        assert(sorted@ + rest@ =~= sorted@);
    }
    sorted
}

proof fn lemma_moved_multiset(
    left: Seq<AgentControllerSnapshot>,
    right: Seq<AgentControllerSnapshot>,
    rest: Seq<AgentControllerSnapshot>,
    agent: AgentControllerSnapshot,
)
    ensures
        (left.push(agent) + right + rest).to_multiset() == (left + right + (seq![agent]
            + rest)).to_multiset(),
{
    vstd::seq_lib::lemma_multiset_commutative(left.push(agent) + right, rest);
    vstd::seq_lib::lemma_multiset_commutative(left.push(agent), right);
    vstd::seq_lib::lemma_multiset_commutative(left + right, seq![agent] + rest);
    vstd::seq_lib::lemma_multiset_commutative(left, right);
    vstd::seq_lib::lemma_multiset_commutative(seq![agent], rest);
    vstd::seq_lib::lemma_multiset_commutative(left, seq![agent]);
    assert(left.push(agent) =~= left + seq![agent]);
    assert((left.push(agent) + right + rest).to_multiset() =~= (left + right + (seq![agent]
        + rest)).to_multiset());
}

proof fn lemma_moved_called(
    left: Seq<AgentControllerSnapshot>,
    right: Seq<AgentControllerSnapshot>,
    rest: Seq<AgentControllerSnapshot>,
    agent: AgentControllerSnapshot,
    label: Seq<char>,
)
    requires
        forall|i: int|
            0 <= i < right.len() ==> label_of(#[trigger] right[i]) != label_of(agent),
    ensures
        called(left.push(agent) + right + rest, label) == called(
            left + right + (seq![agent] + rest),
            label,
        ),
{
    let is_called = |other: AgentControllerSnapshot| label_of(other) == label;
    let one = seq![agent];
    Seq::filter_distributes_over_add(left.push(agent) + right, rest, is_called);
    Seq::filter_distributes_over_add(left.push(agent), right, is_called);
    Seq::filter_distributes_over_add(left, one, is_called);
    Seq::filter_distributes_over_add(left + right, one + rest, is_called);
    Seq::filter_distributes_over_add(left, right, is_called);
    Seq::filter_distributes_over_add(one, rest, is_called);
    assert(left.push(agent) =~= left + one);
    if label == label_of(agent) {
        lemma_none_called(right, label);
    } else {
        lemma_none_called(one, label);
    }
    assert(called(left.push(agent) + right + rest, label) =~= called(
        left + right + (one + rest),
        label,
    ));
}

proof fn lemma_none_called(agents: Seq<AgentControllerSnapshot>, label: Seq<char>)
    requires
        forall|i: int| 0 <= i < agents.len() ==> label_of(#[trigger] agents[i]) != label,
    ensures
        called(agents, label) == Seq::<AgentControllerSnapshot>::empty(),
    decreases agents.len(),
{
    reveal(Seq::filter);
    if agents.len() > 0 {
        assert forall|i: int| 0 <= i < agents.drop_last().len() implies label_of(
            #[trigger] agents.drop_last()[i],
        ) != label by {
            assert(agents.drop_last()[i] == agents[i]);
        };
        lemma_none_called(agents.drop_last(), label);
        assert(label_of(agents[agents.len() - 1]) != label);
    }
    assert(called(agents, label) =~= Seq::<AgentControllerSnapshot>::empty());
}

/// Whether `agents` are the snapshots of the agents of the pool, in some order.
pub open spec fn shows_pool(agents: Seq<AgentControllerSnapshot>, pool: AgentControllerPool) -> bool {
    exists|collected: Seq<AgentControllerSnapshot>, ids: Seq<Seq<char>>|
        {
            &&& #[trigger] lists_agents(ids, pool@.agents)
            &&& #[trigger] collected.to_multiset() == agents.to_multiset()
            &&& collected.len() == ids.len()
            &&& forall|i: int|
                0 <= i < ids.len() ==> snapshot_shows(pool@.agents[ids[i]], #[trigger] collected[i])
        }
}

impl RunningBalancerSnapshot {
    /// What is to be shown of a balancer: its agents, ordered by what they are
    /// called, and its states.
    pub fn build(
        agent_controller_pool: &AgentControllerPool,
        balancer_applicable_state_holder: &BalancerApplicableStateHolder,
        balancer_desired_state: BalancerDesiredState,
    ) -> (result: Result<RunningBalancerSnapshot, SnapshotFailure>)
        requires
            agent_controller_pool.wf(),
        ensures
            match result {
                Ok(snapshot) => {
                    &&& is_ordered(snapshot.agent_snapshots@)
                    &&& shows_pool(snapshot.agent_snapshots@, *agent_controller_pool)
                    &&& snapshot.balancer_applicable_state == balancer_applicable_state_holder@
                    &&& snapshot.balancer_desired_state == balancer_desired_state
                },
                Err(failure) => exists|id: Seq<char>|
                    {
                        &&& #[trigger] agent_controller_pool@.agents.contains_key(id)
                        &&& agent_controller_pool@.agents[id].state_application_status_code
                            == failure.cause.value
                        &&& AgentStateApplicationStatus::of_code(failure.cause.value) is None
                    },
            },
    {
        let collected = match agent_controller_pool.make_snapshot() {
            Ok(snapshot) => snapshot.agents,
            Err(cause) => {
                return Err(SnapshotFailure { cause });
            },
        };
        let ghost before = collected@;
        let agent_snapshots = sort_by_label(collected);
        assert(shows_pool(agent_snapshots@, *agent_controller_pool)) by {
            let ids = choose|ids: Seq<Seq<char>>|
                {
                    &&& #[trigger] lists_agents(ids, agent_controller_pool@.agents)
                    &&& before.len() == ids.len()
                    &&& forall|i: int|
                        0 <= i < ids.len() ==> snapshot_shows(
                            agent_controller_pool@.agents[ids[i]],
                            #[trigger] before[i],
                        )
                };
            assert(lists_agents(ids, agent_controller_pool@.agents));
            assert(before.to_multiset() == agent_snapshots@.to_multiset());
        };
        Ok(
            RunningBalancerSnapshot {
                agent_snapshots,
                balancer_applicable_state:
                    balancer_applicable_state_holder.get_balancer_applicable_state(),
                balancer_desired_state,
            },
        )
    }
}

impl Default for RunningBalancerSnapshot {
    fn default() -> (snapshot: Self)
        ensures
            snapshot.agent_snapshots@.len() == 0,
            snapshot.balancer_applicable_state is None,
            snapshot.balancer_desired_state.model is Unset,
            snapshot.balancer_desired_state.others@ == Seq::<char>::empty(),
    {
        RunningBalancerSnapshot {
            agent_snapshots: Vec::new(),
            balancer_applicable_state: None,
            balancer_desired_state: BalancerDesiredState::default(),
        }
    }
}

/// A text stands before every longer text that begins with it, and of two texts that go on
/// differently the one with the lesser byte stands before the other, and not after it.
pub proof fn bytes_are_ordered_as_in_a_dictionary(
    common: Seq<u8>,
    left: u8,
    left_rest: Seq<u8>,
    right: u8,
    right_rest: Seq<u8>,
)
    ensures
        bytes_ordered(common, common),
        bytes_ordered(common, common + seq![right] + right_rest),
        !bytes_ordered(common + seq![right] + right_rest, common),
        left < right ==> bytes_ordered(
            common + seq![left] + left_rest,
            common + seq![right] + right_rest,
        ),
        left < right ==> !bytes_ordered(
            common + seq![right] + right_rest,
            common + seq![left] + left_rest,
        ),
{
    let count = common.len() as int;
    let lesser = common + seq![left] + left_rest;
    let longer = common + seq![right] + right_rest;
    lemma_order_of_same_start(common, common, count);
    lemma_order_of_same_start(common, longer, count);
    lemma_order_of_same_start(longer, common, count);
    lemma_order_of_same_start(lesser, longer, count);
    lemma_order_of_same_start(longer, lesser, count);
    assert(longer.subrange(count, longer.len() as int)[0] == right);
    assert(lesser.subrange(count, lesser.len() as int)[0] == left);
}

/// Agents are called by their names, and by their ids where they have none.
pub proof fn agents_are_called_by_their_names(agent: &AgentControllerSnapshot, text: &str)
    requires
        call_ensures(label, (agent,), text),
    ensures
        agent.name matches Some(name) ==> text@ == name@,
        agent.name is None ==> text@ == agent.id@,
{
}

/// Sorting keeps every agent as often as it was there, and puts each that is called
/// something lesser before each that is called something greater. Agents that are called
/// the same stay in their order.
pub proof fn sorted_agents_are_the_same_agents(
    agents: Vec<AgentControllerSnapshot>,
    sorted: Vec<AgentControllerSnapshot>,
    i: int,
    j: int,
    left: &str,
    right: &str,
    ordered: bool,
)
    requires
        call_ensures(sort_by_label, (agents,), sorted),
        0 <= i < j < sorted@.len(),
        call_ensures(label, (&sorted@[i],), left),
        call_ensures(label, (&sorted@[j],), right),
        call_ensures(is_before_or_same, (left, right), ordered),
    ensures
        ordered,
        sorted@.len() == agents@.len(),
        sorted@.to_multiset() == agents@.to_multiset(),
        sorted@.filter(|agent: AgentControllerSnapshot| label_of(agent) == left@) == agents@.filter(
            |agent: AgentControllerSnapshot| label_of(agent) == left@,
        ),
{
    assert(called(sorted@, left@) == called(agents@, left@));
    assert(labels_ordered(sorted@[i], sorted@[j]));
    sorted@.to_multiset_ensures();
    agents@.to_multiset_ensures();
}

/// What is shown of a balancer are all of its agents, each as it is and each once, and
/// the states that it is in and was asked to be in.
pub proof fn a_balancer_is_shown_with_all_its_agents(
    pool: &AgentControllerPool,
    holder: &BalancerApplicableStateHolder,
    desired_state: BalancerDesiredState,
    result: Result<RunningBalancerSnapshot, SnapshotFailure>,
    id: Seq<char>,
)
    requires
        call_ensures(RunningBalancerSnapshot::build, (pool, holder, desired_state), result),
    ensures
        result matches Ok(snapshot) ==> {
            &&& snapshot.balancer_applicable_state == holder@
            &&& snapshot.balancer_desired_state == desired_state
            &&& snapshot.agent_snapshots@.len() == pool@.agents.dom().len()
            &&& pool@.agents.contains_key(id) ==> exists|i: int|
                {
                    let shown = #[trigger] snapshot.agent_snapshots@[i];
                    &&& 0 <= i < snapshot.agent_snapshots@.len()
                    &&& snapshot_shows(pool@.agents[id], shown)
                }
        },
        result matches Err(failure) ==> exists|id: Seq<char>| #[trigger]
            pool@.agents.contains_key(id) && pool@.agents[id].state_application_status_code
                == failure.cause.value,
{
    if let Ok(snapshot) = result {
        let (collected, ids) = choose|collected: Seq<AgentControllerSnapshot>, ids: Seq<Seq<char>>|
            {
                &&& #[trigger] lists_agents(ids, pool@.agents)
                &&& #[trigger] collected.to_multiset() == snapshot.agent_snapshots@.to_multiset()
                &&& collected.len() == ids.len()
                &&& forall|i: int|
                    0 <= i < ids.len() ==> snapshot_shows(
                        pool@.agents[ids[i]],
                        #[trigger] collected[i],
                    )
            };
        lemma_as_many_ids_as_agents(ids, pool@.agents);
        collected.to_multiset_ensures();
        snapshot.agent_snapshots@.to_multiset_ensures();
        if pool@.agents.contains_key(id) {
            assert(ids.contains(id));
            let k = choose|k: int| 0 <= k < ids.len() && ids[k] == id;
            let shown = collected[k];
            assert(snapshot_shows(pool@.agents[id], shown));
            assert(collected.contains(shown));
            assert(collected.to_multiset().contains(shown));
            assert(snapshot.agent_snapshots@.contains(shown));
        }
    }
}

} // verus!
