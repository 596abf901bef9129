//! Whether an agent has enough slots.
use vstd::prelude::*;

use crate::balancer::agent_controller_pool::AgentControllerPoolSnapshot;
use crate::messaging::agent_controller_snapshot::AgentControllerSnapshot;

verus! {

/// Whether one of the agents has the id and at least that many slots.
pub open spec fn has_slots(
    agents: Seq<AgentControllerSnapshot>,
    agent_id: Seq<char>,
    expected_slots_total: i32,
) -> bool {
    exists|i: int|
        0 <= i < agents.len() && (#[trigger] agents[i]).id@ == agent_id && agents[i].slots_total
            >= expected_slots_total
}

/// Whether one of the agents has the id and at least that many slots.
pub fn slots_total_at_least(
    snapshot: &AgentControllerPoolSnapshot,
    agent_id: &String,
    expected_slots_total: i32,
) -> (enough: bool)
    ensures
        enough == has_slots(snapshot.agents@, agent_id@, expected_slots_total),
{
    let mut i: usize = 0;
    while i < snapshot.agents.len()
        invariant
            i <= snapshot.agents.len(),
            forall|j: int|
                0 <= j < i ==> !((#[trigger] snapshot.agents@[j]).id@ == agent_id@
                    && snapshot.agents@[j].slots_total >= expected_slots_total),
        decreases snapshot.agents.len() - i,
    {
        if snapshot.agents[i].id == *agent_id && snapshot.agents[i].slots_total
            >= expected_slots_total {
            return true;
        }
        i = i + 1;
    }
    false
}

/// A predicate that holds of a snapshot in which the agent has at least that many
/// slots.
pub fn assert_slots_total_at_least(agent_id: &str, expected_slots_total: i32) -> (predicate: impl Fn(
    &AgentControllerPoolSnapshot,
) -> bool)
    ensures
        forall|snapshot: &AgentControllerPoolSnapshot| #[trigger] predicate.requires((snapshot,)),
        forall|snapshot: &AgentControllerPoolSnapshot, holds: bool| #[trigger]
            predicate.ensures((snapshot,), holds) ==> holds == has_slots(
                snapshot.agents@,
                agent_id@,
                expected_slots_total,
            ),
{
    let agent_id = String::from_str(agent_id);

    move |snapshot: &AgentControllerPoolSnapshot| -> (holds: bool)
        ensures
            holds == has_slots(snapshot.agents@, agent_id@, expected_slots_total),
        { slots_total_at_least(snapshot, &agent_id, expected_slots_total) }
}

/// An agent has enough slots exactly if it is there and has no fewer; where it has enough,
/// it has enough for whoever expects fewer.
pub proof fn whoever_expects_fewer_slots_has_enough(
    snapshot: &AgentControllerPoolSnapshot,
    agent_id: &String,
    expected: i32,
    enough: bool,
    fewer: i32,
    enough_for_fewer: bool,
    i: int,
)
    requires
        call_ensures(slots_total_at_least, (snapshot, agent_id, expected), enough),
        call_ensures(slots_total_at_least, (snapshot, agent_id, fewer), enough_for_fewer),
        fewer <= expected,
    ensures
        enough ==> enough_for_fewer,
        0 <= i < snapshot.agents@.len() && snapshot.agents@[i].id@ == agent_id@
            && snapshot.agents@[i].slots_total >= expected ==> enough,
        (forall|j: int|
            0 <= j < snapshot.agents@.len() ==> (#[trigger] snapshot.agents@[j]).id@ != agent_id@
                || snapshot.agents@[j].slots_total < expected) ==> !enough,
{
    if enough {
        let j = choose|j: int|
            0 <= j < snapshot.agents@.len() && (#[trigger] snapshot.agents@[j]).id@ == agent_id@
                && snapshot.agents@[j].slots_total >= expected;
        assert(snapshot.agents@[j].slots_total >= fewer);
    }
}

} // verus!
