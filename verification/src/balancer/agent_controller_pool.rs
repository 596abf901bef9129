//! The agents that are connected to the balancer, and the slots they have to spare.
use dashmap::DashMap;
use tokio::sync::mpsc;
use tokio::sync::watch;
use vstd::prelude::*;

use crate::balancer::agent_controller::AgentController;
use crate::balancer::agent_controller::AgentControllerUpdateResult;
use crate::balancer::agent_controller::AgentControllerView;
use crate::balancer::agent_controller::AgentRequestError;
use crate::balancer::agent_controller::AgentUnreachable;
use crate::balancer::agent_controller::oneshot_request_leaves;
use crate::balancer::agent_controller::request_message;
use crate::balancer::agent_controller::set_state_message;
use crate::balancer::agent_controller::snapshots_show_what_is_kept;
use crate::balancer::sender_collection::SenderCollection;
use crate::messaging::agent_controller_snapshot::AgentControllerSnapshot;
use crate::messaging::agent_state_application_status::AgentStateApplicationStatus;
use crate::messaging::agent_state_application_status::InvalidAgentStateApplicationStatus;
use crate::messaging::agent_state_application_status::accepted_codes_are_codes_of_a_status;
use crate::messaging::agent_state_application_status::codes_are_the_first_numbers;
use crate::messaging::messages::AgentDesiredState;
use crate::messaging::messages::AgentJsonRpcMessage;
use crate::messaging::messages::AgentJsonRpcNotification;
use crate::messaging::messages::AgentJsonRpcRequest;
use crate::messaging::messages::SetStateParams;
use crate::messaging::slot_aggregated_status_snapshot::SlotAggregatedStatusSnapshot;
use crate::messaging::tokens_per_second::TokensPerSecond;
use crate::outside::clone_agent_sender;
use crate::outside::is_identifier;
use crate::outside::is_received;
use crate::outside::messages_to_agent;
use crate::outside::no_messages_to_agent;
use crate::outside::number_map;
use crate::outside::number_map_get;
use crate::outside::number_map_insert;
use crate::outside::number_map_new;
use crate::outside::number_map_remove;
use crate::outside::queue_fed_by;
use crate::outside::send_update;
use crate::outside::subscribe;
use crate::outside::update_channel;
use crate::outside::updates_seen;
use crate::outside::updates_sent;
use crate::text::clone_text;
use crate::text::text_of;

verus! {

/// An agent with the id under which it is registered, and the number of its
/// registration.
struct PoolEntry {
    agent_id: String,
    controller: AgentController,
    registration: usize,
}

/// The agents that are connected to the balancer. Subscribers are told when the
/// pool or one of its agents changes.
pub struct AgentControllerPool {
    /// Where the agent with a given id stands in `entries`.
    agents: DashMap<String, usize>,
    /// How many slots are busy, by the number of the registration. A count outlives
    /// the stay of its agent in the pool.
    counts: Vec<i32>,
    entries: Vec<PoolEntry>,
    update_tx: watch::Sender<()>,
}

/// The content of a pool.
#[verifier::ext_equal]
pub ghost struct AgentControllerPoolView {
    /// The agents by the id under which they are registered.
    pub agents: Map<Seq<char>, AgentControllerView>,
    /// How many slots are busy, by the number of the registration.
    pub counts: Seq<i32>,
    /// The numbers of the registrations of the agents.
    pub registrations: Map<Seq<char>, int>,
    /// How often subscribers were told of a change.
    pub updates: nat,
}

/// An agent that had a slot to spare when it was looked at.
#[derive(Debug)]
pub struct DispatchCandidate {
    pub agent_id: String,
    /// A queue of its own to the agent, which outlives the stay of the agent in
    /// the pool.
    pub agent_message_tx: mpsc::UnboundedSender<AgentJsonRpcMessage>,
    pub connection: u64,
    pub name: Option<String>,
    /// The number of the registration of the agent.
    pub registration: usize,
    /// How many of its slots were busy.
    pub snapshot: i32,
}

/// An agent of which a slot was claimed. The slot is busy until it is given
/// back with [`AgentControllerPool::release`].
#[derive(Debug)]
pub struct DispatchedAgent {
    pub agent_id: String,
    /// A queue of its own to the agent, which outlives the stay of the agent in
    /// the pool.
    pub agent_message_tx: mpsc::UnboundedSender<AgentJsonRpcMessage>,
    pub connection: u64,
    pub name: Option<String>,
    /// The number of the registration of the agent.
    pub registration: usize,
}

impl DispatchCandidate {
    /// Whether this is the agent under its id in `pool`, as it is there, and
    /// nothing was sent to it yet.
    pub open spec fn shows(&self, pool: AgentControllerPoolView) -> bool {
        &&& pool.holds(self.agent_id@, self.registration as int)
        &&& self.connection == pool.agents[self.agent_id@].connection
        &&& text_of(self.name) == pool.agents[self.agent_id@].name
        &&& self.snapshot == pool.agents[self.agent_id@].slots_processing
        &&& queue_fed_by(self.agent_message_tx) == pool.agents[self.agent_id@].queue
        &&& messages_to_agent(self.agent_message_tx) == no_messages_to_agent()
    }
}

impl DispatchedAgent {
    /// Whether this is a claim on the agent under its id in `pool`, which messages
    /// reach through the queue of that agent, and to which nothing was sent yet.
    pub open spec fn is_new_claim_on(&self, pool: AgentControllerPoolView) -> bool {
        &&& pool.holds(self.agent_id@, self.registration as int)
        &&& self.connection == pool.agents[self.agent_id@].connection
        &&& text_of(self.name) == pool.agents[self.agent_id@].name
        &&& queue_fed_by(self.agent_message_tx) == pool.agents[self.agent_id@].queue
        &&& messages_to_agent(self.agent_message_tx) == no_messages_to_agent()
    }

    /// Whether this is a claim on the agent that `candidate` saw.
    pub open spec fn is_claim_on(&self, candidate: DispatchCandidate) -> bool {
        &&& self.agent_id == candidate.agent_id
        &&& self.agent_message_tx == candidate.agent_message_tx
        &&& self.connection == candidate.connection
        &&& self.name == candidate.name
        &&& self.registration == candidate.registration
    }
}

/// There was an agent under that id already.
#[derive(Clone, Copy, Debug, PartialEq, Eq, Structural)]
pub struct AgentControllerAlreadyRegistered;

impl AgentControllerAlreadyRegistered {
    /// The error as a message.
    pub fn message(&self) -> (text: String)
        ensures
            text@ == "AgentController already registered"@,
    {
        String::from_str("AgentController already registered")
    }
}

/// The slots of all agents together.
#[derive(Clone, Copy, Debug, PartialEq, Eq, Structural)]
pub struct AgentControllerPoolTotalSlots {
    pub slots_processing: i32,
    pub slots_total: i32,
}

/// What is known of all agents at one moment.
#[derive(Debug)]
pub struct AgentControllerPoolSnapshot {
    pub agents: Vec<AgentControllerSnapshot>,
}

/// Whether `ids` names every agent once.
pub open spec fn lists_agents(
    ids: Seq<Seq<char>>,
    agents: Map<Seq<char>, AgentControllerView>,
) -> bool {
    &&& ids.no_duplicates()
    &&& forall|id: Seq<char>| ids.contains(id) <==> #[trigger] agents.contains_key(id)
}

/// The busy slots of the listed agents.
pub open spec fn busy_slots(
    ids: Seq<Seq<char>>,
    agents: Map<Seq<char>, AgentControllerView>,
) -> int
    decreases ids.len(),
{
    if ids.len() == 0 {
        0
    } else {
        busy_slots(ids.drop_last(), agents) + agents[ids.last()].slots_processing
    }
}

/// All slots of the listed agents.
pub open spec fn all_slots(ids: Seq<Seq<char>>, agents: Map<Seq<char>, AgentControllerView>) -> int
    decreases ids.len(),
{
    if ids.len() == 0 {
        0
    } else {
        all_slots(ids.drop_last(), agents) + agents[ids.last()].slots_total
    }
}

/// `sum` as a counter that wraps around shows it.
pub open spec fn wrapped(sum: int) -> int {
    (sum + 0x8000_0000) % 0x1_0000_0000 - 0x8000_0000
}

impl AgentControllerPoolView {
    /// The pool in which no agent was ever registered.
    pub open spec fn empty() -> AgentControllerPoolView {
        AgentControllerPoolView {
            agents: Map::empty(),
            counts: Seq::empty(),
            registrations: Map::empty(),
            updates: 0,
        }
    }

    /// The pool after subscribers were told of a change.
    pub open spec fn signalled(self) -> AgentControllerPoolView {
        AgentControllerPoolView { updates: self.updates + 1, ..self }
    }

    /// The pool with `agent` under `id`.
    pub open spec fn with_agent(
        self,
        id: Seq<char>,
        agent: AgentControllerView,
    ) -> AgentControllerPoolView {
        AgentControllerPoolView { agents: self.agents.insert(id, agent), ..self }
    }

    /// The pool after `agent` was registered under `id`, which was free.
    pub open spec fn after_registration(
        self,
        id: Seq<char>,
        agent: AgentControllerView,
    ) -> AgentControllerPoolView {
        AgentControllerPoolView {
            agents: self.agents.insert(id, agent),
            counts: self.counts.push(agent.slots_processing),
            registrations: self.registrations.insert(id, self.counts.len() as int),
            ..self
        }.signalled()
    }

    /// The pool after the agent under `id` left. The count of its busy slots stays.
    pub open spec fn after_removal(self, id: Seq<char>) -> AgentControllerPoolView {
        if self.agents.contains_key(id) {
            AgentControllerPoolView {
                agents: self.agents.remove(id),
                registrations: self.registrations.remove(id),
                ..self
            }.signalled()
        } else {
            self
        }
    }

    /// Whether the agent under `id` is there by the registration of that number.
    pub open spec fn holds(self, id: Seq<char>, registration: int) -> bool {
        self.agents.contains_key(id) && self.registrations[id] == registration
    }

    /// Whether every agent has a registration of its own, whose count is that of
    /// its busy slots.
    pub open spec fn is_consistent(self) -> bool {
        &&& self.agents.dom() == self.registrations.dom()
        &&& forall|id: Seq<char>| #[trigger]
            self.agents.contains_key(id) ==> {
                &&& 0 <= self.registrations[id] < self.counts.len()
                &&& self.agents[id].slots_processing == self.counts[self.registrations[id]]
            }
        &&& forall|left: Seq<char>, right: Seq<char>|
            #![trigger self.agents.contains_key(left), self.agents.contains_key(right)]
            self.agents.contains_key(left) && self.agents.contains_key(right)
                && self.registrations[left] == self.registrations[right] ==> left == right
    }

    /// Whether the slot that `candidate` saw can still be claimed: as many slots of
    /// its agent are busy as it saw, whether the agent is still there or not.
    pub open spec fn can_claim(self, candidate: DispatchCandidate) -> bool {
        &&& candidate.registration < self.counts.len()
        &&& self.counts[candidate.registration as int] == candidate.snapshot
    }

    /// The pool with the count of busy slots of a registration set to `count`, and
    /// that of its agent, if it is there.
    pub open spec fn with_count(self, registration: int, count: i32) -> AgentControllerPoolView {
        AgentControllerPoolView {
            agents: self.agents.map_entries(
                |id: Seq<char>, agent: AgentControllerView|
                    if self.registrations[id] == registration {
                        AgentControllerView { slots_processing: count, ..agent }
                    } else {
                        agent
                    },
            ),
            counts: self.counts.update(registration, count),
            ..self
        }
    }

    /// The pool after a slot of the agent of a registration was claimed.
    pub open spec fn after_claim(self, registration: int) -> AgentControllerPoolView {
        self.with_count(registration, (self.counts[registration] + 1) as i32).signalled()
    }

    /// The pool after a claimed slot was given back. Only the count of the
    /// registration that it was claimed of is touched.
    pub open spec fn after_release(self, registration: int) -> AgentControllerPoolView {
        if 0 <= registration < self.counts.len() {
            self.with_count(registration, self.counts[registration].wrapping_sub(1)).signalled()
        } else {
            self.signalled()
        }
    }

    /// Whether the agent under `id` has a slot to spare and no agent with a slot
    /// to spare is less busy.
    pub open spec fn is_least_busy(self, id: Seq<char>) -> bool {
        &&& self.agents.contains_key(id)
        &&& self.agents[id].has_capacity()
        &&& forall|other: Seq<char>| #[trigger]
            self.agents.contains_key(other) && self.agents[other].has_capacity()
                ==> self.agents[id].slots_processing <= self.agents[other].slots_processing
    }

    /// Whether no agent has a slot to spare.
    pub open spec fn is_exhausted(self) -> bool {
        forall|id: Seq<char>| #[trigger]
            self.agents.contains_key(id) ==> !self.agents[id].has_capacity()
    }
}

impl View for AgentControllerPool {
    type V = AgentControllerPoolView;

    closed spec fn view(&self) -> AgentControllerPoolView {
        AgentControllerPoolView {
            agents: Map::new(
                |id: Seq<char>| number_map(self.agents).contains_key(id),
                |id: Seq<char>| self.entries@[number_map(self.agents)[id] as int].controller@,
            ),
            counts: self.counts@,
            registrations: Map::new(
                |id: Seq<char>| number_map(self.agents).contains_key(id),
                |id: Seq<char>|
                    self.entries@[number_map(self.agents)[id] as int].registration as int,
            ),
            updates: updates_sent(self.update_tx),
        }
    }
}

/// The entry with the count of its busy slots set, if it is that of the
/// registration.
spec fn counted(entry: PoolEntry, registration: usize, count: i32) -> PoolEntry {
    if entry.registration == registration {
        PoolEntry {
            controller: AgentController { slots_processing: count, ..entry.controller },
            ..entry
        }
    } else {
        entry
    }
}

impl AgentControllerPool {
    /// Whether every agent is found under its id and has a registration of its own,
    /// whose count is that of its busy slots.
    pub closed spec fn wf(&self) -> bool {
        &&& forall|i: int|
            0 <= i < self.entries@.len() ==> {
                &&& #[trigger] number_map(self.agents).contains_key(self.entries@[i].agent_id@)
                &&& number_map(self.agents)[self.entries@[i].agent_id@] == i
            }
        &&& forall|id: Seq<char>| #[trigger]
            number_map(self.agents).contains_key(id) ==> {
                &&& number_map(self.agents)[id] < self.entries@.len()
                &&& self.entries@[number_map(self.agents)[id] as int].agent_id@ == id
            }
        &&& forall|i: int|
            #![trigger self.entries@[i]]
            0 <= i < self.entries@.len() ==> {
                &&& self.entries@[i].registration < self.counts@.len()
                &&& self.entries@[i].controller.slots_processing
                    == self.counts@[self.entries@[i].registration as int]
            }
        &&& forall|i: int, j: int|
            #![trigger self.entries@[i], self.entries@[j]]
            0 <= i < j < self.entries@.len() ==> self.entries@[i].registration
                != self.entries@[j].registration
    }

    /// The ids in the order in which the agents are kept.
    spec fn ids(&self) -> Seq<Seq<char>> {
        Seq::new(self.entries@.len(), |i: int| self.entries@[i].agent_id@)
    }

    proof fn lemma_ids(&self)
        requires
            self.wf(),
        ensures
            lists_agents(self.ids(), self@.agents),
            forall|i: int|
                0 <= i < self.entries@.len() ==> {
                    &&& #[trigger] self@.agents.contains_key(self.entries@[i].agent_id@)
                    &&& self@.agents[self.entries@[i].agent_id@] == self.entries@[i].controller@
                    &&& self@.registrations[self.entries@[i].agent_id@]
                        == self.entries@[i].registration
                },
    {
        assert forall|id: Seq<char>|
            self.ids().contains(id) <==> #[trigger] self@.agents.contains_key(id) by {
            if self.ids().contains(id) {
                let i = choose|i: int| 0 <= i < self.ids().len() && self.ids()[i] == id;
                assert(number_map(self.agents).contains_key(self.entries@[i].agent_id@));
            }
            if self@.agents.contains_key(id) {
                let i = number_map(self.agents)[id] as int;
                assert(self.ids()[i] == id);
            }
        };
        assert forall|i: int, j: int|
            0 <= i < self.ids().len() && 0 <= j < self.ids().len() && i != j implies self.ids()[i]
            != self.ids()[j] by {
            assert(number_map(self.agents).contains_key(self.entries@[i].agent_id@));
            assert(number_map(self.agents).contains_key(self.entries@[j].agent_id@));
        };
    }

    /// The agent with a slot to spare that is least busy, if any agent has one.
    pub fn select_least_busy_with_capacity(&self) -> (candidate: Option<DispatchCandidate>)
        requires
            self.wf(),
        ensures
            match candidate {
                Some(candidate) => {
                    &&& self@.is_least_busy(candidate.agent_id@)
                    &&& candidate.shows(self@)
                    &&& self@.can_claim(candidate)
                },
                None => self@.is_exhausted(),
            },
            candidate matches Some(candidate) ==> {
                let agent = self@.agents[candidate.agent_id@];
                &&& agent.slots_processing < agent.slots_total
                &&& candidate.snapshot == agent.slots_processing
                &&& forall|other: Seq<char>| #[trigger]
                    self@.agents.contains_key(other) && self@.agents[other].slots_processing
                        < self@.agents[other].slots_total ==> agent.slots_processing
                        <= self@.agents[other].slots_processing
            },
            candidate is None ==> forall|id: Seq<char>| #[trigger]
                self@.agents.contains_key(id) ==> self@.agents[id].slots_processing
                    >= self@.agents[id].slots_total,
    {
        let mut best: Option<usize> = None;
        let mut i: usize = 0;
        while i < self.entries.len()
            invariant
                i <= self.entries.len(),
                match best {
                    Some(b) => {
                        &&& b < i
                        &&& self.entries@[b as int].controller@.has_capacity()
                        &&& forall|j: int|
                            0 <= j < i && (#[trigger] self.entries@[j]).controller@.has_capacity()
                                ==> self.entries@[b as int].controller@.slots_processing
                                <= self.entries@[j].controller@.slots_processing
                    },
                    None => forall|j: int|
                        0 <= j < i ==> !(#[trigger] self.entries@[j]).controller@.has_capacity(),
                },
            decreases self.entries.len() - i,
        {
            let snapshot: i32 = self.entries[i].controller.slots_processing;
            if snapshot < self.entries[i].controller.slots_total {
                best = match best {
                    Some(current) => if self.entries[current].controller.slots_processing
                        <= snapshot {
                        Some(current)
                    } else {
                        Some(i)
                    },
                    None => Some(i),
                };
            }
            i = i + 1;
        }
        proof {
            self.lemma_ids();
            assert forall|id: Seq<char>| #[trigger] self@.agents.contains_key(id) implies exists|
                j: int,
            |
                0 <= j < self.entries@.len() && (#[trigger] self.entries@[j]).agent_id@ == id by {
                let j = number_map(self.agents)[id] as int;
                assert(self.entries@[j].agent_id@ == id);
            };
        }
        match best {
            Some(b) => {
                let candidate = DispatchCandidate {
                    agent_id: self.entries[b].agent_id.clone(),
                    agent_message_tx: clone_agent_sender(
                        &self.entries[b].controller.agent_message_tx,
                    ),
                    connection: self.entries[b].controller.connection,
                    name: clone_text(&self.entries[b].controller.name),
                    registration: self.entries[b].registration,
                    snapshot: self.entries[b].controller.slots_processing,
                };
                assert(self@.agents.contains_key(self.entries@[b as int].agent_id@));
                assert(candidate.shows(self@));
                Some(candidate)
            },
            None => None,
        }
    }

    /// Sets the count of busy slots of a registration, and that of its agent, if
    /// it is there.
    fn set_count(&mut self, registration: usize, count: i32)
        requires
            old(self).wf(),
            registration < old(self).counts@.len(),
        ensures
            final(self).wf(),
            final(self)@ == old(self)@.with_count(registration as int, count),
    {
        self.counts.set(registration, count);
        let mut i: usize = 0;
        while i < self.entries.len()
            invariant
                i <= self.entries@.len(),
                self.entries@.len() == old(self).entries@.len(),
                self.agents == old(self).agents,
                self.update_tx == old(self).update_tx,
                self.counts@ == old(self).counts@.update(registration as int, count),
                forall|j: int|
                    0 <= j < i ==> #[trigger] self.entries@[j] == counted(
                        old(self).entries@[j],
                        registration,
                        count,
                    ),
                forall|j: int|
                    i <= j < self.entries@.len() ==> #[trigger] self.entries@[j] == old(
                        self,
                    ).entries@[j],
            decreases self.entries.len() - i,
        {
            if self.entries[i].registration == registration {
                self.entries[i].controller.slots_processing = count;
            }
            i = i + 1;
        }
        proof {
            let entries = old(self).entries@;
            assert forall|j: int| 0 <= j < self.entries@.len() implies {
                &&& #[trigger] number_map(self.agents).contains_key(self.entries@[j].agent_id@)
                &&& number_map(self.agents)[self.entries@[j].agent_id@] == j
            } by {
                assert(number_map(self.agents).contains_key(entries[j].agent_id@));
            };
            assert(self@ =~= old(self)@.with_count(registration as int, count));
        }
    }

    /// Claims the slot that the candidate saw, and tells subscribers. The
    /// candidate comes back if the number of busy slots of its agent changed since
    /// it was looked at. An agent that has left can still be claimed.
    pub fn try_claim(&mut self, candidate: DispatchCandidate) -> (result: Result<
        DispatchedAgent,
        DispatchCandidate,
    >)
        requires
            old(self).wf(),
            candidate.snapshot < i32::MAX,
        ensures
            final(self).wf(),
            match result {
                Ok(dispatched) => {
                    &&& old(self)@.can_claim(candidate)
                    &&& final(self)@ == old(self)@.after_claim(candidate.registration as int)
                    &&& dispatched.is_claim_on(candidate)
                },
                Err(returned) => {
                    &&& !old(self)@.can_claim(candidate)
                    &&& final(self)@ == old(self)@
                    &&& returned == candidate
                },
            },
    {
        if candidate.registration >= self.counts.len() {
            return Err(candidate);
        }
        if self.counts[candidate.registration] != candidate.snapshot {
            return Err(candidate);
        }
        self.set_count(candidate.registration, candidate.snapshot + 1);
        self.signal_update();
        Ok(
            DispatchedAgent {
                agent_id: candidate.agent_id,
                agent_message_tx: candidate.agent_message_tx,
                connection: candidate.connection,
                name: candidate.name,
                registration: candidate.registration,
            },
        )
    }

    /// Changing anything of the agent at one place but the count of its busy slots
    /// changes the agent under its id only.
    proof fn lemma_entry_changed(&self, before: &AgentControllerPool, i: int)
        requires
            before.wf(),
            0 <= i < before.entries@.len(),
            self.agents == before.agents,
            self.counts == before.counts,
            self.entries@.len() == before.entries@.len(),
            self.entries@[i].agent_id == before.entries@[i].agent_id,
            self.entries@[i].registration == before.entries@[i].registration,
            self.entries@[i].controller.slots_processing
                == before.entries@[i].controller.slots_processing,
            forall|j: int|
                0 <= j < before.entries@.len() && j != i ==> self.entries@[j]
                    == before.entries@[j],
        ensures
            self.wf(),
            self@.agents == before@.agents.insert(
                before.entries@[i].agent_id@,
                self.entries@[i].controller@,
            ),
            self@.counts == before@.counts,
            self@.registrations == before@.registrations,
    {
        assert(number_map(before.agents).contains_key(before.entries@[i].agent_id@));
        assert forall|j: int| 0 <= j < self.entries@.len() implies {
            &&& #[trigger] number_map(self.agents).contains_key(self.entries@[j].agent_id@)
            &&& number_map(self.agents)[self.entries@[j].agent_id@] == j
        } by {
            assert(number_map(before.agents).contains_key(before.entries@[j].agent_id@));
            assert(self.entries@[j].agent_id@ == before.entries@[j].agent_id@);
        };
        assert forall|id: Seq<char>| #[trigger]
            number_map(self.agents).contains_key(id) implies {
            &&& number_map(self.agents)[id] < self.entries@.len()
            &&& self.entries@[number_map(self.agents)[id] as int].agent_id@ == id
        } by {
            let j = number_map(self.agents)[id] as int;
            assert(self.entries@[j].agent_id@ == before.entries@[j].agent_id@);
        };
        assert(self@.agents =~= before@.agents.insert(
            before.entries@[i].agent_id@,
            self.entries@[i].controller@,
        ));
        assert(self@.registrations =~= before@.registrations);
    }

    /// Claims a slot of the least busy agent, if any agent has a slot to spare.
    pub fn take_least_busy_agent_controller(&mut self) -> (dispatched: Option<DispatchedAgent>)
        requires
            old(self).wf(),
        ensures
            final(self).wf(),
            match dispatched {
                Some(dispatched) => {
                    &&& old(self)@.is_least_busy(dispatched.agent_id@)
                    &&& dispatched.is_new_claim_on(old(self)@)
                    &&& final(self)@ == old(self)@.after_claim(dispatched.registration as int)
                },
                None => old(self)@.is_exhausted() && final(self)@ == old(self)@,
            },
            dispatched matches Some(dispatched) ==> {
                let agent = old(self)@.agents[dispatched.agent_id@];
                &&& agent.slots_processing < agent.slots_total
                &&& final(self)@.agents[dispatched.agent_id@].slots_processing
                    == agent.slots_processing + 1
            },
            dispatched is None ==> forall|id: Seq<char>| #[trigger]
                old(self)@.agents.contains_key(id) ==> old(self)@.agents[id].slots_processing >= old(
                    self,
                )@.agents[id].slots_total,
    {
        match self.select_least_busy_with_capacity() {
            Some(candidate) => match self.try_claim(candidate) {
                Ok(dispatched) => Some(dispatched),
                Err(_) => None,
            },
            None => None,
        }
    }

    /// Gives a claimed slot back and tells subscribers.
    pub fn release(&mut self, dispatched: DispatchedAgent)
        requires
            old(self).wf(),
        ensures
            final(self).wf(),
            final(self)@ == old(self)@.after_release(dispatched.registration as int),
    {
        self.release_slot(dispatched.registration);
    }

    /// Gives a slot of the agent of a registration back and tells subscribers.
    pub(crate) fn release_slot(&mut self, registration: usize)
        requires
            old(self).wf(),
        ensures
            final(self).wf(),
            final(self)@ == old(self)@.after_release(registration as int),
    {
        if registration < self.counts.len() {
            let count: i32 = self.counts[registration];
            self.set_count(registration, count.wrapping_sub(1));
        }
        self.signal_update();
    }

    /// The agent under the id.
    pub fn get_agent_controller(&self, agent_id: &str) -> (agent: Option<&AgentController>)
        requires
            self.wf(),
        ensures
            match agent {
                Some(agent) => self@.agents.contains_key(agent_id@) && self@.agents[agent_id@]
                    == agent@,
                None => !self@.agents.contains_key(agent_id@),
            },
    {
        match number_map_get(&self.agents, agent_id) {
            Some(i) => Some(&self.entries[i].controller),
            None => None,
        }
    }

    /// Puts the agent under the id and tells subscribers. Where there is an agent
    /// under the id already, that is an error, and nothing changes.
    pub fn register_agent_controller(
        &mut self,
        agent_id: String,
        agent: AgentController,
    ) -> (result: Result<(), AgentControllerAlreadyRegistered>)
        requires
            old(self).wf(),
        ensures
            final(self).wf(),
            result is Err <==> old(self)@.agents.contains_key(agent_id@),
            result is Ok ==> final(self)@ == old(self)@.after_registration(agent_id@, agent@),
            result is Err ==> final(self)@ == old(self)@,
    {
        let ghost id = agent_id@;
        let ghost view = agent@;
        match number_map_get(&self.agents, agent_id.as_str()) {
            Some(_) => Err(AgentControllerAlreadyRegistered),
            None => {
                let place: usize = self.entries.len();
                let registration: usize = self.counts.len();
                self.counts.push(agent.slots_processing);
                self.entries.push(
                    PoolEntry { agent_id: agent_id.clone(), controller: agent, registration },
                );
                number_map_insert(&mut self.agents, agent_id, place);
                send_update(&mut self.update_tx);
                proof {
                    assert forall|j: int| 0 <= j < self.entries@.len() implies {
                        &&& #[trigger] number_map(self.agents).contains_key(
                            self.entries@[j].agent_id@,
                        )
                        &&& number_map(self.agents)[self.entries@[j].agent_id@] == j
                    } by {
                        if j < place {
                            assert(self.entries@[j] == old(self).entries@[j]);
                            assert(number_map(old(self).agents).contains_key(
                                old(self).entries@[j].agent_id@,
                            ));
                        }
                    };
                    assert forall|other: Seq<char>| #[trigger]
                        number_map(self.agents).contains_key(other) implies {
                        &&& number_map(self.agents)[other] < self.entries@.len()
                        &&& self.entries@[number_map(self.agents)[other] as int].agent_id@ == other
                    } by {
                        if other != id {
                            assert(number_map(old(self).agents).contains_key(other));
                        }
                    };
                    assert(self@.agents =~= old(self)@.agents.insert(id, view));
                    assert(self@ =~= old(self)@.after_registration(id, view));
                }
                Ok(())
            },
        }
    }

    /// Drops the agent under the id and tells subscribers; says whether there was one.
    pub fn remove_agent_controller(&mut self, agent_id: &str) -> (removed: bool)
        requires
            old(self).wf(),
        ensures
            final(self).wf(),
            final(self)@ == old(self)@.after_removal(agent_id@),
            removed == old(self)@.agents.contains_key(agent_id@),
    {
        let ghost id = agent_id@;
        let ghost before = number_map(self.agents);
        match number_map_remove(&mut self.agents, agent_id) {
            Some(i) => {
                let ghost last = (self.entries@.len() - 1) as int;
                self.entries.swap_remove(i);
                if i < self.entries.len() {
                    let moved = self.entries[i].agent_id.clone();
                    number_map_insert(&mut self.agents, moved, i);
                }
                send_update(&mut self.update_tx);
                proof {
                    let entries = old(self).entries@;
                    assert(before.contains_key(entries[last].agent_id@));
                    assert forall|j: int| 0 <= j < self.entries@.len() implies {
                        &&& #[trigger] number_map(self.agents).contains_key(
                            self.entries@[j].agent_id@,
                        )
                        &&& number_map(self.agents)[self.entries@[j].agent_id@] == j
                    } by {
                        assert(before.contains_key(entries[j].agent_id@));
                        if j != i {
                            assert(self.entries@[j] == entries[j]);
                        }
                    };
                    assert forall|other: Seq<char>| #[trigger]
                        number_map(self.agents).contains_key(other) implies {
                        &&& number_map(self.agents)[other] < self.entries@.len()
                        &&& self.entries@[number_map(self.agents)[other] as int].agent_id@ == other
                    } by {
                        assert(before.contains_key(other));
                        assert(other != id);
                    };
                    assert(self@.agents =~= old(self)@.agents.remove(id));
                    assert(self@ =~= old(self)@.after_removal(id));
                }
                true
            },
            None => {
                assert(number_map(self.agents) =~= before);
                assert(self@ =~= old(self)@.after_removal(id));
                false
            },
        }
    }

    /// Tells subscribers that something changed.
    pub fn signal_update(&mut self)
        requires
            old(self).wf(),
        ensures
            final(self).wf(),
            final(self)@ == old(self)@.signalled(),
    {
        send_update(&mut self.update_tx);
        assert(self@ =~= old(self)@.signalled());
    }

    /// Takes over what the agent under the id reports, and tells subscribers if
    /// anything changed that is worth telling. `None` if there is no such agent.
    pub fn update_agent_controller(
        &mut self,
        agent_id: &str,
        report: SlotAggregatedStatusSnapshot,
    ) -> (result: Option<AgentControllerUpdateResult>)
        requires
            old(self).wf(),
        ensures
            final(self).wf(),
            match result {
                Some(result) => {
                    let agent = old(self)@.agents[agent_id@];
                    &&& old(self)@.agents.contains_key(agent_id@)
                    &&& result == agent.update_result(report@)
                    &&& final(self)@ == if result == AgentControllerUpdateResult::Updated {
                        old(self)@.with_agent(agent_id@, agent.after(report@)).signalled()
                    } else {
                        old(self)@.with_agent(agent_id@, agent.after(report@))
                    }
                },
                None => !old(self)@.agents.contains_key(agent_id@) && final(self)@ == old(self)@,
            },
    {
        match number_map_get(&self.agents, agent_id) {
            Some(i) => {
                let result = self.entries[i].controller.update_from_slot_aggregated_status_snapshot(
                    report,
                );
                match result {
                    AgentControllerUpdateResult::NoMeaningfulChanges => {},
                    AgentControllerUpdateResult::Updated => {
                        send_update(&mut self.update_tx);
                    },
                }
                proof {
                    self.lemma_entry_changed(old(self), i as int);
                }
                Some(result)
            },
            None => None,
        }
    }

    /// Queues a message to the agent under the id, while the caller may hold what its
    /// queue is emptied by. An agent whose queue is held open can be reached. `None`
    /// if there is no such agent.
    pub fn send_to_agent_controller(
        &mut self,
        agent_id: &str,
        message: AgentJsonRpcMessage,
        held: Option<&mpsc::UnboundedReceiver<AgentJsonRpcMessage>>,
    ) -> (result: Option<Result<(), AgentUnreachable>>)
        requires
            old(self).wf(),
        ensures
            final(self).wf(),
            match result {
                Some(result) => {
                    &&& old(self)@.agents.contains_key(agent_id@)
                    &&& final(self)@ == old(self)@.with_agent(
                        agent_id@,
                        old(self)@.agents[agent_id@].sent(message, result is Ok),
                    )
                    &&& is_received(old(self)@.agents[agent_id@].queue, held) ==> result is Ok
                },
                None => !old(self)@.agents.contains_key(agent_id@) && final(self)@ == old(self)@,
            },
    {
        match number_map_get(&self.agents, agent_id) {
            Some(i) => {
                let result = self.entries[i].controller.send_rpc_message_while(message, held);
                proof {
                    self.lemma_entry_changed(old(self), i as int);
                }
                Some(result)
            },
            None => None,
        }
    }

    /// Sends a request under a fresh id, which is returned, to the agent under
    /// `agent_id`, and awaits its one response on `channel`. `None` if there is no
    /// such agent.
    pub fn request_from_agent_controller(
        &mut self,
        agent_id: &str,
        senders: &mut SenderCollection,
        channel: usize,
        request: AgentJsonRpcRequest,
    ) -> (result: Option<Result<String, AgentRequestError>>)
        requires
            old(self).wf(),
        ensures
            final(self).wf(),
            match result {
                Some(result) => {
                    &&& old(self)@.agents.contains_key(agent_id@)
                    &&& final(self)@ == old(self)@.with_agent(
                        agent_id@,
                        final(self)@.agents[agent_id@],
                    )
                    &&& was_requested(
                        old(self)@.agents[agent_id@],
                        final(self)@.agents[agent_id@],
                        old(senders)@,
                        final(senders)@,
                        channel,
                        request,
                        result,
                    )
                },
                None => {
                    &&& !old(self)@.agents.contains_key(agent_id@)
                    &&& final(self)@ == old(self)@
                    &&& final(senders)@ == old(senders)@
                },
            },
    {
        match number_map_get(&self.agents, agent_id) {
            Some(i) => {
                let result = self.entries[i].controller.get_oneshot_response(
                    senders,
                    channel,
                    request,
                );
                proof {
                    self.lemma_entry_changed(old(self), i as int);
                }
                Some(result)
            },
            None => None,
        }
    }

    /// How many agents there are.
    pub fn len(&self) -> (count: usize)
        requires
            self.wf(),
        ensures
            exists|ids: Seq<Seq<char>>| #[trigger]
                lists_agents(ids, self@.agents) && count == ids.len(),
    {
        proof {
            self.lemma_ids();
        }
        self.entries.len()
    }

    /// The slots of all agents together.
    pub fn total_slots(&self) -> (total: AgentControllerPoolTotalSlots)
        requires
            self.wf(),
        ensures
            exists|ids: Seq<Seq<char>>|
                {
                    &&& #[trigger] lists_agents(ids, self@.agents)
                    &&& total.slots_processing == wrapped(busy_slots(ids, self@.agents))
                    &&& total.slots_total == wrapped(all_slots(ids, self@.agents))
                },
    {
        let mut slots_processing: i32 = 0;
        let mut slots_total: i32 = 0;
        let mut i: usize = 0;
        proof {
            self.lemma_ids();
        }
        while i < self.entries.len()
            invariant
                i <= self.entries.len(),
                self.wf(),
                forall|j: int|
                    0 <= j < self.entries@.len() ==> {
                        &&& #[trigger] self@.agents.contains_key(self.entries@[j].agent_id@)
                        &&& self@.agents[self.entries@[j].agent_id@] == self.entries@[j].controller@
                    },
                slots_processing == wrapped(
                    busy_slots(self.ids().subrange(0, i as int), self@.agents),
                ),
                slots_total == wrapped(all_slots(self.ids().subrange(0, i as int), self@.agents)),
            decreases self.entries.len() - i,
        {
            proof {
                let next = self.ids().subrange(0, i + 1);
                assert(next.drop_last() =~= self.ids().subrange(0, i as int));
                assert(next.last() == self.entries@[i as int].agent_id@);
                assert(self@.agents.contains_key(self.entries@[i as int].agent_id@));
            }
            slots_processing = slots_processing.wrapping_add(
                self.entries[i].controller.slots_processing,
            );
            slots_total = slots_total.wrapping_add(self.entries[i].controller.slots_total);
            i = i + 1;
        }
        assert(self.ids().subrange(0, i as int) =~= self.ids());
        AgentControllerPoolTotalSlots { slots_processing, slots_total }
    }

    /// The rates that the agents reported last, of every agent one.
    pub fn tokens_per_second_of_agents(&self) -> (rates: Vec<TokensPerSecond>)
        requires
            self.wf(),
        ensures
            exists|ids: Seq<Seq<char>>|
                {
                    &&& #[trigger] lists_agents(ids, self@.agents)
                    &&& rates@ == ids.map_values(
                        |id: Seq<char>| self@.agents[id].tokens_per_second,
                    )
                },
    {
        let mut rates: Vec<TokensPerSecond> = Vec::new();
        let mut i: usize = 0;
        proof {
            self.lemma_ids();
        }
        while i < self.entries.len()
            invariant
                i <= self.entries.len(),
                rates@.len() == i,
                forall|j: int|
                    0 <= j < i ==> #[trigger] rates@[j]
                        == self.entries@[j].controller@.tokens_per_second,
            decreases self.entries.len() - i,
        {
            rates.push(self.entries[i].controller.get_tokens_per_second());
            i = i + 1;
        }
        proof {
            let listed = self.ids().map_values(
                |id: Seq<char>| self@.agents[id].tokens_per_second,
            );
            assert forall|j: int| 0 <= j < rates@.len() implies rates@[j] == listed[j] by {
                assert(self@.agents.contains_key(self.entries@[j].agent_id@));
            };
            assert(rates@ =~= listed);
        }
        rates
    }

    /// What is known of all agents at this moment; an error if the stored status
    /// code of one of them is not that of a status.
    pub fn make_snapshot(&self) -> (result: Result<
        AgentControllerPoolSnapshot,
        InvalidAgentStateApplicationStatus,
    >)
        requires
            self.wf(),
        ensures
            match result {
                Ok(snapshot) => exists|ids: Seq<Seq<char>>|
                    {
                        &&& #[trigger] lists_agents(ids, self@.agents)
                        &&& snapshot.agents@.len() == ids.len()
                        &&& forall|i: int|
                            0 <= i < ids.len() ==> snapshot_shows(
                                self@.agents[ids[i]],
                                #[trigger] snapshot.agents@[i],
                            )
                    },
                Err(error) => exists|id: Seq<char>|
                    {
                        &&& #[trigger] self@.agents.contains_key(id)
                        &&& self@.agents[id].state_application_status_code == error.value
                        &&& AgentStateApplicationStatus::of_code(error.value) is None
                    },
            },
    {
        let mut agents: Vec<AgentControllerSnapshot> = Vec::new();
        let mut i: usize = 0;
        proof {
            self.lemma_ids();
        }
        while i < self.entries.len()
            invariant
                i <= self.entries.len(),
                self.wf(),
                agents@.len() == i,
                forall|j: int|
                    0 <= j < i ==> snapshot_shows(
                        self.entries@[j].controller@,
                        #[trigger] agents@[j],
                    ),
                forall|j: int|
                    0 <= j < self.entries@.len() ==> {
                        &&& #[trigger] self@.agents.contains_key(self.entries@[j].agent_id@)
                        &&& self@.agents[self.entries@[j].agent_id@] == self.entries@[j].controller@
                    },
            decreases self.entries.len() - i,
        {
            match self.entries[i].controller.make_snapshot() {
                Ok(snapshot) => {
                    agents.push(snapshot);
                },
                Err(error) => {
                    assert(self@.agents.contains_key(self.entries@[i as int].agent_id@));
                    return Err(error);
                },
            }
            i = i + 1;
        }
        proof {
            let ids = self.ids();
            assert forall|j: int| 0 <= j < ids.len() implies snapshot_shows(
                self@.agents[ids[j]],
                #[trigger] agents@[j],
            ) by {
                assert(self@.agents.contains_key(self.entries@[j].agent_id@));
            };
        }
        Ok(AgentControllerPoolSnapshot { agents })
    }

    /// Asks every agent to be in the desired state. Stops at the first agent that
    /// cannot be reached.
    pub fn set_desired_state(&mut self, desired_state: AgentDesiredState) -> (result: Result<
        (),
        AgentUnreachable,
    >)
        requires
            old(self).wf(),
        ensures
            final(self).wf(),
            match result {
                Ok(()) => all_asked(old(self)@, final(self)@, desired_state),
                Err(_) => exists|id: Seq<char>| #[trigger]
                    asked_until(old(self)@, final(self)@, desired_state, id),
            },
    {
        let mut i: usize = 0;
        let count: usize = self.entries.len();
        proof {
            self.lemma_ids();
        }
        while i < count
            invariant
                i <= count,
                count == self.entries@.len(),
                old(self).wf(),
                self.wf(),
                old(self).entries@.len() == count,
                self.agents == old(self).agents,
                self.counts == old(self).counts,
                self.update_tx == old(self).update_tx,
                self@.registrations == old(self)@.registrations,
                forall|j: int|
                    0 <= j < count ==> #[trigger] self.entries@[j].agent_id == old(
                        self,
                    ).entries@[j].agent_id,
                forall|j: int|
                    0 <= j < i ==> was_asked(
                        old(self).entries@[j].controller@,
                        #[trigger] self.entries@[j].controller@,
                        desired_state,
                        true,
                    ),
                forall|j: int|
                    i <= j < count ==> #[trigger] self.entries@[j] == old(self).entries@[j],
            decreases count - i,
        {
            let ghost before = *self;
            let result = self.entries[i].controller.set_desired_state(desired_state.clone());
            proof {
                self.lemma_entry_changed(&before, i as int);
            }
            if let Err(error) = result {
                proof {
                    self.lemma_ids();
                    old(self).lemma_ids();
                    let unreachable = old(self).entries@[i as int].agent_id@;
                    assert(self@.agents.contains_key(self.entries@[i as int].agent_id@));
                    assert(old(self)@.agents.contains_key(unreachable));
                    assert forall|id: Seq<char>| #[trigger]
                        old(self)@.agents.contains_key(id) && id != unreachable implies was_asked(
                        old(self)@.agents[id],
                        self@.agents[id],
                        desired_state,
                        true,
                    ) || self@.agents[id] == old(self)@.agents[id] by {
                        let j = number_map(self.agents)[id] as int;
                        assert(self.entries@[j].agent_id == old(self).entries@[j].agent_id);
                        assert(self@.agents.contains_key(self.entries@[j].agent_id@));
                        if j < i {
                            assert(was_asked(
                                old(self).entries@[j].controller@,
                                self.entries@[j].controller@,
                                desired_state,
                                true,
                            ));
                        }
                    };
                    assert(asked_until(old(self)@, self@, desired_state, unreachable));
                }
                return Err(error);
            }
            i = i + 1;
        }
        proof {
            assert forall|id: Seq<char>| #[trigger]
                old(self)@.agents.contains_key(id) implies was_asked(
                old(self)@.agents[id],
                self@.agents[id],
                desired_state,
                true,
            ) by {
                let j = number_map(self.agents)[id] as int;
                assert(was_asked(
                    old(self).entries@[j].controller@,
                    self.entries@[j].controller@,
                    desired_state,
                    true,
                ));
            };
        }
        Ok(())
    }

    /// A receiver that is told of every change from now on.
    pub fn subscribe_to_updates(&self) -> (receiver: watch::Receiver<()>)
        ensures
            updates_seen(receiver) == self@.updates,
    {
        subscribe(&self.update_tx)
    }
}

/// Whether `snapshot` shows `agent`, which has a valid status code.
pub open spec fn snapshot_shows(
    agent: AgentControllerView,
    snapshot: AgentControllerSnapshot,
) -> bool {
    AgentStateApplicationStatus::of_code(agent.state_application_status_code) matches Some(status)
        && snapshot@ == agent.snapshot(status)
}

/// Whether all that happened to an agent is that it was sent `request` under a
/// fresh id, whose response is awaited on `channel`.
pub open spec fn was_requested(
    before: AgentControllerView,
    after: AgentControllerView,
    senders_before: Map<Seq<char>, usize>,
    senders_after: Map<Seq<char>, usize>,
    channel: usize,
    request: AgentJsonRpcRequest,
    result: Result<String, AgentRequestError>,
) -> bool {
    &&& after == (AgentControllerView { messages: after.messages, ..before })
    &&& exists|request_id: String, sent: Result<(), AgentRequestError>|
        {
            &&& is_identifier(request_id@)
            &&& match (result, sent) {
                (Ok(returned), Ok(())) => returned == request_id,
                (Err(error), Err(reason)) => error == reason,
                _ => false,
            }
            &&& #[trigger] oneshot_request_leaves(
                before.messages,
                after.messages,
                senders_before,
                senders_after,
                channel,
                request_id@,
                request_message(request_id, request),
                sent,
            )
        }
}

/// Whether all that happened to an agent is that it was tried to ask it to be in
/// the desired state; `reached` tells whether it could be asked.
pub open spec fn was_asked(
    before: AgentControllerView,
    after: AgentControllerView,
    desired_state: AgentDesiredState,
    reached: bool,
) -> bool {
    after == before.sent(set_state_message(desired_state), reached)
}

/// Whether the agents under all ids, and nothing else, may have changed.
pub open spec fn same_ids(before: AgentControllerPoolView, after: AgentControllerPoolView) -> bool {
    &&& after.counts == before.counts
    &&& after.registrations == before.registrations
    &&& after.updates == before.updates
    &&& forall|id: Seq<char>| #[trigger]
        after.agents.contains_key(id) <==> before.agents.contains_key(id)
}

/// Whether all agents were asked to be in the desired state, and nothing else
/// happened to the pool.
pub open spec fn all_asked(
    before: AgentControllerPoolView,
    after: AgentControllerPoolView,
    desired_state: AgentDesiredState,
) -> bool {
    &&& same_ids(before, after)
    &&& forall|id: Seq<char>| #[trigger]
        before.agents.contains_key(id) ==> was_asked(
            before.agents[id],
            after.agents[id],
            desired_state,
            true,
        )
}

/// Whether the agent under `unreachable` could not be asked to be in the desired
/// state: some of the other agents were asked before, and the rest left alone.
pub open spec fn asked_until(
    before: AgentControllerPoolView,
    after: AgentControllerPoolView,
    desired_state: AgentDesiredState,
    unreachable: Seq<char>,
) -> bool {
    &&& same_ids(before, after)
    &&& before.agents.contains_key(unreachable)
    &&& was_asked(before.agents[unreachable], after.agents[unreachable], desired_state, false)
    &&& forall|id: Seq<char>| #[trigger]
        before.agents.contains_key(id) && id != unreachable ==> was_asked(
            before.agents[id],
            after.agents[id],
            desired_state,
            true,
        ) || after.agents[id] == before.agents[id]
}

impl Default for AgentControllerPool {
    fn default() -> (pool: Self)
        ensures
            pool.wf(),
            pool@ == AgentControllerPoolView::empty(),
    {
        let pool = AgentControllerPool {
            agents: number_map_new(),
            counts: Vec::new(),
            entries: Vec::new(),
            update_tx: update_channel(),
        };
        assert(pool@ =~= AgentControllerPoolView::empty());
        pool
    }
}

/// Every agent of a pool has a registration of its own, whose count is that of its
/// busy slots.
pub proof fn every_pool_is_consistent(pool: &AgentControllerPool)
    requires
        pool.wf(),
    ensures
        pool@.is_consistent(),
{
    pool.lemma_ids();
    assert(pool@.agents.dom() =~= pool@.registrations.dom());
}

/// Claiming a slot of the least busy agent never takes more slots than it has, and
/// touches no other agent.
pub proof fn claims_stay_within_capacity(pool: AgentControllerPoolView, id: Seq<char>)
    requires
        pool.is_consistent(),
        pool.is_least_busy(id),
    ensures
        ({
            let after = pool.after_claim(pool.registrations[id]);
            &&& after.agents[id].slots_processing <= after.agents[id].slots_total
            &&& after.agents[id].slots_processing == pool.agents[id].slots_processing + 1
            &&& forall|other: Seq<char>| #[trigger]
                pool.agents.contains_key(other) && other != id ==> after.agents[other]
                    == pool.agents[other]
        }),
{
}

/// Giving a claimed slot back puts every count back to what it was, whether the
/// agent is still there or not.
pub proof fn release_undoes_claim(pool: AgentControllerPoolView, registration: int)
    requires
        pool.is_consistent(),
        0 <= registration < pool.counts.len(),
        pool.counts[registration] < i32::MAX,
    ensures
        pool.after_claim(registration).after_release(registration) == (AgentControllerPoolView {
            updates: pool.updates + 2,
            ..pool
        }),
{
    let after = pool.after_claim(registration).after_release(registration);
    assert(after.agents =~= pool.agents);
    assert(after.counts =~= pool.counts);
}

/// An agent that leaves, or another that registers, does not stop a claim.
pub proof fn leaving_does_not_stop_a_claim(
    pool: AgentControllerPoolView,
    candidate: DispatchCandidate,
    id: Seq<char>,
    agent: AgentControllerView,
)
    requires
        pool.can_claim(candidate),
    ensures
        pool.after_removal(id).can_claim(candidate),
        pool.after_registration(id, agent).can_claim(candidate),
{
}

/// A slot that is given back after its agent left touches no agent, not even one
/// that registered under the same id since.
pub proof fn late_releases_touch_no_agent(
    pool: AgentControllerPoolView,
    id: Seq<char>,
    successor: AgentControllerView,
)
    requires
        pool.is_consistent(),
        pool.agents.contains_key(id),
    ensures
        ({
            let left = pool.after_removal(id);
            let followed = left.after_registration(id, successor);
            let registration = pool.registrations[id];
            &&& left.after_release(registration).agents == left.agents
            &&& followed.after_release(registration).agents == followed.agents
        }),
{
    let left = pool.after_removal(id);
    let followed = left.after_registration(id, successor);
    let registration = pool.registrations[id];
    assert forall|other: Seq<char>| #[trigger] left.agents.contains_key(other) implies
        left.registrations[other] != registration by {
        assert(pool.agents.contains_key(other));
    };
    assert(left.after_release(registration).agents =~= left.agents);
    assert(followed.after_release(registration).agents =~= followed.agents);
}

/// Registering an agent under a new id and removing it again leaves the agents
/// as they were.
pub proof fn removal_undoes_registration(
    pool: AgentControllerPoolView,
    id: Seq<char>,
    agent: AgentControllerView,
)
    requires
        pool.is_consistent(),
        !pool.agents.contains_key(id),
    ensures
        ({
            let after = pool.after_registration(id, agent).after_removal(id);
            &&& after.agents == pool.agents
            &&& after.registrations == pool.registrations
            &&& after.counts == pool.counts.push(agent.slots_processing)
            &&& after.updates == pool.updates + 2
        }),
{
    let after = pool.after_registration(id, agent).after_removal(id);
    assert(after.agents =~= pool.agents);
    assert(!pool.registrations.dom().contains(id));
    assert(after.registrations =~= pool.registrations);
}

proof fn lemma_sums_without(
    ids: Seq<Seq<char>>,
    k: int,
    agents: Map<Seq<char>, AgentControllerView>,
)
    requires
        0 <= k < ids.len(),
    ensures
        busy_slots(ids, agents) == busy_slots(ids.remove(k), agents)
            + agents[ids[k]].slots_processing,
        all_slots(ids, agents) == all_slots(ids.remove(k), agents) + agents[ids[k]].slots_total,
    decreases ids.len(),
{
    if k == ids.len() - 1 {
        assert(ids.remove(k) =~= ids.drop_last());
    } else {
        lemma_sums_without(ids.drop_last(), k, agents);
        assert(ids.remove(k).drop_last() =~= ids.drop_last().remove(k));
        assert(ids.remove(k).last() == ids.last());
    }
}

proof fn lemma_sums_of_same_ids(
    left: Seq<Seq<char>>,
    right: Seq<Seq<char>>,
    agents: Map<Seq<char>, AgentControllerView>,
)
    requires
        left.no_duplicates(),
        right.no_duplicates(),
        forall|id: Seq<char>| left.contains(id) <==> #[trigger] right.contains(id),
    ensures
        busy_slots(left, agents) == busy_slots(right, agents),
        all_slots(left, agents) == all_slots(right, agents),
    decreases left.len(),
{
    if left.len() == 0 {
        if right.len() > 0 {
            assert(right.contains(right[0]));
            assert(left.contains(right[0]));
        }
    } else {
        let id = left.last();
        assert(left.contains(left[left.len() - 1]));
        assert(right.contains(id));
        let k = choose|k: int| 0 <= k < right.len() && right[k] == id;
        lemma_sums_without(right, k, agents);
        let shorter = right.remove(k);
        let rest = left.drop_last();
        assert forall|other: Seq<char>| rest.contains(other) <==> #[trigger]
            shorter.contains(other) by {
            if rest.contains(other) {
                let i = choose|i: int| 0 <= i < rest.len() && rest[i] == other;
                assert(left[i] == other);
                assert(left.contains(other));
                assert(right.contains(other));
                let j = choose|j: int| 0 <= j < right.len() && right[j] == other;
                assert(j != k);
                if j < k {
                    assert(shorter[j] == other);
                } else {
                    assert(shorter[j - 1] == other);
                }
            }
            if shorter.contains(other) {
                let j = choose|j: int| 0 <= j < shorter.len() && shorter[j] == other;
                let place = if j < k {
                    j
                } else {
                    j + 1
                };
                assert(right[place] == other);
                assert(right.contains(other));
                assert(left.contains(other));
                let i = choose|i: int| 0 <= i < left.len() && left[i] == other;
                assert(other != id);
                assert(rest[i] == other);
            }
        };
        assert(shorter.no_duplicates());
        lemma_sums_of_same_ids(rest, shorter, agents);
    }
}

/// The slots of all agents together do not depend on the order in which the
/// agents are counted.
pub proof fn totals_do_not_depend_on_the_order(
    left: Seq<Seq<char>>,
    right: Seq<Seq<char>>,
    agents: Map<Seq<char>, AgentControllerView>,
)
    requires
        lists_agents(left, agents),
        lists_agents(right, agents),
    ensures
        busy_slots(left, agents) == busy_slots(right, agents),
        all_slots(left, agents) == all_slots(right, agents),
{
    assert forall|id: Seq<char>| left.contains(id) <==> #[trigger] right.contains(id) by {
        assert(left.contains(id) <==> agents.contains_key(id));
    };
    lemma_sums_of_same_ids(left, right, agents);
}

proof fn lemma_sums_of_unchanged(
    ids: Seq<Seq<char>>,
    before: Map<Seq<char>, AgentControllerView>,
    after: Map<Seq<char>, AgentControllerView>,
)
    requires
        forall|i: int|
            0 <= i < ids.len() ==> before[#[trigger] ids[i]].slots_processing
                == after[ids[i]].slots_processing && before[ids[i]].slots_total
                == after[ids[i]].slots_total,
    ensures
        busy_slots(ids, before) == busy_slots(ids, after),
        all_slots(ids, before) == all_slots(ids, after),
    decreases ids.len(),
{
    if ids.len() > 0 {
        assert forall|i: int| 0 <= i < ids.drop_last().len() implies before[#[trigger] ids.drop_last()[i]].slots_processing
            == after[ids.drop_last()[i]].slots_processing && before[ids.drop_last()[i]].slots_total
            == after[ids.drop_last()[i]].slots_total by {
            assert(ids.drop_last()[i] == ids[i]);
        };
        lemma_sums_of_unchanged(ids.drop_last(), before, after);
        assert(ids.last() == ids[ids.len() - 1]);
    }
}

/// A claimed slot is counted once in the slots of all agents together.
pub proof fn a_claim_counts_once(
    pool: AgentControllerPoolView,
    ids: Seq<Seq<char>>,
    id: Seq<char>,
)
    requires
        pool.is_consistent(),
        lists_agents(ids, pool.agents),
        pool.agents.contains_key(id),
        pool.agents[id].slots_processing < i32::MAX,
    ensures
        ({
            let after = pool.after_claim(pool.registrations[id]).agents;
            &&& lists_agents(ids, after)
            &&& busy_slots(ids, after) == busy_slots(ids, pool.agents) + 1
            &&& all_slots(ids, after) == all_slots(ids, pool.agents)
        }),
{
    let after = pool.after_claim(pool.registrations[id]).agents;
    assert(ids.contains(id));
    let k = choose|k: int| 0 <= k < ids.len() && ids[k] == id;
    lemma_sums_without(ids, k, pool.agents);
    lemma_sums_without(ids, k, after);
    let others = ids.remove(k);
    assert forall|i: int| 0 <= i < others.len() implies pool.agents[#[trigger] others[i]].slots_processing
        == after[others[i]].slots_processing && pool.agents[others[i]].slots_total
        == after[others[i]].slots_total by {
        let place = if i < k {
            i
        } else {
            i + 1
        };
        assert(others[i] == ids[place]);
        assert(ids[place] != id);
        assert(ids.contains(ids[place]));
        assert(pool.agents.contains_key(ids[place]));
    };
    lemma_sums_of_unchanged(others, pool.agents, after);
    assert forall|other: Seq<char>| ids.contains(other) <==> #[trigger] after.contains_key(other) by {
        assert(ids.contains(other) <==> pool.agents.contains_key(other));
    };
}

/// A slot is found exactly if some agent has fewer busy slots than slots, and it is
/// one of an agent that has no more busy slots than any other such agent.
pub proof fn a_free_slot_is_found(pool: AgentControllerPoolView, id: Seq<char>)
    ensures
        pool.is_exhausted() <==> !exists|free: Seq<char>| #[trigger]
            pool.agents.contains_key(free) && pool.agents[free].slots_processing
                < pool.agents[free].slots_total,
        pool.is_least_busy(id) ==> {
            &&& pool.agents.contains_key(id)
            &&& pool.agents[id].slots_processing < pool.agents[id].slots_total
            &&& forall|other: Seq<char>| #[trigger]
                pool.agents.contains_key(other) && pool.agents[other].slots_processing
                    < pool.agents[other].slots_total ==> pool.agents[id].slots_processing
                    <= pool.agents[other].slots_processing
        },
{
}

/// The pool after so many slots of the agent of a registration were claimed.
pub open spec fn after_claims(
    pool: AgentControllerPoolView,
    registration: int,
    count: nat,
) -> AgentControllerPoolView
    decreases count,
{
    if count == 0 {
        pool
    } else {
        after_claims(pool, registration, (count - 1) as nat).after_claim(registration)
    }
}

/// An agent can be claimed once for each of its slots that are not busy, and no more:
/// until then a slot is found, and then that agent has none. Each claim is counted,
/// and no other agent is touched.
pub proof fn an_agent_is_claimed_once_for_each_free_slot(
    pool: AgentControllerPoolView,
    id: Seq<char>,
    count: nat,
)
    requires
        pool.is_consistent(),
        pool.agents.contains_key(id),
        count <= pool.agents[id].slots_total - pool.agents[id].slots_processing,
    ensures
        ({
            let agent = pool.agents[id];
            let after = after_claims(pool, pool.registrations[id], count);
            &&& after.is_consistent()
            &&& after.registrations == pool.registrations
            &&& after.agents.contains_key(id)
            &&& after.agents[id].slots_processing == agent.slots_processing + count
            &&& after.agents[id].slots_total == agent.slots_total
            &&& after.updates == pool.updates + count
            &&& count < agent.slots_total - agent.slots_processing ==> !after.is_exhausted()
            &&& count == agent.slots_total - agent.slots_processing ==> !after.is_least_busy(id)
            &&& forall|other: Seq<char>| #[trigger]
                after.agents.contains_key(other) <==> pool.agents.contains_key(other)
            &&& forall|other: Seq<char>| #[trigger]
                pool.agents.contains_key(other) && other != id ==> after.agents[other]
                    == pool.agents[other]
        }),
    decreases count,
{
    if count > 0 {
        an_agent_is_claimed_once_for_each_free_slot(pool, id, (count - 1) as nat);
        let before = after_claims(pool, pool.registrations[id], (count - 1) as nat);
        let after = before.after_claim(pool.registrations[id]);
        assert(after.agents.dom() =~= before.agents.dom());
        assert(after.agents.contains_key(id));
        assert forall|other: Seq<char>| #[trigger]
            after.agents.contains_key(other) <==> pool.agents.contains_key(other) by {
            assert(before.agents.contains_key(other) <==> pool.agents.contains_key(other));
        };
    }
}

/// A slot that is given back is free again: its agent has one busy slot less, and no
/// other agent is touched.
pub proof fn a_released_slot_is_free_again(pool: AgentControllerPoolView, id: Seq<char>)
    requires
        pool.is_consistent(),
        pool.agents.contains_key(id),
        pool.agents[id].slots_processing > i32::MIN,
    ensures
        ({
            let after = pool.after_release(pool.registrations[id]);
            &&& after.agents[id] == (AgentControllerView {
                slots_processing: (pool.agents[id].slots_processing - 1) as i32,
                ..pool.agents[id]
            })
            &&& after.updates == pool.updates + 1
            &&& pool.agents[id].slots_processing == pool.agents[id].slots_total
                ==> !after.is_exhausted()
            &&& forall|other: Seq<char>| #[trigger]
                pool.agents.contains_key(other) && other != id ==> after.agents[other]
                    == pool.agents[other]
        }),
{
    assert(pool.after_release(pool.registrations[id]).agents.contains_key(id));
}

/// An agent that registers can be found under its id as it registered, with a queue
/// and slots of its own, and the others are left alone; once it left, it is gone.
pub proof fn registrations_add_and_removals_take_away(
    pool: AgentControllerPoolView,
    id: Seq<char>,
    agent: AgentControllerView,
    other: Seq<char>,
)
    requires
        other != id,
    ensures
        pool.after_registration(id, agent).agents.contains_key(id),
        pool.after_registration(id, agent).agents[id] == agent,
        pool.after_registration(id, agent).updates == pool.updates + 1,
        !pool.after_removal(id).agents.contains_key(id),
        pool.agents.contains_key(id) ==> pool.after_removal(id).updates == pool.updates + 1,
        !pool.agents.contains_key(id) ==> pool.after_removal(id) == pool,
        pool.after_registration(id, agent).agents.contains_key(other)
            <==> pool.agents.contains_key(other),
        pool.after_removal(id).agents.contains_key(other) <==> pool.agents.contains_key(other),
        pool.agents.contains_key(other) ==> pool.after_registration(id, agent).agents[other]
            == pool.agents[other] && pool.after_removal(id).agents[other] == pool.agents[other],
{
}

/// Totals are sums: no agents have no slots, and an agent that is listed besides the
/// others adds its busy slots and its slots.
pub proof fn totals_are_sums(
    ids: Seq<Seq<char>>,
    id: Seq<char>,
    agents: Map<Seq<char>, AgentControllerView>,
)
    ensures
        busy_slots(Seq::empty(), agents) == 0,
        all_slots(Seq::empty(), agents) == 0,
        busy_slots(ids.push(id), agents) == busy_slots(ids, agents) + agents[id].slots_processing,
        all_slots(ids.push(id), agents) == all_slots(ids, agents) + agents[id].slots_total,
{
    assert(ids.push(id).drop_last() =~= ids);
}

/// A sum that fits a counter is shown as it is.
pub proof fn small_totals_are_exact(sum: int)
    requires
        i32::MIN <= sum <= i32::MAX,
    ensures
        wrapped(sum) == sum,
{
}

/// A slot is claimed exactly if some agent has fewer busy slots than slots. It is one
/// of such an agent with the fewest busy slots, which then has one more; everything
/// else stays as it was, and a claim is told.
pub proof fn a_claim_takes_a_free_slot_of_a_least_busy_agent(
    pool: &mut AgentControllerPool,
    dispatched: Option<DispatchedAgent>,
    id: Seq<char>,
)
    requires
        old(pool).wf(),
        call_ensures(
            AgentControllerPool::take_least_busy_agent_controller,
            (pool,),
            dispatched,
        ),
    ensures
        dispatched is None ==> final(pool)@ == old(pool)@,
        dispatched is None && old(pool)@.agents.contains_key(id) ==> old(
            pool,
        )@.agents[id].slots_processing >= old(pool)@.agents[id].slots_total,
        dispatched matches Some(dispatched) ==> {
            let before = old(pool)@.agents;
            let after = final(pool)@.agents;
            let claimed = dispatched.agent_id@;
            &&& before.contains_key(claimed)
            &&& before[claimed].slots_processing < before[claimed].slots_total
            &&& before.contains_key(id) && before[id].slots_processing < before[id].slots_total
                ==> before[claimed].slots_processing <= before[id].slots_processing
            &&& after[claimed].slots_processing == before[claimed].slots_processing + 1
            &&& after[claimed].slots_total == before[claimed].slots_total
            &&& after.contains_key(id) <==> before.contains_key(id)
            &&& before.contains_key(id) && id != claimed ==> after[id] == before[id]
            &&& dispatched.connection == before[claimed].connection
            &&& text_of(dispatched.name) == before[claimed].name
            &&& final(pool)@.updates == old(pool)@.updates + 1
        },
{
    every_pool_is_consistent(&*old(pool));
    if let Some(dispatched) = dispatched {
        assert(old(pool)@.agents.contains_key(dispatched.agent_id@));
        assert(final(pool)@.agents.contains_key(id) <==> old(pool)@.agents.contains_key(id));
    }
}

/// A slot that was seen is claimed exactly if as many slots are still busy as were
/// seen, and then one more is. Nothing else is counted differently.
pub proof fn a_slot_that_was_seen_is_claimed_once(
    pool: &mut AgentControllerPool,
    candidate: DispatchCandidate,
    result: Result<DispatchedAgent, DispatchCandidate>,
    other: int,
)
    requires
        candidate.snapshot < i32::MAX,
        call_ensures(AgentControllerPool::try_claim, (pool, candidate), result),
    ensures
        result is Ok <==> candidate.registration < old(pool)@.counts.len() && old(
            pool,
        )@.counts[candidate.registration as int] == candidate.snapshot,
        result is Ok ==> final(pool)@.counts[candidate.registration as int] == candidate.snapshot
            + 1,
        result is Ok ==> final(pool)@.updates == old(pool)@.updates + 1,
        result is Err ==> final(pool)@ == old(pool)@,
        final(pool)@.counts.len() == old(pool)@.counts.len(),
        0 <= other < old(pool)@.counts.len() && other != candidate.registration
            ==> final(pool)@.counts[other] == old(pool)@.counts[other],
        result matches Err(returned) ==> returned == candidate,
        result matches Ok(dispatched) ==> dispatched.agent_id == candidate.agent_id
            && dispatched.registration == candidate.registration && dispatched.agent_message_tx
            == candidate.agent_message_tx,
{
}

/// A slot that is given back is counted out of the busy slots of the registration that
/// it was claimed of, and of no other; and that is told.
pub proof fn a_slot_is_given_back_where_it_was_claimed(
    pool: &mut AgentControllerPool,
    dispatched: DispatchedAgent,
    other: int,
)
    requires
        call_ensures(AgentControllerPool::release, (pool, dispatched), ()),
    ensures
        ({
            let registration = dispatched.registration as int;
            let before = old(pool)@.counts;
            let after = final(pool)@.counts;
            registration < before.len() && before[registration] > i32::MIN ==> after[registration]
                == before[registration] - 1
        }),
        final(pool)@.counts.len() == old(pool)@.counts.len(),
        0 <= other < old(pool)@.counts.len() && other != dispatched.registration
            ==> final(pool)@.counts[other] == old(pool)@.counts[other],
        final(pool)@.updates == old(pool)@.updates + 1,
{
}

/// An agent joins exactly if its id is free, and is then found under it as it is; the
/// agents that were there stay as they were. Joining is told.
pub proof fn an_agent_joins_under_a_free_id(
    pool: &mut AgentControllerPool,
    agent_id: String,
    agent: AgentController,
    result: Result<(), AgentControllerAlreadyRegistered>,
    other: Seq<char>,
)
    requires
        call_ensures(
            AgentControllerPool::register_agent_controller,
            (pool, agent_id, agent),
            result,
        ),
        other != agent_id@,
    ensures
        result is Ok <==> !old(pool)@.agents.contains_key(agent_id@),
        result is Ok ==> {
            &&& final(pool)@.agents.contains_key(agent_id@)
            &&& final(pool)@.agents[agent_id@] == agent@
            &&& final(pool)@.updates == old(pool)@.updates + 1
        },
        result is Err ==> final(pool)@ == old(pool)@,
        final(pool)@.agents.contains_key(other) <==> old(pool)@.agents.contains_key(other),
        old(pool)@.agents.contains_key(other) ==> final(pool)@.agents[other] == old(
            pool,
        )@.agents[other],
{
}

/// An agent that leaves is gone, and the others stay as they were. That is told
/// exactly if it was there.
pub proof fn an_agent_leaves_alone(
    pool: &mut AgentControllerPool,
    agent_id: &str,
    removed: bool,
    other: Seq<char>,
)
    requires
        call_ensures(AgentControllerPool::remove_agent_controller, (pool, agent_id), removed),
        other != agent_id@,
    ensures
        removed <==> old(pool)@.agents.contains_key(agent_id@),
        !final(pool)@.agents.contains_key(agent_id@),
        final(pool)@.updates - old(pool)@.updates == if removed {
            1int
        } else {
            0int
        },
        final(pool)@.counts == old(pool)@.counts,
        final(pool)@.agents.contains_key(other) <==> old(pool)@.agents.contains_key(other),
        old(pool)@.agents.contains_key(other) ==> final(pool)@.agents[other] == old(
            pool,
        )@.agents[other],
{
}

/// What an agent reports is taken over, unless something newer is known, and touches
/// no other agent, nor the slots that were claimed of it.
pub proof fn reports_are_taken_over(
    pool: &mut AgentControllerPool,
    agent_id: &str,
    report: SlotAggregatedStatusSnapshot,
    result: Option<AgentControllerUpdateResult>,
    other: Seq<char>,
)
    requires
        call_ensures(
            AgentControllerPool::update_agent_controller,
            (pool, agent_id, report),
            result,
        ),
        other != agent_id@,
    ensures
        ({
            let before = old(pool)@.agents;
            let after = final(pool)@.agents;
            let id = agent_id@;
            &&& result is Some <==> before.contains_key(id)
            &&& result is None ==> final(pool)@ == old(pool)@
            &&& before.contains_key(id) ==> {
                &&& after.contains_key(id)
                &&& after[id].slots_processing == before[id].slots_processing
                &&& after[id].messages == before[id].messages
                &&& report.version < before[id].newest_update_version ==> after[id] == before[id]
                &&& report.version >= before[id].newest_update_version ==> {
                    &&& after[id].slots_total == report.slots_total
                    &&& after[id].desired_slots_total == report.desired_slots_total
                    &&& after[id].issues == report@.issues
                    &&& after[id].model_path == report@.model_path
                    &&& after[id].download_current == report.download_current
                    &&& after[id].download_total == report.download_total
                    &&& after[id].newest_update_version == report.version
                    &&& after[id].state_application_status_code
                        == report.state_application_status.code_of()
                }
                &&& final(pool)@.updates - old(pool)@.updates == if result == Some(
                    AgentControllerUpdateResult::Updated,
                ) {
                    1int
                } else {
                    0int
                }
                &&& after[id].slots_total != before[id].slots_total ==> result == Some(
                    AgentControllerUpdateResult::Updated,
                )
                &&& after[id] == before[id].after(report@)
                &&& result == Some(before[id].update_result(report@))
            }
            &&& after.contains_key(other) <==> before.contains_key(other)
            &&& before.contains_key(other) ==> after[other] == before[other]
            &&& final(pool)@.counts == old(pool)@.counts
        }),
{
}

/// As many ids are listed as there are agents.
pub proof fn lemma_as_many_ids_as_agents(
    ids: Seq<Seq<char>>,
    agents: Map<Seq<char>, AgentControllerView>,
)
    requires
        lists_agents(ids, agents),
    ensures
        ids.len() == agents.dom().len(),
{
    assert(ids.to_set() =~= agents.dom()) by {
        assert forall|id: Seq<char>| ids.to_set().contains(id) <==> agents.dom().contains(id) by {
            assert(ids.contains(id) <==> agents.contains_key(id));
        };
    };
    ids.unique_seq_to_set();
}

/// The size of a pool is the number of its agents.
pub proof fn agents_are_counted_once(pool: &AgentControllerPool, count: usize)
    requires
        call_ensures(AgentControllerPool::len, (pool,), count),
    ensures
        count == pool@.agents.dom().len(),
{
    let ids = choose|ids: Seq<Seq<char>>| #[trigger]
        lists_agents(ids, pool@.agents) && count == ids.len();
    lemma_as_many_ids_as_agents(ids, pool@.agents);
}

/// The slots of all agents together are the sums over the agents, in whatever order
/// they are listed, where the sums fit a counter.
pub proof fn the_slots_of_all_agents_add_up(
    pool: &AgentControllerPool,
    total: AgentControllerPoolTotalSlots,
    ids: Seq<Seq<char>>,
)
    requires
        call_ensures(AgentControllerPool::total_slots, (pool,), total),
        lists_agents(ids, pool@.agents),
        i32::MIN <= busy_slots(ids, pool@.agents) <= i32::MAX,
        i32::MIN <= all_slots(ids, pool@.agents) <= i32::MAX,
    ensures
        total.slots_processing == busy_slots(ids, pool@.agents),
        total.slots_total == all_slots(ids, pool@.agents),
{
    let counted = choose|counted: Seq<Seq<char>>|
        {
            &&& #[trigger] lists_agents(counted, pool@.agents)
            &&& total.slots_processing == wrapped(busy_slots(counted, pool@.agents))
            &&& total.slots_total == wrapped(all_slots(counted, pool@.agents))
        };
    totals_do_not_depend_on_the_order(ids, counted, pool@.agents);
    small_totals_are_exact(busy_slots(ids, pool@.agents));
    small_totals_are_exact(all_slots(ids, pool@.agents));
}

/// There is one rate for each agent, and the rate of every agent is among them.
pub proof fn every_agent_has_a_rate(
    pool: &AgentControllerPool,
    rates: Vec<TokensPerSecond>,
    id: Seq<char>,
)
    requires
        call_ensures(AgentControllerPool::tokens_per_second_of_agents, (pool,), rates),
    ensures
        rates@.len() == pool@.agents.dom().len(),
        pool@.agents.contains_key(id) ==> rates@.contains(pool@.agents[id].tokens_per_second),
{
    let ids = choose|ids: Seq<Seq<char>>|
        {
            &&& #[trigger] lists_agents(ids, pool@.agents)
            &&& rates@ == ids.map_values(|id: Seq<char>| pool@.agents[id].tokens_per_second)
        };
    lemma_as_many_ids_as_agents(ids, pool@.agents);
    if pool@.agents.contains_key(id) {
        assert(ids.contains(id));
        let i = choose|i: int| 0 <= i < ids.len() && ids[i] == id;
        assert(rates@[i] == pool@.agents[id].tokens_per_second);
    }
}

/// A snapshot shows every agent, each once. There is one exactly if every agent has a
/// valid status code.
pub proof fn every_agent_is_shown(
    pool: &AgentControllerPool,
    result: Result<AgentControllerPoolSnapshot, InvalidAgentStateApplicationStatus>,
    id: Seq<char>,
)
    requires
        call_ensures(AgentControllerPool::make_snapshot, (pool,), result),
    ensures
        result is Ok && pool@.agents.contains_key(id) ==> 0
            <= pool@.agents[id].state_application_status_code < 5,
        result matches Err(error) ==> !(0 <= error.value < 5) && exists|id: Seq<char>| #[trigger]
            pool@.agents.contains_key(id) && pool@.agents[id].state_application_status_code
                == error.value,
        result matches Ok(snapshot) ==> {
            &&& snapshot.agents@.len() == pool@.agents.dom().len()
            &&& pool@.agents.contains_key(id) ==> exists|i: int|
                {
                    let shown = #[trigger] snapshot.agents@[i];
                    &&& 0 <= i < snapshot.agents@.len()
                    &&& shown.id@ == pool@.agents[id].id
                    &&& shown.slots_processing == pool@.agents[id].slots_processing
                    &&& shown.slots_total == pool@.agents[id].slots_total
                    &&& shown.issues@ == pool@.agents[id].issues
                    &&& shown.state_application_status.code_of()
                        == pool@.agents[id].state_application_status_code
                }
        },
{
    if let Ok(snapshot) = result {
        let ids = choose|ids: Seq<Seq<char>>|
            {
                &&& #[trigger] lists_agents(ids, pool@.agents)
                &&& snapshot.agents@.len() == ids.len()
                &&& forall|i: int|
                    0 <= i < ids.len() ==> snapshot_shows(
                        pool@.agents[ids[i]],
                        #[trigger] snapshot.agents@[i],
                    )
            };
        lemma_as_many_ids_as_agents(ids, pool@.agents);
        if pool@.agents.contains_key(id) {
            assert(ids.contains(id));
            let i = choose|i: int| 0 <= i < ids.len() && ids[i] == id;
            let shown = snapshot.agents@[i];
            assert(snapshot_shows(pool@.agents[id], shown));
            let code = pool@.agents[id].state_application_status_code;
            codes_are_the_first_numbers(code);
            accepted_codes_are_codes_of_a_status(code);
            snapshots_show_what_is_kept(pool@.agents[id], shown.state_application_status);
        }
    }
    if let Err(error) = result {
        codes_are_the_first_numbers(error.value);
    }
}

/// A desired state is the last thing that every agent was asked, and all of them could
/// be asked; or some agent could not be asked. Nothing else changes of any agent.
pub proof fn every_agent_is_asked(
    pool: &mut AgentControllerPool,
    desired_state: AgentDesiredState,
    result: Result<(), AgentUnreachable>,
    id: Seq<char>,
)
    requires
        call_ensures(AgentControllerPool::set_desired_state, (pool, desired_state), result),
    ensures
        ({
            let before = old(pool)@.agents;
            let after = final(pool)@.agents;
            let message = AgentJsonRpcMessage::Notification(
                AgentJsonRpcNotification::SetState(Box::new(SetStateParams { desired_state })),
            );
            &&& after.contains_key(id) <==> before.contains_key(id)
            &&& result is Ok && before.contains_key(id) ==> after[id].messages
                == before[id].messages.push((message, true))
            &&& result is Err ==> exists|unreached: Seq<char>| #[trigger]
                before.contains_key(unreached) && after[unreached].messages
                    == before[unreached].messages.push((message, false))
            &&& before.contains_key(id) ==> after[id] == (AgentControllerView {
                messages: after[id].messages,
                ..before[id]
            })
            &&& final(pool)@.updates == old(pool)@.updates
        }),
{
    if result is Err {
        let unreached = choose|unreached: Seq<char>| #[trigger]
            asked_until(old(pool)@, final(pool)@, desired_state, unreached);
        assert(old(pool)@.agents.contains_key(unreached));
    }
}

/// A sum that does not fit a counter is shown as what is left of it once the counter went
/// round as often as it takes.
pub proof fn counters_go_round(sum: int)
    ensures
        i32::MIN <= wrapped(sum) <= i32::MAX,
        (sum - wrapped(sum)) % 0x1_0000_0000 == 0,
{
    let shifted = sum + 0x8000_0000;
    assert((shifted - shifted % 0x1_0000_0000) % 0x1_0000_0000 == 0);
}

/// Counts that differ still differ once a slot was given back.
pub proof fn releases_keep_counts_apart(
    left: AgentControllerPoolView,
    right: AgentControllerPoolView,
    registration: int,
)
    requires
        0 <= registration < left.counts.len(),
        0 <= registration < right.counts.len(),
    ensures
        left.after_release(registration).counts[registration] == right.after_release(
            registration,
        ).counts[registration] <==> left.counts[registration] == right.counts[registration],
{
}

/// An agent is found under its id, as it is, exactly if it is there; telling subscribers of
/// a change changes nothing else.
pub proof fn an_agent_is_found_under_its_id(
    pool: &AgentControllerPool,
    agent_id: &str,
    agent: Option<&AgentController>,
    signalled: &mut AgentControllerPool,
)
    requires
        call_ensures(AgentControllerPool::get_agent_controller, (pool, agent_id), agent),
        call_ensures(AgentControllerPool::signal_update, (signalled,), ()),
    ensures
        agent is Some <==> pool@.agents.contains_key(agent_id@),
        agent matches Some(agent) ==> agent@ == pool@.agents[agent_id@],
        final(signalled)@.updates == old(signalled)@.updates + 1,
        final(signalled)@.agents == old(signalled)@.agents,
        final(signalled)@.counts == old(signalled)@.counts,
{
}

/// A message to an agent that is there is the last one that was to be sent to it, and the
/// others are left alone.
pub proof fn a_message_reaches_its_own_agent(
    pool: &mut AgentControllerPool,
    agent_id: &str,
    message: AgentJsonRpcMessage,
    held: Option<&mpsc::UnboundedReceiver<AgentJsonRpcMessage>>,
    result: Option<Result<(), AgentUnreachable>>,
    other: Seq<char>,
)
    requires
        call_ensures(
            AgentControllerPool::send_to_agent_controller,
            (pool, agent_id, message, held),
            result,
        ),
        other != agent_id@,
    ensures
        ({
            let before = old(pool)@.agents;
            let after = final(pool)@.agents;
            let id = agent_id@;
            &&& result is Some <==> before.contains_key(id)
            &&& result matches Some(sent) ==> after[id].messages == before[id].messages.push(
                (message, sent is Ok),
            )
            &&& after.contains_key(other) <==> before.contains_key(other)
            &&& before.contains_key(other) ==> after[other] == before[other]
        }),
{
}

/// Whoever subscribes has seen everything so far, and has not seen what changes next.
pub proof fn a_subscriber_is_told_of_the_next_change(
    pool: &AgentControllerPool,
    receiver: watch::Receiver<()>,
    changed: &mut AgentControllerPool,
)
    requires
        call_ensures(AgentControllerPool::subscribe_to_updates, (pool,), receiver),
        *old(changed) == *pool,
        call_ensures(AgentControllerPool::signal_update, (changed,), ()),
    ensures
        updates_seen(receiver) == pool@.updates,
        updates_seen(receiver) < final(changed)@.updates,
{
}

/// A question to an agent that is there is the last message to it, under a fresh id with
/// which its answer is awaited on the channel; other agents are left alone. Nobody waits
/// for an agent that is not there, or that could not be asked.
pub proof fn a_question_reaches_its_own_agent(
    pool: &mut AgentControllerPool,
    agent_id: &str,
    senders: &mut SenderCollection,
    channel: usize,
    request: AgentJsonRpcRequest,
    result: Option<Result<String, AgentRequestError>>,
    other: Seq<char>,
)
    requires
        call_ensures(
            AgentControllerPool::request_from_agent_controller,
            (pool, agent_id, senders, channel, request),
            result,
        ),
        other != agent_id@,
    ensures
        ({
            let before = old(pool)@.agents;
            let after = final(pool)@.agents;
            let id = agent_id@;
            &&& result is Some <==> before.contains_key(id)
            &&& result matches Some(Ok(request_id)) ==> {
                &&& is_identifier(request_id@)
                &&& final(senders)@.contains_key(request_id@)
                &&& final(senders)@[request_id@] == channel
                &&& after[id].messages.len() == before[id].messages.len() + 1
                &&& after[id].messages.last() == (request_message(request_id, request), true)
            }
            &&& !(result matches Some(Ok(_))) ==> final(senders)@ == old(senders)@
            &&& after.contains_key(other) <==> before.contains_key(other)
            &&& before.contains_key(other) ==> after[other] == before[other]
        }),
{
}

/// At first no agent is there, and nobody was told of anything.
pub proof fn at_first_no_agent_is_there(pool: AgentControllerPool, id: Seq<char>)
    requires
        call_ensures(AgentControllerPool::default, (), pool),
    ensures
        !pool@.agents.contains_key(id),
        pool@.counts.len() == 0,
        pool@.updates == 0,
{
}

} // verus!
