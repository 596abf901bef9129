//! The HTTP endpoint that lists the agents.
use vstd::prelude::*;

use crate::balancer::agent_controller_pool::lemma_as_many_ids_as_agents;
use crate::balancer::agent_controller_pool::lists_agents;
use crate::balancer::agent_controller_pool::snapshot_shows;
use crate::balancer::agent_controller_pool::AgentControllerPool;
use crate::balancer::agent_controller_pool::AgentControllerPoolSnapshot;
use crate::balancer::controls_manages_senders_endpoint::EndpointResponse;
use crate::balancer::controls_manages_senders_endpoint::ResponseBody;
use crate::messaging::agent_state_application_status::AgentStateApplicationStatus;
use crate::messaging::agent_state_application_status::InvalidAgentStateApplicationStatus;

verus! {

/// The agents, whose JSON form is the answer; or the answer if the state of one of
/// them has no valid status code.
pub fn respond(agent_controller_pool: &AgentControllerPool) -> (result: Result<
    AgentControllerPoolSnapshot,
    EndpointResponse,
>)
    requires
        agent_controller_pool.wf(),
    ensures
        match result {
            Ok(snapshot) => exists|ids: Seq<Seq<char>>|
                {
                    &&& #[trigger] lists_agents(ids, agent_controller_pool@.agents)
                    &&& snapshot.agents@.len() == ids.len()
                    &&& forall|i: int|
                        0 <= i < ids.len() ==> snapshot_shows(
                            agent_controller_pool@.agents[ids[i]],
                            #[trigger] snapshot.agents@[i],
                        )
                },
            Err(response) => {
                &&& response.status == 500
                &&& response.body matches ResponseBody::Text(text)
                &&& exists|id: Seq<char>|
                    {
                        let code = agent_controller_pool@.agents[id].state_application_status_code;
                        &&& #[trigger] agent_controller_pool@.agents.contains_key(id)
                        &&& AgentStateApplicationStatus::of_code(code) is None
                        &&& text@ == (InvalidAgentStateApplicationStatus {
                            value: code,
                        }).message_text()
                    }
            },
        },
{
    match agent_controller_pool.make_snapshot() {
        Ok(snapshot) => Ok(snapshot),
        Err(error) => Err(
            EndpointResponse { status: 500, body: ResponseBody::Text(error.message()) },
        ),
    }
}

/// A client is shown every agent, each once, and as it is; or is told that the state of some
/// agent has no valid status code.
pub proof fn a_client_is_shown_every_agent(
    pool: &AgentControllerPool,
    result: Result<AgentControllerPoolSnapshot, EndpointResponse>,
    id: Seq<char>,
)
    requires
        call_ensures(respond, (pool,), result),
    ensures
        result matches Ok(snapshot) ==> {
            &&& snapshot.agents@.len() == pool@.agents.dom().len()
            &&& pool@.agents.contains_key(id) ==> exists|i: int|
                0 <= i < snapshot.agents@.len() && snapshot_shows(
                    pool@.agents[id],
                    #[trigger] snapshot.agents@[i],
                )
        },
        result matches Err(response) ==> response.status == 500 && exists|id: Seq<char>| #[trigger]
            pool@.agents.contains_key(id) && !(0 <= pool@.agents[id].state_application_status_code
                < 5),
{
    if let Ok(snapshot) = result {
        let ids = choose|ids: Seq<Seq<char>>|
            {
                &&& #[trigger] lists_agents(ids, pool@.agents)
                &&& snapshot.agents@.len() == ids.len()
                &&& forall|i: int|
                    0 <= i < ids.len() ==> snapshot_shows(
                        pool@.agents[ids[i]],
                        #[trigger] snapshot.agents@[i],
                    )
            };
        lemma_as_many_ids_as_agents(ids, pool@.agents);
        if pool@.agents.contains_key(id) {
            assert(ids.contains(id));
            let i = choose|i: int| 0 <= i < ids.len() && ids[i] == id;
            assert(snapshot_shows(pool@.agents[id], snapshot.agents@[i]));
        }
    }
}

} // verus!
