# Paddler

A load balancer for large language models: agents join a balancer, the balancer
hands the requests of clients to the agents that have a slot to spare, and a front
end starts and shows either of them.

`src/` is the library: what agents, the balancer, the front end and the tools that
watch a cluster keep and decide. Every function in it has a contract that Verus
proves.

- `messaging` holds the messages, and what agents report.
- `agent` holds an agent's own state, its connection to the balancer, and how it
  applies the state that it is asked to be in.
- `balancer` holds the pool of agents, the requests that wait for a slot, how
  requests travel to an agent and responses back, and what the endpoints answer.
- `cluster` holds what is waited for in a cluster.
- `gui` holds the screens of the front end, their forms, and what they show.
- `text` writes numbers.
- `outside` declares what is called in other crates, and under which contracts.
  What it says is the only thing that is not proved.

Whatever waits, reads or writes is done in `app/`: it turns what happened into an
event, asks the library what to do about it, and does that. Shared state is locked
there. Rates are floating-point numbers, which the library carries as bit patterns
and leaves to `app/` to compute.

`tests/` runs the library.
