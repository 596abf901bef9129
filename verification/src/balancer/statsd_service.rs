//! The metrics that the balancer reports.
use vstd::prelude::*;

use crate::balancer::agent_controller_pool::AgentControllerPool;
use crate::balancer::agent_controller_pool::all_slots;
use crate::balancer::agent_controller_pool::busy_slots;
use crate::balancer::agent_controller_pool::lists_agents;
use crate::balancer::agent_controller_pool::small_totals_are_exact;
use crate::balancer::agent_controller_pool::totals_do_not_depend_on_the_order;
use crate::balancer::agent_controller_pool::wrapped;
use crate::balancer::buffered_request_manager::BufferedRequestManager;

verus! {

/// A metric with its current value.
#[derive(Clone, Copy, Debug, PartialEq, Eq, Structural)]
pub struct Gauge {
    pub metric: Metric,
    pub value: u64,
}

/// What is measured.
#[derive(Clone, Copy, Debug, PartialEq, Eq, Structural)]
pub enum Metric {
    SlotsProcessing,
    SlotsTotal,
    RequestsBuffered,
    TokensPerSecond,
}

impl Metric {
    /// The name under which the metric is reported.
    pub fn name(&self) -> (name: &'static str)
        ensures
            name@ == match *self {
                Metric::SlotsProcessing => "slots_processing"@,
                Metric::SlotsTotal => "slots_total"@,
                Metric::RequestsBuffered => "requests_buffered"@,
                Metric::TokensPerSecond => "tokens_per_second"@,
            },
    {
        match self {
            Metric::SlotsProcessing => "slots_processing",
            Metric::SlotsTotal => "slots_total",
            Metric::RequestsBuffered => "requests_buffered",
            Metric::TokensPerSecond => "tokens_per_second",
        }
    }
}

/// A count that is negative, and cannot be reported.
#[derive(Clone, Copy, Debug, PartialEq, Eq, Structural)]
pub enum NegativeCount {
    SlotsProcessing,
    SlotsTotal,
    RequestsBuffered,
}

impl NegativeCount {
    /// The error as a message.
    pub fn message(&self) -> (text: &'static str)
        ensures
            text@ == match *self {
                NegativeCount::SlotsProcessing => "slots_processing count is negative"@,
                NegativeCount::SlotsTotal => "slots_total count is negative"@,
                NegativeCount::RequestsBuffered => "requests_buffered count is negative"@,
            },
    {
        match self {
            NegativeCount::SlotsProcessing => "slots_processing count is negative",
            NegativeCount::SlotsTotal => "slots_total count is negative",
            NegativeCount::RequestsBuffered => "requests_buffered count is negative",
        }
    }
}

/// What is reported for the given counts: the first negative one is an error.
pub open spec fn report(
    slots_processing: int,
    slots_total: int,
    requests_buffered: int,
    tokens_per_second: u64,
) -> Result<Seq<Gauge>, NegativeCount> {
    if slots_processing < 0 {
        Err(NegativeCount::SlotsProcessing)
    } else if slots_total < 0 {
        Err(NegativeCount::SlotsTotal)
    } else if requests_buffered < 0 {
        Err(NegativeCount::RequestsBuffered)
    } else {
        Ok(
            seq![
                Gauge { metric: Metric::SlotsProcessing, value: slots_processing as u64 },
                Gauge { metric: Metric::SlotsTotal, value: slots_total as u64 },
                Gauge { metric: Metric::RequestsBuffered, value: requests_buffered as u64 },
                Gauge { metric: Metric::TokensPerSecond, value: tokens_per_second },
            ],
        )
    }
}

/// The metrics in the order in which they are sent, as [`emission_step`] says.
/// `tokens_per_second` is the rate of all agents together, rounded.
pub fn report_metrics(
    agent_controller_pool: &AgentControllerPool,
    buffered_request_manager: &BufferedRequestManager,
    tokens_per_second: u64,
) -> (result: Result<Vec<Gauge>, NegativeCount>)
    requires
        agent_controller_pool.wf(),
    ensures
        exists|ids: Seq<Seq<char>>|
            {
                &&& #[trigger] lists_agents(ids, agent_controller_pool@.agents)
                &&& match (
                    report(
                        wrapped(busy_slots(ids, agent_controller_pool@.agents)),
                        wrapped(all_slots(ids, agent_controller_pool@.agents)),
                        buffered_request_manager@.buffered_requests as int,
                        tokens_per_second,
                    ),
                    result,
                ) {
                    (Ok(expected), Ok(gauges)) => gauges@ == expected,
                    (Err(expected), Err(error)) => error == expected,
                    _ => false,
                }
            },
{
    let total = agent_controller_pool.total_slots();
    let requests_buffered: i32 =
        buffered_request_manager.make_snapshot().buffered_requests_current;
    let ghost agents = agent_controller_pool@.agents;
    let ghost ids = choose|ids: Seq<Seq<char>>|
        {
            &&& #[trigger] lists_agents(ids, agents)
            &&& total.slots_processing == wrapped(busy_slots(ids, agents))
            &&& total.slots_total == wrapped(all_slots(ids, agents))
        };
    assert(lists_agents(ids, agents));
    if total.slots_processing < 0 {
        return Err(NegativeCount::SlotsProcessing);
    }
    if total.slots_total < 0 {
        return Err(NegativeCount::SlotsTotal);
    }
    if requests_buffered < 0 {
        return Err(NegativeCount::RequestsBuffered);
    }
    let gauges = vec![
        Gauge { metric: Metric::SlotsProcessing, value: total.slots_processing as u64 },
        Gauge { metric: Metric::SlotsTotal, value: total.slots_total as u64 },
        Gauge { metric: Metric::RequestsBuffered, value: requests_buffered as u64 },
        Gauge { metric: Metric::TokensPerSecond, value: tokens_per_second },
    ];
    assert(Ok::<Seq<Gauge>, NegativeCount>(gauges@) == report(
        wrapped(busy_slots(ids, agents)),
        wrapped(all_slots(ids, agents)),
        buffered_request_manager@.buffered_requests as int,
        tokens_per_second,
    )) by {
        assert(gauges@ =~= seq![
            Gauge { metric: Metric::SlotsProcessing, value: total.slots_processing as u64 },
            Gauge { metric: Metric::SlotsTotal, value: total.slots_total as u64 },
            Gauge { metric: Metric::RequestsBuffered, value: requests_buffered as u64 },
            Gauge { metric: Metric::TokensPerSecond, value: tokens_per_second },
        ]);
    };
    Ok(gauges)
}

/// What is to be done next to send a report.
#[derive(Clone, Copy, Debug, PartialEq, Eq, Structural)]
pub enum EmissionStep {
    Emit(Gauge),
    /// Everything was emitted; it is to be flushed.
    Flush,
    /// The report was sent.
    Done,
    /// What was done last failed. Nothing more is sent.
    Fail,
}

/// Decides what to do next to send a report, of which `finished` steps are behind.
/// The first step that fails is the last one.
pub fn emission_step(gauges: &Vec<Gauge>, finished: usize, last_succeeded: bool) -> (step:
    EmissionStep)
    ensures
        step == if !last_succeeded {
            EmissionStep::Fail
        } else if finished < gauges@.len() {
            EmissionStep::Emit(gauges@[finished as int])
        } else if finished == gauges@.len() {
            EmissionStep::Flush
        } else {
            EmissionStep::Done
        },
{
    if !last_succeeded {
        EmissionStep::Fail
    } else if finished < gauges.len() {
        EmissionStep::Emit(gauges[finished])
    } else if finished == gauges.len() {
        EmissionStep::Flush
    } else {
        EmissionStep::Done
    }
}

/// The name of the service.
pub fn name() -> (name: &'static str)
    ensures
        name@ == "balancer::statsd_service"@,
{
    "balancer::statsd_service"
}

/// Whether `gauges` say of `metric` that it has the value.
pub open spec fn says(gauges: Seq<Gauge>, metric: Metric, value: int) -> bool {
    exists|i: int|
        0 <= i < gauges.len() && (#[trigger] gauges[i]).metric == metric && gauges[i].value == value
}

/// What is reported are the counts as they are, each under its own metric and each
/// once; they are reported exactly if none of them is negative.
pub proof fn reported_values_are_the_counts(
    agent_controller_pool: &AgentControllerPool,
    buffered_request_manager: &BufferedRequestManager,
    tokens_per_second: u64,
    result: Result<Vec<Gauge>, NegativeCount>,
    ids: Seq<Seq<char>>,
)
    requires
        call_ensures(
            report_metrics,
            (agent_controller_pool, buffered_request_manager, tokens_per_second),
            result,
        ),
        lists_agents(ids, agent_controller_pool@.agents),
        i32::MIN <= busy_slots(ids, agent_controller_pool@.agents) <= i32::MAX,
        i32::MIN <= all_slots(ids, agent_controller_pool@.agents) <= i32::MAX,
    ensures
        ({
            let busy = busy_slots(ids, agent_controller_pool@.agents);
            let all = all_slots(ids, agent_controller_pool@.agents);
            let waiting = buffered_request_manager@.buffered_requests as int;
            &&& result is Ok <==> busy >= 0 && all >= 0 && waiting >= 0
            &&& result matches Err(error) ==> match error {
                NegativeCount::SlotsProcessing => busy < 0,
                NegativeCount::SlotsTotal => busy >= 0 && all < 0,
                NegativeCount::RequestsBuffered => busy >= 0 && all >= 0 && waiting < 0,
            }
            &&& result matches Ok(gauges) ==> {
                &&& gauges@.len() == 4
                &&& gauges@[0].metric == Metric::SlotsProcessing
                &&& gauges@[1].metric == Metric::SlotsTotal
                &&& gauges@[2].metric == Metric::RequestsBuffered
                &&& says(gauges@, Metric::SlotsProcessing, busy)
                &&& says(gauges@, Metric::SlotsTotal, all)
                &&& says(gauges@, Metric::RequestsBuffered, waiting)
                &&& says(gauges@, Metric::TokensPerSecond, tokens_per_second as int)
            }
        }),
{
    let agents = agent_controller_pool@.agents;
    let waiting = buffered_request_manager@.buffered_requests as int;
    let counted = choose|counted: Seq<Seq<char>>|
        {
            &&& #[trigger] lists_agents(counted, agents)
            &&& match (
                report(
                    wrapped(busy_slots(counted, agents)),
                    wrapped(all_slots(counted, agents)),
                    waiting,
                    tokens_per_second,
                ),
                result,
            ) {
                (Ok(expected), Ok(gauges)) => gauges@ == expected,
                (Err(expected), Err(error)) => error == expected,
                _ => false,
            }
        };
    totals_do_not_depend_on_the_order(ids, counted, agents);
    small_totals_are_exact(busy_slots(ids, agents));
    small_totals_are_exact(all_slots(ids, agents));
    if let Ok(gauges) = result {
        assert(gauges@[0].metric == Metric::SlotsProcessing);
        assert(gauges@[1].metric == Metric::SlotsTotal);
        assert(gauges@[2].metric == Metric::RequestsBuffered);
        assert(gauges@[3].metric == Metric::TokensPerSecond);
    }
}

/// Every value is sent once and in its turn, and then all of them are flushed; a step
/// that fails is the last one.
pub proof fn every_value_is_sent_in_its_turn(
    gauges: &Vec<Gauge>,
    finished: usize,
    last_succeeded: bool,
    step: EmissionStep,
    i: int,
)
    requires
        call_ensures(emission_step, (gauges, finished, last_succeeded), step),
        0 <= i < gauges@.len(),
    ensures
        step is Fail <==> !last_succeeded,
        last_succeeded && finished == i ==> step == EmissionStep::Emit(gauges@[i]),
        step is Flush <==> last_succeeded && finished == gauges@.len(),
        step is Done <==> last_succeeded && finished > gauges@.len(),
{
}

/// No two metrics share a name, and a metric is told apart by its name alone.
pub proof fn metrics_have_names_of_their_own(
    left: &Metric,
    right: &Metric,
    left_name: &'static str,
    right_name: &'static str,
)
    requires
        call_ensures(Metric::name, (left,), left_name),
        call_ensures(Metric::name, (right,), right_name),
    ensures
        left_name@ == right_name@ <==> *left == *right,
{
    reveal_strlit("slots_processing");
    reveal_strlit("slots_total");
    reveal_strlit("requests_buffered");
    reveal_strlit("tokens_per_second");
    if left_name@ == right_name@ {
        assert(left_name@.len() == right_name@.len());
        assert(left_name@[0] == right_name@[0]);
    }
}

} // verus!
