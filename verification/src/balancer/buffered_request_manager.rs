//! Requests that wait for a slot.
use tokio::sync::watch;
use vstd::prelude::*;

use crate::balancer::agent_controller_pool::AgentControllerPool;
use crate::balancer::agent_controller_pool::AgentControllerPoolView;
use crate::balancer::agent_controller_pool::DispatchedAgent;
use crate::balancer::agent_controller_pool::a_free_slot_is_found;
use crate::outside::send_update;
use crate::outside::subscribe;
use crate::outside::update_channel;
use crate::outside::updates_seen;
use crate::outside::updates_sent;

verus! {

/// Counts the requests that wait for a slot, and limits them. Subscribers are
/// told when the count changes.
pub struct BufferedRequestManager {
    buffered_requests: i32,
    max_buffered_requests: i32,
    update_tx: watch::Sender<()>,
}

/// The content of a manager.
#[verifier::ext_equal]
pub ghost struct BufferedRequestManagerView {
    pub buffered_requests: i32,
    pub max_buffered_requests: i32,
    /// How often subscribers were told of a change.
    pub updates: nat,
}

/// What is known of the waiting requests at one moment.
#[derive(Clone, Copy, Debug, PartialEq, Eq, Structural)]
pub struct BufferedRequestManagerSnapshot {
    pub buffered_requests_current: i32,
}

/// A request that waits for a slot, and is counted for as long as it does.
#[derive(Debug)]
pub struct BufferedRequest;

/// What a request that needs a slot gets at once.
#[derive(Debug)]
pub enum BufferedRequestStart {
    /// A slot was free.
    Found(DispatchedAgent),
    /// No slot was free, and too many requests wait already.
    BufferOverflow,
    /// No slot was free; the request waits.
    Waiting(BufferedRequest),
}

/// What happens while a request waits for a slot.
#[derive(Clone, Copy, Debug, PartialEq, Eq, Structural)]
pub enum BufferedRequestEvent {
    /// The pool of agents may have changed.
    PoolUpdated,
    /// The pool of agents will not change any more.
    PoolClosed,
    /// The request has waited for as long as it may.
    TimedOut,
    /// Nobody is interested in the request any more.
    Abandoned,
}

/// What comes of waiting for a slot.
#[derive(Debug)]
pub enum BufferedRequestAgentWaitResult {
    Found(DispatchedAgent),
    BufferOverflow,
    Timeout,
}

/// Where a waiting request stands after an event.
#[derive(Debug)]
pub enum BufferedRequestStep {
    /// The request waits on.
    Waiting(BufferedRequest),
    /// The wait is over.
    Resolved(BufferedRequestAgentWaitResult),
    /// The wait is over because the pool will not change any more.
    Failed,
    /// The wait is over because nobody is interested any more.
    Abandoned,
}

impl BufferedRequestManagerView {
    /// The manager after the count changed to `count`.
    pub open spec fn counting(self, count: i32) -> BufferedRequestManagerView {
        BufferedRequestManagerView {
            buffered_requests: count,
            updates: self.updates + 1,
            ..self
        }
    }

    /// The manager after one more request began to wait.
    pub open spec fn with_one_more(self) -> BufferedRequestManagerView {
        self.counting(self.buffered_requests.wrapping_add(1))
    }

    /// The manager after one request stopped to wait.
    pub open spec fn with_one_less(self) -> BufferedRequestManagerView {
        self.counting(self.buffered_requests.wrapping_sub(1))
    }

    /// Whether no further request may wait.
    pub open spec fn is_full(self) -> bool {
        self.buffered_requests >= self.max_buffered_requests
    }
}

impl View for BufferedRequestManager {
    type V = BufferedRequestManagerView;

    closed spec fn view(&self) -> BufferedRequestManagerView {
        BufferedRequestManagerView {
            buffered_requests: self.buffered_requests,
            max_buffered_requests: self.max_buffered_requests,
            updates: updates_sent(self.update_tx),
        }
    }
}

/// How an attempt to claim a slot leaves the pool.
pub open spec fn attempt_leaves(
    before: AgentControllerPoolView,
    after: AgentControllerPoolView,
    dispatched: Option<DispatchedAgent>,
) -> bool {
    match dispatched {
        Some(dispatched) => {
            &&& before.is_least_busy(dispatched.agent_id@)
            &&& dispatched.is_new_claim_on(before)
            &&& after == before.after_claim(dispatched.registration as int)
        },
        None => before.is_exhausted() && after == before,
    }
}

impl BufferedRequestManager {
    /// No request waits, and at most `max_buffered_requests` may.
    pub fn new(max_buffered_requests: i32) -> (manager: BufferedRequestManager)
        ensures
            manager@.buffered_requests == 0,
            manager@.max_buffered_requests == max_buffered_requests,
            manager@.updates == 0,
    {
        BufferedRequestManager {
            buffered_requests: 0,
            max_buffered_requests,
            update_tx: update_channel(),
        }
    }

    /// Counts one more request that waits.
    pub fn increment(&mut self)
        ensures
            final(self)@ == old(self)@.with_one_more(),
    {
        self.buffered_requests = self.buffered_requests.wrapping_add(1);
        send_update(&mut self.update_tx);
    }

    /// Counts one request that waits less.
    pub fn decrement(&mut self)
        ensures
            final(self)@ == old(self)@.with_one_less(),
    {
        self.buffered_requests = self.buffered_requests.wrapping_sub(1);
        send_update(&mut self.update_tx);
    }

    /// Claims a slot for a request. Where none is free the request waits, unless
    /// too many do already. A limit of zero means that no request ever waits.
    pub fn begin_wait(&mut self, pool: &mut AgentControllerPool) -> (start: BufferedRequestStart)
        requires
            old(pool).wf(),
        ensures
            final(pool).wf(),
            match start {
                BufferedRequestStart::Found(dispatched) => {
                    &&& attempt_leaves(old(pool)@, final(pool)@, Some(dispatched))
                    &&& final(self)@ == old(self)@
                },
                BufferedRequestStart::BufferOverflow => {
                    &&& attempt_leaves(old(pool)@, final(pool)@, None)
                    &&& old(self)@.is_full()
                    &&& final(self)@ == old(self)@
                },
                BufferedRequestStart::Waiting(_) => {
                    &&& attempt_leaves(old(pool)@, final(pool)@, None)
                    &&& !old(self)@.is_full()
                    &&& final(self)@ == old(self)@.with_one_more()
                },
            },
    {
        if let Some(dispatched) = pool.take_least_busy_agent_controller() {
            return BufferedRequestStart::Found(dispatched);
        }
        if self.buffered_requests >= self.max_buffered_requests {
            return BufferedRequestStart::BufferOverflow;
        }
        self.increment();
        BufferedRequestStart::Waiting(BufferedRequest)
    }

    /// Goes on with a waiting request after an event. A request that does not
    /// wait any more is not counted any more.
    pub fn continue_wait(
        &mut self,
        pool: &mut AgentControllerPool,
        request: BufferedRequest,
        event: BufferedRequestEvent,
    ) -> (step: BufferedRequestStep)
        requires
            old(pool).wf(),
        ensures
            final(pool).wf(),
            final(self)@ == if step is Waiting {
                old(self)@
            } else {
                old(self)@.with_one_less()
            },
            match event {
                BufferedRequestEvent::PoolUpdated => match step {
                    BufferedRequestStep::Resolved(
                        BufferedRequestAgentWaitResult::Found(dispatched),
                    ) => attempt_leaves(old(pool)@, final(pool)@, Some(dispatched)),
                    BufferedRequestStep::Waiting(_) => attempt_leaves(
                        old(pool)@,
                        final(pool)@,
                        None,
                    ),
                    _ => false,
                },
                BufferedRequestEvent::PoolClosed => step is Failed && final(pool)@ == old(pool)@,
                BufferedRequestEvent::TimedOut => final(pool)@ == old(pool)@ && step
                    == BufferedRequestStep::Resolved(BufferedRequestAgentWaitResult::Timeout),
                BufferedRequestEvent::Abandoned => step is Abandoned && final(pool)@ == old(pool)@,
            },
    {
        match event {
            BufferedRequestEvent::PoolUpdated => {
                match pool.take_least_busy_agent_controller() {
                    Some(dispatched) => {
                        self.decrement();
                        BufferedRequestStep::Resolved(
                            BufferedRequestAgentWaitResult::Found(dispatched),
                        )
                    },
                    None => BufferedRequestStep::Waiting(request),
                }
            },
            BufferedRequestEvent::PoolClosed => {
                self.decrement();
                BufferedRequestStep::Failed
            },
            BufferedRequestEvent::TimedOut => {
                self.decrement();
                BufferedRequestStep::Resolved(BufferedRequestAgentWaitResult::Timeout)
            },
            BufferedRequestEvent::Abandoned => {
                self.decrement();
                BufferedRequestStep::Abandoned
            },
        }
    }

    /// How many requests wait.
    pub fn make_snapshot(&self) -> (snapshot: BufferedRequestManagerSnapshot)
        ensures
            snapshot.buffered_requests_current == self@.buffered_requests,
    {
        BufferedRequestManagerSnapshot { buffered_requests_current: self.buffered_requests }
    }

    /// A receiver that is told of every change from now on.
    pub fn subscribe_to_updates(&self) -> (receiver: watch::Receiver<()>)
        ensures
            updates_seen(receiver) == self@.updates,
    {
        subscribe(&self.update_tx)
    }
}

/// Requests that wait never exceed the limit, and the count is what it was once
/// a request does not wait any more.
pub proof fn waiting_requests_stay_within_the_limit(manager: BufferedRequestManagerView)
    requires
        !manager.is_full(),
    ensures
        manager.with_one_more().buffered_requests <= manager.max_buffered_requests,
        manager.with_one_more().buffered_requests == manager.buffered_requests + 1,
        manager.with_one_more().with_one_less().buffered_requests == manager.buffered_requests,
{
}

/// A change in who waits.
pub ghost enum WaitChange {
    Began,
    Ended,
}

/// How many requests wait after the changes.
pub open spec fn waiting_after(changes: Seq<WaitChange>) -> int
    decreases changes.len(),
{
    if changes.len() == 0 {
        0
    } else {
        waiting_after(changes.drop_last()) + if changes.last() is Began {
            1int
        } else {
            -1int
        }
    }
}

/// Whether `managers` are what a manager is before each of the changes and at the
/// end: requests begin to wait as [`BufferedRequestManager::begin_wait`] lets
/// them, and only a request that waits stops to.
pub open spec fn is_history(
    managers: Seq<BufferedRequestManagerView>,
    changes: Seq<WaitChange>,
) -> bool {
    &&& managers.len() == changes.len() + 1
    &&& managers[0].buffered_requests == 0
    &&& forall|i: int|
        0 <= i < changes.len() ==> match #[trigger] changes[i] {
            WaitChange::Began => !managers[i].is_full() && managers[i + 1]
                == managers[i].with_one_more(),
            WaitChange::Ended => waiting_after(changes.take(i)) > 0 && managers[i + 1]
                == managers[i].with_one_less(),
        }
}

/// The count is at any time the number of the requests that wait, and never
/// exceeds the limit.
pub proof fn the_count_is_the_number_of_waiting_requests(
    managers: Seq<BufferedRequestManagerView>,
    changes: Seq<WaitChange>,
    i: int,
)
    requires
        is_history(managers, changes),
        managers[0].max_buffered_requests >= 0,
        0 <= i <= changes.len(),
    ensures
        managers[i].buffered_requests == waiting_after(changes.take(i)),
        managers[i].max_buffered_requests == managers[0].max_buffered_requests,
        0 <= managers[i].buffered_requests <= managers[0].max_buffered_requests,
    decreases i,
{
    if i > 0 {
        the_count_is_the_number_of_waiting_requests(managers, changes, i - 1);
        assert(changes.take(i).drop_last() =~= changes.take(i - 1));
        assert(changes.take(i).last() == changes[i - 1]);
    }
}

/// Where the limit is zero no request waits.
pub proof fn a_limit_of_zero_disables_waiting(manager: BufferedRequestManagerView)
    requires
        manager.max_buffered_requests == 0,
        manager.buffered_requests >= 0,
    ensures
        manager.is_full(),
{
}

/// A request gets a slot at once exactly if some agent has fewer busy slots than
/// slots. Else it waits exactly if fewer requests wait than may, and is counted; and
/// a request that gets no slot leaves the agents alone.
pub proof fn a_request_waits_if_it_has_to_and_may(
    manager: &mut BufferedRequestManager,
    pool: &mut AgentControllerPool,
    start: BufferedRequestStart,
)
    requires
        call_ensures(BufferedRequestManager::begin_wait, (manager, pool), start),
    ensures
        start is Found <==> exists|id: Seq<char>| #[trigger]
            old(pool)@.agents.contains_key(id) && old(pool)@.agents[id].slots_processing < old(
                pool,
            )@.agents[id].slots_total,
        !(start is Found) ==> final(pool)@ == old(pool)@,
        !(start is Found) ==> (start is Waiting <==> old(manager)@.buffered_requests < old(
            manager,
        )@.max_buffered_requests),
        final(manager)@.buffered_requests - old(manager)@.buffered_requests == if start is Waiting {
            1int
        } else {
            0int
        },
        final(manager)@.updates - old(manager)@.updates == if start is Waiting {
            1int
        } else {
            0int
        },
        final(manager)@.max_buffered_requests == old(manager)@.max_buffered_requests,
{
    match start {
        BufferedRequestStart::Found(dispatched) => {
            a_free_slot_is_found(old(pool)@, dispatched.agent_id@);
        },
        _ => {
            a_free_slot_is_found(old(pool)@, Seq::empty());
        },
    }
}

/// A request waits on exactly if the agents may have changed and still have no free
/// slot. Else it is not counted any more, and gets a slot exactly if there is one.
pub proof fn a_request_waits_until_a_slot_is_free(
    manager: &mut BufferedRequestManager,
    pool: &mut AgentControllerPool,
    request: BufferedRequest,
    event: BufferedRequestEvent,
    step: BufferedRequestStep,
)
    requires
        call_ensures(
            BufferedRequestManager::continue_wait,
            (manager, pool, request, event),
            step,
        ),
    ensures
        ({
            let some_slot_is_free = exists|id: Seq<char>| #[trigger]
                old(pool)@.agents.contains_key(id) && old(pool)@.agents[id].slots_processing < old(
                    pool,
                )@.agents[id].slots_total;
            let found = step matches BufferedRequestStep::Resolved(
                BufferedRequestAgentWaitResult::Found(_),
            );
            &&& step is Waiting <==> event is PoolUpdated && !some_slot_is_free
            &&& found <==> event is PoolUpdated && some_slot_is_free
            &&& !found ==> final(pool)@ == old(pool)@
        }),
        step is Waiting ==> final(manager)@ == old(manager)@,
        !(step is Waiting) && old(manager)@.buffered_requests > i32::MIN
            ==> final(manager)@.buffered_requests == old(manager)@.buffered_requests - 1,
        !(step is Waiting) ==> final(manager)@.updates == old(manager)@.updates + 1,
        final(manager)@.max_buffered_requests == old(manager)@.max_buffered_requests,
        event is TimedOut <==> (step matches BufferedRequestStep::Resolved(
            BufferedRequestAgentWaitResult::Timeout,
        )),
        event is PoolClosed <==> step is Failed,
        event is Abandoned <==> step is Abandoned,
{
    a_free_slot_is_found(old(pool)@, Seq::empty());
    if let BufferedRequestStep::Resolved(BufferedRequestAgentWaitResult::Found(dispatched)) = step {
        a_free_slot_is_found(old(pool)@, dispatched.agent_id@);
    }
}

/// Counting a request and not counting it any more undo each other, whatever the
/// count is, and each is told.
pub proof fn counting_up_and_down_undo_each_other(manager: BufferedRequestManagerView)
    ensures
        manager.with_one_more().with_one_less().buffered_requests == manager.buffered_requests,
        manager.with_one_less().with_one_more().buffered_requests == manager.buffered_requests,
        manager.buffered_requests < i32::MAX ==> manager.with_one_more().buffered_requests
            == manager.buffered_requests + 1,
        manager.with_one_more().updates == manager.updates + 1,
        manager.with_one_less().updates == manager.updates + 1,
{
}

/// The manager after `count` more requests began to wait.
pub open spec fn after_waits(
    manager: BufferedRequestManagerView,
    count: nat,
) -> BufferedRequestManagerView
    decreases count,
{
    if count == 0 {
        manager
    } else {
        after_waits(manager, (count - 1) as nat).with_one_more()
    }
}

/// As many requests can wait as the limit says, and no more.
pub proof fn as_many_requests_wait_as_may(manager: BufferedRequestManagerView, count: nat)
    requires
        manager.buffered_requests == 0,
        0 <= count <= manager.max_buffered_requests,
    ensures
        after_waits(manager, count).buffered_requests == count,
        after_waits(manager, count).max_buffered_requests == manager.max_buffered_requests,
        after_waits(manager, count).is_full() <==> count == manager.max_buffered_requests,
    decreases count,
{
    if count > 0 {
        as_many_requests_wait_as_may(manager, (count - 1) as nat);
    }
}

/// At first no request waits, and as many may as the limit says; how many wait is what is
/// shown.
pub proof fn at_first_no_request_waits(
    max_buffered_requests: i32,
    manager: BufferedRequestManager,
    asked: &BufferedRequestManager,
    snapshot: BufferedRequestManagerSnapshot,
)
    requires
        call_ensures(BufferedRequestManager::new, (max_buffered_requests,), manager),
        call_ensures(BufferedRequestManager::make_snapshot, (asked,), snapshot),
    ensures
        manager@.buffered_requests == 0,
        manager@.max_buffered_requests == max_buffered_requests,
        snapshot.buffered_requests_current == asked@.buffered_requests,
{
}

/// Whoever subscribes has seen everything so far, and has not seen what changes next.
pub proof fn a_subscriber_is_told_of_the_next_change(
    manager: &BufferedRequestManager,
    receiver: watch::Receiver<()>,
    changed: &mut BufferedRequestManager,
)
    requires
        call_ensures(BufferedRequestManager::subscribe_to_updates, (manager,), receiver),
        *old(changed) == *manager,
        call_ensures(BufferedRequestManager::increment, (changed,), ()),
    ensures
        updates_seen(receiver) == manager@.updates,
        updates_seen(receiver) < final(changed)@.updates,
{
}

} // verus!
