use tokio::sync::mpsc;

use paddler::balancer::agent_controller::AgentController;
use paddler::balancer::agent_controller_pool::AgentControllerPool;
use paddler::balancer::buffered_request_manager::BufferedRequestAgentWaitResult;
use paddler::balancer::buffered_request_manager::BufferedRequestEvent;
use paddler::balancer::buffered_request_manager::BufferedRequestManager;
use paddler::balancer::buffered_request_manager::BufferedRequestStart;
use paddler::balancer::buffered_request_manager::BufferedRequestStep;
use paddler::messaging::agent_issue::AgentIssues;
use paddler::messaging::agent_state_application_status::AgentStateApplicationStatus;
use paddler::messaging::tokens_per_second::TokensPerSecond;

fn agent_with_one_free_slot(id: &str) -> AgentController {
    let (agent_message_tx, _agent_message_rx) = mpsc::unbounded_channel();

    AgentController {
        agent_message_tx,
        connection: 1,
        desired_slots_total: 1,
        download_current: 0,
        download_filename: None,
        download_indeterminate: true,
        download_total: 0,
        id: id.to_owned(),
        issues: AgentIssues::new(),
        model_path: None,
        name: None,
        newest_update_version: 0,
        slots_processing: 0,
        slots_total: 1,
        state_application_status_code: AgentStateApplicationStatus::Fresh as i32,
        tokens_per_second: TokensPerSecond::zero(),
        uses_chat_template_override: false,
    }
}

fn waiting_count(manager: &BufferedRequestManager) -> i32 {
    manager.make_snapshot().buffered_requests_current
}

#[test]
fn counter_increment_wakes_subscribed_waiter() {
    let mut manager = BufferedRequestManager::new(10);
    let update_rx = manager.subscribe_to_updates();

    manager.increment();

    assert!(
        update_rx.has_changed().unwrap(),
        "watch sender must stay alive while the manager holds it"
    );
}

#[test]
fn waiter_returns_found_after_agent_registration_with_no_initial_agents() {
    let mut pool = AgentControllerPool::default();
    let mut manager = BufferedRequestManager::new(10);
    let update_rx = pool.subscribe_to_updates();

    let BufferedRequestStart::Waiting(request) = manager.begin_wait(&mut pool) else {
        panic!("waiter must be pending while pool has no agents");
    };

    assert_eq!(waiting_count(&manager), 1);

    let BufferedRequestStep::Waiting(request) =
        manager.continue_wait(&mut pool, request, BufferedRequestEvent::PoolUpdated)
    else {
        panic!("waiter must stay pending while pool has no agents");
    };

    pool.register_agent_controller("agent-1".to_owned(), agent_with_one_free_slot("agent-1"))
        .unwrap();

    assert!(
        update_rx.has_changed().unwrap(),
        "register_agent_controller must wake the subscribed waiter"
    );

    let step = manager.continue_wait(&mut pool, request, BufferedRequestEvent::PoolUpdated);

    assert!(matches!(
        step,
        BufferedRequestStep::Resolved(BufferedRequestAgentWaitResult::Found(dispatched))
            if dispatched.agent_id == "agent-1"
    ));
    assert_eq!(waiting_count(&manager), 0);
}

#[test]
fn waiter_returns_found_when_agent_was_registered_before_call() {
    let mut pool = AgentControllerPool::default();

    pool.register_agent_controller(
        "agent-pre".to_owned(),
        agent_with_one_free_slot("agent-pre"),
    )
    .unwrap();

    let mut manager = BufferedRequestManager::new(10);

    assert!(matches!(
        manager.begin_wait(&mut pool),
        BufferedRequestStart::Found(dispatched) if dispatched.agent_id == "agent-pre"
    ));
    assert_eq!(waiting_count(&manager), 0);
}

#[test]
fn no_more_requests_wait_than_may() {
    let mut pool = AgentControllerPool::default();
    let mut manager = BufferedRequestManager::new(2);

    let BufferedRequestStart::Waiting(first) = manager.begin_wait(&mut pool) else {
        panic!("the first request must wait");
    };
    assert!(matches!(
        manager.begin_wait(&mut pool),
        BufferedRequestStart::Waiting(_)
    ));
    assert!(matches!(
        manager.begin_wait(&mut pool),
        BufferedRequestStart::BufferOverflow
    ));
    assert_eq!(waiting_count(&manager), 2);
    assert!(matches!(
        manager.continue_wait(&mut pool, first, BufferedRequestEvent::TimedOut),
        BufferedRequestStep::Resolved(BufferedRequestAgentWaitResult::Timeout)
    ));
    assert_eq!(waiting_count(&manager), 1);
    assert!(matches!(
        manager.begin_wait(&mut pool),
        BufferedRequestStart::Waiting(_)
    ));
}

#[test]
fn a_limit_of_zero_means_that_no_request_waits() {
    let mut pool = AgentControllerPool::default();
    let mut manager = BufferedRequestManager::new(0);

    assert!(matches!(
        manager.begin_wait(&mut pool),
        BufferedRequestStart::BufferOverflow
    ));
}

#[test]
fn a_wait_that_ends_is_not_counted_any_more() {
    let mut pool = AgentControllerPool::default();

    for (event, failed) in [
        (BufferedRequestEvent::Abandoned, false),
        (BufferedRequestEvent::PoolClosed, true),
    ] {
        let mut manager = BufferedRequestManager::new(1);
        let BufferedRequestStart::Waiting(request) = manager.begin_wait(&mut pool) else {
            panic!("the request must wait");
        };

        let step = manager.continue_wait(&mut pool, request, event);

        assert_eq!(matches!(step, BufferedRequestStep::Failed), failed);
        assert_eq!(matches!(step, BufferedRequestStep::Abandoned), !failed);
        assert_eq!(waiting_count(&manager), 0);
    }
}
