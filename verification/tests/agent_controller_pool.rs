use tokio::sync::mpsc;
use tokio::sync::watch;

use paddler::balancer::agent_controller::AgentController;
use paddler::balancer::agent_controller::AgentControllerUpdateResult;
use paddler::balancer::agent_controller_pool::AgentControllerPool;
use paddler::balancer::agent_controller_pool::DispatchCandidate;
use paddler::balancer::get_agents;
use paddler::balancer::controls_manages_senders_endpoint::ResponseBody;
use paddler::messaging::agent_issue::AgentIssues;
use paddler::messaging::agent_state_application_status::AgentStateApplicationStatus;
use paddler::messaging::messages::AgentDesiredModel;
use paddler::messaging::messages::AgentDesiredState;
use paddler::messaging::messages::AgentJsonRpcMessage;
use paddler::messaging::messages::AgentJsonRpcNotification;
use paddler::messaging::messages::InferenceParameters;
use paddler::messaging::slot_aggregated_status_snapshot::SlotAggregatedStatusSnapshot;
use paddler::messaging::tokens_per_second::TokensPerSecond;

fn agent_controller_on(
    connection: u64,
    slots_processing: i32,
    slots_total: i32,
) -> (
    AgentController,
    mpsc::UnboundedReceiver<AgentJsonRpcMessage>,
) {
    let (agent_message_tx, agent_message_rx) = mpsc::unbounded_channel();

    (
        AgentController {
            agent_message_tx,
            connection,
            desired_slots_total: 0,
            download_current: 0,
            download_filename: None,
            download_indeterminate: true,
            download_total: 0,
            id: "agent-test".to_owned(),
            issues: AgentIssues::new(),
            model_path: None,
            name: None,
            newest_update_version: 0,
            slots_processing,
            slots_total,
            state_application_status_code: AgentStateApplicationStatus::Fresh as i32,
            tokens_per_second: TokensPerSecond::zero(),
            uses_chat_template_override: false,
        },
        agent_message_rx,
    )
}

fn agent_controller_with_slots(slots_processing: i32, slots_total: i32) -> AgentController {
    agent_controller_on(1, slots_processing, slots_total).0
}

fn busy_slots(pool: &AgentControllerPool, agent_id: &str) -> i32 {
    pool.get_agent_controller(agent_id).unwrap().slots_processing
}

fn desired_state() -> AgentDesiredState {
    AgentDesiredState {
        chat_template_override: None,
        inference_parameters: InferenceParameters {
            embedding_batch_size: 256,
            enable_embeddings: false,
            others: "{}".to_owned(),
        },
        model: AgentDesiredModel::LocalToAgent("model.gguf".to_owned()),
        multimodal_projection: AgentDesiredModel::Unset,
    }
}

#[test]
fn watch_receiver_observes_send_fired_before_changed_await() {
    let (update_tx, update_rx) = watch::channel(());

    update_tx.send_replace(());

    assert!(
        update_rx.has_changed().unwrap(),
        "watch::Receiver must observe a send fired before .changed() is awaited"
    );
}

#[test]
fn register_agent_controller_rejects_duplicate_id() {
    let mut pool = AgentControllerPool::default();

    assert!(pool
        .register_agent_controller("duplicate".to_owned(), agent_controller_with_slots(0, 1),)
        .is_ok());

    let duplicate_result =
        pool.register_agent_controller("duplicate".to_owned(), agent_controller_with_slots(0, 1));

    assert_eq!(
        duplicate_result.err().unwrap().message(),
        "AgentController already registered"
    );
    assert_eq!(pool.len(), 1);
}

#[test]
fn a_refused_registration_leaves_the_pool_alone() {
    let mut pool = AgentControllerPool::default();
    let (agent, mut agent_rx) = agent_controller_on(1, 0, 1);

    pool.register_agent_controller("agent".to_owned(), agent)
        .unwrap();

    let update_rx = pool.subscribe_to_updates();

    assert!(pool
        .register_agent_controller("agent".to_owned(), agent_controller_on(2, 0, 5).0)
        .is_err());
    assert!(!update_rx.has_changed().unwrap());
    assert_eq!(pool.len(), 1);
    assert_eq!(pool.get_agent_controller("agent").unwrap().connection, 1);
    assert_eq!(pool.get_agent_controller("agent").unwrap().slots_total, 1);

    pool.set_desired_state(desired_state()).unwrap();

    assert!(agent_rx.try_recv().is_ok());
}

#[test]
fn remove_agent_controller_returns_false_for_unknown_id() {
    let mut pool = AgentControllerPool::default();

    assert!(!pool.remove_agent_controller("never-registered"));
}

#[test]
fn removal_leaves_the_other_agents() {
    let mut pool = AgentControllerPool::default();

    for (agent_id, total) in [("a", 1), ("b", 2), ("c", 3), ("d", 4)] {
        pool.register_agent_controller(agent_id.to_owned(), agent_controller_with_slots(0, total))
            .unwrap();
    }

    let update_rx = pool.subscribe_to_updates();

    assert!(pool.remove_agent_controller("b"));
    assert!(update_rx.has_changed().unwrap());
    assert!(pool.get_agent_controller("b").is_none());
    assert_eq!(pool.get_agent_controller("a").unwrap().slots_total, 1);
    assert_eq!(pool.get_agent_controller("c").unwrap().slots_total, 3);
    assert_eq!(pool.get_agent_controller("d").unwrap().slots_total, 4);
    assert!(pool.remove_agent_controller("d"));
    assert_eq!(pool.get_agent_controller("c").unwrap().slots_total, 3);
    assert!(!pool.remove_agent_controller("d"));
    assert_eq!(pool.len(), 2);
    assert_eq!(pool.total_slots().slots_total, 4);
}

#[test]
fn total_slots_sums_processing_and_total_across_agents() {
    let mut pool = AgentControllerPool::default();

    pool.register_agent_controller("first".to_owned(), agent_controller_with_slots(1, 4))
        .unwrap();
    pool.register_agent_controller("second".to_owned(), agent_controller_with_slots(2, 8))
        .unwrap();

    let total_slots = pool.total_slots();

    assert_eq!(total_slots.slots_processing, 3);
    assert_eq!(total_slots.slots_total, 12);
}

#[test]
fn total_tokens_per_second_sums_rate_across_agents() {
    let mut pool = AgentControllerPool::default();

    let mut first = agent_controller_with_slots(1, 4);
    first.set_tokens_per_second(TokensPerSecond {
        bits: 12.5f64.to_bits(),
    });

    let mut second = agent_controller_with_slots(2, 8);
    second.set_tokens_per_second(TokensPerSecond {
        bits: 7.5f64.to_bits(),
    });

    pool.register_agent_controller("first".to_owned(), first)
        .unwrap();
    pool.register_agent_controller("second".to_owned(), second)
        .unwrap();

    let actual: f64 = pool
        .tokens_per_second_of_agents()
        .iter()
        .map(|rate| f64::from_bits(rate.bits))
        .sum();
    assert!((actual - 20.0).abs() < 0.0001);
}

#[test]
fn make_snapshot_includes_each_registered_agent() {
    let mut pool = AgentControllerPool::default();

    pool.register_agent_controller("only".to_owned(), agent_controller_with_slots(2, 5))
        .unwrap();

    let snapshot = pool.make_snapshot().unwrap();

    assert_eq!(snapshot.agents.len(), 1);
    assert_eq!(snapshot.agents[0].slots_processing, 2);
    assert_eq!(snapshot.agents[0].slots_total, 5);
}

#[test]
fn the_least_busy_agent_with_a_free_slot_is_taken() {
    let mut pool = AgentControllerPool::default();

    assert!(pool.select_least_busy_with_capacity().is_none());
    assert!(pool.take_least_busy_agent_controller().is_none());

    pool.register_agent_controller("full".to_owned(), agent_controller_with_slots(0, 0))
        .unwrap();
    pool.register_agent_controller("busy".to_owned(), agent_controller_with_slots(3, 8))
        .unwrap();
    pool.register_agent_controller("idle".to_owned(), agent_controller_with_slots(1, 2))
        .unwrap();

    let update_rx = pool.subscribe_to_updates();
    let first = pool.take_least_busy_agent_controller().unwrap();

    assert_eq!(first.agent_id, "idle");
    assert_eq!(busy_slots(&pool, "idle"), 2);
    assert!(update_rx.has_changed().unwrap());

    let second = pool.take_least_busy_agent_controller().unwrap();

    assert_eq!(second.agent_id, "busy");

    pool.release(first);

    assert_eq!(busy_slots(&pool, "idle"), 1);

    pool.release(second);

    assert_eq!(busy_slots(&pool, "busy"), 3);
}

#[test]
fn a_slot_is_claimed_only_if_nothing_changed() {
    let mut pool = AgentControllerPool::default();
    let (agent, mut agent_rx) = agent_controller_on(4, 0, 3);

    pool.register_agent_controller("agent".to_owned(), agent)
        .unwrap();

    let stale = pool.select_least_busy_with_capacity().unwrap();
    let fresh = pool.select_least_busy_with_capacity().unwrap();

    assert_eq!(fresh.agent_id, "agent");
    assert_eq!(fresh.connection, 4);
    assert_eq!(fresh.snapshot, 0);

    let dispatched = pool.try_claim(fresh).unwrap();

    assert!(dispatched
        .agent_message_tx
        .send(AgentJsonRpcMessage::Notification(
            AgentJsonRpcNotification::StopRespondingTo("request".to_owned())
        ))
        .is_ok());
    assert!(matches!(
        agent_rx.try_recv().unwrap(),
        AgentJsonRpcMessage::Notification(AgentJsonRpcNotification::StopRespondingTo(request_id))
            if request_id == "request"
    ));

    let update_rx = pool.subscribe_to_updates();
    let returned = pool.try_claim(stale).err().unwrap();

    assert_eq!(returned.agent_id, "agent");
    assert_eq!(returned.snapshot, 0);
    assert_eq!(busy_slots(&pool, "agent"), 1);
    assert!(!update_rx.has_changed().unwrap());
    assert!(pool
        .try_claim(DispatchCandidate {
            registration: 7,
            snapshot: 1,
            ..returned
        })
        .is_err());
}

#[test]
fn a_slot_can_be_claimed_after_its_agent_left() {
    let mut pool = AgentControllerPool::default();
    let (agent, mut agent_rx) = agent_controller_on(1, 0, 2);

    pool.register_agent_controller("agent".to_owned(), agent)
        .unwrap();

    let first = pool.select_least_busy_with_capacity().unwrap();
    let second = pool.select_least_busy_with_capacity().unwrap();

    assert!(pool.remove_agent_controller("agent"));
    pool.register_agent_controller("agent".to_owned(), agent_controller_on(2, 0, 2).0)
        .unwrap();

    let update_rx = pool.subscribe_to_updates();
    let dispatched = pool.try_claim(first).unwrap();

    assert_eq!(dispatched.connection, 1);
    assert_eq!(busy_slots(&pool, "agent"), 0);
    assert!(update_rx.has_changed().unwrap());
    assert!(pool.try_claim(second).is_err());
    assert!(dispatched
        .agent_message_tx
        .send(AgentJsonRpcMessage::Notification(
            AgentJsonRpcNotification::StopRespondingTo("request".to_owned())
        ))
        .is_ok());
    assert!(agent_rx.try_recv().is_ok());

    pool.release(dispatched);

    assert_eq!(busy_slots(&pool, "agent"), 0);
}

#[test]
fn a_late_release_does_not_touch_a_new_registration() {
    for connection in [1, 2] {
        let mut pool = AgentControllerPool::default();

        pool.register_agent_controller("agent".to_owned(), agent_controller_on(1, 0, 1).0)
            .unwrap();

        let dispatched = pool.take_least_busy_agent_controller().unwrap();

        pool.remove_agent_controller("agent");
        pool.register_agent_controller(
            "agent".to_owned(),
            agent_controller_on(connection, 0, 1).0,
        )
        .unwrap();

        let update_rx = pool.subscribe_to_updates();

        pool.release(dispatched);

        assert_eq!(busy_slots(&pool, "agent"), 0);
        assert!(update_rx.has_changed().unwrap());
    }
}

#[test]
fn reports_are_told_only_if_they_say_something_new() {
    let mut pool = AgentControllerPool::default();

    pool.register_agent_controller("agent".to_owned(), agent_controller_with_slots(0, 1))
        .unwrap();

    let report = SlotAggregatedStatusSnapshot {
        slots_total: 2,
        version: 1,
        ..SlotAggregatedStatusSnapshot::default()
    };
    let update_rx = pool.subscribe_to_updates();

    assert_eq!(
        pool.update_agent_controller("agent", report.clone()),
        Some(AgentControllerUpdateResult::Updated)
    );
    assert!(update_rx.has_changed().unwrap());

    let update_rx = pool.subscribe_to_updates();

    assert_eq!(
        pool.update_agent_controller("agent", report.clone()),
        Some(AgentControllerUpdateResult::NoMeaningfulChanges)
    );
    assert!(!update_rx.has_changed().unwrap());
    assert_eq!(pool.update_agent_controller("other", report), None);

    pool.signal_update();

    assert!(update_rx.has_changed().unwrap());
}

#[test]
fn every_agent_is_asked_to_be_in_the_desired_state() {
    let mut pool = AgentControllerPool::default();
    let (first, mut first_rx) = agent_controller_on(1, 0, 1);
    let (second, mut second_rx) = agent_controller_on(2, 0, 1);

    pool.register_agent_controller("first".to_owned(), first)
        .unwrap();
    pool.register_agent_controller("second".to_owned(), second)
        .unwrap();
    pool.set_desired_state(desired_state()).unwrap();

    for receiver in [&mut first_rx, &mut second_rx] {
        assert!(matches!(
            receiver.try_recv().unwrap(),
            AgentJsonRpcMessage::Notification(AgentJsonRpcNotification::SetState(params))
                if params.desired_state == desired_state()
        ));
    }

    drop(first_rx);
    drop(second_rx);

    assert!(pool.set_desired_state(desired_state()).is_err());
}

#[test]
fn responds_with_registered_agents_snapshot() {
    let mut pool = AgentControllerPool::default();

    pool.register_agent_controller("agent-test".to_owned(), agent_controller_with_slots(0, 0))
        .unwrap();

    let snapshot = get_agents::respond(&pool).unwrap();

    assert_eq!(snapshot.agents.len(), 1);
    assert_eq!(snapshot.agents[0].id, "agent-test");
}

#[test]
fn responds_with_internal_server_error_when_snapshot_fails() {
    let mut pool = AgentControllerPool::default();
    let mut agent = agent_controller_with_slots(0, 0);

    agent.state_application_status_code = 99;
    pool.register_agent_controller("agent-test".to_owned(), agent)
        .unwrap();

    let response = get_agents::respond(&pool).err().unwrap();

    assert_eq!(response.status, 500);
    assert!(matches!(
        response.body,
        ResponseBody::Text(text) if text == "Invalid value for AgentStateApplicationStatus: 99"
    ));
}
