use paddler::balancer::agent_controller_pool::AgentControllerPoolSnapshot;
use paddler::cluster::agents_stream_watcher::until;
use paddler::cluster::agents_stream_watcher::until_agent;
use paddler::cluster::agents_stream_watcher::wait_for_agent_ready;
use paddler::cluster::agents_stream_watcher::wait_for_slots_ready;
use paddler::cluster::agents_stream_watcher::WatchError;
use paddler::cluster::agents_stream_watcher::WatchEvent;
use paddler::cluster::agents_stream_watcher::WatchStep;
use paddler::cluster::assert_slots_total_at_least::assert_slots_total_at_least;
use paddler::messaging::agent_controller_snapshot::AgentControllerSnapshot;
use paddler::messaging::agent_issue::AgentIssue;
use paddler::messaging::agent_issue::AgentIssues;
use paddler::messaging::agent_issue::ModelPath;
use paddler::messaging::agent_issue::SlotCannotStartParams;
use paddler::messaging::agent_state_application_status::AgentStateApplicationStatus;
use paddler::messaging::tokens_per_second::TokensPerSecond;

fn snapshot_with(id: &str, slots_total: i32) -> AgentControllerPoolSnapshot {
    AgentControllerPoolSnapshot {
        agents: vec![AgentControllerSnapshot {
            name: None,
            ..snapshot_with_agent_and_slots(id, AgentIssues::new(), slots_total)
        }],
    }
}

fn snapshot_with_agent(agent_id: &str, issues: AgentIssues) -> AgentControllerSnapshot {
    snapshot_with_agent_and_slots(agent_id, issues, 0)
}

fn snapshot_with_agent_and_slots(
    agent_id: &str,
    issues: AgentIssues,
    slots_total: i32,
) -> AgentControllerSnapshot {
    AgentControllerSnapshot {
        desired_slots_total: 1,
        download_current: 0,
        download_filename: None,
        download_indeterminate: true,
        download_total: 0,
        id: agent_id.to_owned(),
        issues,
        model_path: None,
        name: Some(agent_id.to_owned()),
        slots_processing: 0,
        slots_total,
        state_application_status: AgentStateApplicationStatus::Fresh,
        tokens_per_second: TokensPerSecond::zero(),
        uses_chat_template_override: false,
    }
}

fn unable_to_find_chat_template_issue() -> AgentIssues {
    let mut issues = AgentIssues::new();
    issues.insert(AgentIssue::UnableToFindChatTemplate(ModelPath {
        model_path: "/models/embed.gguf".to_owned(),
    }));
    issues
}

/// Feeds the events of a stream to a watch until it is over.
fn watch(
    snapshots: Vec<AgentControllerPoolSnapshot>,
    step: impl Fn(WatchEvent) -> WatchStep,
) -> Result<AgentControllerPoolSnapshot, WatchError> {
    for snapshot in snapshots {
        match step(WatchEvent::Snapshot(snapshot)) {
            WatchStep::Wait => {}
            WatchStep::Done(matched) => return Ok(matched),
            WatchStep::Failed(error) => return Err(error),
        }
    }

    match step(WatchEvent::Closed) {
        WatchStep::Failed(error) => Err(error),
        _ => panic!("a closed stream must end the watch"),
    }
}

fn pool_snapshot(agents: Vec<AgentControllerSnapshot>) -> AgentControllerPoolSnapshot {
    AgentControllerPoolSnapshot { agents }
}

#[test]
fn matches_when_the_named_agent_has_enough_slots() {
    let predicate = assert_slots_total_at_least("agent-a", 4);

    assert!(predicate(&snapshot_with("agent-a", 4)));
    assert!(predicate(&snapshot_with("agent-a", 6)));
}

#[test]
fn rejects_when_slots_are_below_the_threshold() {
    let predicate = assert_slots_total_at_least("agent-a", 4);

    assert!(!predicate(&snapshot_with("agent-a", 3)));
}

#[test]
fn rejects_when_no_agent_matches_the_id() {
    let predicate = assert_slots_total_at_least("agent-b", 1);

    assert!(!predicate(&snapshot_with("agent-a", 8)));
}

#[test]
fn until_agent_returns_ok_when_predicate_matches_with_agent_present() {
    let agent_id = "agent-x".to_owned();
    let snapshots = vec![
        pool_snapshot(vec![snapshot_with_agent(&agent_id, AgentIssues::new())]),
        pool_snapshot(vec![snapshot_with_agent(
            &agent_id,
            unable_to_find_chat_template_issue(),
        )]),
    ];

    let observed = watch(snapshots, |event| {
        until_agent(
            &agent_id,
            event,
            |snapshot: &AgentControllerPoolSnapshot| {
                snapshot.agents.iter().any(|agent| {
                    agent.id == "agent-x"
                        && agent
                            .issues
                            .to_list()
                            .iter()
                            .any(|issue| matches!(issue, AgentIssue::UnableToFindChatTemplate(_)))
                })
            },
        )
    })
    .unwrap();

    assert!(
        observed.agents.iter().any(|agent| agent.id == agent_id),
        "matched snapshot must contain the watched agent"
    );
    assert!(!observed.agents[0].issues.is_empty());
}

#[test]
fn until_agent_errors_when_agent_disappears_mid_stream() {
    let agent_id = "agent-y".to_owned();
    let snapshots = vec![
        pool_snapshot(vec![snapshot_with_agent(&agent_id, AgentIssues::new())]),
        pool_snapshot(vec![]),
    ];

    let error = watch(snapshots, |event| {
        until_agent(&agent_id, event, |_snapshot: &AgentControllerPoolSnapshot| {
            false
        })
    })
    .err()
    .unwrap();

    assert_eq!(
        error.message(),
        "agent agent-y disappeared from the balancer's agent pool before the predicate was \
         satisfied; this means the agent subprocess died or its WebSocket dropped"
    );
}

#[test]
fn until_agent_errors_when_stream_closes_before_predicate_matches() {
    let agent_id = "agent-z".to_owned();
    let snapshots = vec![pool_snapshot(vec![snapshot_with_agent(
        &agent_id,
        AgentIssues::new(),
    )])];

    let error = watch(snapshots, |event| {
        until_agent(&agent_id, event, |_snapshot: &AgentControllerPoolSnapshot| {
            false
        })
    })
    .err()
    .unwrap();

    assert!(
        error.message().contains("stream closed"),
        "error must surface the stream-closed condition"
    );
}

#[test]
fn wait_for_agent_ready_returns_snapshot_when_named_agent_reaches_slot_count() {
    let agent_id = "agent-warm-0".to_owned();
    let snapshots = vec![
        pool_snapshot(vec![snapshot_with_agent_and_slots(
            &agent_id,
            AgentIssues::new(),
            0,
        )]),
        pool_snapshot(vec![snapshot_with_agent_and_slots(
            &agent_id,
            AgentIssues::new(),
            2,
        )]),
    ];

    let snapshot = watch(snapshots, |event| wait_for_agent_ready(&agent_id, 2, event)).unwrap();

    assert!(
        snapshot
            .agents
            .iter()
            .any(|agent| agent.name.as_deref() == Some("agent-warm-0") && agent.slots_total == 2),
        "returned snapshot must contain the named agent at its target slot count"
    );
}

#[test]
fn wait_for_agent_ready_errors_when_named_agent_reports_issues() {
    let agent_id = "agent-warm-1".to_owned();
    let snapshots = vec![pool_snapshot(vec![snapshot_with_agent_and_slots(
        &agent_id,
        unable_to_find_chat_template_issue(),
        0,
    )])];

    let error = watch(snapshots, |event| wait_for_agent_ready(&agent_id, 2, event))
        .err()
        .unwrap();

    assert_eq!(
        error.agent_readiness_message(&agent_id),
        "agent \"agent-warm-1\" reported issues during startup: \
         {UnableToFindChatTemplate(ModelPath { model_path: \"/models/embed.gguf\" })}"
    );
}

#[test]
fn wait_for_agent_ready_errors_when_stream_closes_before_match() {
    let agent_id = "agent-warm-2".to_owned();
    let snapshots = vec![pool_snapshot(vec![snapshot_with_agent_and_slots(
        &agent_id,
        AgentIssues::new(),
        0,
    )])];

    let error = watch(snapshots, |event| wait_for_agent_ready(&agent_id, 2, event))
        .err()
        .unwrap();

    assert!(
        error
            .agent_readiness_message(&agent_id)
            .contains("slot readiness"),
        "error must mention that slot readiness was not reached"
    );
}

#[test]
fn wait_for_slots_ready_completes_once_observed_counts_match_expected() {
    let snapshots = vec![
        pool_snapshot(vec![snapshot_with_agent_and_slots(
            "a",
            AgentIssues::new(),
            1,
        )]),
        pool_snapshot(vec![
            snapshot_with_agent_and_slots("a", AgentIssues::new(), 1),
            snapshot_with_agent_and_slots("b", AgentIssues::new(), 2),
        ]),
    ];

    let ready = watch(snapshots, |event| wait_for_slots_ready(&vec![2, 1], event)).unwrap();

    assert_eq!(ready.agents.len(), 2);
}

#[test]
fn wait_for_slots_ready_errors_when_an_agent_reports_issues() {
    let snapshots = vec![pool_snapshot(vec![
        snapshot_with_agent_and_slots("a", unable_to_find_chat_template_issue(), 1),
        snapshot_with_agent_and_slots("b", AgentIssues::new(), 2),
    ])];

    let error = watch(snapshots, |event| wait_for_slots_ready(&vec![1, 2], event))
        .err()
        .unwrap();

    assert!(error.slot_counts_message().contains("issues"));
}

#[test]
fn until_returns_first_snapshot_matching_predicate() {
    let snapshots = vec![
        snapshot_with("agent-a", 0),
        snapshot_with("agent-a", 1),
        snapshot_with("agent-a", 4),
    ];

    let snapshot = watch(snapshots, |event| {
        until(event, assert_slots_total_at_least("agent-a", 1))
    })
    .unwrap();

    assert_eq!(snapshot.agents.len(), 1);
    assert_eq!(snapshot.agents[0].slots_total, 1);
}

#[test]
fn until_propagates_stream_error() {
    let step = until(
        WatchEvent::StreamError("simulated SSE failure from upstream server".to_owned()),
        |_snapshot: &AgentControllerPoolSnapshot| true,
    );
    let WatchStep::Failed(error) = step else {
        panic!("expected watcher to surface stream error");
    };

    assert!(
        error
            .message()
            .contains("simulated SSE failure from upstream server"),
        "expected original error message in chain"
    );
}

#[test]
fn until_errors_when_stream_closes_before_match() {
    let outcome = watch(vec![snapshot_with("agent-a", 0)], |event| {
        until(event, assert_slots_total_at_least("agent-a", 10))
    });

    assert!(
        outcome.is_err(),
        "expected error when stream closes without satisfying predicate"
    );
}

#[test]
fn wait_for_slots_ready_includes_agent_id_in_error() {
    let mut snapshot = snapshot_with("agent-x", 0);
    let mut issues = AgentIssues::new();
    issues.insert(AgentIssue::ModelFileDoesNotExist(ModelPath {
        model_path: "/nonexistent".to_owned(),
    }));
    snapshot.agents[0].issues = issues;

    let error = watch(vec![snapshot], |event| {
        wait_for_slots_ready(&vec![1], event)
    })
    .err()
    .unwrap();

    assert_eq!(
        error.slot_counts_message(),
        "agents reported issues while waiting for slots: agent agent-x: \
         {ModelFileDoesNotExist(ModelPath { model_path: \"/nonexistent\" })}"
    );
}

#[test]
fn all_agents_with_issues_are_reported() {
    let slot_issue = AgentIssues::from_list(vec![AgentIssue::SlotCannotStart(
        SlotCannotStartParams {
            error: "out of \"memory\"".to_owned(),
            slot_index: 12,
        },
    )]);
    let model_issue = AgentIssues::from_list(vec![
        AgentIssue::UnableToFindChatTemplate(ModelPath {
            model_path: "a".to_owned(),
        }),
        AgentIssue::ModelCannotBeLoaded(ModelPath {
            model_path: "m".to_owned(),
        }),
    ]);

    let error = watch(
        vec![pool_snapshot(vec![
            snapshot_with_agent_and_slots("a", slot_issue, 1),
            snapshot_with_agent_and_slots("b", AgentIssues::new(), 2),
            snapshot_with_agent_and_slots("c", model_issue, 2),
        ])],
        |event| wait_for_slots_ready(&vec![], event),
    )
    .err()
    .unwrap();

    assert_eq!(
        error.message(),
        "agents reported issues while waiting for slots: agent a: \
         {SlotCannotStart(SlotCannotStartParams { error: \"out of \\\"memory\\\"\", slot_index: 12 })}; \
         agent c: {ModelCannotBeLoaded(ModelPath { model_path: \"m\" }), \
         UnableToFindChatTemplate(ModelPath { model_path: \"a\" })}"
    );
}

#[test]
fn a_watch_lasts_only_so_long() {
    let never = |_snapshot: &AgentControllerPoolSnapshot| false;
    let WatchStep::Failed(error) = until(WatchEvent::TimedOut("60s".to_owned(), "deadline has elapsed".to_owned()), never) else {
        panic!("a watch must end");
    };

    assert_eq!(
        error.message(),
        "agents stream did not satisfy the predicate within 60s: deadline has elapsed"
    );
    assert_eq!(
        error.slot_counts_message(),
        "agents did not reach the requested slot counts: \
         agents stream did not satisfy the predicate within 60s: deadline has elapsed"
    );

    let WatchStep::Failed(error) = until_agent(
        &"agent-a".to_owned(),
        WatchEvent::TimedOut("60s".to_owned(), "deadline has elapsed".to_owned()),
        never,
    ) else {
        panic!("a watch must end");
    };

    assert_eq!(
        error.message(),
        "agent agent-a did not satisfy the predicate within 60s: deadline has elapsed"
    );
    assert!(matches!(
        wait_for_slots_ready(
            &vec![1, 1],
            WatchEvent::Snapshot(pool_snapshot(vec![
                snapshot_with_agent_and_slots("a", AgentIssues::new(), 1),
                snapshot_with_agent_and_slots("b", AgentIssues::new(), 2),
            ]))
        ),
        WatchStep::Wait
    ));
}

#[test]
fn a_wait_for_slots_ends_with_the_first_snapshot_in_which_they_are_ready() {
    let with_slots = |first: i32, second: i32| {
        pool_snapshot(vec![
            snapshot_with_agent_and_slots("first", AgentIssues::new(), first),
            snapshot_with_agent_and_slots("second", AgentIssues::new(), second),
        ])
    };
    let matched = watch(
        vec![
            pool_snapshot(vec![]),
            with_slots(0, 0),
            with_slots(4, 4),
            with_slots(4, 2),
            with_slots(2, 4),
        ],
        |event| wait_for_slots_ready(&vec![2, 4], event),
    )
    .unwrap();

    assert_eq!(matched.agents[0].slots_total, 4);
    assert_eq!(matched.agents[1].slots_total, 2);
}

#[test]
fn a_wait_for_an_agent_ends_with_the_first_snapshot_in_which_it_is_ready() {
    let matched = watch(
        vec![
            pool_snapshot(vec![snapshot_with_agent_and_slots(
                "other",
                unable_to_find_chat_template_issue(),
                4,
            )]),
            pool_snapshot(vec![snapshot_with_agent_and_slots(
                "agent",
                AgentIssues::new(),
                3,
            )]),
            pool_snapshot(vec![
                snapshot_with_agent_and_slots("other", unable_to_find_chat_template_issue(), 4),
                snapshot_with_agent_and_slots("agent", AgentIssues::new(), 4),
            ]),
        ],
        |event| wait_for_agent_ready(&"agent".to_owned(), 4, event),
    )
    .unwrap();

    assert_eq!(matched.agents.len(), 2);
}
