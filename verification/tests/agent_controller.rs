use tokio::sync::mpsc;

use paddler::balancer::agent_controller::AgentController;
use paddler::balancer::agent_controller::AgentControllerUpdateResult;
use paddler::balancer::agent_controller::AgentRequestError;
use paddler::balancer::sender_collection::SenderCollection;
use paddler::messaging::agent_issue::AgentIssue;
use paddler::messaging::agent_issue::AgentIssues;
use paddler::messaging::agent_issue::ModelPath;
use paddler::messaging::agent_state_application_status::AgentStateApplicationStatus;
use paddler::messaging::messages::AgentJsonRpcMessage;
use paddler::messaging::messages::AgentJsonRpcNotification;
use paddler::messaging::messages::AgentJsonRpcRequest;
use paddler::messaging::messages::ContinueFromRawPromptParams;
use paddler::messaging::slot_aggregated_status_snapshot::SlotAggregatedStatusSnapshot;
use paddler::messaging::tokens_per_second::TokensPerSecond;

fn is_updated(result: &AgentControllerUpdateResult) -> bool {
    matches!(result, AgentControllerUpdateResult::Updated)
}

fn agent_controller_with(
    agent_message_tx: mpsc::UnboundedSender<AgentJsonRpcMessage>,
) -> AgentController {
    AgentController {
        agent_message_tx,
        connection: 1,
        desired_slots_total: 0,
        download_current: 0,
        download_filename: None,
        download_indeterminate: true,
        download_total: 0,
        id: "agent-test".to_owned(),
        issues: AgentIssues::new(),
        model_path: None,
        name: None,
        newest_update_version: 0,
        slots_processing: 0,
        slots_total: 0,
        state_application_status_code: AgentStateApplicationStatus::Fresh as i32,
        tokens_per_second: TokensPerSecond::zero(),
        uses_chat_template_override: false,
    }
}

fn fresh_agent_controller() -> AgentController {
    let (agent_message_tx, _agent_message_rx) = mpsc::unbounded_channel();

    agent_controller_with(agent_message_tx)
}

fn raw_prompt(text: &str) -> AgentJsonRpcRequest {
    AgentJsonRpcRequest::ContinueFromRawPrompt(ContinueFromRawPromptParams {
        grammar: None,
        max_tokens: 16,
        raw_prompt: text.to_owned(),
    })
}

#[test]
fn multi_field_update_stores_all_changed_atomic_fields() {
    let mut agent_controller = fresh_agent_controller();

    let snapshot = SlotAggregatedStatusSnapshot {
        desired_slots_total: 4,
        download_current: 10,
        download_filename: None,
        download_indeterminate: false,
        download_total: 100,
        issues: AgentIssues::new(),
        model_path: None,
        slots_processing: 0,
        slots_total: 4,
        state_application_status: AgentStateApplicationStatus::Fresh,
        tokens_per_second: TokensPerSecond::zero(),
        uses_chat_template_override: true,
        version: 1,
    };

    let result = agent_controller.update_from_slot_aggregated_status_snapshot(snapshot);

    assert!(is_updated(&result));
    assert_eq!(agent_controller.desired_slots_total, 4);
    assert_eq!(agent_controller.download_current, 10);
    assert_eq!(agent_controller.download_total, 100);
    assert_eq!(agent_controller.slots_total, 4);
    assert!(agent_controller.uses_chat_template_override);
}

#[test]
fn update_with_older_version_is_discarded() {
    let mut agent_controller = fresh_agent_controller();

    agent_controller.newest_update_version = 5;

    let snapshot = SlotAggregatedStatusSnapshot {
        desired_slots_total: 9,
        download_current: 0,
        download_filename: None,
        download_indeterminate: true,
        download_total: 0,
        issues: AgentIssues::new(),
        model_path: None,
        slots_processing: 0,
        slots_total: 0,
        state_application_status: AgentStateApplicationStatus::Fresh,
        tokens_per_second: TokensPerSecond::zero(),
        uses_chat_template_override: false,
        version: 1,
    };

    let result = agent_controller.update_from_slot_aggregated_status_snapshot(snapshot);

    assert!(!is_updated(&result));
    assert_eq!(agent_controller.desired_slots_total, 0);
    assert_eq!(agent_controller.newest_update_version, 5);
}

#[test]
fn update_stores_new_download_filename_model_path_and_issues() {
    let mut agent_controller = fresh_agent_controller();

    let mut issues = AgentIssues::new();
    issues.insert(AgentIssue::ModelFileDoesNotExist(ModelPath {
        model_path: "/models/test.gguf".to_owned(),
    }));

    let snapshot = SlotAggregatedStatusSnapshot {
        desired_slots_total: 0,
        download_current: 0,
        download_filename: Some("weights.gguf".to_owned()),
        download_indeterminate: true,
        download_total: 0,
        issues: issues.clone(),
        model_path: Some("/models/test.gguf".to_owned()),
        slots_processing: 0,
        slots_total: 0,
        state_application_status: AgentStateApplicationStatus::Fresh,
        tokens_per_second: TokensPerSecond::zero(),
        uses_chat_template_override: false,
        version: 1,
    };

    let result = agent_controller.update_from_slot_aggregated_status_snapshot(snapshot);

    assert!(is_updated(&result));
    assert_eq!(
        agent_controller.get_download_filename(),
        Some("weights.gguf".to_owned())
    );
    assert_eq!(
        agent_controller.get_model_path(),
        Some("/models/test.gguf".to_owned())
    );
    assert!(agent_controller.get_issues().same_as(&issues));
}

#[test]
fn update_with_identical_values_reports_no_meaningful_changes() {
    let mut agent_controller = fresh_agent_controller();

    let snapshot = SlotAggregatedStatusSnapshot {
        desired_slots_total: 0,
        download_current: 0,
        download_filename: None,
        download_indeterminate: true,
        download_total: 0,
        issues: AgentIssues::new(),
        model_path: None,
        slots_processing: 0,
        slots_total: 0,
        state_application_status: AgentStateApplicationStatus::Fresh,
        tokens_per_second: TokensPerSecond::zero(),
        uses_chat_template_override: false,
        version: 1,
    };

    let result = agent_controller.update_from_slot_aggregated_status_snapshot(snapshot);

    assert!(!is_updated(&result));
    assert_eq!(agent_controller.newest_update_version, 1);
}

#[test]
fn a_report_does_not_touch_the_count_of_busy_slots() {
    let mut agent_controller = fresh_agent_controller();

    agent_controller.slots_processing = 2;

    let result = agent_controller.update_from_slot_aggregated_status_snapshot(
        SlotAggregatedStatusSnapshot {
            slots_processing: 7,
            tokens_per_second: TokensPerSecond {
                bits: 12.5f64.to_bits(),
            },
            ..SlotAggregatedStatusSnapshot::default()
        },
    );

    assert!(is_updated(&result));
    assert_eq!(agent_controller.slots_processing, 2);
    assert_eq!(
        f64::from_bits(agent_controller.get_tokens_per_second().bits),
        12.5
    );
}

#[test]
fn the_same_report_twice_is_told_once() {
    let mut agent_controller = fresh_agent_controller();
    let report = SlotAggregatedStatusSnapshot {
        slots_total: 3,
        version: 7,
        ..SlotAggregatedStatusSnapshot::default()
    };

    assert!(is_updated(
        &agent_controller.update_from_slot_aggregated_status_snapshot(report.clone())
    ));
    assert!(!is_updated(
        &agent_controller.update_from_slot_aggregated_status_snapshot(report)
    ));
}

#[test]
fn make_snapshot_fails_for_invalid_state_application_status() {
    let mut agent_controller = fresh_agent_controller();

    agent_controller.state_application_status_code = 99;

    let result = agent_controller.make_snapshot();
    let error = result.err().unwrap();

    assert!(error
        .message()
        .contains("Invalid value for AgentStateApplicationStatus"));
}

#[test]
fn make_snapshot_shows_what_is_kept() {
    let mut agent_controller = fresh_agent_controller();

    agent_controller.set_download_filename(Some("weights.gguf".to_owned()));
    agent_controller.set_model_path(Some("model.gguf".to_owned()));
    agent_controller.set_tokens_per_second(TokensPerSecond { bits: 3 });
    agent_controller.set_issues(AgentIssues::from_list(vec![
        AgentIssue::UnableToFindChatTemplate(ModelPath {
            model_path: "m".to_owned(),
        }),
    ]));
    agent_controller.slots_processing = 1;

    let snapshot = agent_controller.make_snapshot().unwrap();

    assert_eq!(snapshot.id, "agent-test");
    assert_eq!(snapshot.download_filename, Some("weights.gguf".to_owned()));
    assert_eq!(snapshot.model_path, Some("model.gguf".to_owned()));
    assert_eq!(snapshot.tokens_per_second.bits, 3);
    assert_eq!(snapshot.issues.len(), 1);
    assert_eq!(snapshot.slots_processing, 1);
}

#[test]
fn get_chat_template_override_registers_pending_request() {
    let (agent_message_tx, mut agent_message_rx) = mpsc::unbounded_channel();
    let mut agent_controller = agent_controller_with(agent_message_tx);
    let mut senders = SenderCollection::default();

    let request_id = agent_controller
        .get_chat_template_override(&mut senders, 3)
        .unwrap();

    assert_eq!(senders.sender_for(&request_id), Some(3));
    assert!(matches!(
        agent_message_rx.try_recv().unwrap(),
        AgentJsonRpcMessage::Request(envelope)
            if envelope.id == request_id
                && envelope.request == AgentJsonRpcRequest::GetChatTemplateOverride
    ));
}

#[test]
fn fresh_requests_have_ids_of_their_own() {
    let (agent_message_tx, _agent_message_rx) = mpsc::unbounded_channel();
    let mut agent_controller = agent_controller_with(agent_message_tx);
    let mut senders = SenderCollection::default();

    let first = agent_controller.get_model_metadata(&mut senders, 1).unwrap();
    let second = agent_controller.get_model_metadata(&mut senders, 2).unwrap();

    assert_ne!(first, second);
    assert_eq!(first.len(), 21);
    assert!(first
        .chars()
        .all(|character| character.is_ascii_alphanumeric() || character == '_' || character == '-'));
    assert_eq!(senders.sender_for(&first), Some(1));
    assert_eq!(senders.sender_for(&second), Some(2));
}

#[test]
fn handle_raw_prompt_streaming_response_registers_sender() {
    let (agent_message_tx, mut agent_message_rx) = mpsc::unbounded_channel();
    let mut agent_controller = agent_controller_with(agent_message_tx);
    let mut senders = SenderCollection::default();

    agent_controller
        .handle_streaming_response(
            "raw-prompt-request".to_owned(),
            &mut senders,
            5,
            raw_prompt("hello"),
        )
        .unwrap();

    assert_eq!(senders.sender_for("raw-prompt-request"), Some(5));
    assert!(matches!(
        agent_message_rx.try_recv().unwrap(),
        AgentJsonRpcMessage::Request(envelope)
            if envelope.id == "raw-prompt-request" && envelope.request == raw_prompt("hello")
    ));
}

#[test]
fn handle_streaming_response_fails_when_request_id_already_registered() {
    let (agent_message_tx, mut agent_message_rx) = mpsc::unbounded_channel();
    let mut agent_controller = agent_controller_with(agent_message_tx);
    let mut senders = SenderCollection::default();

    agent_controller
        .handle_streaming_response(
            "duplicate-request".to_owned(),
            &mut senders,
            1,
            raw_prompt("first"),
        )
        .unwrap();

    let error = agent_controller
        .handle_streaming_response(
            "duplicate-request".to_owned(),
            &mut senders,
            2,
            raw_prompt("second"),
        )
        .err()
        .unwrap();

    assert_eq!(
        error.message(),
        "Sender for request_id duplicate-request already exists"
    );
    assert_eq!(senders.sender_for("duplicate-request"), Some(1));
    assert!(agent_message_rx.try_recv().is_ok());
    assert!(agent_message_rx.try_recv().is_err());
}

#[test]
fn send_rpc_message_fails_when_agent_message_receiver_dropped() {
    let mut agent_controller = fresh_agent_controller();
    let mut senders = SenderCollection::default();

    let error = agent_controller
        .get_chat_template_override(&mut senders, 1)
        .err()
        .unwrap();

    assert!(matches!(error, AgentRequestError::AgentUnreachable));
    assert_eq!(error.message(), "channel closed");
}

#[test]
fn handle_streaming_response_does_not_leak_sender_when_the_agent_dispatch_fails() {
    let mut agent_controller = fresh_agent_controller();
    let mut senders = SenderCollection::default();

    let result = agent_controller.handle_streaming_response(
        "unreachable-request".to_owned(),
        &mut senders,
        1,
        raw_prompt("hello"),
    );

    assert!(result.is_err());
    assert!(
        senders.sender_for("unreachable-request").is_none(),
        "a dispatch that fails to reach the agent must not leave the response sender registered"
    );
}

#[test]
fn a_oneshot_request_is_sent_before_its_id_is_registered() {
    let (agent_message_tx, mut agent_message_rx) = mpsc::unbounded_channel();
    let mut agent_controller = agent_controller_with(agent_message_tx);
    let mut senders = SenderCollection::default();

    senders.register_sender("taken".to_owned(), 9).unwrap();

    let error = agent_controller
        .send_oneshot_request(
            &mut senders,
            1,
            "taken".to_owned(),
            AgentJsonRpcRequest::GetModelMetadata,
        )
        .err()
        .unwrap();

    assert!(matches!(error, AgentRequestError::SenderAlreadyExists(_)));
    assert!(agent_message_rx.try_recv().is_ok());
    assert_eq!(senders.sender_for("taken"), Some(9));

    senders.deregister_sender("taken");

    assert_eq!(senders.sender_for("taken"), None);
}

#[test]
fn stop_responding_to_names_the_request() {
    let (agent_message_tx, mut agent_message_rx) = mpsc::unbounded_channel();
    let mut agent_controller = agent_controller_with(agent_message_tx);

    agent_controller
        .stop_responding_to("request-1".to_owned())
        .unwrap();

    assert_eq!(
        agent_message_rx.try_recv().unwrap(),
        AgentJsonRpcMessage::Notification(AgentJsonRpcNotification::StopRespondingTo(
            "request-1".to_owned()
        ))
    );
    assert!(fresh_agent_controller()
        .stop_responding_to("request-1".to_owned())
        .is_err());
}
