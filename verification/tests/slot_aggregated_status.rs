use std::time::Duration;
use std::time::Instant;

use paddler::agent::slot_aggregated_status::SlotAggregatedStatus;
use paddler::agent::token_throughput_meter::TokenRate;
use paddler::messaging::agent_issue::AgentIssue;
use paddler::messaging::agent_issue::AgentIssueFix;
use paddler::messaging::agent_issue::ModelPath;
use paddler::messaging::agent_issue::SlotCannotStartParams;
use paddler::messaging::agent_state_application_status::AgentStateApplicationStatus;
use paddler::messaging::slot_aggregated_status_snapshot::SlotAggregatedStatusSnapshot;
use paddler::messaging::tokens_per_second::TokensPerSecond;

fn rate_as_double(rate: TokenRate) -> f64 {
    rate.tokens as f64 / (rate.elapsed_nanos as f64 / 1_000_000_000.0)
}

fn snapshot_of(status: &SlotAggregatedStatus) -> SlotAggregatedStatusSnapshot {
    let rate = TokensPerSecond {
        bits: rate_as_double(status.tokens_per_second()).to_bits(),
    };

    status.make_snapshot(rate).unwrap()
}

fn model_path(path: &str) -> ModelPath {
    ModelPath {
        model_path: path.to_owned(),
    }
}

fn wait_for(duration: Duration) {
    let started_at = Instant::now();

    while started_at.elapsed() < duration {}
}

#[test]
fn take_slot_wakes_subscribed_waiter() {
    let mut status = SlotAggregatedStatus::new(2);
    let update_rx = status.subscribe_to_updates();

    assert!(!update_rx.has_changed().unwrap());

    status.take_slot();

    assert!(update_rx.has_changed().unwrap());
}

#[test]
fn subscribers_count_earlier_updates_as_seen() {
    let mut status = SlotAggregatedStatus::new(2);

    status.take_slot();

    let update_rx = status.subscribe_to_updates();

    assert!(!update_rx.has_changed().unwrap());
}

#[test]
fn register_issue_and_has_issue_round_trip() {
    let mut status = SlotAggregatedStatus::new(2);
    let issue = AgentIssue::ModelFileDoesNotExist(model_path("model_test"));

    assert!(!status.has_issue(&issue));

    status.register_issue(issue.clone());

    assert!(status.has_issue(&issue));
}

#[test]
fn register_fix_removes_matching_issues() {
    let mut status = SlotAggregatedStatus::new(2);
    let issue = AgentIssue::ModelFileDoesNotExist(model_path("model_test"));

    status.register_issue(issue.clone());
    status.register_fix(&AgentIssueFix::ModelFileExists(model_path("model_test")));

    assert!(!status.has_issue(&issue));
}

fn is_slot_cannot_start(agent_issue: &AgentIssue) -> bool {
    matches!(agent_issue, AgentIssue::SlotCannotStart(_))
}

#[test]
fn has_issue_like_matches_with_predicate() {
    let mut status = SlotAggregatedStatus::new(2);

    status.register_issue(AgentIssue::ModelFileDoesNotExist(model_path("model_test")));

    assert!(!status.has_issue_like(is_slot_cannot_start));

    status.register_issue(AgentIssue::SlotCannotStart(SlotCannotStartParams {
        error: "failed".to_owned(),
        slot_index: 3,
    }));

    assert!(status.has_issue_like(is_slot_cannot_start));

    assert!(!status.has_issue_like(|agent_issue: &AgentIssue| {
        matches!(agent_issue, AgentIssue::ModelCannotBeLoaded(_))
    }));
}

#[test]
fn increment_and_decrement_total_slots() {
    let mut status = SlotAggregatedStatus::new(2);

    status.increment_total_slots();
    status.increment_total_slots();

    let snapshot = snapshot_of(&status);
    assert_eq!(snapshot.slots_total, 2);

    status.decrement_total_slots();

    let snapshot = snapshot_of(&status);
    assert_eq!(snapshot.slots_total, 1);
}

#[test]
fn version_increments_on_slot_changes() {
    let mut status = SlotAggregatedStatus::new(2);

    let initial_version = snapshot_of(&status).version;

    status.increment_total_slots();

    let updated_version = snapshot_of(&status).version;
    assert!(updated_version > initial_version);
}

#[test]
fn make_snapshot_returns_correct_values() {
    let mut status = SlotAggregatedStatus::new(4);

    status.set_model_path(Some("test_model".to_owned()));
    status.increment_total_slots();
    status.increment_total_slots();

    let snapshot = snapshot_of(&status);

    assert_eq!(snapshot.desired_slots_total, 4);
    assert_eq!(snapshot.model_path, Some("test_model".to_owned()));
    assert_eq!(snapshot.slots_total, 2);
    assert_eq!(snapshot.slots_processing, 0);
    assert_eq!(
        snapshot.state_application_status,
        AgentStateApplicationStatus::Fresh
    );
}

#[test]
fn make_snapshot_reports_zero_tokens_per_second_before_any_generation() {
    let status = SlotAggregatedStatus::new(1);

    let snapshot = snapshot_of(&status);

    let actual = f64::from_bits(snapshot.tokens_per_second.bits);
    assert!((actual - 0.0).abs() < 0.0001);
}

#[test]
fn record_generated_token_is_reflected_in_snapshot_after_a_window_closes() {
    let mut status = SlotAggregatedStatus::new(1);

    for _ in 0..5 {
        status.record_generated_token();
    }

    wait_for(Duration::from_millis(1050));

    status.record_generated_token();

    let snapshot = snapshot_of(&status);

    assert!(
        f64::from_bits(snapshot.tokens_per_second.bits) > 0.0,
        "expected a positive tokens_per_second, got {}",
        f64::from_bits(snapshot.tokens_per_second.bits)
    );
    assert!(snapshot.tokens_per_second.is_positive());
}

#[test]
fn recording_a_token_is_no_change_worth_telling() {
    let mut status = SlotAggregatedStatus::new(1);
    let update_rx = status.subscribe_to_updates();
    let version = snapshot_of(&status).version;

    status.record_generated_token();

    assert!(!update_rx.has_changed().unwrap());
    assert_eq!(snapshot_of(&status).version, version);
}

#[test]
fn get_state_application_status_reflects_set_value() {
    let mut status = SlotAggregatedStatus::new(2);

    assert_eq!(
        status.get_state_application_status().unwrap(),
        AgentStateApplicationStatus::Fresh
    );

    status.set_state_application_status(AgentStateApplicationStatus::Applied);

    assert_eq!(
        status.get_state_application_status().unwrap(),
        AgentStateApplicationStatus::Applied
    );

    let snapshot = snapshot_of(&status);
    assert_eq!(
        snapshot.state_application_status,
        AgentStateApplicationStatus::Applied
    );
}

#[test]
fn make_snapshot_propagates_invalid_state_application_status() {
    let mut status = SlotAggregatedStatus::new(2);

    status.state_application_status_code = AgentStateApplicationStatus::Stuck as i32 + 1;

    let snapshot_result = status.make_snapshot(TokensPerSecond::zero());

    assert!(snapshot_result.is_err());
    assert_eq!(
        status.get_state_application_status().unwrap_err().message(),
        "Invalid value for AgentStateApplicationStatus: 5"
    );
}

#[test]
fn register_issue_twice_keeps_single_entry() {
    let mut status = SlotAggregatedStatus::new(2);
    let issue = AgentIssue::ModelFileDoesNotExist(model_path("model_test"));

    status.register_issue(issue.clone());
    status.register_issue(issue);

    let snapshot = snapshot_of(&status);
    assert_eq!(snapshot.issues.len(), 1);
}

#[test]
fn only_new_issues_are_told() {
    let mut status = SlotAggregatedStatus::new(2);
    let issue = AgentIssue::ModelFileDoesNotExist(model_path("model_test"));
    let version = snapshot_of(&status).version;

    status.register_issue(issue.clone());

    let update_rx = status.subscribe_to_updates();

    status.register_issue(issue.clone());
    status.register_fix(&AgentIssueFix::ModelFileExists(model_path("other_model")));

    assert!(!update_rx.has_changed().unwrap());

    status.register_fix(&AgentIssueFix::ModelFileExists(model_path("model_test")));

    assert!(update_rx.has_changed().unwrap());
    assert_eq!(snapshot_of(&status).version, version);
}

#[test]
fn register_fix_without_matching_issue_keeps_issues() {
    let mut status = SlotAggregatedStatus::new(2);
    let issue = AgentIssue::ModelFileDoesNotExist(model_path("model_test"));

    status.register_issue(issue.clone());
    status.register_fix(&AgentIssueFix::ModelFileExists(model_path("other_model")));

    assert!(status.has_issue(&issue));
}

#[test]
fn slots_processing_count_tracks_taken_slots() {
    let mut status = SlotAggregatedStatus::new(2);

    assert_eq!(status.slots_processing_count(), 0);

    status.take_slot();

    assert_eq!(status.slots_processing_count(), 1);

    status.release_slot();

    assert_eq!(status.slots_processing_count(), 0);
}

#[test]
fn reset_clears_state() {
    let mut status = SlotAggregatedStatus::new(2);

    status.set_model_path(Some("test_model".to_owned()));
    status.increment_total_slots();
    status.register_issue(AgentIssue::ModelFileDoesNotExist(model_path("model_test")));

    let version = snapshot_of(&status).version;

    status.reset();

    let snapshot = snapshot_of(&status);

    assert_eq!(snapshot.slots_total, 0);
    assert_eq!(snapshot.slots_processing, 0);
    assert_eq!(snapshot.model_path, None);
    assert!(snapshot.issues.is_empty());
    assert_eq!(snapshot.version, version + 2);
}

#[test]
fn take_slot_and_release_slot() {
    let mut status = SlotAggregatedStatus::new(2);

    status.take_slot();

    assert_eq!(snapshot_of(&status).slots_processing, 1);

    status.take_slot();

    assert_eq!(snapshot_of(&status).slots_processing, 2);

    status.release_slot();

    assert_eq!(snapshot_of(&status).slots_processing, 1);
}

#[test]
fn set_download_status_updates_all_fields() {
    let mut status = SlotAggregatedStatus::new(2);

    status.set_download_status(100, Some(500), Some("model.gguf".to_owned()));

    let snapshot = snapshot_of(&status);

    assert_eq!(snapshot.download_current, 100);
    assert_eq!(snapshot.download_total, 500);
    assert_eq!(snapshot.download_filename, Some("model.gguf".to_owned()));
}

#[test]
fn set_download_status_with_indeterminate_total_keeps_flag_true() {
    let mut status = SlotAggregatedStatus::new(2);

    status.set_download_status(123, None, Some("model.gguf".to_owned()));

    let snapshot = snapshot_of(&status);

    assert_eq!(snapshot.download_current, 123);
    assert_eq!(snapshot.download_total, 0);
    assert!(snapshot.download_indeterminate);
}

#[test]
fn set_download_status_indeterminate_after_known_total_resets_download_total() {
    let mut status = SlotAggregatedStatus::new(2);

    status.set_download_status(0, Some(5000), Some("model.gguf".to_owned()));
    status.set_download_status(10, None, Some("model.gguf".to_owned()));

    let snapshot = snapshot_of(&status);

    assert_eq!(snapshot.download_total, 0);
    assert!(snapshot.download_indeterminate);
}

#[test]
fn set_download_status_with_known_total_flips_indeterminate_false() {
    let mut status = SlotAggregatedStatus::new(2);

    status.set_download_status(0, Some(5000), Some("model.gguf".to_owned()));

    let snapshot = snapshot_of(&status);

    assert_eq!(snapshot.download_total, 5000);
    assert!(!snapshot.download_indeterminate);
}

#[test]
fn increment_download_current_accumulates() {
    let mut status = SlotAggregatedStatus::new(2);

    status.set_download_status(0, Some(1000), Some("model.gguf".to_owned()));
    status.increment_download_current(100);
    status.increment_download_current(200);

    let snapshot = snapshot_of(&status);

    assert_eq!(snapshot.download_current, 300);
    assert_eq!(snapshot.download_total, 1000);
}

#[test]
fn reset_download_clears_download_fields() {
    let mut status = SlotAggregatedStatus::new(2);

    status.set_download_status(500, Some(1000), Some("model.gguf".to_owned()));
    status.reset_download();

    let snapshot = snapshot_of(&status);

    assert_eq!(snapshot.download_current, 0);
    assert_eq!(snapshot.download_total, 0);
    assert!(snapshot.download_indeterminate);
    assert_eq!(snapshot.download_filename, None);
}

#[test]
fn set_uses_chat_template_override() {
    let mut status = SlotAggregatedStatus::new(2);

    assert!(!snapshot_of(&status).uses_chat_template_override);

    status.set_uses_chat_template_override(true);

    assert!(snapshot_of(&status).uses_chat_template_override);

    status.set_uses_chat_template_override(false);

    assert!(!snapshot_of(&status).uses_chat_template_override);
}
