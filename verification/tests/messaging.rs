use paddler::messaging::agent_issue::AgentIssue;
use paddler::messaging::agent_issue::AgentIssueFix;
use paddler::messaging::agent_issue::AgentIssues;
use paddler::messaging::agent_issue::ModelPath;
use paddler::messaging::agent_issue::SlotCannotStartParams;
use paddler::messaging::agent_state_application_status::AgentStateApplicationStatus;
use paddler::messaging::slot_aggregated_status_snapshot::SlotAggregatedStatusSnapshot;
use paddler::messaging::tokens_per_second::TokensPerSecond;
use paddler::text::push_decimal;
use paddler::text::push_signed_decimal;

fn path(model_path: &str) -> ModelPath {
    ModelPath {
        model_path: model_path.to_owned(),
    }
}

#[test]
fn every_status_comes_back_from_its_code() {
    for status in [
        AgentStateApplicationStatus::Fresh,
        AgentStateApplicationStatus::Applied,
        AgentStateApplicationStatus::AttemptedAndRetrying,
        AgentStateApplicationStatus::AttemptedAndNotAppliable,
        AgentStateApplicationStatus::Stuck,
    ] {
        assert_eq!(status as i32, status.code());
        assert_eq!(
            AgentStateApplicationStatus::try_from_code(status.code()),
            Ok(status)
        );
    }

    assert_eq!(
        AgentStateApplicationStatus::try_from_code(-1)
            .unwrap_err()
            .message(),
        "Invalid value for AgentStateApplicationStatus: -1"
    );
    assert_eq!(
        AgentStateApplicationStatus::default(),
        AgentStateApplicationStatus::Fresh
    );
}

#[test]
fn only_unsettled_states_are_attempted_again() {
    assert!(AgentStateApplicationStatus::Fresh.should_try_to_apply());
    assert!(AgentStateApplicationStatus::AttemptedAndRetrying.should_try_to_apply());
    assert!(AgentStateApplicationStatus::Stuck.should_try_to_apply());
    assert!(!AgentStateApplicationStatus::Applied.should_try_to_apply());
    assert!(!AgentStateApplicationStatus::AttemptedAndNotAppliable.should_try_to_apply());
}

#[test]
fn a_fix_mends_the_very_file_that_was_missing() {
    let fix = AgentIssueFix::ModelFileExists(path("/models/a.gguf"));

    assert!(fix.can_fix(&AgentIssue::ModelFileDoesNotExist(path("/models/a.gguf"))));
    assert!(!fix.can_fix(&AgentIssue::ModelFileDoesNotExist(path("/models/b.gguf"))));
    assert!(!fix.can_fix(&AgentIssue::ModelCannotBeLoaded(path("/models/a.gguf"))));
}

#[test]
fn sets_of_issues_hold_each_issue_once() {
    let slot_issue = AgentIssue::SlotCannotStart(SlotCannotStartParams {
        error: "out of memory".to_owned(),
        slot_index: 1,
    });
    let mut issues = AgentIssues::new();

    assert!(issues.is_empty());
    assert!(issues.insert(slot_issue.clone()));
    assert!(!issues.insert(slot_issue.clone()));
    assert!(issues.insert(AgentIssue::UnableToFindChatTemplate(path("m"))));
    assert_eq!(issues.len(), 2);
    assert!(issues.contains(&slot_issue));
    assert!(!issues.contains(&AgentIssue::UnableToFindChatTemplate(path("n"))));

    let reversed = AgentIssues::from_list(vec![
        AgentIssue::UnableToFindChatTemplate(path("m")),
        slot_issue.clone(),
        slot_issue,
    ]);

    assert!(reversed.same_as(&issues));
    assert!(issues.clone().same_as(&issues));
    assert!(!AgentIssues::default().same_as(&issues));
    assert_eq!(reversed.to_list().len(), 2);
}

#[test]
fn issues_are_kept_in_order() {
    let slot_issue = |error: &str, slot_index: u32| {
        AgentIssue::SlotCannotStart(SlotCannotStartParams {
            error: error.to_owned(),
            slot_index,
        })
    };
    let in_order = vec![
        AgentIssue::ModelCannotBeLoaded(path("b")),
        AgentIssue::ModelFileDoesNotExist(path("")),
        AgentIssue::ModelFileDoesNotExist(path("Z")),
        AgentIssue::ModelFileDoesNotExist(path("a")),
        AgentIssue::ModelFileDoesNotExist(path("aa")),
        AgentIssue::ModelFileDoesNotExist(path("\u{e9}")),
        slot_issue("error", 2),
        slot_issue("error", 10),
        slot_issue("errors", 1),
        AgentIssue::UnableToFindChatTemplate(path("a")),
    ];
    let mut reversed = in_order.clone();

    reversed.reverse();

    assert_eq!(AgentIssues::from_list(reversed).to_list(), in_order);
    assert!(in_order[0].is_before(&in_order[1]));
    assert!(!in_order[1].is_before(&in_order[0]));
    assert!(!in_order[1].is_before(&in_order[1]));
}

#[test]
fn rates_compare_like_doubles() {
    let rate = |value: f64| TokensPerSecond {
        bits: value.to_bits(),
    };

    for left in [0.0, -0.0, 1.5, -1.5, f64::INFINITY, f64::NAN, f64::MIN_POSITIVE] {
        assert_eq!(rate(left).is_positive(), left > 0.0);

        for right in [0.0, -0.0, 1.5, -1.5, f64::INFINITY, f64::NAN, f64::MIN_POSITIVE] {
            assert_eq!(
                rate(left).differs_from(&rate(right)),
                left != right,
                "{left} and {right}"
            );
        }
    }

    assert_eq!(TokensPerSecond::zero(), TokensPerSecond::default());
}

#[test]
fn a_default_snapshot_is_empty() {
    let snapshot = SlotAggregatedStatusSnapshot::default();

    assert_eq!(snapshot.slots_total, 0);
    assert!(!snapshot.download_indeterminate);
    assert!(snapshot.clone().issues.is_empty());
}

#[test]
fn numbers_are_written_in_decimal() {
    for number in [0u128, 7, 10, 99, 100, 1024, 18_446_744_073_709_551_616] {
        let mut text = "n=".to_owned();
        push_decimal(&mut text, number);
        assert_eq!(text, format!("n={number}"));
    }
    for number in [0, 12, -1, -10, i32::MAX, i32::MIN] {
        let mut text = String::new();
        push_signed_decimal(&mut text, number);
        assert_eq!(text, number.to_string());
    }
}
