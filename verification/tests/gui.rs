use tokio::sync::mpsc;

use paddler::agent::agent_service_bundle::socket_url;
use paddler::agent::agent_service_bundle::AgentServiceBundle;
use paddler::balancer::agent_controller::AgentController;
use paddler::balancer::agent_controller_pool::AgentControllerPool;
use paddler::balancer::reconciliation_service::BalancerApplicableState;
use paddler::balancer::reconciliation_service::BalancerApplicableStateHolder;
use paddler::balancer::reconciliation_service::BalancerDesiredState;
use paddler::gui::agent_running_handler;
use paddler::gui::app::agent_stream_step;
use paddler::gui::app::balancer_stream_step;
use paddler::gui::app::AgentStreamEvent;
use paddler::gui::app::App;
use paddler::gui::app::AppTask;
use paddler::gui::app::BalancerStreamEvent;
use paddler::gui::app::StreamStep;
use paddler::gui::gpu_devices::detect_devices;
use paddler::gui::gpu_devices::format_device;
use paddler::gui::gpu_devices::GpuDevice;
use paddler::gui::gpu_devices::ListGpuDevices;
use paddler::gui::gpu_devices::LlamaBackendDevice;
use paddler::gui::gpu_devices::LlamaBackendDeviceType;
use paddler::gui::home_handler;
use paddler::gui::join_balancer_form_data::JoinBalancerFormData;
use paddler::gui::join_balancer_form_handler;
use paddler::gui::message::Message;
use paddler::gui::running_balancer_handler;
use paddler::gui::running_balancer_snapshot::is_before_or_same;
use paddler::gui::running_balancer_snapshot::RunningBalancerSnapshot;
use paddler::gui::screen::Screen;
use paddler::gui::screen::ScreenState;
use paddler::gui::start_balancer_form_handler;
use paddler::gui::start_balancer_form_handler::StartBalancerFormData;
use paddler::gui::view_agent_card::display_last_path_part;
use paddler::gui::view_agent_card::view_agent_card;
use paddler::gui::view_agent_card::NamedStatus;
use paddler::gui::view_agent_card::StatusLabel;
use paddler::gui::view_join_balancer_form::view_gpu_devices_field;
use paddler::messaging::agent_controller_snapshot::AgentControllerSnapshot;
use paddler::messaging::agent_issue::AgentIssue;
use paddler::messaging::agent_issue::AgentIssues;
use paddler::messaging::agent_issue::ModelPath;
use paddler::messaging::agent_state_application_status::AgentStateApplicationStatus;
use paddler::messaging::agent_state_application_status::InvalidAgentStateApplicationStatus;
use paddler::messaging::messages::AgentDesiredModel;
use paddler::messaging::messages::AgentDesiredState;
use paddler::messaging::messages::InferenceParameters;
use paddler::messaging::slot_aggregated_status_snapshot::SlotAggregatedStatusSnapshot;
use paddler::messaging::tokens_per_second::TokensPerSecond;

fn make_agent_controller(id: &str, name: Option<&str>) -> AgentController {
    let (agent_message_tx, _agent_message_rx) = mpsc::unbounded_channel();

    AgentController::from_registration(
        agent_message_tx,
        1,
        id.to_owned(),
        name.map(str::to_owned),
        SlotAggregatedStatusSnapshot::default(),
    )
}

fn make_applicable_state() -> BalancerApplicableState {
    BalancerApplicableState {
        agent_desired_state: AgentDesiredState {
            chat_template_override: None,
            inference_parameters: InferenceParameters {
                embedding_batch_size: 256,
                enable_embeddings: false,
                others: "{}".to_owned(),
            },
            model: AgentDesiredModel::LocalToAgent("configured_model".to_owned()),
            multimodal_projection: AgentDesiredModel::Unset,
        },
    }
}

fn card_snapshot() -> AgentControllerSnapshot {
    AgentControllerSnapshot {
        desired_slots_total: 4,
        download_current: 0,
        download_filename: None,
        download_indeterminate: true,
        download_total: 0,
        id: "id".to_owned(),
        issues: AgentIssues::new(),
        model_path: None,
        name: Some("name".to_owned()),
        slots_processing: 1,
        slots_total: 2,
        state_application_status: AgentStateApplicationStatus::Applied,
        tokens_per_second: TokensPerSecond::zero(),
        uses_chat_template_override: false,
    }
}

fn device(index: usize) -> LlamaBackendDevice {
    LlamaBackendDevice {
        index,
        name: "CUDA0".to_owned(),
        description: "NVIDIA GeForce RTX 4090".to_owned(),
        backend: "CUDA".to_owned(),
        memory_total: 25_757_220_864,
        memory_free: 1_048_577,
        device_type: LlamaBackendDeviceType::Gpu,
    }
}

fn two_devices() -> Vec<GpuDevice> {
    detect_devices(Ok(vec![device(0), device(1)]))
}

fn no_addresses() -> Vec<String> {
    Vec::new()
}

/// A front end that shows the form to join a cluster.
fn app_with_join_form() -> App {
    let mut app = App::new();

    app.update(
        Message::GpuDevicesDetected(two_devices()),
        &no_addresses(),
        false,
    );
    app.update(
        Message::Home(home_handler::Message::JoinBalancer),
        &no_addresses(),
        false,
    );

    app
}

fn join(app: &mut App, message: join_balancer_form_handler::Message, parses: bool) -> AppTask {
    app.update(Message::JoinBalancerForm(message), &no_addresses(), parses)
}

fn start_form(app: &App) -> StartBalancerFormData {
    let ScreenState::StartBalancerForm(form) = &app.screen else {
        panic!("the form to start a balancer must be shown");
    };

    StartBalancerFormData {
        add_model_later: form.add_model_later,
        balancer_address: form.balancer_address.clone(),
        balancer_address_error: None,
        inference_address: form.inference_address.clone(),
        inference_address_error: None,
        model_error: None,
        selected_model: None,
        starting: false,
        web_admin_panel_address: "10.0.0.1:8062".to_owned(),
        web_admin_panel_address_error: None,
        web_admin_panel_address_placeholder: String::new(),
    }
}

/// A front end whose balancer runs.
fn app_with_balancer() -> App {
    let mut app = App::new();
    let addresses = vec!["10.0.0.1".to_owned(), "10.0.0.2".to_owned()];

    app.update(
        Message::Home(home_handler::Message::StartBalancer),
        &addresses,
        false,
    );

    let data = start_form(&app);

    assert_eq!(data.balancer_address, "10.0.0.1:8060");
    assert_eq!(data.inference_address, "10.0.0.1:8061");

    let task = app.update(
        Message::StartBalancerForm(start_balancer_form_handler::Outcome {
            data,
            action: start_balancer_form_handler::Action::StartBalancer {
                management_addr: "10.0.0.1:8060".to_owned(),
                inference_addr: "10.0.0.1:8061".to_owned(),
                web_admin_panel_addr: None,
                desired_state: BalancerDesiredState::default(),
            },
        }),
        &addresses,
        false,
    );
    let AppTask::SpawnBalancer(params) = task else {
        panic!("a balancer must be started");
    };

    assert_eq!(params.buffered_request_timeout_seconds, 10);
    assert_eq!(params.inference_item_timeout_seconds, 30);
    assert_eq!(params.max_buffered_requests, 30);
    assert_eq!(params.statsd_prefix, "paddler_");
    assert_eq!(params.statsd_reporting_interval_seconds, 10);

    app.balancer_cancel.as_ref().unwrap().cancel();

    assert!(params.cancellation_token.is_cancelled());

    app.update(Message::BalancerStarted, &addresses, false);

    app
}

#[test]
fn quit_message_cancels_shutdown_token() {
    let mut app = App::new();
    let shutdown = app.shutdown_token();

    assert!(!shutdown.is_cancelled());

    let exit_task = app.update(Message::Quit, &no_addresses(), false);

    assert!(shutdown.is_cancelled());
    assert!(matches!(exit_task, AppTask::Exit));
}

#[test]
fn quit_message_drops_both_runners() {
    let mut app = App::new();

    let _exit_task = app.update(Message::Quit, &no_addresses(), false);

    assert!(app.agent_cancel.is_none());
    assert!(app.balancer_cancel.is_none());
}

#[test]
fn empty_inputs_produce_empty_snapshot() {
    let pool = AgentControllerPool::default();
    let holder = BalancerApplicableStateHolder::default();

    let snapshot =
        RunningBalancerSnapshot::build(&pool, &holder, BalancerDesiredState::default()).unwrap();

    assert!(snapshot.agent_snapshots.is_empty());
    assert!(snapshot.balancer_applicable_state.is_none());
    assert_eq!(
        snapshot.balancer_desired_state,
        BalancerDesiredState::default()
    );
}

#[test]
fn carries_applicable_and_desired_state() {
    let pool = AgentControllerPool::default();
    let mut holder = BalancerApplicableStateHolder::default();
    let update_rx = holder.subscribe_to_updates();

    holder.set_balancer_applicable_state(Some(make_applicable_state()));

    assert!(update_rx.has_changed().unwrap());

    let desired = BalancerDesiredState {
        model: AgentDesiredModel::LocalToAgent("requested_model".to_owned()),
        ..BalancerDesiredState::default()
    };

    let snapshot = RunningBalancerSnapshot::build(&pool, &holder, desired.clone()).unwrap();

    let applicable = snapshot.balancer_applicable_state.unwrap();

    assert_eq!(
        applicable.agent_desired_state.model,
        AgentDesiredModel::LocalToAgent("configured_model".to_owned())
    );
    assert_eq!(snapshot.balancer_desired_state.model, desired.model);
}

#[test]
fn sorts_agents_by_name_then_id() {
    let mut pool = AgentControllerPool::default();
    let holder = BalancerApplicableStateHolder::default();

    pool.register_agent_controller(
        "id_z".to_owned(),
        make_agent_controller("id_z", Some("alpha")),
    )
    .unwrap();
    pool.register_agent_controller(
        "id_a".to_owned(),
        make_agent_controller("id_a", Some("bravo")),
    )
    .unwrap();
    pool.register_agent_controller("id_m".to_owned(), make_agent_controller("id_m", None))
        .unwrap();

    let snapshot =
        RunningBalancerSnapshot::build(&pool, &holder, BalancerDesiredState::default()).unwrap();

    let labels: Vec<String> = snapshot
        .agent_snapshots
        .iter()
        .map(|agent| agent.name.clone().unwrap_or_else(|| agent.id.clone()))
        .collect();

    assert_eq!(labels, vec!["alpha", "bravo", "id_m"]);
}

#[test]
fn an_agent_without_a_valid_status_cannot_be_shown() {
    let mut pool = AgentControllerPool::default();
    let mut agent = make_agent_controller("agent", None);

    agent.state_application_status_code = -1;
    pool.register_agent_controller("agent".to_owned(), agent)
        .unwrap();

    let failure = RunningBalancerSnapshot::build(
        &pool,
        &BalancerApplicableStateHolder::default(),
        BalancerDesiredState::default(),
    )
    .err()
    .unwrap();

    assert_eq!(
        failure.message(),
        "Failed to collect agent controller snapshots"
    );
    assert_eq!(failure.cause.value, -1);
}

#[test]
fn labels_are_compared_by_their_bytes() {
    assert!(is_before_or_same("", ""));
    assert!(is_before_or_same("a", "ab"));
    assert!(!is_before_or_same("ab", "a"));
    assert!(is_before_or_same("Z", "a"));
    assert!(is_before_or_same("z", "\u{e9}"));
    assert!(!is_before_or_same("\u{e9}", "z"));
}

#[test]
fn an_agent_joins_with_a_complete_form() {
    let mut app = app_with_join_form();

    join(
        &mut app,
        join_balancer_form_handler::Message::SetBalancerAddress("127.0.0.1:8060".to_owned()),
        true,
    );
    join(
        &mut app,
        join_balancer_form_handler::Message::SetSlotsCount("4".to_owned()),
        true,
    );
    join(
        &mut app,
        join_balancer_form_handler::Message::SetSlotsCount("4x".to_owned()),
        true,
    );
    join(
        &mut app,
        join_balancer_form_handler::Message::SetAgentName("agent".to_owned()),
        true,
    );
    join(
        &mut app,
        join_balancer_form_handler::Message::ToggleGpuDevice {
            index: 0,
            is_selected: false,
        },
        true,
    );

    let AppTask::SpawnAgent(params) =
        join(&mut app, join_balancer_form_handler::Message::Connect, true)
    else {
        panic!("an agent must be started");
    };

    assert_eq!(params.agent_name, Some("agent".to_owned()));
    assert_eq!(params.management_address, "127.0.0.1:8060");
    assert_eq!(params.slots, 4);
    assert_eq!(params.gpu_devices, vec![1]);
    assert!(matches!(
        &app.screen,
        ScreenState::AgentRunning(data)
            if !data.connected
                && data.balancer_address == "127.0.0.1:8060"
                && data.snapshot.name.as_deref() == Some("agent")
    ));

    let shutdown = app.shutdown_token();

    app.update(
        Message::AgentRunning(agent_running_handler::Message::AgentStatusUpdated(
            SlotAggregatedStatusSnapshot {
                slots_total: 4,
                ..SlotAggregatedStatusSnapshot::default()
            },
        )),
        &no_addresses(),
        false,
    );

    assert!(matches!(
        &app.screen,
        ScreenState::AgentRunning(data)
            if data.connected
                && data.snapshot.slots_total == 4
                && data.snapshot.name.as_deref() == Some("agent")
    ));

    app.update(
        Message::AgentRunning(agent_running_handler::Message::Disconnect),
        &no_addresses(),
        false,
    );

    assert!(params.cancellation_token.is_cancelled());
    assert!(!shutdown.is_cancelled());
    assert!(matches!(&app.screen, ScreenState::Home(data) if data.error.is_none()));
}

#[test]
fn quitting_stops_what_runs() {
    let mut app = app_with_join_form();

    join(
        &mut app,
        join_balancer_form_handler::Message::SetBalancerAddress("127.0.0.1:8060".to_owned()),
        true,
    );
    join(
        &mut app,
        join_balancer_form_handler::Message::SetSlotsCount("1".to_owned()),
        true,
    );

    let AppTask::SpawnAgent(params) =
        join(&mut app, join_balancer_form_handler::Message::Connect, true)
    else {
        panic!("an agent must be started");
    };

    assert_eq!(params.agent_name, None);

    app.update(Message::Quit, &no_addresses(), false);

    assert!(params.cancellation_token.is_cancelled());
}

#[test]
fn an_incomplete_form_says_what_is_missing() {
    let mut form = JoinBalancerFormData::default();

    assert!(matches!(
        form.update(join_balancer_form_handler::Message::Connect, false),
        join_balancer_form_handler::Action::Stay
    ));
    assert_eq!(
        form.balancer_address_error.as_deref(),
        Some("Cluster address is required.")
    );
    assert_eq!(
        form.slots_error.as_deref(),
        Some("Number of slots is required.")
    );
    assert_eq!(
        form.gpu_devices_error.as_deref(),
        Some("Select at least one device.")
    );

    form.balancer_address = "nowhere".to_owned();

    for (slots_count, expected) in [
        (
            "0",
            Some("Invalid number of slots (the number should be greater than zero)."),
        ),
        ("2147483648", Some("Number of slots is too large.")),
        ("1 2", Some("Invalid number of slots.")),
        ("2147483647", None),
        ("+7", None),
        (
            "-7",
            Some("Invalid number of slots (the number should be greater than zero)."),
        ),
        ("-2147483649", Some("Invalid number of slots.")),
        ("007", None),
        ("+", Some("Invalid number of slots.")),
        ("", Some("Number of slots is required.")),
    ] {
        form.slots_count = slots_count.to_owned();
        form.update(join_balancer_form_handler::Message::Connect, false);

        assert_eq!(form.slots_error.as_deref(), expected);
    }
    assert_eq!(
        form.balancer_address_error.as_deref(),
        Some("Invalid address, expected format: IP:port")
    );
    assert!(matches!(
        form.update(join_balancer_form_handler::Message::Cancel, false),
        join_balancer_form_handler::Action::Cancel
    ));
}

#[test]
fn a_form_without_devices_connects_to_all_of_them() {
    let mut app = App::new();

    app.update(
        Message::GpuDevicesDetected(detect_devices(Err("no backend".to_owned()))),
        &no_addresses(),
        false,
    );
    app.update(
        Message::Home(home_handler::Message::JoinBalancer),
        &no_addresses(),
        false,
    );
    join(
        &mut app,
        join_balancer_form_handler::Message::SetBalancerAddress("127.0.0.1:8060".to_owned()),
        true,
    );
    join(
        &mut app,
        join_balancer_form_handler::Message::SetSlotsCount("2".to_owned()),
        true,
    );

    let AppTask::SpawnAgent(params) =
        join(&mut app, join_balancer_form_handler::Message::Connect, true)
    else {
        panic!("an agent must be started");
    };

    assert!(params.gpu_devices.is_empty());
    assert_eq!(params.slots, 2);
}

#[test]
fn a_form_that_is_shown_before_devices_are_detected_asks_for_one() {
    let fill = |app: &mut App| {
        app.update(
            Message::Home(home_handler::Message::JoinBalancer),
            &no_addresses(),
            false,
        );
        join(
            app,
            join_balancer_form_handler::Message::SetBalancerAddress("127.0.0.1:8060".to_owned()),
            true,
        );
        join(
            app,
            join_balancer_form_handler::Message::SetSlotsCount("2".to_owned()),
            true,
        );
    };
    let assert_asks_for_a_device = |app: &mut App| {
        assert!(matches!(
            join(app, join_balancer_form_handler::Message::Connect, true),
            AppTask::Nothing
        ));
        assert!(matches!(
            &app.screen,
            ScreenState::JoinBalancerForm(form)
                if form.gpu_devices_error.as_deref() == Some("Select at least one device.")
        ));
    };
    let mut app = App::new();

    fill(&mut app);
    assert_asks_for_a_device(&mut app);
    app.update(
        Message::GpuDevicesDetected(two_devices()),
        &no_addresses(),
        false,
    );
    assert_asks_for_a_device(&mut app);

    let mut app = App::new();

    fill(&mut app);
    app.update(
        Message::GpuDevicesDetected(Vec::new()),
        &no_addresses(),
        false,
    );

    assert!(matches!(
        join(&mut app, join_balancer_form_handler::Message::Connect, true),
        AppTask::SpawnAgent(params) if params.gpu_devices.is_empty()
    ));
}

#[test]
fn lines_of_the_device_list_are_counted_in_characters() {
    let form = JoinBalancerFormData::default();

    for (count, lines) in [(1, 1), (55, 1), (56, 2)] {
        for character in ["e", "\u{e9}"] {
            let list = view_gpu_devices_field(
                &form,
                &vec![GpuDevice {
                    index: 0,
                    description: character.repeat(count),
                }],
            );

            assert_eq!(list.total_text_lines, lines);
        }
    }
}

#[test]
fn selected_devices_are_kept_in_order() {
    let mut form = JoinBalancerFormData::default();
    let toggle = |form: &mut JoinBalancerFormData, index: usize, is_selected: bool| {
        form.update(
            join_balancer_form_handler::Message::ToggleGpuDevice { index, is_selected },
            false,
        );
    };

    for index in [3, 1, 2, 0] {
        toggle(&mut form, index, true);
    }
    assert_eq!(form.gpu_devices, vec![0, 1, 2, 3]);

    toggle(&mut form, 2, false);
    toggle(&mut form, 9, false);

    assert_eq!(form.gpu_devices, vec![0, 1, 3]);

    toggle(&mut form, 2, true);
    toggle(&mut form, 2, false);

    assert_eq!(form.gpu_devices, vec![0, 1, 3]);

    let list = view_gpu_devices_field(&form, &two_devices());

    assert_eq!(list.rows.len(), 2);
    assert!(list.rows[1].is_selected);
    assert_eq!(list.total_text_lines, 4);
}

#[test]
fn a_balancer_is_shown_once_it_started() {
    let mut app = app_with_balancer();

    assert!(matches!(
        &app.screen,
        ScreenState::RunningBalancer(data)
            if data.balancer_address == "10.0.0.1:8060"
                && data.web_admin_panel_address.as_deref() == Some("10.0.0.1:8062")
                && !data.stopping
    ));
    assert!(matches!(
        app.update(
            Message::RunningBalancer(running_balancer_handler::Message::CopyToClipboard(
                "text".to_owned()
            )),
            &no_addresses(),
            false
        ),
        AppTask::CopyToClipboard(content) if content == "text"
    ));
    assert!(matches!(
        app.update(
            Message::RunningBalancer(running_balancer_handler::Message::OpenUrl(
                "http://10.0.0.1:8062".to_owned()
            )),
            &no_addresses(),
            false
        ),
        AppTask::OpenUrl(url) if url == "http://10.0.0.1:8062"
    ));

    app.update(
        Message::RunningBalancer(running_balancer_handler::Message::SnapshotUpdated(
            Box::new(RunningBalancerSnapshot {
                balancer_applicable_state: Some(make_applicable_state()),
                ..RunningBalancerSnapshot::default()
            }),
        )),
        &no_addresses(),
        false,
    );
    app.update(
        Message::RunningBalancer(running_balancer_handler::Message::Stop),
        &no_addresses(),
        false,
    );

    assert!(app.balancer_cancel.as_ref().unwrap().is_cancelled());
    assert!(matches!(
        &app.screen,
        ScreenState::RunningBalancer(data)
            if data.stopping && data.snapshot.balancer_applicable_state.is_some()
    ));

    app.update(Message::BalancerStopped, &no_addresses(), false);

    assert!(app.balancer_cancel.is_none());
    assert!(matches!(&app.screen, ScreenState::Home(data) if data.error.is_none()));
}

#[test]
fn failures_are_shown_on_the_first_screen() {
    let mut app = app_with_balancer();

    app.update(
        Message::BalancerFailed("address in use".to_owned()),
        &no_addresses(),
        false,
    );

    assert!(matches!(
        &app.screen,
        ScreenState::Home(data) if data.error.as_deref() == Some("address in use")
    ));
    assert!(app.balancer_cancel.is_none());
    assert!(matches!(
        app.update(Message::AgentStopped, &no_addresses(), false),
        AppTask::WarnUnhandled
    ));
    assert!(matches!(
        &app.screen,
        ScreenState::Home(data) if data.error.as_deref() == Some("address in use")
    ));
    assert!(matches!(
        app.update(
            Message::TabPressed { shift: true },
            &no_addresses(),
            false
        ),
        AppTask::FocusPrevious
    ));
    assert!(matches!(
        app.update(
            Message::TabPressed { shift: false },
            &no_addresses(),
            false
        ),
        AppTask::FocusNext
    ));
}

#[test]
fn screens_lead_to_each_other() {
    let home = Screen {
        state_data: home_handler::HomeData { error: None },
    };
    let form = home.start_balancer(&no_addresses());

    assert_eq!(form.state_data.balancer_address, ":8060");
    assert_eq!(
        form.state_data.web_admin_panel_address_placeholder,
        ":8062"
    );

    let running = form.balancer_started();

    assert_eq!(running.state_data.web_admin_panel_address, None);
    assert_eq!(
        running.balancer_failed("error".to_owned()).state_data.error,
        Some("error".to_owned())
    );
    assert!(matches!(ScreenState::default(), ScreenState::Home(_)));
}

#[test]
fn the_front_end_is_told_of_its_agent() {
    assert!(matches!(
        agent_stream_step(AgentStreamEvent::Snapshot(Ok(
            SlotAggregatedStatusSnapshot::default()
        ))),
        StreamStep::Tell(Message::AgentRunning(
            agent_running_handler::Message::AgentStatusUpdated(_)
        ))
    ));
    assert!(matches!(
        agent_stream_step(AgentStreamEvent::Snapshot(Err(
            InvalidAgentStateApplicationStatus { value: 9 }
        ))),
        StreamStep::Stop
    ));
    assert!(matches!(
        agent_stream_step(AgentStreamEvent::UpdatesClosed),
        StreamStep::Stop
    ));
    assert!(matches!(
        agent_stream_step(AgentStreamEvent::Completed(Ok(()))),
        StreamStep::TellLast(Message::AgentStopped)
    ));
    assert!(matches!(
        agent_stream_step(AgentStreamEvent::Completed(Err("error".to_owned()))),
        StreamStep::TellLast(Message::AgentFailed(detail)) if detail == "error"
    ));
}

#[test]
fn the_front_end_is_told_of_its_balancer() {
    let mut state = BalancerDesiredState::default();
    let other = BalancerDesiredState {
        model: AgentDesiredModel::HuggingFace("org/model".to_owned()),
        others: "{}".to_owned(),
    };

    assert!(matches!(
        balancer_stream_step(&mut state, BalancerStreamEvent::Started),
        StreamStep::Tell(Message::BalancerStarted)
    ));
    assert!(matches!(
        balancer_stream_step(&mut state, BalancerStreamEvent::DesiredStatesMissed),
        StreamStep::Wait
    ));
    assert_eq!(state, BalancerDesiredState::default());
    assert!(matches!(
        balancer_stream_step(&mut state, BalancerStreamEvent::DesiredState(other.clone())),
        StreamStep::Wait
    ));
    assert_eq!(state, other);
    assert!(matches!(
        balancer_stream_step(
            &mut state,
            BalancerStreamEvent::Snapshot(Ok(RunningBalancerSnapshot::default()))
        ),
        StreamStep::Tell(Message::RunningBalancer(
            running_balancer_handler::Message::SnapshotUpdated(_)
        ))
    ));
    assert!(matches!(
        balancer_stream_step(&mut state, BalancerStreamEvent::UpdatesClosed),
        StreamStep::Stop
    ));
    assert!(matches!(
        balancer_stream_step(
            &mut state,
            BalancerStreamEvent::StartFailed("error".to_owned())
        ),
        StreamStep::TellLast(Message::BalancerFailed(detail)) if detail == "error"
    ));
    assert!(matches!(
        balancer_stream_step(&mut state, BalancerStreamEvent::Completed(Ok(()))),
        StreamStep::TellLast(Message::BalancerStopped)
    ));
}

#[test]
fn devices_are_described() {
    assert_eq!(
        format_device(&device(0)),
        "0: CUDA0 (gpu, CUDA backend, 1 MiB free / 24564 MiB total) - NVIDIA GeForce RTX 4090"
    );

    let lines = ListGpuDevices.handle(&vec![device(0), device(12)]);

    assert_eq!(lines.len(), 3);
    assert!(lines[1].starts_with("12: CUDA0 (gpu"));
    assert_eq!(
        lines[2],
        "\nPass one or more of the indices above to `paddler agent --gpu-devices` to restrict \
         inference to those devices, e.g. --gpu-devices 0 or --gpu-devices 0,1."
    );
    assert_eq!(
        ListGpuDevices.handle(&Vec::new()),
        vec!["No backend devices detected.".to_owned()]
    );
    assert!(detect_devices(Err("no backend".to_owned())).is_empty());
    assert_eq!(two_devices()[1].index, 1);

    for (device_type, label) in [
        (LlamaBackendDeviceType::Accelerator, "accelerator"),
        (LlamaBackendDeviceType::Cpu, "cpu"),
        (LlamaBackendDeviceType::Gpu, "gpu"),
        (LlamaBackendDeviceType::IntegratedGpu, "integrated gpu"),
        (LlamaBackendDeviceType::Unknown, "unknown"),
    ] {
        assert_eq!(device_type.label(), label);
    }
}

#[test]
fn the_last_part_of_a_path_is_shown() {
    assert_eq!(display_last_path_part("/models/test.gguf"), "test.gguf");
    assert_eq!(display_last_path_part("test.gguf"), "test.gguf");
    assert_eq!(display_last_path_part(".."), "..");
    assert_eq!(display_last_path_part("/"), "/");
    assert_eq!(display_last_path_part(""), "");
    assert_eq!(display_last_path_part("/models/"), "models");
    assert_eq!(display_last_path_part("/models/."), "models");
    assert_eq!(display_last_path_part("/models/.."), "/models/..");
    assert_eq!(display_last_path_part("models//a:b"), "a:b");
}

#[test]
fn agents_are_shown_as_cards() {
    let card = view_agent_card(&card_snapshot());

    assert_eq!(card.name.as_deref(), Some("name"));
    assert_eq!(card.model_label.as_deref(), Some("No model loaded"));
    assert_eq!(
        card.status,
        StatusLabel::Named(NamedStatus::WaitingForModel)
    );
    assert_eq!(card.issues_label, None);
    assert_eq!(card.slots_label, "1/2/4");
    assert!(!card.shows_rate);

    let card = view_agent_card(&AgentControllerSnapshot {
        download_current: 1,
        download_total: 3,
        slots_processing: -1,
        tokens_per_second: TokensPerSecond {
            bits: 0.5f64.to_bits(),
        },
        ..card_snapshot()
    });

    assert_eq!(card.model_label, None);
    assert_eq!(
        card.status,
        StatusLabel::Downloading {
            current: 1,
            total: 3
        }
    );
    assert_eq!(card.slots_label, "-1/2/4");
    assert!(card.shows_rate);

    for (status, text) in [
        (AgentStateApplicationStatus::Applied, "OK"),
        (AgentStateApplicationStatus::Fresh, "Pending"),
        (
            AgentStateApplicationStatus::AttemptedAndRetrying,
            "Retrying",
        ),
        (
            AgentStateApplicationStatus::Stuck,
            "Retrying, but seems stuck?",
        ),
        (
            AgentStateApplicationStatus::AttemptedAndNotAppliable,
            "Needs your help",
        ),
    ] {
        let card = view_agent_card(&AgentControllerSnapshot {
            issues: AgentIssues::from_list(vec![AgentIssue::ModelCannotBeLoaded(ModelPath {
                model_path: "m".to_owned(),
            })]),
            model_path: Some("/models/m.gguf".to_owned()),
            state_application_status: status,
            ..card_snapshot()
        });

        assert_eq!(card.issues_label.as_deref(), Some("1 issues"));
        assert_eq!(card.model_label.as_deref(), Some("m.gguf"));
        assert!(matches!(
            card.status,
            StatusLabel::Named(named) if named.text() == text
        ));
    }
    assert_eq!(NamedStatus::WaitingForModel.text(), "Waiting for model...");
}

#[test]
fn an_agent_finds_its_balancer() {
    assert_eq!(
        socket_url("127.0.0.1:8060", "agent"),
        "ws://127.0.0.1:8060/api/v1/agent_socket/agent"
    );

    let bundle = AgentServiceBundle::new(
        Some("name".to_owned()),
        "127.0.0.1:8060",
        4,
        vec![0],
    );
    let prefix = "ws://127.0.0.1:8060/api/v1/agent_socket/";

    assert!(bundle.socket_url.starts_with(prefix));
    assert_eq!(bundle.socket_url.len(), prefix.len() + 21);
    assert_eq!(bundle.desired_slots_total, 4);
    assert_eq!(bundle.gpu_devices, vec![0]);
}
