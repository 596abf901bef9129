//! The front end as a whole.
use tokio_util::sync::CancellationToken;
use vstd::prelude::*;

use crate::balancer::reconciliation_service::BalancerDesiredState;
use crate::gui::agent_running_data::AgentRunningData;
use crate::gui::agent_running_handler;
use crate::gui::gpu_devices::GpuDevice;
use crate::gui::home_handler;
use crate::gui::home_handler::HomeData;
use crate::gui::join_balancer_form_data::empty_form;
use crate::gui::join_balancer_form_data::JoinBalancerFormData;
use crate::gui::join_balancer_form_data::JoinBalancerFormView;
use crate::gui::join_balancer_form_handler;
use crate::gui::message::Message;
use crate::gui::running_balancer_handler;
use crate::gui::running_balancer_handler::RunningBalancerData;
use crate::gui::running_balancer_snapshot::RunningBalancerSnapshot;
use crate::gui::running_balancer_snapshot::SnapshotFailure;
use crate::gui::screen::device_indices;
use crate::gui::screen::is_joining;
use crate::gui::screen::is_start_form;
use crate::gui::screen::is_starting;
use crate::gui::screen::suggested_address;
use crate::gui::screen::Screen;
use crate::gui::screen::ScreenState;
use crate::gui::start_balancer_form_handler;
use crate::gui::start_balancer_form_handler::StartBalancerFormData;
use crate::messaging::agent_state_application_status::InvalidAgentStateApplicationStatus;
use crate::messaging::slot_aggregated_status_snapshot::SlotAggregatedStatusSnapshot;
use crate::outside::cancel;
use crate::outside::cancel_requested;
use crate::outside::cancelled_along_with;
use crate::outside::cancels;
use crate::outside::child_token;
use crate::outside::clone_token;
use crate::outside::new_token;
use crate::outside::parsed_number;
use crate::outside::says;
use crate::text::text_of;

verus! {

/// How long a request waits for a slot in a balancer that the front end starts, in seconds.
pub const BUFFERED_REQUEST_TIMEOUT_SECONDS: u64 = 10;

/// How long a response may take there, in seconds.
pub const INFERENCE_ITEM_TIMEOUT_SECONDS: u64 = 30;

/// How many requests may wait there.
pub const MAX_BUFFERED_REQUESTS: i32 = 30;

/// How often metrics would be reported there, in seconds.
pub const STATSD_REPORTING_INTERVAL_SECONDS: u64 = 10;

/// What an agent is started with.
#[derive(Debug)]
pub struct AgentRunnerParams {
    pub agent_name: Option<String>,
    pub cancellation_token: CancellationToken,
    pub gpu_devices: Vec<usize>,
    pub management_address: String,
    pub slots: i32,
}

/// What a balancer is started with. It keeps its desired state in memory, and
/// neither reports metrics nor offers an OpenAI-compatible service.
#[derive(Debug)]
pub struct BalancerRunnerParams {
    pub buffered_request_timeout_seconds: u64,
    pub cancellation_token: CancellationToken,
    pub desired_state: BalancerDesiredState,
    pub inference_addr: String,
    pub inference_item_timeout_seconds: u64,
    pub management_addr: String,
    pub max_buffered_requests: i32,
    pub statsd_prefix: String,
    pub statsd_reporting_interval_seconds: u64,
    pub web_admin_panel_addr: Option<String>,
}

/// What is left to do after a message.
#[derive(Debug)]
pub enum AppTask {
    Nothing,
    /// Log that the message means nothing on the current screen.
    WarnUnhandled,
    /// End the program.
    Exit,
    FocusNext,
    FocusPrevious,
    CopyToClipboard(String),
    OpenUrl(String),
    /// Run an agent, and tell of it as [`agent_stream_step`] says.
    SpawnAgent(AgentRunnerParams),
    /// Run a balancer, and tell of it as [`balancer_stream_step`] says.
    SpawnBalancer(BalancerRunnerParams),
}

/// The front end: the screen that is shown, and the tokens with which what it
/// runs is stopped.
pub struct App {
    pub agent_cancel: Option<CancellationToken>,
    pub gpu_devices: Vec<GpuDevice>,
    /// Whether the detection of the devices is over, whatever it found.
    pub gpu_devices_detected: bool,
    pub shutdown: CancellationToken,
    pub balancer_cancel: Option<CancellationToken>,
    pub screen: ScreenState,
}

/// Whether `after` is `before` after cancellation was requested through it, where
/// there is a token.
pub open spec fn is_cancelled(
    before: Option<CancellationToken>,
    after: Option<CancellationToken>,
) -> bool {
    match before {
        Some(before) => after matches Some(after) && cancel_requested(after) && cancels(after)
            == cancels(before),
        None => after is None,
    }
}

/// Whether `kept` and `given` stop the same, and `shutdown` stops it too.
pub open spec fn is_new_runner(
    shutdown: CancellationToken,
    kept: Option<CancellationToken>,
    given: CancellationToken,
) -> bool {
    &&& kept matches Some(kept)
    &&& cancels(kept) == cancels(given)
    &&& cancelled_along_with(given) == cancels(shutdown)
    &&& cancelled_along_with(kept) == cancels(shutdown)
    &&& !cancel_requested(given)
    &&& !cancel_requested(kept)
}

/// Whether an agent is started as the form says.
pub open spec fn is_agent_start(
    params: AgentRunnerParams,
    action: join_balancer_form_handler::ActionView,
) -> bool {
    action == join_balancer_form_handler::ActionView::ConnectAgent {
        agent_name: text_of(params.agent_name),
        management_address: params.management_address@,
        slots: params.slots,
        gpu_devices: params.gpu_devices@,
    }
}

/// Whether a balancer is started as the form says.
pub open spec fn is_balancer_start(
    params: BalancerRunnerParams,
    action: start_balancer_form_handler::Action,
) -> bool {
    &&& action == start_balancer_form_handler::Action::StartBalancer {
        management_addr: params.management_addr,
        inference_addr: params.inference_addr,
        web_admin_panel_addr: params.web_admin_panel_addr,
        desired_state: params.desired_state,
    }
    &&& params.buffered_request_timeout_seconds == BUFFERED_REQUEST_TIMEOUT_SECONDS
    &&& params.inference_item_timeout_seconds == INFERENCE_ITEM_TIMEOUT_SECONDS
    &&& params.max_buffered_requests == MAX_BUFFERED_REQUESTS
    &&& params.statsd_prefix@ == "paddler_"@
    &&& params.statsd_reporting_interval_seconds == STATSD_REPORTING_INTERVAL_SECONDS
}

/// The first screen, with an error to show.
pub open spec fn home(error: Option<String>) -> ScreenState {
    ScreenState::Home(HomeData { error })
}

impl App {
    /// Whether nothing was stopped or started.
    pub open spec fn runs_the_same(&self, before: App) -> bool {
        &&& self.agent_cancel == before.agent_cancel
        &&& self.balancer_cancel == before.balancer_cancel
        &&& self.shutdown == before.shutdown
    }

    /// Whether `action` of the form to join a cluster leads from `before` to this
    /// and to `task`, where `form` stands in the form.
    pub open spec fn follows_join_action(
        &self,
        before: App,
        form: JoinBalancerFormView,
        action: join_balancer_form_handler::ActionView,
        task: AppTask,
    ) -> bool {
        match action {
            join_balancer_form_handler::ActionView::Stay => {
                &&& self.runs_the_same(before)
                &&& task is Nothing
                &&& self.screen matches ScreenState::JoinBalancerForm(data) && data@ == form
            },
            join_balancer_form_handler::ActionView::Cancel => {
                &&& self.runs_the_same(before)
                &&& task is Nothing
                &&& self.screen == home(None)
            },
            join_balancer_form_handler::ActionView::ConnectAgent { .. } => {
                &&& self.shutdown == before.shutdown
                &&& self.balancer_cancel == before.balancer_cancel
                &&& task matches AppTask::SpawnAgent(params)
                &&& is_agent_start(params, action)
                &&& is_new_runner(before.shutdown, self.agent_cancel, params.cancellation_token)
                &&& self.screen matches ScreenState::AgentRunning(running)
                &&& exists|data: JoinBalancerFormData|
                    data@ == form && #[trigger] is_joining(running, data)
            },
        }
    }

    /// Whether `action` of the form to start a balancer leads from `before` to
    /// this and to `task`, where `data` stands in the form.
    pub open spec fn follows_start_action(
        &self,
        before: App,
        data: StartBalancerFormData,
        action: start_balancer_form_handler::Action,
        task: AppTask,
    ) -> bool {
        match action {
            start_balancer_form_handler::Action::Stay => {
                &&& self.runs_the_same(before)
                &&& task is Nothing
                &&& self.screen == ScreenState::StartBalancerForm(data)
            },
            start_balancer_form_handler::Action::Cancel => {
                &&& self.shutdown == before.shutdown
                &&& self.agent_cancel == before.agent_cancel
                &&& is_cancelled(before.balancer_cancel, self.balancer_cancel)
                &&& task is Nothing
                &&& self.screen == home(None)
            },
            start_balancer_form_handler::Action::StartBalancer { .. } => {
                &&& self.shutdown == before.shutdown
                &&& self.agent_cancel == before.agent_cancel
                &&& task matches AppTask::SpawnBalancer(params)
                &&& is_balancer_start(params, action)
                &&& is_new_runner(before.shutdown, self.balancer_cancel, params.cancellation_token)
                &&& self.screen == ScreenState::StartBalancerForm(data)
            },
        }
    }

    /// Whether `action` of the screen of a running balancer leads from `before`
    /// to this and to `task`.
    pub open spec fn follows_balancer_action(
        &self,
        before: App,
        data: RunningBalancerData,
        action: running_balancer_handler::Action,
        task: AppTask,
    ) -> bool {
        &&& self.shutdown == before.shutdown
        &&& self.agent_cancel == before.agent_cancel
        &&& self.screen == ScreenState::RunningBalancer(data)
        &&& match action {
            running_balancer_handler::Action::Stay => {
                &&& self.balancer_cancel == before.balancer_cancel
                &&& task is Nothing
            },
            running_balancer_handler::Action::Stop => {
                &&& is_cancelled(before.balancer_cancel, self.balancer_cancel)
                &&& task is Nothing
            },
            running_balancer_handler::Action::CopyToClipboard(content) => {
                &&& self.balancer_cancel == before.balancer_cancel
                &&& task == AppTask::CopyToClipboard(content)
            },
            running_balancer_handler::Action::OpenUrl(url) => {
                &&& self.balancer_cancel == before.balancer_cancel
                &&& task == AppTask::OpenUrl(url)
            },
        }
    }

    /// Whether `message` leads from `before` to this and to `task`.
    pub open spec fn follows(
        &self,
        before: App,
        message: Message,
        network_addresses: Seq<String>,
        address_parses: bool,
        task: AppTask,
    ) -> bool {
        &&& (message matches Message::GpuDevicesDetected(devices) ==> self.gpu_devices == devices)
        &&& (!(message is GpuDevicesDetected) ==> self.gpu_devices == before.gpu_devices)
        &&& self.gpu_devices_detected == (message is GpuDevicesDetected
            || before.gpu_devices_detected)
        &&& match (before.screen, message) {
            (ScreenState::JoinBalancerForm(form), Message::GpuDevicesDetected(devices)) => {
                &&& self.runs_the_same(before)
                &&& self.screen == ScreenState::JoinBalancerForm(
                    JoinBalancerFormData { requires_device: devices@.len() > 0, ..form },
                )
                &&& task is Nothing
            },
            (screen, Message::GpuDevicesDetected(_)) => {
                &&& self.runs_the_same(before)
                &&& self.screen == screen
                &&& task is Nothing
            },
            (_, Message::Quit) => {
                &&& cancel_requested(self.shutdown)
                &&& cancels(self.shutdown) == cancels(before.shutdown)
                &&& self.balancer_cancel is None
                &&& self.agent_cancel is None
                &&& self.screen == home(None)
                &&& task is Exit
            },
            (ScreenState::Home(_), Message::Home(home_handler::Message::StartBalancer)) => {
                &&& self.runs_the_same(before)
                &&& task is Nothing
                &&& self.screen matches ScreenState::StartBalancerForm(form) && is_start_form(
                    form,
                    suggested_address(network_addresses),
                )
            },
            (ScreenState::Home(_), Message::Home(home_handler::Message::JoinBalancer)) => {
                &&& self.runs_the_same(before)
                &&& task is Nothing
                &&& self.screen matches ScreenState::JoinBalancerForm(form) && form@ == (
                JoinBalancerFormView {
                    gpu_devices: device_indices(before.gpu_devices@),
                    requires_device: !before.gpu_devices_detected || before.gpu_devices@.len()
                        > 0,
                    ..empty_form()
                })
            },
            (
                ScreenState::JoinBalancerForm(form),
                Message::JoinBalancerForm(msg),
            ) => self.follows_join_action(
                before,
                form@.after(msg, address_parses),
                form@.action(msg, address_parses),
                task,
            ),
            (
                ScreenState::StartBalancerForm(_),
                Message::StartBalancerForm(outcome),
            ) => self.follows_start_action(before, outcome.data, outcome.action, task),
            (ScreenState::StartBalancerForm(form), Message::BalancerStarted) => {
                &&& self.runs_the_same(before)
                &&& task is Nothing
                &&& self.screen matches ScreenState::RunningBalancer(running) && is_starting(
                    running,
                    form,
                )
            },
            (ScreenState::StartBalancerForm(_), Message::BalancerFailed(error))
            | (ScreenState::RunningBalancer(_), Message::BalancerFailed(error)) => {
                &&& self.shutdown == before.shutdown
                &&& self.agent_cancel == before.agent_cancel
                &&& self.balancer_cancel is None
                &&& self.screen == home(Some(error))
                &&& task is Nothing
            },
            (
                ScreenState::RunningBalancer(running),
                Message::RunningBalancer(msg),
            ) => exists|data: RunningBalancerData, action: running_balancer_handler::Action|
                {
                    &&& #[trigger] running_balancer_handler::leads_to(running, msg, data, action)
                    &&& self.follows_balancer_action(before, data, action, task)
                },
            (ScreenState::RunningBalancer(_), Message::BalancerStopped) => {
                &&& self.shutdown == before.shutdown
                &&& self.agent_cancel == before.agent_cancel
                &&& self.balancer_cancel is None
                &&& self.screen == home(None)
                &&& task is Nothing
            },
            (
                ScreenState::AgentRunning(running),
                Message::AgentRunning(agent_running_handler::Message::AgentStatusUpdated(status)),
            ) => {
                &&& self.runs_the_same(before)
                &&& task is Nothing
                &&& self.screen matches ScreenState::AgentRunning(data) && data.shows(
                    running,
                    status@,
                )
            },
            (
                ScreenState::AgentRunning(_),
                Message::AgentRunning(agent_running_handler::Message::Disconnect),
            ) => {
                &&& self.shutdown == before.shutdown
                &&& self.balancer_cancel == before.balancer_cancel
                &&& is_cancelled(before.agent_cancel, self.agent_cancel)
                &&& self.screen == home(None)
                &&& task is Nothing
            },
            (ScreenState::AgentRunning(_), Message::AgentStopped) => {
                &&& self.shutdown == before.shutdown
                &&& self.balancer_cancel == before.balancer_cancel
                &&& self.agent_cancel is None
                &&& self.screen == home(None)
                &&& task is Nothing
            },
            (ScreenState::AgentRunning(_), Message::AgentFailed(error)) => {
                &&& self.shutdown == before.shutdown
                &&& self.balancer_cancel == before.balancer_cancel
                &&& self.agent_cancel is None
                &&& self.screen == home(Some(error))
                &&& task is Nothing
            },
            (screen, Message::TabPressed { shift }) => {
                &&& self.runs_the_same(before)
                &&& self.screen == screen
                &&& task == if shift {
                    AppTask::FocusPrevious
                } else {
                    AppTask::FocusNext
                }
            },
            (screen, _) => {
                &&& self.runs_the_same(before)
                &&& self.screen == screen
                &&& task is WarnUnhandled
            },
        }
    }

    /// A front end that shows its first screen and runs nothing. The devices of
    /// the machine are to be detected next.
    pub fn new() -> (app: App)
        ensures
            app.agent_cancel is None,
            app.balancer_cancel is None,
            app.gpu_devices@.len() == 0,
            !app.gpu_devices_detected,
            !cancel_requested(app.shutdown),
            app.screen == home(None),
            devices_are_waived_for_a_reason(app),
    {
        App {
            agent_cancel: None,
            gpu_devices: Vec::new(),
            gpu_devices_detected: false,
            shutdown: new_token(),
            balancer_cancel: None,
            screen: ScreenState::default(),
        }
    }

    /// Takes over what happened, and says what is left to do about it.
    /// `network_addresses` are those of this machine, and `address_parses` says
    /// whether the address in the form to join a cluster is a socket address.
    pub fn update(
        &mut self,
        message: Message,
        network_addresses: &Vec<String>,
        address_parses: bool,
    ) -> (task: AppTask)
        ensures
            final(self).follows(
                *old(self),
                message,
                network_addresses@,
                address_parses,
                task,
            ),
            (old(self).screen, message) matches (
                ScreenState::JoinBalancerForm(form),
                Message::JoinBalancerForm(join_balancer_form_handler::Message::Connect),
            ) ==> says(form@.slots_count, parsed_number(form@.slots_count)),
    {
        let mut screen = ScreenState::default();
        std::mem::swap(&mut screen, &mut self.screen);

        match (screen, message) {
            (ScreenState::JoinBalancerForm(data), Message::GpuDevicesDetected(devices)) => {
                let mut data = data;
                data.requires_device = devices.len() > 0;
                self.gpu_devices = devices;
                self.gpu_devices_detected = true;
                self.screen = ScreenState::JoinBalancerForm(data);
                AppTask::Nothing
            },
            (screen, Message::GpuDevicesDetected(devices)) => {
                self.gpu_devices = devices;
                self.gpu_devices_detected = true;
                self.screen = screen;
                AppTask::Nothing
            },
            (_, Message::Quit) => {
                cancel(&mut self.shutdown);
                self.balancer_cancel = None;
                self.agent_cancel = None;
                AppTask::Exit
            },
            (ScreenState::Home(data), Message::Home(msg)) => {
                let home = Screen { state_data: data };
                match HomeData::update(msg) {
                    home_handler::Action::StartBalancer => {
                        self.screen = ScreenState::StartBalancerForm(
                            home.start_balancer(network_addresses).state_data,
                        );
                        AppTask::Nothing
                    },
                    home_handler::Action::JoinBalancer => {
                        let mut form = home.join_balancer(&self.gpu_devices).state_data;
                        if !self.gpu_devices_detected {
                            form.requires_device = true;
                        }
                        self.screen = ScreenState::JoinBalancerForm(form);
                        AppTask::Nothing
                    },
                }
            },
            (ScreenState::JoinBalancerForm(data), Message::JoinBalancerForm(msg)) => {
                let mut data = data;
                let action = data.update(msg, address_parses);
                let form = Screen { state_data: data };
                match action {
                    join_balancer_form_handler::Action::Stay => {
                        self.screen = ScreenState::JoinBalancerForm(form.state_data);
                        AppTask::Nothing
                    },
                    join_balancer_form_handler::Action::Cancel => {
                        self.screen = ScreenState::Home(form.cancel().state_data);
                        AppTask::Nothing
                    },
                    join_balancer_form_handler::Action::ConnectAgent {
                        agent_name,
                        management_address,
                        slots,
                        gpu_devices,
                    } => {
                        let running = form.connect();
                        assert(is_joining(running.state_data, form.state_data));
                        self.spawn_agent(running, agent_name, management_address, slots, gpu_devices)
                    },
                }
            },
            (ScreenState::StartBalancerForm(_), Message::StartBalancerForm(outcome)) => {
                let form = Screen { state_data: outcome.data };
                match outcome.action {
                    start_balancer_form_handler::Action::Stay => {
                        self.screen = ScreenState::StartBalancerForm(form.state_data);
                        AppTask::Nothing
                    },
                    start_balancer_form_handler::Action::Cancel => {
                        self.cancel_balancer();
                        self.screen = ScreenState::Home(form.cancel().state_data);
                        AppTask::Nothing
                    },
                    start_balancer_form_handler::Action::StartBalancer {
                        management_addr,
                        inference_addr,
                        web_admin_panel_addr,
                        desired_state,
                    } => {
                        self.screen = ScreenState::StartBalancerForm(form.state_data);
                        self.spawn_balancer(
                            management_addr,
                            inference_addr,
                            web_admin_panel_addr,
                            desired_state,
                        )
                    },
                }
            },
            (ScreenState::StartBalancerForm(data), Message::BalancerStarted) => {
                let form = Screen { state_data: data };
                self.screen = ScreenState::RunningBalancer(form.balancer_started().state_data);
                AppTask::Nothing
            },
            (ScreenState::StartBalancerForm(data), Message::BalancerFailed(error)) => {
                let form = Screen { state_data: data };
                self.balancer_cancel = None;
                self.screen = ScreenState::Home(form.balancer_failed(error).state_data);
                AppTask::Nothing
            },
            (ScreenState::RunningBalancer(data), Message::RunningBalancer(msg)) => {
                let mut data = data;
                let action = data.update(msg);
                self.screen = ScreenState::RunningBalancer(data);
                match action {
                    running_balancer_handler::Action::Stay => AppTask::Nothing,
                    running_balancer_handler::Action::Stop => {
                        self.cancel_balancer();
                        AppTask::Nothing
                    },
                    running_balancer_handler::Action::CopyToClipboard(
                        content,
                    ) => AppTask::CopyToClipboard(content),
                    running_balancer_handler::Action::OpenUrl(url) => AppTask::OpenUrl(url),
                }
            },
            (ScreenState::RunningBalancer(data), Message::BalancerStopped) => {
                let running = Screen { state_data: data };
                self.balancer_cancel = None;
                self.screen = ScreenState::Home(running.balancer_stopped().state_data);
                AppTask::Nothing
            },
            (ScreenState::RunningBalancer(data), Message::BalancerFailed(error)) => {
                let running = Screen { state_data: data };
                self.balancer_cancel = None;
                self.screen = ScreenState::Home(running.balancer_failed(error).state_data);
                AppTask::Nothing
            },
            (ScreenState::AgentRunning(data), Message::AgentRunning(msg)) => {
                let mut data = data;
                let action = data.update(msg);
                match action {
                    agent_running_handler::Action::Stay => {
                        self.screen = ScreenState::AgentRunning(data);
                        AppTask::Nothing
                    },
                    agent_running_handler::Action::Disconnect => {
                        if let Some(token) = &mut self.agent_cancel {
                            cancel(token);
                        }
                        let running = Screen { state_data: data };
                        self.screen = ScreenState::Home(running.disconnect().state_data);
                        AppTask::Nothing
                    },
                }
            },
            (ScreenState::AgentRunning(data), Message::AgentStopped) => {
                let running = Screen { state_data: data };
                self.agent_cancel = None;
                self.screen = ScreenState::Home(running.disconnect().state_data);
                AppTask::Nothing
            },
            (ScreenState::AgentRunning(data), Message::AgentFailed(error)) => {
                let running = Screen { state_data: data };
                self.agent_cancel = None;
                self.screen = ScreenState::Home(running.agent_failed(error).state_data);
                AppTask::Nothing
            },
            (screen, Message::TabPressed { shift }) => {
                self.screen = screen;
                if shift {
                    AppTask::FocusPrevious
                } else {
                    AppTask::FocusNext
                }
            },
            (screen, _) => {
                self.screen = screen;
                AppTask::WarnUnhandled
            },
        }
    }

    fn cancel_balancer(&mut self)
        ensures
            is_cancelled(old(self).balancer_cancel, final(self).balancer_cancel),
            final(self).agent_cancel == old(self).agent_cancel,
            final(self).gpu_devices == old(self).gpu_devices,
            final(self).gpu_devices_detected == old(self).gpu_devices_detected,
            final(self).shutdown == old(self).shutdown,
            final(self).screen == old(self).screen,
    {
        if let Some(token) = &mut self.balancer_cancel {
            cancel(token);
        }
    }

    /// Shows the agent, and says how to run it. It stops along with the front end.
    pub fn spawn_agent(
        &mut self,
        screen: Screen<AgentRunningData>,
        agent_name: Option<String>,
        management_address: String,
        slots: i32,
        gpu_devices: Vec<usize>,
    ) -> (task: AppTask)
        ensures
            final(self).shutdown == old(self).shutdown,
            final(self).balancer_cancel == old(self).balancer_cancel,
            final(self).gpu_devices == old(self).gpu_devices,
            final(self).gpu_devices_detected == old(self).gpu_devices_detected,
            final(self).screen == ScreenState::AgentRunning(screen.state_data),
            task matches AppTask::SpawnAgent(params) && params.agent_name == agent_name
                && params.gpu_devices == gpu_devices && params.management_address
                == management_address && params.slots == slots && is_new_runner(
                old(self).shutdown,
                final(self).agent_cancel,
                params.cancellation_token,
            ),
    {
        let token = child_token(&self.shutdown);
        self.agent_cancel = Some(clone_token(&token));
        self.screen = ScreenState::AgentRunning(screen.state_data);
        AppTask::SpawnAgent(
            AgentRunnerParams {
                agent_name,
                cancellation_token: token,
                gpu_devices,
                management_address,
                slots,
            },
        )
    }

    /// Says how to run the balancer. It stops along with the front end.
    pub fn spawn_balancer(
        &mut self,
        management_addr: String,
        inference_addr: String,
        web_admin_panel_addr: Option<String>,
        desired_state: BalancerDesiredState,
    ) -> (task: AppTask)
        ensures
            final(self).shutdown == old(self).shutdown,
            final(self).agent_cancel == old(self).agent_cancel,
            final(self).gpu_devices == old(self).gpu_devices,
            final(self).gpu_devices_detected == old(self).gpu_devices_detected,
            final(self).screen == old(self).screen,
            task matches AppTask::SpawnBalancer(params) && is_balancer_start(
                params,
                (start_balancer_form_handler::Action::StartBalancer {
                    management_addr,
                    inference_addr,
                    web_admin_panel_addr,
                    desired_state,
                }),
            ) && is_new_runner(
                old(self).shutdown,
                final(self).balancer_cancel,
                params.cancellation_token,
            ),
    {
        let token = child_token(&self.shutdown);
        self.balancer_cancel = Some(clone_token(&token));
        AppTask::SpawnBalancer(
            BalancerRunnerParams {
                buffered_request_timeout_seconds: BUFFERED_REQUEST_TIMEOUT_SECONDS,
                cancellation_token: token,
                desired_state,
                inference_addr,
                inference_item_timeout_seconds: INFERENCE_ITEM_TIMEOUT_SECONDS,
                management_addr,
                max_buffered_requests: MAX_BUFFERED_REQUESTS,
                statsd_prefix: String::from_str("paddler_"),
                statsd_reporting_interval_seconds: STATSD_REPORTING_INTERVAL_SECONDS,
                web_admin_panel_addr,
            },
        )
    }

    /// A token that is cancelled when the front end shuts down.
    pub fn shutdown_token(&self) -> (token: CancellationToken)
        ensures
            cancels(token) == cancels(self.shutdown),
    {
        clone_token(&self.shutdown)
    }
}

/// What happens to an agent that the front end runs.
#[derive(Debug)]
pub enum AgentStreamEvent {
    /// Its state is to be shown, at the start and whenever it changed.
    Snapshot(Result<SlotAggregatedStatusSnapshot, InvalidAgentStateApplicationStatus>),
    /// Its state will not change any more.
    UpdatesClosed,
    /// It ended, with the text of an error if it failed.
    Completed(Result<(), String>),
}

/// What the front end is told of what it runs.
#[derive(Debug)]
pub enum StreamStep {
    /// Tell it, and wait for the next event, unless it does not listen any more.
    Tell(Message),
    /// Tell it, and no more.
    TellLast(Message),
    /// Wait for the next event.
    Wait,
    /// Tell it no more.
    Stop,
}

/// Decides what the front end is told of an agent that it runs.
pub fn agent_stream_step(event: AgentStreamEvent) -> (step: StreamStep)
    ensures
        match event {
            AgentStreamEvent::Snapshot(Ok(snapshot)) => step == StreamStep::Tell(
                Message::AgentRunning(
                    agent_running_handler::Message::AgentStatusUpdated(snapshot),
                ),
            ),
            AgentStreamEvent::Snapshot(Err(_)) => step is Stop,
            AgentStreamEvent::UpdatesClosed => step is Stop,
            AgentStreamEvent::Completed(Ok(())) => step == StreamStep::TellLast(
                Message::AgentStopped,
            ),
            AgentStreamEvent::Completed(Err(detail)) => step == StreamStep::TellLast(
                Message::AgentFailed(detail),
            ),
        },
{
    match event {
        AgentStreamEvent::Snapshot(Ok(snapshot)) => StreamStep::Tell(
            Message::AgentRunning(agent_running_handler::Message::AgentStatusUpdated(snapshot)),
        ),
        AgentStreamEvent::Snapshot(Err(_)) => StreamStep::Stop,
        AgentStreamEvent::UpdatesClosed => StreamStep::Stop,
        AgentStreamEvent::Completed(Ok(())) => StreamStep::TellLast(Message::AgentStopped),
        AgentStreamEvent::Completed(Err(detail)) => StreamStep::TellLast(
            Message::AgentFailed(detail),
        ),
    }
}

/// What happens to a balancer that the front end runs.
#[derive(Debug)]
pub enum BalancerStreamEvent {
    Started,
    /// It could not be started, and the text of the error.
    StartFailed(String),
    /// Its state is to be shown, at the start and whenever something changed.
    Snapshot(Result<RunningBalancerSnapshot, SnapshotFailure>),
    /// It was asked to be in another state.
    DesiredState(BalancerDesiredState),
    /// Some of the states it was asked to be in were missed.
    DesiredStatesMissed,
    /// Its agents, or its states, will not change any more.
    UpdatesClosed,
    /// It ended, with the text of an error if it failed.
    Completed(Result<(), String>),
}

/// Decides what the front end is told of a balancer that it runs, of which
/// `current_desired_state` is shown.
pub fn balancer_stream_step(
    current_desired_state: &mut BalancerDesiredState,
    event: BalancerStreamEvent,
) -> (step: StreamStep)
    ensures
        *final(current_desired_state) == match event {
            BalancerStreamEvent::DesiredState(state) => state,
            _ => *old(current_desired_state),
        },
        match event {
            BalancerStreamEvent::Started => step == StreamStep::Tell(Message::BalancerStarted),
            BalancerStreamEvent::StartFailed(detail) => step == StreamStep::TellLast(
                Message::BalancerFailed(detail),
            ),
            BalancerStreamEvent::Snapshot(Ok(snapshot)) => step == StreamStep::Tell(
                Message::RunningBalancer(
                    running_balancer_handler::Message::SnapshotUpdated(Box::new(snapshot)),
                ),
            ),
            BalancerStreamEvent::Snapshot(Err(_)) => step is Stop,
            BalancerStreamEvent::DesiredState(_) => step is Wait,
            BalancerStreamEvent::DesiredStatesMissed => step is Wait,
            BalancerStreamEvent::UpdatesClosed => step is Stop,
            BalancerStreamEvent::Completed(Ok(())) => step == StreamStep::TellLast(
                Message::BalancerStopped,
            ),
            BalancerStreamEvent::Completed(Err(detail)) => step == StreamStep::TellLast(
                Message::BalancerFailed(detail),
            ),
        },
{
    match event {
        BalancerStreamEvent::Started => StreamStep::Tell(Message::BalancerStarted),
        BalancerStreamEvent::StartFailed(detail) => StreamStep::TellLast(
            Message::BalancerFailed(detail),
        ),
        BalancerStreamEvent::Snapshot(Ok(snapshot)) => StreamStep::Tell(
            Message::RunningBalancer(
                running_balancer_handler::Message::SnapshotUpdated(Box::new(snapshot)),
            ),
        ),
        BalancerStreamEvent::Snapshot(Err(_)) => StreamStep::Stop,
        BalancerStreamEvent::DesiredState(state) => {
            *current_desired_state = state;
            StreamStep::Wait
        },
        BalancerStreamEvent::DesiredStatesMissed => StreamStep::Wait,
        BalancerStreamEvent::UpdatesClosed => StreamStep::Stop,
        BalancerStreamEvent::Completed(Ok(())) => StreamStep::TellLast(Message::BalancerStopped),
        BalancerStreamEvent::Completed(Err(detail)) => StreamStep::TellLast(
            Message::BalancerFailed(detail),
        ),
    }
}

/// Quitting works from every screen: everything is cancelled, and the program ends.
pub proof fn quitting_cancels_everything(
    before: App,
    after: App,
    network_addresses: Seq<String>,
    address_parses: bool,
    task: AppTask,
)
    requires
        after.follows(before, Message::Quit, network_addresses, address_parses, task),
    ensures
        task is Exit,
        cancel_requested(after.shutdown),
        after.agent_cancel is None,
        after.balancer_cancel is None,
{
}

/// What runs is stopped along with the front end: the tokens of what is started
/// are cancelled along with its own, which stays the same until it quits.
pub proof fn runners_stop_along_with_the_front_end(
    before: App,
    message: Message,
    after: App,
    network_addresses: Seq<String>,
    address_parses: bool,
    task: AppTask,
)
    requires
        after.follows(before, message, network_addresses, address_parses, task),
    ensures
        cancels(after.shutdown) == cancels(before.shutdown),
        task matches AppTask::SpawnAgent(params) ==> cancelled_along_with(
            params.cancellation_token,
        ) == cancels(after.shutdown),
        task matches AppTask::SpawnBalancer(params) ==> cancelled_along_with(
            params.cancellation_token,
        ) == cancels(after.shutdown),
{
}

/// A message that means nothing on the current screen changes nothing.
pub proof fn unhandled_messages_change_nothing(
    before: App,
    message: Message,
    after: App,
    network_addresses: Seq<String>,
    address_parses: bool,
    task: AppTask,
)
    requires
        after.follows(before, message, network_addresses, address_parses, task),
        task is WarnUnhandled,
    ensures
        after.screen == before.screen,
        after.runs_the_same(before),
        after.gpu_devices == before.gpu_devices,
        after.gpu_devices_detected == before.gpu_devices_detected,
{
}

/// An agent is started from the form to join a cluster only, and shown at once; a
/// balancer from the form to start one only, and shown once it started.
pub proof fn runners_are_started_from_their_forms(
    before: App,
    message: Message,
    after: App,
    network_addresses: Seq<String>,
    address_parses: bool,
    task: AppTask,
)
    requires
        after.follows(before, message, network_addresses, address_parses, task),
    ensures
        task is SpawnAgent ==> before.screen is JoinBalancerForm && after.screen is AgentRunning,
        task is SpawnBalancer ==> before.screen is StartBalancerForm
            && after.screen is StartBalancerForm,
        (after.screen is RunningBalancer && !(before.screen is RunningBalancer)) ==> message
            is BalancerStarted,
{
}

/// Whether a form to join a cluster, where it is shown, waives the selection of a
/// device only because no device could be detected.
pub open spec fn devices_are_waived_for_a_reason(app: App) -> bool {
    app.screen matches ScreenState::JoinBalancerForm(form) && !form.requires_device
        ==> app.gpu_devices_detected && app.gpu_devices@.len() == 0
}

/// An agent that is not restricted to selected devices can join only where the
/// detection of devices found none. That holds of a new front end, and whatever
/// happens it stays so.
pub proof fn devices_are_waived_only_where_none_was_found(
    before: App,
    after: App,
    message: Message,
    network_addresses: Seq<String>,
    address_parses: bool,
    task: AppTask,
)
    requires
        devices_are_waived_for_a_reason(before),
        after.follows(before, message, network_addresses, address_parses, task),
    ensures
        devices_are_waived_for_a_reason(after),
        task matches AppTask::SpawnAgent(params) && params.gpu_devices@.len() == 0
            ==> before.gpu_devices_detected && before.gpu_devices@.len() == 0,
{
}

/// The first screen comes back exactly if what was shown is over: the program ends, a form
/// is left, or what ran is stopped, left or failed. It shows an error exactly if that was
/// a failure, and then that error.
pub proof fn the_first_screen_comes_back_when_something_is_over(
    app: &mut App,
    message: Message,
    network_addresses: &Vec<String>,
    address_parses: bool,
    task: AppTask,
)
    requires
        call_ensures(App::update, (app, message, network_addresses, address_parses), task),
    ensures
        ({
            let before = old(app).screen;
            let after = final(app).screen;
            let agent_over = before is AgentRunning && (message is AgentStopped
                || message is AgentFailed || (message matches Message::AgentRunning(message)
                && message is Disconnect));
            let balancer_over = before is RunningBalancer && (message is BalancerStopped
                || message is BalancerFailed);
            let join_over = before is JoinBalancerForm && (
            message matches Message::JoinBalancerForm(message) && message is Cancel);
            let start_over = before is StartBalancerForm && (message is BalancerFailed || (
            message matches Message::StartBalancerForm(outcome) && outcome.action is Cancel));
            &&& (after is Home && !(before is Home)) ==> agent_over || balancer_over || join_over
                || start_over || message is Quit
            &&& agent_over || balancer_over || join_over || start_over || message is Quit
                ==> after is Home
            &&& !(before is Home) ==> (after matches ScreenState::Home(home) ==> home.error == (
            match message {
                Message::AgentFailed(error) => Some(error),
                Message::BalancerFailed(error) => Some(error),
                _ => None,
            }))
        }),
{
}

/// What is stopped on request is cancelled, and nothing else is: a running balancer where
/// it is to stop or its form is left, and an agent that is disconnected. What ended is
/// forgotten.
pub proof fn what_is_to_stop_is_cancelled(
    app: &mut App,
    message: Message,
    network_addresses: &Vec<String>,
    address_parses: bool,
    task: AppTask,
)
    requires
        call_ensures(App::update, (app, message, network_addresses, address_parses), task),
    ensures
        ({
            let before = *old(app);
            let after = *final(app);
            let disconnects = before.screen is AgentRunning && (
            message matches Message::AgentRunning(message) && message is Disconnect);
            let stops = (before.screen is RunningBalancer && (
            message matches Message::RunningBalancer(message) && message is Stop)) || (
            before.screen is StartBalancerForm && (message matches Message::StartBalancerForm(
                outcome,
            ) && outcome.action is Cancel));
            &&& disconnects && before.agent_cancel is Some ==> {
                &&& after.agent_cancel matches Some(token)
                &&& cancel_requested(token)
                &&& cancels(token) == cancels(before.agent_cancel->Some_0)
            }
            &&& stops && before.balancer_cancel is Some ==> {
                &&& after.balancer_cancel matches Some(token)
                &&& cancel_requested(token)
                &&& cancels(token) == cancels(before.balancer_cancel->Some_0)
            }
            &&& before.screen is AgentRunning && (message is AgentStopped || message is AgentFailed)
                ==> after.agent_cancel is None
            &&& before.screen is RunningBalancer && (message is BalancerStopped
                || message is BalancerFailed) ==> after.balancer_cancel is None
            &&& after.agent_cancel != before.agent_cancel ==> disconnects || task is SpawnAgent
                || after.agent_cancel is None
            &&& after.balancer_cancel != before.balancer_cancel ==> stops || task is SpawnBalancer
                || after.balancer_cancel is None
            &&& after.shutdown != before.shutdown ==> message is Quit
            &&& message is Quit ==> cancel_requested(after.shutdown) && task is Exit
            &&& task is Exit ==> message is Quit
            &&& stops && before.screen is RunningBalancer ==> (
            after.screen matches ScreenState::RunningBalancer(running) && running.stopping)
        }),
{
}

/// An agent is started with what stands in the form to join a cluster, if that is
/// complete, and can be stopped from then on. It is shown as not connected.
pub proof fn an_agent_is_started_as_the_form_says(
    app: &mut App,
    message: Message,
    network_addresses: &Vec<String>,
    address_parses: bool,
    params: AgentRunnerParams,
)
    requires
        call_ensures(
            App::update,
            (app, message, network_addresses, address_parses),
            AppTask::SpawnAgent(params),
        ),
    ensures
        message == Message::JoinBalancerForm(join_balancer_form_handler::Message::Connect),
        old(app).screen matches ScreenState::JoinBalancerForm(form) && {
            &&& address_parses
            &&& params.management_address@ == form.balancer_address@
            &&& params.management_address@.len() > 0
            &&& params.gpu_devices@ == form.gpu_devices@
            &&& params.slots > 0
            &&& parsed_number(form.slots_count@) == crate::outside::ParsedNumber::Number(
                params.slots,
            )
            &&& params.agent_name is None <==> form.agent_name@.len() == 0
            &&& params.agent_name matches Some(name) ==> name@ == form.agent_name@
            &&& final(app).screen matches ScreenState::AgentRunning(running)
            &&& !running.connected
            &&& running.balancer_address@ == form.balancer_address@
            &&& running.gpu_devices@ == form.gpu_devices@
        },
        final(app).agent_cancel matches Some(token) && cancels(token) == cancels(
            params.cancellation_token,
        ),
        cancelled_along_with(params.cancellation_token) == cancels(old(app).shutdown),
{
}

/// A balancer is started with what its form says, and can be stopped from then on. Up to
/// thirty requests wait for a slot there, for ten seconds each, and a response may take
/// thirty seconds.
pub proof fn a_balancer_is_started_as_its_form_says(
    app: &mut App,
    message: Message,
    network_addresses: &Vec<String>,
    address_parses: bool,
    params: BalancerRunnerParams,
)
    requires
        call_ensures(
            App::update,
            (app, message, network_addresses, address_parses),
            AppTask::SpawnBalancer(params),
        ),
    ensures
        old(app).screen is StartBalancerForm,
        message matches Message::StartBalancerForm(outcome) && {
            &&& outcome.action matches start_balancer_form_handler::Action::StartBalancer {
                management_addr,
                inference_addr,
                web_admin_panel_addr,
                desired_state,
            }
            &&& params.management_addr == management_addr
            &&& params.inference_addr == inference_addr
            &&& params.web_admin_panel_addr == web_admin_panel_addr
            &&& params.desired_state == desired_state
        },
        params.max_buffered_requests == 30,
        params.buffered_request_timeout_seconds == 10,
        params.inference_item_timeout_seconds == 30,
        params.statsd_reporting_interval_seconds == 10,
        params.statsd_prefix@ == "paddler_"@,
        final(app).balancer_cancel matches Some(token) && cancels(token) == cancels(
            params.cancellation_token,
        ),
        cancelled_along_with(params.cancellation_token) == cancels(old(app).shutdown),
{
}

/// The devices are those that were detected last, whatever is shown. A form to join a
/// cluster that is shown then keeps what stands in it, but asks for a device exactly if
/// there are any.
pub proof fn detected_devices_are_kept(
    app: &mut App,
    devices: Vec<GpuDevice>,
    network_addresses: &Vec<String>,
    address_parses: bool,
    task: AppTask,
)
    requires
        call_ensures(
            App::update,
            (app, Message::GpuDevicesDetected(devices), network_addresses, address_parses),
            task,
        ),
    ensures
        final(app).gpu_devices == devices,
        final(app).gpu_devices_detected,
        task is Nothing,
        old(app).screen matches ScreenState::JoinBalancerForm(form) ==> {
            &&& final(app).screen matches ScreenState::JoinBalancerForm(shown)
            &&& shown.requires_device <==> devices@.len() > 0
            &&& shown.gpu_devices@ == form.gpu_devices@
            &&& shown.agent_name@ == form.agent_name@
            &&& shown.balancer_address@ == form.balancer_address@
            &&& shown.slots_count@ == form.slots_count@
        },
        !(old(app).screen is JoinBalancerForm) ==> final(app).screen == old(app).screen,
{
}

/// From the first screen each of the two forms can be opened. The one to join a cluster has
/// every detected device selected, and asks for one unless none was found.
pub proof fn forms_are_opened_from_the_first_screen(
    app: &mut App,
    message: home_handler::Message,
    network_addresses: &Vec<String>,
    address_parses: bool,
    task: AppTask,
    i: int,
)
    requires
        call_ensures(
            App::update,
            (app, Message::Home(message), network_addresses, address_parses),
            task,
        ),
        old(app).screen is Home,
    ensures
        task is Nothing,
        final(app).screen is StartBalancerForm <==> message is StartBalancer,
        final(app).screen is JoinBalancerForm <==> message is JoinBalancer,
        final(app).screen matches ScreenState::JoinBalancerForm(form) ==> {
            &&& form.gpu_devices@.len() == old(app).gpu_devices@.len()
            &&& 0 <= i < form.gpu_devices@.len() ==> form.gpu_devices@[i] == old(
                app,
            ).gpu_devices@[i].index
            &&& form.requires_device <==> !(old(app).gpu_devices_detected && old(
                app,
            ).gpu_devices@.len() == 0)
        },
        network_addresses@.len() > 0 ==> (final(app).screen matches ScreenState::StartBalancerForm(
            form,
        ) ==> form.balancer_address@ == network_addresses@[0]@ + ":8060"@),
{
}

/// What a running agent or balancer reports is shown where it is, and leads to nothing
/// else; the focus moves with the tabulator, whatever is shown.
pub proof fn reports_are_shown_where_they_belong(
    app: &mut App,
    message: Message,
    network_addresses: &Vec<String>,
    address_parses: bool,
    task: AppTask,
)
    requires
        call_ensures(App::update, (app, message, network_addresses, address_parses), task),
    ensures
        old(app).screen is AgentRunning ==> (message matches Message::AgentRunning(
            agent_running_handler::Message::AgentStatusUpdated(status),
        ) ==> {
            &&& final(app).screen matches ScreenState::AgentRunning(running)
            &&& running.connected
            &&& running.snapshot@.slots_total == status.slots_total
            &&& running.snapshot@.slots_processing == status.slots_processing
            &&& running.snapshot@.issues == status.issues@
            &&& task is Nothing
        }),
        old(app).screen is RunningBalancer ==> (message matches Message::RunningBalancer(
            running_balancer_handler::Message::SnapshotUpdated(snapshot),
        ) ==> {
            &&& final(app).screen matches ScreenState::RunningBalancer(running)
            &&& running.snapshot == *snapshot
            &&& task is Nothing
        }),
        message matches Message::TabPressed { shift } ==> final(app).screen == old(app).screen && (
        shift ==> task is FocusPrevious) && (!shift ==> task is FocusNext),
        task is FocusPrevious || task is FocusNext ==> message is TabPressed,
        message is BalancerStarted && old(app).screen is StartBalancerForm
            ==> final(app).screen is RunningBalancer,
        task matches AppTask::CopyToClipboard(content) ==> message == Message::RunningBalancer(
            running_balancer_handler::Message::CopyToClipboard(content),
        ),
        task matches AppTask::OpenUrl(url) ==> message == Message::RunningBalancer(
            running_balancer_handler::Message::OpenUrl(url),
        ),
{
}

/// The front end is told of the state of its agent as often as it is known, and of its end
/// once, and last.
pub proof fn the_end_of_an_agent_is_told_last(event: AgentStreamEvent, step: StreamStep)
    requires
        call_ensures(agent_stream_step, (event,), step),
    ensures
        step is TellLast <==> event is Completed,
        event == AgentStreamEvent::Completed(Ok(())) ==> step == StreamStep::TellLast(
            Message::AgentStopped,
        ),
        event matches AgentStreamEvent::Completed(Err(detail)) ==> step == StreamStep::TellLast(
            Message::AgentFailed(detail),
        ),
        step is Tell <==> (event matches AgentStreamEvent::Snapshot(Ok(_))),
        event matches AgentStreamEvent::Snapshot(Ok(snapshot)) ==> step == StreamStep::Tell(
            Message::AgentRunning(agent_running_handler::Message::AgentStatusUpdated(snapshot)),
        ),
        !(step is Wait),
{
}

/// The front end is told that its balancer started, of its state as often as it is known,
/// and of its end once, and last. A desired state is kept, to be shown with the next
/// snapshot.
pub proof fn the_end_of_a_balancer_is_told_last(
    current_desired_state: &mut BalancerDesiredState,
    event: BalancerStreamEvent,
    step: StreamStep,
)
    requires
        call_ensures(balancer_stream_step, (current_desired_state, event), step),
    ensures
        step is TellLast <==> event is Completed || event is StartFailed,
        event == BalancerStreamEvent::Completed(Ok(())) ==> step == StreamStep::TellLast(
            Message::BalancerStopped,
        ),
        event matches BalancerStreamEvent::Completed(Err(detail)) ==> step == StreamStep::TellLast(
            Message::BalancerFailed(detail),
        ),
        event matches BalancerStreamEvent::StartFailed(detail) ==> step == StreamStep::TellLast(
            Message::BalancerFailed(detail),
        ),
        event is Started ==> step == StreamStep::Tell(Message::BalancerStarted),
        event matches BalancerStreamEvent::Snapshot(Ok(snapshot)) ==> step == StreamStep::Tell(
            Message::RunningBalancer(
                running_balancer_handler::Message::SnapshotUpdated(Box::new(snapshot)),
            ),
        ),
        step is Wait <==> event is DesiredState || event is DesiredStatesMissed,
        step is Tell <==> event is Started || (event matches BalancerStreamEvent::Snapshot(Ok(_))),
        event matches BalancerStreamEvent::DesiredState(state) ==> *final(current_desired_state)
            == state,
        !(event is DesiredState) ==> *final(current_desired_state) == *old(current_desired_state),
{
}

/// A front end begins with its first screen, runs nothing, and knows no devices.
pub proof fn a_front_end_begins_with_its_first_screen(app: App, asked: &App, token: CancellationToken)
    requires
        call_ensures(App::new, (), app),
        call_ensures(App::shutdown_token, (asked,), token),
    ensures
        app.screen matches ScreenState::Home(home) && home.error is None,
        app.agent_cancel is None,
        app.balancer_cancel is None,
        app.gpu_devices@.len() == 0,
        !app.gpu_devices_detected,
        !cancel_requested(app.shutdown),
        cancels(token) == cancels(asked.shutdown),
{
}

/// Whether the message means something on the screen.
pub open spec fn means_something(screen: ScreenState, message: Message) -> bool {
    match message {
        Message::GpuDevicesDetected(_) => true,
        Message::Quit => true,
        Message::TabPressed { .. } => true,
        Message::Home(_) => screen is Home,
        Message::JoinBalancerForm(_) => screen is JoinBalancerForm,
        Message::StartBalancerForm(_) => screen is StartBalancerForm,
        Message::BalancerStarted => screen is StartBalancerForm,
        Message::BalancerFailed(_) => screen is StartBalancerForm || screen is RunningBalancer,
        Message::BalancerStopped => screen is RunningBalancer,
        Message::RunningBalancer(_) => screen is RunningBalancer,
        Message::AgentRunning(_) => screen is AgentRunning,
        Message::AgentStopped => screen is AgentRunning,
        Message::AgentFailed(_) => screen is AgentRunning,
    }
}

/// A message that means nothing on the screen is told of, and changes nothing at all; one
/// that means something is not told of.
pub proof fn only_messages_that_mean_something_count(
    app: &mut App,
    message: Message,
    network_addresses: &Vec<String>,
    address_parses: bool,
    task: AppTask,
)
    requires
        call_ensures(App::update, (app, message, network_addresses, address_parses), task),
    ensures
        task is WarnUnhandled <==> !means_something(old(app).screen, message),
        task is WarnUnhandled ==> *final(app) == *old(app),
{
}

/// A form shows what was done in it: what was done in the form to join a cluster as the
/// form itself says, and what was done in the form to start a balancer as it came out.
pub proof fn forms_show_what_was_done_in_them(
    app: &mut App,
    join: join_balancer_form_handler::Message,
    join_task: AppTask,
    other: &mut App,
    outcome: start_balancer_form_handler::Outcome,
    start_task: AppTask,
    network_addresses: &Vec<String>,
    address_parses: bool,
)
    requires
        call_ensures(
            App::update,
            (app, Message::JoinBalancerForm(join), network_addresses, address_parses),
            join_task,
        ),
        old(app).screen is JoinBalancerForm,
        call_ensures(
            App::update,
            (other, Message::StartBalancerForm(outcome), network_addresses, address_parses),
            start_task,
        ),
        old(other).screen is StartBalancerForm,
    ensures
        ({
            let before = old(app).screen->JoinBalancerForm_0@;
            &&& final(app).screen matches ScreenState::JoinBalancerForm(form) ==> {
                &&& form@ == before.after(join, address_parses)
                &&& before.action(join, address_parses) is Stay
                &&& join_task is Nothing
            }
            &&& before.action(join, address_parses) is Stay ==> final(app).screen
                is JoinBalancerForm
            &&& before.action(join, address_parses) is ConnectAgent ==> join_task is SpawnAgent
                && final(app).screen is AgentRunning
        }),
        final(other).screen matches ScreenState::StartBalancerForm(form) ==> form == outcome.data,
        outcome.action is Stay ==> final(other).screen is StartBalancerForm
            && start_task is Nothing,
        outcome.action is StartBalancer ==> final(other).screen is StartBalancerForm
            && start_task is SpawnBalancer,
{
}

} // verus!
