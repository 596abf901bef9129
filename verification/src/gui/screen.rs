//! The screens of the front end, and how one leads to another.
use vstd::prelude::*;

use crate::gui::agent_running_data::AgentRunningData;
use crate::gui::gpu_devices::GpuDevice;
use crate::gui::home_handler::HomeData;
use crate::gui::join_balancer_form_data::empty_form;
use crate::gui::join_balancer_form_data::JoinBalancerFormData;
use crate::gui::join_balancer_form_data::JoinBalancerFormView;
use crate::gui::running_balancer_handler::RunningBalancerData;
use crate::gui::running_balancer_snapshot::RunningBalancerSnapshot;
use crate::gui::start_balancer_form_handler::StartBalancerFormData;
use crate::messaging::agent_controller_snapshot::AgentControllerSnapshot;
use crate::messaging::agent_controller_snapshot::AgentControllerSnapshotView;
use crate::messaging::agent_issue::AgentIssueView;
use crate::messaging::agent_issue::AgentIssues;
use crate::messaging::agent_state_application_status::AgentStateApplicationStatus;
use crate::messaging::tokens_per_second::TokensPerSecond;
use crate::text::text_of;

verus! {

/// The screen that is shown, with what it shows.
#[derive(Debug)]
pub enum ScreenState {
    AgentRunning(AgentRunningData),
    Home(HomeData),
    JoinBalancerForm(JoinBalancerFormData),
    StartBalancerForm(StartBalancerFormData),
    RunningBalancer(RunningBalancerData),
}

impl Default for ScreenState {
    fn default() -> (screen: Self)
        ensures
            screen == ScreenState::Home((HomeData { error: None })),
    {
        ScreenState::Home(HomeData { error: None })
    }
}

/// A screen of one kind. Only the transitions of that kind lead on from it.
#[derive(Debug)]
pub struct Screen<TData> {
    pub state_data: TData,
}

/// The indices of the devices.
pub open spec fn device_indices(devices: Seq<GpuDevice>) -> Seq<usize> {
    devices.map_values(|device: GpuDevice| device.index)
}

/// What is shown of an agent that has not reported anything yet.
pub open spec fn unreported_agent(name: Option<Seq<char>>) -> AgentControllerSnapshotView {
    AgentControllerSnapshotView {
        desired_slots_total: 0,
        download_current: 0,
        download_filename: None,
        download_indeterminate: true,
        download_total: 0,
        id: Seq::empty(),
        issues: Set::<AgentIssueView>::empty(),
        model_path: None,
        name,
        slots_processing: 0,
        slots_total: 0,
        state_application_status: AgentStateApplicationStatus::Fresh,
        tokens_per_second: TokensPerSecond { bits: 0 },
        uses_chat_template_override: false,
    }
}

/// Whether `form` is the form to start a balancer at the suggested address.
pub open spec fn is_start_form(form: StartBalancerFormData, suggested_address: Seq<char>) -> bool {
    &&& !form.add_model_later
    &&& form.balancer_address@ == suggested_address + ":8060"@
    &&& form.balancer_address_error is None
    &&& form.inference_address@ == suggested_address + ":8061"@
    &&& form.inference_address_error is None
    &&& form.model_error is None
    &&& form.selected_model is None
    &&& !form.starting
    &&& form.web_admin_panel_address@ == Seq::<char>::empty()
    &&& form.web_admin_panel_address_error is None
    &&& form.web_admin_panel_address_placeholder@ == suggested_address + ":8062"@
}

/// The address that is suggested on a machine with these addresses.
pub open spec fn suggested_address(network_addresses: Seq<String>) -> Seq<char> {
    if network_addresses.len() == 0 {
        Seq::empty()
    } else {
        network_addresses[0]@
    }
}

/// Whether `running` shows the agent that joins with `form`.
pub open spec fn is_joining(running: AgentRunningData, form: JoinBalancerFormData) -> bool {
    &&& running.balancer_address == form.balancer_address
    &&& !running.connected
    &&& running.gpu_devices == form.gpu_devices
    &&& running.snapshot@ == unreported_agent(
        if form.agent_name@.len() == 0 {
            None
        } else {
            Some(form.agent_name@)
        },
    )
}

/// Whether `running` shows the balancer that is started with `form`.
pub open spec fn is_starting(running: RunningBalancerData, form: StartBalancerFormData) -> bool {
    &&& running.balancer_address == form.balancer_address
    &&& running.snapshot.agent_snapshots@.len() == 0
    &&& running.snapshot.balancer_applicable_state is None
    &&& running.snapshot.balancer_desired_state.model is Unset
    &&& running.snapshot.balancer_desired_state.others@ == Seq::<char>::empty()
    &&& !running.stopping
    &&& running.web_admin_panel_address == if form.web_admin_panel_address@.len() == 0 {
        None
    } else {
        Some(form.web_admin_panel_address)
    }
}

impl Screen<HomeData> {
    /// To the form to join a cluster, with every device selected, where there are any.
    pub fn join_balancer(self, devices: &Vec<GpuDevice>) -> (screen: Screen<JoinBalancerFormData>)
        ensures
            screen.state_data@ == (JoinBalancerFormView {
                gpu_devices: device_indices(devices@),
                requires_device: devices@.len() > 0,
                ..empty_form()
            }),
    {
        let mut all_device_indices: Vec<usize> = Vec::new();
        let mut i: usize = 0;
        while i < devices.len()
            invariant
                i <= devices.len(),
                all_device_indices@ == device_indices(devices@.subrange(0, i as int)),
            decreases devices.len() - i,
        {
            all_device_indices.push(devices[i].index);
            i = i + 1;
            assert(all_device_indices@ =~= device_indices(devices@.subrange(0, i as int)));
        }
        assert(devices@.subrange(0, i as int) =~= devices@);
        let mut form = JoinBalancerFormData::default();
        form.gpu_devices = all_device_indices;
        form.requires_device = devices.len() > 0;
        Screen { state_data: form }
    }

    /// To the form to start a balancer, at an address that this machine has.
    pub fn start_balancer(self, network_addresses: &Vec<String>) -> (screen: Screen<
        StartBalancerFormData,
    >)
        ensures
            is_start_form(screen.state_data, suggested_address(network_addresses@)),
    {
        let address = if network_addresses.len() == 0 {
            String::new()
        } else {
            network_addresses[0].clone()
        };
        Screen {
            state_data: StartBalancerFormData {
                add_model_later: false,
                balancer_address: address.clone().concat(":8060"),
                balancer_address_error: None,
                inference_address: address.clone().concat(":8061"),
                inference_address_error: None,
                model_error: None,
                selected_model: None,
                starting: false,
                web_admin_panel_address: String::new(),
                web_admin_panel_address_error: None,
                web_admin_panel_address_placeholder: address.concat(":8062"),
            },
        }
    }
}

impl Screen<JoinBalancerFormData> {
    pub fn cancel(self) -> (screen: Screen<HomeData>)
        ensures
            screen.state_data.error is None,
    {
        Screen { state_data: HomeData { error: None } }
    }

    /// To the agent that joins.
    pub fn connect(self) -> (screen: Screen<AgentRunningData>)
        ensures
            is_joining(screen.state_data, self.state_data),
    {
        let form_data = self.state_data;
        let name = if form_data.agent_name.as_str().is_empty() {
            None
        } else {
            Some(form_data.agent_name)
        };
        Screen {
            state_data: AgentRunningData {
                balancer_address: form_data.balancer_address,
                connected: false,
                gpu_devices: form_data.gpu_devices,
                snapshot: AgentControllerSnapshot {
                    desired_slots_total: 0,
                    download_current: 0,
                    download_filename: None,
                    download_indeterminate: true,
                    download_total: 0,
                    id: String::new(),
                    issues: AgentIssues::new(),
                    model_path: None,
                    name,
                    slots_processing: 0,
                    slots_total: 0,
                    state_application_status: AgentStateApplicationStatus::Fresh,
                    tokens_per_second: TokensPerSecond::zero(),
                    uses_chat_template_override: false,
                },
            },
        }
    }
}

impl Screen<AgentRunningData> {
    pub fn disconnect(self) -> (screen: Screen<HomeData>)
        ensures
            screen.state_data.error is None,
    {
        Screen { state_data: HomeData { error: None } }
    }

    pub fn agent_failed(self, error: String) -> (screen: Screen<HomeData>)
        ensures
            screen.state_data.error == Some(error),
    {
        Screen { state_data: HomeData { error: Some(error) } }
    }
}

impl Screen<StartBalancerFormData> {
    pub fn cancel(self) -> (screen: Screen<HomeData>)
        ensures
            screen.state_data.error is None,
    {
        Screen { state_data: HomeData { error: None } }
    }

    /// To the balancer that was started.
    pub fn balancer_started(self) -> (screen: Screen<RunningBalancerData>)
        ensures
            is_starting(screen.state_data, self.state_data),
    {
        let form_data = self.state_data;
        let web_admin_panel_address = if form_data.web_admin_panel_address.as_str().is_empty() {
            None
        } else {
            Some(form_data.web_admin_panel_address)
        };
        Screen {
            state_data: RunningBalancerData {
                balancer_address: form_data.balancer_address,
                snapshot: RunningBalancerSnapshot::default(),
                stopping: false,
                web_admin_panel_address,
            },
        }
    }

    pub fn balancer_failed(self, error: String) -> (screen: Screen<HomeData>)
        ensures
            screen.state_data.error == Some(error),
    {
        Screen { state_data: HomeData { error: Some(error) } }
    }
}

impl Screen<RunningBalancerData> {
    pub fn balancer_stopped(self) -> (screen: Screen<HomeData>)
        ensures
            screen.state_data.error is None,
    {
        Screen { state_data: HomeData { error: None } }
    }

    pub fn balancer_failed(self, error: String) -> (screen: Screen<HomeData>)
        ensures
            screen.state_data.error == Some(error),
    {
        Screen { state_data: HomeData { error: Some(error) } }
    }
}

/// The form to join a cluster opens with every device selected, in their order, and with
/// nothing else in it. A device has to be selected exactly if there are any.
pub proof fn every_device_is_selected_at_first(
    home: Screen<HomeData>,
    devices: &Vec<GpuDevice>,
    screen: Screen<JoinBalancerFormData>,
    i: int,
)
    requires
        call_ensures(Screen::<HomeData>::join_balancer, (home, devices), screen),
    ensures
        screen.state_data@.gpu_devices.len() == devices@.len(),
        0 <= i < devices@.len() ==> screen.state_data@.gpu_devices[i] == devices@[i].index,
        screen.state_data@.requires_device <==> devices@.len() > 0,
        screen.state_data@.agent_name.len() == 0,
        screen.state_data@.balancer_address.len() == 0,
        screen.state_data@.slots_count.len() == 0,
        screen.state_data@.balancer_address_error is None,
        screen.state_data@.slots_error is None,
        screen.state_data@.gpu_devices_error is None,
{
}

/// The form to start a balancer suggests the first address of the machine, with a port of
/// its own for each service; the admin panel is only suggested.
pub proof fn services_are_suggested_ports_of_their_own(
    home: Screen<HomeData>,
    network_addresses: &Vec<String>,
    screen: Screen<StartBalancerFormData>,
)
    requires
        call_ensures(Screen::<HomeData>::start_balancer, (home, network_addresses), screen),
    ensures
        ({
            let address = if network_addresses@.len() > 0 {
                network_addresses@[0]@
            } else {
                Seq::empty()
            };
            let form = screen.state_data;
            &&& form.balancer_address@ == address + ":8060"@
            &&& form.inference_address@ == address + ":8061"@
            &&& form.web_admin_panel_address_placeholder@ == address + ":8062"@
            &&& form.balancer_address@ != form.inference_address@
            &&& form.balancer_address@ != form.web_admin_panel_address_placeholder@
            &&& form.inference_address@ != form.web_admin_panel_address_placeholder@
            &&& form.web_admin_panel_address@.len() == 0
            &&& form.selected_model is None
            &&& !form.add_model_later
            &&& !form.starting
        }),
{
    reveal_strlit(":8060");
    reveal_strlit(":8061");
    reveal_strlit(":8062");
    let form = screen.state_data;
    assert(form.balancer_address@.last() == '0');
    assert(form.inference_address@.last() == '1');
    assert(form.web_admin_panel_address_placeholder@.last() == '2');
}

/// An agent that joins is shown under the name and with the devices and the address of the
/// form; it is not connected yet, has reported nothing, and has no name where none was
/// given.
pub proof fn a_joining_agent_is_not_connected_yet(
    form: Screen<JoinBalancerFormData>,
    running: Screen<AgentRunningData>,
)
    requires
        call_ensures(Screen::<JoinBalancerFormData>::connect, (form,), running),
    ensures
        ({
            let shown = running.state_data.snapshot@;
            &&& !running.state_data.connected
            &&& running.state_data.balancer_address@ == form.state_data.balancer_address@
            &&& running.state_data.gpu_devices@ == form.state_data.gpu_devices@
            &&& shown.name is None <==> form.state_data.agent_name@.len() == 0
            &&& shown.name matches Some(name) ==> name == form.state_data.agent_name@
            &&& shown.slots_total == 0
            &&& shown.slots_processing == 0
            &&& shown.desired_slots_total == 0
            &&& shown.model_path is None
            &&& shown.issues == Set::<AgentIssueView>::empty()
            &&& shown.state_application_status is Fresh
            &&& shown.download_total == 0
        }),
{
}

/// A balancer that started is shown at the address of the form, with its admin panel where
/// one was asked for; it is not stopping, and no agent is known of it yet.
pub proof fn a_started_balancer_is_shown_at_its_address(
    form: Screen<StartBalancerFormData>,
    running: Screen<RunningBalancerData>,
)
    requires
        call_ensures(Screen::<StartBalancerFormData>::balancer_started, (form,), running),
    ensures
        running.state_data.balancer_address@ == form.state_data.balancer_address@,
        running.state_data.web_admin_panel_address is None
            <==> form.state_data.web_admin_panel_address@.len() == 0,
        running.state_data.web_admin_panel_address matches Some(address) ==> address@
            == form.state_data.web_admin_panel_address@,
        !running.state_data.stopping,
        running.state_data.snapshot.agent_snapshots@.len() == 0,
        running.state_data.snapshot.balancer_applicable_state is None,
{
}

/// A failure is shown on the first screen as it is told, and only a failure is.
pub proof fn only_failures_are_shown_as_errors(
    agent: Screen<AgentRunningData>,
    agent_error: String,
    failed_agent: Screen<HomeData>,
    left_agent: Screen<HomeData>,
    balancer: Screen<RunningBalancerData>,
    balancer_error: String,
    failed_balancer: Screen<HomeData>,
    stopped_balancer: Screen<HomeData>,
    form: Screen<StartBalancerFormData>,
    form_error: String,
    failed_form: Screen<HomeData>,
    left_form: Screen<HomeData>,
)
    requires
        call_ensures(
            Screen::<AgentRunningData>::agent_failed,
            (agent, agent_error),
            failed_agent,
        ),
        call_ensures(Screen::<AgentRunningData>::disconnect, (agent,), left_agent),
        call_ensures(
            Screen::<RunningBalancerData>::balancer_failed,
            (balancer, balancer_error),
            failed_balancer,
        ),
        call_ensures(
            Screen::<RunningBalancerData>::balancer_stopped,
            (balancer,),
            stopped_balancer,
        ),
        call_ensures(
            Screen::<StartBalancerFormData>::balancer_failed,
            (form, form_error),
            failed_form,
        ),
        call_ensures(Screen::<StartBalancerFormData>::cancel, (form,), left_form),
    ensures
        failed_agent.state_data.error == Some(agent_error),
        failed_balancer.state_data.error == Some(balancer_error),
        failed_form.state_data.error == Some(form_error),
        left_agent.state_data.error is None,
        stopped_balancer.state_data.error is None,
        left_form.state_data.error is None,
{
}

/// A form that is left leads to the first screen, without an error, and so does the start.
pub proof fn a_form_that_is_left_leads_to_the_first_screen(
    form: Screen<JoinBalancerFormData>,
    left: Screen<HomeData>,
    first: ScreenState,
)
    requires
        call_ensures(Screen::<JoinBalancerFormData>::cancel, (form,), left),
        call_ensures(ScreenState::default, (), first),
    ensures
        left.state_data.error is None,
        first matches ScreenState::Home(home) && home.error is None,
{
}

} // verus!
