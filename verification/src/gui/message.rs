//! What the front end reacts to.
use vstd::prelude::*;

use crate::gui::agent_running_handler;
use crate::gui::gpu_devices::GpuDevice;
use crate::gui::home_handler;
use crate::gui::join_balancer_form_handler;
use crate::gui::running_balancer_handler;
use crate::gui::start_balancer_form_handler;

verus! {

/// Something that happened on a screen, to a running balancer or agent, or to the
/// front end as a whole.
#[derive(Debug)]
pub enum Message {
    Home(home_handler::Message),
    StartBalancerForm(start_balancer_form_handler::Outcome),
    JoinBalancerForm(join_balancer_form_handler::Message),
    RunningBalancer(running_balancer_handler::Message),
    AgentRunning(agent_running_handler::Message),
    BalancerStarted,
    BalancerStopped,
    BalancerFailed(String),
    AgentStopped,
    AgentFailed(String),
    GpuDevicesDetected(Vec<GpuDevice>),
    Quit,
    TabPressed { shift: bool },
}

} // verus!
