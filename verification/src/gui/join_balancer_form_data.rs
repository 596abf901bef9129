//! The form with which an agent joins a cluster.
use vstd::prelude::*;

use crate::text::text_of;

verus! {

/// What stands in the form.
#[derive(Debug)]
pub struct JoinBalancerFormData {
    pub agent_name: String,
    pub balancer_address: String,
    pub balancer_address_error: Option<String>,
    pub gpu_devices: Vec<usize>,
    pub gpu_devices_error: Option<String>,
    /// Whether a device has to be selected. Where none could be detected the agent
    /// is not restricted to any, and uses every device.
    pub requires_device: bool,
    pub slots_count: String,
    pub slots_error: Option<String>,
}

/// The content of the form.
#[verifier::ext_equal]
pub ghost struct JoinBalancerFormView {
    pub agent_name: Seq<char>,
    pub balancer_address: Seq<char>,
    pub balancer_address_error: Option<Seq<char>>,
    pub gpu_devices: Seq<usize>,
    pub gpu_devices_error: Option<Seq<char>>,
    pub requires_device: bool,
    pub slots_count: Seq<char>,
    pub slots_error: Option<Seq<char>>,
}

impl View for JoinBalancerFormData {
    type V = JoinBalancerFormView;

    open spec fn view(&self) -> JoinBalancerFormView {
        JoinBalancerFormView {
            agent_name: self.agent_name@,
            balancer_address: self.balancer_address@,
            balancer_address_error: text_of(self.balancer_address_error),
            gpu_devices: self.gpu_devices@,
            gpu_devices_error: text_of(self.gpu_devices_error),
            requires_device: self.requires_device,
            slots_count: self.slots_count@,
            slots_error: text_of(self.slots_error),
        }
    }
}

/// The content of an empty form.
pub open spec fn empty_form() -> JoinBalancerFormView {
    JoinBalancerFormView {
        agent_name: Seq::empty(),
        balancer_address: Seq::empty(),
        balancer_address_error: None,
        gpu_devices: Seq::empty(),
        gpu_devices_error: None,
        requires_device: true,
        slots_count: Seq::empty(),
        slots_error: None,
    }
}

impl Default for JoinBalancerFormData {
    fn default() -> (form: Self)
        ensures
            form@ == empty_form(),
    {
        JoinBalancerFormData {
            agent_name: String::new(),
            balancer_address: String::new(),
            balancer_address_error: None,
            gpu_devices: Vec::new(),
            gpu_devices_error: None,
            requires_device: true,
            slots_count: String::new(),
            slots_error: None,
        }
    }
}

/// An empty form has nothing in it and nothing wrong with it, and asks for a device.
pub proof fn an_empty_form_has_nothing_in_it(form: JoinBalancerFormData)
    requires
        call_ensures(JoinBalancerFormData::default, (), form),
    ensures
        form.agent_name@.len() == 0,
        form.balancer_address@.len() == 0,
        form.slots_count@.len() == 0,
        form.gpu_devices@.len() == 0,
        form.balancer_address_error is None,
        form.gpu_devices_error is None,
        form.slots_error is None,
        form.requires_device,
{
    let view = form@;
    assert(view.balancer_address_error is None);
    assert(view.gpu_devices_error is None);
    assert(view.slots_error is None);
    assert(view.agent_name.len() == 0);
    assert(view.balancer_address.len() == 0);
    assert(view.slots_count.len() == 0);
    assert(view.gpu_devices.len() == 0);
}

} // verus!
