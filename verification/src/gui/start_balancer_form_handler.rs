//! The form with which a balancer is started.
use vstd::prelude::*;

use crate::balancer::reconciliation_service::BalancerDesiredState;

verus! {

/// What stands in the form.
#[derive(Debug)]
pub struct StartBalancerFormData {
    pub add_model_later: bool,
    pub balancer_address: String,
    pub balancer_address_error: Option<String>,
    pub inference_address: String,
    pub inference_address_error: Option<String>,
    pub model_error: Option<String>,
    /// The name of the model preset that was picked.
    pub selected_model: Option<String>,
    pub starting: bool,
    pub web_admin_panel_address: String,
    pub web_admin_panel_address_error: Option<String>,
    pub web_admin_panel_address_placeholder: String,
}

/// What follows from something that was done in the form.
#[derive(Debug)]
pub enum Action {
    /// Nothing.
    Stay,
    /// The form is left.
    Cancel,
    /// A balancer is started at these addresses.
    StartBalancer {
        management_addr: String,
        inference_addr: String,
        web_admin_panel_addr: Option<String>,
        desired_state: BalancerDesiredState,
    },
}

/// What came of something that was done in the form: what stands in it now, and
/// what follows.
#[derive(Debug)]
pub struct Outcome {
    pub data: StartBalancerFormData,
    pub action: Action,
}

} // verus!
