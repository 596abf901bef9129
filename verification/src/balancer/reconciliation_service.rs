//! Turning the desired state of the balancer into the one that its agents are
//! asked to be in.
use tokio::sync::watch;
use vstd::prelude::*;

use crate::balancer::agent_controller_pool::AgentControllerPool;
use crate::balancer::agent_controller_pool::AgentControllerPoolView;
use crate::balancer::agent_controller_pool::all_asked;
use crate::balancer::agent_controller_pool::asked_until;
use crate::messaging::messages::AgentDesiredModel;
use crate::messaging::messages::AgentDesiredState;
use crate::messaging::messages::AgentJsonRpcMessage;
use crate::messaging::messages::AgentJsonRpcNotification;
use crate::messaging::messages::SetStateParams;
use crate::outside::send_update;
use crate::outside::subscribe;
use crate::outside::update_channel;
use crate::outside::updates_seen;
use crate::outside::updates_sent;

verus! {

/// The state that the balancer was asked to be in.
#[derive(Debug, PartialEq, Eq)]
pub struct BalancerDesiredState {
    pub model: AgentDesiredModel,
    /// Everything but the model, as a JSON document.
    pub others: String,
}

/// The state that the balancer can be in: the one that its agents are asked to
/// be in.
#[derive(Debug, PartialEq, Eq)]
pub struct BalancerApplicableState {
    pub agent_desired_state: AgentDesiredState,
}

impl Clone for BalancerDesiredState {
    fn clone(&self) -> (copy: Self)
        ensures
            copy == *self,
    {
        BalancerDesiredState { model: self.model.clone(), others: self.others.clone() }
    }
}

impl Default for BalancerDesiredState {
    fn default() -> (state: Self)
        ensures
            state.model is Unset,
            state.others@ == Seq::<char>::empty(),
    {
        BalancerDesiredState { model: AgentDesiredModel::Unset, others: String::new() }
    }
}

impl Clone for BalancerApplicableState {
    fn clone(&self) -> (copy: Self)
        ensures
            copy == *self,
    {
        BalancerApplicableState { agent_desired_state: self.agent_desired_state.clone() }
    }
}

/// Holds the state that the balancer is in, once there is one. Subscribers are
/// told when it is set.
#[derive(Debug)]
pub struct BalancerApplicableStateHolder {
    balancer_applicable_state: Option<BalancerApplicableState>,
    update_tx: watch::Sender<()>,
}

impl View for BalancerApplicableStateHolder {
    type V = Option<BalancerApplicableState>;

    closed spec fn view(&self) -> Option<BalancerApplicableState> {
        self.balancer_applicable_state
    }
}

impl BalancerApplicableStateHolder {
    /// How often subscribers were told of a change.
    pub closed spec fn updates(&self) -> nat {
        updates_sent(self.update_tx)
    }

    pub fn set_balancer_applicable_state(
        &mut self,
        balancer_applicable_state: Option<BalancerApplicableState>,
    )
        ensures
            final(self)@ == balancer_applicable_state,
            final(self).updates() == old(self).updates() + 1,
    {
        self.balancer_applicable_state = balancer_applicable_state;
        send_update(&mut self.update_tx);
    }

    pub fn get_balancer_applicable_state(&self) -> (state: Option<BalancerApplicableState>)
        ensures
            state == self@,
    {
        match &self.balancer_applicable_state {
            Some(state) => Some(state.clone()),
            None => None,
        }
    }

    /// The state that agents are asked to be in, once there is one.
    pub fn get_agent_desired_state(&self) -> (state: Option<AgentDesiredState>)
        ensures
            state == match self@ {
                Some(state) => Some(state.agent_desired_state),
                None => None,
            },
    {
        match &self.balancer_applicable_state {
            Some(state) => Some(state.agent_desired_state.clone()),
            None => None,
        }
    }

    /// A receiver that is told of every change from now on.
    pub fn subscribe_to_updates(&self) -> (receiver: watch::Receiver<()>)
        ensures
            updates_seen(receiver) == self.updates(),
    {
        subscribe(&self.update_tx)
    }
}

impl Default for BalancerApplicableStateHolder {
    fn default() -> (holder: Self)
        ensures
            holder@ is None,
            holder.updates() == 0,
    {
        BalancerApplicableStateHolder {
            balancer_applicable_state: None,
            update_tx: update_channel(),
        }
    }
}

/// Why a desired state could not be put into effect.
#[derive(Clone, Copy, Debug, PartialEq, Eq, Structural)]
pub enum ReconciliationError {
    /// It cannot be converted.
    ConversionFailed,
    /// Some agent cannot be asked.
    AgentUnreachable,
}

/// What the service keeps: the latest desired state, and whether it was put into
/// effect.
#[derive(Debug)]
pub struct ReconciliationService {
    pub balancer_desired_state: BalancerDesiredState,
    pub is_converted_to_applicable_state: bool,
}

/// What happens to the service.
#[derive(Debug)]
pub enum ReconciliationEvent {
    Shutdown,
    Tick,
    DesiredStateReceived(BalancerDesiredState),
    /// No desired state can be received any more, or some were missed.
    ReceiveFailed,
}

/// What the service does next.
#[derive(Clone, Copy, Debug, PartialEq, Eq, Structural)]
pub enum ReconciliationStep {
    Wait,
    /// Convert the desired state, and go on with
    /// [`ReconciliationService::convert_to_applicable_state`].
    Convert,
    /// End the service.
    Stop,
    /// End the service with an error.
    Fail,
}

impl ReconciliationService {
    /// Puts a converted state into effect: every agent is asked to be in it, and
    /// the balancer holds it. It counts as in effect only if both worked out.
    pub fn convert_to_applicable_state(
        &mut self,
        agent_controller_pool: &mut AgentControllerPool,
        balancer_applicable_state_holder: &mut BalancerApplicableStateHolder,
        conversion: Option<BalancerApplicableState>,
    ) -> (result: Result<(), ReconciliationError>)
        requires
            old(agent_controller_pool).wf(),
        ensures
            final(agent_controller_pool).wf(),
            final(self).balancer_desired_state == old(self).balancer_desired_state,
            match conversion {
                Some(state) => match result {
                    Ok(()) => {
                        &&& all_asked(
                            old(agent_controller_pool)@,
                            final(agent_controller_pool)@,
                            state.agent_desired_state,
                        )
                        &&& final(balancer_applicable_state_holder)@ == Some(state)
                        &&& final(balancer_applicable_state_holder).updates() == old(
                            balancer_applicable_state_holder,
                        ).updates() + 1
                        &&& final(self).is_converted_to_applicable_state
                    },
                    Err(error) => {
                        &&& error is AgentUnreachable
                        &&& exists|id: Seq<char>| #[trigger]
                            asked_until(
                                old(agent_controller_pool)@,
                                final(agent_controller_pool)@,
                                state.agent_desired_state,
                                id,
                            )
                        &&& *final(balancer_applicable_state_holder) == *old(
                            balancer_applicable_state_holder,
                        )
                        &&& final(self).is_converted_to_applicable_state == old(
                            self,
                        ).is_converted_to_applicable_state
                    },
                },
                None => {
                    &&& result == Err::<(), ReconciliationError>(
                        ReconciliationError::ConversionFailed,
                    )
                    &&& final(agent_controller_pool)@ == old(agent_controller_pool)@
                    &&& *final(balancer_applicable_state_holder) == *old(
                        balancer_applicable_state_holder,
                    )
                    &&& final(self).is_converted_to_applicable_state == old(
                        self,
                    ).is_converted_to_applicable_state
                },
            },
    {
        match conversion {
            Some(balancer_applicable_state) => {
                let asked = agent_controller_pool.set_desired_state(
                    balancer_applicable_state.agent_desired_state.clone(),
                );
                if let Err(_) = asked {
                    return Err(ReconciliationError::AgentUnreachable);
                }
                balancer_applicable_state_holder.set_balancer_applicable_state(
                    Some(balancer_applicable_state),
                );
                self.is_converted_to_applicable_state = true;
                Ok(())
            },
            None => Err(ReconciliationError::ConversionFailed),
        }
    }

    /// Decides what to do about an event. A state that is not in effect is
    /// attempted again on every tick, and a new one at once.
    pub fn run(&mut self, event: ReconciliationEvent) -> (step: ReconciliationStep)
        ensures
            match event {
                ReconciliationEvent::Shutdown => step is Stop && *final(self) == *old(self),
                ReconciliationEvent::Tick => {
                    &&& *final(self) == *old(self)
                    &&& step == if old(self).is_converted_to_applicable_state {
                        ReconciliationStep::Wait
                    } else {
                        ReconciliationStep::Convert
                    }
                },
                ReconciliationEvent::DesiredStateReceived(state) => {
                    &&& step is Convert
                    &&& final(self).balancer_desired_state == state
                    &&& !final(self).is_converted_to_applicable_state
                },
                ReconciliationEvent::ReceiveFailed => {
                    &&& step is Fail
                    &&& final(self).balancer_desired_state == old(self).balancer_desired_state
                    &&& !final(self).is_converted_to_applicable_state
                },
            },
    {
        match event {
            ReconciliationEvent::Shutdown => ReconciliationStep::Stop,
            ReconciliationEvent::Tick => {
                if self.is_converted_to_applicable_state {
                    ReconciliationStep::Wait
                } else {
                    ReconciliationStep::Convert
                }
            },
            ReconciliationEvent::DesiredStateReceived(state) => {
                self.is_converted_to_applicable_state = false;
                self.balancer_desired_state = state;
                ReconciliationStep::Convert
            },
            ReconciliationEvent::ReceiveFailed => {
                self.is_converted_to_applicable_state = false;
                ReconciliationStep::Fail
            },
        }
    }
}

/// The name of the service.
pub fn name() -> (name: &'static str)
    ensures
        name@ == "balancer::reconciliation_service"@,
{
    "balancer::reconciliation_service"
}

/// Where no agent is connected, no agent can be out of reach.
pub proof fn without_agents_nothing_is_out_of_reach(
    before: AgentControllerPoolView,
    after: AgentControllerPoolView,
    desired_state: AgentDesiredState,
    unreachable: Seq<char>,
)
    requires
        before.agents == Map::<Seq<char>, crate::balancer::agent_controller::AgentControllerView>::empty(),
    ensures
        !asked_until(before, after, desired_state, unreachable),
{
}

/// A desired state counts as in effect exactly if it was converted and every agent was
/// asked to be in it; it is then what the balancer holds and what every agent was
/// asked last. Else the balancer holds what it held.
pub proof fn a_state_is_in_effect_once_every_agent_was_asked(
    service: &mut ReconciliationService,
    agent_controller_pool: &mut AgentControllerPool,
    holder: &mut BalancerApplicableStateHolder,
    conversion: Option<BalancerApplicableState>,
    result: Result<(), ReconciliationError>,
    held: Option<AgentDesiredState>,
    id: Seq<char>,
)
    requires
        call_ensures(
            ReconciliationService::convert_to_applicable_state,
            (service, agent_controller_pool, holder, conversion),
            result,
        ),
        call_ensures(
            BalancerApplicableStateHolder::get_agent_desired_state,
            (&*final(holder),),
            held,
        ),
    ensures
        conversion is None <==> result == Err::<(), ReconciliationError>(
            ReconciliationError::ConversionFailed,
        ),
        result is Ok ==> {
            let state = conversion->Some_0.agent_desired_state;
            let before = old(agent_controller_pool)@.agents;
            let after = final(agent_controller_pool)@.agents;
            &&& final(service).is_converted_to_applicable_state
            &&& final(holder)@ == conversion
            &&& held == Some(state)
            &&& final(holder).updates() == old(holder).updates() + 1
            &&& before.contains_key(id) ==> after[id].messages.len() == before[id].messages.len()
                + 1 && after[id].messages.last() == (
                AgentJsonRpcMessage::Notification(
                    AgentJsonRpcNotification::SetState(
                        Box::new(SetStateParams { desired_state: state }),
                    ),
                ),
                true,
            )
        },
        result is Err ==> final(holder)@ == old(holder)@ && final(holder).updates() == old(
            holder,
        ).updates() && final(service).is_converted_to_applicable_state == old(
            service,
        ).is_converted_to_applicable_state,
        final(service).balancer_desired_state == old(service).balancer_desired_state,
{
}

/// A state is attempted until it is in effect: on every tick until then, and at once
/// where it is new. What is attempted is the state that was received last.
pub proof fn a_state_is_attempted_until_it_is_in_effect(
    service: &mut ReconciliationService,
    event: ReconciliationEvent,
    step: ReconciliationStep,
)
    requires
        call_ensures(ReconciliationService::run, (service, event), step),
    ensures
        step is Convert <==> event is DesiredStateReceived || (event is Tick && !old(
            service,
        ).is_converted_to_applicable_state),
        step is Stop <==> event is Shutdown,
        step is Fail <==> event is ReceiveFailed,
        final(service).balancer_desired_state == match event {
            ReconciliationEvent::DesiredStateReceived(state) => state,
            _ => old(service).balancer_desired_state,
        },
        final(service).is_converted_to_applicable_state <==> old(
            service,
        ).is_converted_to_applicable_state && (event is Tick || event is Shutdown),
{
}

/// What was set is what is held, and it is told.
pub proof fn what_was_set_is_held(
    holder: &mut BalancerApplicableStateHolder,
    state: Option<BalancerApplicableState>,
    held: Option<BalancerApplicableState>,
)
    requires
        call_ensures(
            BalancerApplicableStateHolder::set_balancer_applicable_state,
            (holder, state),
            (),
        ),
        call_ensures(
            BalancerApplicableStateHolder::get_balancer_applicable_state,
            (&*final(holder),),
            held,
        ),
    ensures
        held == state,
        final(holder).updates() == old(holder).updates() + 1,
{
}

/// Whoever subscribes has seen everything so far, and has not seen what is set next.
pub proof fn a_subscriber_is_told_of_the_next_state(
    holder: &BalancerApplicableStateHolder,
    receiver: watch::Receiver<()>,
    changed: &mut BalancerApplicableStateHolder,
    state: Option<BalancerApplicableState>,
)
    requires
        call_ensures(BalancerApplicableStateHolder::subscribe_to_updates, (holder,), receiver),
        *old(changed) == *holder,
        call_ensures(
            BalancerApplicableStateHolder::set_balancer_applicable_state,
            (changed, state),
            (),
        ),
    ensures
        updates_seen(receiver) == holder.updates(),
        updates_seen(receiver) < final(changed).updates(),
{
}

/// At first the balancer is in no state, and nobody was told of one.
pub proof fn at_first_the_balancer_is_in_no_state(
    holder: BalancerApplicableStateHolder,
    asked: BalancerDesiredState,
)
    requires
        call_ensures(BalancerApplicableStateHolder::default, (), holder),
        call_ensures(BalancerDesiredState::default, (), asked),
    ensures
        holder@ is None,
        holder.updates() == 0,
        asked.model is Unset,
{
}

} // verus!
