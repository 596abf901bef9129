//! What the first screen does.
use vstd::prelude::*;

verus! {

/// What the first screen shows.
#[derive(Debug, PartialEq, Eq)]
pub struct HomeData {
    /// Why the balancer or the agent that ran last failed.
    pub error: Option<String>,
}

/// Something that was done on the screen.
#[derive(Clone, Copy, Debug, PartialEq, Eq, Structural)]
pub enum Message {
    StartBalancer,
    JoinBalancer,
}

/// What follows from it.
#[derive(Clone, Copy, Debug, PartialEq, Eq, Structural)]
pub enum Action {
    StartBalancer,
    JoinBalancer,
}

impl HomeData {
    /// What follows from something that was done on the screen.
    pub fn update(message: Message) -> (action: Action)
        ensures
            action == match message {
                Message::StartBalancer => Action::StartBalancer,
                Message::JoinBalancer => Action::JoinBalancer,
            },
    {
        match message {
            Message::StartBalancer => Action::StartBalancer,
            Message::JoinBalancer => Action::JoinBalancer,
        }
    }
}

/// Each button of the first screen leads to its own form.
pub proof fn each_button_leads_to_its_own_form(message: Message, action: Action)
    requires
        call_ensures(HomeData::update, (message,), action),
    ensures
        action is StartBalancer <==> message is StartBalancer,
        action is JoinBalancer <==> message is JoinBalancer,
{
}

} // verus!
