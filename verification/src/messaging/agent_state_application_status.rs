//! How far an agent is with applying the state that the balancer asked for.
use vstd::prelude::*;

use crate::text::push_signed_decimal;
use crate::text::signed_decimal;

verus! {

/// How far an agent is with applying its desired state.
///
/// The variants are declared in the order of their codes.
#[derive(Clone, Copy, Debug, PartialEq, Eq, Structural)]
pub enum AgentStateApplicationStatus {
    /// Not attempted yet.
    Fresh,
    /// The desired state is in place.
    Applied,
    /// An attempt failed, and another one was started.
    AttemptedAndRetrying,
    /// The desired state cannot be applied without outside help.
    AttemptedAndNotAppliable,
    /// The retry failed too; the agent keeps trying.
    Stuck,
}

/// The code that is not the code of any status.
#[derive(Clone, Copy, Debug, PartialEq, Eq, Structural)]
pub struct InvalidAgentStateApplicationStatus {
    pub value: i32,
}

impl AgentStateApplicationStatus {
    /// The code of the status.
    pub open spec fn code_of(self) -> i32 {
        match self {
            AgentStateApplicationStatus::Fresh => 0,
            AgentStateApplicationStatus::Applied => 1,
            AgentStateApplicationStatus::AttemptedAndRetrying => 2,
            AgentStateApplicationStatus::AttemptedAndNotAppliable => 3,
            AgentStateApplicationStatus::Stuck => 4,
        }
    }

    /// The status that has the code `value`, where there is one.
    pub open spec fn of_code(value: i32) -> Option<AgentStateApplicationStatus> {
        if value == 0 {
            Some(AgentStateApplicationStatus::Fresh)
        } else if value == 1 {
            Some(AgentStateApplicationStatus::Applied)
        } else if value == 2 {
            Some(AgentStateApplicationStatus::AttemptedAndRetrying)
        } else if value == 3 {
            Some(AgentStateApplicationStatus::AttemptedAndNotAppliable)
        } else if value == 4 {
            Some(AgentStateApplicationStatus::Stuck)
        } else {
            None
        }
    }

    /// Whether an agent in this status attempts to apply its state again on its own.
    pub open spec fn retries(self) -> bool {
        self is Fresh || self is AttemptedAndRetrying || self is Stuck
    }

    /// The code under which the status is stored.
    pub fn code(self) -> (code: i32)
        ensures
            code == self.code_of(),
    {
        match self {
            AgentStateApplicationStatus::Fresh => 0,
            AgentStateApplicationStatus::Applied => 1,
            AgentStateApplicationStatus::AttemptedAndRetrying => 2,
            AgentStateApplicationStatus::AttemptedAndNotAppliable => 3,
            AgentStateApplicationStatus::Stuck => 4,
        }
    }

    /// The status that is stored under `value`; an error for a code that no status has.
    pub fn try_from_code(value: i32) -> (result: Result<
        AgentStateApplicationStatus,
        InvalidAgentStateApplicationStatus,
    >)
        ensures
            match result {
                Ok(status) => AgentStateApplicationStatus::of_code(value) == Some(status),
                Err(error) => AgentStateApplicationStatus::of_code(value) is None && error.value
                    == value,
            },
    {
        match value {
            0 => Ok(AgentStateApplicationStatus::Fresh),
            1 => Ok(AgentStateApplicationStatus::Applied),
            2 => Ok(AgentStateApplicationStatus::AttemptedAndRetrying),
            3 => Ok(AgentStateApplicationStatus::AttemptedAndNotAppliable),
            4 => Ok(AgentStateApplicationStatus::Stuck),
            _ => Err(InvalidAgentStateApplicationStatus { value }),
        }
    }

    /// Whether the agent should attempt, on its own, to apply the state again.
    pub fn should_try_to_apply(self) -> (should_try: bool)
        ensures
            should_try == self.retries(),
    {
        match self {
            AgentStateApplicationStatus::Fresh => true,
            AgentStateApplicationStatus::Applied => false,
            AgentStateApplicationStatus::AttemptedAndRetrying => true,
            AgentStateApplicationStatus::AttemptedAndNotAppliable => false,
            AgentStateApplicationStatus::Stuck => true,
        }
    }
}

impl Default for AgentStateApplicationStatus {
    fn default() -> (status: Self)
        ensures
            status is Fresh,
    {
        AgentStateApplicationStatus::Fresh
    }
}

impl InvalidAgentStateApplicationStatus {
    /// The text of the error.
    pub open spec fn message_text(self) -> Seq<char> {
        "Invalid value for AgentStateApplicationStatus: "@ + signed_decimal(self.value as int)
    }

    /// The error as a message.
    pub fn message(&self) -> (text: String)
        ensures
            text@ == self.message_text(),
    {
        let mut text = String::from_str("Invalid value for AgentStateApplicationStatus: ");
        push_signed_decimal(&mut text, self.value);
        text
    }
}

/// A status comes back from its own code, and no two statuses share a code.
pub proof fn status_survives_its_code(status: AgentStateApplicationStatus)
    ensures
        AgentStateApplicationStatus::of_code(status.code_of()) == Some(status),
{
}

/// Only codes of a status are accepted: the status found under a code has that code.
pub proof fn accepted_codes_are_codes_of_a_status(value: i32)
    ensures
        AgentStateApplicationStatus::of_code(value) matches Some(status) ==> status.code_of()
            == value,
{
}

/// The codes of the statuses are the numbers from zero on, in the order in which the
/// statuses are declared, and no other number is the code of a status.
pub proof fn codes_are_the_first_numbers(value: i32)
    ensures
        AgentStateApplicationStatus::of_code(value) is Some <==> 0 <= value < 5,
        AgentStateApplicationStatus::Fresh.code_of() < AgentStateApplicationStatus::Applied.code_of()
            < AgentStateApplicationStatus::AttemptedAndRetrying.code_of()
            < AgentStateApplicationStatus::AttemptedAndNotAppliable.code_of()
            < AgentStateApplicationStatus::Stuck.code_of(),
{
}

/// What is stored is the code of the status, from which the status is read again, and
/// every other code is an error that names it.
pub proof fn a_stored_status_is_read_again(
    status: AgentStateApplicationStatus,
    code: i32,
    result: Result<AgentStateApplicationStatus, InvalidAgentStateApplicationStatus>,
)
    requires
        call_ensures(AgentStateApplicationStatus::try_from_code, (code,), result),
    ensures
        call_ensures(AgentStateApplicationStatus::code, (status,), code) ==> result == Ok::<
            _,
            InvalidAgentStateApplicationStatus,
        >(status),
        result matches Ok(found) ==> 0 <= code < 5 && found.code_of() == code,
        result matches Err(error) ==> error.value == code && !(0 <= code < 5),
{
    status_survives_its_code(status);
    accepted_codes_are_codes_of_a_status(code);
}

/// An agent tries on its own to get out of every status but two: the desired state is
/// in place, or cannot be applied without help.
pub proof fn an_agent_tries_unless_it_is_done(
    status: AgentStateApplicationStatus,
    should_try: bool,
)
    requires
        call_ensures(AgentStateApplicationStatus::should_try_to_apply, (status,), should_try),
    ensures
        !should_try <==> status == AgentStateApplicationStatus::Applied || status
            == AgentStateApplicationStatus::AttemptedAndNotAppliable,
{
}

/// An agent has attempted nothing until it is known that it has.
pub proof fn nothing_was_attempted_at_first(
    status: AgentStateApplicationStatus,
    should_try: bool,
)
    requires
        call_ensures(AgentStateApplicationStatus::default, (), status),
        call_ensures(AgentStateApplicationStatus::should_try_to_apply, (status,), should_try),
    ensures
        status is Fresh,
        should_try,
{
}

} // verus!
