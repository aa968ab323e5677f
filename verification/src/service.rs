//! The tunnel's service unit: its name, the operations asked of the service
//! manager, and how the manager's answers are read.

use vstd::prelude::*;
use vstd::string::*;
use crate::completion::Completion;
use crate::policy::Action;

verus! {

/// Upper bound, in seconds, on the wait for one call of the service manager.
pub const SERVICE_DEADLINE_SECS: u64 = 30;

/// What the service manager says of a unit.
#[derive(Clone, Copy, Debug, PartialEq, Eq, Structural)]
pub enum ServiceState {
    Active,
    Inactive,
    Unknown,
}

/// An operation that changes the state of a unit.
#[derive(Clone, Copy, Debug, PartialEq, Eq, Structural)]
pub enum ServiceCommand {
    Start,
    Stop,
    Restart,
}

/// The state that the manager's answer to an "is it active" query stands
/// for: active on success, inactive on any other exit status, unknown when
/// the query itself did not run to its end.
pub open spec fn state_reported(answer: Completion) -> ServiceState {
    match answer {
        Completion::Exited(status) => if status == 0 {
            ServiceState::Active
        } else {
            ServiceState::Inactive
        },
        _ => ServiceState::Unknown,
    }
}

impl ServiceState {
    /// Reads the manager's answer to an "is it active" query.
    pub fn from_query(answer: Completion) -> (state: ServiceState)
        ensures
            state == state_reported(answer),
    {
        match answer {
            Completion::Exited(status) => if status == 0 {
                ServiceState::Active
            } else {
                ServiceState::Inactive
            },
            _ => ServiceState::Unknown,
        }
    }

    /// Whether the unit counts as running. Only a unit reported active
    /// does: an unknown state is taken for inactive.
    pub fn is_active(self) -> (yes: bool)
        ensures
            yes == (self == ServiceState::Active),
    {
        match self {
            ServiceState::Active => true,
            _ => false,
        }
    }
}

/// Whether the unit is running, going by the manager's answer to an
/// "is it active" query.
pub fn is_service_active(answer: Completion) -> (yes: bool)
    ensures
        yes == answer.success(),
        yes == (state_reported(answer) == ServiceState::Active),
{
    ServiceState::from_query(answer).is_active()
}

/// The operation that carries out an action; none for `NoOp`.
pub open spec fn command_for(action: Action) -> Option<ServiceCommand> {
    match action {
        Action::NoOp => None,
        Action::Start => Some(ServiceCommand::Start),
        Action::Stop => Some(ServiceCommand::Stop),
        Action::Restart => Some(ServiceCommand::Restart),
    }
}

/// The action that an operation carries out.
pub open spec fn action_of(command: ServiceCommand) -> Action {
    match command {
        ServiceCommand::Start => Action::Start,
        ServiceCommand::Stop => Action::Stop,
        ServiceCommand::Restart => Action::Restart,
    }
}

impl Action {
    /// The operation to ask of the service manager, if any. `NoOp` asks
    /// for none, and it is the only action that does.
    pub fn command(self) -> (command: Option<ServiceCommand>)
        ensures
            command == command_for(self),
            command is None <==> self == Action::NoOp,
            command matches Some(c) ==> action_of(c) == self,
    {
        match self {
            Action::NoOp => None,
            Action::Start => Some(ServiceCommand::Start),
            Action::Stop => Some(ServiceCommand::Stop),
            Action::Restart => Some(ServiceCommand::Restart),
        }
    }
}

impl ServiceCommand {
    /// The action that this operation carries out.
    pub fn action(self) -> (action: Action)
        ensures
            action == action_of(self),
            action != Action::NoOp,
            command_for(action) == Some(self),
    {
        match self {
            ServiceCommand::Start => Action::Start,
            ServiceCommand::Stop => Action::Stop,
            ServiceCommand::Restart => Action::Restart,
        }
    }

    /// The word by which the service manager knows the operation.
    pub fn verb(self) -> (word: &'static str)
        ensures
            word@ == match self {
                ServiceCommand::Start => "start"@,
                ServiceCommand::Stop => "stop"@,
                ServiceCommand::Restart => "restart"@,
            },
    {
        match self {
            ServiceCommand::Start => "start",
            ServiceCommand::Stop => "stop",
            ServiceCommand::Restart => "restart",
        }
    }
}

/// The word by which the service manager knows the "is it active" query.
pub fn query_verb() -> (word: &'static str)
    ensures
        word@ == "is-active"@,
{
    "is-active"
}

/// The name of the unit that runs the tunnel on the interface `tunnel`.
pub open spec fn unit_name(tunnel: Seq<char>) -> Seq<char> {
    "wg-quick@"@ + tunnel + ".service"@
}

/// Builds the name of the unit that runs the tunnel on the interface
/// `tunnel`: `wg-quick@`, the interface's name, `.service`.
pub fn service_name(tunnel: &str) -> (name: String)
    ensures
        name@ == unit_name(tunnel@),
{
    let mut name = String::from_str("wg-quick@");
    name.append(tunnel);
    name.append(".service");
    name
}

} // verus!
