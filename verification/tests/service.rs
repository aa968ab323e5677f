use rpautovpn::completion::Completion;
use rpautovpn::policy::Action;
use rpautovpn::service::{
    is_service_active, query_verb, service_name, ServiceCommand, ServiceState,
    SERVICE_DEADLINE_SECS,
};

#[test]
fn unit_name_is_built_around_the_tunnel_name() {
    assert_eq!(service_name("wg0"), "wg-quick@wg0.service");
    assert_eq!(service_name("office-vpn"), "wg-quick@office-vpn.service");
    assert_eq!(service_name(""), "wg-quick@.service");
}

#[test]
fn only_a_successful_query_means_active() {
    assert!(is_service_active(Completion::Exited(0)));
    assert!(!is_service_active(Completion::Exited(3)));
    assert!(!is_service_active(Completion::Exited(4)));
    assert!(!is_service_active(Completion::Exited(-1)));
    assert!(!is_service_active(Completion::NoStatus));
    assert!(!is_service_active(Completion::TimedOut));
    assert!(!is_service_active(Completion::NotLaunched));
}

#[test]
fn query_answers_map_to_three_states() {
    assert_eq!(ServiceState::from_query(Completion::Exited(0)), ServiceState::Active);
    assert_eq!(ServiceState::from_query(Completion::Exited(3)), ServiceState::Inactive);
    assert_eq!(ServiceState::from_query(Completion::Exited(i32::MIN)), ServiceState::Inactive);
    assert_eq!(ServiceState::from_query(Completion::NoStatus), ServiceState::Unknown);
    assert_eq!(ServiceState::from_query(Completion::TimedOut), ServiceState::Unknown);
    assert_eq!(ServiceState::from_query(Completion::NotLaunched), ServiceState::Unknown);
}

#[test]
fn unknown_state_counts_as_inactive() {
    assert!(ServiceState::Active.is_active());
    assert!(!ServiceState::Inactive.is_active());
    assert!(!ServiceState::Unknown.is_active());
}

#[test]
fn noop_has_no_command() {
    assert_eq!(Action::NoOp.command(), None);
}

#[test]
fn every_other_action_has_its_command() {
    assert_eq!(Action::Start.command(), Some(ServiceCommand::Start));
    assert_eq!(Action::Stop.command(), Some(ServiceCommand::Stop));
    assert_eq!(Action::Restart.command(), Some(ServiceCommand::Restart));
}

#[test]
fn commands_map_back_to_their_actions() {
    for command in [ServiceCommand::Start, ServiceCommand::Stop, ServiceCommand::Restart] {
        assert_ne!(command.action(), Action::NoOp);
        assert_eq!(command.action().command(), Some(command));
    }
    assert_eq!(ServiceCommand::Start.action(), Action::Start);
    assert_eq!(ServiceCommand::Stop.action(), Action::Stop);
    assert_eq!(ServiceCommand::Restart.action(), Action::Restart);
}

#[test]
fn verbs_are_the_service_managers_words() {
    assert_eq!(ServiceCommand::Start.verb(), "start");
    assert_eq!(ServiceCommand::Stop.verb(), "stop");
    assert_eq!(ServiceCommand::Restart.verb(), "restart");
    assert_eq!(query_verb(), "is-active");
}

#[test]
fn completion_succeeds_only_on_exit_status_zero() {
    assert!(Completion::Exited(0).succeeded());
    assert!(!Completion::Exited(1).succeeded());
    assert!(!Completion::Exited(255).succeeded());
    assert!(!Completion::NoStatus.succeeded());
    assert!(!Completion::TimedOut.succeeded());
    assert!(!Completion::NotLaunched.succeeded());
}

#[test]
fn service_calls_have_a_deadline() {
    assert_eq!(SERVICE_DEADLINE_SECS, 30);
}
