use foobar_service::bus::Bus;
use foobar_service::bus::BusCall;
use foobar_service::codec::Blah;
use foobar_service::codec::ServiceError;
use foobar_service::handler::MyInterface;
use foobar_service::service::start_service;
use foobar_service::service::startup_step;
use foobar_service::service::ServiceConfig;
use foobar_service::service::StartupAction;
use foobar_service::service::StartupEvent;
use foobar_service::service::StartupState;

fn foobar_config() -> ServiceConfig {
    ServiceConfig {
        path: "/dev/peelz/FooBar".to_string(),
        interface: "dev.peelz.FooBar.Baz".to_string(),
        well_known_name: "dev.peelz.foobar".to_string(),
    }
}

#[test]
fn registration_observed_before_name_claim() {
    let mut bus = Bus::new();
    let r = start_service(&mut bus, &foobar_config());
    assert_eq!(r, Ok(()));
    assert_eq!(bus.calls, vec![BusCall::Publish, BusCall::ClaimName]);
    let publish_at = bus.calls.iter().position(|c| *c == BusCall::Publish).unwrap();
    let claim_at = bus.calls.iter().position(|c| *c == BusCall::ClaimName).unwrap();
    assert!(publish_at < claim_at);
}

#[test]
fn start_service_fails_on_occupied_pair() {
    let mut bus = Bus::new();
    assert_eq!(
        bus.publish("/dev/peelz/FooBar".to_string(), "dev.peelz.FooBar.Baz".to_string()),
        Ok(())
    );
    let r = start_service(&mut bus, &foobar_config());
    assert_eq!(r, Err(ServiceError::RegistrationError));
    assert_eq!(bus.calls, vec![BusCall::Publish, BusCall::Publish]);
}

#[test]
fn start_service_fails_on_name_held_by_peer() {
    let mut bus = Bus::new();
    bus.peer_claim("dev.peelz.foobar".to_string());
    let r = start_service(&mut bus, &foobar_config());
    assert_eq!(r, Err(ServiceError::NameConflictError));
    assert_eq!(bus.calls, vec![BusCall::Publish, BusCall::ClaimName]);
    assert_eq!(bus.owned_names.len(), 1);
}

#[test]
fn do_thing_returns_fixed_pair() {
    let mut iface = MyInterface::default();
    assert_eq!(iface.do_thing(), Ok((Blah::B, Blah::C)));
}

#[test]
fn do_thing_is_deterministic() {
    let mut iface = MyInterface::default();
    let first = iface.do_thing();
    let second = iface.do_thing();
    assert_eq!(first, second);
    let mut other = MyInterface::default();
    assert_eq!(other.do_thing(), first);
}

#[test]
fn scenario_startup_then_do_thing_reads_one_two() {
    let mut bus = Bus::new();
    assert_eq!(start_service(&mut bus, &foobar_config()), Ok(()));
    let mut iface = MyInterface::default();
    let (a, b) = iface.do_thing().unwrap();
    assert_eq!(a.encode(), 1);
    assert_eq!(b.encode(), 2);
}

#[test]
fn startup_transition_table() {
    assert_eq!(
        startup_step(StartupState::Idle, StartupEvent::Start),
        Some((StartupState::Idle, StartupAction::Connect))
    );
    assert_eq!(
        startup_step(StartupState::Idle, StartupEvent::ConnectOk),
        Some((StartupState::Connected, StartupAction::Publish))
    );
    assert_eq!(
        startup_step(StartupState::Connected, StartupEvent::PublishOk),
        Some((StartupState::Published, StartupAction::ClaimName))
    );
    assert_eq!(
        startup_step(StartupState::Published, StartupEvent::ClaimOk),
        Some((StartupState::Running, StartupAction::Park))
    );
}

#[test]
fn startup_failures_abort_with_matching_errors() {
    assert_eq!(
        startup_step(StartupState::Idle, StartupEvent::ConnectFailed),
        Some((StartupState::Failed, StartupAction::Abort(ServiceError::ConnectionError)))
    );
    assert_eq!(
        startup_step(StartupState::Connected, StartupEvent::PublishFailed),
        Some((StartupState::Failed, StartupAction::Abort(ServiceError::RegistrationError)))
    );
    assert_eq!(
        startup_step(StartupState::Published, StartupEvent::ClaimFailed),
        Some((StartupState::Failed, StartupAction::Abort(ServiceError::NameConflictError)))
    );
}

#[test]
fn startup_rejects_events_out_of_order() {
    assert_eq!(startup_step(StartupState::Idle, StartupEvent::ClaimOk), None);
    assert_eq!(startup_step(StartupState::Connected, StartupEvent::ConnectOk), None);
    assert_eq!(startup_step(StartupState::Running, StartupEvent::Start), None);
    assert_eq!(startup_step(StartupState::Failed, StartupEvent::Start), None);
}
