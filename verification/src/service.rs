//! Service startup: the decision logic that brings a connection from idle to
//! running — publish the handler first, then claim the well-known name — and
//! a verified run of that sequence against the bus model.
//!
//! The order matters: the name is claimed only after the handler is
//! published, so no peer can resolve the name and call a path where no
//! handler exists yet.

use vstd::prelude::*;

use crate::bus::Bus;
use crate::bus::BusCall;
use crate::bus::publish_before_claim;
use crate::codec::ServiceError;

verus! {

/// The names a service instance runs under: one object path, one interface
/// at that path, one well-known bus name.
pub struct ServiceConfig {
    pub path: String,
    pub interface: String,
    pub well_known_name: String,
}

/// What the startup sequence has achieved so far.
#[derive(Clone, Copy, PartialEq, Eq, Structural, Debug)]
pub enum StartupState {
    /// Nothing done yet: no connection to the bus.
    Idle,
    /// The connection is established; nothing is published.
    Connected,
    /// The handler is published; the name is not yet claimed.
    Published,
    /// The name is claimed: setup is complete and calls can arrive.
    Running,
    /// A setup step failed; the instance is unrecoverable.
    Failed,
}

/// The outcome of the last startup action, reported by whoever performed it.
#[derive(Clone, Copy, PartialEq, Eq, Structural, Debug)]
pub enum StartupEvent {
    Start,
    ConnectOk,
    ConnectFailed,
    PublishOk,
    PublishFailed,
    ClaimOk,
    ClaimFailed,
}

/// The next operation the driver of the startup sequence must perform.
#[derive(Clone, Copy, PartialEq, Eq, Structural, Debug)]
pub enum StartupAction {
    /// Establish the connection to the session bus.
    Connect,
    /// Publish the handler at (path, interface).
    Publish,
    /// Claim the well-known name.
    ClaimName,
    /// Setup is complete: suspend indefinitely and let the dispatcher run.
    Park,
    /// Abort startup, reporting this error to the operator.
    Abort(ServiceError),
}

/// The startup transition table as a single spec function: from the state
/// reached so far and the outcome of the last action, the next state and the
/// next action — or nothing, when the event cannot occur in that state.
pub open spec fn spec_startup_step(s: StartupState, e: StartupEvent) -> Option<
    (StartupState, StartupAction),
> {
    match (s, e) {
        (StartupState::Idle, StartupEvent::Start) => Some(
            (StartupState::Idle, StartupAction::Connect),
        ),
        (StartupState::Idle, StartupEvent::ConnectOk) => Some(
            (StartupState::Connected, StartupAction::Publish),
        ),
        (StartupState::Idle, StartupEvent::ConnectFailed) => Some(
            (StartupState::Failed, StartupAction::Abort(ServiceError::ConnectionError)),
        ),
        (StartupState::Connected, StartupEvent::PublishOk) => Some(
            (StartupState::Published, StartupAction::ClaimName),
        ),
        (StartupState::Connected, StartupEvent::PublishFailed) => Some(
            (StartupState::Failed, StartupAction::Abort(ServiceError::RegistrationError)),
        ),
        (StartupState::Published, StartupEvent::ClaimOk) => Some(
            (StartupState::Running, StartupAction::Park),
        ),
        (StartupState::Published, StartupEvent::ClaimFailed) => Some(
            (StartupState::Failed, StartupAction::Abort(ServiceError::NameConflictError)),
        ),
        _ => None,
    }
}

/// Advance the startup sequence by one step. Returns `None` exactly when the
/// event cannot occur in the given state; the driver performs the returned
/// action and feeds its outcome back in.
pub fn startup_step(s: StartupState, e: StartupEvent) -> (r: Option<(StartupState, StartupAction)>)
    ensures
        r == spec_startup_step(s, e),
{
    match (s, e) {
        (StartupState::Idle, StartupEvent::Start) => Some(
            (StartupState::Idle, StartupAction::Connect),
        ),
        (StartupState::Idle, StartupEvent::ConnectOk) => Some(
            (StartupState::Connected, StartupAction::Publish),
        ),
        (StartupState::Idle, StartupEvent::ConnectFailed) => Some(
            (StartupState::Failed, StartupAction::Abort(ServiceError::ConnectionError)),
        ),
        (StartupState::Connected, StartupEvent::PublishOk) => Some(
            (StartupState::Published, StartupAction::ClaimName),
        ),
        (StartupState::Connected, StartupEvent::PublishFailed) => Some(
            (StartupState::Failed, StartupAction::Abort(ServiceError::RegistrationError)),
        ),
        (StartupState::Published, StartupEvent::ClaimOk) => Some(
            (StartupState::Running, StartupAction::Park),
        ),
        (StartupState::Published, StartupEvent::ClaimFailed) => Some(
            (StartupState::Failed, StartupAction::Abort(ServiceError::NameConflictError)),
        ),
        _ => None,
    }
}

/// Ordering law over the transition table: the name claim is only ever issued
/// from the state in which the handler is already published, and the running
/// state is only reached by a successful claim from that same state.
pub proof fn lemma_claim_only_after_publish(s: StartupState, e: StartupEvent)
    ensures
        (match spec_startup_step(s, e) {
            Some((_, a)) => a is ClaimName ==> s is Connected && e is PublishOk,
            None => true,
        }),
        (match spec_startup_step(s, e) {
            Some((n, _)) => n is Running ==> s is Published && e is ClaimOk,
            None => true,
        }),
{
}

/// Run the two setup calls against a bus in order: publish the handler, and
/// only on success claim the well-known name. The bus's call log therefore
/// never shows a claim before a publish.
pub fn start_service(bus: &mut Bus, config: &ServiceConfig) -> (r: Result<(), ServiceError>)
    ensures
        r is Ok <==> (!old(bus).spec_has_registration(config.path@, config.interface@)
            && !old(bus).spec_owns_name(config.well_known_name@)),
        old(bus).spec_has_registration(config.path@, config.interface@)
            ==> (r == Err::<(), ServiceError>(ServiceError::RegistrationError)
                && final(bus).calls@ == old(bus).calls@.push(BusCall::Publish)
                && final(bus).registrations@ == old(bus).registrations@
                && final(bus).owned_names@ == old(bus).owned_names@),
        (!old(bus).spec_has_registration(config.path@, config.interface@)
            && old(bus).spec_owns_name(config.well_known_name@))
            ==> (r == Err::<(), ServiceError>(ServiceError::NameConflictError)
                && final(bus).calls@ == old(bus).calls@.push(BusCall::Publish).push(BusCall::ClaimName)
                && final(bus).owned_names@ == old(bus).owned_names@),
        r is Ok
            ==> (final(bus).calls@ == old(bus).calls@.push(BusCall::Publish).push(BusCall::ClaimName)
                && final(bus).spec_has_registration(config.path@, config.interface@)
                && final(bus).spec_owns_name(config.well_known_name@)),
        old(bus).wf() ==> final(bus).wf(),
        old(bus).calls@.len() == 0 ==> publish_before_claim(final(bus).calls@),
{
    let path = config.path.clone();
    let interface = config.interface.clone();
    proof {
        assert(path@ == config.path@);
        assert(interface@ == config.interface@);
    }
    let published = bus.publish(path, interface);
    match published {
        Err(e) => {
            proof {
                assert(bus.calls@ == old(bus).calls@.push(BusCall::Publish));
                if old(bus).calls@.len() == 0 {
                    assert(forall|j: int|
                        0 <= j < bus.calls@.len() ==> !(#[trigger] bus.calls@[j] is ClaimName));
                }
            }
            Err(e)
        },
        Ok(()) => {
            let name = config.well_known_name.clone();
            proof {
                assert(name@ == config.well_known_name@);
                assert(bus.owned_names@ == old(bus).owned_names@);
                assert(bus.spec_owns_name(name@) == old(bus).spec_owns_name(
                    config.well_known_name@,
                ));
            }
            let claimed = bus.claim_name(name);
            proof {
                assert(bus.calls@ == old(bus).calls@.push(BusCall::Publish).push(
                    BusCall::ClaimName,
                ));
                if old(bus).calls@.len() == 0 {
                    assert(bus.calls@.len() == 2);
                    assert(bus.calls@[0] is Publish);
                    assert forall|j: int|
                        0 <= j < bus.calls@.len() && bus.calls@[j] is ClaimName implies exists|
                        i: int,
                    | 0 <= i < j && #[trigger] bus.calls@[i] is Publish by {
                        assert(j == 1);
                    }
                }
            }
            match claimed {
                Err(e) => Err(e),
                Ok(()) => Ok(()),
            }
        },
    }
}

} // verus!
