//! An in-memory model of a session bus connection: the registration records it
//! holds, the well-known names owned on the bus, and the order in which the
//! two setup calls were made. It enforces the same rules a real bus broker
//! does — one handler per (path, interface), exclusive name ownership — and
//! serves as the test double that startup is verified against.

use vstd::prelude::*;

use crate::codec::ServiceError;

verus! {

/// One published association of (object path, interface name) with a handler.
pub struct Registration {
    pub path: String,
    pub interface: String,
}

/// The two setup calls a bus observes, in the order they were made.
#[derive(Clone, Copy, PartialEq, Eq, Structural, Debug)]
pub enum BusCall {
    Publish,
    ClaimName,
}

/// A bus connection model: its registrations, the names owned on the bus
/// (by this connection or by peers), and the log of setup calls it observed.
pub struct Bus {
    pub registrations: Vec<Registration>,
    pub owned_names: Vec<String>,
    pub calls: Vec<BusCall>,
}

/// Every name claim in a call log is preceded by a publish.
pub open spec fn publish_before_claim(log: Seq<BusCall>) -> bool {
    forall|j: int|
        0 <= j < log.len() && log[j] is ClaimName ==> exists|i: int|
            0 <= i < j && #[trigger] log[i] is Publish
}

impl Bus {
    /// Some registration occupies the (path, interface) pair.
    pub open spec fn spec_has_registration(self, path: Seq<char>, interface: Seq<char>) -> bool {
        exists|i: int|
            0 <= i < self.registrations@.len()
                && (#[trigger] self.registrations@[i]).path@ == path
                && self.registrations@[i].interface@ == interface
    }

    /// Some owner (this connection or a peer) holds the well-known name.
    pub open spec fn spec_owns_name(self, name: Seq<char>) -> bool {
        exists|i: int| 0 <= i < self.owned_names@.len() && #[trigger] self.owned_names@[i]@ == name
    }

    /// No (path, interface) pair is registered more than once.
    pub open spec fn wf(self) -> bool {
        forall|i: int, j: int|
            0 <= i < j < self.registrations@.len() ==> !((#[trigger] self.registrations@[i]).path@
                == (#[trigger] self.registrations@[j]).path@ && self.registrations@[i].interface@
                == self.registrations@[j].interface@)
    }

    /// A fresh bus: nothing registered, no name owned, no call observed.
    pub fn new() -> (b: Bus)
        ensures
            b.registrations@.len() == 0,
            b.owned_names@.len() == 0,
            b.calls@.len() == 0,
            b.wf(),
    {
        Bus { registrations: Vec::new(), owned_names: Vec::new(), calls: Vec::new() }
    }

    /// Whether a registration already occupies the (path, interface) pair.
    pub fn has_registration(&self, path: &String, interface: &String) -> (found: bool)
        ensures
            found == self.spec_has_registration(path@, interface@),
    {
        let mut k: usize = 0;
        while k < self.registrations.len()
            invariant
                0 <= k <= self.registrations@.len(),
                forall|i: int|
                    0 <= i < k ==> !((#[trigger] self.registrations@[i]).path@ == path@
                        && self.registrations@[i].interface@ == interface@),
            decreases self.registrations@.len() - k,
        {
            let r = &self.registrations[k];
            if r.path == *path && r.interface == *interface {
                return true;
            }
            k += 1;
        }
        false
    }

    /// Whether the well-known name is already owned on the bus.
    pub fn owns_name(&self, name: &String) -> (found: bool)
        ensures
            found == self.spec_owns_name(name@),
    {
        let mut k: usize = 0;
        while k < self.owned_names.len()
            invariant
                0 <= k <= self.owned_names@.len(),
                forall|i: int| 0 <= i < k ==> #[trigger] self.owned_names@[i]@ != name@,
            decreases self.owned_names@.len() - k,
        {
            if self.owned_names[k] == *name {
                return true;
            }
            k += 1;
        }
        false
    }

    /// Associate a handler with (path, interface) on this connection. Fails
    /// exactly when the pair is already occupied; the bus observes the call
    /// either way.
    pub fn publish(&mut self, path: String, interface: String) -> (r: Result<(), ServiceError>)
        ensures
            final(self).calls@ == old(self).calls@.push(BusCall::Publish),
            final(self).owned_names@ == old(self).owned_names@,
            r is Err <==> old(self).spec_has_registration(path@, interface@),
            r is Err ==> r == Err::<(), ServiceError>(ServiceError::RegistrationError)
                && final(self).registrations@ == old(self).registrations@,
            r is Ok ==> final(self).registrations@ == old(self).registrations@.push(
                (Registration { path, interface }),
            ),
            r is Ok ==> final(self).spec_has_registration(path@, interface@),
            old(self).wf() ==> final(self).wf(),
    {
        self.calls.push(BusCall::Publish);
        if self.has_registration(&path, &interface) {
            Err(ServiceError::RegistrationError)
        } else {
            let ghost pre = self.registrations@;
            self.registrations.push(Registration { path, interface });
            proof {
                assert(self.spec_has_registration(
                    self.registrations@[pre.len() as int].path@,
                    self.registrations@[pre.len() as int].interface@,
                ));
                if old(self).wf() {
                    assert forall|i: int, j: int| 0 <= i < j < self.registrations@.len() implies !((
                    #[trigger] self.registrations@[i]).path@
                        == (#[trigger] self.registrations@[j]).path@
                        && self.registrations@[i].interface@
                        == self.registrations@[j].interface@) by {
                        if j == pre.len() {
                            assert(!(pre[i].path@ == self.registrations@[j].path@ && pre[i].interface@
                                == self.registrations@[j].interface@));
                        }
                    }
                }
            }
            Ok(())
        }
    }

    /// Request exclusive ownership of a well-known name. Fails exactly when
    /// the name is already owned; the bus observes the call either way.
    pub fn claim_name(&mut self, name: String) -> (r: Result<(), ServiceError>)
        ensures
            final(self).calls@ == old(self).calls@.push(BusCall::ClaimName),
            final(self).registrations@ == old(self).registrations@,
            r is Err <==> old(self).spec_owns_name(name@),
            r is Err ==> r == Err::<(), ServiceError>(ServiceError::NameConflictError)
                && final(self).owned_names@ == old(self).owned_names@,
            r is Ok ==> final(self).owned_names@ == old(self).owned_names@.push(name),
            r is Ok ==> final(self).spec_owns_name(name@),
    {
        self.calls.push(BusCall::ClaimName);
        if self.owns_name(&name) {
            Err(ServiceError::NameConflictError)
        } else {
            let ghost pre = self.owned_names@;
            self.owned_names.push(name);
            proof {
                assert(self.owned_names@[pre.len() as int]@ == name@);
            }
            Ok(())
        }
    }

    /// Record that a peer on the bus already owns a name. This models another
    /// process's claim, so it is not logged as a call of this connection.
    pub fn peer_claim(&mut self, name: String)
        ensures
            final(self).owned_names@ == old(self).owned_names@.push(name),
            final(self).registrations@ == old(self).registrations@,
            final(self).calls@ == old(self).calls@,
            final(self).spec_owns_name(name@),
    {
        let ghost pre = self.owned_names@;
        self.owned_names.push(name);
        proof {
            assert(self.owned_names@[pre.len() as int]@ == name@);
        }
    }
}

} // verus!
