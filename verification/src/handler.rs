//! The method handler behind the published interface: a stateless object
//! whose single operation returns a fixed pair of enum values.

use vstd::prelude::*;

use crate::codec::Blah;
use crate::codec::ServiceError;

verus! {

/// The handler published at the object path. It holds no state, so concurrent
/// delivery of calls needs no synchronization.
#[derive(PartialEq, Eq, Structural)]
pub struct MyInterface {}

impl MyInterface {
    /// The fixed pair every invocation returns.
    pub open spec fn spec_result() -> (Blah, Blah) {
        (Blah::B, Blah::C)
    }

    /// The interface's single operation: no inputs, no error conditions, and
    /// always the same pair `(B, C)`.
    pub fn do_thing(&mut self) -> (r: Result<(Blah, Blah), ServiceError>)
        ensures
            r == Ok::<(Blah, Blah), ServiceError>(MyInterface::spec_result()),
            *final(self) == *old(self),
    {
        Ok((Blah::B, Blah::C))
    }
}

impl Default for MyInterface {
    fn default() -> (r: MyInterface)
        ensures
            r == (MyInterface {  }),
    {
        MyInterface {  }
    }
}

/// Determinism law: any two invocations with no intervening state change
/// return the identical pair of values.
pub proof fn lemma_do_thing_deterministic(
    r1: Result<(Blah, Blah), ServiceError>,
    r2: Result<(Blah, Blah), ServiceError>,
)
    requires
        r1 == Ok::<(Blah, Blah), ServiceError>(MyInterface::spec_result()),
        r2 == Ok::<(Blah, Blah), ServiceError>(MyInterface::spec_result()),
    ensures
        r1 == r2,
{
}

} // verus!
