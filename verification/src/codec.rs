//! Wire codec for the service's result enumeration: three variants with a
//! one-byte encoding, and a fallible decoder that rejects every other byte.

use vstd::prelude::*;

verus! {

/// The closed enumeration carried over the wire. Its wire representation is a
/// single byte with exactly three valid values: `A` = 0, `B` = 1, `C` = 2.
#[derive(Clone, Copy, PartialEq, Eq, Structural, Debug)]
pub enum Blah {
    A,
    B,
    C,
}

/// The error taxonomy of the service: the three setup-phase failures and the
/// codec's decode failure.
#[derive(Clone, Copy, PartialEq, Eq, Structural, Debug)]
pub enum ServiceError {
    /// The bus is unreachable or the transport could not be established.
    ConnectionError,
    /// A conflicting handler is already published at the same (path, interface).
    RegistrationError,
    /// Another peer already owns the requested well-known name.
    NameConflictError,
    /// A byte outside {0, 1, 2} was decoded as an enum value.
    InvalidEnumEncoding,
}

impl Blah {
    /// The wire byte of each variant.
    pub open spec fn spec_encode(self) -> u8 {
        match self {
            Blah::A => 0,
            Blah::B => 1,
            Blah::C => 2,
        }
    }

    /// Which variant a byte denotes: total over {0, 1, 2}, and an invalid
    /// encoding everywhere else.
    pub open spec fn spec_decode(b: u8) -> Result<Blah, ServiceError> {
        if b == 0 {
            Ok(Blah::A)
        } else if b == 1 {
            Ok(Blah::B)
        } else if b == 2 {
            Ok(Blah::C)
        } else {
            Err(ServiceError::InvalidEnumEncoding)
        }
    }

    /// Encode a variant as its wire byte.
    pub fn encode(self) -> (b: u8)
        ensures
            b == self.spec_encode(),
            b <= 2,
    {
        match self {
            Blah::A => 0,
            Blah::B => 1,
            Blah::C => 2,
        }
    }

    /// Decode a wire byte, rejecting every byte outside {0, 1, 2}.
    pub fn try_from(b: u8) -> (r: Result<Blah, ServiceError>)
        ensures
            r == Blah::spec_decode(b),
            r is Err <==> b > 2,
            r is Err ==> r == Err::<Blah, ServiceError>(ServiceError::InvalidEnumEncoding),
    {
        match b {
            0 => Ok(Blah::A),
            1 => Ok(Blah::B),
            2 => Ok(Blah::C),
            _ => Err(ServiceError::InvalidEnumEncoding),
        }
    }
}

impl Default for Blah {
    /// The default variant is `A`, the zero byte on the wire.
    fn default() -> (r: Blah)
        ensures
            r == Blah::A,
    {
        Blah::A
    }
}

/// Round-trip law: decoding the encoding of any variant yields that variant.
pub proof fn lemma_round_trip(v: Blah)
    ensures
        Blah::spec_decode(v.spec_encode()) == Ok::<Blah, ServiceError>(v),
{
}

/// Rejection law: every byte outside {0, 1, 2} decodes to the invalid-encoding
/// error, and no valid variant encodes to such a byte.
pub proof fn lemma_rejection(b: u8)
    requires
        b > 2,
    ensures
        Blah::spec_decode(b) == Err::<Blah, ServiceError>(ServiceError::InvalidEnumEncoding),
        forall|v: Blah| v.spec_encode() != b,
{
}

} // verus!
