use foobar_service::codec::Blah;
use foobar_service::codec::ServiceError;

#[test]
fn round_trip_all_variants() {
    for v in [Blah::A, Blah::B, Blah::C] {
        assert_eq!(Blah::try_from(v.encode()), Ok(v));
    }
}

#[test]
fn encode_wire_values() {
    assert_eq!(Blah::A.encode(), 0);
    assert_eq!(Blah::B.encode(), 1);
    assert_eq!(Blah::C.encode(), 2);
}

#[test]
fn decode_valid_bytes() {
    assert_eq!(Blah::try_from(0), Ok(Blah::A));
    assert_eq!(Blah::try_from(1), Ok(Blah::B));
    assert_eq!(Blah::try_from(2), Ok(Blah::C));
}

#[test]
fn rejection_of_every_invalid_byte() {
    for b in 3..=255u8 {
        assert_eq!(Blah::try_from(b), Err(ServiceError::InvalidEnumEncoding));
    }
}

#[test]
fn default_variant_is_a() {
    assert_eq!(Blah::default(), Blah::A);
    assert_eq!(Blah::default().encode(), 0);
}
