use identifiers::UuidIdentifier;
use uuid::Uuid;

#[derive(Debug, Clone, Copy, PartialEq, Eq, PartialOrd, Ord, Hash)]
struct UuidTag;

type TestUuidId = identifiers::UuidId<UuidTag>;

#[test]
fn uuid_identifier_new_is_nonnil() {
    assert_ne!(TestUuidId::new().as_uuid(), Uuid::nil());
}

#[test]
fn uuid_identifier_new_is_unique() {
    assert_ne!(TestUuidId::new(), TestUuidId::new());
}

#[test]
fn uuid_identifier_roundtrips() {
    let uuid = Uuid::new_v4();
    assert_eq!(TestUuidId::from(uuid).as_uuid(), uuid);
}

#[test]
fn uuid_identifier_debug() {
    let uuid = Uuid::parse_str("550e8400-e29b-41d4-a716-446655440000").unwrap();
    assert_eq!(
        TestUuidId::from(uuid).debug_string("TestUuidId"),
        "TestUuidId(550e8400-e29b-41d4-a716-446655440000)",
    );
}

#[test]
fn uuid_identifier_new_is_version_four() {
    let id = TestUuidId::new();
    assert_eq!(id.as_uuid().get_version_num(), 4);
    assert_eq!((id.as_u128() >> 76) & 0xF, 4);
    assert_eq!((id.as_u128() >> 62) & 0x3, 2);
    assert!(!id.is_nil());
}

#[test]
fn uuid_identifier_trait_new() {
    fn fresh<I: UuidIdentifier>() -> Uuid {
        I::new().as_uuid()
    }
    assert_eq!(fresh::<TestUuidId>().get_version_num(), 4);
}

#[test]
fn uuid_identifier_bits_roundtrip() {
    let bits: u128 = 0x550e8400_e29b_41d4_a716_446655440000;
    let id = TestUuidId::from_u128(bits);
    assert_eq!(id.as_u128(), bits);
    assert_eq!(id.as_uuid(), Uuid::from_u128(bits));
    assert_eq!(TestUuidId::from(Uuid::from_u128(bits)), id);
}

#[test]
fn uuid_identifier_nil_and_max_debug() {
    assert!(TestUuidId::from_u128(0).is_nil());
    assert_eq!(
        TestUuidId::from_u128(0).debug_string("Id"),
        "Id(00000000-0000-0000-0000-000000000000)"
    );
    assert_eq!(
        TestUuidId::from_u128(u128::MAX).debug_string("Id"),
        "Id(ffffffff-ffff-ffff-ffff-ffffffffffff)"
    );
}

#[test]
fn uuid_identifier_from_as_uuid_is_identity() {
    let id = TestUuidId::new();
    assert_eq!(TestUuidId::from(id.as_uuid()), id);
}

#[test]
fn uuid_identifier_converts_with_into() {
    let uuid = Uuid::new_v4();
    let id: TestUuidId = uuid.into();
    assert_eq!(id.as_uuid(), uuid);
}
