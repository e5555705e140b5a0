use identifiers::{BlankError, EmptyError, IntegerIdentifier, StringIdentifier};

#[derive(Debug, Clone, Copy, PartialEq, Eq, PartialOrd, Ord, Hash)]
struct NonEmptyTag;

#[derive(Debug, Clone, Copy, PartialEq, Eq, PartialOrd, Ord, Hash)]
struct NonBlankTag;

#[derive(Debug, Clone, Copy, PartialEq, Eq, PartialOrd, Ord, Hash)]
struct AnyTag;

#[derive(Debug, Clone, Copy, PartialEq, Eq, PartialOrd, Ord, Hash)]
struct IntTag;

type NonEmptyId = identifiers::NonEmptyId<NonEmptyTag>;
type NonBlankId = identifiers::NonBlankId<NonBlankTag>;
type AnyId = identifiers::AnyId<AnyTag>;
type TestIntId = identifiers::IntegerId<IntTag>;

// --- non_empty ---

#[test]
fn non_empty_accepts_nonempty_string() {
    assert_eq!(
        NonEmptyId::try_from("hello".to_string()).unwrap().as_str(),
        "hello",
    );
}

#[test]
fn non_empty_rejects_empty_string() {
    assert_eq!(NonEmptyId::try_from(String::new()).unwrap_err(), EmptyError,);
}

#[test]
fn non_empty_accepts_blank_string() {
    assert!(NonEmptyId::try_from("   ".to_string()).is_ok());
}

#[test]
fn non_empty_debug() {
    let id = NonEmptyId::try_from("hello".to_string()).unwrap();
    assert_eq!(id.debug_string("NonEmptyId"), r#"NonEmptyId("hello")"#);
}

// --- non_blank ---

#[test]
fn non_blank_accepts_nonempty_string() {
    assert_eq!(
        NonBlankId::try_from("hello".to_string()).unwrap().as_str(),
        "hello",
    );
}

#[test]
fn non_blank_rejects_empty_string() {
    assert_eq!(NonBlankId::try_from(String::new()).unwrap_err(), BlankError,);
}

#[test]
fn non_blank_rejects_whitespace_only_string() {
    assert_eq!(
        NonBlankId::try_from("   ".to_string()).unwrap_err(),
        BlankError,
    );
}

#[test]
fn non_blank_debug() {
    let id = NonBlankId::try_from("hello".to_string()).unwrap();
    assert_eq!(id.debug_string("NonBlankId"), r#"NonBlankId("hello")"#);
}

// --- any ---

#[test]
fn any_accepts_nonempty_string() {
    assert_eq!(
        AnyId::try_from("hello".to_string()).unwrap().as_str(),
        "hello",
    );
}

#[test]
fn any_accepts_empty_string() {
    assert!(AnyId::try_from(String::new()).is_ok());
}

#[test]
fn any_accepts_blank_string() {
    assert!(AnyId::try_from("   ".to_string()).is_ok());
}

#[test]
fn any_debug() {
    let id = AnyId::try_from("hello".to_string()).unwrap();
    assert_eq!(id.debug_string("AnyId"), r#"AnyId("hello")"#);
}

// --- integer ---

#[test]
fn integer_identifier_zero() {
    assert_eq!(TestIntId::zero().as_u64(), 0);
}

#[test]
fn integer_identifier_roundtrips() {
    assert_eq!(TestIntId::try_from(42).unwrap().as_u64(), 42);
}

#[test]
fn integer_identifier_ordering() {
    assert!(TestIntId::try_from(1).unwrap() < TestIntId::try_from(2).unwrap());
}

#[test]
fn integer_identifier_debug() {
    assert_eq!(
        TestIntId::try_from(42).unwrap().debug_string("TestIntId"),
        "TestIntId(42)"
    );
}

// --- the traits, through which generic code reaches the same rules ---

fn validate_with<I: StringIdentifier>(s: &str) -> bool {
    I::validate(s).is_ok()
}

fn zero_of<I: IntegerIdentifier>() -> u64 {
    I::zero().as_u64()
}

#[test]
fn string_identifier_trait_validates_as_the_types_do() {
    assert!(!validate_with::<NonEmptyId>(""));
    assert!(validate_with::<NonEmptyId>(" "));
    assert!(!validate_with::<NonBlankId>(" \t\n"));
    assert!(validate_with::<NonBlankId>(" x "));
    assert!(validate_with::<AnyId>(""));
}

#[test]
fn integer_identifier_trait_zero() {
    assert_eq!(zero_of::<TestIntId>(), 0);
}

// --- laws on concrete values ---

#[test]
fn non_blank_rejects_unicode_whitespace_only() {
    assert_eq!(
        NonBlankId::try_from("\u{3000}\u{A0}\t".to_string()).unwrap_err(),
        BlankError
    );
    assert!(NonBlankId::try_from("\u{200B}".to_string()).is_ok());
}

#[test]
fn string_identifiers_give_back_their_string() {
    for s in ["a", " a ", "u_abc123", "\u{3000}x"] {
        assert_eq!(NonEmptyId::try_from(s.to_string()).unwrap().as_str(), s);
        assert_eq!(NonBlankId::try_from(s.to_string()).unwrap().as_str(), s);
        assert_eq!(AnyId::from(s.to_string()).as_str(), s);
        let id = NonEmptyId::try_from(s.to_string()).unwrap();
        let r: &str = id.as_ref();
        assert_eq!(r, s);
    }
}

#[test]
fn string_identifier_equality_is_string_equality() {
    let a = NonEmptyId::try_from("x".to_string()).unwrap();
    let b = NonEmptyId::try_from("x".to_string()).unwrap();
    let c = NonEmptyId::try_from("y".to_string()).unwrap();
    assert_eq!(a, b);
    assert_ne!(a, c);
    assert_eq!(a.clone(), a);
}

#[test]
fn string_debug_escapes() {
    let id = AnyId::from("say \"hi\"\n".to_string());
    assert_eq!(id.debug_string("Tag"), r#"Tag("say \"hi\"\n")"#);
    assert_eq!(AnyId::from(String::new()).debug_string("E"), r#"E("")"#);
}

#[test]
fn integer_identifiers_order_as_numbers() {
    let ids: Vec<TestIntId> = [5u64, 0, u64::MAX, 3].iter().map(|n| TestIntId::from(*n)).collect();
    for a in &ids {
        for b in &ids {
            assert_eq!(a.partial_cmp(b), a.as_u64().partial_cmp(&b.as_u64()));
            assert_eq!(a == b, a.as_u64() == b.as_u64());
        }
        assert!(TestIntId::zero() <= *a);
    }
    let mut sorted = ids.clone();
    sorted.sort();
    let nums: Vec<u64> = sorted.iter().map(|i| i.as_u64()).collect();
    assert_eq!(nums, vec![0, 3, 5, u64::MAX]);
}

#[test]
fn integer_identifier_debug_extremes() {
    assert_eq!(TestIntId::zero().debug_string("N"), "N(0)");
    assert_eq!(
        TestIntId::from(u64::MAX).debug_string("N"),
        "N(18446744073709551615)"
    );
}
