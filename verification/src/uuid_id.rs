use core::marker::PhantomData;
use uuid::Uuid;
use vstd::prelude::*;
use vstd::std_specs::cmp::PartialEqSpec;

use crate::display::{tuple_debug, write_tuple_debug};

verus! {

#[verifier::external_type_specification]
#[verifier::external_body]
pub struct ExUuid(Uuid);

/// The version field of a UUID held as a big-endian 128-bit number: the high
/// nibble of its seventh byte.
pub open spec fn uuid_version(bits: u128) -> u128 {
    (bits >> 76u128) & 0xFu128
}

/// The two high bits of the variant field: the top bits of the ninth byte.
pub open spec fn uuid_variant(bits: u128) -> u128 {
    (bits >> 62u128) & 0x3u128
}

/// A random (version 4) UUID of the RFC 4122 variant: version field 4, variant
/// bits `10`.
pub open spec fn is_random_v4(bits: u128) -> bool {
    uuid_version(bits) == 4 && uuid_variant(bits) == 2
}

/// The lower-case hexadecimal digit for `d`, which is below sixteen.
pub open spec fn hex_digit(d: nat) -> char {
    if d < 10 {
        (48 + d) as char
    } else {
        (87 + d) as char
    }
}

/// The `i`-th of the 32 hexadecimal digits of `bits`, most significant first.
pub open spec fn nibble(bits: u128, i: int) -> nat {
    ((bits >> ((124 - 4 * i) as u128)) & 0xFu128) as nat
}

/// The 32 lower-case hexadecimal digits of `bits`.
pub open spec fn hex_digits(bits: u128) -> Seq<char> {
    Seq::new(32, |i: int| hex_digit(nibble(bits, i)))
}

/// The hyphenated text of a UUID: its digits in groups of 8, 4, 4, 4 and 12,
/// joined by `-`.
pub open spec fn hyphenated(bits: u128) -> Seq<char> {
    let h = hex_digits(bits);
    h.subrange(0, 8) + seq!['-'] + h.subrange(8, 12) + seq!['-'] + h.subrange(12, 16) + seq!['-']
        + h.subrange(16, 20) + seq!['-'] + h.subrange(20, 32)
}

/// Draws a UUID with `Uuid::new_v4` and returns it as a number.
///
/// Trusted: whatever random number comes back has version field 4 and variant
/// bits `10`, which `new_v4` sets on its random bits; nothing else about the
/// number is stated. `new_v4` panics when the operating system's random source
/// fails, which no precondition can rule out.
#[verifier::external_body]
fn random_v4_bits() -> (r: u128)
    ensures
        is_random_v4(r),
{
    Uuid::new_v4().as_u128()
}

/// Writes the number as a UUID with the `Display` of `Uuid::from_u128(bits)`.
///
/// Trusted: the text is the hyphenated lower-case form of the 32 hexadecimal
/// digits of `bits`, which is how `uuid` formats a `Uuid` that `from_u128`
/// built from those bits.
#[verifier::external_body]
fn hyphenated_text(bits: u128) -> (r: String)
    ensures
        r@ == hyphenated(bits),
{
    Uuid::from_u128(bits).to_string()
}

/// The `Uuid` that `Uuid::from_u128` builds from a number: the UUID whose
/// sixteen bytes are the number's big-endian bytes.
pub uninterp spec fn uuid_from_u128(bits: u128) -> Uuid;

/// Reads a `Uuid` as a number with `Uuid::as_u128`.
///
/// Trusted: the number is the one, and the only one, that `from_u128` turns
/// into this `Uuid`. `as_u128` reads the sixteen bytes big-endian and
/// `from_u128` writes a number's bytes big-endian, so the bytes, and with them
/// the `Uuid`, come back, and two numbers give two different `Uuid`s.
#[verifier::external_body]
fn uuid_bits(uuid: &Uuid) -> (r: u128)
    ensures
        uuid_from_u128(r) == *uuid,
        forall|b: u128| #[trigger] uuid_from_u128(b) == *uuid ==> b == r,
{
    uuid.as_u128()
}

/// Builds a `Uuid` from a number with `Uuid::from_u128`.
///
/// Trusted: the result is `uuid_from_u128` of the number.
#[verifier::external_body]
fn uuid_from_bits(bits: u128) -> (r: Uuid)
    ensures
        r == uuid_from_u128(bits),
{
    Uuid::from_u128(bits)
}

/// Common interface of typed UUID wrappers.
pub trait UuidIdentifier: Sized + core::fmt::Debug + Clone + Copy + PartialEq + Eq + core::hash::Hash + From<Uuid> {
    /// The UUID that a value holds, as its number.
    spec fn number(&self) -> u128;

    /// Generates a new random identifier: a version 4 UUID.
    fn new() -> (r: Self)
        ensures
            is_random_v4(r.number()),
    ;

    /// The underlying UUID.
    fn as_uuid(&self) -> (r: Uuid)
        ensures
            r == uuid_from_u128(self.number()),
    ;
}

/// An identifier over a UUID, held as its 128-bit big-endian number. `T` is a
/// tag type that keeps identifiers of different kinds apart.
#[derive(Debug, Hash)]
pub struct UuidId<T> {
    bits: u128,
    tag: PhantomData<T>,
}

impl<T> UuidId<T> {
    /// The UUID as a number.
    pub closed spec fn view(&self) -> u128 {
        self.bits
    }

    /// A new random identifier: a version 4 UUID, never the nil UUID.
    pub fn new() -> (r: Self)
        ensures
            is_random_v4(r.view()),
            r.view() != 0,
    {
        let bits = random_v4_bits();
        assert(bits != 0) by (bit_vector)
            requires
                ((bits >> 76u128) & 0xFu128) == 4,
        ;
        UuidId { bits, tag: PhantomData }
    }

    /// Wraps the UUID whose number is `bits`.
    pub fn from_u128(bits: u128) -> (r: Self)
        ensures
            r.view() == bits,
    {
        UuidId { bits, tag: PhantomData }
    }

    /// The UUID as a number.
    pub fn as_u128(&self) -> (r: u128)
        ensures
            r == self.view(),
    {
        self.bits
    }

    /// Wraps `uuid`: the identifier holds the number that builds `uuid`
    /// again, and no other number does; so `from(id.as_uuid()) == id`.
    pub fn from(uuid: Uuid) -> (r: Self)
        ensures
            uuid_from_u128(r.view()) == uuid,
            forall|b: u128| #[trigger] uuid_from_u128(b) == uuid ==> r.view() == b,
    {
        UuidId { bits: uuid_bits(&uuid), tag: PhantomData }
    }

    /// The underlying UUID, built from the identifier's number.
    pub fn as_uuid(&self) -> (r: Uuid)
        ensures
            r == uuid_from_u128(self.view()),
    {
        uuid_from_bits(self.bits)
    }

    /// Whether this is the nil UUID, all zero bits.
    pub fn is_nil(&self) -> (r: bool)
        ensures
            r == (self.view() == 0),
    {
        self.bits == 0
    }

    /// The text that `Debug` writes for a tuple struct named `name` that wraps
    /// this identifier's UUID: the name, then the hyphenated UUID in brackets.
    pub fn debug_string(&self, name: &str) -> (r: String)
        ensures
            r@ == tuple_debug(name@, hyphenated(self.view())),
    {
        let text = hyphenated_text(self.bits);
        write_tuple_debug(name, text.as_str())
    }
}

impl<T: core::fmt::Debug + core::hash::Hash> UuidIdentifier for UuidId<T> {
    open spec fn number(&self) -> u128 {
        self.view()
    }

    fn new() -> (r: Self)
        ensures
            is_random_v4(r.view()),
            r.view() != 0,
    {
        UuidId::new()
    }

    fn as_uuid(&self) -> (r: Uuid)
        ensures
            r == uuid_from_u128(self.view()),
    {
        UuidId::as_uuid(self)
    }
}

/// The identifier that holds the number of `uuid`.
pub closed spec fn uuid_id_of<T>(uuid: Uuid) -> UuidId<T> {
    UuidId { bits: choose|b: u128| uuid_from_u128(b) == uuid, tag: PhantomData }
}

/// The identifier that `From<Uuid>` builds holds the number of the UUID:
/// converting with `into` agrees with `UuidId::from`.
pub proof fn law_from_uuid_number<T>(uuid: Uuid, bits: u128)
    requires
        uuid_from_u128(bits) == uuid,
        forall|b: u128| #[trigger] uuid_from_u128(b) == uuid ==> b == bits,
    ensures
        uuid_id_of::<T>(uuid).view() == bits,
{
}

impl<T> From<Uuid> for UuidId<T> {
    fn from(uuid: Uuid) -> (r: Self) {
        let r = UuidId::from(uuid);
        proof {
            let b = choose|b: u128| uuid_from_u128(b) == uuid;
            assert(uuid_from_u128(r.view()) == uuid);
            assert(r.view() == b);
        }
        r
    }
}

impl<T> vstd::std_specs::convert::FromSpecImpl<Uuid> for UuidId<T> {
    open spec fn obeys_from_spec() -> bool {
        true
    }

    open spec fn from_spec(uuid: Uuid) -> Self {
        uuid_id_of(uuid)
    }
}

impl<T> Clone for UuidId<T> {
    fn clone(&self) -> (r: Self)
        ensures
            r.view() == self.view(),
    {
        UuidId { bits: self.bits, tag: PhantomData }
    }
}

impl<T> Copy for UuidId<T> {
}

/// Two UUID identifiers are `==` exactly when they hold the same 128-bit UUID number, compared in
/// full.
pub proof fn law_uuid_id_eq_is_number_eq<T>(a: UuidId<T>, b: UuidId<T>)
    ensures
        a.eq_spec(&b) <==> a.view() == b.view(),
{
}

impl<T> PartialEq for UuidId<T> {
    fn eq(&self, other: &Self) -> (r: bool) {
        self.bits == other.bits
    }
}

impl<T> vstd::std_specs::cmp::PartialEqSpecImpl for UuidId<T> {
    open spec fn obeys_eq_spec() -> bool {
        true
    }

    open spec fn eq_spec(&self, other: &Self) -> bool {
        self.view() == other.view()
    }
}

impl<T> Eq for UuidId<T> {
}

} // verus!
