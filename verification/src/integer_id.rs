use core::cmp::Ordering;
use core::convert::Infallible;
use core::marker::PhantomData;
use vstd::prelude::*;
use vstd::std_specs::cmp::{PartialEqSpec, PartialOrdSpec};

use crate::display::{decimal_u64, push_decimal, tuple_debug, write_tuple_debug};

verus! {

/// Common interface of typed `u64` wrappers used as identifiers or sequence
/// positions, ordered as their numbers are.
pub trait IntegerIdentifier: Sized + core::fmt::Debug + Clone + Copy + PartialEq + Eq + core::hash::Hash + Ord + PartialOrd {
    /// The error returned when validation fails.
    type Error;

    /// The numbers that the type accepts.
    spec fn accepts(n: u64) -> bool;

    /// The number that a value holds.
    spec fn number(&self) -> u64;

    /// Validates `n` before it is wrapped. Returns `Err` to reject it.
    fn validate(n: u64) -> (r: Result<(), Self::Error>)
        ensures
            r is Ok <==> Self::accepts(n),
    ;

    /// An instance initialised to zero, the smallest value.
    fn zero() -> (r: Self)
        ensures
            r.number() == 0,
    ;

    /// The underlying `u64`.
    fn as_u64(&self) -> (r: u64)
        ensures
            r == self.number(),
    ;
}

/// An identifier over a `u64`. `T` is a tag type that keeps identifiers of
/// different kinds apart: `IntegerId<A>` and `IntegerId<B>` do not mix.
#[derive(Debug, Hash, Ord)]
pub struct IntegerId<T> {
    value: u64,
    tag: PhantomData<T>,
}

impl<T> IntegerId<T> {
    /// The number of the identifier.
    pub closed spec fn view(&self) -> u64 {
        self.value
    }

    /// Wraps `n`.
    pub fn from(n: u64) -> (r: Self)
        ensures
            r.view() == n,
    {
        IntegerId { value: n, tag: PhantomData }
    }

    /// Wraps `n`; every number is accepted, so the result is always `Ok`.
    pub fn try_from(n: u64) -> (r: Result<Self, Infallible>)
        ensures
            r matches Ok(id) && id.view() == n,
    {
        Ok(IntegerId { value: n, tag: PhantomData })
    }

    /// The identifier zero, the smallest one.
    pub fn zero() -> (r: Self)
        ensures
            r.view() == 0,
    {
        IntegerId { value: 0, tag: PhantomData }
    }

    /// The underlying number.
    pub fn as_u64(&self) -> (r: u64)
        ensures
            r == self.view(),
    {
        self.value
    }

    /// The text that `Debug` writes for a tuple struct named `name` that wraps
    /// this identifier's number: `name(42)`.
    pub fn debug_string(&self, name: &str) -> (r: String)
        ensures
            r@ == tuple_debug(name@, decimal_u64(self.view())),
    {
        let mut digits = String::new();
        push_decimal(&mut digits, self.value);
        write_tuple_debug(name, digits.as_str())
    }
}

impl<T: core::fmt::Debug + core::hash::Hash + Ord> IntegerIdentifier for IntegerId<T> {
    type Error = Infallible;

    open spec fn accepts(n: u64) -> bool {
        true
    }

    open spec fn number(&self) -> u64 {
        self.view()
    }

    fn validate(n: u64) -> (r: Result<(), Infallible>)
        ensures
            r is Ok,
    {
        Ok(())
    }

    fn zero() -> (r: Self)
        ensures
            r.view() == 0,
    {
        IntegerId::zero()
    }

    fn as_u64(&self) -> (r: u64)
        ensures
            r == self.view(),
    {
        self.value
    }
}

impl<T> Clone for IntegerId<T> {
    fn clone(&self) -> (r: Self)
        ensures
            r.view() == self.view(),
    {
        IntegerId { value: self.value, tag: PhantomData }
    }
}

impl<T> Copy for IntegerId<T> {
}

impl<T> PartialEq for IntegerId<T> {
    fn eq(&self, other: &Self) -> (r: bool) {
        self.value == other.value
    }
}

impl<T> vstd::std_specs::cmp::PartialEqSpecImpl for IntegerId<T> {
    open spec fn obeys_eq_spec() -> bool {
        true
    }

    open spec fn eq_spec(&self, other: &Self) -> bool {
        self.view() == other.view()
    }
}

impl<T> Eq for IntegerId<T> {
}

/// How two identifiers compare: as their numbers do.
pub open spec fn integer_order(a: u64, b: u64) -> Option<Ordering> {
    if a < b {
        Some(Ordering::Less)
    } else if a == b {
        Some(Ordering::Equal)
    } else {
        Some(Ordering::Greater)
    }
}

/// Identifiers are totally ordered: any two compare, they compare equal
/// exactly when their numbers are equal, and swapping them swaps less and
/// greater.
pub proof fn law_integer_order_total(a: u64, b: u64)
    ensures
        integer_order(a, b) is Some,
        integer_order(a, b) == Some(Ordering::Equal) <==> a == b,
        integer_order(a, b) == Some(Ordering::Less) <==> integer_order(b, a) == Some(
            Ordering::Greater,
        ),
{
}

/// The order of identifiers is transitive.
pub proof fn law_integer_order_transitive(a: u64, b: u64, c: u64)
    requires
        integer_order(a, b) == Some(Ordering::Less),
        integer_order(b, c) == Some(Ordering::Less),
    ensures
        integer_order(a, c) == Some(Ordering::Less),
{
}

/// Zero is the least identifier: no identifier compares below it.
pub proof fn law_zero_is_least(n: u64)
    ensures
        integer_order(0, n) != Some(Ordering::Greater),
{
}

/// Identifiers compare as their numbers do: one is less than, equal to or
/// greater than another exactly when its number is, and two are `==` exactly
/// when their numbers are equal.
pub proof fn law_integer_id_compares_as_numbers<T>(a: IntegerId<T>, b: IntegerId<T>)
    ensures
        a.partial_cmp_spec(&b) == Some(Ordering::Less) <==> a.view() < b.view(),
        a.partial_cmp_spec(&b) == Some(Ordering::Equal) <==> a.view() == b.view(),
        a.partial_cmp_spec(&b) == Some(Ordering::Greater) <==> a.view() > b.view(),
        a.eq_spec(&b) <==> a.view() == b.view(),
{
}

impl<T> PartialOrd for IntegerId<T> {
    fn partial_cmp(&self, other: &Self) -> (r: Option<Ordering>) {
        if self.value < other.value {
            Some(Ordering::Less)
        } else if self.value == other.value {
            Some(Ordering::Equal)
        } else {
            Some(Ordering::Greater)
        }
    }
}

impl<T> vstd::std_specs::cmp::PartialOrdSpecImpl for IntegerId<T> {
    open spec fn obeys_partial_cmp_spec() -> bool {
        true
    }

    open spec fn partial_cmp_spec(&self, other: &Self) -> Option<Ordering> {
        integer_order(self.view(), other.view())
    }
}

} // verus!
