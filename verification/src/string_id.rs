use core::convert::Infallible;
use core::marker::PhantomData;
use vstd::prelude::*;
use vstd::std_specs::cmp::PartialEqSpec;

use crate::display::{debug_quoted, str_debug, tuple_debug, write_tuple_debug};
use crate::error::{BlankError, EmptyError};
use crate::text::{is_blank, str_is_blank};

verus! {

/// Accepts `s` when it is not empty.
pub fn validate_non_empty(s: &str) -> (r: Result<(), EmptyError>)
    ensures
        r is Ok <==> s@.len() > 0,
{
    if s.is_empty() {
        Err(EmptyError)
    } else {
        Ok(())
    }
}

/// Accepts `s` when it is not blank: when trimming its whitespace leaves
/// something.
pub fn validate_non_blank(s: &str) -> (r: Result<(), BlankError>)
    ensures
        r is Ok <==> !is_blank(s@),
{
    if str_is_blank(s) {
        Err(BlankError)
    } else {
        Ok(())
    }
}

/// Accepts every string.
pub fn validate_any(s: &str) -> (r: Result<(), Infallible>)
    ensures
        r is Ok,
{
    Ok(())
}

/// The non-blank rule is the stricter one: every string that it accepts, the
/// non-empty rule accepts too, since the empty string is blank.
pub proof fn law_non_blank_implies_non_empty(s: Seq<char>)
    ensures
        !is_blank(s) ==> s.len() > 0,
{
}

/// Common interface of typed string wrappers used as identifiers.
///
/// `validate` decides which strings a type accepts, as `accepts` says; a value
/// of the type only ever holds a string that `validate` accepts.
pub trait StringIdentifier: Sized + core::fmt::Debug + Clone + PartialEq + Eq + core::hash::Hash {
    /// The error returned when validation fails.
    type Error;

    /// The strings that the type accepts.
    spec fn accepts(s: Seq<char>) -> bool;

    /// Validates `s` before it is wrapped. Returns `Err` to reject the string.
    fn validate(s: &str) -> (r: Result<(), Self::Error>)
        ensures
            r is Ok <==> Self::accepts(s@),
    ;

    /// Returns the underlying string slice, which the type accepts.
    fn as_str(&self) -> (r: &str)
        ensures
            Self::accepts(r@),
    ;
}

/// An identifier over a string that is never empty. `T` is a tag type that keeps identifiers
/// of different kinds apart: `NonEmptyId<A>` and `NonEmptyId<B>` do not mix.
#[derive(Debug, Hash)]
pub struct NonEmptyId<T> {
    value: String,
    tag: PhantomData<T>,
}

impl<T> NonEmptyId<T> {
    #[verifier::type_invariant]
    spec fn inv(self) -> bool {
        self.value@.len() > 0
    }

    /// The characters of the identifier.
    pub closed spec fn view(&self) -> Seq<char> {
        self.value@
    }

    /// Wraps `s` when it is not empty, else fails with `EmptyError`.
    pub fn try_from(s: String) -> (r: Result<Self, EmptyError>)
        ensures
            r is Ok <==> s@.len() > 0,
            r matches Ok(id) ==> id.view() == s@,
    {
        match validate_non_empty(s.as_str()) {
            Ok(()) => Ok(NonEmptyId { value: s, tag: PhantomData }),
            Err(e) => Err(e),
        }
    }

    /// The underlying string slice.
    pub fn as_str(&self) -> (r: &str)
        ensures
            r@ == self.view(),
            r@.len() > 0,
    {
        proof {
            use_type_invariant(self);
        }
        self.value.as_str()
    }

    /// The text that `Debug` writes for a tuple struct named `name` that
    /// wraps this identifier's string: `name("...")`.
    pub fn debug_string(&self, name: &str) -> (r: String)
        ensures
            r@ == tuple_debug(name@, debug_quoted(self.view())),
    {
        let quoted = str_debug(self.value.as_str());
        write_tuple_debug(name, quoted.as_str())
    }
}

impl<T: core::fmt::Debug + core::hash::Hash> StringIdentifier for NonEmptyId<T> {
    open spec fn accepts(s: Seq<char>) -> bool {
        s.len() > 0
    }

    type Error = EmptyError;

    fn validate(s: &str) -> (r: Result<(), EmptyError>)
        ensures
            r is Ok <==> s@.len() > 0,
    {
        validate_non_empty(s)
    }

    fn as_str(&self) -> (r: &str)
        ensures
            r@ == self.view(),
            r@.len() > 0,
    {
        NonEmptyId::as_str(self)
    }
}

impl<T> Clone for NonEmptyId<T> {
    fn clone(&self) -> (r: Self)
        ensures
            r.view() == self.view(),
    {
        proof {
            use_type_invariant(self);
        }
        NonEmptyId { value: self.value.clone(), tag: PhantomData }
    }
}

/// Two non-empty identifiers are `==` exactly when they hold the same string, compared in
/// full.
pub proof fn law_non_empty_id_eq_is_string_eq<T>(a: NonEmptyId<T>, b: NonEmptyId<T>)
    ensures
        a.eq_spec(&b) <==> a.view() == b.view(),
{
}

impl<T> PartialEq for NonEmptyId<T> {
    fn eq(&self, other: &Self) -> (r: bool) {
        self.value == other.value
    }
}

impl<T> vstd::std_specs::cmp::PartialEqSpecImpl for NonEmptyId<T> {
    open spec fn obeys_eq_spec() -> bool {
        true
    }

    open spec fn eq_spec(&self, other: &Self) -> bool {
        self.view() == other.view()
    }
}

impl<T> Eq for NonEmptyId<T> {
}

impl<T> AsRef<str> for NonEmptyId<T> {
    fn as_ref(&self) -> (r: &str)
        ensures
            r@ == self.view(),
    {
        NonEmptyId::as_str(self)
    }
}

/// An identifier over a string that is never blank (empty or only
/// whitespace). `T` is a tag type that keeps identifiers of different kinds
/// apart: `NonBlankId<A>` and `NonBlankId<B>` do not mix.
#[derive(Debug, Hash)]
pub struct NonBlankId<T> {
    value: String,
    tag: PhantomData<T>,
}

impl<T> NonBlankId<T> {
    #[verifier::type_invariant]
    spec fn inv(self) -> bool {
        !is_blank(self.value@)
    }

    /// The characters of the identifier.
    pub closed spec fn view(&self) -> Seq<char> {
        self.value@
    }

    /// Wraps `s` when it is not blank, else fails with `BlankError`.
    pub fn try_from(s: String) -> (r: Result<Self, BlankError>)
        ensures
            r is Ok <==> !is_blank(s@),
            r matches Ok(id) ==> id.view() == s@,
    {
        match validate_non_blank(s.as_str()) {
            Ok(()) => Ok(NonBlankId { value: s, tag: PhantomData }),
            Err(e) => Err(e),
        }
    }

    /// The underlying string slice.
    pub fn as_str(&self) -> (r: &str)
        ensures
            r@ == self.view(),
            !is_blank(r@),
    {
        proof {
            use_type_invariant(self);
        }
        self.value.as_str()
    }

    /// The text that `Debug` writes for a tuple struct named `name` that
    /// wraps this identifier's string: `name("...")`.
    pub fn debug_string(&self, name: &str) -> (r: String)
        ensures
            r@ == tuple_debug(name@, debug_quoted(self.view())),
    {
        let quoted = str_debug(self.value.as_str());
        write_tuple_debug(name, quoted.as_str())
    }
}

impl<T: core::fmt::Debug + core::hash::Hash> StringIdentifier for NonBlankId<T> {
    open spec fn accepts(s: Seq<char>) -> bool {
        !is_blank(s)
    }

    type Error = BlankError;

    fn validate(s: &str) -> (r: Result<(), BlankError>)
        ensures
            r is Ok <==> !is_blank(s@),
    {
        validate_non_blank(s)
    }

    fn as_str(&self) -> (r: &str)
        ensures
            r@ == self.view(),
            !is_blank(r@),
    {
        NonBlankId::as_str(self)
    }
}

impl<T> Clone for NonBlankId<T> {
    fn clone(&self) -> (r: Self)
        ensures
            r.view() == self.view(),
    {
        proof {
            use_type_invariant(self);
        }
        NonBlankId { value: self.value.clone(), tag: PhantomData }
    }
}

/// Two non-blank identifiers are `==` exactly when they hold the same string, compared in
/// full.
pub proof fn law_non_blank_id_eq_is_string_eq<T>(a: NonBlankId<T>, b: NonBlankId<T>)
    ensures
        a.eq_spec(&b) <==> a.view() == b.view(),
{
}

impl<T> PartialEq for NonBlankId<T> {
    fn eq(&self, other: &Self) -> (r: bool) {
        self.value == other.value
    }
}

impl<T> vstd::std_specs::cmp::PartialEqSpecImpl for NonBlankId<T> {
    open spec fn obeys_eq_spec() -> bool {
        true
    }

    open spec fn eq_spec(&self, other: &Self) -> bool {
        self.view() == other.view()
    }
}

impl<T> Eq for NonBlankId<T> {
}

impl<T> AsRef<str> for NonBlankId<T> {
    fn as_ref(&self) -> (r: &str)
        ensures
            r@ == self.view(),
    {
        NonBlankId::as_str(self)
    }
}

/// An identifier over a string that may be any string. `T` is a tag type that keeps identifiers
/// of different kinds apart: `AnyId<A>` and `AnyId<B>` do not mix.
#[derive(Debug, Hash)]
pub struct AnyId<T> {
    value: String,
    tag: PhantomData<T>,
}

impl<T> AnyId<T> {
    /// The characters of the identifier.
    pub closed spec fn view(&self) -> Seq<char> {
        self.value@
    }

    /// Wraps `s`; every string is accepted.
    pub fn try_from(s: String) -> (r: Result<Self, Infallible>)
        ensures
            r is Ok,
            r matches Ok(id) ==> id.view() == s@,
    {
        match validate_any(s.as_str()) {
            Ok(()) => Ok(AnyId { value: s, tag: PhantomData }),
            Err(e) => Err(e),
        }
    }

    /// Wraps `s`.
    pub fn from(s: String) -> (r: Self)
        ensures
            r.view() == s@,
    {
        AnyId { value: s, tag: PhantomData }
    }

    /// The underlying string slice.
    pub fn as_str(&self) -> (r: &str)
        ensures
            r@ == self.view(),
    {
        self.value.as_str()
    }

    /// The text that `Debug` writes for a tuple struct named `name` that
    /// wraps this identifier's string: `name("...")`.
    pub fn debug_string(&self, name: &str) -> (r: String)
        ensures
            r@ == tuple_debug(name@, debug_quoted(self.view())),
    {
        let quoted = str_debug(self.value.as_str());
        write_tuple_debug(name, quoted.as_str())
    }
}

impl<T: core::fmt::Debug + core::hash::Hash> StringIdentifier for AnyId<T> {
    open spec fn accepts(s: Seq<char>) -> bool {
        true
    }

    type Error = Infallible;

    fn validate(s: &str) -> (r: Result<(), Infallible>)
        ensures
            r is Ok,
    {
        validate_any(s)
    }

    fn as_str(&self) -> (r: &str)
        ensures
            r@ == self.view(),
    {
        AnyId::as_str(self)
    }
}

impl<T> Clone for AnyId<T> {
    fn clone(&self) -> (r: Self)
        ensures
            r.view() == self.view(),
    {
        AnyId { value: self.value.clone(), tag: PhantomData }
    }
}

/// Two string identifiers are `==` exactly when they hold the same string, compared in
/// full.
pub proof fn law_any_id_eq_is_string_eq<T>(a: AnyId<T>, b: AnyId<T>)
    ensures
        a.eq_spec(&b) <==> a.view() == b.view(),
{
}

impl<T> PartialEq for AnyId<T> {
    fn eq(&self, other: &Self) -> (r: bool) {
        self.value == other.value
    }
}

impl<T> vstd::std_specs::cmp::PartialEqSpecImpl for AnyId<T> {
    open spec fn obeys_eq_spec() -> bool {
        true
    }

    open spec fn eq_spec(&self, other: &Self) -> bool {
        self.view() == other.view()
    }
}

impl<T> Eq for AnyId<T> {
}

impl<T> AsRef<str> for AnyId<T> {
    fn as_ref(&self) -> (r: &str)
        ensures
            r@ == self.view(),
    {
        AnyId::as_str(self)
    }
}

} // verus!
