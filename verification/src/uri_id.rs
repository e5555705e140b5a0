use core::convert::Infallible;
use core::marker::PhantomData;
use fluent_uri::{ParseError, Uri};
use vstd::prelude::*;
use vstd::std_specs::cmp::PartialEqSpec;

use crate::display::{debug_quoted, str_debug, tuple_debug, write_tuple_debug};

verus! {

#[verifier::external_type_specification]
#[verifier::external_body]
#[verifier::reject_recursive_types(T)]
pub struct ExUri<T>(Uri<T>);

#[verifier::external_type_specification]
#[verifier::external_body]
pub struct ExParseError(ParseError);

/// What `Uri::<String>::parse` gives for a string: the `Uri` when the string
/// matches the `URI` rule of RFC 3986, else nothing.
pub uninterp spec fn uri_parse(s: Seq<char>) -> Option<Uri<String>>;

/// Whether `Uri::parse` accepts the string.
pub open spec fn uri_is_valid(s: Seq<char>) -> bool {
    uri_parse(s) is Some
}

/// The `Uri` that `Uri::parse` gives for a string that it accepts.
pub open spec fn parsed_uri(s: Seq<char>) -> Uri<String> {
    uri_parse(s)->Some_0
}

/// Parses `text` with `Uri::<String>::parse`, keeping a copy of the text.
///
/// Trusted: on success the copy is `text` and the `Uri` is `uri_parse` of it;
/// on failure the string handed back with the error is `text` and `uri_parse`
/// of it is nothing. What the error records
/// (its kind and position) is not stated.
#[verifier::external_body]
fn parse_uri(text: String) -> (r: Result<(String, Uri<String>), (ParseError, String)>)
    ensures
        match r {
            Ok((t, u)) => t@ == text@ && uri_parse(text@) == Some(u),
            Err((_, t)) => t@ == text@ && uri_parse(text@) is None,
        },
{
    let copy = text.clone();
    match Uri::<String>::parse(text) {
        Ok(uri) => Ok((copy, uri)),
        Err(e) => Err(e),
    }
}

/// The text of a `Uri`, with `Uri::as_str`.
///
/// Trusted: parsing the text gives this `Uri` back, and no other text does.
/// `as_str` returns the very string that was parsed, a `Uri` keeps the parse
/// data of that string, and a `Uri` parsed from another string holds that
/// other string.
#[verifier::external_body]
fn uri_text(uri: &Uri<String>) -> (r: String)
    ensures
        uri_parse(r@) == Some(*uri),
        forall|s: Seq<char>| #[trigger] uri_parse(s) == Some(*uri) ==> s == r@,
{
    uri.as_str().to_string()
}

/// Error returned when a string is not a URI; it hands the string back.
#[derive(Debug, Clone, PartialEq, Eq)]
pub struct InvalidUri {
    /// The string that failed to parse.
    pub input: String,
}

/// Common interface of typed URI wrappers.
pub trait UriIdentifier: Sized + core::fmt::Debug + Clone + PartialEq + Eq + core::hash::Hash {
    /// The error returned when validation fails.
    type Error;

    /// The URIs that the type accepts.
    spec fn accepts(uri: Uri<String>) -> bool;

    /// The URI that a value holds.
    spec fn held_uri(&self) -> Uri<String>;

    /// Validates `uri` before it is wrapped. Returns `Err` to reject it.
    fn validate(uri: &Uri<String>) -> (r: Result<(), Self::Error>)
        ensures
            r is Ok <==> Self::accepts(*uri),
    ;

    /// The underlying URI, which the type accepts.
    fn as_uri(&self) -> (r: &Uri<String>)
        ensures
            *r == self.held_uri(),
            Self::accepts(*r),
    ;
}

/// An identifier over a URI, held with its text, which always parses as a
/// URI. `T` is a tag type that keeps identifiers of different kinds apart.
#[derive(Debug, Hash)]
pub struct UriId<T> {
    text: String,
    uri: Uri<String>,
    tag: PhantomData<T>,
}

impl<T> UriId<T> {
    #[verifier::type_invariant]
    spec fn inv(self) -> bool {
        uri_is_valid(self.text@) && self.uri == parsed_uri(self.text@)
    }

    /// The text of the URI.
    pub closed spec fn view(&self) -> Seq<char> {
        self.text@
    }

    /// Wraps `text` when it parses as a URI, else hands it back in the error.
    pub fn parse(text: String) -> (r: Result<Self, InvalidUri>)
        ensures
            r is Ok <==> uri_is_valid(text@),
            r matches Ok(id) ==> id.view() == text@,
            r matches Err(e) ==> e.input@ == text@,
    {
        match parse_uri(text) {
            Ok((t, uri)) => Ok(UriId { text: t, uri, tag: PhantomData }),
            Err((_, t)) => Err(InvalidUri { input: t }),
        }
    }

    /// Wraps `uri`: the identifier holds the URI's text, the one text that
    /// parses to `uri`.
    pub fn from(uri: Uri<String>) -> (r: Self)
        ensures
            uri_parse(r.view()) == Some(uri),
            forall|s: Seq<char>| #[trigger] uri_parse(s) == Some(uri) ==> s == r.view(),
    {
        let text = uri_text(&uri);
        match parse_uri(text) {
            Ok((t, u)) => UriId { text: t, uri: u, tag: PhantomData },
            Err(_) => vstd::pervasive::unreached(),
        }
    }

    /// Wraps `uri`; every URI is accepted, so the result is always `Ok`.
    pub fn try_from(uri: Uri<String>) -> (r: Result<Self, Infallible>)
        ensures
            r matches Ok(id) && uri_parse(id.view()) == Some(uri),
            r matches Ok(id) ==> forall|s: Seq<char>| #[trigger] uri_parse(s) == Some(uri) ==> s
                == id.view(),
    {
        Ok(UriId::from(uri))
    }

    /// The text of the URI.
    pub fn as_str(&self) -> (r: &str)
        ensures
            r@ == self.view(),
            uri_is_valid(r@),
    {
        proof {
            use_type_invariant(self);
        }
        self.text.as_str()
    }

    /// The underlying URI: what parsing the identifier's text gives.
    pub fn as_uri(&self) -> (r: &Uri<String>)
        ensures
            *r == parsed_uri(self.view()),
    {
        proof {
            use_type_invariant(self);
        }
        &self.uri
    }

    /// The text that `Debug` writes for a tuple struct named `name` that wraps
    /// this identifier's URI: the name, then the quoted URI text in brackets.
    pub fn debug_string(&self, name: &str) -> (r: String)
        ensures
            r@ == tuple_debug(name@, debug_quoted(self.view())),
    {
        let quoted = str_debug(self.text.as_str());
        write_tuple_debug(name, quoted.as_str())
    }
}

impl<T: core::fmt::Debug + core::hash::Hash> UriIdentifier for UriId<T> {
    type Error = Infallible;

    open spec fn accepts(uri: Uri<String>) -> bool {
        true
    }

    open spec fn held_uri(&self) -> Uri<String> {
        parsed_uri(self.view())
    }

    fn validate(uri: &Uri<String>) -> (r: Result<(), Infallible>)
        ensures
            r is Ok,
    {
        Ok(())
    }

    fn as_uri(&self) -> (r: &Uri<String>)
        ensures
            *r == parsed_uri(self.view()),
    {
        UriId::as_uri(self)
    }
}

impl<T> Clone for UriId<T> {
    fn clone(&self) -> (r: Self)
        ensures
            r.view() == self.view(),
    {
        proof {
            use_type_invariant(self);
        }
        match parse_uri(self.text.clone()) {
            Ok((t, uri)) => UriId { text: t, uri, tag: PhantomData },
            Err(_) => vstd::pervasive::unreached(),
        }
    }
}

/// Two URI identifiers are `==` exactly when they hold the same URI text, compared in
/// full.
pub proof fn law_uri_id_eq_is_text_eq<T>(a: UriId<T>, b: UriId<T>)
    ensures
        a.eq_spec(&b) <==> a.view() == b.view(),
{
}

impl<T> PartialEq for UriId<T> {
    fn eq(&self, other: &Self) -> (r: bool) {
        self.text == other.text
    }
}

impl<T> vstd::std_specs::cmp::PartialEqSpecImpl for UriId<T> {
    open spec fn obeys_eq_spec() -> bool {
        true
    }

    open spec fn eq_spec(&self, other: &Self) -> bool {
        self.view() == other.view()
    }
}

impl<T> Eq for UriId<T> {
}

} // verus!
