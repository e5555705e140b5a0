use vstd::prelude::*;

verus! {

/// Error returned when an identifier that must not be empty is built from an
/// empty string.
#[derive(Debug, Clone, Copy, PartialEq, Eq, Structural)]
pub struct EmptyError;

/// Error returned when an identifier that must not be blank is built from a
/// string that is empty or holds only whitespace.
#[derive(Debug, Clone, Copy, PartialEq, Eq, Structural)]
pub struct BlankError;

impl EmptyError {
    /// The text of this error, as its `Display` form reads.
    pub fn message(&self) -> (r: &'static str)
        ensures
            r@ == "identifier string must not be empty"@,
    {
        "identifier string must not be empty"
    }
}

impl BlankError {
    /// The text of this error, as its `Display` form reads.
    pub fn message(&self) -> (r: &'static str)
        ensures
            r@ == "identifier string must not be blank"@,
    {
        "identifier string must not be blank"
    }
}

} // verus!
