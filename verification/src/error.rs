//! The two error kinds of the library: shape errors raised while a value is
//! constructed, and business-rule errors raised by validation.

use vstd::prelude::*;

verus! {

/// Error raised when raw input does not fit the shape of a field: a string
/// over its bound, an empty list where at least one element is required, or
/// a country code of the wrong length.
#[derive(Clone, Debug, PartialEq, Eq)]
pub enum Error {
    /// A value broke a structural constraint; the payload describes it.
    ValidationError(String),
    /// A country code field did not have exactly two characters.
    InvalidCountryCode(String),
}

impl View for Error {
    type V = Seq<char>;

    open spec fn view(&self) -> Seq<char> {
        match self {
            Error::ValidationError(m) => m@,
            Error::InvalidCountryCode(m) => m@,
        }
    }
}

impl Error {
    /// Build a shape error from its description.
    pub fn shape(m: &str) -> (r: Error)
        ensures
            r matches Error::ValidationError(_),
            r@ == m@,
    {
        Error::ValidationError(m.to_owned())
    }

    /// The human-readable description carried by the error.
    pub fn message(&self) -> (r: &str)
        ensures
            r@ == self@,
    {
        match self {
            Error::ValidationError(m) => m.as_str(),
            Error::InvalidCountryCode(m) => m.as_str(),
        }
    }
}

/// Error raised when a business rule (C1 through C11) is violated. The
/// message always ends with the rule's literal tag, `(IVMS101 C<n>)`.
#[derive(Clone, Debug, PartialEq, Eq)]
pub struct ValidationError {
    msg: String,
}

impl View for ValidationError {
    type V = Seq<char>;

    closed spec fn view(&self) -> Seq<char> {
        self.msg@
    }
}

impl ValidationError {
    /// Build a rule violation from its message.
    pub fn new(m: &str) -> (r: ValidationError)
        ensures
            r@ == m@,
    {
        ValidationError { msg: m.to_owned() }
    }

    /// The human-readable message; it ends with the violated rule's tag.
    pub fn message(&self) -> (r: &str)
        ensures
            r@ == self@,
    {
        self.msg.as_str()
    }
}

} // verus!
