//! Bounded-length text values. Every free-text field of the schema owns a
//! `ConstrainedString` whose character count never exceeds the field's bound;
//! the bound is checked once, when the value is constructed.

use vstd::prelude::*;
use crate::error::Error;

verus! {

/// An immutable text value of at most `MAX_LEN` characters.
#[derive(Debug, PartialEq, Eq)]
pub struct ConstrainedString<const MAX_LEN: usize> {
    inner: String,
}

impl<const MAX_LEN: usize> Clone for ConstrainedString<MAX_LEN> {
    fn clone(&self) -> (r: Self)
        ensures
            r@ == self@,
    {
        proof {
            use_type_invariant(self);
        }
        ConstrainedString { inner: self.inner.clone() }
    }
}

impl<const MAX_LEN: usize> View for ConstrainedString<MAX_LEN> {
    type V = Seq<char>;

    closed spec fn view(&self) -> Seq<char> {
        self.inner@
    }
}

impl<const MAX_LEN: usize> ConstrainedString<MAX_LEN> {
    /// The constructor admits no longer text, so the bound holds of every value.
    #[verifier::type_invariant]
    closed spec fn wf(self) -> bool {
        self.inner@.len() <= MAX_LEN
    }

    /// Wrap `s`, failing with a shape error when `s` is longer than the bound.
    pub fn try_new(s: &str) -> (r: Result<Self, Error>)
        ensures
            s@.len() <= MAX_LEN ==> (r matches Ok(v) && v@ == s@),
            s@.len() > MAX_LEN ==> (r matches Err(e)
                && e matches Error::ValidationError(_)),
    {
        if s.unicode_len() <= MAX_LEN {
            Ok(ConstrainedString { inner: s.to_owned() })
        } else {
            Err(Error::shape("text is longer than the field's bound"))
        }
    }

    /// The wrapped text.
    pub fn as_str(&self) -> (r: &str)
        ensures
            r@ == self@,
    {
        self.inner.as_str()
    }

    /// The wrapped text as an owned string.
    pub fn to_text(&self) -> (r: String)
        ensures
            r@ == self@,
    {
        self.inner.clone()
    }
}

/// Text of at most 16 characters (building numbers, post boxes, post codes).
pub type StringMax16 = ConstrainedString<16>;

/// Text of at most 35 characters (town names, building names, identifiers).
pub type StringMax35 = ConstrainedString<35>;

/// Text of at most 50 characters (departments, customer identifiers).
pub type StringMax50 = ConstrainedString<50>;

/// Text of at most 70 characters (street names, address lines, birthplaces).
pub type StringMax70 = ConstrainedString<70>;

/// Text of at most 100 characters (name identifiers, account numbers).
pub type StringMax100 = ConstrainedString<100>;

} // verus!
