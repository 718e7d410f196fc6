//! ISO 3166-1 alpha-2 country codes. Construction checks the shape alone
//! (exactly two characters); whether the code is recognized is rule C3, a
//! validation concern. The two checks are deliberately kept at two lifecycle
//! points, so decode-time errors stay distinct from business-rule errors.

use vstd::prelude::*;
use crate::error::Error;
use crate::error::ValidationError;
use crate::lookups::is_known_country_code;
use crate::lookups::known_country_code;
use crate::text::str_eq;
use crate::validation::c3_message;
use crate::validation::Validatable;

verus! {

/// A two-character country code. The sentinel `XX` stands for an unknown
/// state or entity and always passes validation.
#[derive(Debug, PartialEq, Eq)]
pub struct CountryCode {
    inner: String,
}

impl View for CountryCode {
    type V = Seq<char>;

    closed spec fn view(&self) -> Seq<char> {
        self.inner@
    }
}

impl Clone for CountryCode {
    fn clone(&self) -> (r: Self)
        ensures
            r@ == self@,
    {
        proof {
            use_type_invariant(self);
        }
        CountryCode { inner: self.inner.clone() }
    }
}

impl CountryCode {
    /// The constructor admits two-character texts only.
    #[verifier::type_invariant]
    closed spec fn wf(self) -> bool {
        self.inner@.len() == 2
    }

    /// Wrap a code, failing when it does not have exactly two characters.
    /// A well-shaped but unrecognized code is accepted here; rule C3
    /// rejects it at validation time.
    pub fn try_new(s: &str) -> (r: Result<Self, Error>)
        ensures
            s@.len() == 2 ==> (r matches Ok(v) && v@ == s@),
            s@.len() != 2 ==> (r matches Err(e)
                && e matches Error::InvalidCountryCode(_) && e@ == s@),
    {
        if s.unicode_len() == 2 {
            Ok(CountryCode { inner: s.to_owned() })
        } else {
            Err(Error::InvalidCountryCode(s.to_owned()))
        }
    }

    /// The code's text.
    pub fn as_str(&self) -> (r: &str)
        ensures
            r@ == self@,
    {
        self.inner.as_str()
    }
}

impl Validatable for CountryCode {
    /// Rule C3: the outcome is `Ok` exactly when the code is the sentinel
    /// `XX` or appears in the ISO 3166-1 alpha-2 table.
    open spec fn validation(&self) -> Result<(), Seq<char>> {
        if self@ == "XX"@ || is_known_country_code(self@) {
            Ok(())
        } else {
            Err(c3_message())
        }
    }

    fn validate(&self) -> (r: Result<(), ValidationError>) {
        if str_eq(self.inner.as_str(), "XX") {
            Ok(())
        } else if known_country_code(self.inner.as_str()) {
            Ok(())
        } else {
            Err(ValidationError::new("Invalid country code (IVMS101 C3)"))
        }
    }
}

} // verus!
