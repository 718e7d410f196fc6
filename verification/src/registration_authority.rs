//! GLEIF registration-authority codes. Construction checks the shape alone
//! (exactly eight characters); membership on the GLEIF registration-authority
//! list is rule C10, a validation concern. The list is mirrored here as the
//! range of codes it assigns: `RA` followed by six digits, numbered from 1
//! up to the highest issued entry, plus the two reserved codes for
//! self-registration and for authorities outside the list.

use vstd::prelude::*;
use crate::error::Error;
use crate::error::ValidationError;
use crate::text::digit_value;
use crate::text::is_digit;
use crate::validation::c10_message;
use crate::validation::Validatable;

verus! {

/// The highest issued entry number of the mirrored GLEIF list.
pub const HIGHEST_GLEIF_ENTRY: u32 = 844;

/// The reserved entry number for self-registered entities.
pub const SELF_REGISTERED_ENTRY: u32 = 888888;

/// The reserved entry number for registration authorities outside the list.
pub const OTHER_AUTHORITY_ENTRY: u32 = 999999;

/// The entry number written in the six digit characters of `s`.
pub open spec fn entry_number(s: Seq<char>) -> int
    recommends
        s.len() == 6,
{
    digit_value(s[0]) * 100000 + digit_value(s[1]) * 10000 + digit_value(s[2]) * 1000
        + digit_value(s[3]) * 100 + digit_value(s[4]) * 10 + digit_value(s[5])
}

/// Whether a code is on the GLEIF registration-authority list: `RA`, then
/// six digits naming an issued entry or one of the two reserved entries.
pub open spec fn on_gleif_list(s: Seq<char>) -> bool {
    s.len() == 8 && s[0] == 'R' && s[1] == 'A'
        && (forall|i: int| 2 <= i < 8 ==> is_digit(#[trigger] s[i]))
        && {
            let n = entry_number(s.subrange(2, 8));
            (1 <= n <= HIGHEST_GLEIF_ENTRY) || n == SELF_REGISTERED_ENTRY
                || n == OTHER_AUTHORITY_ENTRY
        }
}

/// An eight-character registration-authority code. Whether it is on the
/// GLEIF list is rule C10, checked at validation time.
#[derive(Debug, PartialEq, Eq)]
pub struct RegistrationAuthority {
    inner: String,
}

impl View for RegistrationAuthority {
    type V = Seq<char>;

    closed spec fn view(&self) -> Seq<char> {
        self.inner@
    }
}

impl Clone for RegistrationAuthority {
    fn clone(&self) -> (r: Self)
        ensures
            r@ == self@,
    {
        proof {
            use_type_invariant(self);
        }
        RegistrationAuthority { inner: self.inner.clone() }
    }
}

impl RegistrationAuthority {
    /// The constructor admits eight-character texts only.
    #[verifier::type_invariant]
    closed spec fn wf(self) -> bool {
        self.inner@.len() == 8
    }

    /// Wrap a code, failing when it does not have exactly eight characters.
    pub fn try_new(s: &str) -> (r: Result<Self, Error>)
        ensures
            s@.len() == 8 ==> (r matches Ok(v) && v@ == s@),
            s@.len() != 8 ==> (r matches Err(e)
                && e matches Error::ValidationError(_)),
    {
        if s.unicode_len() == 8 {
            Ok(RegistrationAuthority { inner: s.to_owned() })
        } else {
            Err(Error::shape("a registration authority code has exactly eight characters"))
        }
    }

    /// The code's text.
    pub fn as_str(&self) -> (r: &str)
        ensures
            r@ == self@,
    {
        self.inner.as_str()
    }
}

impl Validatable for RegistrationAuthority {
    /// Rule C10: the outcome is `Ok` exactly when the code is on the GLEIF
    /// registration-authority list.
    open spec fn validation(&self) -> Result<(), Seq<char>> {
        if on_gleif_list(self@) {
            Ok(())
        } else {
            Err(c10_message())
        }
    }

    fn validate(&self) -> (r: Result<(), ValidationError>) {
        proof {
            use_type_invariant(self);
        }
        let s = self.inner.as_str();
        let failure = Err(ValidationError::new(
            "Provided registration authority is not on the GLEIF list (IVMS101 C10)",
        ));
        if s.get_char(0) != 'R' || s.get_char(1) != 'A' {
            return failure;
        }
        let c2 = s.get_char(2);
        let c3 = s.get_char(3);
        let c4 = s.get_char(4);
        let c5 = s.get_char(5);
        let c6 = s.get_char(6);
        let c7 = s.get_char(7);
        if c2 < '0' || c2 > '9' || c3 < '0' || c3 > '9' || c4 < '0' || c4 > '9'
            || c5 < '0' || c5 > '9' || c6 < '0' || c6 > '9' || c7 < '0' || c7 > '9' {
            proof {
                assert(!on_gleif_list(self@)) by {
                    let digits = self@.subrange(2, 8);
                    assert(self@[2] == digits[0] && self@[3] == digits[1]
                        && self@[4] == digits[2] && self@[5] == digits[3]
                        && self@[6] == digits[4] && self@[7] == digits[5]);
                }
            }
            return failure;
        }
        let n: u32 = (c2 as u32 - 48) * 100000 + (c3 as u32 - 48) * 10000
            + (c4 as u32 - 48) * 1000 + (c5 as u32 - 48) * 100 + (c6 as u32 - 48) * 10
            + (c7 as u32 - 48);
        proof {
            let digits = self@.subrange(2, 8);
            assert(self@[2] == digits[0] && self@[3] == digits[1] && self@[4] == digits[2]
                && self@[5] == digits[3] && self@[6] == digits[4] && self@[7] == digits[5]);
            assert(n == entry_number(digits));
        }
        if (1 <= n && n <= HIGHEST_GLEIF_ENTRY) || n == SELF_REGISTERED_ENTRY
            || n == OTHER_AUTHORITY_ENTRY {
            Ok(())
        } else {
            failure
        }
    }
}

} // verus!
