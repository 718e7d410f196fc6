//! A person's national identification: an identifier, its type code, and
//! optionally the issuing country and the registration authority. Its own
//! validation delegates to the registration authority's rule C10; the
//! legal-person rules C7, C9 and C11 read its fields from the outside.

use vstd::prelude::*;
use crate::codes::NationalIdentifierTypeCode;
use crate::country_code::CountryCode;
use crate::error::ValidationError;
use crate::registration_authority::RegistrationAuthority;
use crate::strings::StringMax35;
use crate::validation::Validatable;

verus! {

/// A national identification record.
#[derive(Clone, Debug, PartialEq, Eq)]
pub struct NationalIdentification {
    /// The identifier itself.
    pub national_identifier: StringMax35,
    /// What kind of identifier this is.
    pub national_identifier_type: NationalIdentifierTypeCode,
    /// The issuing country, if given.
    pub country_of_issue: Option<CountryCode>,
    /// The registration authority, if given.
    pub registration_authority: Option<RegistrationAuthority>,
}

impl Validatable for NationalIdentification {
    /// The outcome of the registration authority's rule C10, when one is
    /// present; `Ok` otherwise.
    open spec fn validation(&self) -> Result<(), Seq<char>> {
        match self.registration_authority {
            Some(ra) => ra.validation(),
            None => Ok(()),
        }
    }

    fn validate(&self) -> (r: Result<(), ValidationError>) {
        match &self.registration_authority {
            Some(ra) => ra.validate(),
            None => Ok(()),
        }
    }
}

} // verus!
