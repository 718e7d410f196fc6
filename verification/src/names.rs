//! Name identifiers for natural and legal persons, with rules C6 and C5:
//! each person's set of name identifiers must contain at least one legal
//! name.

use vstd::prelude::*;
use crate::codes::LegalPersonNameTypeCode;
use crate::codes::NaturalPersonNameTypeCode;
use crate::containers::OneToN;
use crate::containers::ZeroToN;
use crate::error::ValidationError;
use crate::strings::StringMax100;
use crate::validation::c5_message;
use crate::validation::c6_message;
use crate::validation::Validatable;

verus! {

/// One name identifier of a natural person: a primary identifier (for
/// instance the family name), an optional secondary identifier (for
/// instance the given name), and the kind of name this is.
#[derive(Clone, Debug, PartialEq, Eq)]
pub struct NaturalPersonNameID {
    /// The primary identifier.
    pub primary_identifier: StringMax100,
    /// The secondary identifier, if any.
    pub secondary_identifier: Option<StringMax100>,
    /// What kind of name this is.
    pub name_identifier_type: NaturalPersonNameTypeCode,
}

/// The name identifiers of a natural person: at least one plain identifier,
/// and optional local-spelling and phonetic variants.
#[derive(Clone, Debug, PartialEq, Eq)]
pub struct NaturalPersonName {
    /// The name identifiers; at least one must be of the legal kind.
    pub name_identifier: OneToN<NaturalPersonNameID>,
    /// Identifiers in local spelling, if any.
    pub local_name_identifier: ZeroToN<NaturalPersonNameID>,
    /// Phonetic identifiers, if any.
    pub phonetic_name_identifier: ZeroToN<NaturalPersonNameID>,
}

impl NaturalPersonName {
    /// Rule C6: some name identifier is of the legal kind.
    pub open spec fn satisfies_c6(self) -> bool {
        exists|i: int|
            0 <= i < self.name_identifier.elements().len()
                && (#[trigger] self.name_identifier.elements()[i]).name_identifier_type
                == NaturalPersonNameTypeCode::LegalName
    }
}

impl Validatable for NaturalPersonName {
    /// Rule C6: the outcome is `Ok` exactly when a legal name is present.
    open spec fn validation(&self) -> Result<(), Seq<char>> {
        if self.satisfies_c6() {
            Ok(())
        } else {
            Err(c6_message())
        }
    }

    fn validate(&self) -> (r: Result<(), ValidationError>) {
        let n = self.name_identifier.len();
        let mut i: usize = 0;
        while i < n
            invariant
                n == self.name_identifier.elements().len(),
                i <= n,
                forall|j: int|
                    0 <= j < i ==> (#[trigger] self.name_identifier.elements()[j])
                        .name_identifier_type != NaturalPersonNameTypeCode::LegalName,
            decreases n - i,
        {
            if self.name_identifier.get(i).name_identifier_type
                == NaturalPersonNameTypeCode::LegalName {
                return Ok(());
            }
            i += 1;
        }
        Err(ValidationError::new("Natural person must have a legal name id (IVMS101 C6)"))
    }
}

/// One name identifier of a legal person: the name and the kind of name.
#[derive(Clone, Debug, PartialEq, Eq)]
pub struct LegalPersonNameID {
    /// The name itself.
    pub legal_person_name: StringMax100,
    /// What kind of name this is.
    pub legal_person_name_identifier_type: LegalPersonNameTypeCode,
}

/// The name identifiers of a legal person: at least one plain identifier,
/// and optional local-spelling and phonetic variants.
#[derive(Clone, Debug, PartialEq, Eq)]
pub struct LegalPersonName {
    /// The name identifiers; at least one must be of the legal kind.
    pub name_identifier: OneToN<LegalPersonNameID>,
    /// Identifiers in local spelling, if any.
    pub local_name_identifier: ZeroToN<LegalPersonNameID>,
    /// Phonetic identifiers, if any.
    pub phonetic_name_identifier: ZeroToN<LegalPersonNameID>,
}

impl LegalPersonName {
    /// Rule C5: some name identifier is of the legal kind.
    pub open spec fn satisfies_c5(self) -> bool {
        exists|i: int|
            0 <= i < self.name_identifier.elements().len()
                && (#[trigger] self.name_identifier.elements()[i])
                .legal_person_name_identifier_type == LegalPersonNameTypeCode::Legal
    }
}

impl Validatable for LegalPersonName {
    /// Rule C5: the outcome is `Ok` exactly when a legal name is present.
    open spec fn validation(&self) -> Result<(), Seq<char>> {
        if self.satisfies_c5() {
            Ok(())
        } else {
            Err(c5_message())
        }
    }

    fn validate(&self) -> (r: Result<(), ValidationError>) {
        let n = self.name_identifier.len();
        let mut i: usize = 0;
        while i < n
            invariant
                n == self.name_identifier.elements().len(),
                i <= n,
                forall|j: int|
                    0 <= j < i ==> (#[trigger] self.name_identifier.elements()[j])
                        .legal_person_name_identifier_type != LegalPersonNameTypeCode::Legal,
            decreases n - i,
        {
            if self.name_identifier.get(i).legal_person_name_identifier_type
                == LegalPersonNameTypeCode::Legal {
                return Ok(());
            }
            i += 1;
        }
        Err(ValidationError::new("Legal person must have a legal name id (IVMS101 C5)"))
    }
}

} // verus!
