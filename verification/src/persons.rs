//! The polymorphic person representation: a natural person or a legal
//! person, each with names, addresses and identification, and the
//! legal-person rules C4, C7, C9 and C11.

use vstd::prelude::*;
use crate::address::Address;
use crate::codes::AddressTypeCode;
use crate::codes::LegalPersonNameTypeCode;
use crate::codes::NationalIdentifierTypeCode;
use crate::codes::NaturalPersonNameTypeCode;
use crate::containers::OneToN;
use crate::containers::ZeroToN;
use crate::country_code::CountryCode;
use crate::date::DateAndPlaceOfBirth;
use crate::error::Error;
use crate::error::ValidationError;
use crate::lookups::is_valid_lei;
use crate::lookups::valid_lei;
use crate::names::LegalPersonName;
use crate::names::LegalPersonNameID;
use crate::names::NaturalPersonName;
use crate::names::NaturalPersonNameID;
use crate::national_identification::NationalIdentification;
use crate::strings::StringMax100;
use crate::strings::StringMax35;
use crate::strings::StringMax50;
use crate::validation::c11_message;
use crate::validation::c4_message;
use crate::validation::c7_message;
use crate::validation::c9_country_message;
use crate::validation::c9_extra_message;
use crate::validation::c9_missing_message;
use crate::validation::seq_validation;
use crate::validation::validate_each_one_to_n;
use crate::validation::validate_each_zero_to_n;
use crate::validation::Validatable;

verus! {

/// A natural person: names, addresses, identification, birth data and
/// country of residence.
#[derive(Clone, Debug, PartialEq, Eq)]
pub struct NaturalPerson {
    /// The person's names; each must carry a legal name (rule C6).
    pub name: OneToN<NaturalPersonName>,
    /// The person's addresses, if any (rule C8 each).
    pub geographic_address: ZeroToN<Address>,
    /// The person's national identification, if any.
    pub national_identification: Option<NationalIdentification>,
    /// The customer identifier, if any.
    pub customer_identification: Option<StringMax50>,
    /// The date and place of birth, if any (rule C2).
    pub date_and_place_of_birth: Option<DateAndPlaceOfBirth>,
    /// The country of residence, if any.
    pub country_of_residence: Option<CountryCode>,
}

impl NaturalPerson {
    /// Build a natural person from a given name and a family name: one
    /// legal-name identifier with the family name as primary identifier
    /// and the given name as secondary. Fails with a shape error when an
    /// input exceeds its field's bound.
    pub fn new(
        first_name: &str,
        last_name: &str,
        customer_identification: Option<&str>,
        address: Option<Address>,
    ) -> (r: Result<Self, Error>)
        ensures
            r is Ok <==> (first_name@.len() <= 100 && last_name@.len() <= 100
                && (match customer_identification {
                Some(c) => c@.len() <= 50,
                None => true,
            })),
            r matches Ok(p) ==> {
                &&& p.name.elements().len() == 1
                &&& p.name.elements()[0].name_identifier.elements().len() == 1
                &&& {
                    let id = p.name.elements()[0].name_identifier.elements()[0];
                    &&& id.primary_identifier@ == last_name@
                    &&& (id.secondary_identifier matches Some(s) && s@ == first_name@)
                    &&& id.name_identifier_type == NaturalPersonNameTypeCode::LegalName
                }
                &&& p.name.elements()[0].local_name_identifier is Absent
                &&& p.name.elements()[0].phonetic_name_identifier is Absent
                &&& (match address {
                    Some(a) => p.geographic_address matches ZeroToN::One(b) && b == a,
                    None => p.geographic_address is Absent,
                })
                &&& p.national_identification is None
                &&& (match customer_identification {
                    Some(c) => p.customer_identification matches Some(v) && v@ == c@,
                    None => p.customer_identification is None,
                })
                &&& p.date_and_place_of_birth is None
                &&& p.country_of_residence is None
            },
    {
        let primary = match StringMax100::try_new(last_name) {
            Ok(v) => v,
            Err(e) => return Err(e),
        };
        let secondary = match StringMax100::try_new(first_name) {
            Ok(v) => v,
            Err(e) => return Err(e),
        };
        let customer = match customer_identification {
            Some(c) => match StringMax50::try_new(c) {
                Ok(v) => Some(v),
                Err(e) => return Err(e),
            },
            None => None,
        };
        let geographic_address = match address {
            Some(a) => ZeroToN::One(a),
            None => ZeroToN::Absent,
        };
        Ok(NaturalPerson {
            name: OneToN::One(NaturalPersonName {
                name_identifier: OneToN::One(NaturalPersonNameID {
                    primary_identifier: primary,
                    secondary_identifier: Some(secondary),
                    name_identifier_type: NaturalPersonNameTypeCode::LegalName,
                }),
                local_name_identifier: ZeroToN::Absent,
                phonetic_name_identifier: ZeroToN::Absent,
            }),
            geographic_address,
            national_identification: None,
            customer_identification: customer,
            date_and_place_of_birth: None,
            country_of_residence: None,
        })
    }

    /// The secondary identifier of the person's first name identifier,
    /// conventionally the given name, if one is present.
    pub fn first_name(&self) -> (r: Option<String>)
        ensures
            match self.name.elements()[0].name_identifier.elements()[0].secondary_identifier {
                Some(s) => r matches Some(t) && t@ == s@,
                None => r is None,
            },
    {
        match &self.name.first().name_identifier.first().secondary_identifier {
            Some(s) => Some(s.to_text()),
            None => None,
        }
    }

    /// The primary identifier of the person's first name identifier,
    /// conventionally the family name.
    pub fn last_name(&self) -> (r: String)
        ensures
            r@ == self.name.elements()[0].name_identifier.elements()[0].primary_identifier@,
    {
        self.name.first().name_identifier.first().primary_identifier.to_text()
    }

    /// The person's first address, if any is present.
    pub fn address(&self) -> (r: Option<&Address>)
        ensures
            match r {
                Some(a) => self.geographic_address.elements().len() > 0 && *a
                    == self.geographic_address.elements()[0],
                None => self.geographic_address.elements().len() == 0,
            },
    {
        self.geographic_address.first()
    }
}

impl Validatable for NaturalPerson {
    /// Names first (rule C6 each), then addresses (rule C8 each), stopping
    /// at the first failure.
    open spec fn validation(&self) -> Result<(), Seq<char>> {
        match seq_validation(self.name.elements()) {
            Err(m) => Err(m),
            Ok(()) => seq_validation(self.geographic_address.elements()),
        }
    }

    fn validate(&self) -> (r: Result<(), ValidationError>) {
        match validate_each_one_to_n(&self.name) {
            Err(e) => Err(e),
            Ok(()) => validate_each_zero_to_n(&self.geographic_address),
        }
    }
}

/// A legal person: name, addresses, customer and national identification,
/// and country of registration.
#[derive(Clone, Debug, PartialEq, Eq)]
pub struct LegalPerson {
    /// The entity's name; it must carry a legal name (rule C5).
    pub name: LegalPersonName,
    /// The entity's addresses, if any (rules C4 and C8).
    pub geographic_address: ZeroToN<Address>,
    /// The customer identifier, if any.
    pub customer_identification: Option<StringMax50>,
    /// The national identification, if any (rules C7, C9 and C11).
    pub national_identification: Option<NationalIdentification>,
    /// The country of registration, if any.
    pub country_of_registration: Option<CountryCode>,
}

impl LegalPerson {
    /// Rule C4: a geographic-type address, a national identification, or a
    /// customer identification is present.
    pub open spec fn satisfies_c4(self) -> bool {
        (exists|i: int|
            0 <= i < self.geographic_address.elements().len()
                && (#[trigger] self.geographic_address.elements()[i]).address_type
                == AddressTypeCode::Geographic) || self.national_identification is Some
            || self.customer_identification is Some
    }

    /// Rule C7: a national identification, when present, is a registration
    /// authority identifier, an unspecified identifier, a Legal Entity
    /// Identifier, or a tax identification number.
    pub open spec fn satisfies_c7(self) -> bool {
        match self.national_identification {
            Some(ni) => ni.national_identifier_type
                == NationalIdentifierTypeCode::RegistrationAuthorityIdentifier
                || ni.national_identifier_type == NationalIdentifierTypeCode::Unspecified
                || ni.national_identifier_type
                == NationalIdentifierTypeCode::LegalEntityIdentifier
                || ni.national_identifier_type
                == NationalIdentifierTypeCode::TaxIdentificationNumber,
            None => true,
        }
    }

    /// Rule C11: an identifier marked as a Legal Entity Identifier passes
    /// the LEI structural and checksum validation.
    pub open spec fn satisfies_c11(self) -> bool {
        match self.national_identification {
            Some(ni) => ni.national_identifier_type
                == NationalIdentifierTypeCode::LegalEntityIdentifier
                ==> is_valid_lei(ni.national_identifier@),
            None => true,
        }
    }

    /// Rule C9, checked after the name and the addresses: no country of
    /// issue; and a registration authority is present exactly when the
    /// identifier is not a Legal Entity Identifier.
    pub open spec fn c9_validation(self) -> Result<(), Seq<char>> {
        match self.national_identification {
            None => Ok(()),
            Some(ni) => {
                if ni.country_of_issue is Some {
                    Err(c9_country_message())
                } else if ni.national_identifier_type
                    != NationalIdentifierTypeCode::LegalEntityIdentifier
                    && ni.registration_authority is None {
                    Err(c9_missing_message())
                } else if ni.national_identifier_type
                    == NationalIdentifierTypeCode::LegalEntityIdentifier
                    && ni.registration_authority is Some {
                    Err(c9_extra_message())
                } else {
                    Ok(())
                }
            },
        }
    }

    /// Build a legal person from its name, customer identifier, address
    /// and Legal Entity Identifier: one legal-name identifier, the address
    /// as only address, and an LEI-typed national identification. Fails
    /// with a shape error when an input exceeds its field's bound or the
    /// LEI does not validate.
    pub fn new(
        name: &str,
        customer_identification: &str,
        address: Address,
        lei: &str,
    ) -> (r: Result<Self, Error>)
        ensures
            r is Ok <==> (name@.len() <= 100 && customer_identification@.len() <= 50
                && is_valid_lei(lei@)),
            r matches Ok(p) ==> {
                &&& p.name.name_identifier.elements().len() == 1
                &&& p.name.name_identifier.elements()[0].legal_person_name@ == name@
                &&& p.name.name_identifier.elements()[0].legal_person_name_identifier_type
                    == LegalPersonNameTypeCode::Legal
                &&& p.name.local_name_identifier is Absent
                &&& p.name.phonetic_name_identifier is Absent
                &&& (p.geographic_address matches ZeroToN::One(a) && a == address)
                &&& (p.customer_identification matches Some(c)
                    && c@ == customer_identification@)
                &&& (p.national_identification matches Some(ni) && {
                    &&& ni.national_identifier@ == lei@
                    &&& ni.national_identifier_type
                        == NationalIdentifierTypeCode::LegalEntityIdentifier
                    &&& ni.country_of_issue is None
                    &&& ni.registration_authority is None
                })
                &&& p.country_of_registration is None
            },
    {
        let legal_name = match StringMax100::try_new(name) {
            Ok(v) => v,
            Err(e) => return Err(e),
        };
        let customer = match StringMax50::try_new(customer_identification) {
            Ok(v) => v,
            Err(e) => return Err(e),
        };
        if !valid_lei(lei) {
            return Err(Error::shape("the Legal Entity Identifier does not validate"));
        }
        let identifier = match StringMax35::try_new(lei) {
            Ok(v) => v,
            Err(e) => return Err(e),
        };
        Ok(LegalPerson {
            name: LegalPersonName {
                name_identifier: OneToN::One(LegalPersonNameID {
                    legal_person_name: legal_name,
                    legal_person_name_identifier_type: LegalPersonNameTypeCode::Legal,
                }),
                local_name_identifier: ZeroToN::Absent,
                phonetic_name_identifier: ZeroToN::Absent,
            },
            geographic_address: ZeroToN::One(address),
            customer_identification: Some(customer),
            national_identification: Some(NationalIdentification {
                national_identifier: identifier,
                national_identifier_type: NationalIdentifierTypeCode::LegalEntityIdentifier,
                country_of_issue: None,
                registration_authority: None,
            }),
            country_of_registration: None,
        })
    }

    /// The first name identifier's text: the entity's name.
    pub fn name(&self) -> (r: String)
        ensures
            r@ == self.name.name_identifier.elements()[0].legal_person_name@,
    {
        self.name.name_identifier.first().legal_person_name.to_text()
    }

    /// The entity's first address, if any is present.
    pub fn address(&self) -> (r: Option<&Address>)
        ensures
            match r {
                Some(a) => self.geographic_address.elements().len() > 0 && *a
                    == self.geographic_address.elements()[0],
                None => self.geographic_address.elements().len() == 0,
            },
    {
        self.geographic_address.first()
    }

    /// The Legal Entity Identifier held in the national identification:
    /// nothing when no identification is present, its text when that text
    /// validates as an LEI, and an error otherwise.
    pub fn lei(&self) -> (r: Result<Option<String>, Error>)
        ensures
            match self.national_identification {
                None => r matches Ok(None),
                Some(ni) => {
                    if is_valid_lei(ni.national_identifier@) {
                        r matches Ok(Some(t)) && t@ == ni.national_identifier@
                    } else {
                        r is Err
                    }
                },
            },
    {
        match &self.national_identification {
            None => Ok(None),
            Some(ni) => {
                let text = ni.national_identifier.as_str();
                if valid_lei(text) {
                    Ok(Some(text.to_owned()))
                } else {
                    Err(Error::shape("the national identifier is not a well-formed LEI"))
                }
            },
        }
    }
}

impl Validatable for LegalPerson {
    /// Rules C4, C7 and C11 in that order, then the name (rule C5), then
    /// each address (rule C8), then rule C9; the first failure wins.
    open spec fn validation(&self) -> Result<(), Seq<char>> {
        if !self.satisfies_c4() {
            Err(c4_message())
        } else if !self.satisfies_c7() {
            Err(c7_message())
        } else if !self.satisfies_c11() {
            Err(c11_message())
        } else {
            match self.name.validation() {
                Err(m) => Err(m),
                Ok(()) => match seq_validation(self.geographic_address.elements()) {
                    Err(m) => Err(m),
                    Ok(()) => self.c9_validation(),
                },
            }
        }
    }

    fn validate(&self) -> (r: Result<(), ValidationError>) {
        let mut has_geog = false;
        let n = self.geographic_address.len();
        let mut i: usize = 0;
        while i < n
            invariant
                n == self.geographic_address.elements().len(),
                i <= n,
                has_geog == exists|j: int|
                    0 <= j < i && (#[trigger] self.geographic_address.elements()[j])
                        .address_type == AddressTypeCode::Geographic,
            decreases n - i,
        {
            if self.geographic_address.get(i).address_type == AddressTypeCode::Geographic {
                has_geog = true;
            }
            i += 1;
        }
        if !has_geog && self.national_identification.is_none()
            && self.customer_identification.is_none() {
            return Err(ValidationError::new(
                "Legal person needs either geographic address, customer number or national identification (IVMS101 C4)",
            ));
        }
        if let Some(ni) = &self.national_identification {
            match ni.national_identifier_type {
                NationalIdentifierTypeCode::RegistrationAuthorityIdentifier
                | NationalIdentifierTypeCode::Unspecified
                | NationalIdentifierTypeCode::LegalEntityIdentifier
                | NationalIdentifierTypeCode::TaxIdentificationNumber => {},
                _ => {
                    return Err(ValidationError::new(
                        "Legal person must have a 'RAID', 'MISC', 'LEIX' or 'TXID' identification (IVMS101 C7)",
                    ));
                },
            }
        }
        if let Some(ni) = &self.national_identification {
            if ni.national_identifier_type == NationalIdentifierTypeCode::LegalEntityIdentifier
                && !valid_lei(ni.national_identifier.as_str()) {
                return Err(ValidationError::new("Invalid LEI (IVMS101 C11)"));
            }
        }
        if let Err(e) = self.name.validate() {
            return Err(e);
        }
        if let Err(e) = validate_each_zero_to_n(&self.geographic_address) {
            return Err(e);
        }
        match &self.national_identification {
            None => Ok(()),
            Some(ni) => {
                if ni.country_of_issue.is_some() {
                    Err(ValidationError::new(
                        "Legal person must not have a country of issue (IVMS101 C9)",
                    ))
                } else if ni.national_identifier_type
                    != NationalIdentifierTypeCode::LegalEntityIdentifier
                    && ni.registration_authority.is_none() {
                    Err(ValidationError::new(
                        "Legal person must specify registration authority for non-'LEIX' identification (IVMS101 C9)",
                    ))
                } else if ni.national_identifier_type
                    == NationalIdentifierTypeCode::LegalEntityIdentifier
                    && ni.registration_authority.is_some() {
                    Err(ValidationError::new(
                        "Legal person must not specify registration authority for 'LEIX' identification (IVMS101 C9)",
                    ))
                } else {
                    Ok(())
                }
            },
        }
    }
}

/// A natural person validates exactly when every one of its names carries
/// a legal name (rule C6) and every one of its addresses satisfies rule
/// C8.
pub proof fn lemma_natural_person_validation_ok(p: NaturalPerson)
    ensures
        (p.validation() is Ok) <==> ((forall|i: int|
            0 <= i < p.name.elements().len() ==> (#[trigger] p.name.elements()[i])
                .satisfies_c6()) && (forall|i: int|
            0 <= i < p.geographic_address.elements().len()
                ==> (#[trigger] p.geographic_address.elements()[i]).satisfies_c8())),
{
    crate::validation::lemma_seq_validation_ok(p.name.elements());
    crate::validation::lemma_seq_validation_ok(p.geographic_address.elements());
    assert forall|i: int| 0 <= i < p.name.elements().len() implies (((
    #[trigger] p.name.elements()[i]).validation() is Ok) <==> p.name.elements()[i]
        .satisfies_c6()) by {}
    assert forall|i: int| 0 <= i < p.geographic_address.elements().len() implies (((
    #[trigger] p.geographic_address.elements()[i]).validation() is Ok)
        <==> p.geographic_address.elements()[i].satisfies_c8()) by {}
}

/// A legal person validates exactly when rules C4, C7 and C11 hold, its
/// name carries a legal name (rule C5), every address satisfies rule C8,
/// and the rule C9 checks pass.
pub proof fn lemma_legal_person_validation_ok(p: LegalPerson)
    ensures
        (p.validation() is Ok) <==> (p.satisfies_c4() && p.satisfies_c7()
            && p.satisfies_c11() && p.name.satisfies_c5() && (forall|i: int|
            0 <= i < p.geographic_address.elements().len()
                ==> (#[trigger] p.geographic_address.elements()[i]).satisfies_c8())
            && p.c9_validation() is Ok),
{
    crate::validation::lemma_seq_validation_ok(p.geographic_address.elements());
    assert forall|i: int| 0 <= i < p.geographic_address.elements().len() implies (((
    #[trigger] p.geographic_address.elements()[i]).validation() is Ok)
        <==> p.geographic_address.elements()[i].satisfies_c8()) by {}
}

/// A person: either a natural person or a legal person.
#[derive(Clone, Debug, PartialEq, Eq)]
pub enum Person {
    /// A human being.
    NaturalPerson(NaturalPerson),
    /// A legal entity.
    LegalPerson(LegalPerson),
}

impl Person {
    /// The given name for a natural person; a legal person has none.
    pub fn first_name(&self) -> (r: Option<String>)
        ensures
            match self {
                Person::NaturalPerson(p) => match p.name.elements()[0].name_identifier
                    .elements()[0].secondary_identifier {
                    Some(s) => r matches Some(t) && t@ == s@,
                    None => r is None,
                },
                Person::LegalPerson(_) => r is None,
            },
    {
        match self {
            Person::NaturalPerson(p) => p.first_name(),
            Person::LegalPerson(_) => None,
        }
    }

    /// The family name for a natural person; the entity name for a legal
    /// person, which has no natural family name.
    pub fn last_name(&self) -> (r: String)
        ensures
            match self {
                Person::NaturalPerson(p) => r@ == p.name.elements()[0].name_identifier
                    .elements()[0].primary_identifier@,
                Person::LegalPerson(p) => r@ == p.name.name_identifier.elements()[0]
                    .legal_person_name@,
            },
    {
        match self {
            Person::NaturalPerson(p) => p.last_name(),
            Person::LegalPerson(p) => p.name(),
        }
    }

    /// The person's first address, if any is present.
    pub fn address(&self) -> (r: Option<&Address>)
        ensures
            ({
                let addresses = match self {
                    Person::NaturalPerson(p) => p.geographic_address.elements(),
                    Person::LegalPerson(p) => p.geographic_address.elements(),
                };
                match r {
                    Some(a) => addresses.len() > 0 && *a == addresses[0],
                    None => addresses.len() == 0,
                }
            }),
    {
        match self {
            Person::NaturalPerson(p) => p.address(),
            Person::LegalPerson(p) => p.address(),
        }
    }

    /// The person's customer identifier, if any is present.
    pub fn customer_identification(&self) -> (r: Option<String>)
        ensures
            ({
                let customer = match self {
                    Person::NaturalPerson(p) => p.customer_identification,
                    Person::LegalPerson(p) => p.customer_identification,
                };
                match customer {
                    Some(c) => r matches Some(t) && t@ == c@,
                    None => r is None,
                }
            }),
    {
        let customer = match self {
            Person::NaturalPerson(p) => &p.customer_identification,
            Person::LegalPerson(p) => &p.customer_identification,
        };
        match customer {
            Some(c) => Some(c.to_text()),
            None => None,
        }
    }

    /// The Legal Entity Identifier of a legal person's national
    /// identification; a natural person has none.
    pub fn lei(&self) -> (r: Result<Option<String>, Error>)
        ensures
            match self {
                Person::NaturalPerson(_) => r matches Ok(None),
                Person::LegalPerson(p) => match p.national_identification {
                    None => r matches Ok(None),
                    Some(ni) => {
                        if is_valid_lei(ni.national_identifier@) {
                            r matches Ok(Some(t)) && t@ == ni.national_identifier@
                        } else {
                            r is Err
                        }
                    },
                },
            },
    {
        match self {
            Person::NaturalPerson(_) => Ok(None),
            Person::LegalPerson(p) => p.lei(),
        }
    }
}

impl Validatable for Person {
    /// The outcome of the active variant's validation.
    open spec fn validation(&self) -> Result<(), Seq<char>> {
        match self {
            Person::NaturalPerson(p) => p.validation(),
            Person::LegalPerson(p) => p.validation(),
        }
    }

    fn validate(&self) -> (r: Result<(), ValidationError>) {
        match self {
            Person::NaturalPerson(p) => p.validate(),
            Person::LegalPerson(p) => p.validate(),
        }
    }
}

} // verus!
