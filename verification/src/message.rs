//! Message assembly: the originator, beneficiary and VASP records, and the
//! root message that carries them. The originator enforces rule C1 on each
//! of its natural persons before the person's own rules run.

use vstd::prelude::*;
use crate::codes::LegalPersonNameTypeCode;
use crate::codes::NationalIdentifierTypeCode;
use crate::containers::OneToN;
use crate::containers::ZeroToN;
use crate::error::Error;
use crate::error::ValidationError;
use crate::lookups::is_valid_lei;
use crate::lookups::valid_lei;
use crate::names::LegalPersonName;
use crate::names::LegalPersonNameID;
use crate::national_identification::NationalIdentification;
use crate::persons::LegalPerson;
use crate::persons::NaturalPerson;
use crate::persons::Person;
use crate::strings::StringMax100;
use crate::strings::StringMax35;
use crate::validation::c1_message;
use crate::validation::Validatable;

verus! {

/// Whether a natural person lacks every anchor that rule C1 asks for: a
/// geographic address, a customer identifier, a national identification,
/// or a date and place of birth.
pub open spec fn lacks_c1_anchor(p: NaturalPerson) -> bool {
    p.geographic_address.elements().len() == 0 && p.customer_identification is None
        && p.national_identification is None && p.date_and_place_of_birth is None
}

/// The outcome an originator assigns to one of its persons: rule C1 first
/// for a natural person, then the person's own rules.
pub open spec fn originator_person_validation(p: Person) -> Result<(), Seq<char>> {
    match p {
        Person::NaturalPerson(np) => {
            if lacks_c1_anchor(np) {
                Err(c1_message())
            } else {
                np.validation()
            }
        },
        Person::LegalPerson(lp) => lp.validation(),
    }
}

/// The outcome of validating an originator's persons from position `i` on.
pub open spec fn originator_validation_from(s: Seq<Person>, i: int) -> Result<(), Seq<char>>
    decreases s.len() - i,
{
    if i < 0 || i >= s.len() {
        Ok(())
    } else {
        match originator_person_validation(s[i]) {
            Err(m) => Err(m),
            Ok(()) => originator_validation_from(s, i + 1),
        }
    }
}

/// An originator's persons validate exactly when every natural person
/// among them carries a rule C1 anchor and every person passes its own
/// rules.
pub proof fn lemma_originator_validation_ok(s: Seq<Person>)
    ensures
        (originator_validation_from(s, 0) is Ok) <==> (forall|i: int|
            0 <= i < s.len() ==> (#[trigger] originator_person_validation(s[i])) is Ok),
{
    lemma_originator_validation_from_ok(s, 0);
}

proof fn lemma_originator_validation_from_ok(s: Seq<Person>, i: int)
    requires
        0 <= i <= s.len(),
    ensures
        (originator_validation_from(s, i) is Ok) <==> (forall|j: int|
            i <= j < s.len() ==> (#[trigger] originator_person_validation(s[j])) is Ok),
    decreases s.len() - i,
{
    if i < s.len() {
        lemma_originator_validation_from_ok(s, i + 1);
    }
}

/// The party that originates the transfer.
#[derive(Clone, Debug, PartialEq, Eq)]
pub struct Originator {
    /// The originating persons; at least one is required.
    pub originator_persons: OneToN<Person>,
    /// The originator's account numbers, if any.
    pub account_number: ZeroToN<StringMax100>,
}

impl Originator {
    /// Wrap a single person as the originator, with no account number.
    pub fn new(person: Person) -> (r: Result<Self, Error>)
        ensures
            r matches Ok(o) && o == (Originator {
                originator_persons: OneToN::One(person),
                account_number: ZeroToN::Absent,
            }),
    {
        Ok(Originator {
            originator_persons: OneToN::One(person),
            account_number: ZeroToN::Absent,
        })
    }

    /// The first originating person.
    pub fn originator_person(&self) -> (r: &Person)
        ensures
            *r == self.originator_persons.elements()[0],
    {
        self.originator_persons.first()
    }

    /// The first person's given name, if any: a natural person's secondary
    /// name identifier; a legal person has none.
    pub fn first_name(&self) -> (r: Option<String>)
        ensures
            match self.originator_persons.elements()[0] {
                Person::NaturalPerson(p) => match p.name.elements()[0].name_identifier
                    .elements()[0].secondary_identifier {
                    Some(s) => r matches Some(t) && t@ == s@,
                    None => r is None,
                },
                Person::LegalPerson(_) => r is None,
            },
    {
        self.originator_persons.first().first_name()
    }

    /// The first person's family or entity name.
    pub fn last_name(&self) -> (r: String)
        ensures
            match self.originator_persons.elements()[0] {
                Person::NaturalPerson(p) => r@ == p.name.elements()[0].name_identifier
                    .elements()[0].primary_identifier@,
                Person::LegalPerson(p) => r@ == p.name.name_identifier.elements()[0]
                    .legal_person_name@,
            },
    {
        self.originator_persons.first().last_name()
    }

    /// The first person's first address, if any.
    pub fn address(&self) -> (r: Option<&crate::address::Address>)
        ensures
            ({
                let addresses = match self.originator_persons.elements()[0] {
                    Person::NaturalPerson(p) => p.geographic_address.elements(),
                    Person::LegalPerson(p) => p.geographic_address.elements(),
                };
                match r {
                    Some(a) => addresses.len() > 0 && *a == addresses[0],
                    None => addresses.len() == 0,
                }
            }),
    {
        self.originator_persons.first().address()
    }

    /// The first person's customer identifier, if any.
    pub fn customer_identification(&self) -> (r: Option<String>)
        ensures
            ({
                let customer = match self.originator_persons.elements()[0] {
                    Person::NaturalPerson(p) => p.customer_identification,
                    Person::LegalPerson(p) => p.customer_identification,
                };
                match customer {
                    Some(c) => r matches Some(t) && t@ == c@,
                    None => r is None,
                }
            }),
    {
        self.originator_persons.first().customer_identification()
    }
}

impl Validatable for Originator {
    /// Each person in container order: rule C1 for natural persons, then
    /// the person's own rules; the first failure wins.
    open spec fn validation(&self) -> Result<(), Seq<char>> {
        originator_validation_from(self.originator_persons.elements(), 0)
    }

    fn validate(&self) -> (r: Result<(), ValidationError>) {
        let ghost s = self.originator_persons.elements();
        let n = self.originator_persons.len();
        let mut i: usize = 0;
        while i < n
            invariant
                n == s.len(),
                i <= n,
                s == self.originator_persons.elements(),
                originator_validation_from(s, 0) == originator_validation_from(s, i as int),
            decreases n - i,
        {
            let person = self.originator_persons.get(i);
            if let Person::NaturalPerson(np) = person {
                if np.geographic_address.is_empty() && np.customer_identification.is_none()
                    && np.national_identification.is_none()
                    && np.date_and_place_of_birth.is_none() {
                    return Err(ValidationError::new(
                        "Natural person: one of 1) geographic address 2) customer id 3) national id 4) date and place of birth is required (IVMS101 C1)",
                    ));
                }
            }
            let outcome = person.validate();
            if let Err(e) = outcome {
                return Err(e);
            }
            i += 1;
        }
        Ok(())
    }
}

/// The party that receives the transfer.
#[derive(Clone, Debug, PartialEq, Eq)]
pub struct Beneficiary {
    /// The receiving persons; at least one is required.
    pub beneficiary_persons: OneToN<Person>,
    /// The beneficiary's account numbers, if any.
    pub account_number: ZeroToN<StringMax100>,
}

impl Beneficiary {
    /// Wrap a single person as the beneficiary, with an optional account
    /// number; fails with a shape error when the account number exceeds
    /// its bound.
    pub fn new(person: Person, account_number: Option<&str>) -> (r: Result<Self, Error>)
        ensures
            r is Ok <==> (match account_number {
                Some(a) => a@.len() <= 100,
                None => true,
            }),
            r matches Ok(b) ==> {
                &&& b.beneficiary_persons == OneToN::One(person)
                &&& (match account_number {
                    Some(a) => b.account_number matches ZeroToN::One(v) && v@ == a@,
                    None => b.account_number is Absent,
                })
            },
    {
        let account = match account_number {
            Some(a) => match StringMax100::try_new(a) {
                Ok(v) => ZeroToN::One(v),
                Err(e) => return Err(e),
            },
            None => ZeroToN::Absent,
        };
        Ok(Beneficiary { beneficiary_persons: OneToN::One(person), account_number: account })
    }

    /// The first person's given name, if any: a natural person's secondary
    /// name identifier; a legal person has none.
    pub fn first_name(&self) -> (r: Option<String>)
        ensures
            match self.beneficiary_persons.elements()[0] {
                Person::NaturalPerson(p) => match p.name.elements()[0].name_identifier
                    .elements()[0].secondary_identifier {
                    Some(s) => r matches Some(t) && t@ == s@,
                    None => r is None,
                },
                Person::LegalPerson(_) => r is None,
            },
    {
        self.beneficiary_persons.first().first_name()
    }

    /// The first person's family or entity name.
    pub fn last_name(&self) -> (r: String)
        ensures
            match self.beneficiary_persons.elements()[0] {
                Person::NaturalPerson(p) => r@ == p.name.elements()[0].name_identifier
                    .elements()[0].primary_identifier@,
                Person::LegalPerson(p) => r@ == p.name.name_identifier.elements()[0]
                    .legal_person_name@,
            },
    {
        self.beneficiary_persons.first().last_name()
    }
}

impl Validatable for Beneficiary {
    /// Each person's own rules, in container order; rule C1 binds the
    /// originator only.
    open spec fn validation(&self) -> Result<(), Seq<char>> {
        crate::validation::seq_validation(self.beneficiary_persons.elements())
    }

    fn validate(&self) -> (r: Result<(), ValidationError>) {
        crate::validation::validate_each_one_to_n(&self.beneficiary_persons)
    }
}

/// The virtual-asset service provider acting for the originator. It is
/// identified by its Legal Entity Identifier and carries no geographic
/// address by design.
#[derive(Clone, Debug, PartialEq, Eq)]
pub struct OriginatingVASP {
    /// The provider, as a legal person.
    pub originating_vasp: Person,
}

impl OriginatingVASP {
    /// Build the provider's record from its name and its Legal Entity
    /// Identifier; fails with a shape error when the name exceeds its
    /// bound or the LEI does not validate.
    pub fn new(name: &str, lei: &str) -> (r: Result<Self, Error>)
        ensures
            r is Ok <==> (name@.len() <= 100 && is_valid_lei(lei@)),
            r matches Ok(v) ==> (v.originating_vasp matches Person::LegalPerson(p) && {
                &&& p.name.name_identifier.elements().len() == 1
                &&& p.name.name_identifier.elements()[0].legal_person_name@ == name@
                &&& p.name.name_identifier.elements()[0].legal_person_name_identifier_type
                    == LegalPersonNameTypeCode::Legal
                &&& p.name.local_name_identifier is Absent
                &&& p.name.phonetic_name_identifier is Absent
                &&& p.geographic_address is Absent
                &&& p.customer_identification is None
                &&& (p.national_identification matches Some(ni) && {
                    &&& ni.national_identifier@ == lei@
                    &&& ni.national_identifier_type
                        == NationalIdentifierTypeCode::LegalEntityIdentifier
                    &&& ni.country_of_issue is None
                    &&& ni.registration_authority is None
                })
                &&& p.country_of_registration is None
            }),
    {
        let legal_name = match StringMax100::try_new(name) {
            Ok(v) => v,
            Err(e) => return Err(e),
        };
        if !valid_lei(lei) {
            return Err(Error::shape("the Legal Entity Identifier does not validate"));
        }
        let identifier = match StringMax35::try_new(lei) {
            Ok(v) => v,
            Err(e) => return Err(e),
        };
        Ok(OriginatingVASP {
            originating_vasp: Person::LegalPerson(LegalPerson {
                name: LegalPersonName {
                    name_identifier: OneToN::One(LegalPersonNameID {
                        legal_person_name: legal_name,
                        legal_person_name_identifier_type: LegalPersonNameTypeCode::Legal,
                    }),
                    local_name_identifier: ZeroToN::Absent,
                    phonetic_name_identifier: ZeroToN::Absent,
                },
                geographic_address: ZeroToN::Absent,
                customer_identification: None,
                national_identification: Some(NationalIdentification {
                    national_identifier: identifier,
                    national_identifier_type: NationalIdentifierTypeCode::LegalEntityIdentifier,
                    country_of_issue: None,
                    registration_authority: None,
                }),
                country_of_registration: None,
            }),
        })
    }

    /// The provider's Legal Entity Identifier, if one is recorded and
    /// validates.
    pub fn lei(&self) -> (r: Result<Option<String>, Error>) {
        self.originating_vasp.lei()
    }
}

impl Validatable for OriginatingVASP {
    /// The provider person's own rules.
    open spec fn validation(&self) -> Result<(), Seq<char>> {
        self.originating_vasp.validation()
    }

    fn validate(&self) -> (r: Result<(), ValidationError>) {
        self.originating_vasp.validate()
    }
}

/// The virtual-asset service provider acting for the beneficiary.
#[derive(Clone, Debug, PartialEq, Eq)]
pub struct BeneficiaryVASP {
    /// The provider, as a person, if known.
    pub beneficiary_vasp: Option<Person>,
}

impl Validatable for BeneficiaryVASP {
    /// The provider person's own rules, when one is recorded.
    open spec fn validation(&self) -> Result<(), Seq<char>> {
        match self.beneficiary_vasp {
            None => Ok(()),
            Some(p) => p.validation(),
        }
    }

    fn validate(&self) -> (r: Result<(), ValidationError>) {
        match &self.beneficiary_vasp {
            None => Ok(()),
            Some(p) => p.validate(),
        }
    }
}

/// An intermediary virtual-asset service provider in the transfer chain.
/// Its sequential-integrity rule (C12) needs the surrounding message chain,
/// which a single message cannot see; only the person's own rules run here.
#[derive(Clone, Debug, PartialEq, Eq)]
pub struct IntermediaryVASP {
    /// The provider, as a person.
    pub intermediary_vasp: Person,
    /// The provider's position in the transfer chain.
    pub sequence: u32,
}

impl Validatable for IntermediaryVASP {
    /// The provider person's own rules; the sequence number is not
    /// checked, as its rule needs context outside the message.
    open spec fn validation(&self) -> Result<(), Seq<char>> {
        self.intermediary_vasp.validation()
    }

    fn validate(&self) -> (r: Result<(), ValidationError>) {
        self.intermediary_vasp.validate()
    }
}

/// The root message: every party is optional, and validation descends only
/// into the parties that are present, in declaration order.
#[derive(Clone, Debug, PartialEq, Eq)]
pub struct IVMS101 {
    /// The originating party, if present.
    pub originator: Option<Originator>,
    /// The receiving party, if present.
    pub beneficiary: Option<Beneficiary>,
    /// The originator's service provider, if present.
    pub originating_vasp: Option<OriginatingVASP>,
    /// The beneficiary's service provider, if present.
    pub beneficiary_vasp: Option<BeneficiaryVASP>,
}

impl Validatable for IVMS101 {
    /// The present parties' outcomes in declaration order; the first
    /// failure wins.
    open spec fn validation(&self) -> Result<(), Seq<char>> {
        match (match self.originator {
            Some(o) => o.validation(),
            None => Ok(()),
        }) {
            Err(m) => Err(m),
            Ok(()) => match (match self.beneficiary {
                Some(b) => b.validation(),
                None => Ok(()),
            }) {
                Err(m) => Err(m),
                Ok(()) => match (match self.originating_vasp {
                    Some(ov) => ov.validation(),
                    None => Ok(()),
                }) {
                    Err(m) => Err(m),
                    Ok(()) => match self.beneficiary_vasp {
                        Some(bv) => bv.validation(),
                        None => Ok(()),
                    },
                },
            },
        }
    }

    fn validate(&self) -> (r: Result<(), ValidationError>) {
        if let Some(o) = &self.originator {
            if let Err(e) = o.validate() {
                return Err(e);
            }
        }
        if let Some(b) = &self.beneficiary {
            if let Err(e) = b.validate() {
                return Err(e);
            }
        }
        if let Some(ov) = &self.originating_vasp {
            if let Err(e) = ov.validate() {
                return Err(e);
            }
        }
        if let Some(bv) = &self.beneficiary_vasp {
            if let Err(e) = bv.validate() {
                return Err(e);
            }
        }
        Ok(())
    }
}

} // verus!
