//! The builder functions and the read-only accessors, including the
//! scenarios the standard spells out: a bare natural person fails rule C1
//! until an address is added, and a legal person's record is built around
//! its Legal Entity Identifier.

use ivms101::Address;
use ivms101::Beneficiary;
use ivms101::ConstrainedString;
use ivms101::Date;
use ivms101::Error;
use ivms101::LegalPerson;
use ivms101::NaturalPerson;
use ivms101::OriginatingVASP;
use ivms101::Originator;
use ivms101::Person;
use ivms101::StringMax35;
use ivms101::Validatable;
use ivms101::ValidationError;

fn match_validation_error(res: Result<(), ValidationError>, code: u8) {
    let msg = res.unwrap_err().message().to_string();
    assert!(
        msg.ends_with(format!("(IVMS101 C{code})").as_str(),),
        "unexpected message: {msg}"
    );
}

const VALID_LEI: &str = "2594007XIACKNMUAW223";

#[test]
fn test_max_string() {
    let max4 = ConstrainedString::<4>::try_new("0123").unwrap();
    assert_eq!(max4.as_str(), "0123");
    assert!(ConstrainedString::<4>::try_new("01234").is_err());
    assert!(ConstrainedString::<4>::try_new("").is_ok());
    // At the exact bound the value is accepted.
    assert!(StringMax35::try_new("0123456789012345678901234567890123_").is_ok());
    assert!(StringMax35::try_new("0123456789012345678901234567890123_x").is_err());
}

#[test]
fn test_natural_person_new() {
    let person = NaturalPerson::new("Friedrich", "Engels", None, None).unwrap();
    assert_eq!(person.first_name(), Some("Friedrich".to_string()));
    assert_eq!(person.last_name(), "Engels");
    assert!(person.address().is_none());

    let long = "x".repeat(101);
    assert!(NaturalPerson::new(&long, "Engels", None, None).is_err());
    assert!(NaturalPerson::new("Friedrich", &long, None, None).is_err());
    let long_customer = "x".repeat(51);
    assert!(NaturalPerson::new("Friedrich", "Engels", Some(&long_customer), None).is_err());
}

#[test]
fn test_originator_scenario() {
    // A natural person without address, ids or birth date fails rule C1.
    let person = NaturalPerson::new("Friedrich", "Engels", None, None).unwrap();
    let originator = Originator::new(Person::NaturalPerson(person)).unwrap();
    match_validation_error(originator.validate(), 1);

    // The same person with a geographic address passes.
    let address = Address::new(
        Some("Main street"),
        Some("12"),
        None,
        "8000",
        "Zurich",
        "CH",
    )
    .unwrap();
    let person = NaturalPerson::new("Friedrich", "Engels", None, Some(address)).unwrap();
    let originator = Originator::new(Person::NaturalPerson(person)).unwrap();
    originator.validate().unwrap();
    assert_eq!(originator.first_name(), Some("Friedrich".to_string()));
    assert_eq!(originator.last_name(), "Engels");
    assert!(originator.address().is_some());
    assert_eq!(originator.customer_identification(), None);
}

#[test]
fn test_address_new() {
    let address = Address::new(
        Some("Main street"),
        Some("12"),
        None,
        "8000",
        "Zurich",
        "CH",
    )
    .unwrap();
    assert_eq!(address.town_name.as_str(), "Zurich");
    assert_eq!(address.country.as_str(), "CH");
    address.validate().unwrap();

    // An address built with an address line alone also satisfies C8.
    let lined = Address::new(None, None, Some("Main street 12"), "8000", "Zurich", "CH").unwrap();
    lined.validate().unwrap();

    // An address with neither lines nor street fails C8.
    let bare = Address::new(None, None, None, "8000", "Zurich", "CH").unwrap();
    match_validation_error(bare.validate(), 8);

    // Shape errors: an overlong part or a malformed country code.
    let long = "x".repeat(71);
    assert!(Address::new(Some(&long), None, None, "8000", "Zurich", "CH").is_err());
    let country_err = Address::new(None, None, None, "8000", "Zurich", "CHE");
    assert!(matches!(country_err, Err(Error::InvalidCountryCode(_))));
}

#[test]
fn test_legal_person_new() {
    let address = Address::new(
        Some("Main street"),
        Some("12"),
        None,
        "8000",
        "Zurich",
        "CH",
    )
    .unwrap();
    let person = LegalPerson::new("Company A", "customer-1", address.clone(), VALID_LEI).unwrap();
    assert_eq!(person.name(), "Company A");
    assert!(person.address().is_some());
    assert_eq!(person.lei().unwrap(), Some(VALID_LEI.to_string()));

    assert!(LegalPerson::new("Company A", "customer-1", address, "invalid-lei").is_err());
}

#[test]
fn test_originating_vasp_new() {
    let vasp = OriginatingVASP::new("Example VASP AG", VALID_LEI).unwrap();
    vasp.validate().unwrap();
    assert_eq!(vasp.lei().unwrap(), Some(VALID_LEI.to_string()));

    assert!(OriginatingVASP::new("Example VASP AG", "invalid-lei").is_err());
    let long = "x".repeat(101);
    assert!(OriginatingVASP::new(&long, VALID_LEI).is_err());
}

#[test]
fn test_beneficiary_new() {
    let person = NaturalPerson::new("Friedrich", "Engels", None, None).unwrap();
    let beneficiary =
        Beneficiary::new(Person::NaturalPerson(person.clone()), Some("acct-1")).unwrap();
    assert_eq!(beneficiary.first_name(), Some("Friedrich".to_string()));
    assert_eq!(beneficiary.last_name(), "Engels");

    let long = "x".repeat(101);
    assert!(Beneficiary::new(Person::NaturalPerson(person), Some(&long)).is_err());
}

#[test]
fn test_person_accessors() {
    let natural = Person::NaturalPerson(
        NaturalPerson::new("Friedrich", "Engels", Some("customer-9"), None).unwrap(),
    );
    assert_eq!(natural.first_name(), Some("Friedrich".to_string()));
    assert_eq!(natural.last_name(), "Engels");
    assert_eq!(natural.customer_identification(), Some("customer-9".to_string()));
    assert_eq!(natural.lei().unwrap(), None);

    let address = Address::new(Some("Main street"), Some("12"), None, "8000", "Zurich", "CH")
        .unwrap();
    let legal =
        Person::LegalPerson(LegalPerson::new("Company A", "c-1", address, VALID_LEI).unwrap());
    assert_eq!(legal.first_name(), None);
    assert_eq!(legal.last_name(), "Company A");
    assert_eq!(legal.customer_identification(), Some("c-1".to_string()));
    assert_eq!(legal.lei().unwrap(), Some(VALID_LEI.to_string()));
}

#[test]
fn test_date_from_ymd() {
    let date = Date::from_ymd(2018, 11, 5).unwrap();
    assert_eq!(date.year, 2018);
    assert_eq!(date.month, 11);
    assert_eq!(date.day, 5);
    assert!(Date::from_ymd(2018, 0, 5).is_none());
    assert!(Date::from_ymd(2018, 13, 5).is_none());
    assert!(Date::from_ymd(2018, 11, 0).is_none());
    assert!(Date::from_ymd(2018, 11, 32).is_none());
}

#[test]
fn test_error_messages() {
    let shape = ConstrainedString::<4>::try_new("01234").unwrap_err();
    assert!(matches!(shape, Error::ValidationError(_)));
    assert!(!shape.message().is_empty());
}
