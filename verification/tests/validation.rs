//! The business rules C1 through C11, each with a minimal fixture that
//! violates exactly that rule and a minimal fixture that satisfies it.

use ivms101::Address;
use ivms101::AddressTypeCode;
use ivms101::Beneficiary;
use ivms101::CountryCode;
use ivms101::Date;
use ivms101::DateAndPlaceOfBirth;
use ivms101::LegalPerson;
use ivms101::LegalPersonName;
use ivms101::LegalPersonNameID;
use ivms101::LegalPersonNameTypeCode;
use ivms101::NationalIdentification;
use ivms101::NationalIdentifierTypeCode;
use ivms101::NaturalPerson;
use ivms101::NaturalPersonName;
use ivms101::NaturalPersonNameID;
use ivms101::NaturalPersonNameTypeCode;
use ivms101::Originator;
use ivms101::Person;
use ivms101::RegistrationAuthority;
use ivms101::StringMax100;
use ivms101::StringMax16;
use ivms101::StringMax35;
use ivms101::StringMax50;
use ivms101::StringMax70;
use ivms101::Validatable;
use ivms101::ValidationError;
use ivms101::ZeroToN;

fn match_validation_error(res: Result<(), ValidationError>, code: u8) {
    let msg = res.unwrap_err().message().to_string();
    assert!(
        msg.ends_with(format!("(IVMS101 C{code})").as_str()),
        "unexpected message: {msg}"
    );
}

fn natural_person_name_id_mock() -> NaturalPersonNameID {
    NaturalPersonNameID {
        primary_identifier: StringMax100::try_new("Engels").unwrap(),
        secondary_identifier: Some(StringMax100::try_new("Friedrich").unwrap()),
        name_identifier_type: NaturalPersonNameTypeCode::LegalName,
    }
}

fn natural_person_name_mock() -> NaturalPersonName {
    NaturalPersonName {
        name_identifier: natural_person_name_id_mock().into(),
        local_name_identifier: None.into(),
        phonetic_name_identifier: None.into(),
    }
}

fn natural_person_mock() -> NaturalPerson {
    NaturalPerson {
        name: natural_person_name_mock().into(),
        geographic_address: None.into(),
        national_identification: None,
        customer_identification: None,
        date_and_place_of_birth: None,
        country_of_residence: None,
    }
}

fn legal_person_name_id_mock() -> LegalPersonNameID {
    LegalPersonNameID {
        legal_person_name: StringMax100::try_new("Company A").unwrap(),
        legal_person_name_identifier_type: LegalPersonNameTypeCode::Legal,
    }
}

fn legal_person_name_mock() -> LegalPersonName {
    LegalPersonName {
        name_identifier: legal_person_name_id_mock().into(),
        local_name_identifier: None.into(),
        phonetic_name_identifier: None.into(),
    }
}

fn legal_person_mock() -> LegalPerson {
    LegalPerson {
        name: legal_person_name_mock(),
        geographic_address: None.into(),
        customer_identification: None,
        national_identification: None,
        country_of_registration: None,
    }
}

fn national_identification_mock() -> NationalIdentification {
    NationalIdentification {
        national_identifier: StringMax35::try_new("id").unwrap(),
        national_identifier_type: NationalIdentifierTypeCode::Unspecified,
        country_of_issue: None,
        registration_authority: Some(RegistrationAuthority::try_new("RA000001").unwrap()),
    }
}

fn address_mock() -> Address {
    Address {
        address_type: AddressTypeCode::Geographic,
        department: None,
        sub_department: None,
        street_name: None,
        building_number: None,
        building_name: None,
        floor: None,
        post_box: None,
        room: None,
        post_code: None,
        town_name: StringMax35::try_new("Zurich").unwrap(),
        town_location_name: None,
        district_name: None,
        country_sub_division: None,
        address_line: Some(StringMax70::try_new("Main street").unwrap()).into(),
        country: CountryCode::try_new("CH").unwrap(),
    }
}

fn date_and_place_of_birth_mock() -> DateAndPlaceOfBirth {
    DateAndPlaceOfBirth {
        date_of_birth: Date::from_ymd(1946, 11, 5).unwrap(),
        place_of_birth: StringMax70::try_new("London").unwrap(),
    }
}

#[test]
fn test_c1_validation_error() {
    let originator = Originator {
        originator_persons: Person::NaturalPerson(natural_person_mock()).into(),
        account_number: None.into(),
    };
    match_validation_error(originator.validate(), 1);
}

#[test]
fn test_c1_validation_pass() {
    let mut person = natural_person_mock();
    person.geographic_address = Some(address_mock()).into();
    let originator = Originator {
        originator_persons: Person::NaturalPerson(person.clone()).into(),
        account_number: None.into(),
    };
    originator.validate().unwrap();

    person.geographic_address = None.into();
    person.customer_identification = Some(StringMax50::try_new("customer-id").unwrap());
    let originator = Originator {
        originator_persons: Person::NaturalPerson(person.clone()).into(),
        account_number: None.into(),
    };
    originator.validate().unwrap();

    person.customer_identification = None;
    person.national_identification = Some(national_identification_mock());
    let originator = Originator {
        originator_persons: Person::NaturalPerson(person.clone()).into(),
        account_number: None.into(),
    };
    originator.validate().unwrap();

    person.national_identification = None;
    person.date_and_place_of_birth = Some(date_and_place_of_birth_mock());
    let originator = Originator {
        originator_persons: Person::NaturalPerson(person).into(),
        account_number: None.into(),
    };
    originator.validate().unwrap();

    let beneficiary = Beneficiary {
        beneficiary_persons: Person::NaturalPerson(natural_person_mock()).into(),
        account_number: None.into(),
    };
    beneficiary.validate().unwrap();
}

#[test]
fn test_c2_validation_error() {
    let date = DateAndPlaceOfBirth {
        date_of_birth: Date::from_ymd(262142, 12, 31).unwrap(),
        place_of_birth: StringMax70::try_new("Bern").unwrap(),
    };
    match_validation_error(date.validate(), 2);
}

#[test]
fn test_c2_validation_pass() {
    let date = DateAndPlaceOfBirth {
        date_of_birth: Date::from_ymd(-262143, 1, 1).unwrap(),
        place_of_birth: StringMax70::try_new("Bern").unwrap(),
    };
    date.validate().unwrap();
}

// C3 is tested in test_invalid_country_code

#[test]
fn test_c4_validation_error() {
    let legal = legal_person_mock();
    match_validation_error(legal.validate(), 4);
}

#[test]
fn test_c4_validation_pass() {
    let mut legal = legal_person_mock();

    legal.geographic_address = Some(address_mock()).into();
    legal.validate().unwrap();
    legal.geographic_address = None.into();

    legal.customer_identification = Some(StringMax50::try_new("id").unwrap());
    legal.validate().unwrap();
    legal.customer_identification = None;

    legal.national_identification = Some(national_identification_mock());
    legal.validate().unwrap();
}

#[test]
fn test_c5_validation_error() {
    let mut legal = legal_person_name_mock();
    legal.name_identifier = LegalPersonNameID {
        legal_person_name: StringMax100::try_new("Company A").unwrap(),
        legal_person_name_identifier_type: LegalPersonNameTypeCode::Short,
    }
    .into();
    match_validation_error(legal.validate(), 5);
}

#[test]
fn test_c5_validation_pass() {
    let legal = legal_person_name_mock();
    legal.validate().unwrap();
}

#[test]
fn test_c6_validation_error() {
    let mut name = natural_person_name_mock();
    name.name_identifier = NaturalPersonNameID {
        primary_identifier: StringMax100::try_new("Karl").unwrap(),
        name_identifier_type: NaturalPersonNameTypeCode::Alias,
        secondary_identifier: None,
    }
    .into();
    match_validation_error(name.validate(), 6);
}

#[test]
fn test_c6_validation_pass() {
    let mut name = natural_person_name_mock();
    name.name_identifier = NaturalPersonNameID {
        primary_identifier: StringMax100::try_new("Emil Steinberger").unwrap(),
        secondary_identifier: None,
        name_identifier_type: NaturalPersonNameTypeCode::LegalName,
    }
    .into();
    name.validate().unwrap();
}

#[test]
fn test_c7_validation_error() {
    let mut person = legal_person_mock();
    let mut id = national_identification_mock();

    for code in [
        NationalIdentifierTypeCode::AlienRegistrationNumber,
        NationalIdentifierTypeCode::PassportNumber,
        NationalIdentifierTypeCode::DriverLicenseNumber,
        NationalIdentifierTypeCode::ForeignInvestmentIdentityNumber,
        NationalIdentifierTypeCode::IdentityCardNumber,
        NationalIdentifierTypeCode::SocialSecurityNumber,
    ] {
        id.national_identifier_type = code;
        person.national_identification = Some(id.clone());
        match_validation_error(person.validate(), 7);
    }
}

#[test]
fn test_c7_validation_pass() {
    let mut person = legal_person_mock();

    for code in [
        NationalIdentifierTypeCode::LegalEntityIdentifier,
        NationalIdentifierTypeCode::Unspecified,
        NationalIdentifierTypeCode::RegistrationAuthorityIdentifier,
        NationalIdentifierTypeCode::TaxIdentificationNumber,
    ] {
        let mut id = national_identification_mock();
        id.national_identifier_type = code;
        if code == NationalIdentifierTypeCode::LegalEntityIdentifier {
            // Use a valid LEI to make C11 pass
            id.national_identifier = StringMax35::try_new("2594007XIACKNMUAW223").unwrap();
            // Make C9 pass
            id.registration_authority = None;
        }
        person.national_identification = Some(id.clone());
        person.validate().unwrap();
    }
}

#[test]
fn test_c8_validation_error() {
    let mut addr = address_mock();
    addr.address_line = None.into();
    match_validation_error(addr.validate(), 8);

    addr.street_name = Some(StringMax70::try_new("main street").unwrap());
    match_validation_error(addr.validate(), 8);
}

#[test]
fn test_c8_validation_pass() {
    let mut addr = address_mock();
    addr.validate().unwrap();

    addr.address_line = None.into();
    addr.street_name = Some(StringMax70::try_new("main street").unwrap());
    addr.building_name = Some(StringMax35::try_new("main building").unwrap());
    addr.validate().unwrap();

    addr.building_name = None;
    addr.building_number = Some(StringMax16::try_new("12").unwrap());
    addr.validate().unwrap();
}

#[test]
fn test_c9_validation_error() {
    let mut ni = national_identification_mock();
    ni.country_of_issue = Some(CountryCode::try_new("CH").unwrap());
    let mut person = legal_person_mock();
    person.national_identification = Some(ni.clone());
    match_validation_error(person.validate(), 9);

    ni.national_identifier_type = NationalIdentifierTypeCode::LegalEntityIdentifier;
    // Use a valid LEI to make C11 pass
    ni.national_identifier = StringMax35::try_new("2594007XIACKNMUAW223").unwrap();
    person.national_identification = Some(ni.clone());
    match_validation_error(person.validate(), 9);

    ni.national_identifier_type = NationalIdentifierTypeCode::Unspecified;
    ni.registration_authority = None;
    person.national_identification = Some(ni);
    match_validation_error(person.validate(), 9);
}

#[test]
fn test_c9_validation_pass() {
    let mut person = legal_person_mock();
    person.customer_identification = Some(StringMax50::try_new("id").unwrap());
    person.validate().unwrap();

    let mut ni = national_identification_mock();
    person.national_identification = Some(ni.clone());
    person.validate().unwrap();

    ni.registration_authority = None;
    ni.national_identifier_type = NationalIdentifierTypeCode::LegalEntityIdentifier;
    // Use a valid LEI to make C11 pass
    ni.national_identifier = StringMax35::try_new("2594007XIACKNMUAW223").unwrap();
    person.national_identification = Some(ni);
    person.validate().unwrap();
}

// C10 is tested in test_registration_authority_invalid_value

#[test]
fn test_c11_validation_error() {
    let mut person = legal_person_mock();
    let mut ni = national_identification_mock();
    ni.registration_authority = None;
    ni.national_identifier_type = NationalIdentifierTypeCode::LegalEntityIdentifier;
    ni.national_identifier = StringMax35::try_new("invalid-lei").unwrap();
    person.national_identification = Some(ni);
    match_validation_error(person.validate(), 11);
}

#[test]
fn test_c11_validation_pass() {
    let mut person = legal_person_mock();
    let mut ni = national_identification_mock();
    ni.registration_authority = None;
    ni.national_identifier_type = NationalIdentifierTypeCode::LegalEntityIdentifier;
    ni.national_identifier = StringMax35::try_new("2594007XIACKNMUAW223").unwrap();
    person.national_identification = Some(ni);
    person.validate().unwrap();
}

#[test]
fn test_natural_person_name() {
    let mut person = natural_person_mock();
    assert_eq!(person.first_name(), Some("Friedrich".into()));
    assert_eq!(person.last_name(), "Engels");
    let mut name = natural_person_name_id_mock();
    name.secondary_identifier = None;
    person.name = NaturalPersonName {
        name_identifier: name.into(),
        local_name_identifier: None.into(),
        phonetic_name_identifier: None.into(),
    }
    .into();
    assert_eq!(person.first_name(), None);
    assert_eq!(person.last_name(), "Engels".to_string());
}

#[test]
fn test_legal_person_name() {
    assert_eq!(legal_person_mock().name(), "Company A");
}

#[test]
fn test_address_display() {
    let person = natural_person_mock();
    assert_eq!(person.address(), None);
    let mut address = address_mock();
    assert_eq!(
        address.display(),
        "Main street, Zurich, Switzerland".to_string()
    );
    address.post_code = Some(StringMax16::try_new("8000").unwrap());
    assert_eq!(
        address.display(),
        "Main street, 8000 Zurich, Switzerland".to_string()
    );
    address.address_line = vec![
        StringMax70::try_new("line 1").unwrap(),
        StringMax70::try_new("line 2").unwrap(),
    ]
    .into();
    assert_eq!(
        address.display(),
        "line 1, line 2, 8000 Zurich, Switzerland".to_string()
    );
    address.address_line = None.into();
    assert_eq!(address.display(), "8000 Zurich, Switzerland".to_string());
    address.street_name = Some(StringMax70::try_new("Main street").unwrap());
    address.building_number = Some(StringMax16::try_new("12").unwrap());
    assert_eq!(
        address.display(),
        "Main street 12, 8000 Zurich, Switzerland".to_string()
    );
}

#[test]
fn test_validation_stops_at_first_failure() {
    // A legal person breaking C4 and C5 at once reports C4, the first rule
    // in the traversal order.
    let mut legal = legal_person_mock();
    legal.name.name_identifier = LegalPersonNameID {
        legal_person_name: StringMax100::try_new("Company A").unwrap(),
        legal_person_name_identifier_type: LegalPersonNameTypeCode::Trading,
    }
    .into();
    match_validation_error(legal.validate(), 4);
    // With C4 satisfied, the same person reports C5.
    legal.customer_identification = Some(StringMax50::try_new("id").unwrap());
    match_validation_error(legal.validate(), 5);
}
