//! Country codes (rule C3) and registration-authority codes (rule C10):
//! shape checks at construction, semantic checks at validation.

use ivms101::country;
use ivms101::CountryCode;
use ivms101::Error;
use ivms101::RegistrationAuthority;
use ivms101::Validatable;
use ivms101::ValidationError;

fn match_validation_error(res: Result<(), ValidationError>, code: u8) {
    let msg = res.unwrap_err().message().to_string();
    assert!(
        msg.ends_with(format!("(IVMS101 C{code})").as_str()),
        "unexpected message: {msg}"
    );
}

#[test]
fn test_country_code() {
    let de = CountryCode::try_new("DE").unwrap();
    assert_eq!(de.as_str(), "DE");
    de.validate().unwrap();
}

#[test]
fn country_codes_test_country_code_unknown_placeholder() {
    CountryCode::try_new("XX").unwrap();
}

#[test]
fn messages_test_country_code_unknown_placeholder() {
    let cc = CountryCode::try_new("XX").unwrap();
    cc.validate().unwrap();
}

#[test]
fn test_country_code_invalid_length() {
    let one = CountryCode::try_new("C");
    assert!(matches!(one, Err(Error::InvalidCountryCode(_))));
    assert_eq!(one.unwrap_err().message(), "C");
    let three = CountryCode::try_new("CHE");
    assert!(matches!(three, Err(Error::InvalidCountryCode(_))));
    assert_eq!(three.unwrap_err().message(), "CHE");
}

#[test]
fn country_codes_test_invalid_country_code() {
    // "RR" has the right shape, so it is accepted at construction; it is
    // not a recognized code, so rule C3 rejects it at validation time.
    let cc = CountryCode::try_new("RR").unwrap();
    match_validation_error(cc.validate(), 3);
}

#[test]
fn messages_test_invalid_country_code() {
    let invalid = CountryCode::try_new("RR").unwrap();
    match_validation_error(invalid.validate(), 3);
}

#[test]
fn test_registration_authority_invalid_length() {
    assert!(RegistrationAuthority::try_new("RA00009").is_err());
    assert!(RegistrationAuthority::try_new("RA0000945").is_err());
}

#[test]
fn test_registration_authority_invalid_value() {
    let ra = RegistrationAuthority::try_new("RA100094").unwrap();
    match_validation_error(ra.validate(), 10);
}

#[test]
fn test_registration_authority() {
    let ra = RegistrationAuthority::try_new("RA000094").unwrap();
    assert_eq!(ra.as_str(), "RA000094");
    ra.validate().unwrap();
}

#[test]
fn test_registration_authority_reserved_entries() {
    RegistrationAuthority::try_new("RA888888")
        .unwrap()
        .validate()
        .unwrap();
    RegistrationAuthority::try_new("RA999999")
        .unwrap()
        .validate()
        .unwrap();
    let zero = RegistrationAuthority::try_new("RA000000").unwrap();
    match_validation_error(zero.validate(), 10);
    let letters = RegistrationAuthority::try_new("RAabcdef").unwrap();
    match_validation_error(letters.validate(), 10);
}

#[test]
fn test_country_name_lookup() {
    assert_eq!(country("ch"), "Switzerland");
    assert_eq!(country("de"), "Germany");
    assert_eq!(country("zw"), "Zimbabwe");
    // An unknown code is echoed back.
    assert_eq!(country("zz"), "zz");
    assert_eq!(country("nowhere"), "nowhere");
}

#[test]
fn test_format_address() {
    assert_eq!(
        ivms101::format_address(
            Some("Main street"),
            Some("12"),
            None,
            Some("8000"),
            "Zurich",
            "CH"
        ),
        "Main street 12, 8000 Zurich, Switzerland"
    );
    assert_eq!(
        ivms101::format_address(None, None, Some("Postfach 123"), None, "Basel", "XX"),
        "Postfach 123, Basel, xx"
    );
    assert_eq!(
        ivms101::format_address(None, Some("12"), None, None, "Bern", "ch"),
        "Bern, Switzerland"
    );
}
