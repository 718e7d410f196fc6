//! The wire tags of the enumeration codes and the calendar-date text form.

use ivms101::AddressTypeCode;
use ivms101::Date;
use ivms101::LegalPersonNameTypeCode;
use ivms101::NationalIdentifierTypeCode;
use ivms101::NaturalPersonNameTypeCode;

#[test]
fn test_type_codes() {
    assert_eq!(NaturalPersonNameTypeCode::Alias.tag(), "ALIA");
    assert_eq!(LegalPersonNameTypeCode::Legal.tag(), "LEGL");
    assert_eq!(AddressTypeCode::Business.tag(), "BIZZ");
    assert_eq!(
        NationalIdentifierTypeCode::AlienRegistrationNumber.tag(),
        "ARNU"
    );

    assert_eq!(
        NaturalPersonNameTypeCode::from_tag("ALIA"),
        Some(NaturalPersonNameTypeCode::Alias)
    );
    assert_eq!(
        LegalPersonNameTypeCode::from_tag("TRAD"),
        Some(LegalPersonNameTypeCode::Trading)
    );
    assert_eq!(
        AddressTypeCode::from_tag("HOME"),
        Some(AddressTypeCode::Residential)
    );
    assert_eq!(
        NationalIdentifierTypeCode::from_tag("LEIX"),
        Some(NationalIdentifierTypeCode::LegalEntityIdentifier)
    );
    assert_eq!(AddressTypeCode::from_tag("ROOF"), None);
    assert_eq!(NaturalPersonNameTypeCode::from_tag("legl"), None);
}

#[test]
fn test_date() {
    let date = Date::from_ymd(2018, 11, 5).unwrap();
    assert_eq!(date.to_text(), "2018-11-05");
    assert_eq!(Date::parse_text("2018-11-05"), Some(date));

    let padded = Date::from_ymd(33, 1, 2).unwrap();
    assert_eq!(padded.to_text(), "0033-01-02");
    assert_eq!(Date::parse_text("0033-01-02"), Some(padded));

    assert_eq!(Date::parse_text("2018-13-05"), None);
    assert_eq!(Date::parse_text("2018-00-05"), None);
    assert_eq!(Date::parse_text("2018-11-32"), None);
    assert_eq!(Date::parse_text("2018/11/05"), None);
    assert_eq!(Date::parse_text("2018-11-5"), None);
}
