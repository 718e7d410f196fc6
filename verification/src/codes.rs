//! The closed enumerations of the schema. On the wire each value is a
//! four-letter uppercase tag; the tag is noted beside every variant.

use vstd::prelude::*;

verus! {

/// Kind of a natural person's name identifier.
#[derive(Clone, Copy, Debug, PartialEq, Eq, Structural)]
pub enum NaturalPersonNameTypeCode {
    /// `ALIA`: an alias.
    Alias,
    /// `BIRT`: the name at birth.
    NameAtBirth,
    /// `MAID`: the maiden name.
    MaidenName,
    /// `LEGL`: the legal name.
    LegalName,
    /// `MISC`: unspecified.
    Unspecified,
}

/// Kind of a legal person's name identifier.
#[derive(Clone, Copy, Debug, PartialEq, Eq, Structural)]
pub enum LegalPersonNameTypeCode {
    /// `LEGL`: the registered legal name.
    Legal,
    /// `SHRT`: a short name.
    Short,
    /// `TRAD`: a trading name.
    Trading,
}

/// Kind of an address.
#[derive(Clone, Copy, Debug, PartialEq, Eq, Structural)]
pub enum AddressTypeCode {
    /// `HOME`: residential.
    Residential,
    /// `BIZZ`: business.
    Business,
    /// `GEOG`: geographic.
    Geographic,
}

/// Kind of a national identification.
#[derive(Clone, Copy, Debug, PartialEq, Eq, Structural)]
pub enum NationalIdentifierTypeCode {
    /// `ARNU`: alien registration number.
    AlienRegistrationNumber,
    /// `CCPT`: passport number.
    PassportNumber,
    /// `RAID`: registration authority identifier.
    RegistrationAuthorityIdentifier,
    /// `DRLC`: driver license number.
    DriverLicenseNumber,
    /// `FIIN`: foreign investment identity number.
    ForeignInvestmentIdentityNumber,
    /// `TXID`: tax identification number.
    TaxIdentificationNumber,
    /// `SOCS`: social security number.
    SocialSecurityNumber,
    /// `IDCD`: identity card number.
    IdentityCardNumber,
    /// `LEIX`: Legal Entity Identifier.
    LegalEntityIdentifier,
    /// `MISC`: unspecified.
    Unspecified,
}

} // verus!
