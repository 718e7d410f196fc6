//! Typed schema and validation engine for IVMS101 ("Travel Rule") identity
//! messages: constrained value types, flexible-multiplicity containers, the
//! natural/legal person variants, message assembly, and the cross-field
//! business rules C1 through C11.

pub mod address;
pub mod codes;
pub mod containers;
pub mod country_code;
pub mod country_names;
pub mod date;
pub mod display;
pub mod error;
pub mod lookups;
pub mod message;
pub mod names;
pub mod national_identification;
pub mod persons;
pub mod registration_authority;
pub mod strings;
pub mod tags;
pub mod text;
pub mod validation;
pub mod wire;

pub use address::Address;
pub use codes::AddressTypeCode;
pub use codes::LegalPersonNameTypeCode;
pub use codes::NationalIdentifierTypeCode;
pub use codes::NaturalPersonNameTypeCode;
pub use containers::NonEmptyVec;
pub use containers::OneToN;
pub use containers::ZeroToN;
pub use country_code::CountryCode;
pub use country_names::country;
pub use date::Date;
pub use date::DateAndPlaceOfBirth;
pub use display::format_address;
pub use error::Error;
pub use error::ValidationError;
pub use message::Beneficiary;
pub use message::BeneficiaryVASP;
pub use message::IntermediaryVASP;
pub use message::IVMS101;
pub use message::OriginatingVASP;
pub use message::Originator;
pub use names::LegalPersonName;
pub use names::LegalPersonNameID;
pub use names::NaturalPersonName;
pub use names::NaturalPersonNameID;
pub use national_identification::NationalIdentification;
pub use persons::LegalPerson;
pub use persons::NaturalPerson;
pub use persons::Person;
pub use registration_authority::RegistrationAuthority;
pub use strings::ConstrainedString;
pub use strings::StringMax100;
pub use strings::StringMax16;
pub use strings::StringMax35;
pub use strings::StringMax50;
pub use strings::StringMax70;
pub use validation::Validatable;
pub use wire::WireShape;
