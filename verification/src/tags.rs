//! The four-letter uppercase tags the enumeration codes carry on the wire,
//! with both directions of the mapping and proofs that they invert each
//! other.

use vstd::prelude::*;
use crate::codes::AddressTypeCode;
use crate::codes::LegalPersonNameTypeCode;
use crate::codes::NationalIdentifierTypeCode;
use crate::codes::NaturalPersonNameTypeCode;
use crate::text::str_eq;

verus! {

impl NaturalPersonNameTypeCode {
    /// The code's wire tag.
    pub open spec fn tag_spec(self) -> Seq<char> {
        match self {
            NaturalPersonNameTypeCode::Alias => "ALIA"@,
            NaturalPersonNameTypeCode::NameAtBirth => "BIRT"@,
            NaturalPersonNameTypeCode::MaidenName => "MAID"@,
            NaturalPersonNameTypeCode::LegalName => "LEGL"@,
            NaturalPersonNameTypeCode::Unspecified => "MISC"@,
        }
    }

    /// The code named by a wire tag, if the tag is known.
    pub open spec fn from_tag_spec(s: Seq<char>) -> Option<Self> {
        if s == "ALIA"@ {
            Some(NaturalPersonNameTypeCode::Alias)
        } else if s == "BIRT"@ {
            Some(NaturalPersonNameTypeCode::NameAtBirth)
        } else if s == "MAID"@ {
            Some(NaturalPersonNameTypeCode::MaidenName)
        } else if s == "LEGL"@ {
            Some(NaturalPersonNameTypeCode::LegalName)
        } else if s == "MISC"@ {
            Some(NaturalPersonNameTypeCode::Unspecified)
        } else {
            None
        }
    }

    /// Write the code as its wire tag.
    pub fn tag(&self) -> (r: &'static str)
        ensures
            r@ == self.tag_spec(),
    {
        match self {
            NaturalPersonNameTypeCode::Alias => "ALIA",
            NaturalPersonNameTypeCode::NameAtBirth => "BIRT",
            NaturalPersonNameTypeCode::MaidenName => "MAID",
            NaturalPersonNameTypeCode::LegalName => "LEGL",
            NaturalPersonNameTypeCode::Unspecified => "MISC",
        }
    }

    /// Read a code back from its wire tag.
    pub fn from_tag(s: &str) -> (r: Option<Self>)
        ensures
            r == Self::from_tag_spec(s@),
    {
        if str_eq(s, "ALIA") {
            Some(NaturalPersonNameTypeCode::Alias)
        } else if str_eq(s, "BIRT") {
            Some(NaturalPersonNameTypeCode::NameAtBirth)
        } else if str_eq(s, "MAID") {
            Some(NaturalPersonNameTypeCode::MaidenName)
        } else if str_eq(s, "LEGL") {
            Some(NaturalPersonNameTypeCode::LegalName)
        } else if str_eq(s, "MISC") {
            Some(NaturalPersonNameTypeCode::Unspecified)
        } else {
            None
        }
    }

    /// The two directions invert each other: a tag written for a code
    /// reads back as that code, and a tag that reads as a code is that
    /// code's tag.
    pub proof fn lemma_tag_round_trip(c: Self, s: Seq<char>)
        ensures
            Self::from_tag_spec(c.tag_spec()) == Some(c),
            Self::from_tag_spec(s) matches Some(d) ==> d.tag_spec() == s,
    {
        reveal_strlit("ALIA");
        reveal_strlit("BIRT");
        reveal_strlit("MAID");
        reveal_strlit("LEGL");
        reveal_strlit("MISC");
        assert("ALIA"@[0] == 'A' && "ALIA"@[1] == 'L');
        assert("BIRT"@[0] == 'B' && "BIRT"@[1] == 'I');
        assert("MAID"@[0] == 'M' && "MAID"@[1] == 'A');
        assert("LEGL"@[0] == 'L' && "LEGL"@[1] == 'E');
        assert("MISC"@[0] == 'M' && "MISC"@[1] == 'I');
        match c {
            NaturalPersonNameTypeCode::Alias => {},
            NaturalPersonNameTypeCode::NameAtBirth => {},
            NaturalPersonNameTypeCode::MaidenName => {},
            NaturalPersonNameTypeCode::LegalName => {},
            NaturalPersonNameTypeCode::Unspecified => {},
        }
    }
}

impl LegalPersonNameTypeCode {
    /// The code's wire tag.
    pub open spec fn tag_spec(self) -> Seq<char> {
        match self {
            LegalPersonNameTypeCode::Legal => "LEGL"@,
            LegalPersonNameTypeCode::Short => "SHRT"@,
            LegalPersonNameTypeCode::Trading => "TRAD"@,
        }
    }

    /// The code named by a wire tag, if the tag is known.
    pub open spec fn from_tag_spec(s: Seq<char>) -> Option<Self> {
        if s == "LEGL"@ {
            Some(LegalPersonNameTypeCode::Legal)
        } else if s == "SHRT"@ {
            Some(LegalPersonNameTypeCode::Short)
        } else if s == "TRAD"@ {
            Some(LegalPersonNameTypeCode::Trading)
        } else {
            None
        }
    }

    /// Write the code as its wire tag.
    pub fn tag(&self) -> (r: &'static str)
        ensures
            r@ == self.tag_spec(),
    {
        match self {
            LegalPersonNameTypeCode::Legal => "LEGL",
            LegalPersonNameTypeCode::Short => "SHRT",
            LegalPersonNameTypeCode::Trading => "TRAD",
        }
    }

    /// Read a code back from its wire tag.
    pub fn from_tag(s: &str) -> (r: Option<Self>)
        ensures
            r == Self::from_tag_spec(s@),
    {
        if str_eq(s, "LEGL") {
            Some(LegalPersonNameTypeCode::Legal)
        } else if str_eq(s, "SHRT") {
            Some(LegalPersonNameTypeCode::Short)
        } else if str_eq(s, "TRAD") {
            Some(LegalPersonNameTypeCode::Trading)
        } else {
            None
        }
    }

    /// The two directions invert each other.
    pub proof fn lemma_tag_round_trip(c: Self, s: Seq<char>)
        ensures
            Self::from_tag_spec(c.tag_spec()) == Some(c),
            Self::from_tag_spec(s) matches Some(d) ==> d.tag_spec() == s,
    {
        reveal_strlit("LEGL");
        reveal_strlit("SHRT");
        reveal_strlit("TRAD");
        assert("LEGL"@[0] == 'L' && "LEGL"@[1] == 'E');
        assert("SHRT"@[0] == 'S' && "SHRT"@[1] == 'H');
        assert("TRAD"@[0] == 'T' && "TRAD"@[1] == 'R');
        match c {
            LegalPersonNameTypeCode::Legal => {},
            LegalPersonNameTypeCode::Short => {},
            LegalPersonNameTypeCode::Trading => {},
        }
    }
}

impl AddressTypeCode {
    /// The code's wire tag.
    pub open spec fn tag_spec(self) -> Seq<char> {
        match self {
            AddressTypeCode::Residential => "HOME"@,
            AddressTypeCode::Business => "BIZZ"@,
            AddressTypeCode::Geographic => "GEOG"@,
        }
    }

    /// The code named by a wire tag, if the tag is known.
    pub open spec fn from_tag_spec(s: Seq<char>) -> Option<Self> {
        if s == "HOME"@ {
            Some(AddressTypeCode::Residential)
        } else if s == "BIZZ"@ {
            Some(AddressTypeCode::Business)
        } else if s == "GEOG"@ {
            Some(AddressTypeCode::Geographic)
        } else {
            None
        }
    }

    /// Write the code as its wire tag.
    pub fn tag(&self) -> (r: &'static str)
        ensures
            r@ == self.tag_spec(),
    {
        match self {
            AddressTypeCode::Residential => "HOME",
            AddressTypeCode::Business => "BIZZ",
            AddressTypeCode::Geographic => "GEOG",
        }
    }

    /// Read a code back from its wire tag.
    pub fn from_tag(s: &str) -> (r: Option<Self>)
        ensures
            r == Self::from_tag_spec(s@),
    {
        if str_eq(s, "HOME") {
            Some(AddressTypeCode::Residential)
        } else if str_eq(s, "BIZZ") {
            Some(AddressTypeCode::Business)
        } else if str_eq(s, "GEOG") {
            Some(AddressTypeCode::Geographic)
        } else {
            None
        }
    }

    /// The two directions invert each other.
    pub proof fn lemma_tag_round_trip(c: Self, s: Seq<char>)
        ensures
            Self::from_tag_spec(c.tag_spec()) == Some(c),
            Self::from_tag_spec(s) matches Some(d) ==> d.tag_spec() == s,
    {
        reveal_strlit("HOME");
        reveal_strlit("BIZZ");
        reveal_strlit("GEOG");
        assert("HOME"@[0] == 'H' && "HOME"@[1] == 'O');
        assert("BIZZ"@[0] == 'B' && "BIZZ"@[1] == 'I');
        assert("GEOG"@[0] == 'G' && "GEOG"@[1] == 'E');
        match c {
            AddressTypeCode::Residential => {},
            AddressTypeCode::Business => {},
            AddressTypeCode::Geographic => {},
        }
    }
}

impl NationalIdentifierTypeCode {
    /// The code's wire tag.
    pub open spec fn tag_spec(self) -> Seq<char> {
        match self {
            NationalIdentifierTypeCode::AlienRegistrationNumber => "ARNU"@,
            NationalIdentifierTypeCode::PassportNumber => "CCPT"@,
            NationalIdentifierTypeCode::RegistrationAuthorityIdentifier => "RAID"@,
            NationalIdentifierTypeCode::DriverLicenseNumber => "DRLC"@,
            NationalIdentifierTypeCode::ForeignInvestmentIdentityNumber => "FIIN"@,
            NationalIdentifierTypeCode::TaxIdentificationNumber => "TXID"@,
            NationalIdentifierTypeCode::SocialSecurityNumber => "SOCS"@,
            NationalIdentifierTypeCode::IdentityCardNumber => "IDCD"@,
            NationalIdentifierTypeCode::LegalEntityIdentifier => "LEIX"@,
            NationalIdentifierTypeCode::Unspecified => "MISC"@,
        }
    }

    /// The code named by a wire tag, if the tag is known.
    pub open spec fn from_tag_spec(s: Seq<char>) -> Option<Self> {
        if s == "ARNU"@ {
            Some(NationalIdentifierTypeCode::AlienRegistrationNumber)
        } else if s == "CCPT"@ {
            Some(NationalIdentifierTypeCode::PassportNumber)
        } else if s == "RAID"@ {
            Some(NationalIdentifierTypeCode::RegistrationAuthorityIdentifier)
        } else if s == "DRLC"@ {
            Some(NationalIdentifierTypeCode::DriverLicenseNumber)
        } else if s == "FIIN"@ {
            Some(NationalIdentifierTypeCode::ForeignInvestmentIdentityNumber)
        } else if s == "TXID"@ {
            Some(NationalIdentifierTypeCode::TaxIdentificationNumber)
        } else if s == "SOCS"@ {
            Some(NationalIdentifierTypeCode::SocialSecurityNumber)
        } else if s == "IDCD"@ {
            Some(NationalIdentifierTypeCode::IdentityCardNumber)
        } else if s == "LEIX"@ {
            Some(NationalIdentifierTypeCode::LegalEntityIdentifier)
        } else if s == "MISC"@ {
            Some(NationalIdentifierTypeCode::Unspecified)
        } else {
            None
        }
    }

    /// Write the code as its wire tag.
    pub fn tag(&self) -> (r: &'static str)
        ensures
            r@ == self.tag_spec(),
    {
        match self {
            NationalIdentifierTypeCode::AlienRegistrationNumber => "ARNU",
            NationalIdentifierTypeCode::PassportNumber => "CCPT",
            NationalIdentifierTypeCode::RegistrationAuthorityIdentifier => "RAID",
            NationalIdentifierTypeCode::DriverLicenseNumber => "DRLC",
            NationalIdentifierTypeCode::ForeignInvestmentIdentityNumber => "FIIN",
            NationalIdentifierTypeCode::TaxIdentificationNumber => "TXID",
            NationalIdentifierTypeCode::SocialSecurityNumber => "SOCS",
            NationalIdentifierTypeCode::IdentityCardNumber => "IDCD",
            NationalIdentifierTypeCode::LegalEntityIdentifier => "LEIX",
            NationalIdentifierTypeCode::Unspecified => "MISC",
        }
    }

    /// Read a code back from its wire tag.
    pub fn from_tag(s: &str) -> (r: Option<Self>)
        ensures
            r == Self::from_tag_spec(s@),
    {
        if str_eq(s, "ARNU") {
            Some(NationalIdentifierTypeCode::AlienRegistrationNumber)
        } else if str_eq(s, "CCPT") {
            Some(NationalIdentifierTypeCode::PassportNumber)
        } else if str_eq(s, "RAID") {
            Some(NationalIdentifierTypeCode::RegistrationAuthorityIdentifier)
        } else if str_eq(s, "DRLC") {
            Some(NationalIdentifierTypeCode::DriverLicenseNumber)
        } else if str_eq(s, "FIIN") {
            Some(NationalIdentifierTypeCode::ForeignInvestmentIdentityNumber)
        } else if str_eq(s, "TXID") {
            Some(NationalIdentifierTypeCode::TaxIdentificationNumber)
        } else if str_eq(s, "SOCS") {
            Some(NationalIdentifierTypeCode::SocialSecurityNumber)
        } else if str_eq(s, "IDCD") {
            Some(NationalIdentifierTypeCode::IdentityCardNumber)
        } else if str_eq(s, "LEIX") {
            Some(NationalIdentifierTypeCode::LegalEntityIdentifier)
        } else if str_eq(s, "MISC") {
            Some(NationalIdentifierTypeCode::Unspecified)
        } else {
            None
        }
    }

    /// The two directions invert each other.
    pub proof fn lemma_tag_round_trip(c: Self, s: Seq<char>)
        ensures
            Self::from_tag_spec(c.tag_spec()) == Some(c),
            Self::from_tag_spec(s) matches Some(d) ==> d.tag_spec() == s,
    {
        reveal_strlit("ARNU");
        reveal_strlit("CCPT");
        reveal_strlit("RAID");
        reveal_strlit("DRLC");
        reveal_strlit("FIIN");
        reveal_strlit("TXID");
        reveal_strlit("SOCS");
        reveal_strlit("IDCD");
        reveal_strlit("LEIX");
        reveal_strlit("MISC");
        assert("ARNU"@[0] == 'A' && "ARNU"@[1] == 'R');
        assert("CCPT"@[0] == 'C' && "CCPT"@[1] == 'C');
        assert("RAID"@[0] == 'R' && "RAID"@[1] == 'A');
        assert("DRLC"@[0] == 'D' && "DRLC"@[1] == 'R');
        assert("FIIN"@[0] == 'F' && "FIIN"@[1] == 'I');
        assert("TXID"@[0] == 'T' && "TXID"@[1] == 'X');
        assert("SOCS"@[0] == 'S' && "SOCS"@[1] == 'O');
        assert("IDCD"@[0] == 'I' && "IDCD"@[1] == 'D');
        assert("LEIX"@[0] == 'L' && "LEIX"@[1] == 'E');
        assert("MISC"@[0] == 'M' && "MISC"@[1] == 'I');
        match c {
            NationalIdentifierTypeCode::AlienRegistrationNumber => {},
            NationalIdentifierTypeCode::PassportNumber => {},
            NationalIdentifierTypeCode::RegistrationAuthorityIdentifier => {},
            NationalIdentifierTypeCode::DriverLicenseNumber => {},
            NationalIdentifierTypeCode::ForeignInvestmentIdentityNumber => {},
            NationalIdentifierTypeCode::TaxIdentificationNumber => {},
            NationalIdentifierTypeCode::SocialSecurityNumber => {},
            NationalIdentifierTypeCode::IdentityCardNumber => {},
            NationalIdentifierTypeCode::LegalEntityIdentifier => {},
            NationalIdentifierTypeCode::Unspecified => {},
        }
    }
}

} // verus!
