//! Postal addresses and their rule C8: an address must carry at least one
//! free-text address line, or a street name together with a building name or
//! a building number.

use vstd::prelude::*;
use crate::codes::AddressTypeCode;
use crate::containers::ZeroToN;
use crate::country_code::CountryCode;
use crate::error::Error;
use crate::error::ValidationError;
use crate::strings::StringMax16;
use crate::strings::StringMax35;
use crate::strings::StringMax50;
use crate::strings::StringMax70;
use crate::text::joined;
use crate::validation::c8_message;
use crate::validation::Validatable;

verus! {

/// A postal address: a type code, a country, a mandatory town name, an
/// assortment of optional locational fields, and zero or more free-text
/// address lines.
#[derive(Clone, Debug, PartialEq, Eq)]
pub struct Address {
    /// What kind of address this is.
    pub address_type: AddressTypeCode,
    /// The department, if any.
    pub department: Option<StringMax50>,
    /// The sub-department, if any.
    pub sub_department: Option<StringMax70>,
    /// The street name, if any.
    pub street_name: Option<StringMax70>,
    /// The building number, if any.
    pub building_number: Option<StringMax16>,
    /// The building name, if any.
    pub building_name: Option<StringMax35>,
    /// The floor, if any.
    pub floor: Option<StringMax70>,
    /// The post box, if any.
    pub post_box: Option<StringMax16>,
    /// The room, if any.
    pub room: Option<StringMax70>,
    /// The post code, if any.
    pub post_code: Option<StringMax16>,
    /// The town's name.
    pub town_name: StringMax35,
    /// The town location's name, if any.
    pub town_location_name: Option<StringMax35>,
    /// The district's name, if any.
    pub district_name: Option<StringMax35>,
    /// The country sub-division, if any.
    pub country_sub_division: Option<StringMax35>,
    /// Free-text address lines.
    pub address_line: ZeroToN<StringMax70>,
    /// The country the address lies in.
    pub country: CountryCode,
}

/// Whether the inputs of `Address::new` all fit their fields' bounds.
pub open spec fn address_inputs_fit(
    street: Option<Seq<char>>,
    number: Option<Seq<char>>,
    address_line: Option<Seq<char>>,
    postal_code: Seq<char>,
    town: Seq<char>,
    country: Seq<char>,
) -> bool {
    (match street {
        Some(s) => s.len() <= 70,
        None => true,
    }) && (match number {
        Some(s) => s.len() <= 16,
        None => true,
    }) && (match address_line {
        Some(s) => s.len() <= 70,
        None => true,
    }) && postal_code.len() <= 16 && town.len() <= 35 && country.len() == 2
}

impl Address {
    /// Rule C8: at least one address line is present, or a street name
    /// together with a building name or a building number.
    pub open spec fn satisfies_c8(self) -> bool {
        self.address_line.elements().len() > 0 || (self.street_name is Some
            && (self.building_name is Some || self.building_number is Some))
    }

    /// Build a residential address from its common parts, failing with a
    /// shape error when a part does not fit its field's bound. The unnamed
    /// locational fields stay empty.
    pub fn new(
        street: Option<&str>,
        number: Option<&str>,
        address_line: Option<&str>,
        postal_code: &str,
        town: &str,
        country: &str,
    ) -> (r: Result<Self, Error>)
        ensures
            r is Ok <==> address_inputs_fit(
                match street {
                    Some(s) => Some(s@),
                    None => None,
                },
                match number {
                    Some(s) => Some(s@),
                    None => None,
                },
                match address_line {
                    Some(s) => Some(s@),
                    None => None,
                },
                postal_code@,
                town@,
                country@,
            ),
            r matches Ok(a) ==> {
                &&& a.address_type == AddressTypeCode::Residential
                &&& a.department is None
                &&& a.sub_department is None
                &&& (match street {
                    Some(s) => a.street_name matches Some(v) && v@ == s@,
                    None => a.street_name is None,
                })
                &&& (match number {
                    Some(s) => a.building_number matches Some(v) && v@ == s@,
                    None => a.building_number is None,
                })
                &&& a.building_name is None
                &&& a.floor is None
                &&& a.post_box is None
                &&& a.room is None
                &&& (a.post_code matches Some(v) && v@ == postal_code@)
                &&& a.town_name@ == town@
                &&& a.town_location_name is None
                &&& a.district_name is None
                &&& a.country_sub_division is None
                &&& (match address_line {
                    Some(s) => a.address_line matches ZeroToN::One(v) && v@ == s@,
                    None => a.address_line is Absent,
                })
                &&& a.country@ == country@
            },
    {
        let street_name = match street {
            Some(s) => match StringMax70::try_new(s) {
                Ok(v) => Some(v),
                Err(e) => return Err(e),
            },
            None => None,
        };
        let building_number = match number {
            Some(s) => match StringMax16::try_new(s) {
                Ok(v) => Some(v),
                Err(e) => return Err(e),
            },
            None => None,
        };
        let line = match address_line {
            Some(s) => match StringMax70::try_new(s) {
                Ok(v) => ZeroToN::One(v),
                Err(e) => return Err(e),
            },
            None => ZeroToN::Absent,
        };
        let post_code = match StringMax16::try_new(postal_code) {
            Ok(v) => Some(v),
            Err(e) => return Err(e),
        };
        let town_name = match StringMax35::try_new(town) {
            Ok(v) => v,
            Err(e) => return Err(e),
        };
        let country = match CountryCode::try_new(country) {
            Ok(v) => v,
            Err(e) => return Err(e),
        };
        Ok(Address {
            address_type: AddressTypeCode::Residential,
            department: None,
            sub_department: None,
            street_name,
            building_number,
            building_name: None,
            floor: None,
            post_box: None,
            room: None,
            post_code,
            town_name,
            town_location_name: None,
            district_name: None,
            country_sub_division: None,
            address_line: line,
            country,
        })
    }

    /// The address lines joined with a comma and a space, or nothing when
    /// no line is present.
    pub fn address_lines(&self) -> (r: Option<String>)
        ensures
            match r {
                None => self.address_line.elements().len() == 0,
                Some(txt) => self.address_line.elements().len() > 0 && txt@ == joined(
                    self.address_line.elements().map_values(|t: StringMax70| t@),
                ),
            },
    {
        let ghost parts = self.address_line.elements().map_values(|t: StringMax70| t@);
        let n = self.address_line.len();
        if n == 0 {
            return None;
        }
        let mut out = String::new();
        let mut i: usize = 0;
        while i < n
            invariant
                n == self.address_line.elements().len(),
                parts == self.address_line.elements().map_values(|t: StringMax70| t@),
                n == parts.len(),
                0 < n,
                i <= n,
                out@ == joined(parts.take(i as int)),
            decreases n - i,
        {
            if i > 0 {
                out.append(", ");
            }
            out.append(self.address_line.get(i).as_str());
            proof {
                assert(parts.take(i + 1).drop_last() =~= parts.take(i as int));
                assert(parts.take(i + 1).last() == parts[i as int]);
                if i == 0 {
                    assert(joined(parts.take(1)) == parts[0]);
                }
            }
            i += 1;
        }
        proof {
            assert(parts.take(n as int) =~= parts);
        }
        Some(out)
    }
}

impl Validatable for Address {
    /// Rule C8: the outcome is `Ok` exactly when the address carries an
    /// address line, or a street name with a building name or number.
    open spec fn validation(&self) -> Result<(), Seq<char>> {
        if self.satisfies_c8() {
            Ok(())
        } else {
            Err(c8_message())
        }
    }

    fn validate(&self) -> (r: Result<(), ValidationError>) {
        if self.address_line.is_empty() && (self.street_name.is_none() || (
        self.building_name.is_none() && self.building_number.is_none())) {
            Err(ValidationError::new(
                "Either 1) address line or 2) street name and either building name or building number are required (IVMS101 C8)",
            ))
        } else {
            Ok(())
        }
    }
}

} // verus!
