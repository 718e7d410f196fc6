//! Human-readable address formatting: a thin display aid over the address
//! fields and the country-name table, separate from validation.

use vstd::prelude::*;
use crate::address::Address;
use crate::country_names::country;
use crate::country_names::country_name;
use crate::strings::StringMax70;
use crate::text::joined;
use crate::text::lower;
use crate::text::to_lower;

verus! {

/// The display text assembled from an address's parts: the street with its
/// number, the joined address lines, the post code, then the town and the
/// country's name, with the punctuation the parts call for.
pub open spec fn formatted_address(
    street: Option<Seq<char>>,
    number: Option<Seq<char>>,
    address_line: Option<Seq<char>>,
    postcode: Option<Seq<char>>,
    town: Seq<char>,
    country_code: Seq<char>,
) -> Seq<char> {
    (match street {
        Some(s) => s + (match number {
            Some(nu) => " "@ + nu,
            None => Seq::empty(),
        }) + ", "@,
        None => Seq::empty(),
    }) + (match address_line {
        Some(l) => l + ", "@,
        None => Seq::empty(),
    }) + (match postcode {
        Some(p) => p + " "@,
        None => Seq::empty(),
    }) + town + ", "@ + country_name(lower(country_code))
}

/// Format an address's parts for display. The country code is lowercased
/// and replaced by its English name where the table knows it.
pub fn format_address(
    street: Option<&str>,
    number: Option<&str>,
    address_line: Option<&str>,
    postcode: Option<&str>,
    town: &str,
    country_code: &str,
) -> (r: String)
    ensures
        r@ == formatted_address(
            match street {
                Some(s) => Some(s@),
                None => None,
            },
            match number {
                Some(s) => Some(s@),
                None => None,
            },
            match address_line {
                Some(s) => Some(s@),
                None => None,
            },
            match postcode {
                Some(s) => Some(s@),
                None => None,
            },
            town@,
            country_code@,
        ),
{
    let mut out = String::new();
    if let Some(s) = street {
        out.append(s);
        if let Some(nu) = number {
            out.append(" ");
            out.append(nu);
        }
        out.append(", ");
    }
    if let Some(l) = address_line {
        out.append(l);
        out.append(", ");
    }
    if let Some(p) = postcode {
        out.append(p);
        out.append(" ");
    }
    out.append(town);
    out.append(", ");
    let low = to_lower(country_code);
    let name = country(low.as_str());
    out.append(name);
    proof {
        assert(out@ =~= formatted_address(
            match street {
                Some(s) => Some(s@),
                None => None,
            },
            match number {
                Some(s) => Some(s@),
                None => None,
            },
            match address_line {
                Some(s) => Some(s@),
                None => None,
            },
            match postcode {
                Some(s) => Some(s@),
                None => None,
            },
            town@,
            country_code@,
        ));
    }
    out
}

impl Address {
    /// The display text of this address: street and number, address lines,
    /// post code, town and country name.
    pub open spec fn display_text(self) -> Seq<char> {
        formatted_address(
            match self.street_name {
                Some(s) => Some(s@),
                None => None,
            },
            match self.building_number {
                Some(s) => Some(s@),
                None => None,
            },
            if self.address_line.elements().len() > 0 {
                Some(joined(self.address_line.elements().map_values(|t: StringMax70| t@)))
            } else {
                None
            },
            match self.post_code {
                Some(s) => Some(s@),
                None => None,
            },
            self.town_name@,
            self.country@,
        )
    }

    /// Format this address for display.
    pub fn display(&self) -> (r: String)
        ensures
            r@ == self.display_text(),
    {
        let lines = self.address_lines();
        format_address(
            match &self.street_name {
                Some(s) => Some(s.as_str()),
                None => None,
            },
            match &self.building_number {
                Some(s) => Some(s.as_str()),
                None => None,
            },
            match &lines {
                Some(s) => Some(s.as_str()),
                None => None,
            },
            match &self.post_code {
                Some(s) => Some(s.as_str()),
                None => None,
            },
            self.town_name.as_str(),
            self.country.as_str(),
        )
    }
}

} // verus!
