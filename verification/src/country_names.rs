//! The country-name lookup table: a fixed mapping from lowercase ISO
//! 3166-1 alpha-2 codes to English short names, read-only and side-effect
//! free. An unknown code is echoed back, so the lookup never fails; it is a
//! display aid, not validation.

use vstd::prelude::*;

verus! {

/// The table entry for a two-character code, by its two characters; codes
/// outside the table have no entry.
pub open spec fn country_name_entry(c0: char, c1: char) -> Option<Seq<char>> {
    match (c0, c1) {
        ('a', 'f') => Some("Afghanistan"@),
        ('a', 'x') => Some("Aland Islands"@),
        ('a', 'l') => Some("Albania"@),
        ('d', 'z') => Some("Algeria"@),
        ('a', 's') => Some("American Samoa"@),
        ('a', 'd') => Some("Andorra"@),
        ('a', 'o') => Some("Angola"@),
        ('a', 'i') => Some("Anguilla"@),
        ('a', 'q') => Some("Antarctica"@),
        ('a', 'g') => Some("Antigua And Barbuda"@),
        ('a', 'r') => Some("Argentina"@),
        ('a', 'm') => Some("Armenia"@),
        ('a', 'w') => Some("Aruba"@),
        ('a', 'u') => Some("Australia"@),
        ('a', 't') => Some("Austria"@),
        ('a', 'z') => Some("Azerbaijan"@),
        ('b', 's') => Some("Bahamas"@),
        ('b', 'h') => Some("Bahrain"@),
        ('b', 'd') => Some("Bangladesh"@),
        ('b', 'b') => Some("Barbados"@),
        ('b', 'y') => Some("Belarus"@),
        ('b', 'e') => Some("Belgium"@),
        ('b', 'z') => Some("Belize"@),
        ('b', 'j') => Some("Benin"@),
        ('b', 'm') => Some("Bermuda"@),
        ('b', 't') => Some("Bhutan"@),
        ('b', 'o') => Some("Bolivia"@),
        ('b', 'a') => Some("Bosnia And Herzegovina"@),
        ('b', 'w') => Some("Botswana"@),
        ('b', 'v') => Some("Bouvet Island"@),
        ('b', 'r') => Some("Brazil"@),
        ('i', 'o') => Some("British Indian Ocean Territory"@),
        ('b', 'n') => Some("Brunei Darussalam"@),
        ('b', 'g') => Some("Bulgaria"@),
        ('b', 'f') => Some("Burkina Faso"@),
        ('b', 'i') => Some("Burundi"@),
        ('k', 'h') => Some("Cambodia"@),
        ('c', 'm') => Some("Cameroon"@),
        ('c', 'a') => Some("Canada"@),
        ('c', 'v') => Some("Cape Verde"@),
        ('k', 'y') => Some("Cayman Islands"@),
        ('c', 'f') => Some("Central African Republic"@),
        ('t', 'd') => Some("Chad"@),
        ('c', 'l') => Some("Chile"@),
        ('c', 'n') => Some("China"@),
        ('c', 'x') => Some("Christmas Island"@),
        ('c', 'c') => Some("Cocos (Keeling) Islands"@),
        ('c', 'o') => Some("Colombia"@),
        ('k', 'm') => Some("Comoros"@),
        ('c', 'g') => Some("Congo"@),
        ('c', 'd') => Some("Congo, Democratic Republic"@),
        ('c', 'k') => Some("Cook Islands"@),
        ('c', 'r') => Some("Costa Rica"@),
        ('c', 'i') => Some("Cote D'Ivoire"@),
        ('h', 'r') => Some("Croatia"@),
        ('c', 'u') => Some("Cuba"@),
        ('c', 'y') => Some("Cyprus"@),
        ('c', 'z') => Some("Czech Republic"@),
        ('d', 'k') => Some("Denmark"@),
        ('d', 'j') => Some("Djibouti"@),
        ('d', 'm') => Some("Dominica"@),
        ('d', 'o') => Some("Dominican Republic"@),
        ('e', 'c') => Some("Ecuador"@),
        ('e', 'g') => Some("Egypt"@),
        ('s', 'v') => Some("El Salvador"@),
        ('g', 'q') => Some("Equatorial Guinea"@),
        ('e', 'r') => Some("Eritrea"@),
        ('e', 'e') => Some("Estonia"@),
        ('e', 't') => Some("Ethiopia"@),
        ('f', 'k') => Some("Falkland Islands (Malvinas)"@),
        ('f', 'o') => Some("Faroe Islands"@),
        ('f', 'j') => Some("Fiji"@),
        ('f', 'i') => Some("Finland"@),
        ('f', 'r') => Some("France"@),
        ('g', 'f') => Some("French Guiana"@),
        ('p', 'f') => Some("French Polynesia"@),
        ('t', 'f') => Some("French Southern Territories"@),
        ('g', 'a') => Some("Gabon"@),
        ('g', 'm') => Some("Gambia"@),
        ('g', 'e') => Some("Georgia"@),
        ('d', 'e') => Some("Germany"@),
        ('g', 'h') => Some("Ghana"@),
        ('g', 'i') => Some("Gibraltar"@),
        ('g', 'r') => Some("Greece"@),
        ('g', 'l') => Some("Greenland"@),
        ('g', 'd') => Some("Grenada"@),
        ('g', 'p') => Some("Guadeloupe"@),
        ('g', 'u') => Some("Guam"@),
        ('g', 't') => Some("Guatemala"@),
        ('g', 'g') => Some("Guernsey"@),
        ('g', 'n') => Some("Guinea"@),
        ('g', 'w') => Some("Guinea-Bissau"@),
        ('g', 'y') => Some("Guyana"@),
        ('h', 't') => Some("Haiti"@),
        ('h', 'm') => Some("Heard Island & Mcdonald Islands"@),
        ('v', 'a') => Some("Holy See (Vatican City State)"@),
        ('h', 'n') => Some("Honduras"@),
        ('h', 'k') => Some("Hong Kong"@),
        ('h', 'u') => Some("Hungary"@),
        ('i', 's') => Some("Iceland"@),
        ('i', 'n') => Some("India"@),
        ('i', 'd') => Some("Indonesia"@),
        ('i', 'r') => Some("Iran, Islamic Republic Of"@),
        ('i', 'q') => Some("Iraq"@),
        ('i', 'e') => Some("Ireland"@),
        ('i', 'm') => Some("Isle Of Man"@),
        ('i', 'l') => Some("Israel"@),
        ('i', 't') => Some("Italy"@),
        ('j', 'm') => Some("Jamaica"@),
        ('j', 'p') => Some("Japan"@),
        ('j', 'e') => Some("Jersey"@),
        ('j', 'o') => Some("Jordan"@),
        ('k', 'z') => Some("Kazakhstan"@),
        ('k', 'e') => Some("Kenya"@),
        ('k', 'i') => Some("Kiribati"@),
        ('k', 'p') => Some("Democratic People's Republic of Korea"@),
        ('k', 'r') => Some("South Korea"@),
        ('k', 'w') => Some("Kuwait"@),
        ('k', 'g') => Some("Kyrgyzstan"@),
        ('l', 'a') => Some("Lao People's Democratic Republic"@),
        ('l', 'v') => Some("Latvia"@),
        ('l', 'b') => Some("Lebanon"@),
        ('l', 's') => Some("Lesotho"@),
        ('l', 'r') => Some("Liberia"@),
        ('l', 'y') => Some("Libyan Arab Jamahiriya"@),
        ('l', 'i') => Some("Liechtenstein"@),
        ('l', 't') => Some("Lithuania"@),
        ('l', 'u') => Some("Luxembourg"@),
        ('m', 'o') => Some("Macao"@),
        ('m', 'k') => Some("Macedonia"@),
        ('m', 'g') => Some("Madagascar"@),
        ('m', 'w') => Some("Malawi"@),
        ('m', 'y') => Some("Malaysia"@),
        ('m', 'v') => Some("Maldives"@),
        ('m', 'l') => Some("Mali"@),
        ('m', 't') => Some("Malta"@),
        ('m', 'h') => Some("Marshall Islands"@),
        ('m', 'q') => Some("Martinique"@),
        ('m', 'r') => Some("Mauritania"@),
        ('m', 'u') => Some("Mauritius"@),
        ('y', 't') => Some("Mayotte"@),
        ('m', 'x') => Some("Mexico"@),
        ('f', 'm') => Some("Micronesia, Federated States Of"@),
        ('m', 'd') => Some("Moldova"@),
        ('m', 'c') => Some("Monaco"@),
        ('m', 'n') => Some("Mongolia"@),
        ('m', 'e') => Some("Montenegro"@),
        ('m', 's') => Some("Montserrat"@),
        ('m', 'a') => Some("Morocco"@),
        ('m', 'z') => Some("Mozambique"@),
        ('m', 'm') => Some("Myanmar"@),
        ('n', 'a') => Some("Namibia"@),
        ('n', 'r') => Some("Nauru"@),
        ('n', 'p') => Some("Nepal"@),
        ('n', 'l') => Some("Netherlands"@),
        ('a', 'n') => Some("Netherlands Antilles"@),
        ('n', 'c') => Some("New Caledonia"@),
        ('n', 'z') => Some("New Zealand"@),
        ('n', 'i') => Some("Nicaragua"@),
        ('n', 'e') => Some("Niger"@),
        ('n', 'g') => Some("Nigeria"@),
        ('n', 'u') => Some("Niue"@),
        ('n', 'f') => Some("Norfolk Island"@),
        ('m', 'p') => Some("Northern Mariana Islands"@),
        ('n', 'o') => Some("Norway"@),
        ('o', 'm') => Some("Oman"@),
        ('p', 'k') => Some("Pakistan"@),
        ('p', 'w') => Some("Palau"@),
        ('p', 's') => Some("Palestinian Territory, Occupied"@),
        ('p', 'a') => Some("Panama"@),
        ('p', 'g') => Some("Papua New Guinea"@),
        ('p', 'y') => Some("Paraguay"@),
        ('p', 'e') => Some("Peru"@),
        ('p', 'h') => Some("Philippines"@),
        ('p', 'n') => Some("Pitcairn"@),
        ('p', 'l') => Some("Poland"@),
        ('p', 't') => Some("Portugal"@),
        ('p', 'r') => Some("Puerto Rico"@),
        ('q', 'a') => Some("Qatar"@),
        ('r', 'e') => Some("Reunion"@),
        ('r', 'o') => Some("Romania"@),
        ('r', 'u') => Some("Russian Federation"@),
        ('r', 'w') => Some("Rwanda"@),
        ('b', 'l') => Some("Saint Barthelemy"@),
        ('s', 'h') => Some("Saint Helena"@),
        ('k', 'n') => Some("Saint Kitts And Nevis"@),
        ('l', 'c') => Some("Saint Lucia"@),
        ('m', 'f') => Some("Saint Martin"@),
        ('p', 'm') => Some("Saint Pierre And Miquelon"@),
        ('v', 'c') => Some("Saint Vincent And Grenadines"@),
        ('w', 's') => Some("Samoa"@),
        ('s', 'm') => Some("San Marino"@),
        ('s', 't') => Some("Sao Tome And Principe"@),
        ('s', 'a') => Some("Saudi Arabia"@),
        ('s', 'n') => Some("Senegal"@),
        ('r', 's') => Some("Serbia"@),
        ('s', 'c') => Some("Seychelles"@),
        ('s', 'l') => Some("Sierra Leone"@),
        ('s', 'g') => Some("Singapore"@),
        ('s', 'k') => Some("Slovakia"@),
        ('s', 'i') => Some("Slovenia"@),
        ('s', 'b') => Some("Solomon Islands"@),
        ('s', 'o') => Some("Somalia"@),
        ('z', 'a') => Some("South Africa"@),
        ('g', 's') => Some("South Georgia And Sandwich Isl."@),
        ('e', 's') => Some("Spain"@),
        ('l', 'k') => Some("Sri Lanka"@),
        ('s', 'd') => Some("Sudan"@),
        ('s', 'r') => Some("Suriname"@),
        ('s', 'j') => Some("Svalbard And Jan Mayen"@),
        ('s', 'z') => Some("Swaziland"@),
        ('s', 'e') => Some("Sweden"@),
        ('c', 'h') => Some("Switzerland"@),
        ('s', 'y') => Some("Syrian Arab Republic"@),
        ('t', 'w') => Some("Taiwan"@),
        ('t', 'j') => Some("Tajikistan"@),
        ('t', 'z') => Some("Tanzania"@),
        ('t', 'h') => Some("Thailand"@),
        ('t', 'l') => Some("Timor-Leste"@),
        ('t', 'g') => Some("Togo"@),
        ('t', 'k') => Some("Tokelau"@),
        ('t', 'o') => Some("Tonga"@),
        ('t', 't') => Some("Trinidad And Tobago"@),
        ('t', 'n') => Some("Tunisia"@),
        ('t', 'r') => Some("Turkey"@),
        ('t', 'm') => Some("Turkmenistan"@),
        ('t', 'c') => Some("Turks And Caicos Islands"@),
        ('t', 'v') => Some("Tuvalu"@),
        ('u', 'g') => Some("Uganda"@),
        ('u', 'a') => Some("Ukraine"@),
        ('a', 'e') => Some("United Arab Emirates"@),
        ('g', 'b') => Some("United Kingdom"@),
        ('u', 's') => Some("United States"@),
        ('u', 'm') => Some("United States Outlying Islands"@),
        ('u', 'y') => Some("Uruguay"@),
        ('u', 'z') => Some("Uzbekistan"@),
        ('v', 'u') => Some("Vanuatu"@),
        ('v', 'e') => Some("Venezuela"@),
        ('v', 'n') => Some("Viet Nam"@),
        ('v', 'g') => Some("Virgin Islands, British"@),
        ('v', 'i') => Some("Virgin Islands, U.S."@),
        ('w', 'f') => Some("Wallis And Futuna"@),
        ('e', 'h') => Some("Western Sahara"@),
        ('y', 'e') => Some("Yemen"@),
        ('z', 'm') => Some("Zambia"@),
        ('z', 'w') => Some("Zimbabwe"@),
        _ => None,
    }
}

/// The English short name of a lowercase country code, or the code itself
/// when the table has no entry for it.
pub open spec fn country_name(s: Seq<char>) -> Seq<char> {
    if s.len() == 2 {
        match country_name_entry(s[0], s[1]) {
            Some(n) => n,
            None => s,
        }
    } else {
        s
    }
}

/// Look a lowercase country code up in the table, echoing the input when
/// the table has no entry for it.
#[verifier::rlimit(100)]
pub fn country(country_code: &str) -> (r: &str)
    ensures
        r@ == country_name(country_code@),
{
    if country_code.unicode_len() != 2 {
        return country_code;
    }
    let c0 = country_code.get_char(0);
    let c1 = country_code.get_char(1);
    match (c0, c1) {
        ('a', 'f') => "Afghanistan",
        ('a', 'x') => "Aland Islands",
        ('a', 'l') => "Albania",
        ('d', 'z') => "Algeria",
        ('a', 's') => "American Samoa",
        ('a', 'd') => "Andorra",
        ('a', 'o') => "Angola",
        ('a', 'i') => "Anguilla",
        ('a', 'q') => "Antarctica",
        ('a', 'g') => "Antigua And Barbuda",
        ('a', 'r') => "Argentina",
        ('a', 'm') => "Armenia",
        ('a', 'w') => "Aruba",
        ('a', 'u') => "Australia",
        ('a', 't') => "Austria",
        ('a', 'z') => "Azerbaijan",
        ('b', 's') => "Bahamas",
        ('b', 'h') => "Bahrain",
        ('b', 'd') => "Bangladesh",
        ('b', 'b') => "Barbados",
        ('b', 'y') => "Belarus",
        ('b', 'e') => "Belgium",
        ('b', 'z') => "Belize",
        ('b', 'j') => "Benin",
        ('b', 'm') => "Bermuda",
        ('b', 't') => "Bhutan",
        ('b', 'o') => "Bolivia",
        ('b', 'a') => "Bosnia And Herzegovina",
        ('b', 'w') => "Botswana",
        ('b', 'v') => "Bouvet Island",
        ('b', 'r') => "Brazil",
        ('i', 'o') => "British Indian Ocean Territory",
        ('b', 'n') => "Brunei Darussalam",
        ('b', 'g') => "Bulgaria",
        ('b', 'f') => "Burkina Faso",
        ('b', 'i') => "Burundi",
        ('k', 'h') => "Cambodia",
        ('c', 'm') => "Cameroon",
        ('c', 'a') => "Canada",
        ('c', 'v') => "Cape Verde",
        ('k', 'y') => "Cayman Islands",
        ('c', 'f') => "Central African Republic",
        ('t', 'd') => "Chad",
        ('c', 'l') => "Chile",
        ('c', 'n') => "China",
        ('c', 'x') => "Christmas Island",
        ('c', 'c') => "Cocos (Keeling) Islands",
        ('c', 'o') => "Colombia",
        ('k', 'm') => "Comoros",
        ('c', 'g') => "Congo",
        ('c', 'd') => "Congo, Democratic Republic",
        ('c', 'k') => "Cook Islands",
        ('c', 'r') => "Costa Rica",
        ('c', 'i') => "Cote D'Ivoire",
        ('h', 'r') => "Croatia",
        ('c', 'u') => "Cuba",
        ('c', 'y') => "Cyprus",
        ('c', 'z') => "Czech Republic",
        ('d', 'k') => "Denmark",
        ('d', 'j') => "Djibouti",
        ('d', 'm') => "Dominica",
        ('d', 'o') => "Dominican Republic",
        ('e', 'c') => "Ecuador",
        ('e', 'g') => "Egypt",
        ('s', 'v') => "El Salvador",
        ('g', 'q') => "Equatorial Guinea",
        ('e', 'r') => "Eritrea",
        ('e', 'e') => "Estonia",
        ('e', 't') => "Ethiopia",
        ('f', 'k') => "Falkland Islands (Malvinas)",
        ('f', 'o') => "Faroe Islands",
        ('f', 'j') => "Fiji",
        ('f', 'i') => "Finland",
        ('f', 'r') => "France",
        ('g', 'f') => "French Guiana",
        ('p', 'f') => "French Polynesia",
        ('t', 'f') => "French Southern Territories",
        ('g', 'a') => "Gabon",
        ('g', 'm') => "Gambia",
        ('g', 'e') => "Georgia",
        ('d', 'e') => "Germany",
        ('g', 'h') => "Ghana",
        ('g', 'i') => "Gibraltar",
        ('g', 'r') => "Greece",
        ('g', 'l') => "Greenland",
        ('g', 'd') => "Grenada",
        ('g', 'p') => "Guadeloupe",
        ('g', 'u') => "Guam",
        ('g', 't') => "Guatemala",
        ('g', 'g') => "Guernsey",
        ('g', 'n') => "Guinea",
        ('g', 'w') => "Guinea-Bissau",
        ('g', 'y') => "Guyana",
        ('h', 't') => "Haiti",
        ('h', 'm') => "Heard Island & Mcdonald Islands",
        ('v', 'a') => "Holy See (Vatican City State)",
        ('h', 'n') => "Honduras",
        ('h', 'k') => "Hong Kong",
        ('h', 'u') => "Hungary",
        ('i', 's') => "Iceland",
        ('i', 'n') => "India",
        ('i', 'd') => "Indonesia",
        ('i', 'r') => "Iran, Islamic Republic Of",
        ('i', 'q') => "Iraq",
        ('i', 'e') => "Ireland",
        ('i', 'm') => "Isle Of Man",
        ('i', 'l') => "Israel",
        ('i', 't') => "Italy",
        ('j', 'm') => "Jamaica",
        ('j', 'p') => "Japan",
        ('j', 'e') => "Jersey",
        ('j', 'o') => "Jordan",
        ('k', 'z') => "Kazakhstan",
        ('k', 'e') => "Kenya",
        ('k', 'i') => "Kiribati",
        ('k', 'p') => "Democratic People's Republic of Korea",
        ('k', 'r') => "South Korea",
        ('k', 'w') => "Kuwait",
        ('k', 'g') => "Kyrgyzstan",
        ('l', 'a') => "Lao People's Democratic Republic",
        ('l', 'v') => "Latvia",
        ('l', 'b') => "Lebanon",
        ('l', 's') => "Lesotho",
        ('l', 'r') => "Liberia",
        ('l', 'y') => "Libyan Arab Jamahiriya",
        ('l', 'i') => "Liechtenstein",
        ('l', 't') => "Lithuania",
        ('l', 'u') => "Luxembourg",
        ('m', 'o') => "Macao",
        ('m', 'k') => "Macedonia",
        ('m', 'g') => "Madagascar",
        ('m', 'w') => "Malawi",
        ('m', 'y') => "Malaysia",
        ('m', 'v') => "Maldives",
        ('m', 'l') => "Mali",
        ('m', 't') => "Malta",
        ('m', 'h') => "Marshall Islands",
        ('m', 'q') => "Martinique",
        ('m', 'r') => "Mauritania",
        ('m', 'u') => "Mauritius",
        ('y', 't') => "Mayotte",
        ('m', 'x') => "Mexico",
        ('f', 'm') => "Micronesia, Federated States Of",
        ('m', 'd') => "Moldova",
        ('m', 'c') => "Monaco",
        ('m', 'n') => "Mongolia",
        ('m', 'e') => "Montenegro",
        ('m', 's') => "Montserrat",
        ('m', 'a') => "Morocco",
        ('m', 'z') => "Mozambique",
        ('m', 'm') => "Myanmar",
        ('n', 'a') => "Namibia",
        ('n', 'r') => "Nauru",
        ('n', 'p') => "Nepal",
        ('n', 'l') => "Netherlands",
        ('a', 'n') => "Netherlands Antilles",
        ('n', 'c') => "New Caledonia",
        ('n', 'z') => "New Zealand",
        ('n', 'i') => "Nicaragua",
        ('n', 'e') => "Niger",
        ('n', 'g') => "Nigeria",
        ('n', 'u') => "Niue",
        ('n', 'f') => "Norfolk Island",
        ('m', 'p') => "Northern Mariana Islands",
        ('n', 'o') => "Norway",
        ('o', 'm') => "Oman",
        ('p', 'k') => "Pakistan",
        ('p', 'w') => "Palau",
        ('p', 's') => "Palestinian Territory, Occupied",
        ('p', 'a') => "Panama",
        ('p', 'g') => "Papua New Guinea",
        ('p', 'y') => "Paraguay",
        ('p', 'e') => "Peru",
        ('p', 'h') => "Philippines",
        ('p', 'n') => "Pitcairn",
        ('p', 'l') => "Poland",
        ('p', 't') => "Portugal",
        ('p', 'r') => "Puerto Rico",
        ('q', 'a') => "Qatar",
        ('r', 'e') => "Reunion",
        ('r', 'o') => "Romania",
        ('r', 'u') => "Russian Federation",
        ('r', 'w') => "Rwanda",
        ('b', 'l') => "Saint Barthelemy",
        ('s', 'h') => "Saint Helena",
        ('k', 'n') => "Saint Kitts And Nevis",
        ('l', 'c') => "Saint Lucia",
        ('m', 'f') => "Saint Martin",
        ('p', 'm') => "Saint Pierre And Miquelon",
        ('v', 'c') => "Saint Vincent And Grenadines",
        ('w', 's') => "Samoa",
        ('s', 'm') => "San Marino",
        ('s', 't') => "Sao Tome And Principe",
        ('s', 'a') => "Saudi Arabia",
        ('s', 'n') => "Senegal",
        ('r', 's') => "Serbia",
        ('s', 'c') => "Seychelles",
        ('s', 'l') => "Sierra Leone",
        ('s', 'g') => "Singapore",
        ('s', 'k') => "Slovakia",
        ('s', 'i') => "Slovenia",
        ('s', 'b') => "Solomon Islands",
        ('s', 'o') => "Somalia",
        ('z', 'a') => "South Africa",
        ('g', 's') => "South Georgia And Sandwich Isl.",
        ('e', 's') => "Spain",
        ('l', 'k') => "Sri Lanka",
        ('s', 'd') => "Sudan",
        ('s', 'r') => "Suriname",
        ('s', 'j') => "Svalbard And Jan Mayen",
        ('s', 'z') => "Swaziland",
        ('s', 'e') => "Sweden",
        ('c', 'h') => "Switzerland",
        ('s', 'y') => "Syrian Arab Republic",
        ('t', 'w') => "Taiwan",
        ('t', 'j') => "Tajikistan",
        ('t', 'z') => "Tanzania",
        ('t', 'h') => "Thailand",
        ('t', 'l') => "Timor-Leste",
        ('t', 'g') => "Togo",
        ('t', 'k') => "Tokelau",
        ('t', 'o') => "Tonga",
        ('t', 't') => "Trinidad And Tobago",
        ('t', 'n') => "Tunisia",
        ('t', 'r') => "Turkey",
        ('t', 'm') => "Turkmenistan",
        ('t', 'c') => "Turks And Caicos Islands",
        ('t', 'v') => "Tuvalu",
        ('u', 'g') => "Uganda",
        ('u', 'a') => "Ukraine",
        ('a', 'e') => "United Arab Emirates",
        ('g', 'b') => "United Kingdom",
        ('u', 's') => "United States",
        ('u', 'm') => "United States Outlying Islands",
        ('u', 'y') => "Uruguay",
        ('u', 'z') => "Uzbekistan",
        ('v', 'u') => "Vanuatu",
        ('v', 'e') => "Venezuela",
        ('v', 'n') => "Viet Nam",
        ('v', 'g') => "Virgin Islands, British",
        ('v', 'i') => "Virgin Islands, U.S.",
        ('w', 'f') => "Wallis And Futuna",
        ('e', 'h') => "Western Sahara",
        ('y', 'e') => "Yemen",
        ('z', 'm') => "Zambia",
        ('z', 'w') => "Zimbabwe",
        _ => country_code,
    }
}

} // verus!
