//! Country codes for GeoIP enrichment.
use vstd::prelude::*;

use crate::text::{chars_of, push_char, push_range, string_from_range};

verus! {

/// The ISO 3166-1 alpha-3 code of a country or territory, given the two
/// letters of its alpha-2 code.
pub open spec fn alpha3_of(first: char, second: char) -> Option<Seq<char>> {
    match (first, second) {
        ('A', 'D') => Some("AND"@),
        ('A', 'E') => Some("ARE"@),
        ('A', 'F') => Some("AFG"@),
        ('A', 'G') => Some("ATG"@),
        ('A', 'I') => Some("AIA"@),
        ('A', 'L') => Some("ALB"@),
        ('A', 'M') => Some("ARM"@),
        ('A', 'O') => Some("AGO"@),
        ('A', 'Q') => Some("ATA"@),
        ('A', 'R') => Some("ARG"@),
        ('A', 'S') => Some("ASM"@),
        ('A', 'T') => Some("AUT"@),
        ('A', 'U') => Some("AUS"@),
        ('A', 'W') => Some("ABW"@),
        ('A', 'X') => Some("ALA"@),
        ('A', 'Z') => Some("AZE"@),
        ('B', 'A') => Some("BIH"@),
        ('B', 'B') => Some("BRB"@),
        ('B', 'D') => Some("BGD"@),
        ('B', 'E') => Some("BEL"@),
        ('B', 'F') => Some("BFA"@),
        ('B', 'G') => Some("BGR"@),
        ('B', 'H') => Some("BHR"@),
        ('B', 'I') => Some("BDI"@),
        ('B', 'J') => Some("BEN"@),
        ('B', 'L') => Some("BLM"@),
        ('B', 'M') => Some("BMU"@),
        ('B', 'N') => Some("BRN"@),
        ('B', 'O') => Some("BOL"@),
        ('B', 'Q') => Some("BES"@),
        ('B', 'R') => Some("BRA"@),
        ('B', 'S') => Some("BHS"@),
        ('B', 'T') => Some("BTN"@),
        ('B', 'V') => Some("BVT"@),
        ('B', 'W') => Some("BWA"@),
        ('B', 'Y') => Some("BLR"@),
        ('B', 'Z') => Some("BLZ"@),
        ('C', 'A') => Some("CAN"@),
        ('C', 'C') => Some("CCK"@),
        ('C', 'D') => Some("COD"@),
        ('C', 'F') => Some("CAF"@),
        ('C', 'G') => Some("COG"@),
        ('C', 'H') => Some("CHE"@),
        ('C', 'I') => Some("CIV"@),
        ('C', 'K') => Some("COK"@),
        ('C', 'L') => Some("CHL"@),
        ('C', 'M') => Some("CMR"@),
        ('C', 'N') => Some("CHN"@),
        ('C', 'O') => Some("COL"@),
        ('C', 'R') => Some("CRI"@),
        ('C', 'U') => Some("CUB"@),
        ('C', 'V') => Some("CPV"@),
        ('C', 'W') => Some("CUW"@),
        ('C', 'X') => Some("CXR"@),
        ('C', 'Y') => Some("CYP"@),
        ('C', 'Z') => Some("CZE"@),
        ('D', 'E') => Some("DEU"@),
        ('D', 'J') => Some("DJI"@),
        ('D', 'K') => Some("DNK"@),
        ('D', 'M') => Some("DMA"@),
        ('D', 'O') => Some("DOM"@),
        ('D', 'Z') => Some("DZA"@),
        ('E', 'C') => Some("ECU"@),
        ('E', 'E') => Some("EST"@),
        ('E', 'G') => Some("EGY"@),
        ('E', 'H') => Some("ESH"@),
        ('E', 'R') => Some("ERI"@),
        ('E', 'S') => Some("ESP"@),
        ('E', 'T') => Some("ETH"@),
        ('F', 'I') => Some("FIN"@),
        ('F', 'J') => Some("FJI"@),
        ('F', 'K') => Some("FLK"@),
        ('F', 'M') => Some("FSM"@),
        ('F', 'O') => Some("FRO"@),
        ('F', 'R') => Some("FRA"@),
        ('G', 'A') => Some("GAB"@),
        ('G', 'B') => Some("GBR"@),
        ('G', 'D') => Some("GRD"@),
        ('G', 'E') => Some("GEO"@),
        ('G', 'F') => Some("GUF"@),
        ('G', 'G') => Some("GGY"@),
        ('G', 'H') => Some("GHA"@),
        ('G', 'I') => Some("GIB"@),
        ('G', 'L') => Some("GRL"@),
        ('G', 'M') => Some("GMB"@),
        ('G', 'N') => Some("GIN"@),
        ('G', 'P') => Some("GLP"@),
        ('G', 'Q') => Some("GNQ"@),
        ('G', 'R') => Some("GRC"@),
        ('G', 'S') => Some("SGS"@),
        ('G', 'T') => Some("GTM"@),
        ('G', 'U') => Some("GUM"@),
        ('G', 'W') => Some("GNB"@),
        ('G', 'Y') => Some("GUY"@),
        ('H', 'K') => Some("HKG"@),
        ('H', 'M') => Some("HMD"@),
        ('H', 'N') => Some("HND"@),
        ('H', 'R') => Some("HRV"@),
        ('H', 'T') => Some("HTI"@),
        ('H', 'U') => Some("HUN"@),
        ('I', 'D') => Some("IDN"@),
        ('I', 'E') => Some("IRL"@),
        ('I', 'L') => Some("ISR"@),
        ('I', 'M') => Some("IMN"@),
        ('I', 'N') => Some("IND"@),
        ('I', 'O') => Some("IOT"@),
        ('I', 'Q') => Some("IRQ"@),
        ('I', 'R') => Some("IRN"@),
        ('I', 'S') => Some("ISL"@),
        ('I', 'T') => Some("ITA"@),
        ('J', 'E') => Some("JEY"@),
        ('J', 'M') => Some("JAM"@),
        ('J', 'O') => Some("JOR"@),
        ('J', 'P') => Some("JPN"@),
        ('K', 'E') => Some("KEN"@),
        ('K', 'G') => Some("KGZ"@),
        ('K', 'H') => Some("KHM"@),
        ('K', 'I') => Some("KIR"@),
        ('K', 'M') => Some("COM"@),
        ('K', 'N') => Some("KNA"@),
        ('K', 'P') => Some("PRK"@),
        ('K', 'R') => Some("KOR"@),
        ('K', 'W') => Some("KWT"@),
        ('K', 'Y') => Some("CYM"@),
        ('K', 'Z') => Some("KAZ"@),
        ('L', 'A') => Some("LAO"@),
        ('L', 'B') => Some("LBN"@),
        ('L', 'C') => Some("LCA"@),
        ('L', 'I') => Some("LIE"@),
        ('L', 'K') => Some("LKA"@),
        ('L', 'R') => Some("LBR"@),
        ('L', 'S') => Some("LSO"@),
        ('L', 'T') => Some("LTU"@),
        ('L', 'U') => Some("LUX"@),
        ('L', 'V') => Some("LVA"@),
        ('L', 'Y') => Some("LBY"@),
        ('M', 'A') => Some("MAR"@),
        ('M', 'C') => Some("MCO"@),
        ('M', 'D') => Some("MDA"@),
        ('M', 'E') => Some("MNE"@),
        ('M', 'F') => Some("MAF"@),
        ('M', 'G') => Some("MDG"@),
        ('M', 'H') => Some("MHL"@),
        ('M', 'K') => Some("MKD"@),
        ('M', 'L') => Some("MLI"@),
        ('M', 'M') => Some("MMR"@),
        ('M', 'N') => Some("MNG"@),
        ('M', 'O') => Some("MAC"@),
        ('M', 'P') => Some("MNP"@),
        ('M', 'Q') => Some("MTQ"@),
        ('M', 'R') => Some("MRT"@),
        ('M', 'S') => Some("MSR"@),
        ('M', 'T') => Some("MLT"@),
        ('M', 'U') => Some("MUS"@),
        ('M', 'V') => Some("MDV"@),
        ('M', 'W') => Some("MWI"@),
        ('M', 'X') => Some("MEX"@),
        ('M', 'Y') => Some("MYS"@),
        ('M', 'Z') => Some("MOZ"@),
        ('N', 'A') => Some("NAM"@),
        ('N', 'C') => Some("NCL"@),
        ('N', 'E') => Some("NER"@),
        ('N', 'F') => Some("NFK"@),
        ('N', 'G') => Some("NGA"@),
        ('N', 'I') => Some("NIC"@),
        ('N', 'L') => Some("NLD"@),
        ('N', 'O') => Some("NOR"@),
        ('N', 'P') => Some("NPL"@),
        ('N', 'R') => Some("NRU"@),
        ('N', 'U') => Some("NIU"@),
        ('N', 'Z') => Some("NZL"@),
        ('O', 'M') => Some("OMN"@),
        ('P', 'A') => Some("PAN"@),
        ('P', 'E') => Some("PER"@),
        ('P', 'F') => Some("PYF"@),
        ('P', 'G') => Some("PNG"@),
        ('P', 'H') => Some("PHL"@),
        ('P', 'K') => Some("PAK"@),
        ('P', 'L') => Some("POL"@),
        ('P', 'M') => Some("SPM"@),
        ('P', 'N') => Some("PCN"@),
        ('P', 'R') => Some("PRI"@),
        ('P', 'S') => Some("PSE"@),
        ('P', 'T') => Some("PRT"@),
        ('P', 'W') => Some("PLW"@),
        ('P', 'Y') => Some("PRY"@),
        ('Q', 'A') => Some("QAT"@),
        ('R', 'E') => Some("REU"@),
        ('R', 'O') => Some("ROU"@),
        ('R', 'S') => Some("SRB"@),
        ('R', 'U') => Some("RUS"@),
        ('R', 'W') => Some("RWA"@),
        ('S', 'A') => Some("SAU"@),
        ('S', 'B') => Some("SLB"@),
        ('S', 'C') => Some("SYC"@),
        ('S', 'D') => Some("SDN"@),
        ('S', 'E') => Some("SWE"@),
        ('S', 'G') => Some("SGP"@),
        ('S', 'H') => Some("SHN"@),
        ('S', 'I') => Some("SVN"@),
        ('S', 'J') => Some("SJM"@),
        ('S', 'K') => Some("SVK"@),
        ('S', 'L') => Some("SLE"@),
        ('S', 'M') => Some("SMR"@),
        ('S', 'N') => Some("SEN"@),
        ('S', 'O') => Some("SOM"@),
        ('S', 'R') => Some("SUR"@),
        ('S', 'S') => Some("SSD"@),
        ('S', 'T') => Some("STP"@),
        ('S', 'V') => Some("SLV"@),
        ('S', 'X') => Some("SXM"@),
        ('S', 'Y') => Some("SYR"@),
        ('S', 'Z') => Some("SWZ"@),
        ('T', 'C') => Some("TCA"@),
        ('T', 'D') => Some("TCD"@),
        ('T', 'F') => Some("ATF"@),
        ('T', 'G') => Some("TGO"@),
        ('T', 'H') => Some("THA"@),
        ('T', 'J') => Some("TJK"@),
        ('T', 'K') => Some("TKL"@),
        ('T', 'L') => Some("TLS"@),
        ('T', 'M') => Some("TKM"@),
        ('T', 'N') => Some("TUN"@),
        ('T', 'O') => Some("TON"@),
        ('T', 'R') => Some("TUR"@),
        ('T', 'T') => Some("TTO"@),
        ('T', 'V') => Some("TUV"@),
        ('T', 'W') => Some("TWN"@),
        ('T', 'Z') => Some("TZA"@),
        ('U', 'A') => Some("UKR"@),
        ('U', 'G') => Some("UGA"@),
        ('U', 'M') => Some("UMI"@),
        ('U', 'S') => Some("USA"@),
        ('U', 'Y') => Some("URY"@),
        ('U', 'Z') => Some("UZB"@),
        ('V', 'A') => Some("VAT"@),
        ('V', 'C') => Some("VCT"@),
        ('V', 'E') => Some("VEN"@),
        ('V', 'G') => Some("VGB"@),
        ('V', 'I') => Some("VIR"@),
        ('V', 'N') => Some("VNM"@),
        ('V', 'U') => Some("VUT"@),
        ('W', 'F') => Some("WLF"@),
        ('W', 'S') => Some("WSM"@),
        ('Y', 'E') => Some("YEM"@),
        ('Y', 'T') => Some("MYT"@),
        ('Z', 'A') => Some("ZAF"@),
        ('Z', 'M') => Some("ZMB"@),
        ('Z', 'W') => Some("ZWE"@),
        _ => None,
    }
}

/// The ISO 3166-1 alpha-3 code for an alpha-2 code, `None` for a code that is
/// not in the table.
pub fn iso2_to_iso3(iso2: &str) -> (r: Option<&'static str>)
    ensures
        r is Some <==> (iso2@.len() == 2 && alpha3_of(iso2@[0], iso2@[1]) is Some),
        r matches Some(code) ==> code@ == alpha3_of(iso2@[0], iso2@[1])->Some_0,
{
    let chars = chars_of(iso2);
    if chars.len() != 2 {
        return None;
    }
    match (chars[0], chars[1]) {
        ('A', 'D') => Some("AND"),
        ('A', 'E') => Some("ARE"),
        ('A', 'F') => Some("AFG"),
        ('A', 'G') => Some("ATG"),
        ('A', 'I') => Some("AIA"),
        ('A', 'L') => Some("ALB"),
        ('A', 'M') => Some("ARM"),
        ('A', 'O') => Some("AGO"),
        ('A', 'Q') => Some("ATA"),
        ('A', 'R') => Some("ARG"),
        ('A', 'S') => Some("ASM"),
        ('A', 'T') => Some("AUT"),
        ('A', 'U') => Some("AUS"),
        ('A', 'W') => Some("ABW"),
        ('A', 'X') => Some("ALA"),
        ('A', 'Z') => Some("AZE"),
        ('B', 'A') => Some("BIH"),
        ('B', 'B') => Some("BRB"),
        ('B', 'D') => Some("BGD"),
        ('B', 'E') => Some("BEL"),
        ('B', 'F') => Some("BFA"),
        ('B', 'G') => Some("BGR"),
        ('B', 'H') => Some("BHR"),
        ('B', 'I') => Some("BDI"),
        ('B', 'J') => Some("BEN"),
        ('B', 'L') => Some("BLM"),
        ('B', 'M') => Some("BMU"),
        ('B', 'N') => Some("BRN"),
        ('B', 'O') => Some("BOL"),
        ('B', 'Q') => Some("BES"),
        ('B', 'R') => Some("BRA"),
        ('B', 'S') => Some("BHS"),
        ('B', 'T') => Some("BTN"),
        ('B', 'V') => Some("BVT"),
        ('B', 'W') => Some("BWA"),
        ('B', 'Y') => Some("BLR"),
        ('B', 'Z') => Some("BLZ"),
        ('C', 'A') => Some("CAN"),
        ('C', 'C') => Some("CCK"),
        ('C', 'D') => Some("COD"),
        ('C', 'F') => Some("CAF"),
        ('C', 'G') => Some("COG"),
        ('C', 'H') => Some("CHE"),
        ('C', 'I') => Some("CIV"),
        ('C', 'K') => Some("COK"),
        ('C', 'L') => Some("CHL"),
        ('C', 'M') => Some("CMR"),
        ('C', 'N') => Some("CHN"),
        ('C', 'O') => Some("COL"),
        ('C', 'R') => Some("CRI"),
        ('C', 'U') => Some("CUB"),
        ('C', 'V') => Some("CPV"),
        ('C', 'W') => Some("CUW"),
        ('C', 'X') => Some("CXR"),
        ('C', 'Y') => Some("CYP"),
        ('C', 'Z') => Some("CZE"),
        ('D', 'E') => Some("DEU"),
        ('D', 'J') => Some("DJI"),
        ('D', 'K') => Some("DNK"),
        ('D', 'M') => Some("DMA"),
        ('D', 'O') => Some("DOM"),
        ('D', 'Z') => Some("DZA"),
        ('E', 'C') => Some("ECU"),
        ('E', 'E') => Some("EST"),
        ('E', 'G') => Some("EGY"),
        ('E', 'H') => Some("ESH"),
        ('E', 'R') => Some("ERI"),
        ('E', 'S') => Some("ESP"),
        ('E', 'T') => Some("ETH"),
        ('F', 'I') => Some("FIN"),
        ('F', 'J') => Some("FJI"),
        ('F', 'K') => Some("FLK"),
        ('F', 'M') => Some("FSM"),
        ('F', 'O') => Some("FRO"),
        ('F', 'R') => Some("FRA"),
        ('G', 'A') => Some("GAB"),
        ('G', 'B') => Some("GBR"),
        ('G', 'D') => Some("GRD"),
        ('G', 'E') => Some("GEO"),
        ('G', 'F') => Some("GUF"),
        ('G', 'G') => Some("GGY"),
        ('G', 'H') => Some("GHA"),
        ('G', 'I') => Some("GIB"),
        ('G', 'L') => Some("GRL"),
        ('G', 'M') => Some("GMB"),
        ('G', 'N') => Some("GIN"),
        ('G', 'P') => Some("GLP"),
        ('G', 'Q') => Some("GNQ"),
        ('G', 'R') => Some("GRC"),
        ('G', 'S') => Some("SGS"),
        ('G', 'T') => Some("GTM"),
        ('G', 'U') => Some("GUM"),
        ('G', 'W') => Some("GNB"),
        ('G', 'Y') => Some("GUY"),
        ('H', 'K') => Some("HKG"),
        ('H', 'M') => Some("HMD"),
        ('H', 'N') => Some("HND"),
        ('H', 'R') => Some("HRV"),
        ('H', 'T') => Some("HTI"),
        ('H', 'U') => Some("HUN"),
        ('I', 'D') => Some("IDN"),
        ('I', 'E') => Some("IRL"),
        ('I', 'L') => Some("ISR"),
        ('I', 'M') => Some("IMN"),
        ('I', 'N') => Some("IND"),
        ('I', 'O') => Some("IOT"),
        ('I', 'Q') => Some("IRQ"),
        ('I', 'R') => Some("IRN"),
        ('I', 'S') => Some("ISL"),
        ('I', 'T') => Some("ITA"),
        ('J', 'E') => Some("JEY"),
        ('J', 'M') => Some("JAM"),
        ('J', 'O') => Some("JOR"),
        ('J', 'P') => Some("JPN"),
        ('K', 'E') => Some("KEN"),
        ('K', 'G') => Some("KGZ"),
        ('K', 'H') => Some("KHM"),
        ('K', 'I') => Some("KIR"),
        ('K', 'M') => Some("COM"),
        ('K', 'N') => Some("KNA"),
        ('K', 'P') => Some("PRK"),
        ('K', 'R') => Some("KOR"),
        ('K', 'W') => Some("KWT"),
        ('K', 'Y') => Some("CYM"),
        ('K', 'Z') => Some("KAZ"),
        ('L', 'A') => Some("LAO"),
        ('L', 'B') => Some("LBN"),
        ('L', 'C') => Some("LCA"),
        ('L', 'I') => Some("LIE"),
        ('L', 'K') => Some("LKA"),
        ('L', 'R') => Some("LBR"),
        ('L', 'S') => Some("LSO"),
        ('L', 'T') => Some("LTU"),
        ('L', 'U') => Some("LUX"),
        ('L', 'V') => Some("LVA"),
        ('L', 'Y') => Some("LBY"),
        ('M', 'A') => Some("MAR"),
        ('M', 'C') => Some("MCO"),
        ('M', 'D') => Some("MDA"),
        ('M', 'E') => Some("MNE"),
        ('M', 'F') => Some("MAF"),
        ('M', 'G') => Some("MDG"),
        ('M', 'H') => Some("MHL"),
        ('M', 'K') => Some("MKD"),
        ('M', 'L') => Some("MLI"),
        ('M', 'M') => Some("MMR"),
        ('M', 'N') => Some("MNG"),
        ('M', 'O') => Some("MAC"),
        ('M', 'P') => Some("MNP"),
        ('M', 'Q') => Some("MTQ"),
        ('M', 'R') => Some("MRT"),
        ('M', 'S') => Some("MSR"),
        ('M', 'T') => Some("MLT"),
        ('M', 'U') => Some("MUS"),
        ('M', 'V') => Some("MDV"),
        ('M', 'W') => Some("MWI"),
        ('M', 'X') => Some("MEX"),
        ('M', 'Y') => Some("MYS"),
        ('M', 'Z') => Some("MOZ"),
        ('N', 'A') => Some("NAM"),
        ('N', 'C') => Some("NCL"),
        ('N', 'E') => Some("NER"),
        ('N', 'F') => Some("NFK"),
        ('N', 'G') => Some("NGA"),
        ('N', 'I') => Some("NIC"),
        ('N', 'L') => Some("NLD"),
        ('N', 'O') => Some("NOR"),
        ('N', 'P') => Some("NPL"),
        ('N', 'R') => Some("NRU"),
        ('N', 'U') => Some("NIU"),
        ('N', 'Z') => Some("NZL"),
        ('O', 'M') => Some("OMN"),
        ('P', 'A') => Some("PAN"),
        ('P', 'E') => Some("PER"),
        ('P', 'F') => Some("PYF"),
        ('P', 'G') => Some("PNG"),
        ('P', 'H') => Some("PHL"),
        ('P', 'K') => Some("PAK"),
        ('P', 'L') => Some("POL"),
        ('P', 'M') => Some("SPM"),
        ('P', 'N') => Some("PCN"),
        ('P', 'R') => Some("PRI"),
        ('P', 'S') => Some("PSE"),
        ('P', 'T') => Some("PRT"),
        ('P', 'W') => Some("PLW"),
        ('P', 'Y') => Some("PRY"),
        ('Q', 'A') => Some("QAT"),
        ('R', 'E') => Some("REU"),
        ('R', 'O') => Some("ROU"),
        ('R', 'S') => Some("SRB"),
        ('R', 'U') => Some("RUS"),
        ('R', 'W') => Some("RWA"),
        ('S', 'A') => Some("SAU"),
        ('S', 'B') => Some("SLB"),
        ('S', 'C') => Some("SYC"),
        ('S', 'D') => Some("SDN"),
        ('S', 'E') => Some("SWE"),
        ('S', 'G') => Some("SGP"),
        ('S', 'H') => Some("SHN"),
        ('S', 'I') => Some("SVN"),
        ('S', 'J') => Some("SJM"),
        ('S', 'K') => Some("SVK"),
        ('S', 'L') => Some("SLE"),
        ('S', 'M') => Some("SMR"),
        ('S', 'N') => Some("SEN"),
        ('S', 'O') => Some("SOM"),
        ('S', 'R') => Some("SUR"),
        ('S', 'S') => Some("SSD"),
        ('S', 'T') => Some("STP"),
        ('S', 'V') => Some("SLV"),
        ('S', 'X') => Some("SXM"),
        ('S', 'Y') => Some("SYR"),
        ('S', 'Z') => Some("SWZ"),
        ('T', 'C') => Some("TCA"),
        ('T', 'D') => Some("TCD"),
        ('T', 'F') => Some("ATF"),
        ('T', 'G') => Some("TGO"),
        ('T', 'H') => Some("THA"),
        ('T', 'J') => Some("TJK"),
        ('T', 'K') => Some("TKL"),
        ('T', 'L') => Some("TLS"),
        ('T', 'M') => Some("TKM"),
        ('T', 'N') => Some("TUN"),
        ('T', 'O') => Some("TON"),
        ('T', 'R') => Some("TUR"),
        ('T', 'T') => Some("TTO"),
        ('T', 'V') => Some("TUV"),
        ('T', 'W') => Some("TWN"),
        ('T', 'Z') => Some("TZA"),
        ('U', 'A') => Some("UKR"),
        ('U', 'G') => Some("UGA"),
        ('U', 'M') => Some("UMI"),
        ('U', 'S') => Some("USA"),
        ('U', 'Y') => Some("URY"),
        ('U', 'Z') => Some("UZB"),
        ('V', 'A') => Some("VAT"),
        ('V', 'C') => Some("VCT"),
        ('V', 'E') => Some("VEN"),
        ('V', 'G') => Some("VGB"),
        ('V', 'I') => Some("VIR"),
        ('V', 'N') => Some("VNM"),
        ('V', 'U') => Some("VUT"),
        ('W', 'F') => Some("WLF"),
        ('W', 'S') => Some("WSM"),
        ('Y', 'E') => Some("YEM"),
        ('Y', 'T') => Some("MYT"),
        ('Z', 'A') => Some("ZAF"),
        ('Z', 'M') => Some("ZMB"),
        ('Z', 'W') => Some("ZWE"),
        _ => None,
    }
}

pub open spec fn is_upper(c: char) -> bool {
    'A' <= c && c <= 'Z'
}

/// The alpha-2 code of an alpha-3 code: the table read backwards.
pub open spec fn alpha2_of(x: char, y: char, z: char) -> Option<(char, char)> {
    match (x, y, z) {
        ('A', 'N', 'D') => Some(('A', 'D')),
        ('A', 'R', 'E') => Some(('A', 'E')),
        ('A', 'F', 'G') => Some(('A', 'F')),
        ('A', 'T', 'G') => Some(('A', 'G')),
        ('A', 'I', 'A') => Some(('A', 'I')),
        ('A', 'L', 'B') => Some(('A', 'L')),
        ('A', 'R', 'M') => Some(('A', 'M')),
        ('A', 'G', 'O') => Some(('A', 'O')),
        ('A', 'T', 'A') => Some(('A', 'Q')),
        ('A', 'R', 'G') => Some(('A', 'R')),
        ('A', 'S', 'M') => Some(('A', 'S')),
        ('A', 'U', 'T') => Some(('A', 'T')),
        ('A', 'U', 'S') => Some(('A', 'U')),
        ('A', 'B', 'W') => Some(('A', 'W')),
        ('A', 'L', 'A') => Some(('A', 'X')),
        ('A', 'Z', 'E') => Some(('A', 'Z')),
        ('B', 'I', 'H') => Some(('B', 'A')),
        ('B', 'R', 'B') => Some(('B', 'B')),
        ('B', 'G', 'D') => Some(('B', 'D')),
        ('B', 'E', 'L') => Some(('B', 'E')),
        ('B', 'F', 'A') => Some(('B', 'F')),
        ('B', 'G', 'R') => Some(('B', 'G')),
        ('B', 'H', 'R') => Some(('B', 'H')),
        ('B', 'D', 'I') => Some(('B', 'I')),
        ('B', 'E', 'N') => Some(('B', 'J')),
        ('B', 'L', 'M') => Some(('B', 'L')),
        ('B', 'M', 'U') => Some(('B', 'M')),
        ('B', 'R', 'N') => Some(('B', 'N')),
        ('B', 'O', 'L') => Some(('B', 'O')),
        ('B', 'E', 'S') => Some(('B', 'Q')),
        ('B', 'R', 'A') => Some(('B', 'R')),
        ('B', 'H', 'S') => Some(('B', 'S')),
        ('B', 'T', 'N') => Some(('B', 'T')),
        ('B', 'V', 'T') => Some(('B', 'V')),
        ('B', 'W', 'A') => Some(('B', 'W')),
        ('B', 'L', 'R') => Some(('B', 'Y')),
        ('B', 'L', 'Z') => Some(('B', 'Z')),
        ('C', 'A', 'N') => Some(('C', 'A')),
        ('C', 'C', 'K') => Some(('C', 'C')),
        ('C', 'O', 'D') => Some(('C', 'D')),
        ('C', 'A', 'F') => Some(('C', 'F')),
        ('C', 'O', 'G') => Some(('C', 'G')),
        ('C', 'H', 'E') => Some(('C', 'H')),
        ('C', 'I', 'V') => Some(('C', 'I')),
        ('C', 'O', 'K') => Some(('C', 'K')),
        ('C', 'H', 'L') => Some(('C', 'L')),
        ('C', 'M', 'R') => Some(('C', 'M')),
        ('C', 'H', 'N') => Some(('C', 'N')),
        ('C', 'O', 'L') => Some(('C', 'O')),
        ('C', 'R', 'I') => Some(('C', 'R')),
        ('C', 'U', 'B') => Some(('C', 'U')),
        ('C', 'P', 'V') => Some(('C', 'V')),
        ('C', 'U', 'W') => Some(('C', 'W')),
        ('C', 'X', 'R') => Some(('C', 'X')),
        ('C', 'Y', 'P') => Some(('C', 'Y')),
        ('C', 'Z', 'E') => Some(('C', 'Z')),
        ('D', 'E', 'U') => Some(('D', 'E')),
        ('D', 'J', 'I') => Some(('D', 'J')),
        ('D', 'N', 'K') => Some(('D', 'K')),
        ('D', 'M', 'A') => Some(('D', 'M')),
        ('D', 'O', 'M') => Some(('D', 'O')),
        ('D', 'Z', 'A') => Some(('D', 'Z')),
        ('E', 'C', 'U') => Some(('E', 'C')),
        ('E', 'S', 'T') => Some(('E', 'E')),
        ('E', 'G', 'Y') => Some(('E', 'G')),
        ('E', 'S', 'H') => Some(('E', 'H')),
        ('E', 'R', 'I') => Some(('E', 'R')),
        ('E', 'S', 'P') => Some(('E', 'S')),
        ('E', 'T', 'H') => Some(('E', 'T')),
        ('F', 'I', 'N') => Some(('F', 'I')),
        ('F', 'J', 'I') => Some(('F', 'J')),
        ('F', 'L', 'K') => Some(('F', 'K')),
        ('F', 'S', 'M') => Some(('F', 'M')),
        ('F', 'R', 'O') => Some(('F', 'O')),
        ('F', 'R', 'A') => Some(('F', 'R')),
        ('G', 'A', 'B') => Some(('G', 'A')),
        ('G', 'B', 'R') => Some(('G', 'B')),
        ('G', 'R', 'D') => Some(('G', 'D')),
        ('G', 'E', 'O') => Some(('G', 'E')),
        ('G', 'U', 'F') => Some(('G', 'F')),
        ('G', 'G', 'Y') => Some(('G', 'G')),
        ('G', 'H', 'A') => Some(('G', 'H')),
        ('G', 'I', 'B') => Some(('G', 'I')),
        ('G', 'R', 'L') => Some(('G', 'L')),
        ('G', 'M', 'B') => Some(('G', 'M')),
        ('G', 'I', 'N') => Some(('G', 'N')),
        ('G', 'L', 'P') => Some(('G', 'P')),
        ('G', 'N', 'Q') => Some(('G', 'Q')),
        ('G', 'R', 'C') => Some(('G', 'R')),
        ('S', 'G', 'S') => Some(('G', 'S')),
        ('G', 'T', 'M') => Some(('G', 'T')),
        ('G', 'U', 'M') => Some(('G', 'U')),
        ('G', 'N', 'B') => Some(('G', 'W')),
        ('G', 'U', 'Y') => Some(('G', 'Y')),
        ('H', 'K', 'G') => Some(('H', 'K')),
        ('H', 'M', 'D') => Some(('H', 'M')),
        ('H', 'N', 'D') => Some(('H', 'N')),
        ('H', 'R', 'V') => Some(('H', 'R')),
        ('H', 'T', 'I') => Some(('H', 'T')),
        ('H', 'U', 'N') => Some(('H', 'U')),
        ('I', 'D', 'N') => Some(('I', 'D')),
        ('I', 'R', 'L') => Some(('I', 'E')),
        ('I', 'S', 'R') => Some(('I', 'L')),
        ('I', 'M', 'N') => Some(('I', 'M')),
        ('I', 'N', 'D') => Some(('I', 'N')),
        ('I', 'O', 'T') => Some(('I', 'O')),
        ('I', 'R', 'Q') => Some(('I', 'Q')),
        ('I', 'R', 'N') => Some(('I', 'R')),
        ('I', 'S', 'L') => Some(('I', 'S')),
        ('I', 'T', 'A') => Some(('I', 'T')),
        ('J', 'E', 'Y') => Some(('J', 'E')),
        ('J', 'A', 'M') => Some(('J', 'M')),
        ('J', 'O', 'R') => Some(('J', 'O')),
        ('J', 'P', 'N') => Some(('J', 'P')),
        ('K', 'E', 'N') => Some(('K', 'E')),
        ('K', 'G', 'Z') => Some(('K', 'G')),
        ('K', 'H', 'M') => Some(('K', 'H')),
        ('K', 'I', 'R') => Some(('K', 'I')),
        ('C', 'O', 'M') => Some(('K', 'M')),
        ('K', 'N', 'A') => Some(('K', 'N')),
        ('P', 'R', 'K') => Some(('K', 'P')),
        ('K', 'O', 'R') => Some(('K', 'R')),
        ('K', 'W', 'T') => Some(('K', 'W')),
        ('C', 'Y', 'M') => Some(('K', 'Y')),
        ('K', 'A', 'Z') => Some(('K', 'Z')),
        ('L', 'A', 'O') => Some(('L', 'A')),
        ('L', 'B', 'N') => Some(('L', 'B')),
        ('L', 'C', 'A') => Some(('L', 'C')),
        ('L', 'I', 'E') => Some(('L', 'I')),
        ('L', 'K', 'A') => Some(('L', 'K')),
        ('L', 'B', 'R') => Some(('L', 'R')),
        ('L', 'S', 'O') => Some(('L', 'S')),
        ('L', 'T', 'U') => Some(('L', 'T')),
        ('L', 'U', 'X') => Some(('L', 'U')),
        ('L', 'V', 'A') => Some(('L', 'V')),
        ('L', 'B', 'Y') => Some(('L', 'Y')),
        ('M', 'A', 'R') => Some(('M', 'A')),
        ('M', 'C', 'O') => Some(('M', 'C')),
        ('M', 'D', 'A') => Some(('M', 'D')),
        ('M', 'N', 'E') => Some(('M', 'E')),
        ('M', 'A', 'F') => Some(('M', 'F')),
        ('M', 'D', 'G') => Some(('M', 'G')),
        ('M', 'H', 'L') => Some(('M', 'H')),
        ('M', 'K', 'D') => Some(('M', 'K')),
        ('M', 'L', 'I') => Some(('M', 'L')),
        ('M', 'M', 'R') => Some(('M', 'M')),
        ('M', 'N', 'G') => Some(('M', 'N')),
        ('M', 'A', 'C') => Some(('M', 'O')),
        ('M', 'N', 'P') => Some(('M', 'P')),
        ('M', 'T', 'Q') => Some(('M', 'Q')),
        ('M', 'R', 'T') => Some(('M', 'R')),
        ('M', 'S', 'R') => Some(('M', 'S')),
        ('M', 'L', 'T') => Some(('M', 'T')),
        ('M', 'U', 'S') => Some(('M', 'U')),
        ('M', 'D', 'V') => Some(('M', 'V')),
        ('M', 'W', 'I') => Some(('M', 'W')),
        ('M', 'E', 'X') => Some(('M', 'X')),
        ('M', 'Y', 'S') => Some(('M', 'Y')),
        ('M', 'O', 'Z') => Some(('M', 'Z')),
        ('N', 'A', 'M') => Some(('N', 'A')),
        ('N', 'C', 'L') => Some(('N', 'C')),
        ('N', 'E', 'R') => Some(('N', 'E')),
        ('N', 'F', 'K') => Some(('N', 'F')),
        ('N', 'G', 'A') => Some(('N', 'G')),
        ('N', 'I', 'C') => Some(('N', 'I')),
        ('N', 'L', 'D') => Some(('N', 'L')),
        ('N', 'O', 'R') => Some(('N', 'O')),
        ('N', 'P', 'L') => Some(('N', 'P')),
        ('N', 'R', 'U') => Some(('N', 'R')),
        ('N', 'I', 'U') => Some(('N', 'U')),
        ('N', 'Z', 'L') => Some(('N', 'Z')),
        ('O', 'M', 'N') => Some(('O', 'M')),
        ('P', 'A', 'N') => Some(('P', 'A')),
        ('P', 'E', 'R') => Some(('P', 'E')),
        ('P', 'Y', 'F') => Some(('P', 'F')),
        ('P', 'N', 'G') => Some(('P', 'G')),
        ('P', 'H', 'L') => Some(('P', 'H')),
        ('P', 'A', 'K') => Some(('P', 'K')),
        ('P', 'O', 'L') => Some(('P', 'L')),
        ('S', 'P', 'M') => Some(('P', 'M')),
        ('P', 'C', 'N') => Some(('P', 'N')),
        ('P', 'R', 'I') => Some(('P', 'R')),
        ('P', 'S', 'E') => Some(('P', 'S')),
        ('P', 'R', 'T') => Some(('P', 'T')),
        ('P', 'L', 'W') => Some(('P', 'W')),
        ('P', 'R', 'Y') => Some(('P', 'Y')),
        ('Q', 'A', 'T') => Some(('Q', 'A')),
        ('R', 'E', 'U') => Some(('R', 'E')),
        ('R', 'O', 'U') => Some(('R', 'O')),
        ('S', 'R', 'B') => Some(('R', 'S')),
        ('R', 'U', 'S') => Some(('R', 'U')),
        ('R', 'W', 'A') => Some(('R', 'W')),
        ('S', 'A', 'U') => Some(('S', 'A')),
        ('S', 'L', 'B') => Some(('S', 'B')),
        ('S', 'Y', 'C') => Some(('S', 'C')),
        ('S', 'D', 'N') => Some(('S', 'D')),
        ('S', 'W', 'E') => Some(('S', 'E')),
        ('S', 'G', 'P') => Some(('S', 'G')),
        ('S', 'H', 'N') => Some(('S', 'H')),
        ('S', 'V', 'N') => Some(('S', 'I')),
        ('S', 'J', 'M') => Some(('S', 'J')),
        ('S', 'V', 'K') => Some(('S', 'K')),
        ('S', 'L', 'E') => Some(('S', 'L')),
        ('S', 'M', 'R') => Some(('S', 'M')),
        ('S', 'E', 'N') => Some(('S', 'N')),
        ('S', 'O', 'M') => Some(('S', 'O')),
        ('S', 'U', 'R') => Some(('S', 'R')),
        ('S', 'S', 'D') => Some(('S', 'S')),
        ('S', 'T', 'P') => Some(('S', 'T')),
        ('S', 'L', 'V') => Some(('S', 'V')),
        ('S', 'X', 'M') => Some(('S', 'X')),
        ('S', 'Y', 'R') => Some(('S', 'Y')),
        ('S', 'W', 'Z') => Some(('S', 'Z')),
        ('T', 'C', 'A') => Some(('T', 'C')),
        ('T', 'C', 'D') => Some(('T', 'D')),
        ('A', 'T', 'F') => Some(('T', 'F')),
        ('T', 'G', 'O') => Some(('T', 'G')),
        ('T', 'H', 'A') => Some(('T', 'H')),
        ('T', 'J', 'K') => Some(('T', 'J')),
        ('T', 'K', 'L') => Some(('T', 'K')),
        ('T', 'L', 'S') => Some(('T', 'L')),
        ('T', 'K', 'M') => Some(('T', 'M')),
        ('T', 'U', 'N') => Some(('T', 'N')),
        ('T', 'O', 'N') => Some(('T', 'O')),
        ('T', 'U', 'R') => Some(('T', 'R')),
        ('T', 'T', 'O') => Some(('T', 'T')),
        ('T', 'U', 'V') => Some(('T', 'V')),
        ('T', 'W', 'N') => Some(('T', 'W')),
        ('T', 'Z', 'A') => Some(('T', 'Z')),
        ('U', 'K', 'R') => Some(('U', 'A')),
        ('U', 'G', 'A') => Some(('U', 'G')),
        ('U', 'M', 'I') => Some(('U', 'M')),
        ('U', 'S', 'A') => Some(('U', 'S')),
        ('U', 'R', 'Y') => Some(('U', 'Y')),
        ('U', 'Z', 'B') => Some(('U', 'Z')),
        ('V', 'A', 'T') => Some(('V', 'A')),
        ('V', 'C', 'T') => Some(('V', 'C')),
        ('V', 'E', 'N') => Some(('V', 'E')),
        ('V', 'G', 'B') => Some(('V', 'G')),
        ('V', 'I', 'R') => Some(('V', 'I')),
        ('V', 'N', 'M') => Some(('V', 'N')),
        ('V', 'U', 'T') => Some(('V', 'U')),
        ('W', 'L', 'F') => Some(('W', 'F')),
        ('W', 'S', 'M') => Some(('W', 'S')),
        ('Y', 'E', 'M') => Some(('Y', 'E')),
        ('M', 'Y', 'T') => Some(('Y', 'T')),
        ('Z', 'A', 'F') => Some(('Z', 'A')),
        ('Z', 'M', 'B') => Some(('Z', 'M')),
        ('Z', 'W', 'E') => Some(('Z', 'W')),
        _ => None,
    }
}

/// One when a pair of letters is in the table, else zero.
pub open spec fn mapped(a: char, b: char) -> nat {
    if alpha3_of(a, b) is Some {
        1
    } else {
        0
    }
}

/// How many pairs that start with `a` are in the table.
pub open spec fn mapped_row(a: char) -> nat {
    mapped(a, 'A') + mapped(a, 'B') + mapped(a, 'C') + mapped(a, 'D') + mapped(a, 'E') + mapped(a, 'F') + mapped(a, 'G') + mapped(a, 'H') + mapped(a, 'I') + mapped(a, 'J') + mapped(a, 'K') + mapped(a, 'L') + mapped(a, 'M') + mapped(a, 'N') + mapped(a, 'O') + mapped(a, 'P') + mapped(a, 'Q') + mapped(a, 'R') + mapped(a, 'S') + mapped(a, 'T') + mapped(a, 'U') + mapped(a, 'V') + mapped(a, 'W') + mapped(a, 'X') + mapped(a, 'Y') + mapped(a, 'Z')
}

/// How many pairs of uppercase letters are in the table.
pub open spec fn mapped_count() -> nat {
    mapped_row('A') + mapped_row('B') + mapped_row('C') + mapped_row('D') + mapped_row('E') + mapped_row('F') + mapped_row('G') + mapped_row('H') + mapped_row('I') + mapped_row('J') + mapped_row('K') + mapped_row('L') + mapped_row('M') + mapped_row('N') + mapped_row('O') + mapped_row('P') + mapped_row('Q') + mapped_row('R') + mapped_row('S') + mapped_row('T') + mapped_row('U') + mapped_row('V') + mapped_row('W') + mapped_row('X') + mapped_row('Y') + mapped_row('Z')
}

/// Only pairs of uppercase letters are in the table, and each maps to three
/// uppercase letters from which the table read backwards gives the pair.
pub proof fn law_country_table(a: char, b: char)
    ensures
        alpha3_of(a, b) matches Some(t) ==> {
            &&& is_upper(a) && is_upper(b)
            &&& t.len() == 3
            &&& is_upper(t[0]) && is_upper(t[1]) && is_upper(t[2])
            &&& alpha2_of(t[0], t[1], t[2]) == Some((a, b))
        },
{
    match (a, b) {
        ('A', 'D') => reveal_strlit("AND"),
        ('A', 'E') => reveal_strlit("ARE"),
        ('A', 'F') => reveal_strlit("AFG"),
        ('A', 'G') => reveal_strlit("ATG"),
        ('A', 'I') => reveal_strlit("AIA"),
        ('A', 'L') => reveal_strlit("ALB"),
        ('A', 'M') => reveal_strlit("ARM"),
        ('A', 'O') => reveal_strlit("AGO"),
        ('A', 'Q') => reveal_strlit("ATA"),
        ('A', 'R') => reveal_strlit("ARG"),
        ('A', 'S') => reveal_strlit("ASM"),
        ('A', 'T') => reveal_strlit("AUT"),
        ('A', 'U') => reveal_strlit("AUS"),
        ('A', 'W') => reveal_strlit("ABW"),
        ('A', 'X') => reveal_strlit("ALA"),
        ('A', 'Z') => reveal_strlit("AZE"),
        ('B', 'A') => reveal_strlit("BIH"),
        ('B', 'B') => reveal_strlit("BRB"),
        ('B', 'D') => reveal_strlit("BGD"),
        ('B', 'E') => reveal_strlit("BEL"),
        ('B', 'F') => reveal_strlit("BFA"),
        ('B', 'G') => reveal_strlit("BGR"),
        ('B', 'H') => reveal_strlit("BHR"),
        ('B', 'I') => reveal_strlit("BDI"),
        ('B', 'J') => reveal_strlit("BEN"),
        ('B', 'L') => reveal_strlit("BLM"),
        ('B', 'M') => reveal_strlit("BMU"),
        ('B', 'N') => reveal_strlit("BRN"),
        ('B', 'O') => reveal_strlit("BOL"),
        ('B', 'Q') => reveal_strlit("BES"),
        ('B', 'R') => reveal_strlit("BRA"),
        ('B', 'S') => reveal_strlit("BHS"),
        ('B', 'T') => reveal_strlit("BTN"),
        ('B', 'V') => reveal_strlit("BVT"),
        ('B', 'W') => reveal_strlit("BWA"),
        ('B', 'Y') => reveal_strlit("BLR"),
        ('B', 'Z') => reveal_strlit("BLZ"),
        ('C', 'A') => reveal_strlit("CAN"),
        ('C', 'C') => reveal_strlit("CCK"),
        ('C', 'D') => reveal_strlit("COD"),
        ('C', 'F') => reveal_strlit("CAF"),
        ('C', 'G') => reveal_strlit("COG"),
        ('C', 'H') => reveal_strlit("CHE"),
        ('C', 'I') => reveal_strlit("CIV"),
        ('C', 'K') => reveal_strlit("COK"),
        ('C', 'L') => reveal_strlit("CHL"),
        ('C', 'M') => reveal_strlit("CMR"),
        ('C', 'N') => reveal_strlit("CHN"),
        ('C', 'O') => reveal_strlit("COL"),
        ('C', 'R') => reveal_strlit("CRI"),
        ('C', 'U') => reveal_strlit("CUB"),
        ('C', 'V') => reveal_strlit("CPV"),
        ('C', 'W') => reveal_strlit("CUW"),
        ('C', 'X') => reveal_strlit("CXR"),
        ('C', 'Y') => reveal_strlit("CYP"),
        ('C', 'Z') => reveal_strlit("CZE"),
        ('D', 'E') => reveal_strlit("DEU"),
        ('D', 'J') => reveal_strlit("DJI"),
        ('D', 'K') => reveal_strlit("DNK"),
        ('D', 'M') => reveal_strlit("DMA"),
        ('D', 'O') => reveal_strlit("DOM"),
        ('D', 'Z') => reveal_strlit("DZA"),
        ('E', 'C') => reveal_strlit("ECU"),
        ('E', 'E') => reveal_strlit("EST"),
        ('E', 'G') => reveal_strlit("EGY"),
        ('E', 'H') => reveal_strlit("ESH"),
        ('E', 'R') => reveal_strlit("ERI"),
        ('E', 'S') => reveal_strlit("ESP"),
        ('E', 'T') => reveal_strlit("ETH"),
        ('F', 'I') => reveal_strlit("FIN"),
        ('F', 'J') => reveal_strlit("FJI"),
        ('F', 'K') => reveal_strlit("FLK"),
        ('F', 'M') => reveal_strlit("FSM"),
        ('F', 'O') => reveal_strlit("FRO"),
        ('F', 'R') => reveal_strlit("FRA"),
        ('G', 'A') => reveal_strlit("GAB"),
        ('G', 'B') => reveal_strlit("GBR"),
        ('G', 'D') => reveal_strlit("GRD"),
        ('G', 'E') => reveal_strlit("GEO"),
        ('G', 'F') => reveal_strlit("GUF"),
        ('G', 'G') => reveal_strlit("GGY"),
        ('G', 'H') => reveal_strlit("GHA"),
        ('G', 'I') => reveal_strlit("GIB"),
        ('G', 'L') => reveal_strlit("GRL"),
        ('G', 'M') => reveal_strlit("GMB"),
        ('G', 'N') => reveal_strlit("GIN"),
        ('G', 'P') => reveal_strlit("GLP"),
        ('G', 'Q') => reveal_strlit("GNQ"),
        ('G', 'R') => reveal_strlit("GRC"),
        ('G', 'S') => reveal_strlit("SGS"),
        ('G', 'T') => reveal_strlit("GTM"),
        ('G', 'U') => reveal_strlit("GUM"),
        ('G', 'W') => reveal_strlit("GNB"),
        ('G', 'Y') => reveal_strlit("GUY"),
        ('H', 'K') => reveal_strlit("HKG"),
        ('H', 'M') => reveal_strlit("HMD"),
        ('H', 'N') => reveal_strlit("HND"),
        ('H', 'R') => reveal_strlit("HRV"),
        ('H', 'T') => reveal_strlit("HTI"),
        ('H', 'U') => reveal_strlit("HUN"),
        ('I', 'D') => reveal_strlit("IDN"),
        ('I', 'E') => reveal_strlit("IRL"),
        ('I', 'L') => reveal_strlit("ISR"),
        ('I', 'M') => reveal_strlit("IMN"),
        ('I', 'N') => reveal_strlit("IND"),
        ('I', 'O') => reveal_strlit("IOT"),
        ('I', 'Q') => reveal_strlit("IRQ"),
        ('I', 'R') => reveal_strlit("IRN"),
        ('I', 'S') => reveal_strlit("ISL"),
        ('I', 'T') => reveal_strlit("ITA"),
        ('J', 'E') => reveal_strlit("JEY"),
        ('J', 'M') => reveal_strlit("JAM"),
        ('J', 'O') => reveal_strlit("JOR"),
        ('J', 'P') => reveal_strlit("JPN"),
        ('K', 'E') => reveal_strlit("KEN"),
        ('K', 'G') => reveal_strlit("KGZ"),
        ('K', 'H') => reveal_strlit("KHM"),
        ('K', 'I') => reveal_strlit("KIR"),
        ('K', 'M') => reveal_strlit("COM"),
        ('K', 'N') => reveal_strlit("KNA"),
        ('K', 'P') => reveal_strlit("PRK"),
        ('K', 'R') => reveal_strlit("KOR"),
        ('K', 'W') => reveal_strlit("KWT"),
        ('K', 'Y') => reveal_strlit("CYM"),
        ('K', 'Z') => reveal_strlit("KAZ"),
        ('L', 'A') => reveal_strlit("LAO"),
        ('L', 'B') => reveal_strlit("LBN"),
        ('L', 'C') => reveal_strlit("LCA"),
        ('L', 'I') => reveal_strlit("LIE"),
        ('L', 'K') => reveal_strlit("LKA"),
        ('L', 'R') => reveal_strlit("LBR"),
        ('L', 'S') => reveal_strlit("LSO"),
        ('L', 'T') => reveal_strlit("LTU"),
        ('L', 'U') => reveal_strlit("LUX"),
        ('L', 'V') => reveal_strlit("LVA"),
        ('L', 'Y') => reveal_strlit("LBY"),
        ('M', 'A') => reveal_strlit("MAR"),
        ('M', 'C') => reveal_strlit("MCO"),
        ('M', 'D') => reveal_strlit("MDA"),
        ('M', 'E') => reveal_strlit("MNE"),
        ('M', 'F') => reveal_strlit("MAF"),
        ('M', 'G') => reveal_strlit("MDG"),
        ('M', 'H') => reveal_strlit("MHL"),
        ('M', 'K') => reveal_strlit("MKD"),
        ('M', 'L') => reveal_strlit("MLI"),
        ('M', 'M') => reveal_strlit("MMR"),
        ('M', 'N') => reveal_strlit("MNG"),
        ('M', 'O') => reveal_strlit("MAC"),
        ('M', 'P') => reveal_strlit("MNP"),
        ('M', 'Q') => reveal_strlit("MTQ"),
        ('M', 'R') => reveal_strlit("MRT"),
        ('M', 'S') => reveal_strlit("MSR"),
        ('M', 'T') => reveal_strlit("MLT"),
        ('M', 'U') => reveal_strlit("MUS"),
        ('M', 'V') => reveal_strlit("MDV"),
        ('M', 'W') => reveal_strlit("MWI"),
        ('M', 'X') => reveal_strlit("MEX"),
        ('M', 'Y') => reveal_strlit("MYS"),
        ('M', 'Z') => reveal_strlit("MOZ"),
        ('N', 'A') => reveal_strlit("NAM"),
        ('N', 'C') => reveal_strlit("NCL"),
        ('N', 'E') => reveal_strlit("NER"),
        ('N', 'F') => reveal_strlit("NFK"),
        ('N', 'G') => reveal_strlit("NGA"),
        ('N', 'I') => reveal_strlit("NIC"),
        ('N', 'L') => reveal_strlit("NLD"),
        ('N', 'O') => reveal_strlit("NOR"),
        ('N', 'P') => reveal_strlit("NPL"),
        ('N', 'R') => reveal_strlit("NRU"),
        ('N', 'U') => reveal_strlit("NIU"),
        ('N', 'Z') => reveal_strlit("NZL"),
        ('O', 'M') => reveal_strlit("OMN"),
        ('P', 'A') => reveal_strlit("PAN"),
        ('P', 'E') => reveal_strlit("PER"),
        ('P', 'F') => reveal_strlit("PYF"),
        ('P', 'G') => reveal_strlit("PNG"),
        ('P', 'H') => reveal_strlit("PHL"),
        ('P', 'K') => reveal_strlit("PAK"),
        ('P', 'L') => reveal_strlit("POL"),
        ('P', 'M') => reveal_strlit("SPM"),
        ('P', 'N') => reveal_strlit("PCN"),
        ('P', 'R') => reveal_strlit("PRI"),
        ('P', 'S') => reveal_strlit("PSE"),
        ('P', 'T') => reveal_strlit("PRT"),
        ('P', 'W') => reveal_strlit("PLW"),
        ('P', 'Y') => reveal_strlit("PRY"),
        ('Q', 'A') => reveal_strlit("QAT"),
        ('R', 'E') => reveal_strlit("REU"),
        ('R', 'O') => reveal_strlit("ROU"),
        ('R', 'S') => reveal_strlit("SRB"),
        ('R', 'U') => reveal_strlit("RUS"),
        ('R', 'W') => reveal_strlit("RWA"),
        ('S', 'A') => reveal_strlit("SAU"),
        ('S', 'B') => reveal_strlit("SLB"),
        ('S', 'C') => reveal_strlit("SYC"),
        ('S', 'D') => reveal_strlit("SDN"),
        ('S', 'E') => reveal_strlit("SWE"),
        ('S', 'G') => reveal_strlit("SGP"),
        ('S', 'H') => reveal_strlit("SHN"),
        ('S', 'I') => reveal_strlit("SVN"),
        ('S', 'J') => reveal_strlit("SJM"),
        ('S', 'K') => reveal_strlit("SVK"),
        ('S', 'L') => reveal_strlit("SLE"),
        ('S', 'M') => reveal_strlit("SMR"),
        ('S', 'N') => reveal_strlit("SEN"),
        ('S', 'O') => reveal_strlit("SOM"),
        ('S', 'R') => reveal_strlit("SUR"),
        ('S', 'S') => reveal_strlit("SSD"),
        ('S', 'T') => reveal_strlit("STP"),
        ('S', 'V') => reveal_strlit("SLV"),
        ('S', 'X') => reveal_strlit("SXM"),
        ('S', 'Y') => reveal_strlit("SYR"),
        ('S', 'Z') => reveal_strlit("SWZ"),
        ('T', 'C') => reveal_strlit("TCA"),
        ('T', 'D') => reveal_strlit("TCD"),
        ('T', 'F') => reveal_strlit("ATF"),
        ('T', 'G') => reveal_strlit("TGO"),
        ('T', 'H') => reveal_strlit("THA"),
        ('T', 'J') => reveal_strlit("TJK"),
        ('T', 'K') => reveal_strlit("TKL"),
        ('T', 'L') => reveal_strlit("TLS"),
        ('T', 'M') => reveal_strlit("TKM"),
        ('T', 'N') => reveal_strlit("TUN"),
        ('T', 'O') => reveal_strlit("TON"),
        ('T', 'R') => reveal_strlit("TUR"),
        ('T', 'T') => reveal_strlit("TTO"),
        ('T', 'V') => reveal_strlit("TUV"),
        ('T', 'W') => reveal_strlit("TWN"),
        ('T', 'Z') => reveal_strlit("TZA"),
        ('U', 'A') => reveal_strlit("UKR"),
        ('U', 'G') => reveal_strlit("UGA"),
        ('U', 'M') => reveal_strlit("UMI"),
        ('U', 'S') => reveal_strlit("USA"),
        ('U', 'Y') => reveal_strlit("URY"),
        ('U', 'Z') => reveal_strlit("UZB"),
        ('V', 'A') => reveal_strlit("VAT"),
        ('V', 'C') => reveal_strlit("VCT"),
        ('V', 'E') => reveal_strlit("VEN"),
        ('V', 'G') => reveal_strlit("VGB"),
        ('V', 'I') => reveal_strlit("VIR"),
        ('V', 'N') => reveal_strlit("VNM"),
        ('V', 'U') => reveal_strlit("VUT"),
        ('W', 'F') => reveal_strlit("WLF"),
        ('W', 'S') => reveal_strlit("WSM"),
        ('Y', 'E') => reveal_strlit("YEM"),
        ('Y', 'T') => reveal_strlit("MYT"),
        ('Z', 'A') => reveal_strlit("ZAF"),
        ('Z', 'M') => reveal_strlit("ZMB"),
        ('Z', 'W') => reveal_strlit("ZWE"),
        _ => {},
    }
}

/// Distinct alpha-2 codes have distinct alpha-3 codes.
pub proof fn law_country_codes_distinct(a: char, b: char, c: char, d: char)
    requires
        alpha3_of(a, b) is Some,
        alpha3_of(a, b) == alpha3_of(c, d),
    ensures
        a == c && b == d,
{
    law_country_table(a, b);
    law_country_table(c, d);
}

/// The table holds 249 pairs of uppercase letters (and, by
/// `law_country_table`, no other pair).
pub proof fn law_country_count()
    ensures
        mapped_count() == 249,
{
    assert(mapped_row('A') == 16);
    assert(mapped_row('B') == 21);
    assert(mapped_row('C') == 19);
    assert(mapped_row('D') == 6);
    assert(mapped_row('E') == 7);
    assert(mapped_row('F') == 6);
    assert(mapped_row('G') == 19);
    assert(mapped_row('H') == 6);
    assert(mapped_row('I') == 10);
    assert(mapped_row('J') == 4);
    assert(mapped_row('K') == 11);
    assert(mapped_row('L') == 11);
    assert(mapped_row('M') == 23);
    assert(mapped_row('N') == 12);
    assert(mapped_row('O') == 1);
    assert(mapped_row('P') == 14);
    assert(mapped_row('Q') == 1);
    assert(mapped_row('R') == 5);
    assert(mapped_row('S') == 21);
    assert(mapped_row('T') == 16);
    assert(mapped_row('U') == 6);
    assert(mapped_row('V') == 7);
    assert(mapped_row('W') == 2);
    assert(mapped_row('X') == 0);
    assert(mapped_row('Y') == 2);
    assert(mapped_row('Z') == 3);
}

/// The alpha-2 and alpha-3 codes of the country that a database record
/// names; `None` when the record has no country code or the code is not in
/// the table.
pub fn country_codes<'a>(iso2: Option<&'a str>) -> (r: Option<(&'a str, &'static str)>)
    ensures
        match iso2 {
            None => r is None,
            Some(c) => {
                &&& r is Some <==> (c@.len() == 2 && alpha3_of(c@[0], c@[1]) is Some)
                &&& r matches Some((a, b)) ==> a@ == c@ && b@ == alpha3_of(c@[0], c@[1])->Some_0
            },
        },
{
    match iso2 {
        None => None,
        Some(c) => match iso2_to_iso3(c) {
            Some(iso3) => Some((c, iso3)),
            None => None,
        },
    }
}

/// A path joined to a base as std's `Path::join` does on Unix: an absolute
/// path replaces the base, else a `/` separates them unless the base is empty
/// or already ends in one.
pub open spec fn joined_path(base: Seq<char>, rest: Seq<char>) -> Seq<char> {
    if rest.len() > 0 && rest[0] == '/' {
        rest
    } else if base.len() == 0 || base.last() == '/' {
        base + rest
    } else {
        base + seq!['/'] + rest
    }
}

/// A database path with a leading `~/` taken relative to the home directory,
/// when one is known.
pub open spec fn spec_expand_home(path: Seq<char>, home: Option<Seq<char>>) -> Seq<char> {
    if path.len() >= 2 && path[0] == '~' && path[1] == '/' && home is Some {
        joined_path(home->Some_0, path.subrange(2, path.len() as int))
    } else {
        path
    }
}

/// Expands a leading `~/` of a path with the home directory `home`.
pub fn expand_home(path: &str, home: Option<&str>) -> (r: String)
    ensures
        r@ == spec_expand_home(path@, match home {
            Some(h) => Some(h@),
            None => None,
        }),
{
    let chars = chars_of(path);
    if chars.len() >= 2 && chars[0] == '~' && chars[1] == '/' {
        if let Some(home) = home {
            let base = chars_of(home);
            let n = chars.len();
            if n > 2 && chars[2] == '/' {
                return string_from_range(&chars, 2, n);
            }
            let mut out = String::from_str(home);
            if base.len() > 0 && base[base.len() - 1] != '/' {
                push_char(&mut out, '/');
            }
            push_range(&mut out, &chars, 2, n);
            return out;
        }
    }
    String::from_str(path)
}

} // verus!
