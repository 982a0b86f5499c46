use nginx_loki::geoip::{country_codes, expand_home, iso2_to_iso3};

#[test]
fn maps_iso2_to_iso3() {
    assert_eq!(iso2_to_iso3("US"), Some("USA"));
    assert_eq!(iso2_to_iso3("DE"), Some("DEU"));
    assert_eq!(iso2_to_iso3("RS"), Some("SRB"));
    assert_eq!(iso2_to_iso3("ZZ"), None);
}

#[test]
fn iso_table_edges() {
    assert_eq!(iso2_to_iso3("AD"), Some("AND"));
    assert_eq!(iso2_to_iso3("ZW"), Some("ZWE"));
    assert_eq!(iso2_to_iso3("GB"), Some("GBR"));
    assert_eq!(iso2_to_iso3("us"), None);
    assert_eq!(iso2_to_iso3("USA"), None);
    assert_eq!(iso2_to_iso3(""), None);
}

#[test]
fn expands_home_prefix() {
    assert_eq!(expand_home("~/db.mmdb", Some("/home/me")), "/home/me/db.mmdb");
    assert_eq!(expand_home("~/db.mmdb", Some("/home/me/")), "/home/me/db.mmdb");
    assert_eq!(expand_home("~/db.mmdb", Some("")), "db.mmdb");
    assert_eq!(expand_home("~//etc/db.mmdb", Some("/home/me")), "/etc/db.mmdb");
    assert_eq!(expand_home("~/db.mmdb", None), "~/db.mmdb");
    assert_eq!(expand_home("/var/db.mmdb", Some("/home/me")), "/var/db.mmdb");
    assert_eq!(expand_home("~db.mmdb", Some("/home/me")), "~db.mmdb");
}

#[test]
fn country_table_has_no_aliases() {
    for code in ["UK", "EU", "XK", "uS", "U", "USAA"] {
        assert_eq!(iso2_to_iso3(code), None);
    }
    let mut mapped = Vec::new();
    for a in b'A'..=b'Z' {
        for b in b'A'..=b'Z' {
            let iso2 = format!("{}{}", a as char, b as char);
            if let Some(iso3) = iso2_to_iso3(&iso2) {
                assert_eq!(iso3.len(), 3);
                assert!(iso3.chars().all(|c| c.is_ascii_uppercase()));
                mapped.push(iso3);
            }
        }
    }
    assert_eq!(mapped.len(), 249);
    mapped.sort();
    mapped.dedup();
    assert_eq!(mapped.len(), 249);
}

#[test]
fn country_codes_of_a_record() {
    assert_eq!(country_codes(Some("US")), Some(("US", "USA")));
    assert_eq!(country_codes(Some("XK")), None);
    assert_eq!(country_codes(None), None);
}
