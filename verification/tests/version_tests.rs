use satu_toko::version::{
    is_compatible, major_minor_version, major_version, parse_browser_version,
    parse_driver_version, parse_registry_line, parse_registry_version,
};

#[test]
fn driver_116_fits_browser_116_and_not_117() {
    let version = parse_driver_version("ChromeDriver 116.0.5845.96 (1a3918166880...)").unwrap();
    assert_eq!(version, "116.0.5845.96");
    assert!(is_compatible(&version, "116"));
    assert!(!is_compatible(&version, "117"));
}

#[test]
fn major_version_is_the_first_component() {
    assert_eq!(major_version("120.0.6099.109"), "120");
    assert_eq!(major_version("120"), "120");
    assert_eq!(major_version(""), "");
    assert_eq!(major_version(".5"), "");
}

#[test]
fn major_and_minor_version_are_the_first_two_components() {
    assert_eq!(major_minor_version("120.0.6099.109"), "120.0");
    assert_eq!(major_minor_version("120.0"), "120.0");
    assert_eq!(major_minor_version("120"), "120");
    assert_eq!(major_minor_version("120."), "120.");
    assert_eq!(major_minor_version("1.2.3"), "1.2");
    assert_eq!(major_minor_version(""), "");
}

#[test]
fn driver_version_is_the_second_word_of_the_first_line() {
    assert_eq!(
        parse_driver_version("ChromeDriver 120.0.6099.109 (abc)\nmore 1 2\n"),
        Some("120.0.6099.109".to_string())
    );
    assert_eq!(parse_driver_version("ChromeDriver\n120.0.6099.109"), None);
    assert_eq!(parse_driver_version(""), None);
    assert_eq!(parse_driver_version("  ChromeDriver   9.1  "), Some("9.1".to_string()));
}

#[test]
fn browser_version_is_the_last_word() {
    assert_eq!(
        parse_browser_version("Google Chrome 120.0.6099.109 \n"),
        Some("120.0.6099.109".to_string())
    );
    assert_eq!(parse_browser_version("Chromium 119.0.1 snap"), Some("snap".to_string()));
    assert_eq!(parse_browser_version("\n"), None);
}

#[test]
fn compatibility_compares_whole_major_versions() {
    assert!(is_compatible("116.0.5845.96", "116"));
    assert!(is_compatible("116", "116"));
    assert!(!is_compatible("116.0.5845.96", "117"));
    assert!(!is_compatible("116.0.5845.96", "11"));
    assert!(!is_compatible("116.0.5845.96", "1"));
    assert!(!is_compatible("116.0.5845.96", ""));
    assert!(!is_compatible("116.0.5845.96", "116.0"));
    assert!(!is_compatible("11", "116"));
    assert!(!is_compatible("1160.0.1", "116"));
}

#[test]
fn registry_line_gives_the_value_behind_the_type() {
    assert_eq!(
        parse_registry_line("    version    REG_SZ    120.0.6099.109  "),
        Some("120.0.6099.109".to_string())
    );
    assert_eq!(parse_registry_line("a REG_SZ b REG_SZ c"), Some("b".to_string()));
    assert_eq!(parse_registry_line("version REG_SZ"), Some(String::new()));
    assert_eq!(parse_registry_line("HKEY_CURRENT_USER\\Software\\Google"), None);
}

#[test]
fn registry_listing_gives_the_first_value() {
    let listing = "\r\nHKEY_CURRENT_USER\\Software\\Google\\Chrome\\BLBeacon\r\n    version    REG_SZ    120.0.6099.109\r\n    other    REG_SZ    x\r\n";
    assert_eq!(parse_registry_version(listing), Some("120.0.6099.109".to_string()));
    assert_eq!(parse_registry_version("ERROR: not found\n"), None);
    assert_eq!(parse_registry_version(""), None);
    assert_eq!(parse_registry_version("v REG_SZ 1.2"), Some("1.2".to_string()));
}

#[test]
fn versions_agree_with_the_standard_library() {
    for v in ["", "1", "1.", ".1", "1.2", "1.2.", "1.2.3", "120.0.6099.109", "..", "a.b.c.d"] {
        assert_eq!(major_version(v), v.split('.').next().unwrap_or(""), "{:?}", v);
        let two = v.split('.').take(2).collect::<Vec<_>>().join(".");
        assert_eq!(major_minor_version(v), two, "{:?}", v);
    }
}

#[test]
fn registry_listing_agrees_with_the_standard_library() {
    let listings = [
        "",
        "REG_SZ",
        "a REG_SZ b",
        "x\ny REG_SZ 1.2.3 \nz REG_SZ 9",
        "\r\nHKEY\\X\r\n    version    REG_SZ    120.0.1\r\n\r\n",
        "no value here\nnor here",
        "k REG_SZ v1 REG_SZ v2\n",
    ];
    for listing in listings {
        let mut expected = None;
        for line in listing.lines() {
            if line.contains("REG_SZ") {
                let parts: Vec<&str> = line.split("REG_SZ").collect();
                if parts.len() > 1 {
                    expected = Some(parts[1].trim().to_string());
                    break;
                }
            }
        }
        assert_eq!(parse_registry_version(listing), expected, "{:?}", listing);
    }
}
