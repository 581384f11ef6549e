use atmb_us_non_cmra::config::{bounded_value, parse_switch, state_code, ConfigError, Scope, STATES, TAX_FREE_STATES};

#[test]
fn scope_and_abbreviations() {
    for state in TAX_FREE_STATES {
        assert!(Scope::TaxFree.includes(state));
        assert!(Scope::TaxFreeNv.includes(state));
    }
    assert!(Scope::TaxFree.includes("Oregon"));
    assert!(!Scope::TaxFree.includes("NV"));
    assert!(Scope::TaxFreeNv.includes("Nevada"));
    assert!(Scope::TaxFreeNv.includes("NV"));
    assert!(!Scope::TaxFreeNv.includes("CA"));
    assert_eq!(Scope::parse("tax-free-nv").unwrap().name(), "tax-free-nv");
    assert!(Scope::All.includes("Nevada"));
    assert!(Scope::All.includes("Guam"));
    assert!(!Scope::TaxFree.includes("PR"));
    assert!(!Scope::All.includes("Ontario"));
    assert_eq!(state_code(" nevada "), Some("NV"));
    assert!(Scope::parse("typo").is_err());
}

#[test]
fn scope_names_read_back() {
    for scope in [Scope::TaxFreeNv, Scope::TaxFree, Scope::All] {
        assert_eq!(Scope::parse(scope.name()).unwrap(), scope);
    }
    assert_eq!(Scope::parse("Tax-Free"), Err(ConfigError::UnknownScope));
}

#[test]
fn state_codes_ignore_case_and_space() {
    assert_eq!(state_code("\tDISTRICT OF COLUMBIA\n"), Some("DC"));
    assert_eq!(state_code("ak"), Some("AK"));
    assert_eq!(state_code("US Minor Outlying Islands"), Some("UM"));
    assert_eq!(state_code("Ontario"), None);
    assert_eq!(state_code(""), None);
    assert!(Scope::TaxFreeNv.includes(" nv "));
    assert!(!Scope::TaxFree.includes(""));
}

#[test]
fn bounded_settings() {
    assert_eq!(bounded_value("MAX", None, 0, 0, 10), Ok(0));
    assert_eq!(bounded_value("MAX", Some("7"), 0, 0, 10), Ok(7));
    assert_eq!(bounded_value("MAX", Some("+7"), 0, 0, 10), Ok(7));
    assert_eq!(
        bounded_value("MAX", Some("-7"), 0, 0, 10),
        Err(ConfigError::NotInteger { name: "MAX".into() })
    );
    assert_eq!(
        bounded_value("MAX", Some(""), 0, 0, 10),
        Err(ConfigError::NotInteger { name: "MAX".into() })
    );
    assert_eq!(
        bounded_value("MAX", Some("99999999999999999999999"), 0, 0, 10),
        Err(ConfigError::NotInteger { name: "MAX".into() })
    );
    assert_eq!(
        bounded_value("MAX", Some("11"), 0, 0, 10),
        Err(ConfigError::OutOfRange { name: "MAX".into(), min: 0, max: 10 })
    );
    assert_eq!(
        bounded_value("MAX", None, 20, 0, 10),
        Err(ConfigError::OutOfRange { name: "MAX".into(), min: 0, max: 10 })
    );
}

#[test]
fn usps_switch() {
    assert_eq!(parse_switch("true"), Ok(true));
    assert_eq!(parse_switch("false"), Ok(false));
    assert_eq!(parse_switch("TRUE"), Err(ConfigError::InvalidSwitch));
}

#[test]
fn every_table_entry_reads_back() {
    for (name, code) in STATES {
        assert_eq!(state_code(name), Some(code));
        assert_eq!(state_code(code), Some(code));
        assert_eq!(state_code(&name.to_lowercase()), Some(code));
        assert!(Scope::All.includes(name));
    }
    assert_eq!(state_code("Ontario"), None);
}
