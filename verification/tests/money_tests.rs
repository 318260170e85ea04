use caglla::money::currency_registry::{is_iso4217_alpha3, is_travel_expense_denylisted};
use caglla::money::{
    format_amount_display, format_amount_value, format_integer_with_commas, parse_amount_for_currency,
    validate_cli_write_currency_code, validate_currency_code, validate_currency_code_with_mode,
    CurrencyValidationMode,
};

#[test]
fn money_test_validate_currency_code_normalizes_lowercase() {
    assert_eq!(validate_currency_code("jpy").unwrap(), "JPY");
    assert_eq!(validate_currency_code("Usd").unwrap(), "USD");
}

#[test]
fn test_validate_currency_code_allows_unknown_codes() {
    assert_eq!(validate_currency_code("XXX").unwrap(), "XXX");
}

#[test]
fn money_test_validate_currency_code_rejects_invalid_format() {
    assert!(validate_currency_code("JP").is_err());
    assert!(validate_currency_code("JPYY").is_err());
    assert!(validate_currency_code("JP1").is_err());
}

#[test]
fn money_test_parse_amount_jpy_integer() {
    assert_eq!(parse_amount_for_currency("1500", "JPY").unwrap(), 1500);
}

#[test]
fn money_test_parse_amount_usd_decimal() {
    assert_eq!(parse_amount_for_currency("12.50", "USD").unwrap(), 1250);
    assert_eq!(parse_amount_for_currency("12.5", "USD").unwrap(), 1250);
}

#[test]
fn money_test_parse_amount_rejects_too_many_decimals_for_jpy() {
    assert!(parse_amount_for_currency("10.5", "JPY").is_err());
}

#[test]
fn money_test_parse_amount_rejects_negative() {
    assert!(parse_amount_for_currency("-100", "JPY").is_err());
}

#[test]
fn money_test_format_amount_value_negative_decimal_currency() {
    assert_eq!(format_amount_value(-50, "USD"), "-0.50");
    assert_eq!(format_amount_value(-12345, "USD"), "-123.45");
    assert_eq!(format_amount_value(50, "USD"), "0.50");
    assert_eq!(format_amount_value(12345, "USD"), "123.45");
}

#[test]
fn money_test_format_amount_value_negative_zero_decimal_currency() {
    assert_eq!(format_amount_value(-500, "JPY"), "-500");
    assert_eq!(format_amount_value(-50_000, "KRW"), "-50,000");
}

#[test]
fn registry_includes_primary_travel_currencies() {
    for code in ["JPY", "USD", "EUR", "KRW", "GBP", "TWD", "CNY", "HKD", "AUD", "CAD", "CHF", "SGD", "THB"] {
        assert!(is_iso4217_alpha3(code), "missing travel currency {code}");
    }
}

#[test]
fn registry_includes_withdrawn_codes() {
    for code in ["HRK", "LTL", "LVL", "DEM", "ITL"] {
        assert!(is_iso4217_alpha3(code), "missing withdrawn code {code}");
    }
}

#[test]
fn registry_excludes_non_iso_codes() {
    for code in ["ZZZ", "ABC", "JPN"] {
        assert!(!is_iso4217_alpha3(code));
    }
}

#[test]
fn denylist_includes_pseudo_and_precious_metal_codes() {
    for code in ["XXX", "XTS", "XAU", "XAG", "XPT", "XPD"] {
        assert!(is_travel_expense_denylisted(code));
    }
}

#[test]
fn test_validate_cli_write_currency_code_rejects_unknown_and_denylist() {
    assert!(validate_cli_write_currency_code("ZZZ").is_err());
    assert!(validate_cli_write_currency_code("XXX").is_err());
    assert_eq!(validate_cli_write_currency_code("jpy").unwrap(), "JPY");
}

#[test]
fn mod_test_validate_currency_code_normalizes_lowercase() {
    assert_eq!(validate_currency_code("jpy").unwrap(), "JPY");
    assert_eq!(validate_currency_code("Usd").unwrap(), "USD");
    assert_eq!(validate_currency_code_with_mode("jpy", CurrencyValidationMode::IsoStrict).unwrap(), "JPY");
}

#[test]
fn test_validate_currency_code_format_only_allows_unknown_codes() {
    assert_eq!(validate_currency_code("ZZZ").unwrap(), "ZZZ");
    assert_eq!(validate_currency_code_with_mode("ZZZ", CurrencyValidationMode::FormatOnly).unwrap(), "ZZZ");
}

#[test]
fn test_validate_currency_code_format_only_allows_denylisted_codes() {
    assert_eq!(validate_currency_code("XXX").unwrap(), "XXX");
    assert_eq!(validate_currency_code_with_mode("XXX", CurrencyValidationMode::FormatOnly).unwrap(), "XXX");
}

#[test]
fn test_validate_currency_code_iso_strict_accepts_valid_iso_codes() {
    for code in ["JPY", "USD", "EUR", "HRK", "LTL"] {
        assert_eq!(validate_currency_code_with_mode(code, CurrencyValidationMode::IsoStrict).unwrap(), code);
    }
}

#[test]
fn test_validate_currency_code_iso_strict_rejects_unknown_codes() {
    for code in ["ZZZ", "ABC", "JPN"] {
        assert!(validate_currency_code_with_mode(code, CurrencyValidationMode::IsoStrict).is_err());
    }
}

#[test]
fn test_validate_currency_code_iso_strict_rejects_denylisted_codes() {
    for code in ["XXX", "XTS", "XAU", "XAG", "XPT", "XPD"] {
        let error = validate_currency_code_with_mode(code, CurrencyValidationMode::IsoStrict)
            .unwrap_err()
            .to_string();
        assert!(error.contains("旅行費用として許可されていません"), "unexpected error for {code}: {error}");
    }
}

#[test]
fn mod_test_validate_currency_code_rejects_invalid_format() {
    for mode in [CurrencyValidationMode::FormatOnly, CurrencyValidationMode::IsoStrict] {
        assert!(validate_currency_code_with_mode("JP", mode).is_err());
        assert!(validate_currency_code_with_mode("JPYY", mode).is_err());
        assert!(validate_currency_code_with_mode("JP1", mode).is_err());
    }
}

#[test]
fn mod_test_parse_amount_jpy_integer() {
    assert_eq!(parse_amount_for_currency("1500", "JPY").unwrap(), 1500);
}

#[test]
fn mod_test_parse_amount_usd_decimal() {
    assert_eq!(parse_amount_for_currency("12.50", "USD").unwrap(), 1250);
    assert_eq!(parse_amount_for_currency("12.5", "USD").unwrap(), 1250);
}

#[test]
fn mod_test_parse_amount_rejects_too_many_decimals_for_jpy() {
    assert!(parse_amount_for_currency("10.5", "JPY").is_err());
}

#[test]
fn mod_test_parse_amount_rejects_negative() {
    assert!(parse_amount_for_currency("-100", "JPY").is_err());
}

#[test]
fn test_parse_amount_unknown_currency_still_uses_format_only() {
    assert_eq!(parse_amount_for_currency("100", "ZZZ").unwrap(), 10_000);
}

#[test]
fn mod_test_format_amount_value_negative_decimal_currency() {
    assert_eq!(format_amount_value(-50, "USD"), "-0.50");
    assert_eq!(format_amount_value(-12345, "USD"), "-123.45");
    assert_eq!(format_amount_value(50, "USD"), "0.50");
    assert_eq!(format_amount_value(12345, "USD"), "123.45");
}

#[test]
fn mod_test_format_amount_value_negative_zero_decimal_currency() {
    assert_eq!(format_amount_value(-500, "JPY"), "-500");
    assert_eq!(format_amount_value(-50_000, "KRW"), "-50,000");
}

#[test]
fn commas_group_thousands() {
    assert_eq!(format_integer_with_commas(0), "0");
    assert_eq!(format_integer_with_commas(999), "999");
    assert_eq!(format_integer_with_commas(1000), "1,000");
    assert_eq!(format_integer_with_commas(-1234567), "-1,234,567");
}

#[test]
fn amount_display_appends_currency() {
    assert_eq!(format_amount_display(150000, "JPY"), "150,000 JPY");
    assert_eq!(format_amount_display(1999, "USD"), "19.99 USD");
}

#[test]
fn parse_then_format_gives_canonical_amount() {
    let minor = parse_amount_for_currency("1234.5", "USD").unwrap();
    assert_eq!(minor, 123450);
    assert_eq!(format_amount_value(minor, "USD"), "1,234.50");
}

#[test]
fn validate_currency_code_is_idempotent() {
    let once = validate_currency_code("eur").unwrap();
    assert_eq!(validate_currency_code(&once).unwrap(), once);
}

#[test]
fn parse_amount_rejects_empty_and_garbage() {
    assert!(parse_amount_for_currency("", "JPY").is_err());
    assert!(parse_amount_for_currency("1,000", "JPY").is_err());
    assert!(parse_amount_for_currency("1.2.3", "USD").is_err());
}
