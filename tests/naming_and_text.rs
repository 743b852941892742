use edge_onboard::naming::{device_code, device_code_prefix, slug, slug_from_lowered};
use edge_onboard::text::{decimal_string, parse_u16, trim_str, trim_end_char_str};

#[test]
fn slug_lowercases_and_joins_words() {
    assert_eq!(slug("Acme Corp"), "acme-corp");
    assert_eq!(slug("  Acme   Official  "), "acme-official");
    assert_eq!(slug("ACME-POS-01"), "acme-pos-01");
}

#[test]
fn slug_falls_back_to_company() {
    assert_eq!(slug(""), "company");
    assert_eq!(slug(" -- !! "), "company");
}

#[test]
fn slug_drops_trailing_separators() {
    assert_eq!(slug("Acme!!!"), "acme");
    assert_eq!(slug("!!Acme"), "acme");
}

#[test]
fn slug_from_lowered_keeps_ascii_only() {
    assert_eq!(slug_from_lowered("café bar"), "caf-bar");
}

#[test]
fn prefix_uppercases_and_collapses() {
    assert_eq!(device_code_prefix("Acme Official"), "ACME-OFFICIAL");
    assert_eq!(device_code_prefix("  a..b  "), "A-B");
}

#[test]
fn prefix_truncates_to_fourteen() {
    assert_eq!(device_code_prefix("Very Long Company Name Inc"), "VERY-LONG-COMP");
    assert_eq!(device_code_prefix("Very Long Company Name Inc").len(), 14);
}

#[test]
fn prefix_falls_back_to_pos() {
    assert_eq!(device_code_prefix(""), "POS");
    assert_eq!(device_code_prefix("---"), "POS");
    assert_eq!(device_code_prefix("ééé"), "POS");
}

#[test]
fn device_codes_are_zero_padded() {
    assert_eq!(device_code("ACME", 1), "ACME-POS-01");
    assert_eq!(device_code("ACME", 12), "ACME-POS-12");
    assert_eq!(device_code("ACME", 100), "ACME-POS-100");
}

#[test]
fn device_codes_of_a_tenant_are_unique_and_well_formed() {
    let prefix = device_code_prefix("Acme Official");
    let codes: Vec<String> = (1..=12u16).map(|i| device_code(&prefix, i)).collect();
    for (i, a) in codes.iter().enumerate() {
        assert!(a.starts_with("ACME-OFFICIAL-POS-"));
        let n = &a["ACME-OFFICIAL-POS-".len()..];
        assert!(n.len() >= 2 && n.chars().all(|c| c.is_ascii_digit()));
        for b in codes.iter().skip(i + 1) {
            assert_ne!(a, b);
        }
    }
    assert!(prefix.len() <= 14);
    assert!(prefix.chars().all(|c| c.is_ascii_uppercase() || c.is_ascii_digit() || c == '-'));
}

#[test]
fn trims_like_std() {
    assert_eq!(trim_str("  a b \t\n"), "a b");
    assert_eq!(trim_str("\u{a0}x\u{3000}"), "x");
    assert_eq!(trim_end_char_str("http://h:1///", '/'), "http://h:1");
}

#[test]
fn decimal_and_parse() {
    assert_eq!(decimal_string(0), "0");
    assert_eq!(decimal_string(8001), "8001");
    assert_eq!(parse_u16("8001"), Some(8001));
    assert_eq!(parse_u16("+42"), Some(42));
    assert_eq!(parse_u16("65535"), Some(65535));
    assert_eq!(parse_u16("65536"), None);
    assert_eq!(parse_u16(""), None);
    assert_eq!(parse_u16("+"), None);
    assert_eq!(parse_u16("-1"), None);
    assert_eq!(parse_u16("12a"), None);
}
