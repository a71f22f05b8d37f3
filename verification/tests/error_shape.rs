use scryfall_rs::OracleID;
use scryfall_rs::ScryfallError;
use scryfall_rs::ScryfallID;

#[test]
fn transport_error_shape() {
    let e = ScryfallError::transport_error("connection refused".to_string());
    assert_eq!(e.status, 500);
    assert_eq!(e.code, "transport_error");
    assert_eq!(e.details, "connection refused");
    assert_eq!(e.type_, None);
    assert_eq!(e.warnings, None);
}

#[test]
fn parse_error_shape() {
    let e = ScryfallError::parse_error("expected value at line 1".to_string());
    assert_eq!(e.status, 500);
    assert_eq!(e.code, "parse_error");
    assert_eq!(e.details, "expected value at line 1");
}

#[test]
fn error_display_text() {
    let e = ScryfallError::parse_error("boom".to_string());
    assert_eq!(e.display_text(), "Scryfall Error: parse_error - boom");
}

#[test]
fn identifiers_display_and_compare_by_wrapped_string() {
    let a = ScryfallID("abc".to_string());
    let b = ScryfallID("abc".to_string());
    let c = ScryfallID("xyz".to_string());
    assert_eq!(a, b);
    assert_ne!(a, c);
    assert_eq!(a.display_text(), "abc");
    let o = OracleID("oid".to_string());
    assert_eq!(o.display_text(), "oid");
    assert_eq!(o, OracleID("oid".to_string()));
}
