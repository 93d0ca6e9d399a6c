use lua_bindgen::annotation::parse_export_config;
use lua_bindgen::errors::GenErrorKind;

#[test]
fn under_with_string_literal() {
    let cfg = parse_export_config("under = \"Ops\"", "f").unwrap();
    assert_eq!(cfg.under.as_deref(), Some("Ops"));
}

#[test]
fn empty_payload_means_default_namespace() {
    let cfg = parse_export_config("", "f").unwrap();
    assert!(cfg.under.is_none());
}

#[test]
fn blank_payload_means_default_namespace() {
    let cfg = parse_export_config("  \t ", "f").unwrap();
    assert!(cfg.under.is_none());
}

#[test]
fn unrecognized_keys_are_ignored() {
    let cfg = parse_export_config("name = compute, under = \"Math\", extra = 7", "f").unwrap();
    assert_eq!(cfg.under.as_deref(), Some("Math"));
}

#[test]
fn unrecognized_value_may_nest_commas() {
    let cfg = parse_export_config("args = (1, 2), under = \"Ops\"", "f").unwrap();
    assert_eq!(cfg.under.as_deref(), Some("Ops"));
}

#[test]
fn last_under_wins() {
    let cfg = parse_export_config("under = \"A\", under = \"B\"", "f").unwrap();
    assert_eq!(cfg.under.as_deref(), Some("B"));
}

#[test]
fn trailing_comma_is_accepted() {
    let cfg = parse_export_config("under = \"A\",", "f").unwrap();
    assert_eq!(cfg.under.as_deref(), Some("A"));
}

#[test]
fn under_without_string_literal_is_rejected() {
    let err = parse_export_config("under = 3", "f").unwrap_err();
    assert_eq!(err.kind, GenErrorKind::UnderNotString);
    assert_eq!(err.decl.as_str(), "f");
    assert_eq!(err.message().as_str(), "value for 'under' must be a string: `f`");
}

#[test]
fn key_without_value_is_rejected() {
    let err = parse_export_config("under", "f").unwrap_err();
    assert_eq!(err.kind, GenErrorKind::MalformedAnnotation);
}

#[test]
fn missing_equals_is_rejected() {
    let err = parse_export_config("under \"Ops\"", "f").unwrap_err();
    assert_eq!(err.kind, GenErrorKind::MalformedAnnotation);
}

#[test]
fn unterminated_string_is_rejected() {
    let err = parse_export_config("under = \"Ops", "f").unwrap_err();
    assert_eq!(err.kind, GenErrorKind::MalformedAnnotation);
}

#[test]
fn unbalanced_brackets_are_rejected() {
    let err = parse_export_config("extra = (1, 2", "f").unwrap_err();
    assert_eq!(err.kind, GenErrorKind::MalformedAnnotation);
}

#[test]
fn stray_closer_is_rejected() {
    let err = parse_export_config("extra = 1)", "f").unwrap_err();
    assert_eq!(err.kind, GenErrorKind::MalformedAnnotation);
}

#[test]
fn keys_may_not_start_with_digits() {
    let err = parse_export_config("1st = 2", "f").unwrap_err();
    assert_eq!(err.kind, GenErrorKind::MalformedAnnotation);
}

#[test]
fn escaped_quote_stays_inside_the_literal() {
    let cfg = parse_export_config("under = \"O\\\"ps\"", "f").unwrap();
    assert_eq!(cfg.under.as_deref(), Some("O\\\"ps"));
}

#[test]
fn spaced_pairs_parse() {
    let cfg = parse_export_config("  under  =  \"Geometry\"  ", "f").unwrap();
    assert_eq!(cfg.under.as_deref(), Some("Geometry"));
}
