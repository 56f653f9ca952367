use music_separator::logging::{developer_view, directives_text_is_safe, resolve_filter};

#[test]
fn resolve_filter_explicit_wins_over_verbosity() {
    // `--log-level error` must trump `-vvv`.
    let f = resolve_filter(Some("error"), 3, Some("debug".to_string()));
    assert!(f.contains("error"));
}

#[test]
fn resolve_filter_verbosity_wins_over_rust_log() {
    let f = resolve_filter(None, 1, Some("trace".to_string()));
    assert!(f.contains("info"));
}

#[test]
fn resolve_filter_rust_log_used_when_no_flags() {
    let f = resolve_filter(None, 0, Some("music_separator=trace".to_string()));
    assert!(f.contains("trace"));
}

#[test]
fn resolve_filter_default_is_warn() {
    let f = resolve_filter(None, 0, None);
    assert!(f.contains("warn"));
}

#[test]
fn resolve_filter_empty_rust_log_falls_through_to_default() {
    let f = resolve_filter(None, 0, Some(String::new()));
    assert!(f.contains("warn"));
}

#[test]
fn resolve_filter_exact_directives() {
    assert_eq!(resolve_filter(Some("error"), 3, None), "error");
    assert_eq!(resolve_filter(None, 1, None), "warn,music_separator=info");
    assert_eq!(resolve_filter(None, 2, None), "warn,music_separator=debug");
    assert_eq!(resolve_filter(None, 3, None), "warn,music_separator=trace");
    assert_eq!(resolve_filter(None, 200, None), "warn,music_separator=trace");
    assert_eq!(resolve_filter(None, 0, Some("ort=info".to_string())), "ort=info");
}

#[test]
fn resolve_filter_invalid_directives_fall_back_to_warn() {
    assert_eq!(resolve_filter(Some("foo=notalevel"), 0, None), "warn");
    assert_eq!(resolve_filter(None, 0, Some("foo=notalevel".to_string())), "warn");
}

#[test]
fn developer_view_from_two_v_or_debug_level() {
    assert!(!developer_view(0, None));
    assert!(!developer_view(1, Some("info")));
    assert!(developer_view(2, None));
    assert!(developer_view(0, Some("debug")));
    assert!(developer_view(0, Some("trace")));
}

#[test]
fn directive_text_that_would_crash_the_parser_is_detected() {
    assert!(directives_text_is_safe("warn,music_separator=info"));
    assert!(directives_text_is_safe("  info"));
    assert!(directives_text_is_safe("\u{e9}=info"));
    assert!(directives_text_is_safe("info,\u{e9}x"));
    assert!(!directives_text_is_safe(" \u{e9}=info"));
    assert!(!directives_text_is_safe("warn,\u{3000}x=info"));
    assert!(directives_text_is_safe(""));
    // no delimiter after the wide character: the parser cuts nothing there
    assert!(directives_text_is_safe(" \u{e9}"));
    assert!(directives_text_is_safe(" x=\u{e9}"));
    assert!(!directives_text_is_safe(" [\u{e9}]"));
}

#[test]
fn empty_explicit_level_parses_to_no_directives() {
    assert_eq!(resolve_filter(Some(""), 0, None), "");
}

#[test]
fn texts_the_parser_survives_resolve_as_before() {
    // a target named " é" parses
    assert_eq!(resolve_filter(Some(" \u{e9}"), 0, None), " \u{e9}");
    // " x=é" has an invalid level: back to warn
    assert_eq!(resolve_filter(Some(" x=\u{e9}"), 0, None), "warn");
}
