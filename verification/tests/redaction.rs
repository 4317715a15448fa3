use dingtalk_sdk::{body_snippet_for_error, redact_text, truncate_snippet, BodySnippetConfig};

#[test]
fn truncate_snippet_keeps_boundary() {
    let text = "hello world";
    assert_eq!(truncate_snippet(text, 5), "hello...(truncated)");
}

#[test]
fn truncate_returns_short_bodies_unchanged() {
    assert_eq!(truncate_snippet("short", 64), "short");
    assert_eq!(truncate_snippet("", 0), "");
}

#[test]
fn truncate_never_splits_multibyte_characters() {
    let text = "caf\u{e9}s and more";
    for max_bytes in 0..text.len() {
        let cut = truncate_snippet(text, max_bytes);
        assert!(cut.ends_with("...(truncated)"));
        let kept = &cut[..cut.len() - "...(truncated)".len()];
        assert!(text.starts_with(kept));
        assert!(kept.len() <= max_bytes);
    }
    assert_eq!(truncate_snippet(text, 4), "caf...(truncated)");
    assert_eq!(truncate_snippet(text, 5), "caf\u{e9}...(truncated)");
}

#[test]
fn redact_masks_window_after_sensitive_key() {
    let text = r#"before access_token":"abcdef123456" after"#;
    let masked = redact_text(text);
    assert!(masked.starts_with("before access_token=<redacted>"));
    assert!(!masked.contains("abcdef123456"));
}

#[test]
fn redact_leaves_unrelated_text_intact() {
    let text = "nothing sensitive here";
    assert_eq!(redact_text(text), text);
}

#[test]
fn redact_is_case_insensitive() {
    let masked = redact_text("the PASSWORD: hunter2-hunter2-hunter2-hunter2");
    assert!(!masked.contains("hunter2"));
    assert!(masked.contains("PASSWORD=<redacted>") || masked.contains("=<redacted>"));
}

#[test]
fn snippet_for_error_truncates_and_redacts() {
    let config = BodySnippetConfig {
        enabled: true,
        max_bytes: 4096,
    };
    let snippet =
        body_snippet_for_error(r#"{"secret":"abc-def-ghi-jkl-mno-pqr-stu-vwx"}"#, config)
            .expect("capture enabled");
    assert!(!snippet.contains("abc-def-ghi"));

    let disabled = BodySnippetConfig {
        enabled: false,
        max_bytes: 4096,
    };
    assert!(body_snippet_for_error("anything", disabled).is_none());
}
