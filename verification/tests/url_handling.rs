use dingtalk_sdk::{endpoint_url, normalize_base_url, Error};

#[test]
fn endpoint_url_encodes_segments() {
    let base = normalize_base_url("https://example.com/api").expect("base");
    let url = endpoint_url(&base, &["users", "a/b"]).expect("url");
    assert_eq!(url, "https://example.com/api/users/a%2Fb");
}

#[test]
fn normalize_base_url_rejects_query() {
    let error = normalize_base_url("https://example.com/api?x=1").expect_err("must fail");
    match error {
        Error::InvalidConfig { .. } => {}
        other => panic!("unexpected error: {other:?}"),
    }
}

#[test]
fn normalize_base_url_rejects_fragment_and_garbage() {
    assert!(matches!(
        normalize_base_url("https://example.com/api#frag"),
        Err(Error::InvalidConfig { .. })
    ));
    assert!(matches!(
        normalize_base_url("not a url"),
        Err(Error::InvalidConfig { .. })
    ));
    assert!(matches!(
        normalize_base_url("mailto:someone@example.com"),
        Err(Error::InvalidConfig { .. })
    ));
}

#[test]
fn normalize_base_url_strips_trailing_slash() {
    let base = normalize_base_url("https://example.com/api/").expect("base");
    assert_eq!(base.path(), "/api");

    let root = normalize_base_url("https://example.com/").expect("base");
    assert_eq!(root.path(), "/");
}

#[test]
fn endpoint_segments_match_url_crate_push() {
    let base = normalize_base_url("https://example.com/api").expect("base");
    let built = endpoint_url(&base, &["caf\u{e9}", "a b", "x%y"]).expect("url");

    let mut reference = url::Url::parse("https://example.com/api").expect("reference");
    reference
        .path_segments_mut()
        .expect("hierarchical")
        .push("caf\u{e9}")
        .push("a b")
        .push("x%y");
    assert_eq!(built, reference.as_str());
}

#[test]
fn base_url_round_trips_through_as_str() {
    let base = normalize_base_url("https://example.com/api").expect("base");
    assert_eq!(base.as_str(), "https://example.com/api");
    let again = normalize_base_url(&base.as_str()).expect("reparse");
    assert_eq!(again.path(), "/api");
}
