//! Link extraction: allow-list filtering, path filtering, deduplication by
//! normalized form, and the API host rewrite.

use fxbridge::pipeline::api_url;
use fxbridge::weblink::host_allowed;

#[test]
fn extracts_only_allowed_https_post_links() {
    let body = "see https://x.com/user/status/123 and https://evil.example/status/5 \
                and http://x.com/user/status/9 and https://x.com/user";
    let links = fxbridge::extract::extract_links(body);
    assert_eq!(links.len(), 1);
    assert_eq!(links[0].scheme, "https");
    assert_eq!(links[0].host, "x.com");
    assert_eq!(links[0].path, "/user/status/123");
}

#[test]
fn repeated_link_extracted_once() {
    let body = "https://x.com/user/status/123 again https://x.com/user/status/123";
    let links = fxbridge::extract::extract_links(body);
    assert_eq!(links.len(), 1);
}

#[test]
fn dedup_uses_normalized_form() {
    // The parser lowercases the host, so the two spellings are one link.
    let body = "https://X.com/user/status/123 https://x.com/user/status/123";
    let links = fxbridge::extract::extract_links(body);
    assert_eq!(links.len(), 1);
    assert_eq!(links[0].host, "x.com");
}

#[test]
fn distinct_links_kept_in_order() {
    let body = "https://x.com/a/status/1 then https://vxtwitter.com/b/status/2";
    let links = fxbridge::extract::extract_links(body);
    assert_eq!(links.len(), 2);
    assert_eq!(links[0].path, "/a/status/1");
    assert_eq!(links[1].host, "vxtwitter.com");
}

#[test]
fn link_found_inside_sentence() {
    let body = "look: https://fxtwitter.com/u/status/42, nice";
    let links = fxbridge::extract::extract_links(body);
    assert_eq!(links.len(), 1);
    assert_eq!(links[0].host, "fxtwitter.com");
    assert_eq!(links[0].path, "/u/status/42");
}

#[test]
fn empty_body_extracts_nothing() {
    let links = fxbridge::extract::extract_links("");
    assert!(links.is_empty());
}

#[test]
fn profile_page_is_not_a_candidate() {
    let links = fxbridge::extract::extract_links("https://x.com/someuser");
    assert!(links.is_empty());
}

#[test]
fn allowlist_membership() {
    assert!(host_allowed("x.com"));
    assert!(host_allowed("X.COM"));
    assert!(host_allowed("nitter.poast.org"));
    assert!(!host_allowed("example.com"));
    assert!(!host_allowed("xx.com"));
}

#[test]
fn url_serialization_round_trip() {
    let body = "https://x.com/user/status/123?s=20#m";
    let links = fxbridge::extract::extract_links(body);
    assert_eq!(links.len(), 1);
    // The fragment is kept for deduplication but never sent to a server.
    assert_eq!(links[0].fragment.as_deref(), Some("m"));
    assert_eq!(
        fxbridge::weblink::url_string(&links[0]),
        "https://x.com/user/status/123?s=20"
    );
    let api = api_url(&links[0]);
    assert_eq!(
        fxbridge::weblink::url_string(&api),
        "https://api.fxtwitter.com/user/status/123?s=20"
    );
}

#[test]
fn api_rewrite_keeps_path_and_query() {
    let body = "https://x.com/user/status/123?s=20";
    let links = fxbridge::extract::extract_links(body);
    assert_eq!(links.len(), 1);
    let api = api_url(&links[0]);
    assert_eq!(api.scheme, "https");
    assert_eq!(api.host, "api.fxtwitter.com");
    assert_eq!(api.path, "/user/status/123");
    assert_eq!(api.query.as_deref(), Some("s=20"));
}
