use lrtool::response::{response_payload, AssetResponse, Link, Links, RetrieveAssetsResponse};

fn asset(id: &str, href: &str) -> AssetResponse {
    AssetResponse {
        id: id.to_string(),
        subtype: "image".to_string(),
        links: Links { self_: Link { href: href.to_string() } },
    }
}

#[test]
fn payload_follows_the_guard_line() {
    assert_eq!(
        response_payload("while (1) {}\n{\"id\":\"abc\"}"),
        Some("{\"id\":\"abc\"}")
    );
}

#[test]
fn payload_is_everything_after_the_first_line_only() {
    assert_eq!(response_payload("a\nb\nc"), Some("b\nc"));
    assert_eq!(response_payload("\n"), Some(""));
    assert_eq!(response_payload("\nrest"), Some("rest"));
    assert_eq!(response_payload("ümlaut ✓\nñ"), Some("ñ"));
}

#[test]
fn payload_missing_without_line_break() {
    assert_eq!(response_payload("{\"id\":\"abc\"}"), None);
    assert_eq!(response_payload(""), None);
}

#[test]
fn first_asset_of_a_listing() {
    let listing = RetrieveAssetsResponse {
        base: "https://lr.adobe.io/v2/".to_string(),
        resources: vec![asset("one", "a/1"), asset("two", "a/2")],
    };
    assert_eq!(listing.first_asset().map(|a| a.id.as_str()), Some("one"));
    let empty = RetrieveAssetsResponse { base: "b".to_string(), resources: vec![] };
    assert!(empty.first_asset().is_none());
}

#[test]
fn asset_link_joins_base_and_href() {
    let listing = RetrieveAssetsResponse {
        base: "https://lr.adobe.io/v2/".to_string(),
        resources: vec![asset("one", "catalogs/c/assets/one")],
    };
    let first = listing.first_asset().unwrap();
    assert_eq!(
        listing.asset_link(first),
        "https://lr.adobe.io/v2/catalogs/c/assets/one"
    );
}
