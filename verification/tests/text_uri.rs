use lrtool::text::replace_all;
use lrtool::uri::{asset_uri, assets_uri, rendition_uri, renditions_uri};

#[test]
fn replace_all_replaces_every_occurrence() {
    assert_eq!(replace_all("a{x}b{x}", "{x}", "Z"), "aZbZ");
}

#[test]
fn replace_all_scans_left_to_right_without_overlap() {
    assert_eq!(replace_all("aaa", "aa", "b"), "ba");
    assert_eq!(replace_all("aaaa", "aa", "b"), "bb");
}

#[test]
fn replace_all_leaves_text_without_pattern() {
    assert_eq!(replace_all("plain text", "{x}", "Z"), "plain text");
    assert_eq!(replace_all("", "{x}", "Z"), "");
    assert_eq!(replace_all("{x", "{x}", "Z"), "{x");
}

#[test]
fn replace_all_agrees_with_str_replace() {
    let cases = [
        ("héllo wörld wörld", "wörld", "sea"),
        ("{a}{a}{a}", "{a}", ""),
        ("ababab", "aba", "X"),
        ("xyz", "xyz", "{xyz}"),
        ("日本語日本", "日本", "ja"),
    ];
    for (s, p, r) in cases {
        assert_eq!(replace_all(s, p, r), s.replace(p, r));
    }
}

#[test]
fn asset_uri_places_both_ids() {
    assert_eq!(
        asset_uri("cat123", "ast456"),
        "https://lr.adobe.io/v2/catalogs/cat123/assets/ast456"
    );
}

#[test]
fn asset_uri_substitutes_inside_the_catalog_id() {
    // The asset placeholder is replaced after the catalog id is in place,
    // so an id that holds it is rewritten too, as `str::replace` would.
    assert_eq!(
        asset_uri("x{asset_id}", "A"),
        "https://lr.adobe.io/v2/catalogs/xA/assets/A"
    );
}

#[test]
fn assets_uri_places_the_catalog_id() {
    assert_eq!(assets_uri("c1"), "https://lr.adobe.io/v2/catalogs/c1/assets");
    assert_eq!(
        assets_uri("{asset_id}"),
        "https://lr.adobe.io/v2/catalogs/{asset_id}/assets"
    );
}

#[test]
fn renditions_uri_places_both_ids() {
    assert_eq!(
        renditions_uri("c", "a"),
        "https://lr.adobe.io/v2/catalogs/c/assets/a/renditions"
    );
}

#[test]
fn rendition_uri_places_all_three() {
    assert_eq!(
        rendition_uri("c", "a", "fullsize"),
        "https://lr.adobe.io/v2/catalogs/c/assets/a/renditions/fullsize"
    );
}

#[test]
fn rendition_uri_with_placeholders_in_ids() {
    // Later substitutions also reach what earlier ones put in.
    assert_eq!(
        rendition_uri("c{rendition_type}", "a", "fullsize"),
        "https://lr.adobe.io/v2/catalogs/cfullsize/assets/a/renditions/fullsize"
    );
}

#[test]
fn empty_ids_leave_empty_segments() {
    assert_eq!(asset_uri("", ""), "https://lr.adobe.io/v2/catalogs//assets/");
}
