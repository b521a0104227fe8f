use lrtool::client::AdobeClient;
use lrtool::request::{build_adobe_oauth_request, health_request, Method, RequestPlan};

fn headers(plan: &RequestPlan) -> Vec<(&str, &str)> {
    plan.headers
        .iter()
        .map(|(n, v)| (n.as_str(), v.as_str()))
        .collect()
}

#[test]
fn get_request_carries_key_type_and_token() {
    let client = AdobeClient::new("key".to_string(), "tok".to_string());
    let plan = client.build_get_request("https://example.test/x");
    assert_eq!(plan.method, Method::Get);
    assert_eq!(plan.url, "https://example.test/x");
    assert_eq!(
        headers(&plan),
        vec![("x-api-key", "key"), ("content-type", "application/json")]
    );
    assert_eq!(plan.bearer_token.as_deref(), Some("tok"));
}

#[test]
fn post_request_is_a_post() {
    let client = AdobeClient::new("key".to_string(), "tok".to_string());
    let plan = client.build_post_request("u");
    assert_eq!(plan.method, Method::Post);
    assert_eq!(plan.url, "u");
    assert_eq!(plan.bearer_token.as_deref(), Some("tok"));
}

#[test]
fn oauth_request_with_and_without_token() {
    let with = build_adobe_oauth_request("u", "key", Some("tok"));
    assert_eq!(with.method, Method::Get);
    assert_eq!(with.url, "u");
    assert_eq!(
        headers(&with),
        vec![("x-api-key", "key"), ("content-type", "application/json")]
    );
    assert_eq!(with.bearer_token.as_deref(), Some("tok"));
    let without = build_adobe_oauth_request("u", "key", None);
    assert_eq!(without.bearer_token, None);
    assert_eq!(headers(&without), headers(&with));
}

#[test]
fn client_get_matches_oauth_request_with_token() {
    let client = AdobeClient::new("key".to_string(), "tok".to_string());
    let a = client.build_get_request("https://lr.adobe.io/v2/account");
    let b = build_adobe_oauth_request("https://lr.adobe.io/v2/account", "key", Some("tok"));
    assert_eq!(a.method, b.method);
    assert_eq!(a.url, b.url);
    assert_eq!(a.headers, b.headers);
    assert_eq!(a.bearer_token, b.bearer_token);
}

#[test]
fn health_request_has_no_token() {
    let plan = health_request("key");
    assert_eq!(plan.url, "http://lr.adobe.io/v2/health");
    assert_eq!(plan.method, Method::Get);
    assert_eq!(plan.bearer_token, None);
    assert_eq!(headers(&plan)[0], ("x-api-key", "key"));
}

#[test]
fn endpoint_requests() {
    let client = AdobeClient::new("key".to_string(), "tok".to_string());
    assert_eq!(client.entitlement_request().url, "https://lr.adobe.io/v2/account");
    assert_eq!(client.catalog_request().url, "https://lr.adobe.io/v2/catalog");
    assert_eq!(
        client.assets_request("c").url,
        "https://lr.adobe.io/v2/catalogs/c/assets"
    );
    assert_eq!(
        client.asset_request("c", "a").url,
        "https://lr.adobe.io/v2/catalogs/c/assets/a"
    );
    let rend = client.rendition_request("c", "a", "2560");
    assert_eq!(rend.url, "https://lr.adobe.io/v2/catalogs/c/assets/a/renditions/2560");
    assert_eq!(rend.method, Method::Get);
}

#[test]
fn generate_renditions_request_is_a_post_with_the_generation_header() {
    let client = AdobeClient::new("key".to_string(), "tok".to_string());
    let plan = client.generate_renditions_request("c", "a");
    assert_eq!(plan.method, Method::Post);
    assert_eq!(plan.url, "https://lr.adobe.io/v2/catalogs/c/assets/a/renditions");
    assert_eq!(
        headers(&plan),
        vec![
            ("x-api-key", "key"),
            ("content-type", "application/json"),
            ("x-generate-renditions", "fullsize,2560"),
        ]
    );
    assert_eq!(plan.bearer_token.as_deref(), Some("tok"));
}

#[test]
fn echo_is_off_until_asked_and_stays_on() {
    let mut client = AdobeClient::new("key".to_string(), "tok".to_string());
    assert!(!client.body_received());
    assert!(!client.body_received());
    client.spew_next();
    assert!(client.body_received());
    assert!(client.body_received());
    client.spew_next();
    assert!(client.body_received());
}
