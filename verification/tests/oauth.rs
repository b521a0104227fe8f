use lrtool::oauth::{AdobeOAuthState, AUTH_URI, LOGIN_SCOPES, REDIRECT_URI, TOKEN_COOKIE, TOKEN_URI};

#[test]
fn oauth_state_keeps_the_client_id() {
    let state = AdobeOAuthState::new("abc".to_string());
    assert_eq!(state.client_id, "abc");
}

#[test]
fn oauth_settings() {
    assert_eq!(AUTH_URI, "https://ims-na1.adobelogin.com/ims/authorize/v2");
    assert_eq!(TOKEN_URI, "https://ims-na1.adobelogin.com/ims/token/v3");
    assert_eq!(REDIRECT_URI, "https://localhost:7777/adobe/oauth2/callback");
    assert_eq!(TOKEN_COOKIE, "token");
    assert_eq!(LOGIN_SCOPES, ["openid", "lr_partner_apis", "lr_partner_rendition_apis"]);
}
