use vstd::prelude::*;

verus! {

/// Adobe's endpoint where the user authorizes the application.
pub const AUTH_URI: &'static str = "https://ims-na1.adobelogin.com/ims/authorize/v2";

/// Adobe's endpoint where an authorization code is exchanged for a token.
pub const TOKEN_URI: &'static str = "https://ims-na1.adobelogin.com/ims/token/v3";

/// Where Adobe sends the user back after sign-in.
pub const REDIRECT_URI: &'static str = "https://localhost:7777/adobe/oauth2/callback";

/// The private cookie that holds the signed-in user's access token.
pub const TOKEN_COOKIE: &'static str = "token";

/// The scopes that sign-in asks for: identity, and the partner APIs for
/// catalogs and renditions.
pub const LOGIN_SCOPES: [&'static str; 3] = ["openid", "lr_partner_apis", "lr_partner_rendition_apis"];

/// The state the server keeps for the sign-in flow: the application's API
/// key.
#[derive(Debug)]
pub struct AdobeOAuthState {
    pub client_id: String,
}

impl AdobeOAuthState {
    /// The sign-in state for the given API key.
    pub fn new(client_id: String) -> (r: Self)
        ensures
            r.client_id == client_id,
    {
        AdobeOAuthState { client_id }
    }
}

} // verus!
