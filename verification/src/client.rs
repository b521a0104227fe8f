use vstd::prelude::*;
use vstd::string::*;

use crate::request::{
    basic_headers, header_view, make_basic_headers, spec_oauth_request, Method, RequestPlan,
    RequestView,
};
use crate::text::mentions;
use crate::uri::{
    asset_slot, asset_uri, assets_uri, catalogs_root, rendition_slot, rendition_uri,
    renditions_uri, spec_asset_uri, spec_assets_uri, spec_rendition_uri, spec_renditions_uri,
};

verus! {

/// What a client holds: the application's API key, the signed-in user's
/// token, and whether response bodies are echoed for inspection.
pub struct ClientState {
    pub client_id: Seq<char>,
    pub user_token: Seq<char>,
    pub spew: bool,
}

/// A Lightroom API client acting for one signed-in user.
#[derive(Debug)]
pub struct AdobeClient {
    client_id: String,
    user_token: String,
    spew: bool,
}

impl View for AdobeClient {
    type V = ClientState;

    closed spec fn view(&self) -> ClientState {
        ClientState { client_id: self.client_id@, user_token: self.user_token@, spew: self.spew }
    }
}

/// A request of `client` with the given method and URI: the basic headers,
/// and the user's token as bearer.
pub open spec fn spec_client_request(client: ClientState, method: Method, url: Seq<char>) -> RequestView {
    RequestView {
        method: method,
        url: url,
        headers: basic_headers(client.client_id),
        bearer_token: Some(client.user_token),
    }
}

/// The header that asks the API to generate renditions, and which ones.
pub open spec fn generate_renditions_header() -> (Seq<char>, Seq<char>) {
    ("x-generate-renditions"@, "fullsize,2560"@)
}

/// A GET request that the client makes is the request that the sign-in
/// flow makes with the client's key and the user's token.
pub proof fn lemma_client_get_is_oauth_request(client: ClientState, url: Seq<char>)
    ensures
        spec_client_request(client, Method::Get, url) == spec_oauth_request(
            url,
            client.client_id,
            Some(client.user_token),
        ),
{
}

/// Every request a client makes carries the client's API key, JSON as
/// content type, and the user's token as bearer, with the method and URI
/// asked for.
pub proof fn lemma_client_request_carries_credentials(client: ClientState, method: Method, url: Seq<char>)
    ensures
        spec_client_request(client, method, url).method == method,
        spec_client_request(client, method, url).url == url,
        spec_client_request(client, method, url).headers == seq![
            ("x-api-key"@, client.client_id),
            ("content-type"@, "application/json"@),
        ],
        spec_client_request(client, method, url).bearer_token == Some(client.user_token),
{
}

/// Whether bodies are echoed has no effect on what a client sends.
pub proof fn lemma_client_request_ignores_echo(client: ClientState, echo: bool, method: Method, url: Seq<char>)
    ensures
        spec_client_request(ClientState { spew: echo, ..client }, method, url)
            == spec_client_request(client, method, url),
{
}

impl AdobeClient {
    /// A client for the given API key and user token, not echoing bodies.
    pub fn new(client_id: String, user_token: String) -> (r: Self)
        ensures
            r@ == (ClientState { client_id: client_id@, user_token: user_token@, spew: false }),
    {
        AdobeClient { client_id, user_token, spew: false }
    }

    /// From now on, echo every response body that arrives.
    pub fn spew_next(&mut self)
        ensures
            final(self)@ == (ClientState { spew: true, ..old(self)@ }),
    {
        self.spew = true;
    }

    /// A response body has arrived: whether to echo it. Echoing, once asked
    /// for, stays on.
    pub fn body_received(&mut self) -> (echo: bool)
        ensures
            echo == old(self)@.spew,
            final(self)@ == old(self)@,
    {
        if self.spew {
            self.spew = true;
            true
        } else {
            false
        }
    }

    /// `plan` with the API key, the JSON content type and the user's token
    /// added.
    fn add_basic_headers(&self, plan: RequestPlan) -> (r: RequestPlan)
        ensures
            r@ == (RequestView {
                headers: plan@.headers + basic_headers(self@.client_id),
                bearer_token: Some(self@.user_token),
                ..plan@
            }),
    {
        let mut plan = plan;
        let ghost before = plan.headers@;
        let mut extra = make_basic_headers(self.client_id.as_str());
        plan.headers.append(&mut extra);
        plan.bearer_token = Some(self.user_token.clone());
        assert(plan.headers@.map_values(|h: (String, String)| header_view(h)) =~= before.map_values(
            |h: (String, String)| header_view(h),
        ) + basic_headers(self@.client_id));
        plan
    }

    fn bare_request(method: Method, url: String) -> (r: RequestPlan)
        ensures
            r@ == (RequestView {
                method: method,
                url: url@,
                headers: Seq::empty(),
                bearer_token: None,
            }),
    {
        let r = RequestPlan { method, url, headers: Vec::new(), bearer_token: None };
        assert(r@.headers =~= Seq::<(Seq<char>, Seq<char>)>::empty());
        r
    }

    /// A GET request to `url` as this client.
    pub fn build_get_request(&self, url: &str) -> (r: RequestPlan)
        ensures
            r@ == spec_client_request(self@, Method::Get, url@),
            r@.method == Method::Get,
            r@.url == url@,
            r@.headers == seq![("x-api-key"@, self@.client_id), ("content-type"@, "application/json"@)],
            r@.bearer_token == Some(self@.user_token),
    {
        let r = self.add_basic_headers(Self::bare_request(Method::Get, String::from_str(url)));
        assert(r@.headers =~= basic_headers(self@.client_id));
        r
    }

    /// A POST request to `url` as this client.
    pub fn build_post_request(&self, url: &str) -> (r: RequestPlan)
        ensures
            r@ == spec_client_request(self@, Method::Post, url@),
            r@.method == Method::Post,
            r@.url == url@,
            r@.headers == seq![("x-api-key"@, self@.client_id), ("content-type"@, "application/json"@)],
            r@.bearer_token == Some(self@.user_token),
    {
        let r = self.add_basic_headers(Self::bare_request(Method::Post, String::from_str(url)));
        assert(r@.headers =~= basic_headers(self@.client_id));
        r
    }

    /// The request for the user's account and entitlement.
    pub fn entitlement_request(&self) -> (r: RequestPlan)
        ensures
            r@ == spec_client_request(self@, Method::Get, "https://lr.adobe.io/v2/account"@),
    {
        self.build_get_request("https://lr.adobe.io/v2/account")
    }

    /// The request for the user's catalog.
    pub fn catalog_request(&self) -> (r: RequestPlan)
        ensures
            r@ == spec_client_request(self@, Method::Get, "https://lr.adobe.io/v2/catalog"@),
    {
        self.build_get_request("https://lr.adobe.io/v2/catalog")
    }

    /// The request for one asset of a catalog.
    pub fn asset_request(&self, catalog_id: &str, asset_id: &str) -> (r: RequestPlan)
        ensures
            r@ == spec_client_request(self@, Method::Get, spec_asset_uri(catalog_id@, asset_id@)),
            !mentions(catalog_id@, asset_slot()) ==> r@.url == catalogs_root() + catalog_id@
                + "/assets/"@ + asset_id@,
    {
        let uri = asset_uri(catalog_id, asset_id);
        self.build_get_request(uri.as_str())
    }

    /// The request for the assets of a catalog.
    pub fn assets_request(&self, catalog_id: &str) -> (r: RequestPlan)
        ensures
            r@ == spec_client_request(self@, Method::Get, spec_assets_uri(catalog_id@)),
            r@.url == catalogs_root() + catalog_id@ + "/assets"@,
    {
        let uri = assets_uri(catalog_id);
        self.build_get_request(uri.as_str())
    }

    /// The request that asks the API to generate the full-size and the
    /// 2560-pixel renditions of an asset.
    pub fn generate_renditions_request(&self, catalog_id: &str, asset_id: &str) -> (r: RequestPlan)
        ensures
            r@ == (RequestView {
                headers: basic_headers(self@.client_id).push(generate_renditions_header()),
                ..spec_client_request(
                    self@,
                    Method::Post,
                    spec_renditions_uri(catalog_id@, asset_id@),
                )
            }),
            !mentions(catalog_id@, asset_slot()) ==> r@.url == catalogs_root() + catalog_id@
                + "/assets/"@ + asset_id@ + "/renditions"@,
            r@.method == Method::Post,
            r@.url == spec_renditions_uri(catalog_id@, asset_id@),
            r@.headers == seq![
                ("x-api-key"@, self@.client_id),
                ("content-type"@, "application/json"@),
                ("x-generate-renditions"@, "fullsize,2560"@),
            ],
            r@.bearer_token == Some(self@.user_token),
    {
        let uri = renditions_uri(catalog_id, asset_id);
        let mut r = self.build_post_request(uri.as_str());
        let ghost before = r.headers@;
        r.headers.push((String::from_str("x-generate-renditions"), String::from_str("fullsize,2560")));
        assert(r.headers@.map_values(|h: (String, String)| header_view(h)) =~= before.map_values(
            |h: (String, String)| header_view(h),
        ).push(generate_renditions_header()));
        r
    }

    /// The request for one rendition of an asset.
    pub fn rendition_request(&self, catalog_id: &str, asset_id: &str, rendition_type: &str) -> (r:
        RequestPlan)
        ensures
            r@ == spec_client_request(
                self@,
                Method::Get,
                spec_rendition_uri(catalog_id@, asset_id@, rendition_type@),
            ),
            !mentions(catalog_id@, asset_slot()) && !mentions(catalog_id@, rendition_slot())
                && !mentions(asset_id@, rendition_slot()) ==> r@.url == catalogs_root()
                + catalog_id@ + "/assets/"@ + asset_id@ + "/renditions/"@ + rendition_type@,
    {
        let uri = rendition_uri(catalog_id, asset_id, rendition_type);
        self.build_get_request(uri.as_str())
    }
}

} // verus!
