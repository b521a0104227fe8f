use vstd::prelude::*;
use vstd::string::*;

use crate::text::chars_of;

verus! {

/// What follows the first line break of `s`, or `None` when `s` has no line
/// break. Adobe's API puts a guard line in front of every JSON body.
pub open spec fn after_first_newline(s: Seq<char>) -> Option<Seq<char>>
    decreases s.len(),
{
    if s.len() == 0 {
        None
    } else if s[0] == '\n' {
        Some(s.skip(1))
    } else {
        after_first_newline(s.skip(1))
    }
}

/// The JSON payload of a response body: everything after its first line.
/// `None` when the body has no line break at all.
pub fn response_payload(body: &str) -> (r: Option<&str>)
    ensures
        r is None <==> after_first_newline(body@) is None,
        r matches Some(p) ==> after_first_newline(body@) == Some(p@),
{
    let text = chars_of(body);
    let n = text.len();
    let mut i: usize = 0;
    assert(body@.skip(0) =~= body@);
    while i < n
        invariant
            text@ == body@,
            n == body@.len(),
            i <= n,
            after_first_newline(body@) == after_first_newline(body@.skip(i as int)),
        decreases n - i,
    {
        assert(body@.skip(i as int).skip(1) =~= body@.skip(i + 1));
        if text[i] == '\n' {
            let payload = body.substring_char(i + 1, n);
            assert(payload@ =~= body@.skip(i as int).skip(1));
            return Some(payload);
        }
        i = i + 1;
    }
    assert(body@.skip(i as int).len() == 0);
    None
}

/// A body made of a guard line and a payload yields exactly that payload.
pub proof fn lemma_payload_after_guard_line(guard: Seq<char>, payload: Seq<char>)
    requires
        !guard.contains('\n'),
    ensures
        after_first_newline(guard + seq!['\n'] + payload) == Some(payload),
    decreases guard.len(),
{
    let body = guard + seq!['\n'] + payload;
    if guard.len() == 0 {
        assert(body.skip(1) =~= payload);
    } else {
        assert(body[0] == guard[0]);
        assert(!guard.skip(1).contains('\n')) by {
            if guard.skip(1).contains('\n') {
                let k = choose|k: int| 0 <= k < guard.skip(1).len() && guard.skip(1)[k] == '\n';
                assert(guard[k + 1] == '\n');
            }
        }
        lemma_payload_after_guard_line(guard.skip(1), payload);
        assert(body.skip(1) =~= guard.skip(1) + seq!['\n'] + payload);
    }
}

/// The user's account, as the account endpoint describes it.
#[derive(Debug)]
pub struct EntitlementResponse {
    pub base: String,
    pub id: String,
    pub typ: String,
    pub email: String,
    pub entitlement: EntitlementDetail,
}

/// The state of the user's Lightroom entitlement.
#[derive(Debug)]
pub struct EntitlementDetail {
    pub status: String,
}

/// The user's catalog.
#[derive(Debug)]
pub struct RetrieveCatalogResponse {
    pub base: String,
    pub id: String,
    pub typ: String,
    pub payload: RetrieveCatalogPayload,
}

/// The descriptive part of a catalog.
#[derive(Debug)]
pub struct RetrieveCatalogPayload {
    pub name: String,
}

/// A page of the assets of a catalog; links in it are relative to `base`.
#[derive(Debug)]
pub struct RetrieveAssetsResponse {
    pub base: String,
    pub resources: Vec<AssetResponse>,
}

/// One asset of a catalog.
#[derive(Debug)]
pub struct AssetResponse {
    pub id: String,
    pub subtype: String,
    pub links: Links,
}

/// The links of an asset.
#[derive(Debug)]
pub struct Links {
    pub self_: Link,
}

/// A link relative to the base of the listing it came in.
#[derive(Debug)]
pub struct Link {
    pub href: String,
}

/// The ids of the assets of a listing, in order.
pub open spec fn asset_ids(assets: Seq<AssetResponse>) -> Seq<Seq<char>> {
    assets.map_values(|a: AssetResponse| a.id@)
}

impl RetrieveAssetsResponse {
    /// The first asset of the listing, if the listing has any.
    pub fn first_asset(&self) -> (r: Option<&AssetResponse>)
        ensures
            self.resources@.len() == 0 ==> r is None,
            self.resources@.len() > 0 ==> r == Some(&self.resources@[0]),
    {
        if self.resources.len() == 0 {
            None
        } else {
            Some(&self.resources[0])
        }
    }

    /// The absolute address of `asset`: the listing's base followed by the
    /// asset's own link.
    pub fn asset_link(&self, asset: &AssetResponse) -> (r: String)
        ensures
            r@ == self.base@ + asset.links.self_.href@,
    {
        let base = self.base.clone();
        base.concat(asset.links.self_.href.as_str())
    }
}

} // verus!
