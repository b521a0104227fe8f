use vstd::prelude::*;

use crate::text::{
    lemma_absent_first_char, lemma_replaced_absent, lemma_replaced_join, lemma_replaced_whole,
    mentions, occurs_at, replace_all, replaced,
};

verus! {

/// Where every catalog URI of the Lightroom API starts.
pub open spec fn catalogs_root() -> Seq<char> {
    "https://lr.adobe.io/v2/catalogs/"@
}

/// Placeholder for the catalog id in the URI templates.
pub open spec fn catalog_slot() -> Seq<char> {
    "{catalog_id}"@
}

/// Placeholder for the asset id in the URI templates.
pub open spec fn asset_slot() -> Seq<char> {
    "{asset_id}"@
}

/// Placeholder for the rendition type in the URI templates.
pub open spec fn rendition_slot() -> Seq<char> {
    "{rendition_type}"@
}

/// The URI of one asset: the template with the catalog id, then the asset
/// id, substituted.
pub open spec fn spec_asset_uri(catalog_id: Seq<char>, asset_id: Seq<char>) -> Seq<char> {
    replaced(
        replaced(
            "https://lr.adobe.io/v2/catalogs/{catalog_id}/assets/{asset_id}"@,
            catalog_slot(),
            catalog_id,
        ),
        asset_slot(),
        asset_id,
    )
}

proof fn lemma_literal_facts()
    ensures
        catalog_slot().len() == 12,
        asset_slot().len() == 10,
        rendition_slot().len() == 16,
        catalog_slot()[0] == '{',
        asset_slot()[0] == '{',
        rendition_slot()[0] == '{',
        !catalogs_root().contains('{'),
        !"/assets/"@.contains('{'),
        !"/assets"@.contains('{'),
        !"/renditions"@.contains('{'),
        !"/renditions/"@.contains('{'),
        catalogs_root().last() == '/',
        "/assets/"@.last() == '/',
        "/renditions/"@.last() == '/',
        "/assets/"@[0] == '/',
        "/assets"@[0] == '/',
        "/renditions"@[0] == '/',
        "/renditions/"@[0] == '/',
        !catalog_slot().contains('/'),
        !asset_slot().contains('/'),
        !rendition_slot().contains('/'),
        !mentions(rendition_slot(), asset_slot()),
        !mentions(rendition_slot(), catalog_slot()),
{
    reveal_strlit("https://lr.adobe.io/v2/catalogs/");
    reveal_strlit("{catalog_id}");
    reveal_strlit("{asset_id}");
    reveal_strlit("{rendition_type}");
    reveal_strlit("/assets/");
    reveal_strlit("/assets");
    reveal_strlit("/renditions");
    reveal_strlit("/renditions/");
    let r = rendition_slot();
    assert forall|i: int| !occurs_at(r, asset_slot(), i) by {
        if occurs_at(r, asset_slot(), i) {
            assert(r.subrange(i, i + 10)[0] == r[i]);
            assert(r.subrange(i, i + 10)[1] == r[i + 1]);
        }
    }
    assert forall|i: int| !occurs_at(r, catalog_slot(), i) by {
        if occurs_at(r, catalog_slot(), i) {
            assert(r.subrange(i, i + 12)[0] == r[i]);
            assert(r.subrange(i, i + 12)[1] == r[i + 1]);
        }
    }
}

/// The URI of the asset `asset_id` in the catalog `catalog_id`.
pub fn asset_uri(catalog_id: &str, asset_id: &str) -> (r: String)
    ensures
        r@ == spec_asset_uri(catalog_id@, asset_id@),
        !mentions(catalog_id@, asset_slot()) ==> r@ == catalogs_root() + catalog_id@ + "/assets/"@
            + asset_id@,
{
    proof {
        lemma_literal_facts();
        if !mentions(catalog_id@, asset_slot()) {
            lemma_asset_uri_shape(catalog_id@, asset_id@);
        }
    }
    let with_catalog = replace_all(
        "https://lr.adobe.io/v2/catalogs/{catalog_id}/assets/{asset_id}",
        "{catalog_id}",
        catalog_id,
    );
    replace_all(with_catalog.as_str(), "{asset_id}", asset_id)
}

/// When the catalog id does not itself hold the asset placeholder, the asset
/// URI is the catalog root, the catalog id, `/assets/` and the asset id.
pub proof fn lemma_asset_uri_shape(catalog_id: Seq<char>, asset_id: Seq<char>)
    requires
        !mentions(catalog_id, asset_slot()),
    ensures
        spec_asset_uri(catalog_id, asset_id) == catalogs_root() + catalog_id + "/assets/"@ + asset_id,
{
    lemma_literal_facts();
    reveal_strlit("https://lr.adobe.io/v2/catalogs/{catalog_id}/assets/{asset_id}");
    reveal_strlit("https://lr.adobe.io/v2/catalogs/");
    reveal_strlit("{catalog_id}");
    reveal_strlit("{asset_id}");
    reveal_strlit("/assets/");
    let root = catalogs_root();
    let cat = catalog_slot();
    let ast = asset_slot();
    let mid = "/assets/"@;
    assert("https://lr.adobe.io/v2/catalogs/{catalog_id}/assets/{asset_id}"@ =~= root + cat + mid + ast);
    // first substitution
    lemma_replaced_join(root + cat + mid, ast, cat, catalog_id);
    lemma_replaced_join(root + cat, mid, cat, catalog_id);
    lemma_replaced_join(root, cat, cat, catalog_id);
    lemma_absent_first_char(root, cat);
    lemma_replaced_absent(root, cat, catalog_id);
    lemma_replaced_whole(cat, catalog_id);
    lemma_absent_first_char(mid, cat);
    lemma_replaced_absent(mid, cat, catalog_id);
    lemma_replaced_absent(ast, cat, catalog_id);
    let once = root + catalog_id + mid + ast;
    assert(replaced(root + cat + mid + ast, cat, catalog_id) =~= once);
    // second substitution
    lemma_replaced_join(root + catalog_id + mid, ast, ast, asset_id);
    lemma_replaced_join(root + catalog_id, mid, ast, asset_id);
    lemma_replaced_join(root, catalog_id, ast, asset_id);
    lemma_absent_first_char(root, ast);
    lemma_replaced_absent(root, ast, asset_id);
    lemma_replaced_absent(catalog_id, ast, asset_id);
    lemma_absent_first_char(mid, ast);
    lemma_replaced_absent(mid, ast, asset_id);
    lemma_replaced_whole(ast, asset_id);
    assert(replaced(once, ast, asset_id) =~= root + catalog_id + mid + asset_id);
}

/// The URI that lists the assets of a catalog.
pub open spec fn spec_assets_uri(catalog_id: Seq<char>) -> Seq<char> {
    replaced("https://lr.adobe.io/v2/catalogs/{catalog_id}/assets"@, catalog_slot(), catalog_id)
}

/// The assets listing of a catalog is the catalog root, the catalog id and
/// `/assets`, whatever the id holds.
pub proof fn lemma_assets_uri_shape(catalog_id: Seq<char>)
    ensures
        spec_assets_uri(catalog_id) == catalogs_root() + catalog_id + "/assets"@,
{
    lemma_literal_facts();
    reveal_strlit("https://lr.adobe.io/v2/catalogs/{catalog_id}/assets");
    reveal_strlit("https://lr.adobe.io/v2/catalogs/");
    reveal_strlit("{catalog_id}");
    reveal_strlit("/assets");
    let root = catalogs_root();
    let cat = catalog_slot();
    let tail = "/assets"@;
    assert("https://lr.adobe.io/v2/catalogs/{catalog_id}/assets"@ =~= root + cat + tail);
    lemma_replaced_join(root + cat, tail, cat, catalog_id);
    lemma_replaced_join(root, cat, cat, catalog_id);
    lemma_absent_first_char(root, cat);
    lemma_replaced_absent(root, cat, catalog_id);
    lemma_replaced_whole(cat, catalog_id);
    lemma_absent_first_char(tail, cat);
    lemma_replaced_absent(tail, cat, catalog_id);
}

/// The URI that lists the assets of the catalog `catalog_id`.
pub fn assets_uri(catalog_id: &str) -> (r: String)
    ensures
        r@ == spec_assets_uri(catalog_id@),
        r@ == catalogs_root() + catalog_id@ + "/assets"@,
{
    proof {
        lemma_literal_facts();
        lemma_assets_uri_shape(catalog_id@);
    }
    replace_all("https://lr.adobe.io/v2/catalogs/{catalog_id}/assets", "{catalog_id}", catalog_id)
}

/// The URI of the renditions of one asset.
pub open spec fn spec_renditions_uri(catalog_id: Seq<char>, asset_id: Seq<char>) -> Seq<char> {
    replaced(
        replaced(
            "https://lr.adobe.io/v2/catalogs/{catalog_id}/assets/{asset_id}/renditions"@,
            catalog_slot(),
            catalog_id,
        ),
        asset_slot(),
        asset_id,
    )
}

/// When the catalog id does not hold the asset placeholder, the renditions
/// URI is the asset URI followed by `/renditions`.
pub proof fn lemma_renditions_uri_shape(catalog_id: Seq<char>, asset_id: Seq<char>)
    requires
        !mentions(catalog_id, asset_slot()),
    ensures
        spec_renditions_uri(catalog_id, asset_id) == catalogs_root() + catalog_id + "/assets/"@
            + asset_id + "/renditions"@,
{
    lemma_literal_facts();
    reveal_strlit("https://lr.adobe.io/v2/catalogs/{catalog_id}/assets/{asset_id}/renditions");
    reveal_strlit("https://lr.adobe.io/v2/catalogs/");
    reveal_strlit("{catalog_id}");
    reveal_strlit("{asset_id}");
    reveal_strlit("/assets/");
    reveal_strlit("/renditions");
    let root = catalogs_root();
    let cat = catalog_slot();
    let ast = asset_slot();
    let mid = "/assets/"@;
    let ren = "/renditions"@;
    assert("https://lr.adobe.io/v2/catalogs/{catalog_id}/assets/{asset_id}/renditions"@
        =~= root + cat + mid + ast + ren);
    // first substitution
    lemma_replaced_join(root + cat + mid + ast, ren, cat, catalog_id);
    lemma_replaced_join(root + cat + mid, ast, cat, catalog_id);
    lemma_replaced_join(root + cat, mid, cat, catalog_id);
    lemma_replaced_join(root, cat, cat, catalog_id);
    lemma_absent_first_char(root, cat);
    lemma_replaced_absent(root, cat, catalog_id);
    lemma_replaced_whole(cat, catalog_id);
    lemma_absent_first_char(mid, cat);
    lemma_replaced_absent(mid, cat, catalog_id);
    lemma_replaced_absent(ast, cat, catalog_id);
    lemma_absent_first_char(ren, cat);
    lemma_replaced_absent(ren, cat, catalog_id);
    let once = root + catalog_id + mid + ast + ren;
    assert(replaced(root + cat + mid + ast + ren, cat, catalog_id) =~= once);
    // second substitution
    lemma_replaced_join(root + catalog_id + mid + ast, ren, ast, asset_id);
    lemma_replaced_join(root + catalog_id + mid, ast, ast, asset_id);
    lemma_replaced_join(root + catalog_id, mid, ast, asset_id);
    lemma_replaced_join(root, catalog_id, ast, asset_id);
    lemma_absent_first_char(root, ast);
    lemma_replaced_absent(root, ast, asset_id);
    lemma_replaced_absent(catalog_id, ast, asset_id);
    lemma_absent_first_char(mid, ast);
    lemma_replaced_absent(mid, ast, asset_id);
    lemma_replaced_whole(ast, asset_id);
    lemma_absent_first_char(ren, ast);
    lemma_replaced_absent(ren, ast, asset_id);
    assert(replaced(once, ast, asset_id) =~= root + catalog_id + mid + asset_id + ren);
}

/// The URI that asks for the renditions of the asset `asset_id` in the
/// catalog `catalog_id`.
pub fn renditions_uri(catalog_id: &str, asset_id: &str) -> (r: String)
    ensures
        r@ == spec_renditions_uri(catalog_id@, asset_id@),
        !mentions(catalog_id@, asset_slot()) ==> r@ == catalogs_root() + catalog_id@ + "/assets/"@
            + asset_id@ + "/renditions"@,
{
    proof {
        lemma_literal_facts();
        if !mentions(catalog_id@, asset_slot()) {
            lemma_renditions_uri_shape(catalog_id@, asset_id@);
        }
    }
    let with_catalog = replace_all(
        "https://lr.adobe.io/v2/catalogs/{catalog_id}/assets/{asset_id}/renditions",
        "{catalog_id}",
        catalog_id,
    );
    replace_all(with_catalog.as_str(), "{asset_id}", asset_id)
}

/// The URI of one rendition of an asset.
pub open spec fn spec_rendition_uri(
    catalog_id: Seq<char>,
    asset_id: Seq<char>,
    rendition_type: Seq<char>,
) -> Seq<char> {
    replaced(
        replaced(
            replaced(
                "https://lr.adobe.io/v2/catalogs/{catalog_id}/assets/{asset_id}/renditions/{rendition_type}"@,
                catalog_slot(),
                catalog_id,
            ),
            asset_slot(),
            asset_id,
        ),
        rendition_slot(),
        rendition_type,
    )
}

/// When neither id holds a placeholder substituted after it, the rendition
/// URI is the renditions URI, a slash and the rendition type.
pub proof fn lemma_rendition_uri_shape(
    catalog_id: Seq<char>,
    asset_id: Seq<char>,
    rendition_type: Seq<char>,
)
    requires
        !mentions(catalog_id, asset_slot()),
        !mentions(catalog_id, rendition_slot()),
        !mentions(asset_id, rendition_slot()),
    ensures
        spec_rendition_uri(catalog_id, asset_id, rendition_type) == catalogs_root() + catalog_id
            + "/assets/"@ + asset_id + "/renditions/"@ + rendition_type,
{
    lemma_literal_facts();
    reveal_strlit(
        "https://lr.adobe.io/v2/catalogs/{catalog_id}/assets/{asset_id}/renditions/{rendition_type}",
    );
    reveal_strlit("https://lr.adobe.io/v2/catalogs/");
    reveal_strlit("{catalog_id}");
    reveal_strlit("{asset_id}");
    reveal_strlit("{rendition_type}");
    reveal_strlit("/assets/");
    reveal_strlit("/renditions/");
    let root = catalogs_root();
    let cat = catalog_slot();
    let ast = asset_slot();
    let rnd = rendition_slot();
    let mid = "/assets/"@;
    let ren = "/renditions/"@;
    assert("https://lr.adobe.io/v2/catalogs/{catalog_id}/assets/{asset_id}/renditions/{rendition_type}"@
        =~= root + cat + mid + ast + ren + rnd);
    // first substitution
    lemma_replaced_join(root + cat + mid + ast + ren, rnd, cat, catalog_id);
    lemma_replaced_join(root + cat + mid + ast, ren, cat, catalog_id);
    lemma_replaced_join(root + cat + mid, ast, cat, catalog_id);
    lemma_replaced_join(root + cat, mid, cat, catalog_id);
    lemma_replaced_join(root, cat, cat, catalog_id);
    lemma_absent_first_char(root, cat);
    lemma_replaced_absent(root, cat, catalog_id);
    lemma_replaced_whole(cat, catalog_id);
    lemma_absent_first_char(mid, cat);
    lemma_replaced_absent(mid, cat, catalog_id);
    lemma_replaced_absent(ast, cat, catalog_id);
    lemma_absent_first_char(ren, cat);
    lemma_replaced_absent(ren, cat, catalog_id);
    lemma_replaced_absent(rnd, cat, catalog_id);
    let once = root + catalog_id + mid + ast + ren + rnd;
    assert(replaced(root + cat + mid + ast + ren + rnd, cat, catalog_id) =~= once);
    // second substitution
    lemma_replaced_join(root + catalog_id + mid + ast + ren, rnd, ast, asset_id);
    lemma_replaced_join(root + catalog_id + mid + ast, ren, ast, asset_id);
    lemma_replaced_join(root + catalog_id + mid, ast, ast, asset_id);
    lemma_replaced_join(root + catalog_id, mid, ast, asset_id);
    lemma_replaced_join(root, catalog_id, ast, asset_id);
    lemma_absent_first_char(root, ast);
    lemma_replaced_absent(root, ast, asset_id);
    lemma_replaced_absent(catalog_id, ast, asset_id);
    lemma_absent_first_char(mid, ast);
    lemma_replaced_absent(mid, ast, asset_id);
    lemma_replaced_whole(ast, asset_id);
    lemma_absent_first_char(ren, ast);
    lemma_replaced_absent(ren, ast, asset_id);
    lemma_replaced_absent(rnd, ast, asset_id);
    let twice = root + catalog_id + mid + asset_id + ren + rnd;
    assert(replaced(once, ast, asset_id) =~= twice);
    // third substitution
    lemma_replaced_join(root + catalog_id + mid + asset_id + ren, rnd, rnd, rendition_type);
    lemma_replaced_join(root + catalog_id + mid + asset_id, ren, rnd, rendition_type);
    lemma_replaced_join(root + catalog_id + mid, asset_id, rnd, rendition_type);
    lemma_replaced_join(root + catalog_id, mid, rnd, rendition_type);
    lemma_replaced_join(root, catalog_id, rnd, rendition_type);
    lemma_absent_first_char(root, rnd);
    lemma_replaced_absent(root, rnd, rendition_type);
    lemma_replaced_absent(catalog_id, rnd, rendition_type);
    lemma_absent_first_char(mid, rnd);
    lemma_replaced_absent(mid, rnd, rendition_type);
    lemma_replaced_absent(asset_id, rnd, rendition_type);
    lemma_absent_first_char(ren, rnd);
    lemma_replaced_absent(ren, rnd, rendition_type);
    lemma_replaced_whole(rnd, rendition_type);
    assert(replaced(twice, rnd, rendition_type) =~= root + catalog_id + mid + asset_id + ren
        + rendition_type);
}

/// The URI of the rendition `rendition_type` of the asset `asset_id` in the
/// catalog `catalog_id`.
pub fn rendition_uri(catalog_id: &str, asset_id: &str, rendition_type: &str) -> (r: String)
    ensures
        r@ == spec_rendition_uri(catalog_id@, asset_id@, rendition_type@),
        !mentions(catalog_id@, asset_slot()) && !mentions(catalog_id@, rendition_slot())
            && !mentions(asset_id@, rendition_slot()) ==> r@ == catalogs_root() + catalog_id@
            + "/assets/"@ + asset_id@ + "/renditions/"@ + rendition_type@,
{
    proof {
        lemma_literal_facts();
        if !mentions(catalog_id@, asset_slot()) && !mentions(catalog_id@, rendition_slot())
            && !mentions(asset_id@, rendition_slot()) {
            lemma_rendition_uri_shape(catalog_id@, asset_id@, rendition_type@);
        }
    }
    let with_catalog = replace_all(
        "https://lr.adobe.io/v2/catalogs/{catalog_id}/assets/{asset_id}/renditions/{rendition_type}",
        "{catalog_id}",
        catalog_id,
    );
    let with_asset = replace_all(with_catalog.as_str(), "{asset_id}", asset_id);
    replace_all(with_asset.as_str(), "{rendition_type}", rendition_type)
}

} // verus!
