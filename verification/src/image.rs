use vstd::prelude::*;
use vstd::string::*;

use crate::client::{
    generate_renditions_header, spec_client_request, AdobeClient, ClientState,
};
use crate::request::{basic_headers, Method, RequestPlan, RequestView};
use crate::response::{asset_ids, RetrieveAssetsResponse, RetrieveCatalogResponse};
use crate::uri::{spec_asset_uri, spec_assets_uri, spec_rendition_uri, spec_renditions_uri};

verus! {

/// Where the fetch of a catalog image stands: which reply it waits for, and
/// the ids it has learnt so far.
#[derive(Debug)]
pub enum ImageStage {
    AwaitingCatalog,
    AwaitingAssets { catalog_id: String },
    AwaitingAsset { catalog_id: String, asset_id: String },
    AwaitingRenditions { catalog_id: String, asset_id: String },
    AwaitingRendition,
    Finished,
    Failed,
}

/// A reply that arrived while fetching a catalog image.
#[derive(Debug)]
pub enum ImageEvent {
    CatalogReceived(RetrieveCatalogResponse),
    AssetsReceived(RetrieveAssetsResponse),
    AssetReceived,
    RenditionsGenerated,
    RenditionReceived,
}

/// What to do next while fetching a catalog image.
#[derive(Debug)]
pub enum ImageAction {
    /// Send this request and report its reply.
    Send(RequestPlan),
    /// The last reply holds the image: hand it out.
    Deliver,
    /// The catalog has no asset to show.
    Fail,
}

/// An `ImageStage` as text.
pub enum StageView {
    AwaitingCatalog,
    AwaitingAssets { catalog_id: Seq<char> },
    AwaitingAsset { catalog_id: Seq<char>, asset_id: Seq<char> },
    AwaitingRenditions { catalog_id: Seq<char>, asset_id: Seq<char> },
    AwaitingRendition,
    Finished,
    Failed,
}

/// What of an `ImageEvent` the fetch reads.
pub enum EventView {
    CatalogReceived { catalog_id: Seq<char> },
    AssetsReceived { asset_ids: Seq<Seq<char>> },
    AssetReceived,
    RenditionsGenerated,
    RenditionReceived,
}

/// An `ImageAction` as text.
pub enum ActionView {
    Send(RequestView),
    Deliver,
    Fail,
}

impl View for ImageStage {
    type V = StageView;

    open spec fn view(&self) -> StageView {
        match self {
            ImageStage::AwaitingCatalog => StageView::AwaitingCatalog,
            ImageStage::AwaitingAssets { catalog_id } => StageView::AwaitingAssets {
                catalog_id: catalog_id@,
            },
            ImageStage::AwaitingAsset { catalog_id, asset_id } => StageView::AwaitingAsset {
                catalog_id: catalog_id@,
                asset_id: asset_id@,
            },
            ImageStage::AwaitingRenditions { catalog_id, asset_id } => StageView::AwaitingRenditions {
                catalog_id: catalog_id@,
                asset_id: asset_id@,
            },
            ImageStage::AwaitingRendition => StageView::AwaitingRendition,
            ImageStage::Finished => StageView::Finished,
            ImageStage::Failed => StageView::Failed,
        }
    }
}

impl View for ImageEvent {
    type V = EventView;

    open spec fn view(&self) -> EventView {
        match self {
            ImageEvent::CatalogReceived(catalog) => EventView::CatalogReceived {
                catalog_id: catalog.id@,
            },
            ImageEvent::AssetsReceived(assets) => EventView::AssetsReceived {
                asset_ids: asset_ids(assets.resources@),
            },
            ImageEvent::AssetReceived => EventView::AssetReceived,
            ImageEvent::RenditionsGenerated => EventView::RenditionsGenerated,
            ImageEvent::RenditionReceived => EventView::RenditionReceived,
        }
    }
}

impl View for ImageAction {
    type V = ActionView;

    open spec fn view(&self) -> ActionView {
        match self {
            ImageAction::Send(plan) => ActionView::Send(plan@),
            ImageAction::Deliver => ActionView::Deliver,
            ImageAction::Fail => ActionView::Fail,
        }
    }
}

/// The rendition that is fetched for display.
pub open spec fn shown_rendition() -> Seq<char> {
    "fullsize"@
}

/// The request that asks for the generation of renditions.
pub open spec fn spec_generate_request(client: ClientState, catalog_id: Seq<char>, asset_id: Seq<char>) -> RequestView {
    RequestView {
        headers: basic_headers(client.client_id).push(generate_renditions_header()),
        ..spec_client_request(client, Method::Post, spec_renditions_uri(catalog_id, asset_id))
    }
}

/// One step of the fetch: from the stage, the client and the reply that
/// arrived, the next stage, the client after it, and what to do. The first
/// asset of the listing is the one shown, and bodies are echoed from its
/// fetch on. A reply that the stage does not wait for ends the fetch.
pub open spec fn spec_image_step(stage: StageView, client: ClientState, event: EventView) -> (
    StageView,
    ClientState,
    ActionView,
) {
    match (stage, event) {
        (StageView::AwaitingCatalog, EventView::CatalogReceived { catalog_id }) => (
            StageView::AwaitingAssets { catalog_id },
            client,
            ActionView::Send(
                spec_client_request(client, Method::Get, spec_assets_uri(catalog_id)),
            ),
        ),
        (StageView::AwaitingAssets { catalog_id }, EventView::AssetsReceived { asset_ids }) => {
            if asset_ids.len() == 0 {
                (StageView::Failed, client, ActionView::Fail)
            } else {
                let echoing = ClientState { spew: true, ..client };
                (
                    StageView::AwaitingAsset { catalog_id, asset_id: asset_ids[0] },
                    echoing,
                    ActionView::Send(
                        spec_client_request(
                            echoing,
                            Method::Get,
                            spec_asset_uri(catalog_id, asset_ids[0]),
                        ),
                    ),
                )
            }
        },
        (StageView::AwaitingAsset { catalog_id, asset_id }, EventView::AssetReceived) => (
            StageView::AwaitingRenditions { catalog_id, asset_id },
            client,
            ActionView::Send(spec_generate_request(client, catalog_id, asset_id)),
        ),
        (StageView::AwaitingRenditions { catalog_id, asset_id }, EventView::RenditionsGenerated) => (
            StageView::AwaitingRendition,
            client,
            ActionView::Send(
                spec_client_request(
                    client,
                    Method::Get,
                    spec_rendition_uri(catalog_id, asset_id, shown_rendition()),
                ),
            ),
        ),
        (StageView::AwaitingRendition, EventView::RenditionReceived) => (
            StageView::Finished,
            client,
            ActionView::Deliver,
        ),
        _ => (StageView::Failed, client, ActionView::Fail),
    }
}

/// A fetch whose replies all arrive as awaited asks, in order, for the
/// catalog, the assets listing, the first asset, the generation of its
/// renditions and its full-size rendition, and then hands the image out;
/// bodies are echoed from the fetch of the asset on.
pub proof fn lemma_image_fetch_run(client: ClientState, catalog_id: Seq<char>, ids: Seq<Seq<char>>)
    requires
        ids.len() > 0,
    ensures
        ({
            let s1 = spec_image_step(
                StageView::AwaitingCatalog,
                client,
                EventView::CatalogReceived { catalog_id },
            );
            let s2 = spec_image_step(s1.0, s1.1, EventView::AssetsReceived { asset_ids: ids });
            let s3 = spec_image_step(s2.0, s2.1, EventView::AssetReceived);
            let s4 = spec_image_step(s3.0, s3.1, EventView::RenditionsGenerated);
            let s5 = spec_image_step(s4.0, s4.1, EventView::RenditionReceived);
            let echoing = ClientState { spew: true, ..client };
            let basic = seq![("x-api-key"@, client.client_id), ("content-type"@, "application/json"@)];
            let token = Some(client.user_token);
            &&& s1.2 == ActionView::Send(
                RequestView { method: Method::Get, url: spec_assets_uri(catalog_id), headers: basic, bearer_token: token },
            )
            &&& s2.2 == ActionView::Send(
                RequestView {
                    method: Method::Get,
                    url: spec_asset_uri(catalog_id, ids[0]),
                    headers: basic,
                    bearer_token: token,
                },
            )
            &&& s3.2 == ActionView::Send(
                RequestView {
                    method: Method::Post,
                    url: spec_renditions_uri(catalog_id, ids[0]),
                    headers: basic.push(("x-generate-renditions"@, "fullsize,2560"@)),
                    bearer_token: token,
                },
            )
            &&& s4.2 == ActionView::Send(
                RequestView {
                    method: Method::Get,
                    url: spec_rendition_uri(catalog_id, ids[0], "fullsize"@),
                    headers: basic,
                    bearer_token: token,
                },
            )
            &&& s5.0 == StageView::Finished
            &&& s5.1 == echoing
            &&& s5.2 == ActionView::Deliver
        }),
{
    lemma_image_fetch_generation_step(
        ClientState { spew: true, ..client },
        catalog_id,
        ids[0],
    );
}

/// A catalog without assets ends the fetch with a failure, and the client
/// is left as it was.
pub proof fn lemma_image_fetch_empty_catalog(client: ClientState, catalog_id: Seq<char>)
    ensures
        spec_image_step(
            StageView::AwaitingAssets { catalog_id },
            client,
            EventView::AssetsReceived { asset_ids: Seq::empty() },
        ) == (StageView::Failed, client, ActionView::Fail),
{
}

/// After the asset arrives, the fetch asks, as the user and whatever the
/// echo flag, for the generation of the full-size and 2560-pixel renditions
/// of that asset.
pub proof fn lemma_image_fetch_generation_step(client: ClientState, catalog_id: Seq<char>, asset_id: Seq<char>)
    ensures
        ({
            let s = spec_image_step(
                StageView::AwaitingAsset { catalog_id, asset_id },
                client,
                EventView::AssetReceived,
            );
            &&& s.0 == StageView::AwaitingRenditions { catalog_id, asset_id }
            &&& s.1 == client
            &&& s.2 == ActionView::Send(
                RequestView {
                    method: Method::Post,
                    url: spec_renditions_uri(catalog_id, asset_id),
                    headers: seq![
                        ("x-api-key"@, client.client_id),
                        ("content-type"@, "application/json"@),
                        ("x-generate-renditions"@, "fullsize,2560"@),
                    ],
                    bearer_token: Some(client.user_token),
                },
            )
        }),
{
    assert(basic_headers(client.client_id).push(generate_renditions_header()) =~= seq![
        ("x-api-key"@, client.client_id),
        ("content-type"@, "application/json"@),
        ("x-generate-renditions"@, "fullsize,2560"@),
    ]);
}

impl ImageStage {
    /// The fetch of an image begins by asking for the user's catalog.
    pub fn start(client: &AdobeClient) -> (r: (ImageStage, ImageAction))
        ensures
            r.0@ == StageView::AwaitingCatalog,
            r.1@ == ActionView::Send(
                spec_client_request(client@, Method::Get, "https://lr.adobe.io/v2/catalog"@),
            ),
    {
        (ImageStage::AwaitingCatalog, ImageAction::Send(client.catalog_request()))
    }

    /// Takes the reply that arrived and says what comes next.
    pub fn step(self, client: &mut AdobeClient, event: ImageEvent) -> (r: (ImageStage, ImageAction))
        ensures
            (r.0@, final(client)@, r.1@) == spec_image_step(self@, old(client)@, event@),
    {
        match (self, event) {
            (ImageStage::AwaitingCatalog, ImageEvent::CatalogReceived(catalog)) => {
                let plan = client.assets_request(catalog.id.as_str());
                (ImageStage::AwaitingAssets { catalog_id: catalog.id }, ImageAction::Send(plan))
            },
            (ImageStage::AwaitingAssets { catalog_id }, ImageEvent::AssetsReceived(assets)) => {
                match assets.first_asset() {
                    None => (ImageStage::Failed, ImageAction::Fail),
                    Some(asset) => {
                        client.spew_next();
                        let plan = client.asset_request(catalog_id.as_str(), asset.id.as_str());
                        let asset_id = asset.id.clone();
                        (ImageStage::AwaitingAsset { catalog_id, asset_id }, ImageAction::Send(plan))
                    },
                }
            },
            (ImageStage::AwaitingAsset { catalog_id, asset_id }, ImageEvent::AssetReceived) => {
                let plan = client.generate_renditions_request(catalog_id.as_str(), asset_id.as_str());
                (ImageStage::AwaitingRenditions { catalog_id, asset_id }, ImageAction::Send(plan))
            },
            (
                ImageStage::AwaitingRenditions { catalog_id, asset_id },
                ImageEvent::RenditionsGenerated,
            ) => {
                let plan = client.rendition_request(
                    catalog_id.as_str(),
                    asset_id.as_str(),
                    "fullsize",
                );
                (ImageStage::AwaitingRendition, ImageAction::Send(plan))
            },
            (ImageStage::AwaitingRendition, ImageEvent::RenditionReceived) => {
                (ImageStage::Finished, ImageAction::Deliver)
            },
            _ => (ImageStage::Failed, ImageAction::Fail),
        }
    }
}

} // verus!
