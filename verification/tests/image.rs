use lrtool::client::AdobeClient;
use lrtool::image::{ImageAction, ImageEvent, ImageStage};
use lrtool::request::Method;
use lrtool::response::{
    AssetResponse, Link, Links, RetrieveAssetsResponse, RetrieveCatalogPayload,
    RetrieveCatalogResponse,
};

fn catalog(id: &str) -> RetrieveCatalogResponse {
    RetrieveCatalogResponse {
        base: "https://lr.adobe.io/v2/".to_string(),
        id: id.to_string(),
        typ: "catalog".to_string(),
        payload: RetrieveCatalogPayload { name: "Photos".to_string() },
    }
}

fn listing(ids: &[&str]) -> RetrieveAssetsResponse {
    RetrieveAssetsResponse {
        base: "https://lr.adobe.io/v2/".to_string(),
        resources: ids
            .iter()
            .map(|id| AssetResponse {
                id: id.to_string(),
                subtype: "image".to_string(),
                links: Links { self_: Link { href: format!("assets/{}", id) } },
            })
            .collect(),
    }
}

fn sent(action: &ImageAction) -> (Method, String) {
    match action {
        ImageAction::Send(plan) => (plan.method, plan.url.clone()),
        other => panic!("expected a request, got {:?}", other),
    }
}

#[test]
fn image_fetch_runs_through_all_requests() {
    let mut client = AdobeClient::new("key".to_string(), "tok".to_string());
    let (stage, action) = ImageStage::start(&client);
    assert_eq!(sent(&action), (Method::Get, "https://lr.adobe.io/v2/catalog".to_string()));

    let (stage, action) = stage.step(&mut client, ImageEvent::CatalogReceived(catalog("c9")));
    assert_eq!(
        sent(&action),
        (Method::Get, "https://lr.adobe.io/v2/catalogs/c9/assets".to_string())
    );
    assert!(!client.body_received());

    let (stage, action) = stage.step(&mut client, ImageEvent::AssetsReceived(listing(&["a1", "a2"])));
    assert_eq!(
        sent(&action),
        (Method::Get, "https://lr.adobe.io/v2/catalogs/c9/assets/a1".to_string())
    );
    assert!(client.body_received());

    let (stage, action) = stage.step(&mut client, ImageEvent::AssetReceived);
    assert_eq!(
        sent(&action),
        (Method::Post, "https://lr.adobe.io/v2/catalogs/c9/assets/a1/renditions".to_string())
    );

    let (stage, action) = stage.step(&mut client, ImageEvent::RenditionsGenerated);
    assert_eq!(
        sent(&action),
        (
            Method::Get,
            "https://lr.adobe.io/v2/catalogs/c9/assets/a1/renditions/fullsize".to_string()
        )
    );

    let (stage, action) = stage.step(&mut client, ImageEvent::RenditionReceived);
    assert!(matches!(action, ImageAction::Deliver));
    assert!(matches!(stage, ImageStage::Finished));
}

#[test]
fn image_fetch_fails_on_an_empty_catalog() {
    let mut client = AdobeClient::new("key".to_string(), "tok".to_string());
    let stage = ImageStage::AwaitingAssets { catalog_id: "c".to_string() };
    let (stage, action) = stage.step(&mut client, ImageEvent::AssetsReceived(listing(&[])));
    assert!(matches!(action, ImageAction::Fail));
    assert!(matches!(stage, ImageStage::Failed));
    assert!(!client.body_received());
}

#[test]
fn image_fetch_fails_on_an_unexpected_reply() {
    let mut client = AdobeClient::new("key".to_string(), "tok".to_string());
    let (stage, _) = ImageStage::start(&client);
    let (stage, action) = stage.step(&mut client, ImageEvent::RenditionReceived);
    assert!(matches!(action, ImageAction::Fail));
    assert!(matches!(stage, ImageStage::Failed));
}
