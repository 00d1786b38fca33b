use nft_image_proxy::document::Document;
use nft_image_proxy::errors::Errors;
use nft_image_proxy::moderation::ModerationCategories;
use nft_image_proxy::moderation::ModerationResponse;
use nft_image_proxy::moderation::ModerationService;
use nft_image_proxy::moderation::SupportedMimeTypes;
use nft_image_proxy::pipeline::FetchAction;
use nft_image_proxy::pipeline::FetchEvent;
use nft_image_proxy::pipeline::FetchFlow;
use nft_image_proxy::rpc::ModerationStatus;
use nft_image_proxy::store::DbModerationRow;

const URL: &str = "http://origin.example/test.png";

fn doc(bytes: &[u8]) -> Document {
    Document {
        id: 1,
        content_type: "image/png".to_string(),
        content_length: bytes.len() as u64,
        bytes: bytes.to_vec(),
        url: URL.to_string(),
    }
}

fn flow(force: bool, cache_enabled: bool) -> FetchFlow {
    FetchFlow::new(
        URL.to_string(),
        force,
        1,
        cache_enabled,
        1000,
        vec![SupportedMimeTypes::ImageJpeg, SupportedMimeTypes::ImagePng],
    )
}

fn blocked_row() -> DbModerationRow {
    DbModerationRow {
        blocked: true,
        categories: vec![ModerationCategories::Drugs],
        provider: ModerationService::Aws,
        url: URL.to_string(),
    }
}

/// No verdict yet: the call fetches, moderates with an empty answer,
/// persists, and serves the bytes.
#[test]
fn fetch_unseen_url_is_moderated_and_served() {
    let f = flow(false, false);
    let (f, actions) = f.step(FetchEvent::Started);
    assert!(matches!(&actions[0], FetchAction::QueryVerdicts { url } if url == URL));

    let (f, actions) = f.step(FetchEvent::VerdictRows { rows: vec![] });
    assert!(matches!(&actions[0], FetchAction::FetchUrl { url } if url == URL));

    let (f, actions) = f.step(FetchEvent::Fetched { document: doc(b"tiny image") });
    assert!(matches!(&actions[0], FetchAction::Moderate { .. }));

    let (f, actions) = f.step(FetchEvent::Moderated {
        response: ModerationResponse { categories: vec![], provider: ModerationService::Aws },
    });
    match &actions[0] {
        FetchAction::Persist { url, blocked, categories, .. } => {
            assert_eq!(url, URL);
            assert!(!blocked);
            assert!(categories.is_empty());
        },
        _ => panic!("expected a persist action"),
    }

    let (_f, actions) = f.step(FetchEvent::Persisted { ok: true });
    match &actions[0] {
        FetchAction::RespondOk { result } => {
            assert_eq!(result.moderation_status, ModerationStatus::Allowed);
            assert!(result.categories.is_empty());
            assert_eq!(result.document.as_ref().unwrap().bytes, b"tiny image".to_vec());
        },
        _ => panic!("expected an answer"),
    }
}

/// A stored blocking verdict without force answers at once: no fetch, no
/// bytes, the stored categories.
#[test]
fn fetch_blocked_url_serves_no_bytes() {
    let f = flow(false, true);
    let (f, _) = f.step(FetchEvent::Started);
    let (_f, actions) = f.step(FetchEvent::VerdictRows { rows: vec![blocked_row()] });
    assert_eq!(actions.len(), 1);
    match &actions[0] {
        FetchAction::RespondOk { result } => {
            assert_eq!(result.moderation_status, ModerationStatus::Blocked);
            assert_eq!(result.categories, vec![ModerationCategories::Drugs]);
            assert!(result.document.is_none());
            assert_eq!(result.data.as_str(), "");
        },
        _ => panic!("expected an immediate answer without a fetch"),
    }
}

/// The same verdict with force fetches and serves the bytes.
#[test]
fn fetch_blocked_url_with_force_serves_bytes() {
    let f = flow(true, false);
    let (f, _) = f.step(FetchEvent::Started);
    let (f, actions) = f.step(FetchEvent::VerdictRows { rows: vec![blocked_row()] });
    assert!(matches!(&actions[0], FetchAction::FetchUrl { .. }));

    let (_f, actions) = f.step(FetchEvent::Fetched { document: doc(b"the payload") });
    match &actions[0] {
        FetchAction::RespondOk { result } => {
            assert_eq!(result.moderation_status, ModerationStatus::Allowed);
            assert!(result.categories.is_empty());
            assert_eq!(result.document.as_ref().unwrap().bytes, b"the payload".to_vec());
        },
        _ => panic!("expected an answer with the document"),
    }
}

/// An unsupported media type is rejected after the fetch.
#[test]
fn fetch_unsupported_type_is_rejected() {
    let f = flow(false, false);
    let (f, _) = f.step(FetchEvent::Started);
    let (f, _) = f.step(FetchEvent::VerdictRows { rows: vec![] });
    let mut d = doc(b"<html></html>");
    d.content_type = "text/html".to_string();
    let (_f, actions) = f.step(FetchEvent::Fetched { document: d });
    assert!(matches!(
        &actions[0],
        FetchAction::RespondErr { error: Errors::UnsupportedImageType }
    ));
}

/// An oversized document is re-encoded before moderation; the original
/// bytes are what the caller receives.
#[test]
fn fetch_oversized_document_is_resized_for_moderation() {
    let f = flow(false, false);
    let (f, _) = f.step(FetchEvent::Started);
    let (f, _) = f.step(FetchEvent::VerdictRows { rows: vec![] });
    let big = doc(&vec![9u8; 2000]);
    let (f, actions) = f.step(FetchEvent::Fetched { document: big });
    match &actions[0] {
        FetchAction::Resize { max_size, .. } => assert_eq!(*max_size, 1000),
        _ => panic!("expected a resize action"),
    }
    let (f, actions) = f.step(FetchEvent::Resized { document: doc(b"small png") });
    match &actions[0] {
        FetchAction::Moderate { document } => assert_eq!(document.bytes, b"small png".to_vec()),
        _ => panic!("expected a moderation action"),
    }
    let (f, _) = f.step(FetchEvent::Moderated {
        response: ModerationResponse { categories: vec![], provider: ModerationService::Aws },
    });
    let (_f, actions) = f.step(FetchEvent::Persisted { ok: true });
    match &actions[0] {
        FetchAction::RespondOk { result } => {
            // The original bytes come back, not the re-encoded ones.
            assert_eq!(result.document.as_ref().unwrap().bytes.len(), 2000);
        },
        _ => panic!("expected an answer"),
    }
}

/// With a cache, a hit under a stored allowing verdict serves straight
/// from the cache, and a fetched document is stored on its way out.
#[test]
fn fetch_uses_cache_when_enabled() {
    let allowed = DbModerationRow {
        blocked: false,
        categories: vec![],
        provider: ModerationService::Aws,
        url: URL.to_string(),
    };
    let f = flow(false, true);
    let (f, _) = f.step(FetchEvent::Started);
    let (f, actions) = f.step(FetchEvent::VerdictRows { rows: vec![allowed] });
    let expected_key = nft_image_proxy::store::url_hash(URL);
    match &actions[0] {
        FetchAction::LookupCache { cache_key } => assert_eq!(cache_key, &expected_key),
        _ => panic!("expected a cache lookup"),
    }
    let (f, actions) = f.step(FetchEvent::CacheMiss);
    assert!(matches!(&actions[0], FetchAction::FetchUrl { .. }));
    let (_f, actions) = f.step(FetchEvent::Fetched { document: doc(b"fresh bytes") });
    assert_eq!(actions.len(), 2);
    match &actions[0] {
        FetchAction::StoreCache { cache_key, document } => {
            assert_eq!(cache_key, &expected_key);
            assert_eq!(document.bytes, b"fresh bytes".to_vec());
        },
        _ => panic!("expected a cache store"),
    }
    assert!(matches!(&actions[1], FetchAction::RespondOk { .. }));
}

/// A moderation answer with categories blocks the unforced answer.
#[test]
fn fresh_blocking_verdict_blocks_the_answer() {
    let f = flow(false, false);
    let (f, _) = f.step(FetchEvent::Started);
    let (f, _) = f.step(FetchEvent::VerdictRows { rows: vec![] });
    let (f, _) = f.step(FetchEvent::Fetched { document: doc(b"payload") });
    let (f, actions) = f.step(FetchEvent::Moderated {
        response: ModerationResponse {
            categories: vec![ModerationCategories::Hate],
            provider: ModerationService::Aws,
        },
    });
    match &actions[0] {
        FetchAction::Persist { blocked, .. } => assert!(*blocked),
        _ => panic!("expected a persist action"),
    }
    // Even a failed persist still answers; the failure is logged only.
    let (_f, actions) = f.step(FetchEvent::Persisted { ok: false });
    match &actions[0] {
        FetchAction::RespondOk { result } => {
            assert_eq!(result.moderation_status, ModerationStatus::Blocked);
            assert!(result.document.is_none());
        },
        _ => panic!("expected an answer"),
    }
}

/// Transport failures surface their own errors.
#[test]
fn fetch_failures_surface_errors() {
    let f = flow(false, false);
    let (f, _) = f.step(FetchEvent::Started);
    let (f, actions) = f.step(FetchEvent::DbFailed);
    assert!(matches!(&actions[0], FetchAction::RespondErr { error: Errors::InternalError }));
    drop(f);

    let f = flow(false, false);
    let (f, _) = f.step(FetchEvent::Started);
    let (f, _) = f.step(FetchEvent::VerdictRows { rows: vec![] });
    let (_f, actions) = f.step(FetchEvent::FetchFailed { error: Errors::TimedOut });
    assert!(matches!(&actions[0], FetchAction::RespondErr { error: Errors::TimedOut }));
}
