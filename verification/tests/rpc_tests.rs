use nft_image_proxy::config::ApiKey;
use nft_image_proxy::config::SecurityConfig;
use nft_image_proxy::auth::authenticate;
use nft_image_proxy::document::Document;
use nft_image_proxy::errors::Errors;
use nft_image_proxy::moderation::ModerationCategories;
use nft_image_proxy::moderation::ModerationService;
use nft_image_proxy::rpc::check_payload_size;
use nft_image_proxy::rpc::check_version;
use nft_image_proxy::rpc::describe;
use nft_image_proxy::rpc::method_of_name;
use nft_image_proxy::rpc::plan_fetch_response;
use nft_image_proxy::rpc::DocumentStatus;
use nft_image_proxy::rpc::FetchResponsePlan;
use nft_image_proxy::rpc::ModerationStatus;
use nft_image_proxy::rpc::ResponseType;
use nft_image_proxy::rpc::RpcMethods;
use nft_image_proxy::store::DbModerationRow;

#[test]
fn test_authenticate_fn() {
    let api_keys = vec![
        ApiKey {
            name: "test_key1".to_string(),
            key: "1234".to_string(),
        },
        ApiKey {
            name: "test_key2".to_string(),
            key: "abcd".to_string(),
        },
    ];
    let security_config = SecurityConfig { api_keys };

    // Key in api_key list
    assert!(authenticate(&security_config, Some("1234")));

    // Key in api_key list
    assert!(authenticate(&security_config, Some("abcd")));

    // Key not in api_key list
    assert!(!authenticate(&security_config, Some("0000")));

    // No header specified
    assert!(!authenticate(&security_config, None));
}

#[test]
fn wrong_version_gets_code_100() {
    assert!(check_version("1.0.0").is_ok());
    for bad in ["2.0", "1.0.1", "", "1.0.0 "] {
        let err = check_version(bad).unwrap_err();
        let rpc_error = err.to_rpc_error(9);
        assert_eq!(rpc_error.code, 100);
        assert_eq!(rpc_error.reason.as_str(), "Invalid RPC version");
    }
}

#[test]
fn oversized_payload_gets_code_113() {
    assert!(check_payload_size(64 * 1024).is_ok());
    let err = check_payload_size(100 * 1024).unwrap_err();
    assert_eq!(err.to_rpc_error(1).code, 113);
}

#[test]
fn error_code_table_is_stable() {
    let expected: [(Errors, u8, &str); 14] = [
        (Errors::InvalidRpcVersionError, 100, "Invalid RPC version"),
        (Errors::InvalidRpcMethodError, 101, "Invalid RPC method"),
        (Errors::JsonDecodeError, 102, "Invalid JSON supplied"),
        (Errors::InternalError, 103, "Internal Error"),
        (Errors::FetchFailed, 104, "Fetch Failed"),
        (Errors::NotFound, 105, "Image not found"),
        (Errors::ModerationFailed, 106, "Image moderation failed"),
        (Errors::UnsupportedImageType, 107, "Image type unsupported"),
        (Errors::UnsupportedUriScheme, 108, "Uri scheme unsupported"),
        (Errors::InvalidUri, 109, "Invalid Uri"),
        (Errors::InvalidOrBlockedHost, 110, "Invalid or blocked destination host"),
        (
            Errors::TimedOut,
            111,
            "Connection/Request/Response from the destination timed out",
        ),
        (Errors::ImageResizeError, 112, "Image Resize Error"),
        (Errors::RpcPayloadTooBigError, 113, "RPC Payload too big"),
    ];
    for (e, code, reason) in expected {
        let r = e.to_rpc_error(3);
        assert_eq!(r.code, code);
        assert_eq!(r.reason.as_str(), reason);
        assert_eq!(r.request_id, 3);
    }
}

#[test]
fn method_names_round() {
    assert_eq!(method_of_name("img_proxy_fetch"), Some(RpcMethods::img_proxy_fetch));
    assert_eq!(method_of_name("img_proxy_describe"), Some(RpcMethods::img_proxy_describe));
    assert_eq!(method_of_name("img_proxy_report"), Some(RpcMethods::img_proxy_report));
    assert_eq!(
        method_of_name("img_proxy_describe_report"),
        Some(RpcMethods::img_proxy_describe_report)
    );
    assert_eq!(method_of_name("img_proxy_nope"), None);
}

fn row(url: &str, blocked: bool, categories: Vec<ModerationCategories>) -> DbModerationRow {
    DbModerationRow {
        blocked,
        categories,
        provider: ModerationService::Aws,
        url: url.to_string(),
    }
}

#[test]
fn test_describe() {
    const URL_SAFE_IMAGE: &str = "http://cryptonomic.tech/test.png";
    const URL_UNSAFE_IMAGE: &str = "http://cryptonomic.tech/drugs.png";
    const URL_404: &str = "http://cryptonomic.tech/404.png";

    let rows = vec![
        row(URL_SAFE_IMAGE, false, vec![]),
        row(URL_UNSAFE_IMAGE, true, vec![ModerationCategories::Drugs]),
    ];
    let urls = vec![
        URL_SAFE_IMAGE.to_string(),
        URL_UNSAFE_IMAGE.to_string(),
        URL_404.to_string(),
    ];
    let result = describe(&urls, &rows);
    assert_eq!(result.len(), 3);
    let result1 = &result[0];
    let result2 = &result[1];
    let result3 = &result[2];

    assert_eq!(result1.url, URL_SAFE_IMAGE);
    assert_eq!(result1.status, DocumentStatus::Allowed);
    assert_eq!(result1.provider, ModerationService::Aws);
    assert!(result1.categories.is_empty());

    assert_eq!(result2.url, URL_UNSAFE_IMAGE);
    assert_eq!(result2.status, DocumentStatus::Blocked);
    assert_eq!(result2.provider, ModerationService::Aws);
    assert_eq!(result2.categories.len(), 1);
    assert!(result2.categories.contains(&ModerationCategories::Drugs));

    assert_eq!(result3.url, URL_404);
    assert_eq!(result3.status, DocumentStatus::NeverSeen);
    assert_eq!(result3.provider, ModerationService::Null);
    assert!(result3.categories.is_empty());
}

#[test]
fn fetch_response_shapes() {
    let d = Document {
        id: 1,
        content_type: "image/png".to_string(),
        content_length: 11,
        bytes: "hello world".as_bytes().to_vec(),
        url: "http://origin.example/p.png".to_string(),
    };
    // Raw with a document: the bytes under their media type.
    match plan_fetch_response(&ResponseType::Raw, Some(d.duplicate()), ModerationStatus::Allowed, vec![]) {
        FetchResponsePlan::Raw { content_type, body } => {
            assert_eq!(content_type.as_str(), "image/png");
            assert_eq!(body, "hello world".as_bytes().to_vec());
        },
        _ => panic!("expected a raw response"),
    }
    // Raw without a document falls back to JSON with empty data.
    match plan_fetch_response(&ResponseType::Raw, None, ModerationStatus::Blocked, vec![ModerationCategories::Drugs]) {
        FetchResponsePlan::Json { jsonrpc, result, .. } => {
            assert_eq!(jsonrpc.as_str(), "1.0.0");
            assert_eq!(result.moderation_status, ModerationStatus::Blocked);
            assert_eq!(result.data.as_str(), "");
        },
        _ => panic!("expected a json response"),
    }
    // Json with a document carries the data URI.
    match plan_fetch_response(&ResponseType::Json, Some(d), ModerationStatus::Allowed, vec![]) {
        FetchResponsePlan::Json { result, .. } => {
            assert_eq!(result.data.as_str(), "data:image/png;base64,aGVsbG8gd29ybGQ=");
        },
        _ => panic!("expected a json response"),
    }
}
