use nft_image_proxy::auth::authenticate_key_name;
use nft_image_proxy::auth::ApiKeysService;
use nft_image_proxy::config::ApiKey;
use nft_image_proxy::config::SecurityConfig;
use nft_image_proxy::auth::ServiceKeys;
use nft_image_proxy::auth::ServiceStatus;
use nft_image_proxy::category_json::categories_from_json;
use nft_image_proxy::category_json::categories_to_json;
use nft_image_proxy::hashing::sha256;
use nft_image_proxy::http_response::document_from_response;
use nft_image_proxy::http_response::fetch_error_of;
use nft_image_proxy::errors::Errors;
use nft_image_proxy::keys::ApiKeys;
use nft_image_proxy::keys::KeyService;
use nft_image_proxy::keys::validate;
use nft_image_proxy::moderation::ModerationCategories;
use nft_image_proxy::moderation::SupportedMimeTypes;
use nft_image_proxy::queue::Queue;
use nft_image_proxy::rekognition::get_signature_key;
use nft_image_proxy::rekognition::normalize_labels;
use nft_image_proxy::rekognition::Label;
use nft_image_proxy::rekognition::Rekognition;

#[test]
fn authenticate_names_the_matched_key() {
    let config = SecurityConfig {
        api_keys: vec![
            ApiKey { name: "ops".to_string(), key: "1234".to_string() },
            ApiKey { name: "ops_backup".to_string(), key: "1234".to_string() },
            ApiKey { name: "partner".to_string(), key: "abcd".to_string() },
        ],
    };
    // The first matching entry names the usage counter.
    assert_eq!(authenticate_key_name(&config, Some("1234")), Some("ops".to_string()));
    assert_eq!(authenticate_key_name(&config, Some("abcd")), Some("partner".to_string()));
    assert_eq!(authenticate_key_name(&config, Some("0000")), None);
    assert_eq!(authenticate_key_name(&config, None), None);
}

#[test]
fn categories_parse_accepts_exactly_the_prints() {
    // Anything off the exact stored form is refused, even when it scans.
    assert!(categories_from_json("[\"Drugs\" ]").is_none());
    assert!(categories_from_json("[\"Drugs\",]").is_none());
    assert!(categories_from_json(" [\"Drugs\"]").is_none());
    assert!(categories_from_json("[\"Drugs\"").is_none());
    // And the exact prints come back as what printed them.
    for cats in [vec![], vec![ModerationCategories::Unknown], vec![
        ModerationCategories::ExplicitNudity,
        ModerationCategories::Violence,
    ]] {
        let printed = categories_to_json(&cats);
        assert_eq!(categories_from_json(printed.as_str()).unwrap(), cats);
    }
}

#[test]
fn sha256_known_vectors() {
    assert_eq!(
        sha256(b"").as_str(),
        "e3b0c44298fc1c149afbf4c8996fb92427ae41e4649b934ca495991b7852b855"
    );
    assert_eq!(
        sha256(b"abc").as_str(),
        "ba7816bf8f01cfea414140de5dae2223b00361a396177a9cb410ff61f20015ad"
    );
}

#[test]
fn sha256_is_stable_across_calls() {
    let a = sha256(b"http://origin.example/a.png");
    let b = sha256(b"http://origin.example/a.png");
    assert_eq!(a, b);
}

#[test]
fn mime_classification() {
    assert_eq!(SupportedMimeTypes::from_string("image/jpeg"), SupportedMimeTypes::ImageJpeg);
    assert_eq!(SupportedMimeTypes::from_string("image/jpg"), SupportedMimeTypes::ImageJpeg);
    assert_eq!(SupportedMimeTypes::from_string("image/png"), SupportedMimeTypes::ImagePng);
    assert_eq!(SupportedMimeTypes::from_string("image/tiff"), SupportedMimeTypes::ImageTiff);
    assert_eq!(SupportedMimeTypes::from_string("image/gif"), SupportedMimeTypes::ImageGif);
    assert_eq!(SupportedMimeTypes::from_string("image/bmp"), SupportedMimeTypes::ImageBmp);
    assert_eq!(SupportedMimeTypes::from_string("image/x-ms-bmp"), SupportedMimeTypes::ImageBmp);
    assert_eq!(SupportedMimeTypes::from_string("text/html"), SupportedMimeTypes::Unsupported);
}

#[test]
fn categories_json_round_trip() {
    let cats = vec![
        ModerationCategories::Drugs,
        ModerationCategories::Alcohol,
        ModerationCategories::Hate,
    ];
    let json = categories_to_json(&cats);
    assert_eq!(json.as_str(), "[\"Drugs\",\"Alcohol\",\"Hate\"]");
    let back = categories_from_json(json.as_str()).unwrap();
    assert_eq!(back, cats);

    assert_eq!(categories_to_json(&vec![]).as_str(), "[]");
    assert_eq!(categories_from_json("[]").unwrap(), vec![]);
    assert!(categories_from_json("[\"NotACategory\"]").is_none());
    assert!(categories_from_json("not json").is_none());
}

#[test]
fn rekognition_label_normalization() {
    assert_eq!(
        Rekognition::normalize_category("Explicit Nudity"),
        ModerationCategories::ExplicitNudity
    );
    assert_eq!(Rekognition::normalize_category("Rude Gestures"), ModerationCategories::Rude);
    assert_eq!(
        Rekognition::normalize_category("Drugs & Tobacco"),
        ModerationCategories::DrugsAndTobacco
    );
    assert_eq!(Rekognition::normalize_category("Something Else"), ModerationCategories::Unknown);
}

fn label(name: &str, parent: Option<&str>) -> Label {
    Label {
        name: Some(name.to_string()),
        parent_name: parent.map(|p| p.to_string()),
    }
}

#[test]
fn label_batches_flatten_sort_and_dedup() {
    let labels = vec![
        label("Hate", None),
        label("Pills", Some("Drugs")),  // hierarchical: dropped
        label("Drugs", Some("")),       // empty parent: top level
        label("Hate", None),            // duplicate
        label("Alcohol", None),
    ];
    let cats = normalize_labels(&labels);
    assert_eq!(
        cats,
        vec![
            ModerationCategories::Drugs,
            ModerationCategories::Alcohol,
            ModerationCategories::Hate,
        ]
    );

    // No top-level labels means no categories, hence no block.
    let only_children = vec![label("Pills", Some("Drugs"))];
    assert!(normalize_labels(&only_children).is_empty());
}

#[test]
fn rekognition_knobs() {
    let r = Rekognition { region: "eu-west-1".to_string() };
    assert_eq!(r.max_document_size(), 3495254);
    let types = r.supported_types();
    assert_eq!(types, vec![SupportedMimeTypes::ImageJpeg, SupportedMimeTypes::ImagePng]);
}

#[test]
fn signature_key_is_the_nested_hmac() {
    // The published derived-key example of the cloud signing scheme.
    let key = get_signature_key(
        "wJalrXUtnFEMI/K7MDENG+bPxRfiCYEXAMPLEKEY",
        "20120215",
        "us-east-1",
        "iam",
    );
    let hex: String = key.iter().map(|b| format!("{:02x}", b)).collect();
    assert_eq!(
        hex.as_str(),
        "f4780e2d9f65fa895f9c67b32ce1baf0b0d8a43505a000a1a9e090d414db404d"
    );
}

#[test]
fn key_service_lifecycle() {
    let mut service = KeyService::new();
    // A fresh service accepts nothing.
    assert!(!validate(&service, "k1"));

    // A successful load activates it.
    let loaded = service.load(Some(ApiKeys { api_keys: vec!["k1".to_string(), "k2".to_string()] }));
    assert!(loaded);
    assert!(validate(&service, "k1"));
    assert!(validate(&service, "k2"));
    assert!(!validate(&service, "k3"));

    // A failed load resets it.
    assert!(!service.load(None));
    assert!(!validate(&service, "k1"));
}

#[test]
fn reloading_key_service_states() {
    let mut service = ApiKeysService::new(ServiceKeys { api_keys: vec!["a".to_string()] });
    assert_eq!(service.get_status(), ServiceStatus::Active);
    assert!(service.validate("a"));
    assert!(!service.authenticate(None));
    assert!(service.authenticate(Some("a")));

    // A failed reload keeps the keys but stops accepting.
    service.reload(None);
    assert_eq!(service.get_status(), ServiceStatus::Failed);
    assert!(!service.validate("a"));

    // A later successful reload recovers.
    service.reload(Some(ServiceKeys { api_keys: vec!["b".to_string()] }));
    assert!(service.validate("b"));
    assert!(!service.validate("a"));

    // An exited service ignores reloads.
    service.stop_service();
    service.reload(Some(ServiceKeys { api_keys: vec!["c".to_string()] }));
    assert_eq!(service.get_status(), ServiceStatus::Exited);
    assert!(!service.validate("c"));
}

#[test]
fn queue_deduplicates_submissions() {
    let mut q = Queue::new(4);
    assert!(q.try_admit("http://v.example/a.mp4"));
    // The same identifier again runs nothing.
    assert!(!q.try_admit("http://v.example/a.mp4"));
    assert!(q.job_exists("http://v.example/a.mp4"));
    assert!(q.try_admit("http://v.example/b.mp4"));

    q.finish_job("http://v.example/a.mp4");
    assert!(!q.job_exists("http://v.example/a.mp4"));
    assert!(q.job_exists("http://v.example/b.mp4"));
    // Once finished, the identifier may run again.
    assert!(q.try_admit("http://v.example/a.mp4"));
}

#[test]
fn queue_respects_its_permit_budget() {
    let mut q = Queue::new(2);
    assert!(q.can_start());
    q.begin_job();
    assert!(q.can_start());
    q.begin_job();
    assert!(!q.can_start());
    q.finish_job("x");
    assert!(q.can_start());
}

#[test]
fn http_outcome_classification() {
    // A success builds the document, with header fallbacks.
    let d = document_from_response(
        7,
        "http://origin.example/x.png",
        200,
        None,
        None,
        b"abc".to_vec(),
    )
    .unwrap();
    assert_eq!(d.content_length, 3);
    assert_eq!(d.content_type.as_str(), "");
    assert_eq!(d.bytes, b"abc".to_vec());

    let d = document_from_response(
        7,
        "http://origin.example/x.png",
        200,
        Some(10),
        Some("image/png".to_string()),
        b"abc".to_vec(),
    )
    .unwrap();
    assert_eq!(d.content_length, 10);
    assert_eq!(d.content_type.as_str(), "image/png");

    // Failures carry their code and map to the stable errors.
    match document_from_response(7, "u", 500, None, None, vec![]) {
        Err(code) => assert_eq!(code, 500),
        Ok(_) => panic!("expected a failure code"),
    }
    assert_eq!(fetch_error_of(901), Errors::TimedOut);
    assert_eq!(fetch_error_of(404), Errors::NotFound);
    assert_eq!(fetch_error_of(900), Errors::FetchFailed);
    assert_eq!(fetch_error_of(503), Errors::FetchFailed);
}
