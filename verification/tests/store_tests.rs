use nft_image_proxy::moderation::ModerationCategories;
use nft_image_proxy::moderation::ModerationService;
use nft_image_proxy::store::DummyDatabase;
use nft_image_proxy::store::url_hash;

#[test]
fn test_moderation_fns() {
    let mut db = DummyDatabase::new();
    let url = "http://localhost/test.png".to_string();
    let result = db.get_moderation_result(&vec![url.clone()]);
    assert_eq!(result.len(), 0);

    db.add_moderation_result(
        url.as_str(),
        ModerationService::Unknown,
        true,
        &vec![ModerationCategories::Alcohol],
    );
    let result = db.get_moderation_result(&vec![url.clone()]);
    assert_eq!(result.len(), 1);
    let row = result.get(0).unwrap();
    assert!(row.blocked);
    assert_eq!(row.categories[0], ModerationCategories::Alcohol);
    assert_eq!(row.url, url);
    assert_eq!(row.provider, ModerationService::Unknown);

    db.update_moderation_result(
        url.as_str(),
        ModerationService::Unknown,
        true,
        &vec![ModerationCategories::Alcohol, ModerationCategories::Drugs],
    );

    let result = db.get_moderation_result(&vec![url.clone()]);
    assert_eq!(result.len(), 1);
    let row = result.get(0).unwrap();
    assert!(row.blocked);
    assert_eq!(row.categories.len(), 2);
    assert_eq!(row.categories[0], ModerationCategories::Alcohol);
    assert_eq!(row.categories[1], ModerationCategories::Drugs);
    assert_eq!(row.url, url);
    assert_eq!(row.provider, ModerationService::Unknown);
}

#[test]
fn test_report_fns() {
    let mut db = DummyDatabase::new();
    let url = "http://localhost/test.png".to_string();
    let id: u128 = 77;
    let result = db.get_reports();
    assert_eq!(result.len(), 0);

    db.add_report(id, url.as_str(), &vec![ModerationCategories::Alcohol]);
    let result = db.get_reports();
    assert_eq!(result.len(), 1);
    let row = result.get(0).unwrap();
    assert_eq!(row.url, url);
    assert_eq!(row.categories[0], ModerationCategories::Alcohol);
}

#[test]
fn test_dummy_database_moderation_fns() {
    let mut db = DummyDatabase::new();
    let url = "http://localhost/test.png".to_string();
    let result = db.get_moderation_result(&vec![url.clone()]);
    assert_eq!(result.len(), 0);

    db.add_moderation_result(
        url.as_str(),
        ModerationService::Unknown,
        true,
        &vec![ModerationCategories::Alcohol],
    );
    let result = db.get_moderation_result(&vec![url.clone()]);
    assert_eq!(result.len(), 1);
    let row = result.first().unwrap();
    assert!(row.blocked);
    assert_eq!(row.categories[0], ModerationCategories::Alcohol);
    assert_eq!(row.url, url);
    assert_eq!(row.provider, ModerationService::Unknown);

    db.update_moderation_result(
        url.as_str(),
        ModerationService::Unknown,
        true,
        &vec![ModerationCategories::Alcohol, ModerationCategories::Drugs],
    );

    let result = db.get_moderation_result(&vec![url.clone()]);
    assert_eq!(result.len(), 1);
    let row = result.first().unwrap();
    assert!(row.blocked);
    assert_eq!(row.categories.len(), 2);
    assert_eq!(row.categories[0], ModerationCategories::Alcohol);
    assert_eq!(row.categories[1], ModerationCategories::Drugs);
    assert_eq!(row.url, url);
    assert_eq!(row.provider, ModerationService::Unknown);
}

#[test]
fn test_dummy_database_report_fns() {
    let mut db = DummyDatabase::new();
    let url = "http://localhost/test.png".to_string();
    let id: u128 = 5;
    let result = db.get_reports();
    assert_eq!(result.len(), 0);

    db.add_report(id, url.as_str(), &vec![ModerationCategories::Alcohol]);
    let result = db.get_reports();
    assert_eq!(result.len(), 1);
    let row = result.first().unwrap();
    assert_eq!(row.url, url);
    assert_eq!(row.categories[0], ModerationCategories::Alcohol);
}

#[test]
fn insert_keeps_first_verdict() {
    // The insert path never overwrites: the first verdict for a hash wins.
    let mut db = DummyDatabase::new();
    let url = "http://origin.example/a.png";
    db.add_moderation_result(url, ModerationService::Aws, false, &vec![]);
    db.add_moderation_result(
        url,
        ModerationService::Aws,
        true,
        &vec![ModerationCategories::Hate],
    );
    let rows = db.get_moderation_result(&vec![url.to_string()]);
    assert_eq!(rows.len(), 1);
    assert!(!rows[0].blocked);
    assert!(rows[0].categories.is_empty());
}

#[test]
fn report_ids_deduplicate() {
    let mut db = DummyDatabase::new();
    db.add_report(1, "http://a.example", &vec![]);
    db.add_report(1, "http://b.example", &vec![]);
    let rows = db.get_reports();
    assert_eq!(rows.len(), 1);
    assert_eq!(rows[0].url.as_str(), "http://a.example");
}

#[test]
fn url_hash_is_sha256_hex() {
    // The SHA-256 of the empty string, a published test vector.
    assert_eq!(
        url_hash("").as_str(),
        "e3b0c44298fc1c149afbf4c8996fb92427ae41e4649b934ca495991b7852b855"
    );
    // And of "abc".
    assert_eq!(
        url_hash("abc").as_str(),
        "ba7816bf8f01cfea414140de5dae2223b00361a396177a9cb410ff61f20015ad"
    );
}

#[test]
fn url_hash_is_stable() {
    let a = url_hash("http://origin.example/x.png");
    let b = url_hash("http://origin.example/x.png");
    assert_eq!(a, b);
    assert_eq!(a.len(), 64);
}
