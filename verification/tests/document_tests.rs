use nft_image_proxy::document::Document;
use nft_image_proxy::data_url::parse_data_url;
use nft_image_proxy::errors::Errors;

const X_SIZE: u32 = 1600;
const Y_SIZE: u32 = 1400;

const NOMINAL_IMAGE_DIMENSION: u32 = 1024;
const MINIMUM_IMAGE_DIMENSION: u32 = 128;

/// A small deterministic pseudo-random generator, enough to make pixels
/// that PNG cannot compress away.
struct Lcg(u64);

impl Lcg {
    fn next(&mut self) -> u8 {
        self.0 = self.0.wrapping_mul(6364136223846793005).wrapping_add(1442695040888963407);
        (self.0 >> 33) as u8
    }
}

fn construct_image(x_dim: u32, y_dim: u32) -> Vec<u8> {
    let mut new_image = image::DynamicImage::new_rgba8(x_dim, y_dim);
    let mut rng = Lcg(9);

    for x in 0..x_dim - 1 {
        for y in 0..y_dim - 1 {
            let rgb: image::Rgba<u8> =
                image::Rgba([rng.next(), rng.next(), rng.next(), 255]);
            image::GenericImage::put_pixel(&mut new_image, x, y, rgb);
        }
    }
    let mut cursor = std::io::Cursor::new(Vec::new());
    new_image
        .write_to(&mut cursor, image::ImageFormat::Png)
        .unwrap();
    cursor.into_inner()
}

fn construct_document(image_bytes: &[u8]) -> Document {
    let len = image_bytes.len() as u64;
    Document {
        id: 4,
        content_type: "image/png".to_string(),
        content_length: len,
        bytes: image_bytes.to_vec(),
        url: "http://localhost.com/test.png".to_string(),
    }
}

#[test]
fn test_to_url() {
    let bytes = "hello world".as_bytes();
    let document = construct_document(bytes);
    let encoded = document.to_url();
    assert_eq!(encoded.as_str(), "data:image/png;base64,aGVsbG8gd29ybGQ=");
}

#[test]
fn test_data_url_round_trip() {
    let bytes = "hello world".as_bytes();
    let document = construct_document(bytes);
    let encoded = document.to_url();
    let parsed = parse_data_url(encoded.as_str());
    assert!(parsed.is_some());
    let (ct, payload) = parsed.unwrap();
    assert_eq!(ct.as_str(), "image/png");
    assert_eq!(payload.as_str(), "aGVsbG8gd29ybGQ=");
}

#[test]
fn test_resize_parameters() {
    let x_dim = 2048;
    let y_dim = 1500;
    let (x, y) = Document::resize_parameters(
        x_dim,
        y_dim,
        NOMINAL_IMAGE_DIMENSION,
        MINIMUM_IMAGE_DIMENSION,
    );
    assert_eq!(x, NOMINAL_IMAGE_DIMENSION);
    assert!(y < y_dim);

    let x_dim = 1500;
    let y_dim = 2048;
    let (x, y) = Document::resize_parameters(
        x_dim,
        y_dim,
        NOMINAL_IMAGE_DIMENSION,
        MINIMUM_IMAGE_DIMENSION,
    );
    assert!(x < x_dim);
    assert_eq!(y, NOMINAL_IMAGE_DIMENSION);

    // High X aspect ratio
    let x_dim = 2000;
    let y_dim = 200;
    let (x, y) = Document::resize_parameters(
        x_dim,
        y_dim,
        NOMINAL_IMAGE_DIMENSION,
        MINIMUM_IMAGE_DIMENSION,
    );
    assert!(x < x_dim);
    assert_eq!(y, MINIMUM_IMAGE_DIMENSION);

    // High Y aspect ratio
    let x_dim = 200;
    let y_dim = 2000;
    let (x, y) = Document::resize_parameters(
        x_dim,
        y_dim,
        NOMINAL_IMAGE_DIMENSION,
        MINIMUM_IMAGE_DIMENSION,
    );
    assert_eq!(x, MINIMUM_IMAGE_DIMENSION);
    assert!(y < y_dim);
}

#[test]
fn test_resize_parameters_exact() {
    // The short axis follows the ratio exactly, rounded down.
    assert_eq!(Document::resize_parameters(2048, 1500, 1024, 128), (1024, 750));
    assert_eq!(Document::resize_parameters(1500, 2048, 1024, 128), (750, 1024));
    // The clamp keeps the ratio from the minimum axis.
    assert_eq!(Document::resize_parameters(2000, 200, 1024, 128), (1280, 128));
    assert_eq!(Document::resize_parameters(200, 2000, 1024, 128), (128, 1280));
}

#[test]
fn test_image_functions() {
    let image_bytes = construct_image(X_SIZE, Y_SIZE);
    assert!(!image_bytes.is_empty());
    let document = construct_document(image_bytes.as_slice());

    // Check if image can be loaded
    let loaded_image = image::load_from_memory(&image_bytes);
    assert!(loaded_image.is_ok());
    let dimensions = (loaded_image.as_ref().unwrap().width(), loaded_image.unwrap().height());
    assert_eq!(dimensions, (X_SIZE, Y_SIZE));

    // Check resize logic
    let max_size_5mb = 1024_u64 * 1024_u64 * 5_u64;

    // Resize required
    let new_document = document.resize_image(max_size_5mb);
    assert!(new_document.is_ok());
    let new_document = new_document.unwrap();
    assert!(new_document.bytes.len() < document.bytes.len());
    assert_eq!(new_document.content_type.as_str(), "image/png");
    let loaded_image = image::load_from_memory(&new_document.bytes);
    assert!(loaded_image.is_ok());
    let dimensions = (loaded_image.as_ref().unwrap().width(), loaded_image.unwrap().height());
    assert_eq!(dimensions.0, NOMINAL_IMAGE_DIMENSION);
}

#[test]
fn test_resize_budget() {
    let image_bytes = construct_image(X_SIZE, Y_SIZE);
    let document = construct_document(image_bytes.as_slice());

    // A generous budget is met.
    let out = document.resize_image(1024 * 1024 * 5).unwrap();
    assert!(out.bytes.len() as u64 <= 1024 * 1024 * 5);
    assert_eq!(out.content_length, out.bytes.len() as u64);

    // An impossible budget still returns a best-effort image at the
    // dimension floor rather than failing.
    let out = document.resize_image(1).unwrap();
    assert_eq!(out.content_type.as_str(), "image/png");
    let small = image::load_from_memory(&out.bytes).unwrap();
    assert!(small.width() <= MINIMUM_IMAGE_DIMENSION * 2);
}

#[test]
fn test_resize_undecodable_bytes() {
    let document = construct_document("not an image at all".as_bytes());
    let out = document.resize_image(1024);
    match out {
        Err(e) => assert_eq!(e, Errors::ImageResizeError),
        Ok(_) => panic!("expected a decode failure"),
    }
}
