//! The image resizing policy: downscale and re-encode as PNG until the
//! payload fits the moderation provider's byte budget, never dropping an
//! axis below the minimum dimension.

use vstd::prelude::*;

use crate::document::Document;
use crate::errors::Errors;

verus! {

/// The long-axis size of the first resize attempt.
pub const NOMINAL_IMAGE_DIMENSION: u32 = 1024;

/// The floor for either axis; once halving the target would cross it, an
/// oversized result is accepted as best effort.
pub const MINIMUM_IMAGE_DIMENSION: u32 = 128;

/// The pixel decoder and encoder of the `image` crate, held behind an
/// opaque handle.
#[verifier::external_type_specification]
#[verifier::external_body]
pub struct ExDynamicImage(image::DynamicImage);

/// The pixel width of an image.
pub uninterp spec fn image_width(img: image::DynamicImage) -> int;

/// The pixel height of an image.
pub uninterp spec fn image_height(img: image::DynamicImage) -> int;

/// Whether the image's pixel format is one the PNG encoder accepts.
pub uninterp spec fn png_encodable(img: image::DynamicImage) -> bool;

/// The bytes the PNG encoder produces for an image; a function of the
/// image alone.
pub uninterp spec fn png_bytes(img: image::DynamicImage) -> Seq<u8>;

/// Whether a byte buffer decodes as an image under automatic format
/// detection; a function of the bytes alone, as are the width, height and
/// pixel format of what it decodes to.
pub uninterp spec fn spec_decodes(bytes: Seq<u8>) -> bool;

/// The pixel width of the image a byte buffer decodes to.
pub uninterp spec fn decoded_width(bytes: Seq<u8>) -> int;

/// The pixel height of the image a byte buffer decodes to.
pub uninterp spec fn decoded_height(bytes: Seq<u8>) -> int;

/// Whether the image a byte buffer decodes to has a pixel format the PNG
/// encoder accepts.
pub uninterp spec fn decoded_encodable(bytes: Seq<u8>) -> bool;

/// Relies on image's `ImageReader`: decodes a byte buffer with format
/// auto-detection, deterministically; absent exactly on decode failure,
/// and the decoded image's size and pixel format are those the bytes
/// describe.
#[verifier::external_body]
fn decode_image(bytes: &Vec<u8>) -> (r: Option<image::DynamicImage>)
    ensures
        r is Some <==> spec_decodes(bytes@),
        r matches Some(img) ==> {
            &&& image_width(img) == decoded_width(bytes@)
            &&& image_height(img) == decoded_height(bytes@)
            &&& png_encodable(img) == decoded_encodable(bytes@)
        },
{
    image::ImageReader::new(std::io::Cursor::new(bytes.as_slice()))
        .with_guessed_format()
        .ok()?
        .decode()
        .ok()
}

/// Relies on image's `DynamicImage::clone`: an identical copy, so size
/// and pixel format carry over.
#[verifier::external_body]
fn clone_image(img: &image::DynamicImage) -> (r: image::DynamicImage)
    ensures
        image_width(r) == image_width(*img),
        image_height(r) == image_height(*img),
        png_encodable(r) == png_encodable(*img),
{
    img.clone()
}

/// Relies on image's `DynamicImage::width` and `height`: the pixel size
/// of the image.
#[verifier::external_body]
fn dimensions(img: &image::DynamicImage) -> (r: (u32, u32))
    ensures
        r.0 as int == image_width(*img),
        r.1 as int == image_height(*img),
{
    (img.width(), img.height())
}

/// Relies on image's `DynamicImage::resize` with nearest-neighbour
/// resampling: scales to the largest size that fits in the given nonzero
/// bounds, preserving the aspect ratio; both output axes are clamped to
/// at least one pixel, and the pixel format is kept.
#[verifier::external_body]
fn resize_nearest(img: &image::DynamicImage, nx: u32, ny: u32) -> (r: image::DynamicImage)
    requires
        nx >= 1,
        ny >= 1,
    ensures
        1 <= image_width(r) <= nx as int,
        1 <= image_height(r) <= ny as int,
        png_encodable(r) == png_encodable(*img),
{
    img.resize(nx, ny, image::imageops::FilterType::Nearest)
}

/// Relies on image's `DynamicImage::write_to` with the PNG format: the
/// encoding succeeds for every nonzero-sized image of an accepted pixel
/// format, its bytes are a function of the image alone, and any failure
/// returns an error rather than bytes.
#[verifier::external_body]
fn encode_png(img: &image::DynamicImage) -> (r: Option<Vec<u8>>)
    ensures
        image_width(*img) >= 1 && image_height(*img) >= 1 && png_encodable(*img) ==> r is Some,
        r matches Some(v) ==> v@ == png_bytes(*img),
{
    let mut cursor = std::io::Cursor::new(Vec::new());
    img.write_to(&mut cursor, image::ImageFormat::Png).ok()?;
    Some(cursor.into_inner())
}

/// The output dimensions of a resize step are never zero: either axis is
/// a target of at least the minimum, or the clamped minimum itself, or
/// the ratio-expanded companion of a nonzero axis.
pub proof fn lemma_resize_dims_positive(x: int, y: int, target: int, min: int)
    requires
        x >= 1,
        y >= 1,
        target >= min,
        min >= 1,
    ensures
        spec_resize_dims(x, y, target, min).0 >= 1,
        spec_resize_dims(x, y, target, min).1 >= 1,
{
    if x > y {
        if target * y / x < min {
            assert(x * min / y >= 1) by (nonlinear_arith)
                requires
                    x >= 1,
                    y >= 1,
                    x > y,
                    min >= 1,
            ;
        }
    } else {
        if target * x / y < min {
            assert(min * y / x >= 1) by (nonlinear_arith)
                requires
                    x >= 1,
                    y >= 1,
                    x <= y,
                    min >= 1,
            ;
        }
    }
}

/// A value capped at the largest `u32`.
pub open spec fn cap_u32(v: int) -> int {
    if v > u32::MAX {
        u32::MAX as int
    } else {
        v
    }
}

/// The output dimensions of one resize step: the longer axis goes to
/// `target`, the other follows the aspect ratio rounded down; if that
/// would fall under `min`, the short axis is clamped to `min` and the long
/// axis grows to keep the ratio.
pub open spec fn spec_resize_dims(x: int, y: int, target: int, min: int) -> (int, int) {
    if x > y {
        let ny = target * y / x;
        if ny < min {
            (cap_u32(x * min / y), min)
        } else {
            (target, ny)
        }
    } else {
        let nx = target * x / y;
        if nx < min {
            (min, cap_u32(min * y / x))
        } else {
            (nx, target)
        }
    }
}

impl Document {
    /// The dimensions of one resize attempt, aspect ratio preserved and
    /// the short axis clamped to `min_dim`.
    pub fn resize_parameters(x_dim: u32, y_dim: u32, target_dim: u32, min_dim: u32) -> (r: (
        u32,
        u32,
    ))
        requires
            x_dim >= 1,
            y_dim >= 1,
        ensures
            r.0 as int == spec_resize_dims(
                x_dim as int,
                y_dim as int,
                target_dim as int,
                min_dim as int,
            ).0,
            r.1 as int == spec_resize_dims(
                x_dim as int,
                y_dim as int,
                target_dim as int,
                min_dim as int,
            ).1,
    {
        if x_dim > y_dim {
            let ny64: u64 = mul_div(target_dim, y_dim, x_dim);
            if ny64 < min_dim as u64 {
                let nx64: u64 = mul_div(x_dim, min_dim, y_dim);
                (saturate_u32(nx64), min_dim)
            } else {
                proof {
                    assert((target_dim as int) * (y_dim as int) / (x_dim as int)
                        <= target_dim as int) by (nonlinear_arith)
                        requires
                            x_dim > y_dim,
                            y_dim >= 1,
                    ;
                }
                (target_dim, ny64 as u32)
            }
        } else {
            let nx64: u64 = mul_div(target_dim, x_dim, y_dim);
            if nx64 < min_dim as u64 {
                let ny64: u64 = mul_div(min_dim, y_dim, x_dim);
                (min_dim, saturate_u32(ny64))
            } else {
                proof {
                    assert((target_dim as int) * (x_dim as int) / (y_dim as int)
                        <= target_dim as int) by (nonlinear_arith)
                        requires
                            x_dim <= y_dim,
                            x_dim >= 1,
                            y_dim >= 1,
                    ;
                }
                (nx64 as u32, target_dim)
            }
        }
    }

    /// Downscales and re-encodes until the PNG fits `max_size`, halving
    /// the target each round; once the next halving would cross the
    /// minimum dimension, the oversized result is accepted — and it is
    /// then the encoding of an image whose target-bounded axis sits under
    /// twice the minimum. A nonzero-sized image of an accepted pixel
    /// format always resizes. Returns the bytes and the target that
    /// produced them.
    pub fn resize(&self, img: &image::DynamicImage, target_dim: u32, max_size: u64) -> (r: Result<
        (Vec<u8>, u32),
        Errors,
    >)
        requires
            target_dim >= MINIMUM_IMAGE_DIMENSION,
        ensures
            r matches Ok(out) ==> out.0@.len() <= max_size || ((out.1 / 2)
                < MINIMUM_IMAGE_DIMENSION && spec_best_effort(out.0@)),
            r matches Ok(out) ==> MINIMUM_IMAGE_DIMENSION <= out.1 <= target_dim,
            image_width(*img) >= 1 && image_height(*img) >= 1 && png_encodable(*img) ==> r is Ok,
            r is Err ==> r == Err::<(Vec<u8>, u32), Errors>(Errors::ImageResizeError),
    {
        let ghost fit = image_width(*img) >= 1 && image_height(*img) >= 1 && png_encodable(*img);
        let mut current: image::DynamicImage = clone_image(img);
        let mut target: u32 = target_dim;
        loop
            invariant
                MINIMUM_IMAGE_DIMENSION <= target <= target_dim,
                fit == (image_width(*img) >= 1 && image_height(*img) >= 1 && png_encodable(*img)),
                fit ==> image_width(current) >= 1 && image_height(current) >= 1 && png_encodable(
                    current,
                ),
            decreases target,
        {
            let (x_dim, y_dim) = dimensions(&current);
            if x_dim < 1 || y_dim < 1 {
                return Err(Errors::ImageResizeError);
            }
            let (new_x, new_y) = Document::resize_parameters(
                x_dim,
                y_dim,
                target,
                MINIMUM_IMAGE_DIMENSION,
            );
            proof {
                lemma_resize_dims_positive(
                    x_dim as int,
                    y_dim as int,
                    target as int,
                    MINIMUM_IMAGE_DIMENSION as int,
                );
            }
            let new_img = resize_nearest(&current, new_x, new_y);
            let encoded = match encode_png(&new_img) {
                Some(bytes) => bytes,
                Option::None => {
                    return Err(Errors::ImageResizeError);
                },
            };
            let encoded_len = encoded.len();
            if encoded_len as u64 <= max_size {
                return Ok((encoded, target));
            }
            if target / 2 < MINIMUM_IMAGE_DIMENSION {
                proof {
                    assert(new_x < 2 * MINIMUM_IMAGE_DIMENSION || new_y < 2
                        * MINIMUM_IMAGE_DIMENSION);
                    assert(image_width(new_img) < 2 * MINIMUM_IMAGE_DIMENSION || image_height(
                        new_img,
                    ) < 2 * MINIMUM_IMAGE_DIMENSION);
                    assert(spec_best_effort(encoded@));
                }
                return Ok((encoded, target));
            }
            current = new_img;
            target = target / 2;
        }
    }

    /// Re-encodes the document to fit `max_size`: the result is a PNG
    /// within the budget, unless the dimension floor was hit, in which
    /// case a best-effort smaller image comes back even though oversized.
    /// Every document whose bytes decode to a nonzero-sized image of an
    /// accepted pixel format succeeds; undecodable bytes fail.
    pub fn resize_image(&self, max_size: u64) -> (r: Result<Document, Errors>)
        ensures
            r matches Ok(d) ==> {
                &&& d.content_type@ == "image/png"@
                &&& d.content_length == d.bytes@.len()
                &&& d.id == self.id
                &&& d.url@ == self.url@
                &&& d.bytes@.len() <= max_size || spec_best_effort(d.bytes@)
            },
            spec_decodes(self.bytes@) && decoded_width(self.bytes@) >= 1 && decoded_height(
                self.bytes@,
            ) >= 1 && decoded_encodable(self.bytes@) ==> r is Ok,
            !spec_decodes(self.bytes@) ==> r == Err::<Document, Errors>(Errors::ImageResizeError),
            r is Err ==> r == Err::<Document, Errors>(Errors::ImageResizeError),
    {
        let img = match decode_image(&self.bytes) {
            Some(img) => img,
            Option::None => {
                return Err(Errors::ImageResizeError);
            },
        };
        let (bytes, _used_target) = match self.resize(&img, NOMINAL_IMAGE_DIMENSION, max_size) {
            Ok(out) => out,
            Err(e) => {
                return Err(e);
            },
        };
        let len = bytes.len();
        Ok(
            Document {
                id: self.id,
                content_type: "image/png".to_owned(),
                content_length: len as u64,
                bytes,
                url: self.url.clone(),
            },
        )
    }
}

/// What an oversized result at the dimension floor is: the PNG encoding
/// of an image one of whose axes sits under twice the minimum dimension —
/// the shape the last halving step produces.
pub open spec fn spec_best_effort(bytes: Seq<u8>) -> bool {
    exists|im: image::DynamicImage|
        #[trigger] png_bytes(im) == bytes && (image_width(im) < 2 * MINIMUM_IMAGE_DIMENSION
            || image_height(im) < 2 * MINIMUM_IMAGE_DIMENSION)
}

/// `a * b / c` in 64-bit arithmetic; the product of two 32-bit values
/// cannot overflow it.
fn mul_div(a: u32, b: u32, c: u32) -> (r: u64)
    requires
        c >= 1,
    ensures
        r as int == (a as int) * (b as int) / (c as int),
{
    proof {
        assert((a as int) * (b as int) <= 0xffff_ffff * 0xffff_ffff) by (nonlinear_arith)
            requires
                a <= 0xffff_ffffu32,
                b <= 0xffff_ffffu32,
        ;
    }
    ((a as u64) * (b as u64)) / (c as u64)
}

/// Caps a 64-bit value at the largest `u32`.
fn saturate_u32(v: u64) -> (r: u32)
    ensures
        r as int == cap_u32(v as int),
{
    if v > u32::MAX as u64 {
        u32::MAX
    } else {
        v as u32
    }
}

/// The aspect ratio of the output differs from the input's by less than
/// one pixel on the computed axis, in every case: when no clamp fires the
/// shorter output axis is the exact real-valued companion of the target,
/// rounded down; when the clamp fires the longer output axis is the exact
/// companion of the clamped minimum, rounded down. The clamped cases ask
/// that the expanded axis not be cut off by the 32-bit cap — past it the
/// output is saturated and the ratio is no longer representable.
pub proof fn lemma_resize_aspect(x: int, y: int, target: int, min: int)
    requires
        x >= 1,
        y >= 1,
        x > y ==> x * min / y <= u32::MAX,
        x <= y ==> min * y / x <= u32::MAX,
    ensures
        ({
            let (nx, ny) = spec_resize_dims(x, y, target, min);
            if x > y {
                if target * y / x >= min {
                    nx == target && ny * x <= nx * y < (ny + 1) * x
                } else {
                    ny == min && nx * y <= ny * x < (nx + 1) * y
                }
            } else {
                if target * x / y >= min {
                    ny == target && nx * y <= ny * x < (nx + 1) * y
                } else {
                    nx == min && ny * x <= nx * y < (ny + 1) * x
                }
            }
        }),
{
    if x > y {
        if target * y / x >= min {
            let ny = target * y / x;
            assert(ny * x <= target * y < (ny + 1) * x) by (nonlinear_arith)
                requires
                    x >= 1,
                    ny == target * y / x,
            ;
        } else {
            let nx = x * min / y;
            assert(nx * y <= min * x < (nx + 1) * y) by (nonlinear_arith)
                requires
                    y >= 1,
                    nx == x * min / y,
            ;
        }
    } else {
        if target * x / y >= min {
            let nx = target * x / y;
            assert(nx * y <= target * x < (nx + 1) * y) by (nonlinear_arith)
                requires
                    y >= 1,
                    nx == target * x / y,
            ;
        } else {
            let ny = min * y / x;
            assert(ny * x <= min * y < (ny + 1) * x) by (nonlinear_arith)
                requires
                    x >= 1,
                    ny == min * y / x,
            ;
        }
    }
}

} // verus!
