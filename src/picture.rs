//! Normalising an uploaded picture: a JPEG copy scaled to fit 600 by 600,
//! and a blurhash placeholder for it.
use vstd::prelude::*;

verus! {

#[verifier::external_type_specification]
#[verifier::external_body]
pub struct ExDynamicImage(image::DynamicImage);

#[verifier::external_type_specification]
#[verifier::external_body]
pub struct ExImageError(image::ImageError);

#[verifier::external_type_specification]
#[verifier::external_body]
pub struct ExBlurhashError(blurhash::Error);

/// The resampling filters that scaling can use.
#[derive(Debug, Clone, Copy, PartialEq, Eq, Structural)]
pub enum Resample {
    Nearest,
    Triangle,
    CatmullRom,
    Gaussian,
    Lanczos3,
}

/// The filter used to scale the stored copy.
pub const SCALING_FILTER: Resample = Resample::Lanczos3;

/// The longest side, in pixels, of the stored copy.
pub const MAX_SIDE: u32 = 600;

/// Blurhash components along each axis.
pub const COMPONENTS: u32 = 4;

/// JPEG quality of the stored copy.
pub const JPEG_QUALITY: u8 = 80;

/// An image as rows of RGBA bytes, four per pixel.
#[derive(Debug, PartialEq, Eq)]
pub struct Pixels {
    pub width: u32,
    pub height: u32,
    pub rgba: Vec<u8>,
}

/// The stored copy and its placeholder.
#[derive(Debug, PartialEq, Eq)]
pub struct ImageData {
    pub bytes: Vec<u8>,
    pub blurhash: String,
}

#[derive(Debug, PartialEq, Eq)]
pub enum ImageFailure {
    /// The bytes are not an image of a known format.
    Decode,
    /// The image is empty, or too large to hash.
    Size,
    /// The JPEG encoder failed.
    Encode,
}

/// The digits of blurhash's base 83, in order of value.
pub open spec fn base83_digits() -> Seq<char> {
    "0123456789ABCDEFGHIJKLMNOPQRSTUVWXYZabcdefghijklmnopqrstuvwxyz#$%*+,-.:;=?@[]^_{|}~"@
}

/// What holds of every blurhash with the given component counts: four
/// characters plus two per component, all base-83 digits, the first one
/// giving the component counts.
pub open spec fn blurhash_shape(components_x: u32, components_y: u32, s: Seq<char>) -> bool {
    &&& s.len() == 4 + 2 * components_x * components_y
    &&& s[0] == base83_digits()[(components_x - 1) + (components_y - 1) * 9]
    &&& forall|i: int| 0 <= i < s.len() ==> base83_digits().contains(#[trigger] s[i])
}

/// Pixels that the blurhash encoder can read without overflow: not empty,
/// four bytes per pixel present, and the byte count within `u32`.
pub open spec fn hashable(p: Pixels) -> bool {
    &&& 0 < p.width
    &&& 0 < p.height
    &&& 4 * p.width * p.height <= u32::MAX
    &&& p.rgba@.len() >= 4 * p.width * p.height
}

/// Names whether image::load_from_memory decodes the bytes.
pub uninterp spec fn image_decodes(bytes: Seq<u8>) -> bool;

/// Relies on image::load_from_memory: guesses the format from the bytes and
/// decodes; whether it succeeds depends on the bytes alone.
#[verifier::external_body]
fn decode_image(bytes: &[u8]) -> (r: Result<image::DynamicImage, image::ImageError>)
    ensures
        r is Ok <==> image_decodes(bytes@),
{
    image::load_from_memory(bytes)
}

/// Relies on image::DynamicImage::resize: scales, keeping the aspect ratio,
/// to fit within the given box, with the given filter.
#[verifier::external_body]
fn fit_within(
    img: &image::DynamicImage,
    width: u32,
    height: u32,
    filter: Resample,
) -> image::DynamicImage {
    let filter = match filter {
        Resample::Nearest => image::imageops::FilterType::Nearest,
        Resample::Triangle => image::imageops::FilterType::Triangle,
        Resample::CatmullRom => image::imageops::FilterType::CatmullRom,
        Resample::Gaussian => image::imageops::FilterType::Gaussian,
        Resample::Lanczos3 => image::imageops::FilterType::Lanczos3,
    };
    img.resize(width, height, filter)
}

/// Relies on image::DynamicImage::to_rgba8 and its dimensions: an RGBA
/// buffer holds at least four bytes for each pixel.
#[verifier::external_body]
fn pixels_of(img: &image::DynamicImage) -> (r: Pixels)
    ensures
        r.rgba@.len() >= 4 * r.width * r.height,
{
    let rgba = img.to_rgba8();
    Pixels { width: rgba.width(), height: rgba.height(), rgba: rgba.into_raw() }
}

/// Relies on blurhash::encode: it fails only where a component count is
/// outside 1 to 9; its text is a size digit, a maximum digit, four digits for
/// the average colour and two for each other component, all in base 83.
#[verifier::external_body]
fn blurhash_encode(
    components_x: u32,
    components_y: u32,
    width: u32,
    height: u32,
    rgba: &[u8],
) -> (r: Result<String, blurhash::Error>)
    requires
        0 < width,
        0 < height,
        4 * width * height <= u32::MAX,
        rgba@.len() >= 4 * width * height,
    ensures
        (1 <= components_x <= 9 && 1 <= components_y <= 9) <==> r is Ok,
        r matches Ok(s) ==> blurhash_shape(components_x, components_y, s@),
{
    blurhash::encode(components_x, components_y, width, height, rgba)
}

/// Relies on image::DynamicImage::write_with_encoder with
/// image::codecs::jpeg::JpegEncoder::new_with_quality: the JPEG bytes.
#[verifier::external_body]
fn jpeg_of(img: &image::DynamicImage, quality: u8) -> Result<Vec<u8>, image::ImageError> {
    let mut bytes: Vec<u8> = Vec::new();
    let encoder = image::codecs::jpeg::JpegEncoder::new_with_quality(&mut bytes, quality);
    img.write_with_encoder(encoder).map(|_| bytes)
}

/// The placeholder for an image's pixels, where the encoder can read them.
pub fn placeholder_hash(p: &Pixels) -> (r: Result<String, ImageFailure>)
    ensures
        hashable(*p) ==> (r matches Ok(s) && blurhash_shape(COMPONENTS, COMPONENTS, s@)),
        !hashable(*p) ==> r == Err::<String, ImageFailure>(ImageFailure::Size),
{
    let w = p.width as u64;
    let h = p.height as u64;
    proof {
        assert(w * h <= 0xffff_ffff * 0xffff_ffff) by (nonlinear_arith)
            requires
                w <= 0xffff_ffff,
                h <= 0xffff_ffff,
        ;
    }
    let area = w * h;
    proof {
        assert(4 * p.width * p.height == 4 * area) by (nonlinear_arith)
            requires
                area == w * h,
                w == p.width,
                h == p.height,
        ;
    }
    if p.width == 0 || p.height == 0 || area > (u32::MAX as u64) / 4 {
        return Err(ImageFailure::Size);
    }
    if (p.rgba.len() as u64) < 4 * area {
        return Err(ImageFailure::Size);
    }
    match blurhash_encode(COMPONENTS, COMPONENTS, p.width, p.height, p.rgba.as_slice()) {
        Ok(s) => Ok(s),
        Err(_) => Err(ImageFailure::Size),
    }
}

/// Decodes an uploaded picture, scales it to fit `MAX_SIDE` by `MAX_SIDE`,
/// and returns it as JPEG with the blurhash of the scaled pixels.
pub fn process_image(buffer: &[u8]) -> (r: Result<ImageData, ImageFailure>)
    ensures
        !image_decodes(buffer@) ==> r == Err::<ImageData, ImageFailure>(ImageFailure::Decode),
        r matches Ok(d) ==> blurhash_shape(COMPONENTS, COMPONENTS, d.blurhash@),
{
    let img = match decode_image(buffer) {
        Ok(img) => fit_within(&img, MAX_SIDE, MAX_SIDE, SCALING_FILTER),
        Err(_) => return Err(ImageFailure::Decode),
    };
    let pixels = pixels_of(&img);
    let blurhash = match placeholder_hash(&pixels) {
        Ok(s) => s,
        Err(e) => return Err(e),
    };
    match jpeg_of(&img, JPEG_QUALITY) {
        Ok(bytes) => Ok(ImageData { bytes, blurhash }),
        Err(_) => Err(ImageFailure::Encode),
    }
}

} // verus!
