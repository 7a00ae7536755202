//! Static-image asset rules: the WebP animation scan, byte and dimension
//! limits, and the running decoded-size budget of a profile.

use image::GenericImageView;
use vstd::prelude::*;

use crate::character::catalog::{
    add_decoded_bytes, image_format_spec, CharacterProfileError, StaticImageFormat,
    MAX_DECODER_ALLOC_BYTES, MAX_IMAGE_DIMENSION, MAX_IMAGE_FILE_BYTES, MAX_TOTAL_DECODED_BYTES,
};

verus! {

// ---------------------------------------------------------------- WebP scan

pub open spec fn le_u32(b: Seq<u8>, i: int) -> int {
    b[i] + b[i + 1] * 256 + b[i + 2] * 65536 + b[i + 3] * 16777216
}

pub open spec fn is_tag(b: Seq<u8>, i: int, t0: u8, t1: u8, t2: u8, t3: u8) -> bool {
    b[i] == t0 && b[i + 1] == t1 && b[i + 2] == t2 && b[i + 3] == t3
}

/// Whether an `ANIM` chunk occurs in the RIFF chunk chain starting at
/// `offset`. Each chunk has a four-byte tag and a little-endian length,
/// and its payload is padded to an even length.
pub open spec fn anim_chunk_from(b: Seq<u8>, offset: int) -> bool
    decreases b.len() - offset,
{
    if offset < 0 || offset + 8 > b.len() {
        false
    } else if is_tag(b, offset, 65, 78, 73, 77) {
        true
    } else {
        let size = le_u32(b, offset + 4);
        let next = offset + 8 + size + size % 2;
        if next > b.len() {
            false
        } else {
            anim_chunk_from(b, next)
        }
    }
}

/// A RIFF/WEBP container with an `ANIM` chunk in its chunk chain.
pub open spec fn webp_is_animated(b: Seq<u8>) -> bool {
    b.len() >= 12 && is_tag(b, 0, 82, 73, 70, 70) && is_tag(b, 8, 87, 69, 66, 80)
        && anim_chunk_from(b, 12)
}

proof fn lemma_anim_chunk_shift(b: Seq<u8>, c: Seq<u8>, d: int, o: int)
    requires
        d >= 0,
        o >= 12,
        c.len() + d == b.len(),
        forall|j: int| 12 <= j < c.len() ==> c[j] == b[j + d],
    ensures
        anim_chunk_from(c, o) == anim_chunk_from(b, o + d),
    decreases c.len() - o,
{
    if o + 8 <= c.len() {
        assert(c[o] == b[o + d] && c[o + 1] == b[o + 1 + d] && c[o + 2] == b[o + 2 + d] && c[o + 3] == b[o + 3 + d]);
        assert(c[o + 4] == b[o + 4 + d] && c[o + 5] == b[o + 5 + d] && c[o + 6] == b[o + 6 + d] && c[o + 7] == b[o + 7 + d]);
        let size = le_u32(c, o + 4);
        let next = o + 8 + size + size % 2;
        if !is_tag(c, o, 65, 78, 73, 77) && next <= c.len() {
            lemma_anim_chunk_shift(b, c, d, next);
        }
    }
}

/// An `ANIM` chunk right after the RIFF/WEBP header makes the buffer
/// animated.
pub proof fn law_leading_anim_chunk_is_animated(b: Seq<u8>)
    requires
        b.len() >= 20,
        b[0] == 82 && b[1] == 73 && b[2] == 70 && b[3] == 70,
        b[8] == 87 && b[9] == 69 && b[10] == 66 && b[11] == 80,
        b[12] == 65 && b[13] == 78 && b[14] == 73 && b[15] == 77,
    ensures
        webp_is_animated(b),
{
}

/// A chunk other than `ANIM` (for example `VP8X`) that fits in the buffer
/// does not decide: the buffer is animated exactly when it is animated
/// with that chunk (header, little-endian size, payload padded to even)
/// cut out. So an `ANIM` chunk anywhere in the chain counts.
pub proof fn law_non_anim_chunk_is_skipped(b: Seq<u8>)
    requires
        b.len() >= 20,
        b[0] == 82 && b[1] == 73 && b[2] == 70 && b[3] == 70,
        b[8] == 87 && b[9] == 69 && b[10] == 66 && b[11] == 80,
        !(b[12] == 65 && b[13] == 78 && b[14] == 73 && b[15] == 77),
        20 + (b[16] + b[17] * 256 + b[18] * 65536 + b[19] * 16777216) + (b[16] + b[17] * 256 + b[18]
            * 65536 + b[19] * 16777216) % 2 <= b.len(),
    ensures
        webp_is_animated(b) == webp_is_animated(
            b.take(12) + b.skip(
                20 + (b[16] + b[17] * 256 + b[18] * 65536 + b[19] * 16777216) + (b[16] + b[17] * 256
                    + b[18] * 65536 + b[19] * 16777216) % 2,
            ),
        ),
{
    let size = b[16] + b[17] * 256 + b[18] * 65536 + b[19] * 16777216;
    let next = 20 + size + size % 2;
    let c = b.take(12) + b.skip(next);
    let d = next - 12;
    assert forall|j: int| 12 <= j < c.len() implies c[j] == b[j + d] by {}
    assert(c[0] == b[0] && c[1] == b[1] && c[2] == b[2] && c[3] == b[3]);
    assert(c[8] == b[8] && c[9] == b[9] && c[10] == b[10] && c[11] == b[11]);
    assert(le_u32(b, 16) == size);
    lemma_anim_chunk_shift(b, c, d, 12);
}

pub fn webp_contains_animation(bytes: &[u8]) -> (r: bool)
    ensures
        r == webp_is_animated(bytes@),
{
    if bytes.len() < 12 || !(bytes[0] == 82 && bytes[1] == 73 && bytes[2] == 70 && bytes[3] == 70)
        || !(bytes[8] == 87 && bytes[9] == 69 && bytes[10] == 66 && bytes[11] == 80) {
        return false;
    }
    let mut offset: usize = 12;
    while offset <= bytes.len() && bytes.len() - offset >= 8
        invariant
            12 <= offset <= bytes@.len(),
            is_tag(bytes@, 0, 82, 73, 70, 70) && is_tag(bytes@, 8, 87, 69, 66, 80),
            anim_chunk_from(bytes@, 12) == anim_chunk_from(bytes@, offset as int),
        decreases bytes.len() - offset,
    {
        if bytes[offset] == 65 && bytes[offset + 1] == 78 && bytes[offset + 2] == 73 && bytes[offset
            + 3] == 77 {
            return true;
        }
        let size: u64 = (bytes[offset + 4] as u64) + (bytes[offset + 5] as u64) * 256 + (bytes[offset
            + 6] as u64) * 65536 + (bytes[offset + 7] as u64) * 16777216;
        let padded: u64 = size + size % 2;
        let remaining: u64 = (bytes.len() - offset - 8) as u64;
        if padded > remaining {
            return false;
        }
        offset = offset + 8 + (padded as usize);
    }
    false
}

// ---------------------------------------------------------------- decoder

/// Formats that `image::guess_format` can report, reduced to what the
/// profile rules distinguish.
#[derive(Debug, Clone, Copy, PartialEq, Eq, Structural)]
pub enum DetectedFormat {
    Png,
    WebP,
    Other,
}

/// `image::guess_format` on a byte buffer (`None` for unknown magic bytes).
pub uninterp spec fn guessed_format(bytes: Seq<u8>) -> Option<DetectedFormat>;

/// The dimensions in an image header, as read by `ImageReader::into_dimensions`.
pub uninterp spec fn header_dimensions(bytes: Seq<u8>, format: StaticImageFormat) -> Option<(u32, u32)>;

/// What a bounded `ImageReader::decode` yields: whether the pixel type
/// carries alpha, and the decoded dimensions.
#[derive(Debug)]
pub struct DecodedImageInfo {
    pub has_alpha: bool,
    pub width: u32,
    pub height: u32,
}

pub uninterp spec fn decoded_image(
    bytes: Seq<u8>,
    format: StaticImageFormat,
    max_dimension: u32,
    max_alloc: u64,
) -> Option<DecodedImageInfo>;

/// Calls `image::guess_format` and tells its reported formats apart.
#[verifier::external_body]
fn guess_format(bytes: &[u8]) -> (r: Option<DetectedFormat>)
    ensures
        r == guessed_format(bytes@),
{
    match image::guess_format(bytes) {
        Ok(image::ImageFormat::Png) => Some(DetectedFormat::Png),
        Ok(image::ImageFormat::WebP) => Some(DetectedFormat::WebP),
        Ok(_) => Some(DetectedFormat::Other),
        Err(_) => None,
    }
}

/// Calls `ImageReader::into_dimensions` for the given format.
#[verifier::external_body]
fn read_header_dimensions(bytes: &[u8], format: StaticImageFormat) -> (r: Option<(u32, u32)>)
    ensures
        r == header_dimensions(bytes@, format),
{
    let format = match format {
        StaticImageFormat::Png => image::ImageFormat::Png,
        StaticImageFormat::WebP => image::ImageFormat::WebP,
    };
    let reader = image::ImageReader::with_format(std::io::Cursor::new(bytes), format);
    reader.into_dimensions().ok()
}

/// Calls `ImageReader::decode` with width, height and allocation limits,
/// then reads `DynamicImage::has_alpha` and `dimensions` of the result.
#[verifier::external_body]
fn decode_with_limits(bytes: &[u8], format: StaticImageFormat, max_dimension: u32, max_alloc: u64) -> (r: Option<DecodedImageInfo>)
    ensures
        r == decoded_image(bytes@, format, max_dimension, max_alloc),
{
    let format = match format {
        StaticImageFormat::Png => image::ImageFormat::Png,
        StaticImageFormat::WebP => image::ImageFormat::WebP,
    };
    let mut reader = image::ImageReader::with_format(std::io::Cursor::new(bytes), format);
    let mut limits = image::Limits::default();
    limits.max_image_width = Some(max_dimension);
    limits.max_image_height = Some(max_dimension);
    limits.max_alloc = Some(max_alloc);
    reader.limits(limits);
    let decoded = reader.decode().ok()?;
    let (width, height) = decoded.dimensions();
    Some(DecodedImageInfo { has_alpha: decoded.has_alpha(), width, height })
}

// ---------------------------------------------------------------- validation

/// Outcome classes of validating one static expression image.
#[derive(Debug)]
pub enum ImageIssue {
    TooLarge(u64),
    Invalid,
    Animated,
    Dimensions(u32, u32),
    AlphaRequired,
}

pub open spec fn format_matches(guessed: Option<DetectedFormat>, expected: Option<StaticImageFormat>) -> bool {
    match (guessed, expected) {
        (Some(DetectedFormat::Png), Some(StaticImageFormat::Png)) => true,
        (Some(DetectedFormat::WebP), Some(StaticImageFormat::WebP)) => true,
        _ => false,
    }
}

/// Width, height and decoded RGBA size of a valid static expression image,
/// or the first rule it breaks.
pub open spec fn static_image_check(
    file_len: u64,
    bytes: Seq<u8>,
    extension: Option<Seq<char>>,
) -> Result<(u32, u32, u64), ImageIssue> {
    let expected = match extension {
        Some(e) => image_format_spec(e),
        None => None,
    };
    if file_len > MAX_IMAGE_FILE_BYTES {
        Err(ImageIssue::TooLarge(file_len))
    } else if bytes.len() > MAX_IMAGE_FILE_BYTES {
        Err(ImageIssue::TooLarge(bytes.len() as u64))
    } else if guessed_format(bytes) is None || expected is None || !format_matches(guessed_format(bytes), expected) {
        Err(ImageIssue::Invalid)
    } else {
        let format = expected->0;
        if format == StaticImageFormat::WebP && webp_is_animated(bytes) {
            Err(ImageIssue::Animated)
        } else {
            match header_dimensions(bytes, format) {
                None => Err(ImageIssue::Invalid),
                Some((w, h)) => if w == 0 || h == 0 || w > MAX_IMAGE_DIMENSION || h > MAX_IMAGE_DIMENSION {
                    Err(ImageIssue::Dimensions(w, h))
                } else {
                    match decoded_image(bytes, format, MAX_IMAGE_DIMENSION, MAX_DECODER_ALLOC_BYTES) {
                        None => Err(ImageIssue::Invalid),
                        Some(info) => if !info.has_alpha {
                            Err(ImageIssue::AlphaRequired)
                        } else if info.width != w || info.height != h {
                            Err(ImageIssue::Invalid)
                        } else {
                            Ok((w, h, (w * h * 4) as u64))
                        },
                    }
                },
            }
        }
    }
}

/// Validates the bytes of one static expression image: size limits, a
/// PNG or WebP signature that agrees with the file extension, no WebP
/// animation, 1..=4096 pixel sides, an alpha channel, and a decode within
/// the decoder allocation limit.
pub fn validate_static_image(path: &str, file_len: u64, bytes: &[u8], extension: Option<&str>) -> (r: Result<(u32, u32, u64), CharacterProfileError>)
    ensures
        match static_image_check(file_len, bytes@, match extension {
            Some(e) => Some(e@),
            None => None,
        }) {
            Ok(v) => r == Ok::<(u32, u32, u64), CharacterProfileError>(v),
            Err(ImageIssue::TooLarge(n)) => r is Err && match r->Err_0 {
                CharacterProfileError::ImageFileTooLarge { path: p, bytes: b } => p@ == path@ && b == n,
                _ => false,
            },
            Err(ImageIssue::Invalid) => r is Err && match r->Err_0 {
                CharacterProfileError::InvalidImage(p) => p@ == path@,
                _ => false,
            },
            Err(ImageIssue::Animated) => r is Err && match r->Err_0 {
                CharacterProfileError::AnimatedWebp(p) => p@ == path@,
                _ => false,
            },
            Err(ImageIssue::Dimensions(w, h)) => r is Err && match r->Err_0 {
                CharacterProfileError::ImageDimensions { path: p, width, height } => p@ == path@ && width == w && height == h,
                _ => false,
            },
            Err(ImageIssue::AlphaRequired) => r is Err && match r->Err_0 {
                CharacterProfileError::AlphaRequired(p) => p@ == path@,
                _ => false,
            },
        },
{
    if file_len > MAX_IMAGE_FILE_BYTES {
        return Err(CharacterProfileError::ImageFileTooLarge { path: path.to_owned(), bytes: file_len });
    }
    if bytes.len() as u64 > MAX_IMAGE_FILE_BYTES {
        return Err(CharacterProfileError::ImageFileTooLarge { path: path.to_owned(), bytes: bytes.len() as u64 });
    }
    let guessed = guess_format(bytes);
    let expected = match extension {
        Some(e) => crate::character::catalog::image_format_from_extension(e),
        None => None,
    };
    let format = match (guessed, expected) {
        (Some(DetectedFormat::Png), Some(StaticImageFormat::Png)) => StaticImageFormat::Png,
        (Some(DetectedFormat::WebP), Some(StaticImageFormat::WebP)) => StaticImageFormat::WebP,
        _ => return Err(CharacterProfileError::InvalidImage(path.to_owned())),
    };
    if format == StaticImageFormat::WebP && webp_contains_animation(bytes) {
        return Err(CharacterProfileError::AnimatedWebp(path.to_owned()));
    }
    let (width, height) = match read_header_dimensions(bytes, format) {
        Some(d) => d,
        None => return Err(CharacterProfileError::InvalidImage(path.to_owned())),
    };
    if width == 0 || height == 0 || width > MAX_IMAGE_DIMENSION || height > MAX_IMAGE_DIMENSION {
        return Err(CharacterProfileError::ImageDimensions { path: path.to_owned(), width, height });
    }
    let info = match decode_with_limits(bytes, format, MAX_IMAGE_DIMENSION, MAX_DECODER_ALLOC_BYTES) {
        Some(info) => info,
        None => return Err(CharacterProfileError::InvalidImage(path.to_owned())),
    };
    if !info.has_alpha {
        return Err(CharacterProfileError::AlphaRequired(path.to_owned()));
    }
    if info.width != width || info.height != height {
        return Err(CharacterProfileError::InvalidImage(path.to_owned()));
    }
    assert((width as int) * (height as int) <= 4096 * 4096) by (nonlinear_arith)
        requires
            0 <= width <= 4096,
            0 <= height <= 4096,
    ;
    let decoded: u64 = (width as u64) * (height as u64) * 4;
    Ok((width, height, decoded))
}

// ---------------------------------------------------------------- budget

/// Running state while a static profile's images are admitted in manifest
/// order: the dimensions every image must share, and the decoded total.
#[derive(Debug)]
pub struct StaticImageBudget {
    expected: Option<(u32, u32)>,
    total_decoded: u64,
}

impl StaticImageBudget {
    pub closed spec fn expected_spec(&self) -> Option<(u32, u32)> {
        self.expected
    }

    pub closed spec fn total_spec(&self) -> u64 {
        self.total_decoded
    }

    pub fn new() -> (b: StaticImageBudget)
        ensures
            b.expected_spec() is None,
            b.total_spec() == 0,
    {
        StaticImageBudget { expected: None, total_decoded: 0 }
    }

    /// Accepts one validated image: it must have the dimensions of the first
    /// image, and the decoded total may not exceed 256 MiB.
    pub fn accept_image(&mut self, path: &str, width: u32, height: u32, decoded_bytes: u64) -> (r: Result<(), CharacterProfileError>)
        requires
            old(self).total_spec() <= MAX_TOTAL_DECODED_BYTES,
        ensures
            final(self).total_spec() <= MAX_TOTAL_DECODED_BYTES,
            match old(self).expected_spec() {
                Some((w, h)) if w != width || h != height => r is Err && *final(self) == *old(self) && match r->Err_0 {
                    CharacterProfileError::DimensionMismatch { path: p, expected_width, expected_height, actual_width, actual_height } =>
                        p@ == path@ && expected_width == w && expected_height == h && actual_width == width && actual_height == height,
                    _ => false,
                },
                _ => (r is Ok <==> old(self).total_spec() + decoded_bytes <= MAX_TOTAL_DECODED_BYTES)
                    && (r is Ok ==> final(self).expected_spec() == Some((width, height))
                        && final(self).total_spec() == old(self).total_spec() + decoded_bytes)
                    && (r is Err ==> r->Err_0 == (CharacterProfileError::DecodedImageLimit {
                        bytes: if old(self).total_spec() + decoded_bytes > u64::MAX {
                            u64::MAX
                        } else {
                            (old(self).total_spec() + decoded_bytes) as u64
                        },
                    }) && final(self).total_spec() == old(self).total_spec()),
            },
    {
        if let Some((w, h)) = self.expected {
            if w != width || h != height {
                return Err(CharacterProfileError::DimensionMismatch {
                    path: path.to_owned(),
                    expected_width: w,
                    expected_height: h,
                    actual_width: width,
                    actual_height: height,
                });
            }
        }
        let mut total = self.total_decoded;
        add_decoded_bytes(&mut total, decoded_bytes)?;
        self.total_decoded = total;
        self.expected = Some((width, height));
        Ok(())
    }

    /// The shared dimensions once at least one image was admitted.
    pub fn dimensions(&self) -> (r: Option<(u32, u32)>)
        ensures
            r == self.expected_spec(),
    {
        self.expected
    }
}

} // verus!
