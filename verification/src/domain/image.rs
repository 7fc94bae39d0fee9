//! Bounded, provider-neutral image prompts and generated image values.

use vstd::prelude::*;

use crate::domain::checks::{check_nul_free_text, nul_free_text_check, same_outcome};
use crate::domain::error::{ApiDomainError, ApiDomainErrorCode, invalid_argument, limit_exceeded};
use crate::text::utf8_byte_len;

verus! {

/// Maximum encoded size of one image prompt in UTF-8 bytes.
pub const MAX_IMAGE_PROMPT_BYTES: usize = 262_144;

/// Maximum number of images requested or returned in one operation.
pub const MAX_GENERATED_IMAGES: usize = 8;

/// Maximum width or height of one generated image in pixels.
pub const MAX_IMAGE_EDGE: usize = 8_192;

/// Maximum checked pixel count of one generated image.
pub const MAX_IMAGE_PIXELS: usize = 16_777_216;

/// Maximum encoded size of one generated image.
pub const MAX_GENERATED_IMAGE_BYTES: usize = 8_388_608;

/// Maximum aggregate encoded size of one generated image batch.
pub const MAX_GENERATED_IMAGES_BYTES: usize = 33_554_432;

/// One bounded image-generation prompt whose diagnostics never expose its text.
#[derive(PartialEq, Eq)]
pub struct ImagePrompt(String);

impl Clone for ImagePrompt {
    fn clone(&self) -> (res: Self)
        ensures
            res@ == self@,
    {
        proof {
            use_type_invariant(self);
        }
        ImagePrompt(self.0.clone())
    }
}

impl View for ImagePrompt {
    type V = Seq<char>;

    closed spec fn view(&self) -> Seq<char> {
        self.0@
    }
}

/// Outcome of validating an image prompt.
pub open spec fn image_prompt_check(s: Seq<char>) -> Result<(), ApiDomainErrorCode> {
    nul_free_text_check(s, MAX_IMAGE_PROMPT_BYTES as nat, true)
}

impl ImagePrompt {
    #[verifier::type_invariant]
    spec fn valid(self) -> bool {
        image_prompt_check(self.0@) is Ok
    }

    /// Validates and copies one image prompt of 1 to 262,144 NUL-free UTF-8 bytes.
    pub fn new(value: &str) -> (res: Result<Self, ApiDomainError>)
        ensures
            same_outcome(res, image_prompt_check(value@)),
            res matches Ok(p) ==> p@ == value@,
    {
        match check_nul_free_text(value, MAX_IMAGE_PROMPT_BYTES, true) {
            Ok(()) => Ok(ImagePrompt(value.to_owned())),
            Err(e) => Err(e),
        }
    }

    /// Returns the validated prompt to a trusted image adapter.
    pub fn as_str(&self) -> (res: &str)
        ensures
            res@ == self@,
            image_prompt_check(res@) is Ok,
    {
        proof {
            use_type_invariant(self);
        }
        self.0.as_str()
    }

    /// Returns the prompt's encoded UTF-8 byte count.
    pub fn encoded_bytes(&self) -> (res: usize)
        ensures
            res == crate::text::utf8_len(self@),
    {
        utf8_byte_len(self.0.as_str())
    }
}

/// A checked non-zero number of generated images.
#[derive(Clone, Copy, Debug, PartialEq, Eq, Structural, Hash)]
pub struct ImageCount(usize);

impl View for ImageCount {
    type V = nat;

    closed spec fn view(&self) -> nat {
        self.0 as nat
    }
}

impl ImageCount {
    #[verifier::type_invariant]
    spec fn valid(self) -> bool {
        1 <= self.0 <= MAX_GENERATED_IMAGES
    }

    /// Validates a requested or expected image count in `1..=8`.
    pub fn new(value: usize) -> (res: Result<Self, ApiDomainError>)
        ensures
            res is Ok <==> 1 <= value <= MAX_GENERATED_IMAGES,
            res matches Ok(c) ==> c@ == value,
            res matches Err(e) ==> e.code == (if value > MAX_GENERATED_IMAGES {
                ApiDomainErrorCode::LimitExceeded
            } else {
                ApiDomainErrorCode::InvalidArgument
            }),
    {
        if value > MAX_GENERATED_IMAGES {
            return Err(limit_exceeded());
        }
        if value == 0 {
            return Err(invalid_argument());
        }
        Ok(ImageCount(value))
    }

    /// Returns the validated count.
    pub fn get(self) -> (res: usize)
        ensures
            res == self@,
            1 <= res <= MAX_GENERATED_IMAGES,
    {
        proof {
            use_type_invariant(&self);
        }
        self.0
    }
}

/// Checked pixel dimensions for one generated image.
#[derive(Clone, Copy, Debug, PartialEq, Eq, Structural, Hash)]
pub struct ImageDimensions {
    width: usize,
    height: usize,
    pixels: usize,
}

/// Abstract width, height, and pixel count of [`ImageDimensions`].
pub struct ImageDimensionsView {
    /// Width in pixels.
    pub width: nat,
    /// Height in pixels.
    pub height: nat,
    /// Total pixel count.
    pub pixels: nat,
}

impl View for ImageDimensions {
    type V = ImageDimensionsView;

    closed spec fn view(&self) -> ImageDimensionsView {
        ImageDimensionsView {
            width: self.width as nat,
            height: self.height as nat,
            pixels: self.pixels as nat,
        }
    }
}

/// Outcome of validating image dimensions.
pub open spec fn image_dimensions_check(width: nat, height: nat) -> Result<(), ApiDomainErrorCode> {
    if width > MAX_IMAGE_EDGE || height > MAX_IMAGE_EDGE {
        Err(ApiDomainErrorCode::LimitExceeded)
    } else if width == 0 || height == 0 {
        Err(ApiDomainErrorCode::InvalidArgument)
    } else if width * height > MAX_IMAGE_PIXELS {
        Err(ApiDomainErrorCode::LimitExceeded)
    } else {
        Ok(())
    }
}

impl ImageDimensions {
    #[verifier::type_invariant]
    spec fn valid(self) -> bool {
        &&& image_dimensions_check(self.width as nat, self.height as nat) is Ok
        &&& self.pixels == self.width * self.height
    }

    /// Validates width, height, and checked pixel count.
    pub fn new(width: usize, height: usize) -> (res: Result<Self, ApiDomainError>)
        ensures
            same_outcome(res, image_dimensions_check(width as nat, height as nat)),
            res matches Ok(d) ==> d@.width == width && d@.height == height && d@.pixels == width
                * height,
    {
        if width > MAX_IMAGE_EDGE || height > MAX_IMAGE_EDGE {
            return Err(limit_exceeded());
        }
        if width == 0 || height == 0 {
            return Err(invalid_argument());
        }
        assert(width * height <= 8192 * 8192) by (nonlinear_arith)
            requires
                width <= 8192,
                height <= 8192,
        ;
        let pixels = width * height;
        if pixels > MAX_IMAGE_PIXELS {
            return Err(limit_exceeded());
        }
        Ok(ImageDimensions { width, height, pixels })
    }

    /// Returns the validated width in pixels.
    pub fn width(self) -> (res: usize)
        ensures
            res == self@.width,
    {
        self.width
    }

    /// Returns the validated height in pixels.
    pub fn height(self) -> (res: usize)
        ensures
            res == self@.height,
    {
        self.height
    }

    /// Returns the checked total pixel count.
    pub fn pixels(self) -> (res: usize)
        ensures
            res == self@.pixels,
            res == self@.width * self@.height,
            res <= MAX_IMAGE_PIXELS,
    {
        proof {
            use_type_invariant(&self);
        }
        self.pixels
    }
}

/// Supported encoded formats for provider-neutral generated images.
#[derive(Clone, Copy, Debug, PartialEq, Eq, Structural, Hash)]
pub enum ImageMediaType {
    /// Portable Network Graphics.
    Png,
    /// JPEG image data.
    Jpeg,
    /// WebP image data.
    WebP,
}

/// The stable Internet media type of each image format.
pub open spec fn image_media_type_text(t: ImageMediaType) -> Seq<char> {
    match t {
        ImageMediaType::Png => "image/png"@,
        ImageMediaType::Jpeg => "image/jpeg"@,
        ImageMediaType::WebP => "image/webp"@,
    }
}

/// Whether `bytes` begins with `prefix`.
pub open spec fn starts_with(bytes: Seq<u8>, prefix: Seq<u8>) -> bool {
    prefix.len() <= bytes.len() && bytes.subrange(0, prefix.len() as int) == prefix
}

/// Whether `bytes` opens with the fixed container signature of `t`.
pub open spec fn image_signature_matches(t: ImageMediaType, bytes: Seq<u8>) -> bool {
    match t {
        ImageMediaType::Png => starts_with(
            bytes,
            seq![0x89u8, 0x50u8, 0x4eu8, 0x47u8, 0x0du8, 0x0au8, 0x1au8, 0x0au8],
        ),
        ImageMediaType::Jpeg => starts_with(bytes, seq![0xffu8, 0xd8u8, 0xffu8]),
        ImageMediaType::WebP => starts_with(bytes, seq![0x52u8, 0x49u8, 0x46u8, 0x46u8])
            && bytes.len() >= 12 && bytes.subrange(8, 12) == seq![
            0x57u8,
            0x45u8,
            0x42u8,
            0x50u8,
        ],
    }
}

/// Whether `bytes[offset..offset + expected.len()]` equals `expected`.
pub fn bytes_match_at(bytes: &[u8], offset: usize, expected: &[u8]) -> (res: bool)
    ensures
        res == (offset + expected@.len() <= bytes@.len() && bytes@.subrange(
            offset as int,
            offset + expected@.len(),
        ) == expected@),
{
    if expected.len() > bytes.len() || offset > bytes.len() - expected.len() {
        return false;
    }
    let mut i: usize = 0;
    while i < expected.len()
        invariant
            offset + expected@.len() <= bytes@.len(),
            offset + expected.len() <= bytes.len(),
            i <= expected@.len(),
            forall|j: int| 0 <= j < i ==> bytes@[offset + j] == expected@[j],
        decreases expected@.len() - i,
    {
        if bytes[offset + i] != expected[i] {
            assert(bytes@.subrange(offset as int, offset + expected@.len())[i as int]
                != expected@[i as int]);
            return false;
        }
        i = i + 1;
    }
    assert(bytes@.subrange(offset as int, offset + expected@.len()) =~= expected@);
    true
}

impl ImageMediaType {
    /// Returns the stable Internet media type.
    pub fn as_str(self) -> (res: &'static str)
        ensures
            res@ == image_media_type_text(self),
    {
        match self {
            ImageMediaType::Png => "image/png",
            ImageMediaType::Jpeg => "image/jpeg",
            ImageMediaType::WebP => "image/webp",
        }
    }

    /// Reports whether `bytes` opens with this format's container signature.
    pub fn matches_signature(self, bytes: &[u8]) -> (res: bool)
        ensures
            res == image_signature_matches(self, bytes@),
    {
        match self {
            ImageMediaType::Png => {
                let sig: [u8; 8] = [0x89, 0x50, 0x4e, 0x47, 0x0d, 0x0a, 0x1a, 0x0a];
                let r = bytes_match_at(bytes, 0, &sig);
                assert(sig@ =~= seq![0x89u8, 0x50u8, 0x4eu8, 0x47u8, 0x0du8, 0x0au8, 0x1au8, 0x0au8]);
                r
            },
            ImageMediaType::Jpeg => {
                let sig: [u8; 3] = [0xff, 0xd8, 0xff];
                let r = bytes_match_at(bytes, 0, &sig);
                assert(sig@ =~= seq![0xffu8, 0xd8u8, 0xffu8]);
                r
            },
            ImageMediaType::WebP => {
                let riff: [u8; 4] = [0x52, 0x49, 0x46, 0x46];
                let webp: [u8; 4] = [0x57, 0x45, 0x42, 0x50];
                let a = bytes_match_at(bytes, 0, &riff);
                let b = bytes_match_at(bytes, 8, &webp);
                assert(riff@ =~= seq![0x52u8, 0x49u8, 0x46u8, 0x46u8]);
                assert(webp@ =~= seq![0x57u8, 0x45u8, 0x42u8, 0x50u8]);
                a && b
            },
        }
    }
}


/// Outcome of validating one encoded generated image.
pub open spec fn encoded_image_check(t: ImageMediaType, bytes: Seq<u8>) -> Result<(), ApiDomainErrorCode> {
    if bytes.len() > MAX_GENERATED_IMAGE_BYTES {
        Err(ApiDomainErrorCode::LimitExceeded)
    } else if bytes.len() == 0 || !image_signature_matches(t, bytes) {
        Err(ApiDomainErrorCode::InvalidArgument)
    } else {
        Ok(())
    }
}

/// One bounded encoded image whose diagnostics never expose image bytes.
#[derive(PartialEq, Eq)]
pub struct GeneratedImage {
    media_type: ImageMediaType,
    dimensions: ImageDimensions,
    bytes: Vec<u8>,
}

/// Abstract contents of a [`GeneratedImage`].
pub struct GeneratedImageView {
    /// Encoded media type.
    pub media_type: ImageMediaType,
    /// Declared dimensions.
    pub dimensions: ImageDimensions,
    /// Encoded image bytes.
    pub bytes: Seq<u8>,
}

impl View for GeneratedImage {
    type V = GeneratedImageView;

    closed spec fn view(&self) -> GeneratedImageView {
        GeneratedImageView {
            media_type: self.media_type,
            dimensions: self.dimensions,
            bytes: self.bytes@,
        }
    }
}

impl Clone for GeneratedImage {
    fn clone(&self) -> (res: Self)
        ensures
            res@ == self@,
    {
        proof {
            use_type_invariant(self);
        }
        GeneratedImage {
            media_type: self.media_type,
            dimensions: self.dimensions,
            bytes: self.bytes.clone(),
        }
    }
}

impl GeneratedImage {
    #[verifier::type_invariant]
    spec fn valid(self) -> bool {
        encoded_image_check(self.media_type, self.bytes@) is Ok
    }

    /// Validates and owns one encoded generated image.
    ///
    /// The media type must match the fixed container signature; the image is
    /// not decoded.
    pub fn new(media_type: ImageMediaType, dimensions: ImageDimensions, bytes: Vec<u8>) -> (res:
        Result<Self, ApiDomainError>)
        ensures
            same_outcome(res, encoded_image_check(media_type, bytes@)),
            res matches Ok(i) ==> i@ == (GeneratedImageView { media_type, dimensions, bytes: bytes@ }),
    {
        if bytes.len() > MAX_GENERATED_IMAGE_BYTES {
            return Err(limit_exceeded());
        }
        if bytes.len() == 0 || !media_type.matches_signature(bytes.as_slice()) {
            return Err(invalid_argument());
        }
        Ok(GeneratedImage { media_type, dimensions, bytes })
    }

    /// Returns the validated encoded media type.
    pub fn media_type(&self) -> (res: ImageMediaType)
        ensures
            res == self@.media_type,
    {
        self.media_type
    }

    /// Returns the validated image dimensions.
    pub fn dimensions(&self) -> (res: ImageDimensions)
        ensures
            res == self@.dimensions,
    {
        self.dimensions
    }

    /// Returns the encoded bytes to a trusted image adapter.
    pub fn as_bytes(&self) -> (res: &[u8])
        ensures
            res@ == self@.bytes,
            encoded_image_check(self@.media_type, res@) is Ok,
    {
        proof {
            use_type_invariant(self);
        }
        self.bytes.as_slice()
    }

    /// Returns the encoded byte count.
    pub fn encoded_bytes(&self) -> (res: usize)
        ensures
            res == self@.bytes.len(),
            1 <= res <= MAX_GENERATED_IMAGE_BYTES,
    {
        proof {
            use_type_invariant(self);
        }
        self.bytes.len()
    }
}

/// Aggregate encoded size of a sequence of generated images.
pub open spec fn total_image_bytes(s: Seq<GeneratedImageView>) -> nat
    decreases s.len(),
{
    if s.len() == 0 {
        0
    } else {
        total_image_bytes(s.drop_last()) + s.last().bytes.len()
    }
}

/// Outcome of validating a batch of generated images against an expected count.
pub open spec fn generated_images_check(s: Seq<GeneratedImageView>, expected: nat) -> Result<
    (),
    ApiDomainErrorCode,
> {
    if s.len() > MAX_GENERATED_IMAGES {
        Err(ApiDomainErrorCode::LimitExceeded)
    } else if s.len() == 0 || s.len() != expected {
        Err(ApiDomainErrorCode::InvalidArgument)
    } else if total_image_bytes(s) > MAX_GENERATED_IMAGES_BYTES {
        Err(ApiDomainErrorCode::LimitExceeded)
    } else {
        Ok(())
    }
}

/// An ordered, non-empty, bounded batch of generated images.
#[derive(PartialEq, Eq)]
pub struct GeneratedImages {
    values: Vec<GeneratedImage>,
    total_bytes: usize,
}

impl View for GeneratedImages {
    type V = Seq<GeneratedImageView>;

    closed spec fn view(&self) -> Seq<GeneratedImageView> {
        self.values@.map_values(|i: GeneratedImage| i@)
    }
}

impl GeneratedImages {
    #[verifier::type_invariant]
    spec fn valid(self) -> bool {
        &&& 1 <= self.values@.len() <= MAX_GENERATED_IMAGES
        &&& self.total_bytes == total_image_bytes(self@)
        &&& self.total_bytes <= MAX_GENERATED_IMAGES_BYTES
    }

    /// Validates and owns images for a known requested count.
    pub fn new(values: Vec<GeneratedImage>, expected_count: ImageCount) -> (res: Result<
        Self,
        ApiDomainError,
    >)
        ensures
            same_outcome(
                res,
                generated_images_check(
                    values@.map_values(|i: GeneratedImage| i@),
                    expected_count@,
                ),
            ),
            res matches Ok(g) ==> g@ == values@.map_values(|i: GeneratedImage| i@),
    {
        let expected = expected_count.get();
        if values.len() > MAX_GENERATED_IMAGES {
            return Err(limit_exceeded());
        }
        if values.len() == 0 || values.len() != expected {
            return Err(invalid_argument());
        }
        let ghost views = values@.map_values(|i: GeneratedImage| i@);
        let mut total: usize = 0;
        let mut i: usize = 0;
        while i < values.len()
            invariant
                i <= values@.len(),
                values@.len() <= MAX_GENERATED_IMAGES,
                views == values@.map_values(|i: GeneratedImage| i@),
                total == total_image_bytes(views.take(i as int)),
                total <= i * MAX_GENERATED_IMAGE_BYTES,
            decreases values@.len() - i,
        {
            let n = values[i].encoded_bytes();
            assert(views.take(i + 1).drop_last() =~= views.take(i as int));
            total = total + n;
            i = i + 1;
        }
        assert(views.take(values@.len() as int) =~= views);
        if total > MAX_GENERATED_IMAGES_BYTES {
            return Err(limit_exceeded());
        }
        Ok(GeneratedImages { values, total_bytes: total })
    }

    /// Returns the ordered generated images.
    pub fn as_slice(&self) -> (res: &[GeneratedImage])
        ensures
            res@.map_values(|i: GeneratedImage| i@) == self@,
    {
        self.values.as_slice()
    }

    /// Returns the generated image count.
    pub fn len(&self) -> (res: usize)
        ensures
            res == self@.len(),
            1 <= res <= MAX_GENERATED_IMAGES,
    {
        proof {
            use_type_invariant(self);
        }
        self.values.len()
    }

    /// Reports whether the batch is empty; a validated batch never is.
    pub fn is_empty(&self) -> (res: bool)
        ensures
            res == (self@.len() == 0),
            !res,
    {
        proof {
            use_type_invariant(self);
        }
        self.values.len() == 0
    }

    /// Returns the checked aggregate encoded byte count.
    pub fn total_bytes(&self) -> (res: usize)
        ensures
            res == total_image_bytes(self@),
            res <= MAX_GENERATED_IMAGES_BYTES,
    {
        proof {
            use_type_invariant(self);
        }
        self.total_bytes
    }
}

/// The container signatures, byte by byte: PNG opens with `89 50 4E 47 0D 0A
/// 1A 0A`, JPEG with `FF D8 FF`, and WebP with `RIFF` followed, at offset 8,
/// by `WEBP`.
pub proof fn image_signatures(bytes: Seq<u8>)
    ensures
        image_signature_matches(ImageMediaType::Jpeg, bytes) <==> (bytes.len() >= 3 && bytes[0] == 0xff
            && bytes[1] == 0xd8 && bytes[2] == 0xff),
        image_signature_matches(ImageMediaType::Png, bytes) <==> (bytes.len() >= 8 && bytes[0] == 0x89
            && bytes[1] == 0x50 && bytes[2] == 0x4e && bytes[3] == 0x47 && bytes[4] == 0x0d && bytes[5] == 0x0a
            && bytes[6] == 0x1a && bytes[7] == 0x0a),
        image_signature_matches(ImageMediaType::WebP, bytes) <==> (bytes.len() >= 12 && bytes[0] == 0x52
            && bytes[1] == 0x49 && bytes[2] == 0x46 && bytes[3] == 0x46 && bytes[8] == 0x57 && bytes[9] == 0x45
            && bytes[10] == 0x42 && bytes[11] == 0x50),
{
    if bytes.len() >= 3 && bytes[0] == 0xff && bytes[1] == 0xd8 && bytes[2] == 0xff {
        assert(bytes.subrange(0, 3) =~= seq![0xffu8, 0xd8u8, 0xffu8]);
    }
    if image_signature_matches(ImageMediaType::Jpeg, bytes) {
        assert(bytes.subrange(0, 3)[0] == bytes[0] && bytes.subrange(0, 3)[1] == bytes[1] && bytes.subrange(0, 3)[2]
            == bytes[2]);
    }
    let png = seq![0x89u8, 0x50u8, 0x4eu8, 0x47u8, 0x0du8, 0x0au8, 0x1au8, 0x0au8];
    if bytes.len() >= 8 && bytes[0] == 0x89 && bytes[1] == 0x50 && bytes[2] == 0x4e && bytes[3] == 0x47 && bytes[4]
        == 0x0d && bytes[5] == 0x0a && bytes[6] == 0x1a && bytes[7] == 0x0a {
        assert(bytes.subrange(0, 8) =~= png);
    }
    if image_signature_matches(ImageMediaType::Png, bytes) {
        assert forall|k: int| 0 <= k < 8 implies bytes[k] == png[k] by {
            assert(bytes.subrange(0, 8)[k] == bytes[k]);
        }
    }
    let riff = seq![0x52u8, 0x49u8, 0x46u8, 0x46u8];
    let webp = seq![0x57u8, 0x45u8, 0x42u8, 0x50u8];
    if bytes.len() >= 12 && bytes[0] == 0x52 && bytes[1] == 0x49 && bytes[2] == 0x46 && bytes[3] == 0x46 && bytes[8]
        == 0x57 && bytes[9] == 0x45 && bytes[10] == 0x42 && bytes[11] == 0x50 {
        assert(bytes.subrange(0, 4) =~= riff);
        assert(bytes.subrange(8, 12) =~= webp);
    }
    if image_signature_matches(ImageMediaType::WebP, bytes) {
        assert forall|k: int| 0 <= k < 4 implies bytes[k] == riff[k] && bytes[k + 8] == webp[k] by {
            assert(bytes.subrange(0, 4)[k] == bytes[k]);
            assert(bytes.subrange(8, 12)[k] == bytes[k + 8]);
        }
    }
}

/// The media type of each image format: `image/png`, `image/jpeg` and
/// `image/webp`.
pub proof fn image_media_types(t: ImageMediaType)
    ensures
        t == ImageMediaType::Png ==> image_media_type_text(t) == "image/png"@,
        t == ImageMediaType::Jpeg ==> image_media_type_text(t) == "image/jpeg"@,
        t == ImageMediaType::WebP ==> image_media_type_text(t) == "image/webp"@,
{
}

/// Image dimensions are accepted exactly when both edges lie in 1..=8192 and
/// the image holds at most 16,777,216 pixels.
pub proof fn image_dimension_bounds(width: nat, height: nat)
    ensures
        image_dimensions_check(width, height) is Ok <==> (1 <= width <= 8192 && 1 <= height <= 8192 && width
            * height <= 16_777_216),
{
}

} // verus!
