//! The wire form of generated media: each image or audio clip with its
//! metadata and its bytes as padded standard Base64, within the public body
//! limit.

use vstd::prelude::*;

use crate::domain::audio::{channel_count_value, sample_rate_hz};
use crate::domain::image::{GeneratedImage, GeneratedImageView, image_media_type_text};
use crate::domain::response::{AudioServiceResponse, ImageServiceResponse};
use crate::domain::wav::{GeneratedAudio, GeneratedAudioView};
use crate::http::base64_encoding::{
    MAX_PUBLIC_BODY_BYTES, ascii_chars, encode_bounded, encode_bounded_cancellable, padded_base64_len, standard_base64,
};
use crate::http::protocol::{
    NoRequestContext, ProtocolFailure, ResponseActivity, check_response_context, internal_failure_spec,
};
use crate::http::response::{images_base64_len, project_version, validate_encoded_budget};

verus! {

/// One generated image as a response carries it.
pub struct EncodedImage {
    /// The Internet media type.
    pub media_type: &'static str,
    /// Width in pixels.
    pub width: usize,
    /// Height in pixels.
    pub height: usize,
    /// The image bytes in padded standard Base64.
    pub base64: String,
}

/// Whether `e` carries image `i`.
pub open spec fn encodes_image(e: EncodedImage, i: GeneratedImageView) -> bool {
    &&& e.media_type@ == image_media_type_text(i.media_type)
    &&& e.width == i.dimensions@.width
    &&& e.height == i.dimensions@.height
    &&& e.base64@ == ascii_chars(standard_base64(i.bytes))
}

/// Encodes one generated image.
pub fn encode_image_item(image: &GeneratedImage) -> (res: Result<EncodedImage, ProtocolFailure>)
    ensures
        res matches Ok(e) ==> encodes_image(e, image@),
        res matches Err(f) ==> f == internal_failure_spec(),
        padded_base64_len(image@.bytes.len()) > MAX_PUBLIC_BODY_BYTES ==> res is Err,
{
    encode_image_item_with(image, None::<&NoRequestContext>)
}

/// Encodes one generated image, checking `context` when there is one.
fn encode_image_item_with<C: ResponseActivity>(image: &GeneratedImage, context: Option<&C>) -> (res: Result<
    EncodedImage,
    ProtocolFailure,
>)
    ensures
        res matches Ok(e) ==> encodes_image(e, image@),
        res matches Err(f) ==> f == internal_failure_spec() || (context is Some && f is Domain),
        padded_base64_len(image@.bytes.len()) > MAX_PUBLIC_BODY_BYTES ==> res is Err,
{
    let dimensions = image.dimensions();
    let base64 = match context {
        Some(c) => encode_bounded_cancellable(image.as_bytes(), c)?,
        None => encode_bounded(image.as_bytes())?,
    };
    Ok(EncodedImage {
        media_type: image.media_type().as_str(),
        width: dimensions.width(),
        height: dimensions.height(),
        base64,
    })
}

/// Encodes generated images in order, first refusing images whose encodings
/// together exceed the public body limit; every failure is the internal
/// failure.
pub fn encode_images(images: &[GeneratedImage]) -> (res: Result<Vec<EncodedImage>, ProtocolFailure>)
    ensures
        images_base64_len(images@.map_values(|i: GeneratedImage| i@)) > MAX_PUBLIC_BODY_BYTES ==> res
            == Err::<Vec<EncodedImage>, ProtocolFailure>(internal_failure_spec()),
        res matches Err(f) ==> f == internal_failure_spec(),
        res matches Ok(v) ==> v@.len() == images@.len() && forall|k: int|
            0 <= k < images@.len() ==> encodes_image(#[trigger] v@[k], images@[k]@),
{
    encode_images_with(images, None::<&NoRequestContext>)
}

/// Encodes generated images in order, checking `context` when there is one.
fn encode_images_with<C: ResponseActivity>(images: &[GeneratedImage], context: Option<&C>) -> (res: Result<
    Vec<EncodedImage>,
    ProtocolFailure,
>)
    ensures
        images_base64_len(images@.map_values(|i: GeneratedImage| i@)) > MAX_PUBLIC_BODY_BYTES ==> res
            == Err::<Vec<EncodedImage>, ProtocolFailure>(internal_failure_spec()),
        res matches Err(f) ==> f == internal_failure_spec() || (context is Some && f is Domain),
        res matches Ok(v) ==> v@.len() == images@.len() && forall|k: int|
            0 <= k < images@.len() ==> encodes_image(#[trigger] v@[k], images@[k]@),
{
    validate_encoded_budget(images)?;
    let mut encoded: Vec<EncodedImage> = Vec::new();
    let mut i: usize = 0;
    while i < images.len()
        invariant
            i <= images@.len(),
            images_base64_len(images@.map_values(|i: GeneratedImage| i@)) <= MAX_PUBLIC_BODY_BYTES,
            encoded@.len() == i,
            forall|k: int| 0 <= k < i ==> encodes_image(#[trigger] encoded@[k], images@[k]@),
        decreases images@.len() - i,
    {
        let item = encode_image_item_with(&images[i], context)?;
        encoded.push(item);
        i = i + 1;
    }
    Ok(encoded)
}

/// Projects an image response: its wire version and its encoded images.
pub fn project_image_response(response: &ImageServiceResponse) -> (res: Result<(u16, Vec<EncodedImage>), ProtocolFailure>)
    ensures
        images_base64_len(response.images_spec()) > MAX_PUBLIC_BODY_BYTES ==> res is Err,
        res matches Err(f) ==> f == internal_failure_spec(),
        res matches Ok((version, v)) ==> version == 1 && v@.len() == response.images_spec().len() && forall|k: int|
            0 <= k < v@.len() ==> encodes_image(#[trigger] v@[k], response.images_spec()[k]),
{
    let version = project_version(response.version())?;
    let images = response.images().as_slice();
    let encoded = encode_images(images)?;
    Ok((version, encoded))
}

/// Projects an image response as [`project_image_response`] does while the
/// request `context` stays active: the request is checked first and during
/// every encoding, and a request found inactive fails with its domain
/// failure.
pub fn project_image_response_cancellable<C: ResponseActivity>(response: &ImageServiceResponse, context: &C) -> (res:
    Result<(u16, Vec<EncodedImage>), ProtocolFailure>)
    ensures
        images_base64_len(response.images_spec()) > MAX_PUBLIC_BODY_BYTES ==> res is Err,
        res matches Err(f) ==> f == internal_failure_spec() || f is Domain,
        res matches Ok((version, v)) ==> version == 1 && v@.len() == response.images_spec().len() && forall|k: int|
            0 <= k < v@.len() ==> encodes_image(#[trigger] v@[k], response.images_spec()[k]),
{
    check_response_context(Some(context))?;
    let version = project_version(response.version())?;
    let images = response.images().as_slice();
    let encoded = encode_images_with(images, Some(context))?;
    Ok((version, encoded))
}

/// One generated audio clip as a response carries it.
pub struct EncodedAudio {
    /// The Internet media type.
    pub media_type: &'static str,
    /// Sample rate in hertz.
    pub sample_rate_hz: u32,
    /// Channel count.
    pub channels: u16,
    /// Duration in milliseconds, rounded up.
    pub duration_millis: u64,
    /// The container bytes in padded standard Base64.
    pub base64: String,
}

/// Whether `e` carries audio clip `a`.
pub open spec fn encodes_audio(e: EncodedAudio, a: GeneratedAudioView) -> bool {
    &&& e.media_type@ == "audio/wav"@
    &&& e.sample_rate_hz == sample_rate_hz(a.sample_rate)
    &&& e.channels == channel_count_value(a.channel_count)
    &&& e.duration_millis == a.duration_millis
    &&& e.base64@ == ascii_chars(standard_base64(a.bytes))
}

/// Encodes one generated audio clip; an encoding above the public body
/// limit, or one the allocator has no room for, is the internal failure.
pub fn encode_audio(audio: &GeneratedAudio) -> (res: Result<EncodedAudio, ProtocolFailure>)
    ensures
        padded_base64_len(audio@.bytes.len()) > MAX_PUBLIC_BODY_BYTES ==> res == Err::<EncodedAudio, ProtocolFailure>(
            internal_failure_spec(),
        ),
        res matches Err(f) ==> f == internal_failure_spec(),
        res matches Ok(e) ==> encodes_audio(e, audio@),
{
    encode_audio_with(audio, None::<&NoRequestContext>)
}

/// Encodes one generated audio clip, checking `context` when there is one.
fn encode_audio_with<C: ResponseActivity>(audio: &GeneratedAudio, context: Option<&C>) -> (res: Result<
    EncodedAudio,
    ProtocolFailure,
>)
    ensures
        context is None && padded_base64_len(audio@.bytes.len()) > MAX_PUBLIC_BODY_BYTES ==> res == Err::<
            EncodedAudio,
            ProtocolFailure,
        >(internal_failure_spec()),
        padded_base64_len(audio@.bytes.len()) > MAX_PUBLIC_BODY_BYTES ==> res is Err,
        res matches Err(f) ==> f == internal_failure_spec() || (context is Some && f is Domain),
        res matches Ok(e) ==> encodes_audio(e, audio@),
{
    let base64 = match context {
        Some(c) => encode_bounded_cancellable(audio.as_bytes(), c)?,
        None => encode_bounded(audio.as_bytes())?,
    };
    Ok(EncodedAudio {
        media_type: audio.media_type().as_str(),
        sample_rate_hz: audio.sample_rate().as_hz(),
        channels: audio.channel_count().as_u16(),
        duration_millis: audio.duration_millis(),
        base64,
    })
}

/// Projects an audio response: its wire version and its encoded clip.
pub fn project_audio_response(response: &AudioServiceResponse) -> (res: Result<(u16, EncodedAudio), ProtocolFailure>)
    ensures
        padded_base64_len(response.audio_spec().bytes.len()) > MAX_PUBLIC_BODY_BYTES ==> res is Err,
        res matches Err(f) ==> f == internal_failure_spec(),
        res matches Ok((version, e)) ==> version == 1 && encodes_audio(e, response.audio_spec()),
{
    let version = project_version(response.version())?;
    let encoded = encode_audio(response.audio())?;
    Ok((version, encoded))
}

/// Projects an audio response as [`project_audio_response`] does while the
/// request `context` stays active: the request is checked first and during
/// the encoding, and a request found inactive fails with its domain failure.
pub fn project_audio_response_cancellable<C: ResponseActivity>(response: &AudioServiceResponse, context: &C) -> (res:
    Result<(u16, EncodedAudio), ProtocolFailure>)
    ensures
        padded_base64_len(response.audio_spec().bytes.len()) > MAX_PUBLIC_BODY_BYTES ==> res is Err,
        res matches Err(f) ==> f == internal_failure_spec() || f is Domain,
        res matches Ok((version, e)) ==> version == 1 && encodes_audio(e, response.audio_spec()),
{
    check_response_context(Some(context))?;
    let version = project_version(response.version())?;
    let encoded = encode_audio_with(response.audio(), Some(context))?;
    Ok((version, encoded))
}

} // verus!
