use ariadnion_api::domain::audio::{
    AudioChannelCount, AudioMediaType, AudioSampleRate, AudioText, AudioVoiceSelector,
};
use ariadnion_api::domain::chat::{ChatMessage, ChatMessageContent, ChatMessages, ChatRole};
use ariadnion_api::domain::checks::{check_nul_free_text, check_opaque_text};
use ariadnion_api::domain::embedding::{
    EmbeddingInput, EmbeddingInputs, checked_scalar_count, validate_input_count,
    validate_vector_count, validate_vector_length,
};
use ariadnion_api::domain::error::{ApiDomainError, ApiDomainErrorCode};
use ariadnion_api::domain::file::{FileByteLength, FileDisplayName, FileMediaType};
use ariadnion_api::domain::image::{
    GeneratedImage, GeneratedImages, ImageCount, ImageDimensions, ImageMediaType, ImagePrompt,
};
use ariadnion_api::domain::request::{
    IdempotencyKey, ModelSelector, OutputTokenLimit, ServiceContractVersion, TextInput,
};
use ariadnion_api::domain::usage::TokenUsage;
use ariadnion_api::domain::wav::{GeneratedAudio, parse_wav_header};

fn code<T>(result: Result<T, ApiDomainError>) -> ApiDomainErrorCode {
    match result {
        Ok(_) => panic!("expected an error"),
        Err(error) => error.code(),
    }
}

#[test]
fn domain_codes_have_stable_texts() {
    assert_eq!(ApiDomainErrorCode::InvalidArgument.as_str(), "API_DOMAIN_INVALID_ARGUMENT");
    assert_eq!(ApiDomainErrorCode::UnsupportedVersion.as_str(), "API_DOMAIN_UNSUPPORTED_VERSION");
    assert_eq!(ApiDomainErrorCode::LimitExceeded.as_str(), "API_DOMAIN_LIMIT_EXCEEDED");
    assert_eq!(ApiDomainErrorCode::Internal.as_str(), "API_DOMAIN_INTERNAL");
}

#[test]
fn nul_free_text_checks_size_before_content() {
    assert!(check_nul_free_text("abc", 3, true).is_ok());
    assert_eq!(code(check_nul_free_text("abcd", 3, true)), ApiDomainErrorCode::LimitExceeded);
    assert_eq!(code(check_nul_free_text("", 3, true)), ApiDomainErrorCode::InvalidArgument);
    assert!(check_nul_free_text("", 3, false).is_ok());
    assert_eq!(code(check_nul_free_text("a\0b", 3, false)), ApiDomainErrorCode::InvalidArgument);
    assert_eq!(code(check_nul_free_text("a\0bcd", 3, false)), ApiDomainErrorCode::LimitExceeded);
    // "é" takes two UTF-8 bytes.
    assert_eq!(code(check_nul_free_text("éé", 3, true)), ApiDomainErrorCode::LimitExceeded);
}

#[test]
fn opaque_text_rejects_controls_and_emptiness() {
    assert!(check_opaque_text("key-1", 8).is_ok());
    assert_eq!(code(check_opaque_text("", 8)), ApiDomainErrorCode::InvalidArgument);
    assert_eq!(code(check_opaque_text("a\tb", 8)), ApiDomainErrorCode::InvalidArgument);
    assert_eq!(code(check_opaque_text("123456789", 8)), ApiDomainErrorCode::LimitExceeded);
}

#[test]
fn only_contract_version_one_is_supported() {
    assert_eq!(ServiceContractVersion::parse(1), Ok(ServiceContractVersion::V1));
    assert_eq!(code(ServiceContractVersion::parse(0)), ApiDomainErrorCode::UnsupportedVersion);
    assert_eq!(code(ServiceContractVersion::parse(2)), ApiDomainErrorCode::UnsupportedVersion);
}

#[test]
fn model_selectors_reject_edge_whitespace_and_controls() {
    assert_eq!(ModelSelector::new("gpt-test").unwrap().as_str(), "gpt-test");
    assert_eq!(code(ModelSelector::new(" gpt")), ApiDomainErrorCode::InvalidArgument);
    assert_eq!(code(ModelSelector::new("gpt ")), ApiDomainErrorCode::InvalidArgument);
    assert_eq!(code(ModelSelector::new("")), ApiDomainErrorCode::InvalidArgument);
    assert_eq!(code(ModelSelector::new("a\nb")), ApiDomainErrorCode::InvalidArgument);
    assert_eq!(code(ModelSelector::new(&"m".repeat(257))), ApiDomainErrorCode::LimitExceeded);
    assert!(ModelSelector::new(&"m".repeat(256)).is_ok());
}

#[test]
fn idempotency_keys_are_visible_ascii() {
    assert_eq!(IdempotencyKey::new("retry-42").unwrap().as_str(), "retry-42");
    assert_eq!(code(IdempotencyKey::new("")), ApiDomainErrorCode::InvalidArgument);
    assert_eq!(code(IdempotencyKey::new("with space")), ApiDomainErrorCode::InvalidArgument);
    assert_eq!(code(IdempotencyKey::new(&"k".repeat(129))), ApiDomainErrorCode::LimitExceeded);
}

#[test]
fn text_input_and_output_limits() {
    assert_eq!(TextInput::new("hello").unwrap().as_str(), "hello");
    assert_eq!(code(TextInput::new("")), ApiDomainErrorCode::InvalidArgument);
    assert_eq!(OutputTokenLimit::new(1).unwrap().get(), 1);
    assert_eq!(OutputTokenLimit::new(1_048_576).unwrap().get(), 1_048_576);
    assert_eq!(code(OutputTokenLimit::new(0)), ApiDomainErrorCode::InvalidArgument);
    assert_eq!(code(OutputTokenLimit::new(1_048_577)), ApiDomainErrorCode::LimitExceeded);
}

#[test]
fn token_usage_total_is_checked_sum() {
    let usage = TokenUsage::new(3, 4).unwrap();
    assert_eq!(usage.input_tokens(), 3);
    assert_eq!(usage.output_tokens(), 4);
    assert_eq!(usage.total_tokens(), 7);
    assert_eq!(code(TokenUsage::new(u64::MAX, 1)), ApiDomainErrorCode::LimitExceeded);
    assert_eq!(TokenUsage::new(u64::MAX, 0).unwrap().total_tokens(), u64::MAX);
}

#[test]
fn file_display_names_exclude_paths_and_controls() {
    assert_eq!(FileDisplayName::new("report.pdf").unwrap().as_str(), "report.pdf");
    assert_eq!(code(FileDisplayName::new("a/b")), ApiDomainErrorCode::InvalidArgument);
    assert_eq!(code(FileDisplayName::new("a\\b")), ApiDomainErrorCode::InvalidArgument);
    assert_eq!(code(FileDisplayName::new("")), ApiDomainErrorCode::InvalidArgument);
    assert_eq!(code(FileDisplayName::new(&"n".repeat(256))), ApiDomainErrorCode::LimitExceeded);
    assert!(FileDisplayName::new(&"n".repeat(255)).is_ok());
}

#[test]
fn media_types_are_single_token_pairs_in_lowercase() {
    assert_eq!(FileMediaType::new("Application/JSON").unwrap().as_str(), "application/json");
    assert_eq!(code(FileMediaType::new("application")), ApiDomainErrorCode::InvalidArgument);
    assert_eq!(code(FileMediaType::new("/json")), ApiDomainErrorCode::InvalidArgument);
    assert_eq!(code(FileMediaType::new("text/")), ApiDomainErrorCode::InvalidArgument);
    assert_eq!(code(FileMediaType::new("a/b/c")), ApiDomainErrorCode::InvalidArgument);
    assert_eq!(code(FileMediaType::new("text/plain; charset=utf-8")), ApiDomainErrorCode::InvalidArgument);
}

#[test]
fn file_byte_length_bounds() {
    assert_eq!(FileByteLength::new(1).unwrap().get(), 1);
    assert_eq!(code(FileByteLength::new(0)), ApiDomainErrorCode::InvalidArgument);
    assert_eq!(code(FileByteLength::new(536_870_913)), ApiDomainErrorCode::LimitExceeded);
}

#[test]
fn image_dimensions_bound_edges_and_pixels() {
    let d = ImageDimensions::new(1024, 768).unwrap();
    assert_eq!(d.width(), 1024);
    assert_eq!(d.height(), 768);
    assert_eq!(d.pixels(), 786_432);
    assert_eq!(code(ImageDimensions::new(0, 10)), ApiDomainErrorCode::InvalidArgument);
    assert_eq!(code(ImageDimensions::new(8193, 1)), ApiDomainErrorCode::LimitExceeded);
    assert_eq!(code(ImageDimensions::new(8192, 8192)), ApiDomainErrorCode::LimitExceeded);
    assert!(ImageDimensions::new(4096, 4096).is_ok());
    assert_eq!(code(ImageCount::new(0)), ApiDomainErrorCode::InvalidArgument);
    assert_eq!(code(ImageCount::new(9)), ApiDomainErrorCode::LimitExceeded);
    assert_eq!(code(ImagePrompt::new("")), ApiDomainErrorCode::InvalidArgument);
}

#[test]
fn generated_images_match_their_container_signature() {
    let dims = ImageDimensions::new(1, 1).unwrap();
    let png = vec![0x89, 0x50, 0x4e, 0x47, 0x0d, 0x0a, 0x1a, 0x0a, 0x00];
    assert!(ImageMediaType::Png.matches_signature(&png));
    assert!(!ImageMediaType::Jpeg.matches_signature(&png));
    let webp = vec![0x52, 0x49, 0x46, 0x46, 0, 0, 0, 0, 0x57, 0x45, 0x42, 0x50];
    assert!(ImageMediaType::WebP.matches_signature(&webp));
    assert!(!ImageMediaType::WebP.matches_signature(&webp[..11]));
    assert_eq!(ImageMediaType::Jpeg.as_str(), "image/jpeg");
    let image = GeneratedImage::new(ImageMediaType::Png, dims, png.clone()).unwrap();
    assert_eq!(image.encoded_bytes(), 9);
    assert_eq!(
        code(GeneratedImage::new(ImageMediaType::Jpeg, dims, png.clone())),
        ApiDomainErrorCode::InvalidArgument
    );
    assert_eq!(
        code(GeneratedImage::new(ImageMediaType::Png, dims, Vec::new())),
        ApiDomainErrorCode::InvalidArgument
    );
    let images = GeneratedImages::new(vec![image], ImageCount::new(1).unwrap()).unwrap();
    assert_eq!(images.len(), 1);
    assert_eq!(images.total_bytes(), 9);
    let other = GeneratedImage::new(ImageMediaType::Png, dims, png).unwrap();
    assert_eq!(
        code(GeneratedImages::new(vec![other], ImageCount::new(2).unwrap())),
        ApiDomainErrorCode::InvalidArgument
    );
}

#[test]
fn embedding_counts_and_shapes() {
    assert!(validate_input_count(1).is_ok());
    assert_eq!(code(validate_input_count(0)), ApiDomainErrorCode::InvalidArgument);
    assert_eq!(code(validate_input_count(129)), ApiDomainErrorCode::LimitExceeded);
    assert!(validate_vector_length(65_536).is_ok());
    assert_eq!(code(validate_vector_length(65_537)), ApiDomainErrorCode::LimitExceeded);
    assert_eq!(code(validate_vector_count(2, 3)), ApiDomainErrorCode::InvalidArgument);
    assert!(validate_vector_count(3, 3).is_ok());
    assert_eq!(checked_scalar_count(128, 8192), Ok(1_048_576));
    assert_eq!(code(checked_scalar_count(128, 8193)), ApiDomainErrorCode::LimitExceeded);
    let inputs = EmbeddingInputs::new(vec![
        EmbeddingInput::new("a").unwrap(),
        EmbeddingInput::new("bcd").unwrap(),
    ])
    .unwrap();
    assert_eq!(inputs.len(), 2);
    assert_eq!(inputs.total_bytes(), 4);
    assert_eq!(code(EmbeddingInputs::new(Vec::new())), ApiDomainErrorCode::InvalidArgument);
}

#[test]
fn chat_messages_are_bounded() {
    let message = ChatMessage::new(ChatRole::User, ChatMessageContent::new("hi").unwrap());
    assert_eq!(message.role(), ChatRole::User);
    assert_eq!(message.content().as_str(), "hi");
    let messages = ChatMessages::new(vec![message]).unwrap();
    assert_eq!(messages.len(), 1);
    assert_eq!(messages.encoded_bytes(), 2);
    assert_eq!(code(ChatMessages::new(Vec::new())), ApiDomainErrorCode::InvalidArgument);
    assert!(ChatMessageContent::new("").is_ok());
    assert_eq!(code(ChatMessageContent::new("a\0")), ApiDomainErrorCode::InvalidArgument);
}

#[test]
fn audio_values_have_fixed_encodings() {
    assert_eq!(AudioSampleRate::Hz24000.as_hz(), 24_000);
    assert_eq!(AudioChannelCount::Stereo.as_u16(), 2);
    assert_eq!(AudioMediaType::WavPcm16.as_str(), "audio/wav");
    assert_eq!(AudioText::new("say this").unwrap().encoded_bytes(), 8);
    assert_eq!(code(AudioText::new("")), ApiDomainErrorCode::InvalidArgument);
    assert_eq!(code(AudioVoiceSelector::new(&"v".repeat(129))), ApiDomainErrorCode::LimitExceeded);
}

fn wav(sample_rate: u32, channels: u16, data: usize) -> Vec<u8> {
    let block_align = channels * 2;
    let byte_rate = sample_rate * u32::from(block_align);
    let mut bytes = Vec::new();
    bytes.extend_from_slice(b"RIFF");
    bytes.extend_from_slice(&((36 + data) as u32).to_le_bytes());
    bytes.extend_from_slice(b"WAVE");
    bytes.extend_from_slice(b"fmt ");
    bytes.extend_from_slice(&16u32.to_le_bytes());
    bytes.extend_from_slice(&1u16.to_le_bytes());
    bytes.extend_from_slice(&channels.to_le_bytes());
    bytes.extend_from_slice(&sample_rate.to_le_bytes());
    bytes.extend_from_slice(&byte_rate.to_le_bytes());
    bytes.extend_from_slice(&block_align.to_le_bytes());
    bytes.extend_from_slice(&16u16.to_le_bytes());
    bytes.extend_from_slice(b"data");
    bytes.extend_from_slice(&(data as u32).to_le_bytes());
    bytes.extend(std::iter::repeat(0u8).take(data));
    bytes
}

#[test]
fn canonical_wav_is_accepted_with_rounded_up_duration() {
    // 8000 mono frames of two bytes each: exactly one second.
    let bytes = wav(8_000, 1, 16_000);
    let header = parse_wav_header(&bytes).unwrap();
    assert_eq!(header.sample_rate, 8_000);
    assert_eq!(header.data_bytes, 16_000);
    let audio = GeneratedAudio::new(
        AudioMediaType::WavPcm16,
        AudioSampleRate::Hz8000,
        AudioChannelCount::Mono,
        bytes,
    )
    .unwrap();
    assert_eq!(audio.duration_millis(), 1_000);
    assert_eq!(audio.encoded_bytes(), 16_044);
    // One frame at 8 kHz is 0.125 ms, which rounds up to 1 ms.
    let short = GeneratedAudio::new(
        AudioMediaType::WavPcm16,
        AudioSampleRate::Hz8000,
        AudioChannelCount::Mono,
        wav(8_000, 1, 2),
    )
    .unwrap();
    assert_eq!(short.duration_millis(), 1);
}

#[test]
fn wav_with_other_layout_or_framing_is_rejected() {
    let stereo = wav(8_000, 2, 16);
    assert_eq!(
        code(GeneratedAudio::new(
            AudioMediaType::WavPcm16,
            AudioSampleRate::Hz8000,
            AudioChannelCount::Mono,
            stereo
        )),
        ApiDomainErrorCode::InvalidArgument
    );
    let mut truncated = wav(8_000, 1, 16);
    truncated.pop();
    assert_eq!(
        code(GeneratedAudio::new(
            AudioMediaType::WavPcm16,
            AudioSampleRate::Hz8000,
            AudioChannelCount::Mono,
            truncated
        )),
        ApiDomainErrorCode::InvalidArgument
    );
    assert_eq!(code(parse_wav_header(&[0u8; 10])), ApiDomainErrorCode::InvalidArgument);
    // Eleven minutes of 8 kHz mono audio exceeds the ten-minute bound.
    let long = wav(8_000, 1, 8_000 * 2 * 660);
    assert_eq!(
        code(GeneratedAudio::new(
            AudioMediaType::WavPcm16,
            AudioSampleRate::Hz8000,
            AudioChannelCount::Mono,
            long
        )),
        ApiDomainErrorCode::LimitExceeded
    );
}
