//! Bounded provider-neutral audio synthesis values.

use vstd::prelude::*;

use crate::domain::checks::{check_nul_free_text, nul_free_text_check, same_outcome};
use crate::domain::error::{ApiDomainError, ApiDomainErrorCode, invalid_argument, limit_exceeded};
use crate::text::{all_ascii_graphic, all_chars, is_ascii_graphic, utf8_byte_len, utf8_len};

verus! {

/// Maximum encoded size of one synthesis input in UTF-8 bytes.
pub const MAX_AUDIO_TEXT_BYTES: usize = 262_144;

/// Maximum encoded size of one provider-neutral voice selector.
pub const MAX_AUDIO_VOICE_SELECTOR_BYTES: usize = 128;

/// Outcome of validating a synthesis input.
pub open spec fn audio_text_check(s: Seq<char>) -> Result<(), ApiDomainErrorCode> {
    nul_free_text_check(s, MAX_AUDIO_TEXT_BYTES as nat, true)
}

/// One bounded audio synthesis input whose diagnostics never expose its text.
#[derive(PartialEq, Eq)]
pub struct AudioText(String);

impl View for AudioText {
    type V = Seq<char>;

    closed spec fn view(&self) -> Seq<char> {
        self.0@
    }
}

impl Clone for AudioText {
    fn clone(&self) -> (res: Self)
        ensures
            res@ == self@,
    {
        proof {
            use_type_invariant(self);
        }
        AudioText(self.0.clone())
    }
}

impl AudioText {
    #[verifier::type_invariant]
    spec fn valid(self) -> bool {
        audio_text_check(self.0@) is Ok
    }

    /// Validates and copies one input of 1 to 262,144 NUL-free UTF-8 bytes.
    pub fn new(value: &str) -> (res: Result<Self, ApiDomainError>)
        ensures
            same_outcome(res, audio_text_check(value@)),
            res matches Ok(t) ==> t@ == value@,
    {
        match check_nul_free_text(value, MAX_AUDIO_TEXT_BYTES, true) {
            Ok(()) => Ok(AudioText(value.to_owned())),
            Err(e) => Err(e),
        }
    }

    /// Returns the validated text to a trusted audio adapter.
    pub fn as_str(&self) -> (res: &str)
        ensures
            res@ == self@,
            audio_text_check(res@) is Ok,
    {
        proof {
            use_type_invariant(self);
        }
        self.0.as_str()
    }

    /// Returns the encoded UTF-8 byte count.
    pub fn encoded_bytes(&self) -> (res: usize)
        ensures
            res == utf8_len(self@),
    {
        utf8_byte_len(self.0.as_str())
    }
}

/// Outcome of validating a voice selector.
pub open spec fn voice_selector_check(s: Seq<char>) -> Result<(), ApiDomainErrorCode> {
    if utf8_len(s) > MAX_AUDIO_VOICE_SELECTOR_BYTES {
        Err(ApiDomainErrorCode::LimitExceeded)
    } else if s.len() == 0 || !all_chars(s, |c: char| is_ascii_graphic(c)) {
        Err(ApiDomainErrorCode::InvalidArgument)
    } else {
        Ok(())
    }
}

/// One bounded provider-neutral voice selector.
#[derive(PartialEq, Eq, Hash, PartialOrd, Ord)]
pub struct AudioVoiceSelector(String);

impl View for AudioVoiceSelector {
    type V = Seq<char>;

    closed spec fn view(&self) -> Seq<char> {
        self.0@
    }
}

impl Clone for AudioVoiceSelector {
    fn clone(&self) -> (res: Self)
        ensures
            res@ == self@,
    {
        proof {
            use_type_invariant(self);
        }
        AudioVoiceSelector(self.0.clone())
    }
}

impl AudioVoiceSelector {
    #[verifier::type_invariant]
    spec fn valid(self) -> bool {
        voice_selector_check(self.0@) is Ok
    }

    /// Validates and copies a selector of 1 to 128 visible ASCII bytes.
    pub fn new(value: &str) -> (res: Result<Self, ApiDomainError>)
        ensures
            same_outcome(res, voice_selector_check(value@)),
            res matches Ok(v) ==> v@ == value@,
    {
        if utf8_byte_len(value) > MAX_AUDIO_VOICE_SELECTOR_BYTES {
            return Err(limit_exceeded());
        }
        if value.is_empty() || !all_ascii_graphic(value) {
            return Err(invalid_argument());
        }
        Ok(AudioVoiceSelector(value.to_owned()))
    }

    /// Returns the validated selector to a trusted routing or provider adapter.
    pub fn as_str(&self) -> (res: &str)
        ensures
            res@ == self@,
            voice_selector_check(res@) is Ok,
    {
        proof {
            use_type_invariant(self);
        }
        self.0.as_str()
    }

    /// Returns the encoded selector byte count.
    pub fn encoded_bytes(&self) -> (res: usize)
        ensures
            res == utf8_len(self@),
    {
        utf8_byte_len(self.0.as_str())
    }
}

/// Supported provider-neutral PCM sample rates.
#[derive(Clone, Copy, Debug, PartialEq, Eq, Structural, Hash)]
pub enum AudioSampleRate {
    /// 8 kHz narrowband audio.
    Hz8000,
    /// 16 kHz wideband audio.
    Hz16000,
    /// 24 kHz synthesis audio.
    Hz24000,
    /// 48 kHz full-band audio.
    Hz48000,
}

/// The sample rate of each variant in hertz.
pub open spec fn sample_rate_hz(r: AudioSampleRate) -> u32 {
    match r {
        AudioSampleRate::Hz8000 => 8_000,
        AudioSampleRate::Hz16000 => 16_000,
        AudioSampleRate::Hz24000 => 24_000,
        AudioSampleRate::Hz48000 => 48_000,
    }
}

impl AudioSampleRate {
    /// Returns the sample rate in hertz.
    pub fn as_hz(self) -> (res: u32)
        ensures
            res == sample_rate_hz(self),
    {
        match self {
            AudioSampleRate::Hz8000 => 8_000,
            AudioSampleRate::Hz16000 => 16_000,
            AudioSampleRate::Hz24000 => 24_000,
            AudioSampleRate::Hz48000 => 48_000,
        }
    }
}

/// Supported provider-neutral audio channel counts.
#[derive(Clone, Copy, Debug, PartialEq, Eq, Structural, Hash)]
pub enum AudioChannelCount {
    /// One interleaved channel.
    Mono,
    /// Two interleaved channels.
    Stereo,
}

/// The channel count of each variant.
pub open spec fn channel_count_value(c: AudioChannelCount) -> u16 {
    match c {
        AudioChannelCount::Mono => 1,
        AudioChannelCount::Stereo => 2,
    }
}

impl AudioChannelCount {
    /// Returns the channel count used by PCM container metadata.
    pub fn as_u16(self) -> (res: u16)
        ensures
            res == channel_count_value(self),
    {
        match self {
            AudioChannelCount::Mono => 1,
            AudioChannelCount::Stereo => 2,
        }
    }
}

/// Supported encoded formats for provider-neutral generated audio.
#[derive(Clone, Copy, Debug, PartialEq, Eq, Structural, Hash)]
pub enum AudioMediaType {
    /// Canonical little-endian RIFF/WAVE with 16-bit integer PCM samples.
    WavPcm16,
}

impl AudioMediaType {
    /// Returns the stable Internet media type.
    pub fn as_str(self) -> (res: &'static str)
        ensures
            res@ == "audio/wav"@,
    {
        match self {
            AudioMediaType::WavPcm16 => "audio/wav",
        }
    }
}

/// Complete-only output requirements for one audio-synthesis request.
#[derive(Clone, Copy, Debug, PartialEq, Eq, Structural, Hash)]
pub struct AudioOutputSpecification {
    media_type: AudioMediaType,
    sample_rate: AudioSampleRate,
    channel_count: AudioChannelCount,
}

/// Abstract requirements of an [`AudioOutputSpecification`].
pub struct AudioOutputSpecificationView {
    /// Requested encoded media type.
    pub media_type: AudioMediaType,
    /// Requested PCM sample rate.
    pub sample_rate: AudioSampleRate,
    /// Requested channel count.
    pub channel_count: AudioChannelCount,
}

impl View for AudioOutputSpecification {
    type V = AudioOutputSpecificationView;

    closed spec fn view(&self) -> AudioOutputSpecificationView {
        AudioOutputSpecificationView {
            media_type: self.media_type,
            sample_rate: self.sample_rate,
            channel_count: self.channel_count,
        }
    }
}

impl AudioOutputSpecification {
    /// Creates output requirements from already validated audio values.
    pub fn new(
        media_type: AudioMediaType,
        sample_rate: AudioSampleRate,
        channel_count: AudioChannelCount,
    ) -> (res: Self)
        ensures
            res@ == (AudioOutputSpecificationView { media_type, sample_rate, channel_count }),
    {
        AudioOutputSpecification { media_type, sample_rate, channel_count }
    }

    /// Returns the requested encoded media type.
    pub fn media_type(self) -> (res: AudioMediaType)
        ensures
            res == self@.media_type,
    {
        self.media_type
    }

    /// Returns the requested PCM sample rate.
    pub fn sample_rate(self) -> (res: AudioSampleRate)
        ensures
            res == self@.sample_rate,
    {
        self.sample_rate
    }

    /// Returns the requested channel count.
    pub fn channel_count(self) -> (res: AudioChannelCount)
        ensures
            res == self@.channel_count,
    {
        self.channel_count
    }
}

/// Each sample rate in hertz and each channel count as a number: 8,000,
/// 16,000, 24,000 and 48,000 hertz; one and two channels.
pub proof fn audio_layout_values(r: AudioSampleRate, c: AudioChannelCount)
    ensures
        r == AudioSampleRate::Hz8000 ==> sample_rate_hz(r) == 8_000,
        r == AudioSampleRate::Hz16000 ==> sample_rate_hz(r) == 16_000,
        r == AudioSampleRate::Hz24000 ==> sample_rate_hz(r) == 24_000,
        r == AudioSampleRate::Hz48000 ==> sample_rate_hz(r) == 48_000,
        c == AudioChannelCount::Mono ==> channel_count_value(c) == 1,
        c == AudioChannelCount::Stereo ==> channel_count_value(c) == 2,
{
}

} // verus!
