//! Bounded canonical generated audio values: one PCM16 RIFF/WAVE container.

use vstd::prelude::*;

use crate::domain::audio::{
    AudioChannelCount, AudioMediaType, AudioSampleRate, channel_count_value, sample_rate_hz,
};
use crate::domain::checks::same_outcome;
use crate::domain::error::{ApiDomainError, ApiDomainErrorCode, invalid_argument, limit_exceeded};
use crate::domain::image::bytes_match_at;

verus! {

/// Size of the one canonical RIFF/WAVE header accepted.
pub const WAV_HEADER_BYTES: usize = 44;

/// Maximum encoded size of one generated audio response.
pub const MAX_GENERATED_AUDIO_BYTES: usize = 16_777_216;

/// Maximum duration of one generated audio response in milliseconds.
pub const MAX_AUDIO_DURATION_MILLIS: u64 = 600_000;

/// Little-endian 16-bit value at `offset`.
pub open spec fn le_u16(b: Seq<u8>, offset: int) -> nat {
    b[offset] as nat + 256 * (b[offset + 1] as nat)
}

/// Little-endian 32-bit value at `offset`.
pub open spec fn le_u32(b: Seq<u8>, offset: int) -> nat {
    b[offset] as nat + 256 * (b[offset + 1] as nat) + 65536 * (b[offset + 2] as nat) + 16777216 * (
    b[offset + 3] as nat)
}

/// Whether `b[offset..offset + 4]` spells the four ASCII bytes of `tag`.
pub open spec fn has_tag(b: Seq<u8>, offset: int, tag: Seq<u8>) -> bool {
    b.subrange(offset, offset + 4) == tag
}

/// `RIFF`, `WAVE`, `fmt `, and `data` at their canonical offsets.
pub open spec fn canonical_chunk_identifiers(b: Seq<u8>) -> bool {
    &&& has_tag(b, 0, seq![0x52u8, 0x49u8, 0x46u8, 0x46u8])
    &&& has_tag(b, 8, seq![0x57u8, 0x41u8, 0x56u8, 0x45u8])
    &&& has_tag(b, 12, seq![0x66u8, 0x6du8, 0x74u8, 0x20u8])
    &&& has_tag(b, 36, seq![0x64u8, 0x61u8, 0x74u8, 0x61u8])
}

/// The fields of a canonical 44-byte WAV header.
#[derive(Clone, Copy, Debug, PartialEq, Eq, Structural)]
pub struct WavHeader {
    /// RIFF chunk size (total size less eight).
    pub riff_bytes: u32,
    /// `fmt ` chunk size.
    pub format_bytes: u32,
    /// Sample format code; 1 is integer PCM.
    pub format_code: u16,
    /// Interleaved channel count.
    pub channels: u16,
    /// Samples per second.
    pub sample_rate: u32,
    /// Bytes per second.
    pub byte_rate: u32,
    /// Bytes per frame.
    pub block_align: u16,
    /// Bits per sample.
    pub bits_per_sample: u16,
    /// `data` chunk size.
    pub data_bytes: u32,
}

/// The header fields read from the first 44 bytes.
pub open spec fn wav_header_of(b: Seq<u8>) -> WavHeader {
    WavHeader {
        riff_bytes: le_u32(b, 4) as u32,
        format_bytes: le_u32(b, 16) as u32,
        format_code: le_u16(b, 20) as u16,
        channels: le_u16(b, 22) as u16,
        sample_rate: le_u32(b, 24) as u32,
        byte_rate: le_u32(b, 28) as u32,
        block_align: le_u16(b, 32) as u16,
        bits_per_sample: le_u16(b, 34) as u16,
        data_bytes: le_u32(b, 40) as u32,
    }
}

/// PCM16 metadata with a non-empty data region.
pub open spec fn canonical_pcm_header(h: WavHeader) -> bool {
    h.format_bytes == 16 && h.format_code == 1 && h.bits_per_sample == 16 && h.data_bytes != 0
}

/// Chunk sizes that agree with the container length and a frame-aligned data region.
pub open spec fn canonical_wav_lengths(h: WavHeader, encoded: nat) -> bool {
    &&& h.riff_bytes == encoded - 8
    &&& h.data_bytes == encoded - 44
    &&& h.block_align != 0
    &&& (h.data_bytes as nat) % (h.block_align as nat) == 0
}

/// A header that matches the requested sample rate and channel layout.
pub open spec fn requested_layout(h: WavHeader, rate: AudioSampleRate, channels: AudioChannelCount) -> bool {
    &&& h.sample_rate == sample_rate_hz(rate)
    &&& h.channels == channel_count_value(channels)
    &&& h.block_align == channel_count_value(channels) * 2
    &&& h.byte_rate == sample_rate_hz(rate) * channel_count_value(channels) * 2
}

/// Duration in milliseconds, rounded up, of the header's data region.
pub open spec fn wav_duration_millis(h: WavHeader) -> nat {
    ((((h.data_bytes as nat) / (h.block_align as nat)) * 1000 + (h.sample_rate as nat) - 1) / (
    h.sample_rate as int)) as nat
}

/// Outcome of validating a generated audio container, with its duration.
pub open spec fn generated_audio_check(
    b: Seq<u8>,
    rate: AudioSampleRate,
    channels: AudioChannelCount,
) -> Result<nat, ApiDomainErrorCode> {
    if b.len() > MAX_GENERATED_AUDIO_BYTES {
        Err(ApiDomainErrorCode::LimitExceeded)
    } else if b.len() < WAV_HEADER_BYTES || !canonical_chunk_identifiers(b) {
        Err(ApiDomainErrorCode::InvalidArgument)
    } else if !canonical_pcm_header(wav_header_of(b)) {
        Err(ApiDomainErrorCode::InvalidArgument)
    } else if !canonical_wav_lengths(wav_header_of(b), b.len()) {
        Err(ApiDomainErrorCode::InvalidArgument)
    } else if !requested_layout(wav_header_of(b), rate, channels) {
        Err(ApiDomainErrorCode::InvalidArgument)
    } else if wav_duration_millis(wav_header_of(b)) > MAX_AUDIO_DURATION_MILLIS {
        Err(ApiDomainErrorCode::LimitExceeded)
    } else {
        Ok(wav_duration_millis(wav_header_of(b)))
    }
}

/// Reads a little-endian `u16` at `offset`.
pub fn read_u16(bytes: &[u8], offset: usize) -> (res: u16)
    requires
        offset + 2 <= bytes@.len(),
    ensures
        res == le_u16(bytes@, offset as int),
{
    bytes[offset] as u16 + (bytes[offset + 1] as u16) * 256
}

/// Reads a little-endian `u32` at `offset`.
pub fn read_u32(bytes: &[u8], offset: usize) -> (res: u32)
    requires
        offset + 4 <= bytes@.len(),
    ensures
        res == le_u32(bytes@, offset as int),
{
    bytes[offset] as u32 + (bytes[offset + 1] as u32) * 256 + (bytes[offset + 2] as u32) * 65536
        + (bytes[offset + 3] as u32) * 16777216
}

/// Reports whether the four chunk identifiers sit at their canonical offsets.
pub fn has_canonical_chunk_identifiers(bytes: &[u8]) -> (res: bool)
    requires
        bytes@.len() >= WAV_HEADER_BYTES,
    ensures
        res == canonical_chunk_identifiers(bytes@),
{
    let riff: [u8; 4] = [0x52, 0x49, 0x46, 0x46];
    let wave: [u8; 4] = [0x57, 0x41, 0x56, 0x45];
    let fmt: [u8; 4] = [0x66, 0x6d, 0x74, 0x20];
    let data: [u8; 4] = [0x64, 0x61, 0x74, 0x61];
    assert(riff@ =~= seq![0x52u8, 0x49u8, 0x46u8, 0x46u8]);
    assert(wave@ =~= seq![0x57u8, 0x41u8, 0x56u8, 0x45u8]);
    assert(fmt@ =~= seq![0x66u8, 0x6du8, 0x74u8, 0x20u8]);
    assert(data@ =~= seq![0x64u8, 0x61u8, 0x74u8, 0x61u8]);
    bytes_match_at(bytes, 0, &riff) && bytes_match_at(bytes, 8, &wave) && bytes_match_at(
        bytes,
        12,
        &fmt,
    ) && bytes_match_at(bytes, 36, &data)
}

/// Parses the canonical header after checking length and chunk identifiers.
pub fn parse_wav_header(bytes: &[u8]) -> (res: Result<WavHeader, ApiDomainError>)
    ensures
        res is Ok <==> bytes@.len() >= WAV_HEADER_BYTES && canonical_chunk_identifiers(bytes@),
        res matches Ok(h) ==> h == wav_header_of(bytes@),
        res matches Err(e) ==> e.code == ApiDomainErrorCode::InvalidArgument,
{
    if bytes.len() < WAV_HEADER_BYTES {
        return Err(invalid_argument());
    }
    if !has_canonical_chunk_identifiers(bytes) {
        return Err(invalid_argument());
    }
    Ok(
        WavHeader {
            riff_bytes: read_u32(bytes, 4),
            format_bytes: read_u32(bytes, 16),
            format_code: read_u16(bytes, 20),
            channels: read_u16(bytes, 22),
            sample_rate: read_u32(bytes, 24),
            byte_rate: read_u32(bytes, 28),
            block_align: read_u16(bytes, 32),
            bits_per_sample: read_u16(bytes, 34),
            data_bytes: read_u32(bytes, 40),
        },
    )
}

/// Reports whether the header carries PCM16 metadata and a non-empty data region.
pub fn has_canonical_pcm_header(header: WavHeader) -> (res: bool)
    ensures
        res == canonical_pcm_header(header),
{
    header.format_bytes == 16 && header.format_code == 1 && header.bits_per_sample == 16
        && header.data_bytes != 0
}

/// Computes the chunk sizes a container of `encoded_bytes` must declare.
pub fn expected_wav_lengths(encoded_bytes: usize) -> (res: Result<(u32, u32), ApiDomainError>)
    requires
        WAV_HEADER_BYTES <= encoded_bytes,
    ensures
        res is Ok <==> encoded_bytes - 8 <= u32::MAX,
        res matches Ok(p) ==> p.0 == encoded_bytes - 8 && p.1 == encoded_bytes - 44,
        res matches Err(e) ==> e.code == ApiDomainErrorCode::LimitExceeded,
{
    let riff = encoded_bytes - 8;
    let data = encoded_bytes - WAV_HEADER_BYTES;
    if riff > 0xffff_ffffusize {
        return Err(limit_exceeded());
    }
    Ok((riff as u32, data as u32))
}

/// Reports whether the header's chunk sizes match the container and frames.
pub fn has_canonical_wav_lengths(header: WavHeader, expected_riff: u32, expected_data: u32) -> (res:
    bool)
    ensures
        res == (header.riff_bytes == expected_riff && header.data_bytes == expected_data
            && header.block_align != 0 && (header.data_bytes as nat) % (header.block_align as nat) == 0),
{
    let block_align = header.block_align as u32;
    header.riff_bytes == expected_riff && header.data_bytes == expected_data && block_align != 0
        && header.data_bytes % block_align == 0
}

/// Validates the header's sample rate and channel layout against the request.
pub fn validate_requested_layout(
    header: WavHeader,
    sample_rate: AudioSampleRate,
    channel_count: AudioChannelCount,
) -> (res: Result<(), ApiDomainError>)
    ensures
        res is Ok <==> requested_layout(header, sample_rate, channel_count),
        res matches Err(e) ==> e.code == ApiDomainErrorCode::InvalidArgument,
{
    let expected_channels = channel_count.as_u16();
    let expected_block_align = expected_channels * 2;
    let expected_byte_rate = sample_rate.as_hz() * (expected_block_align as u32);
    if header.sample_rate != sample_rate.as_hz() || header.channels != expected_channels {
        return Err(invalid_argument());
    }
    if header.block_align != expected_block_align || header.byte_rate != expected_byte_rate {
        return Err(invalid_argument());
    }
    Ok(())
}

/// Computes the rounded-up duration, rejecting more than 600 seconds.
pub fn checked_duration_millis(header: WavHeader) -> (res: Result<u64, ApiDomainError>)
    requires
        header.block_align != 0,
        header.sample_rate != 0,
    ensures
        res is Ok <==> wav_duration_millis(header) <= MAX_AUDIO_DURATION_MILLIS,
        res matches Ok(d) ==> d == wav_duration_millis(header),
        res matches Err(e) ==> e.code == ApiDomainErrorCode::LimitExceeded,
{
    let frames = (header.data_bytes as u64) / (header.block_align as u64);
    assert(frames <= header.data_bytes) by (nonlinear_arith)
        requires
            frames == (header.data_bytes as u64) / (header.block_align as u64),
            header.block_align >= 1,
    ;
    let sample_rate = header.sample_rate as u64;
    let scaled = frames * 1000;
    let rounded = scaled + (sample_rate - 1);
    let duration_millis = rounded / sample_rate;
    if duration_millis > MAX_AUDIO_DURATION_MILLIS {
        return Err(limit_exceeded());
    }
    Ok(duration_millis)
}

/// One bounded canonical audio response whose diagnostics never expose bytes.
#[derive(PartialEq, Eq)]
pub struct GeneratedAudio {
    media_type: AudioMediaType,
    sample_rate: AudioSampleRate,
    channel_count: AudioChannelCount,
    duration_millis: u64,
    bytes: Vec<u8>,
}

/// Abstract contents of a [`GeneratedAudio`].
pub struct GeneratedAudioView {
    /// Encoded media type.
    pub media_type: AudioMediaType,
    /// Validated sample rate.
    pub sample_rate: AudioSampleRate,
    /// Validated channel count.
    pub channel_count: AudioChannelCount,
    /// Rounded-up duration in milliseconds.
    pub duration_millis: nat,
    /// Encoded container bytes.
    pub bytes: Seq<u8>,
}

impl View for GeneratedAudio {
    type V = GeneratedAudioView;

    closed spec fn view(&self) -> GeneratedAudioView {
        GeneratedAudioView {
            media_type: self.media_type,
            sample_rate: self.sample_rate,
            channel_count: self.channel_count,
            duration_millis: self.duration_millis as nat,
            bytes: self.bytes@,
        }
    }
}

impl Clone for GeneratedAudio {
    fn clone(&self) -> (res: Self)
        ensures
            res@ == self@,
    {
        proof {
            use_type_invariant(self);
        }
        GeneratedAudio {
            media_type: self.media_type,
            sample_rate: self.sample_rate,
            channel_count: self.channel_count,
            duration_millis: self.duration_millis,
            bytes: self.bytes.clone(),
        }
    }
}

impl GeneratedAudio {
    #[verifier::type_invariant]
    spec fn valid(self) -> bool {
        generated_audio_check(self.bytes@, self.sample_rate, self.channel_count) == Ok::<
            nat,
            ApiDomainErrorCode,
        >(self.duration_millis as nat)
    }

    /// Validates and owns one canonical PCM WAV response.
    ///
    /// Exactly one 44-byte canonical RIFF/WAVE header with PCM16 metadata,
    /// followed by one non-empty, frame-aligned data region, is accepted; the
    /// header must agree with the supplied sample rate and channels.
    pub fn new(
        media_type: AudioMediaType,
        sample_rate: AudioSampleRate,
        channel_count: AudioChannelCount,
        bytes: Vec<u8>,
    ) -> (res: Result<Self, ApiDomainError>)
        ensures
            same_outcome(res, match generated_audio_check(bytes@, sample_rate, channel_count) {
                Ok(_) => Ok(()),
                Err(c) => Err(c),
            }),
            res matches Ok(a) ==> generated_audio_check(bytes@, sample_rate, channel_count)
                == Ok::<nat, ApiDomainErrorCode>(a@.duration_millis) && a@.media_type
                == media_type && a@.sample_rate == sample_rate && a@.channel_count
                == channel_count && a@.bytes == bytes@,
    {
        if bytes.len() > MAX_GENERATED_AUDIO_BYTES {
            return Err(limit_exceeded());
        }
        let header = parse_wav_header(bytes.as_slice())?;
        if !has_canonical_pcm_header(header) {
            return Err(invalid_argument());
        }
        let (expected_riff, expected_data) = expected_wav_lengths(bytes.len())?;
        if !has_canonical_wav_lengths(header, expected_riff, expected_data) {
            return Err(invalid_argument());
        }
        validate_requested_layout(header, sample_rate, channel_count)?;
        let duration_millis = checked_duration_millis(header)?;
        Ok(GeneratedAudio { media_type, sample_rate, channel_count, duration_millis, bytes })
    }

    /// Returns the validated encoded media type.
    pub fn media_type(&self) -> (res: AudioMediaType)
        ensures
            res == self@.media_type,
    {
        self.media_type
    }

    /// Returns the validated sample rate.
    pub fn sample_rate(&self) -> (res: AudioSampleRate)
        ensures
            res == self@.sample_rate,
    {
        self.sample_rate
    }

    /// Returns the validated channel count.
    pub fn channel_count(&self) -> (res: AudioChannelCount)
        ensures
            res == self@.channel_count,
    {
        self.channel_count
    }

    /// Returns the checked rounded-up duration in milliseconds.
    pub fn duration_millis(&self) -> (res: u64)
        ensures
            res == self@.duration_millis,
            generated_audio_check(self@.bytes, self@.sample_rate, self@.channel_count) == Ok::<
                nat,
                ApiDomainErrorCode,
            >(res as nat),
    {
        proof {
            use_type_invariant(self);
        }
        self.duration_millis
    }

    /// Returns the encoded byte count.
    pub fn encoded_bytes(&self) -> (res: usize)
        ensures
            res == self@.bytes.len(),
    {
        self.bytes.len()
    }

    /// Returns validated encoded bytes to a trusted transport adapter.
    pub fn as_bytes(&self) -> (res: &[u8])
        ensures
            res@ == self@.bytes,
    {
        self.bytes.as_slice()
    }
}

} // verus!
