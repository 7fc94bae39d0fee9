//! Bounded values for complete service responses.

use vstd::prelude::*;

use crate::domain::checks::{check_nul_free_text, nul_free_text_check, same_outcome};
use crate::domain::error::{ApiDomainError, ApiDomainErrorCode, invalid_argument};
use crate::domain::image::{GeneratedImageView, GeneratedImages};
use crate::domain::wav::{GeneratedAudio, GeneratedAudioView};
use crate::domain::request::ServiceContractVersion;
use crate::domain::usage::{TokenUsage, TokenUsageView};

verus! {

/// Maximum encoded size of a complete text output in UTF-8 bytes.
pub const MAX_TEXT_OUTPUT_BYTES: usize = 16_777_216;

/// Outcome of validating complete text output.
pub open spec fn text_output_check(s: Seq<char>) -> Result<(), ApiDomainErrorCode> {
    nul_free_text_check(s, MAX_TEXT_OUTPUT_BYTES as nat, false)
}

/// Bounded complete text output whose diagnostics never expose its content.
#[derive(PartialEq, Eq)]
pub struct TextOutput(String);

impl View for TextOutput {
    type V = Seq<char>;

    closed spec fn view(&self) -> Seq<char> {
        self.0@
    }
}

impl Clone for TextOutput {
    fn clone(&self) -> (res: Self)
        ensures
            res@ == self@,
    {
        proof {
            use_type_invariant(self);
        }
        TextOutput(self.0.clone())
    }
}

impl TextOutput {
    #[verifier::type_invariant]
    spec fn valid(self) -> bool {
        text_output_check(self.0@) is Ok
    }

    /// Validates and copies output of at most 16 MiB of NUL-free UTF-8;
    /// empty output is valid.
    pub fn new(value: &str) -> (res: Result<Self, ApiDomainError>)
        ensures
            same_outcome(res, text_output_check(value@)),
            res matches Ok(o) ==> o@ == value@,
    {
        match check_nul_free_text(value, MAX_TEXT_OUTPUT_BYTES, false) {
            Ok(()) => Ok(TextOutput(value.to_owned())),
            Err(e) => Err(e),
        }
    }

    /// Returns the validated output to a trusted service adapter.
    pub fn as_str(&self) -> (res: &str)
        ensures
            res@ == self@,
            text_output_check(res@) is Ok,
    {
        proof {
            use_type_invariant(self);
        }
        self.0.as_str()
    }
}

/// Reason generation ended for a complete or streamed response.
#[derive(Clone, Copy, Debug, PartialEq, Eq, Structural, Hash)]
#[non_exhaustive]
pub enum FinishReason {
    /// Generation reached its natural completion point.
    Completed,
    /// Generation reached its configured output limit.
    OutputLimitReached,
    /// A safety policy stopped generation before ordinary completion.
    ContentFiltered,
}

/// A complete response from a text service.
#[derive(PartialEq, Eq)]
pub struct TextServiceResponse {
    version: ServiceContractVersion,
    output: TextOutput,
    finish_reason: FinishReason,
}

/// Abstract contents of a [`TextServiceResponse`].
pub struct TextServiceResponseView {
    /// Service contract version.
    pub version: ServiceContractVersion,
    /// Complete output text.
    pub output: Seq<char>,
    /// Why generation ended.
    pub finish_reason: FinishReason,
}

impl View for TextServiceResponse {
    type V = TextServiceResponseView;

    closed spec fn view(&self) -> TextServiceResponseView {
        TextServiceResponseView {
            version: self.version,
            output: self.output@,
            finish_reason: self.finish_reason,
        }
    }
}

impl TextServiceResponse {
    /// Creates a complete text response from validated domain values.
    pub fn new(version: ServiceContractVersion, output: TextOutput, finish_reason: FinishReason) -> (res:
        Self)
        ensures
            res@ == (TextServiceResponseView { version, output: output@, finish_reason }),
    {
        TextServiceResponse { version, output, finish_reason }
    }

    /// Returns the service contract version.
    pub fn version(&self) -> (res: ServiceContractVersion)
        ensures
            res == self@.version,
    {
        self.version
    }

    /// Returns the validated complete output.
    pub fn output(&self) -> (res: &TextOutput)
        ensures
            res@ == self@.output,
    {
        &self.output
    }

    /// Returns why generation ended.
    pub fn finish_reason(&self) -> (res: FinishReason)
        ensures
            res == self@.finish_reason,
    {
        self.finish_reason
    }
}

/// A complete response from a role-preserving chat service.
#[derive(PartialEq, Eq)]
pub struct ChatServiceResponse {
    version: ServiceContractVersion,
    output: TextOutput,
    finish_reason: FinishReason,
    usage: TokenUsage,
}

/// Abstract contents of a [`ChatServiceResponse`].
pub struct ChatServiceResponseView {
    /// Service contract version.
    pub version: ServiceContractVersion,
    /// Assistant output text.
    pub output: Seq<char>,
    /// Why generation ended.
    pub finish_reason: FinishReason,
    /// Checked token usage.
    pub usage: TokenUsageView,
}

impl View for ChatServiceResponse {
    type V = ChatServiceResponseView;

    closed spec fn view(&self) -> ChatServiceResponseView {
        ChatServiceResponseView {
            version: self.version,
            output: self.output@,
            finish_reason: self.finish_reason,
            usage: self.usage@,
        }
    }
}

impl ChatServiceResponse {
    /// Creates a complete chat response from validated domain values.
    pub fn new(
        version: ServiceContractVersion,
        output: TextOutput,
        finish_reason: FinishReason,
        usage: TokenUsage,
    ) -> (res: Self)
        ensures
            res@ == (ChatServiceResponseView {
                version,
                output: output@,
                finish_reason,
                usage: usage@,
            }),
    {
        ChatServiceResponse { version, output, finish_reason, usage }
    }

    /// Returns the service contract version.
    pub fn version(&self) -> (res: ServiceContractVersion)
        ensures
            res == self@.version,
    {
        self.version
    }

    /// Returns the validated assistant output.
    pub fn output(&self) -> (res: &TextOutput)
        ensures
            res@ == self@.output,
    {
        &self.output
    }

    /// Returns why generation ended.
    pub fn finish_reason(&self) -> (res: FinishReason)
        ensures
            res == self@.finish_reason,
    {
        self.finish_reason
    }

    /// Returns checked token usage for the completed result.
    pub fn usage(&self) -> (res: TokenUsage)
        ensures
            res@ == self@.usage,
    {
        self.usage
    }
}

/// Checks that embedding usage reports no generated output tokens.
///
/// Embeddings consume input tokens but do not generate text tokens, so any
/// output count is `InvalidArgument`.
pub fn validate_embedding_usage(usage: TokenUsage) -> (res: Result<(), ApiDomainError>)
    ensures
        res is Ok <==> usage@.output_tokens == 0,
        res matches Err(e) ==> e.code == ApiDomainErrorCode::InvalidArgument,
{
    if usage.output_tokens() != 0 {
        return Err(invalid_argument());
    }
    Ok(())
}

/// A complete response from an image-generation service.
#[derive(PartialEq, Eq)]
pub struct ImageServiceResponse {
    version: ServiceContractVersion,
    images: GeneratedImages,
}

impl ImageServiceResponse {
    /// Creates a complete image response from validated generated images.
    pub fn new(version: ServiceContractVersion, images: GeneratedImages) -> (res: Self)
        ensures
            res.version_spec() == version,
            res.images_spec() == images@,
    {
        ImageServiceResponse { version, images }
    }

    /// The response's contract version.
    pub closed spec fn version_spec(&self) -> ServiceContractVersion {
        self.version
    }

    /// The response's generated images.
    pub closed spec fn images_spec(&self) -> Seq<GeneratedImageView> {
        self.images@
    }

    /// Returns the service contract version.
    pub fn version(&self) -> (res: ServiceContractVersion)
        ensures
            res == self.version_spec(),
    {
        self.version
    }

    /// Returns ordered generated images correlated to the request count.
    pub fn images(&self) -> (res: &GeneratedImages)
        ensures
            res@ == self.images_spec(),
    {
        &self.images
    }
}

/// A complete response from an audio-synthesis service.
#[derive(PartialEq, Eq)]
pub struct AudioServiceResponse {
    version: ServiceContractVersion,
    audio: GeneratedAudio,
}

impl AudioServiceResponse {
    /// Creates a complete audio response from validated generated audio.
    pub fn new(version: ServiceContractVersion, audio: GeneratedAudio) -> (res: Self)
        ensures
            res.version_spec() == version,
            res.audio_spec() == audio@,
    {
        AudioServiceResponse { version, audio }
    }

    /// The response's contract version.
    pub closed spec fn version_spec(&self) -> ServiceContractVersion {
        self.version
    }

    /// The response's generated audio.
    pub closed spec fn audio_spec(&self) -> GeneratedAudioView {
        self.audio@
    }

    /// Returns the service contract version.
    pub fn version(&self) -> (res: ServiceContractVersion)
        ensures
            res == self.version_spec(),
    {
        self.version
    }

    /// Returns the validated complete audio output.
    pub fn audio(&self) -> (res: &GeneratedAudio)
        ensures
            res@ == self.audio_spec(),
    {
        &self.audio
    }
}

} // verus!
