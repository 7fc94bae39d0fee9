//! Bounded, transport-neutral service request values.

use vstd::prelude::*;

use crate::domain::chat::{ChatMessageView, ChatMessages};
use crate::domain::checks::{check_nul_free_text, nul_free_text_check, same_outcome};
use crate::domain::embedding::EmbeddingInputs;
use crate::domain::error::{ApiDomainError, ApiDomainErrorCode, invalid_argument, limit_exceeded};
use crate::domain::image::{ImageCount, ImageDimensions, ImageMediaType, ImagePrompt};
use crate::text::{
    all_ascii_graphic, all_chars, contains_control, edge_whitespace, has_control,
    has_edge_whitespace, is_ascii_graphic, utf8_byte_len, utf8_len,
};

verus! {

/// Maximum encoded size of a model selector in UTF-8 bytes.
pub const MAX_MODEL_SELECTOR_BYTES: usize = 256;

/// Maximum encoded size of an idempotency key in bytes.
pub const MAX_IDEMPOTENCY_KEY_BYTES: usize = 128;

/// Maximum encoded size of a text input in UTF-8 bytes.
pub const MAX_TEXT_INPUT_BYTES: usize = 1_048_576;

/// Maximum number of output tokens a text request may ask for.
pub const MAX_OUTPUT_TOKENS: u32 = 1_048_576;

/// Version of the transport-neutral service contract.
#[derive(Clone, Copy, Debug, PartialEq, Eq, Structural, Hash)]
#[non_exhaustive]
pub enum ServiceContractVersion {
    /// The initial service contract.
    V1,
}

impl ServiceContractVersion {
    /// Parses the numeric representation of a service contract version.
    ///
    /// Every value other than `1` is `UnsupportedVersion`.
    pub fn parse(value: u16) -> (res: Result<Self, ApiDomainError>)
        ensures
            res is Ok <==> value == 1,
            res matches Ok(v) ==> v == ServiceContractVersion::V1,
            res matches Err(e) ==> e.code == ApiDomainErrorCode::UnsupportedVersion,
    {
        if value == 1 {
            Ok(ServiceContractVersion::V1)
        } else {
            Err(ApiDomainError::new(ApiDomainErrorCode::UnsupportedVersion))
        }
    }
}

/// Outcome of validating a model selector.
pub open spec fn model_selector_check(s: Seq<char>) -> Result<(), ApiDomainErrorCode> {
    if utf8_len(s) > MAX_MODEL_SELECTOR_BYTES {
        Err(ApiDomainErrorCode::LimitExceeded)
    } else if s.len() == 0 || has_edge_whitespace(s) || has_control(s) {
        Err(ApiDomainErrorCode::InvalidArgument)
    } else {
        Ok(())
    }
}

/// A bounded model selector independent of provider-specific model types.
#[derive(Debug, PartialEq, Eq, Hash, PartialOrd, Ord)]
pub struct ModelSelector(String);

impl View for ModelSelector {
    type V = Seq<char>;

    closed spec fn view(&self) -> Seq<char> {
        self.0@
    }
}

impl Clone for ModelSelector {
    fn clone(&self) -> (res: Self)
        ensures
            res@ == self@,
    {
        proof {
            use_type_invariant(self);
        }
        ModelSelector(self.0.clone())
    }
}

impl ModelSelector {
    #[verifier::type_invariant]
    spec fn valid(self) -> bool {
        model_selector_check(self.0@) is Ok
    }

    /// Validates and copies a model selector of 1 to 256 UTF-8 bytes without
    /// leading or trailing whitespace or control characters.
    pub fn new(value: &str) -> (res: Result<Self, ApiDomainError>)
        ensures
            same_outcome(res, model_selector_check(value@)),
            res matches Ok(m) ==> m@ == value@,
    {
        if utf8_byte_len(value) > MAX_MODEL_SELECTOR_BYTES {
            return Err(limit_exceeded());
        }
        if value.is_empty() || edge_whitespace(value) {
            return Err(invalid_argument());
        }
        if contains_control(value) {
            return Err(invalid_argument());
        }
        Ok(ModelSelector(value.to_owned()))
    }

    /// Returns the validated selector.
    pub fn as_str(&self) -> (res: &str)
        ensures
            res@ == self@,
            model_selector_check(res@) is Ok,
    {
        proof {
            use_type_invariant(self);
        }
        self.0.as_str()
    }
}

/// Outcome of validating an idempotency key.
pub open spec fn idempotency_key_check(s: Seq<char>) -> Result<(), ApiDomainErrorCode> {
    if s.len() == 0 {
        Err(ApiDomainErrorCode::InvalidArgument)
    } else if utf8_len(s) > MAX_IDEMPOTENCY_KEY_BYTES {
        Err(ApiDomainErrorCode::LimitExceeded)
    } else if !all_chars(s, |c: char| is_ascii_graphic(c)) {
        Err(ApiDomainErrorCode::InvalidArgument)
    } else {
        Ok(())
    }
}

/// A bounded idempotency key whose diagnostics never expose key material.
#[derive(PartialEq, Eq, Hash, PartialOrd, Ord)]
pub struct IdempotencyKey(String);

impl View for IdempotencyKey {
    type V = Seq<char>;

    closed spec fn view(&self) -> Seq<char> {
        self.0@
    }
}

impl Clone for IdempotencyKey {
    fn clone(&self) -> (res: Self)
        ensures
            res@ == self@,
    {
        proof {
            use_type_invariant(self);
        }
        IdempotencyKey(self.0.clone())
    }
}

impl IdempotencyKey {
    #[verifier::type_invariant]
    spec fn valid(self) -> bool {
        idempotency_key_check(self.0@) is Ok
    }

    /// Validates and copies a key of 1 to 128 visible ASCII bytes.
    pub fn new(value: &str) -> (res: Result<Self, ApiDomainError>)
        ensures
            same_outcome(res, idempotency_key_check(value@)),
            res matches Ok(k) ==> k@ == value@,
    {
        if value.is_empty() {
            return Err(invalid_argument());
        }
        if utf8_byte_len(value) > MAX_IDEMPOTENCY_KEY_BYTES {
            return Err(limit_exceeded());
        }
        if !all_ascii_graphic(value) {
            return Err(invalid_argument());
        }
        Ok(IdempotencyKey(value.to_owned()))
    }

    /// Returns the validated key to a trusted idempotency adapter.
    pub fn as_str(&self) -> (res: &str)
        ensures
            res@ == self@,
            idempotency_key_check(res@) is Ok,
    {
        proof {
            use_type_invariant(self);
        }
        self.0.as_str()
    }
}

/// Outcome of validating text service input.
pub open spec fn text_input_check(s: Seq<char>) -> Result<(), ApiDomainErrorCode> {
    nul_free_text_check(s, MAX_TEXT_INPUT_BYTES as nat, true)
}

/// Bounded service input whose diagnostics never expose input text.
#[derive(PartialEq, Eq)]
pub struct TextInput(String);

impl View for TextInput {
    type V = Seq<char>;

    closed spec fn view(&self) -> Seq<char> {
        self.0@
    }
}

impl Clone for TextInput {
    fn clone(&self) -> (res: Self)
        ensures
            res@ == self@,
    {
        proof {
            use_type_invariant(self);
        }
        TextInput(self.0.clone())
    }
}

impl TextInput {
    #[verifier::type_invariant]
    spec fn valid(self) -> bool {
        text_input_check(self.0@) is Ok
    }

    /// Validates and copies input of 1 to 1,048,576 NUL-free UTF-8 bytes.
    pub fn new(value: &str) -> (res: Result<Self, ApiDomainError>)
        ensures
            same_outcome(res, text_input_check(value@)),
            res matches Ok(t) ==> t@ == value@,
    {
        match check_nul_free_text(value, MAX_TEXT_INPUT_BYTES, true) {
            Ok(()) => Ok(TextInput(value.to_owned())),
            Err(e) => Err(e),
        }
    }

    /// Returns the validated text to a trusted service implementation.
    pub fn as_str(&self) -> (res: &str)
        ensures
            res@ == self@,
            text_input_check(res@) is Ok,
    {
        proof {
            use_type_invariant(self);
        }
        self.0.as_str()
    }
}

/// A validated hard limit for generated output tokens.
#[derive(Clone, Copy, Debug, PartialEq, Eq, Structural, Hash, PartialOrd, Ord)]
pub struct OutputTokenLimit(u32);

impl View for OutputTokenLimit {
    type V = nat;

    closed spec fn view(&self) -> nat {
        self.0 as nat
    }
}

impl OutputTokenLimit {
    #[verifier::type_invariant]
    spec fn valid(self) -> bool {
        1 <= self.0 <= MAX_OUTPUT_TOKENS
    }

    /// Validates an output token limit in `1..=1,048,576`.
    pub fn new(value: u32) -> (res: Result<Self, ApiDomainError>)
        ensures
            res is Ok <==> 1 <= value <= MAX_OUTPUT_TOKENS,
            res matches Ok(l) ==> l@ == value,
            res matches Err(e) ==> e.code == (if value == 0 {
                ApiDomainErrorCode::InvalidArgument
            } else {
                ApiDomainErrorCode::LimitExceeded
            }),
    {
        if value == 0 {
            return Err(invalid_argument());
        }
        if value > MAX_OUTPUT_TOKENS {
            return Err(limit_exceeded());
        }
        Ok(OutputTokenLimit(value))
    }

    /// Returns the validated token count.
    pub fn get(self) -> (res: u32)
        ensures
            res == self@,
            1 <= res <= MAX_OUTPUT_TOKENS,
    {
        proof {
            use_type_invariant(&self);
        }
        self.0
    }
}

/// Delivery mode requested for a service response.
#[derive(Clone, Copy, Debug, PartialEq, Eq, Structural, Hash)]
#[non_exhaustive]
pub enum ResponseMode {
    /// Deliver one complete response after generation finishes.
    Complete,
    /// Deliver response events incrementally through a separate stream port.
    Stream,
}

/// Complete-only output requirements for one image-generation request.
#[derive(Clone, Copy, Debug, PartialEq, Eq, Structural, Hash)]
pub struct ImageOutputSpecification {
    count: ImageCount,
    dimensions: ImageDimensions,
    media_type: ImageMediaType,
}

/// Abstract requirements of an [`ImageOutputSpecification`].
pub struct ImageOutputSpecificationView {
    /// Requested image count.
    pub count: ImageCount,
    /// Requested dimensions of each image.
    pub dimensions: ImageDimensions,
    /// Requested encoded media type.
    pub media_type: ImageMediaType,
}

impl View for ImageOutputSpecification {
    type V = ImageOutputSpecificationView;

    closed spec fn view(&self) -> ImageOutputSpecificationView {
        ImageOutputSpecificationView {
            count: self.count,
            dimensions: self.dimensions,
            media_type: self.media_type,
        }
    }
}

impl ImageOutputSpecification {
    /// Creates output requirements from already validated image values.
    pub fn new(count: ImageCount, dimensions: ImageDimensions, media_type: ImageMediaType) -> (res:
        Self)
        ensures
            res@ == (ImageOutputSpecificationView { count, dimensions, media_type }),
    {
        ImageOutputSpecification { count, dimensions, media_type }
    }

    /// Returns the requested number of generated images.
    pub fn count(self) -> (res: ImageCount)
        ensures
            res == self@.count,
    {
        self.count
    }

    /// Returns the requested dimensions for each generated image.
    pub fn dimensions(self) -> (res: ImageDimensions)
        ensures
            res == self@.dimensions,
    {
        self.dimensions
    }

    /// Returns the requested encoded media type.
    pub fn media_type(self) -> (res: ImageMediaType)
        ensures
            res == self@.media_type,
    {
        self.media_type
    }
}

/// The abstract value of an optional idempotency key.
pub open spec fn optional_key(key: Option<IdempotencyKey>) -> Option<Seq<char>> {
    match key {
        Some(k) => Some(k@),
        None => None,
    }
}

/// The abstract value of an optional borrowed idempotency key.
pub open spec fn optional_key_view(key: Option<&IdempotencyKey>) -> Option<Seq<char>> {
    match key {
        Some(k) => Some(k@),
        None => None,
    }
}

/// A fully validated request for a text service.
#[derive(PartialEq, Eq)]
pub struct TextServiceRequest {
    version: ServiceContractVersion,
    model: ModelSelector,
    input: TextInput,
    output_token_limit: OutputTokenLimit,
    response_mode: ResponseMode,
    idempotency_key: Option<IdempotencyKey>,
}

/// Abstract contents of a [`TextServiceRequest`].
pub struct TextServiceRequestView {
    /// The request's `version`.
    pub version: ServiceContractVersion,
    /// The request's `model`.
    pub model: Seq<char>,
    /// The request's `input`.
    pub input: Seq<char>,
    /// The request's `output_token_limit`.
    pub output_token_limit: nat,
    /// The request's `response_mode`.
    pub response_mode: ResponseMode,
    /// The request's `idempotency_key`.
    pub idempotency_key: Option<Seq<char>>,
}

impl View for TextServiceRequest {
    type V = TextServiceRequestView;

    closed spec fn view(&self) -> TextServiceRequestView {
        TextServiceRequestView {
            version: self.version,
            model: self.model@,
            input: self.input@,
            output_token_limit: self.output_token_limit@,
            response_mode: self.response_mode,
            idempotency_key: optional_key(self.idempotency_key),
        }
    }
}

impl TextServiceRequest {
    /// Creates a text service request from already validated domain values.
    pub fn new(version: ServiceContractVersion, model: ModelSelector, input: TextInput, output_token_limit: OutputTokenLimit, response_mode: ResponseMode, idempotency_key: Option<IdempotencyKey>) -> (res: Self)
        ensures
            res@ == (TextServiceRequestView { version: version, model: model@, input: input@, output_token_limit: output_token_limit@, response_mode: response_mode, idempotency_key: optional_key(idempotency_key) }),
    {
        TextServiceRequest { version, model, input, output_token_limit, response_mode, idempotency_key }
    }

    /// Returns the request's `version`.
    pub fn version(&self) -> (res: ServiceContractVersion)
        ensures
            res == self@.version,
    {
        self.version
    }

    /// Returns the request's `model`.
    pub fn model(&self) -> (res: &ModelSelector)
        ensures
            res@ == self@.model,
    {
        &self.model
    }

    /// Returns the request's `input`.
    pub fn input(&self) -> (res: &TextInput)
        ensures
            res@ == self@.input,
    {
        &self.input
    }

    /// Returns the request's `output_token_limit`.
    pub fn output_token_limit(&self) -> (res: OutputTokenLimit)
        ensures
            res@ == self@.output_token_limit,
    {
        self.output_token_limit
    }

    /// Returns the request's `response_mode`.
    pub fn response_mode(&self) -> (res: ResponseMode)
        ensures
            res == self@.response_mode,
    {
        self.response_mode
    }

    /// Returns the optional idempotency key.
    pub fn idempotency_key(&self) -> (res: Option<&IdempotencyKey>)
        ensures
            optional_key_view(res) == self@.idempotency_key,
    {
        match &self.idempotency_key {
            Some(k) => Some(k),
            None => None,
        }
    }

}

/// A fully validated request for a role-preserving chat service.
#[derive(PartialEq, Eq)]
pub struct ChatServiceRequest {
    version: ServiceContractVersion,
    model: ModelSelector,
    messages: ChatMessages,
    output_token_limit: OutputTokenLimit,
    response_mode: ResponseMode,
    idempotency_key: Option<IdempotencyKey>,
}

/// Abstract contents of a [`ChatServiceRequest`].
pub struct ChatServiceRequestView {
    /// The request's `version`.
    pub version: ServiceContractVersion,
    /// The request's `model`.
    pub model: Seq<char>,
    /// The request's `messages`.
    pub messages: Seq<ChatMessageView>,
    /// The request's `output_token_limit`.
    pub output_token_limit: nat,
    /// The request's `response_mode`.
    pub response_mode: ResponseMode,
    /// The request's `idempotency_key`.
    pub idempotency_key: Option<Seq<char>>,
}

impl View for ChatServiceRequest {
    type V = ChatServiceRequestView;

    closed spec fn view(&self) -> ChatServiceRequestView {
        ChatServiceRequestView {
            version: self.version,
            model: self.model@,
            messages: self.messages@,
            output_token_limit: self.output_token_limit@,
            response_mode: self.response_mode,
            idempotency_key: optional_key(self.idempotency_key),
        }
    }
}

impl ChatServiceRequest {
    /// Creates a chat request from validated, transport-neutral domain values.
    pub fn new(version: ServiceContractVersion, model: ModelSelector, messages: ChatMessages, output_token_limit: OutputTokenLimit, response_mode: ResponseMode, idempotency_key: Option<IdempotencyKey>) -> (res: Self)
        ensures
            res@ == (ChatServiceRequestView { version: version, model: model@, messages: messages@, output_token_limit: output_token_limit@, response_mode: response_mode, idempotency_key: optional_key(idempotency_key) }),
    {
        ChatServiceRequest { version, model, messages, output_token_limit, response_mode, idempotency_key }
    }

    /// Returns the request's `version`.
    pub fn version(&self) -> (res: ServiceContractVersion)
        ensures
            res == self@.version,
    {
        self.version
    }

    /// Returns the request's `model`.
    pub fn model(&self) -> (res: &ModelSelector)
        ensures
            res@ == self@.model,
    {
        &self.model
    }

    /// Returns the request's `messages`.
    pub fn messages(&self) -> (res: &ChatMessages)
        ensures
            res@ == self@.messages,
    {
        &self.messages
    }

    /// Returns the request's `output_token_limit`.
    pub fn output_token_limit(&self) -> (res: OutputTokenLimit)
        ensures
            res@ == self@.output_token_limit,
    {
        self.output_token_limit
    }

    /// Returns the request's `response_mode`.
    pub fn response_mode(&self) -> (res: ResponseMode)
        ensures
            res == self@.response_mode,
    {
        self.response_mode
    }

    /// Returns the optional idempotency key.
    pub fn idempotency_key(&self) -> (res: Option<&IdempotencyKey>)
        ensures
            optional_key_view(res) == self@.idempotency_key,
    {
        match &self.idempotency_key {
            Some(k) => Some(k),
            None => None,
        }
    }

}

/// A fully validated request for non-streaming embedding generation.
#[derive(PartialEq, Eq)]
pub struct EmbeddingServiceRequest {
    version: ServiceContractVersion,
    model: ModelSelector,
    inputs: EmbeddingInputs,
    idempotency_key: Option<IdempotencyKey>,
}

/// Abstract contents of a [`EmbeddingServiceRequest`].
pub struct EmbeddingServiceRequestView {
    /// The request's `version`.
    pub version: ServiceContractVersion,
    /// The request's `model`.
    pub model: Seq<char>,
    /// The request's `inputs`.
    pub inputs: Seq<Seq<char>>,
    /// The request's `idempotency_key`.
    pub idempotency_key: Option<Seq<char>>,
}

impl View for EmbeddingServiceRequest {
    type V = EmbeddingServiceRequestView;

    closed spec fn view(&self) -> EmbeddingServiceRequestView {
        EmbeddingServiceRequestView {
            version: self.version,
            model: self.model@,
            inputs: self.inputs@,
            idempotency_key: optional_key(self.idempotency_key),
        }
    }
}

impl EmbeddingServiceRequest {
    /// Creates an embedding request from validated, transport-neutral values.
    pub fn new(version: ServiceContractVersion, model: ModelSelector, inputs: EmbeddingInputs, idempotency_key: Option<IdempotencyKey>) -> (res: Self)
        ensures
            res@ == (EmbeddingServiceRequestView { version: version, model: model@, inputs: inputs@, idempotency_key: optional_key(idempotency_key) }),
    {
        EmbeddingServiceRequest { version, model, inputs, idempotency_key }
    }

    /// Returns the request's `version`.
    pub fn version(&self) -> (res: ServiceContractVersion)
        ensures
            res == self@.version,
    {
        self.version
    }

    /// Returns the request's `model`.
    pub fn model(&self) -> (res: &ModelSelector)
        ensures
            res@ == self@.model,
    {
        &self.model
    }

    /// Returns the request's `inputs`.
    pub fn inputs(&self) -> (res: &EmbeddingInputs)
        ensures
            res@ == self@.inputs,
    {
        &self.inputs
    }

    /// Returns the optional idempotency key.
    pub fn idempotency_key(&self) -> (res: Option<&IdempotencyKey>)
        ensures
            optional_key_view(res) == self@.idempotency_key,
    {
        match &self.idempotency_key {
            Some(k) => Some(k),
            None => None,
        }
    }

}

/// A fully validated request for complete-only image generation.
#[derive(PartialEq, Eq)]
pub struct ImageServiceRequest {
    version: ServiceContractVersion,
    model: ModelSelector,
    prompt: ImagePrompt,
    output_specification: ImageOutputSpecification,
    idempotency_key: Option<IdempotencyKey>,
}

/// Abstract contents of a [`ImageServiceRequest`].
pub struct ImageServiceRequestView {
    /// The request's `version`.
    pub version: ServiceContractVersion,
    /// The request's `model`.
    pub model: Seq<char>,
    /// The request's `prompt`.
    pub prompt: Seq<char>,
    /// The request's `output_specification`.
    pub output_specification: ImageOutputSpecificationView,
    /// The request's `idempotency_key`.
    pub idempotency_key: Option<Seq<char>>,
}

impl View for ImageServiceRequest {
    type V = ImageServiceRequestView;

    closed spec fn view(&self) -> ImageServiceRequestView {
        ImageServiceRequestView {
            version: self.version,
            model: self.model@,
            prompt: self.prompt@,
            output_specification: self.output_specification@,
            idempotency_key: optional_key(self.idempotency_key),
        }
    }
}

impl ImageServiceRequest {
    /// Creates an image request from validated, transport-neutral values.
    pub fn new(version: ServiceContractVersion, model: ModelSelector, prompt: ImagePrompt, output_specification: ImageOutputSpecification, idempotency_key: Option<IdempotencyKey>) -> (res: Self)
        ensures
            res@ == (ImageServiceRequestView { version: version, model: model@, prompt: prompt@, output_specification: output_specification@, idempotency_key: optional_key(idempotency_key) }),
    {
        ImageServiceRequest { version, model, prompt, output_specification, idempotency_key }
    }

    /// Returns the request's `version`.
    pub fn version(&self) -> (res: ServiceContractVersion)
        ensures
            res == self@.version,
    {
        self.version
    }

    /// Returns the request's `model`.
    pub fn model(&self) -> (res: &ModelSelector)
        ensures
            res@ == self@.model,
    {
        &self.model
    }

    /// Returns the request's `prompt`.
    pub fn prompt(&self) -> (res: &ImagePrompt)
        ensures
            res@ == self@.prompt,
    {
        &self.prompt
    }

    /// Returns the request's `output_specification`.
    pub fn output_specification(&self) -> (res: ImageOutputSpecification)
        ensures
            res@ == self@.output_specification,
    {
        self.output_specification
    }

    /// Returns the optional idempotency key.
    pub fn idempotency_key(&self) -> (res: Option<&IdempotencyKey>)
        ensures
            optional_key_view(res) == self@.idempotency_key,
    {
        match &self.idempotency_key {
            Some(k) => Some(k),
            None => None,
        }
    }

}

/// A transport-neutral service request accepted by the public service layer.
#[derive(PartialEq, Eq)]
#[non_exhaustive]
pub enum ServiceRequest {
    /// A bounded text generation request.
    Text(TextServiceRequest),
    /// A bounded role-preserving chat request.
    Chat(ChatServiceRequest),
    /// An ordered complete-only embedding request.
    Embedding(EmbeddingServiceRequest),
    /// A bounded complete-only image-generation request.
    Image(ImageServiceRequest),
}

} // verus!
