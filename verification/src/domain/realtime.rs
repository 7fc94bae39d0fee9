//! Bounded, runtime-neutral text-only Realtime session contracts.

use vstd::prelude::*;

use crate::domain::checks::{check_nul_free_text, check_opaque_text, nul_free_text_check, opaque_text_check, same_outcome};
use crate::domain::error::{ApiDomainError, ApiDomainErrorCode, conflict, invalid_argument, limit_exceeded};
use crate::domain::file::FileReference;
use crate::domain::request::{ModelSelector, OutputTokenLimit};
use crate::domain::stream::TextDelta;
use crate::text::{
    all_chars, char_is_ascii_alphanumeric, decimal_text, has_control, is_ascii_alphanumeric, lemma_u64_decimal_text, utf8_byte_len,
    utf8_len,
};
use vstd::utf8::{is_ascii_chars, is_ascii_chars_encode_utf8};

verus! {

/// Maximum Realtime session duration in seconds.
pub const MAX_REALTIME_SESSION_SECONDS: u64 = 3600;

/// Maximum conversation items accepted by one session.
pub const MAX_REALTIME_CONVERSATION_ITEMS: usize = 128;

/// Maximum aggregate UTF-8 bytes accepted as text input by one session.
pub const MAX_REALTIME_ACCEPTED_TEXT_BYTES: usize = 1_048_576;

/// Maximum encoded UTF-8 bytes in one inbound or outbound JSON text frame.
pub const MAX_REALTIME_FRAME_BYTES: usize = 262_144;

/// Maximum inbound events retained by one runtime session queue.
pub const MAX_REALTIME_INBOUND_QUEUE_EVENTS: usize = 16;

/// Maximum outbound events retained by one runtime session queue.
pub const MAX_REALTIME_OUTBOUND_QUEUE_EVENTS: usize = 16;

/// Maximum UTF-8 bytes in a client correlation identifier.
pub const MAX_REALTIME_CLIENT_EVENT_ID_BYTES: usize = 512;

/// Maximum UTF-8 bytes in a runtime-generated session or response identifier.
pub const MAX_REALTIME_RUNTIME_ID_BYTES: usize = 256;

/// Maximum content parts in one accepted conversation item.
pub const MAX_REALTIME_CONTENT_PARTS: usize = 128;

/// Outcome of validating a client correlation value.
pub open spec fn client_event_id_check(s: Seq<char>) -> Result<(), ApiDomainErrorCode> {
    opaque_text_check(s, MAX_REALTIME_CLIENT_EVENT_ID_BYTES as nat)
}

/// An opaque bounded client event correlation value.
#[derive(PartialEq, Eq, Hash)]
pub struct RealtimeClientEventId(String);

impl View for RealtimeClientEventId {
    type V = Seq<char>;

    closed spec fn view(&self) -> Seq<char> {
        self.0@
    }
}

impl Clone for RealtimeClientEventId {
    fn clone(&self) -> (res: Self)
        ensures
            res@ == self@,
    {
        proof {
            use_type_invariant(self);
        }
        RealtimeClientEventId(self.0.clone())
    }
}

impl RealtimeClientEventId {
    #[verifier::type_invariant]
    spec fn valid(self) -> bool {
        client_event_id_check(self.0@) is Ok
    }

    /// Validates a non-empty, control-free value of at most 512 UTF-8 bytes.
    pub fn new(value: &str) -> (res: Result<Self, ApiDomainError>)
        ensures
            same_outcome(res, client_event_id_check(value@)),
            res matches Ok(i) ==> i@ == value@,
    {
        check_opaque_text(value, MAX_REALTIME_CLIENT_EVENT_ID_BYTES)?;
        Ok(RealtimeClientEventId(value.to_owned()))
    }

    /// Returns the opaque correlation value for the protocol error envelope.
    pub fn as_str(&self) -> (res: &str)
        ensures
            res@ == self@,
            client_event_id_check(res@) is Ok,
    {
        proof {
            use_type_invariant(self);
        }
        self.0.as_str()
    }
}

/// Characters of runtime identifiers: ASCII letters, digits, `-`, `_`, `.`, `:`.
pub open spec fn is_runtime_id_char(c: char) -> bool {
    is_ascii_alphanumeric(c) || c == '-' || c == '_' || c == '.' || c == ':'
}

/// Outcome of validating a runtime-issued identifier.
pub open spec fn runtime_id_check(s: Seq<char>) -> Result<(), ApiDomainErrorCode> {
    if opaque_text_check(s, MAX_REALTIME_RUNTIME_ID_BYTES as nat) is Err {
        opaque_text_check(s, MAX_REALTIME_RUNTIME_ID_BYTES as nat)
    } else if !all_chars(s, |c: char| is_runtime_id_char(c)) {
        Err(ApiDomainErrorCode::InvalidArgument)
    } else {
        Ok(())
    }
}

/// An identifier made of a prefix of identifier characters followed by the
/// decimal text of a 64-bit counter value, short enough with twenty digits,
/// passes runtime identifier validation.
pub proof fn lemma_counter_runtime_id(prefix: Seq<char>, n: u64)
    requires
        prefix.len() + 20 <= MAX_REALTIME_RUNTIME_ID_BYTES,
        forall|i: int| 0 <= i < prefix.len() ==> is_runtime_id_char(#[trigger] prefix[i]),
    ensures
        runtime_id_check(prefix + decimal_text(n as nat)) is Ok,
{
    lemma_u64_decimal_text(n);
    let d = decimal_text(n as nat);
    let s = prefix + d;
    assert forall|i: int| 0 <= i < s.len() implies is_runtime_id_char(#[trigger] s[i]) by {
        if i >= prefix.len() {
            assert(s[i] == d[i - prefix.len()]);
        }
    }
    assert(is_ascii_chars(s));
    is_ascii_chars_encode_utf8(s);
    assert(!has_control(s));
    assert(all_chars(s, |c: char| is_runtime_id_char(c)));
}

/// Validates an opaque runtime identifier.
pub fn validate_runtime_id(value: &str) -> (res: Result<(), ApiDomainError>)
    ensures
        same_outcome(res, runtime_id_check(value@)),
{
    check_opaque_text(value, MAX_REALTIME_RUNTIME_ID_BYTES)?;
    let mut ok = true;
    for c in it: value.chars()
        invariant
            it.seq() == value@,
            ok == (forall|j: int| 0 <= j < it.index() ==> is_runtime_id_char(#[trigger] value@[j])),
    {
        if !(char_is_ascii_alphanumeric(c) || c == '-' || c == '_' || c == '.' || c == ':') {
            ok = false;
        }
    }
    if !ok {
        return Err(invalid_argument());
    }
    Ok(())
}

/// A runtime-issued opaque Realtime session identifier.
#[derive(PartialEq, Eq, Hash)]
pub struct RealtimeSessionId(String);

impl View for RealtimeSessionId {
    type V = Seq<char>;

    closed spec fn view(&self) -> Seq<char> {
        self.0@
    }
}

impl Clone for RealtimeSessionId {
    fn clone(&self) -> (res: Self)
        ensures
            res@ == self@,
    {
        proof {
            use_type_invariant(self);
        }
        RealtimeSessionId(self.0.clone())
    }
}

impl RealtimeSessionId {
    #[verifier::type_invariant]
    spec fn valid(self) -> bool {
        runtime_id_check(self.0@) is Ok
    }

    /// Validates an opaque runtime session identifier.
    pub fn new(value: &str) -> (res: Result<Self, ApiDomainError>)
        ensures
            same_outcome(res, runtime_id_check(value@)),
            res matches Ok(i) ==> i@ == value@,
    {
        validate_runtime_id(value)?;
        Ok(RealtimeSessionId(value.to_owned()))
    }

    /// Returns the runtime identifier only to a trusted session adapter.
    pub fn as_str(&self) -> (res: &str)
        ensures
            res@ == self@,
            runtime_id_check(res@) is Ok,
    {
        proof {
            use_type_invariant(self);
        }
        self.0.as_str()
    }

    /// Reports whether two identifiers are equal.
    pub fn same_id(&self, other: &RealtimeSessionId) -> (res: bool)
        ensures
            res == (self@ == other@),
    {
        self.0 == other.0
    }
}

/// A runtime-issued opaque Realtime response identifier.
#[derive(PartialEq, Eq, Hash)]
pub struct RealtimeResponseId(String);

impl View for RealtimeResponseId {
    type V = Seq<char>;

    closed spec fn view(&self) -> Seq<char> {
        self.0@
    }
}

impl Clone for RealtimeResponseId {
    fn clone(&self) -> (res: Self)
        ensures
            res@ == self@,
    {
        proof {
            use_type_invariant(self);
        }
        RealtimeResponseId(self.0.clone())
    }
}

impl RealtimeResponseId {
    #[verifier::type_invariant]
    spec fn valid(self) -> bool {
        runtime_id_check(self.0@) is Ok
    }

    /// Validates an opaque runtime response identifier.
    pub fn new(value: &str) -> (res: Result<Self, ApiDomainError>)
        ensures
            same_outcome(res, runtime_id_check(value@)),
            res matches Ok(i) ==> i@ == value@,
    {
        validate_runtime_id(value)?;
        Ok(RealtimeResponseId(value.to_owned()))
    }

    /// Returns the runtime identifier only to a trusted session adapter.
    pub fn as_str(&self) -> (res: &str)
        ensures
            res@ == self@,
            runtime_id_check(res@) is Ok,
    {
        proof {
            use_type_invariant(self);
        }
        self.0.as_str()
    }

    /// Reports whether two identifiers are equal.
    pub fn same_id(&self, other: &RealtimeResponseId) -> (res: bool)
        ensures
            res == (self@ == other@),
    {
        self.0 == other.0
    }
}

/// A checked session lifetime in seconds.
#[derive(Clone, Copy, Debug, PartialEq, Eq, Structural, Hash)]
pub struct RealtimeSessionLifetime(u64);

impl View for RealtimeSessionLifetime {
    type V = nat;

    closed spec fn view(&self) -> nat {
        self.0 as nat
    }
}

impl RealtimeSessionLifetime {
    #[verifier::type_invariant]
    spec fn valid(self) -> bool {
        1 <= self.0 <= MAX_REALTIME_SESSION_SECONDS
    }

    /// Validates a positive lifetime no greater than 60 minutes.
    pub fn new(seconds: u64) -> (res: Result<Self, ApiDomainError>)
        ensures
            res is Ok <==> 1 <= seconds <= MAX_REALTIME_SESSION_SECONDS,
            res matches Ok(l) ==> l@ == seconds,
            res matches Err(e) ==> e.code == (if seconds > MAX_REALTIME_SESSION_SECONDS {
                ApiDomainErrorCode::LimitExceeded
            } else {
                ApiDomainErrorCode::InvalidArgument
            }),
    {
        if seconds > MAX_REALTIME_SESSION_SECONDS {
            return Err(limit_exceeded());
        }
        if seconds == 0 {
            return Err(invalid_argument());
        }
        Ok(RealtimeSessionLifetime(seconds))
    }

    /// Returns the exact session lifetime in seconds.
    pub fn seconds(self) -> (res: u64)
        ensures
            res == self@,
            1 <= res <= MAX_REALTIME_SESSION_SECONDS,
    {
        proof {
            use_type_invariant(&self);
        }
        self.0
    }
}

/// Outcome of validating text that must fit in one frame.
pub open spec fn frame_text_check(s: Seq<char>) -> Result<(), ApiDomainErrorCode> {
    nul_free_text_check(s, MAX_REALTIME_FRAME_BYTES as nat, true)
}

/// A bounded text payload accepted as one Realtime input content part.
#[derive(PartialEq, Eq)]
pub struct RealtimeInputText(String);

impl View for RealtimeInputText {
    type V = Seq<char>;

    closed spec fn view(&self) -> Seq<char> {
        self.0@
    }
}

impl Clone for RealtimeInputText {
    fn clone(&self) -> (res: Self)
        ensures
            res@ == self@,
    {
        proof {
            use_type_invariant(self);
        }
        RealtimeInputText(self.0.clone())
    }
}

impl RealtimeInputText {
    #[verifier::type_invariant]
    spec fn valid(self) -> bool {
        frame_text_check(self.0@) is Ok
    }

    /// Validates non-empty, NUL-free text that fits in one JSON frame.
    pub fn new(value: &str) -> (res: Result<Self, ApiDomainError>)
        ensures
            same_outcome(res, frame_text_check(value@)),
            res matches Ok(t) ==> t@ == value@,
    {
        check_nul_free_text(value, MAX_REALTIME_FRAME_BYTES, true)?;
        Ok(RealtimeInputText(value.to_owned()))
    }

    /// Returns validated text to a trusted session runtime.
    pub fn as_str(&self) -> (res: &str)
        ensures
            res@ == self@,
            frame_text_check(res@) is Ok,
    {
        proof {
            use_type_invariant(self);
        }
        self.0.as_str()
    }

    /// Returns the UTF-8 byte length counted against the session input budget.
    pub fn encoded_bytes(&self) -> (res: usize)
        ensures
            res == utf8_len(self@),
            res <= MAX_REALTIME_FRAME_BYTES,
    {
        proof {
            use_type_invariant(self);
        }
        utf8_byte_len(self.0.as_str())
    }
}

/// A bounded JSON text frame retained only while an adapter applies backpressure.
#[derive(PartialEq, Eq)]
pub struct RealtimeTextFrame(String);

impl View for RealtimeTextFrame {
    type V = Seq<char>;

    closed spec fn view(&self) -> Seq<char> {
        self.0@
    }
}

impl Clone for RealtimeTextFrame {
    fn clone(&self) -> (res: Self)
        ensures
            res@ == self@,
    {
        proof {
            use_type_invariant(self);
        }
        RealtimeTextFrame(self.0.clone())
    }
}

impl RealtimeTextFrame {
    #[verifier::type_invariant]
    spec fn valid(self) -> bool {
        frame_text_check(self.0@) is Ok
    }

    /// Validates one non-empty, NUL-free JSON text frame within 256 KiB.
    pub fn new(value: &str) -> (res: Result<Self, ApiDomainError>)
        ensures
            same_outcome(res, frame_text_check(value@)),
            res matches Ok(t) ==> t@ == value@,
    {
        check_nul_free_text(value, MAX_REALTIME_FRAME_BYTES, true)?;
        Ok(RealtimeTextFrame(value.to_owned()))
    }

    /// Returns the bounded frame text to a trusted WebSocket adapter.
    pub fn as_str(&self) -> (res: &str)
        ensures
            res@ == self@,
            frame_text_check(res@) is Ok,
    {
        proof {
            use_type_invariant(self);
        }
        self.0.as_str()
    }
}

/// One input part accepted by the text-only Realtime subset.
#[derive(Clone, PartialEq, Eq)]
pub enum RealtimeInputContent {
    /// Text supplied directly in the bounded session frame.
    Text(RealtimeInputText),
    /// An already authorized internal file reference without byte, path, or URL data.
    File(FileReference),
}

/// Text bytes a content part counts against the session budget.
pub open spec fn content_text_bytes(c: RealtimeInputContent) -> nat {
    match c {
        RealtimeInputContent::Text(t) => utf8_len(t@),
        RealtimeInputContent::File(_) => 0,
    }
}

impl RealtimeInputContent {
    /// Creates a text input part.
    pub fn text(value: RealtimeInputText) -> (res: Self)
        ensures
            res == RealtimeInputContent::Text(value),
    {
        RealtimeInputContent::Text(value)
    }

    /// Creates an internal-reference file input part.
    pub fn file(value: FileReference) -> (res: Self)
        ensures
            res == RealtimeInputContent::File(value),
    {
        RealtimeInputContent::File(value)
    }

    /// Returns the text bytes this part counts against the session budget.
    pub fn text_bytes(&self) -> (res: usize)
        ensures
            res == content_text_bytes(*self),
            res <= MAX_REALTIME_FRAME_BYTES,
    {
        match self {
            RealtimeInputContent::Text(value) => value.encoded_bytes(),
            RealtimeInputContent::File(_) => 0,
        }
    }
}

/// Aggregate text bytes of a sequence of content parts.
pub open spec fn content_parts_bytes(s: Seq<RealtimeInputContent>) -> nat
    decreases s.len(),
{
    if s.len() == 0 {
        0
    } else {
        content_parts_bytes(s.drop_last()) + content_text_bytes(s.last())
    }
}

/// Outcome of validating a conversation item's content parts.
pub open spec fn conversation_item_check(s: Seq<RealtimeInputContent>) -> Result<(), ApiDomainErrorCode> {
    if s.len() == 0 {
        Err(ApiDomainErrorCode::InvalidArgument)
    } else if s.len() > MAX_REALTIME_CONTENT_PARTS {
        Err(ApiDomainErrorCode::LimitExceeded)
    } else if content_parts_bytes(s) > MAX_REALTIME_FRAME_BYTES {
        Err(ApiDomainErrorCode::LimitExceeded)
    } else {
        Ok(())
    }
}

/// One user conversation message accepted by the initial Realtime subset.
#[derive(PartialEq, Eq)]
pub struct RealtimeConversationItem {
    content: Vec<RealtimeInputContent>,
    text_bytes: usize,
}

impl View for RealtimeConversationItem {
    type V = Seq<RealtimeInputContent>;

    closed spec fn view(&self) -> Seq<RealtimeInputContent> {
        self.content@
    }
}

impl RealtimeConversationItem {
    #[verifier::type_invariant]
    spec fn valid(self) -> bool {
        &&& conversation_item_check(self.content@) is Ok
        &&& self.text_bytes == content_parts_bytes(self.content@)
    }

    /// Validates 1 to 128 text and internal-file parts holding at most one
    /// frame of text in all.
    pub fn new(content: Vec<RealtimeInputContent>) -> (res: Result<Self, ApiDomainError>)
        ensures
            same_outcome(res, conversation_item_check(content@)),
            res matches Ok(i) ==> i@ == content@,
    {
        if content.len() == 0 {
            return Err(invalid_argument());
        }
        if content.len() > MAX_REALTIME_CONTENT_PARTS {
            return Err(limit_exceeded());
        }
        let mut total: usize = 0;
        let mut i: usize = 0;
        while i < content.len()
            invariant
                i <= content@.len(),
                content@.len() <= MAX_REALTIME_CONTENT_PARTS,
                total == content_parts_bytes(content@.take(i as int)),
                total <= i * MAX_REALTIME_FRAME_BYTES,
            decreases content@.len() - i,
        {
            let n = content[i].text_bytes();
            assert(content@.take(i + 1).drop_last() =~= content@.take(i as int));
            total = total + n;
            i = i + 1;
        }
        assert(content@.take(content@.len() as int) =~= content@);
        if total > MAX_REALTIME_FRAME_BYTES {
            return Err(limit_exceeded());
        }
        Ok(RealtimeConversationItem { content, text_bytes: total })
    }

    /// Returns accepted text and internal file-reference parts in source order.
    pub fn content(&self) -> (res: &[RealtimeInputContent])
        ensures
            res@ == self@,
    {
        self.content.as_slice()
    }

    /// Returns input text bytes counted against the session aggregate limit.
    pub fn text_bytes(&self) -> (res: usize)
        ensures
            res == content_parts_bytes(self@),
            res <= MAX_REALTIME_FRAME_BYTES,
    {
        proof {
            use_type_invariant(self);
        }
        self.text_bytes
    }
}


/// The fixed text-only session update accepted by this subset.
#[derive(Clone, Copy, Debug, Default, PartialEq, Eq, Structural, Hash)]
pub struct RealtimeSessionUpdate;

impl RealtimeSessionUpdate {
    /// Creates the only accepted session update: realtime type and text output.
    pub fn text_only() -> (res: Self)
        ensures
            res == RealtimeSessionUpdate,
    {
        RealtimeSessionUpdate
    }
}

/// A request to create one response using the session output budget when omitted.
#[derive(Clone, Copy, Debug, PartialEq, Eq, Structural, Hash)]
pub struct RealtimeResponseCreate {
    output_token_limit: Option<OutputTokenLimit>,
}

impl View for RealtimeResponseCreate {
    type V = Option<OutputTokenLimit>;

    closed spec fn view(&self) -> Option<OutputTokenLimit> {
        self.output_token_limit
    }
}

impl RealtimeResponseCreate {
    /// Creates a text-only response request; an absent limit selects the
    /// session default captured when the session was opened.
    pub fn new(output_token_limit: Option<OutputTokenLimit>) -> (res: Self)
        ensures
            res@ == output_token_limit,
    {
        RealtimeResponseCreate { output_token_limit }
    }

    /// Returns the optional request-specific output budget.
    pub fn output_token_limit(&self) -> (res: Option<OutputTokenLimit>)
        ensures
            res == self@,
    {
        self.output_token_limit
    }
}

/// Identifier text of an optional response identifier.
pub open spec fn optional_response_view(r: Option<RealtimeResponseId>) -> Option<Seq<char>> {
    match r {
        Some(id) => Some(id@),
        None => None,
    }
}

/// Identifier text of an optional borrowed response identifier.
pub open spec fn optional_response_ref_view(r: Option<&RealtimeResponseId>) -> Option<Seq<char>> {
    match r {
        Some(id) => Some(id@),
        None => None,
    }
}

/// A cancellation request for the sole active response.
#[derive(PartialEq, Eq)]
pub struct RealtimeResponseCancel {
    response_id: Option<RealtimeResponseId>,
}

impl View for RealtimeResponseCancel {
    type V = Option<Seq<char>>;

    closed spec fn view(&self) -> Option<Seq<char>> {
        optional_response_view(self.response_id)
    }
}

impl Clone for RealtimeResponseCancel {
    fn clone(&self) -> (res: Self)
        ensures
            res@ == self@,
    {
        let response_id = match &self.response_id {
            Some(id) => Some(id.clone()),
            None => None,
        };
        RealtimeResponseCancel { response_id }
    }
}

impl RealtimeResponseCancel {
    /// Creates a cancellation request with an optional active-response target.
    pub fn new(response_id: Option<RealtimeResponseId>) -> (res: Self)
        ensures
            res@ == optional_response_view(response_id),
    {
        RealtimeResponseCancel { response_id }
    }

    /// Returns the optional explicit active-response target.
    pub fn response_id(&self) -> (res: Option<&RealtimeResponseId>)
        ensures
            optional_response_ref_view(res) == self@,
    {
        match &self.response_id {
            Some(id) => Some(id),
            None => None,
        }
    }
}

/// One accepted client operation after strict protocol decoding.
#[derive(PartialEq, Eq)]
pub enum RealtimeClientEvent {
    /// Confirms the fixed realtime/text session shape.
    SessionUpdate(RealtimeSessionUpdate),
    /// Adds one user conversation item with text or internal file references.
    ConversationItemCreate(RealtimeConversationItem),
    /// Starts the sole active text response.
    ResponseCreate(RealtimeResponseCreate),
    /// Cancels the sole active response.
    ResponseCancel(RealtimeResponseCancel),
}

/// Correlation text of an optional client event identifier.
pub open spec fn optional_client_id_view(r: Option<RealtimeClientEventId>) -> Option<Seq<char>> {
    match r {
        Some(id) => Some(id@),
        None => None,
    }
}

/// Correlation text of an optional borrowed client event identifier.
pub open spec fn optional_client_id_ref_view(r: Option<&RealtimeClientEventId>) -> Option<Seq<char>> {
    match r {
        Some(id) => Some(id@),
        None => None,
    }
}

/// One bounded decoded inbound event and its original bounded frame.
#[derive(PartialEq, Eq)]
pub struct RealtimeInboundEvent {
    correlation_id: Option<RealtimeClientEventId>,
    event: RealtimeClientEvent,
    frame: RealtimeTextFrame,
}

/// Abstract contents of a [`RealtimeInboundEvent`].
pub struct RealtimeInboundEventView {
    /// Optional client correlation text.
    pub correlation_id: Option<Seq<char>>,
    /// The decoded accepted event.
    pub event: RealtimeClientEvent,
    /// The original frame text.
    pub frame: Seq<char>,
}

impl View for RealtimeInboundEvent {
    type V = RealtimeInboundEventView;

    closed spec fn view(&self) -> RealtimeInboundEventView {
        RealtimeInboundEventView {
            correlation_id: optional_client_id_view(self.correlation_id),
            event: self.event,
            frame: self.frame@,
        }
    }
}

impl RealtimeInboundEvent {
    /// Owns a decoded event and its exact bounded JSON frame evidence.
    pub fn new(
        correlation_id: Option<RealtimeClientEventId>,
        event: RealtimeClientEvent,
        frame: RealtimeTextFrame,
    ) -> (res: Self)
        ensures
            res@ == (RealtimeInboundEventView {
                correlation_id: optional_client_id_view(correlation_id),
                event,
                frame: frame@,
            }),
    {
        RealtimeInboundEvent { correlation_id, event, frame }
    }

    /// Returns the optional client correlation ID.
    pub fn correlation_id(&self) -> (res: Option<&RealtimeClientEventId>)
        ensures
            optional_client_id_ref_view(res) == self@.correlation_id,
    {
        match &self.correlation_id {
            Some(id) => Some(id),
            None => None,
        }
    }

    /// Returns the decoded accepted event.
    pub fn event(&self) -> (res: &RealtimeClientEvent)
        ensures
            *res == self@.event,
    {
        &self.event
    }

    /// Returns the bounded original JSON frame.
    pub fn frame(&self) -> (res: &RealtimeTextFrame)
        ensures
            res@ == self@.frame,
    {
        &self.frame
    }
}

/// A snapshot of immutable Realtime session settings.
#[derive(PartialEq, Eq)]
pub struct RealtimeSessionOpenRequest {
    model: ModelSelector,
    lifetime: RealtimeSessionLifetime,
    default_output_token_limit: OutputTokenLimit,
}

/// Abstract contents of a [`RealtimeSessionOpenRequest`].
pub struct RealtimeSessionOpenRequestView {
    /// Model selector text.
    pub model: Seq<char>,
    /// Checked maximum session lifetime.
    pub lifetime: RealtimeSessionLifetime,
    /// Output budget used when a response request names none.
    pub default_output_token_limit: OutputTokenLimit,
}

impl View for RealtimeSessionOpenRequest {
    type V = RealtimeSessionOpenRequestView;

    closed spec fn view(&self) -> RealtimeSessionOpenRequestView {
        RealtimeSessionOpenRequestView {
            model: self.model@,
            lifetime: self.lifetime,
            default_output_token_limit: self.default_output_token_limit,
        }
    }
}

impl Clone for RealtimeSessionOpenRequest {
    fn clone(&self) -> (res: Self)
        ensures
            res@ == self@,
    {
        RealtimeSessionOpenRequest {
            model: self.model.clone(),
            lifetime: self.lifetime,
            default_output_token_limit: self.default_output_token_limit,
        }
    }
}

impl RealtimeSessionOpenRequest {
    /// Creates an immutable text-only session configuration; queue capacities
    /// are fixed to the published bounded constants.
    pub fn new(
        model: ModelSelector,
        lifetime: RealtimeSessionLifetime,
        default_output_token_limit: OutputTokenLimit,
    ) -> (res: Self)
        ensures
            res@ == (RealtimeSessionOpenRequestView {
                model: model@,
                lifetime,
                default_output_token_limit,
            }),
    {
        RealtimeSessionOpenRequest { model, lifetime, default_output_token_limit }
    }

    /// Returns the immutable model selector.
    pub fn model(&self) -> (res: &ModelSelector)
        ensures
            res@ == self@.model,
    {
        &self.model
    }

    /// Returns the checked maximum session lifetime.
    pub fn lifetime(&self) -> (res: RealtimeSessionLifetime)
        ensures
            res == self@.lifetime,
    {
        self.lifetime
    }

    /// Returns the typed default output budget.
    pub fn default_output_token_limit(&self) -> (res: OutputTokenLimit)
        ensures
            res == self@.default_output_token_limit,
    {
        self.default_output_token_limit
    }

    /// Returns the fixed inbound queue capacity.
    pub fn inbound_queue_limit(&self) -> (res: usize)
        ensures
            res == MAX_REALTIME_INBOUND_QUEUE_EVENTS,
    {
        MAX_REALTIME_INBOUND_QUEUE_EVENTS
    }

    /// Returns the fixed outbound queue capacity.
    pub fn outbound_queue_limit(&self) -> (res: usize)
        ensures
            res == MAX_REALTIME_OUTBOUND_QUEUE_EVENTS,
    {
        MAX_REALTIME_OUTBOUND_QUEUE_EVENTS
    }
}

/// One runtime-created Realtime session descriptor.
#[derive(PartialEq, Eq)]
pub struct RealtimeSessionDescriptor {
    id: RealtimeSessionId,
    request: RealtimeSessionOpenRequest,
}

/// Abstract contents of a [`RealtimeSessionDescriptor`].
pub struct RealtimeSessionDescriptorView {
    /// Runtime-issued session identifier text.
    pub id: Seq<char>,
    /// Immutable open settings.
    pub request: RealtimeSessionOpenRequestView,
}

impl View for RealtimeSessionDescriptor {
    type V = RealtimeSessionDescriptorView;

    closed spec fn view(&self) -> RealtimeSessionDescriptorView {
        RealtimeSessionDescriptorView { id: self.id@, request: self.request@ }
    }
}

impl Clone for RealtimeSessionDescriptor {
    fn clone(&self) -> (res: Self)
        ensures
            res@ == self@,
    {
        RealtimeSessionDescriptor { id: self.id.clone(), request: self.request.clone() }
    }
}

impl RealtimeSessionDescriptor {
    /// Binds a runtime-issued session ID to immutable open settings.
    pub fn new(id: RealtimeSessionId, request: RealtimeSessionOpenRequest) -> (res: Self)
        ensures
            res@ == (RealtimeSessionDescriptorView { id: id@, request: request@ }),
    {
        RealtimeSessionDescriptor { id, request }
    }

    /// Returns the runtime-issued session identifier.
    pub fn id(&self) -> (res: &RealtimeSessionId)
        ensures
            res@ == self@.id,
    {
        &self.id
    }

    /// Returns the immutable open request.
    pub fn request(&self) -> (res: &RealtimeSessionOpenRequest)
        ensures
            res@ == self@.request,
    {
        &self.request
    }
}

/// A reason that deterministically closes a Realtime session.
#[derive(Clone, Copy, Debug, PartialEq, Eq, Structural, Hash)]
pub enum RealtimeSessionCloseReason {
    /// The maximum session lifetime elapsed.
    Expired,
    /// The caller cancelled the session context.
    Cancelled,
    /// The peer violated ordered protocol lifecycle invariants.
    ProtocolDesynchronized,
    /// The required session capability became unavailable.
    Unavailable,
    /// An unrecoverable redacted internal failure occurred.
    Internal,
}

/// A terminal reason for the sole active Realtime response, which can also
/// end through its explicit cancellation operation.
#[derive(Clone, Copy, Debug, PartialEq, Eq, Structural, Hash)]
pub enum RealtimeResponseFinishReason {
    /// Generation reached its natural completion point.
    Completed,
    /// Generation reached the configured output token limit.
    OutputLimitReached,
    /// A safety policy stopped generation before ordinary completion.
    ContentFiltered,
    /// The active response was terminated through `response.cancel`.
    Cancelled,
}

/// One allowed outbound event from the text-only session lifecycle.
#[derive(PartialEq, Eq)]
pub enum RealtimeServerEvent {
    /// The required first event for a successfully opened session.
    SessionCreated(RealtimeSessionDescriptor),
    /// Confirms the fixed text-only session settings.
    SessionUpdated,
    /// Announces a newly active response.
    ResponseCreated(RealtimeResponseId),
    /// Announces the assistant output item.
    ResponseOutputItemAdded(RealtimeResponseId),
    /// Announces the text content part.
    ResponseContentPartAdded(RealtimeResponseId),
    /// Carries one bounded text delta.
    ResponseOutputTextDelta {
        /// Active response receiving this delta.
        response_id: RealtimeResponseId,
        /// Bounded text output.
        delta: TextDelta,
    },
    /// Ends text output for the active response.
    ResponseOutputTextDone(RealtimeResponseId),
    /// Ends the content part for the active response.
    ResponseContentPartDone(RealtimeResponseId),
    /// Ends the output item for the active response.
    ResponseOutputItemDone(RealtimeResponseId),
    /// Completes or cancels the active response.
    ResponseDone {
        /// Completed response identifier.
        response_id: RealtimeResponseId,
        /// Realtime-specific terminal reason, including explicit cancellation.
        finish_reason: RealtimeResponseFinishReason,
    },
    /// Reports authoritative rate-limit evidence without account credentials.
    RateLimitsUpdated,
    /// Reports one correlated redacted protocol failure while the session remains usable.
    Error {
        /// Client event correlation when the failure is attributable to one event.
        correlation_id: Option<RealtimeClientEventId>,
        /// Stable redacted failure classification.
        error: ApiDomainError,
    },
}

/// A bounded outbound event paired with the exact WebSocket text frame.
#[derive(PartialEq, Eq)]
pub struct RealtimeOutboundEvent {
    event: RealtimeServerEvent,
    frame: RealtimeTextFrame,
}

/// Abstract contents of a [`RealtimeOutboundEvent`].
pub struct RealtimeOutboundEventView {
    /// The semantic server event.
    pub event: RealtimeServerEvent,
    /// The encoded frame text.
    pub frame: Seq<char>,
}

impl View for RealtimeOutboundEvent {
    type V = RealtimeOutboundEventView;

    closed spec fn view(&self) -> RealtimeOutboundEventView {
        RealtimeOutboundEventView { event: self.event, frame: self.frame@ }
    }
}

impl RealtimeOutboundEvent {
    /// Owns an outbound event and its bounded encoded text frame.
    pub fn new(event: RealtimeServerEvent, frame: RealtimeTextFrame) -> (res: Self)
        ensures
            res@ == (RealtimeOutboundEventView { event, frame: frame@ }),
    {
        RealtimeOutboundEvent { event, frame }
    }

    /// Returns the semantic server event.
    pub fn event(&self) -> (res: &RealtimeServerEvent)
        ensures
            *res == self@.event,
    {
        &self.event
    }

    /// Returns the bounded encoded text frame.
    pub fn frame(&self) -> (res: &RealtimeTextFrame)
        ensures
            res@ == self@.frame,
    {
        &self.frame
    }
}

} // verus!
