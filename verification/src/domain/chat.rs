//! Bounded, ordered chat messages independent of public protocol DTOs.

use vstd::prelude::*;

use crate::domain::checks::{check_nul_free_text, nul_free_text_check, same_outcome};
use crate::domain::error::{ApiDomainError, ApiDomainErrorCode, invalid_argument, limit_exceeded};
use crate::text::{utf8_byte_len, utf8_len};

verus! {

/// Maximum number of messages accepted by one chat request.
pub const MAX_CHAT_MESSAGES: usize = 128;

/// Maximum encoded UTF-8 bytes accepted in one chat message.
pub const MAX_CHAT_MESSAGE_CONTENT_BYTES: usize = 262_144;

/// Maximum aggregate encoded UTF-8 bytes accepted across chat messages.
pub const MAX_CHAT_MESSAGES_BYTES: usize = 1_048_576;

/// The semantic author of one ordered chat message.
#[derive(Clone, Copy, Debug, PartialEq, Eq, Structural, Hash)]
#[non_exhaustive]
pub enum ChatRole {
    /// An application-supplied instruction with priority over user messages.
    Developer,
    /// A system instruction retained for compatible provider mappings.
    System,
    /// End-user supplied content.
    User,
    /// Assistant content supplied as conversation history.
    Assistant,
}

/// Outcome of validating one chat message's content.
pub open spec fn chat_content_check(s: Seq<char>) -> Result<(), ApiDomainErrorCode> {
    nul_free_text_check(s, MAX_CHAT_MESSAGE_CONTENT_BYTES as nat, false)
}

/// Bounded chat message content whose diagnostics never expose the text.
#[derive(PartialEq, Eq)]
pub struct ChatMessageContent(String);

impl View for ChatMessageContent {
    type V = Seq<char>;

    closed spec fn view(&self) -> Seq<char> {
        self.0@
    }
}

impl Clone for ChatMessageContent {
    fn clone(&self) -> (res: Self)
        ensures
            res@ == self@,
    {
        proof {
            use_type_invariant(self);
        }
        ChatMessageContent(self.0.clone())
    }
}

impl ChatMessageContent {
    #[verifier::type_invariant]
    spec fn valid(self) -> bool {
        chat_content_check(self.0@) is Ok
    }

    /// Validates and copies one message's text: at most 262,144 NUL-free
    /// UTF-8 bytes, empty text allowed.
    pub fn new(value: &str) -> (res: Result<Self, ApiDomainError>)
        ensures
            same_outcome(res, chat_content_check(value@)),
            res matches Ok(c) ==> c@ == value@,
    {
        match check_nul_free_text(value, MAX_CHAT_MESSAGE_CONTENT_BYTES, false) {
            Ok(()) => Ok(ChatMessageContent(value.to_owned())),
            Err(e) => Err(e),
        }
    }

    /// Returns the validated text to a trusted service implementation.
    pub fn as_str(&self) -> (res: &str)
        ensures
            res@ == self@,
            chat_content_check(res@) is Ok,
    {
        proof {
            use_type_invariant(self);
        }
        self.0.as_str()
    }
}

/// One validated role and content pair in a chat request.
#[derive(PartialEq, Eq)]
pub struct ChatMessage {
    role: ChatRole,
    content: ChatMessageContent,
}

/// Abstract role and text of a [`ChatMessage`].
pub struct ChatMessageView {
    /// Author role.
    pub role: ChatRole,
    /// Message text.
    pub content: Seq<char>,
}

impl View for ChatMessage {
    type V = ChatMessageView;

    closed spec fn view(&self) -> ChatMessageView {
        ChatMessageView { role: self.role, content: self.content@ }
    }
}

impl Clone for ChatMessage {
    fn clone(&self) -> (res: Self)
        ensures
            res@ == self@,
    {
        ChatMessage { role: self.role, content: self.content.clone() }
    }
}

impl ChatMessage {
    /// Creates a message from an explicit role and validated content.
    pub fn new(role: ChatRole, content: ChatMessageContent) -> (res: Self)
        ensures
            res@ == (ChatMessageView { role, content: content@ }),
    {
        ChatMessage { role, content }
    }

    /// Returns the semantic author role.
    pub fn role(&self) -> (res: ChatRole)
        ensures
            res == self@.role,
    {
        self.role
    }

    /// Returns the validated message content.
    pub fn content(&self) -> (res: &ChatMessageContent)
        ensures
            res@ == self@.content,
    {
        &self.content
    }
}

/// Aggregate encoded bytes of the messages' contents.
pub open spec fn chat_messages_bytes(s: Seq<ChatMessageView>) -> nat
    decreases s.len(),
{
    if s.len() == 0 {
        0
    } else {
        chat_messages_bytes(s.drop_last()) + utf8_len(s.last().content)
    }
}

/// Outcome of validating an ordered chat history.
pub open spec fn chat_messages_check(s: Seq<ChatMessageView>) -> Result<(), ApiDomainErrorCode> {
    if s.len() == 0 {
        Err(ApiDomainErrorCode::InvalidArgument)
    } else if s.len() > MAX_CHAT_MESSAGES {
        Err(ApiDomainErrorCode::LimitExceeded)
    } else if chat_messages_bytes(s) > MAX_CHAT_MESSAGES_BYTES {
        Err(ApiDomainErrorCode::LimitExceeded)
    } else {
        Ok(())
    }
}

/// A nonempty, bounded, ordered chat history.
#[derive(PartialEq, Eq)]
pub struct ChatMessages {
    messages: Vec<ChatMessage>,
    encoded_bytes: usize,
}

impl View for ChatMessages {
    type V = Seq<ChatMessageView>;

    closed spec fn view(&self) -> Seq<ChatMessageView> {
        self.messages@.map_values(|m: ChatMessage| m@)
    }
}

impl ChatMessages {
    #[verifier::type_invariant]
    spec fn valid(self) -> bool {
        &&& chat_messages_check(self@) is Ok
        &&& self.encoded_bytes == chat_messages_bytes(self@)
    }

    /// Validates and owns one ordered chat history: 1 to 128 messages whose
    /// contents hold at most 1,048,576 bytes in all.
    pub fn new(messages: Vec<ChatMessage>) -> (res: Result<Self, ApiDomainError>)
        ensures
            same_outcome(res, chat_messages_check(messages@.map_values(|m: ChatMessage| m@))),
            res matches Ok(c) ==> c@ == messages@.map_values(|m: ChatMessage| m@),
    {
        if messages.len() == 0 {
            return Err(invalid_argument());
        }
        if messages.len() > MAX_CHAT_MESSAGES {
            return Err(limit_exceeded());
        }
        let ghost views = messages@.map_values(|m: ChatMessage| m@);
        let mut total: usize = 0;
        let mut i: usize = 0;
        while i < messages.len()
            invariant
                i <= messages@.len(),
                messages@.len() <= MAX_CHAT_MESSAGES,
                views == messages@.map_values(|m: ChatMessage| m@),
                total == chat_messages_bytes(views.take(i as int)),
                total <= i * MAX_CHAT_MESSAGE_CONTENT_BYTES,
            decreases messages@.len() - i,
        {
            let n = utf8_byte_len(messages[i].content().as_str());
            assert(views.take(i + 1).drop_last() =~= views.take(i as int));
            total = total + n;
            i = i + 1;
        }
        assert(views.take(messages@.len() as int) =~= views);
        if total > MAX_CHAT_MESSAGES_BYTES {
            return Err(limit_exceeded());
        }
        Ok(ChatMessages { messages, encoded_bytes: total })
    }

    /// Returns the ordered messages.
    pub fn as_slice(&self) -> (res: &[ChatMessage])
        ensures
            res@.map_values(|m: ChatMessage| m@) == self@,
    {
        self.messages.as_slice()
    }

    /// Returns the number of messages.
    pub fn len(&self) -> (res: usize)
        ensures
            res == self@.len(),
            1 <= res <= MAX_CHAT_MESSAGES,
    {
        proof {
            use_type_invariant(self);
        }
        self.messages.len()
    }

    /// Returns whether the history is empty; a validated history never is.
    pub fn is_empty(&self) -> (res: bool)
        ensures
            res == (self@.len() == 0),
            !res,
    {
        proof {
            use_type_invariant(self);
        }
        self.messages.len() == 0
    }

    /// Returns aggregate encoded UTF-8 content bytes.
    pub fn encoded_bytes(&self) -> (res: usize)
        ensures
            res == chat_messages_bytes(self@),
            res <= MAX_CHAT_MESSAGES_BYTES,
    {
        proof {
            use_type_invariant(self);
        }
        self.encoded_bytes
    }
}

} // verus!
