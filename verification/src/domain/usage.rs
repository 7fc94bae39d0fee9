//! Checked provider-neutral token usage values.

use vstd::prelude::*;

use crate::domain::error::{ApiDomainError, ApiDomainErrorCode, limit_exceeded};

verus! {

/// Checked input, output, and total token counts for one service result.
#[derive(Clone, Copy, Debug, PartialEq, Eq, Structural, Hash)]
pub struct TokenUsage {
    input_tokens: u64,
    output_tokens: u64,
    total_tokens: u64,
}

/// Abstract token counts of a [`TokenUsage`].
pub struct TokenUsageView {
    /// Tokens consumed from service input.
    pub input_tokens: nat,
    /// Tokens generated in service output.
    pub output_tokens: nat,
    /// Checked sum of both counts.
    pub total_tokens: nat,
}

impl View for TokenUsage {
    type V = TokenUsageView;

    closed spec fn view(&self) -> TokenUsageView {
        TokenUsageView {
            input_tokens: self.input_tokens as nat,
            output_tokens: self.output_tokens as nat,
            total_tokens: self.total_tokens as nat,
        }
    }
}

impl TokenUsage {
    #[verifier::type_invariant]
    spec fn total_is_sum(self) -> bool {
        self.total_tokens == self.input_tokens + self.output_tokens
    }

    /// Builds usage from input and output counts with a checked total.
    ///
    /// Fails with `LimitExceeded` exactly when the sum does not fit in `u64`.
    pub fn new(input_tokens: u64, output_tokens: u64) -> (res: Result<Self, ApiDomainError>)
        ensures
            res is Ok <==> input_tokens + output_tokens <= u64::MAX,
            res matches Ok(u) ==> u@.input_tokens == input_tokens && u@.output_tokens
                == output_tokens && u@.total_tokens == input_tokens + output_tokens,
            res matches Err(e) ==> e.code == ApiDomainErrorCode::LimitExceeded,
    {
        match input_tokens.checked_add(output_tokens) {
            Some(total_tokens) => Ok(TokenUsage { input_tokens, output_tokens, total_tokens }),
            None => Err(limit_exceeded()),
        }
    }

    /// Returns tokens consumed from service input.
    pub fn input_tokens(self) -> (res: u64)
        ensures
            res == self@.input_tokens,
    {
        self.input_tokens
    }

    /// Returns tokens generated in service output.
    pub fn output_tokens(self) -> (res: u64)
        ensures
            res == self@.output_tokens,
    {
        self.output_tokens
    }

    /// Returns the checked sum of input and output tokens.
    pub fn total_tokens(self) -> (res: u64)
        ensures
            res == self@.total_tokens,
            res == self@.input_tokens + self@.output_tokens,
    {
        proof {
            use_type_invariant(&self);
        }
        self.total_tokens
    }
}

} // verus!
