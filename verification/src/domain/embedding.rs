//! Bounded, provider-neutral embedding inputs and the shape rules of embedding vectors.

use vstd::prelude::*;

use crate::domain::checks::{check_nul_free_text, nul_free_text_check, same_outcome};
use crate::domain::error::{ApiDomainError, ApiDomainErrorCode, invalid_argument, limit_exceeded};
use crate::text::{utf8_byte_len, utf8_len};

verus! {

/// Maximum encoded size of one embedding input in UTF-8 bytes.
pub const MAX_EMBEDDING_INPUT_BYTES: usize = 1_048_576;

/// Maximum number of inputs in one embedding request.
pub const MAX_EMBEDDING_INPUTS: usize = 128;

/// Maximum aggregate encoded input size in one embedding request.
pub const MAX_EMBEDDING_INPUTS_BYTES: usize = 1_048_576;

/// Maximum number of scalar dimensions in one embedding vector.
pub const MAX_EMBEDDING_DIMENSIONS: usize = 65_536;

/// Maximum number of vectors in one embedding response.
pub const MAX_EMBEDDING_VECTORS: usize = 128;

/// Maximum aggregate scalar count in one embedding response.
pub const MAX_EMBEDDING_SCALARS: usize = 1_048_576;

/// Outcome of validating one embedding input.
pub open spec fn embedding_input_check(s: Seq<char>) -> Result<(), ApiDomainErrorCode> {
    nul_free_text_check(s, MAX_EMBEDDING_INPUT_BYTES as nat, true)
}

/// One bounded embedding input whose diagnostics never expose its text.
#[derive(PartialEq, Eq)]
pub struct EmbeddingInput(String);

impl View for EmbeddingInput {
    type V = Seq<char>;

    closed spec fn view(&self) -> Seq<char> {
        self.0@
    }
}

impl Clone for EmbeddingInput {
    fn clone(&self) -> (res: Self)
        ensures
            res@ == self@,
    {
        proof {
            use_type_invariant(self);
        }
        EmbeddingInput(self.0.clone())
    }
}

impl EmbeddingInput {
    #[verifier::type_invariant]
    spec fn valid(self) -> bool {
        embedding_input_check(self.0@) is Ok
    }

    /// Validates and copies one input of 1 to 1,048,576 NUL-free UTF-8 bytes.
    pub fn new(value: &str) -> (res: Result<Self, ApiDomainError>)
        ensures
            same_outcome(res, embedding_input_check(value@)),
            res matches Ok(c) ==> c@ == value@,
    {
        match check_nul_free_text(value, MAX_EMBEDDING_INPUT_BYTES, true) {
            Ok(()) => Ok(EmbeddingInput(value.to_owned())),
            Err(e) => Err(e),
        }
    }

    /// Returns the validated text to a trusted embedding adapter.
    pub fn as_str(&self) -> (res: &str)
        ensures
            res@ == self@,
            embedding_input_check(res@) is Ok,
    {
        proof {
            use_type_invariant(self);
        }
        self.0.as_str()
    }
}

/// Aggregate encoded bytes of a sequence of embedding inputs.
pub open spec fn embedding_inputs_bytes(s: Seq<Seq<char>>) -> nat
    decreases s.len(),
{
    if s.len() == 0 {
        0
    } else {
        embedding_inputs_bytes(s.drop_last()) + utf8_len(s.last())
    }
}

/// Outcome of validating an ordered input batch.
pub open spec fn embedding_inputs_check(s: Seq<Seq<char>>) -> Result<(), ApiDomainErrorCode> {
    if s.len() > MAX_EMBEDDING_INPUTS {
        Err(ApiDomainErrorCode::LimitExceeded)
    } else if s.len() == 0 {
        Err(ApiDomainErrorCode::InvalidArgument)
    } else if embedding_inputs_bytes(s) > MAX_EMBEDDING_INPUTS_BYTES {
        Err(ApiDomainErrorCode::LimitExceeded)
    } else {
        Ok(())
    }
}

/// An ordered, non-empty, bounded batch of embedding inputs.
#[derive(PartialEq, Eq)]
pub struct EmbeddingInputs {
    values: Vec<EmbeddingInput>,
    total_bytes: usize,
}

impl View for EmbeddingInputs {
    type V = Seq<Seq<char>>;

    closed spec fn view(&self) -> Seq<Seq<char>> {
        self.values@.map_values(|i: EmbeddingInput| i@)
    }
}

impl EmbeddingInputs {
    #[verifier::type_invariant]
    spec fn valid(self) -> bool {
        &&& embedding_inputs_check(self@) is Ok
        &&& self.total_bytes == embedding_inputs_bytes(self@)
    }

    /// Validates and owns one ordered batch of 1 to 128 inputs holding at
    /// most 1,048,576 bytes in all.
    pub fn new(values: Vec<EmbeddingInput>) -> (res: Result<Self, ApiDomainError>)
        ensures
            same_outcome(res, embedding_inputs_check(values@.map_values(|i: EmbeddingInput| i@))),
            res matches Ok(c) ==> c@ == values@.map_values(|i: EmbeddingInput| i@),
    {
        validate_input_count(values.len())?;
        let ghost views = values@.map_values(|i: EmbeddingInput| i@);
        let mut total: usize = 0;
        let mut i: usize = 0;
        while i < values.len()
            invariant
                i <= values@.len(),
                values@.len() <= MAX_EMBEDDING_INPUTS,
                views == values@.map_values(|i: EmbeddingInput| i@),
                total == embedding_inputs_bytes(views.take(i as int)),
                total <= i * MAX_EMBEDDING_INPUT_BYTES,
            decreases values@.len() - i,
        {
            let n = utf8_byte_len(values[i].as_str());
            assert(views.take(i + 1).drop_last() =~= views.take(i as int));
            total = total + n;
            i = i + 1;
        }
        assert(views.take(values@.len() as int) =~= views);
        if total > MAX_EMBEDDING_INPUTS_BYTES {
            return Err(limit_exceeded());
        }
        Ok(EmbeddingInputs { values, total_bytes: total })
    }

    /// Returns the ordered inputs.
    pub fn as_slice(&self) -> (res: &[EmbeddingInput])
        ensures
            res@.map_values(|i: EmbeddingInput| i@) == self@,
    {
        self.values.as_slice()
    }

    /// Returns the number of inputs.
    pub fn len(&self) -> (res: usize)
        ensures
            res == self@.len(),
            1 <= res <= MAX_EMBEDDING_INPUTS,
    {
        proof {
            use_type_invariant(self);
        }
        self.values.len()
    }

    /// Reports whether the batch is empty; a validated batch never is.
    pub fn is_empty(&self) -> (res: bool)
        ensures
            res == (self@.len() == 0),
            !res,
    {
        proof {
            use_type_invariant(self);
        }
        self.values.len() == 0
    }

    /// Returns the checked aggregate UTF-8 byte count.
    pub fn total_bytes(&self) -> (res: usize)
        ensures
            res == embedding_inputs_bytes(self@),
            res <= MAX_EMBEDDING_INPUTS_BYTES,
    {
        proof {
            use_type_invariant(self);
        }
        self.total_bytes
    }
}

/// Validates the number of inputs in one embedding request.
pub fn validate_input_count(count: usize) -> (res: Result<(), ApiDomainError>)
    ensures
        res is Ok <==> 1 <= count <= MAX_EMBEDDING_INPUTS,
        res matches Err(e) ==> e.code == (if count > MAX_EMBEDDING_INPUTS {
            ApiDomainErrorCode::LimitExceeded
        } else {
            ApiDomainErrorCode::InvalidArgument
        }),
{
    if count > MAX_EMBEDDING_INPUTS {
        return Err(limit_exceeded());
    }
    if count == 0 {
        return Err(invalid_argument());
    }
    Ok(())
}

/// Validates the length of one embedding vector, apart from its scalars'
/// finiteness: 1 to 65,536 dimensions.
pub fn validate_vector_length(dimensions: usize) -> (res: Result<(), ApiDomainError>)
    ensures
        res is Ok <==> 1 <= dimensions <= MAX_EMBEDDING_DIMENSIONS,
        res matches Err(e) ==> e.code == (if dimensions > MAX_EMBEDDING_DIMENSIONS {
            ApiDomainErrorCode::LimitExceeded
        } else {
            ApiDomainErrorCode::InvalidArgument
        }),
{
    if dimensions > MAX_EMBEDDING_DIMENSIONS {
        return Err(limit_exceeded());
    }
    if dimensions == 0 {
        return Err(invalid_argument());
    }
    Ok(())
}

/// Validates a response's vector count against the request's input count.
pub fn validate_vector_count(count: usize, expected_count: usize) -> (res: Result<(), ApiDomainError>)
    ensures
        res is Ok <==> (count <= MAX_EMBEDDING_VECTORS && expected_count <= MAX_EMBEDDING_VECTORS
            && count != 0 && count == expected_count),
        res matches Err(e) ==> e.code == (if count > MAX_EMBEDDING_VECTORS || expected_count
            > MAX_EMBEDDING_VECTORS {
            ApiDomainErrorCode::LimitExceeded
        } else {
            ApiDomainErrorCode::InvalidArgument
        }),
{
    if count > MAX_EMBEDDING_VECTORS || expected_count > MAX_EMBEDDING_VECTORS {
        return Err(limit_exceeded());
    }
    if count == 0 || count != expected_count {
        return Err(invalid_argument());
    }
    Ok(())
}

/// Computes `count * dimensions`, rejecting totals above 1,048,576 scalars.
pub fn checked_scalar_count(count: usize, dimensions: usize) -> (res: Result<usize, ApiDomainError>)
    ensures
        res is Ok <==> count * dimensions <= MAX_EMBEDDING_SCALARS,
        res matches Ok(n) ==> n == count * dimensions,
        res matches Err(e) ==> e.code == ApiDomainErrorCode::LimitExceeded,
{
    match count.checked_mul(dimensions) {
        Some(total) => {
            if total > MAX_EMBEDDING_SCALARS {
                Err(limit_exceeded())
            } else {
                Ok(total)
            }
        },
        None => Err(limit_exceeded()),
    }
}

/// Validates the selected model's declared vector dimension: 1 to 65,536.
pub fn validate_expected_dimensions(dimensions: usize) -> (res: Result<(), ApiDomainError>)
    ensures
        res is Ok <==> 1 <= dimensions <= MAX_EMBEDDING_DIMENSIONS,
        res matches Err(e) ==> e.code == (if dimensions > MAX_EMBEDDING_DIMENSIONS {
            ApiDomainErrorCode::LimitExceeded
        } else {
            ApiDomainErrorCode::InvalidArgument
        }),
{
    validate_vector_length(dimensions)
}

/// Checks that every vector has the expected dimension.
pub fn validate_dimensions(dimensions: &[usize], expected_dimensions: usize) -> (res: Result<
    (),
    ApiDomainError,
>)
    ensures
        res is Ok <==> forall|i: int| 0 <= i < dimensions@.len() ==> dimensions@[i]
            == expected_dimensions,
        res matches Err(e) ==> e.code == ApiDomainErrorCode::InvalidArgument,
{
    let mut i: usize = 0;
    while i < dimensions.len()
        invariant
            i <= dimensions@.len(),
            forall|j: int| 0 <= j < i ==> dimensions@[j] == expected_dimensions,
        decreases dimensions@.len() - i,
    {
        if dimensions[i] != expected_dimensions {
            return Err(invalid_argument());
        }
        i = i + 1;
    }
    Ok(())
}

/// Outcome of validating the shape of an embedding response.
pub open spec fn embedding_shape_check(
    dimensions: Seq<usize>,
    expected_count: nat,
    expected_dimensions: nat,
) -> Result<(), ApiDomainErrorCode> {
    let count = dimensions.len();
    if count > MAX_EMBEDDING_VECTORS || expected_count > MAX_EMBEDDING_VECTORS {
        Err(ApiDomainErrorCode::LimitExceeded)
    } else if count == 0 || count != expected_count {
        Err(ApiDomainErrorCode::InvalidArgument)
    } else if expected_dimensions > MAX_EMBEDDING_DIMENSIONS {
        Err(ApiDomainErrorCode::LimitExceeded)
    } else if expected_dimensions == 0 {
        Err(ApiDomainErrorCode::InvalidArgument)
    } else if count * expected_dimensions > MAX_EMBEDDING_SCALARS {
        Err(ApiDomainErrorCode::LimitExceeded)
    } else if exists|i: int| 0 <= i < count && dimensions[i] != expected_dimensions {
        Err(ApiDomainErrorCode::InvalidArgument)
    } else {
        Ok(())
    }
}

/// Validates the shape of an embedding response given each vector's
/// dimension, and returns the aggregate scalar count.
///
/// This is every rule of an embedding-vector batch except the finiteness of
/// its scalars, which callers holding the floating-point values check.
pub fn validate_embedding_shape(
    dimensions: &[usize],
    expected_count: usize,
    expected_dimensions: usize,
) -> (res: Result<usize, ApiDomainError>)
    ensures
        same_outcome(res, embedding_shape_check(dimensions@, expected_count as nat, expected_dimensions as nat)),
        res matches Ok(n) ==> n == dimensions@.len() * expected_dimensions,
{
    validate_vector_count(dimensions.len(), expected_count)?;
    validate_expected_dimensions(expected_dimensions)?;
    let total = checked_scalar_count(dimensions.len(), expected_dimensions)?;
    validate_dimensions(dimensions, expected_dimensions)?;
    Ok(total)
}

} // verus!
