//! Authoritative Batch operation projections and list pages.

use vstd::prelude::*;

use crate::domain::batch::{
    ApiBatchError, ApiBatchErrorCode, BatchCompletionWindow, BatchEndpoint, BatchListLimit,
    BatchOperationId, BatchRequestCounts, BatchRequestCountsView, BatchStatus, BatchValidationError,
    MAX_BATCH_ERROR_ITEMS, MAX_BATCH_LIST_LIMIT, batch_integrity_failure, batch_invalid_argument,
    batch_limit_exceeded, optional_operation_id, optional_operation_id_ref,
};
use crate::domain::batch_timestamps::{BatchTimestamps, BatchTimestampsView};
use crate::domain::file::FileReference;

verus! {

/// Whether `timestamps` records the transition into `status`; a validating
/// operation needs none beyond its creation time.
pub open spec fn status_has_timestamp(status: BatchStatus, timestamps: BatchTimestampsView) -> bool {
    let t = timestamps.transitions;
    match status {
        BatchStatus::Validating => true,
        BatchStatus::Failed => t.failed_at is Some,
        BatchStatus::InProgress => t.in_progress_at is Some,
        BatchStatus::Finalizing => t.finalizing_at is Some,
        BatchStatus::Completed => t.completed_at is Some,
        BatchStatus::Expired => t.expired_at is Some,
        BatchStatus::Cancelling => t.cancelling_at is Some,
        BatchStatus::Cancelled => t.cancelled_at is Some,
    }
}

/// Reports whether `timestamps` records the transition into `status`.
pub fn has_status_timestamp(status: BatchStatus, timestamps: BatchTimestamps) -> (res: bool)
    ensures
        res == status_has_timestamp(status, timestamps@),
{
    match status {
        BatchStatus::Validating => true,
        BatchStatus::Failed | BatchStatus::InProgress | BatchStatus::Finalizing
        | BatchStatus::Completed => active_status_timestamp(status, timestamps),
        BatchStatus::Expired | BatchStatus::Cancelling | BatchStatus::Cancelled => terminal_status_timestamp(
            status,
            timestamps,
        ),
    }
}

fn active_status_timestamp(status: BatchStatus, timestamps: BatchTimestamps) -> (res: bool)
    ensures
        (status == BatchStatus::Failed || status == BatchStatus::InProgress || status == BatchStatus::Finalizing
            || status == BatchStatus::Completed) ==> res == status_has_timestamp(status, timestamps@),
{
    match status {
        BatchStatus::Failed => timestamps.failed_at().is_some(),
        BatchStatus::InProgress => timestamps.in_progress_at().is_some(),
        BatchStatus::Finalizing => timestamps.finalizing_at().is_some(),
        BatchStatus::Completed => timestamps.completed_at().is_some(),
        _ => false,
    }
}

fn terminal_status_timestamp(status: BatchStatus, timestamps: BatchTimestamps) -> (res: bool)
    ensures
        (status == BatchStatus::Expired || status == BatchStatus::Cancelling || status == BatchStatus::Cancelled)
            ==> res == status_has_timestamp(status, timestamps@),
{
    match status {
        BatchStatus::Expired => timestamps.expired_at().is_some(),
        BatchStatus::Cancelling => timestamps.cancelling_at().is_some(),
        BatchStatus::Cancelled => timestamps.cancelled_at().is_some(),
        _ => false,
    }
}

/// The reference an optional borrowed file reference points at.
pub open spec fn file_ref_value(r: Option<&FileReference>) -> Option<FileReference> {
    match r {
        Some(f) => Some(*f),
        None => None,
    }
}

/// Non-identity evidence attached to one Batch operation projection.
pub struct BatchOperationEvidence {
    timestamps: BatchTimestamps,
    output_file: Option<FileReference>,
    error_file: Option<FileReference>,
    errors: Vec<BatchValidationError>,
    request_counts: BatchRequestCounts,
}

/// Abstract contents of [`BatchOperationEvidence`].
pub struct BatchOperationEvidenceView {
    /// Lifecycle timestamps.
    pub timestamps: BatchTimestampsView,
    /// The optional output-file reference.
    pub output_file: Option<FileReference>,
    /// The optional error-file reference.
    pub error_file: Option<FileReference>,
    /// Bounded itemized errors.
    pub errors: Seq<BatchValidationError>,
    /// Authoritative request counts.
    pub request_counts: BatchRequestCountsView,
}

impl View for BatchOperationEvidence {
    type V = BatchOperationEvidenceView;

    closed spec fn view(&self) -> BatchOperationEvidenceView {
        BatchOperationEvidenceView {
            timestamps: self.timestamps@,
            output_file: self.output_file,
            error_file: self.error_file,
            errors: self.errors@,
            request_counts: self.request_counts@,
        }
    }
}

impl BatchOperationEvidence {
    #[verifier::type_invariant]
    spec fn valid(self) -> bool {
        self.errors@.len() <= MAX_BATCH_ERROR_ITEMS
    }

    /// Creates bounded lifecycle, file, error and count evidence; more than
    /// 1,000 itemized errors is `LimitExceeded`.
    pub fn new(
        timestamps: BatchTimestamps,
        output_file: Option<FileReference>,
        error_file: Option<FileReference>,
        errors: Vec<BatchValidationError>,
        request_counts: BatchRequestCounts,
    ) -> (res: Result<Self, ApiBatchError>)
        ensures
            res is Ok <==> errors@.len() <= MAX_BATCH_ERROR_ITEMS,
            res is Err ==> res == Err::<BatchOperationEvidence, ApiBatchError>(
                ApiBatchError { code: ApiBatchErrorCode::LimitExceeded },
            ),
            res matches Ok(e) ==> e@ == (BatchOperationEvidenceView {
                timestamps: timestamps@,
                output_file,
                error_file,
                errors: errors@,
                request_counts: request_counts@,
            }),
    {
        if errors.len() > MAX_BATCH_ERROR_ITEMS {
            return Err(batch_limit_exceeded());
        }
        Ok(BatchOperationEvidence { timestamps, output_file, error_file, errors, request_counts })
    }

    /// Returns lifecycle timestamps.
    pub fn timestamps(&self) -> (res: BatchTimestamps)
        ensures
            res@ == self@.timestamps,
    {
        self.timestamps
    }

    /// Returns the optional output-file reference.
    pub fn output_file(&self) -> (res: Option<&FileReference>)
        ensures
            file_ref_value(res) == self@.output_file,
    {
        self.output_file.as_ref()
    }

    /// Returns the optional error-file reference.
    pub fn error_file(&self) -> (res: Option<&FileReference>)
        ensures
            file_ref_value(res) == self@.error_file,
    {
        self.error_file.as_ref()
    }

    /// Returns bounded itemized errors.
    pub fn errors(&self) -> (res: &[BatchValidationError])
        ensures
            res@ == self@.errors,
            res@.len() <= MAX_BATCH_ERROR_ITEMS,
    {
        proof {
            use_type_invariant(self);
        }
        self.errors.as_slice()
    }

    /// Returns authoritative request counts.
    pub fn request_counts(&self) -> (res: BatchRequestCounts)
        ensures
            res@ == self@.request_counts,
    {
        self.request_counts
    }
}

/// One authoritative Batch operation projection.
pub struct BatchOperation {
    id: BatchOperationId,
    endpoint: BatchEndpoint,
    input_file: FileReference,
    completion_window: BatchCompletionWindow,
    status: BatchStatus,
    timestamps: BatchTimestamps,
    output_file: Option<FileReference>,
    error_file: Option<FileReference>,
    errors: Vec<BatchValidationError>,
    request_counts: BatchRequestCounts,
}

/// Abstract contents of a [`BatchOperation`].
pub struct BatchOperationView {
    /// The durable operation identity text.
    pub id: Seq<char>,
    /// The validated endpoint.
    pub endpoint: BatchEndpoint,
    /// The internal input file reference.
    pub input_file: FileReference,
    /// The completion window.
    pub completion_window: BatchCompletionWindow,
    /// The current lifecycle status.
    pub status: BatchStatus,
    /// Lifecycle timestamps, output and error files, errors and counts.
    pub evidence: BatchOperationEvidenceView,
}

impl View for BatchOperation {
    type V = BatchOperationView;

    closed spec fn view(&self) -> BatchOperationView {
        BatchOperationView {
            id: self.id@,
            endpoint: self.endpoint,
            input_file: self.input_file,
            completion_window: self.completion_window,
            status: self.status,
            evidence: BatchOperationEvidenceView {
                timestamps: self.timestamps@,
                output_file: self.output_file,
                error_file: self.error_file,
                errors: self.errors@,
                request_counts: self.request_counts@,
            },
        }
    }
}

impl BatchOperation {
    #[verifier::type_invariant]
    spec fn valid(self) -> bool {
        &&& status_has_timestamp(self.status, self.timestamps@)
        &&& self.errors@.len() <= MAX_BATCH_ERROR_ITEMS
    }

    /// Creates a complete operation projection from authoritative evidence; a
    /// status whose transition timestamp is missing is `InvalidArgument`.
    pub fn new(
        id: BatchOperationId,
        endpoint: BatchEndpoint,
        input_file: FileReference,
        completion_window: BatchCompletionWindow,
        status: BatchStatus,
        evidence: BatchOperationEvidence,
    ) -> (res: Result<Self, ApiBatchError>)
        ensures
            res is Ok <==> status_has_timestamp(status, evidence@.timestamps),
            res is Err ==> res == Err::<BatchOperation, ApiBatchError>(
                ApiBatchError { code: ApiBatchErrorCode::InvalidArgument },
            ),
            res matches Ok(o) ==> o@ == (BatchOperationView {
                id: id@,
                endpoint,
                input_file,
                completion_window,
                status,
                evidence: evidence@,
            }),
    {
        proof {
            use_type_invariant(&evidence);
        }
        if !has_status_timestamp(status, evidence.timestamps) {
            return Err(batch_invalid_argument());
        }
        let BatchOperationEvidence { timestamps, output_file, error_file, errors, request_counts } = evidence;
        Ok(
            BatchOperation {
                id,
                endpoint,
                input_file,
                completion_window,
                status,
                timestamps,
                output_file,
                error_file,
                errors,
                request_counts,
            },
        )
    }

    /// Returns the owner object discriminator, always `batch`.
    pub fn object(&self) -> (res: &'static str)
        ensures
            res@ == "batch"@,
    {
        "batch"
    }

    /// Returns the durable operation identity.
    pub fn id(&self) -> (res: &BatchOperationId)
        ensures
            res@ == self@.id,
    {
        &self.id
    }

    /// Returns the validated endpoint.
    pub fn endpoint(&self) -> (res: BatchEndpoint)
        ensures
            res == self@.endpoint,
    {
        self.endpoint
    }

    /// Returns the internal input file reference.
    pub fn input_file(&self) -> (res: &FileReference)
        ensures
            *res == self@.input_file,
    {
        &self.input_file
    }

    /// Returns the completion window.
    pub fn completion_window(&self) -> (res: BatchCompletionWindow)
        ensures
            res == self@.completion_window,
    {
        self.completion_window
    }

    /// Returns the current lifecycle status, whose transition is always recorded.
    pub fn status(&self) -> (res: BatchStatus)
        ensures
            res == self@.status,
            status_has_timestamp(res, self@.evidence.timestamps),
    {
        proof {
            use_type_invariant(self);
        }
        self.status
    }

    /// Returns the lifecycle timestamps.
    pub fn timestamps(&self) -> (res: BatchTimestamps)
        ensures
            res@ == self@.evidence.timestamps,
    {
        self.timestamps
    }

    /// Returns the optional internal output-file reference.
    pub fn output_file(&self) -> (res: Option<&FileReference>)
        ensures
            file_ref_value(res) == self@.evidence.output_file,
    {
        self.output_file.as_ref()
    }

    /// Returns the optional internal error-file reference.
    pub fn error_file(&self) -> (res: Option<&FileReference>)
        ensures
            file_ref_value(res) == self@.evidence.error_file,
    {
        self.error_file.as_ref()
    }

    /// Returns bounded itemized errors.
    pub fn errors(&self) -> (res: &[BatchValidationError])
        ensures
            res@ == self@.evidence.errors,
            res@.len() <= MAX_BATCH_ERROR_ITEMS,
    {
        proof {
            use_type_invariant(self);
        }
        self.errors.as_slice()
    }

    /// Returns authoritative request counts.
    pub fn request_counts(&self) -> (res: BatchRequestCounts)
        ensures
            res@ == self@.evidence.request_counts,
    {
        self.request_counts
    }
}

/// Abstract contents of a sequence of operations.
pub open spec fn operations_view(data: Seq<BatchOperation>) -> Seq<BatchOperationView> {
    data.map_values(|o: BatchOperation| o@)
}

/// The identity of the first operation of a page, when there is one.
pub open spec fn first_operation_id(data: Seq<BatchOperationView>) -> Option<Seq<char>> {
    if data.len() == 0 {
        None
    } else {
        Some(data[0].id)
    }
}

/// The identity of the last operation of a page, when there is one.
pub open spec fn last_operation_id(data: Seq<BatchOperationView>) -> Option<Seq<char>> {
    if data.len() == 0 {
        None
    } else {
        Some(data.last().id)
    }
}

/// Outcome of building a page of `len` operations for `limit` that claims a
/// following page when `has_more` is set.
pub open spec fn batch_page_check(len: nat, limit: nat, has_more: bool) -> Result<(), ApiBatchErrorCode> {
    if len > limit {
        Err(ApiBatchErrorCode::LimitExceeded)
    } else if len == 0 && has_more {
        Err(ApiBatchErrorCode::IntegrityFailure)
    } else {
        Ok(())
    }
}

/// A bounded cursor page of Batch operation projections.
pub struct BatchPage {
    data: Vec<BatchOperation>,
    first_id: Option<BatchOperationId>,
    last_id: Option<BatchOperationId>,
    has_more: bool,
}

/// Abstract contents of a [`BatchPage`].
pub struct BatchPageView {
    /// The ordered operation projections.
    pub data: Seq<BatchOperationView>,
    /// Whether another page follows.
    pub has_more: bool,
}

impl View for BatchPage {
    type V = BatchPageView;

    closed spec fn view(&self) -> BatchPageView {
        BatchPageView { data: operations_view(self.data@), has_more: self.has_more }
    }
}

impl BatchPage {
    #[verifier::type_invariant]
    spec fn valid(self) -> bool {
        &&& self.data@.len() <= MAX_BATCH_LIST_LIMIT
        &&& !(self.data@.len() == 0 && self.has_more)
        &&& optional_operation_id(self.first_id) == first_operation_id(operations_view(self.data@))
        &&& optional_operation_id(self.last_id) == last_operation_id(operations_view(self.data@))
    }

    /// Creates a list page and derives its first and last IDs from the data:
    /// more operations than `limit` is `LimitExceeded`, and an empty page that
    /// claims a following page is `IntegrityFailure`.
    pub fn new(data: Vec<BatchOperation>, limit: BatchListLimit, has_more: bool) -> (res: Result<
        Self,
        ApiBatchError,
    >)
        ensures
            match batch_page_check(data@.len(), limit@, has_more) {
                Ok(()) => res matches Ok(p) && p@ == (BatchPageView {
                    data: operations_view(data@),
                    has_more,
                }),
                Err(code) => res == Err::<BatchPage, ApiBatchError>(ApiBatchError { code }),
            },
    {
        if data.len() > limit.get() {
            return Err(batch_limit_exceeded());
        }
        if data.len() == 0 && has_more {
            return Err(batch_integrity_failure());
        }
        let first_id = if data.len() == 0 {
            None
        } else {
            Some(data[0].id().clone())
        };
        let last_id = if data.len() == 0 {
            None
        } else {
            Some(data[data.len() - 1].id().clone())
        };
        Ok(BatchPage { data, first_id, last_id, has_more })
    }

    /// Returns the ordered operation projections.
    pub fn data(&self) -> (res: &[BatchOperation])
        ensures
            operations_view(res@) == self@.data,
    {
        self.data.as_slice()
    }

    /// Returns the first operation identity, when the page is non-empty.
    pub fn first_id(&self) -> (res: Option<&BatchOperationId>)
        ensures
            optional_operation_id_ref(res) == first_operation_id(self@.data),
            self@.data.len() == 0 ==> res is None,
            self@.data.len() > 0 ==> optional_operation_id_ref(res) == Some(self@.data[0].id),
    {
        proof {
            use_type_invariant(self);
        }
        match &self.first_id {
            Some(id) => Some(id),
            None => None,
        }
    }

    /// Returns the last operation identity, when the page is non-empty.
    pub fn last_id(&self) -> (res: Option<&BatchOperationId>)
        ensures
            optional_operation_id_ref(res) == last_operation_id(self@.data),
            self@.data.len() == 0 ==> res is None,
            self@.data.len() > 0 ==> optional_operation_id_ref(res) == Some(self@.data[self@.data.len() - 1].id),
    {
        proof {
            use_type_invariant(self);
        }
        match &self.last_id {
            Some(id) => Some(id),
            None => None,
        }
    }

    /// Returns whether another page follows.
    pub fn has_more(&self) -> (res: bool)
        ensures
            res == self@.has_more,
            res ==> self@.data.len() > 0,
    {
        proof {
            use_type_invariant(self);
        }
        self.has_more
    }
}

/// A page's first and last ids are those of its first and final operations,
/// and an empty page has neither: the last id, the cursor for the next page,
/// names the page's final operation.
pub proof fn page_ids_are_its_ends(data: Seq<BatchOperationView>)
    ensures
        data.len() == 0 ==> first_operation_id(data) is None && last_operation_id(data) is None,
        data.len() > 0 ==> first_operation_id(data) == Some(data[0].id),
        data.len() > 0 ==> last_operation_id(data) == Some(data[data.len() - 1].id),
{
}

/// A page is built exactly when it holds no more operations than its limit
/// and, when empty, claims no following page.
pub proof fn page_bounds(len: nat, limit: nat, has_more: bool)
    ensures
        batch_page_check(len, limit, has_more) is Ok <==> (len <= limit && (len == 0 ==> !has_more)),
        len > limit ==> batch_page_check(len, limit, has_more) == Err::<(), ApiBatchErrorCode>(
            ApiBatchErrorCode::LimitExceeded,
        ),
{
}

} // verus!
