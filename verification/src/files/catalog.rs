//! Authenticated file catalog record values.

use vstd::prelude::*;

use crate::domain::file::{FileDescriptor, FileDescriptorView, FileDigest, FileUploadSpecificationView};
use crate::files::{ApiFilesError, ApiFilesErrorCode, FileUploadRequest, FileUploadRequestView, files_error};
use crate::platform::{PrincipalContext, PrincipalContextView, PrincipalId, RequestContext, TenantId};

verus! {

/// Outcome of binding upload metadata to a verified descriptor: the display
/// name, media type and byte length must agree, and a supplied expected
/// digest must equal the verified one.
pub open spec fn descriptor_binding_check(spec: FileUploadSpecificationView, descriptor: FileDescriptorView) -> Result<
    (),
    ApiFilesErrorCode,
> {
    if spec.display_name != descriptor.display_name || spec.media_type != descriptor.media_type
        || spec.byte_length != descriptor.byte_length {
        Err(ApiFilesErrorCode::IntegrityFailure)
    } else {
        match spec.expected_digest {
            Some(expected) => if expected.0@ != descriptor.digest.0@ {
                Err(ApiFilesErrorCode::IntegrityFailure)
            } else {
                Ok(())
            },
            None => Ok(()),
        }
    }
}

/// One exact authenticated owner, upload request and verified descriptor binding.
#[derive(PartialEq, Eq)]
pub struct FileCatalogRecord {
    owner: PrincipalContext,
    request: FileUploadRequest,
    descriptor: FileDescriptor,
}

/// Abstract contents of a [`FileCatalogRecord`].
pub struct FileCatalogRecordView {
    /// The authenticated owner.
    pub owner: PrincipalContextView,
    /// The original validated upload request.
    pub request: FileUploadRequestView,
    /// The verified descriptor.
    pub descriptor: FileDescriptorView,
}

impl View for FileCatalogRecord {
    type V = FileCatalogRecordView;

    closed spec fn view(&self) -> FileCatalogRecordView {
        FileCatalogRecordView { owner: self.owner@, request: self.request@, descriptor: self.descriptor@ }
    }
}

impl FileCatalogRecord {
    #[verifier::type_invariant]
    spec fn valid(self) -> bool {
        descriptor_binding_check(self.request@.specification, self.descriptor@) is Ok
    }

    /// Validates and binds one exact owner, request and verified descriptor;
    /// any divergence between request and descriptor is `IntegrityFailure`.
    pub fn new(owner: PrincipalContext, request: FileUploadRequest, descriptor: FileDescriptor) -> (res: Result<
        Self,
        ApiFilesError,
    >)
        ensures
            res is Ok <==> descriptor_binding_check(request@.specification, descriptor@) is Ok,
            res is Err ==> res == Err::<FileCatalogRecord, ApiFilesError>(
                ApiFilesError { code: ApiFilesErrorCode::IntegrityFailure },
            ),
            res matches Ok(r) ==> r@ == (FileCatalogRecordView {
                owner: owner@,
                request: request@,
                descriptor: descriptor@,
            }),
    {
        validate_descriptor(&request, &descriptor)?;
        Ok(FileCatalogRecord { owner, request, descriptor })
    }

    /// Binds the exact authenticated owner of `context` to the supplied file
    /// values: an anonymous context is `Unauthenticated`, and divergence is
    /// refused as by [`Self::new`].
    pub fn from_authenticated_context(
        context: &RequestContext,
        request: FileUploadRequest,
        descriptor: FileDescriptor,
    ) -> (res: Result<Self, ApiFilesError>)
        ensures
            match context@ {
                None => res == Err::<FileCatalogRecord, ApiFilesError>(
                    ApiFilesError { code: ApiFilesErrorCode::Unauthenticated },
                ),
                Some(owner) => match descriptor_binding_check(request@.specification, descriptor@) {
                    Ok(()) => res matches Ok(r) && r@ == (FileCatalogRecordView {
                        owner,
                        request: request@,
                        descriptor: descriptor@,
                    }),
                    Err(code) => res == Err::<FileCatalogRecord, ApiFilesError>(ApiFilesError { code }),
                },
            },
    {
        let owner = match context.principal() {
            Some(p) => p.clone(),
            None => {
                return Err(files_error(ApiFilesErrorCode::Unauthenticated));
            },
        };
        FileCatalogRecord::new(owner, request, descriptor)
    }

    /// Returns the exact authenticated owner to a trusted catalog adapter.
    pub fn owner(&self) -> (res: &PrincipalContext)
        ensures
            res@ == self@.owner,
    {
        &self.owner
    }

    /// Returns the exact tenant identity to a trusted catalog adapter.
    pub fn tenant_id(&self) -> (res: &TenantId)
        ensures
            res@ == self@.owner.tenant_id,
    {
        self.owner.tenant_id()
    }

    /// Returns the exact principal identity to a trusted catalog adapter.
    pub fn principal_id(&self) -> (res: &PrincipalId)
        ensures
            res@ == self@.owner.principal_id,
    {
        self.owner.principal_id()
    }

    /// Returns the original validated upload request to a trusted catalog adapter.
    pub fn request(&self) -> (res: &FileUploadRequest)
        ensures
            res@ == self@.request,
    {
        &self.request
    }

    /// Returns the verified descriptor, which agrees with the request, to a
    /// trusted catalog adapter.
    pub fn descriptor(&self) -> (res: &FileDescriptor)
        ensures
            res@ == self@.descriptor,
            descriptor_binding_check(self@.request.specification, res@) is Ok,
    {
        proof {
            use_type_invariant(self);
        }
        &self.descriptor
    }
}

fn validate_descriptor(request: &FileUploadRequest, descriptor: &FileDescriptor) -> (res: Result<(), ApiFilesError>)
    ensures
        res is Ok <==> descriptor_binding_check(request@.specification, descriptor@) is Ok,
        res is Err ==> res == Err::<(), ApiFilesError>(ApiFilesError { code: ApiFilesErrorCode::IntegrityFailure }),
{
    let specification = request.specification();
    if !specification.display_name().same_text(descriptor.display_name()) || !specification.media_type().same_text(
        descriptor.media_type(),
    ) || specification.byte_length().get() != descriptor.byte_length().get() {
        return Err(files_error(ApiFilesErrorCode::IntegrityFailure));
    }
    validate_expected_digest(specification.expected_digest(), descriptor.digest())
}

fn validate_expected_digest(expected: Option<&FileDigest>, verified: &FileDigest) -> (res: Result<(), ApiFilesError>)
    ensures
        match expected {
            Some(e) => if e.0@ != verified.0@ {
                res == Err::<(), ApiFilesError>(ApiFilesError { code: ApiFilesErrorCode::IntegrityFailure })
            } else {
                res is Ok
            },
            None => res is Ok,
        },
{
    match expected {
        Some(e) => {
            if !e.same_bytes(verified) {
                return Err(files_error(ApiFilesErrorCode::IntegrityFailure));
            }
        },
        None => {},
    }
    Ok(())
}

} // verus!
