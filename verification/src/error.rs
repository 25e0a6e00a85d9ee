//! Everything that can end a run early, under one type.
//!
//! Every failure is fatal to the run; none is retried beyond the two bounded
//! loops of the upload and of the digest poll. Each carries what is needed
//! to diagnose it without running again, and renders as one line.

use crate::json::MalformedDocument;
use crate::policy::PolicyScanError;
use crate::poll::{ContentMismatch, ConvergenceTimeout};
use crate::request::{announce, failure_prefix, Operation, RemoteError};
use crate::upload::UploadError;
use crate::workflow::ValidationError;
use vstd::prelude::*;
use vstd::string::StringExecFns;

verus! {

/// Why a run ended early.
#[derive(Debug)]
pub enum UpdateError {
    /// The file at `path` is not one to upload.
    Validation { error: ValidationError, path: String },
    /// The service refused an operation.
    Remote(RemoteError),
    /// The service accepted an operation, but its answer cannot be read.
    UnreadableAnswer { operation: Operation, cause: MalformedDocument },
    /// The detail document of a policy could not be fetched.
    PolicyScan(PolicyScanError),
    /// The upload was given up.
    Upload(UploadError),
    /// The digest of a new package never came to carry a checksum.
    ConvergenceTimeout(ConvergenceTimeout),
    /// The digest never changed, and the service holds other content.
    ContentMismatch(ContentMismatch),
}

/// The kinds of failure.
#[derive(Debug, Clone, Copy, PartialEq, Eq, Structural)]
pub enum ErrorKind {
    Validation,
    Authentication,
    MetadataUpdate,
    Upload,
    PolicyScan,
    ConvergenceTimeout,
    ContentMismatch,
    Service,
}

/// The kind of a refusal, by the operation that was refused.
pub open spec fn refusal_kind(operation: Operation) -> ErrorKind {
    match operation {
        Operation::Authenticate => ErrorKind::Authentication,
        Operation::UpdatePackage => ErrorKind::MetadataUpdate,
        Operation::UploadFile => ErrorKind::Upload,
        Operation::ReadPolicy => ErrorKind::PolicyScan,
        _ => ErrorKind::Service,
    }
}

impl UpdateError {
    /// The kind of this error.
    pub open spec fn kind_spec(self) -> ErrorKind {
        match self {
            UpdateError::Validation { .. } => ErrorKind::Validation,
            UpdateError::Remote(e) => refusal_kind(e.operation),
            UpdateError::UnreadableAnswer { operation, .. } => refusal_kind(operation),
            UpdateError::PolicyScan(_) => ErrorKind::PolicyScan,
            UpdateError::Upload(_) => ErrorKind::Upload,
            UpdateError::ConvergenceTimeout(_) => ErrorKind::ConvergenceTimeout,
            UpdateError::ContentMismatch(_) => ErrorKind::ContentMismatch,
        }
    }

    /// The message of this error.
    pub open spec fn message_spec(self) -> Seq<char> {
        match self {
            UpdateError::Validation { error, path } => error.message_spec(path@),
            UpdateError::Remote(e) => e.message_spec(),
            UpdateError::UnreadableAnswer { operation, .. } => failure_prefix(operation)
                + ": the answer is not a JSON document"@,
            UpdateError::PolicyScan(e) => e.message_spec(),
            UpdateError::Upload(e) => e.message_spec(),
            UpdateError::ConvergenceTimeout(e) => e.message_spec(),
            UpdateError::ContentMismatch(e) => e.message_spec(),
        }
    }

    /// The kind of this error.
    pub fn kind(&self) -> (k: ErrorKind)
        ensures
            k == self.kind_spec(),
    {
        match self {
            UpdateError::Validation { .. } => ErrorKind::Validation,
            UpdateError::Remote(e) => kind_of_refusal(e.operation),
            UpdateError::UnreadableAnswer { operation, .. } => kind_of_refusal(*operation),
            UpdateError::PolicyScan(_) => ErrorKind::PolicyScan,
            UpdateError::Upload(_) => ErrorKind::Upload,
            UpdateError::ConvergenceTimeout(_) => ErrorKind::ConvergenceTimeout,
            UpdateError::ContentMismatch(_) => ErrorKind::ContentMismatch,
        }
    }

    /// The one line shown to the user.
    pub fn message(&self) -> (m: String)
        ensures
            m@ == self.message_spec(),
    {
        match self {
            UpdateError::Validation { error, path } => error.message(path.as_str()),
            UpdateError::Remote(e) => e.message(),
            UpdateError::UnreadableAnswer { operation, .. } => {
                let mut m = announce(*operation);
                m.append(": the answer is not a JSON document");
                m
            },
            UpdateError::PolicyScan(e) => e.message(),
            UpdateError::Upload(e) => e.message(),
            UpdateError::ConvergenceTimeout(e) => e.message(),
            UpdateError::ContentMismatch(e) => e.message(),
        }
    }
}

fn kind_of_refusal(operation: Operation) -> (k: ErrorKind)
    ensures
        k == refusal_kind(operation),
{
    match operation {
        Operation::Authenticate => ErrorKind::Authentication,
        Operation::UpdatePackage => ErrorKind::MetadataUpdate,
        Operation::UploadFile => ErrorKind::Upload,
        Operation::ReadPolicy => ErrorKind::PolicyScan,
        _ => ErrorKind::Service,
    }
}

} // verus!
