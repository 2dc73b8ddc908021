//! The failures of the pipeline, each with the context that lets it be
//! reported without losing which folder, file or URL it concerns.

use vstd::prelude::*;

verus! {

/// The step of a transfer at which a failure arose.
#[derive(Clone, Copy, Debug, PartialEq, Eq, Structural)]
pub enum Phase {
    DestinationParse,
    Fetch,
    Export,
    Upload,
}

/// What is known of a request that did not succeed: the status code of the
/// response, or the reason why there was no response.
#[derive(Debug, PartialEq, Eq)]
pub enum StatusInfo {
    Code(u16),
    Message(String),
}

/// Mathematical model of a [`StatusInfo`].
pub enum StatusInfoView {
    Code(u16),
    Message(Seq<char>),
}

impl View for StatusInfo {
    type V = StatusInfoView;

    open spec fn view(&self) -> StatusInfoView {
        match self {
            StatusInfo::Code(c) => StatusInfoView::Code(*c),
            StatusInfo::Message(m) => StatusInfoView::Message(m@),
        }
    }
}

impl Clone for StatusInfo {
    fn clone(&self) -> (r: Self)
        ensures
            r@ == self@,
    {
        match self {
            StatusInfo::Code(c) => StatusInfo::Code(*c),
            StatusInfo::Message(m) => StatusInfo::Message(m.clone()),
        }
    }
}

/// A failure of the pipeline.
#[derive(Debug, PartialEq, Eq)]
pub enum TransferError {
    /// No folder of that name lies under the parent.
    FolderNotFound { folder: String },
    /// More than one folder of that name lies under the parent.
    FolderAmbiguous { folder: String, matches: usize },
    /// A page of the listing could not be retrieved.
    ListingFailed { folder_id: String, cause: String },
    /// The destination is no URL of the object-storage scheme with a bucket.
    InvalidDestination { url: String },
    /// The export or the raw download of a file did not succeed.
    FetchFailed { file: String, phase: Phase, status: StatusInfo },
    /// The upload of a file did not succeed.
    UploadFailed { file: String, cause: String },
    /// A credential that the caller must supply is absent.
    CredentialMissing { name: String },
}

/// Mathematical model of a [`TransferError`].
pub enum TransferErrorView {
    FolderNotFound { folder: Seq<char> },
    FolderAmbiguous { folder: Seq<char>, matches: nat },
    ListingFailed { folder_id: Seq<char>, cause: Seq<char> },
    InvalidDestination { url: Seq<char> },
    FetchFailed { file: Seq<char>, phase: Phase, status: StatusInfoView },
    UploadFailed { file: Seq<char>, cause: Seq<char> },
    CredentialMissing { name: Seq<char> },
}

impl View for TransferError {
    type V = TransferErrorView;

    open spec fn view(&self) -> TransferErrorView {
        match self {
            TransferError::FolderNotFound { folder } => TransferErrorView::FolderNotFound {
                folder: folder@,
            },
            TransferError::FolderAmbiguous { folder, matches } => {
                TransferErrorView::FolderAmbiguous { folder: folder@, matches: *matches as nat }
            },
            TransferError::ListingFailed { folder_id, cause } => TransferErrorView::ListingFailed {
                folder_id: folder_id@,
                cause: cause@,
            },
            TransferError::InvalidDestination { url } => TransferErrorView::InvalidDestination {
                url: url@,
            },
            TransferError::FetchFailed { file, phase, status } => TransferErrorView::FetchFailed {
                file: file@,
                phase: *phase,
                status: status@,
            },
            TransferError::UploadFailed { file, cause } => TransferErrorView::UploadFailed {
                file: file@,
                cause: cause@,
            },
            TransferError::CredentialMissing { name } => TransferErrorView::CredentialMissing {
                name: name@,
            },
        }
    }
}

impl TransferErrorView {
    /// The step of the pipeline that the failure belongs to, for those
    /// failures that concern one file or the destination.
    pub open spec fn phase(self) -> Option<Phase> {
        match self {
            TransferErrorView::InvalidDestination { .. } => Some(Phase::DestinationParse),
            TransferErrorView::FetchFailed { phase, .. } => Some(phase),
            TransferErrorView::UploadFailed { .. } => Some(Phase::Upload),
            _ => None,
        }
    }

    /// Whether the failure ends the whole run rather than one file's
    /// transfer.
    pub open spec fn is_fatal(self) -> bool {
        !(self is FetchFailed || self is UploadFailed)
    }
}

impl Clone for TransferError {
    fn clone(&self) -> (r: Self)
        ensures
            r@ == self@,
    {
        match self {
            TransferError::FolderNotFound { folder } => TransferError::FolderNotFound {
                folder: folder.clone(),
            },
            TransferError::FolderAmbiguous { folder, matches } => TransferError::FolderAmbiguous {
                folder: folder.clone(),
                matches: *matches,
            },
            TransferError::ListingFailed { folder_id, cause } => TransferError::ListingFailed {
                folder_id: folder_id.clone(),
                cause: cause.clone(),
            },
            TransferError::InvalidDestination { url } => TransferError::InvalidDestination {
                url: url.clone(),
            },
            TransferError::FetchFailed { file, phase, status } => TransferError::FetchFailed {
                file: file.clone(),
                phase: *phase,
                status: status.clone(),
            },
            TransferError::UploadFailed { file, cause } => TransferError::UploadFailed {
                file: file.clone(),
                cause: cause.clone(),
            },
            TransferError::CredentialMissing { name } => TransferError::CredentialMissing {
                name: name.clone(),
            },
        }
    }
}

impl TransferError {
    /// The step of the pipeline that the failure belongs to, if it concerns
    /// one file or the destination.
    pub fn phase(&self) -> (r: Option<Phase>)
        ensures
            r == self@.phase(),
    {
        match self {
            TransferError::InvalidDestination { .. } => Some(Phase::DestinationParse),
            TransferError::FetchFailed { phase, .. } => Some(*phase),
            TransferError::UploadFailed { .. } => Some(Phase::Upload),
            _ => None,
        }
    }

    /// Whether the failure ends the whole run rather than one file's
    /// transfer.
    pub fn is_fatal(&self) -> (r: bool)
        ensures
            r == self@.is_fatal(),
    {
        match self {
            TransferError::FetchFailed { .. } => false,
            TransferError::UploadFailed { .. } => false,
            _ => true,
        }
    }
}

} // verus!
