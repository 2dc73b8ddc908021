//! Content fetcher: how the bytes of one file are asked for, and whether the
//! answer may be streamed on.

use vstd::prelude::*;
use vstd::string::*;
use crate::errors::{Phase, StatusInfo, StatusInfoView, TransferError, TransferErrorView};
use crate::file::{DriveFileRef, DriveFileView};
use crate::mime::{export_mime_type, export_mime_types_from};

verus! {

/// The request that retrieves a file's bytes.
#[derive(Debug, PartialEq, Eq)]
pub enum FetchPlan {
    /// Export the Drive-native document to the given mime type.
    Export { file_id: String, mime_type: String },
    /// Download the raw media.
    Download { file_id: String },
}

/// Mathematical model of a [`FetchPlan`].
pub enum FetchPlanView {
    Export { file_id: Seq<char>, mime_type: Seq<char> },
    Download { file_id: Seq<char> },
}

impl View for FetchPlan {
    type V = FetchPlanView;

    open spec fn view(&self) -> FetchPlanView {
        match self {
            FetchPlan::Export { file_id, mime_type } => FetchPlanView::Export {
                file_id: file_id@,
                mime_type: mime_type@,
            },
            FetchPlan::Download { file_id } => FetchPlanView::Download { file_id: file_id@ },
        }
    }
}

/// How a file is fetched: by export where the table has a format for its
/// mime type, by raw download otherwise.
pub open spec fn fetch_plan(file: DriveFileView) -> FetchPlanView {
    if export_mime_type(file.mime_type).len() > 0 {
        FetchPlanView::Export { file_id: file.id, mime_type: export_mime_type(file.mime_type) }
    } else {
        FetchPlanView::Download { file_id: file.id }
    }
}

/// The step that a fetch by this plan belongs to.
pub open spec fn fetch_phase(file: DriveFileView) -> Phase {
    if export_mime_type(file.mime_type).len() > 0 {
        Phase::Export
    } else {
        Phase::Fetch
    }
}

/// Chooses the request that retrieves the content of `file`.
pub fn get_content_for(file: &DriveFileRef) -> (plan: FetchPlan)
    ensures
        plan@ == fetch_plan(file@),
{
    let export_mime_type = export_mime_types_from(file.mime_type.as_str());
    if !export_mime_type.is_empty() {
        FetchPlan::Export {
            file_id: file.id.clone(),
            mime_type: String::from_str(export_mime_type),
        }
    } else {
        FetchPlan::Download { file_id: file.id.clone() }
    }
}

/// What came back for a fetch request, before any byte of the body is read.
#[derive(Debug, PartialEq, Eq)]
pub enum FetchResponse {
    /// A response arrived, with this status code.
    Status(u16),
    /// No response arrived, for this reason.
    Failed(String),
}

/// Mathematical model of a [`FetchResponse`].
pub enum FetchResponseView {
    Status(u16),
    Failed(Seq<char>),
}

impl View for FetchResponse {
    type V = FetchResponseView;

    open spec fn view(&self) -> FetchResponseView {
        match self {
            FetchResponse::Status(c) => FetchResponseView::Status(*c),
            FetchResponse::Failed(m) => FetchResponseView::Failed(m@),
        }
    }
}

/// Whether a status code reports success: the codes from 200 to 299.
pub open spec fn is_success_status(code: u16) -> bool {
    200 <= code < 300
}

/// The verdict on a fetch: `None` where the body may be streamed on, the
/// failure otherwise.
pub open spec fn fetch_verdict(file: DriveFileView, response: FetchResponseView) -> Option<
    TransferErrorView,
> {
    match response {
        FetchResponseView::Status(code) => if is_success_status(code) {
            None
        } else {
            Some(
                TransferErrorView::FetchFailed {
                    file: file.name,
                    phase: fetch_phase(file),
                    status: StatusInfoView::Code(code),
                },
            )
        },
        FetchResponseView::Failed(cause) => Some(
            TransferErrorView::FetchFailed {
                file: file.name,
                phase: fetch_phase(file),
                status: StatusInfoView::Message(cause),
            },
        ),
    }
}

/// Checks that the answer to a fetch request reports success, so that its
/// body may be handed on as the file's content.
pub fn check_content_response(file: &DriveFileRef, response: &FetchResponse) -> (r: Result<
    (),
    TransferError,
>)
    ensures
        match r {
            Ok(_) => fetch_verdict(file@, response@) is None,
            Err(e) => fetch_verdict(file@, response@) == Some(e@),
        },
{
    let phase = if !export_mime_types_from(file.mime_type.as_str()).is_empty() {
        Phase::Export
    } else {
        Phase::Fetch
    };
    match response {
        FetchResponse::Status(code) => {
            if 200 <= *code && *code < 300 {
                Ok(())
            } else {
                Err(
                    TransferError::FetchFailed {
                        file: file.name.clone(),
                        phase,
                        status: StatusInfo::Code(*code),
                    },
                )
            }
        },
        FetchResponse::Failed(cause) => Err(
            TransferError::FetchFailed {
                file: file.name.clone(),
                phase,
                status: StatusInfo::Message(cause.clone()),
            },
        ),
    }
}

/// A file is exported exactly when its mime type has an export format, and
/// the request always names the file by its identifier.
pub proof fn lemma_fetch_plan_follows_export_table(file: DriveFileView)
    ensures
        fetch_plan(file) is Export <==> crate::mime::is_native_type(file.mime_type),
        fetch_plan(file) matches FetchPlanView::Export { file_id, mime_type } ==> file_id
            == file.id && mime_type == export_mime_type(file.mime_type),
        fetch_plan(file) matches FetchPlanView::Download { file_id } ==> file_id == file.id,
{
    crate::mime::lemma_export_exactly_for_native_types(file.mime_type);
}

} // verus!
