//! One transfer job: what is fetched, what is uploaded, and the outcome that
//! is reported for the file.

use vstd::prelude::*;
use vstd::string::*;
use crate::checksum::{base64_standard, content_md5, hex_bytes, integrity_value, is_hex_text};
use crate::destination::{S3Destination, S3DestinationView};
use crate::errors::{TransferError, TransferErrorView};
use crate::fetch::{
    check_content_response, fetch_plan, fetch_verdict, get_content_for, FetchPlan, FetchPlanView,
    FetchResponse, FetchResponseView,
};
use crate::file::{clone_opt_text, opt_text, DriveFileRef, DriveFileView};

verus! {

/// The fields of the request that stores one object. The body, a stream of
/// the file's bytes, is the caller's to attach.
#[derive(Debug, PartialEq, Eq)]
pub struct UploadRequest {
    pub bucket: String,
    pub key: String,
    /// The integrity header, where the file has a checksum.
    pub content_md5: Option<String>,
    /// Handed to the destination as given.
    pub storage_class: String,
}

/// Mathematical model of an [`UploadRequest`].
pub struct UploadRequestView {
    pub bucket: Seq<char>,
    pub key: Seq<char>,
    pub content_md5: Option<Seq<char>>,
    pub storage_class: Seq<char>,
}

impl View for UploadRequest {
    type V = UploadRequestView;

    open spec fn view(&self) -> UploadRequestView {
        UploadRequestView {
            bucket: self.bucket@,
            key: self.key@,
            content_md5: opt_text(self.content_md5),
            storage_class: self.storage_class@,
        }
    }
}

impl Clone for UploadRequest {
    fn clone(&self) -> (r: Self)
        ensures
            r@ == self@,
    {
        UploadRequest {
            bucket: self.bucket.clone(),
            key: self.key.clone(),
            content_md5: clone_opt_text(&self.content_md5),
            storage_class: self.storage_class.clone(),
        }
    }
}

/// The upload request for a file, given the integrity value that goes with
/// it, if any.
pub open spec fn upload_request_with(
    file: DriveFileView,
    destination: S3DestinationView,
    storage_class: Seq<char>,
    integrity: Option<Seq<char>>,
) -> UploadRequestView {
    UploadRequestView {
        bucket: destination.bucket,
        key: destination.object_key(file.name),
        content_md5: integrity,
        storage_class,
    }
}

/// What is reported of a checksum that is not hexadecimal.
pub open spec fn invalid_checksum_cause() -> Seq<char> {
    "checksum is not hexadecimal"@
}

/// The upload request for a file. A file without a checksum is uploaded
/// without the integrity header; one whose checksum is not hexadecimal is
/// not uploaded.
pub open spec fn upload_request_of(
    file: DriveFileView,
    destination: S3DestinationView,
    storage_class: Seq<char>,
) -> Result<UploadRequestView, TransferErrorView> {
    match file.md5_checksum {
        None => Ok(upload_request_with(file, destination, storage_class, None)),
        Some(checksum) => match integrity_value(checksum) {
            Some(value) => Ok(upload_request_with(file, destination, storage_class, Some(value))),
            None => Err(
                TransferErrorView::UploadFailed { file: file.name, cause: invalid_checksum_cause() },
            ),
        },
    }
}

/// Assembles the upload request for `file`, with the integrity header that
/// `integrity` holds, or without one.
pub fn assemble_upload(
    file: &DriveFileRef,
    destination: &S3Destination,
    storage_class: &str,
    integrity: Option<String>,
) -> (r: UploadRequest)
    ensures
        r@ == upload_request_with(file@, destination@, storage_class@, opt_text(integrity)),
{
    UploadRequest {
        bucket: destination.bucket.clone(),
        key: destination.object_key(file.name.as_str()),
        content_md5: integrity,
        storage_class: String::from_str(storage_class),
    }
}

/// The upload request for `file`: bucket, key, integrity header and storage
/// class.
pub fn upload_request(file: &DriveFileRef, destination: &S3Destination, storage_class: &str) -> (r:
    Result<UploadRequest, TransferError>)
    ensures
        match r {
            Ok(request) => upload_request_of(file@, destination@, storage_class@) == Ok::<
                UploadRequestView,
                TransferErrorView,
            >(request@),
            Err(e) => upload_request_of(file@, destination@, storage_class@) == Err::<
                UploadRequestView,
                TransferErrorView,
            >(e@),
        },
{
    match &file.md5_checksum {
        None => Ok(assemble_upload(file, destination, storage_class, None)),
        Some(checksum) => match content_md5(checksum.as_str()) {
            Some(value) => Ok(assemble_upload(file, destination, storage_class, Some(value))),
            None => Err(
                TransferError::UploadFailed {
                    file: file.name.clone(),
                    cause: String::from_str("checksum is not hexadecimal"),
                },
            ),
        },
    }
}

/// The two requests that copy one file.
#[derive(Debug, PartialEq, Eq)]
pub struct CopyPlan {
    pub fetch: FetchPlan,
    pub upload: UploadRequest,
}

/// Mathematical model of a [`CopyPlan`].
pub struct CopyPlanView {
    pub fetch: FetchPlanView,
    pub upload: UploadRequestView,
}

impl View for CopyPlan {
    type V = CopyPlanView;

    open spec fn view(&self) -> CopyPlanView {
        CopyPlanView { fetch: self.fetch@, upload: self.upload@ }
    }
}

/// The requests that copy a file to a destination, or the failure that
/// keeps the file from being copied.
pub open spec fn copy_plan_of(
    file: DriveFileView,
    destination: S3DestinationView,
    storage_class: Seq<char>,
) -> Result<CopyPlanView, TransferErrorView> {
    match upload_request_of(file, destination, storage_class) {
        Ok(upload) => Ok(CopyPlanView { fetch: fetch_plan(file), upload }),
        Err(e) => Err(e),
    }
}

/// Plans the copy of one file: how its content is fetched, and the request
/// that stores it.
pub fn copy_plan(file: &DriveFileRef, destination: &S3Destination, storage_class: &str) -> (r:
    Result<CopyPlan, TransferError>)
    ensures
        match r {
            Ok(plan) => copy_plan_of(file@, destination@, storage_class@) == Ok::<
                CopyPlanView,
                TransferErrorView,
            >(plan@),
            Err(e) => copy_plan_of(file@, destination@, storage_class@) == Err::<
                CopyPlanView,
                TransferErrorView,
            >(e@),
        },
{
    match upload_request(file, destination, storage_class) {
        Ok(upload) => Ok(CopyPlan { fetch: get_content_for(file), upload }),
        Err(e) => Err(e),
    }
}

/// What came back for an upload request.
#[derive(Debug, PartialEq, Eq)]
pub enum UploadResponse {
    /// The destination stored the object.
    Stored,
    /// The destination did not store it, for this reason.
    Failed(String),
}

/// Mathematical model of an [`UploadResponse`].
pub enum UploadResponseView {
    Stored,
    Failed(Seq<char>),
}

impl View for UploadResponse {
    type V = UploadResponseView;

    open spec fn view(&self) -> UploadResponseView {
        match self {
            UploadResponse::Stored => UploadResponseView::Stored,
            UploadResponse::Failed(m) => UploadResponseView::Failed(m@),
        }
    }
}

/// The verdict on an upload: `None` where the object was stored, the
/// failure otherwise.
pub open spec fn upload_verdict(file: DriveFileView, response: UploadResponseView) -> Option<
    TransferErrorView,
> {
    match response {
        UploadResponseView::Stored => None,
        UploadResponseView::Failed(cause) => Some(
            TransferErrorView::UploadFailed { file: file.name, cause },
        ),
    }
}

/// Turns the answer to an upload request into success or the failure of
/// that file's upload.
pub fn check_upload_response(file: &DriveFileRef, response: &UploadResponse) -> (r: Result<
    (),
    TransferError,
>)
    ensures
        match r {
            Ok(_) => upload_verdict(file@, response@) is None,
            Err(e) => upload_verdict(file@, response@) == Some(e@),
        },
{
    match response {
        UploadResponse::Stored => Ok(()),
        UploadResponse::Failed(cause) => Err(
            TransferError::UploadFailed { file: file.name.clone(), cause: cause.clone() },
        ),
    }
}

/// Every object of a run goes to the run's bucket, under the run's prefix
/// followed by the file's name, with the caller's storage class, and with an
/// integrity header exactly when the file has a checksum.
pub proof fn lemma_upload_request_fields(
    file: DriveFileView,
    destination: S3DestinationView,
    storage_class: Seq<char>,
)
    ensures
        upload_request_of(file, destination, storage_class) matches Ok(request) ==> {
            &&& request.bucket == destination.bucket
            &&& request.key == destination.prefix + file.name
            &&& request.storage_class == storage_class
            &&& request.content_md5 is Some <==> file.md5_checksum is Some
            &&& file.md5_checksum matches Some(checksum) ==> request.content_md5 == Some(
                base64_standard(hex_bytes(checksum)),
            )
        },
        upload_request_of(file, destination, storage_class) is Ok <==> (file.md5_checksum matches Some(
            checksum,
        ) ==> is_hex_text(checksum)),
{
}

/// One job: a file, the destination of the run and its storage class.
#[derive(Debug, PartialEq, Eq)]
pub struct TransferJob {
    /// The position of the file in the batch. The end of the job is
    /// reported under it.
    pub index: usize,
    pub file: DriveFileRef,
    pub destination: S3Destination,
    pub storage_class: String,
}

/// Mathematical model of a [`TransferJob`].
pub struct TransferJobView {
    pub index: usize,
    pub file: DriveFileView,
    pub destination: S3DestinationView,
    pub storage_class: Seq<char>,
}

impl View for TransferJob {
    type V = TransferJobView;

    open spec fn view(&self) -> TransferJobView {
        TransferJobView {
            index: self.index,
            file: self.file@,
            destination: self.destination@,
            storage_class: self.storage_class@,
        }
    }
}

/// How far the copy of one file has come.
#[derive(Clone, Copy, Debug, PartialEq, Eq, Structural)]
pub enum CopyStage {
    /// Nothing has been asked for yet.
    Ready,
    /// The content has been asked for.
    Fetching,
    /// The content is being streamed to the destination.
    Uploading,
    /// The job has ended, with success or with a failure.
    Ended,
}

/// What the caller reports of a job.
#[derive(Debug, PartialEq, Eq)]
pub enum CopyEvent {
    /// The job is to begin.
    Begin,
    /// The fetch request was answered.
    Fetched(FetchResponse),
    /// The upload request was answered.
    Uploaded(UploadResponse),
}

/// Mathematical model of a [`CopyEvent`].
pub enum CopyEventView {
    Begin,
    Fetched(FetchResponseView),
    Uploaded(UploadResponseView),
}

impl View for CopyEvent {
    type V = CopyEventView;

    open spec fn view(&self) -> CopyEventView {
        match self {
            CopyEvent::Begin => CopyEventView::Begin,
            CopyEvent::Fetched(r) => CopyEventView::Fetched(r@),
            CopyEvent::Uploaded(r) => CopyEventView::Uploaded(r@),
        }
    }
}

/// What the caller is to do next for a job.
#[derive(Debug, PartialEq, Eq)]
pub enum CopyAction {
    /// Send this fetch request.
    Fetch(FetchPlan),
    /// Send this upload request, with the fetched content as its body.
    Upload(UploadRequest),
    /// Report the end of the job: with this failure, or with success.
    Finish(Option<TransferError>),
    /// Nothing: the event was not the one that the job waits for.
    Wait,
}

/// Mathematical model of a [`CopyAction`].
pub enum CopyActionView {
    Fetch(FetchPlanView),
    Upload(UploadRequestView),
    Finish(Option<TransferErrorView>),
    Wait,
}

impl View for CopyAction {
    type V = CopyActionView;

    open spec fn view(&self) -> CopyActionView {
        match self {
            CopyAction::Fetch(p) => CopyActionView::Fetch(p@),
            CopyAction::Upload(r) => CopyActionView::Upload(r@),
            CopyAction::Finish(Some(e)) => CopyActionView::Finish(Some(e@)),
            CopyAction::Finish(None) => CopyActionView::Finish(None),
            CopyAction::Wait => CopyActionView::Wait,
        }
    }
}

/// One step of the copy of a file: the stage that follows and what is to
/// be done. The file is fetched, then uploaded; the first failure ends the
/// job, and nothing is tried again.
pub open spec fn copy_step(job: TransferJobView, stage: CopyStage, event: CopyEventView) -> (
    CopyStage,
    CopyActionView,
) {
    match (stage, event) {
        (CopyStage::Ready, CopyEventView::Begin) => match copy_plan_of(
            job.file,
            job.destination,
            job.storage_class,
        ) {
            Ok(plan) => (CopyStage::Fetching, CopyActionView::Fetch(plan.fetch)),
            Err(e) => (CopyStage::Ended, CopyActionView::Finish(Some(e))),
        },
        (CopyStage::Fetching, CopyEventView::Fetched(response)) => match fetch_verdict(
            job.file,
            response,
        ) {
            Some(e) => (CopyStage::Ended, CopyActionView::Finish(Some(e))),
            None => match upload_request_of(job.file, job.destination, job.storage_class) {
                Ok(upload) => (CopyStage::Uploading, CopyActionView::Upload(upload)),
                Err(e) => (CopyStage::Ended, CopyActionView::Finish(Some(e))),
            },
        },
        (CopyStage::Uploading, CopyEventView::Uploaded(response)) => (
            CopyStage::Ended,
            CopyActionView::Finish(upload_verdict(job.file, response)),
        ),
        _ => (stage, CopyActionView::Wait),
    }
}

/// Copies one file, step by step: given the stage of the job and what has
/// just happened, says which stage follows and what the caller is to do.
pub fn copy_file(job: &TransferJob, stage: CopyStage, event: &CopyEvent) -> (r: (
    CopyStage,
    CopyAction,
))
    ensures
        (r.0, r.1@) == copy_step(job@, stage, event@),
{
    match (stage, event) {
        (CopyStage::Ready, CopyEvent::Begin) => {
            match copy_plan(&job.file, &job.destination, job.storage_class.as_str()) {
                Ok(plan) => (CopyStage::Fetching, CopyAction::Fetch(plan.fetch)),
                Err(e) => (CopyStage::Ended, CopyAction::Finish(Some(e))),
            }
        },
        (CopyStage::Fetching, CopyEvent::Fetched(response)) => {
            match check_content_response(&job.file, response) {
                Err(e) => (CopyStage::Ended, CopyAction::Finish(Some(e))),
                Ok(_) => match upload_request(
                    &job.file,
                    &job.destination,
                    job.storage_class.as_str(),
                ) {
                    Ok(upload) => (CopyStage::Uploading, CopyAction::Upload(upload)),
                    Err(e) => (CopyStage::Ended, CopyAction::Finish(Some(e))),
                },
            }
        },
        (CopyStage::Uploading, CopyEvent::Uploaded(response)) => {
            match check_upload_response(&job.file, response) {
                Ok(_) => (CopyStage::Ended, CopyAction::Finish(None)),
                Err(e) => (CopyStage::Ended, CopyAction::Finish(Some(e))),
            }
        },
        _ => (stage, CopyAction::Wait),
    }
}

/// The order of a job. An upload is asked for only in answer to a fetch
/// that succeeded; a job ends exactly when it reports, and a failure
/// always ends it; a job that has ended asks for nothing more.
pub proof fn lemma_copy_fetches_then_uploads(
    job: TransferJobView,
    stage: CopyStage,
    event: CopyEventView,
)
    ensures
        copy_step(job, stage, event).1 is Fetch ==> stage == CopyStage::Ready && event is Begin,
        copy_step(job, stage, event).1 is Upload ==> stage == CopyStage::Fetching && (
        event matches CopyEventView::Fetched(response) && fetch_verdict(job.file, response) is None),
        copy_step(job, stage, event).1 is Finish <==> copy_step(job, stage, event).0
            == CopyStage::Ended && stage != CopyStage::Ended,
        stage == CopyStage::Ended ==> copy_step(job, stage, event) == (
            CopyStage::Ended,
            CopyActionView::Wait,
        ),
        copy_step(job, stage, event).1 is Wait ==> copy_step(job, stage, event).0 == stage,
{
}

/// A job succeeds only by way of a stored object: it reports success
/// exactly when the destination answers the upload with success.
pub proof fn lemma_copy_succeeds_only_when_stored(
    job: TransferJobView,
    stage: CopyStage,
    event: CopyEventView,
)
    ensures
        copy_step(job, stage, event).1 == CopyActionView::Finish(None) <==> stage
            == CopyStage::Uploading && event == CopyEventView::Uploaded(UploadResponseView::Stored),
{
}

/// The throughput of a finished job in bytes per second, rounded down:
/// known where the file's size is known and some time has passed, and
/// indeterminate otherwise.
pub open spec fn throughput_of(size: Option<u64>, elapsed_nanos: u128) -> Option<int> {
    match size {
        Some(bytes) => if elapsed_nanos > 0 {
            Some(bytes * 1_000_000_000 / (elapsed_nanos as int))
        } else {
            None
        },
        None => None,
    }
}

/// The throughput figure for the log of a job that took `elapsed_nanos`
/// nanoseconds, or `None` where it is indeterminate. There is no input on
/// which it fails.
pub fn throughput(size: Option<u64>, elapsed_nanos: u128) -> (r: Option<u128>)
    ensures
        match r {
            Some(rate) => throughput_of(size, elapsed_nanos) == Some(rate as int),
            None => throughput_of(size, elapsed_nanos) is None,
        },
{
    match size {
        Some(bytes) => {
            if elapsed_nanos > 0 {
                let scaled: u128 = bytes as u128 * 1_000_000_000;
                Some(scaled / elapsed_nanos)
            } else {
                None
            }
        },
        None => None,
    }
}

} // verus!
