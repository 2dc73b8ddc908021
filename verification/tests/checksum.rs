use google_backup_to_s3::checksum::content_md5;
use google_backup_to_s3::destination::S3Destination;
use google_backup_to_s3::errors::TransferError;
use google_backup_to_s3::fetch::{FetchPlan, FetchResponse};
use google_backup_to_s3::file::DriveFileRef;
use google_backup_to_s3::errors::{Phase, StatusInfo};
use google_backup_to_s3::transfer::{
    assemble_upload, check_upload_response, copy_file, copy_plan, throughput, upload_request,
    CopyAction, CopyEvent, CopyStage, TransferJob, UploadRequest, UploadResponse,
};

fn file_with_checksum(checksum: Option<&str>) -> DriveFileRef {
    DriveFileRef {
        id: "id-1".to_string(),
        name: "empty.bin".to_string(),
        mime_type: "application/octet-stream".to_string(),
        md5_checksum: checksum.map(|c| c.to_string()),
        size: Some(0),
        parents: Vec::new(),
    }
}

fn destination() -> S3Destination {
    S3Destination { bucket: "mybucket".to_string(), prefix: "some/path/".to_string() }
}

#[test]
fn checksum_header_is_base64_of_decoded_bytes() {
    let value = content_md5("d41d8cd98f00b204e9800998ecf8427e").unwrap();
    assert_eq!(value, "1B2M2Y8AsgTpgAmY7PhCfg==");

    let raw = hex::decode("d41d8cd98f00b204e9800998ecf8427e").unwrap();
    assert_eq!(raw.len(), 16);
    assert_eq!(value, base64::encode(&raw));
    assert_ne!(value, "d41d8cd98f00b204e9800998ecf8427e");
}

#[test]
fn checksum_digits_of_either_case() {
    assert_eq!(content_md5("D41D8CD98F00B204E9800998ECF8427E").unwrap(), "1B2M2Y8AsgTpgAmY7PhCfg==");
    assert_eq!(content_md5("00ff"), Some("AP8=".to_string()));
    assert_eq!(content_md5("00Ff10"), Some("AP8Q".to_string()));
    assert_eq!(content_md5(""), Some(String::new()));
}

#[test]
fn checksum_that_is_not_hexadecimal_has_no_value() {
    assert_eq!(content_md5("abc"), None);
    assert_eq!(content_md5("zz"), None);
    assert_eq!(content_md5("d41d8cd98f00b204e9800998ecf8427g"), None);
    assert_eq!(content_md5("0x00"), None);
    assert_eq!(content_md5("é0"), None);
}

#[test]
fn upload_request_carries_the_integrity_header() {
    let file = file_with_checksum(Some("d41d8cd98f00b204e9800998ecf8427e"));
    assert_eq!(
        upload_request(&file, &destination(), "STANDARD"),
        Ok(UploadRequest {
            bucket: "mybucket".to_string(),
            key: "some/path/empty.bin".to_string(),
            content_md5: Some("1B2M2Y8AsgTpgAmY7PhCfg==".to_string()),
            storage_class: "STANDARD".to_string(),
        })
    );
}

#[test]
fn upload_request_without_checksum_has_no_header() {
    let file = file_with_checksum(None);
    assert_eq!(
        upload_request(&file, &destination(), "DEEP_ARCHIVE"),
        Ok(UploadRequest {
            bucket: "mybucket".to_string(),
            key: "some/path/empty.bin".to_string(),
            content_md5: None,
            storage_class: "DEEP_ARCHIVE".to_string(),
        })
    );
}

#[test]
fn upload_request_passes_storage_class_through() {
    let file = file_with_checksum(None);
    let request = upload_request(&file, &destination(), "not a storage class").unwrap();
    assert_eq!(request.storage_class, "not a storage class");
}

#[test]
fn upload_request_fails_on_bad_checksum() {
    let file = file_with_checksum(Some("not hex"));
    assert_eq!(
        upload_request(&file, &destination(), "STANDARD"),
        Err(TransferError::UploadFailed {
            file: "empty.bin".to_string(),
            cause: "checksum is not hexadecimal".to_string(),
        })
    );
}

#[test]
fn assemble_upload_attaches_what_it_is_given() {
    let file = file_with_checksum(None);
    let request = assemble_upload(&file, &destination(), "STANDARD", Some("abcd".to_string()));
    assert_eq!(request.content_md5, Some("abcd".to_string()));
    assert_eq!(request.key, "some/path/empty.bin");
    assert_eq!(request.bucket, "mybucket");
    assert_eq!(request.clone(), request);
}

#[test]
fn copy_plan_holds_both_requests() {
    let file = file_with_checksum(Some("00ff"));
    let plan = copy_plan(&file, &destination(), "STANDARD").unwrap();
    assert_eq!(plan.fetch, FetchPlan::Download { file_id: "id-1".to_string() });
    assert_eq!(plan.upload.key, "some/path/empty.bin");
    assert_eq!(plan.upload.content_md5, Some("AP8=".to_string()));

    let bad = file_with_checksum(Some("0"));
    assert_eq!(
        copy_plan(&bad, &destination(), "STANDARD"),
        Err(TransferError::UploadFailed {
            file: "empty.bin".to_string(),
            cause: "checksum is not hexadecimal".to_string(),
        })
    );
}

#[test]
fn upload_response_becomes_outcome() {
    let file = file_with_checksum(None);
    assert_eq!(check_upload_response(&file, &UploadResponse::Stored), Ok(()));
    assert_eq!(
        check_upload_response(&file, &UploadResponse::Failed("access denied".to_string())),
        Err(TransferError::UploadFailed {
            file: "empty.bin".to_string(),
            cause: "access denied".to_string(),
        })
    );
}

fn job_for(file: DriveFileRef) -> TransferJob {
    TransferJob { index: 0, file, destination: destination(), storage_class: "STANDARD".to_string() }
}

#[test]
fn copy_fetches_then_uploads_then_succeeds() {
    let job = job_for(file_with_checksum(Some("d41d8cd98f00b204e9800998ecf8427e")));

    let (stage, action) = copy_file(&job, CopyStage::Ready, &CopyEvent::Begin);
    assert_eq!(stage, CopyStage::Fetching);
    assert_eq!(action, CopyAction::Fetch(FetchPlan::Download { file_id: "id-1".to_string() }));

    let (stage, action) =
        copy_file(&job, stage, &CopyEvent::Fetched(FetchResponse::Status(200)));
    assert_eq!(stage, CopyStage::Uploading);
    assert_eq!(
        action,
        CopyAction::Upload(UploadRequest {
            bucket: "mybucket".to_string(),
            key: "some/path/empty.bin".to_string(),
            content_md5: Some("1B2M2Y8AsgTpgAmY7PhCfg==".to_string()),
            storage_class: "STANDARD".to_string(),
        })
    );

    let (stage, action) = copy_file(&job, stage, &CopyEvent::Uploaded(UploadResponse::Stored));
    assert_eq!(stage, CopyStage::Ended);
    assert_eq!(action, CopyAction::Finish(None));
}

#[test]
fn copy_without_checksum_still_succeeds() {
    let job = job_for(file_with_checksum(None));
    let (stage, _) = copy_file(&job, CopyStage::Ready, &CopyEvent::Begin);
    let (stage, action) =
        copy_file(&job, stage, &CopyEvent::Fetched(FetchResponse::Status(200)));
    match action {
        CopyAction::Upload(request) => assert_eq!(request.content_md5, None),
        other => panic!("expected an upload, got {:?}", other),
    }
    let (stage, action) = copy_file(&job, stage, &CopyEvent::Uploaded(UploadResponse::Stored));
    assert_eq!((stage, action), (CopyStage::Ended, CopyAction::Finish(None)));
}

#[test]
fn failed_fetch_ends_the_job_without_upload() {
    let job = job_for(file_with_checksum(None));
    let (stage, _) = copy_file(&job, CopyStage::Ready, &CopyEvent::Begin);
    let (stage, action) =
        copy_file(&job, stage, &CopyEvent::Fetched(FetchResponse::Status(403)));
    assert_eq!(stage, CopyStage::Ended);
    assert_eq!(
        action,
        CopyAction::Finish(Some(TransferError::FetchFailed {
            file: "empty.bin".to_string(),
            phase: Phase::Fetch,
            status: StatusInfo::Code(403),
        }))
    );
    let (stage, action) = copy_file(&job, stage, &CopyEvent::Uploaded(UploadResponse::Stored));
    assert_eq!((stage, action), (CopyStage::Ended, CopyAction::Wait));
}

#[test]
fn failed_upload_ends_the_job() {
    let job = job_for(file_with_checksum(None));
    let (stage, action) = copy_file(
        &job,
        CopyStage::Uploading,
        &CopyEvent::Uploaded(UploadResponse::Failed("slow down".to_string())),
    );
    assert_eq!(stage, CopyStage::Ended);
    assert_eq!(
        action,
        CopyAction::Finish(Some(TransferError::UploadFailed {
            file: "empty.bin".to_string(),
            cause: "slow down".to_string(),
        }))
    );
}

#[test]
fn bad_checksum_ends_the_job_before_any_request() {
    let job = job_for(file_with_checksum(Some("xyz")));
    let (stage, action) = copy_file(&job, CopyStage::Ready, &CopyEvent::Begin);
    assert_eq!(stage, CopyStage::Ended);
    assert_eq!(
        action,
        CopyAction::Finish(Some(TransferError::UploadFailed {
            file: "empty.bin".to_string(),
            cause: "checksum is not hexadecimal".to_string(),
        }))
    );
}

#[test]
fn event_out_of_turn_changes_nothing() {
    let job = job_for(file_with_checksum(None));
    assert_eq!(
        copy_file(&job, CopyStage::Ready, &CopyEvent::Uploaded(UploadResponse::Stored)),
        (CopyStage::Ready, CopyAction::Wait)
    );
    assert_eq!(
        copy_file(&job, CopyStage::Fetching, &CopyEvent::Begin),
        (CopyStage::Fetching, CopyAction::Wait)
    );
    assert_eq!(
        copy_file(&job, CopyStage::Uploading, &CopyEvent::Fetched(FetchResponse::Status(200))),
        (CopyStage::Uploading, CopyAction::Wait)
    );
}

#[test]
fn throughput_is_bytes_per_second() {
    assert_eq!(throughput(Some(1_000), 1_000_000_000), Some(1_000));
    assert_eq!(throughput(Some(1_000), 500_000_000), Some(2_000));
    assert_eq!(throughput(Some(1_000), 3_000_000_000), Some(333));
    assert_eq!(throughput(Some(0), 1), Some(0));
    assert_eq!(throughput(Some(1), 1), Some(1_000_000_000));
    assert_eq!(
        throughput(Some(u64::MAX), 1),
        Some(18_446_744_073_709_551_615_000_000_000u128)
    );
    assert_eq!(throughput(Some(5), u128::MAX), Some(0));
}

#[test]
fn throughput_is_indeterminate_without_size_or_time() {
    assert_eq!(throughput(None, 1_000_000_000), None);
    assert_eq!(throughput(None, 0), None);
    assert_eq!(throughput(Some(1_000), 0), None);
}
