use google_backup_to_s3::destination::{locate, parse_s3_url, S3Destination, UrlParts};
use google_backup_to_s3::errors::TransferError;

#[test]
fn parse_s3_url_splits_bucket_name_and_path_correctly() {
    let (bucket, path) = parse_s3_url("s3://mybucket/some/path/").unwrap();

    assert_eq!(bucket, "mybucket");
    assert_eq!(path.as_str(), "some/path/");

    let (bucket, path) = parse_s3_url("s3://mybucket").unwrap();

    assert_eq!(bucket, "mybucket");
    assert_eq!(path.as_str(), "");

    let (bucket, path) = parse_s3_url("s3://mybucket/").unwrap();

    assert_eq!(bucket, "mybucket");
    assert_eq!(path.as_str(), "");
}

#[test]
fn parse_s3_url_keeps_nested_prefix() {
    let (bucket, path) = parse_s3_url("s3://bucket/a/b/").unwrap();
    assert_eq!(bucket, "bucket");
    assert_eq!(path, "a/b/");
}

#[test]
fn parse_s3_url_keeps_prefix_without_trailing_separator() {
    let (bucket, path) = parse_s3_url("s3://bucket/a/b").unwrap();
    assert_eq!(bucket, "bucket");
    assert_eq!(path, "a/b");
}

#[test]
fn parse_s3_url_strips_one_leading_separator_only() {
    let (bucket, path) = parse_s3_url("s3://bucket//a").unwrap();
    assert_eq!(bucket, "bucket");
    assert_eq!(path, "/a");
}

#[test]
fn parse_s3_url_rejects_other_scheme() {
    assert_eq!(
        parse_s3_url("https://mybucket/some/path/"),
        Err(TransferError::InvalidDestination { url: "https://mybucket/some/path/".to_string() })
    );
    assert_eq!(
        parse_s3_url("gs://mybucket/x"),
        Err(TransferError::InvalidDestination { url: "gs://mybucket/x".to_string() })
    );
}

#[test]
fn parse_s3_url_rejects_malformed_url() {
    assert_eq!(
        parse_s3_url("mybucket/some/path"),
        Err(TransferError::InvalidDestination { url: "mybucket/some/path".to_string() })
    );
    assert_eq!(parse_s3_url(""), Err(TransferError::InvalidDestination { url: String::new() }));
}

#[test]
fn parse_s3_url_rejects_url_without_bucket() {
    assert_eq!(
        parse_s3_url("s3:/only/a/path"),
        Err(TransferError::InvalidDestination { url: "s3:/only/a/path".to_string() })
    );
}

#[test]
fn parse_s3_url_is_repeatable() {
    assert_eq!(parse_s3_url("s3://bucket/a/b/"), parse_s3_url("s3://bucket/a/b/"));
}

#[test]
fn parse_s3_url_reads_the_url_and_not_its_text() {
    // The scheme is matched as the parser reports it, and the query is no
    // part of the prefix: neither holds of the raw text.
    let (bucket, path) = parse_s3_url("S3://bucket/a?x=1").unwrap();
    assert_eq!(bucket, "bucket");
    assert_eq!(path, "a");
}

#[test]
fn locate_takes_host_and_path() {
    let parts = UrlParts {
        scheme: "s3".to_string(),
        host: Some("bucket".to_string()),
        path: "/a/b/".to_string(),
    };
    assert_eq!(
        locate("s3://bucket/a/b/", Some(parts)),
        Ok(("bucket".to_string(), "a/b/".to_string()))
    );
}

#[test]
fn locate_rejects_what_did_not_parse() {
    assert_eq!(
        locate("nonsense", None),
        Err(TransferError::InvalidDestination { url: "nonsense".to_string() })
    );
}

#[test]
fn locate_rejects_missing_host_and_other_scheme() {
    let no_host = UrlParts { scheme: "s3".to_string(), host: None, path: "/a".to_string() };
    assert_eq!(
        locate("s3:/a", Some(no_host)),
        Err(TransferError::InvalidDestination { url: "s3:/a".to_string() })
    );
    let other = UrlParts {
        scheme: "s3a".to_string(),
        host: Some("bucket".to_string()),
        path: "/a".to_string(),
    };
    assert_eq!(
        locate("s3a://bucket/a", Some(other)),
        Err(TransferError::InvalidDestination { url: "s3a://bucket/a".to_string() })
    );
}

#[test]
fn object_key_is_prefix_then_name() {
    let destination =
        S3Destination { bucket: "bucket".to_string(), prefix: "some/path/".to_string() };
    assert_eq!(destination.object_key("report.pdf"), "some/path/report.pdf");

    let bare = S3Destination { bucket: "bucket".to_string(), prefix: String::new() };
    assert_eq!(bare.object_key("report.pdf"), "report.pdf");

    let open_ended = S3Destination { bucket: "bucket".to_string(), prefix: "daily-".to_string() };
    assert_eq!(open_ended.object_key("report.pdf"), "daily-report.pdf");
}
