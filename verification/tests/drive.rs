use google_backup_to_s3::credentials::{create_aus_from_env_vars, AuthorizedUser};
use google_backup_to_s3::drive::{
    folder_id_from_folder_name, folder_lookup_failed, folder_request, list_files_in_folder,
    list_files_in_folder_id_per_page, source_folder_request, FilePage, ListRequest,
};
use google_backup_to_s3::errors::TransferError;
use google_backup_to_s3::file::DriveFileRef;

fn file(id: &str, name: &str) -> DriveFileRef {
    DriveFileRef {
        id: id.to_string(),
        name: name.to_string(),
        mime_type: "text/plain".to_string(),
        md5_checksum: Some("00ff".to_string()),
        size: Some(2),
        parents: vec!["folder-id".to_string()],
    }
}

fn folder(id: &str, name: &str) -> DriveFileRef {
    DriveFileRef {
        id: id.to_string(),
        name: name.to_string(),
        mime_type: "application/vnd.google-apps.folder".to_string(),
        md5_checksum: None,
        size: None,
        parents: vec!["root".to_string()],
    }
}

/// A server that answers with the pages it was given, in order, and keeps
/// the queries that it received.
struct FakeLister {
    pages: Vec<FilePage>,
    received: Vec<ListRequest>,
}

impl FakeLister {
    fn answer(&mut self, request: ListRequest) -> FilePage {
        self.received.push(request);
        self.pages.remove(0)
    }
}

#[test]
fn folder_request_asks_for_folders_of_that_name_under_parent() {
    let request = folder_request("Backups", "root");
    assert_eq!(
        request.q,
        "name = 'Backups' and mimeType = 'application/vnd.google-apps.folder' and 'root' in parents"
    );
    assert_eq!(request.fields, "files(id,name,parents,size,mimeType)");
    assert_eq!(request.page_token, None);
}

#[test]
fn source_folder_is_looked_up_under_the_root() {
    assert_eq!(source_folder_request("Backups"), folder_request("Backups", "root"));
    assert_eq!(
        source_folder_request("Backups").q,
        "name = 'Backups' and mimeType = 'application/vnd.google-apps.folder' and 'root' in parents"
    );
}

#[test]
fn page_request_asks_for_the_listing_fields() {
    let first = list_files_in_folder_id_per_page(&"folder-id".to_string(), &None);
    assert_eq!(
        first.q,
        "'folder-id' in parents and mimeType != 'application/vnd.google-apps.folder'"
    );
    assert_eq!(first.fields, "nextPageToken,files(id,name,parents,md5Checksum,size,mimeType)");
    assert_eq!(first.page_token, None);

    let later = list_files_in_folder_id_per_page(&"folder-id".to_string(), &Some("C1".to_string()));
    assert_eq!(later.q, first.q);
    assert_eq!(later.fields, first.fields);
    assert_eq!(later.page_token, Some("C1".to_string()));
}

#[test]
fn folder_lookup_without_answer_is_a_listing_failure() {
    assert_eq!(
        folder_lookup_failed("root", "timed out"),
        TransferError::ListingFailed { folder_id: "root".to_string(), cause: "timed out".to_string() }
    );
}

#[test]
fn folder_resolution_zero_matches() {
    assert_eq!(
        folder_id_from_folder_name("Backups", &Vec::new()),
        Err(TransferError::FolderNotFound { folder: "Backups".to_string() })
    );
}

#[test]
fn folder_resolution_two_matches() {
    let matches = vec![folder("id-a", "Backups"), folder("id-b", "Backups")];
    assert_eq!(
        folder_id_from_folder_name("Backups", &matches),
        Err(TransferError::FolderAmbiguous { folder: "Backups".to_string(), matches: 2 })
    );
    let three = vec![folder("a", "B"), folder("b", "B"), folder("c", "B")];
    assert_eq!(
        folder_id_from_folder_name("B", &three),
        Err(TransferError::FolderAmbiguous { folder: "B".to_string(), matches: 3 })
    );
}

#[test]
fn folder_resolution_one_match() {
    let matches = vec![folder("id-a", "Backups")];
    assert_eq!(folder_id_from_folder_name("Backups", &matches), Ok("id-a".to_string()));
}

#[test]
fn pagination_accumulates_three_pages() {
    let p1 = vec![file("1", "a"), file("2", "b")];
    let p2 = vec![file("3", "c")];
    let p3 = vec![file("4", "d"), file("5", "e")];
    let mut server = FakeLister {
        pages: vec![
            FilePage { files: p1.clone(), next_page_token: Some("C1".to_string()) },
            FilePage { files: p2.clone(), next_page_token: Some("C2".to_string()) },
            FilePage { files: p3.clone(), next_page_token: None },
        ],
        received: Vec::new(),
    };

    let mut listing = list_files_in_folder("folder-id");
    while let Some(request) = listing.next_request() {
        let page = server.answer(request);
        listing.accept_page(page);
    }
    assert!(listing.is_finished());

    assert_eq!(server.received.len(), 3);
    assert_eq!(server.received[0].page_token, None);
    assert_eq!(server.received[1].page_token, Some("C1".to_string()));
    assert_eq!(server.received[2].page_token, Some("C2".to_string()));
    for request in &server.received {
        assert_eq!(
            request.q,
            "'folder-id' in parents and mimeType != 'application/vnd.google-apps.folder'"
        );
    }

    let mut expected = p1;
    expected.extend(p2);
    expected.extend(p3);
    assert_eq!(listing.into_files(), Some(expected));
}

#[test]
fn empty_folder_takes_exactly_one_request() {
    let mut server = FakeLister {
        pages: vec![FilePage { files: Vec::new(), next_page_token: None }],
        received: Vec::new(),
    };
    let mut listing = list_files_in_folder("folder-id");
    assert!(!listing.is_finished());
    while let Some(request) = listing.next_request() {
        let page = server.answer(request);
        listing.accept_page(page);
    }
    assert_eq!(server.received.len(), 1);
    assert_eq!(server.received[0].page_token, None);
    assert_eq!(listing.into_files(), Some(Vec::new()));
}

#[test]
fn listing_does_not_deduplicate() {
    let mut listing = list_files_in_folder("folder-id");
    listing.accept_page(FilePage {
        files: vec![file("1", "a")],
        next_page_token: Some("C1".to_string()),
    });
    listing.accept_page(FilePage { files: vec![file("1", "a")], next_page_token: None });
    assert_eq!(listing.into_files(), Some(vec![file("1", "a"), file("1", "a")]));
}

#[test]
fn partial_listing_is_not_handed_out() {
    let mut listing = list_files_in_folder("folder-id");
    listing.accept_page(FilePage {
        files: vec![file("1", "a")],
        next_page_token: Some("C1".to_string()),
    });
    assert!(!listing.is_finished());
    assert_eq!(listing.into_files(), None);
}

#[test]
fn failed_page_fails_the_listing() {
    let mut listing = list_files_in_folder("folder-id");
    listing.accept_page(FilePage {
        files: vec![file("1", "a")],
        next_page_token: Some("C1".to_string()),
    });
    assert_eq!(
        listing.failed("quota exceeded"),
        TransferError::ListingFailed {
            folder_id: "folder-id".to_string(),
            cause: "quota exceeded".to_string(),
        }
    );
}

#[test]
fn page_after_the_last_is_ignored() {
    let mut listing = list_files_in_folder("folder-id");
    listing.accept_page(FilePage { files: vec![file("1", "a")], next_page_token: None });
    listing.accept_page(FilePage {
        files: vec![file("2", "b")],
        next_page_token: Some("C9".to_string()),
    });
    assert!(listing.is_finished());
    assert_eq!(listing.next_request(), None);
    assert_eq!(listing.into_files(), Some(vec![file("1", "a")]));
}

#[test]
fn file_copy_is_equal() {
    let original = file("1", "a");
    assert_eq!(original.clone(), original);
}

#[test]
fn credential_from_all_three_values() {
    assert_eq!(
        create_aus_from_env_vars(
            Some("id".to_string()),
            Some("secret".to_string()),
            Some("token".to_string())
        ),
        Ok(AuthorizedUser {
            client_id: "id".to_string(),
            client_secret: "secret".to_string(),
            refresh_token: "token".to_string(),
            key_type: String::new(),
        })
    );
}

#[test]
fn credential_reports_first_missing_value() {
    assert_eq!(
        create_aus_from_env_vars(None, None, None),
        Err(TransferError::CredentialMissing { name: "CLIENT_ID".to_string() })
    );
    assert_eq!(
        create_aus_from_env_vars(Some("id".to_string()), None, None),
        Err(TransferError::CredentialMissing { name: "CLIENT_SECRET".to_string() })
    );
    assert_eq!(
        create_aus_from_env_vars(Some("id".to_string()), Some("secret".to_string()), None),
        Err(TransferError::CredentialMissing { name: "REFRESH_TOKEN".to_string() })
    );
    assert_eq!(
        create_aus_from_env_vars(None, Some("secret".to_string()), Some("token".to_string())),
        Err(TransferError::CredentialMissing { name: "CLIENT_ID".to_string() })
    );
}
