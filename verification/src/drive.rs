//! Folder resolver and file lister: the queries that are put to Drive, and
//! what is made of the answers. Sending a query is the caller's part.

use vstd::prelude::*;
use vstd::string::*;
use crate::errors::{TransferError, TransferErrorView};
use crate::file::{clone_opt_text, file_views, opt_text, DriveFileRef, DriveFileView};

verus! {

/// One query to the file listing of Drive.
#[derive(Debug, PartialEq, Eq)]
pub struct ListRequest {
    /// The search expression.
    pub q: String,
    /// The fields that the answer is to hold.
    pub fields: String,
    /// The cursor that the previous page gave, for every page but the first.
    pub page_token: Option<String>,
}

/// Mathematical model of a [`ListRequest`].
pub struct ListRequestView {
    pub q: Seq<char>,
    pub fields: Seq<char>,
    pub page_token: Option<Seq<char>>,
}

impl View for ListRequest {
    type V = ListRequestView;

    open spec fn view(&self) -> ListRequestView {
        ListRequestView { q: self.q@, fields: self.fields@, page_token: opt_text(self.page_token) }
    }
}

/// The search expression for the folders named `folder` that lie in
/// `parent`.
pub open spec fn folder_query(folder: Seq<char>, parent: Seq<char>) -> Seq<char> {
    "name = '"@ + folder + "' and mimeType = 'application/vnd.google-apps.folder' and '"@ + parent
        + "' in parents"@
}

/// The fields asked for when a folder is looked up.
pub open spec fn folder_fields() -> Seq<char> {
    "files(id,name,parents,size,mimeType)"@
}

/// The search expression for the files that lie in the folder `folder_id`
/// and are not folders themselves.
pub open spec fn children_query(folder_id: Seq<char>) -> Seq<char> {
    "'"@ + folder_id + "' in parents and mimeType != 'application/vnd.google-apps.folder'"@
}

/// The fields asked for when a folder is listed.
pub open spec fn listing_fields() -> Seq<char> {
    "nextPageToken,files(id,name,parents,md5Checksum,size,mimeType)"@
}

/// The query for one page of the files of a folder.
pub open spec fn page_request(folder_id: Seq<char>, cursor: Option<Seq<char>>) -> ListRequestView {
    ListRequestView { q: children_query(folder_id), fields: listing_fields(), page_token: cursor }
}

/// The query that finds the folders named `folder` in `parent`.
pub fn folder_request(folder: &str, parent: &str) -> (r: ListRequest)
    ensures
        r@ == (ListRequestView {
            q: folder_query(folder@, parent@),
            fields: folder_fields(),
            page_token: None,
        }),
{
    let q = String::from_str("name = '").concat(folder).concat(
        "' and mimeType = 'application/vnd.google-apps.folder' and '",
    ).concat(parent).concat("' in parents");
    ListRequest {
        q,
        fields: String::from_str("files(id,name,parents,size,mimeType)"),
        page_token: None,
    }
}

/// The parent under which the source folder of a run is looked up: the
/// root of the drive.
pub open spec fn root_folder() -> Seq<char> {
    "root"@
}

/// The query that finds the source folder of a run by its name. Only the
/// folders directly under the root are looked at.
pub fn source_folder_request(folder: &str) -> (r: ListRequest)
    ensures
        r@ == (ListRequestView {
            q: folder_query(folder@, root_folder()),
            fields: folder_fields(),
            page_token: None,
        }),
{
    folder_request(folder, "root")
}

/// The failure of a run whose folder lookup got no answer.
pub fn folder_lookup_failed(parent: &str, cause: &str) -> (e: TransferError)
    ensures
        e@ == (TransferErrorView::ListingFailed { folder_id: parent@, cause: cause@ }),
{
    TransferError::ListingFailed {
        folder_id: String::from_str(parent),
        cause: String::from_str(cause),
    }
}

/// The folder that a lookup by name resolves to: the one match, and a
/// failure where there is none or more than one.
pub open spec fn resolve_folder(folder: Seq<char>, matches: Seq<DriveFileView>) -> Result<
    Seq<char>,
    TransferErrorView,
> {
    if matches.len() == 1 {
        Ok(matches[0].id)
    } else if matches.len() == 0 {
        Err(TransferErrorView::FolderNotFound { folder })
    } else {
        Err(TransferErrorView::FolderAmbiguous { folder, matches: matches.len() })
    }
}

/// Resolves a folder name to the identifier of the one folder that the
/// lookup found. It never picks one of several.
pub fn folder_id_from_folder_name(folder: &str, matches: &Vec<DriveFileRef>) -> (r: Result<
    String,
    TransferError,
>)
    ensures
        match r {
            Ok(id) => resolve_folder(folder@, file_views(matches@)) == Ok::<
                Seq<char>,
                TransferErrorView,
            >(id@),
            Err(e) => resolve_folder(folder@, file_views(matches@)) == Err::<
                Seq<char>,
                TransferErrorView,
            >(e@),
        },
{
    let count = matches.len();
    if count == 1 {
        Ok(matches[0].id.clone())
    } else if count == 0 {
        Err(TransferError::FolderNotFound { folder: String::from_str(folder) })
    } else {
        Err(TransferError::FolderAmbiguous { folder: String::from_str(folder), matches: count })
    }
}

/// The query for one page of the files of a folder: the first page where
/// `page_token` is `None`, else the page that the cursor points to.
pub fn list_files_in_folder_id_per_page(folder_id: &String, page_token: &Option<String>) -> (r:
    ListRequest)
    ensures
        r@ == page_request(folder_id@, opt_text(*page_token)),
{
    let q = String::from_str("'").concat(folder_id.as_str()).concat(
        "' in parents and mimeType != 'application/vnd.google-apps.folder'",
    );
    ListRequest {
        q,
        fields: String::from_str("nextPageToken,files(id,name,parents,md5Checksum,size,mimeType)"),
        page_token: clone_opt_text(page_token),
    }
}

/// One page of a listing, as Drive answers it.
#[derive(Debug, PartialEq, Eq)]
pub struct FilePage {
    pub files: Vec<DriveFileRef>,
    /// The cursor of the next page; `None` on the last page.
    pub next_page_token: Option<String>,
}

/// Mathematical model of a [`FilePage`].
pub struct FilePageView {
    pub files: Seq<DriveFileView>,
    pub next_page_token: Option<Seq<char>>,
}

impl View for FilePage {
    type V = FilePageView;

    open spec fn view(&self) -> FilePageView {
        FilePageView {
            files: file_views(self.files@),
            next_page_token: opt_text(self.next_page_token),
        }
    }
}

/// Model of a listing in progress.
pub struct ListingView {
    pub folder_id: Seq<char>,
    /// The files of the pages taken in so far, in order.
    pub files: Seq<DriveFileView>,
    /// The cursor that the last page gave.
    pub cursor: Option<Seq<char>>,
    /// Whether the last page has been taken in.
    pub finished: bool,
}

impl ListingView {
    /// The listing of a folder before any page has been asked for.
    pub open spec fn start(folder_id: Seq<char>) -> ListingView {
        ListingView { folder_id, files: Seq::empty(), cursor: None, finished: false }
    }

    /// The query to send next; `None` once the listing is complete.
    pub open spec fn next_request(self) -> Option<ListRequestView> {
        if self.finished {
            None
        } else {
            Some(page_request(self.folder_id, self.cursor))
        }
    }

    /// The listing after a page has been taken in: its files are appended
    /// as they are, and its cursor leads on. A page that arrives after the
    /// last one is not part of the listing.
    pub open spec fn accept(self, page: FilePageView) -> ListingView {
        if self.finished {
            self
        } else {
            ListingView {
                folder_id: self.folder_id,
                files: self.files + page.files,
                cursor: page.next_page_token,
                finished: page.next_page_token is None,
            }
        }
    }

    /// The listing after a sequence of pages has been taken in.
    pub open spec fn accept_all(self, pages: Seq<FilePageView>) -> ListingView
        decreases pages.len(),
    {
        if pages.len() == 0 {
            self
        } else {
            self.accept_all(pages.drop_last()).accept(pages.last())
        }
    }
}

/// The files of a sequence of pages, one page after the other.
pub open spec fn concat_pages(pages: Seq<FilePageView>) -> Seq<DriveFileView>
    decreases pages.len(),
{
    if pages.len() == 0 {
        Seq::empty()
    } else {
        concat_pages(pages.drop_last()) + pages.last().files
    }
}

/// Whether a sequence of pages is one whole answer of the server: every
/// page but the last gives a cursor, and the last gives none.
pub open spec fn is_complete_chain(pages: Seq<FilePageView>) -> bool {
    &&& pages.len() > 0
    &&& forall|i: int| 0 <= i < pages.len() - 1 ==> (#[trigger] pages[i]).next_page_token is Some
    &&& pages.last().next_page_token is None
}

/// The cursor that the query for page `k` carries: none for the first
/// page, else the cursor that the page before gave.
pub open spec fn cursor_for_page(pages: Seq<FilePageView>, k: int) -> Option<Seq<char>> {
    if k == 0 {
        None
    } else {
        pages[k - 1].next_page_token
    }
}

/// A listing in progress: the eager enumeration of the files of one folder,
/// page by page.
pub struct Listing {
    folder_id: String,
    files: Vec<DriveFileRef>,
    cursor: Option<String>,
    finished: bool,
}

impl View for Listing {
    type V = ListingView;

    closed spec fn view(&self) -> ListingView {
        ListingView {
            folder_id: self.folder_id@,
            files: file_views(self.files@),
            cursor: opt_text(self.cursor),
            finished: self.finished,
        }
    }
}

/// Begins the listing of the files of the folder `folder_id`.
pub fn list_files_in_folder(folder_id: &str) -> (listing: Listing)
    ensures
        listing@ == ListingView::start(folder_id@),
{
    let listing = Listing {
        folder_id: String::from_str(folder_id),
        files: Vec::new(),
        cursor: None,
        finished: false,
    };
    assert(listing@.files =~= Seq::empty());
    listing
}

impl Listing {
    /// The query to send next, or `None` once the last page has been taken
    /// in. The first query carries no cursor, so that one page is asked for
    /// even of an empty folder.
    pub fn next_request(&self) -> (r: Option<ListRequest>)
        ensures
            match r {
                Some(request) => self@.next_request() == Some(request@),
                None => self@.next_request() is None,
            },
    {
        if self.finished {
            None
        } else {
            Some(list_files_in_folder_id_per_page(&self.folder_id, &self.cursor))
        }
    }

    /// Takes in the page that answers the last query.
    pub fn accept_page(&mut self, page: FilePage)
        ensures
            final(self)@ == old(self)@.accept(page@),
    {
        if !self.finished {
            let mut page = page;
            let ghost before = self.files@;
            let ghost added = page.files@;
            self.files.append(&mut page.files);
            assert(file_views(self.files@) =~= file_views(before) + file_views(added));
            self.finished = page.next_page_token.is_none();
            self.cursor = page.next_page_token;
        }
    }

    /// Whether the last page has been taken in.
    pub fn is_finished(&self) -> (r: bool)
        ensures
            r == self@.finished,
    {
        self.finished
    }

    /// The failure of the whole listing, for a page that could not be
    /// retrieved. The files of the pages before are not handed out.
    pub fn failed(self, cause: &str) -> (e: TransferError)
        ensures
            e@ == (TransferErrorView::ListingFailed { folder_id: self@.folder_id, cause: cause@ }),
    {
        TransferError::ListingFailed { folder_id: self.folder_id, cause: String::from_str(cause) }
    }

    /// The files of the folder, once the listing is complete; `None`
    /// before that, since a partial listing is never used.
    pub fn into_files(self) -> (r: Option<Vec<DriveFileRef>>)
        ensures
            match r {
                Some(files) => self@.finished && file_views(files@) == self@.files,
                None => !self@.finished,
            },
    {
        if self.finished {
            Some(self.files)
        } else {
            None
        }
    }
}

/// While no page of a chain is its last, the listing goes on, and it holds
/// the files of those pages in order.
proof fn lemma_accept_partial(folder_id: Seq<char>, pages: Seq<FilePageView>)
    requires
        forall|i: int| 0 <= i < pages.len() ==> (#[trigger] pages[i]).next_page_token is Some,
    ensures
        !ListingView::start(folder_id).accept_all(pages).finished,
        ListingView::start(folder_id).accept_all(pages).folder_id == folder_id,
        ListingView::start(folder_id).accept_all(pages).files == concat_pages(pages),
        ListingView::start(folder_id).accept_all(pages).cursor == cursor_for_page(
            pages,
            pages.len() as int,
        ),
    decreases pages.len(),
{
    if pages.len() > 0 {
        let front = pages.drop_last();
        assert forall|i: int| 0 <= i < front.len() implies (
        #[trigger] front[i]).next_page_token is Some by {
            assert(front[i] == pages[i]);
        }
        lemma_accept_partial(folder_id, front);
    }
}

/// Pagination accumulates. For a chain of `n` pages of which only the last
/// has no cursor, the listing sends exactly `n` queries, in order: the
/// first without a cursor, each later one with the cursor of the page
/// before, and none after the last page. It ends holding the files of the
/// first page, then those of the second, and so on, with nothing dropped
/// and nothing added.
pub proof fn lemma_pagination_accumulates(folder_id: Seq<char>, pages: Seq<FilePageView>)
    requires
        is_complete_chain(pages),
    ensures
        ListingView::start(folder_id).accept_all(pages).finished,
        ListingView::start(folder_id).accept_all(pages).next_request() is None,
        ListingView::start(folder_id).accept_all(pages).files == concat_pages(pages),
        forall|k: int|
            0 <= k < pages.len() ==> (#[trigger] ListingView::start(folder_id).accept_all(
                pages.take(k),
            )).next_request() == Some(page_request(folder_id, cursor_for_page(pages, k))),
{
    let front = pages.drop_last();
    assert forall|i: int| 0 <= i < front.len() implies (#[trigger] front[i]).next_page_token is Some by {
        assert(front[i] == pages[i]);
    }
    lemma_accept_partial(folder_id, front);
    assert forall|k: int| 0 <= k < pages.len() implies (#[trigger] ListingView::start(
        folder_id,
    ).accept_all(pages.take(k))).next_request() == Some(
        page_request(folder_id, cursor_for_page(pages, k)),
    ) by {
        let head = pages.take(k);
        assert forall|i: int| 0 <= i < head.len() implies (
        #[trigger] head[i]).next_page_token is Some by {
            assert(head[i] == pages[i]);
        }
        lemma_accept_partial(folder_id, head);
        if k > 0 {
            assert(head[k - 1] == pages[k - 1]);
        }
    }
}

/// Folder resolution is exactly-one-match: no match and several matches
/// are failures, each of its own kind, and one match gives that folder.
pub proof fn lemma_folder_resolution(folder: Seq<char>, matches: Seq<DriveFileView>)
    ensures
        matches.len() == 0 ==> resolve_folder(folder, matches) == Err::<
            Seq<char>,
            TransferErrorView,
        >(TransferErrorView::FolderNotFound { folder }),
        matches.len() >= 2 ==> resolve_folder(folder, matches) matches Err(
            TransferErrorView::FolderAmbiguous { .. },
        ),
        matches.len() == 1 ==> resolve_folder(folder, matches) == Ok::<
            Seq<char>,
            TransferErrorView,
        >(matches[0].id),
        resolve_folder(folder, matches) is Ok <==> matches.len() == 1,
{
}

} // verus!
