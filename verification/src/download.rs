//! Downloading a blob: the check of the request, the read of the record with
//! lazy expiry, and the count of downloads.

use vstd::prelude::*;
use crate::admin::{expires_in, stamp_text, uploaded_ago};
use crate::auth::{check_key, key_grants};
use crate::delete::{check_hash_length, has_hash_length};
use crate::error_handling::{AppError, StatusCode};
use crate::pretty::{bytes_text, pretty_print_bytes, pretty_print_delta};
use crate::resource::{check_live, expiry_of, read_outcome, record_of, text_of, Resource};
use crate::text::{decimal_text, push_decimal, same_text};
use crate::timestamp::{parse_rfc3339, rfc3339_parse, Timestamp};

verus! {

/// A download that waits for the record of its blob.
#[derive(Debug)]
pub struct PendingDownload {
    hash: String,
}

/// A download whose record is live and whose blob is to be opened.
#[derive(Debug)]
pub struct BlobOpen {
    hash: String,
    downloads: u64,
}

/// A download whose blob is open and whose count is to be stored.
#[derive(Debug)]
pub struct CounterUpdate {
    hash: String,
    downloads: u64,
}

/// One more download, but never past the largest count.
pub open spec fn next_count(downloads: u64) -> u64 {
    if downloads < u64::MAX {
        (downloads + 1) as u64
    } else {
        downloads
    }
}

/// Why a download request is refused before anything is looked up, or `None`
/// where it is in order: it must hold the parameter `hash` and no other, and
/// the hash must have the length of a content hash.
pub open spec fn download_refusal(hash: Option<Seq<char>>, parameter_count: usize) -> Option<
    Seq<char>,
> {
    if hash is None || parameter_count != 1 {
        Some("provide only the 'hash' query parameter"@)
    } else if !has_hash_length(hash->Some_0) {
        Some("invalid hash length"@)
    } else {
        None
    }
}

/// Endpoint where clients fetch a blob. Takes the `hash` parameter of the
/// query, where there is one, and the number of parameters in all.
pub fn download_endpoint(hash: Option<&str>, parameter_count: usize) -> (r: Result<
    PendingDownload,
    AppError,
>)
    ensures
        match download_refusal(text_of(hash), parameter_count) {
            Some(message) => r is Err && r->Err_0@ == (StatusCode::BAD_REQUEST, message),
            None => r is Ok && r->Ok_0.hash() == hash->Some_0@,
        },
{
    match hash {
        Some(h) => {
            if parameter_count != 1 {
                return AppError::err(
                    StatusCode::BAD_REQUEST,
                    "provide only the 'hash' query parameter",
                );
            }
            match check_hash_length(h) {
                Err(e) => Err(e),
                Ok(_) => Ok(PendingDownload { hash: h.to_owned() }),
            }
        },
        None => AppError::err(StatusCode::BAD_REQUEST, "provide only the 'hash' query parameter"),
    }
}

impl PendingDownload {
    /// The content hash of the blob.
    pub closed spec fn hash(&self) -> Seq<char> {
        self.hash@
    }

    /// The content hash by which the record is looked up.
    pub fn lookup_hash(&self) -> (h: &str)
        ensures
            h@ == self.hash(),
    {
        self.hash.as_str()
    }

    /// Takes the record that was found for the hash. An absent record and one
    /// whose expiry has passed are "not found" alike.
    pub fn on_resource(self, record: Option<&Resource>, now: &Timestamp) -> (r: Result<
        BlobOpen,
        AppError,
    >)
        ensures
            match read_outcome(expiry_of(record_of(record)), *now) {
                Err(e) => r is Err && r->Err_0@ == e,
                Ok(_) => r is Ok && r->Ok_0.hash() == self.hash() && r->Ok_0.downloads()
                    == record->Some_0.downloads,
            },
    {
        match record {
            None => AppError::err(StatusCode::NOT_FOUND, "file not found or expired"),
            Some(found) => {
                match check_live(Some(found.expiry_ts.as_str()), now) {
                    Err(e) => Err(e),
                    Ok(_) => Ok(BlobOpen { hash: self.hash, downloads: found.downloads }),
                }
            },
        }
    }
}

impl BlobOpen {
    /// The content hash of the blob.
    pub closed spec fn hash(&self) -> Seq<char> {
        self.hash@
    }

    /// The count of downloads that the record holds.
    pub closed spec fn downloads(&self) -> u64 {
        self.downloads
    }

    /// The name of the file to open.
    pub fn blob_name(&self) -> (h: &str)
        ensures
            h@ == self.hash(),
    {
        self.hash.as_str()
    }

    /// Takes the outcome of opening the blob. A record without its blob is a
    /// server error; otherwise the count is raised by one.
    pub fn on_blob_opened(self, opened: bool) -> (r: Result<CounterUpdate, AppError>)
        ensures
            opened ==> r is Ok && r->Ok_0.hash() == self.hash() && r->Ok_0.downloads()
                == next_count(self.downloads()),
            !opened ==> r is Err && r->Err_0@ == (
                StatusCode::INTERNAL_SERVER_ERROR,
                "file in database but not on disk"@,
            ),
    {
        if opened {
            let downloads: u64 = if self.downloads < u64::MAX {
                self.downloads + 1
            } else {
                self.downloads
            };
            Ok(CounterUpdate { hash: self.hash, downloads })
        } else {
            AppError::err(StatusCode::INTERNAL_SERVER_ERROR, "file in database but not on disk")
        }
    }
}

impl CounterUpdate {
    /// The content hash of the blob.
    pub closed spec fn hash(&self) -> Seq<char> {
        self.hash@
    }

    /// The count of downloads to store.
    pub closed spec fn downloads(&self) -> u64 {
        self.downloads
    }

    /// The content hash of the record to update.
    pub fn row_hash(&self) -> (h: &str)
        ensures
            h@ == self.hash(),
    {
        self.hash.as_str()
    }

    /// The count of downloads to store.
    pub fn new_downloads(&self) -> (n: u64)
        ensures
            n == self.downloads(),
    {
        self.downloads
    }

    /// Takes the outcome of storing the count. A failure is a server error
    /// with the store's message; otherwise the blob is served.
    pub fn on_counter_stored(self, outcome: Result<(), String>) -> (r: Result<
        StatusCode,
        AppError,
    >)
        ensures
            match outcome {
                Ok(_) => r == Ok::<StatusCode, AppError>(StatusCode::OK),
                Err(e) => r is Err && r->Err_0@ == (StatusCode::INTERNAL_SERVER_ERROR, e@),
            },
    {
        match outcome {
            Ok(_) => Ok(StatusCode::OK),
            Err(e) => Err(AppError::new500(e.as_str())),
        }
    }
}

/// What the download page is filled with.
#[derive(Debug)]
pub struct DownloadPageContext {
    pub response_type: String,
    pub error_head: String,
    pub error_text: String,
    pub e_filename: String,
    pub iv_fd: String,
    pub iv_fn: String,
    pub filesize: String,
    pub filesize_pretty: String,
    pub upload_ts: String,
    pub upload_ts_pretty: String,
    pub expiry_ts: String,
    pub expiry_ts_pretty: String,
    pub downloads: String,
}

/// The texts of a download page.
pub struct PageView {
    pub response_type: Seq<char>,
    pub error_head: Seq<char>,
    pub error_text: Seq<char>,
    pub e_filename: Seq<char>,
    pub iv_fd: Seq<char>,
    pub iv_fn: Seq<char>,
    pub filesize: Seq<char>,
    pub filesize_pretty: Seq<char>,
    pub upload_ts: Seq<char>,
    pub upload_ts_pretty: Seq<char>,
    pub expiry_ts: Seq<char>,
    pub expiry_ts_pretty: Seq<char>,
    pub downloads: Seq<char>,
}

impl View for DownloadPageContext {
    type V = PageView;

    open spec fn view(&self) -> PageView {
        PageView {
            response_type: self.response_type@,
            error_head: self.error_head@,
            error_text: self.error_text@,
            e_filename: self.e_filename@,
            iv_fd: self.iv_fd@,
            iv_fn: self.iv_fn@,
            filesize: self.filesize@,
            filesize_pretty: self.filesize_pretty@,
            upload_ts: self.upload_ts@,
            upload_ts_pretty: self.upload_ts_pretty@,
            expiry_ts: self.expiry_ts@,
            expiry_ts_pretty: self.expiry_ts_pretty@,
            downloads: self.downloads@,
        }
    }
}

/// Which boxes of the page are shown: `flex` for a box that is, `hidden` for
/// one that is not.
#[derive(Debug)]
pub struct PageVisibility {
    pub error_vis: String,
    pub file_vis: String,
    pub admin_vis: String,
}

/// The class of a box that is shown or not.
pub open spec fn visibility_class(shown: bool) -> Seq<char> {
    if shown {
        "flex"@
    } else {
        "hidden"@
    }
}

/// A page with nothing on it.
pub open spec fn blank_page() -> PageView {
    PageView {
        response_type: Seq::empty(),
        error_head: Seq::empty(),
        error_text: Seq::empty(),
        e_filename: Seq::empty(),
        iv_fd: Seq::empty(),
        iv_fn: Seq::empty(),
        filesize: "0"@,
        filesize_pretty: "0 Bytes"@,
        upload_ts: Seq::empty(),
        upload_ts_pretty: Seq::empty(),
        expiry_ts: Seq::empty(),
        expiry_ts_pretty: Seq::empty(),
        downloads: "0"@,
    }
}

/// A page that reports an error and nothing else.
pub open spec fn error_page(head: Seq<char>, text: Seq<char>) -> PageView {
    PageView { response_type: "error"@, error_head: head, error_text: text, ..blank_page() }
}

/// The numbers of a byte string in decimal, a comma and a space between
/// them.
pub open spec fn byte_numbers(bytes: Seq<u8>) -> Seq<char>
    decreases bytes.len(),
{
    if bytes.len() == 0 {
        Seq::empty()
    } else if bytes.len() == 1 {
        decimal_text(bytes.last() as nat)
    } else {
        byte_numbers(bytes.drop_last()) + seq![',', ' '] + decimal_text(bytes.last() as nat)
    }
}

/// A byte string as a list in square brackets, as a script reads it.
pub open spec fn byte_list(bytes: Seq<u8>) -> Seq<char> {
    seq!['['] + byte_numbers(bytes) + seq![']']
}

/// The page that offers a blob for download, with a note where there is one.
pub open spec fn file_page(record: Resource, head: Seq<char>, text: Seq<char>) -> PageView {
    PageView {
        response_type: "file"@,
        error_head: head,
        error_text: text,
        e_filename: byte_list(record.e_filename@),
        iv_fd: byte_list(record.iv_fd@),
        iv_fn: byte_list(record.iv_fn@),
        filesize: decimal_text(record.filesize as nat),
        filesize_pretty: bytes_text(record.filesize as nat),
        ..blank_page()
    }
}

/// The page for the holder of the capability: the blob, and what is known of
/// it.
pub open spec fn holder_page(record: Resource, now: Timestamp) -> PageView {
    PageView {
        response_type: "admin"@,
        error_head: Seq::empty(),
        error_text: Seq::empty(),
        e_filename: byte_list(record.e_filename@),
        iv_fd: byte_list(record.iv_fd@),
        iv_fn: byte_list(record.iv_fn@),
        filesize: decimal_text(record.filesize as nat),
        filesize_pretty: bytes_text(record.filesize as nat),
        upload_ts: stamp_text(record.upload_ts@),
        upload_ts_pretty: uploaded_ago(record.upload_ts@, now),
        expiry_ts: stamp_text(record.expiry_ts@),
        expiry_ts_pretty: expires_in(record.expiry_ts@, now),
        downloads: decimal_text(record.downloads as nat),
    }
}

/// The head of the note for a capability that does not match.
pub open spec fn wrong_key_head() -> Seq<char> {
    "Invalid \"admin\" parameter"@
}

/// The text of the note for a capability that does not match.
pub open spec fn wrong_key_text() -> Seq<char> {
    "The \"admin\" parameter does not match the database record. Displaying normal file download instead."@
}

impl Default for DownloadPageContext {
    fn default() -> (page: DownloadPageContext)
        ensures
            page@ == blank_page(),
    {
        let page = DownloadPageContext {
            response_type: String::new(),
            error_head: String::new(),
            error_text: String::new(),
            e_filename: String::new(),
            iv_fd: String::new(),
            iv_fn: String::new(),
            filesize: "0".to_owned(),
            filesize_pretty: "0 Bytes".to_owned(),
            upload_ts: String::new(),
            upload_ts_pretty: String::new(),
            expiry_ts: String::new(),
            expiry_ts_pretty: String::new(),
            downloads: "0".to_owned(),
        };
        page
    }
}

impl DownloadPageContext {
    /// A page that reports an error and nothing else.
    pub fn error(head: &str, text: &str) -> (page: DownloadPageContext)
        ensures
            page@ == error_page(head@, text@),
    {
        let mut page = DownloadPageContext::default();
        page.response_type = "error".to_owned();
        page.error_head = head.to_owned();
        page.error_text = text.to_owned();
        page
    }

    /// Which boxes of the page are shown. The error box is shown where the
    /// page has an error head or text; the file box on a file page and on a
    /// holder's page; the box of the holder on the holder's page only.
    pub fn to_context(&self) -> (v: PageVisibility)
        ensures
            v.error_vis@ == visibility_class(
                !(self@.error_head.len() == 0 && self@.error_text.len() == 0),
            ),
            v.file_vis@ == visibility_class(
                self@.response_type == "file"@ || self@.response_type == "admin"@,
            ),
            v.admin_vis@ == visibility_class(self@.response_type == "admin"@),
    {
        let no_error = self.error_head.as_str().unicode_len() == 0
            && self.error_text.as_str().unicode_len() == 0;
        let is_file = same_text(self.response_type.as_str(), "file");
        let is_admin = same_text(self.response_type.as_str(), "admin");
        PageVisibility {
            error_vis: if no_error {
                "hidden".to_owned()
            } else {
                "flex".to_owned()
            },
            file_vis: if is_file || is_admin {
                "flex".to_owned()
            } else {
                "hidden".to_owned()
            },
            admin_vis: if is_admin {
                "flex".to_owned()
            } else {
                "hidden".to_owned()
            },
        }
    }
}

/// A byte string as a list in square brackets.
pub fn print_byte_list(bytes: &Vec<u8>) -> (s: String)
    ensures
        s@ == byte_list(bytes@),
{
    let mut out = String::new();
    out.push('[');
    let mut i: usize = 0;
    proof {
        assert(bytes@.take(0) =~= Seq::<u8>::empty());
        assert(out@ =~= seq!['['] + byte_numbers(bytes@.take(0)));
    }
    while i < bytes.len()
        invariant
            i <= bytes.len(),
            out@ == seq!['['] + byte_numbers(bytes@.take(i as int)),
        decreases bytes.len() - i,
    {
        let ghost before = out@;
        if i > 0 {
            out.push(',');
            out.push(' ');
        }
        push_decimal(&mut out, bytes[i] as u64);
        proof {
            let next = bytes@.take(i + 1);
            assert(next.drop_last() =~= bytes@.take(i as int));
            assert(next.last() == bytes@[i as int]);
            if i > 0 {
                assert(out@ =~= seq!['['] + (byte_numbers(bytes@.take(i as int)) + seq![',', ' ']
                    + decimal_text(bytes@[i as int] as nat)));
            } else {
                assert(out@ =~= seq!['['] + decimal_text(bytes@[i as int] as nat));
            }
        }
        i += 1;
    }
    proof {
        assert(bytes@.take(bytes.len() as int) =~= bytes@);
    }
    out.push(']');
    assert(out@ =~= byte_list(bytes@));
    out
}

/// A status and the page that goes with it.
#[derive(Debug)]
pub struct PageResponse {
    pub status: StatusCode,
    pub context: DownloadPageContext,
}

/// A download page that waits for the record of its blob.
#[derive(Debug)]
pub struct PendingPage {
    hash: String,
    admin: Option<String>,
}

/// Why a request for the download page is refused before anything is looked
/// up: the head and the text of the error, or `None` where it is in order. It
/// must hold the parameter `hash`, may hold the parameter `admin`, and nothing
/// else; and the hash must have the length of a content hash.
pub open spec fn page_refusal(
    hash: Option<Seq<char>>,
    admin: Option<Seq<char>>,
    parameter_count: usize,
) -> Option<(Seq<char>, Seq<char>)> {
    if !(hash is Some && ((admin is Some && parameter_count == 2) || (admin is None
        && parameter_count == 1))) {
        Some(
            (
                "Bad request"@,
                "Only \"hash\" and \"admin\" are valid query parameters. Are you supplying them?"@,
            ),
        )
    } else if !has_hash_length(hash->Some_0) {
        Some(
            (
                "Invalid hash length"@,
                "The hash parameter is not correctly formatted. Is your link correct?"@,
            ),
        )
    } else {
        None
    }
}

/// What the download page shows for the record that was found, `Err` where a
/// stored instant cannot be read.
pub open spec fn page_for(record: Option<Resource>, admin: Option<Seq<char>>, now: Timestamp)
    -> Result<(StatusCode, PageView), (StatusCode, Seq<char>)> {
    match read_outcome(expiry_of(record), now) {
        Err(e) => if e.0 == StatusCode::NOT_FOUND {
            Ok(
                (
                    StatusCode::NOT_FOUND,
                    error_page(
                        "Not found"@,
                        "The file does not exist or has since expired."@,
                    ),
                ),
            )
        } else {
            Err(e)
        },
        Ok(_) => {
            let found = record->Some_0;
            match rfc3339_parse(found.upload_ts@) {
                Err(message) => Err((StatusCode::INTERNAL_SERVER_ERROR, message)),
                Ok(_) => match admin {
                    None => Ok(
                        (StatusCode::OK, file_page(found, Seq::empty(), Seq::empty())),
                    ),
                    Some(key) => if key_grants(found, Some(key)) {
                        Ok((StatusCode::OK, holder_page(found, now)))
                    } else {
                        Ok(
                            (
                                StatusCode::OK,
                                file_page(found, wrong_key_head(), wrong_key_text()),
                            ),
                        )
                    },
                },
            }
        },
    }
}

/// The page where a blob is offered for download. Takes the `hash` and the
/// `admin` parameter of the query, each where there is one, and the number of
/// parameters in all.
pub fn download_page(hash: Option<&str>, admin: Option<&str>, parameter_count: usize) -> (r:
    Result<PendingPage, PageResponse>)
    ensures
        match page_refusal(text_of(hash), text_of(admin), parameter_count) {
            Some(refusal) => r is Err && r->Err_0.status == StatusCode::BAD_REQUEST
                && r->Err_0.context@ == error_page(refusal.0, refusal.1),
            None => r is Ok && r->Ok_0.hash() == hash->Some_0@ && r->Ok_0.presented() == text_of(
                admin,
            ),
        },
{
    let legal = match (hash, admin) {
        (Some(_), Some(_)) => parameter_count == 2,
        (Some(_), None) => parameter_count == 1,
        _ => false,
    };
    if !legal {
        return Err(
            PageResponse {
                status: StatusCode::BAD_REQUEST,
                context: DownloadPageContext::error(
                    "Bad request",
                    "Only \"hash\" and \"admin\" are valid query parameters. Are you supplying them?",
                ),
            },
        );
    }
    let h = hash.unwrap();
    match check_hash_length(h) {
        Err(_) => Err(
            PageResponse {
                status: StatusCode::BAD_REQUEST,
                context: DownloadPageContext::error(
                    "Invalid hash length",
                    "The hash parameter is not correctly formatted. Is your link correct?",
                ),
            },
        ),
        Ok(_) => Ok(
            PendingPage {
                hash: h.to_owned(),
                admin: match admin {
                    Some(key) => Some(key.to_owned()),
                    None => None,
                },
            },
        ),
    }
}

/// Fills the fields of a page that every page of a blob has.
fn blob_page(record: &Resource, response_type: &str, head: &str, text: &str) -> (page:
    DownloadPageContext)
    ensures
        page@ == (PageView {
            response_type: response_type@,
            ..file_page(*record, head@, text@)
        }),
{
    let mut page = DownloadPageContext::default();
    page.response_type = response_type.to_owned();
    page.error_head = head.to_owned();
    page.error_text = text.to_owned();
    page.e_filename = print_byte_list(&record.e_filename);
    page.iv_fd = print_byte_list(&record.iv_fd);
    page.iv_fn = print_byte_list(&record.iv_fn);
    let mut filesize = String::new();
    push_decimal(&mut filesize, record.filesize);
    assert(filesize@ =~= decimal_text(record.filesize as nat));
    page.filesize = filesize;
    page.filesize_pretty = pretty_print_bytes(record.filesize);
    page
}

impl PendingPage {
    /// The content hash of the blob.
    pub closed spec fn hash(&self) -> Seq<char> {
        self.hash@
    }

    /// The capability that was presented.
    pub closed spec fn presented(&self) -> Option<Seq<char>> {
        match self.admin {
            Some(key) => Some(key@),
            None => None,
        }
    }

    /// The content hash by which the record is looked up.
    pub fn lookup_hash(&self) -> (h: &str)
        ensures
            h@ == self.hash(),
    {
        self.hash.as_str()
    }

    /// Takes the record that was found for the hash and fills the page: "not
    /// found" for an absent record and for one whose expiry has passed alike;
    /// the holder's page where the capability matches; and the plain page of
    /// the blob otherwise, with a note where a capability was presented.
    pub fn on_resource(self, record: Option<&Resource>, now: &Timestamp) -> (r: Result<
        PageResponse,
        AppError,
    >)
        ensures
            match page_for(record_of(record), self.presented(), *now) {
                Ok(page) => r is Ok && r->Ok_0.status == page.0 && r->Ok_0.context@ == page.1,
                Err(e) => r is Err && r->Err_0@ == e,
            },
    {
        let found = match record {
            Some(found) => found,
            None => {
                return Ok(
                    PageResponse {
                        status: StatusCode::NOT_FOUND,
                        context: DownloadPageContext::error(
                            "Not found",
                            "The file does not exist or has since expired.",
                        ),
                    },
                );
            },
        };
        let expiry = match parse_rfc3339(found.expiry_ts.as_str()) {
            Ok(t) => t,
            Err(message) => {
                return Err(AppError::new500(message.as_str()));
            },
        };
        if expiry.is_before(now) {
            return Ok(
                PageResponse {
                    status: StatusCode::NOT_FOUND,
                    context: DownloadPageContext::error(
                        "Not found",
                        "The file does not exist or has since expired.",
                    ),
                },
            );
        }
        let uploaded = match parse_rfc3339(found.upload_ts.as_str()) {
            Ok(t) => t,
            Err(message) => {
                return Err(AppError::new500(message.as_str()));
            },
        };
        let context = match &self.admin {
            None => {
                let page = blob_page(found, "file", "", "");
                proof {
                    reveal_strlit("");
                    assert(page@.error_head =~= Seq::<char>::empty());
                    assert(page@.error_text =~= Seq::<char>::empty());
                }
                page
            },
            Some(key) => {
                if check_key(found, Some(key.as_str())) {
                    let mut page = blob_page(found, "admin", "", "");
                    proof {
                        reveal_strlit("");
                        assert(page@.error_head =~= Seq::<char>::empty());
                        assert(page@.error_text =~= Seq::<char>::empty());
                    }
                    page.upload_ts = match uploaded.to_display() {
                        Some(text) => text,
                        None => "(invalid timestamp)".to_owned(),
                    };
                    let mut ago = pretty_print_delta(now, &uploaded);
                    ago.append(" ago");
                    page.upload_ts_pretty = ago;
                    page.expiry_ts = match expiry.to_display() {
                        Some(text) => text,
                        None => "(invalid timestamp)".to_owned(),
                    };
                    page.expiry_ts_pretty = pretty_print_delta(now, &expiry);
                    let mut downloads = String::new();
                    push_decimal(&mut downloads, found.downloads);
                    assert(downloads@ =~= decimal_text(found.downloads as nat));
                    page.downloads = downloads;
                    page
                } else {
                    blob_page(
                        found,
                        "file",
                        "Invalid \"admin\" parameter",
                        "The \"admin\" parameter does not match the database record. Displaying normal file download instead.",
                    )
                }
            },
        };
        Ok(PageResponse { status: StatusCode::OK, context })
    }
}

} // verus!
