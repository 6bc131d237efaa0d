//! Uploading a blob: the form and its limits, the quota, and the order in
//! which the blob and its record are stored.

use vstd::prelude::*;
use vstd::utf8::valid_utf8;
use crate::config::AppConfiguration;
use crate::digest::{
    base64url,
    capability_bytes,
    capability_matches,
    capability_text,
    content_hash,
    digest_of,
    digest_text,
    random_key,
};
use crate::error_handling::{AppError, StatusCode, StorageFailure};
use crate::ip_prefix::IpPrefix;
use crate::resource::{QuotaSnapshot, Resource};
use crate::text::same_text;
use crate::timestamp::{rfc3339_text, Timestamp};

verus! {

/// The longest encrypted filename that is accepted, in bytes.
pub const MAX_FILENAME_LEN: usize = 8192;

/// The length of an initialization vector, in bytes.
pub const IV_LEN: usize = 12;

/// Calls `core::str::from_utf8` and says whether it succeeded, which it does
/// exactly on well-formed UTF-8.
#[verifier::external_body]
pub(crate) fn is_utf8(bytes: &[u8]) -> (b: bool)
    ensures
        b == valid_utf8(bytes@),
{
    core::str::from_utf8(bytes).is_ok()
}

/// The hours that a duration field asks for: 1 for `hour`, 24 for `day`, 168
/// for `week`, each spelled in lower-case ASCII; nothing for anything else.
pub open spec fn duration_hours(field: Seq<u8>) -> Option<i64> {
    if field == seq![104u8, 111, 117, 114] {
        Some(1i64)
    } else if field == seq![100u8, 97, 121] {
        Some(24i64)
    } else if field == seq![119u8, 101, 101, 107] {
        Some(168i64)
    } else {
        None
    }
}

/// The hours that a duration field asks for.
pub fn parse_duration(field: &Vec<u8>) -> (r: Option<i64>)
    ensures
        r == duration_hours(field@),
{
    if field.len() == 4 && field[0] == 104 && field[1] == 111 && field[2] == 117 && field[3]
        == 114 {
        assert(field@ =~= seq![104u8, 111, 117, 114]);
        Some(1)
    } else if field.len() == 3 && field[0] == 100 && field[1] == 97 && field[2] == 121 {
        assert(field@ =~= seq![100u8, 97, 121]);
        Some(24)
    } else if field.len() == 4 && field[0] == 119 && field[1] == 101 && field[2] == 101
        && field[3] == 107 {
        assert(field@ =~= seq![119u8, 101, 101, 107]);
        Some(168)
    } else {
        proof {
            let a = seq![104u8, 111, 117, 114];
            let b = seq![100u8, 97, 121];
            let c = seq![119u8, 101, 101, 107];
            if field@ == a {
                assert(field@.len() == 4 && field@[0] == a[0] && field@[1] == a[1] && field@[2]
                    == a[2] && field@[3] == a[3]);
            }
            if field@ == b {
                assert(field@.len() == 3 && field@[0] == b[0] && field@[1] == b[1] && field@[2]
                    == b[2]);
            }
            if field@ == c {
                assert(field@.len() == 4 && field@[0] == c[0] && field@[1] == c[1] && field@[2]
                    == c[2] && field@[3] == c[3]);
            }
        }
        None
    }
}

/// The fields of an upload form, as far as they have come in.
#[derive(Debug)]
pub struct UploadForm {
    maximum_filesize: u64,
    e_filename: Option<Vec<u8>>,
    e_filedata: Option<Vec<u8>>,
    iv_fd: Option<Vec<u8>>,
    iv_fn: Option<Vec<u8>>,
    hour_duration: Option<i64>,
}

/// What an upload form holds.
pub struct FormView {
    pub e_filename: Option<Seq<u8>>,
    pub e_filedata: Option<Seq<u8>>,
    pub iv_fd: Option<Seq<u8>>,
    pub iv_fn: Option<Seq<u8>>,
    pub hour_duration: Option<i64>,
}

/// The bytes of a field that may be absent.
pub open spec fn bytes_of(field: Option<Vec<u8>>) -> Option<Seq<u8>> {
    match field {
        Some(v) => Some(v@),
        None => None,
    }
}

impl View for UploadForm {
    type V = FormView;

    closed spec fn view(&self) -> FormView {
        FormView {
            e_filename: bytes_of(self.e_filename),
            e_filedata: bytes_of(self.e_filedata),
            iv_fd: bytes_of(self.iv_fd),
            iv_fn: bytes_of(self.iv_fn),
            hour_duration: self.hour_duration,
        }
    }
}

/// The fields that an upload form may hold.
#[derive(Debug, Clone, Copy, PartialEq, Eq, Structural)]
pub enum FormField {
    Filename,
    Filedata,
    IvFiledata,
    IvFilename,
    Duration,
    Unknown,
}

/// The field that a name stands for.
pub open spec fn field_named(name: Seq<char>) -> FormField {
    if name == "e_filename"@ {
        FormField::Filename
    } else if name == "e_filedata"@ {
        FormField::Filedata
    } else if name == "iv_fd"@ {
        FormField::IvFiledata
    } else if name == "iv_fn"@ {
        FormField::IvFilename
    } else if name == "duration"@ {
        FormField::Duration
    } else {
        FormField::Unknown
    }
}

/// The field that a name stands for.
pub fn classify_field(name: &str) -> (f: FormField)
    ensures
        f == field_named(name@),
{
    if same_text(name, "e_filename") {
        FormField::Filename
    } else if same_text(name, "e_filedata") {
        FormField::Filedata
    } else if same_text(name, "iv_fd") {
        FormField::IvFiledata
    } else if same_text(name, "iv_fn") {
        FormField::IvFilename
    } else if same_text(name, "duration") {
        FormField::Duration
    } else {
        FormField::Unknown
    }
}

/// Why a field is refused: the message of the client error, or `None` where
/// the field is accepted.
pub open spec fn field_refusal(field: FormField, data: Seq<u8>, maximum_filesize: u64) -> Option<
    Seq<char>,
> {
    match field {
        FormField::Filename => if data.len() > 8192 {
            Some("encrypted filename is too large (larger than 8KiB)"@)
        } else {
            None
        },
        FormField::Filedata => if data.len() > maximum_filesize {
            Some("encrypted file is too large"@)
        } else {
            None
        },
        FormField::IvFiledata => if data.len() != 12 {
            Some("iv_fd is not exactly 12 bytes long"@)
        } else {
            None
        },
        FormField::IvFilename => if data.len() != 12 {
            Some("iv_fn is not exactly 12 bytes long"@)
        } else {
            None
        },
        FormField::Duration => if !valid_utf8(data) {
            Some("invalid duration parameter"@)
        } else {
            None
        },
        FormField::Unknown => Some("illegal form field during upload"@),
    }
}

/// What is missing from a form: the message of the client error for the
/// first field that has not come in, or `None` where the form is complete.
pub open spec fn missing_field(form: FormView) -> Option<Seq<char>> {
    if form.e_filename is None {
        Some("no encrypted filename provided"@)
    } else if form.e_filedata is None {
        Some("no encrypted filedata provided"@)
    } else if form.iv_fd is None {
        Some("no iv_fd provided"@)
    } else if form.iv_fn is None {
        Some("no iv_fn provided"@)
    } else if form.hour_duration is None {
        Some("no duration provided"@)
    } else {
        None
    }
}

/// Whether the fields that have come in keep the limits of a form.
pub open spec fn within_limits(form: FormView, maximum_filesize: u64) -> bool {
    &&& form.e_filename matches Some(v) ==> v.len() <= 8192
    &&& form.e_filedata matches Some(v) ==> v.len() <= maximum_filesize
    &&& form.iv_fd matches Some(v) ==> v.len() == 12
    &&& form.iv_fn matches Some(v) ==> v.len() == 12
    &&& form.hour_duration matches Some(h) ==> h == 1 || h == 24 || h == 168
}

impl FormView {
    /// The form with a field taken in. A later field of a name replaces an
    /// earlier one, and a duration that names no known span leaves the form
    /// without a duration.
    pub open spec fn with_field(self, field: FormField, data: Seq<u8>) -> FormView {
        match field {
            FormField::Filename => FormView { e_filename: Some(data), ..self },
            FormField::Filedata => FormView { e_filedata: Some(data), ..self },
            FormField::IvFiledata => FormView { iv_fd: Some(data), ..self },
            FormField::IvFilename => FormView { iv_fn: Some(data), ..self },
            FormField::Duration => FormView { hour_duration: duration_hours(data), ..self },
            FormField::Unknown => self,
        }
    }
}

impl UploadForm {
    #[verifier::type_invariant]
    spec fn limits_kept(self) -> bool {
        within_limits(self@, self.maximum_filesize)
    }

    /// The largest blob that the form takes.
    pub closed spec fn maximum_filesize(&self) -> u64 {
        self.maximum_filesize
    }

    /// A form into which nothing has come yet.
    pub fn new(maximum_filesize: u64) -> (form: UploadForm)
        ensures
            form@ == (FormView {
                e_filename: None,
                e_filedata: None,
                iv_fd: None,
                iv_fn: None,
                hour_duration: None,
            }),
            form.maximum_filesize() == maximum_filesize,
    {
        UploadForm {
            maximum_filesize,
            e_filename: None,
            e_filedata: None,
            iv_fd: None,
            iv_fn: None,
            hour_duration: None,
        }
    }

    /// Takes one field of the form in. A field that breaks a limit, and a
    /// field of an unknown name, is a client error that leaves the form as it
    /// was.
    pub fn accept_field(&mut self, name: &str, data: Vec<u8>) -> (r: Result<(), AppError>)
        ensures
            final(self).maximum_filesize() == old(self).maximum_filesize(),
            within_limits(final(self)@, final(self).maximum_filesize()),
            match field_refusal(field_named(name@), data@, old(self).maximum_filesize()) {
                Some(message) => r is Err && r->Err_0@ == (StatusCode::BAD_REQUEST, message)
                    && final(self)@ == old(self)@,
                None => r is Ok && final(self)@ == old(self)@.with_field(
                    field_named(name@),
                    data@,
                ),
            },
    {
        proof {
            use_type_invariant(&*self);
        }
        match classify_field(name) {
            FormField::Filename => {
                if data.len() > MAX_FILENAME_LEN {
                    return AppError::err(
                        StatusCode::BAD_REQUEST,
                        "encrypted filename is too large (larger than 8KiB)",
                    );
                }
                self.e_filename = Some(data);
            },
            FormField::Filedata => {
                if data.len() as u64 > self.maximum_filesize {
                    return AppError::err(StatusCode::BAD_REQUEST, "encrypted file is too large");
                }
                self.e_filedata = Some(data);
            },
            FormField::IvFiledata => {
                if data.len() != IV_LEN {
                    return AppError::err(
                        StatusCode::BAD_REQUEST,
                        "iv_fd is not exactly 12 bytes long",
                    );
                }
                self.iv_fd = Some(data);
            },
            FormField::IvFilename => {
                if data.len() != IV_LEN {
                    return AppError::err(
                        StatusCode::BAD_REQUEST,
                        "iv_fn is not exactly 12 bytes long",
                    );
                }
                self.iv_fn = Some(data);
            },
            FormField::Duration => {
                if !is_utf8(data.as_slice()) {
                    return AppError::err(StatusCode::BAD_REQUEST, "invalid duration parameter");
                }
                self.hour_duration = parse_duration(&data);
            },
            FormField::Unknown => {
                return AppError::err(StatusCode::BAD_REQUEST, "illegal form field during upload");
            },
        }
        Ok(())
    }

    /// Closes the form. A missing field is a client error that names the
    /// first field that is missing.
    pub fn finish(self) -> (r: Result<UploadRequest, AppError>)
        ensures
            match missing_field(self@) {
                Some(message) => r is Err && r->Err_0@ == (StatusCode::BAD_REQUEST, message),
                None => r is Ok && r->Ok_0@ == (RequestView {
                    e_filename: self@.e_filename->Some_0,
                    e_filedata: self@.e_filedata->Some_0,
                    iv_fd: self@.iv_fd->Some_0,
                    iv_fn: self@.iv_fn->Some_0,
                    hour_duration: self@.hour_duration->Some_0,
                }) && r->Ok_0.maximum_filesize() == self.maximum_filesize()
                    && request_within_limits(r->Ok_0@, self.maximum_filesize()),
            },
    {
        proof {
            use_type_invariant(&self);
        }
        let maximum_filesize = self.maximum_filesize;
        let e_filename = match self.e_filename {
            Some(v) => v,
            None => {
                return AppError::err(StatusCode::BAD_REQUEST, "no encrypted filename provided");
            },
        };
        let e_filedata = match self.e_filedata {
            Some(v) => v,
            None => {
                return AppError::err(StatusCode::BAD_REQUEST, "no encrypted filedata provided");
            },
        };
        let iv_fd = match self.iv_fd {
            Some(v) => v,
            None => {
                return AppError::err(StatusCode::BAD_REQUEST, "no iv_fd provided");
            },
        };
        let iv_fn = match self.iv_fn {
            Some(v) => v,
            None => {
                return AppError::err(StatusCode::BAD_REQUEST, "no iv_fn provided");
            },
        };
        let hour_duration = match self.hour_duration {
            Some(v) => v,
            None => {
                return AppError::err(StatusCode::BAD_REQUEST, "no duration provided");
            },
        };
        Ok(UploadRequest { maximum_filesize, e_filename, e_filedata, iv_fd, iv_fn, hour_duration })
    }
}

/// A complete upload form, every field within its limit.
#[derive(Debug)]
pub struct UploadRequest {
    maximum_filesize: u64,
    e_filename: Vec<u8>,
    e_filedata: Vec<u8>,
    iv_fd: Vec<u8>,
    iv_fn: Vec<u8>,
    hour_duration: i64,
}

/// What a complete upload form holds.
pub struct RequestView {
    pub e_filename: Seq<u8>,
    pub e_filedata: Seq<u8>,
    pub iv_fd: Seq<u8>,
    pub iv_fn: Seq<u8>,
    pub hour_duration: i64,
}

/// Whether the fields of a complete form keep their limits.
pub open spec fn request_within_limits(request: RequestView, maximum_filesize: u64) -> bool {
    &&& request.e_filename.len() <= 8192
    &&& request.e_filedata.len() <= maximum_filesize
    &&& request.iv_fd.len() == 12
    &&& request.iv_fn.len() == 12
    &&& (request.hour_duration == 1 || request.hour_duration == 24 || request.hour_duration
        == 168)
}

impl View for UploadRequest {
    type V = RequestView;

    closed spec fn view(&self) -> RequestView {
        RequestView {
            e_filename: self.e_filename@,
            e_filedata: self.e_filedata@,
            iv_fd: self.iv_fd@,
            iv_fn: self.iv_fn@,
            hour_duration: self.hour_duration,
        }
    }
}

impl UploadRequest {
    #[verifier::type_invariant]
    spec fn limits_kept(self) -> bool {
        request_within_limits(self@, self.maximum_filesize)
    }

    /// The largest blob that the form took.
    pub closed spec fn maximum_filesize(&self) -> u64 {
        self.maximum_filesize
    }

    /// The length of the encrypted blob in bytes.
    pub fn filesize(&self) -> (n: u64)
        ensures
            n == self@.e_filedata.len(),
            request_within_limits(self@, self.maximum_filesize()),
    {
        proof {
            use_type_invariant(self);
        }
        self.e_filedata.len() as u64
    }

    /// The hours that the blob is to live.
    pub fn hour_duration(&self) -> (h: i64)
        ensures
            h == self@.hour_duration,
    {
        self.hour_duration
    }
}

/// The two instants of a new record: its creation, which is `now` rounded
/// to the second, and its expiry, the given number of hours later. `None`
/// where either does not fit the range of seconds.
pub open spec fn upload_times(now: Timestamp, hours: i64) -> Option<(Timestamp, Timestamp)> {
    let created = now.rounded_secs();
    let expiry = created + hours * 3600;
    if created <= i64::MAX && i64::MIN <= expiry <= i64::MAX {
        Some(
            (
                Timestamp { secs: created as i64, nanos: 0 },
                Timestamp { secs: expiry as i64, nanos: 0 },
            ),
        )
    } else {
        None
    }
}

/// The two instants of a new record in the text in which they are stored.
/// `None` where an instant is out of range or cannot be printed.
pub open spec fn upload_stamps(now: Timestamp, hours: i64) -> Option<(Seq<char>, Seq<char>)> {
    match upload_times(now, hours) {
        Some((created, expiry)) => match (
            rfc3339_text(created.secs as int, 0),
            rfc3339_text(expiry.secs as int, 0),
        ) {
            (Some(c), Some(e)) => Some((c, e)),
            _ => None,
        },
        None => None,
    }
}

/// The message for an upload that the storage has no room for.
pub open spec fn storage_exhausted_message() -> Seq<char> {
    "server has reached maximum storage capacity; please try again later"@
}

/// The message for an upload of an identity that owns too many blobs.
pub open spec fn upload_limit_message() -> Seq<char> {
    "your computer has reached the file upload limit; delete old files or wait for them to expire"@
}

/// Why a complete upload is turned down, or `None` where it goes ahead. The
/// storage comes first: an upload that would take the bytes in use past the
/// quota is refused as storage exhaustion. Then the identity's own count, and
/// last the instants of the record.
pub open spec fn upload_rejection(
    request: RequestView,
    snapshot: QuotaSnapshot,
    maximum_quota: u64,
    maximum_uploads_per_ip: u64,
    now: Timestamp,
) -> Option<(StatusCode, Seq<char>)> {
    if snapshot.used_bytes + request.e_filedata.len() > maximum_quota {
        Some((StatusCode::INSUFFICIENT_STORAGE, storage_exhausted_message()))
    } else if snapshot.count_for_identity > maximum_uploads_per_ip {
        Some((StatusCode::TOO_MANY_REQUESTS, upload_limit_message()))
    } else if upload_stamps(now, request.hour_duration) is None {
        Some(
            (
                StatusCode::INTERNAL_SERVER_ERROR,
                "failed to apply duration to current timestamp"@,
            ),
        )
    } else {
        None
    }
}

/// Whether `record` is the record of the upload `request` of `identity` at
/// `now`, with `key` as its capability: the content hash of the blob, the
/// digest of the key, the fields of the form, the canonical identity, the two
/// instants, and no downloads yet.
pub open spec fn is_record_of(
    record: Resource,
    request: RequestView,
    identity: IpPrefix,
    key: Seq<u8>,
    now: Timestamp,
) -> bool {
    &&& record.efd_sha256sum@ == digest_text(request.e_filedata)
    &&& record.admin_key_sha256sum@ == digest_text(key)
    &&& record.e_filename@ == request.e_filename
    &&& record.iv_fd@ == request.iv_fd
    &&& record.iv_fn@ == request.iv_fn
    &&& record.filesize == request.e_filedata.len()
    &&& record.upload_ip@ == identity.canonical()
    &&& upload_stamps(now, request.hour_duration) matches Some(stamps) && record.upload_ts@
        == stamps.0 && record.expiry_ts@ == stamps.1
    &&& record.downloads == 0
}

/// The upload page names the largest file that is accepted: gives that size
/// in the form that people read.
pub fn upload_page(conf: &AppConfiguration) -> (max_filesize: String)
    ensures
        max_filesize@ == crate::pretty::bytes_text(conf.maximum_filesize as nat),
{
    crate::pretty::pretty_print_bytes(conf.maximum_filesize)
}

/// Turns an upload down before its form is read where the storage is full
/// already.
pub fn check_storage_capacity(snapshot: &QuotaSnapshot, conf: &AppConfiguration) -> (r: Result<
    (),
    AppError,
>)
    ensures
        r is Err <==> snapshot.used_bytes > conf.maximum_quota,
        r is Err ==> r->Err_0@ == (StatusCode::INSUFFICIENT_STORAGE, storage_exhausted_message()),
{
    if snapshot.used_bytes > conf.maximum_quota {
        AppError::err(
            StatusCode::INSUFFICIENT_STORAGE,
            "server has reached maximum storage capacity; please try again later",
        )
    } else {
        Ok(())
    }
}

/// An admitted upload whose blob is to be written to disk, under the name of
/// its content hash. The record is not stored before the blob is.
#[derive(Debug)]
pub struct BlobWrite {
    record: Resource,
    e_filedata: Vec<u8>,
    admin_key: String,
}

/// An upload whose blob is on disk and whose record is to be stored.
#[derive(Debug)]
pub struct RowInsert {
    record: Resource,
    admin_key: String,
}

/// What the client learns of a stored upload: the content hash and the
/// capability.
#[derive(Debug)]
pub struct UploadFileResponse {
    pub efd_sha256sum: String,
    pub admin_key: String,
}

/// Why a blob could not be written.
#[derive(Debug)]
pub enum BlobWriteError {
    /// The file could not be created.
    Create(String),
    /// The file was created and the bytes could not be written.
    Write(String),
}

impl BlobWriteError {
    /// The message of the server error.
    pub open spec fn message(self) -> Seq<char> {
        match self {
            BlobWriteError::Create(e) => "failed to create file on disk: "@ + e@,
            BlobWriteError::Write(e) => "failed to write encrypted filedata to disk: "@ + e@,
        }
    }
}

impl BlobWrite {
    /// The record that will be stored.
    pub closed spec fn record(&self) -> Resource {
        self.record
    }

    /// The bytes that will be written.
    pub closed spec fn blob(&self) -> Seq<u8> {
        self.e_filedata@
    }

    /// The capability that the client will get.
    pub closed spec fn capability(&self) -> Seq<char> {
        self.admin_key@
    }

    /// The name of the file to write: the content hash.
    pub fn blob_name(&self) -> (name: &str)
        ensures
            name@ == self.record().efd_sha256sum@,
    {
        self.record.efd_sha256sum.as_str()
    }

    /// The bytes to write.
    pub fn blob_bytes(&self) -> (bytes: &Vec<u8>)
        ensures
            bytes@ == self.blob(),
    {
        &self.e_filedata
    }

    /// Takes the outcome of the write. A blob that could not be written ends
    /// the upload with a server error, and no record is ever stored for it.
    pub fn on_blob_written(self, outcome: Result<(), BlobWriteError>) -> (r: Result<
        RowInsert,
        AppError,
    >)
        ensures
            match outcome {
                Ok(_) => r is Ok && r->Ok_0.record() == self.record() && r->Ok_0.capability()
                    == self.capability(),
                Err(e) => r is Err && r->Err_0@ == (
                    StatusCode::INTERNAL_SERVER_ERROR,
                    e.message(),
                ),
            },
    {
        match outcome {
            Ok(_) => Ok(RowInsert { record: self.record, admin_key: self.admin_key }),
            Err(BlobWriteError::Create(e)) => Err(
                AppError::new500_with("failed to create file on disk: ", e.as_str()),
            ),
            Err(BlobWriteError::Write(e)) => Err(
                AppError::new500_with("failed to write encrypted filedata to disk: ", e.as_str()),
            ),
        }
    }
}

impl RowInsert {
    /// The record to store.
    pub closed spec fn record(&self) -> Resource {
        self.record
    }

    /// The capability that the client will get.
    pub closed spec fn capability(&self) -> Seq<char> {
        self.admin_key@
    }

    /// The record to store.
    pub fn row(&self) -> (row: &Resource)
        ensures
            *row == self.record(),
    {
        &self.record
    }

    /// Takes the outcome of storing the record. On success the client gets
    /// the content hash and the capability. On failure the blob stays on disk
    /// without a record: nothing is retried, and the failure names the blob so
    /// that it is logged.
    pub fn on_row_inserted(self, outcome: Result<(), String>) -> (r: Result<
        UploadFileResponse,
        StorageFailure,
    >)
        ensures
            match outcome {
                Ok(_) => r is Ok && r->Ok_0.efd_sha256sum@ == self.record().efd_sha256sum@
                    && r->Ok_0.admin_key@ == self.capability(),
                Err(e) => r is Err && r->Err_0.error@ == (
                    StatusCode::INTERNAL_SERVER_ERROR,
                    "failed to insert row into database: "@ + e@,
                ) && r->Err_0.orphaned_blob is Some && r->Err_0.orphaned_blob->Some_0@
                    == self.record().efd_sha256sum@,
            },
    {
        match outcome {
            Ok(_) => Ok(
                UploadFileResponse {
                    efd_sha256sum: self.record.efd_sha256sum,
                    admin_key: self.admin_key,
                },
            ),
            Err(e) => Err(
                StorageFailure {
                    error: AppError::new500_with(
                        "failed to insert row into database: ",
                        e.as_str(),
                    ),
                    orphaned_blob: Some(self.record.efd_sha256sum),
                },
            ),
        }
    }
}

/// Admits a complete upload with the given key as its capability, or turns it
/// down. A rejected upload has touched neither disk nor database.
pub fn prepare_upload(
    request: UploadRequest,
    identity: &IpPrefix,
    snapshot: &QuotaSnapshot,
    conf: &AppConfiguration,
    admin_key: &[u8; 32],
    now: &Timestamp,
) -> (r: Result<BlobWrite, AppError>)
    ensures
        match upload_rejection(
            request@,
            *snapshot,
            conf.maximum_quota,
            conf.maximum_uploads_per_ip,
            *now,
        ) {
            Some(e) => r is Err && r->Err_0@ == e,
            None => r is Ok && is_record_of(
                r->Ok_0.record(),
                request@,
                *identity,
                admin_key@,
                *now,
            ) && r->Ok_0.blob() == request@.e_filedata && r->Ok_0.capability() == base64url(
                admin_key@,
            ) && capability_bytes(r->Ok_0.capability()) == Some(admin_key@),
        },
{
    let filesize: u64 = request.filesize();
    let in_use: u128 = snapshot.used_bytes as u128 + filesize as u128;
    if in_use > conf.maximum_quota as u128 {
        return AppError::err(
            StatusCode::INSUFFICIENT_STORAGE,
            "server has reached maximum storage capacity; please try again later",
        );
    }
    if snapshot.count_for_identity > conf.maximum_uploads_per_ip {
        return AppError::err(
            StatusCode::TOO_MANY_REQUESTS,
            "your computer has reached the file upload limit; delete old files or wait for them to expire",
        );
    }
    let created = match now.round_to_second() {
        Some(t) => t,
        None => {
            return Err(AppError::new500("failed to apply duration to current timestamp"));
        },
    };
    let expiry = match created.checked_add_hours(request.hour_duration) {
        Some(t) => t,
        None => {
            return Err(AppError::new500("failed to apply duration to current timestamp"));
        },
    };
    let upload_ts = match created.to_rfc3339() {
        Some(s) => s,
        None => {
            return Err(AppError::new500("failed to apply duration to current timestamp"));
        },
    };
    let expiry_ts = match expiry.to_rfc3339() {
        Some(s) => s,
        None => {
            return Err(AppError::new500("failed to apply duration to current timestamp"));
        },
    };
    let efd_sha256sum = content_hash(request.e_filedata.as_slice());
    let admin_key_sha256sum = digest_of(admin_key.as_slice());
    let capability = capability_text(admin_key);
    let record = Resource {
        efd_sha256sum,
        admin_key_sha256sum,
        e_filename: request.e_filename,
        iv_fd: request.iv_fd,
        iv_fn: request.iv_fn,
        filesize,
        upload_ip: identity.to_string(),
        upload_ts,
        expiry_ts,
        downloads: 0,
    };
    Ok(BlobWrite { record, e_filedata: request.e_filedata, admin_key: capability })
}

/// Admits a complete upload under a capability that is drawn at random, or
/// turns it down. Whether it is turned down, and why, does not depend on the
/// draw; an admitted upload carries the record of some 32-byte key and the
/// capability that matches the record's digest.
pub fn upload_endpoint(
    request: UploadRequest,
    identity: &IpPrefix,
    snapshot: &QuotaSnapshot,
    conf: &AppConfiguration,
    now: &Timestamp,
) -> (r: Result<BlobWrite, AppError>)
    ensures
        match upload_rejection(
            request@,
            *snapshot,
            conf.maximum_quota,
            conf.maximum_uploads_per_ip,
            *now,
        ) {
            Some(e) => r is Err && r->Err_0@ == e,
            None => r is Ok && r->Ok_0.blob() == request@.e_filedata && (exists|key: Seq<u8>|
                key.len() == 32 && #[trigger] is_record_of(
                    r->Ok_0.record(),
                    request@,
                    *identity,
                    key,
                    *now,
                ) && r->Ok_0.capability() == base64url(key)) && capability_matches(
                r->Ok_0.capability(),
                r->Ok_0.record().admin_key_sha256sum@,
            ),
        },
{
    let key = random_key();
    let r = prepare_upload(request, identity, snapshot, conf, &key, now);
    proof {
        if r is Ok {
            assert(is_record_of(r->Ok_0.record(), request@, *identity, key@, *now));
        }
    }
    r
}

/// Quota enforcement: an upload that would take the bytes in use past the
/// quota is refused as storage exhaustion, whatever else holds of it.
pub proof fn lemma_quota_enforced(
    request: RequestView,
    snapshot: QuotaSnapshot,
    maximum_quota: u64,
    maximum_uploads_per_ip: u64,
    now: Timestamp,
)
    requires
        snapshot.used_bytes + request.e_filedata.len() > maximum_quota,
    ensures
        upload_rejection(request, snapshot, maximum_quota, maximum_uploads_per_ip, now) == Some(
            (StatusCode::INSUFFICIENT_STORAGE, storage_exhausted_message()),
        ),
{
}

/// The expiry of a new record lies strictly after its creation.
pub proof fn lemma_expiry_after_creation(now: Timestamp, hours: i64)
    requires
        hours == 1 || hours == 24 || hours == 168,
        upload_times(now, hours) is Some,
    ensures
        upload_times(now, hours)->Some_0.0.before(upload_times(now, hours)->Some_0.1),
{
}

} // verus!
