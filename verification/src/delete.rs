//! Deleting a blob before it expires, and the order in which a record and
//! its blob are removed.

use vstd::prelude::*;
use vstd::utf8::encode_utf8;
use crate::auth::{authorization, check_key, check_session, key_grants, session_grants};
use crate::digest::{session_digest, session_digest_text, HASH_TEXT_LEN};
use crate::error_handling::{AppError, StatusCode, StorageFailure};
use crate::resource::{check_live, expiry_of, read_outcome, record_of, session_of, AdminSession, Resource};
use crate::timestamp::Timestamp;

verus! {

/// A request to delete a blob: its content hash, and the capability where
/// the client has one.
#[derive(Debug)]
pub struct DeleteRequest {
    pub hash: String,
    pub admin: Option<String>,
}

/// The capability of a request as a text that may be absent.
pub open spec fn presented_of(admin: Option<String>) -> Option<Seq<char>> {
    match admin {
        Some(key) => Some(key@),
        None => None,
    }
}

/// Whether a text has the length of a content hash: 43 bytes in UTF-8.
pub open spec fn has_hash_length(hash: Seq<char>) -> bool {
    encode_utf8(hash).len() == 43
}

/// Whether a text has the length of a content hash.
pub fn check_hash_length(hash: &str) -> (r: Result<(), AppError>)
    ensures
        r is Ok <==> has_hash_length(hash@),
        r is Err ==> r->Err_0@ == (StatusCode::BAD_REQUEST, "invalid hash length"@),
{
    if hash.as_bytes().len() != HASH_TEXT_LEN {
        AppError::err(StatusCode::BAD_REQUEST, "invalid hash length")
    } else {
        Ok(())
    }
}

/// A deletion that waits for the record of its blob.
#[derive(Debug)]
pub struct PendingDelete {
    hash: String,
    admin: Option<String>,
    cookie: String,
}

/// A deletion that the capability did not authorize and that waits for the
/// session of the cookie's holder.
#[derive(Debug)]
pub struct SessionCheck {
    hash: String,
    cookie: String,
}

/// What the record says of a deletion.
#[derive(Debug)]
pub enum KeyCheck {
    /// The capability matched: the record may be removed.
    Authorized(RowRemoval),
    /// The capability did not match: a session has to.
    NeedsSession(SessionCheck),
}

/// A removal whose record is to be deleted first.
#[derive(Debug)]
pub struct RowRemoval {
    hash: String,
}

/// A removal whose record is gone and whose blob is to be deleted.
#[derive(Debug)]
pub struct BlobRemoval {
    hash: String,
}

/// Endpoint where clients can ask to delete files from the service before
/// they expire. A hash of the wrong length is a client error.
pub fn delete_endpoint(req: DeleteRequest, session_cookie: &str) -> (r: Result<
    PendingDelete,
    AppError,
>)
    ensures
        r is Ok <==> has_hash_length(req.hash@),
        r is Err ==> r->Err_0@ == (StatusCode::BAD_REQUEST, "invalid hash length"@),
        r is Ok ==> r->Ok_0.hash() == req.hash@ && r->Ok_0.presented() == presented_of(req.admin)
            && r->Ok_0.cookie() == session_cookie@,
{
    match check_hash_length(req.hash.as_str()) {
        Err(e) => Err(e),
        Ok(_) => Ok(
            PendingDelete { hash: req.hash, admin: req.admin, cookie: session_cookie.to_owned() },
        ),
    }
}

impl PendingDelete {
    /// The content hash of the blob.
    pub closed spec fn hash(&self) -> Seq<char> {
        self.hash@
    }

    /// The capability that was presented.
    pub closed spec fn presented(&self) -> Option<Seq<char>> {
        presented_of(self.admin)
    }

    /// The session cookie that came with the request.
    pub closed spec fn cookie(&self) -> Seq<char> {
        self.cookie@
    }

    /// The content hash by which the record is looked up.
    pub fn lookup_hash(&self) -> (h: &str)
        ensures
            h@ == self.hash(),
    {
        self.hash.as_str()
    }

    /// Takes the record that was found for the hash. An absent record and one
    /// whose expiry has passed end the deletion as "not found" before the
    /// capability is looked at.
    pub fn on_resource(self, record: Option<&Resource>, now: &Timestamp) -> (r: Result<
        KeyCheck,
        AppError,
    >)
        ensures
            match read_outcome(expiry_of(record_of(record)), *now) {
                Err(e) => r is Err && r->Err_0@ == e,
                Ok(_) => r is Ok && if key_grants(*record->Some_0, self.presented()) {
                    r->Ok_0 matches KeyCheck::Authorized(go) && go.hash() == self.hash()
                } else {
                    r->Ok_0 matches KeyCheck::NeedsSession(check) && check.hash() == self.hash()
                        && check.cookie() == self.cookie()
                },
            },
    {
        match record {
            None => AppError::err(StatusCode::NOT_FOUND, "file not found or expired"),
            Some(found) => {
                match check_live(Some(found.expiry_ts.as_str()), now) {
                    Err(e) => Err(e),
                    Ok(_) => {
                        let granted = match &self.admin {
                            Some(key) => check_key(found, Some(key.as_str())),
                            None => check_key(found, None),
                        };
                        if granted {
                            Ok(KeyCheck::Authorized(RowRemoval { hash: self.hash }))
                        } else {
                            Ok(
                                KeyCheck::NeedsSession(
                                    SessionCheck { hash: self.hash, cookie: self.cookie },
                                ),
                            )
                        }
                    },
                }
            },
        }
    }
}

impl SessionCheck {
    /// The content hash of the blob.
    pub closed spec fn hash(&self) -> Seq<char> {
        self.hash@
    }

    /// The session cookie that came with the request.
    pub closed spec fn cookie(&self) -> Seq<char> {
        self.cookie@
    }

    /// The digest by which the session is looked up.
    pub fn lookup_digest(&self) -> (d: String)
        ensures
            d@ == session_digest_text(self.cookie()),
    {
        session_digest(self.cookie.as_str())
    }

    /// Takes the session that was found for the digest. Without a live
    /// session of the cookie's holder the deletion is unauthorized.
    pub fn on_session(self, session: Option<&AdminSession>, now: &Timestamp) -> (r: Result<
        RowRemoval,
        AppError,
    >)
        ensures
            match session_grants(session_of(session), self.cookie(), *now) {
                Ok(granted) => if granted {
                    r is Ok && r->Ok_0.hash() == self.hash()
                } else {
                    r is Err && r->Err_0@ == (StatusCode::UNAUTHORIZED, "unauthorized"@)
                },
                Err(message) => r is Err && r->Err_0@ == (
                    StatusCode::INTERNAL_SERVER_ERROR,
                    message,
                ),
            },
    {
        match check_session(session, self.cookie.as_str(), now) {
            Ok(true) => Ok(RowRemoval { hash: self.hash }),
            Ok(false) => AppError::err(StatusCode::UNAUTHORIZED, "unauthorized"),
            Err(e) => Err(e),
        }
    }
}

/// Remove a single file identified by its content hash from the database and
/// disk: the record first, the blob after it.
pub fn cleanup_file(efd_sha256sum: &str) -> (r: RowRemoval)
    ensures
        r.hash() == efd_sha256sum@,
{
    RowRemoval { hash: efd_sha256sum.to_owned() }
}

impl RowRemoval {
    /// The content hash of the blob.
    pub closed spec fn hash(&self) -> Seq<char> {
        self.hash@
    }

    /// The content hash of the record to delete.
    pub fn row_hash(&self) -> (h: &str)
        ensures
            h@ == self.hash(),
    {
        self.hash.as_str()
    }

    /// Takes the outcome of deleting the record. Where the record could not
    /// be deleted the removal ends with a server error that carries the
    /// store's message, and the blob is not touched.
    pub fn on_row_removed(self, outcome: Result<(), String>) -> (r: Result<BlobRemoval, AppError>)
        ensures
            match outcome {
                Ok(_) => r is Ok && r->Ok_0.hash() == self.hash(),
                Err(e) => r is Err && r->Err_0@ == (StatusCode::INTERNAL_SERVER_ERROR, e@),
            },
    {
        match outcome {
            Ok(_) => Ok(BlobRemoval { hash: self.hash }),
            Err(e) => Err(AppError::new500(e.as_str())),
        }
    }
}

impl BlobRemoval {
    /// The content hash of the blob.
    pub closed spec fn hash(&self) -> Seq<char> {
        self.hash@
    }

    /// The name of the file to delete.
    pub fn blob_name(&self) -> (h: &str)
        ensures
            h@ == self.hash(),
    {
        self.hash.as_str()
    }

    /// Takes the outcome of deleting the blob, and ends the removal with the
    /// hash of what was removed. Where the blob could not be deleted the
    /// record is gone all the same and reads find nothing; the bytes stay on
    /// disk, and the failure names them so that they are logged.
    pub fn on_blob_removed(self, outcome: Result<(), String>) -> (r: Result<
        String,
        StorageFailure,
    >)
        ensures
            match outcome {
                Ok(_) => r is Ok && r->Ok_0@ == self.hash(),
                Err(e) => r is Err && r->Err_0.error@ == (StatusCode::INTERNAL_SERVER_ERROR, e@)
                    && r->Err_0.orphaned_blob is Some && r->Err_0.orphaned_blob->Some_0@
                    == self.hash(),
            },
    {
        match outcome {
            Ok(_) => Ok(self.hash),
            Err(e) => Err(
                StorageFailure {
                    error: AppError::new500(e.as_str()),
                    orphaned_blob: Some(self.hash),
                },
            ),
        }
    }
}

/// Whether a deletion request reaches the removal of the record, given what
/// is found for it: exactly where its hash has the right length and the
/// deletion is authorized.
pub open spec fn deletion_goes_ahead(
    req: DeleteRequest,
    cookie: Seq<char>,
    record: Option<Resource>,
    session: Option<AdminSession>,
    now: Timestamp,
) -> bool {
    has_hash_length(req.hash@) && authorization(
        record,
        presented_of(req.admin),
        session,
        cookie,
        now,
    ) == Ok::<bool, (StatusCode, Seq<char>)>(true)
}

/// No deletion without authorization: a request whose capability does not
/// match and whose cookie has no live session never reaches the removal, and
/// neither does a request for a record that is absent or has expired.
pub proof fn lemma_deletion_needs_authorization(
    req: DeleteRequest,
    cookie: Seq<char>,
    record: Option<Resource>,
    session: Option<AdminSession>,
    now: Timestamp,
)
    requires
        deletion_goes_ahead(req, cookie, record, session, now),
    ensures
        record is Some,
        read_outcome(expiry_of(record), now) is Ok,
        key_grants(record->Some_0, presented_of(req.admin)) || session_grants(
            session,
            cookie,
            now,
        ) == Ok::<bool, Seq<char>>(true),
{
}

} // verus!
