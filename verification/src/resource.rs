//! The stored record of an uploaded blob, the read path with lazy expiry, and
//! the storage that the live records take up.

use vstd::prelude::*;
use crate::error_handling::{AppError, StatusCode};
use crate::ip_prefix::IpPrefix;
use crate::text::same_text;
use crate::timestamp::{liveness, liveness_at, parse_rfc3339, rfc3339_parse, Liveness, Timestamp};

verus! {

/// The record of an uploaded blob, as it is stored.
#[derive(Debug, Clone)]
pub struct Resource {
    /// The content hash: the public identifier and the name of the file on disk.
    pub efd_sha256sum: String,
    /// The digest of the capability that may delete the blob.
    pub admin_key_sha256sum: String,
    /// The encrypted filename.
    pub e_filename: Vec<u8>,
    /// The initialization vector of the file data.
    pub iv_fd: Vec<u8>,
    /// The initialization vector of the filename.
    pub iv_fn: Vec<u8>,
    /// The length of the encrypted blob in bytes.
    pub filesize: u64,
    /// The canonical text of the uploading identity.
    pub upload_ip: String,
    /// When the record was created, in RFC 3339.
    pub upload_ts: String,
    /// When the record expires, in RFC 3339.
    pub expiry_ts: String,
    /// How often the blob was downloaded.
    pub downloads: u64,
}

/// The record of an administrator's session, as it is stored.
#[derive(Debug, Clone)]
pub struct AdminSession {
    /// The digest of the session token.
    pub session_id_sha256sum: String,
    /// When the session expires, in RFC 3339.
    pub expiry_ts: String,
}

/// What the stored records take up at one instant.
#[derive(Debug, Clone, Copy, PartialEq, Eq, Structural)]
pub struct QuotaSnapshot {
    /// The bytes of all records that have not expired.
    pub used_bytes: u64,
    /// The number of such records that one identity owns.
    pub count_for_identity: u64,
}

/// The message for a blob that is not there, or not any more.
pub open spec fn not_found_message() -> Seq<char> {
    "file not found or expired"@
}

impl Resource {
    /// What the record's expiry says at `now`.
    pub open spec fn liveness(self, now: Timestamp) -> Liveness {
        liveness(self.expiry_ts@, now)
    }

    /// Whether the record takes up storage at `now`: it does unless its
    /// expiry has passed.
    pub open spec fn holds_quota(self, now: Timestamp) -> bool {
        self.liveness(now) != Liveness::Expired
    }

    /// Whether `identity` uploaded the blob.
    pub open spec fn owned_by(self, identity: IpPrefix) -> bool {
        self.upload_ip@ == identity.canonical()
    }
}

/// What a read of a record gives at `now`: the record itself while it is
/// live; "not found" where there is no record or its expiry has passed; and a
/// server error with the parser's message where the expiry cannot be read.
pub open spec fn read_outcome(expiry_ts: Option<Seq<char>>, now: Timestamp) -> Result<
    (),
    (StatusCode, Seq<char>),
> {
    match expiry_ts {
        None => Err((StatusCode::NOT_FOUND, not_found_message())),
        Some(ts) => match liveness(ts, now) {
            Liveness::Live => Ok(()),
            Liveness::Expired => Err((StatusCode::NOT_FOUND, not_found_message())),
            Liveness::Corrupt => Err(
                (StatusCode::INTERNAL_SERVER_ERROR, rfc3339_parse(ts)->Err_0),
            ),
        },
    }
}

/// The expiry text of a record that may be absent.
pub open spec fn expiry_of(row: Option<Resource>) -> Option<Seq<char>> {
    match row {
        Some(r) => Some(r.expiry_ts@),
        None => None,
    }
}

/// The text behind a reference that may be absent.
pub open spec fn text_of(s: Option<&str>) -> Option<Seq<char>> {
    match s {
        Some(t) => Some(t@),
        None => None,
    }
}

/// The record behind a reference that may be absent.
pub open spec fn record_of(r: Option<&Resource>) -> Option<Resource> {
    match r {
        Some(x) => Some(*x),
        None => None,
    }
}

/// The session behind a reference that may be absent.
pub open spec fn session_of(s: Option<&AdminSession>) -> Option<AdminSession> {
    match s {
        Some(x) => Some(*x),
        None => None,
    }
}

/// Decides a read from the expiry text alone.
pub fn check_live(expiry_ts: Option<&str>, now: &Timestamp) -> (r: Result<(), AppError>)
    ensures
        match r {
            Ok(_) => read_outcome(text_of(expiry_ts), *now) is Ok,
            Err(e) => read_outcome(text_of(expiry_ts), *now) == Err::<
                (),
                (StatusCode, Seq<char>),
            >(e@),
        },
{
    match expiry_ts {
        None => AppError::err(StatusCode::NOT_FOUND, "file not found or expired"),
        Some(ts) => match parse_rfc3339(ts) {
            Ok(expiry) => {
                if expiry.is_before(now) {
                    AppError::err(StatusCode::NOT_FOUND, "file not found or expired")
                } else {
                    Ok(())
                }
            },
            Err(message) => Err(AppError::new500(message.as_str())),
        },
    }
}

/// Reads a record: hands it on while it is live, and answers as for a record
/// that was never there once its expiry has passed.
pub fn fetch_resource(row: Option<Resource>, now: &Timestamp) -> (r: Result<Resource, AppError>)
    ensures
        match r {
            Ok(found) => row == Some(found) && read_outcome(expiry_of(row), *now) is Ok,
            Err(e) => read_outcome(expiry_of(row), *now) == Err::<(), (StatusCode, Seq<char>)>(
                e@,
            ),
        },
{
    match row {
        None => AppError::err(StatusCode::NOT_FOUND, "file not found or expired"),
        Some(found) => {
            match check_live(Some(found.expiry_ts.as_str()), now) {
                Ok(_) => Ok(found),
                Err(e) => Err(e),
            }
        },
    }
}

/// The bytes that the records of `rows` take up at `now`.
pub open spec fn used_bytes(rows: Seq<Resource>, now: Timestamp) -> nat
    decreases rows.len(),
{
    if rows.len() == 0 {
        0
    } else {
        used_bytes(rows.drop_last(), now) + if rows.last().holds_quota(now) {
            rows.last().filesize as nat
        } else {
            0
        }
    }
}

/// The number of records of `rows` that take up storage at `now` and that
/// `identity` uploaded.
pub open spec fn uploads_of(rows: Seq<Resource>, identity: IpPrefix, now: Timestamp) -> nat
    decreases rows.len(),
{
    if rows.len() == 0 {
        0
    } else {
        uploads_of(rows.drop_last(), identity, now) + if rows.last().holds_quota(now)
            && rows.last().owned_by(identity) {
            1nat
        } else {
            0
        }
    }
}

/// A count or a sum as far as 64 bits hold it.
pub open spec fn capped(n: nat) -> u64 {
    if n <= u64::MAX {
        n as u64
    } else {
        u64::MAX
    }
}

/// The storage that the records of `rows` take up at `now`, and how many of
/// them `identity` owns. Records whose expiry has passed count for nothing,
/// whether or not they were swept.
pub fn quota_snapshot(rows: &Vec<Resource>, identity: &IpPrefix, now: &Timestamp) -> (s:
    QuotaSnapshot)
    ensures
        s.used_bytes == capped(used_bytes(rows@, *now)),
        s.count_for_identity == capped(uploads_of(rows@, *identity, *now)),
{
    let owner = identity.to_string();
    let mut used: u64 = 0;
    let mut count: u64 = 0;
    let mut i: usize = 0;
    while i < rows.len()
        invariant
            i <= rows.len(),
            owner@ == identity.canonical(),
            used == capped(used_bytes(rows@.take(i as int), *now)),
            count == capped(uploads_of(rows@.take(i as int), *identity, *now)),
        decreases rows.len() - i,
    {
        proof {
            assert(rows@.take(i + 1).drop_last() =~= rows@.take(i as int));
        }
        let row = &rows[i];
        match liveness_at(row.expiry_ts.as_str(), now) {
            Liveness::Expired => {},
            _ => {
                used = used.saturating_add(row.filesize);
                if same_text(row.upload_ip.as_str(), owner.as_str()) {
                    count = count.saturating_add(1);
                }
            },
        }
        i += 1;
    }
    proof {
        assert(rows@.take(rows.len() as int) =~= rows@);
    }
    QuotaSnapshot { used_bytes: used, count_for_identity: count }
}

/// Lazy expiry on the read path: a record whose expiry has passed reads
/// exactly as a record that was deleted, whatever the sweep has done so far.
pub proof fn lemma_expired_reads_as_absent(row: Resource, now: Timestamp)
    requires
        row.liveness(now) == Liveness::Expired,
    ensures
        read_outcome(expiry_of(Some(row)), now) == read_outcome(expiry_of(None), now),
{
}

/// A record whose expiry has passed takes up no storage: removing it from the
/// rows changes neither the bytes in use nor any identity's count.
pub proof fn lemma_expired_holds_no_quota(
    rows: Seq<Resource>,
    row: Resource,
    identity: IpPrefix,
    now: Timestamp,
)
    requires
        row.liveness(now) == Liveness::Expired,
    ensures
        used_bytes(rows.push(row), now) == used_bytes(rows, now),
        uploads_of(rows.push(row), identity, now) == uploads_of(rows, identity, now),
{
    assert(rows.push(row).drop_last() =~= rows);
}

} // verus!
