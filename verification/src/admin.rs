//! The site-wide administrator: login, logout, and the overview of all
//! stored blobs.

use vstd::prelude::*;
use vstd::utf8::encode_utf8;
use crate::auth::{check_session, session_grants};
use crate::digest::{
    base64url,
    capability_text,
    digest_of,
    digest_text,
    random_key,
    session_digest,
    session_digest_text,
};
use crate::error_handling::{AppError, StatusCode};
use crate::ip_prefix::{lemma_parse_unique, IpPrefix};
use crate::pretty::{
    bytes_text,
    minutes_between,
    pretty_print_bytes,
    pretty_print_delta,
    span_text,
};
use crate::resource::{capped, session_of, text_of, used_bytes, AdminSession, Resource};
use crate::text::same_text;
use crate::timestamp::{
    ctime_text,
    liveness_at,
    parse_rfc3339,
    rfc3339_parse,
    rfc3339_text,
    Liveness,
    Timestamp,
};

verus! {

/// What the argon2 verifier makes of a password and a stored hash in the PHC
/// format: whether the password is the one that was hashed, or the printed
/// error where the stored hash cannot be parsed.
pub uninterp spec fn password_check(password: Seq<u8>, stored_hash: Seq<char>) -> Result<
    bool,
    Seq<char>,
>;

/// Calls `PasswordHash::new` on the stored hash and `verify_password` of the
/// default `Argon2` on the password and the parsed hash. A hash that does not
/// parse gives its printed error; otherwise the result says whether the
/// verification succeeded. Both depend on the two arguments alone.
#[verifier::external_body]
pub(crate) fn verify_password(password: &[u8], stored_hash: &str) -> (r: Result<bool, String>)
    ensures
        r is Ok <==> password_check(password@, stored_hash@) is Ok,
        r is Ok ==> r->Ok_0 == password_check(password@, stored_hash@)->Ok_0,
        r is Err ==> r->Err_0@ == password_check(password@, stored_hash@)->Err_0,
{
    match argon2::PasswordHash::new(stored_hash) {
        Ok(hash) => Ok(
            argon2::PasswordVerifier::verify_password(
                &argon2::Argon2::default(),
                password,
                &hash,
            ).is_ok(),
        ),
        Err(e) => Err(e.to_string()),
    }
}

/// What an administrator sends to log in.
#[derive(Debug)]
pub struct AdminLogin {
    pub password: String,
    pub long_login: Option<String>,
}

/// A session that a successful login opens.
#[derive(Debug)]
pub struct NewSession {
    /// The token for the client's cookie.
    pub session_id: String,
    /// The record to store: the token's digest and the expiry.
    pub record: AdminSession,
    /// For how many days the session is valid.
    pub duration_days: i64,
    /// For how many days the cookie is kept; a cookie without an age goes
    /// when the browser is closed.
    pub cookie_max_age_days: Option<i64>,
}

/// How a login ends.
#[derive(Debug)]
pub enum LoginOutcome {
    /// The password was wrong: the client is sent back to the login form.
    Failed,
    /// The password was right.
    Granted(NewSession),
}

/// Where a failed login is sent.
pub open spec fn login_failed_target() -> Seq<char> {
    "/admin?status=login_failed"@
}

/// For how many days a session is valid: thirty where a long login was asked
/// for, one otherwise.
pub open spec fn session_days(long_login: bool) -> i64 {
    if long_login {
        30
    } else {
        1
    }
}

/// The expiry text of a session opened at `now`; `None` where the expiry is
/// out of range or cannot be printed.
pub open spec fn session_expiry(now: Timestamp, days: i64) -> Option<Seq<char>> {
    let secs = now.secs + days * 86400;
    if i64::MIN <= secs <= i64::MAX {
        rfc3339_text(secs, now.nanos as int)
    } else {
        None
    }
}

/// The message for a configured hash that does not parse.
pub open spec fn bad_hash_message(detail: Seq<char>) -> Seq<char> {
    "the admin password hash in config.toml could not be parsed correctly: "@ + detail
}

/// Whether `session` is the session that a login at `now` opens with the
/// token `token`.
pub open spec fn is_session_of(
    session: NewSession,
    token: Seq<u8>,
    long_login: bool,
    now: Timestamp,
) -> bool {
    &&& session.session_id@ == base64url(token)
    &&& session.record.session_id_sha256sum@ == digest_text(token)
    &&& session_expiry(now, session_days(long_login)) == Some(session.record.expiry_ts@)
    &&& session.duration_days == session_days(long_login)
    &&& session.cookie_max_age_days == if long_login {
        Some(30i64)
    } else {
        None
    }
}

/// Decides a login with the given token for the new session.
pub fn prepare_login(
    admin_password_hash: &str,
    login: &AdminLogin,
    token: &[u8; 32],
    now: &Timestamp,
) -> (r: Result<LoginOutcome, AppError>)
    ensures
        match password_check(encode_utf8(login.password@), admin_password_hash@) {
            Err(detail) => r is Err && r->Err_0@ == (
                StatusCode::INTERNAL_SERVER_ERROR,
                bad_hash_message(detail),
            ),
            Ok(false) => r is Ok && r->Ok_0 is Failed,
            Ok(true) => match session_expiry(*now, session_days(login.long_login is Some)) {
                None => r is Err && r->Err_0@ == (
                    StatusCode::INTERNAL_SERVER_ERROR,
                    "failed to apply duration to current timestamp"@,
                ),
                Some(_) => r is Ok && (r->Ok_0 matches LoginOutcome::Granted(session)
                    && is_session_of(session, token@, login.long_login is Some, *now)
                    && session_digest_text(session.session_id@)
                    == session.record.session_id_sha256sum@),
            },
        },
{
    match verify_password(login.password.as_str().as_bytes(), admin_password_hash) {
        Err(detail) => Err(
            AppError::new500_with(
                "the admin password hash in config.toml could not be parsed correctly: ",
                detail.as_str(),
            ),
        ),
        Ok(false) => Ok(LoginOutcome::Failed),
        Ok(true) => {
            let long_login = login.long_login.is_some();
            let duration_days: i64 = if long_login {
                30
            } else {
                1
            };
            let expiry_ts = match now.checked_add_days(duration_days) {
                Some(expiry) => match expiry.to_rfc3339() {
                    Some(text) => text,
                    None => {
                        return Err(
                            AppError::new500("failed to apply duration to current timestamp"),
                        );
                    },
                },
                None => {
                    return Err(AppError::new500("failed to apply duration to current timestamp"));
                },
            };
            let session_id = capability_text(token);
            let session_id_sha256sum = digest_of(token.as_slice());
            Ok(
                LoginOutcome::Granted(
                    NewSession {
                        session_id,
                        record: AdminSession { session_id_sha256sum, expiry_ts },
                        duration_days,
                        cookie_max_age_days: if long_login {
                            Some(30)
                        } else {
                            None
                        },
                    },
                ),
            )
        },
    }
}

/// Endpoint allowing a site-wide administrator to log in. The token of the
/// new session is drawn at random; whether the login succeeds does not depend
/// on the draw, and the session that is opened is the one of some 32-byte
/// token, stored under the digest that the cookie will be looked up by.
pub fn admin_login(admin_password_hash: &str, login: &AdminLogin, now: &Timestamp) -> (r: Result<
    LoginOutcome,
    AppError,
>)
    ensures
        match password_check(encode_utf8(login.password@), admin_password_hash@) {
            Err(detail) => r is Err && r->Err_0@ == (
                StatusCode::INTERNAL_SERVER_ERROR,
                bad_hash_message(detail),
            ),
            Ok(false) => r is Ok && r->Ok_0 is Failed,
            Ok(true) => match session_expiry(*now, session_days(login.long_login is Some)) {
                None => r is Err && r->Err_0@ == (
                    StatusCode::INTERNAL_SERVER_ERROR,
                    "failed to apply duration to current timestamp"@,
                ),
                Some(_) => r is Ok && (r->Ok_0 matches LoginOutcome::Granted(session) && (
                exists|token: Seq<u8>|
                    token.len() == 32 && #[trigger] is_session_of(
                        session,
                        token,
                        login.long_login is Some,
                        *now,
                    )) && session_digest_text(session.session_id@)
                    == session.record.session_id_sha256sum@),
            },
        },
{
    let token = random_key();
    let r = prepare_login(admin_password_hash, login, &token, now);
    proof {
        if r is Ok && r->Ok_0 is Granted {
            assert(is_session_of(r->Ok_0->Granted_0, token@, login.long_login is Some, *now));
        }
    }
    r
}

/// Endpoint allowing a site-wide administrator to log out: gives the digest
/// under which the sessions of the cookie are stored, all of which are to be
/// deleted.
pub fn admin_logout(cookie: &str) -> (digest: String)
    ensures
        digest@ == session_digest_text(cookie@),
{
    session_digest(cookie)
}

/// What the administration page shows.
#[derive(Debug, Clone, Copy, PartialEq, Eq, Structural)]
pub enum AdminView {
    /// The overview of all stored blobs.
    Dashboard,
    /// The login form, with a note where a login has just failed.
    LoginForm { failed_login: bool },
}

/// Whether the `status` parameter of the query reports a failed login.
pub open spec fn reports_failed_login(status: Option<Seq<char>>) -> bool {
    status matches Some(s) && s == "login_failed"@
}

/// Decides what the administration page shows: the overview for the holder
/// of a live session, the login form for everybody else.
pub fn admin_page(
    session: Option<&AdminSession>,
    cookie: &str,
    status: Option<&str>,
    now: &Timestamp,
) -> (r: Result<AdminView, AppError>)
    ensures
        match session_grants(session_of(session), cookie@, *now) {
            Ok(granted) => r is Ok && r->Ok_0 == if granted {
                AdminView::Dashboard
            } else {
                AdminView::LoginForm { failed_login: reports_failed_login(text_of(status)) }
            },
            Err(message) => r is Err && r->Err_0@ == (
                StatusCode::INTERNAL_SERVER_ERROR,
                message,
            ),
        },
{
    match check_session(session, cookie, now) {
        Err(e) => Err(e),
        Ok(true) => Ok(AdminView::Dashboard),
        Ok(false) => {
            let failed_login = match status {
                Some(s) => same_text(s, "login_failed"),
                None => false,
            };
            Ok(AdminView::LoginForm { failed_login })
        },
    }
}

/// One line of the overview.
#[derive(Debug)]
pub struct UploadedFile {
    pub efd_sha256sum: String,
    pub formatted_filesize: String,
    pub upload_ip_pretty: String,
    pub upload_ts_pretty: String,
    pub upload_ts: String,
    pub expiry_ts_pretty: String,
    pub expiry_ts: String,
    pub downloads: u64,
}

/// The overview of all stored blobs.
#[derive(Debug)]
pub struct AdminOverview {
    pub files: Vec<UploadedFile>,
    pub full_file_count: usize,
    pub maximum_quota: String,
    pub used_quota: String,
}

/// The uploader of a record as people read it, or a note where the stored
/// text is no identity.
pub open spec fn uploader_text(upload_ip: Seq<char>) -> Seq<char> {
    if exists|p: IpPrefix| p.parses_from(upload_ip) {
        (choose|p: IpPrefix| p.parses_from(upload_ip)).pretty()
    } else {
        "(invalid IP)"@
    }
}

/// A stored instant for display, or a note where it cannot be read or
/// printed.
pub open spec fn stamp_text(ts: Seq<char>) -> Seq<char> {
    match rfc3339_parse(ts) {
        Ok(t) => match ctime_text(t.secs as int, t.nanos as int) {
            Some(text) => text,
            None => "(invalid timestamp)"@,
        },
        Err(_) => "(invalid timestamp)"@,
    }
}

/// The span between `now` and a stored instant, or a note where the instant
/// cannot be read.
pub open spec fn stamp_span(ts: Seq<char>, now: Timestamp) -> Option<Seq<char>> {
    match rfc3339_parse(ts) {
        Ok(t) => Some(span_text(minutes_between(now, t))),
        Err(_) => None,
    }
}

/// How long ago a record was uploaded.
pub open spec fn uploaded_ago(ts: Seq<char>, now: Timestamp) -> Seq<char> {
    match stamp_span(ts, now) {
        Some(span) => span + " ago"@,
        None => "N/A"@,
    }
}

/// How long a record has to live.
pub open spec fn expires_in(ts: Seq<char>, now: Timestamp) -> Seq<char> {
    match stamp_span(ts, now) {
        Some(span) => span,
        None => "N/A"@,
    }
}

/// Whether `line` is the line of the overview for `row` at `now`.
pub open spec fn is_line_of(line: UploadedFile, row: Resource, now: Timestamp) -> bool {
    &&& line.efd_sha256sum@ == row.efd_sha256sum@
    &&& line.formatted_filesize@ == bytes_text(row.filesize as nat)
    &&& line.upload_ip_pretty@ == uploader_text(row.upload_ip@)
    &&& line.upload_ts_pretty@ == uploaded_ago(row.upload_ts@, now)
    &&& line.upload_ts@ == stamp_text(row.upload_ts@)
    &&& line.expiry_ts_pretty@ == expires_in(row.expiry_ts@, now)
    &&& line.expiry_ts@ == stamp_text(row.expiry_ts@)
    &&& line.downloads == row.downloads
}

/// The rows that the overview shows: all but those whose expiry has passed.
pub open spec fn shown_rows(rows: Seq<Resource>, now: Timestamp) -> Seq<Resource>
    decreases rows.len(),
{
    if rows.len() == 0 {
        Seq::empty()
    } else if rows.last().holds_quota(now) {
        shown_rows(rows.drop_last(), now).push(rows.last())
    } else {
        shown_rows(rows.drop_last(), now)
    }
}

/// The uploader of a record as people read it.
pub fn pretty_uploader(upload_ip: &str) -> (s: String)
    ensures
        s@ == uploader_text(upload_ip@),
{
    match IpPrefix::from_str(upload_ip) {
        Ok(p) => {
            proof {
                let q = choose|q: IpPrefix| q.parses_from(upload_ip@);
                lemma_parse_unique(upload_ip@, p, q);
            }
            p.pretty_print()
        },
        Err(_) => "(invalid IP)".to_owned(),
    }
}

/// The line of the overview for one record.
pub fn overview_line(row: &Resource, now: &Timestamp) -> (line: UploadedFile)
    ensures
        is_line_of(line, *row, *now),
{
    let (upload_ts_pretty, upload_ts) = match parse_rfc3339(row.upload_ts.as_str()) {
        Ok(t) => {
            let mut ago = pretty_print_delta(now, &t);
            ago.append(" ago");
            let shown = match t.to_display() {
                Some(text) => text,
                None => "(invalid timestamp)".to_owned(),
            };
            (ago, shown)
        },
        Err(_) => ("N/A".to_owned(), "(invalid timestamp)".to_owned()),
    };
    let (expiry_ts_pretty, expiry_ts) = match parse_rfc3339(row.expiry_ts.as_str()) {
        Ok(t) => {
            let span = pretty_print_delta(now, &t);
            let shown = match t.to_display() {
                Some(text) => text,
                None => "(invalid timestamp)".to_owned(),
            };
            (span, shown)
        },
        Err(_) => ("N/A".to_owned(), "(invalid timestamp)".to_owned()),
    };
    UploadedFile {
        efd_sha256sum: row.efd_sha256sum.clone(),
        formatted_filesize: pretty_print_bytes(row.filesize),
        upload_ip_pretty: pretty_uploader(row.upload_ip.as_str()),
        upload_ts_pretty,
        upload_ts,
        expiry_ts_pretty,
        expiry_ts,
        downloads: row.downloads,
    }
}

/// The overview of the stored blobs at `now`: a line for every record whose
/// expiry has not passed, swept or not, and the storage that they take up.
pub fn admin_overview(rows: &Vec<Resource>, maximum_quota: u64, now: &Timestamp) -> (o:
    AdminOverview)
    ensures
        o.files@.len() == shown_rows(rows@, *now).len(),
        forall|i: int|
            0 <= i < o.files@.len() ==> is_line_of(
                #[trigger] o.files@[i],
                shown_rows(rows@, *now)[i],
                *now,
            ),
        o.full_file_count == o.files@.len(),
        o.maximum_quota@ == bytes_text(maximum_quota as nat),
        o.used_quota@ == bytes_text(capped(used_bytes(rows@, *now)) as nat),
{
    let mut files: Vec<UploadedFile> = Vec::new();
    let mut used: u64 = 0;
    let mut i: usize = 0;
    while i < rows.len()
        invariant
            i <= rows.len(),
            files@.len() == shown_rows(rows@.take(i as int), *now).len(),
            forall|j: int|
                0 <= j < files@.len() ==> is_line_of(
                    #[trigger] files@[j],
                    shown_rows(rows@.take(i as int), *now)[j],
                    *now,
                ),
            used == capped(used_bytes(rows@.take(i as int), *now)),
        decreases rows.len() - i,
    {
        proof {
            assert(rows@.take(i + 1).drop_last() =~= rows@.take(i as int));
        }
        match liveness_at(rows[i].expiry_ts.as_str(), now) {
            Liveness::Expired => {},
            _ => {
                used = used.saturating_add(rows[i].filesize);
                files.push(overview_line(&rows[i], now));
            },
        }
        i += 1;
    }
    proof {
        assert(rows@.take(rows.len() as int) =~= rows@);
    }
    let full_file_count = files.len();
    AdminOverview {
        files,
        full_file_count,
        maximum_quota: pretty_print_bytes(maximum_quota),
        used_quota: pretty_print_bytes(used),
    }
}

} // verus!
