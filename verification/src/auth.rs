//! Who may change a stored blob: the holder of its capability, and an
//! administrator with a live session.

use vstd::prelude::*;
use crate::digest::{capability_is, capability_matches, session_digest, session_digest_text};
use crate::error_handling::{AppError, StatusCode};
use crate::resource::{
    check_live,
    expiry_of,
    read_outcome,
    record_of,
    session_of,
    text_of,
    AdminSession,
    Resource,
};
use crate::text::same_text;
use crate::timestamp::{liveness, parse_rfc3339, rfc3339_parse, Liveness, Timestamp};

verus! {

/// Whether the presented capability is the one of the record.
pub open spec fn key_grants(record: Resource, presented: Option<Seq<char>>) -> bool {
    match presented {
        Some(key) => capability_matches(key, record.admin_key_sha256sum@),
        None => false,
    }
}

/// What a stored session says for the holder of `cookie` at `now`: `true`
/// where it is the session of that cookie and has not expired, `false` where
/// there is no such session or it has expired, and the parser's message where
/// its expiry cannot be read.
pub open spec fn session_grants(session: Option<AdminSession>, cookie: Seq<char>, now: Timestamp)
    -> Result<bool, Seq<char>> {
    match session {
        None => Ok(false),
        Some(s) => if s.session_id_sha256sum@ != session_digest_text(cookie) {
            Ok(false)
        } else {
            match liveness(s.expiry_ts@, now) {
                Liveness::Live => Ok(true),
                Liveness::Expired => Ok(false),
                Liveness::Corrupt => Err(rfc3339_parse(s.expiry_ts@)->Err_0),
            }
        },
    }
}

/// Whether a change of a record is authorized. The record is looked at
/// first: where it is absent or its expiry has passed the answer is "not
/// found", before any credential is weighed. Then either credential
/// suffices: the record's capability, or a live session of an administrator.
pub open spec fn authorization(
    record: Option<Resource>,
    presented: Option<Seq<char>>,
    session: Option<AdminSession>,
    cookie: Seq<char>,
    now: Timestamp,
) -> Result<bool, (StatusCode, Seq<char>)> {
    match read_outcome(expiry_of(record), now) {
        Err(e) => Err(e),
        Ok(_) => if key_grants(record->Some_0, presented) {
            Ok(true)
        } else {
            match session_grants(session, cookie, now) {
                Ok(granted) => Ok(granted),
                Err(message) => Err((StatusCode::INTERNAL_SERVER_ERROR, message)),
            }
        },
    }
}

/// Whether the presented capability is the one of the record.
pub fn check_key(record: &Resource, presented: Option<&str>) -> (granted: bool)
    ensures
        granted == key_grants(*record, text_of(presented)),
{
    match presented {
        Some(key) => capability_is(key, record.admin_key_sha256sum.as_str()),
        None => false,
    }
}

/// What the stored session says for the holder of `cookie` at `now`.
pub fn check_session(session: Option<&AdminSession>, cookie: &str, now: &Timestamp) -> (r: Result<
    bool,
    AppError,
>)
    ensures
        match session_grants(session_of(session), cookie@, *now) {
            Ok(granted) => r == Ok::<bool, AppError>(granted),
            Err(message) => r is Err && r->Err_0@ == (
                StatusCode::INTERNAL_SERVER_ERROR,
                message,
            ),
        },
{
    match session {
        None => Ok(false),
        Some(s) => {
            let digest = session_digest(cookie);
            if !same_text(s.session_id_sha256sum.as_str(), digest.as_str()) {
                Ok(false)
            } else {
                match parse_rfc3339(s.expiry_ts.as_str()) {
                    Ok(expiry) => Ok(!expiry.is_before(now)),
                    Err(message) => Err(AppError::new500(message.as_str())),
                }
            }
        },
    }
}

/// Whether a change of the record is authorized by the presented capability
/// or by the session that was found for the cookie.
pub fn authorize(
    record: Option<&Resource>,
    presented: Option<&str>,
    session: Option<&AdminSession>,
    cookie: &str,
    now: &Timestamp,
) -> (r: Result<bool, AppError>)
    ensures
        match authorization(
            record_of(record),
            text_of(presented),
            session_of(session),
            cookie@,
            *now,
        ) {
            Ok(granted) => r == Ok::<bool, AppError>(granted),
            Err(e) => r is Err && r->Err_0@ == e,
        },
{
    match record {
        None => AppError::err(StatusCode::NOT_FOUND, "file not found or expired"),
        Some(found) => {
            match check_live(Some(found.expiry_ts.as_str()), now) {
                Err(e) => Err(e),
                Ok(_) => {
                    if check_key(found, presented) {
                        Ok(true)
                    } else {
                        check_session(session, cookie, now)
                    }
                },
            }
        },
    }
}

/// Lazy expiry in authorization: for a record whose expiry has passed, no
/// credential is weighed, and the answer is the one for a record that was
/// deleted.
pub proof fn lemma_expired_authorizes_as_absent(
    record: Resource,
    presented: Option<Seq<char>>,
    session: Option<AdminSession>,
    cookie: Seq<char>,
    now: Timestamp,
)
    requires
        record.liveness(now) == Liveness::Expired,
    ensures
        authorization(Some(record), presented, session, cookie, now) == authorization(
            None,
            presented,
            session,
            cookie,
            now,
        ),
        authorization(Some(record), presented, session, cookie, now) is Err,
{
}

/// Without a matching capability and without a live session of the cookie's
/// holder, nothing is authorized.
pub proof fn lemma_no_credential_no_access(
    record: Option<Resource>,
    presented: Option<Seq<char>>,
    session: Option<AdminSession>,
    cookie: Seq<char>,
    now: Timestamp,
)
    requires
        record is Some ==> !key_grants(record->Some_0, presented),
        session_grants(session, cookie, now) != Ok::<bool, Seq<char>>(true),
    ensures
        authorization(record, presented, session, cookie, now) != Ok::<
            bool,
            (StatusCode, Seq<char>),
        >(true),
{
}

} // verus!
