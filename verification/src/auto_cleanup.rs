//! The periodic sweep: the counters leak, and the records and sessions whose
//! expiry has passed are picked out for removal.

use vstd::prelude::*;
use crate::config::Level;
use crate::error_handling::LogRecord;
use crate::rate_limiter::{
    after_decay,
    decay_step,
    decay_step_of,
    RateLimiter,
    DECAY_PERIODS_PER_DAY,
};
use crate::resource::{text_of, AdminSession, Resource};
use crate::timestamp::{liveness, parse_rfc3339, rfc3339_parse, Liveness, Timestamp};

verus! {

/// The seconds between two passes of the sweep: a day parted into as many
/// periods as the counters leak in.
pub const SWEEP_INTERVAL_SECS: u64 = 86_400 / DECAY_PERIODS_PER_DAY;

/// A record or a session that a sweep removes.
#[derive(Debug)]
pub struct SweepTarget {
    /// The content hash of a record, or the digest of a session.
    pub key: String,
    /// The parser's message where the expiry could not be read: such an entry
    /// is removed as if it had expired, and the message is logged.
    pub unreadable: Option<String>,
}

impl View for SweepTarget {
    type V = (Seq<char>, Option<Seq<char>>);

    /// The key, and the parser's message where there is one.
    open spec fn view(&self) -> (Seq<char>, Option<Seq<char>>) {
        (
            self.key@,
            match self.unreadable {
                Some(m) => Some(m@),
                None => None,
            },
        )
    }
}

/// What a sweep makes of one entry: nothing while it is live, its removal
/// once its expiry has passed, and its removal with the parser's message where
/// the expiry cannot be read. It goes by the same reading of the expiry as the
/// read path.
pub open spec fn sweep_entry(key: Seq<char>, expiry_ts: Seq<char>, now: Timestamp) -> Option<
    (Seq<char>, Option<Seq<char>>),
> {
    match liveness(expiry_ts, now) {
        Liveness::Live => None,
        Liveness::Expired => Some((key, None)),
        Liveness::Corrupt => Some((key, Some(rfc3339_parse(expiry_ts)->Err_0))),
    }
}

/// The records that a sweep at `now` removes, in the order of the rows.
pub open spec fn resource_targets(rows: Seq<Resource>, now: Timestamp) -> Seq<
    (Seq<char>, Option<Seq<char>>),
>
    decreases rows.len(),
{
    if rows.len() == 0 {
        Seq::empty()
    } else {
        let rest = resource_targets(rows.drop_last(), now);
        match sweep_entry(rows.last().efd_sha256sum@, rows.last().expiry_ts@, now) {
            Some(target) => rest.push(target),
            None => rest,
        }
    }
}

/// The sessions that a sweep at `now` removes, in the order of the rows.
pub open spec fn session_targets(rows: Seq<AdminSession>, now: Timestamp) -> Seq<
    (Seq<char>, Option<Seq<char>>),
>
    decreases rows.len(),
{
    if rows.len() == 0 {
        Seq::empty()
    } else {
        let rest = session_targets(rows.drop_last(), now);
        match sweep_entry(rows.last().session_id_sha256sum@, rows.last().expiry_ts@, now) {
            Some(target) => rest.push(target),
            None => rest,
        }
    }
}

/// The views of a list of targets.
pub open spec fn target_views(targets: Seq<SweepTarget>) -> Seq<(Seq<char>, Option<Seq<char>>)> {
    Seq::new(targets.len(), |i: int| targets[i]@)
}

/// What a sweep makes of one entry.
pub fn sweep_decision(key: &String, expiry_ts: &str, now: &Timestamp) -> (r: Option<SweepTarget>)
    ensures
        match sweep_entry(key@, expiry_ts@, *now) {
            Some(target) => r is Some && r->Some_0@ == target,
            None => r is None,
        },
{
    match parse_rfc3339(expiry_ts) {
        Ok(expiry) => {
            if expiry.is_before(now) {
                Some(SweepTarget { key: key.clone(), unreadable: None })
            } else {
                None
            }
        },
        Err(message) => Some(SweepTarget { key: key.clone(), unreadable: Some(message) }),
    }
}

/// The records that a sweep at `now` removes.
pub fn expired_resources(rows: &Vec<Resource>, now: &Timestamp) -> (targets: Vec<SweepTarget>)
    ensures
        target_views(targets@) == resource_targets(rows@, *now),
{
    let mut targets: Vec<SweepTarget> = Vec::new();
    let mut i: usize = 0;
    assert(target_views(targets@) =~= resource_targets(rows@.take(0), *now));
    while i < rows.len()
        invariant
            i <= rows.len(),
            target_views(targets@) == resource_targets(rows@.take(i as int), *now),
        decreases rows.len() - i,
    {
        proof {
            assert(rows@.take(i + 1).drop_last() =~= rows@.take(i as int));
        }
        let ghost before = targets@;
        match sweep_decision(&rows[i].efd_sha256sum, rows[i].expiry_ts.as_str(), now) {
            Some(target) => {
                targets.push(target);
                assert(target_views(targets@) =~= target_views(before).push(target@));
            },
            None => {},
        }
        i += 1;
    }
    proof {
        assert(rows@.take(rows.len() as int) =~= rows@);
    }
    targets
}

/// The sessions that a sweep at `now` removes.
pub fn expired_sessions(rows: &Vec<AdminSession>, now: &Timestamp) -> (targets: Vec<SweepTarget>)
    ensures
        target_views(targets@) == session_targets(rows@, *now),
{
    let mut targets: Vec<SweepTarget> = Vec::new();
    let mut i: usize = 0;
    assert(target_views(targets@) =~= session_targets(rows@.take(0), *now));
    while i < rows.len()
        invariant
            i <= rows.len(),
            target_views(targets@) == session_targets(rows@.take(i as int), *now),
        decreases rows.len() - i,
    {
        proof {
            assert(rows@.take(i + 1).drop_last() =~= rows@.take(i as int));
        }
        let ghost before = targets@;
        match sweep_decision(&rows[i].session_id_sha256sum, rows[i].expiry_ts.as_str(), now) {
            Some(target) => {
                targets.push(target);
                assert(target_views(targets@) =~= target_views(before).push(target@));
            },
            None => {},
        }
        i += 1;
    }
    proof {
        assert(rows@.take(rows.len() as int) =~= rows@);
    }
    targets
}

/// The first step of a sweep: the counters leak by the step that the limit
/// gives for a period of a quarter of an hour, and the identities that have
/// cooled down leave the table.
pub fn sweep_rate_limiter(limiter: &mut RateLimiter)
    ensures
        final(limiter)@ == after_decay(
            old(limiter)@,
            decay_step_of(old(limiter).limit(), DECAY_PERIODS_PER_DAY),
        ),
        final(limiter).limit() == old(limiter).limit(),
{
    let step = decay_step(limiter.daily_limit(), DECAY_PERIODS_PER_DAY);
    limiter.decay(step);
}

/// Which of the two stores a phase of the sweep works on.
#[derive(Debug, Clone, Copy, PartialEq, Eq, Structural)]
pub enum SweepPhase {
    Resources,
    Sessions,
}

/// The message for a listing that failed.
pub open spec fn listing_failure_context(phase: SweepPhase) -> Seq<char> {
    match phase {
        SweepPhase::Resources => "failed to read files from database: "@,
        SweepPhase::Sessions => "failed to read sessions from database: "@,
    }
}

/// The line for a listing that failed. The phase is given up for this pass
/// and the sweep goes on: nothing makes it stop.
pub fn listing_failed(phase: SweepPhase, error: &str) -> (r: LogRecord)
    ensures
        r@ == (Level::ERROR, listing_failure_context(phase) + error@),
{
    match phase {
        SweepPhase::Resources => LogRecord::new(
            Level::ERROR,
            "failed to read files from database: ",
            error,
        ),
        SweepPhase::Sessions => LogRecord::new(
            Level::ERROR,
            "failed to read sessions from database: ",
            error,
        ),
    }
}

/// The line for a target whose expiry could not be read, `None` for any
/// other target.
pub fn unreadable_expiry(target: &SweepTarget) -> (r: Option<LogRecord>)
    ensures
        match target@.1 {
            Some(message) => r is Some && r->Some_0@ == (
                Level::ERROR,
                "failed to parse timestamp: "@ + message,
            ),
            None => r is None,
        },
{
    match &target.unreadable {
        Some(message) => Some(
            LogRecord::new(Level::ERROR, "failed to parse timestamp: ", message.as_str()),
        ),
        None => None,
    }
}

/// What the log says of one removal of a phase.
pub open spec fn removal_line(phase: SweepPhase, failure: Option<Seq<char>>) -> (Level, Seq<char>) {
    match (phase, failure) {
        (SweepPhase::Resources, None) => (
            Level::INFO,
            "file expired and was automatically removed"@,
        ),
        (SweepPhase::Resources, Some(e)) => (
            Level::ERROR,
            "failed to delete file from database / disk: "@ + e,
        ),
        (SweepPhase::Sessions, None) => (
            Level::INFO,
            "admin session expired and was automatically removed"@,
        ),
        (SweepPhase::Sessions, Some(e)) => (
            Level::ERROR,
            "failed to delete row from database: "@ + e,
        ),
    }
}

/// The line for one removal: a success is noted, a failure is logged as an
/// error, and either way the sweep goes on to the next target.
pub fn removal_logged(phase: SweepPhase, failure: Option<&str>) -> (r: LogRecord)
    ensures
        r@ == removal_line(phase, text_of(failure)),
{
    match (phase, failure) {
        (SweepPhase::Resources, None) => {
            let r = LogRecord::new(Level::INFO, "file expired and was automatically removed", "");
            proof {
                reveal_strlit("");
                assert(r@.1 =~= "file expired and was automatically removed"@);
            }
            r
        },
        (SweepPhase::Resources, Some(e)) => LogRecord::new(
            Level::ERROR,
            "failed to delete file from database / disk: ",
            e,
        ),
        (SweepPhase::Sessions, None) => {
            let r = LogRecord::new(
                Level::INFO,
                "admin session expired and was automatically removed",
                "",
            );
            proof {
                reveal_strlit("");
                assert(r@.1 =~= "admin session expired and was automatically removed"@);
            }
            r
        },
        (SweepPhase::Sessions, Some(e)) => LogRecord::new(
            Level::ERROR,
            "failed to delete row from database: ",
            e,
        ),
    }
}

/// What one pass of the sweep is to remove, and what it has to report of the
/// listings.
#[derive(Debug)]
pub struct SweepPlan {
    /// The records to remove, each with its blob.
    pub resources: Vec<SweepTarget>,
    /// The sessions to remove.
    pub sessions: Vec<SweepTarget>,
    /// A line for each listing that failed.
    pub listing_errors: Vec<LogRecord>,
}

/// The lines for the listings that failed, the records' first.
pub open spec fn listing_lines(files: Option<Seq<char>>, sessions: Option<Seq<char>>) -> Seq<
    (Level, Seq<char>),
> {
    let first = match files {
        Some(e) => seq![(Level::ERROR, listing_failure_context(SweepPhase::Resources) + e)],
        None => Seq::empty(),
    };
    let second = match sessions {
        Some(e) => seq![(Level::ERROR, listing_failure_context(SweepPhase::Sessions) + e)],
        None => Seq::empty(),
    };
    first + second
}

/// The views of a list of lines.
pub open spec fn line_views(lines: Seq<LogRecord>) -> Seq<(Level, Seq<char>)> {
    Seq::new(lines.len(), |i: int| lines[i]@)
}

/// The error of a listing that failed.
pub open spec fn listing_error<T>(listing: Result<Vec<T>, String>) -> Option<Seq<char>> {
    match listing {
        Ok(_) => None,
        Err(e) => Some(e@),
    }
}

/// One pass of the clean-up that runs every quarter of an hour. The counters
/// leak; the records whose expiry has passed are picked out, and so are the
/// sessions. A listing that failed gives its phase up for this pass and is
/// reported, and the other phase goes ahead: the clean-up never fails.
pub fn cleanup_cronjob(
    limiter: &mut RateLimiter,
    files: Result<Vec<Resource>, String>,
    sessions: Result<Vec<AdminSession>, String>,
    now: &Timestamp,
) -> (plan: SweepPlan)
    ensures
        final(limiter)@ == after_decay(
            old(limiter)@,
            decay_step_of(old(limiter).limit(), DECAY_PERIODS_PER_DAY),
        ),
        final(limiter).limit() == old(limiter).limit(),
        target_views(plan.resources@) == match files {
            Ok(rows) => resource_targets(rows@, *now),
            Err(_) => Seq::empty(),
        },
        target_views(plan.sessions@) == match sessions {
            Ok(rows) => session_targets(rows@, *now),
            Err(_) => Seq::empty(),
        },
        line_views(plan.listing_errors@) == listing_lines(
            listing_error(files),
            listing_error(sessions),
        ),
{
    sweep_rate_limiter(limiter);
    let mut listing_errors: Vec<LogRecord> = Vec::new();
    let resources = match &files {
        Ok(rows) => expired_resources(rows, now),
        Err(e) => {
            listing_errors.push(listing_failed(SweepPhase::Resources, e.as_str()));
            let none: Vec<SweepTarget> = Vec::new();
            assert(target_views(none@) =~= Seq::empty());
            none
        },
    };
    let session_targets = match &sessions {
        Ok(rows) => expired_sessions(rows, now),
        Err(e) => {
            listing_errors.push(listing_failed(SweepPhase::Sessions, e.as_str()));
            let none: Vec<SweepTarget> = Vec::new();
            assert(target_views(none@) =~= Seq::empty());
            none
        },
    };
    proof {
        assert(line_views(listing_errors@) =~= listing_lines(
            listing_error(files),
            listing_error(sessions),
        ));
    }
    SweepPlan { resources, sessions: session_targets, listing_errors }
}

/// The sweep removes nothing that a read would still find: a live record is
/// no target.
pub proof fn lemma_sweep_spares_live(key: Seq<char>, expiry_ts: Seq<char>, now: Timestamp)
    ensures
        liveness(expiry_ts, now) == Liveness::Live <==> sweep_entry(key, expiry_ts, now) is None,
{
}

/// Every record whose expiry has passed is a target of the sweep, and every
/// target is a record of the rows that is not live.
pub proof fn lemma_sweep_targets(rows: Seq<Resource>, now: Timestamp, i: int)
    requires
        0 <= i < rows.len(),
        liveness(rows[i].expiry_ts@, now) != Liveness::Live,
    ensures
        exists|j: int|
            0 <= j < resource_targets(rows, now).len() && (#[trigger] resource_targets(
                rows,
                now,
            )[j]).0 == rows[i].efd_sha256sum@,
    decreases rows.len(),
{
    let all = resource_targets(rows, now);
    let rest = resource_targets(rows.drop_last(), now);
    if i == rows.len() - 1 {
        let j = all.len() - 1;
        assert(all[j].0 == rows[i].efd_sha256sum@);
    } else {
        lemma_sweep_targets(rows.drop_last(), now, i);
        let j = choose|j: int| 0 <= j < rest.len() && (#[trigger] rest[j]).0 == rows[i].efd_sha256sum@;
        assert(all[j] == rest[j]);
    }
}

} // verus!
