use ferrishare::auto_cleanup::{
    expired_resources, expired_sessions, listing_failed, removal_logged, sweep_decision,
    unreadable_expiry, SweepPhase,
};
use ferrishare::{
    cleanup_cronjob, fetch_resource, AdminSession, IpPrefix, Level, RateLimiter, Resource,
    Timestamp,
};

fn record(hash: &str, expiry_ts: &str) -> Resource {
    Resource {
        efd_sha256sum: hash.to_string(),
        admin_key_sha256sum: "digest".to_string(),
        e_filename: vec![],
        iv_fd: vec![0; 12],
        iv_fn: vec![0; 12],
        filesize: 1,
        upload_ip: "v4_cb007107".to_string(),
        upload_ts: "2023-11-14T21:13:20+00:00".to_string(),
        expiry_ts: expiry_ts.to_string(),
        downloads: 0,
    }
}

fn session(digest: &str, expiry_ts: &str) -> AdminSession {
    AdminSession { session_id_sha256sum: digest.to_string(), expiry_ts: expiry_ts.to_string() }
}

fn now() -> Timestamp {
    Timestamp::new(1_700_000_000, 0)
}

fn keys(targets: &[ferrishare::auto_cleanup::SweepTarget]) -> Vec<String> {
    targets.iter().map(|t| t.key.clone()).collect()
}

#[test]
fn sweep_picks_what_has_expired() {
    let rows = vec![
        record("past", "2023-11-14T22:13:19+00:00"),
        record("present", "2023-11-14T22:13:20+00:00"),
        record("future", "2023-11-14T22:13:21+00:00"),
        record("long past", "2001-01-01T00:00:00+00:00"),
    ];
    let targets = expired_resources(&rows, &now());
    assert_eq!(keys(&targets), vec!["past", "long past"]);
    assert!(targets.iter().all(|t| t.unreadable.is_none()));
}

#[test]
fn sweep_and_read_path_agree() {
    let rows = vec![
        record("past", "2023-11-14T22:13:19+00:00"),
        record("present", "2023-11-14T22:13:20+00:00"),
        record("future", "2023-11-14T22:13:21+00:00"),
    ];
    let swept = keys(&expired_resources(&rows, &now()));
    for row in rows {
        let hash = row.efd_sha256sum.clone();
        let readable = fetch_resource(Some(row), &now()).is_ok();
        assert_eq!(readable, !swept.contains(&hash), "for {}", hash);
    }
}

#[test]
fn sweep_removes_what_it_cannot_read() {
    let rows = vec![record("broken", "???"), record("future", "2023-11-14T22:13:21+00:00")];
    let targets = expired_resources(&rows, &now());
    assert_eq!(keys(&targets), vec!["broken"]);
    assert_eq!(targets[0].unreadable, Some(Timestamp::parse("???").unwrap_err()));
    let line = unreadable_expiry(&targets[0]).unwrap();
    assert_eq!(line.level, Level::ERROR);
    assert_eq!(
        line.message,
        format!("failed to parse timestamp: {}", Timestamp::parse("???").unwrap_err())
    );
}

#[test]
fn sweep_runs_every_quarter_of_an_hour() {
    assert_eq!(ferrishare::auto_cleanup::SWEEP_INTERVAL_SECS, 900);
}

#[test]
fn sweep_of_nothing() {
    assert!(expired_resources(&Vec::new(), &now()).is_empty());
    assert!(expired_sessions(&Vec::new(), &now()).is_empty());
}

#[test]
fn sweep_picks_expired_sessions() {
    let rows = vec![
        session("a", "2023-11-14T22:13:19.999+00:00"),
        session("b", "2023-11-14T22:13:20.001+00:00"),
        session("c", "2023-12-14T22:13:20+00:00"),
    ];
    let targets = expired_sessions(&rows, &now());
    assert_eq!(keys(&targets), vec!["a"]);
}

#[test]
fn decision_for_one_entry() {
    let key = "k".to_string();
    assert!(sweep_decision(&key, "2023-11-14T22:13:20+00:00", &now()).is_none());
    let target = sweep_decision(&key, "2023-11-14T22:13:19+00:00", &now()).unwrap();
    assert_eq!(target.key, "k");
    assert_eq!(target.unreadable, None);
    assert!(unreadable_expiry(&target).is_none());
}

#[test]
fn lines_of_the_sweep() {
    let line = listing_failed(SweepPhase::Resources, "no connection");
    assert_eq!(line.level, Level::ERROR);
    assert_eq!(line.message, "failed to read files from database: no connection");
    let line = listing_failed(SweepPhase::Sessions, "no connection");
    assert_eq!(line.message, "failed to read sessions from database: no connection");
    let line = removal_logged(SweepPhase::Resources, None);
    assert_eq!(line.level, Level::INFO);
    assert_eq!(line.message, "file expired and was automatically removed");
    let line = removal_logged(SweepPhase::Resources, Some("disk on fire"));
    assert_eq!(line.level, Level::ERROR);
    assert_eq!(line.message, "failed to delete file from database / disk: disk on fire");
    let line = removal_logged(SweepPhase::Sessions, None);
    assert_eq!(line.level, Level::INFO);
    assert_eq!(line.message, "admin session expired and was automatically removed");
    let line = removal_logged(SweepPhase::Sessions, Some("locked"));
    assert_eq!(line.level, Level::ERROR);
    assert_eq!(line.message, "failed to delete row from database: locked");
}

#[test]
fn one_pass_of_the_cleanup() {
    let client = IpPrefix::V4([203, 0, 113, 7]);
    let mut limiter = RateLimiter::new(960);
    for _ in 0..12 {
        limiter.admit_request(client);
    }
    let files = vec![
        record("past", "2023-11-14T22:13:19+00:00"),
        record("future", "2023-11-14T22:13:21+00:00"),
    ];
    let sessions = vec![session("old", "2023-11-01T00:00:00+00:00")];
    let plan = cleanup_cronjob(&mut limiter, Ok(files), Ok(sessions), &now());
    assert_eq!(limiter.count(&client), 2);
    assert_eq!(keys(&plan.resources), vec!["past"]);
    assert_eq!(keys(&plan.sessions), vec!["old"]);
    assert!(plan.listing_errors.is_empty());
}

#[test]
fn failed_listing_gives_up_its_phase_only() {
    let mut limiter = RateLimiter::new(960);
    let sessions = vec![session("old", "2023-11-01T00:00:00+00:00")];
    let plan = cleanup_cronjob(&mut limiter, Err("no connection".to_string()), Ok(sessions), &now());
    assert!(plan.resources.is_empty());
    assert_eq!(keys(&plan.sessions), vec!["old"]);
    assert_eq!(plan.listing_errors.len(), 1);
    assert_eq!(plan.listing_errors[0].level, Level::ERROR);
    assert_eq!(plan.listing_errors[0].message, "failed to read files from database: no connection");

    let files = vec![record("past", "2023-11-14T22:13:19+00:00")];
    let plan = cleanup_cronjob(&mut limiter, Ok(files), Err("gone".to_string()), &now());
    assert_eq!(keys(&plan.resources), vec!["past"]);
    assert!(plan.sessions.is_empty());
    assert_eq!(plan.listing_errors.len(), 1);
    assert_eq!(plan.listing_errors[0].message, "failed to read sessions from database: gone");

    let plan =
        cleanup_cronjob(&mut limiter, Err("a".to_string()), Err("b".to_string()), &now());
    assert!(plan.resources.is_empty());
    assert!(plan.sessions.is_empty());
    assert_eq!(plan.listing_errors.len(), 2);
    assert_eq!(plan.listing_errors[0].message, "failed to read files from database: a");
    assert_eq!(plan.listing_errors[1].message, "failed to read sessions from database: b");
}
