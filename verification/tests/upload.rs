use ferrishare::digest::{capability_is, capability_text, content_hash, digest_of};
use ferrishare::resource::check_live;
use ferrishare::upload::{
    check_storage_capacity, parse_duration, prepare_upload, BlobWriteError, UploadRequest,
};
use ferrishare::{
    upload_endpoint, upload_page, AppConfiguration, IpPrefix, QuotaSnapshot, Severity, StatusCode,
    Timestamp, UploadForm,
};

fn configuration(maximum_quota: u64, maximum_uploads_per_ip: u64) -> AppConfiguration {
    AppConfiguration {
        app_name: "share".to_string(),
        interface: "0.0.0.0:3000".to_string(),
        proxy_depth: 0,
        admin_password_hash: String::new(),
        maximum_filesize: 1000,
        maximum_quota,
        maximum_uploads_per_ip,
        daily_request_limit_per_ip: 1000,
        log_level: "INFO".to_string(),
        enable_privacy_policy: true,
        enable_legal_notice: false,
        demo_mode: false,
    }
}

fn request(size: usize, duration: &str) -> UploadRequest {
    let mut form = UploadForm::new(1000);
    form.accept_field("e_filename", vec![1, 2, 3]).unwrap();
    form.accept_field("e_filedata", vec![7u8; size]).unwrap();
    form.accept_field("iv_fd", vec![4u8; 12]).unwrap();
    form.accept_field("iv_fn", vec![5u8; 12]).unwrap();
    form.accept_field("duration", duration.as_bytes().to_vec()).unwrap();
    form.finish().unwrap()
}

fn client() -> IpPrefix {
    IpPrefix::V4([203, 0, 113, 7])
}

fn no_usage() -> QuotaSnapshot {
    QuotaSnapshot { used_bytes: 0, count_for_identity: 0 }
}

fn now() -> Timestamp {
    Timestamp::new(1_700_000_000, 400_000_000)
}

#[test]
fn durations() {
    assert_eq!(parse_duration(&b"hour".to_vec()), Some(1));
    assert_eq!(parse_duration(&b"day".to_vec()), Some(24));
    assert_eq!(parse_duration(&b"week".to_vec()), Some(168));
    assert_eq!(parse_duration(&b"month".to_vec()), None);
    assert_eq!(parse_duration(&b"Hour".to_vec()), None);
    assert_eq!(parse_duration(&b"".to_vec()), None);
    assert_eq!(parse_duration(&b"hours".to_vec()), None);
    assert_eq!(parse_duration(&b"da".to_vec()), None);
}

#[test]
fn fields_within_their_limits_are_accepted() {
    let mut form = UploadForm::new(1000);
    assert!(form.accept_field("e_filename", vec![0u8; 8192]).is_ok());
    assert!(form.accept_field("e_filedata", vec![0u8; 1000]).is_ok());
    assert!(form.accept_field("iv_fd", vec![0u8; 12]).is_ok());
    assert!(form.accept_field("iv_fn", vec![0u8; 12]).is_ok());
    assert!(form.accept_field("duration", b"week".to_vec()).is_ok());
    let request = form.finish().unwrap();
    assert_eq!(request.filesize(), 1000);
    assert_eq!(request.hour_duration(), 168);
}

#[test]
fn fields_beyond_their_limits_are_client_errors() {
    let mut form = UploadForm::new(1000);
    let e = form.accept_field("e_filename", vec![0u8; 8193]).unwrap_err();
    assert_eq!(e.status_code, StatusCode::BAD_REQUEST);
    assert_eq!(e.message, "encrypted filename is too large (larger than 8KiB)");
    let e = form.accept_field("e_filedata", vec![0u8; 1001]).unwrap_err();
    assert_eq!(e.status_code, StatusCode::BAD_REQUEST);
    assert_eq!(e.message, "encrypted file is too large");
    let e = form.accept_field("iv_fd", vec![0u8; 11]).unwrap_err();
    assert_eq!(e.status_code, StatusCode::BAD_REQUEST);
    assert_eq!(e.message, "iv_fd is not exactly 12 bytes long");
    let e = form.accept_field("iv_fn", vec![0u8; 13]).unwrap_err();
    assert_eq!(e.status_code, StatusCode::BAD_REQUEST);
    assert_eq!(e.message, "iv_fn is not exactly 12 bytes long");
    let e = form.accept_field("duration", vec![0xff, 0xfe]).unwrap_err();
    assert_eq!(e.status_code, StatusCode::BAD_REQUEST);
    assert_eq!(e.message, "invalid duration parameter");
    let e = form.accept_field("comment", b"hello".to_vec()).unwrap_err();
    assert_eq!(e.status_code, StatusCode::BAD_REQUEST);
    assert_eq!(e.message, "illegal form field during upload");
}

#[test]
fn missing_fields_are_named_in_order() {
    let mut form = UploadForm::new(1000);
    let missing = |form: UploadForm| form.finish().unwrap_err();
    let e = missing(UploadForm::new(1000));
    assert_eq!(e.status_code, StatusCode::BAD_REQUEST);
    assert_eq!(e.message, "no encrypted filename provided");
    form.accept_field("e_filename", vec![1]).unwrap();
    let mut next = UploadForm::new(1000);
    next.accept_field("e_filename", vec![1]).unwrap();
    assert_eq!(missing(next).message, "no encrypted filedata provided");
    form.accept_field("e_filedata", vec![1]).unwrap();
    let mut next = UploadForm::new(1000);
    next.accept_field("e_filename", vec![1]).unwrap();
    next.accept_field("e_filedata", vec![1]).unwrap();
    assert_eq!(missing(next).message, "no iv_fd provided");
    form.accept_field("iv_fd", vec![0u8; 12]).unwrap();
    let mut next = UploadForm::new(1000);
    next.accept_field("e_filename", vec![1]).unwrap();
    next.accept_field("e_filedata", vec![1]).unwrap();
    next.accept_field("iv_fd", vec![0u8; 12]).unwrap();
    assert_eq!(missing(next).message, "no iv_fn provided");
    form.accept_field("iv_fn", vec![0u8; 12]).unwrap();
    assert_eq!(missing(form).message, "no duration provided");
}

#[test]
fn unknown_duration_leaves_the_form_without_one() {
    let mut form = UploadForm::new(1000);
    form.accept_field("e_filename", vec![1]).unwrap();
    form.accept_field("e_filedata", vec![1]).unwrap();
    form.accept_field("iv_fd", vec![0u8; 12]).unwrap();
    form.accept_field("iv_fn", vec![0u8; 12]).unwrap();
    form.accept_field("duration", b"day".to_vec()).unwrap();
    form.accept_field("duration", b"forever".to_vec()).unwrap();
    assert_eq!(form.finish().unwrap_err().message, "no duration provided");
}

#[test]
fn refused_field_leaves_the_form_as_it_was() {
    let mut form = UploadForm::new(10);
    form.accept_field("e_filename", vec![1]).unwrap();
    form.accept_field("e_filedata", vec![9u8; 10]).unwrap();
    assert!(form.accept_field("e_filedata", vec![9u8; 11]).is_err());
    form.accept_field("iv_fd", vec![0u8; 12]).unwrap();
    form.accept_field("iv_fn", vec![0u8; 12]).unwrap();
    form.accept_field("duration", b"hour".to_vec()).unwrap();
    assert_eq!(form.finish().unwrap().filesize(), 10);
}

#[test]
fn record_of_an_admitted_upload() {
    let key = [9u8; 32];
    let write = prepare_upload(
        request(100, "hour"),
        &client(),
        &no_usage(),
        &configuration(10_000, 10),
        &key,
        &now(),
    )
    .unwrap();
    assert_eq!(write.blob_name(), content_hash(&[7u8; 100]));
    assert_eq!(write.blob_bytes(), &vec![7u8; 100]);
    let insert = write.on_blob_written(Ok(())).unwrap();
    let row = insert.row();
    assert_eq!(row.efd_sha256sum, content_hash(&[7u8; 100]));
    assert_eq!(row.admin_key_sha256sum, digest_of(&key));
    assert_eq!(row.e_filename, vec![1, 2, 3]);
    assert_eq!(row.iv_fd, vec![4u8; 12]);
    assert_eq!(row.iv_fn, vec![5u8; 12]);
    assert_eq!(row.filesize, 100);
    assert_eq!(row.upload_ip, "v4_cb007107");
    assert_eq!(row.upload_ts, "2023-11-14T22:13:20+00:00");
    assert_eq!(row.expiry_ts, "2023-11-14T23:13:20+00:00");
    assert_eq!(row.downloads, 0);
    let response = insert.on_row_inserted(Ok(())).unwrap();
    assert_eq!(response.efd_sha256sum, content_hash(&[7u8; 100]));
    assert_eq!(response.admin_key, capability_text(&key));
}

#[test]
fn creation_is_now_rounded_to_the_second() {
    let write = prepare_upload(
        request(1, "day"),
        &client(),
        &no_usage(),
        &configuration(10_000, 10),
        &[0u8; 32],
        &Timestamp::new(1_700_000_000, 500_000_000),
    )
    .unwrap();
    let insert = write.on_blob_written(Ok(())).unwrap();
    assert_eq!(insert.row().upload_ts, "2023-11-14T22:13:21+00:00");
    assert_eq!(insert.row().expiry_ts, "2023-11-15T22:13:21+00:00");
}

#[test]
fn week_long_upload_expires_after_168_hours() {
    let write = prepare_upload(
        request(1, "week"),
        &client(),
        &no_usage(),
        &configuration(10_000, 10),
        &[0u8; 32],
        &now(),
    )
    .unwrap();
    let insert = write.on_blob_written(Ok(())).unwrap();
    assert_eq!(insert.row().expiry_ts, "2023-11-21T22:13:20+00:00");
    let expiry = Timestamp::parse(&insert.row().expiry_ts).unwrap();
    let created = Timestamp::parse(&insert.row().upload_ts).unwrap();
    assert!(created.is_before(&expiry));
    assert_eq!(expiry.secs - created.secs, 168 * 3600);
}

#[test]
fn upload_beyond_the_quota_is_storage_exhaustion() {
    let conf = configuration(1_000, 10);
    let snapshot = QuotaSnapshot { used_bytes: 901, count_for_identity: 0 };
    let e = prepare_upload(request(100, "hour"), &client(), &snapshot, &conf, &[0u8; 32], &now())
        .unwrap_err();
    assert_eq!(e.status_code, StatusCode::INSUFFICIENT_STORAGE);
    assert_eq!(e.message, "server has reached maximum storage capacity; please try again later");
}

#[test]
fn upload_that_fills_the_quota_exactly_is_admitted() {
    let conf = configuration(1_000, 10);
    let snapshot = QuotaSnapshot { used_bytes: 900, count_for_identity: 0 };
    assert!(
        prepare_upload(request(100, "hour"), &client(), &snapshot, &conf, &[0u8; 32], &now())
            .is_ok()
    );
}

#[test]
fn quota_is_checked_without_overflow() {
    let conf = configuration(u64::MAX, 10);
    let snapshot = QuotaSnapshot { used_bytes: u64::MAX, count_for_identity: 0 };
    let e = prepare_upload(request(1, "hour"), &client(), &snapshot, &conf, &[0u8; 32], &now())
        .unwrap_err();
    assert_eq!(e.status_code, StatusCode::INSUFFICIENT_STORAGE);
    assert!(
        prepare_upload(request(0, "hour"), &client(), &snapshot, &conf, &[0u8; 32], &now())
            .is_ok()
    );
}

#[test]
fn storage_exhaustion_comes_before_the_upload_limit() {
    let conf = configuration(1_000, 2);
    let snapshot = QuotaSnapshot { used_bytes: 950, count_for_identity: 3 };
    let e = prepare_upload(request(100, "hour"), &client(), &snapshot, &conf, &[0u8; 32], &now())
        .unwrap_err();
    assert_eq!(e.status_code, StatusCode::INSUFFICIENT_STORAGE);
}

#[test]
fn identity_over_its_upload_limit_is_turned_down() {
    let conf = configuration(10_000, 2);
    let over = QuotaSnapshot { used_bytes: 0, count_for_identity: 3 };
    let e = prepare_upload(request(100, "hour"), &client(), &over, &conf, &[0u8; 32], &now())
        .unwrap_err();
    assert_eq!(e.status_code, StatusCode::TOO_MANY_REQUESTS);
    assert_eq!(
        e.message,
        "your computer has reached the file upload limit; delete old files or wait for them to expire"
    );
    let at = QuotaSnapshot { used_bytes: 0, count_for_identity: 2 };
    assert!(
        prepare_upload(request(100, "hour"), &client(), &at, &conf, &[0u8; 32], &now()).is_ok()
    );
}

#[test]
fn instants_out_of_range_are_a_server_error() {
    let conf = configuration(10_000, 10);
    let e = prepare_upload(
        request(1, "hour"),
        &client(),
        &no_usage(),
        &conf,
        &[0u8; 32],
        &Timestamp::new(i64::MAX - 10, 0),
    )
    .unwrap_err();
    assert_eq!(e.status_code, StatusCode::INTERNAL_SERVER_ERROR);
    assert_eq!(e.message, "failed to apply duration to current timestamp");
    let e = prepare_upload(
        request(1, "hour"),
        &client(),
        &no_usage(),
        &conf,
        &[0u8; 32],
        &Timestamp::new(9_000_000_000_000_000, 0),
    )
    .unwrap_err();
    assert_eq!(e.message, "failed to apply duration to current timestamp");
}

#[test]
fn early_check_of_the_storage() {
    let conf = configuration(1_000, 10);
    assert!(check_storage_capacity(&QuotaSnapshot { used_bytes: 1_000, count_for_identity: 0 }, &conf).is_ok());
    let e = check_storage_capacity(&QuotaSnapshot { used_bytes: 1_001, count_for_identity: 0 }, &conf)
        .unwrap_err();
    assert_eq!(e.status_code, StatusCode::INSUFFICIENT_STORAGE);
}

#[test]
fn blob_that_cannot_be_written_ends_the_upload() {
    let conf = configuration(10_000, 10);
    let write =
        prepare_upload(request(5, "hour"), &client(), &no_usage(), &conf, &[0u8; 32], &now())
            .unwrap();
    let e = write
        .on_blob_written(Err(BlobWriteError::Create("permission denied".to_string())))
        .unwrap_err();
    assert_eq!(e.status_code, StatusCode::INTERNAL_SERVER_ERROR);
    assert_eq!(e.message, "failed to create file on disk: permission denied");
    let write =
        prepare_upload(request(5, "hour"), &client(), &no_usage(), &conf, &[0u8; 32], &now())
            .unwrap();
    let e = write
        .on_blob_written(Err(BlobWriteError::Write("disk full".to_string())))
        .unwrap_err();
    assert_eq!(e.message, "failed to write encrypted filedata to disk: disk full");
}

#[test]
fn failed_row_insert_leaves_an_orphan_that_is_reported() {
    let mut disk: Vec<(String, Vec<u8>)> = Vec::new();
    let rows: Vec<String> = Vec::new();
    let conf = configuration(10_000, 10);
    let write =
        prepare_upload(request(5, "hour"), &client(), &no_usage(), &conf, &[0u8; 32], &now())
            .unwrap();
    disk.push((write.blob_name().to_string(), write.blob_bytes().clone()));
    let insert = write.on_blob_written(Ok(())).unwrap();
    let failure = insert.on_row_inserted(Err("database is locked".to_string())).unwrap_err();
    assert_eq!(failure.error.status_code, StatusCode::INTERNAL_SERVER_ERROR);
    assert_eq!(failure.error.message, "failed to insert row into database: database is locked");
    assert_eq!(failure.error.severity(), Severity::Error);
    assert_eq!(failure.orphaned_blob, Some(content_hash(&[7u8; 5])));
    assert_eq!(disk, vec![(content_hash(&[7u8; 5]), vec![7u8; 5])]);
    assert!(rows.is_empty());
}

#[test]
fn fresh_capability_matches_the_stored_digest() {
    let conf = configuration(10_000, 10);
    let write = upload_endpoint(request(5, "hour"), &client(), &no_usage(), &conf, &now()).unwrap();
    let insert = write.on_blob_written(Ok(())).unwrap();
    let stored = insert.row().admin_key_sha256sum.clone();
    let expiry = insert.row().expiry_ts.clone();
    let response = insert.on_row_inserted(Ok(())).unwrap();
    assert_eq!(response.admin_key.len(), 43);
    assert!(capability_is(&response.admin_key, &stored));
    assert!(check_live(Some(&expiry), &now()).is_ok());
}

#[test]
fn fresh_capabilities_differ() {
    let conf = configuration(10_000, 10);
    let a = upload_endpoint(request(5, "hour"), &client(), &no_usage(), &conf, &now())
        .unwrap()
        .on_blob_written(Ok(()))
        .unwrap()
        .on_row_inserted(Ok(()))
        .unwrap();
    let b = upload_endpoint(request(5, "hour"), &client(), &no_usage(), &conf, &now())
        .unwrap()
        .on_blob_written(Ok(()))
        .unwrap()
        .on_row_inserted(Ok(()))
        .unwrap();
    assert_eq!(a.efd_sha256sum, b.efd_sha256sum);
    assert_ne!(a.admin_key, b.admin_key);
}

#[test]
fn rejection_does_not_depend_on_the_key() {
    let conf = configuration(10, 10);
    let e = upload_endpoint(request(11, "hour"), &client(), &no_usage(), &conf, &now()).unwrap_err();
    assert_eq!(e.status_code, StatusCode::INSUFFICIENT_STORAGE);
}

#[test]
fn upload_page_names_the_largest_file() {
    assert_eq!(upload_page(&configuration(1, 1)), "1000 Bytes");
}
