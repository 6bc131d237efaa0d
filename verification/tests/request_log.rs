use ferrishare::request_log::redact_query;

#[test]
fn capability_is_taken_out_of_the_query() {
    assert_eq!(redact_query("hash=abc&admin=secret"), "hash=abc&admin=<REDACTED IN LOGS>");
    assert_eq!(redact_query("admin=secret&hash=abc"), "admin=<REDACTED IN LOGS>&hash=abc");
    assert_eq!(redact_query("admin="), "admin=<REDACTED IN LOGS>");
    assert_eq!(
        redact_query("admin=a&admin=b"),
        "admin=<REDACTED IN LOGS>&admin=<REDACTED IN LOGS>"
    );
}

#[test]
fn other_parameters_stay() {
    assert_eq!(redact_query("hash=abc"), "hash=abc");
    assert_eq!(redact_query(""), "");
    assert_eq!(redact_query("&&"), "&&");
    assert_eq!(redact_query("a=1&&b=2&"), "a=1&&b=2&");
    assert_eq!(redact_query("administrator=1"), "administrator=1");
    assert_eq!(redact_query("admin"), "admin");
    assert_eq!(redact_query("xadmin=1"), "xadmin=1");
    assert_eq!(redact_query("Admin=1"), "Admin=1");
    assert_eq!(redact_query("q=\u{e9}&admin=\u{e9}"), "q=\u{e9}&admin=<REDACTED IN LOGS>");
}
