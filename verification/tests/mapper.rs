use edge_server::error::AppError;
use edge_server::error::Rejection;
use edge_server::error::handle_recover;
use edge_server::text::ends_in_slash;
use edge_server::text::has_prefix;
use edge_server::text::str_eq;
use edge_server::text::strip_leading_slashes;

#[test]
fn app_errors_map_to_documented_status_and_body() {
    let table = [
        (AppError::NotFound, 404, "Not found"),
        (AppError::Unauthorized, 401, "Unauthorized"),
        (AppError::InvalidToken, 401, "Invalid token"),
        (AppError::BadRequest, 400, "Bad Request"),
        (AppError::Duplicate, 409, "Duplicate"),
        (AppError::InternalServerError, 500, "Internal Server Error"),
        (AppError::ServiceUnavailable, 503, "Service Unavailable"),
    ];
    for (err, status, body) in table {
        let r = handle_recover(&Rejection::App(err), false);
        assert_eq!(r.status, status);
        assert_eq!(r.body, body);
        assert_eq!(err.status(), status);
        assert_eq!(err.message(), body);
        let r = handle_recover(&Rejection::App(err), true);
        assert_eq!(r.status, status);
        assert_eq!(r.body, body);
    }
}

#[test]
fn body_decode_failure_is_verbose_only_in_debug() {
    let detail = "expected value at line 1 column 1";
    let r = handle_recover(&Rejection::BodyDecode(detail.to_string()), true);
    assert_eq!(r.status, 422);
    assert_eq!(r.body, detail);
    let r = handle_recover(&Rejection::BodyDecode(detail.to_string()), false);
    assert_eq!(r.status, 400);
    assert_eq!(r.body, "Bad Request");
}

#[test]
fn transport_failures_map_as_documented() {
    let r = handle_recover(&Rejection::MethodNotAllowed, false);
    assert_eq!(r.status, 404);
    assert_eq!(r.body, "");
    let r = handle_recover(&Rejection::UnsupportedMediaType, false);
    assert_eq!(r.status, 415);
    assert_eq!(r.body, "Unsupported media type");
    let r = handle_recover(&Rejection::NotFound, false);
    assert_eq!(r.status, 404);
    assert_eq!(r.body, "");
    let r = handle_recover(&Rejection::Unknown, false);
    assert_eq!(r.status, 500);
    assert_eq!(r.body, "Internal server error");
}

#[test]
fn string_helpers() {
    assert!(str_eq("abc", "abc"));
    assert!(!str_eq("abc", "abd"));
    assert!(!str_eq("abc", "ab"));
    assert!(str_eq("", ""));
    assert!(has_prefix("/service/x", "/service/"));
    assert!(!has_prefix("/serv", "/service/"));
    assert!(!has_prefix("/servXce/x", "/service/"));
    assert!(has_prefix("anything", ""));
    assert!(ends_in_slash("/docs/"));
    assert!(!ends_in_slash("/docs"));
    assert!(!ends_in_slash(""));
    assert_eq!(strip_leading_slashes("//x/y"), "x/y");
    assert_eq!(strip_leading_slashes("x"), "x");
    assert_eq!(strip_leading_slashes("///"), "");
}
