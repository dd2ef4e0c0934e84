use microservice::auth::{
    authenticate, authenticate_person, extract_user, from_extractor, from_fn, User,
};
use microservice::errors::{
    created_response, handle_error, AppError, HttpError, ReportedError, ServiceError,
    DUPLICATE_KEY,
};
use microservice::greetings::{
    hello_full_name, hello_full_name_serde, hello_name, hello_status_code_json, root, FullName,
};
use microservice::middleware::{one, Layer, ServiceStack};
use microservice::status::Status;
use microservice::streaming::reverse_line;

#[test]
fn hello_world() {
    let (status, body) = root();
    assert_eq!(status.code(), 200);
    assert_eq!(body, "Hello World!");
}

#[test]
fn admin_header_passes_guard() {
    assert!(authenticate(Some(b"admin=1")).is_ok());
}

#[test]
fn other_header_is_invalid_for_guard() {
    for value in [&b"admin=0"[..], b"admin=11", b"Admin=1", b"", b"admin="] {
        let r = authenticate(Some(value)).unwrap_err();
        assert_eq!(r.status, Status::Unauthorized);
        assert_eq!(r.message, "Invalid Authorization header value");
    }
}

#[test]
fn missing_header_is_refused_by_guard() {
    let r = authenticate(None).unwrap_err();
    assert_eq!(r.status.code(), 401);
    assert_eq!(r.message, "Missing Authorization header");
}

#[test]
fn extractor_reads_admin_flag() {
    assert_eq!(extract_user(Some(b"admin=1")).unwrap(), User { admin: true });
    assert_eq!(extract_user(Some(b"admin=0")).unwrap(), User { admin: false });
}

#[test]
fn extractor_refuses_other_and_missing_headers() {
    let r = extract_user(Some(b"admin=2")).unwrap_err();
    assert_eq!(r.status, Status::Unauthorized);
    assert_eq!(r.message, "Invalid Authorization header value");
    let r = extract_user(None).unwrap_err();
    assert_eq!(r.status, Status::Unauthorized);
    assert_eq!(r.message, "Missing Authorization header");
}

#[test]
fn guard_and_extractor_agree() {
    for value in [Some(&b"admin=1"[..]), Some(b"admin=0"), Some(b"x"), None] {
        let guard = authenticate(value);
        let user = extract_user(value);
        assert_eq!(guard.is_ok(), matches!(user, Ok(User { admin: true })));
    }
}

#[test]
fn person_name_is_read_from_utf8_header() {
    let p = authenticate_person(Some("Zoë".as_bytes())).unwrap();
    assert_eq!(p.name, "Zoë");
}

#[test]
fn person_header_not_utf8_is_forbidden() {
    let r = authenticate_person(Some(&[0x66, 0xff, 0x66])).unwrap_err();
    assert_eq!(r.status.code(), 403);
    assert_eq!(r.message, "bad Authorization header value");
}

#[test]
fn person_header_missing_is_unauthorized() {
    let r = authenticate_person(None).unwrap_err();
    assert_eq!(r.status.code(), 401);
    assert_eq!(r.message, "missing Authorization header");
}

#[test]
fn http_errors_answer_500() {
    let r = HttpError::Mongo.into_response();
    assert_eq!(r.status.code(), 500);
    assert_eq!(r.body, r#"{"error":"database error"}"#);
    let r = HttpError::BsonSerialization.into_response();
    assert_eq!(r.status.code(), 500);
    assert_eq!(r.body, r#"{"error":"serialization error"}"#);
}

#[test]
fn reported_errors_answer_500() {
    let r = ReportedError { from_mongo: true }.into_response();
    assert_eq!(r.status, Status::InternalServerError);
    assert_eq!(r.body, r#"{"error":"database error"}"#);
    let r = ReportedError { from_mongo: false }.into_response();
    assert_eq!(r.body, r#"{"error":"an error occured"}"#);
}

#[test]
fn duplicate_key_is_conflict() {
    let r = AppError::Mongo { write_error_code: Some(DUPLICATE_KEY) }.into_response();
    assert_eq!(r.status.code(), 409);
    assert_eq!(r.body, r#"{"error":"conflict"}"#);
}

#[test]
fn other_database_errors_are_500() {
    for code in [None, Some(11001), Some(0)] {
        let r = AppError::Mongo { write_error_code: code }.into_response();
        assert_eq!(r.status.code(), 500);
        assert_eq!(r.body, r#"{"error":"mongodb error"}"#);
    }
    let r = AppError::BsonSerialization.into_response();
    assert_eq!(r.status.code(), 500);
    assert_eq!(r.body, r#"{"error":"bson serialization error"}"#);
}

#[test]
fn service_errors_map_to_statuses() {
    let cases = [
        (ServiceError::Mongo, 500, r#"{"error":"database error"}"#),
        (ServiceError::InvalidPath, 400, r#"{"error":"invalid path"}"#),
        (ServiceError::Io { not_found: true }, 404, r#"{"error":"not found"}"#),
        (ServiceError::Io { not_found: false }, 500, r#"{"error":"io error"}"#),
    ];
    for (e, code, body) in cases {
        let r = e.into_response();
        assert_eq!(r.status.code(), code);
        assert_eq!(r.body, body);
    }
}

#[test]
fn handled_error_text_is_escaped() {
    let r = handle_error("bad \"name\"\\\n\t\u{1}é");
    assert_eq!(r.status.code(), 500);
    assert_eq!(r.body, "{\"error\":\"bad \\\"name\\\"\\\\\\n\\t\\u0001é\"}");
}

#[test]
fn created_body_is_json_true() {
    let r = created_response();
    assert_eq!(r.status.code(), 201);
    assert_eq!(r.body, r#"{"created":true}"#);
}

#[test]
fn number_greeting() {
    assert_eq!(hello_name(42), "Hello, 42!");
    assert_eq!(hello_name(0), "Hello, 0!");
    assert_eq!(hello_name(u32::MAX), "Hello, 4294967295!");
}

#[test]
fn full_name_greeting() {
    assert_eq!(hello_full_name("John", "Doe"), "Hello, Doe, John!");
    let full = FullName { first_name: "John".to_string(), surname: "Doe".to_string() };
    assert_eq!(hello_full_name_serde(&full), "Hello, Doe, John!");
}

#[test]
fn echo_answers_created() {
    let full = FullName { first_name: "Ada".to_string(), surname: "Lovelace".to_string() };
    let (status, echoed) = hello_status_code_json(full.clone());
    assert_eq!(status.code(), 201);
    assert_eq!(echoed, full);
}

#[test]
fn lines_are_reversed() {
    assert_eq!(reverse_line("abc"), "cba\n");
    assert_eq!(reverse_line(""), "\n");
    assert_eq!(reverse_line("héllo wörld"), "dlröw olléh\n");
    let twice = reverse_line(reverse_line("stream").trim_end_matches('\n'));
    assert_eq!(twice, "stream\n");
}

#[test]
fn last_layer_wraps_the_others() {
    let mut stack = ServiceStack::new();
    stack.layer(Layer::Trace);
    from_fn(&mut stack);
    from_extractor(&mut stack);
    one(&mut stack);
    assert_eq!(
        stack.layers(),
        &[Layer::Trace, Layer::AdminAuth, Layer::UserExtractor, Layer::CatchPanic]
    );
    assert!(stack.catch_panic_wraps_trace());
}

#[test]
fn catch_panic_inside_trace_is_detected() {
    let mut stack = ServiceStack::new();
    one(&mut stack);
    stack.layer(Layer::Trace);
    assert!(!stack.catch_panic_wraps_trace());
}

#[test]
fn status_codes() {
    let all = [
        (Status::Success, 200),
        (Status::Created, 201),
        (Status::BadRequest, 400),
        (Status::Unauthorized, 401),
        (Status::Forbidden, 403),
        (Status::NotFound, 404),
        (Status::Conflict, 409),
        (Status::InternalServerError, 500),
    ];
    for (s, c) in all {
        assert_eq!(s.code(), c);
    }
}
