use webhooky::span_status::{finished_status, map_status, transaction_name, SpanStatus};

#[test]
fn named_client_errors_have_their_own_status() {
    assert_eq!(map_status(401), SpanStatus::Unauthenticated);
    assert_eq!(map_status(403), SpanStatus::PermissionDenied);
    assert_eq!(map_status(404), SpanStatus::NotFound);
    assert_eq!(map_status(429), SpanStatus::ResourceExhausted);
}

#[test]
fn other_client_errors_are_invalid_arguments() {
    for code in [400, 402, 405, 409, 418, 422, 428, 430, 499] {
        assert_eq!(map_status(code), SpanStatus::InvalidArgument);
    }
}

#[test]
fn named_server_errors_have_their_own_status() {
    assert_eq!(map_status(501), SpanStatus::Unimplemented);
    assert_eq!(map_status(503), SpanStatus::Unavailable);
}

#[test]
fn other_server_errors_are_internal_errors() {
    for code in [500, 502, 504, 550, 599] {
        assert_eq!(map_status(code), SpanStatus::InternalError);
    }
}

#[test]
fn successes_are_fine() {
    for code in [200, 201, 202, 204, 299] {
        assert_eq!(map_status(code), SpanStatus::Okay);
    }
}

#[test]
fn everything_else_is_unknown() {
    for code in [0, 99, 100, 101, 199, 300, 301, 304, 399, 600, 999, 1000, u16::MAX] {
        assert_eq!(map_status(code), SpanStatus::UnknownError);
    }
}

#[test]
fn every_code_has_the_status_of_its_class() {
    for code in 0..=u16::MAX {
        let wanted = match code {
            401 => SpanStatus::Unauthenticated,
            403 => SpanStatus::PermissionDenied,
            404 => SpanStatus::NotFound,
            429 => SpanStatus::ResourceExhausted,
            501 => SpanStatus::Unimplemented,
            503 => SpanStatus::Unavailable,
            _ if (400..500).contains(&code) => SpanStatus::InvalidArgument,
            _ if (500..600).contains(&code) => SpanStatus::InternalError,
            _ if (200..300).contains(&code) => SpanStatus::Okay,
            _ => SpanStatus::UnknownError,
        };
        assert_eq!(map_status(code), wanted);
    }
}

#[test]
fn status_that_is_set_is_kept_at_the_finish() {
    assert_eq!(finished_status(Some(SpanStatus::NotFound), 200), SpanStatus::NotFound);
    assert_eq!(finished_status(Some(SpanStatus::Okay), 500), SpanStatus::Okay);
}

#[test]
fn status_that_is_not_set_comes_from_the_response() {
    assert_eq!(finished_status(None, 200), SpanStatus::Okay);
    assert_eq!(finished_status(None, 500), SpanStatus::InternalError);
    assert_eq!(finished_status(None, 404), SpanStatus::NotFound);
}

#[test]
fn trace_is_named_by_method_and_path() {
    assert_eq!(transaction_name("GET", "/auth/google/callback"), "GET /auth/google/callback");
    assert_eq!(transaction_name("POST", "/"), "POST /");
    assert_eq!(transaction_name("", ""), " ");
}
