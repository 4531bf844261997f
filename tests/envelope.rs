use gateway::envelope::{ApiResponse, ServiceResponse};

fn error_of<T>(r: &ApiResponse<T>) -> (u16, String) {
    match r {
        ApiResponse::Error { status, message } => (*status, message.clone()),
        ApiResponse::Success(_) => panic!("expected an error"),
    }
}

#[test]
fn ok_is_success_under_200() {
    let r = ApiResponse::ok(5u32);
    assert!(r.is_success());
    assert_eq!(r.http_status(), 200);
}

#[test]
fn created_is_success_under_200() {
    let r = ApiResponse::created("x".to_string());
    assert!(r.is_success());
    assert_eq!(r.http_status(), 200);
}

#[test]
fn canonical_error_statuses() {
    assert_eq!(error_of(&ApiResponse::<()>::not_found("gone")), (404, "gone".to_string()));
    assert_eq!(error_of(&ApiResponse::<()>::internal_error("boom")), (500, "boom".to_string()));
    assert_eq!(error_of(&ApiResponse::<()>::bad_request("bad")), (400, "bad".to_string()));
    assert_eq!(error_of(&ApiResponse::<()>::unauthorized("who")), (401, "who".to_string()));
}

#[test]
fn upstream_status_is_sent_verbatim() {
    assert_eq!(ApiResponse::<()>::error(418, "teapot").http_status(), 418);
    assert_eq!(ApiResponse::<()>::error(100, "continue").http_status(), 100);
    assert_eq!(ApiResponse::<()>::error(999, "odd").http_status(), 999);
}

#[test]
fn status_http_cannot_carry_becomes_500() {
    assert_eq!(ApiResponse::<()>::error(99, "low").http_status(), 500);
    assert_eq!(ApiResponse::<()>::error(1000, "high").http_status(), 500);
    assert_eq!(ApiResponse::<()>::error(0, "zero").http_status(), 500);
}

#[test]
fn wire_envelope_of_success() {
    let w = ServiceResponse::from_api(ApiResponse::ok(7u8));
    assert_eq!(w.status, 200);
    assert_eq!(w.data, Some(7));
    assert!(w.message.is_none());
}

#[test]
fn wire_envelope_of_error() {
    let w = ServiceResponse::<u8>::from_api(ApiResponse::error(1000, "bad status"));
    assert_eq!(w.status, 500);
    assert!(w.data.is_none());
    assert_eq!(w.message.as_deref(), Some("bad status"));
}

#[test]
fn wire_envelope_constructors() {
    let ok = ServiceResponse::ok("d");
    assert_eq!((ok.status, ok.data, ok.message), (200, Some("d"), None));
    let nf = ServiceResponse::<()>::not_found("User not found");
    assert_eq!((nf.status, nf.message.as_deref()), (404, Some("User not found")));
    let ie = ServiceResponse::<()>::internal_error("Database error");
    assert_eq!((ie.status, ie.message.as_deref()), (500, Some("Database error")));
}
