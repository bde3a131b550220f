use telepingbot::message::{
    handle404, handle_server_errors, MessageSchema, BAD_REQUEST, FORBIDDEN,
    INTERNAL_SERVER_ERROR, NOT_FOUND, OK,
};

fn parts(msg: &MessageSchema) -> (String, bool, u16) {
    (msg.message().to_string(), msg.status(), msg.status_code())
}

#[test]
fn status_code_constants() {
    assert_eq!((OK, BAD_REQUEST, FORBIDDEN, NOT_FOUND, INTERNAL_SERVER_ERROR), (200, 400, 403, 404, 500));
}

#[test]
fn new_message_is_200_ok() {
    let msg = MessageSchema::new("Alive");
    assert_eq!(parts(&msg), ("Alive".to_string(), true, 200));
}

#[test]
fn code_sets_status_from_code() {
    let msg = MessageSchema::new("x").code(NOT_FOUND);
    assert_eq!(parts(&msg), ("x".to_string(), false, 404));
    let msg = msg.code(OK);
    assert_eq!(parts(&msg), ("x".to_string(), true, 200));
}

#[test]
fn code_success_class_bounds() {
    assert!(!MessageSchema::new("x").code(199).status());
    assert!(MessageSchema::new("x").code(200).status());
    assert!(MessageSchema::new("x").code(204).status());
    assert!(MessageSchema::new("x").code(299).status());
    assert!(!MessageSchema::new("x").code(300).status());
    assert!(!MessageSchema::new("x").code(0).status());
    assert!(!MessageSchema::new("x").code(u16::MAX).status());
    assert_eq!(MessageSchema::new("x").code(u16::MAX).status_code(), u16::MAX);
}

#[test]
fn handle404_rewrites_only_404() {
    let body = handle404(Some(404)).unwrap();
    assert_eq!(parts(&body), ("Not Found".to_string(), false, 404));
    assert!(handle404(None).is_none());
    assert!(handle404(Some(200)).is_none());
    assert!(handle404(Some(403)).is_none());
    assert!(handle404(Some(405)).is_none());
    assert!(handle404(Some(500)).is_none());
}

#[test]
fn handle_server_errors_rewrites_5xx() {
    for code in [500u16, 501, 503, 599] {
        let body = handle_server_errors(Some(code)).unwrap();
        assert_eq!(parts(&body), ("Server Error".to_string(), false, 500));
    }
    assert!(handle_server_errors(None).is_none());
    assert!(handle_server_errors(Some(499)).is_none());
    assert!(handle_server_errors(Some(600)).is_none());
    assert!(handle_server_errors(Some(404)).is_none());
    assert!(handle_server_errors(Some(200)).is_none());
}

#[test]
fn status_flag_agrees_with_http_success_class() {
    for code in 100u16..1000 {
        let http = salvo::http::StatusCode::from_u16(code).unwrap();
        assert_eq!(MessageSchema::new("x").code(code).status(), http.is_success());
    }
}

#[test]
fn server_error_catcher_agrees_with_http_server_error_class() {
    for code in 100u16..1000 {
        let http = salvo::http::StatusCode::from_u16(code).unwrap();
        assert_eq!(handle_server_errors(Some(code)).is_some(), http.is_server_error());
        assert_eq!(handle404(Some(code)).is_some(), http == salvo::http::StatusCode::NOT_FOUND);
    }
}

#[test]
fn status_code_constants_are_the_http_ones() {
    assert_eq!(OK, salvo::http::StatusCode::OK.as_u16());
    assert_eq!(BAD_REQUEST, salvo::http::StatusCode::BAD_REQUEST.as_u16());
    assert_eq!(FORBIDDEN, salvo::http::StatusCode::FORBIDDEN.as_u16());
    assert_eq!(NOT_FOUND, salvo::http::StatusCode::NOT_FOUND.as_u16());
    assert_eq!(INTERNAL_SERVER_ERROR, salvo::http::StatusCode::INTERNAL_SERVER_ERROR.as_u16());
}
