use volunteer_match::errors::AppError;

#[test]
fn status_codes_follow_error_kinds() {
    assert_eq!(AppError::NotFound("x".to_string()).status_code(), 404);
    assert_eq!(AppError::BadRequest("x".to_string()).status_code(), 400);
    assert_eq!(AppError::UnprocessableEntity("x".to_string()).status_code(), 422);
    assert_eq!(AppError::Internal("x".to_string()).status_code(), 500);
    assert_eq!(AppError::Conflict("x".to_string()).status_code(), 409);
}

#[test]
fn error_text_has_kind_label() {
    assert_eq!(AppError::NotFound("task T not found".to_string()).to_text(), "Not found: task T not found");
    assert_eq!(AppError::BadRequest("b".to_string()).to_text(), "Bad request: b");
    assert_eq!(AppError::UnprocessableEntity("u".to_string()).to_text(), "Unprocessable entity: u");
    assert_eq!(AppError::Internal("i".to_string()).to_text(), "Internal error: i");
    assert_eq!(AppError::Conflict("c".to_string()).to_text(), "Conflict: c");
}

#[test]
fn error_body_is_json_with_message() {
    let e = AppError::BadRequest("invalid status value".to_string());
    assert_eq!(e.response_body(), "{\"error\":\"invalid status value\"}");
    let q = AppError::Internal("say \"hi\"".to_string());
    assert_eq!(q.response_body(), "{\"error\":\"say \\\"hi\\\"\"}");
    assert_eq!(q.message(), "say \"hi\"");
}
