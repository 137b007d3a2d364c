use meowith_connector::error::{ErrorResponse, NodeClientError};

#[test]
fn decode_not_found() {
    assert_eq!(NodeClientError::from("{\"code\":\"NotFound\"}"), NodeClientError::NotFound);
}

#[test]
fn decode_with_whitespace() {
    let body = " {\n  \"code\" : \"InsufficientStorage\"\t}\r\n";
    assert_eq!(NodeClientError::from(body), NodeClientError::InsufficientStorage);
}

#[test]
fn decode_unknown_code_is_internal() {
    assert_eq!(NodeClientError::from("{\"code\":\"Teapot\"}"), NodeClientError::InternalError);
    assert!(ErrorResponse::decode("{\"code\":\"Teapot\"}").is_none());
}

#[test]
fn decode_garbage_is_internal() {
    assert_eq!(NodeClientError::from("<html>bad gateway</html>"), NodeClientError::InternalError);
    assert_eq!(NodeClientError::from(""), NodeClientError::InternalError);
    assert_eq!(NodeClientError::from("{\"code\":\"NotFound\"} x"), NodeClientError::InternalError);
}

#[test]
fn encode_then_decode_every_kind() {
    let kinds = [
        NodeClientError::InternalError,
        NodeClientError::BadRequest,
        NodeClientError::NotFound,
        NodeClientError::EntityExists,
        NodeClientError::NoSuchSession,
        NodeClientError::BadAuth,
        NodeClientError::InsufficientStorage,
        NodeClientError::NotEmpty,
        NodeClientError::RangeUnsatisfiable,
    ];
    for k in kinds {
        let body = ErrorResponse { code: k }.encode();
        assert_eq!(ErrorResponse::decode(&body), Some(ErrorResponse { code: k }));
    }
}

#[test]
fn encode_compact_form() {
    let body = ErrorResponse { code: NodeClientError::NotEmpty }.encode();
    assert_eq!(body, "{\"code\":\"NotEmpty\"}");
    assert_eq!(NodeClientError::BadAuth.code(), "BadAuth");
}
