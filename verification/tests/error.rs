use http_proxy::error::RequestError;

#[test]
fn each_failure_has_its_status() {
    assert_eq!(RequestError::MissingAuthorization.status_code(), 401);
    assert_eq!(RequestError::Base64Error.status_code(), 400);
    assert_eq!(RequestError::EncodingError.status_code(), 400);
    assert_eq!(RequestError::ParseError.status_code(), 400);
    assert_eq!(RequestError::MethodNotAllowed { method: "TRACE".to_string() }.status_code(), 405);
    assert_eq!(RequestError::InvalidPath.status_code(), 404);
    assert_eq!(RequestError::NoPath { uri: "*".to_string() }.status_code(), 404);
    assert_eq!(RequestError::ChunkingRequest.status_code(), 500);
    assert_eq!(RequestError::MakingResponseBody.status_code(), 500);
}

#[test]
fn an_upstream_failure_keeps_the_upstream_status() {
    assert_eq!(RequestError::RequestIssue { status: Some(429) }.status_code(), 429);
    assert_eq!(RequestError::RequestIssue { status: Some(403) }.status_code(), 403);
    assert_eq!(RequestError::RequestIssue { status: None }.status_code(), 502);
}
