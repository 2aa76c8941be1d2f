use github_tray::client::ensure_success;
use github_tray::error::GithubError;

fn status_error(code: u16) -> reqwest::Error {
    let response: reqwest::Response =
        http::Response::builder().status(code).body("").unwrap().into();
    response.error_for_status().unwrap_err()
}

#[test]
fn success_gives_the_body() {
    let result = ensure_success(204, Ok("hello".to_string()), None);
    assert_eq!(result.unwrap(), "hello");
}

#[test]
fn success_with_an_unreadable_body_is_a_connection_error() {
    let result = ensure_success(200, Err(status_error(500)), None);
    assert!(matches!(result.unwrap_err(), GithubError::Connection(_)));
}

#[test]
fn unauthorized_keeps_the_body() {
    let result = ensure_success(401, Ok("bad credentials".to_string()), Some(status_error(401)));
    match result.unwrap_err() {
        GithubError::Unauthorized { body, .. } => assert_eq!(body, "bad credentials"),
        other => panic!("unexpected {other:?}"),
    }
}

#[test]
fn error_status_with_an_unreadable_body_has_an_empty_body() {
    let result = ensure_success(502, Err(status_error(500)), Some(status_error(502)));
    match result.unwrap_err() {
        GithubError::Http { status, body, .. } => {
            assert_eq!(status, 502);
            assert_eq!(body, "");
        },
        other => panic!("unexpected {other:?}"),
    }
}

#[test]
fn errors_convert_from_their_sources() {
    assert!(matches!(GithubError::from(status_error(500)), GithubError::Connection(_)));
    let json = serde_json::from_str::<serde_json::Value>("{").unwrap_err();
    assert!(matches!(GithubError::from(json), GithubError::Parse(_)));
}
