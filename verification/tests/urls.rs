use github_tray::client::GitHubClient;
use github_tray::error::GithubError;
use github_tray::models::{parse_repository_url, Repository};
use github_tray::web_url::WebUrl;

fn invalid_message(url: &str) -> String {
    match parse_repository_url(url).unwrap_err() {
        GithubError::InvalidResponse(m) => m,
        other => panic!("unexpected {other:?}"),
    }
}

#[test]
fn repository_url_names_owner_and_repository() {
    assert_eq!(
        parse_repository_url("https://api.github.com/repos/octocat/hello-world").unwrap(),
        Repository { owner: "octocat".into(), name: "hello-world".into() }
    );
}

#[test]
fn empty_path_segments_are_ignored() {
    assert_eq!(
        parse_repository_url("https://api.github.com//repos/octocat//hello-world/").unwrap(),
        Repository { owner: "octocat".into(), name: "hello-world".into() }
    );
}

#[test]
fn repository_url_must_start_with_repos() {
    assert_eq!(
        invalid_message("https://api.github.com/users/octocat/hello-world"),
        "unexpected repository_url path: https://api.github.com/users/octocat/hello-world"
    );
}

#[test]
fn repository_url_must_have_three_segments() {
    assert_eq!(
        invalid_message("https://example.com/foo"),
        "unexpected repository_url path: https://example.com/foo"
    );
    assert_eq!(
        invalid_message("https://api.github.com/repos/o/r/extra"),
        "unexpected repository_url path: https://api.github.com/repos/o/r/extra"
    );
}

#[test]
fn unparsable_repository_url_is_invalid() {
    assert_eq!(
        invalid_message("not a url"),
        "invalid repository_url 'not a url': relative URL without a base"
    );
}

#[test]
fn cannot_be_a_base_repository_url_has_no_segments() {
    assert_eq!(
        invalid_message("mailto:octocat@example.com"),
        "missing path segments: mailto:octocat@example.com"
    );
}

#[test]
fn default_client_uses_the_public_api() {
    let client = GitHubClient::try_new("t".to_string()).unwrap();
    let request = client.assigned_issues_request().unwrap();
    assert_eq!(
        request.url.as_str(),
        "https://api.github.com/issues?filter=assigned&state=open"
    );
    assert_eq!(
        client.try_endpoint("search/issues").unwrap().as_str(),
        "https://api.github.com/search/issues"
    );
}

#[test]
fn endpoint_joins_onto_the_base() {
    let base = WebUrl::parse("https://ghe.example.com/api/v3/").unwrap();
    let client = GitHubClient::with_base_url("t".to_string(), base);
    assert_eq!(
        client.try_endpoint("issues").unwrap().as_str(),
        "https://ghe.example.com/api/v3/issues"
    );
    assert_eq!(
        client.try_endpoint("search/issues").unwrap().as_str(),
        "https://ghe.example.com/api/v3/search/issues"
    );
}

#[test]
fn cannot_be_a_base_url_gives_no_requests() {
    let base = WebUrl::parse("mailto:someone@example.com").unwrap();
    let client = GitHubClient::with_base_url("t".to_string(), base);
    assert!(client.try_endpoint("issues").is_none());
    assert!(client.assigned_issues_request().is_none());
    assert!(client.assigned_pull_requests_request().is_none());
}

#[test]
fn web_url_parse_normalizes() {
    let u = WebUrl::parse("HTTPS://API.GitHub.com").unwrap();
    assert_eq!(u.as_str(), "https://api.github.com/");
    assert_eq!(u.as_url().as_str(), "https://api.github.com/");
    assert_eq!(WebUrl::parse("::").unwrap_err(), "relative URL without a base");
}

#[test]
fn web_url_from_url_keeps_the_url() {
    let parsed = url::Url::parse("https://github.com/octocat/hello-world/issues/1").unwrap();
    let u = WebUrl::from_url(parsed.clone());
    assert_eq!(u.as_url(), &parsed);
    assert_eq!(u.as_str(), "https://github.com/octocat/hello-world/issues/1");
}

#[test]
fn repository_from_segments_reads_the_kept_segments() {
    let segments = vec!["".to_string(), "repos".to_string(), "o".to_string(), "".to_string(), "r".to_string()];
    assert_eq!(
        github_tray::models::repository_from_segments("u", Some(segments)).unwrap(),
        Repository { owner: "o".into(), name: "r".into() }
    );
    match github_tray::models::repository_from_segments("u", None).unwrap_err() {
        GithubError::InvalidResponse(m) => assert_eq!(m, "missing path segments: u"),
        other => panic!("unexpected {other:?}"),
    }
}
