use github_tray::client::{
    assigned_pull_requests_from_reply, assigned_pull_requests_from_response, collect_pull_requests,
    ApiRequest, GitHubClient, Reply,
};
use github_tray::error::GithubError;
use github_tray::models::{PullRequest, RawSearchItem, RawSearchResults, Repository};
use github_tray::web_url::WebUrl;

const TEST_TOKEN: &str = "test-pat-12345";

fn build_client(base_url: &str) -> GitHubClient {
    let url = WebUrl::parse(base_url).expect("test base URL");
    GitHubClient::with_base_url(TEST_TOKEN.to_string(), url)
}

fn url(s: &str) -> WebUrl {
    WebUrl::parse(s).unwrap()
}

fn status_error(code: u16) -> reqwest::Error {
    let response: reqwest::Response =
        http::Response::builder().status(code).body("").unwrap().into();
    response.error_for_status().unwrap_err()
}

fn reply(status: u16, body: &str) -> Result<Reply, reqwest::Error> {
    let status_error = if status >= 400 { Some(status_error(status)) } else { None };
    Ok(Reply { status, text: Ok(body.to_string()), status_error })
}

fn no_results(_body: String) -> Result<RawSearchResults, serde_json::Error> {
    Ok(RawSearchResults { items: Vec::new() })
}

fn text(value: &serde_json::Value) -> String {
    value.as_str().expect("string").to_string()
}

/// Reads GitHub's search results as the app's serde types do.
fn decode_results(body: String) -> Result<RawSearchResults, serde_json::Error> {
    let value: serde_json::Value = serde_json::from_str(&body)?;
    let items = value["items"]
        .as_array()
        .expect("items")
        .iter()
        .map(|entry| RawSearchItem {
            number: entry["number"].as_u64().expect("number"),
            title: text(&entry["title"]),
            html_url: WebUrl::from_url(url::Url::parse(&text(&entry["html_url"])).unwrap()),
            repository_url: text(&entry["repository_url"]),
        })
        .collect();
    Ok(RawSearchResults { items })
}

const RESULTS_BODY: &str = r#"{
    "total_count": 2,
    "incomplete_results": false,
    "items": [
        {
            "number": 10,
            "title": "fix bug",
            "html_url": "https://github.com/octocat/hello-world/pull/10",
            "repository_url": "https://api.github.com/repos/octocat/hello-world"
        },
        {
            "number": 11,
            "title": "PR タイトル \ud83d\ude80 \"quoted\"",
            "html_url": "https://github.com/octocat/another-repo/pull/11",
            "repository_url": "https://api.github.com/repos/octocat/another-repo"
        }
    ]
}"#;

const BROKEN_BODY: &str = r#"{
    "total_count": 1,
    "incomplete_results": false,
    "items": [
        {
            "number": 99,
            "title": "broken url",
            "html_url": "https://github.com/octocat/hello-world/pull/99",
            "repository_url": "https://example.com/foo"
        }
    ]
}"#;

fn sent(request: &ApiRequest) -> reqwest::Request {
    let mut builder =
        reqwest::Client::new().get(request.url.as_str()).bearer_auth(&request.bearer_token);
    for header in &request.headers {
        builder = builder.header(header.name.as_str(), header.value.as_str());
    }
    builder.build().unwrap()
}

fn header_of<'a>(request: &'a reqwest::Request, name: &str) -> &'a str {
    request.headers().get(name).unwrap().to_str().unwrap()
}

fn item(number: u64, title: &str, html_url: &str, repository_url: &str) -> RawSearchItem {
    RawSearchItem {
        number,
        title: title.to_string(),
        html_url: url(html_url),
        repository_url: repository_url.to_string(),
    }
}

#[test]
fn positive_assigned_pull_requests_returns_prs() {
    let client = build_client("http://127.0.0.1:4321");
    let request = client.assigned_pull_requests_request().expect("request");
    assert_eq!(
        request.url.as_str(),
        "http://127.0.0.1:4321/search/issues?q=is%3Apr+is%3Aopen+assignee%3A%40me"
    );
    let http_request = sent(&request);
    assert_eq!(http_request.method(), "GET");
    assert_eq!(http_request.url().path(), "/search/issues");
    let query: Vec<(String, String)> =
        http_request.url().query_pairs().map(|(k, v)| (k.into_owned(), v.into_owned())).collect();
    assert_eq!(query, vec![("q".to_string(), "is:pr is:open assignee:@me".to_string())]);
    assert_eq!(header_of(&http_request, "Authorization"), format!("Bearer {TEST_TOKEN}"));
    assert_eq!(header_of(&http_request, "User-Agent"), "github_tray/0.1.0");
    assert_eq!(header_of(&http_request, "Accept"), "application/vnd.github+json");
    assert_eq!(header_of(&http_request, "X-GitHub-Api-Version"), "2022-11-28");

    let expected = vec![
        PullRequest {
            number: 10,
            title: "fix bug".to_string(),
            url: url("https://github.com/octocat/hello-world/pull/10"),
            repository: Repository { owner: "octocat".into(), name: "hello-world".into() },
        },
        PullRequest {
            number: 11,
            title: "PR タイトル 🚀 \"quoted\"".to_string(),
            url: url("https://github.com/octocat/another-repo/pull/11"),
            repository: Repository { owner: "octocat".into(), name: "another-repo".into() },
        },
    ];
    let result = assigned_pull_requests_from_response(reply(200, RESULTS_BODY), decode_results);
    assert_eq!(result.unwrap(), expected);
}

#[test]
fn positive_assigned_pull_requests_returns_empty_vec_for_empty_items() {
    let expected: Vec<PullRequest> = Vec::new();
    let result = assigned_pull_requests_from_response(
        reply(200, "{\"total_count\": 0, \"incomplete_results\": false, \"items\": []}"),
        decode_results,
    );
    assert_eq!(result.unwrap(), expected);
}

#[test]
fn negative_assigned_pull_requests_returns_unauthorized_on_401() {
    let result = assigned_pull_requests_from_response(reply(401, ""), no_results);
    assert!(matches!(result.unwrap_err(), GithubError::Unauthorized { .. }));
}

#[test]
fn negative_assigned_pull_requests_returns_http_error_on_403() {
    let result = assigned_pull_requests_from_response(reply(403, ""), no_results);
    assert!(matches!(result.unwrap_err(), GithubError::Http { status: 403, .. }));
}

#[test]
fn negative_assigned_pull_requests_returns_http_error_on_404() {
    let result = assigned_pull_requests_from_response(reply(404, ""), no_results);
    assert!(matches!(result.unwrap_err(), GithubError::Http { status: 404, .. }));
}

#[test]
fn negative_assigned_pull_requests_returns_http_error_on_500() {
    let result = assigned_pull_requests_from_response(reply(500, ""), no_results);
    assert!(matches!(result.unwrap_err(), GithubError::Http { status: 500, .. }));
}

#[test]
fn negative_assigned_pull_requests_returns_parse_error_on_invalid_json() {
    let result = assigned_pull_requests_from_response(reply(200, "not json"), decode_results);
    assert!(matches!(result.unwrap_err(), GithubError::Parse(_)));
}

#[test]
fn negative_assigned_pull_requests_returns_invalid_response_on_invalid_repository_url() {
    let result = assigned_pull_requests_from_response(reply(200, BROKEN_BODY), decode_results);
    assert!(matches!(result.unwrap_err(), GithubError::InvalidResponse(_)));
}

#[test]
fn first_invalid_repository_url_gives_the_error() {
    let items = vec![
        item(1, "ok", "https://github.com/o/r/pull/1", "https://api.github.com/repos/o/r"),
        item(2, "bad", "https://github.com/o/r/pull/2", "not a url"),
        item(3, "worse", "https://github.com/o/r/pull/3", "https://example.com/x"),
    ];
    match collect_pull_requests(items).unwrap_err() {
        GithubError::InvalidResponse(m) => {
            assert!(m.starts_with("invalid repository_url 'not a url': "), "{m}")
        },
        other => panic!("unexpected {other:?}"),
    }
}

#[test]
fn pull_request_try_from_keeps_the_entry() {
    let pr = PullRequest::try_from(item(
        4,
        "four",
        "https://github.com/a/b/pull/4",
        "https://api.github.com/repos/a/b",
    ))
    .unwrap();
    assert_eq!(pr.number, 4);
    assert_eq!(pr.title, "four");
    assert_eq!(pr.url.as_str(), "https://github.com/a/b/pull/4");
    assert_eq!(pr.repository, Repository { owner: "a".into(), name: "b".into() });
}

#[test]
fn parse_error_from_the_search_is_reported() {
    let error = serde_json::from_str::<serde_json::Value>("not json").unwrap_err();
    assert!(matches!(
        assigned_pull_requests_from_reply(Err(error)).unwrap_err(),
        GithubError::Parse(_)
    ));
}
