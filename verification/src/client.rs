//! The requests this crate sends to GitHub's REST API, and how it reads the
//! replies. Sending and receiving is left to the caller: it hands back the
//! status, the text and the parsed JSON of each reply.

use vstd::prelude::*;

use crate::error::GithubError;
use crate::models::{
    issue_of, pull_request_outcome, Issue, ItemView, PullRequest, RawIssue, RawSearchItem,
    RawSearchResults,
};
use crate::web_url::{append_query_pair, form_encoded, form_encoded_char, is_ascii_alphanumeric, is_ascii_text,
    is_http_directory, is_plain_relative_path, lemma_form_encoded_alphanumeric,
    lemma_form_encoded_concat, join_url, url_join_outcome, url_parse_outcome,
    url_with_query_pair, WebUrl};

verus! {

pub const DEFAULT_BASE_URL: &'static str = "https://api.github.com";

/// The `User-Agent` every request carries: this crate's name and version.
pub const USER_AGENT: &'static str = "github_tray/0.1.0";

pub const ACCEPT_HEADER: &'static str = "application/vnd.github+json";

pub const API_VERSION_HEADER: &'static str = "2022-11-28";

/// The issues, among the entries of GitHub's issue list `raw`, in order:
/// the entries that are pull requests are left out.
pub open spec fn issues_of(raw: Seq<RawIssue>) -> Seq<Issue>
    decreases raw.len(),
{
    if raw.len() == 0 {
        Seq::empty()
    } else if raw.last().pull_request is Some {
        issues_of(raw.drop_last())
    } else {
        issues_of(raw.drop_last()).push(issue_of(raw.last()))
    }
}

/// The issues that GitHub's issue list `raw` holds.
pub fn collect_issues(raw: Vec<RawIssue>) -> (r: Vec<Issue>)
    ensures
        r@ == issues_of(raw@),
{
    let ghost entries = raw@;
    let mut out: Vec<Issue> = Vec::new();
    for item in it: raw.into_iter()
        invariant
            it.seq() == entries,
            out@ == issues_of(entries.take(it.index())),
    {
        proof {
            assert(entries.take(it.index() + 1).drop_last() =~= entries.take(it.index()));
        }
        if !item.is_pull_request() {
            out.push(Issue::from(item));
        }
    }
    proof {
        assert(entries.take(entries.len() as int) =~= entries);
    }
    out
}

/// The pull requests that the search entries `items` stand for, in order;
/// or, when an entry's repository URL names no repository, the message for
/// the first such entry.
pub open spec fn pull_requests_outcome(items: Seq<RawSearchItem>) -> Result<Seq<ItemView>, Seq<char>>
    decreases items.len(),
{
    if items.len() == 0 {
        Ok(Seq::empty())
    } else {
        match pull_requests_outcome(items.drop_last()) {
            Err(m) => Err(m),
            Ok(prefix) => match pull_request_outcome(items.last()) {
                Ok(v) => Ok(prefix.push(v)),
                Err(m) => Err(m),
            },
        }
    }
}

/// `r` is what the conversion of the search entries `items` answers: the pull
/// requests of their outcome, each keeping its entry's URL, or the message of
/// the first entry whose repository URL names no repository.
pub open spec fn answers_pull_requests_outcome(
    r: Result<Vec<PullRequest>, GithubError>,
    items: Seq<RawSearchItem>,
) -> bool {
    match pull_requests_outcome(items) {
        Ok(vs) => r matches Ok(prs) && prs@.map_values(|p: PullRequest| p@) == vs && prs@.len()
            == items.len() && forall|i: int|
            0 <= i < items.len() ==> (#[trigger] prs@[i]).url == items[i].html_url && prs@[i].number
                == items[i].number && prs@[i].title == items[i].title,
        Err(m) => r matches Err(GithubError::InvalidResponse(s)) && s@ == m,
    }
}

/// Once a prefix of the entries fails, the whole list fails with the same message.
proof fn lemma_failed_prefix_fails_all(items: Seq<RawSearchItem>, k: int)
    requires
        0 <= k <= items.len(),
        pull_requests_outcome(items.take(k)) is Err,
    ensures
        pull_requests_outcome(items) == pull_requests_outcome(items.take(k)),
    decreases items.len() - k,
{
    if k < items.len() {
        assert(items.take(k + 1).drop_last() =~= items.take(k));
        lemma_failed_prefix_fails_all(items, k + 1);
    } else {
        assert(items.take(k) =~= items);
    }
}

/// The pull requests that the search entries `items` stand for.
pub fn collect_pull_requests(items: Vec<RawSearchItem>) -> (r: Result<Vec<PullRequest>, GithubError>)
    ensures
        answers_pull_requests_outcome(r, items@),
{
    let ghost entries = items@;
    let mut out: Vec<PullRequest> = Vec::new();
    proof {
        assert(out@.map_values(|p: PullRequest| p@) =~= Seq::<ItemView>::empty());
        assert(entries.take(0) =~= Seq::<RawSearchItem>::empty());
    }
    for item in it: items.into_iter()
        invariant
            it.seq() == entries,
            pull_requests_outcome(entries.take(it.index())) == Ok::<Seq<ItemView>, Seq<char>>(
                out@.map_values(|p: PullRequest| p@),
            ),
            out@.len() == it.index(),
            forall|i: int|
                0 <= i < out@.len() ==> (#[trigger] out@[i]).url == entries[i].html_url
                    && out@[i].number == entries[i].number && out@[i].title == entries[i].title,
    {
        let ghost k = it.index();
        proof {
            assert(entries.take(k + 1).drop_last() =~= entries.take(k));
            assert(entries.take(k + 1).last() == item);
        }
        match PullRequest::try_from(item) {
            Ok(pr) => {
                let ghost before = out@;
                let ghost pr_view = pr@;
                out.push(pr);
                proof {
                    assert(out@.map_values(|p: PullRequest| p@) =~= before.map_values(
                        |p: PullRequest| p@,
                    ).push(pr_view));
                }
            },
            Err(e) => {
                proof {
                    lemma_failed_prefix_fails_all(entries, k + 1);
                }
                return Err(e);
            },
        }
    }
    proof {
        assert(entries.take(entries.len() as int) =~= entries);
    }
    Ok(out)
}

/// Whether an HTTP status is a success (2xx).
pub open spec fn is_success_status(status: u16) -> bool {
    200 <= status <= 299
}

/// The text of a reply body, or the empty text when it could not be read.
pub open spec fn text_or_empty(text: Result<String, reqwest::Error>) -> Seq<char> {
    match text {
        Ok(body) => body@,
        Err(_) => Seq::empty(),
    }
}

/// Reads a reply from its `status`, the attempt to read its `text`, and the
/// error that `reqwest` gives for an error status (`status_error`): a success
/// gives the text; 401 gives `Unauthorized`; any other status gives `Http`.
/// On an error status the body is kept as read, or empty when it could not be.
pub fn ensure_success(
    status: u16,
    text: Result<String, reqwest::Error>,
    status_error: Option<reqwest::Error>,
) -> (r: Result<String, GithubError>)
    requires
        is_success_status(status) || status_error is Some,
    ensures
        is_success_status(status) ==> match text {
            Ok(body) => r == Ok::<String, GithubError>(body),
            Err(e) => r == Err::<String, GithubError>(GithubError::Connection(e)),
        },
        !is_success_status(status) && status == 401 ==> (r matches Err(
            GithubError::Unauthorized { body, source },
        ) && body@ == text_or_empty(text) && source == status_error->0),
        !is_success_status(status) && status != 401 ==> (r matches Err(
            GithubError::Http { status: s, body, source },
        ) && s == status && body@ == text_or_empty(text) && source == status_error->0),
{
    if 200 <= status && status <= 299 {
        return match text {
            Ok(body) => Ok(body),
            Err(e) => Err(GithubError::Connection(e)),
        };
    }
    let source = match status_error {
        Some(e) => e,
        None => vstd::pervasive::unreached(),
    };
    let body = match text {
        Ok(body) => body,
        Err(_) => String::new(),
    };
    if status == 401 {
        Err(GithubError::Unauthorized { body, source })
    } else {
        Err(GithubError::Http { status, body, source })
    }
}

/// The assigned issues, from GitHub's issue list as parsed from the reply.
pub fn assigned_issues_from_reply(parsed: Result<Vec<RawIssue>, serde_json::Error>) -> (r: Result<
    Vec<Issue>,
    GithubError,
>)
    ensures
        match parsed {
            Ok(raw) => r matches Ok(issues) && issues@ == issues_of(raw@),
            Err(e) => r == Err::<Vec<Issue>, GithubError>(GithubError::Parse(e)),
        },
{
    match parsed {
        Ok(raw) => Ok(collect_issues(raw)),
        Err(e) => Err(GithubError::from(e)),
    }
}

/// The assigned pull requests, from GitHub's search results as parsed from
/// the reply.
pub fn assigned_pull_requests_from_reply(parsed: Result<RawSearchResults, serde_json::Error>) -> (r:
    Result<Vec<PullRequest>, GithubError>)
    ensures
        match parsed {
            Ok(results) => answers_pull_requests_outcome(r, results.items@),
            Err(e) => r == Err::<Vec<PullRequest>, GithubError>(GithubError::Parse(e)),
        },
{
    match parsed {
        Ok(results) => collect_pull_requests(results.items),
        Err(e) => Err(GithubError::from(e)),
    }
}

/// A reply as it was received: its status, the attempt to read its text, and
/// the error that `reqwest` gives for an error status.
pub struct Reply {
    pub status: u16,
    pub text: Result<String, reqwest::Error>,
    pub status_error: Option<reqwest::Error>,
}

/// Every reply that `ensure_success` can read: an error status comes with its
/// error. A request that could not be sent has no reply and is readable too.
pub open spec fn readable(response: Result<Reply, reqwest::Error>) -> bool {
    response matches Ok(reply) ==> is_success_status(reply.status) || reply.status_error is Some
}

/// The body of a successful reply whose text was read.
pub open spec fn successful_body(response: Result<Reply, reqwest::Error>) -> Option<String> {
    match response {
        Ok(reply) => if is_success_status(reply.status) {
            match reply.text {
                Ok(body) => Some(body),
                Err(_) => None,
            }
        } else {
            None
        },
        Err(_) => None,
    }
}

/// `r` is what a request answers when it gives no body to decode: a request
/// that could not be sent, or a successful reply whose text could not be read,
/// gives `Connection`; 401 gives `Unauthorized`; any other error status gives
/// `Http`, with the body as read or empty.
pub open spec fn answers_without_body<T>(
    response: Result<Reply, reqwest::Error>,
    r: Result<T, GithubError>,
) -> bool {
    match response {
        Err(e) => r == Err::<T, GithubError>(GithubError::Connection(e)),
        Ok(reply) => if is_success_status(reply.status) {
            reply.text matches Err(e) ==> r == Err::<T, GithubError>(GithubError::Connection(e))
        } else if reply.status == 401 {
            r matches Err(GithubError::Unauthorized { body, source }) && body@ == text_or_empty(
                reply.text,
            ) && source == reply.status_error->0
        } else {
            r matches Err(GithubError::Http { status, body, source }) && status == reply.status
                && body@ == text_or_empty(reply.text) && source == reply.status_error->0
        },
    }
}

/// The assigned issues that a request for them answers: `response` is the
/// reply (or why none came), and `decode` reads GitHub's issue list from a
/// successful body. Only a successful, readable, decodable reply gives issues.
pub fn assigned_issues_from_response<F>(response: Result<Reply, reqwest::Error>, decode: F) -> (r:
    Result<Vec<Issue>, GithubError>) where
    F: Fn(String) -> Result<Vec<RawIssue>, serde_json::Error>,

    requires
        readable(response),
        forall|body: String| call_requires(decode, (body,)),
    ensures
        answers_without_body(response, r),
        successful_body(response) is Some ==> exists|parsed|
            #[trigger] call_ensures(decode, (successful_body(response)->0,), parsed) && match parsed {
                Ok(raw) => r matches Ok(issues) && issues@ == issues_of(raw@),
                Err(e) => r == Err::<Vec<Issue>, GithubError>(GithubError::Parse(e)),
            },
{
    let ghost received = response;
    let reply = match response {
        Ok(reply) => reply,
        Err(e) => return Err(GithubError::from(e)),
    };
    let body = match ensure_success(reply.status, reply.text, reply.status_error) {
        Ok(body) => body,
        Err(e) => return Err(e),
    };
    let parsed = decode(body);
    let ghost decoded = parsed;
    proof {
        assert(successful_body(received) is Some);
        assert(call_ensures(decode, (successful_body(response)->0,), decoded));
    }
    assigned_issues_from_reply(parsed)
}

/// The assigned pull requests that a request for them answers: `response` is
/// the reply (or why none came), and `decode` reads GitHub's search results
/// from a successful body.
pub fn assigned_pull_requests_from_response<F>(
    response: Result<Reply, reqwest::Error>,
    decode: F,
) -> (r: Result<Vec<PullRequest>, GithubError>) where
    F: Fn(String) -> Result<RawSearchResults, serde_json::Error>,

    requires
        readable(response),
        forall|body: String| call_requires(decode, (body,)),
    ensures
        answers_without_body(response, r),
        successful_body(response) is Some ==> exists|parsed|
            #[trigger] call_ensures(decode, (successful_body(response)->0,), parsed) && match parsed {
                Ok(results) => answers_pull_requests_outcome(r, results.items@),
                Err(e) => r == Err::<Vec<PullRequest>, GithubError>(GithubError::Parse(e)),
            },
{
    let ghost received = response;
    let reply = match response {
        Ok(reply) => reply,
        Err(e) => return Err(GithubError::from(e)),
    };
    let body = match ensure_success(reply.status, reply.text, reply.status_error) {
        Ok(body) => body,
        Err(e) => {
            assert(successful_body(received) is None);
            return Err(e);
        },
    };
    let parsed = decode(body);
    let ghost decoded = parsed;
    proof {
        assert(successful_body(received) is Some);
        assert(call_ensures(decode, (successful_body(response)->0,), decoded));
    }
    assigned_pull_requests_from_reply(parsed)
}

/// A header of a request, by name and value.
pub struct Header {
    pub name: String,
    pub value: String,
}

/// A GET request to GitHub's API: the URL, the token it authenticates with
/// (as a bearer token), and its further headers in order.
pub struct ApiRequest {
    pub url: WebUrl,
    pub bearer_token: String,
    pub headers: Vec<Header>,
}

impl ApiRequest {
    /// The headers as (name, value) pairs.
    pub open spec fn header_pairs(&self) -> Seq<(Seq<char>, Seq<char>)> {
        self.headers@.map_values(|h: Header| (h.name@, h.value@))
    }
}

/// The headers that every request carries besides its token: the client's
/// name and version, the JSON media type of GitHub's API, and the API version
/// it was written for.
pub open spec fn api_headers() -> Seq<(Seq<char>, Seq<char>)> {
    seq![
        ("User-Agent"@, USER_AGENT@),
        ("Accept"@, ACCEPT_HEADER@),
        ("X-GitHub-Api-Version"@, API_VERSION_HEADER@),
    ]
}

fn header(name: &str, value: &str) -> (r: Header)
    ensures
        r.name@ == name@,
        r.value@ == value@,
{
    Header { name: name.to_owned(), value: value.to_owned() }
}

fn standard_headers() -> (r: Vec<Header>)
    ensures
        r@.map_values(|h: Header| (h.name@, h.value@)) == api_headers(),
{
    let mut headers: Vec<Header> = Vec::new();
    headers.push(header("User-Agent", USER_AGENT));
    headers.push(header("Accept", ACCEPT_HEADER));
    headers.push(header("X-GitHub-Api-Version", API_VERSION_HEADER));
    proof {
        assert(headers@.map_values(|h: Header| (h.name@, h.value@)) =~= api_headers());
    }
    headers
}

/// A text that lacks `c` in both its parts lacks it.
proof fn lemma_lacks_char(a: Seq<char>, b: Seq<char>, c: char)
    requires
        !a.contains(c),
        !b.contains(c),
    ensures
        !(a + b).contains(c),
{
    assert forall|i: int| 0 <= i < (a + b).len() implies (a + b)[i] != c by {
        if i < a.len() {
            assert((a + b)[i] == a[i]);
        } else {
            assert((a + b)[i] == b[i - a.len()]);
        }
    }
}

/// A text of letters and digits is ASCII and is kept by form encoding.
proof fn lemma_alphanumeric_ascii(s: Seq<char>)
    requires
        forall|i: int| 0 <= i < s.len() ==> is_ascii_alphanumeric(#[trigger] s[i]),
    ensures
        is_ascii_text(s),
        form_encoded(s) == s,
        !s.contains('?'),
        !s.contains('#'),
{
    lemma_form_encoded_alphanumeric(s);
}

/// The form encoding of the search query for open pull requests assigned to
/// the user.
proof fn lemma_search_query_encoding()
    ensures
        is_ascii_text("is:pr is:open assignee:@me"@),
        form_encoded("is:pr is:open assignee:@me"@) == "is%3Apr+is%3Aopen+assignee%3A%40me"@,
{
    reveal_strlit("is:pr is:open assignee:@me");
    reveal_strlit("is%3Apr+is%3Aopen+assignee%3A%40me");
    let is = seq!['i', 's'];
    let pr = seq!['p', 'r'];
    let open = seq!['o', 'p', 'e', 'n'];
    let assignee = seq!['a', 's', 's', 'i', 'g', 'n', 'e', 'e'];
    let me = seq!['m', 'e'];
    let colon = seq![':'];
    let space = seq![' '];
    let at = seq!['@'];
    lemma_alphanumeric_ascii(is);
    lemma_alphanumeric_ascii(pr);
    lemma_alphanumeric_ascii(open);
    lemma_alphanumeric_ascii(assignee);
    lemma_alphanumeric_ascii(me);
    lemma_form_encoded_single(':');
    lemma_form_encoded_single(' ');
    lemma_form_encoded_single('@');
    let p1 = is + colon;
    let p2 = p1 + pr;
    let p3 = p2 + space;
    let p4 = p3 + is;
    let p5 = p4 + colon;
    let p6 = p5 + open;
    let p7 = p6 + space;
    let p8 = p7 + assignee;
    let p9 = p8 + colon;
    let p10 = p9 + at;
    let p11 = p10 + me;
    lemma_form_encoded_concat(is, colon);
    lemma_form_encoded_concat(p1, pr);
    lemma_form_encoded_concat(p2, space);
    lemma_form_encoded_concat(p3, is);
    lemma_form_encoded_concat(p4, colon);
    lemma_form_encoded_concat(p5, open);
    lemma_form_encoded_concat(p6, space);
    lemma_form_encoded_concat(p7, assignee);
    lemma_form_encoded_concat(p8, colon);
    lemma_form_encoded_concat(p9, at);
    lemma_form_encoded_concat(p10, me);
    assert(p11 =~= "is:pr is:open assignee:@me"@);
    assert(form_encoded(p11) =~= "is%3Apr+is%3Aopen+assignee%3A%40me"@);
    assert forall|i: int| 0 <= i < p11.len() implies (#[trigger] p11[i] as int) < 128 by {}
}

/// A single character is encoded as `form_encoded_char` says.
proof fn lemma_form_encoded_single(c: char)
    ensures
        form_encoded(seq![c]) == form_encoded_char(c),
        (c as int) < 128 ==> is_ascii_text(seq![c]),
{
    reveal_with_fuel(form_encoded, 2);
    assert(seq![c].drop_last() =~= Seq::<char>::empty());
    assert(seq![c].last() == c);
    assert(Seq::<char>::empty() + form_encoded_char(c) =~= form_encoded_char(c));
    assert(seq![c][0] == c);
    if (c as int) < 128 {
        assert forall|i: int| 0 <= i < seq![c].len() implies (#[trigger] seq![c][i] as int) < 128 by {
            assert(i == 0);
        }
    }
}

/// The URL of the list of open issues assigned to the user, for the API at
/// `base`: `issues?filter=assigned&state=open` relative to it.
pub open spec fn issues_url(base: Seq<char>) -> Option<Seq<char>> {
    match url_join_outcome(base, "issues"@) {
        None => None,
        Some(u) => Some(
            url_with_query_pair(url_with_query_pair(u, "filter"@, "assigned"@), "state"@, "open"@),
        ),
    }
}

/// The URL of the search for open pull requests assigned to the user, for the
/// API at `base`: `search/issues?q=is:pr is:open assignee:@me` relative to it.
pub open spec fn pull_requests_url(base: Seq<char>) -> Option<Seq<char>> {
    match url_join_outcome(base, "search/issues"@) {
        None => None,
        Some(u) => Some(url_with_query_pair(u, "q"@, "is:pr is:open assignee:@me"@)),
    }
}

/// What a client is: the API it talks to and the token it authenticates with.
pub struct ClientView {
    pub base_url: Seq<char>,
    pub token: Seq<char>,
}

/// A client of GitHub's API for one user, known by a personal access token.
pub struct GitHubClient {
    base_url: WebUrl,
    token: String,
}

impl View for GitHubClient {
    type V = ClientView;

    closed spec fn view(&self) -> ClientView {
        ClientView { base_url: self.base_url@, token: self.token@ }
    }
}

impl GitHubClient {
    /// A client of the public GitHub API, or `None` when its URL does not parse.
    pub fn try_new(token: String) -> (r: Option<GitHubClient>)
        ensures
            r is Some <==> url_parse_outcome(DEFAULT_BASE_URL@) is Ok,
            r matches Some(c) ==> c@ == (ClientView {
                base_url: url_parse_outcome(DEFAULT_BASE_URL@)->Ok_0,
                token: token@,
            }),
    {
        match WebUrl::parse(DEFAULT_BASE_URL) {
            Ok(base_url) => Some(GitHubClient::with_base_url(token, base_url)),
            Err(_) => None,
        }
    }

    /// A client of the API at `base_url`.
    pub fn with_base_url(token: String, base_url: WebUrl) -> (r: GitHubClient)
        ensures
            r@ == (ClientView { base_url: base_url@, token: token@ }),
    {
        GitHubClient { base_url, token }
    }

    /// The URL of `path` relative to the API's URL, or `None` when it does not
    /// join onto it.
    pub fn try_endpoint(&self, path: &str) -> (r: Option<WebUrl>)
        ensures
            r is Some <==> url_join_outcome(self@.base_url, path@) is Some,
            r matches Some(u) ==> u@ == url_join_outcome(self@.base_url, path@)->0,
            is_http_directory(self@.base_url) && is_plain_relative_path(path@) ==> (r matches Some(
                u,
            ) && u@ == self@.base_url + path@),
    {
        join_url(&self.base_url, path)
    }

    fn request(&self, url: WebUrl) -> (r: ApiRequest)
        ensures
            r.url == url,
            r.bearer_token@ == self@.token,
            r.header_pairs() == api_headers(),
    {
        ApiRequest { url, bearer_token: self.token.clone(), headers: standard_headers() }
    }

    /// The request for the open issues assigned to the user, or `None` when
    /// `issues` does not join onto the API's URL.
    pub fn assigned_issues_request(&self) -> (r: Option<ApiRequest>)
        ensures
            r is Some <==> issues_url(self@.base_url) is Some,
            r matches Some(req) ==> {
                &&& req.url@ == issues_url(self@.base_url)->0
                &&& req.bearer_token@ == self@.token
                &&& req.header_pairs() == api_headers()
            },
            is_http_directory(self@.base_url) ==> (r matches Some(req) && req.url@ == self@.base_url
                + "issues?filter=assigned&state=open"@),
    {
        proof {
            reveal_strlit("issues");
            assert(is_plain_relative_path("issues"@));
        }
        let mut url = match self.try_endpoint("issues") {
            Some(url) => url,
            None => return None,
        };
        let ghost joined = url@;
        append_query_pair(&mut url, "filter", "assigned");
        let ghost filtered = url@;
        append_query_pair(&mut url, "state", "open");
        proof {
            let base = self@.base_url;
            if is_http_directory(base) {
                reveal_strlit("issues");
                reveal_strlit("filter");
                reveal_strlit("assigned");
                reveal_strlit("state");
                reveal_strlit("open");
                reveal_strlit("issues?filter=assigned&state=open");
                assert(is_plain_relative_path("issues"@));
                assert(joined == base + "issues"@);
                lemma_lacks_char(base, "issues"@, '?');
                lemma_lacks_char(base, "issues"@, '#');
                lemma_alphanumeric_ascii("filter"@);
                lemma_alphanumeric_ascii("assigned"@);
                lemma_alphanumeric_ascii("state"@);
                lemma_alphanumeric_ascii("open"@);
                let pair = seq!['?'] + "filter"@ + seq!['='] + "assigned"@;
                assert(filtered == joined + pair);
                lemma_lacks_char(joined, pair, '#');
                assert(filtered[joined.len() as int] == '?');
                assert(filtered.contains('?'));
                assert(filtered.last() == 'd');
                assert(url@ =~= base + "issues?filter=assigned&state=open"@);
            }
        }
        Some(self.request(url))
    }

    /// The request for the open pull requests assigned to the user, or `None`
    /// when `search/issues` does not join onto the API's URL.
    pub fn assigned_pull_requests_request(&self) -> (r: Option<ApiRequest>)
        ensures
            r is Some <==> pull_requests_url(self@.base_url) is Some,
            r matches Some(req) ==> {
                &&& req.url@ == pull_requests_url(self@.base_url)->0
                &&& req.bearer_token@ == self@.token
                &&& req.header_pairs() == api_headers()
            },
            is_http_directory(self@.base_url) ==> (r matches Some(req) && req.url@ == self@.base_url
                + "search/issues?q=is%3Apr+is%3Aopen+assignee%3A%40me"@),
    {
        proof {
            reveal_strlit("search/issues");
            assert(is_plain_relative_path("search/issues"@));
        }
        let mut url = match self.try_endpoint("search/issues") {
            Some(url) => url,
            None => return None,
        };
        let ghost joined = url@;
        append_query_pair(&mut url, "q", "is:pr is:open assignee:@me");
        proof {
            let base = self@.base_url;
            if is_http_directory(base) {
                reveal_strlit("search/issues");
                reveal_strlit("q");
                reveal_strlit("is:pr is:open assignee:@me");
                reveal_strlit("search/issues?q=is%3Apr+is%3Aopen+assignee%3A%40me");
                assert(is_plain_relative_path("search/issues"@));
                assert(joined == base + "search/issues"@);
                lemma_lacks_char(base, "search/issues"@, '?');
                lemma_lacks_char(base, "search/issues"@, '#');
                lemma_alphanumeric_ascii("q"@);
                lemma_search_query_encoding();
                assert(!joined.contains('?'));
                assert(!joined.contains('#'));
                assert(is_ascii_text("q"@));
                assert(url@ == joined + seq!['?'] + "q"@ + seq!['='] + "is%3Apr+is%3Aopen+assignee%3A%40me"@);
                reveal_strlit("is%3Apr+is%3Aopen+assignee%3A%40me");
                let tail = "search/issues"@ + seq!['?'] + "q"@ + seq!['='] + "is%3Apr+is%3Aopen+assignee%3A%40me"@;
                assert(tail =~= "search/issues?q=is%3Apr+is%3Aopen+assignee%3A%40me"@);
                assert(url@ =~= base + tail);
            }
        }
        Some(self.request(url))
    }
}

} // verus!
