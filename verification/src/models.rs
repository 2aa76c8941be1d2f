//! Issues, pull requests and the repositories they belong to, as GitHub's
//! JSON describes them (the `Raw` types) and as this crate reports them.

use vstd::prelude::*;
use vstd::string::StringExecFns;

use crate::error::GithubError;
use crate::web_url::{path_segments, url_parse_outcome, url_path_segments, WebUrl};

verus! {

#[verifier::external_type_specification]
#[verifier::external_body]
pub struct ExJsonValue(serde_json::Value);

/// A repository, named by its owner's login and its own name.
#[derive(Debug, PartialEq, Eq)]
pub struct Repository {
    pub owner: String,
    pub name: String,
}

pub struct RepositoryView {
    pub owner: Seq<char>,
    pub name: Seq<char>,
}

impl View for Repository {
    type V = RepositoryView;

    open spec fn view(&self) -> RepositoryView {
        RepositoryView { owner: self.owner@, name: self.name@ }
    }
}

/// An open issue assigned to the user.
#[derive(Debug, PartialEq, Eq)]
pub struct Issue {
    pub number: u64,
    pub title: String,
    pub url: WebUrl,
    pub repository: Repository,
}

/// An open pull request assigned to the user.
#[derive(Debug, PartialEq, Eq)]
pub struct PullRequest {
    pub number: u64,
    pub title: String,
    pub url: WebUrl,
    pub repository: Repository,
}

/// What this crate reports of an issue or a pull request.
pub struct ItemView {
    pub number: u64,
    pub title: Seq<char>,
    pub url: Seq<char>,
    pub repository: RepositoryView,
}

impl View for Issue {
    type V = ItemView;

    open spec fn view(&self) -> ItemView {
        ItemView {
            number: self.number,
            title: self.title@,
            url: self.url@,
            repository: self.repository@,
        }
    }
}

impl View for PullRequest {
    type V = ItemView;

    open spec fn view(&self) -> ItemView {
        ItemView {
            number: self.number,
            title: self.title@,
            url: self.url@,
            repository: self.repository@,
        }
    }
}

/// The `owner` object of a repository in GitHub's issue list.
pub struct RawOwner {
    pub login: String,
}

/// The `repository` object of an entry in GitHub's issue list.
pub struct RawRepository {
    pub owner: RawOwner,
    pub name: String,
}

/// An entry of GitHub's list of issues assigned to the user. GitHub lists pull
/// requests there too; those carry a `pull_request` object.
pub struct RawIssue {
    pub number: u64,
    pub title: String,
    pub html_url: WebUrl,
    pub repository: RawRepository,
    pub pull_request: Option<serde_json::Value>,
}

/// The reply of GitHub's issue search.
pub struct RawSearchResults {
    pub items: Vec<RawSearchItem>,
}

/// An entry of GitHub's issue search; its repository is only given as the
/// API URL of the repository.
pub struct RawSearchItem {
    pub number: u64,
    pub title: String,
    pub html_url: WebUrl,
    pub repository_url: String,
}

impl RawIssue {
    /// Whether this entry is a pull request rather than an issue.
    pub fn is_pull_request(&self) -> (r: bool)
        ensures
            r == (self.pull_request is Some),
    {
        self.pull_request.is_some()
    }
}

/// The issue that an entry of the issue list stands for.
pub open spec fn issue_of(raw: RawIssue) -> Issue {
    Issue {
        number: raw.number,
        title: raw.title,
        url: raw.html_url,
        repository: Repository { owner: raw.repository.owner.login, name: raw.repository.name },
    }
}

impl From<RawIssue> for Issue {
    fn from(raw: RawIssue) -> (r: Issue)
        ensures
            r.number == raw.number,
            r.title == raw.title,
            r.url == raw.html_url,
            r.repository.owner == raw.repository.owner.login,
            r.repository.name == raw.repository.name,
    {
        Issue {
            number: raw.number,
            title: raw.title,
            url: raw.html_url,
            repository: Repository { owner: raw.repository.owner.login, name: raw.repository.name },
        }
    }
}

impl vstd::std_specs::convert::FromSpecImpl<RawIssue> for Issue {
    open spec fn obeys_from_spec() -> bool {
        true
    }

    open spec fn from_spec(v: RawIssue) -> Issue {
        issue_of(v)
    }
}

/// The segments of `s` that are not empty, in order.
pub open spec fn nonempty_segments(s: Seq<Seq<char>>) -> Seq<Seq<char>>
    decreases s.len(),
{
    if s.len() == 0 {
        Seq::empty()
    } else if s.last().len() == 0 {
        nonempty_segments(s.drop_last())
    } else {
        nonempty_segments(s.drop_last()).push(s.last())
    }
}

pub open spec fn invalid_url_message(url: Seq<char>, reason: Seq<char>) -> Seq<char> {
    "invalid repository_url '"@ + url + "': "@ + reason
}

pub open spec fn missing_segments_message(url: Seq<char>) -> Seq<char> {
    "missing path segments: "@ + url
}

pub open spec fn unexpected_path_message(url: Seq<char>) -> Seq<char> {
    "unexpected repository_url path: "@ + url
}

/// What the path segments of a repository's API URL `url` name: the
/// repository, when the non-empty segments are exactly `repos`, the owner and
/// the name; else the message that says why not (`None` stands for a URL that
/// cannot be a base, and so has no segments).
pub open spec fn repository_segments_outcome(url: Seq<char>, segments: Option<Seq<Seq<char>>>) -> Result<
    RepositoryView,
    Seq<char>,
> {
    match segments {
        None => Err(missing_segments_message(url)),
        Some(segments) => {
            let kept = nonempty_segments(segments);
            if kept.len() == 3 && kept[0] == "repos"@ {
                Ok(RepositoryView { owner: kept[1], name: kept[2] })
            } else {
                Err(unexpected_path_message(url))
            }
        },
    }
}

/// What a repository's API URL (`https://api.github.com/repos/{owner}/{name}`)
/// names: the repository, when the URL parses and its non-empty path segments
/// are exactly `repos`, the owner and the name; else the message that says why not.
pub open spec fn repository_url_outcome(url: Seq<char>) -> Result<RepositoryView, Seq<char>> {
    match url_parse_outcome(url) {
        Err(reason) => Err(invalid_url_message(url, reason)),
        Ok(serialized) => repository_segments_outcome(url, url_path_segments(serialized)),
    }
}

/// The view of the path segments of a URL, when it has some.
pub open spec fn segments_view(segments: Option<Vec<String>>) -> Option<Seq<Seq<char>>> {
    match segments {
        Some(v) => Some(v.deep_view()),
        None => None,
    }
}

/// `r` is what `parse_repository_url` answers when the outcome is `outcome`.
pub open spec fn answers_repository_outcome(
    r: Result<Repository, GithubError>,
    outcome: Result<RepositoryView, Seq<char>>,
) -> bool {
    match outcome {
        Ok(v) => r matches Ok(repo) && repo@ == v,
        Err(m) => r matches Err(GithubError::InvalidResponse(s)) && s@ == m,
    }
}

fn message(prefix: &str, url: &str) -> (r: String)
    ensures
        r@ == prefix@ + url@,
{
    let mut m = prefix.to_owned();
    m.append(url);
    m
}

/// The segments of `segments` that are not empty, in order.
fn keep_nonempty(segments: &Vec<String>) -> (r: Vec<String>)
    ensures
        r.deep_view() == nonempty_segments(segments.deep_view()),
{
    let mut kept: Vec<String> = Vec::new();
    let n = segments.len();
    let mut i: usize = 0;
    while i < n
        invariant
            n == segments.len(),
            i <= n,
            kept.deep_view() == nonempty_segments(segments.deep_view().take(i as int)),
        decreases n - i,
    {
        let ghost all = segments.deep_view();
        proof {
            assert(all.take(i + 1).drop_last() =~= all.take(i as int));
            assert(all.take(i + 1).last() == segments[i as int]@);
        }
        if !segments[i].as_str().is_empty() {
            kept.push(segments[i].clone());
        }
        i = i + 1;
    }
    proof {
        assert(segments.deep_view().take(n as int) =~= segments.deep_view());
    }
    kept
}

/// The repository that a repository's API URL names, such as `octocat` /
/// `hello-world` for `https://api.github.com/repos/octocat/hello-world`.
pub fn parse_repository_url(url: &str) -> (r: Result<Repository, GithubError>)
    ensures
        answers_repository_outcome(r, repository_url_outcome(url@)),
        r matches Ok(repo) ==> (url_parse_outcome(url@) matches Ok(serialized) && url_path_segments(
            serialized,
        ) matches Some(segments) && segments.filter(|x: Seq<char>| x.len() > 0) == seq![
            "repos"@,
            repo.owner@,
            repo.name@,
        ]),
{
    let parsed = match WebUrl::parse(url) {
        Ok(u) => u,
        Err(reason) => {
            let mut m = message("invalid repository_url '", url);
            m.append("': ");
            m.append(reason.as_str());
            return Err(GithubError::InvalidResponse(m));
        },
    };
    repository_from_segments(url, path_segments(&parsed))
}

/// The repository that the path segments of the repository URL `url` name
/// (`None` for a URL without segments); `url` itself only enters the messages.
pub fn repository_from_segments(url: &str, segments: Option<Vec<String>>) -> (r: Result<
    Repository,
    GithubError,
>)
    ensures
        answers_repository_outcome(r, repository_segments_outcome(url@, segments_view(segments))),
        r is Ok <==> (segments_view(segments) matches Some(s) && s.filter(
            |x: Seq<char>| x.len() > 0,
        ).len() == 3 && s.filter(|x: Seq<char>| x.len() > 0)[0] == "repos"@),
        r matches Ok(repo) ==> (segments_view(segments) matches Some(s) && s.filter(
            |x: Seq<char>| x.len() > 0,
        ) == seq!["repos"@, repo.owner@, repo.name@]),
{
    proof {
        if let Some(s) = segments_view(segments) {
            crate::laws::law_nonempty_segments_filter(s);
        }
    }
    let segments = match segments {
        Some(s) => s,
        None => {
            return Err(GithubError::InvalidResponse(message("missing path segments: ", url)));
        },
    };
    let kept = keep_nonempty(&segments);
    let repos = "repos".to_owned();
    if kept.len() != 3 || kept[0] != repos {
        return Err(GithubError::InvalidResponse(message("unexpected repository_url path: ", url)));
    }
    Ok(Repository { owner: kept[1].clone(), name: kept[2].clone() })
}

/// The pull request that a search entry stands for, when its repository URL
/// names a repository.
pub open spec fn pull_request_outcome(raw: RawSearchItem) -> Result<ItemView, Seq<char>> {
    match repository_url_outcome(raw.repository_url@) {
        Ok(repository) => Ok(ItemView {
            number: raw.number,
            title: raw.title@,
            url: raw.html_url@,
            repository,
        }),
        Err(m) => Err(m),
    }
}

/// `r` is what the conversion of a search entry answers when the outcome is
/// `outcome`.
pub open spec fn answers_pull_request_outcome(
    r: Result<PullRequest, GithubError>,
    outcome: Result<ItemView, Seq<char>>,
) -> bool {
    match outcome {
        Ok(v) => r matches Ok(pr) && pr@ == v,
        Err(m) => r matches Err(GithubError::InvalidResponse(s)) && s@ == m,
    }
}

impl TryFrom<RawSearchItem> for PullRequest {
    type Error = GithubError;

    fn try_from(raw: RawSearchItem) -> (r: Result<PullRequest, GithubError>)
        ensures
            answers_pull_request_outcome(r, pull_request_outcome(raw)),
            r matches Ok(pr) ==> pr.url == raw.html_url && pr.number == raw.number && pr.title
                == raw.title,
    {
        let repository = match parse_repository_url(raw.repository_url.as_str()) {
            Ok(repository) => repository,
            Err(e) => return Err(e),
        };
        Ok(PullRequest { number: raw.number, title: raw.title, url: raw.html_url, repository })
    }
}

impl vstd::std_specs::convert::TryFromSpecImpl<RawSearchItem> for PullRequest {
    /// The error's text is only known by its view, so the conversion is
    /// described by the `ensures` of `try_from` rather than by a value.
    open spec fn obeys_try_from_spec() -> bool {
        false
    }

    open spec fn try_from_spec(v: RawSearchItem) -> Result<PullRequest, GithubError> {
        vstd::pervasive::arbitrary()
    }
}

} // verus!
