//! What holds of the assigned issues and pull requests for every reply.

use vstd::prelude::*;

use crate::client::{issues_of, pull_requests_outcome};
use crate::models::{
    issue_of, nonempty_segments, pull_request_outcome, repository_segments_outcome,
    repository_url_outcome, Issue, ItemView, RawIssue, RawSearchItem, RepositoryView,
};
use crate::web_url::{url_parse_outcome, url_path_segments};

verus! {

/// The assigned issues are exactly the entries of the issue list that are not
/// pull requests, in their order, each converted to an issue.
pub proof fn law_issues_are_the_entries_without_pull_requests(raw: Seq<RawIssue>)
    ensures
        issues_of(raw) == raw.filter(|x: RawIssue| x.pull_request is None).map_values(
            |x: RawIssue| issue_of(x),
        ),
    decreases raw.len(),
{
    reveal(Seq::filter);
    let keep = |x: RawIssue| x.pull_request is None;
    let convert = |x: RawIssue| issue_of(x);
    if raw.len() == 0 {
        assert(raw.filter(keep).map_values(convert) =~= Seq::<Issue>::empty());
    } else {
        law_issues_are_the_entries_without_pull_requests(raw.drop_last());
        let rest = raw.drop_last().filter(keep);
        if keep(raw.last()) {
            assert(rest.push(raw.last()).map_values(convert) =~= rest.map_values(convert).push(
                issue_of(raw.last()),
            ));
        }
    }
}

/// Each entry of the issue list is judged on its own: the issues of two lists
/// one after the other are the issues of the first, then those of the second.
pub proof fn law_issue_lists_concatenate(a: Seq<RawIssue>, b: Seq<RawIssue>)
    ensures
        issues_of(a + b) == issues_of(a) + issues_of(b),
    decreases b.len(),
{
    if b.len() == 0 {
        assert(a + b =~= a);
        assert(issues_of(a) + issues_of(b) =~= issues_of(a));
    } else {
        assert((a + b).drop_last() =~= a + b.drop_last());
        assert((a + b).last() == b.last());
        law_issue_lists_concatenate(a, b.drop_last());
        if b.last().pull_request is None {
            assert(issues_of(a) + issues_of(b.drop_last()).push(issue_of(b.last())) =~= (issues_of(a)
                + issues_of(b.drop_last())).push(issue_of(b.last())));
        }
    }
}

/// The search entries give pull requests exactly when every entry's repository
/// URL names a repository; then there is one pull request per entry, in order,
/// and otherwise the message is that of the first entry whose URL names none.
pub proof fn law_pull_requests_need_every_repository_url(items: Seq<RawSearchItem>)
    ensures
        pull_requests_outcome(items) is Ok <==> forall|i: int|
            0 <= i < items.len() ==> #[trigger] repository_url_outcome(items[i].repository_url@) is Ok,
        pull_requests_outcome(items) matches Ok(vs) ==> {
            &&& vs.len() == items.len()
            &&& forall|i: int|
                0 <= i < items.len() ==> Ok::<ItemView, Seq<char>>(#[trigger] vs[i])
                    == pull_request_outcome(items[i])
        },
        pull_requests_outcome(items) matches Err(m) ==> exists|k: int|
            0 <= k < items.len() && pull_requests_outcome(items.take(k)) is Ok && #[trigger] pull_request_outcome(
                items[k],
            ) == Err::<ItemView, Seq<char>>(m),
    decreases items.len(),
{
    if items.len() > 0 {
        let init = items.drop_last();
        let n = items.len() - 1;
        law_pull_requests_need_every_repository_url(init);
        assert(items.take(n) =~= init);
        assert forall|i: int| 0 <= i < n implies #[trigger] items[i] == init[i] by {}
        match pull_requests_outcome(init) {
            Err(m) => {
                let k = choose|k: int|
                    0 <= k < init.len() && pull_requests_outcome(init.take(k)) is Ok
                        && #[trigger] pull_request_outcome(init[k]) == Err::<ItemView, Seq<char>>(m);
                assert(init.take(k) =~= items.take(k));
                assert(items[k] == init[k]);
                let j = choose|j: int|
                    0 <= j < init.len() && !(#[trigger] repository_url_outcome(
                        init[j].repository_url@,
                    ) is Ok);
                assert(items[j] == init[j]);
            },
            Ok(prefix) => {
                if pull_request_outcome(items.last()) is Err {
                    assert(items[n] == items.last());
                    assert(items.take(n) =~= init);
                }
            },
        }
    }
}

/// The non-empty segments of a path are the path's segments with the empty
/// ones filtered out.
pub proof fn law_nonempty_segments_filter(s: Seq<Seq<char>>)
    ensures
        nonempty_segments(s) == s.filter(|x: Seq<char>| x.len() > 0),
    decreases s.len(),
{
    reveal(Seq::filter);
    if s.len() > 0 {
        law_nonempty_segments_filter(s.drop_last());
    }
}

/// An issue keeps every field of its entry: number, title, URL, the owner's
/// login and the repository's name.
pub proof fn law_issue_keeps_entry_fields(raw: RawIssue)
    ensures
        issue_of(raw).number == raw.number,
        issue_of(raw).title == raw.title,
        issue_of(raw).url == raw.html_url,
        issue_of(raw).repository.owner == raw.repository.owner.login,
        issue_of(raw).repository.name == raw.repository.name,
{
}

/// The `i`-th assigned issue has the fields of the `i`-th entry of the issue
/// list that is not a pull request.
pub proof fn law_issues_keep_entry_fields(raw: Seq<RawIssue>)
    ensures
        issues_of(raw).len() == raw.filter(|x: RawIssue| x.pull_request is None).len(),
        forall|i: int|
            0 <= i < issues_of(raw).len() ==> {
                let entry = raw.filter(|x: RawIssue| x.pull_request is None)[i];
                &&& (#[trigger] issues_of(raw)[i]).number == entry.number
                &&& issues_of(raw)[i].title == entry.title
                &&& issues_of(raw)[i].url == entry.html_url
                &&& issues_of(raw)[i].repository.owner == entry.repository.owner.login
                &&& issues_of(raw)[i].repository.name == entry.repository.name
            },
{
    law_issues_are_the_entries_without_pull_requests(raw);
}

/// A search entry gives a pull request exactly when its repository URL names
/// a repository, and the pull request keeps the entry's number, title and URL.
pub proof fn law_pull_request_keeps_entry_fields(raw: RawSearchItem)
    ensures
        pull_request_outcome(raw) is Ok <==> repository_url_outcome(raw.repository_url@) is Ok,
        pull_request_outcome(raw) matches Ok(v) ==> {
            &&& v.number == raw.number
            &&& v.title == raw.title@
            &&& v.url == raw.html_url@
            &&& v.repository == repository_url_outcome(raw.repository_url@)->Ok_0
        },
{
}

/// When the non-empty path segments are exactly `repos`, `o` and `n`, the
/// repository is owned by `o` and named `n`, whatever the URL's text.
pub proof fn law_repository_is_owner_and_name_segments(
    url: Seq<char>,
    segments: Seq<Seq<char>>,
    o: Seq<char>,
    n: Seq<char>,
)
    requires
        segments.filter(|x: Seq<char>| x.len() > 0) == seq!["repos"@, o, n],
    ensures
        repository_segments_outcome(url, Some(segments)) == Ok::<RepositoryView, Seq<char>>(
            RepositoryView { owner: o, name: n },
        ),
{
    law_nonempty_segments_filter(segments);
}

/// A repository is only ever named by segments `repos`, owner, name: no other
/// path segments give one, and the owner and name are those segments unchanged.
pub proof fn law_repository_comes_from_its_segments(url: Seq<char>, segments: Seq<Seq<char>>)
    ensures
        repository_segments_outcome(url, Some(segments)) matches Ok(v) ==> segments.filter(
            |x: Seq<char>| x.len() > 0,
        ) == seq!["repos"@, v.owner, v.name],
{
    law_nonempty_segments_filter(segments);
    if repository_segments_outcome(url, Some(segments)) is Ok {
        let kept = segments.filter(|x: Seq<char>| x.len() > 0);
        assert(kept =~= seq!["repos"@, kept[1], kept[2]]);
    }
}

/// A repository URL names the repository whose owner and name are its
/// non-empty path segments after `repos`: when the URL parses and those
/// segments are `repos`, `o`, `n`, the outcome is owner `o` and name `n`.
pub proof fn law_repository_url_names_owner_and_name(url: Seq<char>, o: Seq<char>, n: Seq<char>)
    requires
        url_parse_outcome(url) is Ok,
        url_path_segments(url_parse_outcome(url)->Ok_0) matches Some(segments) && segments.filter(
            |x: Seq<char>| x.len() > 0,
        ) == seq!["repos"@, o, n],
    ensures
        repository_url_outcome(url) == Ok::<RepositoryView, Seq<char>>(
            RepositoryView { owner: o, name: n },
        ),
{
    let segments = url_path_segments(url_parse_outcome(url)->Ok_0)->0;
    law_repository_is_owner_and_name_segments(url, segments, o, n);
}

} // verus!
