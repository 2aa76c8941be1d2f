//! Absolute URLs, held together with their serialization.
//!
//! The parsing, joining and query encoding are those of the `url` crate; this
//! module states them over the serialization, which is what a `url::Url` is
//! compared by.

use vstd::prelude::*;

verus! {

#[verifier::external_type_specification]
#[verifier::external_body]
pub struct ExUrl(url::Url);

/// What `url::Url::parse` gives for `input`: the serialization of the parsed
/// URL, or the text of the parse error.
pub uninterp spec fn url_parse_outcome(input: Seq<char>) -> Result<Seq<char>, Seq<char>>;

/// What `url::Url::join` gives when the URL serialized as `base` joins `input`:
/// the serialization of the joined URL, or `None` on a parse error.
pub uninterp spec fn url_join_outcome(base: Seq<char>, input: Seq<char>) -> Option<Seq<char>>;

/// The serialization of the URL serialized as `url` after
/// `query_pairs_mut().append_pair(key, value)`.
pub uninterp spec fn url_with_query_pair(url: Seq<char>, key: Seq<char>, value: Seq<char>) -> Seq<char>;

/// What `url::Url::path_segments` yields for the URL serialized as `url`:
/// `None` for a cannot-be-a-base URL, else its '/'-separated path segments.
pub uninterp spec fn url_path_segments(url: Seq<char>) -> Option<Seq<Seq<char>>>;

/// An absolute URL together with its serialization.
///
/// Every value is built by the functions of this module from a `url::Url`,
/// and `text` is always that URL's serialization (`url::Url::as_str`).
#[derive(Debug, PartialEq, Eq)]
pub struct WebUrl {
    url: url::Url,
    text: String,
}

impl View for WebUrl {
    type V = Seq<char>;

    /// A URL is viewed as its serialization.
    closed spec fn view(&self) -> Seq<char> {
        self.text@
    }
}

impl WebUrl {
    pub closed spec fn inner(&self) -> url::Url {
        self.url
    }

    /// Parses an absolute URL.
    pub fn parse(input: &str) -> (r: Result<WebUrl, String>)
        ensures
            r is Ok <==> url_parse_outcome(input@) is Ok,
            r matches Ok(u) ==> u@ == url_parse_outcome(input@)->Ok_0,
            r matches Err(e) ==> e@ == url_parse_outcome(input@)->Err_0,
    {
        parse_url(input)
    }

    /// Wraps a URL that was parsed elsewhere.
    pub fn from_url(url: url::Url) -> (r: WebUrl)
        ensures
            r.inner() == url,
    {
        wrap_url(url)
    }

    /// The serialization of this URL.
    pub fn as_str(&self) -> (r: &str)
        ensures
            r@ == self@,
    {
        self.text.as_str()
    }

    /// The URL itself.
    pub fn as_url(&self) -> (r: &url::Url)
        ensures
            *r == self.inner(),
    {
        &self.url
    }
}

/// `url::Url::parse`: succeeds exactly when `url_parse_outcome(input)` is `Ok`,
/// and then the URL's serialization is the one it names; on failure the error's
/// text is the one it names.
#[verifier::external_body]
fn parse_url(input: &str) -> (r: Result<WebUrl, String>)
    ensures
        r is Ok <==> url_parse_outcome(input@) is Ok,
        r matches Ok(u) ==> u@ == url_parse_outcome(input@)->Ok_0,
        r matches Err(e) ==> e@ == url_parse_outcome(input@)->Err_0,
{
    match url::Url::parse(input) {
        Ok(url) => Ok(WebUrl { text: url.as_str().to_string(), url }),
        Err(e) => Err(e.to_string()),
    }
}

/// `url::Url::as_str`: pairs `url` with its serialization. Of the text nothing is
/// stated: no name here describes the serialization of an opaque `url::Url`.
/// Only this and the other wrappers build a `WebUrl`, each from a URL and its
/// own `as_str`.
#[verifier::external_body]
fn wrap_url(url: url::Url) -> (r: WebUrl)
    ensures
        r.url == url,
{
    WebUrl { text: url.as_str().to_string(), url }
}

/// Whether `c` is an ASCII letter or digit.
pub open spec fn is_ascii_alphanumeric(c: char) -> bool {
    ('0' as int) <= (c as int) <= ('9' as int) || ('A' as int) <= (c as int) <= ('Z' as int) || (
    'a' as int) <= (c as int) <= ('z' as int)
}

/// A relative path made of ASCII letters, digits and '/' separators, not
/// starting with '/' (such as `search/issues`): no character of it is
/// percent-encoded, and none of its segments is `.` or `..`.
pub open spec fn is_plain_relative_path(s: Seq<char>) -> bool {
    &&& s.len() > 0
    &&& s[0] != '/'
    &&& forall|i: int| 0 <= i < s.len() ==> is_ascii_alphanumeric(#[trigger] s[i]) || s[i] == '/'
}

/// The serialization of an `http` or `https` URL with neither a query nor a
/// fragment, whose path ends in '/' (a "directory" such as
/// `https://ghe.example.com/api/v3/`).
pub open spec fn is_http_directory(url: Seq<char>) -> bool {
    &&& url.take(7) == "http://"@ || url.take(8) == "https://"@
    &&& !url.contains('?')
    &&& !url.contains('#')
    &&& url.len() > 0
    &&& url.last() == '/'
}

/// `url::Url::join`: succeeds exactly when `url_join_outcome(base, input)` is
/// `Some`, and then the joined URL is serialized as it names. Joining a plain
/// relative path onto an http(s) URL whose path ends in '/' appends it to the
/// base's serialization (the relative-path branch of `Parser::parse_relative`
/// keeps the base up to its query, pops nothing after a trailing '/', and
/// `parse_path` copies letters, digits and '/' unchanged).
#[verifier::external_body]
pub(crate) fn join_url(base: &WebUrl, input: &str) -> (r: Option<WebUrl>)
    ensures
        r is Some <==> url_join_outcome(base@, input@) is Some,
        r matches Some(u) ==> u@ == url_join_outcome(base@, input@)->0,
        is_http_directory(base@) && is_plain_relative_path(input@) ==> r is Some && r->0@ == base@ + input@,
{
    match base.url.join(input) {
        Ok(url) => Some(WebUrl { text: url.as_str().to_string(), url }),
        Err(_) => None,
    }
}

/// Whether every character of `s` is ASCII.
pub open spec fn is_ascii_text(s: Seq<char>) -> bool {
    forall|i: int| 0 <= i < s.len() ==> (#[trigger] s[i] as int) < 128
}

/// The characters that `application/x-www-form-urlencoded` serialization keeps.
pub open spec fn is_form_unchanged(c: char) -> bool {
    is_ascii_alphanumeric(c) || c == '*' || c == '-' || c == '.' || c == '_'
}

/// An upper-case hexadecimal digit of the value `n` (`0 <= n < 16`).
pub open spec fn hex_digit(n: int) -> char {
    seq!['0', '1', '2', '3', '4', '5', '6', '7', '8', '9', 'A', 'B', 'C', 'D', 'E', 'F'][n]
}

/// The form-urlencoded serialization of an ASCII character: kept, `+` for a
/// space, else `%` and its two upper-case hexadecimal digits.
pub open spec fn form_encoded_char(c: char) -> Seq<char> {
    if is_form_unchanged(c) {
        seq![c]
    } else if c == ' ' {
        seq!['+']
    } else {
        seq!['%', hex_digit((c as int) / 16), hex_digit((c as int) % 16)]
    }
}

/// The form-urlencoded serialization of an ASCII text, character by character.
pub open spec fn form_encoded(s: Seq<char>) -> Seq<char>
    decreases s.len(),
{
    if s.len() == 0 {
        Seq::empty()
    } else {
        form_encoded(s.drop_last()) + form_encoded_char(s.last())
    }
}

/// `url::Url::query_pairs_mut().append_pair(key, value)`: the URL afterwards is
/// serialized as `url_with_query_pair` names. For a URL with no fragment and
/// ASCII `key` and `value` (UTF-8 bytes equal to the characters), the pair is
/// appended to the serialization as `form_urlencoded` writes it: after `?` when
/// there was no query, after `&` when the query was not empty.
#[verifier::external_body]
pub(crate) fn append_query_pair(url: &mut WebUrl, key: &str, value: &str)
    ensures
        final(url)@ == url_with_query_pair(old(url)@, key@, value@),
        !old(url)@.contains('#') && !old(url)@.contains('?') && is_ascii_text(key@)
            && is_ascii_text(value@) ==> final(url)@ == old(url)@ + seq!['?'] + form_encoded(key@)
            + seq!['='] + form_encoded(value@),
        !old(url)@.contains('#') && old(url)@.contains('?') && old(url)@.last() != '?'
            && is_ascii_text(key@) && is_ascii_text(value@) ==> final(url)@ == old(url)@ + seq!['&']
            + form_encoded(key@) + seq!['='] + form_encoded(value@),
{
    url.url.query_pairs_mut().append_pair(key, value);
    url.text = url.url.as_str().to_string();
}

/// `url::Url::path_segments`, each segment copied into a `String`: the result is
/// the one `url_path_segments` names.
#[verifier::external_body]
pub(crate) fn path_segments(url: &WebUrl) -> (r: Option<Vec<String>>)
    ensures
        r is Some <==> url_path_segments(url@) is Some,
        r matches Some(v) ==> v.deep_view() == url_path_segments(url@)->0,
{
    match url.url.path_segments() {
        Some(segments) => {
            let mut out = Vec::new();
            for segment in segments {
                out.push(segment.to_string());
            }
            Some(out)
        },
        None => None,
    }
}

/// Form encoding works character by character, so it distributes over
/// concatenation.
pub(crate) proof fn lemma_form_encoded_concat(a: Seq<char>, b: Seq<char>)
    ensures
        form_encoded(a + b) == form_encoded(a) + form_encoded(b),
    decreases b.len(),
{
    if b.len() == 0 {
        assert(a + b =~= a);
        assert(form_encoded(a) + form_encoded(b) =~= form_encoded(a));
    } else {
        assert((a + b).drop_last() =~= a + b.drop_last());
        assert((a + b).last() == b.last());
        lemma_form_encoded_concat(a, b.drop_last());
        assert(form_encoded(a) + form_encoded(b.drop_last()) + form_encoded_char(b.last())
            =~= form_encoded(a) + (form_encoded(b.drop_last()) + form_encoded_char(b.last())));
    }
}

/// Letters and digits are kept by form encoding.
pub(crate) proof fn lemma_form_encoded_alphanumeric(s: Seq<char>)
    requires
        forall|i: int| 0 <= i < s.len() ==> is_ascii_alphanumeric(#[trigger] s[i]),
    ensures
        form_encoded(s) == s,
    decreases s.len(),
{
    if s.len() > 0 {
        lemma_form_encoded_alphanumeric(s.drop_last());
        assert(s.drop_last().push(s.last()) =~= s);
        assert(s.drop_last() + seq![s.last()] =~= s);
    }
}

} // verus!
