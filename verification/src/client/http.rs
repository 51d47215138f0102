//! The client that speaks HTTP.
//!
//! A query becomes the description of one `GET` request; the headers of the
//! response give the paging cursors; the decoded body and the cursors make the
//! page. Sending the request and reading the response is the caller's part.

use crate::common::cursor_text;
use crate::common::project::RepositoryRef;
use crate::context::{user_agent_as_string, user_agent_text, GetRef, GithubUrl};
use crate::query::get_project_release_list::GetProjectReleaseListQuery;
use crate::query::get_project_release_list_page::GetProjectReleaseListPageQuery;
use crate::text::{decimal, decimal_string, lemma_decimal_is_digits};
use crate::url_util::{
    check_pair_fits, check_path_fits, contains_run, form_plain, pair_appended, pair_fits,
    path_extended, path_fits, query_opened, texts, url_append_pair, url_as_string,
    url_extend_path, url_open_query, url_text, utf8_len, URL_LIMIT,
};
use crate::{auth_header_of, GithubAuth};
use bytes::Bytes;
use demurgos_headers::link::Link;
use demurgos_headers::{HeaderMap, HeaderMapExt, HeaderValue, UserAgent};
use vstd::prelude::*;

verus! {

/// `bytes::Bytes`, a buffer of bytes. Nothing of its inside is visible here.
#[verifier::external_type_specification]
#[verifier::external_body]
pub struct ExBytes(Bytes);

/// `Bytes::clone`: the copy holds the same bytes.
pub assume_specification[ <Bytes as Clone>::clone ](bytes: &Bytes) -> (r: Bytes)
    ensures
        r == *bytes,
;

/// `http::HeaderValue`, the value of one header line.
#[verifier::external_type_specification]
#[verifier::external_body]
pub struct ExHeaderValue(HeaderValue);

/// `http::HeaderMap`, the headers of a request or response.
#[verifier::external_type_specification]
#[verifier::external_body]
#[verifier::reject_recursive_types(T)]
pub struct ExHeaderMap<T>(HeaderMap<T>);

/// The client for the release listings, around the transport `TyInner`.
pub struct HttpGithubClient<TyInner> {
    inner: TyInner,
}

impl<TyInner> HttpGithubClient<TyInner> {
    /// The transport that the client holds.
    pub closed spec fn inner(self) -> TyInner {
        self.inner
    }

    pub fn new(inner: TyInner) -> (r: Self)
        ensures
            r.inner() == inner,
    {
        Self { inner }
    }

    /// The transport, to be used in place.
    pub fn inner_mut(&mut self) -> (r: &mut TyInner)
        ensures
            *r == old(self).inner(),
            final(self).inner() == *final(r),
    {
        &mut self.inner
    }

    /// Gives the transport back.
    pub fn into_inner(self) -> (r: TyInner)
        ensures
            r == self.inner(),
    {
        self.inner
    }
}

/// Why a query was not answered with a page.
#[derive(Debug, Clone, PartialEq, Eq, PartialOrd, Ord, Hash)]
pub enum HttpGithubClientError {
    /// The transport was not ready to take a request.
    PollReady(String),
    /// The request could not be sent.
    Send(String),
    /// The body of the response could not be read to its end.
    Receive(String),
    /// The body was read but is not a list of releases. The body is kept as
    /// it was received.
    ResponseFormat(String, Bytes),
    /// The credential does not allow the operation.
    Forbidden,
    /// What was to be created exists already.
    Conflict,
    /// What was asked for does not exist.
    NotFound,
    /// Anything else.
    Other(String),
}

impl HttpGithubClientError {
    /// What the message says before the detail, or all of it where the error
    /// carries no detail.
    pub open spec fn headline(self) -> Seq<char> {
        match self {
            Self::PollReady(_) => "failed to poll ready status: "@,
            Self::Send(_) => "failed to send request: "@,
            Self::Receive(_) => "failed to receive response: "@,
            Self::ResponseFormat(_, _) => "failed to parse response: "@,
            Self::Forbidden => "operation is forbidden for provided auth"@,
            Self::Conflict => "resource already exists"@,
            Self::NotFound => "resource not found"@,
            Self::Other(_) => "unexpected error: "@,
        }
    }

    /// The detail that the error carries, empty where it carries none.
    pub open spec fn detail(self) -> Seq<char> {
        match self {
            Self::PollReady(detail) => detail@,
            Self::Send(detail) => detail@,
            Self::Receive(detail) => detail@,
            Self::ResponseFormat(detail, _) => detail@,
            Self::Forbidden => Seq::empty(),
            Self::Conflict => Seq::empty(),
            Self::NotFound => Seq::empty(),
            Self::Other(detail) => detail@,
        }
    }

    /// The error in words: the headline, then the detail.
    pub fn message(&self) -> (r: String)
        ensures
            r@ == self.headline() + self.detail(),
    {
        let mut out = String::new();
        match self {
            Self::PollReady(detail) => {
                out.append("failed to poll ready status: ");
                out.append(detail.as_str());
            },
            Self::Send(detail) => {
                out.append("failed to send request: ");
                out.append(detail.as_str());
            },
            Self::Receive(detail) => {
                out.append("failed to receive response: ");
                out.append(detail.as_str());
            },
            Self::ResponseFormat(detail, _) => {
                out.append("failed to parse response: ");
                out.append(detail.as_str());
            },
            Self::Forbidden => {
                out.append("operation is forbidden for provided auth");
            },
            Self::Conflict => {
                out.append("resource already exists");
            },
            Self::NotFound => {
                out.append("resource not found");
            },
            Self::Other(detail) => {
                out.append("unexpected error: ");
                out.append(detail.as_str());
            },
        }
        assert(out@ =~= self.headline() + self.detail());
        out
    }
}

/// The one method that the client uses.
#[derive(Debug, Clone, Copy, PartialEq, Eq, Hash)]
pub enum HttpMethod {
    Get,
}

/// One header line of a request.
#[derive(Debug, Clone, PartialEq, Eq, Hash)]
pub struct HttpHeader {
    pub name: String,
    pub value: String,
}

/// A request, described so far that a transport can send it.
#[derive(Debug, Clone, PartialEq, Eq, Hash)]
pub struct HttpRequest {
    pub method: HttpMethod,
    /// The address that the request goes to.
    pub uri: String,
    /// The header lines, in the order in which they were added.
    pub headers: Vec<HttpHeader>,
    pub body: Vec<u8>,
}

/// Header lines as pairs of name and value.
pub open spec fn header_texts(headers: Seq<HttpHeader>) -> Seq<(Seq<char>, Seq<char>)> {
    Seq::new(headers.len(), |i: int| (headers[i].name@, headers[i].value@))
}

/// `lines` with the header of a credential added, where there is one.
pub open spec fn with_auth(
    lines: Seq<(Seq<char>, Seq<char>)>,
    auth: Option<(Seq<char>, Seq<char>)>,
) -> Seq<(Seq<char>, Seq<char>)> {
    match auth {
        Some(line) => lines.push(line),
        None => lines,
    }
}

/// The header lines of the request for a first page: the media type of the
/// release listing, the user agent, and the credential where there is one.
pub open spec fn list_headers(user_agent: Seq<char>, auth: Option<(Seq<char>, Seq<char>)>) -> Seq<
    (Seq<char>, Seq<char>),
> {
    with_auth(
        seq![
            ("Content-Type"@, "application/vnd.github+json"@),
            ("User-Agent"@, user_agent),
        ],
        auth,
    )
}

/// The header lines of the request for a further page: the user agent, and
/// the credential where there is one.
pub open spec fn page_headers(user_agent: Seq<char>, auth: Option<(Seq<char>, Seq<char>)>) -> Seq<
    (Seq<char>, Seq<char>),
> {
    with_auth(seq![("User-Agent"@, user_agent)], auth)
}

/// The address of the first page of a release listing: the base URL with the
/// segments appended to its path and, where a page size is asked for, the
/// pair `per_page` and that size in decimal appended to its query. There is
/// none where the base URL has no path to append to.
pub open spec fn release_list_target(
    base: Seq<char>,
    segments: Seq<Seq<char>>,
    per_page: Option<u32>,
) -> Option<Seq<char>> {
    match path_extended(base, segments) {
        Some(joined) => Some(
            match per_page {
                Some(size) => pair_appended(joined, "per_page"@, decimal(size as nat)),
                None => query_opened(joined),
            },
        ),
        None => None,
    }
}

/// Whether the address of the first page stays within the length that a URL
/// can hold, at every step of building it.
pub open spec fn release_list_fits(
    base: Seq<char>,
    segments: Seq<Seq<char>>,
    per_page: Option<u32>,
) -> bool {
    path_fits(utf8_len(base), segments) && match path_extended(base, segments) {
        Some(joined) => match per_page {
            Some(size) => pair_fits(utf8_len(joined), "per_page"@, decimal(size as nat)),
            None => utf8_len(joined) + 1 <= URL_LIMIT,
        },
        None => true,
    }
}

/// Adds the header of the credential to `headers`, where there is a
/// credential.
pub fn push_auth_header(headers: &mut Vec<HttpHeader>, auth: &Option<GithubAuth<String>>)
    ensures
        header_texts(final(headers)@) == with_auth(
            header_texts(old(headers)@),
            auth_header_of(*auth),
        ),
{
    match auth {
        Some(auth) => {
            let (name, value) = auth.http_header();
            headers.push(HttpHeader { name: name.to_owned(), value: value.to_owned() });
            assert(header_texts(headers@) =~= header_texts(old(headers)@).push(auth.header()));
        },
        None => {},
    }
}

/// The request that asks for the first page of a release listing.
///
/// It is a `GET` without body to the address that `release_list_target`
/// describes, with the header lines that `list_headers` describes. It is
/// refused, before anything could be sent, where the base URL of the context
/// has no path to append to, or where the address would be longer than a URL
/// can be. Where a page size is asked for, `per_page=` and that size in
/// decimal can be read in the address.
pub fn release_list_request<Cx: GetRef<GithubUrl> + GetRef<UserAgent>>(
    query: &GetProjectReleaseListQuery<Cx, String>,
) -> (r: Result<HttpRequest, HttpGithubClientError>)
    ensures
        ({
            let base = url_text(GetRef::<GithubUrl>::held(&query.context).0);
            let segments = query.repository.release_segments();
            let target = release_list_target(base, segments, query.per_page());
            match r {
                Ok(request) => {
                    &&& release_list_fits(base, segments, query.per_page())
                    &&& target == Some(request.uri@)
                    &&& request.method == HttpMethod::Get
                    &&& request.body@ == Seq::<u8>::empty()
                    &&& header_texts(request.headers@) == list_headers(
                        user_agent_text(GetRef::<UserAgent>::held(&query.context)),
                        auth_header_of(query.auth),
                    )
                    &&& match query.per_page() {
                        Some(size) => contains_run(
                            request.uri@,
                            "per_page="@ + decimal(size as nat),
                        ),
                        None => Some(request.uri@) == match path_extended(base, segments) {
                            Some(joined) => Some(query_opened(joined)),
                            None => None,
                        },
                    }
                },
                Err(error) => {
                    &&& error is Other
                    &&& !release_list_fits(base, segments, query.per_page()) || target is None
                    &&& error.detail() == if release_list_fits(base, segments, query.per_page()) {
                        "base URL has no path to extend"@
                    } else {
                        "request URL is too long"@
                    }
                },
            }
        }),
{
    let base: &GithubUrl = query.context.get_ref();
    let base_text: String = url_as_string(&base.0);
    let id_text: String = match &query.repository {
        RepositoryRef::Id(id) => id.to_text(),
        RepositoryRef::Slug(_) => String::new(),
    };
    let mut segments: Vec<&str> = Vec::new();
    match &query.repository {
        RepositoryRef::Id(_) => {
            segments.push("repositories");
            segments.push(id_text.as_str());
            segments.push("releases");
        },
        RepositoryRef::Slug(slug) => {
            segments.push("repos");
            segments.push(slug.owner.as_str());
            segments.push(slug.name.as_str());
            segments.push("releases");
        },
    }
    assert(texts(segments@) =~= query.repository.release_segments());
    if !check_path_fits(base_text.as_str().as_bytes().len(), &segments) {
        return Err(HttpGithubClientError::Other("request URL is too long".to_owned()));
    }
    let joined = match url_extend_path(&base.0, &segments) {
        Some(joined) => joined,
        None => {
            return Err(
                HttpGithubClientError::Other("base URL has no path to extend".to_owned()),
            );
        },
    };
    let joined_len: usize = url_as_string(&joined).as_str().as_bytes().len();
    let per_page: Option<u32> = match query.pagination {
        Some(pagination) => pagination.per_page,
        None => None,
    };
    let target = match per_page {
        Some(size) => {
            let size_text: String = decimal_string(size as u64);
            if !check_pair_fits(joined_len, "per_page", size_text.as_str()) {
                return Err(HttpGithubClientError::Other("request URL is too long".to_owned()));
            }
            proof {
                lemma_decimal_is_digits(size as nat);
                lemma_per_page_is_plain();
            }
            let target = url_append_pair(joined, "per_page", size_text.as_str());
            proof {
                reveal_strlit("per_page");
                reveal_strlit("per_page=");
                assert("per_page"@ + seq!['='] + decimal(size as nat) =~= "per_page="@ + decimal(
                    size as nat,
                ));
            }
            target
        },
        None => {
            if joined_len as u64 >= URL_LIMIT {
                return Err(HttpGithubClientError::Other("request URL is too long".to_owned()));
            }
            url_open_query(joined)
        },
    };
    let user_agent: &UserAgent = query.context.get_ref();
    let mut headers: Vec<HttpHeader> = Vec::new();
    headers.push(
        HttpHeader {
            name: "Content-Type".to_owned(),
            value: "application/vnd.github+json".to_owned(),
        },
    );
    headers.push(
        HttpHeader { name: "User-Agent".to_owned(), value: user_agent_as_string(user_agent) },
    );
    assert(header_texts(headers@) =~= seq![
        ("Content-Type"@, "application/vnd.github+json"@),
        ("User-Agent"@, user_agent_text(*user_agent)),
    ]);
    push_auth_header(&mut headers, &query.auth);
    Ok(HttpRequest { method: HttpMethod::Get, uri: url_as_string(&target), headers, body: Vec::new() })
}

/// The name of the page size in a query is written as it is.
pub proof fn lemma_per_page_is_plain()
    ensures
        form_plain("per_page"@),
{
    reveal_strlit("per_page");
}

/// The address of a further page: the cursor of the query, as it is.
pub open spec fn page_target<Cx>(query: GetProjectReleaseListPageQuery<Cx, String>) -> Seq<char> {
    query.cursor@
}

/// The request that asks for the page at the cursor of `query`.
///
/// It is a `GET` without body to the cursor itself, character for character,
/// with the header lines that `page_headers` describes.
pub fn release_list_page_request<Cx: GetRef<UserAgent>>(
    query: &GetProjectReleaseListPageQuery<Cx, String>,
) -> (r: HttpRequest)
    ensures
        r.method == HttpMethod::Get,
        r.uri@ == page_target(*query),
        r.body@ == Seq::<u8>::empty(),
        header_texts(r.headers@) == page_headers(
            user_agent_text(query.context.held()),
            auth_header_of(query.auth),
        ),
{
    let user_agent: &UserAgent = query.context.get_ref();
    let mut headers: Vec<HttpHeader> = Vec::new();
    headers.push(
        HttpHeader { name: "User-Agent".to_owned(), value: user_agent_as_string(user_agent) },
    );
    assert(header_texts(headers@) =~= seq![("User-Agent"@, user_agent_text(*user_agent))]);
    push_auth_header(&mut headers, &query.auth);
    HttpRequest { method: HttpMethod::Get, uri: query.cursor.clone(), headers, body: Vec::new() }
}

/// Whether a header of this name carries a credential.
pub open spec fn is_credential_name(name: Seq<char>) -> bool {
    name == "PRIVATE-TOKEN"@ || name == "JOB-TOKEN"@
}

/// A credential is sent as one header line, the last one: `PRIVATE-TOKEN`
/// with the token for a private token, `JOB-TOKEN` with the token for a job
/// token. No other line has one of these names, and without a credential no
/// line has. This holds of the request for a first page and of the request
/// for a further page.
pub proof fn lemma_credential_line(user_agent: Seq<char>, auth: Option<GithubAuth<String>>)
    ensures
        ({
            let list = list_headers(user_agent, auth_header_of(auth));
            let page = page_headers(user_agent, auth_header_of(auth));
            &&& match auth {
                Some(GithubAuth::PrivateToken(token)) => {
                    &&& list.last() == ("PRIVATE-TOKEN"@, token@)
                    &&& page.last() == ("PRIVATE-TOKEN"@, token@)
                },
                Some(GithubAuth::JobToken(token)) => {
                    &&& list.last() == ("JOB-TOKEN"@, token@)
                    &&& page.last() == ("JOB-TOKEN"@, token@)
                },
                None => true,
            }
            &&& forall|i: int|
                0 <= i < list.len() ==> (is_credential_name(#[trigger] list[i].0) <==> auth is Some
                    && i == list.len() - 1)
            &&& forall|i: int|
                0 <= i < page.len() ==> (is_credential_name(#[trigger] page[i].0) <==> auth is Some
                    && i == page.len() - 1)
        }),
{
    reveal_strlit("PRIVATE-TOKEN");
    reveal_strlit("JOB-TOKEN");
    reveal_strlit("Content-Type");
    reveal_strlit("User-Agent");
    assert("PRIVATE-TOKEN"@.len() == 13);
    assert("JOB-TOKEN"@.len() == 9);
    assert("Content-Type"@.len() == 12);
    assert("User-Agent"@.len() == 10);
}

/// One entry of a `Link` header: where it points, and the relation types that
/// it is tagged with, where it has a `rel` parameter.
#[derive(Debug, Clone, PartialEq, Eq, Hash)]
pub struct LinkEntry {
    pub target: String,
    pub rel: Option<Vec<String>>,
}

/// A link entry as plain text: the target, then the relation types.
pub type LinkEntryText = (Seq<char>, Option<Seq<Seq<char>>>);

/// The texts of owned strings.
pub open spec fn owned_texts(parts: Seq<String>) -> Seq<Seq<char>> {
    Seq::new(parts.len(), |i: int| parts[i]@)
}

impl LinkEntry {
    /// The entry as plain text.
    pub open spec fn text(self) -> LinkEntryText {
        (
            self.target@,
            match self.rel {
                Some(rel) => Some(owned_texts(rel@)),
                None => None,
            },
        )
    }
}

/// Link entries as plain text.
pub open spec fn entry_texts(entries: Seq<LinkEntry>) -> Seq<LinkEntryText> {
    Seq::new(entries.len(), |i: int| entries[i].text())
}

/// The entries that `HeaderMapExt::typed_get::<Link>` reads out of a header
/// map, in the order of `Link::values`: each with the target that
/// `LinkValue::link` gives and the relation types that `LinkValue::rel`
/// gives, every relation type as `Display` writes it. There are none where
/// the map has no `Link` header or where one cannot be parsed.
pub uninterp spec fn link_header(headers: HeaderMap<HeaderValue>) -> Option<Seq<LinkEntryText>>;

/// Calls `HeaderMapExt::typed_get::<Link>` and copies the entries out of the
/// result: of each `LinkValue` what `link` and `rel` return, every relation
/// type turned into text by its `Display`, which writes a registered type by
/// its lower-case name.
#[verifier::external_body]
pub(crate) fn typed_link_header(headers: &HeaderMap<HeaderValue>) -> (r: Option<Vec<LinkEntry>>)
    ensures
        match r {
            Some(entries) => link_header(*headers) == Some(entry_texts(entries@)),
            None => link_header(*headers) is None,
        },
{
    let link: Option<Link> = headers.typed_get::<Link>();
    link.map(
        |link| link.values().iter().map(
            |value| LinkEntry {
                target: value.link().to_string(),
                rel: value.rel().map(|rel| rel.iter().map(|r| r.to_string()).collect()),
            },
        ).collect(),
    )
}

/// The cursors that a response gives: the addresses of the first, the next
/// and the last page, each where the response names it.
#[derive(Debug, Clone, PartialEq, Eq, Hash)]
pub struct Cursors<Str> {
    pub first: Option<Str>,
    pub next: Option<Str>,
    pub last: Option<Str>,
}

/// Cursors as plain text.
pub struct CursorTexts {
    pub first: Option<Seq<char>>,
    pub next: Option<Seq<char>>,
    pub last: Option<Seq<char>>,
}

impl Cursors<String> {
    /// The cursors as plain text.
    pub open spec fn texts(self) -> CursorTexts {
        CursorTexts {
            first: cursor_text(self.first),
            next: cursor_text(self.next),
            last: cursor_text(self.last),
        }
    }
}

/// Whether `entry` is tagged with the relation type `rel`.
pub open spec fn has_rel(entry: LinkEntryText, rel: Seq<char>) -> bool {
    match entry.1 {
        Some(tags) => tags.contains(rel),
        None => false,
    }
}

/// The target of the last entry that is tagged with `rel`, where there is
/// such an entry.
pub open spec fn last_target(entries: Seq<LinkEntryText>, rel: Seq<char>) -> Option<Seq<char>>
    decreases entries.len(),
{
    if entries.len() == 0 {
        None
    } else if has_rel(entries.last(), rel) {
        Some(entries.last().0)
    } else {
        last_target(entries.drop_last(), rel)
    }
}

/// The cursors that link entries give: for `first`, `next` and `last` the
/// target of the last entry tagged with that relation type.
pub open spec fn link_cursors(entries: Seq<LinkEntryText>) -> CursorTexts {
    CursorTexts {
        first: last_target(entries, "first"@),
        next: last_target(entries, "next"@),
        last: last_target(entries, "last"@),
    }
}

/// The cursors that a header map gives: those of its links, and none where
/// it has no readable `Link` header.
pub open spec fn header_cursors(headers: HeaderMap<HeaderValue>) -> CursorTexts {
    match link_header(headers) {
        Some(entries) => link_cursors(entries),
        None => CursorTexts { first: None, next: None, last: None },
    }
}

/// `current`, or `target` where one of the first `upto` tags is `rel`.
pub open spec fn tagged_so_far(
    current: Option<Seq<char>>,
    target: Seq<char>,
    tags: Seq<Seq<char>>,
    upto: int,
    rel: Seq<char>,
) -> Option<Seq<char>> {
    if tags.take(upto).contains(rel) {
        Some(target)
    } else {
        current
    }
}

/// Reads the cursors off link entries. Every entry is looked at, in order,
/// and every tag of it: a later entry with the same relation type takes the
/// place of an earlier one.
pub fn cursors_from_links(entries: &Vec<LinkEntry>) -> (r: Cursors<String>)
    ensures
        r.texts() == link_cursors(entry_texts(entries@)),
{
    let first_name: String = "first".to_owned();
    let next_name: String = "next".to_owned();
    let last_name: String = "last".to_owned();
    let mut first: Option<String> = None;
    let mut next: Option<String> = None;
    let mut last: Option<String> = None;
    let ghost all = entry_texts(entries@);
    let mut i: usize = 0;
    while i < entries.len()
        invariant
            i <= entries.len(),
            all == entry_texts(entries@),
            first_name@ == "first"@,
            next_name@ == "next"@,
            last_name@ == "last"@,
            cursor_text(first) == last_target(all.take(i as int), "first"@),
            cursor_text(next) == last_target(all.take(i as int), "next"@),
            cursor_text(last) == last_target(all.take(i as int), "last"@),
        decreases entries.len() - i,
    {
        let entry: &LinkEntry = &entries[i];
        proof {
            assert(all.take(i as int + 1).drop_last() =~= all.take(i as int));
            assert(all.take(i as int + 1).last() == entry.text());
        }
        match &entry.rel {
            Some(rel) => {
                let ghost tags = owned_texts(rel@);
                let ghost first_before = cursor_text(first);
                let ghost next_before = cursor_text(next);
                let ghost last_before = cursor_text(last);
                let mut j: usize = 0;
                while j < rel.len()
                    invariant
                        j <= rel.len(),
                        tags == owned_texts(rel@),
                        first_name@ == "first"@,
                        next_name@ == "next"@,
                        last_name@ == "last"@,
                        cursor_text(first) == tagged_so_far(
                            first_before,
                            entry.target@,
                            tags,
                            j as int,
                            "first"@,
                        ),
                        cursor_text(next) == tagged_so_far(
                            next_before,
                            entry.target@,
                            tags,
                            j as int,
                            "next"@,
                        ),
                        cursor_text(last) == tagged_so_far(
                            last_before,
                            entry.target@,
                            tags,
                            j as int,
                            "last"@,
                        ),
                    decreases rel.len() - j,
                {
                    proof {
                        lemma_take_contains(tags, j as int, "first"@);
                        lemma_take_contains(tags, j as int, "next"@);
                        lemma_take_contains(tags, j as int, "last"@);
                        assert(tags[j as int] == rel@[j as int]@);
                    }
                    if rel[j] == next_name {
                        next = Some(entry.target.clone());
                    }
                    if rel[j] == first_name {
                        first = Some(entry.target.clone());
                    }
                    if rel[j] == last_name {
                        last = Some(entry.target.clone());
                    }
                    j = j + 1;
                }
                assert(tags.take(j as int) =~= tags);
            },
            None => {},
        }
        i = i + 1;
    }
    assert(all.take(i as int) =~= all);
    Cursors { first, next, last }
}

/// One more tag is among the first `upto + 1` exactly if it was among the
/// first `upto` or is the tag at `upto`.
pub proof fn lemma_take_contains(tags: Seq<Seq<char>>, upto: int, rel: Seq<char>)
    requires
        0 <= upto < tags.len(),
    ensures
        tags.take(upto + 1).contains(rel) <==> tags.take(upto).contains(rel) || tags[upto] == rel,
{
    let longer = tags.take(upto + 1);
    let shorter = tags.take(upto);
    if longer.contains(rel) {
        let k = choose|k: int| 0 <= k < longer.len() && longer[k] == rel;
        if k < upto {
            assert(shorter[k] == rel);
        }
    }
    if shorter.contains(rel) {
        let k = choose|k: int| 0 <= k < shorter.len() && shorter[k] == rel;
        assert(longer[k] == rel);
    }
    if tags[upto] == rel {
        assert(longer[upto] == rel);
    }
}

/// Reads the paging cursors off the headers of a response.
///
/// The `Link` header is parsed, and of its entries the last one tagged
/// `first`, `next` or `last` gives the cursor of that name. Without a `Link`
/// header, or with one that cannot be parsed, there are no cursors. Nothing
/// else of the response is touched.
pub fn get_cursors(headers: &HeaderMap<HeaderValue>) -> (r: Cursors<String>)
    ensures
        r.texts() == header_cursors(*headers),
{
    match typed_link_header(headers) {
        Some(entries) => cursors_from_links(&entries),
        None => Cursors { first: None, next: None, last: None },
    }
}

/// Extraction depends on the links alone: header maps that hold the same
/// links give the same cursors, and so do two readings of one map.
pub proof fn lemma_cursors_follow_links(a: HeaderMap<HeaderValue>, b: HeaderMap<HeaderValue>)
    requires
        link_header(a) == link_header(b),
    ensures
        header_cursors(a) == header_cursors(b),
{
}

/// The last entry tagged with a relation type wins: where the entry at `at`
/// is tagged with `rel` and no later entry is, the cursor is the target of
/// that entry, whatever earlier entries with the same tag point to.
pub proof fn lemma_last_link_wins(entries: Seq<LinkEntryText>, rel: Seq<char>, at: int)
    requires
        0 <= at < entries.len(),
        has_rel(entries[at], rel),
        forall|later: int| at < later < entries.len() ==> !has_rel(#[trigger] entries[later], rel),
    ensures
        last_target(entries, rel) == Some(entries[at].0),
    decreases entries.len(),
{
    if at < entries.len() - 1 {
        assert(!has_rel(entries[entries.len() - 1], rel));
        let shorter = entries.drop_last();
        assert(shorter[at] == entries[at]);
        assert forall|later: int| at < later < shorter.len() implies !has_rel(
            #[trigger] shorter[later],
            rel,
        ) by {
            assert(shorter[later] == entries[later]);
        }
        lemma_last_link_wins(shorter, rel, at);
    }
}

/// Where no entry is tagged with a relation type, there is no cursor for it.
pub proof fn lemma_no_link_no_cursor(entries: Seq<LinkEntryText>, rel: Seq<char>)
    requires
        forall|at: int| 0 <= at < entries.len() ==> !has_rel(#[trigger] entries[at], rel),
    ensures
        last_target(entries, rel) is None,
    decreases entries.len(),
{
    if entries.len() > 0 {
        assert(!has_rel(entries[entries.len() - 1], rel));
        let shorter = entries.drop_last();
        assert forall|at: int| 0 <= at < shorter.len() implies !has_rel(
            #[trigger] shorter[at],
            rel,
        ) by {
            assert(shorter[at] == entries[at]);
        }
        lemma_no_link_no_cursor(shorter, rel);
    }
}

} // verus!
