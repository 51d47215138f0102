//! Request targets built on a parsed base URL.
//!
//! Parsing, percent-encoding and serialising are the work of the `url` crate;
//! this module says what is asked of it and makes sure that it is asked only
//! for URLs that stay within the length that the crate can hold.

use url::Url;
use vstd::prelude::*;

verus! {

/// `url::Url`, a parsed URL. Nothing of its inside is visible here.
#[verifier::external_type_specification]
#[verifier::external_body]
pub struct ExUrl(Url);

/// `Url::clone`, which `url` derives: the copy is the same URL.
pub assume_specification[ <Url as Clone>::clone ](url: &Url) -> (r: Url)
    ensures
        r == *url,
;

/// The serialization that a URL holds: what `Url::as_str` returns.
pub uninterp spec fn url_text(url: Url) -> Seq<char>;

/// The serialization after `PathSegmentsMut::extend` has appended `segments`
/// to the path of the URL that serialises as `text`, or `None` where that URL
/// cannot be a base and so has no path segments.
pub uninterp spec fn path_extended(text: Seq<char>, segments: Seq<Seq<char>>) -> Option<
    Seq<char>,
>;

/// The serialization after `Url::query_pairs_mut` has been called on the URL
/// that serialises as `text` and nothing has been appended.
pub uninterp spec fn query_opened(text: Seq<char>) -> Seq<char>;

/// The serialization after `form_urlencoded::Serializer::append_pair` has
/// appended the pair `name`, `value` to the query of the URL that serialises
/// as `text`.
pub uninterp spec fn pair_appended(text: Seq<char>, name: Seq<char>, value: Seq<char>) -> Seq<
    char,
>;

/// The longest serialization, in bytes, that a URL can hold.
pub const URL_LIMIT: u64 = 4294967295;

/// The longest text, in bytes, that is taken as one path segment or as one
/// half of a query pair.
pub const PART_LIMIT: u64 = 1073741823;

/// The number of bytes of `text` in UTF-8.
pub open spec fn utf8_len(text: Seq<char>) -> nat {
    vstd::utf8::encode_utf8(text).len()
}

/// The texts of borrowed strings.
pub open spec fn texts(parts: Seq<&str>) -> Seq<Seq<char>> {
    Seq::new(parts.len(), |i: int| parts[i]@)
}

/// The room set aside for one percent-encoded text and what separates it from
/// its neighbours: every byte may become three, and up to four more are added.
pub open spec fn part_room(text: Seq<char>) -> nat {
    4 + 3 * utf8_len(text)
}

/// The room set aside for path segments.
pub open spec fn segments_room(segments: Seq<Seq<char>>) -> nat
    decreases segments.len(),
{
    if segments.len() == 0 {
        0
    } else {
        segments_room(segments.drop_last()) + part_room(segments.last())
    }
}

/// Whether every segment is short enough to be measured.
pub open spec fn segments_short(segments: Seq<Seq<char>>) -> bool {
    forall|i: int| 0 <= i < segments.len() ==> utf8_len(#[trigger] segments[i]) <= PART_LIMIT
}

/// Whether `segments` can be appended to a serialization of `len` bytes
/// without leaving the length that a URL can hold.
pub open spec fn path_fits(len: nat, segments: Seq<Seq<char>>) -> bool {
    segments_short(segments) && len + segments_room(segments) <= URL_LIMIT
}

/// Whether the pair `name`, `value` can be appended to a serialization of
/// `len` bytes without leaving the length that a URL can hold.
pub open spec fn pair_fits(len: nat, name: Seq<char>, value: Seq<char>) -> bool {
    utf8_len(name) <= PART_LIMIT && utf8_len(value) <= PART_LIMIT && len + part_room(name)
        + part_room(value) <= URL_LIMIT
}

/// Whether `text` is written with the characters that a query pair leaves as
/// they are: ASCII letters and digits, `*`, `-`, `.` and `_`.
pub open spec fn form_plain(text: Seq<char>) -> bool {
    forall|i: int|
        0 <= i < text.len() ==> {
            let c = #[trigger] text[i];
            ('0' <= c <= '9') || ('a' <= c <= 'z') || ('A' <= c <= 'Z') || c == '*' || c == '-'
                || c == '.' || c == '_'
        }
}

/// Whether `run` stands in `text` as an unbroken run of characters.
pub open spec fn contains_run(text: Seq<char>, run: Seq<char>) -> bool {
    exists|at: int|
        0 <= at && at + run.len() <= text.len() && #[trigger] text.subrange(
            at,
            at + run.len(),
        ) == run
}

/// Calls `Url::as_str` and copies what it returns. The result is the URL's
/// serialization.
#[verifier::external_body]
pub(crate) fn url_as_string(url: &Url) -> (r: String)
    ensures
        r@ == url_text(*url),
{
    url.as_str().to_string()
}

/// Calls `Url::path_segments_mut` and `PathSegmentsMut::extend` on a copy of
/// `base`. The copy, with `segments` appended to its path, is returned; where
/// `base` cannot be a base, `path_segments_mut` fails and nothing is
/// returned. The crate keeps positions in 32 bits and panics beyond them, so
/// the caller has to show that the result stays below that length.
#[verifier::external_body]
pub(crate) fn url_extend_path(base: &Url, segments: &Vec<&str>) -> (r: Option<Url>)
    requires
        path_fits(utf8_len(url_text(*base)), texts(segments@)),
    ensures
        match r {
            Some(url) => path_extended(url_text(*base), texts(segments@)) == Some(url_text(url)),
            None => path_extended(url_text(*base), texts(segments@)) is None,
        },
{
    let mut url = base.clone();
    match url.path_segments_mut() {
        Ok(mut path) => {
            path.extend(segments.iter());
        },
        Err(()) => return None,
    }
    Some(url)
}

/// Calls `Url::query_pairs_mut` on `url` and appends nothing. The URL comes
/// back with a query, an empty one where it had none.
#[verifier::external_body]
pub(crate) fn url_open_query(url: Url) -> (r: Url)
    requires
        utf8_len(url_text(url)) + 1 <= URL_LIMIT,
    ensures
        url_text(r) == query_opened(url_text(url)),
{
    let mut url = url;
    url.query_pairs_mut();
    url
}

/// Calls `Url::query_pairs_mut` on `url` and then
/// `form_urlencoded::Serializer::append_pair`. The URL comes back with the
/// pair at the end of its query. The serializer writes a name or value made
/// of ASCII letters, digits, `*`, `-`, `.` and `_` as it is, and `=` between
/// the two, so such a pair can be read off the result.
#[verifier::external_body]
pub(crate) fn url_append_pair(url: Url, name: &str, value: &str) -> (r: Url)
    requires
        pair_fits(utf8_len(url_text(url)), name@, value@),
    ensures
        url_text(r) == pair_appended(url_text(url), name@, value@),
        form_plain(name@) && form_plain(value@) ==> contains_run(
            url_text(r),
            name@ + seq!['='] + value@,
        ),
{
    let mut url = url;
    url.query_pairs_mut().append_pair(name, value);
    url
}

/// Whether `segments` can be appended to a serialization of `len` bytes.
pub fn check_path_fits(len: usize, segments: &Vec<&str>) -> (r: bool)
    ensures
        r == path_fits(len as nat, texts(segments@)),
{
    let mut room: u64 = 0;
    let mut i: usize = 0;
    while i < segments.len()
        invariant
            i <= segments.len(),
            room == segments_room(texts(segments@).take(i as int)),
            room <= URL_LIMIT,
            forall|j: int| 0 <= j < i ==> utf8_len(#[trigger] texts(segments@)[j]) <= PART_LIMIT,
        decreases segments.len() - i,
    {
        let part: usize = segments[i].as_bytes().len();
        proof {
            let all = texts(segments@);
            assert(all.take(i as int + 1).drop_last() =~= all.take(i as int));
            assert(all.take(i as int + 1).last() == all[i as int]);
            assert(all[i as int] == segments@[i as int]@);
        }
        if part as u64 > PART_LIMIT {
            assert(!segments_short(texts(segments@)));
            return false;
        }
        let next: u64 = room + 4 + 3 * (part as u64);
        if next > URL_LIMIT {
            proof {
                lemma_segments_room_grows(texts(segments@), i as int + 1);
            }
            return false;
        }
        room = next;
        i = i + 1;
    }
    assert(texts(segments@).take(i as int) =~= texts(segments@));
    len as u64 <= URL_LIMIT - room
}

/// Whether the pair `name`, `value` can be appended to a serialization of
/// `len` bytes.
pub fn check_pair_fits(len: usize, name: &str, value: &str) -> (r: bool)
    ensures
        r == pair_fits(len as nat, name@, value@),
{
    let name_len: usize = name.as_bytes().len();
    let value_len: usize = value.as_bytes().len();
    if name_len as u64 > PART_LIMIT || value_len as u64 > PART_LIMIT {
        return false;
    }
    let room: u64 = 8 + 3 * (name_len as u64) + 3 * (value_len as u64);
    len as u64 <= URL_LIMIT && room <= URL_LIMIT - len as u64
}

/// The room for the first `n` segments is no more than the room for all.
pub proof fn lemma_segments_room_grows(segments: Seq<Seq<char>>, n: int)
    requires
        0 <= n <= segments.len(),
    ensures
        segments_room(segments.take(n)) <= segments_room(segments),
    decreases segments.len(),
{
    if n == segments.len() {
        assert(segments.take(n) =~= segments);
    } else {
        lemma_segments_room_grows(segments.drop_last(), n);
        assert(segments.drop_last().take(n) =~= segments.take(n));
    }
}

} // verus!
