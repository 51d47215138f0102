use demurgos_headers::{HeaderMap, HeaderValue};
use katal_github_client::client::http::{cursors_from_links, get_cursors, Cursors, LinkEntry};

fn headers_with_links(values: &[&'static str]) -> HeaderMap {
    let mut headers = HeaderMap::new();
    for value in values {
        headers.append("link", HeaderValue::from_static(*value));
    }
    headers
}

fn cursors(first: Option<&str>, next: Option<&str>, last: Option<&str>) -> Cursors<String> {
    Cursors {
        first: first.map(str::to_string),
        next: next.map(str::to_string),
        last: last.map(str::to_string),
    }
}

fn entry(target: &str, rel: Option<&[&str]>) -> LinkEntry {
    LinkEntry {
        target: target.to_string(),
        rel: rel.map(|tags| tags.iter().map(|tag| tag.to_string()).collect()),
    }
}

#[test]
fn next_and_last_links_give_next_and_last_cursors() {
    let headers = headers_with_links(&[
        "<https://api.example/r?page=2>; rel=\"next\", <https://api.example/r?page=9>; rel=\"last\"",
    ]);
    assert_eq!(
        get_cursors(&headers),
        cursors(None, Some("https://api.example/r?page=2"), Some("https://api.example/r?page=9"))
    );
}

#[test]
fn later_link_with_same_relation_wins() {
    let headers = headers_with_links(&[
        "<https://api.example/a>; rel=\"next\", <https://api.example/b>; rel=\"next\"",
    ]);
    assert_eq!(get_cursors(&headers), cursors(None, Some("https://api.example/b"), None));
}

#[test]
fn later_link_header_line_wins() {
    let headers = headers_with_links(&[
        "<https://api.example/a>; rel=\"next\"",
        "<https://api.example/b>; rel=\"next\", <https://api.example/f>; rel=first",
    ]);
    assert_eq!(
        get_cursors(&headers),
        cursors(Some("https://api.example/f"), Some("https://api.example/b"), None)
    );
}

#[test]
fn cursor_extraction_gives_the_same_result_twice() {
    let headers = headers_with_links(&[
        "<https://api.example/1>; rel=\"first\", <https://api.example/3>; rel=\"next\", <https://api.example/7>; rel=\"last\"",
    ]);
    let once = get_cursors(&headers);
    let twice = get_cursors(&headers);
    assert_eq!(once, twice);
    assert_eq!(
        once,
        cursors(
            Some("https://api.example/1"),
            Some("https://api.example/3"),
            Some("https://api.example/7")
        )
    );
}

#[test]
fn no_link_header_gives_no_cursors() {
    let mut headers = HeaderMap::new();
    headers.insert("content-type", HeaderValue::from_static("application/json"));
    assert_eq!(get_cursors(&headers), cursors(None, None, None));
    assert_eq!(get_cursors(&HeaderMap::new()), cursors(None, None, None));
}

#[test]
fn malformed_link_header_gives_no_cursors() {
    let headers = headers_with_links(&["https://api.example/2; rel=\"next\""]);
    assert_eq!(get_cursors(&headers), cursors(None, None, None));
    let headers =
        headers_with_links(&["<https://api.example/2>; rel=\"next\"", "rel=\"last\""]);
    assert_eq!(get_cursors(&headers), cursors(None, None, None));
}

#[test]
fn other_relations_give_no_cursors() {
    let headers = headers_with_links(&[
        "<https://api.example/0>; rel=\"prev\", <https://api.example/x>; rel=\"nextish\", <https://api.example/y>",
    ]);
    assert_eq!(get_cursors(&headers), cursors(None, None, None));
}

#[test]
fn relation_names_are_read_without_regard_to_case() {
    let headers = headers_with_links(&["<https://api.example/2>; rel=\"NEXT\""]);
    assert_eq!(get_cursors(&headers), cursors(None, Some("https://api.example/2"), None));
}

#[test]
fn one_link_can_carry_several_relations() {
    let headers = headers_with_links(&["<https://api.example/1>; rel=\"first last\""]);
    assert_eq!(
        get_cursors(&headers),
        cursors(Some("https://api.example/1"), None, Some("https://api.example/1"))
    );
}

#[test]
fn cursor_is_the_link_target_verbatim() {
    let headers = headers_with_links(&["<https://api.example/r?a=1&b=%20x#frag>; rel=\"next\""]);
    assert_eq!(
        get_cursors(&headers).next,
        Some("https://api.example/r?a=1&b=%20x#frag".to_string())
    );
}

#[test]
fn cursors_from_entries_take_the_last_tagged_entry() {
    let entries = vec![
        entry("a", Some(&["next"])),
        entry("b", Some(&["first", "next"])),
        entry("c", None),
        entry("d", Some(&["last"])),
        entry("e", Some(&["prev", ""])),
    ];
    assert_eq!(cursors_from_links(&entries), cursors(Some("b"), Some("b"), Some("d")));
    assert_eq!(cursors_from_links(&Vec::new()), cursors(None, None, None));
}

#[test]
fn cursors_from_entries_match_names_exactly() {
    let entries = vec![entry("a", Some(&["Next", "next ", "nex"]))];
    assert_eq!(cursors_from_links(&entries), cursors(None, None, None));
}
