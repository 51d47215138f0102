use bytes::Bytes;
use demurgos_headers::{HeaderMap, HeaderValue};
use katal_github_client::client::exchange::{
    begin, page_from_body, step, CallAction, CallEvent, CallState,
};
use katal_github_client::client::http::{
    Cursors, HttpGithubClient, HttpGithubClientError, HttpMethod, HttpRequest,
};
use katal_github_client::common::release::{Release, Timestamp};
use katal_github_client::common::Page;
use url::Url;

fn request() -> HttpRequest {
    HttpRequest {
        method: HttpMethod::Get,
        uri: "https://api.example/repos/o/n/releases?".to_string(),
        headers: Vec::new(),
        body: Vec::new(),
    }
}

fn release(id: u32, tag: &str) -> Release {
    let url = Url::parse("https://api.example/r").unwrap();
    Release {
        url: url.clone(),
        html_url: url.clone(),
        assets_url: url.clone(),
        upload_url: url,
        tarball_url: None,
        zipball_url: None,
        id,
        node_id: format!("node-{id}"),
        tag_name: tag.to_string(),
        target_commitish: "main".to_string(),
        name: None,
        body: None,
        draft: false,
        prerelease: false,
        created_at: Timestamp { seconds: 1_700_000_000, nanos: 0 },
        published_at: None,
        assets: Vec::new(),
    }
}

fn cursors(next: Option<&str>) -> Cursors<String> {
    Cursors { first: None, next: next.map(str::to_string), last: Some("l".to_string()) }
}

fn returned(action: CallAction) -> Result<Page<Release>, HttpGithubClientError> {
    match action {
        CallAction::Return(result) => result,
        _ => panic!("the call goes on"),
    }
}

#[test]
fn undecodable_body_yields_response_format_with_the_same_bytes() {
    let body = Bytes::from_static(b"{\"message\": \"Not Found\"}\xff\x00");
    let result = page_from_body(
        cursors(Some("n")),
        body.clone(),
        Err("invalid type: map, expected a sequence".to_string()),
    );
    assert_eq!(
        result,
        Err(HttpGithubClientError::ResponseFormat(
            "invalid type: map, expected a sequence".to_string(),
            body
        ))
    );
}

#[test]
fn decoded_body_yields_page_with_cursors_and_items_in_order() {
    let items = vec![release(3, "v3"), release(1, "v1"), release(2, "v2")];
    let result = page_from_body(cursors(Some("n")), Bytes::from_static(b"[]"), Ok(items.clone()));
    assert_eq!(
        result,
        Ok(Page { items, first: None, next: Some("n".to_string()), last: Some("l".to_string()) })
    );
}

#[test]
fn call_runs_from_ready_to_page() {
    let state = begin(request());
    let (state, action) = step(state, CallEvent::Ready);
    assert!(matches!(state, CallState::Sent));
    match action {
        CallAction::Send(sent) => assert_eq!(sent, request()),
        _ => panic!("nothing was sent"),
    }
    let mut headers = HeaderMap::new();
    headers.insert(
        "link",
        HeaderValue::from_static("<https://api.example/page/2>; rel=\"next\""),
    );
    let (state, action) = step(state, CallEvent::Responded(headers));
    assert!(matches!(action, CallAction::Receive));
    match &state {
        CallState::Receiving(read) => {
            assert_eq!(read.next, Some("https://api.example/page/2".to_string()));
            assert_eq!(read.first, None);
            assert_eq!(read.last, None);
        }
        _ => panic!("the body is not awaited"),
    }
    let body = Bytes::from_static(b"[{}]");
    let (state, action) = step(state, CallEvent::Received(body.clone()));
    assert!(matches!(state, CallState::Decoding(_, _)));
    match action {
        CallAction::Decode(bytes) => assert_eq!(bytes, body),
        _ => panic!("nothing to decode"),
    }
    let items = vec![release(1, "v1")];
    let (state, action) = step(state, CallEvent::Decoded(Ok(items.clone())));
    assert!(matches!(state, CallState::Done));
    assert_eq!(
        returned(action),
        Ok(Page {
            items,
            first: None,
            next: Some("https://api.example/page/2".to_string()),
            last: None
        })
    );
}

#[test]
fn call_does_not_send_when_transport_is_not_ready() {
    let (state, action) = step(begin(request()), CallEvent::NotReady("closed".to_string()));
    assert!(matches!(state, CallState::Done));
    assert_eq!(returned(action), Err(HttpGithubClientError::PollReady("closed".to_string())));
}

#[test]
fn call_reports_send_failure() {
    let (state, _) = step(begin(request()), CallEvent::Ready);
    let (state, action) = step(state, CallEvent::SendFailed("refused".to_string()));
    assert!(matches!(state, CallState::Done));
    assert_eq!(returned(action), Err(HttpGithubClientError::Send("refused".to_string())));
}

#[test]
fn call_reports_receive_failure() {
    let (state, _) = step(begin(request()), CallEvent::Ready);
    let (state, _) = step(state, CallEvent::Responded(HeaderMap::new()));
    let (state, action) = step(state, CallEvent::ReceiveFailed("reset".to_string()));
    assert!(matches!(state, CallState::Done));
    assert_eq!(returned(action), Err(HttpGithubClientError::Receive("reset".to_string())));
}

#[test]
fn call_reports_undecodable_body_with_received_bytes() {
    let (state, _) = step(begin(request()), CallEvent::Ready);
    let (state, _) = step(state, CallEvent::Responded(HeaderMap::new()));
    let body = Bytes::from_static(b"<html>502</html>");
    let (state, _) = step(state, CallEvent::Received(body.clone()));
    let (state, action) = step(state, CallEvent::Decoded(Err("expected value".to_string())));
    assert!(matches!(state, CallState::Done));
    assert_eq!(
        returned(action),
        Err(HttpGithubClientError::ResponseFormat("expected value".to_string(), body))
    );
}

#[test]
fn call_ends_on_event_out_of_turn() {
    let unexpected =
        Err(HttpGithubClientError::Other("event does not belong to the state of the call".to_string()));
    let (state, action) = step(begin(request()), CallEvent::Received(Bytes::new()));
    assert!(matches!(state, CallState::Done));
    assert_eq!(returned(action), unexpected);
    let (state, action) = step(CallState::Sent, CallEvent::Ready);
    assert!(matches!(state, CallState::Done));
    assert_eq!(returned(action), unexpected);
    let (_, action) = step(CallState::Done, CallEvent::Decoded(Ok(Vec::new())));
    assert_eq!(returned(action), unexpected);
    let (_, action) = step(CallState::Receiving(cursors(None)), CallEvent::Decoded(Ok(Vec::new())));
    assert_eq!(returned(action), unexpected);
}

#[test]
fn error_messages() {
    let detail = "boom".to_string();
    assert_eq!(
        HttpGithubClientError::PollReady(detail.clone()).message(),
        "failed to poll ready status: boom"
    );
    assert_eq!(
        HttpGithubClientError::Send(detail.clone()).message(),
        "failed to send request: boom"
    );
    assert_eq!(
        HttpGithubClientError::Receive(detail.clone()).message(),
        "failed to receive response: boom"
    );
    assert_eq!(
        HttpGithubClientError::ResponseFormat(detail.clone(), Bytes::from_static(b"x")).message(),
        "failed to parse response: boom"
    );
    assert_eq!(
        HttpGithubClientError::Forbidden.message(),
        "operation is forbidden for provided auth"
    );
    assert_eq!(HttpGithubClientError::Conflict.message(), "resource already exists");
    assert_eq!(HttpGithubClientError::NotFound.message(), "resource not found");
    assert_eq!(HttpGithubClientError::Other(detail).message(), "unexpected error: boom");
}

#[test]
fn client_holds_its_transport() {
    let mut client = HttpGithubClient::new(vec![1u8, 2]);
    client.inner_mut().push(3);
    assert_eq!(client.into_inner(), vec![1u8, 2, 3]);
}
