//! One call, step by step.
//!
//! A call waits for the transport to be ready, sends its request, reads the
//! cursors off the response, receives the body, has it decoded and returns a
//! page. Every way in which this can fail ends the call with one error. What
//! happens outside (the transport, the decoder) is reported as an event;
//! `step` answers with what to do next.

use crate::client::http::{
    get_cursors, header_cursors, Cursors, HttpGithubClientError, HttpRequest,
};
use crate::common::release::Release;
use crate::common::Page;
use bytes::Bytes;
use demurgos_headers::{HeaderMap, HeaderValue};
use vstd::prelude::*;

verus! {

/// Where a call stands.
pub enum CallState {
    /// Nothing has been sent: the request waits for the transport.
    Pending(HttpRequest),
    /// The request is with the transport.
    Sent,
    /// The response has come, its cursors are read, its body is on the way.
    Receiving(Cursors<String>),
    /// The body has come and is with the decoder.
    Decoding(Cursors<String>, Bytes),
    /// The call is over.
    Done,
}

/// What happened outside.
pub enum CallEvent {
    /// The transport is ready to take a request.
    Ready,
    /// The transport failed to become ready.
    NotReady(String),
    /// The transport failed to send the request.
    SendFailed(String),
    /// The response has come, with these headers.
    Responded(HeaderMap<HeaderValue>),
    /// The body could not be read to its end.
    ReceiveFailed(String),
    /// The body has been read to its end.
    Received(Bytes),
    /// The decoder has read the body as a list of releases, or says why it
    /// could not.
    Decoded(Result<Vec<Release>, String>),
}

/// What to do next.
pub enum CallAction {
    /// Hand this request to the transport.
    Send(HttpRequest),
    /// Receive the body of the response.
    Receive,
    /// Decode these bytes as a list of releases.
    Decode(Bytes),
    /// Give this to the caller; the call is over.
    Return(Result<Page<Release>, HttpGithubClientError>),
}

/// The page that cursors and items make.
pub open spec fn page_of(cursors: Cursors<String>, items: Vec<Release>) -> Page<Release> {
    Page { items, first: cursors.first, next: cursors.next, last: cursors.last }
}

/// What a decoded body makes of a call: the page, or the error that carries
/// the body as it was received.
pub open spec fn decode_outcome(
    cursors: Cursors<String>,
    body: Bytes,
    decoded: Result<Vec<Release>, String>,
) -> Result<Page<Release>, HttpGithubClientError> {
    match decoded {
        Ok(items) => Ok(page_of(cursors, items)),
        Err(detail) => Err(HttpGithubClientError::ResponseFormat(detail, body)),
    }
}

/// Makes the page out of the cursors of a response and its decoded body.
///
/// Where the body could not be decoded, the error says why and carries the
/// body, the very bytes that were received.
pub fn page_from_body(
    cursors: Cursors<String>,
    body: Bytes,
    decoded: Result<Vec<Release>, String>,
) -> (r: Result<Page<Release>, HttpGithubClientError>)
    ensures
        r == decode_outcome(cursors, body, decoded),
{
    match decoded {
        Ok(items) => Ok(
            Page { items, first: cursors.first, next: cursors.next, last: cursors.last },
        ),
        Err(detail) => Err(HttpGithubClientError::ResponseFormat(detail, body)),
    }
}

/// Whether `event` is one that is waited for in `state`.
pub open spec fn expected(state: CallState, event: CallEvent) -> bool {
    match (state, event) {
        (CallState::Pending(_), CallEvent::Ready) => true,
        (CallState::Pending(_), CallEvent::NotReady(_)) => true,
        (CallState::Sent, CallEvent::SendFailed(_)) => true,
        (CallState::Sent, CallEvent::Responded(_)) => true,
        (CallState::Receiving(_), CallEvent::ReceiveFailed(_)) => true,
        (CallState::Receiving(_), CallEvent::Received(_)) => true,
        (CallState::Decoding(_, _), CallEvent::Decoded(_)) => true,
        _ => false,
    }
}

/// Whether `next` and `action` are the answer to `event` in `state`.
pub open spec fn answers(
    state: CallState,
    event: CallEvent,
    next: CallState,
    action: CallAction,
) -> bool {
    match (state, event) {
        (CallState::Pending(request), CallEvent::Ready) => {
            &&& next == CallState::Sent
            &&& action == CallAction::Send(request)
        },
        (CallState::Pending(_), CallEvent::NotReady(detail)) => {
            &&& next == CallState::Done
            &&& action == CallAction::Return(Err(HttpGithubClientError::PollReady(detail)))
        },
        (CallState::Sent, CallEvent::SendFailed(detail)) => {
            &&& next == CallState::Done
            &&& action == CallAction::Return(Err(HttpGithubClientError::Send(detail)))
        },
        (CallState::Sent, CallEvent::Responded(headers)) => {
            &&& next matches CallState::Receiving(cursors)
            &&& cursors.texts() == header_cursors(headers)
            &&& action == CallAction::Receive
        },
        (CallState::Receiving(_), CallEvent::ReceiveFailed(detail)) => {
            &&& next == CallState::Done
            &&& action == CallAction::Return(Err(HttpGithubClientError::Receive(detail)))
        },
        (CallState::Receiving(cursors), CallEvent::Received(body)) => {
            &&& next == CallState::Decoding(cursors, body)
            &&& action == CallAction::Decode(body)
        },
        (CallState::Decoding(cursors, body), CallEvent::Decoded(decoded)) => {
            &&& next == CallState::Done
            &&& action == CallAction::Return(decode_outcome(cursors, body, decoded))
        },
        _ => {
            &&& next == CallState::Done
            &&& action matches CallAction::Return(Err(HttpGithubClientError::Other(detail)))
            &&& detail@ == "event does not belong to the state of the call"@
        },
    }
}

/// Starts a call: nothing is sent until the transport is ready.
pub fn begin(request: HttpRequest) -> (r: CallState)
    ensures
        r == CallState::Pending(request),
{
    CallState::Pending(request)
}

/// Answers an event.
///
/// A transport that is not ready ends the call as `PollReady`, and nothing
/// is sent. A request that cannot be sent ends it as `Send`. The cursors are
/// read off the headers when the response comes, before its body is
/// received. A body that cannot be read to its end ends the call as
/// `Receive`. A body that cannot be decoded ends it as `ResponseFormat`, with
/// the bytes that were received; one that can ends it with the page. An event
/// that the state does not wait for ends the call as `Other`.
pub fn step(state: CallState, event: CallEvent) -> (r: (CallState, CallAction))
    ensures
        answers(state, event, r.0, r.1),
{
    match (state, event) {
        (CallState::Pending(request), CallEvent::Ready) => (
            CallState::Sent,
            CallAction::Send(request),
        ),
        (CallState::Pending(_), CallEvent::NotReady(detail)) => (
            CallState::Done,
            CallAction::Return(Err(HttpGithubClientError::PollReady(detail))),
        ),
        (CallState::Sent, CallEvent::SendFailed(detail)) => (
            CallState::Done,
            CallAction::Return(Err(HttpGithubClientError::Send(detail))),
        ),
        (CallState::Sent, CallEvent::Responded(headers)) => {
            let cursors: Cursors<String> = get_cursors(&headers);
            (CallState::Receiving(cursors), CallAction::Receive)
        },
        (CallState::Receiving(_), CallEvent::ReceiveFailed(detail)) => (
            CallState::Done,
            CallAction::Return(Err(HttpGithubClientError::Receive(detail))),
        ),
        (CallState::Receiving(cursors), CallEvent::Received(body)) => {
            let copy: Bytes = body.clone();
            (CallState::Decoding(cursors, body), CallAction::Decode(copy))
        },
        (CallState::Decoding(cursors, body), CallEvent::Decoded(decoded)) => (
            CallState::Done,
            CallAction::Return(page_from_body(cursors, body, decoded)),
        ),
        _ => (
            CallState::Done,
            CallAction::Return(
                Err(
                    HttpGithubClientError::Other(
                        "event does not belong to the state of the call".to_owned(),
                    ),
                ),
            ),
        ),
    }
}

/// A call returns to the caller exactly when it is over, and asks for
/// something to be done outside exactly when it goes on.
pub proof fn lemma_return_ends_call(
    state: CallState,
    event: CallEvent,
    next: CallState,
    action: CallAction,
)
    requires
        answers(state, event, next, action),
    ensures
        action is Return <==> next is Done,
        action is Send ==> state is Pending && event is Ready,
        !expected(state, event) ==> (action matches CallAction::Return(Err(error)) && error is Other),
{
}

/// A body that is not a list of releases ends the call as `ResponseFormat`,
/// and the error carries the bytes that were received, unchanged.
pub proof fn lemma_undecodable_body_is_kept(
    cursors: Cursors<String>,
    body: Bytes,
    detail: String,
    next: CallState,
    action: CallAction,
)
    requires
        answers(
            CallState::Decoding(cursors, body),
            CallEvent::Decoded(Err(detail)),
            next,
            action,
        ),
    ensures
        action == CallAction::Return(Err(HttpGithubClientError::ResponseFormat(detail, body))),
{
}

} // verus!
