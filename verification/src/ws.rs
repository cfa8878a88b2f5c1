//! An upload over one long-lived connection.
//!
//! The first binary message carries the metadata, each later one a chunk,
//! and an empty one completes the upload: the client is then sent the
//! session's id and the connection is closed. The session below decides;
//! the code that owns the socket and the store's handle performs.

use crate::id::SessionId;
use crate::payload::{check_metadata, content, metadata_fits};
use crate::store::AppendResult;
use bytes::Bytes;
use vstd::prelude::*;

verus! {

/// Where a connection stands.
#[derive(Clone, Copy, Debug, PartialEq, Eq, Structural)]
pub enum WsSession {
    /// Nothing has come yet; the first message is awaited.
    AwaitingMetadata,
    /// The metadata has come; the session is being opened.
    Opening,
    /// The session is open; the next message is awaited.
    Streaming { id: SessionId },
    /// A chunk is being appended.
    Appending { id: SessionId },
    /// The empty chunk has come; the session is being completed.
    Completing { id: SessionId },
    /// The upload is complete; the client is being sent the id.
    Announcing { id: SessionId },
    /// The connection is being closed.
    Closing,
    /// Nothing more happens on this connection. Final.
    Closed,
}

/// What happened on the connection, or came back from the store.
#[derive(Clone, Debug, PartialEq, Eq)]
pub enum WsEvent {
    /// A binary message came.
    Binary(Bytes),
    /// A close message came.
    CloseRequested,
    /// A message of another kind came.
    Other,
    /// The peer is gone: the stream of messages ended.
    Ended,
    /// Receiving failed.
    Broken,
    /// The store opened the session under this id.
    Opened(SessionId),
    /// The store answered an append or a completion.
    Appended(AppendResult),
    /// A send or a close succeeded.
    Sent,
    /// The operation in flight failed.
    Failed,
}

/// What to do on the connection, or to ask of the store. The outcome comes
/// back as the next event.
#[derive(Clone, Debug, PartialEq, Eq)]
pub enum WsAction {
    /// Wait for the next message.
    Receive,
    /// Open a session with this metadata.
    Initiate(Bytes),
    /// Append these bytes to the session.
    Append(SessionId, Bytes),
    /// Complete the session.
    Complete(SessionId),
    /// Send the session's id to the client, as text.
    SendId(SessionId),
    /// Send the client's close message back.
    EchoClose,
    /// Close the connection.
    Close,
    /// Leave the connection: there is nothing more to do.
    Leave,
}

/// The connection's transition: the state and the action that follow when
/// a connection in state `s` is told of `e`.
///
/// What does not fit the state ends the connection without a word. A
/// session that was opened and not completed is left to its worker, which
/// gives it up when no chunk comes in time.
pub open spec fn ws_next(s: WsSession, e: WsEvent) -> (WsSession, WsAction) {
    match s {
        WsSession::AwaitingMetadata => match e {
            WsEvent::Binary(meta) => if metadata_fits(content(meta)) {
                (WsSession::Opening, WsAction::Initiate(meta))
            } else {
                (WsSession::Closed, WsAction::Leave)
            },
            WsEvent::CloseRequested => (WsSession::Closing, WsAction::EchoClose),
            _ => (WsSession::Closed, WsAction::Leave),
        },
        WsSession::Opening => match e {
            WsEvent::Opened(id) => (WsSession::Streaming { id }, WsAction::Receive),
            _ => (WsSession::Closed, WsAction::Leave),
        },
        WsSession::Streaming { id } => match e {
            WsEvent::Binary(blob) => if content(blob).len() == 0 {
                (WsSession::Completing { id }, WsAction::Complete(id))
            } else {
                (WsSession::Appending { id }, WsAction::Append(id, blob))
            },
            WsEvent::CloseRequested => (WsSession::Closing, WsAction::EchoClose),
            _ => (WsSession::Closed, WsAction::Leave),
        },
        WsSession::Appending { id } => match e {
            WsEvent::Appended(AppendResult::Continue) => (
                WsSession::Streaming { id },
                WsAction::Receive,
            ),
            _ => (WsSession::Closed, WsAction::Leave),
        },
        WsSession::Completing { id } => match e {
            WsEvent::Appended(AppendResult::Done) => (
                WsSession::Announcing { id },
                WsAction::SendId(id),
            ),
            _ => (WsSession::Closed, WsAction::Leave),
        },
        WsSession::Announcing { id } => match e {
            WsEvent::Sent => (WsSession::Closing, WsAction::Close),
            _ => (WsSession::Closed, WsAction::Leave),
        },
        WsSession::Closing => (WsSession::Closed, WsAction::Leave),
        WsSession::Closed => (WsSession::Closed, WsAction::Leave),
    }
}

impl WsSession {
    /// A connection that has just been accepted, and the first thing to do
    /// on it: wait for the metadata.
    pub fn accept() -> (begun: (WsSession, WsAction))
        ensures
            begun == (WsSession::AwaitingMetadata, WsAction::Receive),
    {
        (WsSession::AwaitingMetadata, WsAction::Receive)
    }

    /// Takes the connection one step.
    pub fn on_event(self, event: WsEvent) -> (r: (WsSession, WsAction))
        ensures
            r == ws_next(self, event),
    {
        match self {
            WsSession::AwaitingMetadata => match event {
                WsEvent::Binary(meta) => {
                    if check_metadata(&meta) {
                        (WsSession::Opening, WsAction::Initiate(meta))
                    } else {
                        (WsSession::Closed, WsAction::Leave)
                    }
                },
                WsEvent::CloseRequested => (WsSession::Closing, WsAction::EchoClose),
                _ => (WsSession::Closed, WsAction::Leave),
            },
            WsSession::Opening => match event {
                WsEvent::Opened(id) => (WsSession::Streaming { id }, WsAction::Receive),
                _ => (WsSession::Closed, WsAction::Leave),
            },
            WsSession::Streaming { id } => match event {
                WsEvent::Binary(blob) => {
                    if blob.is_empty() {
                        (WsSession::Completing { id }, WsAction::Complete(id))
                    } else {
                        (WsSession::Appending { id }, WsAction::Append(id, blob))
                    }
                },
                WsEvent::CloseRequested => (WsSession::Closing, WsAction::EchoClose),
                _ => (WsSession::Closed, WsAction::Leave),
            },
            WsSession::Appending { id } => match event {
                WsEvent::Appended(AppendResult::Continue) => (
                    WsSession::Streaming { id },
                    WsAction::Receive,
                ),
                _ => (WsSession::Closed, WsAction::Leave),
            },
            WsSession::Completing { id } => match event {
                WsEvent::Appended(AppendResult::Done) => (
                    WsSession::Announcing { id },
                    WsAction::SendId(id),
                ),
                _ => (WsSession::Closed, WsAction::Leave),
            },
            WsSession::Announcing { id } => match event {
                WsEvent::Sent => (WsSession::Closing, WsAction::Close),
                _ => (WsSession::Closed, WsAction::Leave),
            },
            WsSession::Closing => (WsSession::Closed, WsAction::Leave),
            WsSession::Closed => (WsSession::Closed, WsAction::Leave),
        }
    }
}

/// The id is sent only for a completed upload: `SendId` follows the store's
/// `Done` to the completing chunk of the same session, and nothing else.
pub proof fn law_id_sent_after_completion(s: WsSession, e: WsEvent, id: SessionId)
    requires
        ws_next(s, e).1 == WsAction::SendId(id),
    ensures
        s == (WsSession::Completing { id }),
        e == WsEvent::Appended(AppendResult::Done),
{
}

/// The connection is closed once the id has been sent, and not before:
/// `Close` follows the successful send of the id, and nothing else.
pub proof fn law_closed_after_id_sent(s: WsSession, e: WsEvent)
    requires
        ws_next(s, e).1 == WsAction::Close,
    ensures
        s is Announcing,
        e is Sent,
{
}

/// The first binary message is the metadata, every later one a chunk: a
/// session is opened only by the first message, with what it carries, and
/// only if that is within the limit; an append carries a later message's
/// bytes, never none.
pub proof fn law_first_message_is_metadata(s: WsSession, e: WsEvent)
    ensures
        ws_next(s, e).1 matches WsAction::Initiate(meta) ==> s is AwaitingMetadata && e
            == WsEvent::Binary(meta) && metadata_fits(content(meta)),
        ws_next(s, e).1 matches WsAction::Append(id, blob) ==> s == (WsSession::Streaming { id })
            && e == WsEvent::Binary(blob) && content(blob).len() > 0,
        ws_next(s, e).1 matches WsAction::Complete(id) ==> s == (WsSession::Streaming { id }) && (e
            matches WsEvent::Binary(blob) && content(blob).len() == 0),
{
}

/// A closed connection stays closed.
pub proof fn law_closed_is_final(e: WsEvent)
    ensures
        ws_next(WsSession::Closed, e) == (WsSession::Closed, WsAction::Leave),
{
}

} // verus!
