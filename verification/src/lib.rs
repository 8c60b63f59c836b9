//! WebSocket sessions over a connection that has been upgraded.
//!
//! The crate is the core of a session, free of any scheduler: the [`Session`] handle
//! that decides what may still be sent, the [`StreamingBody`] that turns queued
//! messages into framed bytes, and the [`MessageStream`] that turns received bytes
//! into messages. Framing is done by the codec of `actix-http`. Reading, writing and
//! waiting are left to whoever drives the three.

use tokio::sync::mpsc::Receiver;
use vstd::prelude::*;

pub mod body;
pub mod clones;
pub mod codec;
pub mod message;
pub mod queue;
pub mod session;
pub mod stream;

pub use crate::body::{BodyAction, QueueEvent, StreamingBody};
pub use crate::message::{Frame, Message, StreamError};
pub use crate::session::{Closed, Session};
pub use crate::stream::{MessageStream, ReadEvent, StreamAction};

use crate::body::BodyView;
use crate::queue::bounded_queue;
use crate::stream::StreamView;

verus! {

/// The number of messages that the queue between a session and its body holds before
/// a sender has to wait.
pub const QUEUE_CAPACITY: usize = 32;

/// Makes the parts of one session: the body that frames what the session sends, the
/// consumer half of the queue that feeds the body, the session itself around the
/// producer half, and the stream of what the peer sends. All are fresh, and the
/// session is open.
pub fn handle() -> (parts: (StreamingBody, Receiver<Message>, Session, MessageStream))
    ensures
        parts.0@ == BodyView::fresh(),
        parts.0@.wf(),
        parts.2@.open,
        parts.3@ == StreamView::fresh(),
        parts.3@.wf(),
{
    let (tx, rx) = bounded_queue(QUEUE_CAPACITY);
    (StreamingBody::new(), rx, Session::new(tx), MessageStream::new())
}

} // verus!
